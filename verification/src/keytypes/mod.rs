//! Keytypes
//!
//! The Linux kernel supports many types of keys. They may be compiled out or
//! available as modules. The types provided here try to make it easier to use
//! these keys.

use vstd::prelude::*;
use crate::text::{hex_bytes_text, push_hex_bytes};

pub mod asymmetric;
pub mod big_key;
pub mod blacklist;
pub mod dns_resolver;
pub mod encrypted;
pub mod keyring;
pub mod logon;
pub mod rxrpc;
pub mod rxrpc_s;
pub mod trusted;
pub mod user;


pub use self::asymmetric::{Asymmetric, AsymmetricRestriction};
pub use self::big_key::BigKey;
pub use self::blacklist::Blacklist;
pub use self::dns_resolver::DnsResolver;
pub use self::encrypted::Encrypted;



pub use self::keyring::Keyring;
pub use self::logon::Logon;
pub use self::rxrpc::RxRPC;
pub use self::rxrpc_s::RxRPCServer;


pub use self::trusted::Trusted;
pub use self::user::User;

verus! {

/// A structure for assisting in coverting binary data into hexadecimal.
///
/// Many key types take in ASCII hexadecimal input instead of raw binary.
pub struct AsciiHex;

impl AsciiHex {
    /// Convert binary data into an ASCII hexadecimal string: two digits in
    /// lower case for every byte, in the order of the bytes.
    pub fn convert(data: &[u8]) -> (text: String)
        ensures
            text@ == hex_bytes_text(data@),
    {
        let mut text = String::new();
        push_hex_bytes(&mut text, data);
        assert(text@ =~= hex_bytes_text(data@));
        text
    }
}

} // verus!
