//! What the kernel tells of a public key.

use vstd::prelude::*;

verus! {

/// The answer to a query on a public key: what it can be used for, and how much
/// data its operations take and give. A key that was not queried yet is known
/// for nothing.
#[allow(non_camel_case_types)]
#[derive(Debug, Clone, Copy, PartialEq, Eq)]
pub struct keyctl_pkey_query {
    /// The operations that the key supports, one bit each.
    pub supported_ops: u32,
    /// The size of the key in bits.
    pub key_size: u32,
    /// The largest size of the data to sign, in bytes.
    pub max_data_size: u16,
    /// The largest size of a signature, in bytes.
    pub max_sig_size: u16,
    /// The largest size of the data to encrypt, in bytes.
    pub max_enc_size: u16,
    /// The largest size of the data to decrypt, in bytes.
    pub max_dec_size: u16,
    /// Words that the kernel keeps for later use.
    pub spare: [u32; 10],
}

impl keyctl_pkey_query {
    /// The answer for a key of which nothing is known: every number in it is
    /// zero.
    pub fn new() -> (query: keyctl_pkey_query)
        ensures
            query.supported_ops == 0,
            query.key_size == 0,
            query.max_data_size == 0,
            query.max_sig_size == 0,
            query.max_enc_size == 0,
            query.max_dec_size == 0,
            query.spare@ == Seq::new(10, |i: int| 0u32),
    {
        let query = keyctl_pkey_query {
            supported_ops: 0,
            key_size: 0,
            max_data_size: 0,
            max_sig_size: 0,
            max_enc_size: 0,
            max_dec_size: 0,
            spare: [0, 0, 0, 0, 0, 0, 0, 0, 0, 0],
        };
        assert(query.spare@ =~= Seq::new(10, |i: int| 0u32));
        query
    }
}

} // verus!
