//! Certificate blacklist keys

use vstd::prelude::*;
use crate::syscall::holds_nul;
use vstd::string::StringExecFns;
use std::borrow::Cow;
use crate::keytype::{lemma_ascii_holds_no_nul, text_of, KeyDescription, KeyType};
use crate::text::{hex_bytes_text, push_hex_bytes};

verus! {

/// Blacklist hashes.
#[derive(Debug, Default, Clone, Copy, PartialEq, Eq)]
pub struct Blacklist;

impl KeyType for Blacklist {
    /// A blacklist key is described by the hash that it bans.
    type Description = Description;

    /// Blacklist keys have no payload.
    type Payload = ();

    open spec fn spec_name() -> Seq<char> {
        "keyring"@
    }

    fn name() -> (name: &'static str) {
        "keyring"
    }
}

impl Blacklist {
    /// The name of the type holds no NUL: the kernel can take it.
    pub proof fn lemma_name_holds_no_nul()
        ensures
            !holds_nul(<Blacklist as KeyType>::spec_name()),
    {
        reveal_strlit("keyring");
        lemma_ascii_holds_no_nul("keyring"@);
    }
}

/// The hash type to blacklist.
#[derive(Debug, Eq)]
pub enum HashType {
    /// x509 data
    Tbs,
    /// Custom hash type
    Other(Cow<'static, str>),
}

impl HashType {
    /// The name of the hash type.
    pub open spec fn spec_name(&self) -> Seq<char> {
        match self {
            HashType::Tbs => "tbs"@,
            HashType::Other(name) => name@,
        }
    }

    /// The name of the hash type.
    pub fn name(&self) -> (name: &str)
        ensures
            name@ == self.spec_name(),
    {
        match self {
            HashType::Tbs => "tbs",
            HashType::Other(name) => text_of(name),
        }
    }
}

impl Clone for HashType {
    fn clone(&self) -> (copy: HashType)
        ensures
            copy.spec_name() == self.spec_name(),
    {
        match self {
            HashType::Tbs => HashType::Tbs,
            HashType::Other(Cow::Borrowed(name)) => HashType::Other(Cow::Borrowed(*name)),
            HashType::Other(Cow::Owned(name)) => HashType::Other(Cow::Owned(name.clone())),
        }
    }
}

impl vstd::std_specs::cmp::PartialEqSpecImpl for HashType {
    open spec fn obeys_eq_spec() -> bool {
        true
    }

    /// Two hash types are the same where they have the same name.
    open spec fn eq_spec(&self, other: &HashType) -> bool {
        self.spec_name() == other.spec_name()
    }
}

impl PartialEq for HashType {
    fn eq(&self, other: &HashType) -> (same: bool) {
        String::from_str(self.name()) == String::from_str(other.name())
    }
}

/// The description of a blacklist key.
#[derive(Debug, Clone)]
pub struct Description {
    /// The hash type to blacklist.
    pub hash_type: HashType,
    /// The hash to blacklist.
    pub hash: Vec<u8>,
}

impl KeyDescription for Description {
    /// The name of the hash type, a colon, and the hash in hexadecimal.
    open spec fn spec_description(&self) -> Seq<char> {
        self.hash_type.spec_name() + ":"@ + hex_bytes_text(self.hash@)
    }

    fn description(&self) -> (description: Cow<'_, str>) {
        let mut text = String::from_str(self.hash_type.name());
        text.append(":");
        push_hex_bytes(&mut text, self.hash.as_slice());
        Cow::Owned(text)
    }
}

} // verus!
