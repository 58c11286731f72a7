//! Logon keys

use vstd::prelude::*;
use crate::syscall::holds_nul;
use crate::keytype::{lemma_ascii_holds_no_nul, KeyType};

verus! {

/// Keys that hold a secret which can be given but not read back: only the kernel uses the payload.
#[derive(Debug, Default, Clone, Copy, PartialEq, Eq)]
pub struct Logon;

impl KeyType for Logon {
    /// Logon key descriptions are free-form, but need a colon in them: a prefix
    /// that names the service, and the rest.
    type Description = str;

    /// Logon payloads are free-form.
    type Payload = [u8];

    open spec fn spec_name() -> Seq<char> {
        "logon"@
    }

    fn name() -> (name: &'static str) {
        "logon"
    }
}

impl Logon {
    /// The name of the type holds no NUL: the kernel can take it.
    pub proof fn lemma_name_holds_no_nul()
        ensures
            !holds_nul(<Logon as KeyType>::spec_name()),
    {
        reveal_strlit("logon");
        lemma_ascii_holds_no_nul("logon"@);
    }
}

} // verus!
