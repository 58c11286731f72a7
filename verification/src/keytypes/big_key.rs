//! Big keys

use vstd::prelude::*;
use crate::syscall::holds_nul;
use crate::keytype::{lemma_ascii_holds_no_nul, KeyType};

verus! {

/// Keys for payloads that may be too large for kernel memory: the kernel may keep
/// them in swappable storage.
#[derive(Debug, Default, Clone, Copy, PartialEq, Eq)]
pub struct BigKey;

impl KeyType for BigKey {
    /// Big key descriptions are free-form.
    type Description = str;

    /// Big key payloads are free-form.
    type Payload = [u8];

    open spec fn spec_name() -> Seq<char> {
        "big_key"@
    }

    fn name() -> (name: &'static str) {
        "big_key"
    }
}

impl BigKey {
    /// The name of the type holds no NUL: the kernel can take it.
    pub proof fn lemma_name_holds_no_nul()
        ensures
            !holds_nul(<BigKey as KeyType>::spec_name()),
    {
        reveal_strlit("big_key");
        lemma_ascii_holds_no_nul("big_key"@);
    }
}

} // verus!
