//! Keyrings

use vstd::prelude::*;
use crate::syscall::holds_nul;
use crate::keytype::{lemma_ascii_holds_no_nul, KeyType};

verus! {

/// Keyrings are a collection of links to keys and other keyrings.
#[derive(Debug, Default, Clone, Copy, PartialEq, Eq)]
pub struct Keyring;

impl KeyType for Keyring {
    /// Keyring descriptions are free-form.
    type Description = str;

    /// Keyrings have no payload: they are filled by linking.
    type Payload = ();

    open spec fn spec_name() -> Seq<char> {
        "keyring"@
    }

    fn name() -> (name: &'static str) {
        "keyring"
    }
}

impl Keyring {
    /// The name of the type holds no NUL: the kernel can take it.
    pub proof fn lemma_name_holds_no_nul()
        ensures
            !holds_nul(<Keyring as KeyType>::spec_name()),
    {
        reveal_strlit("keyring");
        lemma_ascii_holds_no_nul("keyring"@);
    }
}

} // verus!
