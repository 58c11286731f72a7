//! User keys

use vstd::prelude::*;
use crate::syscall::holds_nul;
use crate::keytype::{lemma_ascii_holds_no_nul, KeyType};

verus! {

/// Keys that hold what the user gives them. Programs with read permission get
/// the payload back as it was given.
#[derive(Debug, Default, Clone, Copy, PartialEq, Eq)]
pub struct User;

impl KeyType for User {
    /// User key descriptions are free-form.
    type Description = str;

    /// User payloads are free-form.
    type Payload = [u8];

    open spec fn spec_name() -> Seq<char> {
        "user"@
    }

    fn name() -> (name: &'static str) {
        "user"
    }
}

impl User {
    /// The name of the type holds no NUL: the kernel can take it.
    pub proof fn lemma_name_holds_no_nul()
        ensures
            !holds_nul(<User as KeyType>::spec_name()),
    {
        reveal_strlit("user");
        lemma_ascii_holds_no_nul("user"@);
    }
}

} // verus!
