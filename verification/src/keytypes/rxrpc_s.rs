//! RxRPC server keys

use vstd::prelude::*;
use crate::syscall::holds_nul;
use vstd::string::StringExecFns;
use std::borrow::Cow;
use crate::keytype::{lemma_ascii_holds_no_nul, KeyDescription, KeyPayload, KeyType};
use crate::text::{decimal_text, push_decimal};

verus! {

/// An RxRPC server key.
#[derive(Debug, Default, Clone, Copy, PartialEq, Eq)]
pub struct RxRPCServer;

impl KeyType for RxRPCServer {
    /// A server key is described by the service and the security index that it
    /// is for.
    type Description = Description;

    /// The key of the server.
    type Payload = Payload;

    open spec fn spec_name() -> Seq<char> {
        "rxrpc_s"@
    }

    fn name() -> (name: &'static str) {
        "rxrpc_s"
    }
}

impl RxRPCServer {
    /// The name of the type holds no NUL: the kernel can take it.
    pub proof fn lemma_name_holds_no_nul()
        ensures
            !holds_nul(<RxRPCServer as KeyType>::spec_name()),
    {
        reveal_strlit("rxrpc_s");
        lemma_ascii_holds_no_nul("rxrpc_s"@);
    }
}

/// The description of an RxRPC server key.
#[derive(Debug, Clone, PartialEq, Eq)]
pub struct Description {
    /// The ID of the service.
    pub service_id: u16,
    /// The security index.
    pub security_index: u8,
}

impl KeyDescription for Description {
    /// The ID of the service and the security index in decimal, with a colon
    /// between them.
    open spec fn spec_description(&self) -> Seq<char> {
        Seq::<char>::empty() + decimal_text(self.service_id as nat) + ":"@ + decimal_text(
            self.security_index as nat,
        )
    }

    fn description(&self) -> (description: Cow<'_, str>) {
        let mut text = String::new();
        push_decimal(&mut text, self.service_id as u64);
        text.append(":");
        push_decimal(&mut text, self.security_index as u64);
        Cow::Owned(text)
    }
}

/// The payload for an RxRPC server key.
#[derive(Debug, Clone, Copy, PartialEq, Eq)]
pub struct Payload {
    key: [u8; 8],
}

impl Payload {
    /// The payload that holds this key.
    pub fn new(key: [u8; 8]) -> (payload: Payload)
        ensures
            payload.spec_payload() == key@,
    {
        Payload { key }
    }
}

impl KeyPayload for Payload {
    closed spec fn spec_payload(&self) -> Seq<u8> {
        self.key@
    }

    fn payload(&self) -> (payload: Cow<'_, [u8]>) {
        Cow::Borrowed(self.key.as_slice())
    }
}

} // verus!
