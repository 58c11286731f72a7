//! RxRPC client keys

use vstd::prelude::*;
use crate::syscall::holds_nul;
use std::borrow::Cow;
use crate::keytype::{lemma_ascii_holds_no_nul, KeyPayload, KeyType};

verus! {

/// An RxRPC client key.
#[derive(Debug, Default, Clone, Copy, PartialEq, Eq)]
pub struct RxRPC;

impl KeyType for RxRPC {
    /// RxRPC client key descriptions are free-form.
    type Description = str;

    /// A ticket of the security index 2, with its session key.
    type Payload = Payload;

    open spec fn spec_name() -> Seq<char> {
        "rxrpc"@
    }

    fn name() -> (name: &'static str) {
        "rxrpc"
    }
}

impl RxRPC {
    /// The name of the type holds no NUL: the kernel can take it.
    pub proof fn lemma_name_holds_no_nul()
        ensures
            !holds_nul(<RxRPC as KeyType>::spec_name()),
    {
        reveal_strlit("rxrpc");
        lemma_ascii_holds_no_nul("rxrpc"@);
    }
}

/// The two bytes of a number in the byte order of the machine.
pub open spec fn native_u16_bytes(value: u16) -> Seq<u8> {
    match vstd::endian::endianness() {
        vstd::endian::Endian::Little => seq![(value % 0x100) as u8, (value / 0x100) as u8],
        vstd::endian::Endian::Big => seq![(value / 0x100) as u8, (value % 0x100) as u8],
    }
}

/// The four bytes of a number in the byte order of the machine.
pub open spec fn native_u32_bytes(value: u32) -> Seq<u8> {
    match vstd::endian::endianness() {
        vstd::endian::Endian::Little => seq![
            (value % 0x100) as u8,
            (value / 0x100 % 0x100) as u8,
            (value / 0x1_0000 % 0x100) as u8,
            (value / 0x100_0000) as u8,
        ],
        vstd::endian::Endian::Big => seq![
            (value / 0x100_0000) as u8,
            (value / 0x1_0000 % 0x100) as u8,
            (value / 0x100 % 0x100) as u8,
            (value % 0x100) as u8,
        ],
    }
}

/// `u16::to_ne_bytes`: the bytes of a number in the byte order of the machine.
#[verifier::external_body]
fn u16_to_ne_bytes(value: u16) -> (bytes: [u8; 2])
    ensures
        bytes@ == native_u16_bytes(value),
{
    value.to_ne_bytes()
}

/// `u32::to_ne_bytes`: the bytes of a number in the byte order of the machine.
#[verifier::external_body]
fn u32_to_ne_bytes(value: u32) -> (bytes: [u8; 4])
    ensures
        bytes@ == native_u32_bytes(value),
{
    value.to_ne_bytes()
}

/// The payload for an RxRPC client key.
#[derive(Debug, Clone, PartialEq, Eq)]
pub struct Payload {
    expiry: u32,
    version: u8,
    session_key: [u8; 8],
    ticket: Vec<u8>,
}

/// The payload for an RxRPC client key, seen as a mathematical value.
pub struct PayloadView {
    pub expiry: u32,
    pub version: u8,
    pub session_key: Seq<u8>,
    pub ticket: Seq<u8>,
}

impl View for Payload {
    type V = PayloadView;

    closed spec fn view(&self) -> PayloadView {
        PayloadView {
            expiry: self.expiry,
            version: self.version,
            session_key: self.session_key@,
            ticket: self.ticket@,
        }
    }
}

impl PayloadView {
    /// The record that the kernel reads: the security index 2, the length of
    /// the ticket in 16 bits, the expiry, the version of the key, three bytes of
    /// padding, the session key, and the ticket.
    pub open spec fn bytes(self) -> Seq<u8> {
        Seq::<u8>::empty() + native_u16_bytes(2) + native_u16_bytes(
            (self.ticket.len() % 0x1_0000) as u16,
        ) + native_u32_bytes(self.expiry) + seq![self.version] + seq![0u8, 0u8, 0u8]
            + self.session_key + self.ticket
    }
}

impl Payload {
    /// The payload of a ticket.
    pub fn new(expiry: u32, version: u8, session_key: [u8; 8], ticket: Vec<u8>) -> (payload:
        Payload)
        ensures
            payload@ == (PayloadView {
                expiry,
                version,
                session_key: session_key@,
                ticket: ticket@,
            }),
    {
        Payload { expiry, version, session_key, ticket }
    }
}

impl KeyPayload for Payload {
    open spec fn spec_payload(&self) -> Seq<u8> {
        self@.bytes()
    }

    fn payload(&self) -> (payload: Cow<'_, [u8]>) {
        let mut record: Vec<u8> = Vec::new();
        let length: u16 = (self.ticket.len() % 0x1_0000) as u16;
        record.extend_from_slice(u16_to_ne_bytes(2).as_slice());
        record.extend_from_slice(u16_to_ne_bytes(length).as_slice());
        record.extend_from_slice(u32_to_ne_bytes(self.expiry).as_slice());
        record.push(self.version);
        record.push(0);
        record.push(0);
        record.push(0);
        record.extend_from_slice(self.session_key.as_slice());
        record.extend_from_slice(self.ticket.as_slice());
        assert(record@ =~= self@.bytes());
        Cow::Owned(record)
    }
}

} // verus!
