//! What makes a type of key: its name in the kernel, and how its descriptions and
//! payloads are written down.

use vstd::prelude::*;
use std::borrow::Cow;
use crate::syscall::holds_nul;

verus! {

/// A trait for representing a type of key in the Linux keyring subsystem.
pub trait KeyType {
    /// The type for describing the key.
    type Description: KeyDescription + ?Sized;

    /// The type for representing a payload for the key.
    type Payload: KeyPayload + ?Sized;

    /// The name of the keytype, as a mathematical value. A type that does not
    /// say what its name is has a name of which nothing is known.
    open spec fn spec_name() -> Seq<char> {
        arbitrary()
    }

    /// The name of the keytype.
    fn name() -> (name: &'static str)
        ensures
            name@ == Self::spec_name(),
    ;
}

/// A description for a key.
pub trait KeyDescription {
    /// The text that the kernel stores as the description. A type that does
    /// not say what its descriptions are has descriptions of which nothing is
    /// known.
    open spec fn spec_description(&self) -> Seq<char> {
        arbitrary()
    }

    /// The description of the key.
    fn description(&self) -> (description: Cow<'_, str>)
        ensures
            description@ == self.spec_description(),
    ;
}

impl KeyDescription for str {
    open spec fn spec_description(&self) -> Seq<char> {
        self@
    }

    fn description(&self) -> (description: Cow<'_, str>) {
        Cow::Borrowed(self)
    }
}

impl KeyDescription for String {
    open spec fn spec_description(&self) -> Seq<char> {
        self@
    }

    fn description(&self) -> (description: Cow<'_, str>) {
        Cow::Borrowed(self.as_str())
    }
}

/// A payload for a key.
pub trait KeyPayload {
    /// The bytes that the kernel is given as the payload. A type that does not
    /// say what its payloads are has payloads of which nothing is known.
    open spec fn spec_payload(&self) -> Seq<u8> {
        arbitrary()
    }

    /// The payload for the key.
    fn payload(&self) -> (payload: Cow<'_, [u8]>)
        ensures
            payload@ == self.spec_payload(),
    ;
}

impl KeyPayload for () {
    open spec fn spec_payload(&self) -> Seq<u8> {
        Seq::empty()
    }

    fn payload(&self) -> (payload: Cow<'_, [u8]>) {
        let empty: Vec<u8> = Vec::new();
        Cow::Owned(empty)
    }
}

impl KeyPayload for str {
    open spec fn spec_payload(&self) -> Seq<u8> {
        vstd::utf8::encode_utf8(self@)
    }

    fn payload(&self) -> (payload: Cow<'_, [u8]>) {
        Cow::Borrowed(self.as_bytes())
    }
}

impl KeyPayload for String {
    open spec fn spec_payload(&self) -> Seq<u8> {
        vstd::utf8::encode_utf8(self@)
    }

    fn payload(&self) -> (payload: Cow<'_, [u8]>) {
        Cow::Borrowed(self.as_str().as_bytes())
    }
}

impl KeyPayload for [u8] {
    open spec fn spec_payload(&self) -> Seq<u8> {
        self@
    }

    fn payload(&self) -> (payload: Cow<'_, [u8]>) {
        Cow::Borrowed(self)
    }
}

impl KeyPayload for Vec<u8> {
    open spec fn spec_payload(&self) -> Seq<u8> {
        self@
    }

    fn payload(&self) -> (payload: Cow<'_, [u8]>) {
        Cow::Borrowed(self.as_slice())
    }
}

/// A key which may be restricted into being added to a keyring.
pub trait RestrictableKeyType: KeyType {
    /// The type for representing a restriction for adding keys of this type.
    type Restriction: KeyRestriction + ?Sized;
}

/// A restriction for a key.
pub trait KeyRestriction {
    /// The text that the kernel is given as the restriction. A type that does
    /// not say what its restrictions are has restrictions of which nothing is
    /// known.
    open spec fn spec_restriction(&self) -> Seq<char> {
        arbitrary()
    }

    /// The restriction string of the key.
    fn restriction(&self) -> (restriction: Cow<'_, str>)
        ensures
            restriction@ == self.spec_restriction(),
    ;
}

impl KeyRestriction for str {
    open spec fn spec_restriction(&self) -> Seq<char> {
        self@
    }

    fn restriction(&self) -> (restriction: Cow<'_, str>) {
        Cow::Borrowed(self)
    }
}

impl KeyRestriction for String {
    open spec fn spec_restriction(&self) -> Seq<char> {
        self@
    }

    fn restriction(&self) -> (restriction: Cow<'_, str>) {
        Cow::Borrowed(self.as_str())
    }
}

/// The text that is borrowed or owned.
pub fn text_of<'a>(text: &'a Cow<'a, str>) -> (slice: &'a str)
    ensures
        slice@ == text@,
{
    match text {
        Cow::Borrowed(borrowed) => borrowed,
        Cow::Owned(owned) => owned.as_str(),
    }
}

/// The bytes that are borrowed or owned.
pub fn bytes_of<'a>(bytes: &'a Cow<'a, [u8]>) -> (slice: &'a [u8])
    ensures
        slice@ == bytes@,
{
    match bytes {
        Cow::Borrowed(borrowed) => borrowed,
        Cow::Owned(owned) => owned.as_slice(),
    }
}

/// A text of ASCII characters without a NUL among them holds no NUL in its
/// bytes either.
pub proof fn lemma_ascii_holds_no_nul(text: Seq<char>)
    requires
        vstd::utf8::is_ascii_chars(text),
        forall|i: int| 0 <= i < text.len() ==> text[i] != '\0',
    ensures
        !holds_nul(text),
{
    vstd::utf8::is_ascii_chars_encode_utf8(text);
}

} // verus!
