//! Encrypted keys

use vstd::prelude::*;
use crate::syscall::holds_nul;
use vstd::string::{StrSliceExecFns, StringExecFns};
use std::borrow::Cow;
use crate::keytype::{lemma_ascii_holds_no_nul, text_of, KeyPayload, KeyType};
use crate::text::{decimal_text, hex_bytes_text, push_decimal};
use super::AsciiHex;

verus! {

/// Encrypted keys.
///
/// Encrypted keys are very similar to `Trusted` keys, however they do not
/// require a TPM to be used.
#[derive(Debug, Default, Clone, Copy, PartialEq, Eq)]
pub struct Encrypted;

impl KeyType for Encrypted {
    /// The format of the description depends on the format.
    ///
    /// For `ecryptfs`-format keys, the description must be a 16-character
    /// hexadecimal string.
    type Description = str;

    /// What is asked of the kernel: a new key, a blob to load, or a new master
    /// key.
    type Payload = Payload;

    open spec fn spec_name() -> Seq<char> {
        "encrypted"@
    }

    fn name() -> (name: &'static str) {
        "encrypted"
    }
}

impl Encrypted {
    /// The name of the type holds no NUL: the kernel can take it.
    pub proof fn lemma_name_holds_no_nul()
        ensures
            !holds_nul(<Encrypted as KeyType>::spec_name()),
    {
        reveal_strlit("encrypted");
        lemma_ascii_holds_no_nul("encrypted"@);
    }
}

/// The format of the encrypted payload.
#[derive(Debug, Clone, Copy, PartialEq, Eq, Structural)]
pub enum Format {
    /// A free-form encrypted key.
    Default,
    /// A key for use with eCryptfs.
    ///
    /// Keys of this format must have a description of exactly 16 hexadecimal
    /// characters. The keylength must also be 64.
    Ecryptfs,
}

impl Format {
    /// The name of the key format.
    pub open spec fn spec_name(self) -> Seq<char> {
        match self {
            Format::Default => "default"@,
            Format::Ecryptfs => "ecryptfs"@,
        }
    }

    /// The name of the key format.
    pub fn name(&self) -> (name: &'static str)
        ensures
            name@ == self.spec_name(),
    {
        match *self {
            Format::Default => "default",
            Format::Ecryptfs => "ecryptfs",
        }
    }
}

impl Default for Format {
    fn default() -> (format: Format)
        ensures
            format == Format::Default,
    {
        Format::Default
    }
}

/// The master key type.
///
/// This indicates the key type to use for encryting the generatetd key.
#[derive(Debug, Clone, Copy, PartialEq, Eq, Structural)]
pub enum MasterKeyType {
    /// A trusted key.
    ///
    /// Trusted keys require a TPM.
    Trusted,
    /// A user key.
    ///
    /// Note that user keys are only as trustworthy as the code which loaded the
    /// key.
    User,
}

impl MasterKeyType {
    /// The name of the master key type.
    pub open spec fn spec_name(self) -> Seq<char> {
        match self {
            MasterKeyType::Trusted => "trusted"@,
            MasterKeyType::User => "user"@,
        }
    }

    /// The name of the master key type.
    pub fn name(&self) -> (name: &'static str)
        ensures
            name@ == self.spec_name(),
    {
        match *self {
            MasterKeyType::Trusted => "trusted",
            MasterKeyType::User => "user",
        }
    }
}

/// The payload for an encrypted key.
#[derive(Debug, PartialEq, Eq)]
pub enum Payload {
    /// Create a new key.
    ///
    /// Use this with `add_key`.
    New {
        /// The format of the new key.
        format: Option<Format>,
        /// The type of key to use for encrypting the new key.
        keytype: MasterKeyType,
        /// The description of the key to use for encrypting the new key.
        description: Cow<'static, str>,
        /// The size of the key to generate.
        keylen: usize,
    },
    /// Load a blob into the key.
    ///
    /// Use this with `add_key`.
    Load {
        /// The blob to load into the key.
        blob: Vec<u8>,
    },
    /// Update a key.
    ///
    /// Use this with `update`. Note that `keytype` must be the same as the
    /// `keytype` when creating the key.
    Update {
        /// The type of key to use to encrypt the new key.
        ///
        /// Must be the same type as when the key was created.
        keytype: MasterKeyType,
        /// The description of the key to use for encrypting the new key.
        description: Cow<'static, str>,
    },
}

/// A copy of a text that is borrowed or owned.
fn copy_text(text: &Cow<'static, str>) -> (copy: Cow<'static, str>)
    ensures
        copy@ == text@,
{
    match text {
        Cow::Borrowed(borrowed) => Cow::Borrowed(*borrowed),
        Cow::Owned(owned) => Cow::Owned(owned.clone()),
    }
}

impl Clone for Payload {
    fn clone(&self) -> (copy: Payload)
        ensures
            copy.spec_text() == self.spec_text(),
    {
        match self {
            Payload::New { format, keytype, description, keylen } => Payload::New {
                format: *format,
                keytype: *keytype,
                description: copy_text(description),
                keylen: *keylen,
            },
            Payload::Load { blob } => Payload::Load { blob: blob.clone() },
            Payload::Update { keytype, description } => Payload::Update {
                keytype: *keytype,
                description: copy_text(description),
            },
        }
    }
}

/// The format that is used where none is named.
pub open spec fn format_or_default(format: Option<Format>) -> Format {
    match format {
        Some(f) => f,
        None => Format::Default,
    }
}

impl Payload {
    /// The command that the kernel is given.
    pub open spec fn spec_text(&self) -> Seq<char> {
        match self {
            Payload::New { format, keytype, description, keylen } => "new "@ + format_or_default(
                *format,
            ).spec_name() + " "@ + keytype.spec_name() + ":"@ + description@ + " "@ + decimal_text(
                *keylen as nat,
            ),
            Payload::Load { blob } => "load "@ + hex_bytes_text(blob@),
            Payload::Update { keytype, description } => "update "@ + keytype.spec_name() + ":"@
                + description@,
        }
    }

    /// The command that the kernel is given.
    pub fn text(&self) -> (text: String)
        ensures
            text@ == self.spec_text(),
    {
        match self {
            Payload::New { format, keytype, description, keylen } => {
                let format: Format = match format {
                    Some(f) => *f,
                    None => Format::default(),
                };
                let mut out = String::from_str("new ");
                out.append(format.name());
                out.append(" ");
                out.append(keytype.name());
                out.append(":");
                out.append(text_of(description));
                out.append(" ");
                push_decimal(&mut out, *keylen as u64);
                out
            },
            Payload::Load { blob } => {
                let mut out = String::from_str("load ");
                out.append(AsciiHex::convert(blob.as_slice()).as_str());
                out
            },
            Payload::Update { keytype, description } => {
                let mut out = String::from_str("update ");
                out.append(keytype.name());
                out.append(":");
                out.append(text_of(description));
                out
            },
        }
    }
}

impl KeyPayload for Payload {
    open spec fn spec_payload(&self) -> Seq<u8> {
        vstd::utf8::encode_utf8(self.spec_text())
    }

    fn payload(&self) -> (payload: Cow<'_, [u8]>) {
        Cow::Owned(self.text().as_str().as_bytes_vec())
    }
}

} // verus!
