//! Asymmetric keys

use vstd::prelude::*;
use crate::syscall::holds_nul;
use vstd::string::StringExecFns;
use std::borrow::Cow;
use crate::api::{Key, Keyring};
use crate::keytype::{lemma_ascii_holds_no_nul, KeyRestriction, KeyType, RestrictableKeyType};
use crate::serial::KeyringSerial;
use crate::text::{push_signed_decimal, signed_decimal_text};

verus! {

/// Asymmetric keys support encrypting, decrypting, signing, and verifying data.
///
/// Note that when searching for an asymmetric key, the following formats may be
/// used:
///
///   - `ex:<id>`: an exact match of the key ID
///   - `id:<id>`: a partial match of the key ID
#[derive(Debug, Default, Clone, Copy, PartialEq, Eq)]
pub struct Asymmetric;

impl KeyType for Asymmetric {
    /// Asymmetric key descriptions may be left empty to allow the kernel to
    /// generate a random description.
    type Description = str;

    /// Asymmetric key payloads must be in a format supported by the kernel.
    ///
    ///   - `pkcs8`
    ///   - `tpm`
    ///   - `x509`
    ///
    /// The kernel will automatically detect the format.
    type Payload = [u8];

    open spec fn spec_name() -> Seq<char> {
        "asymmetric"@
    }

    fn name() -> (name: &'static str) {
        "asymmetric"
    }
}

impl Asymmetric {
    /// The name of the type holds no NUL: the kernel can take it.
    pub proof fn lemma_name_holds_no_nul()
        ensures
            !holds_nul(<Asymmetric as KeyType>::spec_name()),
    {
        reveal_strlit("asymmetric");
        lemma_ascii_holds_no_nul("asymmetric"@);
    }
}

/// A restriction that may be placed onto a keyring using an asymmetric key.
#[derive(Debug, Clone, PartialEq, Eq)]
pub enum AsymmetricRestriction {
    /// Only allow keys which have been signed by a key on the builtin trusted
    /// keyring.
    BuiltinTrusted,
    /// Only allow keys which have been signed by a key on the builtin or
    /// secondary trusted keyrings.
    BuiltinAndSecondaryTrusted,
    /// Only allow keys which have been signed by the given key.
    Key {
        /// The signing key.
        key: Key,
        /// Whether or not chaining should be used (see `Chained`).
        chained: bool,
    },
    /// Only allow keys which have been signed by a key on the given keyring.
    Keyring {
        /// The keyring with permitted signing keys.
        keyring: Keyring,
        /// Whether or not chaining should be used (see `Chained`).
        chained: bool,
    },
    /// When chaining the destination keyring is also searched for signing keys.
    ///
    /// This allows building up a chain of trust in the destination keyring.
    Chained,
}

/// The restriction to what a key or the keys of a keyring have signed, with or
/// without chaining.
pub open spec fn key_or_keyring(id: int, chained: bool) -> Seq<char> {
    "key_or_keyring:"@ + signed_decimal_text(id) + (if chained {
        ":chain"@
    } else {
        ""@
    })
}

impl AsymmetricRestriction {
    /// The restriction to what a key or the keys of a keyring have signed.
    pub fn restriction_str(id: KeyringSerial, chained: bool) -> (text: String)
        ensures
            text@ == key_or_keyring(id@, chained),
    {
        let chain_suffix = if chained {
            ":chain"
        } else {
            ""
        };
        let mut text = String::from_str("key_or_keyring:");
        push_signed_decimal(&mut text, id.get() as i64);
        text.append(chain_suffix);
        text
    }
}

impl KeyRestriction for AsymmetricRestriction {
    open spec fn spec_restriction(&self) -> Seq<char> {
        match self {
            AsymmetricRestriction::BuiltinTrusted => "builtin_trusted"@,
            AsymmetricRestriction::BuiltinAndSecondaryTrusted => "builtin_and_secondary_trusted"@,
            AsymmetricRestriction::Key { key, chained } => key_or_keyring(key@, *chained),
            AsymmetricRestriction::Keyring { keyring, chained } => key_or_keyring(
                keyring@,
                *chained,
            ),
            AsymmetricRestriction::Chained => "key_or_keyring:0:chain"@,
        }
    }

    fn restriction(&self) -> (restriction: Cow<'_, str>) {
        match self {
            AsymmetricRestriction::BuiltinTrusted => Cow::Borrowed("builtin_trusted"),
            AsymmetricRestriction::BuiltinAndSecondaryTrusted => Cow::Borrowed(
                "builtin_and_secondary_trusted",
            ),
            AsymmetricRestriction::Key { key, chained } => Cow::Owned(
                AsymmetricRestriction::restriction_str(key.serial(), *chained),
            ),
            AsymmetricRestriction::Keyring { keyring, chained } => Cow::Owned(
                AsymmetricRestriction::restriction_str(keyring.serial(), *chained),
            ),
            AsymmetricRestriction::Chained => Cow::Borrowed("key_or_keyring:0:chain"),
        }
    }
}

impl RestrictableKeyType for Asymmetric {
    type Restriction = AsymmetricRestriction;
}

} // verus!
