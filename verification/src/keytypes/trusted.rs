//! Trusted keys

use vstd::prelude::*;
use crate::syscall::holds_nul;
use vstd::string::{StrSliceExecFns, StringExecFns};
use std::borrow::Cow;
use crate::keytype::{lemma_ascii_holds_no_nul, KeyPayload, KeyType};
use crate::text::{
    decimal_text, hex_bytes_text, hex_text, push_decimal, push_hex, push_hex_bytes,
};

verus! {

/// Trusted keys are rooted in the TPM.
#[derive(Debug, Default, Clone, Copy, PartialEq, Eq)]
pub struct Trusted;

impl KeyType for Trusted {
    /// Trusted key descriptions are free-form.
    type Description = str;

    /// What is asked of the TPM: a new key, a sealed key to load, or new options
    /// for a key.
    type Payload = Payload;

    open spec fn spec_name() -> Seq<char> {
        "trusted"@
    }

    fn name() -> (name: &'static str) {
        "trusted"
    }
}

impl Trusted {
    /// The name of the type holds no NUL: the kernel can take it.
    pub proof fn lemma_name_holds_no_nul()
        ensures
            !holds_nul(<Trusted as KeyType>::spec_name()),
    {
        reveal_strlit("trusted");
        lemma_ascii_holds_no_nul("trusted"@);
    }
}

/// Hashes supported by TPM devices.
#[derive(Debug, Clone, Copy, PartialEq, Eq, Structural)]
pub enum TpmHash {
    /// SHA-1
    Sha1,
    /// SHA-256
    ///
    /// Requires TPM2.
    Sha256,
    /// SHA-384
    ///
    /// Requires TPM2.
    Sha384,
    /// SHA-512
    ///
    /// Requires TPM2.
    Sha512,
    /// sm3-256
    ///
    /// Requires TPM2.
    Sm3_256,
}

impl TpmHash {
    /// The name that the kernel knows the hash by.
    pub open spec fn spec_name(self) -> Seq<char> {
        match self {
            TpmHash::Sha1 => "sha1"@,
            TpmHash::Sha256 => "sha256"@,
            TpmHash::Sha384 => "sha384"@,
            TpmHash::Sha512 => "sha512"@,
            TpmHash::Sm3_256 => "sm3-256"@,
        }
    }

    /// The name that the kernel knows the hash by.
    pub fn name(self) -> (name: &'static str)
        ensures
            name@ == self.spec_name(),
    {
        match self {
            TpmHash::Sha1 => "sha1",
            TpmHash::Sha256 => "sha256",
            TpmHash::Sha384 => "sha384",
            TpmHash::Sha512 => "sha512",
            TpmHash::Sm3_256 => "sm3-256",
        }
    }
}

/// Options for trusted keys.
#[derive(Debug, Default, Clone, PartialEq, Eq)]
pub struct TrustedOptions {
    /// The ID of the sealing key to use.
    pub keyhandle: Option<u32>,
    /// The authorization for sealing keys.
    pub keyauth: Option<[u8; 20]>,
    /// The authorization for sealing data.
    pub blobauth: Option<[u8; 20]>,
    /// Platform Configuration Register (PCR) data.
    pub pcrinfo: Option<Vec<u8>>,
    /// The PCR number in the TPM to extend and lock the key.
    ///
    /// Only makes sense during a `Load` operation.
    pub pcrlock: Option<u32>,
    /// Whether the key may be resealed using new PCR value.
    ///
    /// Defaults to `true` if unspecified.
    pub migratable: Option<bool>,
    /// The hash algorithm to use.
    pub hash: Option<TpmHash>,
    /// The hash digest for the authorization policy.
    ///
    /// The digest must have been generated using the specified `TpmHash`.
    pub policydigest: Option<Vec<u8>>,
    /// The session handle for the policy.
    pub policyhandle: Option<u32>,
}

/// Options for trusted keys, seen as a mathematical value.
pub struct TrustedOptionsView {
    pub keyhandle: Option<u32>,
    pub keyauth: Option<Seq<u8>>,
    pub blobauth: Option<Seq<u8>>,
    pub pcrinfo: Option<Seq<u8>>,
    pub pcrlock: Option<u32>,
    pub migratable: Option<bool>,
    pub hash: Option<TpmHash>,
    pub policydigest: Option<Seq<u8>>,
    pub policyhandle: Option<u32>,
}

impl View for TrustedOptions {
    type V = TrustedOptionsView;

    open spec fn view(&self) -> TrustedOptionsView {
        TrustedOptionsView {
            keyhandle: self.keyhandle,
            keyauth: match self.keyauth {
                Some(bytes) => Some(bytes@),
                None => None,
            },
            blobauth: match self.blobauth {
                Some(bytes) => Some(bytes@),
                None => None,
            },
            pcrinfo: match self.pcrinfo {
                Some(bytes) => Some(bytes@),
                None => None,
            },
            pcrlock: self.pcrlock,
            migratable: self.migratable,
            hash: self.hash,
            policydigest: match self.policydigest {
                Some(bytes) => Some(bytes@),
                None => None,
            },
            policyhandle: self.policyhandle,
        }
    }
}

/// An option that holds a number in hexadecimal, where it is set.
pub open spec fn hex_option(name: Seq<char>, value: Option<u32>) -> Seq<char> {
    match value {
        Some(v) => name + hex_text(v as nat),
        None => Seq::empty(),
    }
}

/// An option that holds bytes in hexadecimal, where it is set.
pub open spec fn bytes_option(name: Seq<char>, value: Option<Seq<u8>>) -> Seq<char> {
    match value {
        Some(bytes) => name + hex_bytes_text(bytes),
        None => Seq::empty(),
    }
}

/// An option that holds a number in decimal, where it is set.
pub open spec fn decimal_option(name: Seq<char>, value: Option<u32>) -> Seq<char> {
    match value {
        Some(v) => name + decimal_text(v as nat),
        None => Seq::empty(),
    }
}

/// An option that holds a flag as 0 or 1, where it is set.
pub open spec fn flag_option(name: Seq<char>, value: Option<bool>) -> Seq<char> {
    match value {
        Some(flag) => name + (if flag {
            "1"@
        } else {
            "0"@
        }),
        None => Seq::empty(),
    }
}

/// An option that names a hash, where it is set.
pub open spec fn hash_option(name: Seq<char>, value: Option<TpmHash>) -> Seq<char> {
    match value {
        Some(hash) => name + hash.spec_name(),
        None => Seq::empty(),
    }
}

impl TrustedOptionsView {
    /// The options that are set, each with a space before it, in the order in
    /// which the kernel documents them.
    pub open spec fn text(self) -> Seq<char> {
        Seq::<char>::empty() + hex_option(" keyhandle="@, self.keyhandle) + bytes_option(
            " keyauth="@,
            self.keyauth,
        ) + bytes_option(" blobauth="@, self.blobauth) + bytes_option(" pcrinfo="@, self.pcrinfo)
            + decimal_option(" pcrlock="@, self.pcrlock) + flag_option(
            " migratable="@,
            self.migratable,
        ) + hash_option(" hash="@, self.hash) + bytes_option(" policydigest="@, self.policydigest)
            + hex_option(" policyhandle="@, self.policyhandle)
    }
}

/// Appends an option that holds a number in hexadecimal, where it is set.
fn push_hex_option(out: &mut String, name: &str, value: Option<u32>)
    ensures
        final(out)@ == old(out)@ + hex_option(name@, value),
{
    match value {
        Some(v) => {
            out.append(name);
            push_hex(out, v as u64);
            assert(out@ =~= old(out)@ + hex_option(name@, value));
        },
        None => {
            assert(out@ =~= old(out)@ + hex_option(name@, value));
        },
    }
}

/// Appends an option that holds a number in decimal, where it is set.
fn push_decimal_option(out: &mut String, name: &str, value: Option<u32>)
    ensures
        final(out)@ == old(out)@ + decimal_option(name@, value),
{
    match value {
        Some(v) => {
            out.append(name);
            push_decimal(out, v as u64);
            assert(out@ =~= old(out)@ + decimal_option(name@, value));
        },
        None => {
            assert(out@ =~= old(out)@ + decimal_option(name@, value));
        },
    }
}

/// Appends an option that holds a flag, where it is set.
fn push_flag_option(out: &mut String, name: &str, value: Option<bool>)
    ensures
        final(out)@ == old(out)@ + flag_option(name@, value),
{
    match value {
        Some(flag) => {
            out.append(name);
            if flag {
                out.append("1");
            } else {
                out.append("0");
            }
            assert(out@ =~= old(out)@ + flag_option(name@, value));
        },
        None => {
            assert(out@ =~= old(out)@ + flag_option(name@, value));
        },
    }
}

/// Appends an option that names a hash, where it is set.
fn push_hash_option(out: &mut String, name: &str, value: Option<TpmHash>)
    ensures
        final(out)@ == old(out)@ + hash_option(name@, value),
{
    match value {
        Some(hash) => {
            out.append(name);
            out.append(hash.name());
            assert(out@ =~= old(out)@ + hash_option(name@, value));
        },
        None => {
            assert(out@ =~= old(out)@ + hash_option(name@, value));
        },
    }
}

/// Appends an option that holds bytes in hexadecimal, where it is set.
fn push_bytes_option(out: &mut String, name: &str, value: Option<&[u8]>)
    ensures
        final(out)@ == old(out)@ + bytes_option(
            name@,
            match value {
                Some(bytes) => Some(bytes@),
                None => None,
            },
        ),
{
    match value {
        Some(bytes) => {
            out.append(name);
            push_hex_bytes(out, bytes);
            assert(out@ =~= old(out)@ + bytes_option(name@, Some(bytes@)));
        },
        None => {
            assert(out@ =~= old(out)@ + bytes_option(name@, None));
        },
    }
}

/// The bytes of an array, where there is one.
fn array_bytes(value: &Option<[u8; 20]>) -> (bytes: Option<&[u8]>)
    ensures
        match bytes {
            Some(b) => value matches Some(a) && b@ == a@,
            None => value is None,
        },
{
    match value {
        Some(array) => Some(array.as_slice()),
        None => None,
    }
}

/// The bytes of a vector, where there is one.
fn vector_bytes(value: &Option<Vec<u8>>) -> (bytes: Option<&[u8]>)
    ensures
        match bytes {
            Some(b) => value matches Some(v) && b@ == v@,
            None => value is None,
        },
{
    match value {
        Some(vector) => Some(vector.as_slice()),
        None => None,
    }
}

impl TrustedOptions {
    /// Formats the options that are present. Starts with a leading space.
    pub fn to_string(&self) -> (text: String)
        ensures
            text@ == self@.text(),
    {
        let mut out = String::new();
        // keyhandle=    ascii hex value of sealing key; default 40000000 (SRK)
        push_hex_option(&mut out, " keyhandle=", self.keyhandle);
        // keyauth=      ascii hex auth for sealing key; default 00...
        //               (40 ascii zeros)
        push_bytes_option(&mut out, " keyauth=", array_bytes(&self.keyauth));
        // blobauth=     ascii hex auth for sealed data; default 00...
        //               (40 ascii zeros)
        push_bytes_option(&mut out, " blobauth=", array_bytes(&self.blobauth));
        // pcrinfo=      ascii hex of PCR_INFO or PCR_INFO_LONG (no default)
        push_bytes_option(&mut out, " pcrinfo=", vector_bytes(&self.pcrinfo));
        // pcrlock=      pcr number to be extended to "lock" blob
        push_decimal_option(&mut out, " pcrlock=", self.pcrlock);
        // migratable=   0|1 indicating permission to reseal to new PCR values,
        //               default 1 (resealing allowed)
        push_flag_option(&mut out, " migratable=", self.migratable);
        // hash=         hash algorithm name as a string. For TPM 1.x the only
        //               allowed value is sha1. For TPM 2.x the allowed values
        //               are sha1, sha256, sha384, sha512 and sm3-256.
        push_hash_option(&mut out, " hash=", self.hash);
        // policydigest= digest for the authorization policy. must be calculated
        //               with the same hash algorithm as specified by the 'hash='
        //               option.
        push_bytes_option(&mut out, " policydigest=", vector_bytes(&self.policydigest));
        // policyhandle= handle to an authorization policy session that defines the
        //               same policy and with the same hash algorithm as was used to
        //               seal the key.
        push_hex_option(&mut out, " policyhandle=", self.policyhandle);
        out
    }
}

/// The payload for trusted keys.
#[derive(Debug, Clone, PartialEq, Eq)]
pub enum Payload {
    /// Create a new key.
    ///
    /// Use this with `add_key`.
    New {
        /// The size of the key to generate.
        keylen: usize,
        /// Options for the new key.
        options: TrustedOptions,
    },
    /// Load a blob into the TPM.
    ///
    /// Use this with `add_key`.
    Load {
        /// The blob to load into the TPM.
        blob: Vec<u8>,
        /// Options for loading.
        options: TrustedOptions,
    },
    /// Update a key.
    ///
    /// Use this with `update`.
    Update {
        /// Options to apply to the key.
        options: TrustedOptions,
    },
}

impl Payload {
    /// The command that the kernel is given: what to do, with what, and the
    /// options.
    pub open spec fn spec_text(&self) -> Seq<char> {
        match self {
            Payload::New { keylen, options } => "new "@ + decimal_text(*keylen as nat)
                + options@.text(),
            Payload::Load { blob, options } => "load "@ + hex_bytes_text(blob@) + options@.text(),
            Payload::Update { options } => "update"@ + options@.text(),
        }
    }

    /// The command that the kernel is given.
    pub fn text(&self) -> (text: String)
        ensures
            text@ == self.spec_text(),
    {
        match self {
            Payload::New { keylen, options } => {
                let mut out = String::from_str("new ");
                push_decimal(&mut out, *keylen as u64);
                out.append(options.to_string().as_str());
                assert(out@ =~= self.spec_text());
                out
            },
            Payload::Load { blob, options } => {
                let mut out = String::from_str("load ");
                push_hex_bytes(&mut out, blob.as_slice());
                out.append(options.to_string().as_str());
                assert(out@ =~= self.spec_text());
                out
            },
            Payload::Update { options } => {
                let mut out = String::from_str("update");
                out.append(options.to_string().as_str());
                assert(out@ =~= self.spec_text());
                out
            },
        }
    }
}

impl KeyPayload for Payload {
    open spec fn spec_payload(&self) -> Seq<u8> {
        vstd::utf8::encode_utf8(self.spec_text())
    }

    fn payload(&self) -> (payload: Cow<'_, [u8]>) {
        Cow::Owned(self.text().as_str().as_bytes_vec())
    }
}

} // verus!
