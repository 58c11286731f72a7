//! Error codes of the kernel, and the faults that the library finds by itself.

use vstd::prelude::*;

verus! {

/// Invalid argument.
pub const EINVAL: i32 = 22;

/// Not a directory: the kernel's answer where a keyring was needed and a key was given.
pub const ENOTDIR: i32 = 20;

/// The required key is not available.
pub const ENOKEY: i32 = 126;

/// An error code, as the calling thread found it after a failed system call.
///
/// The library never reinterprets a code: what the kernel reported is what the
/// caller sees.
#[derive(Clone, Copy, Debug, PartialEq, Eq, Structural, Hash)]
pub struct Error(pub i32);

impl Error {
    /// The numeric code.
    pub fn code(&self) -> (code: i32)
        ensures
            code == self.0,
    {
        self.0
    }
}

/// A reply that breaks what the kernel promises of its interface.
///
/// None of these is an error of the caller, and none can be recovered from: a
/// program that meets one has to stop.
#[derive(Clone, Copy, Debug, PartialEq, Eq, Structural, Hash)]
pub enum Defect {
    /// A key ID that does not fit in 32 bits.
    WideSerial,
    /// A key ID of zero.
    ZeroSerial,
    /// A size that `usize` cannot hold.
    BadSize,
    /// A status other than zero from a call that returns nothing.
    NonZeroStatus,
    /// A buffer that holds fewer bytes than the kernel reported to have written.
    ShortBuffer,
    /// Text that is not UTF-8.
    NotText,
    /// A description whose owner, group or permission field is no number.
    BadNumber,
}

impl Defect {
    /// The sentence that reports the fault.
    pub open spec fn spec_message(self) -> Seq<char> {
        match self {
            Defect::WideSerial => "It appears as though the kernel made a 64-bit key ID."@,
            Defect::ZeroSerial => "It appears as though a key ID of zero was found."@,
            Defect::BadSize => "The kernel returned a size that `usize` cannot hold."@,
            Defect::NonZeroStatus => "The kernel returned a status where none was expected."@,
            Defect::ShortBuffer => "The kernel reported more bytes than it wrote."@,
            Defect::NotText => "The kernel returned text that is not UTF-8."@,
            Defect::BadNumber => "The kernel returned a description with a malformed number."@,
        }
    }

    /// A sentence for the report of the fault.
    pub fn message(&self) -> (text: &'static str)
        ensures
            text@ == self.spec_message(),
    {
        match self {
            Defect::WideSerial => "It appears as though the kernel made a 64-bit key ID.",
            Defect::ZeroSerial => "It appears as though a key ID of zero was found.",
            Defect::BadSize => "The kernel returned a size that `usize` cannot hold.",
            Defect::NonZeroStatus => "The kernel returned a status where none was expected.",
            Defect::ShortBuffer => "The kernel reported more bytes than it wrote.",
            Defect::NotText => "The kernel returned text that is not UTF-8.",
            Defect::BadNumber => "The kernel returned a description with a malformed number.",
        }
    }
}

} // verus!
