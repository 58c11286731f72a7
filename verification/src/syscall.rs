//! System calls as plain values: what is handed to the kernel, and what comes back.

use vstd::prelude::*;
use vstd::string::StrSliceExecFns;
use crate::error::Error;

verus! {

pub const KEYCTL_GET_KEYRING_ID: u32 = 0;
pub const KEYCTL_JOIN_SESSION_KEYRING: u32 = 1;
pub const KEYCTL_UPDATE: u32 = 2;
pub const KEYCTL_REVOKE: u32 = 3;
pub const KEYCTL_CHOWN: u32 = 4;
pub const KEYCTL_SETPERM: u32 = 5;
pub const KEYCTL_DESCRIBE: u32 = 6;
pub const KEYCTL_CLEAR: u32 = 7;
pub const KEYCTL_LINK: u32 = 8;
pub const KEYCTL_UNLINK: u32 = 9;
pub const KEYCTL_SEARCH: u32 = 10;
pub const KEYCTL_READ: u32 = 11;
pub const KEYCTL_INSTANTIATE: u32 = 12;
pub const KEYCTL_NEGATE: u32 = 13;
pub const KEYCTL_SET_REQKEY_KEYRING: u32 = 14;
pub const KEYCTL_SET_TIMEOUT: u32 = 15;
pub const KEYCTL_ASSUME_AUTHORITY: u32 = 16;
pub const KEYCTL_GET_SECURITY: u32 = 17;
pub const KEYCTL_SESSION_TO_PARENT: u32 = 18;
pub const KEYCTL_REJECT: u32 = 19;
pub const KEYCTL_INVALIDATE: u32 = 21;
pub const KEYCTL_GET_PERSISTENT: u32 = 22;
pub const KEYCTL_DH_COMPUTE: u32 = 23;
pub const KEYCTL_RESTRICT_KEYRING: u32 = 29;

/// The three entry points of the kernel's key management facility.
#[derive(Clone, Copy, Debug, PartialEq, Eq, Structural, Hash)]
pub enum Entry {
    /// `add_key`
    AddKey,
    /// `request_key`
    RequestKey,
    /// `keyctl`, whose first argument selects the operation
    Keyctl,
}

/// One argument of a system call.
#[derive(Debug, PartialEq, Eq)]
pub enum Arg {
    /// An integer, passed by value.
    Int(i64),
    /// A length or a capacity, passed by value.
    Size(usize),
    /// The null pointer.
    Null,
    /// A pointer to these bytes, which end in the only NUL among them.
    Text(Vec<u8>),
    /// A pointer to these bytes. The argument after it is their number.
    Data(Vec<u8>),
    /// A pointer to a buffer of this many bytes for the kernel to fill. The
    /// argument after it is the same number.
    Buffer(usize),
}

/// An argument, seen as a mathematical value.
pub enum ArgView {
    Int(int),
    Size(nat),
    Null,
    Text(Seq<u8>),
    Data(Seq<u8>),
    Buffer(nat),
}

impl View for Arg {
    type V = ArgView;

    open spec fn view(&self) -> ArgView {
        match self {
            Arg::Int(value) => ArgView::Int(*value as int),
            Arg::Size(value) => ArgView::Size(*value as nat),
            Arg::Null => ArgView::Null,
            Arg::Text(bytes) => ArgView::Text(bytes@),
            Arg::Data(bytes) => ArgView::Data(bytes@),
            Arg::Buffer(capacity) => ArgView::Buffer(*capacity as nat),
        }
    }
}

impl Clone for Arg {
    fn clone(&self) -> (copy: Arg)
        ensures
            copy@ == self@,
    {
        match self {
            Arg::Int(value) => Arg::Int(*value),
            Arg::Size(value) => Arg::Size(*value),
            Arg::Null => Arg::Null,
            Arg::Text(bytes) => Arg::Text(bytes.clone()),
            Arg::Data(bytes) => Arg::Data(bytes.clone()),
            Arg::Buffer(capacity) => Arg::Buffer(*capacity),
        }
    }
}

/// One system call: the entry point and its arguments in order.
#[derive(Debug, PartialEq, Eq)]
pub struct Syscall {
    pub entry: Entry,
    pub args: Vec<Arg>,
}

/// A system call, seen as a mathematical value.
pub struct SyscallView {
    pub entry: Entry,
    pub args: Seq<ArgView>,
}

impl View for Syscall {
    type V = SyscallView;

    open spec fn view(&self) -> SyscallView {
        SyscallView { entry: self.entry, args: self.args@.map_values(|a: Arg| a@) }
    }
}

impl Clone for Syscall {
    fn clone(&self) -> (copy: Syscall)
        ensures
            copy@ == self@,
    {
        let mut args: Vec<Arg> = Vec::new();
        let mut i: usize = 0;
        while i < self.args.len()
            invariant
                i <= self.args.len(),
                args.len() == i,
                forall|j: int| 0 <= j < i ==> args[j]@ == self.args[j]@,
            decreases self.args.len() - i,
        {
            args.push(self.args[i].clone());
            i += 1;
        }
        let copy = Syscall { entry: self.entry, args };
        assert(copy@.args =~= self@.args);
        copy
    }
}

/// Whether bytes are a C string: they end in a NUL and hold no other.
pub open spec fn is_c_string(bytes: Seq<u8>) -> bool {
    &&& bytes.len() > 0
    &&& bytes.last() == 0
    &&& !bytes.drop_last().contains(0u8)
}

impl SyscallView {
    /// Whether the call is one that the kernel can take: at most six arguments,
    /// every text a C string, and every pointer to data or to a buffer followed
    /// by the size of what it points to.
    pub open spec fn well_formed(self) -> bool {
        &&& self.args.len() <= 6
        &&& forall|i: int|
            0 <= i < self.args.len() ==> match #[trigger] self.args[i] {
                ArgView::Text(bytes) => is_c_string(bytes),
                ArgView::Data(bytes) => i + 1 < self.args.len() && self.args[i + 1]
                    == ArgView::Size(bytes.len()),
                ArgView::Buffer(capacity) => i + 1 < self.args.len() && self.args[i + 1]
                    == ArgView::Size(capacity),
                _ => true,
            }
    }
}

/// The call of `keyctl` for an operation and the arguments after it.
pub open spec fn keyctl(operation: u32, rest: Seq<ArgView>) -> SyscallView {
    SyscallView { entry: Entry::Keyctl, args: seq![ArgView::Int(operation as int)] + rest }
}

/// What came back from one system call.
#[derive(Debug, PartialEq, Eq)]
pub struct Reply {
    /// The value that the call returned.
    pub ret: i64,
    /// The error code of the calling thread right after the call. It means
    /// something only where the call returned -1.
    pub errno: i32,
    /// What the buffer holds after the call, where the call had one: the bytes
    /// that the kernel wrote, from the first on.
    pub data: Vec<u8>,
}

/// A reply, seen as a mathematical value.
pub struct ReplyView {
    pub ret: i64,
    pub errno: i32,
    pub data: Seq<u8>,
}

impl View for Reply {
    type V = ReplyView;

    open spec fn view(&self) -> ReplyView {
        ReplyView { ret: self.ret, errno: self.errno, data: self.data@ }
    }
}

impl Reply {
    /// The reply of a call that returned `ret` and filled no buffer.
    pub fn new(ret: i64, errno: i32) -> (reply: Reply)
        ensures
            reply@ == (ReplyView { ret, errno, data: Seq::empty() }),
    {
        Reply { ret, errno, data: Vec::new() }
    }

    /// The reply of a call that returned `ret` and left `data` in its buffer.
    pub fn with_data(ret: i64, errno: i32, data: Vec<u8>) -> (reply: Reply)
        ensures
            reply@ == (ReplyView { ret, errno, data: data@ }),
    {
        Reply { ret, errno, data }
    }
}

/// Tells a failed call from one that succeeded: the kernel reports failure by
/// returning -1, and then the thread's error code says why. Any other value is
/// what the call returned.
pub fn check_syscall(res: i64, errno: i32) -> (checked: Result<i64, Error>)
    ensures
        checked == if res == -1 {
            Err::<i64, Error>(Error(errno))
        } else {
            Ok::<i64, Error>(res)
        },
{
    if res == -1 {
        Err(Error(errno))
    } else {
        Ok(res)
    }
}

/// The bytes that stand for a text in a system call: its UTF-8 bytes and a NUL.
pub open spec fn c_string(text: Seq<char>) -> Seq<u8> {
    vstd::utf8::encode_utf8(text).push(0u8)
}

/// Whether a text holds a NUL, which no C string can hold but at its end.
pub open spec fn holds_nul(text: Seq<char>) -> bool {
    vstd::utf8::encode_utf8(text).contains(0u8)
}

/// Whether the text holds a NUL.
pub fn has_nul(text: &str) -> (found: bool)
    ensures
        found == holds_nul(text@),
{
    let bytes = text.as_bytes();
    let mut i: usize = 0;
    while i < bytes.len()
        invariant
            i <= bytes.len(),
            bytes@ == vstd::utf8::encode_utf8(text@),
            forall|j: int| 0 <= j < i ==> bytes[j] != 0,
        decreases bytes.len() - i,
    {
        if bytes[i] == 0 {
            return true;
        }
        i += 1;
    }
    false
}

/// The text as a C string. A text with a NUL inside has none.
pub fn cstring(text: &str) -> (bytes: Vec<u8>)
    requires
        !holds_nul(text@),
    ensures
        bytes@ == c_string(text@),
        is_c_string(bytes@),
{
    let mut bytes = text.as_bytes_vec();
    bytes.push(0u8);
    assert(bytes@.drop_last() =~= vstd::utf8::encode_utf8(text@));
    bytes
}

/// The argument for an optional text: a C string, or the null pointer.
pub open spec fn optional_text(text: Option<Seq<char>>) -> ArgView {
    match text {
        Some(t) => ArgView::Text(c_string(t)),
        None => ArgView::Null,
    }
}

} // verus!
