//! Operations as exchanges with the kernel.
//!
//! An operation says which system call it needs next, takes the kernel's reply,
//! and either asks for another call or is over. The program that embeds the
//! library makes the calls, one after the other, for as long as the operation
//! is pending.

use vstd::prelude::*;
use core::marker::PhantomData;
use crate::constants::DefaultKeyring;
use crate::error::{Defect, Error, EINVAL};
use crate::serial::KeyringSerial;
use crate::syscall::{Reply, ReplyView, Syscall, SyscallView};

verus! {

/// How an operation ended.
#[derive(Debug, PartialEq, Eq)]
pub enum Outcome<T> {
    /// The operation succeeded, with this result.
    Success(T),
    /// The kernel refused the operation, or a reply of it made no sense as an
    /// answer. The code is the kernel's own wherever the kernel gave one.
    Failure(Error),
    /// The kernel broke its word. There is nothing to do but to stop.
    Fault(Defect),
}

impl<T: View> View for Outcome<T> {
    type V = Outcome<T::V>;

    open spec fn view(&self) -> Outcome<T::V> {
        match self {
            Outcome::Success(value) => Outcome::Success(value@),
            Outcome::Failure(error) => Outcome::Failure(*error),
            Outcome::Fault(defect) => Outcome::Fault(*defect),
        }
    }
}

impl<T> Outcome<T> {
    /// The outcome as a `Result`, with the fault set apart for the caller to
    /// stop on.
    pub fn into_result(self) -> (result: Result<Result<T, Error>, Defect>)
        ensures
            result == match self {
                Outcome::Success(value) => Ok::<Result<T, Error>, Defect>(Ok(value)),
                Outcome::Failure(error) => Ok::<Result<T, Error>, Defect>(Err(error)),
                Outcome::Fault(defect) => Err::<Result<T, Error>, Defect>(defect),
            },
    {
        match self {
            Outcome::Success(value) => Ok(Ok(value)),
            Outcome::Failure(error) => Ok(Err(error)),
            Outcome::Fault(defect) => Err(defect),
        }
    }
}

/// Where an operation stands after a reply.
#[derive(Debug, PartialEq, Eq)]
pub enum Progress<O, T> {
    /// The operation goes on from this state: make its call, and resume it.
    Pending(O),
    /// The operation is over.
    Done(Outcome<T>),
}

impl<O: View, T: View> View for Progress<O, T> {
    type V = Progress<O::V, T::V>;

    open spec fn view(&self) -> Progress<O::V, T::V> {
        match self {
            Progress::Pending(operation) => Progress::Pending(operation@),
            Progress::Done(outcome) => Progress::Done(outcome@),
        }
    }
}

/// An operation on the kernel's keys, in the steps that it takes.
///
/// What an operation asks for and what it makes of a reply depend on nothing but
/// its state and the reply: `spec_call` and `spec_resume` say what they are.
pub trait Operation: Sized + View {
    /// What the operation results in when it succeeds.
    type Output: View;

    /// The call that an operation in this state needs.
    spec fn spec_call(state: Self::V) -> SyscallView;

    /// Where the operation stands after the reply to that call.
    spec fn spec_resume(state: Self::V, reply: ReplyView) -> Progress<
        Self::V,
        <Self::Output as View>::V,
    >;

    /// The call to make next.
    fn call(&self) -> (call: Syscall)
        ensures
            call@ == Self::spec_call(self@),
    ;

    /// Takes the reply to the call and says how the operation goes on.
    fn resume(self, reply: Reply) -> (progress: Progress<Self, Self::Output>)
        ensures
            progress@ == Self::spec_resume(self@, reply@),
    ;
}

/// Where an operation stands after the replies to its calls, taken in their
/// order. Replies that come after the end of the operation change nothing.
pub open spec fn after_replies<O: Operation>(state: O::V, replies: Seq<ReplyView>) -> Progress<
    O::V,
    <O::Output as View>::V,
>
    decreases replies.len(),
{
    if replies.len() == 0 {
        Progress::Pending(state)
    } else {
        match O::spec_resume(state, replies[0]) {
            Progress::Pending(next) => after_replies::<O>(next, replies.drop_first()),
            Progress::Done(outcome) => Progress::Done(outcome),
        }
    }
}

/// Whether a returned value can be the serial of a key: it fits in 32 bits and
/// is not zero.
pub open spec fn is_serial(res: i64) -> bool {
    i32::MIN <= res <= i32::MAX && res != 0
}

/// The serial that a call returned.
pub fn keyring_serial(res: i64) -> (serial: KeyringSerial)
    requires
        is_serial(res),
    ensures
        serial@ == res,
{
    KeyringSerial::new(res as i32).unwrap()
}

/// The size that a call returned.
pub fn size(res: i64) -> (size: usize)
    requires
        0 <= res <= usize::MAX,
    ensures
        size == res,
{
    res as usize
}

/// Takes the status of a call that returns nothing. Such a call returns zero
/// when it succeeds.
pub fn ignore(res: i64)
    requires
        res == 0,
{
}

/// The default keyring that a call returned. A value that names none is
/// reported as an invalid argument.
pub fn default_keyring(res: i64) -> (keyring: Result<DefaultKeyring, Error>)
    ensures
        keyring == match DefaultKeyring::of_id(res as int) {
            Some(k) => Ok::<DefaultKeyring, Error>(k),
            None => Err::<DefaultKeyring, Error>(Error(EINVAL)),
        },
{
    match DefaultKeyring::try_from(res) {
        Ok(keyring) => Ok(keyring),
        Err(_) => Err(Error(EINVAL)),
    }
}

/// A type of values that the kernel returns from a call that succeeded.
pub trait FromReturn: Sized + View {
    /// What a returned value stands for.
    spec fn spec_from_return(res: i64) -> Outcome<Self::V>;

    /// Reads the value that a successful call returned.
    fn from_return(res: i64) -> (outcome: Outcome<Self>)
        ensures
            outcome@ == Self::spec_from_return(res),
    ;
}

impl FromReturn for () {
    open spec fn spec_from_return(res: i64) -> Outcome<()> {
        if res == 0 {
            Outcome::Success(())
        } else {
            Outcome::Fault(Defect::NonZeroStatus)
        }
    }

    fn from_return(res: i64) -> (outcome: Outcome<()>) {
        if res == 0 {
            ignore(res);
            Outcome::Success(())
        } else {
            Outcome::Fault(Defect::NonZeroStatus)
        }
    }
}

impl FromReturn for KeyringSerial {
    open spec fn spec_from_return(res: i64) -> Outcome<int> {
        if res < i32::MIN || res > i32::MAX {
            Outcome::Fault(Defect::WideSerial)
        } else if res == 0 {
            Outcome::Fault(Defect::ZeroSerial)
        } else {
            Outcome::Success(res as int)
        }
    }

    fn from_return(res: i64) -> (outcome: Outcome<KeyringSerial>) {
        if res < -2147483648 || res > 2147483647 {
            Outcome::Fault(Defect::WideSerial)
        } else if res == 0 {
            Outcome::Fault(Defect::ZeroSerial)
        } else {
            Outcome::Success(keyring_serial(res))
        }
    }
}

impl FromReturn for usize {
    open spec fn spec_from_return(res: i64) -> Outcome<usize> {
        if 0 <= res <= usize::MAX {
            Outcome::Success(res as usize)
        } else {
            Outcome::Fault(Defect::BadSize)
        }
    }

    fn from_return(res: i64) -> (outcome: Outcome<usize>) {
        if res < 0 {
            Outcome::Fault(Defect::BadSize)
        } else if res as u64 > usize::MAX as u64 {
            Outcome::Fault(Defect::BadSize)
        } else {
            Outcome::Success(size(res))
        }
    }
}

impl View for DefaultKeyring {
    type V = DefaultKeyring;

    open spec fn view(&self) -> DefaultKeyring {
        *self
    }
}

impl FromReturn for DefaultKeyring {
    open spec fn spec_from_return(res: i64) -> Outcome<DefaultKeyring> {
        match DefaultKeyring::of_id(res as int) {
            Some(keyring) => Outcome::Success(keyring),
            None => Outcome::Failure(Error(EINVAL)),
        }
    }

    fn from_return(res: i64) -> (outcome: Outcome<DefaultKeyring>) {
        match default_keyring(res) {
            Ok(keyring) => Outcome::Success(keyring),
            Err(error) => Outcome::Failure(error),
        }
    }
}

/// What a reply to a single call stands for: the error of the thread where the
/// call failed, and else what the returned value reads as.
pub open spec fn read_reply<T: FromReturn>(reply: ReplyView) -> Outcome<T::V> {
    if reply.ret == -1 {
        Outcome::Failure(Error(reply.errno))
    } else {
        T::spec_from_return(reply.ret)
    }
}

/// The error of a failed call reaches the caller as the kernel reported it:
/// whatever is asked for, the error is the code of the thread, and two errors
/// are told apart whenever the kernel tells them apart.
pub proof fn lemma_error_is_verbatim<T: FromReturn>(reply: ReplyView, other: ReplyView)
    requires
        reply.ret == -1,
        other.ret == -1,
    ensures
        read_reply::<T>(reply) == Outcome::<T::V>::Failure(Error(reply.errno)),
        read_reply::<T>(reply) == read_reply::<T>(other) <==> reply.errno == other.errno,
{
}

/// An operation of one system call, whose returned value reads as a `T`.
pub struct Request<T> {
    call: Syscall,
    reads: PhantomData<T>,
}

impl<T> View for Request<T> {
    type V = SyscallView;

    closed spec fn view(&self) -> SyscallView {
        self.call@
    }
}

impl<T> Request<T> {
    /// The operation that makes this call.
    pub fn new(call: Syscall) -> (request: Request<T>)
        ensures
            request@ == call@,
    {
        Request { call, reads: PhantomData }
    }

    /// The same call, with the returned value read as another type.
    pub fn reading<U>(self) -> (request: Request<U>)
        ensures
            request@ == self@,
    {
        Request { call: self.call, reads: PhantomData }
    }
}

impl<T: FromReturn> Operation for Request<T> {
    type Output = T;

    open spec fn spec_call(state: SyscallView) -> SyscallView {
        state
    }

    open spec fn spec_resume(state: SyscallView, reply: ReplyView) -> Progress<SyscallView, T::V> {
        Progress::Done(read_reply::<T>(reply))
    }

    fn call(&self) -> (call: Syscall) {
        let call = self.call.clone();
        assert(<Request<T> as Operation>::spec_call(self@) == self@);
        call
    }

    fn resume(self, reply: Reply) -> (progress: Progress<Request<T>, T>) {
        match crate::syscall::check_syscall(reply.ret, reply.errno) {
            Err(error) => Progress::Done(Outcome::Failure(error)),
            Ok(res) => Progress::Done(T::from_return(res)),
        }
    }
}

} // verus!
