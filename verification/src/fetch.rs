//! Reading what has no fixed size: payloads, descriptions, security labels and
//! computed values.
//!
//! The kernel writes such a value into a buffer of the caller and returns the
//! size of the whole value. A first call without a buffer asks for the size, the
//! next one brings a buffer of that size. Nothing locks the key between the two
//! calls, so the value may have grown: then the returned size is larger than the
//! buffer, what the buffer holds is dropped, and the call is made again with a
//! buffer of the new size, for as often as it takes. A value is never cut short.

use vstd::prelude::*;
use vstd::string::StringExecFns;
use crate::description::{scanned, Description, DescriptionView, Scanned};
use crate::error::{Defect, Error, EINVAL};
use crate::exchange::{after_replies, FromReturn, Operation, Outcome, Progress, Request};
use crate::functions::{
    buffer_args, keyctl_describe, keyctl_dh_compute, keyctl_get_security, keyctl_read,
};
use crate::serial::KeyringSerial;
use crate::syscall::{
    check_syscall, keyctl, ArgView, Reply, ReplyView, Syscall, SyscallView, KEYCTL_DESCRIBE,
    KEYCTL_DH_COMPUTE, KEYCTL_GET_SECURITY, KEYCTL_READ,
};

verus! {

/// What is read.
#[derive(Clone, Copy, Debug, PartialEq, Eq, Structural)]
pub enum Source {
    /// The payload of a key, or the links of a keyring.
    Payload(KeyringSerial),
    /// The description of a key.
    Description(KeyringSerial),
    /// The security label of a key.
    Security(KeyringSerial),
    /// The Diffie-Hellman value of three keys.
    DhCompute { private: KeyringSerial, prime: KeyringSerial, base: KeyringSerial },
}

impl Source {
    /// The call that reads from the source into a buffer, or asks for the size
    /// where there is no buffer.
    pub open spec fn spec_request(self, buffer: Option<usize>) -> SyscallView {
        match self {
            Source::Payload(id) => keyctl(
                KEYCTL_READ,
                seq![ArgView::Int(id@)] + buffer_args(buffer),
            ),
            Source::Description(id) => keyctl(
                KEYCTL_DESCRIBE,
                seq![ArgView::Int(id@)] + buffer_args(buffer),
            ),
            Source::Security(id) => keyctl(
                KEYCTL_GET_SECURITY,
                seq![ArgView::Int(id@)] + buffer_args(buffer),
            ),
            Source::DhCompute { private, prime, base } => keyctl(
                KEYCTL_DH_COMPUTE,
                seq![ArgView::Int(private@), ArgView::Int(prime@), ArgView::Int(base@)]
                    + buffer_args(buffer),
            ),
        }
    }

    /// The call that reads from the source.
    pub fn request(&self, buffer: Option<usize>) -> (request: Request<usize>)
        ensures
            request@ == self.spec_request(buffer),
            request@.well_formed(),
    {
        match self {
            Source::Payload(id) => keyctl_read(*id, buffer),
            Source::Description(id) => keyctl_describe(*id, buffer),
            Source::Security(id) => keyctl_get_security(*id, buffer),
            Source::DhCompute { private, prime, base } => keyctl_dh_compute(
                *private,
                *prime,
                *base,
                buffer,
            ),
        }
    }
}

/// The reading of one value: what is read, and the capacity of the buffer that
/// the next call brings. While there is no capacity, the next call asks for the
/// size.
#[derive(Clone, Copy, Debug, PartialEq, Eq, Structural)]
pub struct Fetch {
    pub source: Source,
    pub capacity: Option<usize>,
}

impl View for Fetch {
    type V = Fetch;

    open spec fn view(&self) -> Fetch {
        *self
    }
}

impl Fetch {
    /// The reading of a value, before its first call.
    pub fn new(source: Source) -> (fetch: Fetch)
        ensures
            fetch == (Fetch { source, capacity: None }),
    {
        Fetch { source, capacity: None }
    }

    /// The same reading with a buffer of another capacity.
    pub open spec fn with_capacity(self, capacity: usize) -> Fetch {
        Fetch { source: self.source, capacity: Some(capacity) }
    }

    /// How a reading goes on when its call returned a size: it is over when the
    /// buffer held the whole value, and else it comes back with a buffer of the
    /// size that the kernel asked for.
    pub open spec fn after_size(self, size: usize, data: Seq<u8>) -> Progress<Fetch, Seq<u8>> {
        match self.capacity {
            Some(capacity) if size <= capacity => if data.len() < size {
                Progress::Done(Outcome::Fault(Defect::ShortBuffer))
            } else {
                Progress::Done(Outcome::Success(data.take(size as int)))
            },
            _ => Progress::Pending(self.with_capacity(size)),
        }
    }

    /// Every call of a reading is one that the kernel can take.
    pub proof fn lemma_call_is_well_formed(self)
        ensures
            Fetch::spec_call(self).well_formed(),
    {
        match self.capacity {
            Some(capacity) => {
                assert(buffer_args(self.capacity) =~= seq![
                    ArgView::Buffer(capacity as nat),
                    ArgView::Size(capacity as nat),
                ]);
            },
            None => {
                assert(buffer_args(self.capacity) =~= seq![ArgView::Null, ArgView::Size(0)]);
            },
        }
    }

    /// With the kernel's own error passed on as it is: every failure of a call
    /// ends the reading with the code of that call.
    pub proof fn lemma_failure_is_verbatim(self, reply: ReplyView)
        requires
            reply.ret == -1,
        ensures
            Fetch::spec_resume(self, reply) == Progress::<Fetch, Seq<u8>>::Done(
                Outcome::Failure(Error(reply.errno)),
            ),
    {
    }

    /// A reading never cuts a value short: when it ends with a value, the value
    /// has the size that the kernel reported for that very call, and the buffer
    /// was large enough for it.
    pub proof fn lemma_never_truncates(self, reply: ReplyView)
        ensures
            Fetch::spec_resume(self, reply) matches Progress::Done(Outcome::Success(value)) ==> {
                &&& value.len() == reply.ret
                &&& self.capacity matches Some(capacity) && reply.ret <= capacity
                &&& value == reply.data.take(reply.ret as int)
            },
    {
    }

    /// A value that has outgrown the buffer is asked for again with a buffer of
    /// the new size, and so is a value whose size was only asked for.
    pub proof fn lemma_growth_retries(self, reply: ReplyView)
        requires
            0 <= reply.ret <= usize::MAX,
            self.capacity matches Some(capacity) ==> reply.ret > capacity,
        ensures
            Fetch::spec_resume(self, reply) == Progress::<Fetch, Seq<u8>>::Pending(
                self.with_capacity(reply.ret as usize),
            ),
    {
    }

    /// What the kernel holds comes back byte for byte: where the kernel answers
    /// the question for the size with the length of a value, and the call with a
    /// buffer of that size by filling it with the value, the reading ends with
    /// that value.
    pub proof fn lemma_value_round_trip(source: Source, value: Seq<u8>, errno: i32)
        requires
            value.len() <= i64::MAX,
            value.len() <= usize::MAX,
        ensures
            ({
                let size = ReplyView { ret: value.len() as i64, errno, data: Seq::empty() };
                let filled = ReplyView { ret: value.len() as i64, errno, data: value };
                let start = Fetch { source, capacity: None };
                &&& Fetch::spec_resume(start, size) == Progress::<Fetch, Seq<u8>>::Pending(
                    start.with_capacity(value.len() as usize),
                )
                &&& Fetch::spec_resume(start.with_capacity(value.len() as usize), filled)
                    == Progress::<Fetch, Seq<u8>>::Done(Outcome::Success(value))
            }),
    {
        assert(value.take(value.len() as int) =~= value);
    }
}

/// A reading that has gone through any number of calls ends with nothing but a
/// whole value: the bytes of one of the replies, as many as that reply reported.
pub proof fn lemma_reading_ends_with_a_whole_value(state: Fetch, replies: Seq<ReplyView>)
    ensures
        after_replies::<Fetch>(state, replies) matches Progress::Done(Outcome::Success(value))
            ==> exists|i: int|
            0 <= i < replies.len() && value.len() == (#[trigger] replies[i]).ret && value
                == replies[i].data.take(replies[i].ret as int),
    decreases replies.len(),
{
    if replies.len() > 0 {
        match Fetch::spec_resume(state, replies[0]) {
            Progress::Pending(next) => {
                let rest = replies.drop_first();
                lemma_reading_ends_with_a_whole_value(next, rest);
                match after_replies::<Fetch>(next, rest) {
                    Progress::Done(Outcome::Success(value)) => {
                        let i = choose|i: int|
                            0 <= i < rest.len() && value.len() == (#[trigger] rest[i]).ret
                                && value == rest[i].data.take(rest[i].ret as int);
                        assert(replies[i + 1] == rest[i]);
                    },
                    _ => {},
                }
            },
            Progress::Done(outcome) => {
                state.lemma_never_truncates(replies[0]);
            },
        }
    }
}

/// A reading goes on for as long as the value grows: while every reply reports
/// a size beyond the buffer that its call brought, the reading stays pending,
/// and its next call brings a buffer of the size that was reported last.
pub proof fn lemma_reading_follows_a_growing_value(state: Fetch, replies: Seq<ReplyView>)
    requires
        replies.len() > 0,
        forall|i: int| 0 <= i < replies.len() ==> 0 <= (#[trigger] replies[i]).ret <= usize::MAX,
        state.capacity matches Some(capacity) ==> replies[0].ret > capacity,
        forall|i: int| 1 <= i < replies.len() ==> (#[trigger] replies[i]).ret > replies[i - 1].ret,
    ensures
        after_replies::<Fetch>(state, replies) == Progress::<Fetch, Seq<u8>>::Pending(
            state.with_capacity(replies.last().ret as usize),
        ),
    decreases replies.len(),
{
    state.lemma_growth_retries(replies[0]);
    let next = state.with_capacity(replies[0].ret as usize);
    let rest = replies.drop_first();
    if rest.len() > 0 {
        assert(rest[0] == replies[1]);
        assert forall|i: int| 1 <= i < rest.len() implies (#[trigger] rest[i]).ret > rest[i
            - 1].ret by {
            assert(rest[i] == replies[i + 1]);
            assert(rest[i - 1] == replies[i]);
        }
        assert forall|i: int| 0 <= i < rest.len() implies 0 <= (#[trigger] rest[i]).ret
            <= usize::MAX by {
            assert(rest[i] == replies[i + 1]);
        }
        lemma_reading_follows_a_growing_value(next, rest);
        assert(rest.last() == replies.last());
    } else {
        assert(replies.last() == replies[0]);
    }
}

impl Operation for Fetch {
    type Output = Vec<u8>;

    open spec fn spec_call(state: Fetch) -> SyscallView {
        state.source.spec_request(state.capacity)
    }

    open spec fn spec_resume(state: Fetch, reply: ReplyView) -> Progress<Fetch, Seq<u8>> {
        if reply.ret == -1 {
            Progress::Done(Outcome::Failure(Error(reply.errno)))
        } else if reply.ret < 0 || reply.ret > usize::MAX {
            Progress::Done(Outcome::Fault(Defect::BadSize))
        } else {
            state.after_size(reply.ret as usize, reply.data)
        }
    }

    fn call(&self) -> (call: Syscall) {
        self.source.request(self.capacity).call()
    }

    fn resume(self, reply: Reply) -> (progress: Progress<Fetch, Vec<u8>>) {
        let size: usize = match check_syscall(reply.ret, reply.errno) {
            Err(error) => {
                return Progress::Done(Outcome::Failure(error));
            },
            Ok(res) => match usize::from_return(res) {
                Outcome::Success(size) => size,
                Outcome::Failure(error) => {
                    return Progress::Done(Outcome::Failure(error));
                },
                Outcome::Fault(defect) => {
                    return Progress::Done(Outcome::Fault(defect));
                },
            },
        };
        let fits: bool = match self.capacity {
            Some(capacity) => size <= capacity,
            None => false,
        };
        if fits {
            let mut data = reply.data;
            if data.len() < size {
                Progress::Done(Outcome::Fault(Defect::ShortBuffer))
            } else {
                data.truncate(size);
                Progress::Done(Outcome::Success(data))
            }
        } else {
            Progress::Pending(Fetch { source: self.source, capacity: Some(size) })
        }
    }
}

/// `String::from_utf8`: the text that bytes encode in UTF-8. Bytes that are not
/// UTF-8 encode none, and the text of bytes that are is their decoding.
#[verifier::external_body]
fn text_from_utf8(bytes: Vec<u8>) -> (text: Option<String>)
    ensures
        text is Some <==> vstd::utf8::valid_utf8(bytes@),
        text matches Some(t) ==> t@ == vstd::utf8::decode_utf8(bytes@),
{
    String::from_utf8(bytes).ok()
}

/// The text that the kernel wrote: the bytes without the NUL that the kernel
/// puts after them, read as UTF-8.
pub open spec fn written_text(bytes: Seq<u8>) -> Outcome<Seq<char>> {
    let text = if bytes.len() == 0 {
        bytes
    } else {
        bytes.drop_last()
    };
    if vstd::utf8::valid_utf8(text) {
        Outcome::Success(vstd::utf8::decode_utf8(text))
    } else {
        Outcome::Fault(Defect::NotText)
    }
}

/// What became of a reading after further work on its value.
pub open spec fn followed_by<A, B>(
    progress: Progress<Fetch, A>,
    work: spec_fn(A) -> Outcome<B>,
) -> Progress<Fetch, B> {
    match progress {
        Progress::Pending(fetch) => Progress::Pending(fetch),
        Progress::Done(Outcome::Success(value)) => Progress::Done(work(value)),
        Progress::Done(Outcome::Failure(error)) => Progress::Done(Outcome::Failure(error)),
        Progress::Done(Outcome::Fault(defect)) => Progress::Done(Outcome::Fault(defect)),
    }
}

/// The reading of a text: a description or a security label.
#[derive(Clone, Copy, Debug, PartialEq, Eq, Structural)]
pub struct FetchText {
    pub fetch: Fetch,
}

impl View for FetchText {
    type V = Fetch;

    open spec fn view(&self) -> Fetch {
        self.fetch
    }
}

impl FetchText {
    /// The reading of a text, before its first call.
    pub fn new(source: Source) -> (fetch: FetchText)
        ensures
            fetch@ == (Fetch { source, capacity: None }),
    {
        FetchText { fetch: Fetch::new(source) }
    }

    /// Makes a text of the bytes that the kernel wrote.
    pub fn finish(bytes: Vec<u8>) -> (outcome: Outcome<String>)
        ensures
            outcome@ == written_text(bytes@),
    {
        let mut bytes = bytes;
        let ghost all = bytes@;
        let keep: usize = bytes.len().saturating_sub(1);
        bytes.truncate(keep);
        assert(bytes@ =~= if all.len() == 0 {
            all
        } else {
            all.drop_last()
        });
        match text_from_utf8(bytes) {
            Some(text) => Outcome::Success(text),
            None => Outcome::Fault(Defect::NotText),
        }
    }
}

impl Operation for FetchText {
    type Output = String;

    open spec fn spec_call(state: Fetch) -> SyscallView {
        Fetch::spec_call(state)
    }

    open spec fn spec_resume(state: Fetch, reply: ReplyView) -> Progress<Fetch, Seq<char>> {
        followed_by(Fetch::spec_resume(state, reply), |bytes: Seq<u8>| written_text(bytes))
    }

    fn call(&self) -> (call: Syscall) {
        self.fetch.call()
    }

    fn resume(self, reply: Reply) -> (progress: Progress<FetchText, String>) {
        match self.fetch.resume(reply) {
            Progress::Pending(fetch) => Progress::Pending(FetchText { fetch }),
            Progress::Done(Outcome::Success(bytes)) => Progress::Done(FetchText::finish(bytes)),
            Progress::Done(Outcome::Failure(error)) => Progress::Done(Outcome::Failure(error)),
            Progress::Done(Outcome::Fault(defect)) => Progress::Done(Outcome::Fault(defect)),
        }
    }
}

/// What a description of the kernel comes to: a line with too few fields is
/// reported as an invalid argument, and one whose numbers are none is a fault.
pub open spec fn read_description(text: Seq<char>) -> Outcome<DescriptionView> {
    match scanned(text) {
        None => Outcome::Failure(Error(EINVAL)),
        Some(None) => Outcome::Fault(Defect::BadNumber),
        Some(Some(description)) => Outcome::Success(description),
    }
}

/// What the bytes of a description come to.
pub open spec fn written_description(bytes: Seq<u8>) -> Outcome<DescriptionView> {
    match written_text(bytes) {
        Outcome::Success(text) => read_description(text),
        Outcome::Failure(error) => Outcome::Failure(error),
        Outcome::Fault(defect) => Outcome::Fault(defect),
    }
}

/// The reading of the metadata of a key.
#[derive(Clone, Copy, Debug, PartialEq, Eq, Structural)]
pub struct Describe {
    pub fetch: Fetch,
}

impl View for Describe {
    type V = Fetch;

    open spec fn view(&self) -> Fetch {
        self.fetch
    }
}

impl Describe {
    /// The reading of the metadata of a key, before its first call.
    pub fn new(id: KeyringSerial) -> (describe: Describe)
        ensures
            describe@ == (Fetch { source: Source::Description(id), capacity: None }),
    {
        Describe { fetch: Fetch::new(Source::Description(id)) }
    }

    /// Makes metadata of a line of the kernel.
    pub fn read_line(line: &str) -> (outcome: Outcome<Description>)
        ensures
            outcome@ == read_description(line@),
    {
        match Description::scan(line) {
            Scanned::Described(description) => Outcome::Success(description),
            Scanned::TooShort => Outcome::Failure(Error(EINVAL)),
            Scanned::BadNumber => Outcome::Fault(Defect::BadNumber),
        }
    }

    /// Makes metadata of the bytes that the kernel wrote.
    pub fn finish(bytes: Vec<u8>) -> (outcome: Outcome<Description>)
        ensures
            outcome@ == written_description(bytes@),
    {
        match FetchText::finish(bytes) {
            Outcome::Success(text) => Describe::read_line(text.as_str()),
            Outcome::Failure(error) => Outcome::Failure(error),
            Outcome::Fault(defect) => Outcome::Fault(defect),
        }
    }
}

impl Operation for Describe {
    type Output = Description;

    open spec fn spec_call(state: Fetch) -> SyscallView {
        Fetch::spec_call(state)
    }

    open spec fn spec_resume(state: Fetch, reply: ReplyView) -> Progress<Fetch, DescriptionView> {
        followed_by(Fetch::spec_resume(state, reply), |bytes: Seq<u8>| written_description(bytes))
    }

    fn call(&self) -> (call: Syscall) {
        self.fetch.call()
    }

    fn resume(self, reply: Reply) -> (progress: Progress<Describe, Description>) {
        match self.fetch.resume(reply) {
            Progress::Pending(fetch) => Progress::Pending(Describe { fetch }),
            Progress::Done(Outcome::Success(bytes)) => Progress::Done(Describe::finish(bytes)),
            Progress::Done(Outcome::Failure(error)) => Progress::Done(Outcome::Failure(error)),
            Progress::Done(Outcome::Fault(defect)) => Progress::Done(Outcome::Fault(defect)),
        }
    }
}

/// Whether the bytes of a description name the given type.
pub open spec fn written_type_is(bytes: Seq<u8>, name: Seq<char>) -> Outcome<bool> {
    match written_description(bytes) {
        Outcome::Success(description) => Outcome::Success(description.type_ == name),
        Outcome::Failure(error) => Outcome::Failure(error),
        Outcome::Fault(defect) => Outcome::Fault(defect),
    }
}

/// The question whether a key is of a type.
#[derive(Clone, Copy, Debug, PartialEq, Eq)]
pub struct IsKeytype {
    pub fetch: Fetch,
    pub name: &'static str,
}

/// The question whether a key is of a type, seen as a mathematical value.
pub struct IsKeytypeView {
    pub fetch: Fetch,
    pub name: Seq<char>,
}

impl View for IsKeytype {
    type V = IsKeytypeView;

    open spec fn view(&self) -> IsKeytypeView {
        IsKeytypeView { fetch: self.fetch, name: self.name@ }
    }
}

impl IsKeytype {
    /// The question whether the key is of the type with this name.
    pub fn new(id: KeyringSerial, name: &'static str) -> (question: IsKeytype)
        ensures
            question@ == (IsKeytypeView {
                fetch: Fetch { source: Source::Description(id), capacity: None },
                name: name@,
            }),
    {
        IsKeytype { fetch: Fetch::new(Source::Description(id)), name }
    }
}

impl Operation for IsKeytype {
    type Output = bool;

    open spec fn spec_call(state: IsKeytypeView) -> SyscallView {
        Fetch::spec_call(state.fetch)
    }

    open spec fn spec_resume(state: IsKeytypeView, reply: ReplyView) -> Progress<
        IsKeytypeView,
        bool,
    > {
        match Fetch::spec_resume(state.fetch, reply) {
            Progress::Pending(fetch) => Progress::Pending(
                IsKeytypeView { fetch, name: state.name },
            ),
            Progress::Done(Outcome::Success(bytes)) => Progress::Done(
                written_type_is(bytes, state.name),
            ),
            Progress::Done(Outcome::Failure(error)) => Progress::Done(Outcome::Failure(error)),
            Progress::Done(Outcome::Fault(defect)) => Progress::Done(Outcome::Fault(defect)),
        }
    }

    fn call(&self) -> (call: Syscall) {
        self.fetch.call()
    }

    fn resume(self, reply: Reply) -> (progress: Progress<IsKeytype, bool>) {
        match self.fetch.resume(reply) {
            Progress::Pending(fetch) => Progress::Pending(IsKeytype { fetch, name: self.name }),
            Progress::Done(Outcome::Success(bytes)) => match Describe::finish(bytes) {
                Outcome::Success(description) => {
                    let name = String::from_str(self.name);
                    Progress::Done(Outcome::Success(description.type_ == name))
                },
                Outcome::Failure(error) => Progress::Done(Outcome::Failure(error)),
                Outcome::Fault(defect) => Progress::Done(Outcome::Fault(defect)),
            },
            Progress::Done(Outcome::Failure(error)) => Progress::Done(Outcome::Failure(error)),
            Progress::Done(Outcome::Fault(defect)) => Progress::Done(Outcome::Fault(defect)),
        }
    }
}

} // verus!
