//! Reading the links of a keyring.
//!
//! The kernel hands out the links of a keyring as serials, four bytes each in
//! the byte order of the machine. Which of them are keyrings shows only in their
//! descriptions, so every link is described in its turn. A key may be gone by
//! the time its turn comes: the keyring held it a moment ago, so this is no
//! error, and the link is passed over.

use vstd::prelude::*;
use vstd::string::StringExecFns;
use crate::api::{Key, Keyring};
use crate::description::Description;
use crate::error::{Error, EINVAL, ENOKEY, ENOTDIR};
use crate::exchange::{after_replies, Operation, Outcome, Progress};
use crate::fetch::{written_description, Describe, Fetch, Source};
use crate::serial::KeyringSerial;
use crate::syscall::{Reply, ReplyView, Syscall, SyscallView};

verus! {

/// The number that four bytes stand for in the byte order of the machine, the
/// highest bit being the sign.
pub open spec fn native_i32(bytes: Seq<u8>) -> int {
    let value = match vstd::endian::endianness() {
        vstd::endian::Endian::Little => bytes[0] as int + bytes[1] as int * 0x100 + bytes[2] as int
            * 0x1_0000 + bytes[3] as int * 0x100_0000,
        vstd::endian::Endian::Big => bytes[3] as int + bytes[2] as int * 0x100 + bytes[1] as int
            * 0x1_0000 + bytes[0] as int * 0x100_0000,
    };
    if value >= 0x8000_0000 {
        value - 0x1_0000_0000
    } else {
        value
    }
}

/// `i32::from_ne_bytes`: the number that four bytes stand for in the byte order
/// of the machine.
#[verifier::external_body]
fn from_ne_bytes(bytes: [u8; 4]) -> (value: i32)
    ensures
        value == native_i32(bytes@),
{
    i32::from_ne_bytes(bytes)
}

/// What the reading works on.
#[derive(Clone, Copy, Debug, PartialEq, Eq, Structural)]
pub enum Stage {
    /// The description of the keyring itself, which shows whether it is one.
    Describe,
    /// The links of the keyring.
    Read,
    /// The description of the link whose turn it is.
    Child,
}

/// The reading of the keys and keyrings that a keyring links to.
#[derive(Debug)]
pub struct ReadChildren {
    keyring: KeyringSerial,
    stage: Stage,
    fetch: Fetch,
    links: Vec<u8>,
    offset: usize,
    keys: Vec<Key>,
    keyrings: Vec<Keyring>,
}

/// The reading of the links of a keyring, seen as a mathematical value.
pub struct ReadChildrenView {
    /// The keyring that is read.
    pub keyring: KeyringSerial,
    /// What the reading works on.
    pub stage: Stage,
    /// The reading of the value that is worked on.
    pub fetch: Fetch,
    /// The links as the kernel wrote them, once they are read.
    pub links: Seq<u8>,
    /// Where the link starts whose turn it is.
    pub offset: nat,
    /// The links found to be keys so far.
    pub keys: Seq<Key>,
    /// The links found to be keyrings so far.
    pub keyrings: Seq<Keyring>,
}

impl View for ReadChildren {
    type V = ReadChildrenView;

    closed spec fn view(&self) -> ReadChildrenView {
        ReadChildrenView {
            keyring: self.keyring,
            stage: self.stage,
            fetch: self.fetch,
            links: self.links@,
            offset: self.offset as nat,
            keys: self.keys@,
            keyrings: self.keyrings@,
        }
    }
}

impl ReadChildrenView {
    /// The reading of a keyring before its first call.
    pub open spec fn start(keyring: KeyringSerial) -> ReadChildrenView {
        ReadChildrenView {
            keyring,
            stage: Stage::Describe,
            fetch: Fetch { source: Source::Description(keyring), capacity: None },
            links: Seq::empty(),
            offset: 0,
            keys: Seq::empty(),
            keyrings: Seq::empty(),
        }
    }

    /// The same reading with another state of the value that is worked on.
    pub open spec fn fetching(self, fetch: Fetch) -> ReadChildrenView {
        ReadChildrenView { fetch, ..self }
    }

    /// The value of the link whose turn it is.
    pub open spec fn link(self) -> int {
        native_i32(self.links.subrange(self.offset as int, self.offset as int + 4))
    }

    /// How the reading goes on at a link: it is over after the last link, a
    /// rest of fewer than four bytes or a link of zero is reported as an invalid
    /// argument, and any other link is described.
    pub open spec fn turn(self) -> Progress<ReadChildrenView, (Seq<Key>, Seq<Keyring>)> {
        if self.offset >= self.links.len() {
            Progress::Done(Outcome::Success((self.keys, self.keyrings)))
        } else if self.links.len() - self.offset < 4 || self.link() == 0 {
            Progress::Done(Outcome::Failure(Error(EINVAL)))
        } else {
            Progress::Pending(
                ReadChildrenView {
                    stage: Stage::Child,
                    fetch: Fetch {
                        source: Source::Description(KeyringSerial::spec_new(self.link() as i32)),
                        capacity: None,
                    },
                    ..self
                },
            )
        }
    }

    /// The reading after the link whose turn it was.
    pub open spec fn passed(self) -> ReadChildrenView {
        ReadChildrenView { stage: Stage::Read, offset: self.offset + 4, ..self }
    }

    /// How the reading goes on when the keyring itself was described: only a
    /// keyring has links to read.
    pub open spec fn after_own(self, bytes: Seq<u8>) -> Progress<
        ReadChildrenView,
        (Seq<Key>, Seq<Keyring>),
    > {
        match written_description(bytes) {
            Outcome::Success(description) => if description.type_ == "keyring"@ {
                Progress::Pending(
                    ReadChildrenView {
                        stage: Stage::Read,
                        fetch: Fetch { source: Source::Payload(self.keyring), capacity: None },
                        ..self
                    },
                )
            } else {
                Progress::Done(Outcome::Failure(Error(ENOTDIR)))
            },
            Outcome::Failure(error) => Progress::Done(Outcome::Failure(error)),
            Outcome::Fault(defect) => Progress::Done(Outcome::Fault(defect)),
        }
    }

    /// How the reading goes on when the links were read: with the first one.
    pub open spec fn after_links(self, bytes: Seq<u8>) -> Progress<
        ReadChildrenView,
        (Seq<Key>, Seq<Keyring>),
    > {
        (ReadChildrenView { links: bytes, offset: 0, ..self }).turn()
    }

    /// How the reading goes on when a link was described: the link is a keyring
    /// or a key by its type, and the next link has its turn.
    pub open spec fn after_child(self, bytes: Seq<u8>) -> Progress<
        ReadChildrenView,
        (Seq<Key>, Seq<Keyring>),
    > {
        match written_description(bytes) {
            Outcome::Success(description) => self.found(description.type_ == "keyring"@),
            Outcome::Failure(error) => Progress::Done(Outcome::Failure(error)),
            Outcome::Fault(defect) => Progress::Done(Outcome::Fault(defect)),
        }
    }

    /// How the reading goes on when the link that was described is known to be
    /// a keyring or a key.
    pub open spec fn found(self, keyring: bool) -> Progress<
        ReadChildrenView,
        (Seq<Key>, Seq<Keyring>),
    > {
        match self.fetch.source {
            Source::Description(id) => if keyring {
                (ReadChildrenView {
                    keyrings: self.keyrings.push(Keyring::spec_new(id)),
                    ..self
                }).passed().turn()
            } else {
                (ReadChildrenView {
                    keys: self.keys.push(Key::spec_new(id)),
                    ..self
                }).passed().turn()
            },
            _ => Progress::Done(Outcome::Failure(Error(EINVAL))),
        }
    }

    /// How the reading goes on when a call failed. A link that is gone by the
    /// time it is described is passed over. Every other failure ends the
    /// reading with the error of the kernel.
    pub open spec fn after_failure(self, error: Error) -> Progress<
        ReadChildrenView,
        (Seq<Key>, Seq<Keyring>),
    > {
        if self.stage == Stage::Child && error.0 == ENOKEY {
            self.passed().turn()
        } else {
            Progress::Done(Outcome::Failure(error))
        }
    }
}

/// Whether the kernel listed a serial among the first links of a keyring: the
/// links before `end`, four bytes each.
pub open spec fn listed_before(links: Seq<u8>, end: int, id: int) -> bool {
    exists|j: int|
        0 <= j && 4 * j + 4 <= end && end <= links.len() && #[trigger] native_i32(
            links.subrange(4 * j, 4 * j + 4),
        ) == id
}

impl ReadChildrenView {
    /// Whether the handles found so far are links that had their turn: the
    /// turns come at every fourth byte, no handle was found that the kernel did
    /// not list before the link whose turn it is, and no more handles were found
    /// than links had their turn.
    pub open spec fn settled(self) -> bool {
        &&& self.offset % 4 == 0
        &&& self.offset <= self.links.len()
        &&& self.keys.len() + self.keyrings.len() <= self.offset / 4
        &&& forall|i: int|
            0 <= i < self.keys.len() ==> listed_before(
                self.links,
                self.offset as int,
                (#[trigger] self.keys[i])@,
            )
        &&& forall|i: int|
            0 <= i < self.keyrings.len() ==> listed_before(
                self.links,
                self.offset as int,
                (#[trigger] self.keyrings[i])@,
            )
    }

    /// Whether the reading is in a state that it can come to from its start.
    pub open spec fn well_formed(self) -> bool {
        match self.stage {
            Stage::Describe | Stage::Read => {
                &&& self.offset == 0
                &&& self.links.len() == 0
                &&& self.keys.len() == 0
                &&& self.keyrings.len() == 0
            },
            Stage::Child => {
                &&& self.settled()
                &&& self.offset + 4 <= self.links.len()
                &&& self.link() != 0
                &&& self.fetch.source == Source::Description(
                    KeyringSerial::spec_new(self.link() as i32),
                )
            },
        }
    }

    /// The links that a reply leaves the reading with: those that the reply
    /// brought, where the reading was waiting for them.
    pub open spec fn links_after(self, reply: ReplyView) -> Seq<u8> {
        match (self.stage, Fetch::spec_resume(self.fetch, reply)) {
            (Stage::Read, Progress::Done(Outcome::Success(bytes))) => bytes,
            _ => self.links,
        }
    }
}

/// Four bytes stand for a number that 32 bits hold.
pub proof fn lemma_native_i32_range(bytes: Seq<u8>)
    ensures
        i32::MIN <= native_i32(bytes) <= i32::MAX,
{
}

/// What the next turn makes of a settled reading: a reading that is well
/// formed, or the handles that were found.
proof fn lemma_turn(state: ReadChildrenView)
    requires
        state.settled(),
    ensures
        match state.turn() {
            Progress::Pending(next) => next.well_formed() && next.links == state.links,
            Progress::Done(Outcome::Success((keys, keyrings))) => keys == state.keys && keyrings
                == state.keyrings && state.offset >= state.links.len(),
            _ => true,
        },
{
    if state.offset < state.links.len() && state.links.len() - state.offset >= 4 && state.link()
        != 0 {
        lemma_native_i32_range(state.links.subrange(state.offset as int, state.offset as int + 4));
    }
}

/// Passing over a link, with or without a handle for it, leaves a reading
/// settled.
proof fn lemma_passed(state: ReadChildrenView, found: Option<bool>)
    requires
        state.well_formed(),
        state.stage == Stage::Child,
    ensures
        match found {
            None => state.passed().settled(),
            Some(true) => (ReadChildrenView {
                keyrings: state.keyrings.push(
                    Keyring::spec_new(KeyringSerial::spec_new(state.link() as i32)),
                ),
                ..state
            }).passed().settled(),
            Some(false) => (ReadChildrenView {
                keys: state.keys.push(Key::spec_new(KeyringSerial::spec_new(state.link() as i32))),
                ..state
            }).passed().settled(),
        },
{
    let id = KeyringSerial::spec_new(state.link() as i32);
    let end = state.offset as int + 4;
    let turn = state.offset as int / 4;
    lemma_native_i32_range(state.links.subrange(state.offset as int, state.offset as int + 4));
    KeyringSerial::lemma_view(state.link() as i32);
    Key::lemma_spec_new(id);
    Keyring::lemma_spec_new(id);
    assert(4 * turn == state.offset);
    assert(native_i32(state.links.subrange(4 * turn, 4 * turn + 4)) == state.link());
    assert(listed_before(state.links, end, state.link()));
    assert forall|id: int|
        listed_before(state.links, state.offset as int, id) implies listed_before(
        state.links,
        end,
        id,
    ) by {
        let j = choose|j: int|
            0 <= j && 4 * j + 4 <= state.offset && state.offset <= state.links.len()
                && #[trigger] native_i32(state.links.subrange(4 * j, 4 * j + 4)) == id;
        assert(4 * j + 4 <= end && native_i32(state.links.subrange(4 * j, 4 * j + 4)) == id);
    }
    match found {
        None => {
            let next = state.passed();
            assert(next.settled());
        },
        Some(true) => {
            let next = (ReadChildrenView {
                keyrings: state.keyrings.push(Keyring::spec_new(id)),
                ..state
            }).passed();
            assert forall|i: int| 0 <= i < next.keyrings.len() implies listed_before(
                next.links,
                next.offset as int,
                (#[trigger] next.keyrings[i])@,
            ) by {
                if i < state.keyrings.len() {
                    assert(next.keyrings[i] == state.keyrings[i]);
                }
            }
            assert(next.settled());
        },
        Some(false) => {
            let next = (ReadChildrenView {
                keys: state.keys.push(Key::spec_new(id)),
                ..state
            }).passed();
            assert forall|i: int| 0 <= i < next.keys.len() implies listed_before(
                next.links,
                next.offset as int,
                (#[trigger] next.keys[i])@,
            ) by {
                if i < state.keys.len() {
                    assert(next.keys[i] == state.keys[i]);
                }
            }
            assert(next.settled());
        },
    }
}

impl ReadChildrenView {
    /// A reading starts well formed.
    pub proof fn lemma_start_well_formed(keyring: KeyringSerial)
        ensures
            ReadChildrenView::start(keyring).well_formed(),
    {
    }

    /// A reading that goes on stays well formed.
    pub proof fn lemma_step_well_formed(self, reply: ReplyView)
        requires
            self.well_formed(),
        ensures
            ReadChildren::spec_resume(self, reply) matches Progress::Pending(next)
                ==> next.well_formed(),
    {
        self.lemma_step(reply);
    }

    /// A reading hands out nothing that the kernel did not list: when it ends
    /// with keys and keyrings, each of them is a link of the keyring as the
    /// kernel wrote them, and there are no more of them than links. Links that
    /// were gone when their turn came are not among them.
    pub proof fn lemma_children_are_links(self, reply: ReplyView)
        requires
            self.well_formed(),
        ensures
            ReadChildren::spec_resume(self, reply) matches Progress::Done(
                Outcome::Success((keys, keyrings)),
            ) ==> {
                let links = self.links_after(reply);
                &&& keys.len() + keyrings.len() <= links.len() / 4
                &&& forall|i: int|
                    0 <= i < keys.len() ==> listed_before(
                        links,
                        links.len() as int,
                        (#[trigger] keys[i])@,
                    )
                &&& forall|i: int|
                    0 <= i < keyrings.len() ==> listed_before(
                        links,
                        links.len() as int,
                        (#[trigger] keyrings[i])@,
                    )
            },
    {
        self.lemma_step(reply);
    }

    /// What a step makes of a well-formed reading.
    proof fn lemma_step(self, reply: ReplyView)
        requires
            self.well_formed(),
        ensures
            match ReadChildren::spec_resume(self, reply) {
                Progress::Pending(next) => {
                    &&& next.well_formed()
                    &&& self.stage == Stage::Child ==> next.stage == Stage::Child && next.links
                        == self.links
                },
                Progress::Done(Outcome::Success((keys, keyrings))) => {
                    let links = self.links_after(reply);
                    &&& keys.len() + keyrings.len() <= links.len() / 4
                    &&& forall|i: int|
                        0 <= i < keys.len() ==> listed_before(
                            links,
                            links.len() as int,
                            (#[trigger] keys[i])@,
                        )
                    &&& forall|i: int|
                        0 <= i < keyrings.len() ==> listed_before(
                            links,
                            links.len() as int,
                            (#[trigger] keyrings[i])@,
                        )
                },
                _ => true,
            },
    {
        let id = KeyringSerial::spec_new(self.link() as i32);
        match Fetch::spec_resume(self.fetch, reply) {
            Progress::Pending(fetch) => {},
            Progress::Done(Outcome::Success(bytes)) => match self.stage {
                Stage::Describe => {},
                Stage::Read => {
                    let read = ReadChildrenView { links: bytes, offset: 0, ..self };
                    assert(read.settled());
                    lemma_turn(read);
                    if read.offset >= read.links.len() {
                        lemma_settled_end(read);
                    }
                },
                Stage::Child => {
                    match written_description(bytes) {
                        Outcome::Success(description) => {
                            let keyring = description.type_ == "keyring"@;
                            lemma_passed(self, Some(keyring));
                            let next = if keyring {
                                (ReadChildrenView {
                                    keyrings: self.keyrings.push(Keyring::spec_new(id)),
                                    ..self
                                }).passed()
                            } else {
                                (ReadChildrenView {
                                    keys: self.keys.push(Key::spec_new(id)),
                                    ..self
                                }).passed()
                            };
                            lemma_turn(next);
                            if next.offset >= next.links.len() {
                                lemma_settled_end(next);
                            }
                        },
                        _ => {},
                    }
                },
            },
            Progress::Done(Outcome::Failure(error)) => {
                if self.stage == Stage::Child && error.0 == ENOKEY {
                    lemma_passed(self, None);
                    lemma_turn(self.passed());
                    if self.passed().offset >= self.passed().links.len() {
                        lemma_settled_end(self.passed());
                    }
                }
            },
            Progress::Done(Outcome::Fault(defect)) => {},
        }
    }
}

/// Whether keys and keyrings are links among these: each of them is listed, and
/// there are no more of them than links.
pub open spec fn are_links(links: Seq<u8>, keys: Seq<Key>, keyrings: Seq<Keyring>) -> bool {
    &&& keys.len() + keyrings.len() <= links.len() / 4
    &&& forall|i: int|
        0 <= i < keys.len() ==> listed_before(links, links.len() as int, (#[trigger] keys[i])@)
    &&& forall|i: int|
        0 <= i < keyrings.len() ==> listed_before(
            links,
            links.len() as int,
            (#[trigger] keyrings[i])@,
        )
}

/// What any number of replies makes of a well-formed reading.
proof fn lemma_steps(state: ReadChildrenView, replies: Seq<ReplyView>)
    requires
        state.well_formed(),
    ensures
        match after_replies::<ReadChildren>(state, replies) {
            Progress::Pending(next) => next.well_formed(),
            Progress::Done(Outcome::Success((keys, keyrings))) => exists|links: Seq<u8>|
                (state.stage == Stage::Child ==> links == state.links) && #[trigger] are_links(
                    links,
                    keys,
                    keyrings,
                ),
            _ => true,
        },
    decreases replies.len(),
{
    if replies.len() > 0 {
        state.lemma_step(replies[0]);
        match ReadChildren::spec_resume(state, replies[0]) {
            Progress::Pending(next) => {
                lemma_steps(next, replies.drop_first());
                match after_replies::<ReadChildren>(next, replies.drop_first()) {
                    Progress::Done(Outcome::Success((keys, keyrings))) => {
                        let links = choose|links: Seq<u8>|
                            (next.stage == Stage::Child ==> links == next.links)
                                && #[trigger] are_links(links, keys, keyrings);
                        assert((state.stage == Stage::Child ==> links == state.links) && are_links(
                            links,
                            keys,
                            keyrings,
                        ));
                    },
                    _ => {},
                }
            },
            Progress::Done(Outcome::Success((keys, keyrings))) => {
                let links = state.links_after(replies[0]);
                assert((state.stage == Stage::Child ==> links == state.links) && are_links(
                    links,
                    keys,
                    keyrings,
                ));
            },
            _ => {},
        }
    }
}

/// The reading of a keyring hands out links of the keyring and nothing else:
/// whatever the kernel replies, and however many calls it takes, the keys and
/// keyrings that the reading ends with are listed in the links that the kernel
/// wrote for the keyring, and they are no more than those links.
pub proof fn lemma_reading_hands_out_links(keyring: KeyringSerial, replies: Seq<ReplyView>)
    ensures
        after_replies::<ReadChildren>(
            ReadChildrenView::start(keyring),
            replies,
        ) matches Progress::Done(Outcome::Success((keys, keyrings))) ==> exists|links: Seq<u8>|
            #[trigger] are_links(links, keys, keyrings),
{
    lemma_steps(ReadChildrenView::start(keyring), replies);
}

/// At the end of the links, what was listed before the turn was listed at all.
proof fn lemma_settled_end(state: ReadChildrenView)
    requires
        state.settled(),
        state.offset >= state.links.len(),
    ensures
        state.keys.len() + state.keyrings.len() <= state.links.len() / 4,
        forall|i: int|
            0 <= i < state.keys.len() ==> listed_before(
                state.links,
                state.links.len() as int,
                (#[trigger] state.keys[i])@,
            ),
        forall|i: int|
            0 <= i < state.keyrings.len() ==> listed_before(
                state.links,
                state.links.len() as int,
                (#[trigger] state.keyrings[i])@,
            ),
{
}

impl ReadChildren {
    #[verifier::type_invariant]
    spec fn in_bounds(self) -> bool {
        self.stage == Stage::Child ==> self.offset + 4 <= self.links.len()
    }

    /// The reading of the links of a keyring, before its first call.
    pub fn new(keyring: KeyringSerial) -> (reading: ReadChildren)
        ensures
            reading@ == ReadChildrenView::start(keyring),
    {
        ReadChildren {
            keyring,
            stage: Stage::Describe,
            fetch: Fetch::new(Source::Description(keyring)),
            links: Vec::new(),
            offset: 0,
            keys: Vec::new(),
            keyrings: Vec::new(),
        }
    }

    /// The serial of the link whose turn it is.
    fn link_serial(&self) -> (id: i32)
        requires
            self@.offset + 4 <= self@.links.len(),
        ensures
            id == self@.link(),
    {
        let at: usize = self.offset;
        assert(at + 4 <= self.links.len());
        let bytes: [u8; 4] = [
            self.links[at],
            self.links[at + 1],
            self.links[at + 2],
            self.links[at + 3],
        ];
        assert(bytes@ =~= self@.links.subrange(at as int, at + 4));
        from_ne_bytes(bytes)
    }

    /// Goes on at the link whose turn it is.
    fn turn(self) -> (progress: Progress<ReadChildren, (Vec<Key>, Vec<Keyring>)>)
        requires
            self@.offset <= self@.links.len(),
        ensures
            progress@ == self@.turn(),
    {
        if self.offset >= self.links.len() {
            return Progress::Done(Outcome::Success((self.keys, self.keyrings)));
        }
        if self.links.len() - self.offset < 4 {
            return Progress::Done(Outcome::Failure(Error(EINVAL)));
        }
        let id: i32 = self.link_serial();
        match KeyringSerial::new(id) {
            None => Progress::Done(Outcome::Failure(Error(EINVAL))),
            Some(child) => Progress::Pending(
                ReadChildren {
                    keyring: self.keyring,
                    stage: Stage::Child,
                    fetch: Fetch::new(Source::Description(child)),
                    links: self.links,
                    offset: self.offset,
                    keys: self.keys,
                    keyrings: self.keyrings,
                },
            ),
        }
    }

    /// Takes the link whose turn it is as a keyring or as a key, and goes on with
    /// the next one.
    fn found(self, keyring: bool) -> (progress: Progress<ReadChildren, (Vec<Key>, Vec<Keyring>)>)
        requires
            self@.offset + 4 <= self@.links.len(),
        ensures
            progress@ == self@.found(keyring),
    {
        let ghost state = self@;
        let ReadChildren { keyring: parent, stage, fetch, links, offset, keys, keyrings } = self;
        let mut keys = keys;
        let mut keyrings = keyrings;
        match fetch.source {
            Source::Description(child) => {
                if keyring {
                    keyrings.push(Keyring::new(child));
                } else {
                    keys.push(Key::new(child));
                }
                let reading = ReadChildren {
                    keyring: parent,
                    stage,
                    fetch,
                    links,
                    offset,
                    keys,
                    keyrings,
                };
                assert(reading@ == if keyring {
                    ReadChildrenView {
                        keyrings: state.keyrings.push(Keyring::spec_new(child)),
                        ..state
                    }
                } else {
                    ReadChildrenView { keys: state.keys.push(Key::spec_new(child)), ..state }
                });
                reading.pass().turn()
            },
            _ => Progress::Done(Outcome::Failure(Error(EINVAL))),
        }
    }

    /// Passes over the link whose turn it was.
    fn pass(self) -> (reading: ReadChildren)
        requires
            self@.offset + 4 <= self@.links.len(),
        ensures
            reading@ == self@.passed(),
            reading@.offset <= reading@.links.len(),
    {
        assert(self.offset + 4 <= self.links.len());
        ReadChildren {
            keyring: self.keyring,
            stage: Stage::Read,
            fetch: self.fetch,
            links: self.links,
            offset: self.offset + 4,
            keys: self.keys,
            keyrings: self.keyrings,
        }
    }
}

impl Operation for ReadChildren {
    type Output = (Vec<Key>, Vec<Keyring>);

    open spec fn spec_call(state: ReadChildrenView) -> SyscallView {
        Fetch::spec_call(state.fetch)
    }

    open spec fn spec_resume(state: ReadChildrenView, reply: ReplyView) -> Progress<
        ReadChildrenView,
        (Seq<Key>, Seq<Keyring>),
    > {
        match Fetch::spec_resume(state.fetch, reply) {
            Progress::Pending(fetch) => Progress::Pending(state.fetching(fetch)),
            Progress::Done(Outcome::Success(bytes)) => match state.stage {
                Stage::Describe => state.after_own(bytes),
                Stage::Read => state.after_links(bytes),
                Stage::Child => state.after_child(bytes),
            },
            Progress::Done(Outcome::Failure(error)) => state.after_failure(error),
            Progress::Done(Outcome::Fault(defect)) => Progress::Done(Outcome::Fault(defect)),
        }
    }

    fn call(&self) -> (call: Syscall) {
        self.fetch.call()
    }

    fn resume(self, reply: Reply) -> (progress: Progress<ReadChildren, (Vec<Key>, Vec<Keyring>)>) {
        proof {
            use_type_invariant(&self);
        }
        let ghost state = self@;
        let ReadChildren { keyring, stage, fetch, links, offset, keys, keyrings } = self;
        let progress = match fetch.resume(reply) {
            Progress::Pending(fetch) => {
                let reading = ReadChildren { keyring, stage, fetch, links, offset, keys, keyrings };
                assert(reading@ == state.fetching(fetch));
                Progress::Pending(reading)
            },
            Progress::Done(Outcome::Fault(defect)) => Progress::Done(Outcome::Fault(defect)),
            Progress::Done(Outcome::Failure(error)) => {
                if matches!(stage, Stage::Child) && error.0 == ENOKEY {
                    let reading = ReadChildren {
                        keyring,
                        stage,
                        fetch,
                        links,
                        offset,
                        keys,
                        keyrings,
                    };
                    assert(reading@ == state);
                    reading.pass().turn()
                } else {
                    Progress::Done(Outcome::Failure(error))
                }
            },
            Progress::Done(Outcome::Success(bytes)) => match stage {
                Stage::Describe => match Describe::finish(bytes) {
                    Outcome::Success(description) => {
                        if is_keyring(&description) {
                            let reading = ReadChildren {
                                keyring,
                                stage: Stage::Read,
                                fetch: Fetch::new(Source::Payload(keyring)),
                                links,
                                offset,
                                keys,
                                keyrings,
                            };
                            assert(Progress::<ReadChildrenView, (Seq<Key>, Seq<Keyring>)>::Pending(
                                reading@,
                            ) == state.after_own(bytes@));
                            Progress::Pending(reading)
                        } else {
                            Progress::Done(Outcome::Failure(Error(ENOTDIR)))
                        }
                    },
                    Outcome::Failure(error) => Progress::Done(Outcome::Failure(error)),
                    Outcome::Fault(defect) => Progress::Done(Outcome::Fault(defect)),
                },
                Stage::Read => {
                    let reading = ReadChildren {
                        keyring,
                        stage,
                        fetch,
                        links: bytes,
                        offset: 0,
                        keys,
                        keyrings,
                    };
                    assert(reading@ == (ReadChildrenView { links: bytes@, offset: 0, ..state }));
                    reading.turn()
                },
                Stage::Child => match Describe::finish(bytes) {
                    Outcome::Success(description) => {
                        let reading = ReadChildren {
                            keyring,
                            stage,
                            fetch,
                            links,
                            offset,
                            keys,
                            keyrings,
                        };
                        assert(reading@ == state);
                        reading.found(is_keyring(&description))
                    },
                    Outcome::Failure(error) => Progress::Done(Outcome::Failure(error)),
                    Outcome::Fault(defect) => Progress::Done(Outcome::Fault(defect)),
                },
            },
        };
        assert(progress@ == ReadChildren::spec_resume(state, reply@));
        progress
    }
}

/// Whether metadata is that of a keyring.
fn is_keyring(description: &Description) -> (keyring: bool)
    ensures
        keyring == (description@.type_ == "keyring"@),
{
    let name = String::from_str("keyring");
    description.type_ == name
}

} // verus!
