//! Keys and keyrings, and what can be done with them.
//!
//! A [`Key`] or a [`Keyring`] is a handle: it holds a serial and nothing else.
//! The kernel does not tell the two apart before it is asked to work on them, so
//! whether a handle names what it claims to name shows only when an operation on
//! it is carried out. Every method here starts an operation and changes nothing
//! by itself.

use vstd::prelude::*;
use std::time::Duration;
use crate::children::{ReadChildren, ReadChildrenView};
use crate::constants::{
    request_key_auth_serial, DefaultKeyring, KeyPermissions, Permission, SpecialKeyring,
    KEY_SPEC_REQKEY_AUTH_KEY,
};
use crate::error::Error;
use crate::exchange::{FromReturn, Operation, Outcome, Progress, Request};
use crate::fetch::{Describe, Fetch, FetchText, IsKeytype, IsKeytypeView, Source};
use crate::functions::{
    add_key, add_key_call, keyctl_assume_authority, keyctl_chown, keyctl_clear,
    keyctl_get_keyring_id, keyctl_get_persistent, keyctl_instantiate, keyctl_invalidate,
    keyctl_join_session_keyring, keyctl_link, keyctl_negate, keyctl_reject,
    keyctl_restrict_keyring, keyctl_revoke, keyctl_search, keyctl_set_reqkey_keyring,
    keyctl_set_timeout, keyctl_setperm, keyctl_unlink, keyctl_update, request_key,
    request_key_call, restriction_args, Restriction, TimeoutSeconds,
};
use crate::keytype::{
    bytes_of, text_of, KeyDescription, KeyPayload, KeyRestriction, KeyType, RestrictableKeyType,
};
use crate::keytypes;
use crate::serial::{optional_serial, KeyringSerial};
use crate::syscall::{
    c_string, holds_nul, keyctl, optional_text, ArgView, Reply, ReplyView, Syscall, SyscallView,
    KEYCTL_ASSUME_AUTHORITY, KEYCTL_CHOWN, KEYCTL_CLEAR, KEYCTL_GET_KEYRING_ID,
    KEYCTL_GET_PERSISTENT, KEYCTL_INSTANTIATE, KEYCTL_INVALIDATE, KEYCTL_JOIN_SESSION_KEYRING,
    KEYCTL_LINK, KEYCTL_NEGATE, KEYCTL_REJECT, KEYCTL_RESTRICT_KEYRING, KEYCTL_REVOKE,
    KEYCTL_SEARCH, KEYCTL_SETPERM, KEYCTL_SET_REQKEY_KEYRING, KEYCTL_SET_TIMEOUT, KEYCTL_UNLINK,
    KEYCTL_UPDATE,
};

verus! {

/// The whole seconds of a duration.
pub uninterp spec fn whole_seconds(duration: Duration) -> u64;

/// `Duration::as_secs`: the number of whole seconds that the duration holds.
#[verifier::external_body]
fn as_secs(duration: &Duration) -> (seconds: u64)
    ensures
        seconds == whole_seconds(*duration),
{
    duration.as_secs()
}

/// The timeout that the kernel is given for a number of seconds: the lower 32
/// bits of the number.
pub open spec fn timeout_word(seconds: u64) -> u32 {
    (seconds % 0x1_0000_0000) as u32
}

/// The timeout that the kernel is given for a number of seconds.
pub fn timeout_seconds(seconds: u64) -> (timeout: TimeoutSeconds)
    ensures
        timeout == timeout_word(seconds),
{
    (seconds % 0x1_0000_0000) as u32
}

/// Request a key from the kernel.
fn request_impl<K: KeyType>(
    description: &str,
    info: Option<&str>,
    id: Option<KeyringSerial>,
) -> (request: Request<KeyringSerial>)
    requires
        !holds_nul(K::spec_name()),
        !holds_nul(description@),
        info matches Some(i) ==> !holds_nul(i@),
    ensures
        request@ == request_key_call(
            K::spec_name(),
            description@,
            match info {
                Some(i) => Some(i@),
                None => None,
            },
            id,
        ),
        request@.well_formed(),
{
    request_key(K::name(), description, info, id)
}

/// Representation of a kernel keyring.
#[derive(Debug, PartialEq, Eq, Structural)]
pub struct Keyring {
    id: KeyringSerial,
}

impl View for Keyring {
    type V = int;

    closed spec fn view(&self) -> int {
        self.id@
    }
}

impl Clone for Keyring {
    fn clone(&self) -> (copy: Keyring)
        ensures
            copy == *self,
    {
        Keyring { id: self.id }
    }
}

impl FromReturn for Keyring {
    open spec fn spec_from_return(res: i64) -> Outcome<int> {
        KeyringSerial::spec_from_return(res)
    }

    fn from_return(res: i64) -> (outcome: Outcome<Keyring>) {
        match KeyringSerial::from_return(res) {
            Outcome::Success(id) => Outcome::Success(Keyring::new_impl(id)),
            Outcome::Failure(error) => Outcome::Failure(error),
            Outcome::Fault(defect) => Outcome::Fault(defect),
        }
    }
}

/// Representation of a kernel key.
#[derive(Debug, PartialEq, Eq, Structural)]
pub struct Key {
    id: KeyringSerial,
}

impl View for Key {
    type V = int;

    closed spec fn view(&self) -> int {
        self.id@
    }
}

impl Clone for Key {
    fn clone(&self) -> (copy: Key)
        ensures
            copy == *self,
    {
        Key { id: self.id }
    }
}

impl FromReturn for Key {
    open spec fn spec_from_return(res: i64) -> Outcome<int> {
        KeyringSerial::spec_from_return(res)
    }

    fn from_return(res: i64) -> (outcome: Outcome<Key>) {
        match KeyringSerial::from_return(res) {
            Outcome::Success(id) => Outcome::Success(Key::new_impl(id)),
            Outcome::Failure(error) => Outcome::Failure(error),
            Outcome::Fault(defect) => Outcome::Fault(defect),
        }
    }
}

/// The destination keyring of an instantiation request.
#[derive(Debug)]
pub enum TargetKeyring<'a> {
    /// A special keyring.
    Special(SpecialKeyring),
    /// A specific keyring.
    Keyring(&'a mut Keyring),
}

impl<'a> TargetKeyring<'a> {
    /// The value of the serial that names the destination.
    pub open spec fn id(self) -> int {
        match self {
            TargetKeyring::Special(special) => special.id(),
            TargetKeyring::Keyring(keyring) => keyring@,
        }
    }

    /// The serial that names the destination.
    pub fn serial(self) -> (serial: KeyringSerial)
        ensures
            serial@ == self.id(),
    {
        match self {
            TargetKeyring::Special(special) => special.serial(),
            TargetKeyring::Keyring(keyring) => keyring.id,
        }
    }
}

impl<'a> vstd::std_specs::convert::FromSpecImpl<SpecialKeyring> for TargetKeyring<'a> {
    open spec fn obeys_from_spec() -> bool {
        true
    }

    open spec fn from_spec(special: SpecialKeyring) -> TargetKeyring<'a> {
        TargetKeyring::Special(special)
    }
}

impl<'a> From<SpecialKeyring> for TargetKeyring<'a> {
    fn from(special: SpecialKeyring) -> (target: TargetKeyring<'a>) {
        TargetKeyring::Special(special)
    }
}

impl<'a> vstd::std_specs::convert::FromSpecImpl<SpecialKeyring> for Option<TargetKeyring<'a>> {
    open spec fn obeys_from_spec() -> bool {
        true
    }

    open spec fn from_spec(special: SpecialKeyring) -> Option<TargetKeyring<'a>> {
        Some(TargetKeyring::Special(special))
    }
}

impl<'a> From<SpecialKeyring> for Option<TargetKeyring<'a>> {
    fn from(special: SpecialKeyring) -> (target: Option<TargetKeyring<'a>>) {
        Some(TargetKeyring::Special(special))
    }
}

/// The word that stands for an optional destination: zero where there is none.
pub open spec fn optional_target(target: Option<TargetKeyring>) -> int {
    match target {
        Some(t) => t.id(),
        None => 0,
    }
}

/// The serial of an optional destination.
fn target_serial(target: Option<TargetKeyring>) -> (serial: Option<KeyringSerial>)
    ensures
        optional_serial(serial) == optional_target(target),
        serial is Some <==> target is Some,
{
    match target {
        Some(t) => Some(t.serial()),
        None => None,
    }
}

impl Keyring {
    /// The handle for a serial, as a mathematical value.
    pub closed spec fn spec_new(id: KeyringSerial) -> Keyring {
        Keyring { id }
    }

    /// A handle is what its serial makes it.
    pub broadcast proof fn lemma_spec_new(id: KeyringSerial)
        ensures
            (#[trigger] Keyring::spec_new(id))@ == id@,
            Keyring::spec_new(id).serial_spec() == id,
    {
    }

    /// Instantiate a keyring from an ID.
    ///
    /// Nothing is known of the ID: whether a keyring of the kernel goes by it
    /// shows when the first operation on the handle is carried out.
    pub fn new(id: KeyringSerial) -> (keyring: Keyring)
        ensures
            keyring == Keyring::spec_new(id),
            keyring@ == id@,
            keyring.serial_spec() == id,
    {
        Keyring { id }
    }

    pub(crate) fn new_impl(id: KeyringSerial) -> (keyring: Keyring)
        ensures
            keyring == Keyring::spec_new(id),
            keyring@ == id@,
            keyring.serial_spec() == id,
    {
        Keyring { id }
    }

    /// The serial of the keyring.
    pub fn serial(&self) -> (id: KeyringSerial)
        ensures
            id@ == self@,
            id == self.serial_spec(),
    {
        self.id
    }

    /// Set the default keyring to use when implicit requests on the current
    /// thread.
    ///
    /// Returns the old default keyring.
    pub fn set_default(keyring: DefaultKeyring) -> (request: Request<DefaultKeyring>)
        ensures
            request@ == keyctl(KEYCTL_SET_REQKEY_KEYRING, seq![ArgView::Int(keyring.id())]),
            request@.well_formed(),
    {
        keyctl_set_reqkey_keyring(keyring)
    }

    /// Requests a keyring with the given description by searching the thread,
    /// process, and session keyrings.
    ///
    /// If it is not found, the `info` string (if provided) will be handed off to
    /// `/sbin/request-key` to generate the key.
    ///
    /// If `target` is given, the found keyring will be linked into it. If
    /// `target` is not given and a new key is constructed due to the request, it
    /// will be linked into the default keyring (see `Keyring::set_default`).
    pub fn request(
        description: &str,
        info: Option<&str>,
        target: Option<TargetKeyring>,
    ) -> (request: Request<Keyring>)
        requires
            !holds_nul(description@),
            info matches Some(i) ==> !holds_nul(i@),
        ensures
            request@.entry == crate::syscall::Entry::RequestKey,
            request@.args == seq![
                ArgView::Text(c_string(keytypes::Keyring::spec_name())),
                ArgView::Text(c_string(description@)),
                optional_text(
                    match info {
                        Some(i) => Some(i@),
                        None => None,
                    },
                ),
                ArgView::Int(optional_target(target)),
            ],
            request@.well_formed(),
    {
        proof {
            keytypes::Keyring::lemma_name_holds_no_nul();
        }
        request_impl::<keytypes::Keyring>(description, info, target_serial(target)).reading()
    }

    fn get_keyring(id: SpecialKeyring, create: bool) -> (request: Request<Keyring>)
        ensures
            request@ == keyctl(
                KEYCTL_GET_KEYRING_ID,
                seq![ArgView::Int(id.id()), ArgView::Int(if create { 1 } else { 0 })],
            ),
            request@.well_formed(),
    {
        keyctl_get_keyring_id(id.serial(), create).reading()
    }

    /// Attach to a special keyring. Fails if the keyring does not already exist.
    pub fn attach(id: SpecialKeyring) -> (request: Request<Keyring>)
        ensures
            request@ == keyctl(
                KEYCTL_GET_KEYRING_ID,
                seq![ArgView::Int(id.id()), ArgView::Int(0)],
            ),
            request@.well_formed(),
    {
        Keyring::get_keyring(id, false)
    }

    /// Attach to a special keyring or create it if it does not exist.
    pub fn attach_or_create(id: SpecialKeyring) -> (request: Request<Keyring>)
        ensures
            request@ == keyctl(
                KEYCTL_GET_KEYRING_ID,
                seq![ArgView::Int(id.id()), ArgView::Int(1)],
            ),
            request@.well_formed(),
    {
        Keyring::get_keyring(id, true)
    }

    /// Create a new anonymous keyring and set it as the session keyring.
    pub fn join_anonymous_session() -> (request: Request<Keyring>)
        ensures
            request@ == keyctl(KEYCTL_JOIN_SESSION_KEYRING, seq![ArgView::Null]),
            request@.well_formed(),
    {
        keyctl_join_session_keyring(None).reading()
    }

    /// Attached to a named session keyring.
    ///
    /// If a keyring named `name` exists, attach it as the session keyring
    /// (requires the `search` permission). If a keyring does not exist, create
    /// it and attach it as the session keyring.
    pub fn join_session(name: &str) -> (request: Request<Keyring>)
        requires
            !holds_nul(name@),
        ensures
            request@ == keyctl(
                KEYCTL_JOIN_SESSION_KEYRING,
                seq![ArgView::Text(c_string(name@))],
            ),
            request@.well_formed(),
    {
        keyctl_join_session_keyring(Some(name)).reading()
    }

    /// Clears the contents of the keyring.
    ///
    /// Requires `write` permission on the keyring.
    pub fn clear(&mut self) -> (request: Request<()>)
        ensures
            *final(self) == *old(self),
            request@ == keyctl(KEYCTL_CLEAR, seq![ArgView::Int(old(self)@)]),
            request@.well_formed(),
    {
        keyctl_clear(self.id)
    }

    /// Adds a link to `key` to the keyring.
    ///
    /// Any link to an existing key with the same description is removed.
    /// Requires `write` permission on the keyring and `link` permission on the
    /// key.
    pub fn link_key(&mut self, key: &Key) -> (request: Request<()>)
        ensures
            *final(self) == *old(self),
            request@ == keyctl(KEYCTL_LINK, seq![ArgView::Int(key@), ArgView::Int(old(self)@)]),
            request@.well_formed(),
    {
        keyctl_link(key.id, self.id)
    }

    /// Removes the link to `key` from the keyring.
    ///
    /// Requires `write` permission on the keyring.
    pub fn unlink_key(&mut self, key: &Key) -> (request: Request<()>)
        ensures
            *final(self) == *old(self),
            request@ == keyctl(KEYCTL_UNLINK, seq![ArgView::Int(key@), ArgView::Int(old(self)@)]),
            request@.well_formed(),
    {
        keyctl_unlink(key.id, self.id)
    }

    /// Adds a link to `keyring` to the keyring.
    ///
    /// Any link to an existing keyring with the same description is removed.
    /// Requires `write` permission on the current keyring and `link` permission
    /// on the linked keyring.
    pub fn link_keyring(&mut self, keyring: &Keyring) -> (request: Request<()>)
        ensures
            *final(self) == *old(self),
            request@ == keyctl(
                KEYCTL_LINK,
                seq![ArgView::Int(keyring@), ArgView::Int(old(self)@)],
            ),
            request@.well_formed(),
    {
        keyctl_link(keyring.id, self.id)
    }

    /// Removes the link to `keyring` from the keyring.
    ///
    /// Requires `write` permission on the keyring.
    pub fn unlink_keyring(&mut self, keyring: &Keyring) -> (request: Request<()>)
        ensures
            *final(self) == *old(self),
            request@ == keyctl(
                KEYCTL_UNLINK,
                seq![ArgView::Int(keyring@), ArgView::Int(old(self)@)],
            ),
            request@.well_formed(),
    {
        keyctl_unlink(keyring.id, self.id)
    }

    fn search_impl<K: KeyType>(
        &self,
        description: &str,
        destination: Option<&mut Keyring>,
    ) -> (request: Request<KeyringSerial>)
        requires
            !holds_nul(K::spec_name()),
            !holds_nul(description@),
        ensures
            request@ == search_call(
                self@,
                K::spec_name(),
                description@,
                match destination {
                    Some(d) => Some(d@),
                    None => None,
                },
            ),
            request@.well_formed(),
    {
        let destination_id: Option<KeyringSerial> = match destination {
            Some(d) => Some(d.id),
            None => None,
        };
        let request = keyctl_search(self.id, K::name(), description, destination_id);
        assert(request@.args =~= search_call(
            self@,
            K::spec_name(),
            description@,
            match destination {
                Some(d) => Some(d@),
                None => None,
            },
        ).args);
        request
    }

    /// Recursively search the keyring for a key with the matching description.
    ///
    /// If it is found, it is attached to the keyring (if `write` permission to
    /// the keyring and `link` permission on the key exist) and return it.
    /// Requires the `search` permission on the keyring. Any children keyrings
    /// without the `search` permission are ignored.
    pub fn search_for_key<K: KeyType>(
        &self,
        description: &K::Description,
        destination: Option<&mut Keyring>,
    ) -> (request: Request<Key>)
        requires
            !holds_nul(K::spec_name()),
            !holds_nul(description.spec_description()),
        ensures
            request@ == search_call(
                self@,
                K::spec_name(),
                description.spec_description(),
                match destination {
                    Some(d) => Some(d@),
                    None => None,
                },
            ),
            request@.well_formed(),
    {
        let text = description.description();
        self.search_impl::<K>(text_of(&text), destination).reading()
    }

    /// Recursively search the keyring for a keyring with the matching
    /// description.
    ///
    /// If it is found, it is attached to the keyring (if `write` permission to
    /// the keyring and `link` permission on the found keyring exist) and return
    /// it. Requires the `search` permission on the keyring. Any children
    /// keyrings without the `search` permission are ignored.
    pub fn search_for_keyring(
        &self,
        description: &str,
        destination: Option<&mut Keyring>,
    ) -> (request: Request<Keyring>)
        requires
            !holds_nul(description@),
        ensures
            request@ == search_call(
                self@,
                keytypes::Keyring::spec_name(),
                description@,
                match destination {
                    Some(d) => Some(d@),
                    None => None,
                },
            ),
            request@.well_formed(),
    {
        proof {
            keytypes::Keyring::lemma_name_holds_no_nul();
        }
        self.search_impl::<keytypes::Keyring>(description, destination).reading()
    }

    /// Return all immediate children of the keyring.
    ///
    /// Requires `read` permission on the keyring.
    pub fn read(&self) -> (reading: ReadChildren)
        ensures
            reading@ == ReadChildrenView::start(self.serial_spec()),
    {
        ReadChildren::new(self.id)
    }

    /// Attach the persistent keyring for the current user to the current
    /// keyring.
    ///
    /// If one does not exist, it will be created. Requires `write` permission
    /// on the keyring.
    pub fn attach_persistent(&mut self) -> (request: Request<Keyring>)
        ensures
            *final(self) == *old(self),
            request@ == keyctl(
                KEYCTL_GET_PERSISTENT,
                seq![ArgView::Int(u32::MAX as int), ArgView::Int(old(self)@)],
            ),
            request@.well_formed(),
    {
        keyctl_get_persistent(0xffff_ffff, self.id).reading()
    }

    /// Adds a key of a specific type to the keyring.
    ///
    /// If a key with the same description already exists and has the `update`
    /// permission, it will be updated, otherwise the link to the old key will be
    /// removed. Requires `write` permission.
    pub fn add_key<K: KeyType>(
        &mut self,
        description: &K::Description,
        payload: &K::Payload,
    ) -> (request: Request<Key>)
        requires
            !holds_nul(K::spec_name()),
            !holds_nul(description.spec_description()),
        ensures
            *final(self) == *old(self),
            request@ == add_key_call(
                K::spec_name(),
                description.spec_description(),
                payload.spec_payload(),
                old(self)@,
            ),
            request@.well_formed(),
    {
        self.add_key_impl::<K>(description, payload).reading()
    }

    /// Monomorphization of adding a key.
    fn add_key_impl<K: KeyType>(
        &mut self,
        description: &K::Description,
        payload: &K::Payload,
    ) -> (request: Request<KeyringSerial>)
        requires
            !holds_nul(K::spec_name()),
            !holds_nul(description.spec_description()),
        ensures
            *final(self) == *old(self),
            request@ == add_key_call(
                K::spec_name(),
                description.spec_description(),
                payload.spec_payload(),
                old(self)@,
            ),
            request@.well_formed(),
    {
        let text = description.description();
        let bytes = payload.payload();
        add_key(K::name(), text_of(&text), bytes_of(&bytes), self.id)
    }

    /// Adds a keyring to the current keyring.
    ///
    /// If a keyring with the same description already, the link to the old
    /// keyring will be removed. Requires `write` permission on the keyring.
    pub fn add_keyring(&mut self, description: &str) -> (request: Request<Keyring>)
        requires
            !holds_nul(description@),
        ensures
            *final(self) == *old(self),
            request@ == add_key_call(
                keytypes::Keyring::spec_name(),
                description@,
                Seq::empty(),
                old(self)@,
            ),
            request@.well_formed(),
    {
        proof {
            keytypes::Keyring::lemma_name_holds_no_nul();
        }
        self.add_key_impl::<keytypes::Keyring>(description, &()).reading()
    }

    /// Revokes the keyring.
    ///
    /// Requires `write` permission on the keyring.
    pub fn revoke(self) -> (request: Request<()>)
        ensures
            request@ == keyctl(KEYCTL_REVOKE, seq![ArgView::Int(self@)]),
            request@.well_formed(),
    {
        keyctl_revoke(self.id)
    }

    /// Change the user which owns the keyring.
    ///
    /// Requires the `setattr` permission on the keyring and the SysAdmin
    /// capability to change it to anything other than the current user.
    pub fn chown(&mut self, uid: u32) -> (request: Request<()>)
        ensures
            *final(self) == *old(self),
            request@ == keyctl(
                KEYCTL_CHOWN,
                seq![
                    ArgView::Int(old(self)@),
                    ArgView::Int(uid as int),
                    ArgView::Int(u32::MAX as int),
                ],
            ),
            request@.well_formed(),
    {
        keyctl_chown(self.id, Some(uid), None)
    }

    /// Change the group which owns the keyring.
    ///
    /// Requires the `setattr` permission on the keyring and the SysAdmin
    /// capability to change it to anything other than a group of which the
    /// current user is a member.
    pub fn chgrp(&mut self, gid: u32) -> (request: Request<()>)
        ensures
            *final(self) == *old(self),
            request@ == keyctl(
                KEYCTL_CHOWN,
                seq![
                    ArgView::Int(old(self)@),
                    ArgView::Int(u32::MAX as int),
                    ArgView::Int(gid as int),
                ],
            ),
            request@.well_formed(),
    {
        keyctl_chown(self.id, None, Some(gid))
    }

    /// Set the permissions on the keyring.
    ///
    /// The mask replaces the one that the keyring has. Requires the `setattr`
    /// permission on the keyring and the SysAdmin capability if the current user
    /// does not own the keyring.
    pub fn set_permissions(&mut self, perms: Permission) -> (request: Request<()>)
        ensures
            *final(self) == *old(self),
            request@ == keyctl(
                KEYCTL_SETPERM,
                seq![ArgView::Int(old(self)@), ArgView::Int(perms@ as int)],
            ),
            request@.well_formed(),
    {
        keyctl_setperm(self.id, perms.bits())
    }

    /// Set the permissions on the keyring to a mask as it is, defined bits or
    /// not.
    pub fn set_permissions_raw(&mut self, perms: KeyPermissions) -> (request: Request<()>)
        ensures
            *final(self) == *old(self),
            request@ == keyctl(
                KEYCTL_SETPERM,
                seq![ArgView::Int(old(self)@), ArgView::Int(perms as int)],
            ),
            request@.well_formed(),
    {
        keyctl_setperm(self.id, perms)
    }

    /// Restrict all links into the keyring.
    ///
    /// Requires the `setattr` permission on the keyring and the SysAdmin
    /// capability to change it to anything other than the current user.
    pub fn restrict_all(&mut self) -> (request: Request<()>)
        ensures
            *final(self) == *old(self),
            request@ == keyctl(
                KEYCTL_RESTRICT_KEYRING,
                seq![ArgView::Int(old(self)@), ArgView::Null, ArgView::Null],
            ),
            request@.well_formed(),
    {
        let request = keyctl_restrict_keyring(self.id, Restriction::AllLinks);
        assert(seq![ArgView::Int(self@)] + restriction_args(Restriction::AllLinks) =~= seq![
            ArgView::Int(self@),
            ArgView::Null,
            ArgView::Null,
        ]);
        request
    }

    /// Restrict links into the keyring.
    ///
    /// Requires the `setattr` permission on the keyring and the SysAdmin
    /// capability to change it to anything other than the current user.
    pub fn restrict_by_type<K: RestrictableKeyType>(
        &mut self,
        restriction: &K::Restriction,
    ) -> (request: Request<()>)
        requires
            !holds_nul(K::spec_name()),
            !holds_nul(restriction.spec_restriction()),
        ensures
            *final(self) == *old(self),
            request@ == keyctl(
                KEYCTL_RESTRICT_KEYRING,
                seq![
                    ArgView::Int(old(self)@),
                    ArgView::Text(c_string(K::spec_name())),
                    ArgView::Text(c_string(restriction.spec_restriction())),
                ],
            ),
            request@.well_formed(),
    {
        let rule = restriction.restriction();
        let by_type = Restriction::ByType { type_: K::name(), restriction: text_of(&rule) };
        let request = keyctl_restrict_keyring(self.id, by_type);
        assert(seq![ArgView::Int(self@)] + restriction_args(by_type) =~= seq![
            ArgView::Int(self@),
            ArgView::Text(c_string(K::spec_name())),
            ArgView::Text(c_string(restriction.spec_restriction())),
        ]);
        request
    }

    /// Retrieve the description of the keyring as the kernel wrote it, without
    /// the NUL at its end.
    pub fn description_raw(&self) -> (fetch: FetchText)
        ensures
            fetch@ == (Fetch { source: Source::Description(self.serial_spec()), capacity: None }),
    {
        FetchText::new(Source::Description(self.id))
    }

    /// Retrieve metadata about the keyring.
    pub fn description(&self) -> (describe: Describe)
        ensures
            describe@ == (Fetch {
                source: Source::Description(self.serial_spec()),
                capacity: None,
            }),
    {
        Describe::new(self.id)
    }

    /// Set an expiration timer on the keyring to `timeout`.
    ///
    /// Any partial seconds are ignored. A timeout of 0 means "no expiration".
    /// Requires the `setattr` permission on the keyring.
    pub fn set_timeout(&mut self, timeout: Duration) -> (request: Request<()>)
        ensures
            *final(self) == *old(self),
            request@ == keyctl(
                KEYCTL_SET_TIMEOUT,
                seq![
                    ArgView::Int(old(self)@),
                    ArgView::Int(timeout_word(whole_seconds(timeout)) as int),
                ],
            ),
            request@.well_formed(),
    {
        keyctl_set_timeout(self.id, timeout_seconds(as_secs(&timeout)))
    }

    /// The security context of the keyring. Depends on the security manager
    /// loaded into the kernel (e.g., SELinux or AppArmor).
    pub fn security(&self) -> (fetch: FetchText)
        ensures
            fetch@ == (Fetch { source: Source::Security(self.serial_spec()), capacity: None }),
    {
        FetchText::new(Source::Security(self.id))
    }

    /// Invalidates the keyring and schedules it for removal. Requires the
    /// `search` permission on the keyring.
    pub fn invalidate(self) -> (request: Request<()>)
        ensures
            request@ == keyctl(KEYCTL_INVALIDATE, seq![ArgView::Int(self@)]),
            request@.well_formed(),
    {
        keyctl_invalidate(self.id)
    }

    /// The serial of the keyring, as a mathematical value.
    pub closed spec fn serial_spec(&self) -> KeyringSerial {
        self.id
    }
}

impl Key {
    /// The handle for a serial, as a mathematical value.
    pub closed spec fn spec_new(id: KeyringSerial) -> Key {
        Key { id }
    }

    /// A handle is what its serial makes it.
    pub broadcast proof fn lemma_spec_new(id: KeyringSerial)
        ensures
            (#[trigger] Key::spec_new(id))@ == id@,
            Key::spec_new(id).serial_spec() == id,
    {
    }

    /// Instantiate a key from an ID.
    ///
    /// Nothing is known of the ID: whether a key of the kernel goes by it shows
    /// when the first operation on the handle is carried out.
    pub fn new(id: KeyringSerial) -> (key: Key)
        ensures
            key == Key::spec_new(id),
            key@ == id@,
            key.serial_spec() == id,
    {
        Key::new_impl(id)
    }

    pub(crate) fn new_impl(id: KeyringSerial) -> (key: Key)
        ensures
            key == Key::spec_new(id),
            key@ == id@,
            key.serial_spec() == id,
    {
        Key { id }
    }

    /// The serial of the key.
    pub fn serial(&self) -> (id: KeyringSerial)
        ensures
            id@ == self@,
            id == self.serial_spec(),
    {
        self.id
    }

    /// The serial of the key, as a mathematical value.
    pub closed spec fn serial_spec(&self) -> KeyringSerial {
        self.id
    }

    /// Requests a key with the given type and description by searching the
    /// thread, process, and session keyrings.
    ///
    /// If it is not found, the `info` string (if provided) will be handed off to
    /// `/sbin/request-key` to generate the key.
    ///
    /// If `target` is given, the found keyring will be linked into it. If
    /// `target` is not given and a new key is constructed due to the request, it
    /// will be linked into the default keyring (see `Keyring::set_default`).
    pub fn request<K: KeyType>(
        description: &K::Description,
        info: Option<&str>,
        target: Option<TargetKeyring>,
    ) -> (request: Request<Key>)
        requires
            !holds_nul(K::spec_name()),
            !holds_nul(description.spec_description()),
            info matches Some(i) ==> !holds_nul(i@),
        ensures
            request@.entry == crate::syscall::Entry::RequestKey,
            request@.args == seq![
                ArgView::Text(c_string(K::spec_name())),
                ArgView::Text(c_string(description.spec_description())),
                optional_text(
                    match info {
                        Some(i) => Some(i@),
                        None => None,
                    },
                ),
                ArgView::Int(optional_target(target)),
            ],
            request@.well_formed(),
    {
        let text = description.description();
        request_impl::<K>(text_of(&text), info, target_serial(target)).reading()
    }

    /// Determine whether the key is of a specific implementation or not.
    pub fn is_keytype<K: KeyType>(&self) -> (question: IsKeytype)
        ensures
            question@ == (IsKeytypeView {
                fetch: Fetch { source: Source::Description(self.serial_spec()), capacity: None },
                name: K::spec_name(),
            }),
    {
        IsKeytype::new(self.id, K::name())
    }

    /// Update the payload in the key.
    pub fn update<K: KeyType>(&mut self, payload: &K::Payload) -> (request: Request<()>)
        ensures
            *final(self) == *old(self),
            request@ == keyctl(
                KEYCTL_UPDATE,
                seq![
                    ArgView::Int(old(self)@),
                    ArgView::Data(payload.spec_payload()),
                    ArgView::Size(payload.spec_payload().len()),
                ],
            ),
            request@.well_formed(),
    {
        let bytes = payload.payload();
        keyctl_update(self.id, bytes_of(&bytes))
    }

    /// Revokes the key. Requires `write` permission on the key.
    pub fn revoke(self) -> (request: Request<()>)
        ensures
            request@ == keyctl(KEYCTL_REVOKE, seq![ArgView::Int(self@)]),
            request@.well_formed(),
    {
        Keyring::new_impl(self.id).revoke()
    }

    /// Change the user which owns the key.
    ///
    /// Requires the `setattr` permission on the key and the SysAdmin capability
    /// to change it to anything other than the current user.
    pub fn chown(&mut self, uid: u32) -> (request: Request<()>)
        ensures
            *final(self) == *old(self),
            request@ == keyctl(
                KEYCTL_CHOWN,
                seq![
                    ArgView::Int(old(self)@),
                    ArgView::Int(uid as int),
                    ArgView::Int(u32::MAX as int),
                ],
            ),
            request@.well_formed(),
    {
        let mut keyring = Keyring::new_impl(self.id);
        keyring.chown(uid)
    }

    /// Change the group which owns the key.
    ///
    /// Requires the `setattr` permission on the key and the SysAdmin capability
    /// to change it to anything other than a group of which the current user is
    /// a member.
    pub fn chgrp(&mut self, gid: u32) -> (request: Request<()>)
        ensures
            *final(self) == *old(self),
            request@ == keyctl(
                KEYCTL_CHOWN,
                seq![
                    ArgView::Int(old(self)@),
                    ArgView::Int(u32::MAX as int),
                    ArgView::Int(gid as int),
                ],
            ),
            request@.well_formed(),
    {
        let mut keyring = Keyring::new_impl(self.id);
        keyring.chgrp(gid)
    }

    /// Set the permissions on the key.
    ///
    /// The mask replaces the one that the key has. Requires the `setattr`
    /// permission on the key and the SysAdmin capability if the current user
    /// does not own the key.
    pub fn set_permissions(&mut self, perms: Permission) -> (request: Request<()>)
        ensures
            *final(self) == *old(self),
            request@ == keyctl(
                KEYCTL_SETPERM,
                seq![ArgView::Int(old(self)@), ArgView::Int(perms@ as int)],
            ),
            request@.well_formed(),
    {
        let mut keyring = Keyring::new_impl(self.id);
        keyring.set_permissions(perms)
    }

    /// Set the permissions on the key to a mask as it is, defined bits or not.
    pub fn set_permissions_raw(&mut self, perms: KeyPermissions) -> (request: Request<()>)
        ensures
            *final(self) == *old(self),
            request@ == keyctl(
                KEYCTL_SETPERM,
                seq![ArgView::Int(old(self)@), ArgView::Int(perms as int)],
            ),
            request@.well_formed(),
    {
        let mut keyring = Keyring::new_impl(self.id);
        keyring.set_permissions_raw(perms)
    }

    /// Retrieve metadata about the key.
    pub fn description(&self) -> (describe: Describe)
        ensures
            describe@ == (Fetch {
                source: Source::Description(self.serial_spec()),
                capacity: None,
            }),
    {
        Keyring::new_impl(self.id).description()
    }

    /// Read the payload of the key. Requires `read` permissions on the key.
    pub fn read(&self) -> (fetch: Fetch)
        ensures
            fetch == (Fetch { source: Source::Payload(self.serial_spec()), capacity: None }),
    {
        read_impl(self.id)
    }

    /// Set an expiration timer on the keyring to `timeout`.
    ///
    /// Any partial seconds are ignored. A timeout of 0 means "no expiration".
    /// Requires the `setattr` permission on the key.
    pub fn set_timeout(&mut self, timeout: Duration) -> (request: Request<()>)
        ensures
            *final(self) == *old(self),
            request@ == keyctl(
                KEYCTL_SET_TIMEOUT,
                seq![
                    ArgView::Int(old(self)@),
                    ArgView::Int(timeout_word(whole_seconds(timeout)) as int),
                ],
            ),
            request@.well_formed(),
    {
        let mut keyring = Keyring::new_impl(self.id);
        keyring.set_timeout(timeout)
    }

    /// The security context of the key.
    ///
    /// Depends on the security manager loaded into the kernel (e.g., SELinux or
    /// AppArmor).
    pub fn security(&self) -> (fetch: FetchText)
        ensures
            fetch@ == (Fetch { source: Source::Security(self.serial_spec()), capacity: None }),
    {
        Keyring::new_impl(self.id).security()
    }

    /// Invalidates the key and schedules it for removal.
    ///
    /// Requires the `search` permission on the key.
    pub fn invalidate(self) -> (request: Request<()>)
        ensures
            request@ == keyctl(KEYCTL_INVALIDATE, seq![ArgView::Int(self@)]),
            request@.well_formed(),
    {
        Keyring::new_impl(self.id).invalidate()
    }

    /// Create an object to manage a key request.
    ///
    /// Before a key may be managed on a thread, an authorization key must be
    /// attached to an available thread keyring.
    ///
    /// Only one key may be managed on a thread at a time. Managing a second key
    /// will invalidate any previous `KeyManager` constructions.
    ///
    /// See `KeyManager::request_key_auth_key`.
    pub fn manage(&mut self) -> (manage: Manage)
        ensures
            *final(self) == *old(self),
            manage@ == old(self)@,
    {
        Manage { key: self.id }
    }

    /// Compute a Diffie-Hellman prime for use as a shared secret or public key.
    pub fn compute_dh(private: &Key, prime: &Key, base: &Key) -> (fetch: Fetch)
        ensures
            fetch == (Fetch {
                source: Source::DhCompute {
                    private: private.serial_spec(),
                    prime: prime.serial_spec(),
                    base: base.serial_spec(),
                },
                capacity: None,
            }),
    {
        Fetch::new(Source::DhCompute { private: private.id, prime: prime.id, base: base.id })
    }
}

/// The reading of the payload of a key.
fn read_impl(id: KeyringSerial) -> (fetch: Fetch)
    ensures
        fetch == (Fetch { source: Source::Payload(id), capacity: None }),
{
    Fetch::new(Source::Payload(id))
}

/// Taking on the authority to instantiate a key.
#[derive(Debug, PartialEq, Eq)]
pub struct Manage {
    key: KeyringSerial,
}

impl View for Manage {
    type V = int;

    closed spec fn view(&self) -> int {
        self.key@
    }
}

impl Operation for Manage {
    type Output = KeyManager;

    open spec fn spec_call(state: int) -> SyscallView {
        keyctl(KEYCTL_ASSUME_AUTHORITY, seq![ArgView::Int(state)])
    }

    /// Where the kernel grants the authority, there is a manager for the key.
    open spec fn spec_resume(state: int, reply: ReplyView) -> Progress<int, int> {
        Progress::Done(
            match crate::exchange::read_reply::<()>(reply) {
                Outcome::Success(_) => Outcome::Success(state),
                Outcome::Failure(error) => Outcome::Failure(error),
                Outcome::Fault(defect) => Outcome::Fault(defect),
            },
        )
    }

    fn call(&self) -> (call: Syscall) {
        keyctl_assume_authority(Some(self.key)).call()
    }

    fn resume(self, reply: Reply) -> (progress: Progress<Manage, KeyManager>) {
        let request = keyctl_assume_authority(Some(self.key));
        match request.resume(reply) {
            Progress::Pending(_) => Progress::Pending(self),
            Progress::Done(Outcome::Success(_)) => Progress::Done(
                Outcome::Success(KeyManager::new(Key::new_impl(self.key))),
            ),
            Progress::Done(Outcome::Failure(error)) => Progress::Done(Outcome::Failure(error)),
            Progress::Done(Outcome::Fault(defect)) => Progress::Done(Outcome::Fault(defect)),
        }
    }
}

/// A manager for a key to respond to instantiate a key request by the kernel.
///
/// A manager stands for the authority over one key that is under construction.
/// It is used up by the one answer that it gives: `instantiate`, `reject` or
/// `negate`.
#[derive(Debug, PartialEq, Eq)]
pub struct KeyManager {
    key: Key,
}

impl View for KeyManager {
    type V = int;

    closed spec fn view(&self) -> int {
        self.key@
    }
}

impl KeyManager {
    fn new(key: Key) -> (manager: KeyManager)
        ensures
            manager@ == key@,
    {
        KeyManager { key }
    }

    /// A manager for a key over which no authority was taken on.
    pub fn test_new(key: Key) -> (manager: KeyManager)
        ensures
            manager@ == key@,
    {
        KeyManager::new(key)
    }

    /// Requests the authorization key created by `request_key`.
    ///
    /// This key must be present in an available keyring before `Key::manage`
    /// may be called.
    pub fn request_key_auth_key(create: bool) -> (request: Request<Key>)
        ensures
            request@ == keyctl(
                KEYCTL_GET_KEYRING_ID,
                seq![
                    ArgView::Int(KEY_SPEC_REQKEY_AUTH_KEY as int),
                    ArgView::Int(if create { 1 } else { 0 }),
                ],
            ),
            request@.well_formed(),
    {
        keyctl_get_keyring_id(request_key_auth_serial(), create).reading()
    }

    /// Drop authority for the current thread.
    ///
    /// This invalidates every manager of the thread.
    pub fn drop_authority() -> (request: Request<()>)
        ensures
            request@ == keyctl(KEYCTL_ASSUME_AUTHORITY, seq![ArgView::Int(0)]),
            request@.well_formed(),
    {
        keyctl_assume_authority(None)
    }

    /// Instantiate the key with the given payload.
    pub fn instantiate(self, keyring: Option<TargetKeyring>, payload: &[u8]) -> (request: Request<
        (),
    >)
        ensures
            request@ == keyctl(
                KEYCTL_INSTANTIATE,
                seq![
                    ArgView::Int(self@),
                    ArgView::Data(payload@),
                    ArgView::Size(payload@.len()),
                    ArgView::Int(optional_target(keyring)),
                ],
            ),
            request@.well_formed(),
    {
        keyctl_instantiate(self.key.id, payload, target_serial(keyring))
    }

    /// Reject the key with the given `error`.
    ///
    /// Requests for the key will fail until `timeout` has elapsed (partial
    /// seconds are ignored). This is to prevent a denial-of-service by
    /// requesting a non-existant key repeatedly. The requester must have
    /// `write` permission on the keyring.
    pub fn reject(
        self,
        keyring: Option<TargetKeyring>,
        timeout: Duration,
        error: Error,
    ) -> (request: Request<()>)
        ensures
            request@ == keyctl(
                KEYCTL_REJECT,
                seq![
                    ArgView::Int(self@),
                    ArgView::Int(timeout_word(whole_seconds(timeout)) as int),
                    ArgView::Int(error.0 as int),
                    ArgView::Int(optional_target(keyring)),
                ],
            ),
            request@.well_formed(),
    {
        keyctl_reject(
            self.key.id,
            timeout_seconds(as_secs(&timeout)),
            error,
            target_serial(keyring),
        )
    }

    /// Reject the key with `ENOKEY`.
    ///
    /// Requests for the key will fail until `timeout` has elapsed (partial
    /// seconds are ignored). This is to prevent a denial-of-service by
    /// requesting a non-existant key repeatedly. The requester must have
    /// `write` permission on the keyring.
    pub fn negate(self, keyring: Option<TargetKeyring>, timeout: Duration) -> (request: Request<()>)
        ensures
            request@ == keyctl(
                KEYCTL_NEGATE,
                seq![
                    ArgView::Int(self@),
                    ArgView::Int(timeout_word(whole_seconds(timeout)) as int),
                    ArgView::Int(optional_target(keyring)),
                ],
            ),
            request@.well_formed(),
    {
        keyctl_negate(self.key.id, timeout_seconds(as_secs(&timeout)), target_serial(keyring))
    }
}

/// What a program gives as the payload of a key is what it reads from the key,
/// byte for byte, as far as that depends on the library: the call that adds the
/// key hands the kernel the payload as it is, with its length, and the reading
/// of a key ends with the bytes that the kernel wrote. A kernel that keeps what
/// it was given and gives it back makes the two the same.
pub proof fn lemma_payload_round_trip(
    type_: Seq<char>,
    description: Seq<char>,
    payload: Seq<u8>,
    keyring: int,
    key: KeyringSerial,
    errno: i32,
)
    requires
        payload.len() <= i64::MAX,
        payload.len() <= usize::MAX,
    ensures
        ({
            let call = add_key_call(type_, description, payload, keyring);
            let start = Fetch { source: Source::Payload(key), capacity: None };
            let fill = Fetch {
                source: Source::Payload(key),
                capacity: Some(payload.len() as usize),
            };
            let size = ReplyView { ret: payload.len() as i64, errno, data: Seq::empty() };
            let written = ReplyView { ret: payload.len() as i64, errno, data: payload };
            &&& call.args[2] == ArgView::Data(payload)
            &&& call.args[3] == ArgView::Size(payload.len())
            &&& Fetch::spec_resume(start, size) == Progress::<Fetch, Seq<u8>>::Pending(fill)
            &&& Fetch::spec_resume(fill, written) == Progress::<Fetch, Seq<u8>>::Done(
                Outcome::Success(payload),
            )
        }),
{
    Fetch::lemma_value_round_trip(Source::Payload(key), payload, errno);
}

/// The call that searches a keyring.
pub open spec fn search_call(
    keyring: int,
    type_: Seq<char>,
    description: Seq<char>,
    destination: Option<int>,
) -> SyscallView {
    keyctl(
        KEYCTL_SEARCH,
        seq![
            ArgView::Int(keyring),
            ArgView::Text(c_string(type_)),
            ArgView::Text(c_string(description)),
            ArgView::Int(
                match destination {
                    Some(d) => d,
                    None => 0,
                },
            ),
        ],
    )
}

} // verus!
