//! The entry points of the kernel, one function each.
//!
//! Every function marshals its arguments into the call that the kernel expects
//! and says how the returned value is to be read. Texts become C strings, an
//! absent text becomes the null pointer, and an absent keyring becomes zero.

use vstd::prelude::*;
use crate::constants::{DefaultKeyring, KeyPermissions};
use crate::error::Error;
use crate::exchange::Request;
use crate::serial::{opt_key_serial, optional_serial, KeyringSerial};
use crate::syscall::{
    c_string, cstring, holds_nul, keyctl, optional_text, Arg, ArgView, Entry, Syscall,
    SyscallView, KEYCTL_ASSUME_AUTHORITY, KEYCTL_CHOWN, KEYCTL_CLEAR, KEYCTL_DESCRIBE,
    KEYCTL_DH_COMPUTE, KEYCTL_GET_KEYRING_ID, KEYCTL_GET_PERSISTENT, KEYCTL_GET_SECURITY,
    KEYCTL_INSTANTIATE, KEYCTL_INVALIDATE, KEYCTL_JOIN_SESSION_KEYRING, KEYCTL_LINK,
    KEYCTL_NEGATE, KEYCTL_READ, KEYCTL_REJECT, KEYCTL_RESTRICT_KEYRING, KEYCTL_REVOKE,
    KEYCTL_SEARCH, KEYCTL_SESSION_TO_PARENT, KEYCTL_SETPERM, KEYCTL_SET_REQKEY_KEYRING,
    KEYCTL_SET_TIMEOUT, KEYCTL_UNLINK, KEYCTL_UPDATE,
};

verus! {

/// The kernel type for a timeout in seconds.
pub type TimeoutSeconds = u32;

/// The two arguments for a buffer: where it is and how much it holds. Without a
/// buffer they are the null pointer and zero, which makes the kernel only report
/// the size that it would need.
pub open spec fn buffer_args(buffer: Option<usize>) -> Seq<ArgView> {
    match buffer {
        Some(capacity) => seq![ArgView::Buffer(capacity as nat), ArgView::Size(capacity as nat)],
        None => seq![ArgView::Null, ArgView::Size(0)],
    }
}

/// The word for an owner that may stay as it is: all bits set where it stays.
pub open spec fn optional_owner(id: Option<u32>) -> int {
    match id {
        Some(value) => value as int,
        None => u32::MAX as int,
    }
}

/// The argument for an optional text.
fn text_arg(text: Option<&str>) -> (arg: Arg)
    requires
        text matches Some(t) ==> !holds_nul(t@),
    ensures
        arg@ == optional_text(
            match text {
                Some(t) => Some(t@),
                None => None,
            },
        ),
{
    match text {
        Some(t) => Arg::Text(cstring(t)),
        None => Arg::Null,
    }
}

/// The pointer argument for a buffer.
fn buffer_arg(buffer: Option<usize>) -> (arg: Arg)
    ensures
        arg@ == buffer_args(buffer)[0],
{
    match buffer {
        Some(capacity) => Arg::Buffer(capacity),
        None => Arg::Null,
    }
}

/// The size argument for a buffer.
fn capacity_arg(buffer: Option<usize>) -> (arg: Arg)
    ensures
        arg@ == buffer_args(buffer)[1],
{
    match buffer {
        Some(capacity) => Arg::Size(capacity),
        None => Arg::Size(0),
    }
}

/// Packs the arguments of a call.
fn pack(entry: Entry, args: Vec<Arg>) -> (call: Syscall)
    ensures
        call@.entry == entry,
        call@.args == args@.map_values(|a: Arg| a@),
{
    Syscall { entry, args }
}

/// The call that `add_key` makes.
pub open spec fn add_key_call(
    type_: Seq<char>,
    description: Seq<char>,
    payload: Seq<u8>,
    keyring: int,
) -> SyscallView {
    SyscallView {
        entry: Entry::AddKey,
        args: seq![
            ArgView::Text(c_string(type_)),
            ArgView::Text(c_string(description)),
            ArgView::Data(payload),
            ArgView::Size(payload.len()),
            ArgView::Int(keyring),
        ],
    }
}

/// Creates a key of a type in a keyring, or updates the key of that type and
/// description which the keyring already holds. Returns the key.
pub fn add_key(type_: &str, description: &str, payload: &[u8], keyring: KeyringSerial) -> (request:
    Request<KeyringSerial>)
    requires
        !holds_nul(type_@),
        !holds_nul(description@),
    ensures
        request@ == add_key_call(type_@, description@, payload@, keyring@),
        request@.well_formed(),
{
    let args = vec![
        Arg::Text(cstring(type_)),
        Arg::Text(cstring(description)),
        Arg::Data(vstd::slice::slice_to_vec(payload)),
        Arg::Size(payload.len()),
        Arg::Int(keyring.get() as i64),
    ];
    let call = pack(Entry::AddKey, args);
    assert(call@.args =~= add_key_call(type_@, description@, payload@, keyring@).args);
    Request::new(call)
}

/// The call that `request_key` makes.
pub open spec fn request_key_call(
    type_: Seq<char>,
    description: Seq<char>,
    callout_info: Option<Seq<char>>,
    keyring: Option<KeyringSerial>,
) -> SyscallView {
    SyscallView {
        entry: Entry::RequestKey,
        args: seq![
            ArgView::Text(c_string(type_)),
            ArgView::Text(c_string(description)),
            optional_text(callout_info),
            ArgView::Int(optional_serial(keyring)),
        ],
    }
}

/// Asks for a key of a type and description. The kernel searches the keyrings of
/// the thread, the process and the session, in that order. Where none holds the
/// key and `callout_info` is given, the kernel has a program make it. The key
/// that was found or made is linked into `keyring`, if one is given.
pub fn request_key(
    type_: &str,
    description: &str,
    callout_info: Option<&str>,
    keyring: Option<KeyringSerial>,
) -> (request: Request<KeyringSerial>)
    requires
        !holds_nul(type_@),
        !holds_nul(description@),
        callout_info matches Some(info) ==> !holds_nul(info@),
    ensures
        request@ == request_key_call(
            type_@,
            description@,
            match callout_info {
                Some(info) => Some(info@),
                None => None,
            },
            keyring,
        ),
        request@.well_formed(),
{
    let args = vec![
        Arg::Text(cstring(type_)),
        Arg::Text(cstring(description)),
        text_arg(callout_info),
        Arg::Int(opt_key_serial(keyring) as i64),
    ];
    let call = pack(Entry::RequestKey, args);
    assert(call@.args =~= request_key_call(
        type_@,
        description@,
        match callout_info {
            Some(info) => Some(info@),
            None => None,
        },
        keyring,
    ).args);
    Request::new(call)
}

/// Finds the keyring that a special serial stands for, and creates it where
/// `create` is set and there is none.
pub fn keyctl_get_keyring_id(id: KeyringSerial, create: bool) -> (request: Request<KeyringSerial>)
    ensures
        request@ == keyctl(
            KEYCTL_GET_KEYRING_ID,
            seq![ArgView::Int(id@), ArgView::Int(if create { 1 } else { 0 })],
        ),
        request@.well_formed(),
{
    let flag: i64 = if create {
        1
    } else {
        0
    };
    let args = vec![
        Arg::Int(KEYCTL_GET_KEYRING_ID as i64),
        Arg::Int(id.get() as i64),
        Arg::Int(flag),
    ];
    let call = pack(Entry::Keyctl, args);
    assert(call@.args =~= keyctl(
        KEYCTL_GET_KEYRING_ID,
        seq![ArgView::Int(id@), ArgView::Int(if create { 1 } else { 0 })],
    ).args);
    Request::new(call)
}

/// Joins the session keyring of a name, or a new anonymous one where no name is
/// given.
pub fn keyctl_join_session_keyring(name: Option<&str>) -> (request: Request<KeyringSerial>)
    requires
        name matches Some(n) ==> !holds_nul(n@),
    ensures
        request@ == keyctl(
            KEYCTL_JOIN_SESSION_KEYRING,
            seq![
                optional_text(
                    match name {
                        Some(n) => Some(n@),
                        None => None,
                    },
                ),
            ],
        ),
        request@.well_formed(),
{
    let args = vec![Arg::Int(KEYCTL_JOIN_SESSION_KEYRING as i64), text_arg(name)];
    let call = pack(Entry::Keyctl, args);
    assert(call@.args =~= keyctl(
        KEYCTL_JOIN_SESSION_KEYRING,
        seq![
            optional_text(
                match name {
                    Some(n) => Some(n@),
                    None => None,
                },
            ),
        ],
    ).args);
    Request::new(call)
}

/// Replaces the payload of a key.
pub fn keyctl_update(id: KeyringSerial, payload: &[u8]) -> (request: Request<()>)
    ensures
        request@ == keyctl(
            KEYCTL_UPDATE,
            seq![ArgView::Int(id@), ArgView::Data(payload@), ArgView::Size(payload@.len())],
        ),
        request@.well_formed(),
{
    let args = vec![
        Arg::Int(KEYCTL_UPDATE as i64),
        Arg::Int(id.get() as i64),
        Arg::Data(vstd::slice::slice_to_vec(payload)),
        Arg::Size(payload.len()),
    ];
    let call = pack(Entry::Keyctl, args);
    assert(call@.args =~= keyctl(
        KEYCTL_UPDATE,
        seq![ArgView::Int(id@), ArgView::Data(payload@), ArgView::Size(payload@.len())],
    ).args);
    Request::new(call)
}

/// An operation of `keyctl` on one key and nothing else.
fn on_key(operation: u32, id: KeyringSerial) -> (request: Request<()>)
    ensures
        request@ == keyctl(operation, seq![ArgView::Int(id@)]),
        request@.well_formed(),
{
    let args = vec![Arg::Int(operation as i64), Arg::Int(id.get() as i64)];
    let call = pack(Entry::Keyctl, args);
    assert(call@.args =~= keyctl(operation, seq![ArgView::Int(id@)]).args);
    Request::new(call)
}

/// An operation of `keyctl` on a key and a keyring.
fn on_key_in_keyring(operation: u32, id: KeyringSerial, ringid: KeyringSerial) -> (request:
    Request<()>)
    ensures
        request@ == keyctl(operation, seq![ArgView::Int(id@), ArgView::Int(ringid@)]),
        request@.well_formed(),
{
    let args = vec![
        Arg::Int(operation as i64),
        Arg::Int(id.get() as i64),
        Arg::Int(ringid.get() as i64),
    ];
    let call = pack(Entry::Keyctl, args);
    assert(call@.args =~= keyctl(operation, seq![ArgView::Int(id@), ArgView::Int(ringid@)]).args);
    Request::new(call)
}

/// Revokes a key.
pub fn keyctl_revoke(id: KeyringSerial) -> (request: Request<()>)
    ensures
        request@ == keyctl(KEYCTL_REVOKE, seq![ArgView::Int(id@)]),
        request@.well_formed(),
{
    on_key(KEYCTL_REVOKE, id)
}

/// Changes the owning user, the owning group, or both. The one that is not given
/// stays as it is.
pub fn keyctl_chown(id: KeyringSerial, uid: Option<u32>, gid: Option<u32>) -> (request: Request<()>)
    ensures
        request@ == keyctl(
            KEYCTL_CHOWN,
            seq![
                ArgView::Int(id@),
                ArgView::Int(optional_owner(uid)),
                ArgView::Int(optional_owner(gid)),
            ],
        ),
        request@.well_formed(),
{
    let uid_word: u32 = match uid {
        Some(value) => value,
        None => 0xffff_ffff,
    };
    let gid_word: u32 = match gid {
        Some(value) => value,
        None => 0xffff_ffff,
    };
    let args = vec![
        Arg::Int(KEYCTL_CHOWN as i64),
        Arg::Int(id.get() as i64),
        Arg::Int(uid_word as i64),
        Arg::Int(gid_word as i64),
    ];
    let call = pack(Entry::Keyctl, args);
    assert(call@.args =~= keyctl(
        KEYCTL_CHOWN,
        seq![
            ArgView::Int(id@),
            ArgView::Int(optional_owner(uid)),
            ArgView::Int(optional_owner(gid)),
        ],
    ).args);
    Request::new(call)
}

/// Replaces the whole permission mask of a key.
pub fn keyctl_setperm(id: KeyringSerial, perm: KeyPermissions) -> (request: Request<()>)
    ensures
        request@ == keyctl(KEYCTL_SETPERM, seq![ArgView::Int(id@), ArgView::Int(perm as int)]),
        request@.well_formed(),
{
    let args = vec![
        Arg::Int(KEYCTL_SETPERM as i64),
        Arg::Int(id.get() as i64),
        Arg::Int(perm as i64),
    ];
    let call = pack(Entry::Keyctl, args);
    assert(call@.args =~= keyctl(
        KEYCTL_SETPERM,
        seq![ArgView::Int(id@), ArgView::Int(perm as int)],
    ).args);
    Request::new(call)
}

/// An operation of `keyctl` that fills a buffer with what it knows of one key.
fn into_buffer(operation: u32, id: KeyringSerial, buffer: Option<usize>) -> (request: Request<
    usize,
>)
    ensures
        request@ == keyctl(operation, seq![ArgView::Int(id@)] + buffer_args(buffer)),
        request@.well_formed(),
{
    let args = vec![
        Arg::Int(operation as i64),
        Arg::Int(id.get() as i64),
        buffer_arg(buffer),
        capacity_arg(buffer),
    ];
    let call = pack(Entry::Keyctl, args);
    assert(call@.args =~= keyctl(operation, seq![ArgView::Int(id@)] + buffer_args(buffer)).args);
    Request::new(call)
}

/// Describes a key into a buffer. The call returns the size of the whole
/// description, whatever the buffer holds.
pub fn keyctl_describe(id: KeyringSerial, buffer: Option<usize>) -> (request: Request<usize>)
    ensures
        request@ == keyctl(KEYCTL_DESCRIBE, seq![ArgView::Int(id@)] + buffer_args(buffer)),
        request@.well_formed(),
{
    into_buffer(KEYCTL_DESCRIBE, id, buffer)
}

/// Removes every link from a keyring.
pub fn keyctl_clear(id: KeyringSerial) -> (request: Request<()>)
    ensures
        request@ == keyctl(KEYCTL_CLEAR, seq![ArgView::Int(id@)]),
        request@.well_formed(),
{
    on_key(KEYCTL_CLEAR, id)
}

/// Links a key into a keyring.
pub fn keyctl_link(id: KeyringSerial, ringid: KeyringSerial) -> (request: Request<()>)
    ensures
        request@ == keyctl(KEYCTL_LINK, seq![ArgView::Int(id@), ArgView::Int(ringid@)]),
        request@.well_formed(),
{
    on_key_in_keyring(KEYCTL_LINK, id, ringid)
}

/// Removes the link to a key from a keyring.
pub fn keyctl_unlink(id: KeyringSerial, ringid: KeyringSerial) -> (request: Request<()>)
    ensures
        request@ == keyctl(KEYCTL_UNLINK, seq![ArgView::Int(id@), ArgView::Int(ringid@)]),
        request@.well_formed(),
{
    on_key_in_keyring(KEYCTL_UNLINK, id, ringid)
}

/// Searches a keyring and the keyrings below it for a key of a type and
/// description, and links what it finds into `destringid`, if one is given.
pub fn keyctl_search(
    ringid: KeyringSerial,
    type_: &str,
    description: &str,
    destringid: Option<KeyringSerial>,
) -> (request: Request<KeyringSerial>)
    requires
        !holds_nul(type_@),
        !holds_nul(description@),
    ensures
        request@ == keyctl(
            KEYCTL_SEARCH,
            seq![
                ArgView::Int(ringid@),
                ArgView::Text(c_string(type_@)),
                ArgView::Text(c_string(description@)),
                ArgView::Int(optional_serial(destringid)),
            ],
        ),
        request@.well_formed(),
{
    let args = vec![
        Arg::Int(KEYCTL_SEARCH as i64),
        Arg::Int(ringid.get() as i64),
        Arg::Text(cstring(type_)),
        Arg::Text(cstring(description)),
        Arg::Int(opt_key_serial(destringid) as i64),
    ];
    let call = pack(Entry::Keyctl, args);
    assert(call@.args =~= keyctl(
        KEYCTL_SEARCH,
        seq![
            ArgView::Int(ringid@),
            ArgView::Text(c_string(type_@)),
            ArgView::Text(c_string(description@)),
            ArgView::Int(optional_serial(destringid)),
        ],
    ).args);
    Request::new(call)
}

/// Reads the payload of a key into a buffer. The call returns the size of the
/// whole payload, whatever the buffer holds.
pub fn keyctl_read(id: KeyringSerial, buffer: Option<usize>) -> (request: Request<usize>)
    ensures
        request@ == keyctl(KEYCTL_READ, seq![ArgView::Int(id@)] + buffer_args(buffer)),
        request@.well_formed(),
{
    into_buffer(KEYCTL_READ, id, buffer)
}

/// Gives a key under construction its payload, and links it into `ringid`, if
/// one is given.
pub fn keyctl_instantiate(
    id: KeyringSerial,
    payload: &[u8],
    ringid: Option<KeyringSerial>,
) -> (request: Request<()>)
    ensures
        request@ == keyctl(
            KEYCTL_INSTANTIATE,
            seq![
                ArgView::Int(id@),
                ArgView::Data(payload@),
                ArgView::Size(payload@.len()),
                ArgView::Int(optional_serial(ringid)),
            ],
        ),
        request@.well_formed(),
{
    let args = vec![
        Arg::Int(KEYCTL_INSTANTIATE as i64),
        Arg::Int(id.get() as i64),
        Arg::Data(vstd::slice::slice_to_vec(payload)),
        Arg::Size(payload.len()),
        Arg::Int(opt_key_serial(ringid) as i64),
    ];
    let call = pack(Entry::Keyctl, args);
    assert(call@.args =~= keyctl(
        KEYCTL_INSTANTIATE,
        seq![
            ArgView::Int(id@),
            ArgView::Data(payload@),
            ArgView::Size(payload@.len()),
            ArgView::Int(optional_serial(ringid)),
        ],
    ).args);
    Request::new(call)
}

/// Marks a key under construction as not available, for `timeout` seconds.
pub fn keyctl_negate(
    id: KeyringSerial,
    timeout: TimeoutSeconds,
    ringid: Option<KeyringSerial>,
) -> (request: Request<()>)
    ensures
        request@ == keyctl(
            KEYCTL_NEGATE,
            seq![
                ArgView::Int(id@),
                ArgView::Int(timeout as int),
                ArgView::Int(optional_serial(ringid)),
            ],
        ),
        request@.well_formed(),
{
    let args = vec![
        Arg::Int(KEYCTL_NEGATE as i64),
        Arg::Int(id.get() as i64),
        Arg::Int(timeout as i64),
        Arg::Int(opt_key_serial(ringid) as i64),
    ];
    let call = pack(Entry::Keyctl, args);
    assert(call@.args =~= keyctl(
        KEYCTL_NEGATE,
        seq![
            ArgView::Int(id@),
            ArgView::Int(timeout as int),
            ArgView::Int(optional_serial(ringid)),
        ],
    ).args);
    Request::new(call)
}

/// Sets the keyring that keys go to when no destination is named, and returns
/// the one that was set before.
pub fn keyctl_set_reqkey_keyring(reqkey_defl: DefaultKeyring) -> (request: Request<DefaultKeyring>)
    ensures
        request@ == keyctl(KEYCTL_SET_REQKEY_KEYRING, seq![ArgView::Int(reqkey_defl.id())]),
        request@.well_formed(),
{
    let args = vec![
        Arg::Int(KEYCTL_SET_REQKEY_KEYRING as i64),
        Arg::Int(reqkey_defl.serial() as i64),
    ];
    let call = pack(Entry::Keyctl, args);
    assert(call@.args =~= keyctl(
        KEYCTL_SET_REQKEY_KEYRING,
        seq![ArgView::Int(reqkey_defl.id())],
    ).args);
    Request::new(call)
}

/// Sets the time after which a key expires, in seconds from now. Zero clears
/// the timeout: the key then never expires.
pub fn keyctl_set_timeout(key: KeyringSerial, timeout: TimeoutSeconds) -> (request: Request<()>)
    ensures
        request@ == keyctl(
            KEYCTL_SET_TIMEOUT,
            seq![ArgView::Int(key@), ArgView::Int(timeout as int)],
        ),
        request@.well_formed(),
{
    let args = vec![
        Arg::Int(KEYCTL_SET_TIMEOUT as i64),
        Arg::Int(key.get() as i64),
        Arg::Int(timeout as i64),
    ];
    let call = pack(Entry::Keyctl, args);
    assert(call@.args =~= keyctl(
        KEYCTL_SET_TIMEOUT,
        seq![ArgView::Int(key@), ArgView::Int(timeout as int)],
    ).args);
    Request::new(call)
}

/// Assumes the authority to instantiate a key, or drops the authority that the
/// thread has where no key is given.
pub fn keyctl_assume_authority(key: Option<KeyringSerial>) -> (request: Request<()>)
    ensures
        request@ == keyctl(KEYCTL_ASSUME_AUTHORITY, seq![ArgView::Int(optional_serial(key))]),
        request@.well_formed(),
{
    let args = vec![
        Arg::Int(KEYCTL_ASSUME_AUTHORITY as i64),
        Arg::Int(opt_key_serial(key) as i64),
    ];
    let call = pack(Entry::Keyctl, args);
    assert(call@.args =~= keyctl(
        KEYCTL_ASSUME_AUTHORITY,
        seq![ArgView::Int(optional_serial(key))],
    ).args);
    Request::new(call)
}

/// Reads the security label of a key into a buffer. The call returns the size
/// of the whole label, whatever the buffer holds.
pub fn keyctl_get_security(key: KeyringSerial, buffer: Option<usize>) -> (request: Request<usize>)
    ensures
        request@ == keyctl(KEYCTL_GET_SECURITY, seq![ArgView::Int(key@)] + buffer_args(buffer)),
        request@.well_formed(),
{
    into_buffer(KEYCTL_GET_SECURITY, key, buffer)
}

/// Marks a key under construction as failing with `error`, for `timeout`
/// seconds.
pub fn keyctl_reject(
    id: KeyringSerial,
    timeout: TimeoutSeconds,
    error: Error,
    ringid: Option<KeyringSerial>,
) -> (request: Request<()>)
    ensures
        request@ == keyctl(
            KEYCTL_REJECT,
            seq![
                ArgView::Int(id@),
                ArgView::Int(timeout as int),
                ArgView::Int(error.0 as int),
                ArgView::Int(optional_serial(ringid)),
            ],
        ),
        request@.well_formed(),
{
    let args = vec![
        Arg::Int(KEYCTL_REJECT as i64),
        Arg::Int(id.get() as i64),
        Arg::Int(timeout as i64),
        Arg::Int(error.0 as i64),
        Arg::Int(opt_key_serial(ringid) as i64),
    ];
    let call = pack(Entry::Keyctl, args);
    assert(call@.args =~= keyctl(
        KEYCTL_REJECT,
        seq![
            ArgView::Int(id@),
            ArgView::Int(timeout as int),
            ArgView::Int(error.0 as int),
            ArgView::Int(optional_serial(ringid)),
        ],
    ).args);
    Request::new(call)
}

/// Invalidates a key.
pub fn keyctl_invalidate(id: KeyringSerial) -> (request: Request<()>)
    ensures
        request@ == keyctl(KEYCTL_INVALIDATE, seq![ArgView::Int(id@)]),
        request@.well_formed(),
{
    on_key(KEYCTL_INVALIDATE, id)
}

/// Links the persistent keyring of a user into a keyring, and creates it where
/// there is none. All bits set stands for the user that calls.
pub fn keyctl_get_persistent(uid: u32, id: KeyringSerial) -> (request: Request<KeyringSerial>)
    ensures
        request@ == keyctl(
            KEYCTL_GET_PERSISTENT,
            seq![ArgView::Int(uid as int), ArgView::Int(id@)],
        ),
        request@.well_formed(),
{
    let args = vec![
        Arg::Int(KEYCTL_GET_PERSISTENT as i64),
        Arg::Int(uid as i64),
        Arg::Int(id.get() as i64),
    ];
    let call = pack(Entry::Keyctl, args);
    assert(call@.args =~= keyctl(
        KEYCTL_GET_PERSISTENT,
        seq![ArgView::Int(uid as int), ArgView::Int(id@)],
    ).args);
    Request::new(call)
}

/// Makes the session keyring of the caller that of its parent process too.
pub fn keyctl_session_to_parent() -> (request: Request<()>)
    ensures
        request@ == keyctl(KEYCTL_SESSION_TO_PARENT, seq![]),
        request@.well_formed(),
{
    let args = vec![Arg::Int(KEYCTL_SESSION_TO_PARENT as i64)];
    let call = pack(Entry::Keyctl, args);
    assert(call@.args =~= keyctl(KEYCTL_SESSION_TO_PARENT, seq![]).args);
    Request::new(call)
}

/// Computes a Diffie-Hellman value from three keys into a buffer. The call
/// returns the size of the whole value, whatever the buffer holds.
pub fn keyctl_dh_compute(
    private: KeyringSerial,
    prime: KeyringSerial,
    base: KeyringSerial,
    buffer: Option<usize>,
) -> (request: Request<usize>)
    ensures
        request@ == keyctl(
            KEYCTL_DH_COMPUTE,
            seq![ArgView::Int(private@), ArgView::Int(prime@), ArgView::Int(base@)] + buffer_args(
                buffer,
            ),
        ),
        request@.well_formed(),
{
    let args = vec![
        Arg::Int(KEYCTL_DH_COMPUTE as i64),
        Arg::Int(private.get() as i64),
        Arg::Int(prime.get() as i64),
        Arg::Int(base.get() as i64),
        buffer_arg(buffer),
        capacity_arg(buffer),
    ];
    let call = pack(Entry::Keyctl, args);
    assert(call@.args =~= keyctl(
        KEYCTL_DH_COMPUTE,
        seq![ArgView::Int(private@), ArgView::Int(prime@), ArgView::Int(base@)] + buffer_args(
            buffer,
        ),
    ).args);
    Request::new(call)
}

/// What a keyring may be restricted to.
#[derive(Clone, Copy, Debug)]
pub enum Restriction<'a> {
    /// No key may be linked into the keyring any more.
    AllLinks,
    /// Only the keys of a type that a rule of that type admits may be linked.
    ByType {
        /// The type of the keys.
        type_: &'a str,
        /// The rule, in the words of the type.
        restriction: &'a str,
    },
}

/// The two arguments that say what a keyring is restricted to: two null
/// pointers to refuse every link, and else the type and its rule.
pub open spec fn restriction_args(restriction: Restriction) -> Seq<ArgView> {
    match restriction {
        Restriction::AllLinks => seq![ArgView::Null, ArgView::Null],
        Restriction::ByType { type_, restriction } => seq![
            ArgView::Text(c_string(type_@)),
            ArgView::Text(c_string(restriction@)),
        ],
    }
}

/// Restricts what may be linked into a keyring from now on. Links that are
/// there stay, and no call lifts a restriction.
pub fn keyctl_restrict_keyring(keyring: KeyringSerial, restriction: Restriction) -> (request:
    Request<()>)
    requires
        restriction matches Restriction::ByType { type_, restriction: rule } ==> !holds_nul(type_@)
            && !holds_nul(rule@),
    ensures
        request@ == keyctl(
            KEYCTL_RESTRICT_KEYRING,
            seq![ArgView::Int(keyring@)] + restriction_args(restriction),
        ),
        request@.well_formed(),
{
    let (type_arg, restriction_arg) = match restriction {
        Restriction::AllLinks => (Arg::Null, Arg::Null),
        Restriction::ByType { type_, restriction } => (
            Arg::Text(cstring(type_)),
            Arg::Text(cstring(restriction)),
        ),
    };
    let args = vec![
        Arg::Int(KEYCTL_RESTRICT_KEYRING as i64),
        Arg::Int(keyring.get() as i64),
        type_arg,
        restriction_arg,
    ];
    let call = pack(Entry::Keyctl, args);
    assert(call@.args =~= keyctl(
        KEYCTL_RESTRICT_KEYRING,
        seq![ArgView::Int(keyring@)] + restriction_args(restriction),
    ).args);
    Request::new(call)
}

} // verus!
