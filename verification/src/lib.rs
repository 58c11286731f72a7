//! Typed access to the key management facility of the Linux kernel.
//!
//! The kernel keeps keys and keyrings for threads, processes, sessions and
//! users, and offers three system calls to work on them. This library marshals
//! every operation into the call that the kernel expects, and makes a typed
//! result of what the kernel answers: a [`Key`], a [`Keyring`], a payload, a
//! [`Description`].
//!
//! The library performs no system call itself. A method such as
//! [`Keyring::add_key`] returns an [`Operation`]: the program hands the call of
//! the operation to the kernel, gives the [`Reply`] back, and goes on like that
//! until the operation is done.

pub mod api;
pub mod children;
pub mod constants;
pub mod description;
pub mod error;
pub mod exchange;
pub mod fetch;
pub mod functions;
pub mod keytype;
pub mod keytypes;
pub mod pkey;
pub mod serial;
pub mod syscall;
pub mod text;

pub use crate::api::{Key, KeyManager, Keyring, Manage, TargetKeyring};
pub use crate::children::{ReadChildren, Stage};
pub use crate::constants::{
    DefaultKeyring, KeyPermissions, KeyringDefaultSerial, Permission, SpecialKeyring,
    UnknownDefault, KEY_ALL_BITS, KEY_GRP_ALL, KEY_GRP_LINK, KEY_GRP_READ, KEY_GRP_SEARCH,
    KEY_GRP_SETATTR, KEY_GRP_VIEW, KEY_GRP_WRITE, KEY_OTH_ALL, KEY_OTH_LINK, KEY_OTH_READ,
    KEY_OTH_SEARCH, KEY_OTH_SETATTR, KEY_OTH_VIEW, KEY_OTH_WRITE, KEY_POS_ALL, KEY_POS_LINK,
    KEY_POS_READ, KEY_POS_SEARCH, KEY_POS_SETATTR, KEY_POS_VIEW, KEY_POS_WRITE,
    KEY_REQKEY_DEFL_DEFAULT, KEY_REQKEY_DEFL_GROUP_KEYRING, KEY_REQKEY_DEFL_NO_CHANGE,
    KEY_REQKEY_DEFL_PROCESS_KEYRING, KEY_REQKEY_DEFL_SESSION_KEYRING,
    KEY_REQKEY_DEFL_THREAD_KEYRING, KEY_REQKEY_DEFL_USER_KEYRING,
    KEY_REQKEY_DEFL_USER_SESSION_KEYRING, KEY_SPEC_GROUP_KEYRING, KEY_SPEC_PROCESS_KEYRING,
    KEY_SPEC_REQKEY_AUTH_KEY, KEY_SPEC_SESSION_KEYRING, KEY_SPEC_THREAD_KEYRING,
    KEY_SPEC_USER_KEYRING, KEY_SPEC_USER_SESSION_KEYRING, KEY_USR_ALL, KEY_USR_LINK,
    KEY_USR_READ, KEY_USR_SEARCH, KEY_USR_SETATTR, KEY_USR_VIEW, KEY_USR_WRITE,
};
pub use crate::description::{Description, Scanned};
pub use crate::error::{Defect, Error, EINVAL, ENOKEY, ENOTDIR};
pub use crate::exchange::{FromReturn, Operation, Outcome, Progress, Request};
pub use crate::fetch::{Describe, Fetch, FetchText, IsKeytype, Source};
pub use crate::functions::{
    add_key, keyctl_assume_authority, keyctl_chown, keyctl_clear, keyctl_describe,
    keyctl_dh_compute, keyctl_get_keyring_id, keyctl_get_persistent, keyctl_get_security,
    keyctl_instantiate, keyctl_invalidate, keyctl_join_session_keyring, keyctl_link,
    keyctl_negate, keyctl_read, keyctl_reject, keyctl_restrict_keyring, keyctl_revoke,
    keyctl_search, keyctl_session_to_parent, keyctl_set_reqkey_keyring, keyctl_set_timeout,
    keyctl_setperm, keyctl_unlink, keyctl_update, request_key, Restriction, TimeoutSeconds,
};
pub use crate::keytype::{KeyDescription, KeyPayload, KeyRestriction, KeyType, RestrictableKeyType};
pub use crate::pkey::keyctl_pkey_query;
pub use crate::serial::{opt_key_serial, KeyringSerial};
pub use crate::syscall::{check_syscall, cstring, has_nul, Arg, Entry, Reply, Syscall};
