//! The numbers of the kernel's interface: special keyrings, default keyrings and
//! permission bits.

use vstd::prelude::*;
use crate::serial::KeyringSerial;

verus! {

/// The kernel type for the permission bits of a key or keyring.
pub type KeyPermissions = u32;

/// The kernel type for a default keyring.
pub type KeyringDefaultSerial = i32;

pub const KEY_SPEC_THREAD_KEYRING: i32 = -1;
pub const KEY_SPEC_PROCESS_KEYRING: i32 = -2;
pub const KEY_SPEC_SESSION_KEYRING: i32 = -3;
pub const KEY_SPEC_USER_KEYRING: i32 = -4;
pub const KEY_SPEC_USER_SESSION_KEYRING: i32 = -5;
pub const KEY_SPEC_GROUP_KEYRING: i32 = -6;
pub const KEY_SPEC_REQKEY_AUTH_KEY: i32 = -7;

pub const KEY_REQKEY_DEFL_NO_CHANGE: KeyringDefaultSerial = -1;
pub const KEY_REQKEY_DEFL_DEFAULT: KeyringDefaultSerial = 0;
pub const KEY_REQKEY_DEFL_THREAD_KEYRING: KeyringDefaultSerial = 1;
pub const KEY_REQKEY_DEFL_PROCESS_KEYRING: KeyringDefaultSerial = 2;
pub const KEY_REQKEY_DEFL_SESSION_KEYRING: KeyringDefaultSerial = 3;
pub const KEY_REQKEY_DEFL_USER_KEYRING: KeyringDefaultSerial = 4;
pub const KEY_REQKEY_DEFL_USER_SESSION_KEYRING: KeyringDefaultSerial = 5;
pub const KEY_REQKEY_DEFL_GROUP_KEYRING: KeyringDefaultSerial = 6;


pub const KEY_POS_VIEW: KeyPermissions = 0x0100_0000;
pub const KEY_POS_READ: KeyPermissions = 0x0200_0000;
pub const KEY_POS_WRITE: KeyPermissions = 0x0400_0000;
pub const KEY_POS_SEARCH: KeyPermissions = 0x0800_0000;
pub const KEY_POS_LINK: KeyPermissions = 0x1000_0000;
pub const KEY_POS_SETATTR: KeyPermissions = 0x2000_0000;
pub const KEY_POS_ALL: KeyPermissions = 0x3f00_0000;

pub const KEY_USR_VIEW: KeyPermissions = 0x0001_0000;
pub const KEY_USR_READ: KeyPermissions = 0x0002_0000;
pub const KEY_USR_WRITE: KeyPermissions = 0x0004_0000;
pub const KEY_USR_SEARCH: KeyPermissions = 0x0008_0000;
pub const KEY_USR_LINK: KeyPermissions = 0x0010_0000;
pub const KEY_USR_SETATTR: KeyPermissions = 0x0020_0000;
pub const KEY_USR_ALL: KeyPermissions = 0x003f_0000;

pub const KEY_GRP_VIEW: KeyPermissions = 0x0000_0100;
pub const KEY_GRP_READ: KeyPermissions = 0x0000_0200;
pub const KEY_GRP_WRITE: KeyPermissions = 0x0000_0400;
pub const KEY_GRP_SEARCH: KeyPermissions = 0x0000_0800;
pub const KEY_GRP_LINK: KeyPermissions = 0x0000_1000;
pub const KEY_GRP_SETATTR: KeyPermissions = 0x0000_2000;
pub const KEY_GRP_ALL: KeyPermissions = 0x0000_3f00;

pub const KEY_OTH_VIEW: KeyPermissions = 0x0000_0001;
pub const KEY_OTH_READ: KeyPermissions = 0x0000_0002;
pub const KEY_OTH_WRITE: KeyPermissions = 0x0000_0004;
pub const KEY_OTH_SEARCH: KeyPermissions = 0x0000_0008;
pub const KEY_OTH_LINK: KeyPermissions = 0x0000_0010;
pub const KEY_OTH_SETATTR: KeyPermissions = 0x0000_0020;
pub const KEY_OTH_ALL: KeyPermissions = 0x0000_003f;

/// Every permission bit that the kernel defines.
pub const KEY_ALL_BITS: KeyPermissions = 0x3f3f_3f3f;

/// The keyrings that every process has under a fixed name.
#[derive(Clone, Copy, Debug, PartialEq, Eq, Structural, Hash)]
pub enum SpecialKeyring {
    /// A thread-specific keyring.
    Thread,
    /// A process-specific keyring.
    Process,
    /// A session-specific keyring.
    Session,
    /// A user-specific keyring.
    User,
    /// A user session-specific keyring.
    UserSession,
    /// A group-specific keyring.
    Group,
}

impl SpecialKeyring {
    /// The value of the serial that names the keyring.
    pub open spec fn id(self) -> int {
        match self {
            SpecialKeyring::Thread => KEY_SPEC_THREAD_KEYRING as int,
            SpecialKeyring::Process => KEY_SPEC_PROCESS_KEYRING as int,
            SpecialKeyring::Session => KEY_SPEC_SESSION_KEYRING as int,
            SpecialKeyring::User => KEY_SPEC_USER_KEYRING as int,
            SpecialKeyring::UserSession => KEY_SPEC_USER_SESSION_KEYRING as int,
            SpecialKeyring::Group => KEY_SPEC_GROUP_KEYRING as int,
        }
    }

    /// Retrieve the serial number for the special keyring.
    pub fn serial(self) -> (serial: KeyringSerial)
        ensures
            serial@ == self.id(),
    {
        let id: i32 = match self {
            SpecialKeyring::Thread => KEY_SPEC_THREAD_KEYRING,
            SpecialKeyring::Process => KEY_SPEC_PROCESS_KEYRING,
            SpecialKeyring::Session => KEY_SPEC_SESSION_KEYRING,
            SpecialKeyring::User => KEY_SPEC_USER_KEYRING,
            SpecialKeyring::UserSession => KEY_SPEC_USER_SESSION_KEYRING,
            SpecialKeyring::Group => KEY_SPEC_GROUP_KEYRING,
        };
        KeyringSerial::new(id).unwrap()
    }
}

/// The serial of the authorization key that the kernel makes for a key request.
pub fn request_key_auth_serial() -> (serial: KeyringSerial)
    ensures
        serial@ == KEY_SPEC_REQKEY_AUTH_KEY,
{
    KeyringSerial::new(KEY_SPEC_REQKEY_AUTH_KEY).unwrap()
}

/// The keyrings which may be set as the default.
///
/// Keys which are implicitly required via system calls and other operations are
/// placed in the default keyring.
#[derive(Clone, Copy, Debug, PartialEq, Eq, Structural, Hash)]
pub enum DefaultKeyring {
    /// Do not change the default keyring.
    ///
    /// This may be used to get the current default keyring.
    NoChange,
    /// Set the thread-specific keyring as the default.
    ThreadKeyring,
    /// Set the process-specific keyring as the default.
    ProcessKeyring,
    /// Set the session-specific keyring as the default.
    SessionKeyring,
    /// Set the user-specific keyring as the default.
    UserKeyring,
    /// Set the user session-specific keyring as the default.
    UserSessionKeyring,
    /// Set the group-specific keyring as the default.
    GroupKeyring,
    /// Set the default keyring to the default logic.
    ///
    /// Keys will be placed in the first available keyring of:
    ///
    ///   - thread-specific
    ///   - process-specific
    ///   - session-specific
    ///   - user-specific
    DefaultKeyring,
}

/// A value that names no default keyring.
#[derive(Clone, Copy, Debug, PartialEq, Eq, Structural, Hash)]
pub struct UnknownDefault(pub i64);

impl DefaultKeyring {
    /// The number that the kernel knows the default keyring by.
    pub open spec fn id(self) -> int {
        match self {
            DefaultKeyring::NoChange => KEY_REQKEY_DEFL_NO_CHANGE as int,
            DefaultKeyring::ThreadKeyring => KEY_REQKEY_DEFL_THREAD_KEYRING as int,
            DefaultKeyring::ProcessKeyring => KEY_REQKEY_DEFL_PROCESS_KEYRING as int,
            DefaultKeyring::SessionKeyring => KEY_REQKEY_DEFL_SESSION_KEYRING as int,
            DefaultKeyring::UserKeyring => KEY_REQKEY_DEFL_USER_KEYRING as int,
            DefaultKeyring::UserSessionKeyring => KEY_REQKEY_DEFL_USER_SESSION_KEYRING as int,
            DefaultKeyring::GroupKeyring => KEY_REQKEY_DEFL_GROUP_KEYRING as int,
            DefaultKeyring::DefaultKeyring => KEY_REQKEY_DEFL_DEFAULT as int,
        }
    }

    /// The default keyring that a number names, if it names one.
    pub open spec fn of_id(id: int) -> Option<DefaultKeyring> {
        if id == KEY_REQKEY_DEFL_NO_CHANGE {
            Some(DefaultKeyring::NoChange)
        } else if id == KEY_REQKEY_DEFL_THREAD_KEYRING {
            Some(DefaultKeyring::ThreadKeyring)
        } else if id == KEY_REQKEY_DEFL_PROCESS_KEYRING {
            Some(DefaultKeyring::ProcessKeyring)
        } else if id == KEY_REQKEY_DEFL_SESSION_KEYRING {
            Some(DefaultKeyring::SessionKeyring)
        } else if id == KEY_REQKEY_DEFL_USER_KEYRING {
            Some(DefaultKeyring::UserKeyring)
        } else if id == KEY_REQKEY_DEFL_USER_SESSION_KEYRING {
            Some(DefaultKeyring::UserSessionKeyring)
        } else if id == KEY_REQKEY_DEFL_GROUP_KEYRING {
            Some(DefaultKeyring::GroupKeyring)
        } else if id == KEY_REQKEY_DEFL_DEFAULT {
            Some(DefaultKeyring::DefaultKeyring)
        } else {
            None
        }
    }

    /// Retrieve the serial number for the default keyring.
    pub fn serial(self) -> (id: KeyringDefaultSerial)
        ensures
            id == self.id(),
    {
        match self {
            DefaultKeyring::NoChange => KEY_REQKEY_DEFL_NO_CHANGE,
            DefaultKeyring::ThreadKeyring => KEY_REQKEY_DEFL_THREAD_KEYRING,
            DefaultKeyring::ProcessKeyring => KEY_REQKEY_DEFL_PROCESS_KEYRING,
            DefaultKeyring::SessionKeyring => KEY_REQKEY_DEFL_SESSION_KEYRING,
            DefaultKeyring::UserKeyring => KEY_REQKEY_DEFL_USER_KEYRING,
            DefaultKeyring::UserSessionKeyring => KEY_REQKEY_DEFL_USER_SESSION_KEYRING,
            DefaultKeyring::GroupKeyring => KEY_REQKEY_DEFL_GROUP_KEYRING,
            DefaultKeyring::DefaultKeyring => KEY_REQKEY_DEFL_DEFAULT,
        }
    }

    /// Every default keyring is found again from its number, and a number that
    /// names a default keyring is the number of that keyring.
    pub proof fn lemma_serial_round_trip(keyring: DefaultKeyring, id: int)
        ensures
            DefaultKeyring::of_id(keyring.id()) == Some(keyring),
            DefaultKeyring::of_id(id) matches Some(k) ==> k.id() == id,
            DefaultKeyring::of_id(id) is Some <==> -1 <= id <= 6,
    {
    }
}

impl vstd::std_specs::convert::TryFromSpecImpl<i64> for DefaultKeyring {
    open spec fn obeys_try_from_spec() -> bool {
        true
    }

    open spec fn try_from_spec(id: i64) -> Result<DefaultKeyring, UnknownDefault> {
        match DefaultKeyring::of_id(id as int) {
            Some(keyring) => Ok(keyring),
            None => Err(UnknownDefault(id)),
        }
    }
}

impl TryFrom<i64> for DefaultKeyring {
    type Error = UnknownDefault;

    /// The default keyring that the kernel names by `id`, or the value itself
    /// where it names none.
    fn try_from(id: i64) -> (keyring: Result<DefaultKeyring, UnknownDefault>) {
        if id == -1 {
            Ok(DefaultKeyring::NoChange)
        } else if id == 1 {
            Ok(DefaultKeyring::ThreadKeyring)
        } else if id == 2 {
            Ok(DefaultKeyring::ProcessKeyring)
        } else if id == 3 {
            Ok(DefaultKeyring::SessionKeyring)
        } else if id == 4 {
            Ok(DefaultKeyring::UserKeyring)
        } else if id == 5 {
            Ok(DefaultKeyring::UserSessionKeyring)
        } else if id == 6 {
            Ok(DefaultKeyring::GroupKeyring)
        } else if id == 0 {
            Ok(DefaultKeyring::DefaultKeyring)
        } else {
            Err(UnknownDefault(id))
        }
    }
}

/// Whether the mask `a` holds every bit of `b`.
pub open spec fn mask_contains(a: u32, b: u32) -> bool {
    a & b == b
}

/// All the defined permission bits hold of these facts, which the solver for bit
/// vectors checks once for the others.
proof fn lemma_flags_defined()
    ensures
            KEY_POS_VIEW & !KEY_ALL_BITS == 0,
            KEY_POS_READ & !KEY_ALL_BITS == 0,
            KEY_POS_WRITE & !KEY_ALL_BITS == 0,
            KEY_POS_SEARCH & !KEY_ALL_BITS == 0,
            KEY_POS_LINK & !KEY_ALL_BITS == 0,
            KEY_POS_SETATTR & !KEY_ALL_BITS == 0,
            KEY_POS_ALL & !KEY_ALL_BITS == 0,
            KEY_USR_VIEW & !KEY_ALL_BITS == 0,
            KEY_USR_READ & !KEY_ALL_BITS == 0,
            KEY_USR_WRITE & !KEY_ALL_BITS == 0,
            KEY_USR_SEARCH & !KEY_ALL_BITS == 0,
            KEY_USR_LINK & !KEY_ALL_BITS == 0,
            KEY_USR_SETATTR & !KEY_ALL_BITS == 0,
            KEY_USR_ALL & !KEY_ALL_BITS == 0,
            KEY_GRP_VIEW & !KEY_ALL_BITS == 0,
            KEY_GRP_READ & !KEY_ALL_BITS == 0,
            KEY_GRP_WRITE & !KEY_ALL_BITS == 0,
            KEY_GRP_SEARCH & !KEY_ALL_BITS == 0,
            KEY_GRP_LINK & !KEY_ALL_BITS == 0,
            KEY_GRP_SETATTR & !KEY_ALL_BITS == 0,
            KEY_GRP_ALL & !KEY_ALL_BITS == 0,
            KEY_OTH_VIEW & !KEY_ALL_BITS == 0,
            KEY_OTH_READ & !KEY_ALL_BITS == 0,
            KEY_OTH_WRITE & !KEY_ALL_BITS == 0,
            KEY_OTH_SEARCH & !KEY_ALL_BITS == 0,
            KEY_OTH_LINK & !KEY_ALL_BITS == 0,
            KEY_OTH_SETATTR & !KEY_ALL_BITS == 0,
            KEY_OTH_ALL & !KEY_ALL_BITS == 0,
            0u32 & !KEY_ALL_BITS == 0,
            KEY_ALL_BITS & !KEY_ALL_BITS == 0,
{
    assert(0u32 & !0x3f3f3f3fu32 == 0
            && 0x3f3f3f3fu32 & !0x3f3f3f3fu32 == 0
            && 0x01000000u32 & !0x3f3f3f3fu32 == 0
            && 0x02000000u32 & !0x3f3f3f3fu32 == 0
            && 0x04000000u32 & !0x3f3f3f3fu32 == 0
            && 0x08000000u32 & !0x3f3f3f3fu32 == 0
            && 0x10000000u32 & !0x3f3f3f3fu32 == 0
            && 0x20000000u32 & !0x3f3f3f3fu32 == 0
            && 0x3f000000u32 & !0x3f3f3f3fu32 == 0
            && 0x00010000u32 & !0x3f3f3f3fu32 == 0
            && 0x00020000u32 & !0x3f3f3f3fu32 == 0
            && 0x00040000u32 & !0x3f3f3f3fu32 == 0
            && 0x00080000u32 & !0x3f3f3f3fu32 == 0
            && 0x00100000u32 & !0x3f3f3f3fu32 == 0
            && 0x00200000u32 & !0x3f3f3f3fu32 == 0
            && 0x003f0000u32 & !0x3f3f3f3fu32 == 0
            && 0x00000100u32 & !0x3f3f3f3fu32 == 0
            && 0x00000200u32 & !0x3f3f3f3fu32 == 0
            && 0x00000400u32 & !0x3f3f3f3fu32 == 0
            && 0x00000800u32 & !0x3f3f3f3fu32 == 0
            && 0x00001000u32 & !0x3f3f3f3fu32 == 0
            && 0x00002000u32 & !0x3f3f3f3fu32 == 0
            && 0x00003f00u32 & !0x3f3f3f3fu32 == 0
            && 0x00000001u32 & !0x3f3f3f3fu32 == 0
            && 0x00000002u32 & !0x3f3f3f3fu32 == 0
            && 0x00000004u32 & !0x3f3f3f3fu32 == 0
            && 0x00000008u32 & !0x3f3f3f3fu32 == 0
            && 0x00000010u32 & !0x3f3f3f3fu32 == 0
            && 0x00000020u32 & !0x3f3f3f3fu32 == 0
            && 0x0000003fu32 & !0x3f3f3f3fu32 == 0) by (bit_vector);
}

/// The masks without undefined bits are closed under the operations of sets.
proof fn lemma_defined_closed(a: u32, b: u32)
    requires
        a & !KEY_ALL_BITS == 0,
        b & !KEY_ALL_BITS == 0,
    ensures
        (a | b) & !KEY_ALL_BITS == 0,
        (a & b) & !KEY_ALL_BITS == 0,
        (a ^ b) & !KEY_ALL_BITS == 0,
        (a & !b) & !KEY_ALL_BITS == 0,
{
    assert((a | b) & !0x3f3f3f3fu32 == 0 && (a & b) & !0x3f3f3f3fu32 == 0 && (a ^ b)
        & !0x3f3f3f3fu32 == 0 && (a & !b) & !0x3f3f3f3fu32 == 0) by (bit_vector)
        requires
            a & !0x3f3f3f3fu32 == 0,
            b & !0x3f3f3f3fu32 == 0,
    ;
}

/// Cutting a mask down to the defined bits leaves no undefined bit, and leaves a
/// mask without undefined bits as it is.
proof fn lemma_truncate_defined(a: u32)
    ensures
        (a & KEY_ALL_BITS) & !KEY_ALL_BITS == 0,
        a & !KEY_ALL_BITS == 0 ==> a & KEY_ALL_BITS == a,
{
    assert((a & 0x3f3f3f3fu32) & !0x3f3f3f3fu32 == 0 && (a & !0x3f3f3f3fu32 == 0 ==> a
        & 0x3f3f3f3fu32 == a)) by (bit_vector);
}

/// The four sets of permissions share no bit, and together they are all the
/// bits that are defined.
pub proof fn lemma_zones_disjoint()
    ensures
        KEY_POS_ALL & KEY_USR_ALL == 0,
        KEY_POS_ALL & KEY_GRP_ALL == 0,
        KEY_POS_ALL & KEY_OTH_ALL == 0,
        KEY_USR_ALL & KEY_GRP_ALL == 0,
        KEY_USR_ALL & KEY_OTH_ALL == 0,
        KEY_GRP_ALL & KEY_OTH_ALL == 0,
        KEY_POS_ALL | KEY_USR_ALL | KEY_GRP_ALL | KEY_OTH_ALL == KEY_ALL_BITS,
{
    assert(0x3f000000u32 & 0x003f0000u32 == 0 && 0x3f000000u32 & 0x00003f00u32 == 0 && 0x3f000000u32
        & 0x0000003fu32 == 0 && 0x003f0000u32 & 0x00003f00u32 == 0 && 0x003f0000u32 & 0x0000003fu32
        == 0 && 0x00003f00u32 & 0x0000003fu32 == 0 && 0x3f000000u32 | 0x003f0000u32 | 0x00003f00u32
        | 0x0000003fu32 == 0x3f3f3f3fu32) by (bit_vector);
}

/// The sets of permissions are independent of each other: granting or taking
/// away permissions of one set changes nothing in what another set grants.
/// Taking away the user's permission to read leaves the possessor's as it was.
pub proof fn lemma_zone_independence(mask: u32, changed: u32, zone: u32, kept: u32)
    requires
        changed & zone == 0,
        kept & !zone == 0,
    ensures
        (mask & !changed) & zone == mask & zone,
        (mask | changed) & zone == mask & zone,
        (mask ^ changed) & zone == mask & zone,
        mask_contains(mask & !changed, kept) == mask_contains(mask, kept),
        mask_contains(mask | changed, kept) == mask_contains(mask, kept),
{
    assert((mask & !changed) & zone == mask & zone && (mask | changed) & zone == mask & zone && (
    mask ^ changed) & zone == mask & zone && (((mask & !changed) & kept == kept) == (mask & kept
        == kept)) && (((mask | changed) & kept == kept) == (mask & kept == kept))) by (bit_vector)
        requires
            changed & zone == 0,
            kept & !zone == 0,
    ;
}

/// What is taken away is not granted any more, whatever else the mask grants.
pub proof fn lemma_removed_is_gone(mask: u32, taken: u32)
    ensures
        (mask & !taken) & taken == 0,
        taken != 0 ==> !mask_contains(mask & !taken, taken),
{
    assert((mask & !taken) & taken == 0) by (bit_vector);
}

/// Permission bits for keyring objects.
///
/// Keyrings and keys contain four sets of permissions. Three of them are chosen
/// by who the caller is: the owning user, the group of the key or keyring, or
/// anyone else. The fourth set is combined with the one chosen (either set
/// granting a permission allows it), but only if the caller is a possessor of the
/// key or keyring. Whether a caller possesses a key is for the kernel to decide.
///
/// A value of this type never holds a bit outside the four sets.
#[derive(Clone, Copy, Debug, PartialEq, Eq, Structural, Hash)]
pub struct Permission {
    bits: KeyPermissions,
}

impl View for Permission {
    type V = u32;

    closed spec fn view(&self) -> u32 {
        self.bits
    }
}

impl Permission {
    #[verifier::type_invariant]
    spec fn defined(self) -> bool {
        self.bits & !KEY_ALL_BITS == 0
    }

    /// Possession allows viewing attributes of the key or keyring.
    #[allow(non_snake_case)]
    pub fn POSSESSOR_VIEW() -> (p: Permission)
        ensures
            p@ == KEY_POS_VIEW,
    {
        proof {
            lemma_flags_defined();
        }
        Permission { bits: KEY_POS_VIEW }
    }

    /// Possession allows reading a key's contents or a keyring's links.
    #[allow(non_snake_case)]
    pub fn POSSESSOR_READ() -> (p: Permission)
        ensures
            p@ == KEY_POS_READ,
    {
        proof {
            lemma_flags_defined();
        }
        Permission { bits: KEY_POS_READ }
    }

    /// Possession allows writing a key's contents, revoking a key, and adding and
    /// removing a keyring's links.
    #[allow(non_snake_case)]
    pub fn POSSESSOR_WRITE() -> (p: Permission)
        ensures
            p@ == KEY_POS_WRITE,
    {
        proof {
            lemma_flags_defined();
        }
        Permission { bits: KEY_POS_WRITE }
    }

    /// Possession allows searching within a keyring, and finding the key or keyring in a
    /// search.
    #[allow(non_snake_case)]
    pub fn POSSESSOR_SEARCH() -> (p: Permission)
        ensures
            p@ == KEY_POS_SEARCH,
    {
        proof {
            lemma_flags_defined();
        }
        Permission { bits: KEY_POS_SEARCH }
    }

    /// Possession allows linking to the key or keyring from a keyring.
    #[allow(non_snake_case)]
    pub fn POSSESSOR_LINK() -> (p: Permission)
        ensures
            p@ == KEY_POS_LINK,
    {
        proof {
            lemma_flags_defined();
        }
        Permission { bits: KEY_POS_LINK }
    }

    /// Possession allows changing the owner, the security label and the expiration time.
    #[allow(non_snake_case)]
    pub fn POSSESSOR_SET_ATTRIBUTE() -> (p: Permission)
        ensures
            p@ == KEY_POS_SETATTR,
    {
        proof {
            lemma_flags_defined();
        }
        Permission { bits: KEY_POS_SETATTR }
    }

    /// Every permission of the possessor.
    #[allow(non_snake_case)]
    pub fn POSSESSOR_ALL() -> (p: Permission)
        ensures
            p@ == KEY_POS_ALL,
    {
        proof {
            lemma_flags_defined();
        }
        Permission { bits: KEY_POS_ALL }
    }

    /// A user ID match allows viewing attributes of the key or keyring.
    #[allow(non_snake_case)]
    pub fn USER_VIEW() -> (p: Permission)
        ensures
            p@ == KEY_USR_VIEW,
    {
        proof {
            lemma_flags_defined();
        }
        Permission { bits: KEY_USR_VIEW }
    }

    /// A user ID match allows reading a key's contents or a keyring's links.
    #[allow(non_snake_case)]
    pub fn USER_READ() -> (p: Permission)
        ensures
            p@ == KEY_USR_READ,
    {
        proof {
            lemma_flags_defined();
        }
        Permission { bits: KEY_USR_READ }
    }

    /// A user ID match allows writing a key's contents, revoking a key, and adding and
    /// removing a keyring's links.
    #[allow(non_snake_case)]
    pub fn USER_WRITE() -> (p: Permission)
        ensures
            p@ == KEY_USR_WRITE,
    {
        proof {
            lemma_flags_defined();
        }
        Permission { bits: KEY_USR_WRITE }
    }

    /// A user ID match allows searching within a keyring, and finding the key or keyring in a
    /// search.
    #[allow(non_snake_case)]
    pub fn USER_SEARCH() -> (p: Permission)
        ensures
            p@ == KEY_USR_SEARCH,
    {
        proof {
            lemma_flags_defined();
        }
        Permission { bits: KEY_USR_SEARCH }
    }

    /// A user ID match allows linking to the key or keyring from a keyring.
    #[allow(non_snake_case)]
    pub fn USER_LINK() -> (p: Permission)
        ensures
            p@ == KEY_USR_LINK,
    {
        proof {
            lemma_flags_defined();
        }
        Permission { bits: KEY_USR_LINK }
    }

    /// A user ID match allows changing the owner, the security label and the expiration time.
    #[allow(non_snake_case)]
    pub fn USER_SET_ATTRIBUTE() -> (p: Permission)
        ensures
            p@ == KEY_USR_SETATTR,
    {
        proof {
            lemma_flags_defined();
        }
        Permission { bits: KEY_USR_SETATTR }
    }

    /// Every permission of the owning user.
    #[allow(non_snake_case)]
    pub fn USER_ALL() -> (p: Permission)
        ensures
            p@ == KEY_USR_ALL,
    {
        proof {
            lemma_flags_defined();
        }
        Permission { bits: KEY_USR_ALL }
    }

    /// A group ID match allows viewing attributes of the key or keyring.
    #[allow(non_snake_case)]
    pub fn GROUP_VIEW() -> (p: Permission)
        ensures
            p@ == KEY_GRP_VIEW,
    {
        proof {
            lemma_flags_defined();
        }
        Permission { bits: KEY_GRP_VIEW }
    }

    /// A group ID match allows reading a key's contents or a keyring's links.
    #[allow(non_snake_case)]
    pub fn GROUP_READ() -> (p: Permission)
        ensures
            p@ == KEY_GRP_READ,
    {
        proof {
            lemma_flags_defined();
        }
        Permission { bits: KEY_GRP_READ }
    }

    /// A group ID match allows writing a key's contents, revoking a key, and adding and
    /// removing a keyring's links.
    #[allow(non_snake_case)]
    pub fn GROUP_WRITE() -> (p: Permission)
        ensures
            p@ == KEY_GRP_WRITE,
    {
        proof {
            lemma_flags_defined();
        }
        Permission { bits: KEY_GRP_WRITE }
    }

    /// A group ID match allows searching within a keyring, and finding the key or keyring in a
    /// search.
    #[allow(non_snake_case)]
    pub fn GROUP_SEARCH() -> (p: Permission)
        ensures
            p@ == KEY_GRP_SEARCH,
    {
        proof {
            lemma_flags_defined();
        }
        Permission { bits: KEY_GRP_SEARCH }
    }

    /// A group ID match allows linking to the key or keyring from a keyring.
    #[allow(non_snake_case)]
    pub fn GROUP_LINK() -> (p: Permission)
        ensures
            p@ == KEY_GRP_LINK,
    {
        proof {
            lemma_flags_defined();
        }
        Permission { bits: KEY_GRP_LINK }
    }

    /// A group ID match allows changing the owner, the security label and the expiration time.
    #[allow(non_snake_case)]
    pub fn GROUP_SET_ATTRIBUTE() -> (p: Permission)
        ensures
            p@ == KEY_GRP_SETATTR,
    {
        proof {
            lemma_flags_defined();
        }
        Permission { bits: KEY_GRP_SETATTR }
    }

    /// Every permission of the owning group.
    #[allow(non_snake_case)]
    pub fn GROUP_ALL() -> (p: Permission)
        ensures
            p@ == KEY_GRP_ALL,
    {
        proof {
            lemma_flags_defined();
        }
        Permission { bits: KEY_GRP_ALL }
    }

    /// Anyone is allowed viewing attributes of the key or keyring.
    #[allow(non_snake_case)]
    pub fn OTHER_VIEW() -> (p: Permission)
        ensures
            p@ == KEY_OTH_VIEW,
    {
        proof {
            lemma_flags_defined();
        }
        Permission { bits: KEY_OTH_VIEW }
    }

    /// Anyone is allowed reading a key's contents or a keyring's links.
    #[allow(non_snake_case)]
    pub fn OTHER_READ() -> (p: Permission)
        ensures
            p@ == KEY_OTH_READ,
    {
        proof {
            lemma_flags_defined();
        }
        Permission { bits: KEY_OTH_READ }
    }

    /// Anyone is allowed writing a key's contents, revoking a key, and adding and
    /// removing a keyring's links.
    #[allow(non_snake_case)]
    pub fn OTHER_WRITE() -> (p: Permission)
        ensures
            p@ == KEY_OTH_WRITE,
    {
        proof {
            lemma_flags_defined();
        }
        Permission { bits: KEY_OTH_WRITE }
    }

    /// Anyone is allowed searching within a keyring, and finding the key or keyring in a
    /// search.
    #[allow(non_snake_case)]
    pub fn OTHER_SEARCH() -> (p: Permission)
        ensures
            p@ == KEY_OTH_SEARCH,
    {
        proof {
            lemma_flags_defined();
        }
        Permission { bits: KEY_OTH_SEARCH }
    }

    /// Anyone is allowed linking to the key or keyring from a keyring.
    #[allow(non_snake_case)]
    pub fn OTHER_LINK() -> (p: Permission)
        ensures
            p@ == KEY_OTH_LINK,
    {
        proof {
            lemma_flags_defined();
        }
        Permission { bits: KEY_OTH_LINK }
    }

    /// Anyone is allowed changing the owner, the security label and the expiration time.
    #[allow(non_snake_case)]
    pub fn OTHER_SET_ATTRIBUTE() -> (p: Permission)
        ensures
            p@ == KEY_OTH_SETATTR,
    {
        proof {
            lemma_flags_defined();
        }
        Permission { bits: KEY_OTH_SETATTR }
    }

    /// Every permission of everyone else.
    #[allow(non_snake_case)]
    pub fn OTHER_ALL() -> (p: Permission)
        ensures
            p@ == KEY_OTH_ALL,
    {
        proof {
            lemma_flags_defined();
        }
        Permission { bits: KEY_OTH_ALL }
    }

    /// No permission at all.
    pub fn empty() -> (p: Permission)
        ensures
            p@ == 0,
    {
        proof {
            lemma_flags_defined();
        }
        Permission { bits: 0 }
    }

    /// Every permission that the kernel defines.
    pub fn all() -> (p: Permission)
        ensures
            p@ == KEY_ALL_BITS,
    {
        proof {
            lemma_flags_defined();
        }
        Permission { bits: KEY_ALL_BITS }
    }

    /// The mask as the kernel takes it. No undefined bit is set in it.
    pub fn bits(&self) -> (bits: KeyPermissions)
        ensures
            bits == self@,
            bits & !KEY_ALL_BITS == 0,
    {
        proof {
            use_type_invariant(self);
        }
        self.bits
    }

    /// The permissions of a mask, unless the mask holds a bit that is not defined.
    pub fn from_bits(bits: KeyPermissions) -> (p: Option<Permission>)
        ensures
            p is Some <==> bits & !KEY_ALL_BITS == 0,
            p matches Some(q) ==> q@ == bits,
    {
        if bits & !KEY_ALL_BITS == 0 {
            Some(Permission { bits })
        } else {
            None
        }
    }

    /// The permissions of a mask, without the bits that are not defined.
    pub fn from_bits_truncate(bits: KeyPermissions) -> (p: Permission)
        ensures
            p@ == bits & KEY_ALL_BITS,
            bits & !KEY_ALL_BITS == 0 ==> p@ == bits,
    {
        proof {
            lemma_truncate_defined(bits);
        }
        Permission { bits: bits & KEY_ALL_BITS }
    }

    /// Whether no permission is granted.
    pub fn is_empty(&self) -> (b: bool)
        ensures
            b == (self@ == 0),
    {
        self.bits == 0
    }

    /// Whether every permission is granted.
    pub fn is_all(&self) -> (b: bool)
        ensures
            b == (self@ == KEY_ALL_BITS),
    {
        self.bits == KEY_ALL_BITS
    }

    /// Whether some permission is granted by both.
    pub fn intersects(&self, other: Permission) -> (b: bool)
        ensures
            b == (self@ & other@ != 0),
    {
        self.bits & other.bits != 0
    }

    /// Whether every permission of `other` is granted.
    pub fn contains(&self, other: Permission) -> (b: bool)
        ensures
            b == mask_contains(self@, other@),
    {
        self.bits & other.bits == other.bits
    }

    /// Grants the permissions of `other` too.
    pub fn insert(&mut self, other: Permission)
        ensures
            final(self)@ == old(self)@ | other@,
    {
        proof {
            use_type_invariant(&*self);
            use_type_invariant(&other);
            lemma_defined_closed(self.bits, other.bits);
        }
        self.bits = self.bits | other.bits;
    }

    /// Takes the permissions of `other` away.
    pub fn remove(&mut self, other: Permission)
        ensures
            final(self)@ == old(self)@ & !other@,
    {
        proof {
            use_type_invariant(&*self);
            use_type_invariant(&other);
            lemma_defined_closed(self.bits, other.bits);
        }
        self.bits = self.bits & !other.bits;
    }

    /// Grants the permissions of `other` that were not granted, and takes away
    /// those that were.
    pub fn toggle(&mut self, other: Permission)
        ensures
            final(self)@ == old(self)@ ^ other@,
    {
        proof {
            use_type_invariant(&*self);
            use_type_invariant(&other);
            lemma_defined_closed(self.bits, other.bits);
        }
        self.bits = self.bits ^ other.bits;
    }

    /// Grants the permissions of `other` or takes them away.
    pub fn set(&mut self, other: Permission, value: bool)
        ensures
            final(self)@ == if value {
                old(self)@ | other@
            } else {
                old(self)@ & !other@
            },
    {
        if value {
            self.insert(other);
        } else {
            self.remove(other);
        }
    }
}

impl vstd::std_specs::ops::BitOrSpecImpl for Permission {
    open spec fn obeys_bitor_spec() -> bool {
        true
    }

    open spec fn bitor_req(self, other: Permission) -> bool {
        true
    }

    closed spec fn bitor_spec(self, other: Permission) -> Permission {
        Permission { bits: self.bits | other.bits }
    }
}

impl core::ops::BitOr for Permission {
    type Output = Permission;

    /// The permissions that either grants.
    fn bitor(self, other: Permission) -> (p: Permission)
        ensures
            p@ == self@ | other@,
    {
        proof {
            use_type_invariant(&self);
            use_type_invariant(&other);
            lemma_defined_closed(self.bits, other.bits);
        }
        Permission { bits: self.bits | other.bits }
    }
}

impl vstd::std_specs::ops::BitAndSpecImpl for Permission {
    open spec fn obeys_bitand_spec() -> bool {
        true
    }

    open spec fn bitand_req(self, other: Permission) -> bool {
        true
    }

    closed spec fn bitand_spec(self, other: Permission) -> Permission {
        Permission { bits: self.bits & other.bits }
    }
}

impl core::ops::BitAnd for Permission {
    type Output = Permission;

    /// The permissions that both grant.
    fn bitand(self, other: Permission) -> (p: Permission)
        ensures
            p@ == self@ & other@,
    {
        proof {
            use_type_invariant(&self);
            use_type_invariant(&other);
            lemma_defined_closed(self.bits, other.bits);
        }
        Permission { bits: self.bits & other.bits }
    }
}

impl vstd::std_specs::ops::BitXorSpecImpl for Permission {
    open spec fn obeys_bitxor_spec() -> bool {
        true
    }

    open spec fn bitxor_req(self, other: Permission) -> bool {
        true
    }

    closed spec fn bitxor_spec(self, other: Permission) -> Permission {
        Permission { bits: self.bits ^ other.bits }
    }
}

impl core::ops::BitXor for Permission {
    type Output = Permission;

    /// The permissions that exactly one of the two grants.
    fn bitxor(self, other: Permission) -> (p: Permission)
        ensures
            p@ == self@ ^ other@,
    {
        proof {
            use_type_invariant(&self);
            use_type_invariant(&other);
            lemma_defined_closed(self.bits, other.bits);
        }
        Permission { bits: self.bits ^ other.bits }
    }
}

impl vstd::std_specs::ops::SubSpecImpl for Permission {
    open spec fn obeys_sub_spec() -> bool {
        true
    }

    open spec fn sub_req(self, other: Permission) -> bool {
        true
    }

    closed spec fn sub_spec(self, other: Permission) -> Permission {
        Permission { bits: self.bits & !other.bits }
    }
}

impl core::ops::Sub for Permission {
    type Output = Permission;

    /// The permissions of the first that the second does not grant.
    fn sub(self, other: Permission) -> (p: Permission)
        ensures
            p@ == self@ & !other@,
    {
        proof {
            use_type_invariant(&self);
            use_type_invariant(&other);
            lemma_defined_closed(self.bits, other.bits);
        }
        Permission { bits: self.bits & !other.bits }
    }
}

impl vstd::std_specs::ops::NotSpecImpl for Permission {
    open spec fn obeys_not_spec() -> bool {
        true
    }

    open spec fn not_req(self) -> bool {
        true
    }

    closed spec fn not_spec(self) -> Permission {
        Permission { bits: !self.bits & KEY_ALL_BITS }
    }
}

impl core::ops::Not for Permission {
    type Output = Permission;

    /// The defined permissions that are not granted.
    fn not(self) -> (p: Permission)
        ensures
            p@ == !self@ & KEY_ALL_BITS,
    {
        proof {
            lemma_truncate_defined(!self.bits);
        }
        Permission { bits: !self.bits & KEY_ALL_BITS }
    }
}

} // verus!
