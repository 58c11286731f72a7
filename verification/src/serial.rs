//! The serial number that names a key or a keyring.

use vstd::prelude::*;

verus! {

/// The kernel's name for a key or keyring: any 32-bit value except zero.
///
/// Positive values are assigned by the kernel. A few small negative values stand
/// for the keyrings of the calling thread, process, session and user. Zero names
/// nothing, which leaves it free to mean "no keyring" where a keyring is optional.
#[derive(Clone, Copy, Debug, PartialEq, Eq, Structural, Hash)]
pub struct KeyringSerial {
    id: i32,
}

impl View for KeyringSerial {
    type V = int;

    closed spec fn view(&self) -> int {
        self.id as int
    }
}

impl KeyringSerial {
    #[verifier::type_invariant]
    spec fn nonzero(self) -> bool {
        self.id != 0
    }

    /// The serial with this value, as a mathematical value.
    pub closed spec fn spec_new(id: i32) -> KeyringSerial {
        KeyringSerial { id }
    }

    /// A serial is what its value makes it.
    pub broadcast proof fn lemma_view(id: i32)
        ensures
            (#[trigger] KeyringSerial::spec_new(id))@ == id,
    {
    }

    /// The serial with this value, unless the value is zero.
    pub fn new(id: i32) -> (serial: Option<KeyringSerial>)
        ensures
            serial is None <==> id == 0,
            serial matches Some(s) ==> s@ == id && s == KeyringSerial::spec_new(id),
    {
        if id == 0 {
            None
        } else {
            Some(KeyringSerial { id })
        }
    }

    /// The value of the serial, which is never zero.
    pub fn get(self) -> (id: i32)
        ensures
            id == self@,
            id != 0,
    {
        proof {
            use_type_invariant(&self);
        }
        self.id
    }
}

/// The word that stands for an optional serial in a system call: zero where
/// there is none.
pub open spec fn optional_serial(serial: Option<KeyringSerial>) -> int {
    match serial {
        Some(s) => s@,
        None => 0,
    }
}

/// Encodes an optional serial for the kernel: the value of the serial, and zero
/// where there is none. A serial that is there never comes out as zero.
pub fn opt_key_serial(opt: Option<KeyringSerial>) -> (id: i32)
    ensures
        id == optional_serial(opt),
        id == 0 <==> opt is None,
{
    match opt {
        Some(serial) => serial.get(),
        None => 0,
    }
}

} // verus!
