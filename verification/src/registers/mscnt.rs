//! MSCNT: microstep counter register (0x6A).

use vstd::prelude::*;

use super::{field_get, Address, ReadableRegister, Register};

verus! {

/// Microstep counter register.
///
/// The actual microstep position within one electrical period of 1024
/// microsteps.
#[derive(Debug, Clone, Copy, PartialEq, Eq, Structural)]
pub struct Mscnt(pub u32);

impl Mscnt {
    /// Position zero.
    pub fn new() -> (r: Self)
        ensures
            r.0 == 0x00000000u32,
    {
        Self(0x00000000)
    }

    /// The microstep counter position, 0 to 1023.
    pub fn count(&self) -> (r: u16)
        ensures
            r == field_get(self.0, 0, 0x3FF) as u16,
    {
        ((self.0 >> 0) & 0x3FF) as u16
    }
}

impl Default for Mscnt {
    /// The reset value 0x00000000.
    fn default() -> (r: Self)
        ensures
            r.0 == 0x00000000u32,
    {
        Self::new()
    }
}

impl Register for Mscnt {
    open spec fn spec_addr() -> Address {
        Address::Mscnt
    }

    open spec fn spec_raw(self) -> u32 {
        self.0
    }

    fn address() -> (a: Address) {
        Address::Mscnt
    }

    fn raw(&self) -> (r: u32) {
        self.0
    }

    fn from_raw(value: u32) -> (r: Self) {
        Mscnt(value)
    }
}

impl ReadableRegister for Mscnt {

}

} // verus!
