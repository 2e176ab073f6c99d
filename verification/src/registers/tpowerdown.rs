//! TPOWERDOWN: power down delay register (0x11).

use vstd::prelude::*;

use super::{field_get, field_set, Address, Register, WritableRegister};

verus! {

/// Power down delay register.
///
/// The delay from standstill detection to motor current power down, in
/// steps of two to the eighteenth clock cycles.
#[derive(Debug, Clone, Copy, PartialEq, Eq, Structural)]
pub struct Tpowerdown(pub u32);

impl Tpowerdown {
    /// The reset value, a delay of twenty steps.
    pub fn new() -> (r: Self)
        ensures
            r.0 == 0x00000014u32,
    {
        Self(0x00000014)
    }

    /// The power down delay; at least 2 is needed for automatic StealthChop offset tuning.
    pub fn value(&self) -> (r: u8)
        ensures
            r == field_get(self.0, 0, 0xFF) as u8,
    {
        ((self.0 >> 0) & 0xFF) as u8
    }

    /// Set the power down delay.
    pub fn set_value(&mut self, value: u8)
        ensures
            final(self).0 == field_set(old(self).0, 0, 0xFF, value as u32),
    {
        self.0 = (self.0 & !(0xFFu32 << 0)) | (((value as u32) & 0xFF) << 0);
    }
}

impl Default for Tpowerdown {
    /// The reset value 0x00000014.
    fn default() -> (r: Self)
        ensures
            r.0 == 0x00000014u32,
    {
        Self::new()
    }
}

impl Register for Tpowerdown {
    open spec fn spec_addr() -> Address {
        Address::Tpowerdown
    }

    open spec fn spec_raw(self) -> u32 {
        self.0
    }

    fn address() -> (a: Address) {
        Address::Tpowerdown
    }

    fn raw(&self) -> (r: u32) {
        self.0
    }

    fn from_raw(value: u32) -> (r: Self) {
        Tpowerdown(value)
    }
}

impl WritableRegister for Tpowerdown {

}

} // verus!
