//! TPWMTHRS: StealthChop threshold register (0x13).

use vstd::prelude::*;

use super::{field_get, Address, Register, WritableRegister};

verus! {

/// StealthChop threshold register.
///
/// The upper velocity threshold for StealthChop: while the measured step
/// time stays at or above it, StealthChop is active; faster motion
/// switches the chopper to SpreadCycle. Zero keeps StealthChop active at
/// every velocity.
#[derive(Debug, Clone, Copy, PartialEq, Eq, Structural, Default)]
pub struct Tpwmthrs(pub u32);

impl Tpwmthrs {
    /// A threshold of zero: StealthChop at every velocity.
    pub fn new() -> (r: Self)
        ensures
            r.0 == 0x00000000u32,
    {
        Self(0x00000000)
    }

    /// The 20-bit threshold value.
    pub fn value(&self) -> (r: u32)
        ensures
            r == field_get(self.0, 0, 0xFFFFF),
    {
        ((self.0 >> 0) & 0xFFFFF)
    }

    /// Set the threshold value, masked to its 20 bits.
    pub fn set_value(&mut self, value: u32)
        ensures
            final(self).0 == (value & 0xFFFFF),
    {
        self.0 = value & 0xFFFFF;
    }

    /// Set the threshold value, masked to its 20 bits.
    pub fn set_threshold(&mut self, value: u32)
        ensures
            final(self).0 == (value & 0xFFFFF),
    {
        self.set_value(value)
    }

    /// The 20-bit threshold value.
    pub fn threshold(&self) -> (r: u32)
        ensures
            r == field_get(self.0, 0, 0xFFFFF),
    {
        self.value()
    }

    /// Clear the threshold: StealthChop at every velocity.
    pub fn disable(&mut self)
        ensures
            final(self).0 == 0,
    {
        self.0 = 0;
    }
}

impl Register for Tpwmthrs {
    open spec fn spec_addr() -> Address {
        Address::Tpwmthrs
    }

    open spec fn spec_raw(self) -> u32 {
        self.0
    }

    fn address() -> (a: Address) {
        Address::Tpwmthrs
    }

    fn raw(&self) -> (r: u32) {
        self.0
    }

    fn from_raw(value: u32) -> (r: Self) {
        Tpwmthrs(value)
    }
}

impl WritableRegister for Tpwmthrs {

}

} // verus!
