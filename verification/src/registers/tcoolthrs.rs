//! TCOOLTHRS: CoolStep threshold register (0x14).

use vstd::prelude::*;

use super::{field_get, Address, Register, WritableRegister};

verus! {

/// CoolStep threshold register.
///
/// The lower velocity threshold for CoolStep and stall output: both are
/// enabled while the measured step time lies between this threshold and
/// the StealthChop threshold.
#[derive(Debug, Clone, Copy, PartialEq, Eq, Structural, Default)]
pub struct Tcoolthrs(pub u32);

impl Tcoolthrs {
    /// A threshold of zero: CoolStep and stall output disabled.
    pub fn new() -> (r: Self)
        ensures
            r.0 == 0x00000000u32,
    {
        Self(0x00000000)
    }

    /// The 20-bit threshold value.
    pub fn value(&self) -> (r: u32)
        ensures
            r == field_get(self.0, 0, 0xFFFFF),
    {
        ((self.0 >> 0) & 0xFFFFF)
    }

    /// Set the threshold value, masked to its 20 bits.
    pub fn set_value(&mut self, value: u32)
        ensures
            final(self).0 == (value & 0xFFFFF),
    {
        self.0 = value & 0xFFFFF;
    }

    /// Set the threshold value, masked to its 20 bits.
    pub fn set_threshold(&mut self, value: u32)
        ensures
            final(self).0 == (value & 0xFFFFF),
    {
        self.set_value(value)
    }

    /// The 20-bit threshold value.
    pub fn threshold(&self) -> (r: u32)
        ensures
            r == field_get(self.0, 0, 0xFFFFF),
    {
        self.value()
    }
}

impl Register for Tcoolthrs {
    open spec fn spec_addr() -> Address {
        Address::Tcoolthrs
    }

    open spec fn spec_raw(self) -> u32 {
        self.0
    }

    fn address() -> (a: Address) {
        Address::Tcoolthrs
    }

    fn raw(&self) -> (r: u32) {
        self.0
    }

    fn from_raw(value: u32) -> (r: Self) {
        Tcoolthrs(value)
    }
}

impl WritableRegister for Tcoolthrs {

}

} // verus!
