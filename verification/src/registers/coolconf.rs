//! COOLCONF: CoolStep and StallGuard configuration register (0x42).

use vstd::prelude::*;

use super::{bit_set, field_get, field_set, with_bit, Address, Register, WritableRegister};

verus! {

/// CoolStep and StallGuard configuration register.
///
/// Controls the adaptive current control: the load window in which the
/// current is raised or lowered, the step widths of both movements, and
/// the minimum current CoolStep may fall to.
#[derive(Debug, Clone, Copy, PartialEq, Eq, Structural)]
pub struct Coolconf(pub u32);

impl Coolconf {
    /// CoolStep disabled: the minimum load threshold is zero.
    pub fn new() -> (r: Self)
        ensures
            r.0 == 0x00000000u32,
    {
        Self(0x00000000)
    }

    /// The minimum StallGuard value for a current increase; zero disables CoolStep.
    pub fn semin(&self) -> (r: u8)
        ensures
            r == field_get(self.0, 0, 0x0F) as u8,
    {
        ((self.0 >> 0) & 0x0F) as u8
    }

    /// Set the minimum load threshold, masked to 0 to 15.
    pub fn set_semin(&mut self, value: u8)
        ensures
            final(self).0 == field_set(old(self).0, 0, 0x0F, value as u32),
    {
        self.0 = (self.0 & !(0x0Fu32 << 0)) | (((value as u32) & 0x0F) << 0);
    }

    /// The current increment step width selector.
    pub fn seup(&self) -> (r: u8)
        ensures
            r == field_get(self.0, 5, 0x03) as u8,
    {
        ((self.0 >> 5) & 0x03) as u8
    }

    /// Set the current increment step width, masked to 0 to 3.
    pub fn set_seup(&mut self, value: u8)
        ensures
            final(self).0 == field_set(old(self).0, 5, 0x03, value as u32),
    {
        self.0 = (self.0 & !(0x03u32 << 5)) | (((value as u32) & 0x03) << 5);
    }

    /// The StallGuard hysteresis above which the current is decreased.
    pub fn semax(&self) -> (r: u8)
        ensures
            r == field_get(self.0, 8, 0x0F) as u8,
    {
        ((self.0 >> 8) & 0x0F) as u8
    }

    /// Set the hysteresis for current decrease, masked to 0 to 15.
    pub fn set_semax(&mut self, value: u8)
        ensures
            final(self).0 == field_set(old(self).0, 8, 0x0F, value as u32),
    {
        self.0 = (self.0 & !(0x0Fu32 << 8)) | (((value as u32) & 0x0F) << 8);
    }

    /// The current decrement step width selector.
    pub fn sedn(&self) -> (r: u8)
        ensures
            r == field_get(self.0, 13, 0x03) as u8,
    {
        ((self.0 >> 13) & 0x03) as u8
    }

    /// Set the current decrement step width, masked to 0 to 3.
    pub fn set_sedn(&mut self, value: u8)
        ensures
            final(self).0 == field_set(old(self).0, 13, 0x03, value as u32),
    {
        self.0 = (self.0 & !(0x03u32 << 13)) | (((value as u32) & 0x03) << 13);
    }

    /// Whether the CoolStep minimum current is a quarter of the run current instead of half.
    pub fn seimin(&self) -> (r: bool)
        ensures
            r == bit_set(self.0, 15),
    {
        self.0 & (1u32 << 15) != 0
    }

    /// Set whether the CoolStep minimum current is a quarter of the run current instead of half.
    pub fn set_seimin(&mut self, value: bool)
        ensures
            final(self).0 == with_bit(old(self).0, 15, value),
    {
        if value {
            self.0 = self.0 | (1u32 << 15);
        } else {
            self.0 = self.0 & !(1u32 << 15);
        }
    }
}

impl Default for Coolconf {
    /// The reset value 0x00000000.
    fn default() -> (r: Self)
        ensures
            r.0 == 0x00000000u32,
    {
        Self::new()
    }
}

impl Register for Coolconf {
    open spec fn spec_addr() -> Address {
        Address::Coolconf
    }

    open spec fn spec_raw(self) -> u32 {
        self.0
    }

    fn address() -> (a: Address) {
        Address::Coolconf
    }

    fn raw(&self) -> (r: u32) {
        self.0
    }

    fn from_raw(value: u32) -> (r: Self) {
        Coolconf(value)
    }
}

impl WritableRegister for Coolconf {

}

} // verus!
