//! PWM_AUTO: automatic PWM configuration register (0x72).

use vstd::prelude::*;

use super::{field_get, Address, ReadableRegister, Register};

verus! {

/// Automatic PWM configuration register.
///
/// The offset and gradient values the automatic tuning arrived at.
#[derive(Debug, Clone, Copy, PartialEq, Eq, Structural)]
pub struct PwmAuto(pub u32);

impl PwmAuto {
    /// Both values zero.
    pub fn new() -> (r: Self)
        ensures
            r.0 == 0x00000000u32,
    {
        Self(0x00000000)
    }

    /// The automatically determined amplitude offset.
    pub fn pwm_ofs_auto(&self) -> (r: u8)
        ensures
            r == field_get(self.0, 0, 0xFF) as u8,
    {
        ((self.0 >> 0) & 0xFF) as u8
    }

    /// The automatically determined amplitude gradient.
    pub fn pwm_grad_auto(&self) -> (r: u8)
        ensures
            r == field_get(self.0, 16, 0xFF) as u8,
    {
        ((self.0 >> 16) & 0xFF) as u8
    }
}

impl Default for PwmAuto {
    /// The reset value 0x00000000.
    fn default() -> (r: Self)
        ensures
            r.0 == 0x00000000u32,
    {
        Self::new()
    }
}

impl Register for PwmAuto {
    open spec fn spec_addr() -> Address {
        Address::PwmAuto
    }

    open spec fn spec_raw(self) -> u32 {
        self.0
    }

    fn address() -> (a: Address) {
        Address::PwmAuto
    }

    fn raw(&self) -> (r: u32) {
        self.0
    }

    fn from_raw(value: u32) -> (r: Self) {
        PwmAuto(value)
    }
}

impl ReadableRegister for PwmAuto {

}

} // verus!
