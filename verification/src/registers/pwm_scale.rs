//! PWM_SCALE: PWM scaling result register (0x71).

use vstd::prelude::*;

use super::{field_get, Address, ReadableRegister, Register};

verus! {

/// PWM scaling result register.
///
/// The results of automatic StealthChop amplitude regulation.
#[derive(Debug, Clone, Copy, PartialEq, Eq, Structural)]
pub struct PwmScale(pub u32);

impl PwmScale {
    /// Both results zero.
    pub fn new() -> (r: Self)
        ensures
            r.0 == 0x00000000u32,
    {
        Self(0x00000000)
    }

    /// The actual PWM duty cycle: amplitude plus offset.
    pub fn pwm_scale_sum(&self) -> (r: u8)
        ensures
            r == field_get(self.0, 0, 0xFF) as u8,
    {
        ((self.0 >> 0) & 0xFF) as u8
    }

    /// The signed 9-bit field at bit 16, sign-extended.
    pub open spec fn spec_pwm_scale_auto(self) -> i16 {
        let raw = ((self.0 >> 16) & 0x1FF) as u16;
        if raw & 0x100 != 0 {
            (raw | 0xFE00) as i16
        } else {
            raw as i16
        }
    }

    /// The result of automatic amplitude regulation, a signed value from -255 to 255.
    pub fn pwm_scale_auto(&self) -> (r: i16)
        ensures
            r == self.spec_pwm_scale_auto(),
    {
        let raw = ((self.0 >> 16) & 0x1FF) as u16;
        if raw & 0x100 != 0 {
            (raw | 0xFE00) as i16
        } else {
            raw as i16
        }
    }
}

impl Default for PwmScale {
    /// The reset value 0x00000000.
    fn default() -> (r: Self)
        ensures
            r.0 == 0x00000000u32,
    {
        Self::new()
    }
}

impl Register for PwmScale {
    open spec fn spec_addr() -> Address {
        Address::PwmScale
    }

    open spec fn spec_raw(self) -> u32 {
        self.0
    }

    fn address() -> (a: Address) {
        Address::PwmScale
    }

    fn raw(&self) -> (r: u32) {
        self.0
    }

    fn from_raw(value: u32) -> (r: Self) {
        PwmScale(value)
    }
}

impl ReadableRegister for PwmScale {

}

} // verus!
