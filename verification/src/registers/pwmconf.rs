//! PWMCONF: StealthChop PWM configuration register (0x70).

use vstd::prelude::*;

use super::{bit_set, field_get, field_set, with_bit, Address, ReadableRegister, Register, StandstillMode, WritableRegister};

verus! {

/// StealthChop PWM configuration register.
///
/// Controls the voltage PWM that makes StealthChop silent: amplitude
/// offset and gradient, PWM frequency, the automatic tuning switches,
/// the standstill coil behaviour and the regulation limits.
#[derive(Debug, Clone, Copy, PartialEq, Eq, Structural)]
pub struct Pwmconf(pub u32);

impl Pwmconf {
    /// The recommended starting point: automatic scaling and gradient tuning on, the recommended PWM frequency, and moderate offset and gradient.
    pub fn new() -> (r: Self)
        ensures
            r.0 == 0xC10D0024u32,
    {
        Self(0xC10D0024)
    }

    /// The PWM amplitude offset; the base of automatic scaling, or the amplitude itself when scaling is off.
    pub fn pwm_ofs(&self) -> (r: u8)
        ensures
            r == field_get(self.0, 0, 0xFF) as u8,
    {
        ((self.0 >> 0) & 0xFF) as u8
    }

    /// Set the PWM amplitude offset.
    pub fn set_pwm_ofs(&mut self, value: u8)
        ensures
            final(self).0 == field_set(old(self).0, 0, 0xFF, value as u32),
    {
        self.0 = (self.0 & !(0xFFu32 << 0)) | (((value as u32) & 0xFF) << 0);
    }

    /// The velocity-dependent PWM amplitude gradient.
    pub fn pwm_grad(&self) -> (r: u8)
        ensures
            r == field_get(self.0, 8, 0xFF) as u8,
    {
        ((self.0 >> 8) & 0xFF) as u8
    }

    /// Set the PWM amplitude gradient.
    pub fn set_pwm_grad(&mut self, value: u8)
        ensures
            final(self).0 == field_set(old(self).0, 8, 0xFF, value as u32),
    {
        self.0 = (self.0 & !(0xFFu32 << 8)) | (((value as u32) & 0xFF) << 8);
    }

    /// The PWM frequency selector.
    pub fn pwm_freq(&self) -> (r: u8)
        ensures
            r == field_get(self.0, 16, 0x03) as u8,
    {
        ((self.0 >> 16) & 0x03) as u8
    }

    /// Set the PWM frequency selector, masked to 0 to 3.
    pub fn set_pwm_freq(&mut self, value: u8)
        ensures
            final(self).0 == field_set(old(self).0, 16, 0x03, value as u32),
    {
        self.0 = (self.0 & !(0x03u32 << 16)) | (((value as u32) & 0x03) << 16);
    }

    /// Whether the PWM amplitude is scaled automatically from current measurement.
    pub fn pwm_autoscale(&self) -> (r: bool)
        ensures
            r == bit_set(self.0, 18),
    {
        self.0 & (1u32 << 18) != 0
    }

    /// Enable or disable automatic amplitude scaling.
    pub fn set_pwm_autoscale(&mut self, value: bool)
        ensures
            final(self).0 == with_bit(old(self).0, 18, value),
    {
        if value {
            self.0 = self.0 | (1u32 << 18);
        } else {
            self.0 = self.0 & !(1u32 << 18);
        }
    }

    /// Whether the PWM gradient is tuned automatically.
    pub fn pwm_autograd(&self) -> (r: bool)
        ensures
            r == bit_set(self.0, 19),
    {
        self.0 & (1u32 << 19) != 0
    }

    /// Enable or disable automatic gradient tuning.
    pub fn set_pwm_autograd(&mut self, value: bool)
        ensures
            final(self).0 == with_bit(old(self).0, 19, value),
    {
        if value {
            self.0 = self.0 | (1u32 << 19);
        } else {
            self.0 = self.0 & !(1u32 << 19);
        }
    }

    /// The standstill mode selector in force when the hold current is zero.
    pub fn freewheel(&self) -> (r: u8)
        ensures
            r == field_get(self.0, 20, 0x03) as u8,
    {
        ((self.0 >> 20) & 0x03) as u8
    }

    /// Set the standstill mode selector, masked to 0 to 3.
    pub fn set_freewheel(&mut self, value: u8)
        ensures
            final(self).0 == field_set(old(self).0, 20, 0x03, value as u32),
    {
        self.0 = (self.0 & !(0x03u32 << 20)) | (((value as u32) & 0x03) << 20);
    }

    /// The standstill mode as a typed value.
    pub fn standstill_mode(&self) -> (r: StandstillMode)
        ensures
            r == StandstillMode::spec_from_bits(field_get(self.0, 20, 0x03) as u8),
    {
        StandstillMode::from_bits(self.freewheel())
    }

    /// Set the standstill mode from a typed value.
    pub fn set_standstill_mode(&mut self, mode: StandstillMode)
        ensures
            final(self).0 == field_set(old(self).0, 20, 0x03, mode.spec_bits() as u32),
    {
        self.set_freewheel(mode.to_bits())
    }

    /// The maximum PWM amplitude change per half wave.
    pub fn pwm_reg(&self) -> (r: u8)
        ensures
            r == field_get(self.0, 24, 0x0F) as u8,
    {
        ((self.0 >> 24) & 0x0F) as u8
    }

    /// Set the regulation rate, masked to 0 to 15.
    pub fn set_pwm_reg(&mut self, value: u8)
        ensures
            final(self).0 == field_set(old(self).0, 24, 0x0F, value as u32),
    {
        self.0 = (self.0 & !(0x0Fu32 << 24)) | (((value as u32) & 0x0F) << 24);
    }

    /// The amplitude limit for the automatic scale when switching on.
    pub fn pwm_lim(&self) -> (r: u8)
        ensures
            r == field_get(self.0, 28, 0x0F) as u8,
    {
        ((self.0 >> 28) & 0x0F) as u8
    }

    /// Set the switch-on amplitude limit, masked to 0 to 15.
    pub fn set_pwm_lim(&mut self, value: u8)
        ensures
            final(self).0 == field_set(old(self).0, 28, 0x0F, value as u32),
    {
        self.0 = (self.0 & !(0x0Fu32 << 28)) | (((value as u32) & 0x0F) << 28);
    }
}

impl Default for Pwmconf {
    /// The reset value 0xC10D0024.
    fn default() -> (r: Self)
        ensures
            r.0 == 0xC10D0024u32,
    {
        Self::new()
    }
}

impl Register for Pwmconf {
    open spec fn spec_addr() -> Address {
        Address::Pwmconf
    }

    open spec fn spec_raw(self) -> u32 {
        self.0
    }

    fn address() -> (a: Address) {
        Address::Pwmconf
    }

    fn raw(&self) -> (r: u32) {
        self.0
    }

    fn from_raw(value: u32) -> (r: Self) {
        Pwmconf(value)
    }
}

impl ReadableRegister for Pwmconf {

}

impl WritableRegister for Pwmconf {

}

} // verus!
