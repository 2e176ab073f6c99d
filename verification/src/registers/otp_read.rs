//! OTP_READ: one-time-programmable memory read register (0x05).

use vstd::prelude::*;

use super::{bit_set, field_get, Address, ReadableRegister, Register};

verus! {

/// OTP memory read register.
///
/// The power-up defaults stored in the one-time-programmable memory.
#[derive(Debug, Clone, Copy, PartialEq, Eq, Structural, Default)]
pub struct OtpRead(pub u32);

impl OtpRead {

    /// The factory-programmed clock frequency trim; it differs between individual chips.
    pub fn otp_fclktrim(&self) -> (r: u8)
        ensures
            r == field_get(self.0, 0, 0x1F) as u8,
    {
        ((self.0 >> 0) & 0x1F) as u8
    }

    /// The stored overtemperature threshold selection.
    pub fn otp_ottrim(&self) -> (r: bool)
        ensures
            r == bit_set(self.0, 5),
    {
        self.0 & (1u32 << 5) != 0
    }

    /// Whether internal sense resistors are the power-up default.
    pub fn otp_internal_rsense(&self) -> (r: bool)
        ensures
            r == bit_set(self.0, 6),
    {
        self.0 & (1u32 << 6) != 0
    }

    /// The stored comparator blank time default.
    pub fn otp_tbl(&self) -> (r: bool)
        ensures
            r == bit_set(self.0, 7),
    {
        self.0 & (1u32 << 7) != 0
    }

    /// The stored PWM gradient default.
    pub fn otp_pwm_grad(&self) -> (r: u8)
        ensures
            r == field_get(self.0, 8, 0x0F) as u8,
    {
        ((self.0 >> 8) & 0x0F) as u8
    }

    /// Whether automatic PWM gradient tuning is the power-up default.
    pub fn otp_pwm_autograd(&self) -> (r: bool)
        ensures
            r == bit_set(self.0, 12),
    {
        self.0 & (1u32 << 12) != 0
    }

    /// The stored StealthChop threshold default.
    pub fn otp_tpwmthrs(&self) -> (r: u8)
        ensures
            r == field_get(self.0, 13, 0x07) as u8,
    {
        ((self.0 >> 13) & 0x07) as u8
    }

    /// The stored PWM offset default selection.
    pub fn otp_pwm_ofs(&self) -> (r: bool)
        ensures
            r == bit_set(self.0, 16),
    {
        self.0 & (1u32 << 16) != 0
    }

    /// The stored PWM regulation default selection.
    pub fn otp_pwm_reg(&self) -> (r: bool)
        ensures
            r == bit_set(self.0, 17),
    {
        self.0 & (1u32 << 17) != 0
    }

    /// The stored PWM frequency default selection.
    pub fn otp_pwm_freq(&self) -> (r: bool)
        ensures
            r == bit_set(self.0, 18),
    {
        self.0 & (1u32 << 18) != 0
    }

    /// The stored hold current delay default.
    pub fn otp_iholddelay(&self) -> (r: u8)
        ensures
            r == field_get(self.0, 19, 0x03) as u8,
    {
        ((self.0 >> 19) & 0x03) as u8
    }

    /// The stored hold current default.
    pub fn otp_ihold(&self) -> (r: u8)
        ensures
            r == field_get(self.0, 21, 0x03) as u8,
    {
        ((self.0 >> 21) & 0x03) as u8
    }

    /// Whether SpreadCycle mode is the power-up default instead of StealthChop.
    pub fn otp_en_spreadcycle(&self) -> (r: bool)
        ensures
            r == bit_set(self.0, 23),
    {
        self.0 & (1u32 << 23) != 0
    }
}

impl Register for OtpRead {
    open spec fn spec_addr() -> Address {
        Address::OtpRead
    }

    open spec fn spec_raw(self) -> u32 {
        self.0
    }

    fn address() -> (a: Address) {
        Address::OtpRead
    }

    fn raw(&self) -> (r: u32) {
        self.0
    }

    fn from_raw(value: u32) -> (r: Self) {
        OtpRead(value)
    }
}

impl ReadableRegister for OtpRead {

}

} // verus!
