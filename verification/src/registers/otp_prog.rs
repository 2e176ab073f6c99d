//! OTP_PROG: one-time-programmable memory programming register (0x04).

use vstd::prelude::*;

use super::{field_get, field_set, Address, Register, WritableRegister};

verus! {

/// OTP programming register.
///
/// Programs single bits of the one-time-programmable memory; a programmed
/// bit can never be cleared again.
#[derive(Debug, Clone, Copy, PartialEq, Eq, Structural, Default)]
pub struct OtpProg(pub u32);

impl OtpProg {

    /// Which bit of the selected byte is programmed.
    pub fn otpbit(&self) -> (r: u8)
        ensures
            r == field_get(self.0, 0, 0x07) as u8,
    {
        ((self.0 >> 0) & 0x07) as u8
    }

    /// Select the bit to program, masked to 0 to 7.
    pub fn set_otpbit(&mut self, value: u8)
        ensures
            final(self).0 == field_set(old(self).0, 0, 0x07, value as u32),
    {
        self.0 = (self.0 & !(0x07u32 << 0)) | (((value as u32) & 0x07) << 0);
    }

    /// Which memory byte is programmed.
    pub fn otpbyte(&self) -> (r: u8)
        ensures
            r == field_get(self.0, 4, 0x03) as u8,
    {
        ((self.0 >> 4) & 0x03) as u8
    }

    /// Select the byte location, masked to 0 to 3.
    pub fn set_otpbyte(&mut self, value: u8)
        ensures
            final(self).0 == field_set(old(self).0, 4, 0x03, value as u32),
    {
        self.0 = (self.0 & !(0x03u32 << 4)) | (((value as u32) & 0x03) << 4);
    }

    /// The programming key; programming runs only while it holds the documented magic value.
    pub fn otpmagic(&self) -> (r: u8)
        ensures
            r == field_get(self.0, 8, 0xFF) as u8,
    {
        ((self.0 >> 8) & 0xFF) as u8
    }

    /// Set the programming key.
    pub fn set_otpmagic(&mut self, value: u8)
        ensures
            final(self).0 == field_set(old(self).0, 8, 0xFF, value as u32),
    {
        self.0 = (self.0 & !(0xFFu32 << 8)) | (((value as u32) & 0xFF) << 8);
    }
}

impl Register for OtpProg {
    open spec fn spec_addr() -> Address {
        Address::OtpProg
    }

    open spec fn spec_raw(self) -> u32 {
        self.0
    }

    fn address() -> (a: Address) {
        Address::OtpProg
    }

    fn raw(&self) -> (r: u32) {
        self.0
    }

    fn from_raw(value: u32) -> (r: Self) {
        OtpProg(value)
    }
}

impl WritableRegister for OtpProg {

}

} // verus!
