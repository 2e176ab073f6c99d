//! CHOPCONF: chopper configuration register (0x6C).

use vstd::prelude::*;

use super::{bit_set, field_get, field_set, with_bit, Address, MicrostepResolution, ReadableRegister, Register, WritableRegister};

verus! {

/// Chopper configuration register.
///
/// Controls the current chopper and the microstep resolution: off time,
/// hysteresis, comparator blank time, sense voltage scaling, resolution,
/// interpolation, step edge handling and the short protections.
#[derive(Debug, Clone, Copy, PartialEq, Eq, Structural)]
pub struct Chopconf(pub u32);

impl Chopconf {
    /// The recommended starting point: a moderate off time and hysteresis at the native microstep resolution.
    pub fn new() -> (r: Self)
        ensures
            r.0 == 0x10000053u32,
    {
        Self(0x10000053)
    }

    /// The off-time setting; zero disables the driver entirely.
    pub fn toff(&self) -> (r: u8)
        ensures
            r == field_get(self.0, 0, 0x0F) as u8,
    {
        ((self.0 >> 0) & 0x0F) as u8
    }

    /// Set the off time, masked to 0 to 15.
    pub fn set_toff(&mut self, value: u8)
        ensures
            final(self).0 == field_set(old(self).0, 0, 0x0F, value as u32),
    {
        self.0 = (self.0 & !(0x0Fu32 << 0)) | (((value as u32) & 0x0F) << 0);
    }

    /// The hysteresis start value.
    pub fn hstrt(&self) -> (r: u8)
        ensures
            r == field_get(self.0, 4, 0x07) as u8,
    {
        ((self.0 >> 4) & 0x07) as u8
    }

    /// Set the hysteresis start, masked to 0 to 7.
    pub fn set_hstrt(&mut self, value: u8)
        ensures
            final(self).0 == field_set(old(self).0, 4, 0x07, value as u32),
    {
        self.0 = (self.0 & !(0x07u32 << 4)) | (((value as u32) & 0x07) << 4);
    }

    /// The hysteresis end value, offset by 3.
    pub fn hend(&self) -> (r: u8)
        ensures
            r == field_get(self.0, 7, 0x0F) as u8,
    {
        ((self.0 >> 7) & 0x0F) as u8
    }

    /// Set the hysteresis end, masked to 0 to 15.
    pub fn set_hend(&mut self, value: u8)
        ensures
            final(self).0 == field_set(old(self).0, 7, 0x0F, value as u32),
    {
        self.0 = (self.0 & !(0x0Fu32 << 7)) | (((value as u32) & 0x0F) << 7);
    }

    /// The comparator blank time selector.
    pub fn tbl(&self) -> (r: u8)
        ensures
            r == field_get(self.0, 15, 0x03) as u8,
    {
        ((self.0 >> 15) & 0x03) as u8
    }

    /// Set the comparator blank time, masked to 0 to 3.
    pub fn set_tbl(&mut self, value: u8)
        ensures
            final(self).0 == field_set(old(self).0, 15, 0x03, value as u32),
    {
        self.0 = (self.0 & !(0x03u32 << 15)) | (((value as u32) & 0x03) << 15);
    }

    /// Whether the high-sensitivity, low-current sense voltage range is selected.
    pub fn vsense(&self) -> (r: bool)
        ensures
            r == bit_set(self.0, 17),
    {
        self.0 & (1u32 << 17) != 0
    }

    /// Select the high-sensitivity sense voltage range, or the high-current one.
    pub fn set_vsense(&mut self, value: bool)
        ensures
            final(self).0 == with_bit(old(self).0, 17, value),
    {
        if value {
            self.0 = self.0 | (1u32 << 17);
        } else {
            self.0 = self.0 & !(1u32 << 17);
        }
    }

    /// The microstep resolution selector, 0 for 256 microsteps up to 8 for full steps.
    pub fn mres(&self) -> (r: u8)
        ensures
            r == field_get(self.0, 24, 0x0F) as u8,
    {
        ((self.0 >> 24) & 0x0F) as u8
    }

    /// Set the microstep resolution selector, masked to 0 to 15.
    pub fn set_mres(&mut self, value: u8)
        ensures
            final(self).0 == field_set(old(self).0, 24, 0x0F, value as u32),
    {
        self.0 = (self.0 & !(0x0Fu32 << 24)) | (((value as u32) & 0x0F) << 24);
    }

    /// The microstep resolution as a typed value.
    pub fn microstep_resolution(&self) -> (r: MicrostepResolution)
        ensures
            r == MicrostepResolution::spec_from_mres(field_get(self.0, 24, 0x0F) as u8),
    {
        MicrostepResolution::from_mres(self.mres())
    }

    /// Set the microstep resolution from a typed value.
    pub fn set_microstep_resolution(&mut self, res: MicrostepResolution)
        ensures
            final(self).0 == field_set(old(self).0, 24, 0x0F, res.spec_mres() as u32),
    {
        self.set_mres(res.to_mres())
    }

    /// Whether microsteps are interpolated to the native resolution.
    pub fn intpol(&self) -> (r: bool)
        ensures
            r == bit_set(self.0, 28),
    {
        self.0 & (1u32 << 28) != 0
    }

    /// Enable or disable interpolation to the native resolution.
    pub fn set_intpol(&mut self, value: bool)
        ensures
            final(self).0 == with_bit(old(self).0, 28, value),
    {
        if value {
            self.0 = self.0 | (1u32 << 28);
        } else {
            self.0 = self.0 & !(1u32 << 28);
        }
    }

    /// Whether both edges of the step input count as steps.
    pub fn dedge(&self) -> (r: bool)
        ensures
            r == bit_set(self.0, 29),
    {
        self.0 & (1u32 << 29) != 0
    }

    /// Enable or disable stepping on both edges of the step input.
    pub fn set_dedge(&mut self, value: bool)
        ensures
            final(self).0 == with_bit(old(self).0, 29, value),
    {
        if value {
            self.0 = self.0 | (1u32 << 29);
        } else {
            self.0 = self.0 & !(1u32 << 29);
        }
    }

    /// Whether short-to-ground protection is disabled.
    pub fn diss2g(&self) -> (r: bool)
        ensures
            r == bit_set(self.0, 30),
    {
        self.0 & (1u32 << 30) != 0
    }

    /// Disable or enable short-to-ground protection.
    pub fn set_diss2g(&mut self, value: bool)
        ensures
            final(self).0 == with_bit(old(self).0, 30, value),
    {
        if value {
            self.0 = self.0 | (1u32 << 30);
        } else {
            self.0 = self.0 & !(1u32 << 30);
        }
    }

    /// Whether short-to-supply protection is disabled.
    pub fn diss2vs(&self) -> (r: bool)
        ensures
            r == bit_set(self.0, 31),
    {
        self.0 & (1u32 << 31) != 0
    }

    /// Disable or enable short-to-supply protection.
    pub fn set_diss2vs(&mut self, value: bool)
        ensures
            final(self).0 == with_bit(old(self).0, 31, value),
    {
        if value {
            self.0 = self.0 | (1u32 << 31);
        } else {
            self.0 = self.0 & !(1u32 << 31);
        }
    }
}

impl Default for Chopconf {
    /// The reset value 0x10000053.
    fn default() -> (r: Self)
        ensures
            r.0 == 0x10000053u32,
    {
        Self::new()
    }
}

impl Register for Chopconf {
    open spec fn spec_addr() -> Address {
        Address::Chopconf
    }

    open spec fn spec_raw(self) -> u32 {
        self.0
    }

    fn address() -> (a: Address) {
        Address::Chopconf
    }

    fn raw(&self) -> (r: u32) {
        self.0
    }

    fn from_raw(value: u32) -> (r: Self) {
        Chopconf(value)
    }
}

impl ReadableRegister for Chopconf {

}

impl WritableRegister for Chopconf {

}

} // verus!
