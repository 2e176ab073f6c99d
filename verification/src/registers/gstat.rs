//! GSTAT: global status register (0x01).

use vstd::prelude::*;

use super::{bit_set, with_bit, Address, ReadableRegister, Register, WritableRegister};

verus! {

/// Global status register.
///
/// Latched reset, driver-error and undervoltage flags; a latched flag is
/// cleared by writing a one to it.
#[derive(Debug, Clone, Copy, PartialEq, Eq, Structural, Default)]
pub struct Gstat(pub u32);

impl Gstat {

    /// Whether the chip has been reset since the last read; all registers are back at their reset values then.
    pub fn reset(&self) -> (r: bool)
        ensures
            r == bit_set(self.0, 0),
    {
        self.0 & (1u32 << 0) != 0
    }

    /// Mark the reset flag for clearing by setting its write-to-clear bit.
    pub fn clear_reset(&mut self)
        ensures
            final(self).0 == with_bit(old(self).0, 0, true),
    {
        self.0 = self.0 | (1u32 << 0);
    }

    /// Whether the driver shut down on overtemperature or short circuit; the driver status register has the detail.
    pub fn drv_err(&self) -> (r: bool)
        ensures
            r == bit_set(self.0, 1),
    {
        self.0 & (1u32 << 1) != 0
    }

    /// Mark the driver-error flag for clearing by setting its
    /// write-to-clear bit.
    pub fn clear_drv_err(&mut self)
        ensures
            final(self).0 == with_bit(old(self).0, 1, true),
    {
        self.0 = self.0 | (1u32 << 1);
    }

    /// Whether the charge pump is in undervoltage; the driver is disabled while this holds, and the flag clears by itself.
    pub fn uv_cp(&self) -> (r: bool)
        ensures
            r == bit_set(self.0, 2),
    {
        self.0 & (1u32 << 2) != 0
    }

    /// Whether any error flag is set.
    pub fn has_errors(&self) -> (r: bool)
        ensures
            r == (bit_set(self.0, 1) || bit_set(self.0, 2)),
    {
        self.drv_err() || self.uv_cp()
    }
}

impl Register for Gstat {
    open spec fn spec_addr() -> Address {
        Address::Gstat
    }

    open spec fn spec_raw(self) -> u32 {
        self.0
    }

    fn address() -> (a: Address) {
        Address::Gstat
    }

    fn raw(&self) -> (r: u32) {
        self.0
    }

    fn from_raw(value: u32) -> (r: Self) {
        Gstat(value)
    }
}

impl ReadableRegister for Gstat {

}

impl WritableRegister for Gstat {

}

} // verus!
