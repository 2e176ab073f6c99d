//! DRV_STATUS: driver status register (0x6F).

use vstd::prelude::*;

use super::{bit_set, field_get, Address, ReadableRegister, Register};

verus! {

/// Driver status register.
///
/// Diagnostic flags of the power stage: temperature warnings and
/// shutdowns, short and open load indicators per coil, the actual
/// current scale, and the chopper mode and standstill indicators.
#[derive(Debug, Clone, Copy, PartialEq, Eq, Structural)]
pub struct DrvStatus(pub u32);

impl DrvStatus {
    /// No flag set.
    pub fn new() -> (r: Self)
        ensures
            r.0 == 0x00000000u32,
    {
        Self(0x00000000)
    }

    /// Whether any short circuit is flagged on either coil, to ground or
    /// to the supply.
    pub open spec fn spec_short_detected(self) -> bool {
        bit_set(self.0, 2) || bit_set(self.0, 3) || bit_set(self.0, 4) || bit_set(self.0, 5)
    }

    /// Whether either coil is flagged as an open load.
    pub open spec fn spec_open_load(self) -> bool {
        bit_set(self.0, 6) || bit_set(self.0, 7)
    }

    /// Whether a condition is flagged that shuts the driver down: a
    /// short circuit or the overtemperature shutdown.
    pub open spec fn spec_has_error(self) -> bool {
        self.spec_short_detected() || bit_set(self.0, 1)
    }

    /// The overtemperature prewarning: the die is above the warning level.
    pub fn otpw(&self) -> (r: bool)
        ensures
            r == bit_set(self.0, 0),
    {
        self.0 & (1u32 << 0) != 0
    }

    /// The overtemperature shutdown: the driver shut down to protect the chip.
    pub fn ot(&self) -> (r: bool)
        ensures
            r == bit_set(self.0, 1),
    {
        self.0 & (1u32 << 1) != 0
    }

    /// Short to ground flagged on coil A.
    pub fn s2ga(&self) -> (r: bool)
        ensures
            r == bit_set(self.0, 2),
    {
        self.0 & (1u32 << 2) != 0
    }

    /// Short to ground flagged on coil B.
    pub fn s2gb(&self) -> (r: bool)
        ensures
            r == bit_set(self.0, 3),
    {
        self.0 & (1u32 << 3) != 0
    }

    /// Short to the supply flagged on coil A.
    pub fn s2vsa(&self) -> (r: bool)
        ensures
            r == bit_set(self.0, 4),
    {
        self.0 & (1u32 << 4) != 0
    }

    /// Short to the supply flagged on coil B.
    pub fn s2vsb(&self) -> (r: bool)
        ensures
            r == bit_set(self.0, 5),
    {
        self.0 & (1u32 << 5) != 0
    }

    /// Open load flagged on coil A.
    pub fn ola(&self) -> (r: bool)
        ensures
            r == bit_set(self.0, 6),
    {
        self.0 & (1u32 << 6) != 0
    }

    /// Open load flagged on coil B.
    pub fn olb(&self) -> (r: bool)
        ensures
            r == bit_set(self.0, 7),
    {
        self.0 & (1u32 << 7) != 0
    }

    /// The die is above 120 degrees.
    pub fn t120(&self) -> (r: bool)
        ensures
            r == bit_set(self.0, 8),
    {
        self.0 & (1u32 << 8) != 0
    }

    /// The die is above 143 degrees.
    pub fn t143(&self) -> (r: bool)
        ensures
            r == bit_set(self.0, 9),
    {
        self.0 & (1u32 << 9) != 0
    }

    /// The die is above 150 degrees.
    pub fn t150(&self) -> (r: bool)
        ensures
            r == bit_set(self.0, 10),
    {
        self.0 & (1u32 << 10) != 0
    }

    /// The die is above 157 degrees.
    pub fn t157(&self) -> (r: bool)
        ensures
            r == bit_set(self.0, 11),
    {
        self.0 & (1u32 << 11) != 0
    }

    /// The actual current scale in use, reflecting CoolStep adjustments.
    pub fn cs_actual(&self) -> (r: u8)
        ensures
            r == field_get(self.0, 16, 0x1F) as u8,
    {
        ((self.0 >> 16) & 0x1F) as u8
    }

    /// Whether the chopper currently runs in StealthChop mode rather than SpreadCycle.
    pub fn stealth(&self) -> (r: bool)
        ensures
            r == bit_set(self.0, 30),
    {
        self.0 & (1u32 << 30) != 0
    }

    /// Whether the motor stands still.
    pub fn stst(&self) -> (r: bool)
        ensures
            r == bit_set(self.0, 31),
    {
        self.0 & (1u32 << 31) != 0
    }

    /// Whether any short circuit is flagged.
    pub fn short_detected(&self) -> (r: bool)
        ensures
            r == self.spec_short_detected(),
    {
        self.s2ga() || self.s2gb() || self.s2vsa() || self.s2vsb()
    }

    /// Whether either coil is flagged as an open load.
    pub fn open_load_detected(&self) -> (r: bool)
        ensures
            r == self.spec_open_load(),
    {
        self.ola() || self.olb()
    }

    /// Whether the overtemperature prewarning or shutdown is flagged.
    pub fn overtemperature(&self) -> (r: bool)
        ensures
            r == (bit_set(self.0, 0) || bit_set(self.0, 1)),
    {
        self.otpw() || self.ot()
    }

    /// Whether a condition is flagged that shuts the driver down.
    pub fn has_error(&self) -> (r: bool)
        ensures
            r == self.spec_has_error(),
    {
        self.short_detected() || self.ot()
    }
}

impl Default for DrvStatus {
    /// The reset value 0x00000000.
    fn default() -> (r: Self)
        ensures
            r.0 == 0x00000000u32,
    {
        Self::new()
    }
}

impl Register for DrvStatus {
    open spec fn spec_addr() -> Address {
        Address::DrvStatus
    }

    open spec fn spec_raw(self) -> u32 {
        self.0
    }

    fn address() -> (a: Address) {
        Address::DrvStatus
    }

    fn raw(&self) -> (r: u32) {
        self.0
    }

    fn from_raw(value: u32) -> (r: Self) {
        DrvStatus(value)
    }
}

impl ReadableRegister for DrvStatus {

}

} // verus!
