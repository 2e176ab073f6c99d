//! IOIN: input pin states register (0x06).

use vstd::prelude::*;

use super::{bit_set, field_get, Address, ReadableRegister, Register};

verus! {

/// Input pin states register.
///
/// The live state of the input pins, and the version of the chip.
#[derive(Debug, Clone, Copy, PartialEq, Eq, Structural, Default)]
pub struct Ioin(pub u32);

impl Ioin {

    /// The state of the ENN pin.
    pub fn enn(&self) -> (r: bool)
        ensures
            r == bit_set(self.0, 0),
    {
        self.0 & (1u32 << 0) != 0
    }

    /// The state of the MS1 pin.
    pub fn ms1(&self) -> (r: bool)
        ensures
            r == bit_set(self.0, 2),
    {
        self.0 & (1u32 << 2) != 0
    }

    /// The state of the MS2 pin.
    pub fn ms2(&self) -> (r: bool)
        ensures
            r == bit_set(self.0, 3),
    {
        self.0 & (1u32 << 3) != 0
    }

    /// The state of the DIAG pin.
    pub fn diag(&self) -> (r: bool)
        ensures
            r == bit_set(self.0, 4),
    {
        self.0 & (1u32 << 4) != 0
    }

    /// The state of the PDN_UART pin.
    pub fn pdn_uart(&self) -> (r: bool)
        ensures
            r == bit_set(self.0, 6),
    {
        self.0 & (1u32 << 6) != 0
    }

    /// The state of the STEP pin.
    pub fn step(&self) -> (r: bool)
        ensures
            r == bit_set(self.0, 7),
    {
        self.0 & (1u32 << 7) != 0
    }

    /// The state of the SPREAD pin.
    pub fn spread_en(&self) -> (r: bool)
        ensures
            r == bit_set(self.0, 8),
    {
        self.0 & (1u32 << 8) != 0
    }

    /// The state of the DIR pin.
    pub fn dir(&self) -> (r: bool)
        ensures
            r == bit_set(self.0, 9),
    {
        self.0 & (1u32 << 9) != 0
    }

    /// The version number of the chip; identical numbers mean full digital compatibility.
    pub fn version(&self) -> (r: u8)
        ensures
            r == field_get(self.0, 24, 0xFF) as u8,
    {
        ((self.0 >> 24) & 0xFF) as u8
    }
}

impl Register for Ioin {
    open spec fn spec_addr() -> Address {
        Address::Ioin
    }

    open spec fn spec_raw(self) -> u32 {
        self.0
    }

    fn address() -> (a: Address) {
        Address::Ioin
    }

    fn raw(&self) -> (r: u32) {
        self.0
    }

    fn from_raw(value: u32) -> (r: Self) {
        Ioin(value)
    }
}

impl ReadableRegister for Ioin {

}

} // verus!
