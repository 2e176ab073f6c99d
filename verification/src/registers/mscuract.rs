//! MSCURACT: microstep current register (0x6B).

use vstd::prelude::*;

use super::{Address, ReadableRegister, Register};

verus! {

/// Microstep current register.
///
/// The actual motor currents of both coils, each a signed 9-bit value
/// from -255 to 255.
#[derive(Debug, Clone, Copy, PartialEq, Eq, Structural)]
pub struct Mscuract(pub u32);

impl Mscuract {
    /// Both coil currents zero.
    pub fn new() -> (r: Self)
        ensures
            r.0 == 0x00000000u32,
    {
        Self(0x00000000)
    }

    /// The signed 9-bit field at bit 0, sign-extended.
    pub open spec fn spec_cur_a(self) -> i16 {
        let raw = ((self.0 >> 0) & 0x1FF) as u16;
        if raw & 0x100 != 0 {
            (raw | 0xFE00) as i16
        } else {
            raw as i16
        }
    }

    /// The actual current of coil A, a signed value from -255 to 255.
    pub fn cur_a(&self) -> (r: i16)
        ensures
            r == self.spec_cur_a(),
    {
        let raw = ((self.0 >> 0) & 0x1FF) as u16;
        if raw & 0x100 != 0 {
            (raw | 0xFE00) as i16
        } else {
            raw as i16
        }
    }

    /// The signed 9-bit field at bit 16, sign-extended.
    pub open spec fn spec_cur_b(self) -> i16 {
        let raw = ((self.0 >> 16) & 0x1FF) as u16;
        if raw & 0x100 != 0 {
            (raw | 0xFE00) as i16
        } else {
            raw as i16
        }
    }

    /// The actual current of coil B, a signed value from -255 to 255.
    pub fn cur_b(&self) -> (r: i16)
        ensures
            r == self.spec_cur_b(),
    {
        let raw = ((self.0 >> 16) & 0x1FF) as u16;
        if raw & 0x100 != 0 {
            (raw | 0xFE00) as i16
        } else {
            raw as i16
        }
    }
}

impl Default for Mscuract {
    /// The reset value 0x00000000.
    fn default() -> (r: Self)
        ensures
            r.0 == 0x00000000u32,
    {
        Self::new()
    }
}

impl Register for Mscuract {
    open spec fn spec_addr() -> Address {
        Address::Mscuract
    }

    open spec fn spec_raw(self) -> u32 {
        self.0
    }

    fn address() -> (a: Address) {
        Address::Mscuract
    }

    fn raw(&self) -> (r: u32) {
        self.0
    }

    fn from_raw(value: u32) -> (r: Self) {
        Mscuract(value)
    }
}

impl ReadableRegister for Mscuract {

}

} // verus!
