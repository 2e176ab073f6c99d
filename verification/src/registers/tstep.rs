//! TSTEP: measured step time register (0x12).

use vstd::prelude::*;

use super::{field_get, Address, ReadableRegister, Register};

verus! {

/// Measured step time register.
///
/// The measured time between two microsteps, in clock cycles; the
/// largest value stands for overflow or standstill.
#[derive(Debug, Clone, Copy, PartialEq, Eq, Structural, Default)]
pub struct Tstep(pub u32);

impl Tstep {
    /// The saturated step time, standing for overflow or standstill.
    pub const MAX_VALUE: u32 = 0xFFFFF;


    /// The measured step time, a 20-bit value in clock cycles.
    pub fn value(&self) -> (r: u32)
        ensures
            r == field_get(self.0, 0, 0xFFFFF),
    {
        ((self.0 >> 0) & 0xFFFFF)
    }

    /// The measured step time, a 20-bit value in clock cycles.
    pub fn tstep(&self) -> (r: u32)
        ensures
            r == field_get(self.0, 0, 0xFFFFF),
    {
        self.value()
    }

    /// Whether the step time saturated: the motor stands still or the
    /// counter overflowed.
    pub fn is_standstill(&self) -> (r: bool)
        ensures
            r == (field_get(self.0, 0, 0xFFFFF) == 0xFFFFF),
    {
        self.value() == Self::MAX_VALUE
    }
}

impl Register for Tstep {
    open spec fn spec_addr() -> Address {
        Address::Tstep
    }

    open spec fn spec_raw(self) -> u32 {
        self.0
    }

    fn address() -> (a: Address) {
        Address::Tstep
    }

    fn raw(&self) -> (r: u32) {
        self.0
    }

    fn from_raw(value: u32) -> (r: Self) {
        Tstep(value)
    }
}

impl ReadableRegister for Tstep {

}

} // verus!
