//! VACTUAL: UART velocity control register (0x22).

use vstd::prelude::*;

use super::{Address, Register, WritableRegister};

verus! {

/// UART velocity control register.
///
/// Moves the motor at a given velocity under UART control instead of the
/// step input. A value of zero hands control back to the step input.
#[derive(Debug, Clone, Copy, PartialEq, Eq, Structural, Default)]
pub struct Vactual(pub u32);

impl Vactual {
    /// Velocity zero: the motor follows the step input.
    pub fn new() -> (r: Self)
        ensures
            r.0 == 0x00000000u32,
    {
        Self(0x00000000)
    }

    /// The stored velocity: the low 24 bits read as a signed two's
    /// complement number.
    pub open spec fn spec_velocity(self) -> i32 {
        let val = self.0 & 0xFFFFFF;
        if val & 0x800000 != 0 {
            (val | 0xFF000000) as i32
        } else {
            val as i32
        }
    }

    /// The velocity as a signed 24-bit value, in microsteps per clock
    /// period; zero means the step input drives the motor.
    pub fn velocity(&self) -> (r: i32)
        ensures
            r == self.spec_velocity(),
    {
        let val = self.0 & 0xFFFFFF;
        if val & 0x800000 != 0 {
            (val | 0xFF000000) as i32
        } else {
            val as i32
        }
    }

    /// Store a velocity: positive forward, negative reverse, kept to the
    /// low 24 bits of its two's complement form.
    pub fn set_velocity(&mut self, value: i32)
        ensures
            final(self).0 == ((value as u32) & 0xFFFFFF),
    {
        self.0 = (value as u32) & 0xFFFFFF;
    }

    /// Stop the motor and hand control back to the step input.
    pub fn stop(&mut self)
        ensures
            final(self).0 == 0,
    {
        self.0 = 0;
    }

    /// Storing a velocity in the signed 24-bit range and reading it
    /// back recovers it exactly.
    pub proof fn lemma_velocity_round_trip(value: i32)
        by (bit_vector)
        requires
            -0x800000 <= value < 0x800000,
        ensures
            Vactual((value as u32) & 0xFFFFFF).spec_velocity() == value,
    {
    }

    /// Whether UART velocity control is active.
    pub fn is_active(&self) -> (r: bool)
        ensures
            r == (self.0 != 0),
    {
        self.0 != 0
    }
}

impl Register for Vactual {
    open spec fn spec_addr() -> Address {
        Address::Vactual
    }

    open spec fn spec_raw(self) -> u32 {
        self.0
    }

    fn address() -> (a: Address) {
        Address::Vactual
    }

    fn raw(&self) -> (r: u32) {
        self.0
    }

    fn from_raw(value: u32) -> (r: Self) {
        Vactual(value)
    }
}

impl WritableRegister for Vactual {

}

} // verus!
