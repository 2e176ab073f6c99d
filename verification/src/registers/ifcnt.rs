//! IFCNT: interface transmission counter (0x02).

use vstd::prelude::*;

use super::{field_get, Address, ReadableRegister, Register};

verus! {

/// Interface transmission counter.
///
/// Incremented with each successful register write over the UART; wraps
/// from 255 to 0. Reading it back verifies that writes arrive.
#[derive(Debug, Clone, Copy, PartialEq, Eq, Structural, Default)]
pub struct Ifcnt(pub u32);

impl Ifcnt {

    /// The transmission counter value.
    pub fn count(&self) -> (r: u8)
        ensures
            r == field_get(self.0, 0, 0xFF) as u8,
    {
        ((self.0 >> 0) & 0xFF) as u8
    }
}

impl Register for Ifcnt {
    open spec fn spec_addr() -> Address {
        Address::Ifcnt
    }

    open spec fn spec_raw(self) -> u32 {
        self.0
    }

    fn address() -> (a: Address) {
        Address::Ifcnt
    }

    fn raw(&self) -> (r: u32) {
        self.0
    }

    fn from_raw(value: u32) -> (r: Self) {
        Ifcnt(value)
    }
}

impl ReadableRegister for Ifcnt {

}

} // verus!
