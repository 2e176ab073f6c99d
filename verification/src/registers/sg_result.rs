//! SG_RESULT: StallGuard result register (0x41).

use vstd::prelude::*;

use super::{field_get, Address, ReadableRegister, Register};

verus! {

/// StallGuard result register.
///
/// The measured mechanical load on the motor: high values mean the motor
/// runs freely, values near zero mean it is about to stall.
#[derive(Debug, Clone, Copy, PartialEq, Eq, Structural)]
pub struct SgResult(pub u32);

impl SgResult {
    /// A result of zero.
    pub fn new() -> (r: Self)
        ensures
            r.0 == 0x00000000u32,
    {
        Self(0x00000000)
    }

    /// The 10-bit load indicator, 0 to 510; higher means less load.
    pub fn result(&self) -> (r: u16)
        ensures
            r == field_get(self.0, 0, 0x3FF) as u16,
    {
        ((self.0 >> 0) & 0x3FF) as u16
    }
}

impl Default for SgResult {
    /// The reset value 0x00000000.
    fn default() -> (r: Self)
        ensures
            r.0 == 0x00000000u32,
    {
        Self::new()
    }
}

impl Register for SgResult {
    open spec fn spec_addr() -> Address {
        Address::SgResult
    }

    open spec fn spec_raw(self) -> u32 {
        self.0
    }

    fn address() -> (a: Address) {
        Address::SgResult
    }

    fn raw(&self) -> (r: u32) {
        self.0
    }

    fn from_raw(value: u32) -> (r: Self) {
        SgResult(value)
    }
}

impl ReadableRegister for SgResult {

}

} // verus!
