//! SGTHRS: StallGuard threshold register (0x40).

use vstd::prelude::*;

use super::{field_get, field_set, Address, Register, WritableRegister};

verus! {

/// StallGuard threshold register.
///
/// The detection threshold for stalls: a stall is signalled when the
/// StallGuard result falls below twice this threshold. Higher values
/// make detection more sensitive; zero disables the stall output.
#[derive(Debug, Clone, Copy, PartialEq, Eq, Structural)]
pub struct Sgthrs(pub u32);

impl Sgthrs {
    /// A threshold of zero: stall output disabled.
    pub fn new() -> (r: Self)
        ensures
            r.0 == 0x00000000u32,
    {
        Self(0x00000000)
    }

    /// The stall detection threshold.
    pub fn threshold(&self) -> (r: u8)
        ensures
            r == field_get(self.0, 0, 0xFF) as u8,
    {
        ((self.0 >> 0) & 0xFF) as u8
    }

    /// Set the stall detection threshold.
    pub fn set_threshold(&mut self, value: u8)
        ensures
            final(self).0 == field_set(old(self).0, 0, 0xFF, value as u32),
    {
        self.0 = (self.0 & !(0xFFu32 << 0)) | (((value as u32) & 0xFF) << 0);
    }
}

impl Default for Sgthrs {
    /// The reset value 0x00000000.
    fn default() -> (r: Self)
        ensures
            r.0 == 0x00000000u32,
    {
        Self::new()
    }
}

impl Register for Sgthrs {
    open spec fn spec_addr() -> Address {
        Address::Sgthrs
    }

    open spec fn spec_raw(self) -> u32 {
        self.0
    }

    fn address() -> (a: Address) {
        Address::Sgthrs
    }

    fn raw(&self) -> (r: u32) {
        self.0
    }

    fn from_raw(value: u32) -> (r: Self) {
        Sgthrs(value)
    }
}

impl WritableRegister for Sgthrs {

}

} // verus!
