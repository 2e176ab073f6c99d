//! SLAVECONF: slave configuration register (0x03).

use vstd::prelude::*;

use super::{field_get, field_set, Address, Register, WritableRegister};

verus! {

/// Slave configuration register.
///
/// Sets the delay before the chip answers a read access, in multiples of
/// eight bit times.
#[derive(Debug, Clone, Copy, PartialEq, Eq, Structural, Default)]
pub struct Slaveconf(pub u32);

impl Slaveconf {

    /// The reply delay selector: the reply comes after roughly that many pairs of eight bit times.
    pub fn senddelay(&self) -> (r: u8)
        ensures
            r == field_get(self.0, 8, 0x0F) as u8,
    {
        ((self.0 >> 8) & 0x0F) as u8
    }

    /// Set the reply delay selector, masked to 0 to 15.
    pub fn set_senddelay(&mut self, value: u8)
        ensures
            final(self).0 == field_set(old(self).0, 8, 0x0F, value as u32),
    {
        self.0 = (self.0 & !(0x0Fu32 << 8)) | (((value as u32) & 0x0F) << 8);
    }
}

impl Register for Slaveconf {
    open spec fn spec_addr() -> Address {
        Address::Slaveconf
    }

    open spec fn spec_raw(self) -> u32 {
        self.0
    }

    fn address() -> (a: Address) {
        Address::Slaveconf
    }

    fn raw(&self) -> (r: u32) {
        self.0
    }

    fn from_raw(value: u32) -> (r: Self) {
        Slaveconf(value)
    }
}

impl WritableRegister for Slaveconf {

}

} // verus!
