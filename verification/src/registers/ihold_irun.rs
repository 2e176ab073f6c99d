//! IHOLD_IRUN: driver current control register (0x10).

use vstd::prelude::*;

use super::{field_get, field_set, Address, Register, WritableRegister};

verus! {

/// Driver current control register.
///
/// The motor hold and run current scales and the delay before dropping
/// to the hold current.
#[derive(Debug, Clone, Copy, PartialEq, Eq, Structural)]
pub struct IholdIrun(pub u32);

impl IholdIrun {
    /// The reset value: full run current, half hold current, and one delay step.
    pub fn new() -> (r: Self)
        ensures
            r.0 == 0x00071703u32,
    {
        Self(0x00071703)
    }

    /// The standstill current scale, in 32nds of the maximum current.
    pub fn ihold(&self) -> (r: u8)
        ensures
            r == field_get(self.0, 0, 0x1F) as u8,
    {
        ((self.0 >> 0) & 0x1F) as u8
    }

    /// Set the standstill current scale, masked to 0 to 31.
    pub fn set_ihold(&mut self, value: u8)
        ensures
            final(self).0 == field_set(old(self).0, 0, 0x1F, value as u32),
    {
        self.0 = (self.0 & !(0x1Fu32 << 0)) | (((value as u32) & 0x1F) << 0);
    }

    /// The run current scale, in 32nds of the maximum current.
    pub fn irun(&self) -> (r: u8)
        ensures
            r == field_get(self.0, 8, 0x1F) as u8,
    {
        ((self.0 >> 8) & 0x1F) as u8
    }

    /// Set the run current scale, masked to 0 to 31.
    pub fn set_irun(&mut self, value: u8)
        ensures
            final(self).0 == field_set(old(self).0, 8, 0x1F, value as u32),
    {
        self.0 = (self.0 & !(0x1Fu32 << 8)) | (((value as u32) & 0x1F) << 8);
    }

    /// The delay per current reduction step after standstill, 0 meaning instant power down.
    pub fn iholddelay(&self) -> (r: u8)
        ensures
            r == field_get(self.0, 16, 0x0F) as u8,
    {
        ((self.0 >> 16) & 0x0F) as u8
    }

    /// Set the hold current delay, masked to 0 to 15.
    pub fn set_iholddelay(&mut self, value: u8)
        ensures
            final(self).0 == field_set(old(self).0, 16, 0x0F, value as u32),
    {
        self.0 = (self.0 & !(0x0Fu32 << 16)) | (((value as u32) & 0x0F) << 16);
    }
}

impl Default for IholdIrun {
    /// The reset value 0x00071703.
    fn default() -> (r: Self)
        ensures
            r.0 == 0x00071703u32,
    {
        Self::new()
    }
}

impl Register for IholdIrun {
    open spec fn spec_addr() -> Address {
        Address::IholdIrun
    }

    open spec fn spec_raw(self) -> u32 {
        self.0
    }

    fn address() -> (a: Address) {
        Address::IholdIrun
    }

    fn raw(&self) -> (r: u32) {
        self.0
    }

    fn from_raw(value: u32) -> (r: Self) {
        IholdIrun(value)
    }
}

impl WritableRegister for IholdIrun {

}

} // verus!
