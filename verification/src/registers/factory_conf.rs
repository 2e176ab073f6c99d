//! FACTORY_CONF: factory configuration register (0x07).

use vstd::prelude::*;

use super::{field_get, field_set, Address, ReadableRegister, Register, WritableRegister};

verus! {

/// Factory configuration register.
///
/// Clock frequency trim and overtemperature threshold selection. The
/// trim is programmed at the factory and should be left alone.
#[derive(Debug, Clone, Copy, PartialEq, Eq, Structural, Default)]
pub struct FactoryConf(pub u32);

impl FactoryConf {

    /// The clock frequency trim: 0 is the lowest frequency, 31 the highest.
    pub fn fclktrim(&self) -> (r: u8)
        ensures
            r == field_get(self.0, 0, 0x1F) as u8,
    {
        ((self.0 >> 0) & 0x1F) as u8
    }

    /// Set the clock frequency trim, masked to 0 to 31.
    pub fn set_fclktrim(&mut self, value: u8)
        ensures
            final(self).0 == field_set(old(self).0, 0, 0x1F, value as u32),
    {
        self.0 = (self.0 & !(0x1Fu32 << 0)) | (((value as u32) & 0x1F) << 0);
    }

    /// The overtemperature threshold selection.
    pub fn ottrim(&self) -> (r: u8)
        ensures
            r == field_get(self.0, 8, 0x03) as u8,
    {
        ((self.0 >> 8) & 0x03) as u8
    }

    /// Set the overtemperature threshold selection, masked to 0 to 3.
    pub fn set_ottrim(&mut self, value: u8)
        ensures
            final(self).0 == field_set(old(self).0, 8, 0x03, value as u32),
    {
        self.0 = (self.0 & !(0x03u32 << 8)) | (((value as u32) & 0x03) << 8);
    }
}

impl Register for FactoryConf {
    open spec fn spec_addr() -> Address {
        Address::FactoryConf
    }

    open spec fn spec_raw(self) -> u32 {
        self.0
    }

    fn address() -> (a: Address) {
        Address::FactoryConf
    }

    fn raw(&self) -> (r: u32) {
        self.0
    }

    fn from_raw(value: u32) -> (r: Self) {
        FactoryConf(value)
    }
}

impl ReadableRegister for FactoryConf {

}

impl WritableRegister for FactoryConf {

}

} // verus!
