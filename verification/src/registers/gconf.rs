//! GCONF: global configuration register (0x00).

use vstd::prelude::*;

use super::{bit_set, with_bit, Address, ReadableRegister, Register, WritableRegister};

verus! {

/// Global configuration register.
///
/// Controls general driver settings: current reference selection, sense
/// resistor choice, chopper mode selection, index pin routing and the
/// UART-related pin functions.
#[derive(Debug, Clone, Copy, PartialEq, Eq, Structural, Default)]
pub struct Gconf(pub u32);

impl Gconf {
    /// A configuration fit for UART control: only the bit that disables the power-down pin is set.
    pub fn new() -> (r: Self)
        ensures
            r.0 == 0x00000040u32,
    {
        Self(0x00000040)
    }

    /// Whether the current reference is the voltage on the VREF pin rather than the internal reference.
    pub fn i_scale_analog(&self) -> (r: bool)
        ensures
            r == bit_set(self.0, 0),
    {
        self.0 & (1u32 << 0) != 0
    }

    /// Set whether the current reference is the voltage on the VREF pin rather than the internal reference.
    pub fn set_i_scale_analog(&mut self, value: bool)
        ensures
            final(self).0 == with_bit(old(self).0, 0, value),
    {
        if value {
            self.0 = self.0 | (1u32 << 0);
        } else {
            self.0 = self.0 & !(1u32 << 0);
        }
    }

    /// Whether the internal sense resistors are used instead of external ones.
    pub fn internal_rsense(&self) -> (r: bool)
        ensures
            r == bit_set(self.0, 1),
    {
        self.0 & (1u32 << 1) != 0
    }

    /// Set whether the internal sense resistors are used instead of external ones.
    pub fn set_internal_rsense(&mut self, value: bool)
        ensures
            final(self).0 == with_bit(old(self).0, 1, value),
    {
        if value {
            self.0 = self.0 | (1u32 << 1);
        } else {
            self.0 = self.0 & !(1u32 << 1);
        }
    }

    /// Whether SpreadCycle mode is enabled instead of StealthChop.
    pub fn en_spreadcycle(&self) -> (r: bool)
        ensures
            r == bit_set(self.0, 2),
    {
        self.0 & (1u32 << 2) != 0
    }

    /// Set whether SpreadCycle mode is enabled instead of StealthChop.
    pub fn set_en_spreadcycle(&mut self, value: bool)
        ensures
            final(self).0 == with_bit(old(self).0, 2, value),
    {
        if value {
            self.0 = self.0 | (1u32 << 2);
        } else {
            self.0 = self.0 & !(1u32 << 2);
        }
    }

    /// Whether the motor direction is inverted.
    pub fn shaft(&self) -> (r: bool)
        ensures
            r == bit_set(self.0, 3),
    {
        self.0 & (1u32 << 3) != 0
    }

    /// Set whether the motor direction is inverted.
    pub fn set_shaft(&mut self, value: bool)
        ensures
            final(self).0 == with_bit(old(self).0, 3, value),
    {
        if value {
            self.0 = self.0 | (1u32 << 3);
        } else {
            self.0 = self.0 & !(1u32 << 3);
        }
    }

    /// Whether the INDEX pin shows the overtemperature prewarning instead of the first microstep position.
    pub fn index_otpw(&self) -> (r: bool)
        ensures
            r == bit_set(self.0, 4),
    {
        self.0 & (1u32 << 4) != 0
    }

    /// Set whether the INDEX pin shows the overtemperature prewarning instead of the first microstep position.
    pub fn set_index_otpw(&mut self, value: bool)
        ensures
            final(self).0 == with_bit(old(self).0, 4, value),
    {
        if value {
            self.0 = self.0 | (1u32 << 4);
        } else {
            self.0 = self.0 & !(1u32 << 4);
        }
    }

    /// Whether the INDEX pin shows step pulses instead of the selection made by the overtemperature routing bit.
    pub fn index_step(&self) -> (r: bool)
        ensures
            r == bit_set(self.0, 5),
    {
        self.0 & (1u32 << 5) != 0
    }

    /// Set whether the INDEX pin shows step pulses instead of the selection made by the overtemperature routing bit.
    pub fn set_index_step(&mut self, value: bool)
        ensures
            final(self).0 == with_bit(old(self).0, 5, value),
    {
        if value {
            self.0 = self.0 | (1u32 << 5);
        } else {
            self.0 = self.0 & !(1u32 << 5);
        }
    }

    /// Whether the power-down pin is disabled; must be set when the UART interface is in use.
    pub fn pdn_disable(&self) -> (r: bool)
        ensures
            r == bit_set(self.0, 6),
    {
        self.0 & (1u32 << 6) != 0
    }

    /// Set whether the power-down pin is disabled; must be set when the UART interface is in use.
    pub fn set_pdn_disable(&mut self, value: bool)
        ensures
            final(self).0 == with_bit(old(self).0, 6, value),
    {
        if value {
            self.0 = self.0 | (1u32 << 6);
        } else {
            self.0 = self.0 & !(1u32 << 6);
        }
    }

    /// Whether the microstep resolution comes from the chopper configuration register instead of the MS pins.
    pub fn mstep_reg_select(&self) -> (r: bool)
        ensures
            r == bit_set(self.0, 7),
    {
        self.0 & (1u32 << 7) != 0
    }

    /// Set whether the microstep resolution comes from the chopper configuration register instead of the MS pins.
    pub fn set_mstep_reg_select(&mut self, value: bool)
        ensures
            final(self).0 == with_bit(old(self).0, 7, value),
    {
        if value {
            self.0 = self.0 | (1u32 << 7);
        } else {
            self.0 = self.0 & !(1u32 << 7);
        }
    }

    /// Whether step pulse filtering for high step rates is enabled.
    pub fn multistep_filt(&self) -> (r: bool)
        ensures
            r == bit_set(self.0, 8),
    {
        self.0 & (1u32 << 8) != 0
    }

    /// Set whether step pulse filtering for high step rates is enabled.
    pub fn set_multistep_filt(&mut self, value: bool)
        ensures
            final(self).0 == with_bit(old(self).0, 8, value),
    {
        if value {
            self.0 = self.0 | (1u32 << 8);
        } else {
            self.0 = self.0 & !(1u32 << 8);
        }
    }

    /// Test mode; must stay off for normal operation.
    pub fn test_mode(&self) -> (r: bool)
        ensures
            r == bit_set(self.0, 9),
    {
        self.0 & (1u32 << 9) != 0
    }

    /// Set test_mode.
    pub fn set_test_mode(&mut self, value: bool)
        ensures
            final(self).0 == with_bit(old(self).0, 9, value),
    {
        if value {
            self.0 = self.0 | (1u32 << 9);
        } else {
            self.0 = self.0 & !(1u32 << 9);
        }
    }

    /// Whether the DIAG output is routed to stall indication: both index
    /// routing bits are clear.
    pub fn diag0_stall(&self) -> (r: bool)
        ensures
            r == (!bit_set(self.0, 4) && !bit_set(self.0, 5)),
    {
        self.0 & (1u32 << 4) == 0 && self.0 & (1u32 << 5) == 0
    }

    /// Route the DIAG output to stall indication by clearing both index
    /// routing bits; routing is left untouched when `value` is false.
    pub fn set_diag0_stall(&mut self, value: bool)
        ensures
            final(self).0 == if value {
                with_bit(with_bit(old(self).0, 4, false), 5, false)
            } else {
                old(self).0
            },
    {
        if value {
            self.0 = self.0 & !(1u32 << 4);
            self.0 = self.0 & !(1u32 << 5);
        }
    }
}

impl Register for Gconf {
    open spec fn spec_addr() -> Address {
        Address::Gconf
    }

    open spec fn spec_raw(self) -> u32 {
        self.0
    }

    fn address() -> (a: Address) {
        Address::Gconf
    }

    fn raw(&self) -> (r: u32) {
        self.0
    }

    fn from_raw(value: u32) -> (r: Self) {
        Gconf(value)
    }
}

impl ReadableRegister for Gconf {

}

impl WritableRegister for Gconf {

}

} // verus!
