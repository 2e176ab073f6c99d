//! Register map of the chip: addresses, access classes and the typed
//! bitfield wrappers.
//!
//! Every register is a thin wrapper around its raw 32-bit value with named
//! accessors for its bit ranges. The [`Address`] enum lists the known
//! 7-bit register addresses; an address outside the known set is not an
//! error on the wire, it is merely not representable here and reported as
//! such by [`Address::from_u8`].

use vstd::prelude::*;

mod chopconf;
mod coolconf;
mod drv_status;
mod factory_conf;
mod gconf;
mod gstat;
mod ifcnt;
mod ihold_irun;
mod ioin;
mod mscnt;
mod mscuract;
mod otp_prog;
mod otp_read;
mod pwm_auto;
mod pwm_scale;
mod pwmconf;
mod sg_result;
mod sgthrs;
mod slaveconf;
mod tcoolthrs;
mod tpowerdown;
mod tpwmthrs;
mod tstep;
mod vactual;

pub use chopconf::Chopconf;
pub use coolconf::Coolconf;
pub use drv_status::DrvStatus;
pub use factory_conf::FactoryConf;
pub use gconf::Gconf;
pub use gstat::Gstat;
pub use ifcnt::Ifcnt;
pub use ihold_irun::IholdIrun;
pub use ioin::Ioin;
pub use mscnt::Mscnt;
pub use mscuract::Mscuract;
pub use otp_prog::OtpProg;
pub use otp_read::OtpRead;
pub use pwm_auto::PwmAuto;
pub use pwm_scale::PwmScale;
pub use pwmconf::Pwmconf;
pub use sg_result::SgResult;
pub use sgthrs::Sgthrs;
pub use slaveconf::Slaveconf;
pub use tcoolthrs::Tcoolthrs;
pub use tpowerdown::Tpowerdown;
pub use tpwmthrs::Tpwmthrs;
pub use tstep::Tstep;
pub use vactual::Vactual;


verus! {

/// The 7-bit addresses of the known registers.
#[derive(Debug, Clone, Copy, PartialEq, Eq, Hash, Structural)]
pub enum Address {
    /// Global configuration (0x00), read-write.
    Gconf,
    /// Global status flags (0x01), read, write to clear.
    Gstat,
    /// Interface transmission counter (0x02), read-only.
    Ifcnt,
    /// UART slave configuration (0x03), write-only.
    Slaveconf,
    /// OTP programming (0x04), write-only.
    OtpProg,
    /// OTP memory read (0x05), read-only.
    OtpRead,
    /// Input pin states (0x06), read-only.
    Ioin,
    /// Factory configuration (0x07), read-write.
    FactoryConf,
    /// Hold/run current (0x10), write-only.
    IholdIrun,
    /// Power down delay (0x11), write-only.
    Tpowerdown,
    /// Measured step time (0x12), read-only.
    Tstep,
    /// StealthChop threshold (0x13), write-only.
    Tpwmthrs,
    /// CoolStep threshold (0x14), write-only.
    Tcoolthrs,
    /// UART velocity control (0x22), write-only.
    Vactual,
    /// StallGuard threshold (0x40), write-only.
    Sgthrs,
    /// StallGuard result (0x41), read-only.
    SgResult,
    /// CoolStep configuration (0x42), write-only.
    Coolconf,
    /// Microstep counter (0x6A), read-only.
    Mscnt,
    /// Microstep current (0x6B), read-only.
    Mscuract,
    /// Chopper configuration (0x6C), read-write.
    Chopconf,
    /// Driver status (0x6F), read-only.
    DrvStatus,
    /// StealthChop PWM configuration (0x70), read-write.
    Pwmconf,
    /// PWM scaling result (0x71), read-only.
    PwmScale,
    /// Automatic PWM values (0x72), read-only.
    PwmAuto,
}

impl Address {
    /// The raw 7-bit value of this address.
    pub open spec fn spec_u8(self) -> u8 {
        match self {
            Address::Gconf => 0x00,
            Address::Gstat => 0x01,
            Address::Ifcnt => 0x02,
            Address::Slaveconf => 0x03,
            Address::OtpProg => 0x04,
            Address::OtpRead => 0x05,
            Address::Ioin => 0x06,
            Address::FactoryConf => 0x07,
            Address::IholdIrun => 0x10,
            Address::Tpowerdown => 0x11,
            Address::Tstep => 0x12,
            Address::Tpwmthrs => 0x13,
            Address::Tcoolthrs => 0x14,
            Address::Vactual => 0x22,
            Address::Sgthrs => 0x40,
            Address::SgResult => 0x41,
            Address::Coolconf => 0x42,
            Address::Mscnt => 0x6A,
            Address::Mscuract => 0x6B,
            Address::Chopconf => 0x6C,
            Address::DrvStatus => 0x6F,
            Address::Pwmconf => 0x70,
            Address::PwmScale => 0x71,
            Address::PwmAuto => 0x72,
        }
    }

    /// The address a raw byte stands for, if it is a known one.
    pub open spec fn spec_from_u8(value: u8) -> Option<Address> {
        match value {
            0x00 => Some(Address::Gconf),
            0x01 => Some(Address::Gstat),
            0x02 => Some(Address::Ifcnt),
            0x03 => Some(Address::Slaveconf),
            0x04 => Some(Address::OtpProg),
            0x05 => Some(Address::OtpRead),
            0x06 => Some(Address::Ioin),
            0x07 => Some(Address::FactoryConf),
            0x10 => Some(Address::IholdIrun),
            0x11 => Some(Address::Tpowerdown),
            0x12 => Some(Address::Tstep),
            0x13 => Some(Address::Tpwmthrs),
            0x14 => Some(Address::Tcoolthrs),
            0x22 => Some(Address::Vactual),
            0x40 => Some(Address::Sgthrs),
            0x41 => Some(Address::SgResult),
            0x42 => Some(Address::Coolconf),
            0x6A => Some(Address::Mscnt),
            0x6B => Some(Address::Mscuract),
            0x6C => Some(Address::Chopconf),
            0x6F => Some(Address::DrvStatus),
            0x70 => Some(Address::Pwmconf),
            0x71 => Some(Address::PwmScale),
            0x72 => Some(Address::PwmAuto),
            _ => None,
        }
    }

    /// Whether the register at this address can be read back.
    pub open spec fn spec_readable(self) -> bool {
        match self {
            Address::Gconf | Address::Gstat | Address::Ifcnt | Address::OtpRead | Address::Ioin
                | Address::FactoryConf | Address::Tstep | Address::SgResult | Address::Mscnt
                | Address::Mscuract | Address::Chopconf | Address::DrvStatus | Address::Pwmconf
                | Address::PwmScale | Address::PwmAuto => true,
            _ => false,
        }
    }

    /// Whether the register at this address accepts writes.
    pub open spec fn spec_writable(self) -> bool {
        match self {
            Address::Gconf | Address::Gstat | Address::Slaveconf | Address::OtpProg
                | Address::FactoryConf | Address::IholdIrun | Address::Tpowerdown
                | Address::Tpwmthrs | Address::Tcoolthrs | Address::Vactual | Address::Sgthrs
                | Address::Coolconf | Address::Chopconf | Address::Pwmconf => true,
            _ => false,
        }
    }

    /// Convert a raw byte to an `Address` if it names a known register.
    pub fn from_u8(value: u8) -> (r: Option<Address>)
        ensures
            r == Address::spec_from_u8(value),
    {
        match value {
            0x00 => Some(Address::Gconf),
            0x01 => Some(Address::Gstat),
            0x02 => Some(Address::Ifcnt),
            0x03 => Some(Address::Slaveconf),
            0x04 => Some(Address::OtpProg),
            0x05 => Some(Address::OtpRead),
            0x06 => Some(Address::Ioin),
            0x07 => Some(Address::FactoryConf),
            0x10 => Some(Address::IholdIrun),
            0x11 => Some(Address::Tpowerdown),
            0x12 => Some(Address::Tstep),
            0x13 => Some(Address::Tpwmthrs),
            0x14 => Some(Address::Tcoolthrs),
            0x22 => Some(Address::Vactual),
            0x40 => Some(Address::Sgthrs),
            0x41 => Some(Address::SgResult),
            0x42 => Some(Address::Coolconf),
            0x6A => Some(Address::Mscnt),
            0x6B => Some(Address::Mscuract),
            0x6C => Some(Address::Chopconf),
            0x6F => Some(Address::DrvStatus),
            0x70 => Some(Address::Pwmconf),
            0x71 => Some(Address::PwmScale),
            0x72 => Some(Address::PwmAuto),
            _ => None,
        }
    }

    /// Whether the register at this address can be read back.
    pub fn is_readable(self) -> (r: bool)
        ensures
            r == self.spec_readable(),
    {
        match self {
            Address::Gconf | Address::Gstat | Address::Ifcnt | Address::OtpRead | Address::Ioin
                | Address::FactoryConf | Address::Tstep | Address::SgResult | Address::Mscnt
                | Address::Mscuract | Address::Chopconf | Address::DrvStatus | Address::Pwmconf
                | Address::PwmScale | Address::PwmAuto => true,
            _ => false,
        }
    }

    /// Whether the register at this address accepts writes.
    pub fn is_writable(self) -> (r: bool)
        ensures
            r == self.spec_writable(),
    {
        match self {
            Address::Gconf | Address::Gstat | Address::Slaveconf | Address::OtpProg
                | Address::FactoryConf | Address::IholdIrun | Address::Tpowerdown
                | Address::Tpwmthrs | Address::Tcoolthrs | Address::Vactual | Address::Sgthrs
                | Address::Coolconf | Address::Chopconf | Address::Pwmconf => true,
            _ => false,
        }
    }

    /// Get the raw 7-bit address value.
    #[verifier::when_used_as_spec(spec_u8)]
    pub fn as_u8(self) -> (r: u8)
        ensures
            r == self.spec_u8(),
    {
        match self {
            Address::Gconf => 0x00,
            Address::Gstat => 0x01,
            Address::Ifcnt => 0x02,
            Address::Slaveconf => 0x03,
            Address::OtpProg => 0x04,
            Address::OtpRead => 0x05,
            Address::Ioin => 0x06,
            Address::FactoryConf => 0x07,
            Address::IholdIrun => 0x10,
            Address::Tpowerdown => 0x11,
            Address::Tstep => 0x12,
            Address::Tpwmthrs => 0x13,
            Address::Tcoolthrs => 0x14,
            Address::Vactual => 0x22,
            Address::Sgthrs => 0x40,
            Address::SgResult => 0x41,
            Address::Coolconf => 0x42,
            Address::Mscnt => 0x6A,
            Address::Mscuract => 0x6B,
            Address::Chopconf => 0x6C,
            Address::DrvStatus => 0x6F,
            Address::Pwmconf => 0x70,
            Address::PwmScale => 0x71,
            Address::PwmAuto => 0x72,
        }
    }
}


/// True exactly when bit `i` of `v` is set.
pub open spec fn bit_set(v: u32, i: u32) -> bool {
    v & (1u32 << i) != 0
}

/// The bit range of `v` that starts at `off` and is `mask` wide.
pub open spec fn field_get(v: u32, off: u32, mask: u32) -> u32 {
    (v >> off) & mask
}

/// `v` with the bit range at `off` replaced by `value`, masked to the
/// range's width.
pub open spec fn field_set(v: u32, off: u32, mask: u32, value: u32) -> u32 {
    (v & !(mask << off)) | ((value & mask) << off)
}

/// `v` with bit `i` set or cleared.
pub open spec fn with_bit(v: u32, i: u32, b: bool) -> u32 {
    if b {
        v | (1u32 << i)
    } else {
        v & !(1u32 << i)
    }
}

/// Common shape of every register: a typed wrapper around a raw 32-bit
/// value, tied to one fixed address.
pub trait Register: Sized + Clone + Copy {
    /// The address of this register.
    spec fn spec_addr() -> Address;

    /// The raw 32-bit value this register wraps.
    spec fn spec_raw(self) -> u32;

    /// The address of this register.
    fn address() -> (a: Address)
        ensures
            a == Self::spec_addr(),
    ;

    /// The raw 32-bit value this register wraps.
    fn raw(&self) -> (r: u32)
        ensures
            r == self.spec_raw(),
    ;

    /// Wrap a raw 32-bit value, bit for bit.
    fn from_raw(value: u32) -> (r: Self)
        ensures
            r.spec_raw() == value,
    ;
}

/// Registers that can be read over the wire.
pub trait ReadableRegister: Register {

}

/// Registers that can be written over the wire.
pub trait WritableRegister: Register {

}

/// Microstep resolution: the number of microsteps per full step.
#[derive(Debug, Clone, Copy, PartialEq, Eq, Structural, Default)]
pub enum MicrostepResolution {
    /// 256 microsteps per full step (native resolution).
    #[default]
    M256,
    /// 128 microsteps per full step.
    M128,
    /// 64 microsteps per full step.
    M64,
    /// 32 microsteps per full step.
    M32,
    /// 16 microsteps per full step.
    M16,
    /// 8 microsteps per full step.
    M8,
    /// 4 microsteps per full step.
    M4,
    /// 2 microsteps per full step (half step).
    M2,
    /// Full step.
    M1,
}

impl MicrostepResolution {
    /// The value the MRES bit range of the chopper configuration holds
    /// for this resolution.
    pub open spec fn spec_mres(self) -> u8 {
        match self {
            MicrostepResolution::M256 => 0,
            MicrostepResolution::M128 => 1,
            MicrostepResolution::M64 => 2,
            MicrostepResolution::M32 => 3,
            MicrostepResolution::M16 => 4,
            MicrostepResolution::M8 => 5,
            MicrostepResolution::M4 => 6,
            MicrostepResolution::M2 => 7,
            MicrostepResolution::M1 => 8,
        }
    }

    /// The resolution an MRES value stands for; values above 8 fall back
    /// to the native resolution.
    pub open spec fn spec_from_mres(mres: u8) -> MicrostepResolution {
        match mres {
            0 => MicrostepResolution::M256,
            1 => MicrostepResolution::M128,
            2 => MicrostepResolution::M64,
            3 => MicrostepResolution::M32,
            4 => MicrostepResolution::M16,
            5 => MicrostepResolution::M8,
            6 => MicrostepResolution::M4,
            7 => MicrostepResolution::M2,
            8 => MicrostepResolution::M1,
            _ => MicrostepResolution::M256,
        }
    }

    /// The number of microsteps per full step.
    pub open spec fn spec_microsteps(self) -> u16 {
        match self {
            MicrostepResolution::M256 => 256,
            MicrostepResolution::M128 => 128,
            MicrostepResolution::M64 => 64,
            MicrostepResolution::M32 => 32,
            MicrostepResolution::M16 => 16,
            MicrostepResolution::M8 => 8,
            MicrostepResolution::M4 => 4,
            MicrostepResolution::M2 => 2,
            MicrostepResolution::M1 => 1,
        }
    }

    /// Convert from an MRES register value.
    pub fn from_mres(mres: u8) -> (r: Self)
        ensures
            r == MicrostepResolution::spec_from_mres(mres),
    {
        match mres {
            0 => Self::M256,
            1 => Self::M128,
            2 => Self::M64,
            3 => Self::M32,
            4 => Self::M16,
            5 => Self::M8,
            6 => Self::M4,
            7 => Self::M2,
            8 => Self::M1,
            _ => Self::M256,
        }
    }

    /// Convert to an MRES register value.
    #[verifier::when_used_as_spec(spec_mres)]
    pub fn to_mres(self) -> (r: u8)
        ensures
            r == self.spec_mres(),
    {
        match self {
            Self::M256 => 0,
            Self::M128 => 1,
            Self::M64 => 2,
            Self::M32 => 3,
            Self::M16 => 4,
            Self::M8 => 5,
            Self::M4 => 6,
            Self::M2 => 7,
            Self::M1 => 8,
        }
    }

    /// The number of microsteps per full step.
    #[verifier::when_used_as_spec(spec_microsteps)]
    pub fn microsteps(self) -> (r: u16)
        ensures
            r == self.spec_microsteps(),
    {
        match self {
            Self::M256 => 256,
            Self::M128 => 128,
            Self::M64 => 64,
            Self::M32 => 32,
            Self::M16 => 16,
            Self::M8 => 8,
            Self::M4 => 4,
            Self::M2 => 2,
            Self::M1 => 1,
        }
    }
}

/// What the driver does with the motor coils at standstill when the hold
/// current is zero.
#[derive(Debug, Clone, Copy, PartialEq, Eq, Structural, Default)]
pub enum StandstillMode {
    /// Normal operation.
    #[default]
    Normal,
    /// Freewheeling.
    Freewheeling,
    /// Coil shorted through the low-side drivers (strong braking).
    StrongBraking,
    /// Coil shorted through the high-side drivers (braking).
    Braking,
}

impl StandstillMode {
    /// The two-bit field value of this mode.
    pub open spec fn spec_bits(self) -> u8 {
        match self {
            StandstillMode::Normal => 0,
            StandstillMode::Freewheeling => 1,
            StandstillMode::StrongBraking => 2,
            StandstillMode::Braking => 3,
        }
    }

    /// The mode the low two bits of a field value stand for.
    pub open spec fn spec_from_bits(value: u8) -> StandstillMode {
        match value & 0x03 {
            0 => StandstillMode::Normal,
            1 => StandstillMode::Freewheeling,
            2 => StandstillMode::StrongBraking,
            _ => StandstillMode::Braking,
        }
    }

    /// Convert from the low two bits of a register field.
    pub fn from_bits(value: u8) -> (r: Self)
        ensures
            r == StandstillMode::spec_from_bits(value),
    {
        match value & 0x03 {
            0 => Self::Normal,
            1 => Self::Freewheeling,
            2 => Self::StrongBraking,
            _ => Self::Braking,
        }
    }

    /// Convert to the two-bit register field value.
    #[verifier::when_used_as_spec(spec_bits)]
    pub fn to_bits(self) -> (r: u8)
        ensures
            r == self.spec_bits(),
    {
        match self {
            Self::Normal => 0,
            Self::Freewheeling => 1,
            Self::StrongBraking => 2,
            Self::Braking => 3,
        }
    }
}

} // verus!
