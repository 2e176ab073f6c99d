//! Driver for the TMC2209 stepper-motor driver chip, spoken to over its
//! single-wire half-duplex UART link.
//!
//! The crate covers the wire protocol of the chip:
//!
//! - the CRC8 integrity primitive ([`crc`]),
//! - the three fixed-size datagrams and the resumable byte-stream parser
//!   that reassembles responses from arbitrary fragments ([`datagram`]),
//! - the register map with typed bitfield accessors ([`registers`]),
//! - the blocking transaction engine that sequences a request, its
//!   self-echo, and the reply over the shared line ([`driver`]).
//!
//! Every datagram is framed as `sync | address | payload | checksum`; read
//! requests are 4 bytes, write requests and read responses 8 bytes, with
//! 32-bit payloads carried most-significant byte first.

pub mod crc;
pub mod datagram;
pub mod driver;
pub mod error;
pub mod registers;
pub mod transport;
pub mod util;

pub use driver::Tmc2209;
pub use error::Error;
pub use transport::Transport;

pub use registers::{
    Address, Chopconf, Coolconf, DrvStatus, FactoryConf, Gconf, Gstat, Ifcnt, IholdIrun, Ioin,
    MicrostepResolution, Mscnt, Mscuract, OtpProg, OtpRead, Pwmconf, PwmAuto, PwmScale,
    ReadableRegister, Register, SgResult, Sgthrs, Slaveconf, StandstillMode, Tcoolthrs, Tpowerdown,
    Tpwmthrs, Tstep, Vactual, WritableRegister,
};

pub use util::DEFAULT_FCLK;

pub use datagram::{ReadRequest, ReadResponse, ResponseReader, WriteRequest, MASTER_ADDR, SYNC};
