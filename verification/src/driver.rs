//! The transaction engine: one register read or write, end to end, over
//! a half-duplex line that echoes every transmitted byte.
//!
//! A read runs in five strictly sequential steps: encode and write the
//! 4-byte request, flush, read back and discard the 4-byte self-echo,
//! read 8 bytes through the stream parser into a validated response, and
//! check the response's register address against the requested one. A
//! write sends its 8-byte request and then discards the 8-byte echo; the
//! chip sends no separate acknowledgement, so the full echo is the only
//! confirmation this layer has. The echoed bytes are never compared
//! against the request: on the shared line they are the request's own
//! reflection by construction, and a corrupted echo cannot be told from
//! a corrupted transmission.
//!
//! What comes back over the line is the transport's to decide, so the
//! contracts here promise what holds of every outcome: a successful read
//! hands back the payload of a well-formed response that carried the
//! requested register address, and every failure is one of the errors
//! the taxonomy names for that step.

use vstd::prelude::*;

use crate::datagram::be_u32_at;
use crate::datagram::ADDRESS_MASK;
use crate::datagram::valid_response;
use crate::datagram::ReadRequest;
use crate::datagram::ReadResponse;
use crate::datagram::ResponseReader;
use crate::datagram::WriteRequest;
use crate::datagram::read_request_bytes;
use crate::datagram::write_request_bytes;
use crate::error::Error;
use crate::registers::bit_set;
use crate::registers::field_get;
use crate::registers::field_set;
use crate::registers::Chopconf;
use crate::registers::Coolconf;
use crate::registers::DrvStatus;
use crate::registers::Gconf;
use crate::registers::Gstat;
use crate::registers::Ifcnt;
use crate::registers::IholdIrun;
use crate::registers::Ioin;
use crate::registers::MicrostepResolution;
use crate::registers::Mscnt;
use crate::registers::Pwmconf;
use crate::registers::ReadableRegister;
use crate::registers::Register;
use crate::registers::SgResult;
use crate::registers::Sgthrs;
use crate::registers::Tcoolthrs;
use crate::registers::Tpwmthrs;
use crate::registers::Tstep;
use crate::registers::Vactual;
use crate::registers::WritableRegister;
use crate::transport::Transport;

verus! {

/// The failures a write-style transaction can end in: the transport's
/// own error, or a stalled link.
pub open spec fn write_failure<E>(e: Error<E>) -> bool {
    ||| e matches Error::Uart(_)
    ||| e == Error::<E>::NoResponse
}

/// The failures a read-style transaction can end in before its address
/// check: a transport error, a stalled link, or a response rejected by
/// the frame checks.
pub open spec fn read_failure<E>(e: Error<E>) -> bool {
    ||| write_failure(e)
    ||| e == Error::<E>::InvalidSync
    ||| e == Error::<E>::InvalidMasterAddress
    ||| e == Error::<E>::CrcMismatch
}

/// The failures a whole read transaction of register `addr` can end in:
/// everything a read can fail with, or an address mismatch whose
/// expected side is `addr`.
pub open spec fn transaction_failure<E>(e: Error<E>, addr: u8) -> bool {
    ||| read_failure(e)
    ||| (e matches Error::AddressMismatch { expected, actual } && expected == addr && actual
        != expected)
}

/// Some well-formed response carried register address `addr` with the
/// 32-bit payload `data`.
pub open spec fn response_carries(addr: u8, data: u32) -> bool {
    exists|b: Seq<u8>| #[trigger] valid_response(b) && b[2] == addr && be_u32_at(b, 3) == data
}

/// What a read transaction of register `R` makes of a parsed response:
/// a response carrying `R`'s address is accepted and its payload wrapped
/// as the register, any other address is the distinct address-mismatch
/// failure whose expected side is `R`'s address.
pub fn accept_response<R: ReadableRegister, E>(response: &ReadResponse) -> (r: Result<R, Error<E>>)
    ensures
        response@[2] == R::spec_addr().spec_u8() ==> (r matches Ok(reg) && reg.spec_raw()
            == be_u32_at(response@, 3)),
        response@[2] != R::spec_addr().spec_u8() ==> r == Result::<R, Error<E>>::Err(
            (Error::AddressMismatch {
                expected: R::spec_addr().spec_u8(),
                actual: response@[2],
            }),
        ),
{
    let expected = R::address().as_u8();
    let actual = response.reg_addr();
    if actual != expected {
        return Err(Error::AddressMismatch { expected, actual });
    }
    Ok(R::from_raw(response.data()))
}

/// What a raw-address read transaction makes of a parsed response: a
/// response carrying the masked request address is accepted and its
/// payload returned, any other address is the distinct address-mismatch
/// failure.
pub fn accept_raw_response<E>(reg_addr: u8, response: &ReadResponse) -> (r: Result<u32, Error<E>>)
    ensures
        response@[2] == reg_addr & ADDRESS_MASK ==> r == Result::<u32, Error<E>>::Ok(
            be_u32_at(response@, 3),
        ),
        response@[2] != reg_addr & ADDRESS_MASK ==> r == Result::<u32, Error<E>>::Err(
            (Error::AddressMismatch { expected: reg_addr & ADDRESS_MASK, actual: response@[2] }),
        ),
{
    let expected = reg_addr & ADDRESS_MASK;
    let actual = response.reg_addr();
    if actual != expected {
        return Err(Error::AddressMismatch { expected, actual });
    }
    Ok(response.data())
}

/// The chopper configuration a driver-enable decision writes back: the
/// off time is forced to zero to disable; to enable, the default off
/// time 3 is restored only when the current one is zero; every other
/// bit is kept either way.
pub fn chopconf_with_driver_enabled(chopconf: Chopconf, enabled: bool) -> (r: Chopconf)
    ensures
        !enabled ==> r.0 == field_set(chopconf.0, 0, 0x0F, 0),
        enabled && field_get(chopconf.0, 0, 0x0F) as u8 == 0 ==> r.0 == field_set(
            chopconf.0,
            0,
            0x0F,
            3,
        ),
        enabled && field_get(chopconf.0, 0, 0x0F) as u8 != 0 ==> r == chopconf,
{
    let mut updated = chopconf;
    if enabled {
        if updated.toff() == 0 {
            updated.set_toff(3);
        }
    } else {
        updated.set_toff(0);
    }
    updated
}

/// The CoolStep configuration the enable decision writes: the window
/// bounds clamped to 15, the smallest current up-step and the largest
/// down-step, everything else zero.
pub fn coolstep_conf(semin: u8, semax: u8) -> (r: Coolconf)
    ensures
        ({
            let lower = if semin < 15 { semin } else { 15 };
            let upper = if semax < 15 { semax } else { 15 };
            let v1 = field_set(0, 0, 0x0F, lower as u32);
            let v2 = field_set(v1, 8, 0x0F, upper as u32);
            let v3 = field_set(v2, 5, 0x03, 0);
            r.0 == field_set(v3, 13, 0x03, 0)
        }),
{
    let lower = if semin < 15 { semin } else { 15 };
    let upper = if semax < 15 { semax } else { 15 };
    let mut coolconf = Coolconf(0);
    coolconf.set_semin(lower);
    coolconf.set_semax(upper);
    coolconf.set_seup(0);
    coolconf.set_sedn(0);
    coolconf
}

/// The chopper configuration the tuning decision writes back: off time
/// clamped to 15, hysteresis start to 7, hysteresis end to 15 and blank
/// time to 3, set in that order over the value read from the chip.
pub fn chopconf_with_chopper(chopconf: Chopconf, toff: u8, hstrt: u8, hend: u8, tbl: u8) -> (r:
    Chopconf)
    ensures
        ({
            let off_time = if toff < 15 { toff } else { 15 };
            let hyst_start = if hstrt < 7 { hstrt } else { 7 };
            let hyst_end = if hend < 15 { hend } else { 15 };
            let blank = if tbl < 3 { tbl } else { 3 };
            let v1 = field_set(chopconf.0, 0, 0x0F, off_time as u32);
            let v2 = field_set(v1, 4, 0x07, hyst_start as u32);
            let v3 = field_set(v2, 7, 0x0F, hyst_end as u32);
            r.0 == field_set(v3, 15, 0x03, blank as u32)
        }),
{
    let off_time = if toff < 15 { toff } else { 15 };
    let hyst_start = if hstrt < 7 { hstrt } else { 7 };
    let hyst_end = if hend < 15 { hend } else { 15 };
    let blank = if tbl < 3 { tbl } else { 3 };
    let mut updated = chopconf;
    updated.set_toff(off_time);
    updated.set_hstrt(hyst_start);
    updated.set_hend(hyst_end);
    updated.set_tbl(blank);
    updated
}

/// The driver: one chip on the line, addressed by its 2-bit slave
/// address, spoken to through an exclusively owned transport.
///
/// The parser state it carries belongs to one transaction at a time;
/// every transaction resets it before reading a reply.
pub struct Tmc2209<U> {
    /// The byte pipe to the chip.
    uart: U,
    /// The chip's slave address, 0 to 3.
    slave_addr: u8,
    /// Parser for incoming response bytes.
    reader: ResponseReader,
}

impl<U> Tmc2209<U> {
    /// The slave address this driver talks to.
    pub closed spec fn spec_slave_addr(self) -> u8 {
        self.slave_addr
    }

    /// The transport this driver owns.
    pub closed spec fn spec_uart(self) -> U {
        self.uart
    }

    /// Take ownership of the transport and talk to the chip at
    /// `slave_addr`, which must be 0 to 3.
    pub fn new(uart: U, slave_addr: u8) -> (r: Self)
        requires
            slave_addr <= 3,
        ensures
            r.spec_slave_addr() == slave_addr,
            r.spec_uart() == uart,
    {
        Self { uart, slave_addr, reader: ResponseReader::new() }
    }

    /// The slave address.
    pub fn slave_addr(&self) -> (r: u8)
        ensures
            r == self.spec_slave_addr(),
    {
        self.slave_addr
    }

    /// Change the slave address; the new one must be 0 to 3.
    pub fn set_slave_addr(&mut self, addr: u8)
        requires
            addr <= 3,
        ensures
            final(self).spec_slave_addr() == addr,
            final(self).spec_uart() == old(self).spec_uart(),
    {
        self.slave_addr = addr;
    }

    /// Borrow the transport.
    pub fn uart(&self) -> (r: &U)
        ensures
            *r == self.spec_uart(),
    {
        &self.uart
    }

    /// Borrow the transport mutably; what the caller leaves in the
    /// borrow is what the driver holds afterwards.
    pub fn uart_mut(&mut self) -> (r: &mut U)
        ensures
            *r == old(self).spec_uart(),
            final(self).spec_uart() == *final(r),
            final(self).spec_slave_addr() == old(self).spec_slave_addr(),
    {
        &mut self.uart
    }

    /// Give the transport back.
    pub fn release(self) -> (r: U)
        ensures
            r == self.spec_uart(),
    {
        self.uart
    }

    /// The read request for register `R` at this driver's slave address.
    fn read_request<R: ReadableRegister>(&self) -> (r: ReadRequest)
        ensures
            r@ == read_request_bytes(self.spec_slave_addr(), R::spec_addr().spec_u8()),
    {
        ReadRequest::new(self.slave_addr, R::address())
    }

    /// The write request carrying `reg` to this driver's slave address.
    fn write_request<R: WritableRegister>(&self, reg: &R) -> (r: WriteRequest)
        ensures
            r@ == write_request_bytes(
                self.spec_slave_addr(),
                R::spec_addr().spec_u8(),
                reg.spec_raw(),
            ),
    {
        WriteRequest::new(self.slave_addr, R::address(), reg.raw())
    }
}

impl<U: Transport> Tmc2209<U> {
    /// Read exactly `n` bytes, accumulating across as many transport
    /// reads as it takes; a read that hands back nothing is a stalled
    /// link and fails the transaction.
    #[verifier::loop_isolation(false)]
    fn read_exact(&mut self, n: usize) -> (r: Result<Vec<u8>, Error<U::TxError>>)
        ensures
            r matches Ok(v) ==> v@.len() == n,
            r matches Err(e) ==> write_failure(e),
            final(self).spec_slave_addr() == old(self).spec_slave_addr(),
    {
        let mut collected: Vec<u8> = Vec::new();
        while collected.len() < n
            invariant
                collected@.len() <= n,
                self.spec_slave_addr() == old(self).spec_slave_addr(),
            decreases n - collected@.len(),
        {
            let want = n - collected.len();
            let mut chunk = match self.uart.read_bytes(want) {
                Ok(c) => c,
                Err(e) => {
                    return Err(Error::Uart(e));
                },
            };
            if chunk.len() == 0 {
                return Err(Error::NoResponse);
            }
            if chunk.len() > want {
                chunk.truncate(want);
            }
            collected.append(&mut chunk);
        }
        Ok(collected)
    }

    /// Read one 8-byte reply through a freshly reset parser and hand
    /// back the validated response, or the frame check that rejected it.
    fn read_response(&mut self) -> (r: Result<ReadResponse, Error<U::TxError>>)
        ensures
            r matches Ok(resp) ==> valid_response(resp@),
            r matches Err(e) ==> read_failure(e),
            final(self).spec_slave_addr() == old(self).spec_slave_addr(),
    {
        self.reader.reset();
        let buf = match self.read_exact(8) {
            Ok(v) => v,
            Err(e) => {
                return Err(e);
            },
        };
        let (_consumed, outcome) = self.reader.feed::<U::TxError>(buf.as_slice());
        match outcome {
            Some(result) => result,
            None => Err(Error::NoResponse),
        }
    }

    /// Read register `R`: send the request, flush, discard the 4-byte
    /// self-echo, parse the 8-byte reply, and accept or reject it by its
    /// register address through [`accept_response`]. On success the
    /// register holds the payload of a well-formed response for `R`'s
    /// address.
    pub fn read_register<R: ReadableRegister>(&mut self) -> (r: Result<R, Error<U::TxError>>)
        ensures
            r matches Ok(reg) ==> response_carries(R::spec_addr().spec_u8(), reg.spec_raw()),
            r matches Err(e) ==> transaction_failure(e, R::spec_addr().spec_u8()),
            final(self).spec_slave_addr() == old(self).spec_slave_addr(),
    {
        let request = self.read_request::<R>();
        match self.uart.write_bytes(request.as_bytes()) {
            Ok(_) => (),
            Err(e) => {
                return Err(Error::Uart(e));
            },
        };
        match self.uart.flush() {
            Ok(_) => (),
            Err(e) => {
                return Err(Error::Uart(e));
            },
        };
        let _echo = match self.read_exact(4) {
            Ok(v) => v,
            Err(e) => {
                return Err(e);
            },
        };
        let response = match self.read_response() {
            Ok(resp) => resp,
            Err(e) => {
                return Err(e);
            },
        };
        match accept_response::<R, U::TxError>(&response) {
            Ok(reg) => {
                proof {
                    assert(valid_response(response@) && response@[2] == R::spec_addr().spec_u8()
                        && be_u32_at(response@, 3) == reg.spec_raw());
                }
                Ok(reg)
            },
            Err(e) => Err(e),
        }
    }

    /// Write register `R`: send the request, flush, and read back and
    /// discard the 8-byte self-echo, the only confirmation the chip
    /// gives for a write.
    pub fn write_register<R: WritableRegister>(&mut self, reg: &R) -> (r: Result<
        (),
        Error<U::TxError>,
    >)
        ensures
            r matches Err(e) ==> write_failure(e),
            final(self).spec_slave_addr() == old(self).spec_slave_addr(),
    {
        let request = self.write_request(reg);
        match self.uart.write_bytes(request.as_bytes()) {
            Ok(_) => (),
            Err(e) => {
                return Err(Error::Uart(e));
            },
        };
        match self.uart.flush() {
            Ok(_) => (),
            Err(e) => {
                return Err(Error::Uart(e));
            },
        };
        let _echo = match self.read_exact(8) {
            Ok(v) => v,
            Err(e) => {
                return Err(e);
            },
        };
        Ok(())
    }

    /// Read a register by its raw address, masked to seven bits. The
    /// reply's register address is compared against the masked request
    /// address, a mismatch being its own distinct failure; on success
    /// the result is the payload of a well-formed response for that
    /// address.
    pub fn read_raw(&mut self, reg_addr: u8) -> (r: Result<u32, Error<U::TxError>>)
        ensures
            r matches Ok(d) ==> response_carries(reg_addr & ADDRESS_MASK, d),
            r matches Err(e) ==> transaction_failure(e, reg_addr & ADDRESS_MASK),
            final(self).spec_slave_addr() == old(self).spec_slave_addr(),
    {
        let request = ReadRequest::from_raw_addr(self.slave_addr, reg_addr);
        match self.uart.write_bytes(request.as_bytes()) {
            Ok(_) => (),
            Err(e) => {
                return Err(Error::Uart(e));
            },
        };
        match self.uart.flush() {
            Ok(_) => (),
            Err(e) => {
                return Err(Error::Uart(e));
            },
        };
        let _echo = match self.read_exact(4) {
            Ok(v) => v,
            Err(e) => {
                return Err(e);
            },
        };
        let response = match self.read_response() {
            Ok(resp) => resp,
            Err(e) => {
                return Err(e);
            },
        };
        match accept_raw_response::<U::TxError>(reg_addr, &response) {
            Ok(data) => {
                proof {
                    assert(valid_response(response@) && response@[2] == reg_addr & ADDRESS_MASK
                        && be_u32_at(response@, 3) == data);
                }
                Ok(data)
            },
            Err(e) => Err(e),
        }
    }

    /// Write a register by its raw address, masked to seven bits.
    pub fn write_raw(&mut self, reg_addr: u8, data: u32) -> (r: Result<(), Error<U::TxError>>)
        ensures
            r matches Err(e) ==> write_failure(e),
            final(self).spec_slave_addr() == old(self).spec_slave_addr(),
    {
        let request = WriteRequest::from_raw(self.slave_addr, reg_addr, data);
        match self.uart.write_bytes(request.as_bytes()) {
            Ok(_) => (),
            Err(e) => {
                return Err(Error::Uart(e));
            },
        };
        match self.uart.flush() {
            Ok(_) => (),
            Err(e) => {
                return Err(Error::Uart(e));
            },
        };
        let _echo = match self.read_exact(8) {
            Ok(v) => v,
            Err(e) => {
                return Err(e);
            },
        };
        Ok(())
    }

    /// Whether the chip answers a register read at all.
    pub fn is_connected(&mut self) -> (r: bool)
        ensures
            final(self).spec_slave_addr() == old(self).spec_slave_addr(),
    {
        self.read_register::<Ifcnt>().is_ok()
    }

    /// The interface transmission counter, which the chip steps on each
    /// successful register write.
    pub fn ifcnt(&mut self) -> (r: Result<u8, Error<U::TxError>>)
        ensures
            r matches Ok(v) ==> exists|d: u32|
                #[trigger] response_carries(0x02, d) && v == field_get(d, 0, 0xFF) as u8,
            r matches Err(e) ==> transaction_failure(e, 0x02),
            final(self).spec_slave_addr() == old(self).spec_slave_addr(),
    {
        let reg = match self.read_register::<Ifcnt>() {
            Ok(v) => v,
            Err(e) => {
                return Err(e);
            },
        };
        Ok(reg.count())
    }

    /// The global status flags.
    pub fn gstat(&mut self) -> (r: Result<Gstat, Error<U::TxError>>)
        ensures
            r matches Ok(g) ==> response_carries(0x01, g.0),
            r matches Err(e) ==> transaction_failure(e, 0x01),
            final(self).spec_slave_addr() == old(self).spec_slave_addr(),
    {
        self.read_register()
    }

    /// Clear all three latched global status flags by writing ones to
    /// them.
    pub fn clear_gstat(&mut self) -> (r: Result<(), Error<U::TxError>>)
        ensures
            r matches Err(e) ==> write_failure(e),
            final(self).spec_slave_addr() == old(self).spec_slave_addr(),
    {
        let gstat = Gstat::from_raw(0x07);
        self.write_register(&gstat)
    }

    /// The input pin states.
    pub fn ioin(&mut self) -> (r: Result<Ioin, Error<U::TxError>>)
        ensures
            r matches Ok(g) ==> response_carries(0x06, g.0),
            r matches Err(e) ==> transaction_failure(e, 0x06),
            final(self).spec_slave_addr() == old(self).spec_slave_addr(),
    {
        self.read_register()
    }

    /// The driver status flags.
    pub fn drv_status(&mut self) -> (r: Result<DrvStatus, Error<U::TxError>>)
        ensures
            r matches Ok(g) ==> response_carries(0x6F, g.0),
            r matches Err(e) ==> transaction_failure(e, 0x6F),
            final(self).spec_slave_addr() == old(self).spec_slave_addr(),
    {
        self.read_register()
    }

    /// The measured step time, the inverse of the motor's velocity.
    pub fn tstep(&mut self) -> (r: Result<u32, Error<U::TxError>>)
        ensures
            r matches Ok(v) ==> exists|d: u32|
                #[trigger] response_carries(0x12, d) && v == field_get(d, 0, 0xFFFFF),
            r matches Err(e) ==> transaction_failure(e, 0x12),
            final(self).spec_slave_addr() == old(self).spec_slave_addr(),
    {
        let reg = match self.read_register::<Tstep>() {
            Ok(v) => v,
            Err(e) => {
                return Err(e);
            },
        };
        Ok(reg.tstep())
    }

    /// The StallGuard load measurement.
    pub fn sg_result(&mut self) -> (r: Result<u16, Error<U::TxError>>)
        ensures
            r matches Ok(v) ==> exists|d: u32|
                #[trigger] response_carries(0x41, d) && v == field_get(d, 0, 0x3FF) as u16,
            r matches Err(e) ==> transaction_failure(e, 0x41),
            final(self).spec_slave_addr() == old(self).spec_slave_addr(),
    {
        let reg = match self.read_register::<SgResult>() {
            Ok(v) => v,
            Err(e) => {
                return Err(e);
            },
        };
        Ok(reg.result())
    }

    /// The microstep counter position, 0 to 1023.
    pub fn mscnt(&mut self) -> (r: Result<u16, Error<U::TxError>>)
        ensures
            r matches Ok(v) ==> exists|d: u32|
                #[trigger] response_carries(0x6A, d) && v == field_get(d, 0, 0x3FF) as u16,
            r matches Err(e) ==> transaction_failure(e, 0x6A),
            final(self).spec_slave_addr() == old(self).spec_slave_addr(),
    {
        let reg = match self.read_register::<Mscnt>() {
            Ok(v) => v,
            Err(e) => {
                return Err(e);
            },
        };
        Ok(reg.count())
    }

    /// Set the motor run and hold current scales, each 0 to 31, and the
    /// delay before dropping to the hold current, 0 to 15.
    pub fn set_current(&mut self, run_current: u8, hold_current: u8, hold_delay: u8) -> (r: Result<
        (),
        Error<U::TxError>,
    >)
        ensures
            r matches Err(e) ==> write_failure(e),
            final(self).spec_slave_addr() == old(self).spec_slave_addr(),
    {
        let mut reg = IholdIrun::new();
        reg.set_irun(run_current);
        reg.set_ihold(hold_current);
        reg.set_iholddelay(hold_delay);
        self.write_register(&reg)
    }

    /// Set the microstep resolution, keeping the rest of the chopper
    /// configuration as the chip reports it.
    pub fn set_microsteps(&mut self, resolution: MicrostepResolution) -> (r: Result<
        (),
        Error<U::TxError>,
    >)
        ensures
            r matches Err(e) ==> transaction_failure(e, 0x6C),
            final(self).spec_slave_addr() == old(self).spec_slave_addr(),
    {
        let mut chopconf = match self.read_register::<Chopconf>() {
            Ok(v) => v,
            Err(e) => {
                return Err(e);
            },
        };
        chopconf.set_microstep_resolution(resolution);
        self.write_register(&chopconf)
    }

    /// Enable the driver, restoring a nonzero off time if it was
    /// disabled, or disable it by forcing the off time to zero; the
    /// decision stands in [`chopconf_with_driver_enabled`].
    pub fn set_enabled(&mut self, enabled: bool) -> (r: Result<(), Error<U::TxError>>)
        ensures
            r matches Err(e) ==> transaction_failure(e, 0x6C),
            final(self).spec_slave_addr() == old(self).spec_slave_addr(),
    {
        let chopconf = match self.read_register::<Chopconf>() {
            Ok(v) => v,
            Err(e) => {
                return Err(e);
            },
        };
        let updated = chopconf_with_driver_enabled(chopconf, enabled);
        self.write_register(&updated)
    }

    /// Move the motor at `velocity` under UART control: positive
    /// forward, negative reverse, zero handing control back to the step
    /// input.
    pub fn set_velocity(&mut self, velocity: i32) -> (r: Result<(), Error<U::TxError>>)
        ensures
            r matches Err(e) ==> write_failure(e),
            final(self).spec_slave_addr() == old(self).spec_slave_addr(),
    {
        let mut reg = Vactual::new();
        reg.set_velocity(velocity);
        self.write_register(&reg)
    }

    /// Stop the motor by writing velocity zero.
    pub fn stop(&mut self) -> (r: Result<(), Error<U::TxError>>)
        ensures
            r matches Err(e) ==> write_failure(e),
            final(self).spec_slave_addr() == old(self).spec_slave_addr(),
    {
        self.set_velocity(0)
    }

    /// Set the StallGuard threshold; higher values detect stalls more
    /// readily.
    pub fn set_stall_threshold(&mut self, threshold: u8) -> (r: Result<(), Error<U::TxError>>)
        ensures
            r matches Err(e) ==> write_failure(e),
            final(self).spec_slave_addr() == old(self).spec_slave_addr(),
    {
        let mut reg = Sgthrs::new();
        reg.set_threshold(threshold);
        self.write_register(&reg)
    }

    /// Switch the chopper to StealthChop.
    pub fn enable_stealthchop(&mut self) -> (r: Result<(), Error<U::TxError>>)
        ensures
            r matches Err(e) ==> transaction_failure(e, 0x00),
            final(self).spec_slave_addr() == old(self).spec_slave_addr(),
    {
        let mut gconf = match self.read_register::<Gconf>() {
            Ok(v) => v,
            Err(e) => {
                return Err(e);
            },
        };
        gconf.set_en_spreadcycle(false);
        self.write_register(&gconf)
    }

    /// Switch the chopper to SpreadCycle.
    pub fn enable_spreadcycle(&mut self) -> (r: Result<(), Error<U::TxError>>)
        ensures
            r matches Err(e) ==> transaction_failure(e, 0x00),
            final(self).spec_slave_addr() == old(self).spec_slave_addr(),
    {
        let mut gconf = match self.read_register::<Gconf>() {
            Ok(v) => v,
            Err(e) => {
                return Err(e);
            },
        };
        gconf.set_en_spreadcycle(true);
        self.write_register(&gconf)
    }

    /// Whether the motor stands still, as the driver status reports it.
    pub fn is_standstill(&mut self) -> (r: Result<bool, Error<U::TxError>>)
        ensures
            r matches Ok(v) ==> exists|d: u32|
                #[trigger] response_carries(0x6F, d) && v == bit_set(d, 31),
            r matches Err(e) ==> transaction_failure(e, 0x6F),
            final(self).spec_slave_addr() == old(self).spec_slave_addr(),
    {
        let status = match self.drv_status() {
            Ok(v) => v,
            Err(e) => {
                return Err(e);
            },
        };
        Ok(status.stst())
    }

    /// Whether the overtemperature prewarning is flagged.
    pub fn is_overtemperature_warning(&mut self) -> (r: Result<bool, Error<U::TxError>>)
        ensures
            r matches Ok(v) ==> exists|d: u32|
                #[trigger] response_carries(0x6F, d) && v == bit_set(d, 0),
            r matches Err(e) ==> transaction_failure(e, 0x6F),
            final(self).spec_slave_addr() == old(self).spec_slave_addr(),
    {
        let status = match self.drv_status() {
            Ok(v) => v,
            Err(e) => {
                return Err(e);
            },
        };
        Ok(status.otpw())
    }

    /// Whether the overtemperature shutdown is flagged.
    pub fn is_overtemperature_shutdown(&mut self) -> (r: Result<bool, Error<U::TxError>>)
        ensures
            r matches Ok(v) ==> exists|d: u32|
                #[trigger] response_carries(0x6F, d) && v == bit_set(d, 1),
            r matches Err(e) ==> transaction_failure(e, 0x6F),
            final(self).spec_slave_addr() == old(self).spec_slave_addr(),
    {
        let status = match self.drv_status() {
            Ok(v) => v,
            Err(e) => {
                return Err(e);
            },
        };
        Ok(status.ot())
    }

    /// Switch CoolStep on: `semin` opens the load window, `semax`
    /// closes it, each clamped to 15 by [`coolstep_conf`]; a zero
    /// `semin` leaves CoolStep off.
    pub fn enable_coolstep(&mut self, semin: u8, semax: u8) -> (r: Result<(), Error<U::TxError>>)
        ensures
            r matches Err(e) ==> write_failure(e),
            final(self).spec_slave_addr() == old(self).spec_slave_addr(),
    {
        let coolconf = coolstep_conf(semin, semax);
        self.write_register(&coolconf)
    }

    /// Switch CoolStep off by writing a configuration whose minimum
    /// load threshold is zero.
    pub fn disable_coolstep(&mut self) -> (r: Result<(), Error<U::TxError>>)
        ensures
            r matches Err(e) ==> write_failure(e),
            final(self).spec_slave_addr() == old(self).spec_slave_addr(),
    {
        let coolconf = Coolconf::new();
        self.write_register(&coolconf)
    }

    /// Set the velocity threshold below which CoolStep and stall
    /// detection stay off.
    pub fn set_coolstep_threshold(&mut self, threshold: u32) -> (r: Result<(), Error<U::TxError>>)
        ensures
            r matches Err(e) ==> write_failure(e),
            final(self).spec_slave_addr() == old(self).spec_slave_addr(),
    {
        let mut tcoolthrs = Tcoolthrs::new();
        tcoolthrs.set_threshold(threshold);
        self.write_register(&tcoolthrs)
    }

    /// Set the velocity threshold above which the chopper leaves
    /// StealthChop for SpreadCycle.
    pub fn set_stealthchop_threshold(&mut self, threshold: u32) -> (r: Result<
        (),
        Error<U::TxError>,
    >)
        ensures
            r matches Err(e) ==> write_failure(e),
            final(self).spec_slave_addr() == old(self).spec_slave_addr(),
    {
        let mut tpwmthrs = Tpwmthrs::new();
        tpwmthrs.set_threshold(threshold);
        self.write_register(&tpwmthrs)
    }

    /// Configure stall detection for sensorless homing: set the
    /// StallGuard threshold and route the DIAG output to stall
    /// indication.
    pub fn configure_stall_detection(&mut self, threshold: u8) -> (r: Result<
        (),
        Error<U::TxError>,
    >)
        ensures
            r matches Err(e) ==> transaction_failure(e, 0x00),
            final(self).spec_slave_addr() == old(self).spec_slave_addr(),
    {
        match self.set_stall_threshold(threshold) {
            Ok(_) => (),
            Err(e) => {
                return Err(e);
            },
        };
        let mut gconf = match self.read_register::<Gconf>() {
            Ok(v) => v,
            Err(e) => {
                return Err(e);
            },
        };
        gconf.set_diag0_stall(true);
        match self.write_register(&gconf) {
            Ok(_) => (),
            Err(e) => {
                return Err(e);
            },
        };
        Ok(())
    }

    /// Whether the motor is stalled right now: the StallGuard result is
    /// zero. Only meaningful while the motor moves fast enough for
    /// stall detection.
    pub fn is_stalled(&mut self) -> (r: Result<bool, Error<U::TxError>>)
        ensures
            r matches Ok(v) ==> exists|d: u32|
                #[trigger] response_carries(0x41, d) && v == (field_get(d, 0, 0x3FF) as u16 == 0),
            r matches Err(e) ==> transaction_failure(e, 0x41),
            final(self).spec_slave_addr() == old(self).spec_slave_addr(),
    {
        let sg_result = match self.sg_result() {
            Ok(v) => v,
            Err(e) => {
                return Err(e);
            },
        };
        Ok(sg_result == 0)
    }

    /// The StallGuard load indicator, 0 (stalled) to 510 (no load).
    pub fn load_indicator(&mut self) -> (r: Result<u16, Error<U::TxError>>)
        ensures
            r matches Ok(v) ==> exists|d: u32|
                #[trigger] response_carries(0x41, d) && v == field_get(d, 0, 0x3FF) as u16,
            r matches Err(e) ==> transaction_failure(e, 0x41),
            final(self).spec_slave_addr() == old(self).spec_slave_addr(),
    {
        self.sg_result()
    }

    /// Configure the StealthChop PWM: amplitude offset and gradient,
    /// and the two automatic tuning switches, keeping the rest of the
    /// PWM configuration as the chip reports it.
    pub fn configure_stealthchop(
        &mut self,
        pwm_ofs: u8,
        pwm_grad: u8,
        autoscale: bool,
        autograd: bool,
    ) -> (r: Result<(), Error<U::TxError>>)
        ensures
            r matches Err(e) ==> transaction_failure(e, 0x70),
            final(self).spec_slave_addr() == old(self).spec_slave_addr(),
    {
        let mut pwmconf = match self.read_register::<Pwmconf>() {
            Ok(v) => v,
            Err(e) => {
                return Err(e);
            },
        };
        pwmconf.set_pwm_ofs(pwm_ofs);
        pwmconf.set_pwm_grad(pwm_grad);
        pwmconf.set_pwm_autoscale(autoscale);
        pwmconf.set_pwm_autograd(autograd);
        self.write_register(&pwmconf)
    }

    /// Select the sense voltage range: high sensitivity for low
    /// currents, or the high-current range.
    pub fn set_vsense(&mut self, high_sensitivity: bool) -> (r: Result<(), Error<U::TxError>>)
        ensures
            r matches Err(e) ==> transaction_failure(e, 0x6C),
            final(self).spec_slave_addr() == old(self).spec_slave_addr(),
    {
        let mut chopconf = match self.read_register::<Chopconf>() {
            Ok(v) => v,
            Err(e) => {
                return Err(e);
            },
        };
        chopconf.set_vsense(high_sensitivity);
        self.write_register(&chopconf)
    }

    /// Configure the chopper: off time, hysteresis start and end, and
    /// comparator blank time, each clamped to its field's range by
    /// [`chopconf_with_chopper`].
    pub fn configure_chopper(&mut self, toff: u8, hstrt: u8, hend: u8, tbl: u8) -> (r: Result<
        (),
        Error<U::TxError>,
    >)
        ensures
            r matches Err(e) ==> transaction_failure(e, 0x6C),
            final(self).spec_slave_addr() == old(self).spec_slave_addr(),
    {
        let chopconf = match self.read_register::<Chopconf>() {
            Ok(v) => v,
            Err(e) => {
                return Err(e);
            },
        };
        let updated = chopconf_with_chopper(chopconf, toff, hstrt, hend, tbl);
        self.write_register(&updated)
    }

    /// Enable or disable interpolation to the native microstep
    /// resolution.
    pub fn set_interpolation(&mut self, enabled: bool) -> (r: Result<(), Error<U::TxError>>)
        ensures
            r matches Err(e) ==> transaction_failure(e, 0x6C),
            final(self).spec_slave_addr() == old(self).spec_slave_addr(),
    {
        let mut chopconf = match self.read_register::<Chopconf>() {
            Ok(v) => v,
            Err(e) => {
                return Err(e);
            },
        };
        chopconf.set_intpol(enabled);
        self.write_register(&chopconf)
    }

    /// The current scale actually in use, 0 to 31, reflecting CoolStep
    /// adjustments.
    pub fn actual_current_scale(&mut self) -> (r: Result<u8, Error<U::TxError>>)
        ensures
            r matches Ok(v) ==> exists|d: u32|
                #[trigger] response_carries(0x6F, d) && v == field_get(d, 16, 0x1F) as u8,
            r matches Err(e) ==> transaction_failure(e, 0x6F),
            final(self).spec_slave_addr() == old(self).spec_slave_addr(),
    {
        let status = match self.drv_status() {
            Ok(v) => v,
            Err(e) => {
                return Err(e);
            },
        };
        Ok(status.cs_actual())
    }

    /// Whether the chopper currently runs in StealthChop mode.
    pub fn is_stealthchop_active(&mut self) -> (r: Result<bool, Error<U::TxError>>)
        ensures
            r matches Ok(v) ==> exists|d: u32|
                #[trigger] response_carries(0x6F, d) && v == bit_set(d, 30),
            r matches Err(e) ==> transaction_failure(e, 0x6F),
            final(self).spec_slave_addr() == old(self).spec_slave_addr(),
    {
        let status = match self.drv_status() {
            Ok(v) => v,
            Err(e) => {
                return Err(e);
            },
        };
        Ok(status.stealth())
    }

    /// One driver status read condensed to three answers: whether an
    /// error is flagged, whether a warning is flagged, and whether the
    /// motor is running.
    pub fn status_summary(&mut self) -> (r: Result<(bool, bool, bool), Error<U::TxError>>)
        ensures
            r matches Ok(v) ==> exists|d: u32|
                #[trigger] response_carries(0x6F, d) && v.0 == DrvStatus(d).spec_has_error() && v.1
                    == (bit_set(d, 0) || DrvStatus(d).spec_open_load()) && v.2 == !bit_set(d, 31),
            r matches Err(e) ==> transaction_failure(e, 0x6F),
            final(self).spec_slave_addr() == old(self).spec_slave_addr(),
    {
        let status = match self.drv_status() {
            Ok(v) => v,
            Err(e) => {
                return Err(e);
            },
        };
        let errors = status.has_error();
        let warnings = status.otpw() || status.open_load_detected();
        let running = !status.stst();
        Ok((errors, warnings, running))
    }
}

} // verus!
