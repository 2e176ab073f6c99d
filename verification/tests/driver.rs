//! Transaction engine behaviour over a scripted transport.

use tmc2209::crc;
use tmc2209::driver::accept_raw_response;
use tmc2209::driver::accept_response;
use tmc2209::driver::chopconf_with_chopper;
use tmc2209::driver::chopconf_with_driver_enabled;
use tmc2209::driver::coolstep_conf;
use tmc2209::Chopconf;
use tmc2209::ReadResponse;
use tmc2209::ReadRequest;
use tmc2209::WriteRequest;
use tmc2209::registers::Address;
use tmc2209::DrvStatus;
use tmc2209::Error;
use tmc2209::Register;
use tmc2209::Sgthrs;
use tmc2209::Tmc2209;
use tmc2209::Transport;
use tmc2209::MASTER_ADDR;
use tmc2209::SYNC;

fn response_bytes(reg_addr: u8, data: u32) -> [u8; 8] {
    let d = data.to_be_bytes();
    let mut bytes = [SYNC, MASTER_ADDR, reg_addr, d[0], d[1], d[2], d[3], 0];
    bytes[7] = crc::compute(&bytes[..7]);
    bytes
}

/// A line that behaves like the chip: every written byte is echoed back
/// verbatim, and a read request is answered with a correctly
/// checksummed reply carrying `read_data` for the requested register.
struct EchoChip {
    /// Bytes waiting to be read back: echoes first, then replies.
    pending: Vec<u8>,
    /// The payload every read request is answered with.
    read_data: u32,
    /// A register address override for replies; `None` answers with the
    /// requested address.
    reply_addr: Option<u8>,
    /// How many bytes a single read hands out at most.
    read_chunk: usize,
}

impl EchoChip {
    fn new(read_data: u32) -> Self {
        EchoChip { pending: Vec::new(), read_data, reply_addr: None, read_chunk: usize::MAX }
    }
}

impl Transport for EchoChip {
    type TxError = ();

    fn write_bytes(&mut self, data: &[u8]) -> Result<(), ()> {
        // The half-duplex line reflects everything.
        self.pending.extend_from_slice(data);
        // A 4-byte frame is a read request; queue its reply after the echo.
        if data.len() == 4 && data[0] == SYNC && data[2] & 0x80 == 0 {
            let addr = self.reply_addr.unwrap_or(data[2]);
            self.pending.extend_from_slice(&response_bytes(addr, self.read_data));
        }
        Ok(())
    }

    fn flush(&mut self) -> Result<(), ()> {
        Ok(())
    }

    fn read_bytes(&mut self, max: usize) -> Result<Vec<u8>, ()> {
        let n = max.min(self.pending.len()).min(self.read_chunk);
        let out: Vec<u8> = self.pending.drain(..n).collect();
        Ok(out)
    }
}

/// A line that always fails.
struct DeadLine;

impl Transport for DeadLine {
    type TxError = u8;

    fn write_bytes(&mut self, _data: &[u8]) -> Result<(), u8> {
        Err(42)
    }

    fn flush(&mut self) -> Result<(), u8> {
        Ok(())
    }

    fn read_bytes(&mut self, _max: usize) -> Result<Vec<u8>, u8> {
        Err(42)
    }
}

/// A line that accepts writes but never produces a byte.
struct SilentLine;

impl Transport for SilentLine {
    type TxError = ();

    fn write_bytes(&mut self, _data: &[u8]) -> Result<(), ()> {
        Ok(())
    }

    fn flush(&mut self) -> Result<(), ()> {
        Ok(())
    }

    fn read_bytes(&mut self, _max: usize) -> Result<Vec<u8>, ()> {
        Ok(Vec::new())
    }
}

#[test]
fn end_to_end_write_then_read() {
    // A write transaction on the status register address followed by a
    // read transaction on the same address, over a transport that echoes
    // everything and answers reads correctly, both succeed.
    let chip = EchoChip::new(0x0000_0000);
    let mut driver = Tmc2209::new(chip, 0);
    assert_eq!(driver.slave_addr(), 0);

    driver.write_raw(0x6F, 0x0000_0000).unwrap();
    let value = driver.read_raw(0x6F).unwrap();
    assert_eq!(value, 0x0000_0000);
    // Nothing is left pending on the line after a full transaction.
    assert!(driver.release().pending.is_empty());
}

#[test]
fn read_register_checks_address() {
    let chip = EchoChip::new(0x8000_0000);
    let mut driver = Tmc2209::new(chip, 0);
    let status: DrvStatus = driver.read_register().unwrap();
    assert!(status.stst());

    // A reply carrying the wrong register address is a distinct failure.
    let mut wrong = EchoChip::new(0);
    wrong.reply_addr = Some(0x12);
    let mut driver = Tmc2209::new(wrong, 0);
    let got = driver.read_register::<DrvStatus>().unwrap_err();
    assert_eq!(got, Error::AddressMismatch { expected: 0x6F, actual: 0x12 });
}

#[test]
fn read_raw_checks_the_reply_address() {
    // A reply carrying a different register address fails the raw read
    // too, with the masked request address as the expected side.
    let mut wrong = EchoChip::new(0);
    wrong.reply_addr = Some(0x12);
    let mut driver = Tmc2209::new(wrong, 0);
    let got = driver.read_raw(0x6F).unwrap_err();
    assert_eq!(got, Error::AddressMismatch { expected: 0x6F, actual: 0x12 });

    // The raw address is masked to seven bits before the comparison, so
    // a request made with the write bit set still matches its reply.
    let chip = EchoChip::new(0xABCD_0123);
    let mut driver = Tmc2209::new(chip, 1);
    assert_eq!(driver.read_raw(0xEF).unwrap(), 0xABCD_0123);
}

#[test]
fn acceptance_splits_on_the_reply_address() {
    let matching = ReadResponse::from_bytes::<()>(response_bytes(0x6F, 0x8000_0000)).unwrap();
    let status = accept_response::<DrvStatus, ()>(&matching).unwrap();
    assert!(status.stst());
    assert_eq!(accept_raw_response::<()>(0x6F, &matching).unwrap(), 0x8000_0000);
    assert_eq!(accept_raw_response::<()>(0xEF, &matching).unwrap(), 0x8000_0000);

    let other = ReadResponse::from_bytes::<()>(response_bytes(0x12, 0)).unwrap();
    assert_eq!(
        accept_response::<DrvStatus, ()>(&other).unwrap_err(),
        Error::AddressMismatch { expected: 0x6F, actual: 0x12 }
    );
    assert_eq!(
        accept_raw_response::<()>(0x6F, &other).unwrap_err(),
        Error::AddressMismatch { expected: 0x6F, actual: 0x12 }
    );
}

#[test]
fn driver_enable_decision_touches_only_toff() {
    let running = Chopconf::from_raw(0x1000_0155);
    // Disabling forces the off time to zero and keeps everything else.
    let off = chopconf_with_driver_enabled(running, false);
    assert_eq!(off.toff(), 0);
    assert_eq!(off.raw(), 0x1000_0150);
    // Enabling a disabled driver restores the default off time 3.
    let on = chopconf_with_driver_enabled(off, true);
    assert_eq!(on.toff(), 3);
    assert_eq!(on.raw(), 0x1000_0153);
    // Enabling an already-enabled driver changes nothing.
    assert_eq!(chopconf_with_driver_enabled(running, true).raw(), running.raw());
}

#[test]
fn write_builders_clamp_their_fields() {
    // The CoolStep window bounds are clamped to their 4-bit fields; the
    // step selectors are forced to smallest-up, largest-down.
    let cc = coolstep_conf(40, 2);
    assert_eq!(cc.semin(), 15);
    assert_eq!(cc.semax(), 2);
    assert_eq!(cc.seup(), 0);
    assert_eq!(cc.sedn(), 0);
    assert_eq!(coolstep_conf(4, 99).semax(), 15);

    // The chopper settings are clamped to their fields and everything
    // else in the read-back value is kept.
    let base = Chopconf::from_raw(0x1000_0000);
    let tuned = chopconf_with_chopper(base, 99, 99, 99, 99);
    assert_eq!(tuned.toff(), 15);
    assert_eq!(tuned.hstrt(), 7);
    assert_eq!(tuned.hend(), 15);
    assert_eq!(tuned.tbl(), 3);
    assert!(tuned.intpol());
    let exact = chopconf_with_chopper(base, 5, 4, 1, 2);
    assert_eq!(exact.toff(), 5);
    assert_eq!(exact.hstrt(), 4);
    assert_eq!(exact.hend(), 1);
    assert_eq!(exact.tbl(), 2);
}

#[test]
fn read_survives_fragmented_transport() {
    // A transport that hands out one byte per read still completes the
    // transaction: the accumulated count survives across calls.
    let mut chip = EchoChip::new(0x0000_1234);
    chip.read_chunk = 1;
    let mut driver = Tmc2209::new(chip, 2);
    let value = driver.read_raw(0x41).unwrap();
    assert_eq!(value, 0x0000_1234);
}

#[test]
fn transport_errors_propagate() {
    let mut driver = Tmc2209::new(DeadLine, 1);
    assert_eq!(driver.read_raw(0x00).unwrap_err(), Error::Uart(42));
    assert_eq!(driver.write_raw(0x00, 7).unwrap_err(), Error::Uart(42));
    assert!(!driver.is_connected());
}

#[test]
fn stalled_link_is_no_response() {
    let mut driver = Tmc2209::new(SilentLine, 0);
    assert_eq!(driver.read_raw(0x6F).unwrap_err(), Error::NoResponse);
    assert_eq!(driver.write_raw(0x00, 0).unwrap_err(), Error::NoResponse);
}

#[test]
fn corrupted_reply_is_crc_mismatch() {
    // The echo comes back intact but the reply's checksum byte is wrong.
    struct Corruptor {
        pending: Vec<u8>,
    }
    impl Transport for Corruptor {
        type TxError = ();

        fn write_bytes(&mut self, data: &[u8]) -> Result<(), ()> {
            self.pending.extend_from_slice(data);
            if data.len() == 4 && data[2] & 0x80 == 0 {
                let mut reply = response_bytes(data[2], 0x40);
                reply[7] ^= 0x10;
                self.pending.extend_from_slice(&reply);
            }
            Ok(())
        }

        fn flush(&mut self) -> Result<(), ()> {
            Ok(())
        }

        fn read_bytes(&mut self, max: usize) -> Result<Vec<u8>, ()> {
            let n = max.min(self.pending.len());
            Ok(self.pending.drain(..n).collect())
        }
    }
    let mut driver = Tmc2209::new(Corruptor { pending: Vec::new() }, 0);
    assert_eq!(driver.read_raw(0x00).unwrap_err(), Error::CrcMismatch);
}

#[test]
fn convenience_methods_run_the_same_protocol() {
    let chip = EchoChip::new(0x0000_00FE);
    let mut driver = Tmc2209::new(chip, 0);
    assert!(driver.is_connected());
    assert_eq!(driver.ifcnt().unwrap(), 0xFE);
    assert_eq!(driver.sg_result().unwrap(), 0x00FE);
    assert!(!driver.is_stalled().unwrap());
    assert_eq!(driver.load_indicator().unwrap(), 0x00FE);
    assert_eq!(driver.mscnt().unwrap(), 0x00FE);
    assert_eq!(driver.tstep().unwrap(), 0xFE);
    driver.set_current(16, 8, 1).unwrap();
    driver.set_velocity(-1000).unwrap();
    driver.stop().unwrap();
    driver.set_stall_threshold(50).unwrap();
    driver.enable_coolstep(4, 2).unwrap();
    driver.disable_coolstep().unwrap();
    driver.set_coolstep_threshold(0xFFFFF).unwrap();
    driver.set_stealthchop_threshold(0).unwrap();
    driver.clear_gstat().unwrap();
}

#[test]
fn read_modify_write_methods() {
    let chip = EchoChip::new(0x0000_0040);
    let mut driver = Tmc2209::new(chip, 3);
    driver.enable_stealthchop().unwrap();
    driver.enable_spreadcycle().unwrap();
    driver.set_enabled(true).unwrap();
    driver.set_enabled(false).unwrap();
    driver.set_vsense(true).unwrap();
    driver.set_interpolation(true).unwrap();
    driver.configure_chopper(5, 4, 1, 2).unwrap();
    driver.configure_stealthchop(36, 14, true, true).unwrap();
    driver.configure_stall_detection(100).unwrap();
    driver.set_microsteps(tmc2209::MicrostepResolution::M16).unwrap();
}

#[test]
fn status_queries() {
    let chip = EchoChip::new(0x8000_0001);
    let mut driver = Tmc2209::new(chip, 0);
    assert!(driver.is_standstill().unwrap());
    assert!(driver.is_overtemperature_warning().unwrap());
    assert!(!driver.is_overtemperature_shutdown().unwrap());
    assert!(!driver.is_stealthchop_active().unwrap());
    assert_eq!(driver.actual_current_scale().unwrap(), 0);
    let (errors, warnings, running) = driver.status_summary().unwrap();
    assert!(!errors);
    assert!(warnings);
    assert!(!running);
    let gstat = driver.gstat().unwrap();
    assert!(gstat.reset());
    let ioin = driver.ioin().unwrap();
    assert!(ioin.enn());
    let status = driver.drv_status().unwrap();
    assert!(status.otpw());
}

#[test]
fn slave_addr_is_kept_and_settable() {
    let chip = EchoChip::new(0);
    let mut driver = Tmc2209::new(chip, 2);
    assert_eq!(driver.slave_addr(), 2);
    driver.uart_mut().read_data = 7;
    assert_eq!(driver.uart().read_data, 7);
    driver.set_slave_addr(3);
    assert_eq!(driver.slave_addr(), 3);
    // The request datagrams carry the slave address.
    driver.write_raw(0x00, 0).unwrap();
    assert_eq!(driver.uart().pending.len(), 0);
}

#[test]
fn map_uart_transforms_only_the_transport_error() {
    let e: Error<u8> = Error::Uart(7);
    assert_eq!(e.map_uart(|x| x as u32 + 1), Error::Uart(8u32));
    let e: Error<u8> = Error::CrcMismatch;
    assert_eq!(e.map_uart(|x| x as u32), Error::CrcMismatch);
    let e: Error<u8> = Error::AddressMismatch { expected: 1, actual: 2 };
    assert_eq!(e.map_uart(|x| x as u32), Error::AddressMismatch { expected: 1, actual: 2 });
    let e: Error<u8> = Error::UnknownAddress(9);
    assert_eq!(e.map_uart(|x| x as u32), Error::UnknownAddress(9));
    let e: Error<u8> = Error::InvalidSlaveAddress(5);
    assert_eq!(e.map_uart(|x| x as u32), Error::InvalidSlaveAddress(5));
    let e: Error<u8> = Error::BufferTooSmall;
    assert_eq!(e.map_uart(|x| x as u32), Error::BufferTooSmall);
    let e: Error<u8> = Error::NoResponse;
    assert_eq!(e.map_uart(|x| x as u32), Error::NoResponse);
    let e: Error<u8> = Error::InvalidSync;
    assert_eq!(e.map_uart(|x| x as u32), Error::InvalidSync);
    let e: Error<u8> = Error::InvalidMasterAddress;
    assert_eq!(e.map_uart(|x| x as u32), Error::InvalidMasterAddress);
}

#[test]
fn request_constructors_take_typed_addresses() {
    let req = ReadRequest::new(1, Address::DrvStatus);
    assert_eq!(req.reg_addr(), 0x6F);
    assert_eq!(req.slave_addr(), 1);
    let wr = WriteRequest::new(1, Address::Sgthrs, 0x32);
    assert_eq!(wr.reg_addr(), Sgthrs::address().as_u8());
    assert_eq!(wr.data(), 0x32);
}
