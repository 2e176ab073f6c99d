//! Codec and stream parser behaviour, seen from outside.

use tmc2209::crc;
use tmc2209::datagram::WRITE_BIT;
use tmc2209::registers::Address;
use tmc2209::Error;
use tmc2209::ReadRequest;
use tmc2209::ReadResponse;
use tmc2209::ResponseReader;
use tmc2209::WriteRequest;
use tmc2209::MASTER_ADDR;
use tmc2209::SYNC;

fn valid_response_bytes(reg_addr: u8, data: u32) -> [u8; 8] {
    let d = data.to_be_bytes();
    let mut bytes = [SYNC, MASTER_ADDR, reg_addr, d[0], d[1], d[2], d[3], 0];
    bytes[7] = crc::compute(&bytes[..7]);
    bytes
}

#[test]
fn test_read_request() {
    let req = ReadRequest::new(0, Address::Gconf);
    assert_eq!(req.slave_addr(), 0);
    assert_eq!(req.reg_addr(), 0x00);
    assert_eq!(req.as_bytes().len(), 4);
}

#[test]
fn test_write_request() {
    let req = WriteRequest::new(0, Address::Gconf, 0x00000040);
    assert_eq!(req.slave_addr(), 0);
    assert_eq!(req.reg_addr(), 0x00);
    assert_eq!(req.data(), 0x00000040);
    assert_eq!(req.as_bytes().len(), 8);
}

#[test]
fn test_response_reader() {
    let mut response_bytes = [SYNC, MASTER_ADDR, 0x00, 0x00, 0x00, 0x00, 0x40, 0x00];
    response_bytes[7] = crc::compute(&response_bytes[..7]);

    let mut reader = ResponseReader::new();
    let (consumed, result) = reader.feed::<()>(&response_bytes);

    assert_eq!(consumed, 8);
    assert!(result.is_some());
    let response = result.unwrap().unwrap();
    assert_eq!(response.data(), 0x00000040);
}

#[test]
fn crc_known_values() {
    // Reference checksums computed by hand from the polynomial.
    assert_eq!(crc::compute(&[0x05, 0x00, 0x00]), 0x48);
    assert_eq!(crc::compute(&[0x05, 0xFF, 0x00, 0x00, 0x00, 0x00, 0x40]), 0x8A);
    assert_eq!(crc::compute(&[0x05, 0x00, 0x80, 0x00, 0x00, 0x00, 0x40]), 0x47);
    assert_eq!(crc::compute(&[]), 0x00);
    let frame = [0x05u8, 0xFF, 0x00, 0x00, 0x00, 0x00, 0x40, 0x8A];
    assert!(crc::verify(&frame));
    let bad = [0x05u8, 0xFF, 0x00, 0x00, 0x00, 0x00, 0x40, 0x8B];
    assert!(!crc::verify(&bad));
}

#[test]
fn read_request_has_trailing_checksum() {
    let req = ReadRequest::new(0, Address::Gconf);
    assert_eq!(req.as_bytes(), &[0x05, 0x00, 0x00, 0x48]);
    let raw = ReadRequest::from_raw_addr(1, 0xEF);
    // The raw address is masked to seven bits.
    assert_eq!(raw.reg_addr(), 0x6F);
    assert_eq!(raw.as_bytes()[0], SYNC);
}

#[test]
fn write_request_round_trip() {
    // The accessors recover slave address, unflagged register address
    // and payload for representative values of each.
    for &(slave, reg, data) in &[
        (0u8, 0x00u8, 0x00000040u32),
        (1, 0x10, 0xDEADBEEF),
        (2, 0x6F, 0x00001234),
        (3, 0x7F, 0xFFFFFFFF),
    ] {
        let req = WriteRequest::from_raw(slave, reg, data);
        assert_eq!(req.slave_addr(), slave);
        assert_eq!(req.reg_addr(), reg);
        assert_eq!(req.data(), data);
        // The write flag is always set in the third byte.
        assert_eq!(req.as_bytes()[2] & WRITE_BIT, WRITE_BIT);
    }
}

#[test]
fn decode_validates_in_order() {
    let good = valid_response_bytes(0x00, 0x40);
    let resp = ReadResponse::from_bytes::<()>(good).unwrap();
    assert_eq!(resp.data(), 0x40);
    assert_eq!(resp.reg_addr(), 0x00);
    assert!(resp.crc_valid());
    assert_eq!(resp.address(), Some(Address::Gconf));

    let mut bad_sync = good;
    bad_sync[0] = 0x06;
    assert_eq!(ReadResponse::from_bytes::<()>(bad_sync).unwrap_err(), Error::InvalidSync);

    let mut bad_master = good;
    bad_master[1] = 0x00;
    assert_eq!(
        ReadResponse::from_bytes::<()>(bad_master).unwrap_err(),
        Error::InvalidMasterAddress
    );

    let mut bad_crc = good;
    bad_crc[7] ^= 0x01;
    assert_eq!(ReadResponse::from_bytes::<()>(bad_crc).unwrap_err(), Error::CrcMismatch);
}

#[test]
fn checksum_sensitivity_over_every_payload_bit() {
    // Flipping any single bit of bytes 2 to 6 of a well-formed response,
    // without recomputing the checksum, fails with exactly the checksum
    // error; a flip in byte 0 or 1 is caught by the framing checks.
    let good = valid_response_bytes(0x6F, 0xA5C3_0F11);
    for bit in 0..56usize {
        let mut mutated = good;
        mutated[bit / 8] ^= 1 << (bit % 8);
        let got = ReadResponse::from_bytes::<()>(mutated).unwrap_err();
        if bit < 8 {
            assert_eq!(got, Error::InvalidSync);
        } else if bit < 16 {
            assert_eq!(got, Error::InvalidMasterAddress);
        } else {
            assert_eq!(got, Error::CrcMismatch);
        }
    }
}

#[test]
fn short_buffer_always_rejected() {
    let good = valid_response_bytes(0x00, 0x40);
    for len in 0..8usize {
        let r = ReadResponse::from_slice::<()>(&good[..len]);
        assert_eq!(r.unwrap_err(), Error::BufferTooSmall);
    }
    // Eight bytes or more succeed, using exactly the first eight.
    assert!(ReadResponse::from_slice::<()>(&good).is_ok());
    let mut nine = [0u8; 9];
    nine[..8].copy_from_slice(&good);
    nine[8] = 0xAA;
    let resp = ReadResponse::from_slice::<()>(&nine).unwrap();
    assert_eq!(resp.as_bytes(), &good);
}

#[test]
fn fragmentation_invariance() {
    // Any split of a complete valid response into chunks consumes the
    // same total and decodes the same value.
    let good = valid_response_bytes(0x12, 0x000FDE41);

    let mut whole = ResponseReader::new();
    let (n_whole, r_whole) = whole.feed::<()>(&good);
    let data_whole = r_whole.unwrap().unwrap().data();
    assert_eq!(n_whole, 8);

    // One byte at a time.
    let mut by_one = ResponseReader::new();
    let mut total = 0;
    let mut last = None;
    for i in 0..8 {
        let (n, r) = by_one.feed::<()>(&good[i..i + 1]);
        total += n;
        last = r;
    }
    assert_eq!(total, 8);
    assert_eq!(last.unwrap().unwrap().data(), data_whole);

    // Every two-chunk split.
    for cut in 1..8usize {
        let mut reader = ResponseReader::new();
        let (n1, r1) = reader.feed::<()>(&good[..cut]);
        assert_eq!(n1, cut);
        assert!(r1.is_none());
        assert_eq!(reader.buffered(), cut);
        let (n2, r2) = reader.feed::<()>(&good[cut..]);
        assert_eq!(n1 + n2, 8);
        assert_eq!(r2.unwrap().unwrap().data(), data_whole);
    }
}

#[test]
fn resynchronization_after_noise() {
    // N non-sync bytes followed by a valid response cost exactly N + 8
    // consumed bytes and still yield the response.
    let good = valid_response_bytes(0x41, 0x000001FE);
    for &n in &[0usize, 1, 5, 100] {
        let mut stream = vec![0xAAu8; n];
        stream.extend_from_slice(&good);
        let mut reader = ResponseReader::new();
        let (consumed, result) = reader.feed::<()>(&stream);
        assert_eq!(consumed, n + 8);
        let resp = result.unwrap().unwrap();
        assert_eq!(resp.data(), 0x000001FE);
        assert_eq!(resp.reg_addr(), 0x41);
    }
}

#[test]
fn false_sync_recovery() {
    // A lone sync byte in front of a genuine response does not cost the
    // response its own leading sync byte.
    let good = valid_response_bytes(0x00, 0x40);
    let mut stream = vec![SYNC];
    stream.extend_from_slice(&good);
    let mut reader = ResponseReader::new();
    let (consumed, result) = reader.feed::<()>(&stream);
    assert_eq!(consumed, 9);
    let resp = result.unwrap().unwrap();
    assert_eq!(resp.as_bytes(), &good);
}

#[test]
fn feed_empty_is_noop() {
    let mut reader = ResponseReader::new();
    let (consumed, result) = reader.feed::<()>(&[]);
    assert_eq!(consumed, 0);
    assert!(result.is_none());
    assert_eq!(reader.buffered(), 0);
}

#[test]
fn reader_reset_discards_progress() {
    let good = valid_response_bytes(0x00, 0x40);
    let mut reader = ResponseReader::new();
    let (n, r) = reader.feed::<()>(&good[..3]);
    assert_eq!(n, 3);
    assert!(r.is_none());
    assert_eq!(reader.buffered(), 3);
    reader.reset();
    assert_eq!(reader.buffered(), 0);
    // After the reset the parser seeks a fresh sync byte.
    let (n2, r2) = reader.feed::<()>(&good);
    assert_eq!(n2, 8);
    assert!(r2.unwrap().is_ok());
}

#[test]
fn corrupt_frame_surfaces_decode_error() {
    // A stream whose frame arrives intact but whose checksum byte was
    // corrupted surfaces the checksum error rather than retrying.
    let mut bad = valid_response_bytes(0x00, 0x40);
    bad[7] ^= 0xFF;
    let mut reader = ResponseReader::new();
    let (consumed, result) = reader.feed::<()>(&bad);
    assert_eq!(consumed, 8);
    assert_eq!(result.unwrap().unwrap_err(), Error::CrcMismatch);
    // The parser is back at cursor zero and can parse what follows.
    assert_eq!(reader.buffered(), 0);
}

#[test]
fn default_reader_is_fresh() {
    let mut reader = ResponseReader::default();
    assert_eq!(reader.buffered(), 0);
    let good = valid_response_bytes(0x6A, 0x000003FF);
    let (n, r) = reader.feed::<()>(&good);
    assert_eq!(n, 8);
    assert_eq!(r.unwrap().unwrap().data(), 0x3FF);
}
