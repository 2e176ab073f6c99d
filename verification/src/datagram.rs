//! The three fixed-size wire datagrams and the resumable stream parser.
//!
//! Wire format (all multi-byte integers most-significant byte first):
//!
//! - read request, 4 bytes: `sync | slave_addr | reg_addr | checksum`
//! - write request, 8 bytes: `sync | slave_addr | reg_addr+write bit | data | checksum`
//! - read response, 8 bytes: `sync | master sentinel | reg_addr | data | checksum`
//!
//! Each datagram's trailing checksum is always recomputed on construction
//! and covers every byte before it. A [`ReadResponse`] can only be built
//! by validation: its sync byte, master sentinel and checksum are checked
//! before the value exists, so no partially-valid response is ever held.
//!
//! [`ResponseReader`] reconstructs one response at a time from a byte
//! stream that may arrive in arbitrary fragments, skipping leading noise
//! and recovering from a sync byte that was not the start of a response.

use vstd::prelude::*;

use crate::crc;
use crate::error::Error;
use crate::registers::Address;

verus! {

/// Sync byte leading every datagram.
pub const SYNC: u8 = 0x05;

/// Source-address sentinel the chip puts in every read response.
pub const MASTER_ADDR: u8 = 0xFF;

/// Bit OR'd into the register address of a write request.
pub const WRITE_BIT: u8 = 0x80;

/// Mask of the 7-bit register address.
pub const ADDRESS_MASK: u8 = 0x7F;

/// The bytes of a read request for `reg_addr` to the slave `slave_addr`:
/// header, then the checksum of the header.
pub open spec fn read_request_bytes(slave_addr: u8, reg_addr: u8) -> Seq<u8> {
    let head = seq![SYNC, slave_addr, reg_addr];
    head.push(crc::crc_spec(head))
}

/// The bytes of a write request carrying `data`: the register address has
/// the write bit set, the payload is most-significant byte first, and the
/// checksum covers the seven bytes before it.
pub open spec fn write_request_bytes(slave_addr: u8, reg_addr: u8, data: u32) -> Seq<u8> {
    let head = seq![
        SYNC,
        slave_addr,
        (reg_addr & ADDRESS_MASK) | WRITE_BIT,
        (data >> 24) as u8,
        (data >> 16) as u8,
        (data >> 8) as u8,
        data as u8,
    ];
    head.push(crc::crc_spec(head))
}

/// The 32-bit value carried most-significant byte first at `i..i + 4`.
pub open spec fn be_u32_at(s: Seq<u8>, i: int) -> u32 {
    ((s[i] as u32) << 24) | ((s[i + 1] as u32) << 16) | ((s[i + 2] as u32) << 8) | (s[i + 3] as u32)
}

/// A well-formed read response: 8 bytes whose frame fields hold the fixed
/// values and whose trailing checksum matches its first seven bytes.
pub open spec fn valid_response(s: Seq<u8>) -> bool {
    &&& s.len() == 8
    &&& s[0] == SYNC
    &&& s[1] == MASTER_ADDR
    &&& crc::crc_spec(s.take(7)) == s[7]
}

/// The error an 8-byte buffer is rejected with, checking the sync byte
/// first, the master sentinel second and the checksum last.
pub open spec fn response_error<E>(s: Seq<u8>) -> Error<E>
    recommends
        s.len() == 8,
        !valid_response(s),
{
    if s[0] != SYNC {
        Error::InvalidSync
    } else if s[1] != MASTER_ADDR {
        Error::InvalidMasterAddress
    } else {
        Error::CrcMismatch
    }
}

/// Read request datagram (4 bytes).
#[derive(Debug, Clone, Copy, PartialEq, Eq)]
pub struct ReadRequest {
    bytes: [u8; 4],
}

impl View for ReadRequest {
    type V = Seq<u8>;

    closed spec fn view(&self) -> Seq<u8> {
        self.bytes@
    }
}

impl ReadRequest {
    /// Build a read request for the given slave and register address.
    ///
    /// The slave address is the caller's to keep in 0 to 3; it is stored
    /// as handed in.
    pub fn new(slave_addr: u8, reg_addr: Address) -> (r: Self)
        ensures
            r@ == read_request_bytes(slave_addr, reg_addr.spec_u8()),
    {
        Self::from_raw_addr_unmasked(slave_addr, reg_addr.as_u8())
    }

    /// Build a read request from a raw register address, masked to its
    /// low seven bits.
    pub fn from_raw_addr(slave_addr: u8, reg_addr: u8) -> (r: Self)
        ensures
            r@ == read_request_bytes(slave_addr, reg_addr & ADDRESS_MASK),
    {
        Self::from_raw_addr_unmasked(slave_addr, reg_addr & ADDRESS_MASK)
    }

    /// Build the datagram around an address byte stored as handed in.
    fn from_raw_addr_unmasked(slave_addr: u8, reg_addr: u8) -> (r: Self)
        ensures
            r@ == read_request_bytes(slave_addr, reg_addr),
    {
        let head: [u8; 3] = [SYNC, slave_addr, reg_addr];
        let c = crc::compute(head.as_slice());
        let bytes: [u8; 4] = [SYNC, slave_addr, reg_addr, c];
        proof {
            assert(head@ =~= seq![SYNC, slave_addr, reg_addr]);
            assert(bytes@ =~= read_request_bytes(slave_addr, reg_addr));
        }
        Self { bytes }
    }

    /// The request as a byte slice.
    pub fn as_bytes(&self) -> (r: &[u8])
        ensures
            r@ == self@,
    {
        self.bytes.as_slice()
    }

    /// The slave address.
    pub fn slave_addr(&self) -> (r: u8)
        ensures
            r == self@[1],
    {
        self.bytes[1]
    }

    /// The register address.
    pub fn reg_addr(&self) -> (r: u8)
        ensures
            r == self@[2],
    {
        self.bytes[2]
    }
}

/// Write request datagram (8 bytes).
#[derive(Debug, Clone, Copy, PartialEq, Eq)]
pub struct WriteRequest {
    bytes: [u8; 8],
}

impl View for WriteRequest {
    type V = Seq<u8>;

    closed spec fn view(&self) -> Seq<u8> {
        self.bytes@
    }
}

impl WriteRequest {
    /// Build a write request for the given slave, register address and
    /// payload.
    ///
    /// The slave address is the caller's to keep in 0 to 3; it is stored
    /// as handed in.
    pub fn new(slave_addr: u8, reg_addr: Address, data: u32) -> (r: Self)
        ensures
            r@ == write_request_bytes(slave_addr, reg_addr.spec_u8(), data),
    {
        Self::from_raw(slave_addr, reg_addr.as_u8(), data)
    }

    /// Build a write request from a raw register address and payload.
    pub fn from_raw(slave_addr: u8, reg_addr: u8, data: u32) -> (r: Self)
        ensures
            r@ == write_request_bytes(slave_addr, reg_addr, data),
    {
        let addr_byte = (reg_addr & ADDRESS_MASK) | WRITE_BIT;
        let d0 = (data >> 24) as u8;
        let d1 = (data >> 16) as u8;
        let d2 = (data >> 8) as u8;
        let d3 = data as u8;
        let head: [u8; 7] = [SYNC, slave_addr, addr_byte, d0, d1, d2, d3];
        let c = crc::compute(head.as_slice());
        let bytes: [u8; 8] = [SYNC, slave_addr, addr_byte, d0, d1, d2, d3, c];
        proof {
            assert(head@ =~= seq![SYNC, slave_addr, addr_byte, d0, d1, d2, d3]);
            assert(bytes@ =~= write_request_bytes(slave_addr, reg_addr, data));
        }
        Self { bytes }
    }

    /// The request as a byte slice.
    pub fn as_bytes(&self) -> (r: &[u8])
        ensures
            r@ == self@,
    {
        self.bytes.as_slice()
    }

    /// The slave address.
    pub fn slave_addr(&self) -> (r: u8)
        ensures
            r == self@[1],
    {
        self.bytes[1]
    }

    /// The register address, without the write bit.
    pub fn reg_addr(&self) -> (r: u8)
        ensures
            r == self@[2] & ADDRESS_MASK,
    {
        self.bytes[2] & ADDRESS_MASK
    }

    /// The 32-bit payload.
    pub fn data(&self) -> (r: u32)
        ensures
            r == be_u32_at(self@, 3),
    {
        ((self.bytes[3] as u32) << 24) | ((self.bytes[4] as u32) << 16) | ((self.bytes[5] as u32)
            << 8) | (self.bytes[6] as u32)
    }
}

/// Read response datagram (8 bytes), only constructible by validation.
#[derive(Debug, Clone, Copy, PartialEq, Eq)]
pub struct ReadResponse {
    bytes: [u8; 8],
}

impl View for ReadResponse {
    type V = Seq<u8>;

    closed spec fn view(&self) -> Seq<u8> {
        self.bytes@
    }
}

impl ReadResponse {
    /// Every value of this type is a well-formed response.
    #[verifier::type_invariant]
    spec fn wf(self) -> bool {
        valid_response(self.bytes@)
    }

    /// Validate an 8-byte buffer and wrap it as a response.
    ///
    /// The sync byte, the master sentinel and the checksum are checked in
    /// that order, and the first failing check names the error.
    pub fn from_bytes<E>(bytes: [u8; 8]) -> (r: Result<Self, Error<E>>)
        ensures
            valid_response(bytes@) ==> (r matches Ok(resp) && resp@ == bytes@),
            !valid_response(bytes@) ==> r == Result::<Self, Error<E>>::Err(
                response_error(bytes@),
            ),
    {
        if bytes[0] != SYNC {
            return Err(Error::InvalidSync);
        }
        if bytes[1] != MASTER_ADDR {
            return Err(Error::InvalidMasterAddress);
        }
        let whole = bytes.as_slice();
        proof {
            assert(bytes@.take(7) =~= whole@.take(whole@.len() - 1));
        }
        if !crc::verify(whole) {
            return Err(Error::CrcMismatch);
        }
        Ok(Self { bytes })
    }

    /// Validate the first 8 bytes of a slice as a response; fails with
    /// `BufferTooSmall` when fewer than 8 bytes are available.
    pub fn from_slice<E>(slice: &[u8]) -> (r: Result<Self, Error<E>>)
        ensures
            slice@.len() < 8 ==> r == Result::<Self, Error<E>>::Err(Error::BufferTooSmall),
            slice@.len() >= 8 && valid_response(slice@.take(8)) ==> (r matches Ok(resp)
                && resp@ == slice@.take(8)),
            slice@.len() >= 8 && !valid_response(slice@.take(8)) ==> r == Result::<
                Self,
                Error<E>,
            >::Err(response_error(slice@.take(8))),
    {
        if slice.len() < 8 {
            return Err(Error::BufferTooSmall);
        }
        let bytes: [u8; 8] = [
            slice[0],
            slice[1],
            slice[2],
            slice[3],
            slice[4],
            slice[5],
            slice[6],
            slice[7],
        ];
        proof {
            assert(bytes@ =~= slice@.take(8));
        }
        Self::from_bytes(bytes)
    }

    /// The register address the response carries.
    pub fn reg_addr(&self) -> (r: u8)
        ensures
            r == self@[2],
    {
        self.bytes[2]
    }

    /// The typed register address, if it names a known register.
    pub fn address(&self) -> (r: Option<Address>)
        ensures
            r == Address::spec_from_u8(self@[2]),
    {
        Address::from_u8(self.reg_addr())
    }

    /// The 32-bit payload.
    pub fn data(&self) -> (r: u32)
        ensures
            r == be_u32_at(self@, 3),
    {
        ((self.bytes[3] as u32) << 24) | ((self.bytes[4] as u32) << 16) | ((self.bytes[5] as u32)
            << 8) | (self.bytes[6] as u32)
    }

    /// The raw bytes of the response.
    pub fn as_bytes(&self) -> (r: &[u8; 8])
        ensures
            r@ == self@,
    {
        &self.bytes
    }

    /// Recheck the trailing checksum; true on every value of this type,
    /// since none exists without it.
    pub fn crc_valid(&self) -> (r: bool)
        ensures
            r,
    {
        let whole = self.bytes.as_slice();
        proof {
            use_type_invariant(self);
            assert(self.bytes@.take(7) =~= whole@.take(whole@.len() - 1));
        }
        crc::verify(whole)
    }
}

/// `r` with one more byte counted as consumed.
pub open spec fn after_one(r: (nat, Seq<u8>, nat, Option<Seq<u8>>)) -> (
    nat,
    Seq<u8>,
    nat,
    Option<Seq<u8>>,
) {
    (r.0, r.1, (r.2 + 1) as nat, r.3)
}

/// One whole run of the stream parser from cursor `index` and buffer
/// `buf` over `input`: the cursor and buffer it ends in, how many bytes
/// it consumed, and the 8-byte buffer it completed, if any. One byte is
/// handled per step:
///
/// - at cursor 0 every byte that is not the sync value is consumed and
///   discarded; the sync byte is buffered and advances the cursor;
/// - at cursor 1 the master sentinel advances the cursor; any other byte
///   sends the parser back to cursor 0, re-examining that same byte as a
///   possible new sync byte, so a sync byte is never dropped there;
/// - from cursor 2 on, bytes are buffered verbatim; the byte that fills
///   the buffer to 8 resets the cursor and completes the buffer, and the
///   run stops consuming there.
///
/// The result is `(cursor, buffer, consumed, completed)`.
pub open spec fn feed_spec(index: nat, buf: Seq<u8>, input: Seq<u8>) -> (
    nat,
    Seq<u8>,
    nat,
    Option<Seq<u8>>,
)
    recommends
        index < 8,
        buf.len() == 8,
    decreases input.len(),
{
    if input.len() == 0 {
        (index, buf, 0 as nat, None)
    } else {
        let b = input[0];
        let rest = input.skip(1);
        if index == 0 {
            if b == SYNC {
                after_one(feed_spec(1, buf.update(0, SYNC), rest))
            } else {
                after_one(feed_spec(0, buf, rest))
            }
        } else if index == 1 {
            if b == MASTER_ADDR {
                after_one(feed_spec(2, buf.update(1, MASTER_ADDR), rest))
            } else if b == SYNC {
                after_one(feed_spec(1, buf.update(0, SYNC), rest))
            } else {
                after_one(feed_spec(0, buf, rest))
            }
        } else {
            let buf2 = buf.update(index as int, b);
            if index >= 7 {
                (0 as nat, buf2, 1 as nat, Some(buf2))
            } else {
                after_one(feed_spec((index + 1) as nat, buf2, rest))
            }
        }
    }
}

/// `r` with `n` more bytes counted as consumed.
pub open spec fn shift_consumed(r: (nat, Seq<u8>, nat, Option<Seq<u8>>), n: nat) -> (
    nat,
    Seq<u8>,
    nat,
    Option<Seq<u8>>,
) {
    (r.0, r.1, (r.2 + n) as nat, r.3)
}

/// Stateful, resumable parser that reconstructs one read response from a
/// byte stream delivered in arbitrary fragments.
#[derive(Debug)]
pub struct ResponseReader {
    /// Cursor into the response buffer: how many bytes are held.
    index: usize,
    /// Accumulates the bytes of the response being reassembled.
    buffer: [u8; 8],
}

impl ResponseReader {
    /// The cursor stays strictly inside the buffer; reaching 8 buffered
    /// bytes completes a response at once and resets it.
    #[verifier::type_invariant]
    spec fn wf(self) -> bool {
        self.index < 8
    }

    /// The parser cursor: how many bytes of a response are buffered.
    pub closed spec fn spec_index(self) -> nat {
        self.index as nat
    }

    /// The parser's accumulation buffer.
    pub closed spec fn spec_buf(self) -> Seq<u8> {
        self.buffer@
    }

    /// A fresh parser, seeking a sync byte, with an 8-byte accumulator.
    pub fn new() -> (r: Self)
        ensures
            r.spec_index() == 0,
            r.spec_buf().len() == 8,
    {
        Self { index: 0, buffer: [0, 0, 0, 0, 0, 0, 0, 0] }
    }

    /// Force the cursor back to 0 without touching the buffered bytes;
    /// they are irrelevant once the cursor is 0.
    pub fn reset(&mut self)
        ensures
            final(self).spec_index() == 0,
            final(self).spec_buf() == old(self).spec_buf(),
            final(self).spec_buf().len() == 8,
    {
        self.index = 0;
    }

    /// Feed bytes to the parser: the returned count says how many were
    /// consumed, and the second component is the completed, validated
    /// response or its decode error, if the buffer filled up.
    ///
    /// The parser stops consuming as soon as one response completes;
    /// bytes after it stay with the caller. An empty input consumes
    /// nothing and completes nothing.
    #[verifier::loop_isolation(false)]
    pub fn feed<E>(&mut self, bytes: &[u8]) -> (r: (
        usize,
        Option<Result<ReadResponse, Error<E>>>,
    ))
        ensures
            r.0 <= bytes@.len(),
            final(self).spec_buf().len() == 8,
            ({
                let fs = feed_spec(old(self).spec_index(), old(self).spec_buf(), bytes@);
                &&& final(self).spec_index() == fs.0
                &&& final(self).spec_buf() == fs.1
                &&& r.0 == fs.2
                &&& (fs.3 is None ==> r.1 is None)
                &&& (fs.3 matches Some(done) ==> {
                    &&& valid_response(done) ==> (r.1 matches Some(res) && res matches Ok(resp)
                        && resp@ == done)
                    &&& !valid_response(done) ==> r.1 == Some(
                        Result::<ReadResponse, Error<E>>::Err(response_error::<E>(done)),
                    )
                })
            }),
    {
        proof {
            use_type_invariant(&*self);
        }
        let ghost orig_index = self.spec_index();
        let ghost orig_buf = self.spec_buf();
        let mut consumed: usize = 0;
        proof {
            assert(bytes@.skip(0) =~= bytes@);
        }
        loop
            invariant
                self.index < 8,
                consumed <= bytes@.len(),
                feed_spec(orig_index, orig_buf, bytes@) == shift_consumed(
                    feed_spec(
                        self.spec_index(),
                        self.spec_buf(),
                        bytes@.skip(consumed as int),
                    ),
                    consumed as nat,
                ),
            decreases bytes@.len() - consumed,
        {
            if consumed == bytes.len() {
                proof {
                    assert(bytes@.skip(consumed as int) =~= Seq::<u8>::empty());
                    assert(feed_spec(self.spec_index(), self.spec_buf(), bytes@.skip(consumed as int))
                        == (self.spec_index(), self.spec_buf(), 0 as nat, None::<Seq<u8>>));
                }
                return (consumed, None);
            }
            let ghost it_index = self.spec_index();
            let ghost it_buf = self.spec_buf();
            let ghost it_consumed = consumed as nat;
            let b = bytes[consumed];
            proof {
                assert(bytes@.skip(consumed as int)[0] == b);
                assert(bytes@.skip(consumed as int).skip(1) =~= bytes@.skip(consumed as int + 1));
            }
            if self.index == 0 {
                if b == SYNC {
                    self.buffer[0] = SYNC;
                    self.index = 1;
                }
                consumed = consumed + 1;
            } else if self.index == 1 {
                if b == MASTER_ADDR {
                    self.buffer[1] = MASTER_ADDR;
                    self.index = 2;
                } else if b == SYNC {
                    self.buffer[0] = SYNC;
                    self.index = 1;
                } else {
                    self.index = 0;
                }
                consumed = consumed + 1;
            } else {
                let i = self.index;
                self.buffer[i] = b;
                if i == 7 {
                    self.index = 0;
                    consumed = consumed + 1;
                    proof {
                        assert(self.spec_buf() =~= it_buf.update(7, b));
                        assert(feed_spec(it_index, it_buf, bytes@.skip(it_consumed as int)) == (
                            0 as nat,
                            self.spec_buf(),
                            1 as nat,
                            Some(self.spec_buf()),
                        ));
                    }
                    let result = ReadResponse::from_bytes::<E>(self.buffer);
                    return (consumed, Some(result));
                }
                self.index = i + 1;
                consumed = consumed + 1;
            }
        }
    }

    /// How many bytes of a response are currently buffered.
    pub fn buffered(&self) -> (r: usize)
        ensures
            r == self.spec_index(),
    {
        self.index
    }
}

impl Default for ResponseReader {
    /// A fresh parser, seeking a sync byte, with an 8-byte accumulator.
    fn default() -> (r: Self)
        ensures
            r.spec_index() == 0,
            r.spec_buf().len() == 8,
    {
        Self::new()
    }
}

/// The parser never counts more bytes than it was given, and it consumes
/// the whole input whenever no response completed.
pub proof fn lemma_feed_consumed(index: nat, buf: Seq<u8>, input: Seq<u8>)
    ensures
        feed_spec(index, buf, input).2 <= input.len(),
        feed_spec(index, buf, input).3 is None ==> feed_spec(index, buf, input).2 == input.len(),
    decreases input.len(),
{
    if input.len() == 0 {
    } else {
        let x = input[0];
        let rest = input.skip(1);
        if index == 0 {
            if x == SYNC {
                lemma_feed_consumed(1, buf.update(0, SYNC), rest);
            } else {
                lemma_feed_consumed(0, buf, rest);
            }
        } else if index == 1 {
            if x == MASTER_ADDR {
                lemma_feed_consumed(2, buf.update(1, MASTER_ADDR), rest);
            } else if x == SYNC {
                lemma_feed_consumed(1, buf.update(0, SYNC), rest);
            } else {
                lemma_feed_consumed(0, buf, rest);
            }
        } else {
            if index < 7 {
                lemma_feed_consumed((index + 1) as nat, buf.update(index as int, x), rest);
            }
        }
    }
}

/// Fragmentation invariance: as long as no response completed, feeding
/// `a` and then `b` leaves the parser exactly where feeding `a + b` in
/// one piece would, with the same total consumed count and the same
/// completed buffer. Splitting an input into fragments therefore never
/// changes what the parser does.
pub proof fn lemma_feed_split(index: nat, buf: Seq<u8>, a: Seq<u8>, b: Seq<u8>)
    requires
        feed_spec(index, buf, a).3 is None,
    ensures
        ({
            let r1 = feed_spec(index, buf, a);
            let r2 = feed_spec(r1.0, r1.1, b);
            feed_spec(index, buf, a + b) == (r2.0, r2.1, (r1.2 + r2.2) as nat, r2.3)
        }),
    decreases a.len(),
{
    if a.len() == 0 {
        assert(a + b =~= b);
    } else {
        let x = a[0];
        assert((a + b)[0] == x);
        assert((a + b).skip(1) =~= a.skip(1) + b);
        if index == 0 {
            if x == SYNC {
                lemma_feed_split(1, buf.update(0, SYNC), a.skip(1), b);
            } else {
                lemma_feed_split(0, buf, a.skip(1), b);
            }
        } else if index == 1 {
            if x == MASTER_ADDR {
                lemma_feed_split(2, buf.update(1, MASTER_ADDR), a.skip(1), b);
            } else if x == SYNC {
                lemma_feed_split(1, buf.update(0, SYNC), a.skip(1), b);
            } else {
                lemma_feed_split(0, buf, a.skip(1), b);
            }
        } else {
            if index >= 7 {
                assert(false);
            } else {
                lemma_feed_split((index + 1) as nat, buf.update(index as int, x), a.skip(1), b);
            }
        }
    }
}

/// Completing a response from cursor `index` takes at least the bytes
/// still missing from the buffer: shorter inputs complete nothing.
pub proof fn lemma_feed_needs_bytes(index: nat, buf: Seq<u8>, input: Seq<u8>)
    requires
        index < 8,
    ensures
        input.len() < 8 - index ==> feed_spec(index, buf, input).3 is None,
    decreases input.len(),
{
    if input.len() == 0 {
    } else {
        let x = input[0];
        let rest = input.skip(1);
        if index == 0 {
            if x == SYNC {
                lemma_feed_needs_bytes(1, buf.update(0, SYNC), rest);
            } else {
                lemma_feed_needs_bytes(0, buf, rest);
            }
        } else if index == 1 {
            if x == MASTER_ADDR {
                lemma_feed_needs_bytes(2, buf.update(1, MASTER_ADDR), rest);
            } else if x == SYNC {
                lemma_feed_needs_bytes(1, buf.update(0, SYNC), rest);
            } else {
                lemma_feed_needs_bytes(0, buf, rest);
            }
        } else {
            if index < 7 {
                lemma_feed_needs_bytes((index + 1) as nat, buf.update(index as int, x), rest);
            }
        }
    }
}

/// Fragmentation invariance, stated on one response: a complete
/// well-framed response fed to a fresh parser in two pieces, cut at any
/// point, consumes the same eight bytes in total and completes the same
/// buffer as feeding it whole.
pub proof fn lemma_feed_fragmented_response(buf: Seq<u8>, resp: Seq<u8>, cut: int)
    requires
        buf.len() == 8,
        resp.len() == 8,
        resp[0] == SYNC,
        resp[1] == MASTER_ADDR,
        0 <= cut < 8,
    ensures
        ({
            let r1 = feed_spec(0, buf, resp.take(cut));
            let r2 = feed_spec(r1.0, r1.1, resp.skip(cut));
            &&& r1.2 + r2.2 == 8
            &&& r2.3 == Some(resp)
        }),
{
    lemma_feed_needs_bytes(0, buf, resp.take(cut));
    lemma_feed_split(0, buf, resp.take(cut), resp.skip(cut));
    assert(resp.take(cut) + resp.skip(cut) =~= resp);
    lemma_feed_response(buf, resp);
}


/// Once a response has completed, the run has stopped: bytes appended to
/// the input change nothing.
pub proof fn lemma_feed_stops(index: nat, buf: Seq<u8>, a: Seq<u8>, b: Seq<u8>)
    requires
        feed_spec(index, buf, a).3 is Some,
    ensures
        feed_spec(index, buf, a + b) == feed_spec(index, buf, a),
    decreases a.len(),
{
    assert(a.len() > 0);
    let x = a[0];
    assert((a + b)[0] == x);
    assert((a + b).skip(1) =~= a.skip(1) + b);
    if index == 0 {
        if x == SYNC {
            lemma_feed_stops(1, buf.update(0, SYNC), a.skip(1), b);
        } else {
            lemma_feed_stops(0, buf, a.skip(1), b);
        }
    } else if index == 1 {
        if x == MASTER_ADDR {
            lemma_feed_stops(2, buf.update(1, MASTER_ADDR), a.skip(1), b);
        } else if x == SYNC {
            lemma_feed_stops(1, buf.update(0, SYNC), a.skip(1), b);
        } else {
            lemma_feed_stops(0, buf, a.skip(1), b);
        }
    } else {
        if index < 7 {
            lemma_feed_stops((index + 1) as nat, buf.update(index as int, x), a.skip(1), b);
        }
    }
}

/// The chunks of a fragmented input, put back together.
pub open spec fn concat_chunks(chunks: Seq<Seq<u8>>) -> Seq<u8>
    decreases chunks.len(),
{
    if chunks.len() == 0 {
        Seq::empty()
    } else {
        chunks[0] + concat_chunks(chunks.skip(1))
    }
}

/// Feeding a run of chunks one after the other, as a caller of `feed`
/// does: consumed counts add up, and the run stops at the first chunk
/// that completes a response.
pub open spec fn feed_chunks(index: nat, buf: Seq<u8>, chunks: Seq<Seq<u8>>) -> (
    nat,
    Seq<u8>,
    nat,
    Option<Seq<u8>>,
)
    decreases chunks.len(),
{
    if chunks.len() == 0 {
        (index, buf, 0 as nat, None)
    } else {
        let first = feed_spec(index, buf, chunks[0]);
        if first.3 is Some {
            first
        } else {
            shift_consumed(feed_chunks(first.0, first.1, chunks.skip(1)), first.2)
        }
    }
}

/// Fragmentation invariance in full: feeding any run of chunks leaves
/// the parser exactly where feeding their concatenation in one piece
/// would — same state, same total consumed count, same completed buffer,
/// whatever the split.
pub proof fn lemma_feed_chunks_concat(index: nat, buf: Seq<u8>, chunks: Seq<Seq<u8>>)
    ensures
        feed_chunks(index, buf, chunks) == feed_spec(index, buf, concat_chunks(chunks)),
    decreases chunks.len(),
{
    if chunks.len() == 0 {
        assert(concat_chunks(chunks) =~= Seq::<u8>::empty());
    } else {
        let first = feed_spec(index, buf, chunks[0]);
        if first.3 is Some {
            lemma_feed_stops(index, buf, chunks[0], concat_chunks(chunks.skip(1)));
        } else {
            lemma_feed_split(index, buf, chunks[0], concat_chunks(chunks.skip(1)));
            lemma_feed_chunks_concat(first.0, first.1, chunks.skip(1));
        }
    }
}

/// A complete well-framed response fed to a fresh parser in any number
/// of chunks is consumed whole — the consumed counts of the chunks sum
/// to 8 — and completes exactly that response, identically for every
/// split.
pub proof fn lemma_feed_chunked_response(buf: Seq<u8>, chunks: Seq<Seq<u8>>, resp: Seq<u8>)
    requires
        buf.len() == 8,
        concat_chunks(chunks) == resp,
        resp.len() == 8,
        resp[0] == SYNC,
        resp[1] == MASTER_ADDR,
    ensures
        feed_chunks(0, buf, chunks) == (0 as nat, resp, 8 as nat, Some(resp)),
{
    lemma_feed_chunks_concat(0, buf, chunks);
    lemma_feed_response(buf, resp);
}

/// A seeking parser silently consumes and discards any run of bytes that
/// contains no sync byte, buffering nothing and completing nothing.
pub proof fn lemma_feed_garbage(buf: Seq<u8>, noise: Seq<u8>)
    requires
        forall|i: int| 0 <= i < noise.len() ==> noise[i] != SYNC,
    ensures
        feed_spec(0, buf, noise) == (0 as nat, buf, noise.len(), None::<Seq<u8>>),
    decreases noise.len(),
{
    if noise.len() == 0 {
    } else {
        lemma_feed_garbage(buf, noise.skip(1));
    }
}

/// From cursor `index` in the accumulating range, exactly `8 - index`
/// further bytes are copied verbatim behind the `index` bytes already
/// held, and the full buffer is completed.
proof fn lemma_feed_fill(index: nat, buf: Seq<u8>, input: Seq<u8>)
    requires
        2 <= index <= 7,
        buf.len() == 8,
        input.len() == 8 - index,
    ensures
        feed_spec(index, buf, input) == (
            0 as nat,
            buf.take(index as int) + input,
            input.len(),
            Some(buf.take(index as int) + input),
        ),
    decreases input.len(),
{
    let x = input[0];
    let buf2 = buf.update(index as int, x);
    if index == 7 {
        assert(buf2 =~= buf.take(7) + input);
    } else {
        lemma_feed_fill((index + 1) as nat, buf2, input.skip(1));
        assert(buf2.take(index as int + 1) + input.skip(1) =~= buf.take(index as int) + input);
    }
}

/// A parser whose buffer already starts with the sync byte, sitting at
/// cursor 1 before an input that opens with the master sentinel, copies
/// the remaining seven bytes and completes the whole frame.
proof fn lemma_feed_finish_from_cursor_1(buf: Seq<u8>, input: Seq<u8>)
    requires
        buf.len() == 8,
        buf[0] == SYNC,
        input.len() == 7,
        input[0] == MASTER_ADDR,
    ensures
        feed_spec(1, buf, input) == (
            0 as nat,
            seq![SYNC] + input,
            7 as nat,
            Some(seq![SYNC] + input),
        ),
{
    let buf2 = buf.update(1, MASTER_ADDR);
    lemma_feed_fill(2, buf2, input.skip(1));
    assert(buf2.take(2) + input.skip(1) =~= seq![SYNC] + input);
}

/// A complete well-framed response fed to a seeking parser is consumed
/// whole, buffered byte for byte, and completed.
pub proof fn lemma_feed_response(buf: Seq<u8>, resp: Seq<u8>)
    requires
        buf.len() == 8,
        resp.len() == 8,
        resp[0] == SYNC,
        resp[1] == MASTER_ADDR,
    ensures
        feed_spec(0, buf, resp) == (0 as nat, resp, 8 as nat, Some(resp)),
{
    let buf1 = buf.update(0, SYNC);
    assert(resp.skip(1)[0] == resp[1]);
    lemma_feed_finish_from_cursor_1(buf1, resp.skip(1));
    assert(seq![SYNC] + resp.skip(1) =~= resp);
}

/// Resynchronization: any number of non-sync bytes followed by one
/// complete well-framed response costs exactly the noise plus the eight
/// response bytes, and yields exactly that response.
pub proof fn lemma_feed_resync(buf: Seq<u8>, noise: Seq<u8>, resp: Seq<u8>)
    requires
        buf.len() == 8,
        forall|i: int| 0 <= i < noise.len() ==> noise[i] != SYNC,
        resp.len() == 8,
        resp[0] == SYNC,
        resp[1] == MASTER_ADDR,
    ensures
        feed_spec(0, buf, noise + resp) == (
            0 as nat,
            resp,
            (noise.len() + 8) as nat,
            Some(resp),
        ),
{
    lemma_feed_garbage(buf, noise);
    lemma_feed_split(0, buf, noise, resp);
    lemma_feed_response(buf, resp);
}

/// False-sync recovery: a lone sync byte in front of a genuine response
/// does not cost the response its own leading sync byte. The parser
/// backs off when the sentinel fails to follow, re-examines that byte as
/// a new sync candidate, and still completes the genuine response, nine
/// bytes in.
pub proof fn lemma_feed_false_sync(buf: Seq<u8>, resp: Seq<u8>)
    requires
        buf.len() == 8,
        resp.len() == 8,
        resp[0] == SYNC,
        resp[1] == MASTER_ADDR,
    ensures
        feed_spec(0, buf, seq![SYNC] + resp) == (0 as nat, resp, 9 as nat, Some(resp)),
{
    let s = seq![SYNC] + resp;
    let buf1 = buf.update(0, SYNC);
    assert(s.len() == 9);
    assert(s[0] == SYNC);
    assert(s.skip(1) =~= resp);
    assert(feed_spec(0, buf, s) == after_one(feed_spec(1, buf1, resp)));
    // The second sync byte fails the sentinel check at cursor 1 and is
    // re-read as the start of the genuine frame.
    let buf2 = buf1.update(0, SYNC);
    assert(feed_spec(1, buf1, resp) == after_one(feed_spec(1, buf2, resp.skip(1))));
    assert(resp.skip(1)[0] == resp[1]);
    lemma_feed_finish_from_cursor_1(buf2, resp.skip(1));
    assert(seq![SYNC] + resp.skip(1) =~= resp);
    assert(feed_spec(1, buf2, resp.skip(1)) == (0 as nat, resp, 7 as nat, Some(resp)));
}

/// The low seven bits of the flagged address byte recover the register
/// address, and the write flag is always set in it.
proof fn lemma_write_flag_bits(a: u8)
    by (bit_vector)
    ensures
        a <= 0x7F ==> (((a & 0x7F) | 0x80) & 0x7F) == a,
        (((a & 0x7F) | 0x80) & 0x80) == 0x80u8,
{
}

/// Four bytes taken most-significant first out of a 32-bit value
/// reassemble to exactly that value.
proof fn lemma_be_u32_round_trip(d: u32)
    by (bit_vector)
    ensures
        ((((d >> 24) as u8) as u32) << 24) | ((((d >> 16) as u8) as u32) << 16) | ((((d >> 8)
            as u8) as u32) << 8) | (((d as u8) as u32)) == d,
{
}

/// Round-trip: for every slave address in 0 to 3, register address in
/// the 7-bit range and 32-bit payload, the encoded write request carries
/// the slave address in its second byte, the register address in the low
/// seven bits of its third byte with the write flag set, and the payload
/// most-significant byte first in bytes 3 to 6 — so the accessors of
/// [`WriteRequest`] recover all three exactly.
pub proof fn lemma_write_request_round_trip(slave_addr: u8, reg_addr: u8, data: u32)
    requires
        slave_addr <= 3,
        reg_addr <= 0x7F,
    ensures
        ({
            let s = write_request_bytes(slave_addr, reg_addr, data);
            &&& s.len() == 8
            &&& s[1] == slave_addr
            &&& (s[2] & ADDRESS_MASK) == reg_addr
            &&& (s[2] & WRITE_BIT) == WRITE_BIT
            &&& be_u32_at(s, 3) == data
        }),
{
    lemma_write_flag_bits(reg_addr);
    lemma_be_u32_round_trip(data);
}

/// Where a bit flip lands in an 8-byte buffer: the byte at `i / 8` has
/// its bit `i % 8` inverted, every other byte is untouched.
pub open spec fn flip_bit(s: Seq<u8>, i: int) -> Seq<u8> {
    s.update(i / 8, s[i / 8] ^ (1u8 << ((i % 8) as u8)))
}

/// Inverting one bit of a byte changes the byte.
proof fn lemma_flip_changes_byte(b: u8, k: u8)
    by (bit_vector)
    ensures
        k < 8 ==> (b ^ (1u8 << k)) != b,
{
}

/// Checksum sensitivity: flipping any single bit of a well-formed
/// response in its payload bytes 2 to 6 — without recomputing the
/// trailing checksum — makes decoding fail with exactly the checksum
/// error, never a framing error and never success.
pub proof fn lemma_checksum_sensitivity<E>(s: Seq<u8>, i: int)
    requires
        valid_response(s),
        16 <= i < 56,
    ensures
        !valid_response(flip_bit(s, i)),
        response_error::<E>(flip_bit(s, i)) == Error::<E>::CrcMismatch,
{
    let t = flip_bit(s, i);
    let j = i / 8;
    lemma_flip_changes_byte(s[j], (i % 8) as u8);
    assert(t[j] != s[j]);
    assert(s.take(7)[j] == s[j] && t.take(7)[j] == t[j]);
    crc::lemma_crc_single_byte_change(s.take(7), t.take(7), j);
}

/// Flipping a single bit in one of the two framing bytes of a
/// well-formed response is caught by the framing checks themselves: a
/// flip in the sync byte is reported as an invalid sync byte, a flip in
/// the sentinel byte as an invalid master address.
pub proof fn lemma_framing_sensitivity<E>(s: Seq<u8>, i: int)
    requires
        valid_response(s),
        0 <= i < 16,
    ensures
        !valid_response(flip_bit(s, i)),
        i < 8 ==> response_error::<E>(flip_bit(s, i)) == Error::<E>::InvalidSync,
        i >= 8 ==> response_error::<E>(flip_bit(s, i)) == Error::<E>::InvalidMasterAddress,
{
    let t = flip_bit(s, i);
    let j = i / 8;
    lemma_flip_changes_byte(s[j], (i % 8) as u8);
    assert(t[j] != s[j]);
}

} // verus!
