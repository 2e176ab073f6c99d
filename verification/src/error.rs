//! Error taxonomy shared by the codec, the parser and the transaction
//! engine.
//!
//! Every failure is returned to the immediate caller; nothing in this
//! crate retries on its own. The taxonomy is flat: one variant per way a
//! transaction can go wrong, with the transport's own error carried
//! through unchanged in [`Error::Uart`].

use vstd::prelude::*;

verus! {

/// Errors that can occur while talking to the chip.
#[derive(Debug, Clone, Copy, PartialEq, Eq)]
pub enum Error<E> {
    /// The transport reported an error on a read, write or flush.
    Uart(E),
    /// The trailing checksum of a received response did not match the
    /// checksum of its first seven bytes.
    CrcMismatch,
    /// The first byte of a received response was not the sync byte 0x05.
    InvalidSync,
    /// The second byte of a received response was not the master
    /// sentinel 0xFF.
    InvalidMasterAddress,
    /// The register address in a response does not match the one that
    /// was requested.
    AddressMismatch {
        /// The register address that was requested.
        expected: u8,
        /// The register address the response carried.
        actual: u8,
    },
    /// A register address outside the known register map.
    UnknownAddress(u8),
    /// A slave address outside the valid range 0 to 3.
    InvalidSlaveAddress(u8),
    /// Fewer bytes were supplied than a fixed-size decode needs.
    BufferTooSmall,
    /// A read produced zero bytes without an error, or an expected
    /// datagram never completed.
    NoResponse,
}

impl<E> Error<E> {
    /// Replace the carried transport error by `f` of it; every other
    /// variant is kept as it is.
    pub fn map_uart<F: FnOnce(E) -> E2, E2>(self, f: F) -> (r: Error<E2>)
        requires
            self matches Error::Uart(e) ==> f.requires((e,)),
        ensures
            match self {
                Error::Uart(e) => r matches Error::Uart(e2) && f.ensures((e,), e2),
                Error::CrcMismatch => r == Error::<E2>::CrcMismatch,
                Error::InvalidSync => r == Error::<E2>::InvalidSync,
                Error::InvalidMasterAddress => r == Error::<E2>::InvalidMasterAddress,
                Error::AddressMismatch { expected, actual } => r == (Error::<E2>::AddressMismatch {
                    expected,
                    actual,
                }),
                Error::UnknownAddress(a) => r == Error::<E2>::UnknownAddress(a),
                Error::InvalidSlaveAddress(a) => r == Error::<E2>::InvalidSlaveAddress(a),
                Error::BufferTooSmall => r == Error::<E2>::BufferTooSmall,
                Error::NoResponse => r == Error::<E2>::NoResponse,
            },
    {
        match self {
            Error::Uart(e) => Error::Uart(f(e)),
            Error::CrcMismatch => Error::CrcMismatch,
            Error::InvalidSync => Error::InvalidSync,
            Error::InvalidMasterAddress => Error::InvalidMasterAddress,
            Error::AddressMismatch { expected, actual } => {
                Error::AddressMismatch { expected, actual }
            },
            Error::UnknownAddress(addr) => Error::UnknownAddress(addr),
            Error::InvalidSlaveAddress(addr) => Error::InvalidSlaveAddress(addr),
            Error::BufferTooSmall => Error::BufferTooSmall,
            Error::NoResponse => Error::NoResponse,
        }
    }
}

} // verus!
