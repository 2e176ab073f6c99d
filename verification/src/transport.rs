//! The byte sink and byte source a transaction runs over.
//!
//! The engine in [`crate::driver`] is written once against this
//! capability interface; a blocking UART, a loopback pipe, or any other
//! byte pipe can stand behind it. An implementation outside this crate
//! is not verified against these contracts: the engine's proofs hold for
//! implementations that honour them.

use vstd::prelude::*;

verus! {

/// A half-duplex byte pipe.
///
/// The three operations mirror what a UART offers: write some bytes,
/// flush them onto the line, and read whatever has arrived. A read that
/// returns no bytes although no error occurred means a stalled link; the
/// engine reports that as its own no-response failure.
pub trait Transport {
    /// The transport's own error type, carried through unchanged.
    type TxError;

    /// Write all of `data` to the line, or report the transport's error.
    fn write_bytes(&mut self, data: &[u8]) -> (r: Result<(), Self::TxError>);

    /// Push buffered output onto the line, so that everything written
    /// has actually been transmitted.
    fn flush(&mut self) -> (r: Result<(), Self::TxError>);

    /// Read whatever is available, up to `max` bytes; an empty result
    /// without an error means the link produced nothing. The engine cuts
    /// a longer result down to `max` bytes itself, so nothing rests on
    /// an implementation honouring the cap.
    fn read_bytes(&mut self, max: usize) -> (r: Result<Vec<u8>, Self::TxError>);
}

} // verus!
