//! Shared fixed constants of the chip.
//!
//! The unit conversions between currents, velocities and register values
//! rest on real-valued arithmetic and live outside the verified core;
//! what belongs here is the one clock constant they and the thresholds
//! are stated against.

use vstd::prelude::*;

verus! {

/// The chip's internal clock frequency in hertz: twelve megahertz.
pub const DEFAULT_FCLK: u32 = 12_000_000;

} // verus!
