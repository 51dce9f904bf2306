//! Device capability constants.

use vstd::prelude::*;

verus! {

/// Most chained key presses one button mapping may hold on the multi-layer
/// family of devices (product ids 0x8840 and 0x8842).
pub const MAX_KEY_PRESSES_884X: usize = 17;

/// Most chained key presses one button mapping may hold on the single-layer
/// family of devices (product id 0x8890).
pub const MAX_KEY_PRESSES_8890: usize = 5;

/// Largest accepted per-button delay, in milliseconds, on families that
/// enforce delays.
pub const MAX_DELAY: u16 = 6000;

/// Chained-key bound used when the target device family is unknown:
/// structural checks still run, but no family-specific capacity is enforced.
pub const MAX_KEY_PRESSES_UNKNOWN: usize = 0xff;

} // verus!
