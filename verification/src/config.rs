//! Physical orientation of the device.

use vstd::prelude::*;

verus! {

/// One of the four fixed rotations a macropad can be mounted in.
#[derive(Clone, Copy, Debug, PartialEq, Eq, Structural)]
pub enum Orientation {
    Normal,
    Clockwise,
    CounterClockwise,
    UpsideDown,
}

} // verus!
