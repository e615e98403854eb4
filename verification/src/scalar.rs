//! Real-valued quantities as the sequencer sees them: it stores them and
//! hands them to kernels, and never computes with them.

use vstd::prelude::*;

verus! {

/// A single-precision number, held by its 32-bit pattern.
#[derive(Clone, Copy, Debug, PartialEq, Eq, Hash)]
pub struct FloatBits(pub u32);

/// The pattern of positive zero.
pub const ZERO_BITS: u32 = 0;

/// The pattern of one.
pub const ONE_BITS: u32 = 0x3F80_0000;

/// A position in grid-local space: origin at the grid's centre, the vertical
/// axis pointing the other way than on screen.
#[derive(Clone, Copy, Debug, PartialEq, Eq, Hash)]
pub struct CanvasPos {
    pub x: FloatBits,
    pub y: FloatBits,
}

impl CanvasPos {
    /// The grid's centre.
    pub open spec fn spec_zero() -> CanvasPos {
        CanvasPos { x: FloatBits(ZERO_BITS), y: FloatBits(ZERO_BITS) }
    }

    /// The grid's centre.
    #[verifier::when_used_as_spec(spec_zero)]
    pub fn zero() -> (pos: CanvasPos)
        ensures
            pos == CanvasPos::spec_zero(),
    {
        CanvasPos { x: FloatBits(ZERO_BITS), y: FloatBits(ZERO_BITS) }
    }
}

/// A display colour with four channels.
#[derive(Clone, Copy, Debug, PartialEq, Eq, Hash)]
pub struct Rgba {
    pub red: FloatBits,
    pub green: FloatBits,
    pub blue: FloatBits,
    pub alpha: FloatBits,
}

} // verus!
