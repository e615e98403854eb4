//! The substances a cell can hold.

use crate::scalar::{FloatBits, Rgba, ONE_BITS, ZERO_BITS};
use vstd::prelude::*;

verus! {

/// One cell's record, laid out as every kernel reads it: identity, weight,
/// dispersion rate, one word of padding, colour.
#[derive(Clone, Copy, Debug, PartialEq, Eq)]
pub struct Matter {
    pub id: u32,
    pub weight: FloatBits,
    pub dispersion: u32,
    pub pad: u32,
    pub color: Rgba,
}

/// Words in one cell record.
pub const MATTER_WORDS: usize = 8;

impl Matter {
    /// A record with the padding word cleared.
    pub open spec fn spec_new(id: u32, color: Rgba, weight: FloatBits, dispersion: u32) -> Matter {
        Matter { id, weight, dispersion, pad: 0, color }
    }

    /// A record with the padding word cleared.
    #[verifier::when_used_as_spec(spec_new)]
    pub fn new(id: u32, color: Rgba, weight: FloatBits, dispersion: u32) -> (matter: Matter)
        ensures
            matter == Matter::spec_new(id, color, weight, dispersion),
    {
        Matter { id, color, weight, pad: 0, dispersion }
    }

    /// Nothing: opaque black, weight 1, does not disperse.
    pub open spec fn spec_empty() -> Matter {
        Matter::spec_new(
            0,
            Rgba {
                red: FloatBits(ZERO_BITS),
                green: FloatBits(ZERO_BITS),
                blue: FloatBits(ZERO_BITS),
                alpha: FloatBits(ONE_BITS),
            },
            FloatBits(ONE_BITS),
            0,
        )
    }

    /// Nothing: opaque black, weight 1, does not disperse.
    #[verifier::when_used_as_spec(spec_empty)]
    pub fn empty() -> (matter: Matter)
        ensures
            matter == Matter::spec_empty(),
    {
        Matter::new(
            0,
            Rgba {
                red: FloatBits(ZERO_BITS),
                green: FloatBits(ZERO_BITS),
                blue: FloatBits(ZERO_BITS),
                alpha: FloatBits(ONE_BITS),
            },
            FloatBits(ONE_BITS),
            0,
        )
    }

    /// Sand: half again as heavy as water, does not disperse.
    pub open spec fn spec_sand() -> Matter {
        Matter::spec_new(
            1,
            Rgba {
                red: FloatBits(0x3F42_C27A),
                green: FloatBits(0x3F32_B2C0),
                blue: FloatBits(0x3F00_8073),
                alpha: FloatBits(ONE_BITS),
            },
            FloatBits(0x3FC0_0000),
            0,
        )
    }

    /// Sand: half again as heavy as water, does not disperse.
    #[verifier::when_used_as_spec(spec_sand)]
    pub fn sand() -> (matter: Matter)
        ensures
            matter == Matter::spec_sand(),
    {
        Matter::new(
            1,
            Rgba {
                red: FloatBits(0x3F42_C27A),
                green: FloatBits(0x3F32_B2C0),
                blue: FloatBits(0x3F00_8073),
                alpha: FloatBits(ONE_BITS),
            },
            FloatBits(0x3FC0_0000),
            0,
        )
    }

    /// Water: weight 1, dispersion rate 10.
    pub open spec fn spec_water() -> Matter {
        Matter::spec_new(
            2,
            Rgba {
                red: FloatBits(0x3CA0_A527),
                green: FloatBits(0x3EAA_AA3B),
                blue: FloatBits(ONE_BITS),
                alpha: FloatBits(ONE_BITS),
            },
            FloatBits(ONE_BITS),
            10,
        )
    }

    /// Water: weight 1, dispersion rate 10.
    #[verifier::when_used_as_spec(spec_water)]
    pub fn water() -> (matter: Matter)
        ensures
            matter == Matter::spec_water(),
    {
        Matter::new(
            2,
            Rgba {
                red: FloatBits(0x3CA0_A527),
                green: FloatBits(0x3EAA_AA3B),
                blue: FloatBits(ONE_BITS),
                alpha: FloatBits(ONE_BITS),
            },
            FloatBits(ONE_BITS),
            10,
        )
    }

    /// Gas: a tenth the weight of water, dispersion rate 5.
    pub open spec fn spec_gas() -> Matter {
        Matter::spec_new(
            3,
            Rgba {
                red: FloatBits(0x3EFE_FF19),
                green: FloatBits(ONE_BITS),
                blue: FloatBits(ZERO_BITS),
                alpha: FloatBits(ONE_BITS),
            },
            FloatBits(0x3DCC_CCCD),
            5,
        )
    }

    /// Gas: a tenth the weight of water, dispersion rate 5.
    #[verifier::when_used_as_spec(spec_gas)]
    pub fn gas() -> (matter: Matter)
        ensures
            matter == Matter::spec_gas(),
    {
        Matter::new(
            3,
            Rgba {
                red: FloatBits(0x3EFE_FF19),
                green: FloatBits(ONE_BITS),
                blue: FloatBits(ZERO_BITS),
                alpha: FloatBits(ONE_BITS),
            },
            FloatBits(0x3DCC_CCCD),
            5,
        )
    }

    /// The record as the eight words a kernel reads, in order.
    pub open spec fn words(self) -> Seq<u32> {
        seq![
            self.id,
            self.weight.0,
            self.dispersion,
            self.pad,
            self.color.red.0,
            self.color.green.0,
            self.color.blue.0,
            self.color.alpha.0,
        ]
    }

    /// The substance a palette entry stands for: `None` for an identity that
    /// names no substance.
    pub fn from_id(id: u32) -> (matter: Option<Matter>)
        ensures
            matter == if id == 0 {
                Some(Matter::spec_empty())
            } else if id == 1 {
                Some(Matter::spec_sand())
            } else if id == 2 {
                Some(Matter::spec_water())
            } else if id == 3 {
                Some(Matter::spec_gas())
            } else {
                None
            },
    {
        if id == 0 {
            Some(Matter::empty())
        } else if id == 1 {
            Some(Matter::sand())
        } else if id == 2 {
            Some(Matter::water())
        } else if id == 3 {
            Some(Matter::gas())
        } else {
            None
        }
    }
}

} // verus!
