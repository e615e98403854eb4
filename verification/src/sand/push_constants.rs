//! The parameter block: the small record a dispatch hands to its kernel.
//!
//! A block is built once per frame from the input snapshot and the frame
//! counter, then adjusted before each pass that reads the movement step or
//! the dispersion direction and step. It lives for one dispatch.

use crate::bytes::{is_image_of, words_to_bytes};
use crate::sand::input::AutomataParams;
use crate::sand::matter::Matter;
use crate::scalar::{CanvasPos, FloatBits, Rgba, ZERO_BITS};
use vstd::prelude::*;

verus! {

/// Words in a parameter block.
pub const PUSH_CONSTANT_WORDS: usize = 20;

/// Bytes in a parameter block.
pub const PUSH_CONSTANT_BYTES: u32 = 80;

/// The parameters of one dispatch, in the order the kernels declare them.
#[derive(Clone, Copy, Debug, PartialEq, Eq)]
pub struct SandPushConstants {
    pub draw_start: CanvasPos,
    pub draw_end: CanvasPos,
    pub draw_radius: FloatBits,
    pub draw_square: u32,
    pub sim_step: u32,
    pub move_step: u32,
    pub dispersion_dir: u32,
    pub dispersion_step: u32,
    pub seed: FloatBits,
    pub draw_matter: u32,
    pub matter: Matter,
}

/// The frame counter as a kernel sees it: its low 32 bits.
pub open spec fn sim_step_of(frame: usize) -> u32 {
    (frame as int % 0x1_0000_0000) as u32
}

impl SandPushConstants {
    /// The block with every word zero.
    pub open spec fn zeroed() -> SandPushConstants {
        SandPushConstants {
            draw_start: CanvasPos::spec_zero(),
            draw_end: CanvasPos::spec_zero(),
            draw_radius: FloatBits(ZERO_BITS),
            draw_square: 0,
            sim_step: 0,
            move_step: 0,
            dispersion_dir: 0,
            dispersion_step: 0,
            seed: FloatBits(ZERO_BITS),
            draw_matter: 0,
            matter: Matter {
                id: 0,
                weight: FloatBits(ZERO_BITS),
                dispersion: 0,
                pad: 0,
                color: Rgba {
                    red: FloatBits(ZERO_BITS),
                    green: FloatBits(ZERO_BITS),
                    blue: FloatBits(ZERO_BITS),
                    alpha: FloatBits(ZERO_BITS),
                },
            },
        }
    }

    /// The block a frame starts from: the stroke runs from the pointer's
    /// position to its previous one, the per-pass words are zero.
    pub open spec fn at_frame(params: AutomataParams, seed: FloatBits, frame: usize)
        -> SandPushConstants {
        SandPushConstants {
            draw_radius: params.radius,
            sim_step: sim_step_of(frame),
            draw_start: params.mouse_pos,
            draw_end: params.prev_mouse_pos,
            draw_square: if params.use_square_brush {
                1
            } else {
                0
            },
            seed,
            matter: params.selected_matter,
            ..SandPushConstants::zeroed()
        }
    }

    /// The block with the movement step replaced.
    pub open spec fn with_move_step(self, move_step: u32) -> SandPushConstants {
        SandPushConstants { move_step, ..self }
    }

    /// The block with the dispersion direction replaced.
    pub open spec fn with_direction(self, direction: u32) -> SandPushConstants {
        SandPushConstants { dispersion_dir: direction, ..self }
    }

    /// The block with the dispersion direction and step replaced.
    pub open spec fn with_dispersion(self, direction: u32, step: u32) -> SandPushConstants {
        SandPushConstants { dispersion_dir: direction, dispersion_step: step, ..self }
    }

    /// The block as the twenty words a kernel reads, in order.
    pub open spec fn words(self) -> Seq<u32> {
        seq![
            self.draw_start.x.0,
            self.draw_start.y.0,
            self.draw_end.x.0,
            self.draw_end.y.0,
            self.draw_radius.0,
            self.draw_square,
            self.sim_step,
            self.move_step,
            self.dispersion_dir,
            self.dispersion_step,
            self.seed.0,
            self.draw_matter,
        ] + self.matter.words()
    }

    /// Builds the block a frame starts from.
    pub fn for_frame(params: &AutomataParams, seed: FloatBits, frame: usize) -> (block:
        SandPushConstants)
        ensures
            block == SandPushConstants::at_frame(*params, seed, frame),
    {
        let low: u64 = (frame as u64) % 0x1_0000_0000;
        SandPushConstants {
            draw_radius: params.radius,
            sim_step: low as u32,
            draw_start: params.mouse_pos,
            draw_end: params.prev_mouse_pos,
            draw_square: if params.use_square_brush {
                1
            } else {
                0
            },
            seed,
            matter: params.selected_matter,
            ..SandPushConstants::default()
        }
    }

    /// The block as words.
    pub fn as_words(&self) -> (words: Vec<u32>)
        ensures
            words@ == self.words(),
            words@.len() == PUSH_CONSTANT_WORDS,
    {
        let mut words: Vec<u32> = Vec::new();
        words.push(self.draw_start.x.0);
        words.push(self.draw_start.y.0);
        words.push(self.draw_end.x.0);
        words.push(self.draw_end.y.0);
        words.push(self.draw_radius.0);
        words.push(self.draw_square);
        words.push(self.sim_step);
        words.push(self.move_step);
        words.push(self.dispersion_dir);
        words.push(self.dispersion_step);
        words.push(self.seed.0);
        words.push(self.draw_matter);
        words.push(self.matter.id);
        words.push(self.matter.weight.0);
        words.push(self.matter.dispersion);
        words.push(self.matter.pad);
        words.push(self.matter.color.red.0);
        words.push(self.matter.color.green.0);
        words.push(self.matter.color.blue.0);
        words.push(self.matter.color.alpha.0);
        assert(words@ =~= self.words());
        words
    }

    /// The block as the bytes a push-constant update takes: its words in
    /// order, each in the machine's byte order.
    pub fn as_bytes(&self) -> (bytes: Vec<u8>)
        ensures
            is_image_of(bytes@, self.words()),
            bytes@.len() == PUSH_CONSTANT_BYTES,
    {
        let words = self.as_words();
        words_to_bytes(&words)
    }
}

impl Default for SandPushConstants {
    fn default() -> (block: SandPushConstants)
        ensures
            block == SandPushConstants::zeroed(),
    {
        SandPushConstants {
            draw_start: CanvasPos::zero(),
            draw_end: CanvasPos::zero(),
            draw_radius: FloatBits(ZERO_BITS),
            draw_square: 0,
            sim_step: 0,
            move_step: 0,
            dispersion_dir: 0,
            dispersion_step: 0,
            seed: FloatBits(ZERO_BITS),
            draw_matter: 0,
            matter: Matter {
                id: 0,
                weight: FloatBits(ZERO_BITS),
                dispersion: 0,
                pad: 0,
                color: Rgba {
                    red: FloatBits(ZERO_BITS),
                    green: FloatBits(ZERO_BITS),
                    blue: FloatBits(ZERO_BITS),
                    alpha: FloatBits(ZERO_BITS),
                },
            },
        }
    }
}

} // verus!
