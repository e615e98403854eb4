//! The draw node: it writes the brush stroke into the cells while the brush
//! is down, paused or not.

use crate::buffers::{BufferId, BufferRoles};
use crate::bytes::{is_image_of, words_to_bytes};
use crate::life::automata::{Queued, CELL_BUFFER_BYTES, SIZE_UNIFORM_BYTES};
use crate::life::constants::{GRID_H, GRID_W};
use crate::life::input::AutomataParams;
use crate::readiness::KernelState;
use crate::resources::{BindGroupLayoutEntry, BindingType, ComputePipelineDescriptor};
use crate::scalar::{CanvasPos, FloatBits};
use vstd::prelude::*;

verus! {

/// Bytes in the brush's parameter block.
pub const PUSH_CONSTANT_BYTES: u32 = 24;

/// The parameters of the brush: a stroke from one position to another,
/// with a radius and a shape.
#[derive(Clone, Copy, Debug, PartialEq, Eq)]
pub struct AutomataPushConstants {
    draw_start: CanvasPos,
    draw_end: CanvasPos,
    draw_radius: FloatBits,
    draw_square: u32,
}

impl AutomataPushConstants {
    /// The block of a stroke.
    pub closed spec fn spec_new(
        draw_start: CanvasPos,
        draw_end: CanvasPos,
        draw_radius: FloatBits,
        draw_square: bool,
    ) -> AutomataPushConstants {
        AutomataPushConstants {
            draw_radius,
            draw_end,
            draw_square: if draw_square {
                1
            } else {
                0
            },
            draw_start,
        }
    }

    /// The block as the six words the kernel reads, in order: start, end,
    /// radius, and 1 for a square brush or 0 for a round one.
    pub closed spec fn words(self) -> Seq<u32> {
        seq![
            self.draw_start.x.0,
            self.draw_start.y.0,
            self.draw_end.x.0,
            self.draw_end.y.0,
            self.draw_radius.0,
            self.draw_square,
        ]
    }

    /// The block of a stroke.
    #[verifier::when_used_as_spec(spec_new)]
    pub fn new(
        draw_start: CanvasPos,
        draw_end: CanvasPos,
        draw_radius: FloatBits,
        draw_square: bool,
    ) -> (block: AutomataPushConstants)
        ensures
            block == AutomataPushConstants::spec_new(
                draw_start,
                draw_end,
                draw_radius,
                draw_square,
            ),
            block.words() == seq![
                draw_start.x.0,
                draw_start.y.0,
                draw_end.x.0,
                draw_end.y.0,
                draw_radius.0,
                if draw_square {
                    1u32
                } else {
                    0u32
                },
            ],
    {
        AutomataPushConstants {
            draw_radius,
            draw_end,
            draw_square: if draw_square {
                1
            } else {
                0
            },
            draw_start,
        }
    }

    /// The block as words.
    pub fn as_words(&self) -> (words: Vec<u32>)
        ensures
            words@ == self.words(),
    {
        let mut words: Vec<u32> = Vec::new();
        words.push(self.draw_start.x.0);
        words.push(self.draw_start.y.0);
        words.push(self.draw_end.x.0);
        words.push(self.draw_end.y.0);
        words.push(self.draw_radius.0);
        words.push(self.draw_square);
        assert(words@ =~= self.words());
        words
    }

    /// The block as the bytes a push-constant update takes: its words in
    /// order, each in the machine's byte order.
    pub fn as_bytes(&self) -> (bytes: Vec<u8>)
        ensures
            is_image_of(bytes@, self.words()),
            bytes@.len() == PUSH_CONSTANT_BYTES,
    {
        let words = self.as_words();
        words_to_bytes(&words)
    }
}

/// The draw kernel and its layout.
#[derive(Clone, Debug, PartialEq, Eq)]
pub struct AutomataDrawPipeline {
    pub draw_pipeline: ComputePipelineDescriptor,
    pub draw_bind_group_layout: Vec<BindGroupLayoutEntry>,
}

/// The layout of the draw kernel: the size uniform at slot 0, the cells at
/// slot 1.
pub open spec fn draw_layout() -> Seq<BindGroupLayoutEntry> {
    seq![
        BindGroupLayoutEntry {
            binding: 0,
            ty: BindingType::UniformBuffer { min_binding_size: SIZE_UNIFORM_BYTES },
        },
        BindGroupLayoutEntry {
            binding: 1,
            ty: BindingType::StorageBuffer { min_binding_size: CELL_BUFFER_BYTES },
        },
    ]
}

impl AutomataDrawPipeline {
    /// What to compile for the draw kernel.
    pub open spec fn draw_descriptor() -> ComputePipelineDescriptor {
        ComputePipelineDescriptor {
            label: "Game of Life Draw Pipeline",
            shader: "shaders/draw.wgsl",
            entry_point: "draw",
            push_constant_range: Some((0u32, PUSH_CONSTANT_BYTES)),
        }
    }

    /// The node's kernel and layout.
    pub fn new() -> (pipeline: AutomataDrawPipeline)
        ensures
            pipeline.draw_pipeline == AutomataDrawPipeline::draw_descriptor(),
            pipeline.draw_bind_group_layout@ == draw_layout(),
    {
        let mut layout: Vec<BindGroupLayoutEntry> = Vec::new();
        layout.push(
            BindGroupLayoutEntry {
                binding: 0,
                ty: BindingType::UniformBuffer { min_binding_size: SIZE_UNIFORM_BYTES },
            },
        );
        layout.push(
            BindGroupLayoutEntry {
                binding: 1,
                ty: BindingType::StorageBuffer { min_binding_size: CELL_BUFFER_BYTES },
            },
        );
        assert(layout@ =~= draw_layout());
        AutomataDrawPipeline {
            draw_pipeline: ComputePipelineDescriptor {
                label: "Game of Life Draw Pipeline",
                shader: "shaders/draw.wgsl",
                entry_point: "draw",
                push_constant_range: Some((0u32, PUSH_CONSTANT_BYTES)),
            },
            draw_bind_group_layout: layout,
        }
    }
}

/// What the draw kernel finds bound after the size uniform: the frame's
/// source cells at slot 1.
#[derive(Clone, Copy, Debug, PartialEq, Eq, Hash)]
pub struct AutomataDrawBindGroup {
    pub cells: BufferId,
}

/// Reads the frame counter once and lays down the draw binding for that
/// frame.
pub fn queue_draw_bind_group(params: &AutomataParams) -> (queued: Queued<AutomataDrawBindGroup>)
    ensures
        queued.bind_group == (AutomataDrawBindGroup {
            cells: BufferRoles::at_frame(queued.frame).source,
        }),
{
    let frame = params.get_frame();
    Queued { frame, bind_group: AutomataDrawBindGroup { cells: BufferId::at(frame) } }
}

/// How far the draw node has come.
#[derive(Clone, Copy, Debug, PartialEq, Eq, Structural)]
pub enum AutomataDrawState {
    Loading,
    Update,
}

impl AutomataDrawState {
    /// The state as a kernel's readiness.
    pub open spec fn readiness(self) -> KernelState {
        match self {
            AutomataDrawState::Loading => KernelState::Loading,
            AutomataDrawState::Update => KernelState::Ready,
        }
    }
}

/// One recorded dispatch of the draw kernel.
#[derive(Clone, Copy, Debug, PartialEq, Eq)]
pub struct DrawPass {
    pub bind_group: AutomataDrawBindGroup,
    pub push_constants: AutomataPushConstants,
    pub workgroups: (u32, u32, u32),
}

/// What the node records in a frame: nothing while the brush is up or the
/// node is loading, else one dispatch over the whole grid with the stroke
/// from the pointer's position to its previous one.
pub open spec fn draw_pass(
    state: AutomataDrawState,
    params: AutomataParams,
    bind_group: AutomataDrawBindGroup,
) -> Option<DrawPass> {
    if params.is_drawing && state == AutomataDrawState::Update {
        Some(
            DrawPass {
                bind_group,
                push_constants: AutomataPushConstants::spec_new(
                    params.mouse_pos,
                    params.prev_mouse_pos,
                    params.radius,
                    params.use_square_brush,
                ),
                workgroups: (GRID_W, GRID_H, 1u32),
            },
        )
    } else {
        None
    }
}

/// The draw node. Its state changes only through `update`.
#[derive(Clone, Copy, Debug, PartialEq, Eq)]
pub struct AutomataDrawNode {
    state: AutomataDrawState,
}

impl Default for AutomataDrawNode {
    fn default() -> (node: AutomataDrawNode)
        ensures
            node.spec_state() == AutomataDrawState::Loading,
    {
        AutomataDrawNode { state: AutomataDrawState::Loading }
    }
}

impl AutomataDrawNode {
    /// How far the node has come.
    pub closed spec fn spec_state(&self) -> AutomataDrawState {
        self.state
    }

    /// How far the node has come.
    #[verifier::when_used_as_spec(spec_state)]
    pub fn state(&self) -> (state: AutomataDrawState)
        ensures
            state == self.spec_state(),
    {
        self.state
    }


    /// Moves the node on once its kernel is compiled.
    pub fn update(&mut self, draw_compiled: bool)
        ensures
            final(self).spec_state().readiness() == old(self).spec_state().readiness().after_poll(
                draw_compiled,
            ),
    {
        match self.state {
            AutomataDrawState::Loading => {
                if draw_compiled {
                    self.state = AutomataDrawState::Update;
                }
            },
            AutomataDrawState::Update => {},
        }
    }

    /// Records the node's dispatch for a frame, if it has one.
    pub fn run(&self, params: &AutomataParams, bind_group: &AutomataDrawBindGroup) -> (pass: Option<
        DrawPass,
    >)
        ensures
            pass == draw_pass(self.spec_state(), *params, *bind_group),
    {
        if params.is_drawing {
            match self.state {
                AutomataDrawState::Loading => None,
                AutomataDrawState::Update => {
                    let pc = AutomataPushConstants::new(
                        params.mouse_pos,
                        params.prev_mouse_pos,
                        params.radius,
                        params.use_square_brush,
                    );
                    Some(
                        DrawPass {
                            bind_group: *bind_group,
                            push_constants: pc,
                            workgroups: (GRID_W, GRID_H, 1),
                        },
                    )
                },
            }
        } else {
            None
        }
    }
}

} // verus!
