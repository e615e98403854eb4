//! The colour node: it turns the cells into display colours, every frame,
//! paused or not.

use crate::buffers::{BufferId, BufferRoles, SurfaceId};
use crate::life::automata::{Queued, CELL_BUFFER_BYTES, SIZE_UNIFORM_BYTES};
use crate::life::constants::{GRID_H, GRID_W};
use crate::life::input::AutomataParams;
use crate::readiness::KernelState;
use crate::resources::{BindGroupLayoutEntry, BindingType, ComputePipelineDescriptor};
use vstd::prelude::*;

verus! {

/// The colour kernel and its layout.
#[derive(Clone, Debug, PartialEq, Eq)]
pub struct AutomataColorPipeline {
    pub color_pipeline: ComputePipelineDescriptor,
    pub color_bind_group_layout: Vec<BindGroupLayoutEntry>,
}

/// The layout of the colour kernel: the size uniform at slot 0, the cells
/// at slot 1, the output surface at slot 2.
pub open spec fn color_layout() -> Seq<BindGroupLayoutEntry> {
    seq![
        BindGroupLayoutEntry {
            binding: 0,
            ty: BindingType::UniformBuffer { min_binding_size: SIZE_UNIFORM_BYTES },
        },
        BindGroupLayoutEntry {
            binding: 1,
            ty: BindingType::StorageBuffer { min_binding_size: CELL_BUFFER_BYTES },
        },
        BindGroupLayoutEntry { binding: 2, ty: BindingType::StorageTexture },
    ]
}

impl AutomataColorPipeline {
    /// What to compile for the colour kernel.
    pub open spec fn color_descriptor() -> ComputePipelineDescriptor {
        ComputePipelineDescriptor {
            label: "Game of Life Color Pipeline",
            shader: "shaders/color.wgsl",
            entry_point: "color",
            push_constant_range: None,
        }
    }

    /// The node's kernel and layout.
    pub fn new() -> (pipeline: AutomataColorPipeline)
        ensures
            pipeline.color_pipeline == AutomataColorPipeline::color_descriptor(),
            pipeline.color_bind_group_layout@ == color_layout(),
    {
        let mut layout: Vec<BindGroupLayoutEntry> = Vec::new();
        layout.push(
            BindGroupLayoutEntry {
                binding: 0,
                ty: BindingType::UniformBuffer { min_binding_size: SIZE_UNIFORM_BYTES },
            },
        );
        layout.push(
            BindGroupLayoutEntry {
                binding: 1,
                ty: BindingType::StorageBuffer { min_binding_size: CELL_BUFFER_BYTES },
            },
        );
        layout.push(BindGroupLayoutEntry { binding: 2, ty: BindingType::StorageTexture });
        assert(layout@ =~= color_layout());
        AutomataColorPipeline {
            color_pipeline: ComputePipelineDescriptor {
                label: "Game of Life Color Pipeline",
                shader: "shaders/color.wgsl",
                entry_point: "color",
                push_constant_range: None,
            },
            color_bind_group_layout: layout,
        }
    }
}

/// What the colour kernel finds bound after the size uniform: the frame's
/// source cells at slot 1, the output surface at slot 2.
#[derive(Clone, Copy, Debug, PartialEq, Eq, Hash)]
pub struct AutomataColorBindGroup {
    pub cells: BufferId,
    pub surface: SurfaceId,
}

/// Reads the frame counter once and lays down the colour binding for that
/// frame.
pub fn queue_color_bind_group(params: &AutomataParams, game_of_life_image: SurfaceId) -> (queued:
    Queued<AutomataColorBindGroup>)
    ensures
        queued.bind_group == (AutomataColorBindGroup {
            cells: BufferRoles::at_frame(queued.frame).source,
            surface: game_of_life_image,
        }),
{
    let frame = params.get_frame();
    Queued {
        frame,
        bind_group: AutomataColorBindGroup {
            cells: BufferId::at(frame),
            surface: game_of_life_image,
        },
    }
}

/// How far the colour node has come.
#[derive(Clone, Copy, Debug, PartialEq, Eq, Structural)]
pub enum AutomataColorState {
    Loading,
    Update,
}

impl AutomataColorState {
    /// The state as a kernel's readiness.
    pub open spec fn readiness(self) -> KernelState {
        match self {
            AutomataColorState::Loading => KernelState::Loading,
            AutomataColorState::Update => KernelState::Ready,
        }
    }
}

/// One recorded dispatch of the colour kernel.
#[derive(Clone, Copy, Debug, PartialEq, Eq)]
pub struct ColorPass {
    pub bind_group: AutomataColorBindGroup,
    pub workgroups: (u32, u32, u32),
}

/// What the node records in a frame: nothing while loading, else one
/// dispatch over the whole grid.
pub open spec fn color_pass(state: AutomataColorState, bind_group: AutomataColorBindGroup)
    -> Option<ColorPass> {
    match state {
        AutomataColorState::Loading => None,
        AutomataColorState::Update => Some(
            ColorPass { bind_group, workgroups: (GRID_W, GRID_H, 1u32) },
        ),
    }
}

/// The colour node. Its state changes only through `update`.
#[derive(Clone, Copy, Debug, PartialEq, Eq)]
pub struct AutomataColorNode {
    state: AutomataColorState,
}

impl Default for AutomataColorNode {
    fn default() -> (node: AutomataColorNode)
        ensures
            node.spec_state() == AutomataColorState::Loading,
    {
        AutomataColorNode { state: AutomataColorState::Loading }
    }
}

impl AutomataColorNode {
    /// How far the node has come.
    pub closed spec fn spec_state(&self) -> AutomataColorState {
        self.state
    }

    /// How far the node has come.
    #[verifier::when_used_as_spec(spec_state)]
    pub fn state(&self) -> (state: AutomataColorState)
        ensures
            state == self.spec_state(),
    {
        self.state
    }


    /// Moves the node on once its kernel is compiled.
    pub fn update(&mut self, color_compiled: bool)
        ensures
            final(self).spec_state().readiness() == old(self).spec_state().readiness().after_poll(
                color_compiled,
            ),
    {
        match self.state {
            AutomataColorState::Loading => {
                if color_compiled {
                    self.state = AutomataColorState::Update;
                }
            },
            AutomataColorState::Update => {},
        }
    }

    /// Records the node's dispatch for a frame, if it has one.
    pub fn run(&self, bind_group: &AutomataColorBindGroup) -> (pass: Option<ColorPass>)
        ensures
            pass == color_pass(self.spec_state(), *bind_group),
    {
        match self.state {
            AutomataColorState::Loading => None,
            AutomataColorState::Update => Some(
                ColorPass { bind_group: *bind_group, workgroups: (GRID_W, GRID_H, 1) },
            ),
        }
    }
}

} // verus!
