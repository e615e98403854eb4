//! The automaton's own node: it seeds the grid once, then steps it every
//! frame that is not paused.

use crate::buffers::{BufferId, BufferRoles};
use crate::frame::{next_frame, FrameTick};
use crate::life::constants::{GRID_H, GRID_W, NUM_OF_CELLS};
use crate::life::input::AutomataParams;
use crate::resources::{
    BindGroupLayoutEntry,
    BindingType,
    BufferInitDescriptor,
    ComputePipelineDescriptor,
};
use vstd::prelude::*;

verus! {

/// The buffers of the automaton as they are created: the grid's size for
/// the kernels to read, and the two cell buffers.
#[derive(Clone, Debug, PartialEq, Eq)]
pub struct GameOfLifeBuffers {
    pub uniform_buffer: BufferInitDescriptor,
    pub in_out_buffers: Vec<BufferInitDescriptor>,
}

/// Bytes of the size uniform: two words.
pub const SIZE_UNIFORM_BYTES: u64 = 8;

/// Bytes of one cell buffer: two words a cell, one for whether it lives and
/// one for its heat.
pub const CELL_BUFFER_BYTES: u64 = 7_372_800;

/// The kernels of the automaton's node and the layout they share.
#[derive(Clone, Debug, PartialEq, Eq)]
pub struct AutomataPipeline {
    pub init_pipeline: ComputePipelineDescriptor,
    pub update_pipeline: ComputePipelineDescriptor,
    pub texture_bind_group_layout: Vec<BindGroupLayoutEntry>,
}

/// The layout of the automaton's kernels: the size uniform at slot 0, the
/// source cells at slot 1, the destination cells at slot 2.
pub open spec fn automata_layout() -> Seq<BindGroupLayoutEntry> {
    seq![
        BindGroupLayoutEntry {
            binding: 0,
            ty: BindingType::UniformBuffer { min_binding_size: SIZE_UNIFORM_BYTES },
        },
        BindGroupLayoutEntry {
            binding: 1,
            ty: BindingType::StorageBuffer { min_binding_size: CELL_BUFFER_BYTES },
        },
        BindGroupLayoutEntry {
            binding: 2,
            ty: BindingType::StorageBuffer { min_binding_size: CELL_BUFFER_BYTES },
        },
    ]
}

impl AutomataPipeline {
    /// What to compile for the seeding kernel.
    pub open spec fn init_descriptor() -> ComputePipelineDescriptor {
        ComputePipelineDescriptor {
            label: "Game of Life Init Pipeline",
            shader: "shaders/game_of_life.wgsl",
            entry_point: "init",
            push_constant_range: None,
        }
    }

    /// What to compile for the stepping kernel.
    pub open spec fn update_descriptor() -> ComputePipelineDescriptor {
        ComputePipelineDescriptor {
            label: "Game of Life Update Pipeline",
            shader: "shaders/game_of_life.wgsl",
            entry_point: "update",
            push_constant_range: None,
        }
    }

    /// The node's kernels and layout.
    pub fn new() -> (pipeline: AutomataPipeline)
        ensures
            pipeline.init_pipeline == AutomataPipeline::init_descriptor(),
            pipeline.update_pipeline == AutomataPipeline::update_descriptor(),
            pipeline.texture_bind_group_layout@ == automata_layout(),
            CELL_BUFFER_BYTES == 2 * NUM_OF_CELLS * 4,
    {
        let mut layout: Vec<BindGroupLayoutEntry> = Vec::new();
        layout.push(
            BindGroupLayoutEntry {
                binding: 0,
                ty: BindingType::UniformBuffer { min_binding_size: SIZE_UNIFORM_BYTES },
            },
        );
        layout.push(
            BindGroupLayoutEntry {
                binding: 1,
                ty: BindingType::StorageBuffer { min_binding_size: CELL_BUFFER_BYTES },
            },
        );
        layout.push(
            BindGroupLayoutEntry {
                binding: 2,
                ty: BindingType::StorageBuffer { min_binding_size: CELL_BUFFER_BYTES },
            },
        );
        assert(layout@ =~= automata_layout());
        AutomataPipeline {
            init_pipeline: ComputePipelineDescriptor {
                label: "Game of Life Init Pipeline",
                shader: "shaders/game_of_life.wgsl",
                entry_point: "init",
                push_constant_range: None,
            },
            update_pipeline: ComputePipelineDescriptor {
                label: "Game of Life Update Pipeline",
                shader: "shaders/game_of_life.wgsl",
                entry_point: "update",
                push_constant_range: None,
            },
            texture_bind_group_layout: layout,
        }
    }
}

/// What the automaton's kernels find bound after the size uniform: the
/// frame's source cells at slot 1, its destination cells at slot 2.
#[derive(Clone, Copy, Debug, PartialEq, Eq, Hash)]
pub struct AutomataTextureBindGroup {
    pub source: BufferId,
    pub destination: BufferId,
}

impl AutomataTextureBindGroup {
    /// The binding of a frame.
    pub open spec fn at_frame(frame: usize) -> AutomataTextureBindGroup {
        AutomataTextureBindGroup {
            source: BufferRoles::at_frame(frame).source,
            destination: BufferRoles::at_frame(frame).destination,
        }
    }

    /// The binding of a frame.
    pub fn for_frame(frame: usize) -> (bind_group: AutomataTextureBindGroup)
        ensures
            bind_group == AutomataTextureBindGroup::at_frame(frame),
    {
        let roles = BufferRoles::for_frame(frame);
        AutomataTextureBindGroup { source: roles.source, destination: roles.destination }
    }
}

/// A binding together with the frame it was laid down for.
#[derive(Clone, Copy, Debug, PartialEq, Eq, Hash)]
pub struct Queued<B> {
    pub frame: usize,
    pub bind_group: B,
}

/// Reads the frame counter once and lays down the automaton's binding for
/// that frame.
pub fn queue_automata_bind_group(params: &AutomataParams) -> (queued: Queued<
    AutomataTextureBindGroup,
>)
    ensures
        queued.bind_group == AutomataTextureBindGroup::at_frame(queued.frame),
{
    let frame = params.get_frame();
    Queued { frame, bind_group: AutomataTextureBindGroup::for_frame(frame) }
}

/// How far the automaton's node has come: waiting for the seeding kernel,
/// seeding while it waits for the stepping kernel, or stepping.
#[derive(Clone, Copy, Debug, PartialEq, Eq, Structural)]
pub enum AutomataState {
    Loading,
    Init,
    Update,
}

impl AutomataState {
    /// The state after one update, given whether each kernel is compiled.
    pub open spec fn after(self, init_compiled: bool, update_compiled: bool) -> AutomataState {
        match self {
            AutomataState::Loading => if init_compiled {
                AutomataState::Init
            } else {
                AutomataState::Loading
            },
            AutomataState::Init => if update_compiled {
                AutomataState::Update
            } else {
                AutomataState::Init
            },
            AutomataState::Update => AutomataState::Update,
        }
    }

    /// How far a state is along the way: 0, 1 or 2.
    pub open spec fn rank(self) -> int {
        match self {
            AutomataState::Loading => 0,
            AutomataState::Init => 1,
            AutomataState::Update => 2,
        }
    }
}

/// A kernel of the automaton's node.
#[derive(Clone, Copy, Debug, PartialEq, Eq, Hash, Structural)]
pub enum AutomataKernel {
    Init,
    Update,
}

/// One recorded dispatch of the automaton's node.
#[derive(Clone, Copy, Debug, PartialEq, Eq)]
pub struct AutomataPass {
    pub pipeline: AutomataKernel,
    pub bind_group: AutomataTextureBindGroup,
    pub workgroups: (u32, u32, u32),
}

/// What the node records in a frame: nothing while paused or loading, else
/// one dispatch over the whole grid, of the seeding kernel while the node
/// seeds and of the stepping kernel once it steps.
pub open spec fn automata_pass(
    state: AutomataState,
    paused: bool,
    bind_group: AutomataTextureBindGroup,
) -> Option<AutomataPass> {
    if paused {
        None
    } else {
        match state {
            AutomataState::Loading => None,
            AutomataState::Init => Some(
                AutomataPass {
                    pipeline: AutomataKernel::Init,
                    bind_group,
                    workgroups: (GRID_W, GRID_H, 1u32),
                },
            ),
            AutomataState::Update => Some(
                AutomataPass {
                    pipeline: AutomataKernel::Update,
                    bind_group,
                    workgroups: (GRID_W, GRID_H, 1u32),
                },
            ),
        }
    }
}

/// The automaton's node. Its state changes only through `update`.
#[derive(Clone, Copy, Debug, PartialEq, Eq)]
pub struct AutomataNode {
    state: AutomataState,
}

impl Default for AutomataNode {
    fn default() -> (node: AutomataNode)
        ensures
            node.spec_state() == AutomataState::Loading,
    {
        AutomataNode { state: AutomataState::Loading }
    }
}

impl AutomataNode {
    /// How far the node has come.
    pub closed spec fn spec_state(&self) -> AutomataState {
        self.state
    }

    /// How far the node has come.
    #[verifier::when_used_as_spec(spec_state)]
    pub fn state(&self) -> (state: AutomataState)
        ensures
            state == self.spec_state(),
    {
        self.state
    }


    /// Moves the node on if the kernel it waits for is compiled. A node
    /// that already steps advances the frame counter instead: by one for a
    /// simulated frame, not at all for a paused one.
    pub fn update(&mut self, init_compiled: bool, update_compiled: bool, params: &AutomataParams)
        -> (tick: Option<FrameTick>)
        ensures
            final(self).spec_state() == old(self).spec_state().after(
                init_compiled,
                update_compiled,
            ),
            tick is Some <==> old(self).spec_state() == AutomataState::Update,
            tick matches Some(t) ==> t.after == next_frame(t.before, params.is_paused),
    {
        match self.state {
            AutomataState::Loading => {
                if init_compiled {
                    self.state = AutomataState::Init;
                }
                None
            },
            AutomataState::Init => {
                if update_compiled {
                    self.state = AutomataState::Update;
                }
                None
            },
            AutomataState::Update => Some(params.frame.advance(params.is_paused)),
        }
    }

    /// Records the node's dispatch for a frame, if it has one.
    pub fn run(&self, params: &AutomataParams, bind_group: &AutomataTextureBindGroup) -> (pass:
        Option<AutomataPass>)
        ensures
            pass == automata_pass(self.spec_state(), params.is_paused, *bind_group),
    {
        if !params.is_paused {
            match self.state {
                AutomataState::Loading => None,
                AutomataState::Init => Some(
                    AutomataPass {
                        pipeline: AutomataKernel::Init,
                        bind_group: *bind_group,
                        workgroups: (GRID_W, GRID_H, 1),
                    },
                ),
                AutomataState::Update => Some(
                    AutomataPass {
                        pipeline: AutomataKernel::Update,
                        bind_group: *bind_group,
                        workgroups: (GRID_W, GRID_H, 1),
                    },
                ),
            }
        } else {
            None
        }
    }
}

/// The node never goes back: an update leaves it where it was or one state
/// further, and a node that steps keeps stepping.
pub proof fn automata_state_advances(
    state: AutomataState,
    init_compiled: bool,
    update_compiled: bool,
)
    ensures
        state.rank() <= state.after(init_compiled, update_compiled).rank() <= state.rank() + 1,
        state == AutomataState::Update ==> state.after(init_compiled, update_compiled)
            == AutomataState::Update,
{
}

/// The node dispatches a kernel only after it was reported compiled: it
/// seeds only after leaving `Loading`, which takes a compiled seeding
/// kernel, and steps only after leaving `Init`, which takes a compiled
/// stepping kernel.
pub proof fn automata_dispatches_compiled_kernels(
    state: AutomataState,
    init_compiled: bool,
    update_compiled: bool,
)
    ensures
        state == AutomataState::Loading && state.after(init_compiled, update_compiled)
            != AutomataState::Loading ==> init_compiled,
        state == AutomataState::Init && state.after(init_compiled, update_compiled)
            != AutomataState::Init ==> update_compiled,
{
}

} // verus!
