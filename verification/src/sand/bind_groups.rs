//! The two binding configurations of a frame.
//!
//! Several passes read one buffer and write the other, then at once read
//! the second and write the first. Both directions are laid down before the
//! first dispatch of the frame, so that recording never has to build one.

use crate::buffers::{BufferId, BufferRoles, SurfaceId};
use crate::sand::input::AutomataParams;
use vstd::prelude::*;

verus! {

/// What a kernel finds at its three binding slots: two cell buffers, both
/// readable and writable, and the output surface.
#[derive(Clone, Copy, Debug, PartialEq, Eq, Hash, Structural)]
pub struct BindGroup {
    pub binding0: BufferId,
    pub binding1: BufferId,
    pub binding2: SurfaceId,
}

impl BindGroup {
    /// The same triple with the two buffers exchanged.
    pub open spec fn swapped(self) -> BindGroup {
        BindGroup { binding0: self.binding1, binding1: self.binding0, binding2: self.binding2 }
    }
}

/// One of the two binding configurations of a frame.
#[derive(Clone, Copy, Debug, PartialEq, Eq, Hash, Structural)]
pub enum Side {
    Main,
    Swap,
}

/// The binding configurations of one frame.
#[derive(Clone, Copy, Debug, PartialEq, Eq, Hash)]
pub struct SandPipelineBindGroups {
    /// Source at slot 0, destination at slot 1.
    pub bind_group_main: BindGroup,
    /// Destination at slot 0, source at slot 1.
    pub bind_group_swap: BindGroup,
}

impl SandPipelineBindGroups {
    /// The configurations for given roles and output surface.
    pub open spec fn of(roles: BufferRoles, surface: SurfaceId) -> SandPipelineBindGroups {
        SandPipelineBindGroups {
            bind_group_main: BindGroup {
                binding0: roles.source,
                binding1: roles.destination,
                binding2: surface,
            },
            bind_group_swap: BindGroup {
                binding0: roles.destination,
                binding1: roles.source,
                binding2: surface,
            },
        }
    }

    /// The configurations of a frame.
    pub open spec fn at_frame(frame: usize, surface: SurfaceId) -> SandPipelineBindGroups {
        SandPipelineBindGroups::of(BufferRoles::at_frame(frame), surface)
    }

    /// Lays down both configurations from source, destination and output.
    pub fn new(roles: BufferRoles, surface: SurfaceId) -> (groups: SandPipelineBindGroups)
        ensures
            groups == SandPipelineBindGroups::of(roles, surface),
            groups.bind_group_swap == groups.bind_group_main.swapped(),
    {
        SandPipelineBindGroups {
            bind_group_main: BindGroup {
                binding0: roles.source,
                binding1: roles.destination,
                binding2: surface,
            },
            bind_group_swap: BindGroup {
                binding0: roles.destination,
                binding1: roles.source,
                binding2: surface,
            },
        }
    }

    /// Which of the two configurations a given one is, if either.
    pub open spec fn spec_side_of(&self, bind_group: &BindGroup) -> Option<Side> {
        if *bind_group == self.bind_group_main {
            Some(Side::Main)
        } else if *bind_group == self.bind_group_swap {
            Some(Side::Swap)
        } else {
            None
        }
    }

    /// Which of the two configurations a given one is, if either.
    #[verifier::when_used_as_spec(spec_side_of)]
    pub fn side_of(&self, bind_group: &BindGroup) -> (side: Option<Side>)
        ensures
            side == self.spec_side_of(bind_group),
    {
        if *bind_group == self.bind_group_main {
            Some(Side::Main)
        } else if *bind_group == self.bind_group_swap {
            Some(Side::Swap)
        } else {
            None
        }
    }

    /// Lays down both configurations for a frame.
    pub fn for_frame(frame: usize, surface: SurfaceId) -> (groups: SandPipelineBindGroups)
        ensures
            groups == SandPipelineBindGroups::at_frame(frame, surface),
    {
        SandPipelineBindGroups::new(BufferRoles::for_frame(frame), surface)
    }
}

/// The binding configurations of the frame the counter stands at, together
/// with that frame.
#[derive(Clone, Copy, Debug, PartialEq, Eq, Hash)]
pub struct QueuedBindGroups {
    pub frame: usize,
    pub groups: SandPipelineBindGroups,
}

/// Reads the frame counter once and lays down the configurations of that
/// frame.
pub fn queue_bind_groups(params: &AutomataParams, sand_image: SurfaceId) -> (queued:
    QueuedBindGroups)
    ensures
        queued.groups == SandPipelineBindGroups::at_frame(queued.frame, sand_image),
{
    let frame = params.get_frame();
    QueuedBindGroups { frame, groups: SandPipelineBindGroups::for_frame(frame, sand_image) }
}

/// The two configurations of a frame bind the same surface and the same two
/// buffers, in opposite order.
pub proof fn swap_reverses_main(frame: usize, surface: SurfaceId)
    ensures
        SandPipelineBindGroups::at_frame(frame, surface).bind_group_swap
            == SandPipelineBindGroups::at_frame(frame, surface).bind_group_main.swapped(),
        SandPipelineBindGroups::at_frame(frame, surface).bind_group_main.binding0
            != SandPipelineBindGroups::at_frame(frame, surface).bind_group_main.binding1,
{
}

} // verus!
