//! The two cell buffers, the roles they take in a frame, and the surface
//! the colours go to.

use crate::frame::{next_frame, parity};
use vstd::prelude::*;

verus! {

/// One of the two equal-sized buffers that hold the grid.
#[derive(Clone, Copy, Debug, PartialEq, Eq, Hash, Structural)]
pub enum BufferId {
    A,
    B,
}

impl BufferId {
    /// The buffer that is not this one.
    pub open spec fn spec_other(self) -> BufferId {
        match self {
            BufferId::A => BufferId::B,
            BufferId::B => BufferId::A,
        }
    }

    /// The buffer's place in a pair: 0 for `A`, 1 for `B`.
    pub open spec fn spec_index(self) -> usize {
        match self {
            BufferId::A => 0,
            BufferId::B => 1,
        }
    }

    /// The buffer that is not this one.
    #[verifier::when_used_as_spec(spec_other)]
    pub fn other(self) -> (other: BufferId)
        ensures
            other == self.spec_other(),
    {
        match self {
            BufferId::A => BufferId::B,
            BufferId::B => BufferId::A,
        }
    }

    /// The buffer's place in a pair: 0 for `A`, 1 for `B`.
    #[verifier::when_used_as_spec(spec_index)]
    pub fn index(self) -> (index: usize)
        ensures
            index == self.spec_index(),
    {
        match self {
            BufferId::A => 0,
            BufferId::B => 1,
        }
    }

    /// The buffer at a place in a pair: `A` at an even place, `B` at an odd
    /// one.
    pub fn at(index: usize) -> (buffer: BufferId)
        ensures
            buffer == if index % 2 == 0 {
                BufferId::A
            } else {
                BufferId::B
            },
            index < 2 ==> buffer.spec_index() == index,
    {
        if index % 2 == 0 {
            BufferId::A
        } else {
            BufferId::B
        }
    }
}

/// The handle of the surface a colour pass writes into.
#[derive(Clone, Copy, Debug, PartialEq, Eq, Hash, Structural)]
pub struct SurfaceId(pub u64);

/// Which buffer a frame's passes read from and which they write to.
#[derive(Clone, Copy, Debug, PartialEq, Eq, Hash)]
pub struct BufferRoles {
    pub source: BufferId,
    pub destination: BufferId,
}

impl BufferRoles {
    /// The roles exchanged.
    pub open spec fn mirrored(self) -> BufferRoles {
        BufferRoles { source: self.destination, destination: self.source }
    }

    /// The roles of a frame: `A` feeds `B` in an even frame, `B` feeds `A`
    /// in an odd one.
    pub open spec fn at_frame(frame: usize) -> BufferRoles {
        if frame % 2 == 0 {
            BufferRoles { source: BufferId::A, destination: BufferId::B }
        } else {
            BufferRoles { source: BufferId::B, destination: BufferId::A }
        }
    }

    /// The roles of a frame, decided once from its parity.
    pub fn for_frame(frame: usize) -> (roles: BufferRoles)
        ensures
            roles == BufferRoles::at_frame(frame),
            roles.destination == roles.source.spec_other(),
    {
        let source = BufferId::at(frame);
        BufferRoles { source, destination: source.other() }
    }
}

/// In every frame one buffer is the source and the other the destination.
pub proof fn roles_are_distinct(frame: usize)
    ensures
        BufferRoles::at_frame(frame).destination == BufferRoles::at_frame(
            frame,
        ).source.spec_other(),
        BufferRoles::at_frame(frame).source.spec_index() == parity(frame),
{
}

/// The frame after a simulated frame has the roles mirrored, whatever ran
/// inside the frame; the frame after a paused frame keeps them.
pub proof fn roles_alternate(frame: usize, paused: bool)
    ensures
        BufferRoles::at_frame(next_frame(frame, paused)) == if paused {
            BufferRoles::at_frame(frame)
        } else {
            BufferRoles::at_frame(frame).mirrored()
        },
{
    crate::frame::parity_alternates(frame, paused);
}

} // verus!
