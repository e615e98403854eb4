//! The two cell buffers of the simulation.

use crate::buffers::BufferId;
use crate::bytes::is_image_of;
use crate::resources::{BufferInitDescriptor, BufferUsages};
use crate::sand::constants::NUM_OF_CELLS;
use crate::sand::matter::Matter;
use crate::sand::utils::{cell_words, create_storage_buffer_with_data};
use vstd::prelude::*;

verus! {

/// The two cell buffers as they are created: equal in size, every cell
/// holding the same substance. They are never resized, and after launch
/// only dispatched passes write to them.
#[derive(Clone, Debug, PartialEq, Eq)]
pub struct SandPipelineAssets {
    pub buffer_in: BufferInitDescriptor,
    pub buffer_out: BufferInitDescriptor,
}

/// A grid of cells that all hold the same substance.
pub open spec fn filled(fill: Matter, cells: nat) -> Seq<Matter> {
    Seq::new(cells, |i: int| fill)
}

/// A grid of cells that all hold the same substance.
pub fn filled_cells(fill: Matter, cells: usize) -> (data: Vec<Matter>)
    ensures
        data@ == filled(fill, cells as nat),
{
    let mut data: Vec<Matter> = Vec::new();
    while data.len() < cells
        invariant
            data@.len() <= cells,
            forall|i: int| 0 <= i < data@.len() ==> data@[i] == fill,
        decreases cells - data@.len(),
    {
        data.push(fill);
    }
    assert(data@ =~= filled(fill, cells as nat));
    data
}

impl SandPipelineAssets {
    /// Whether the two buffers are described alike.
    pub open spec fn same_on_both_sides(self) -> bool {
        &&& self.buffer_out.label == self.buffer_in.label
        &&& self.buffer_out.contents@ == self.buffer_in.contents@
        &&& self.buffer_out.usage == self.buffer_in.usage
    }

    /// Two buffers of the given number of cells, filled with the given
    /// substance.
    pub fn allocate(initial_fill: Matter, cells: usize) -> (assets: SandPipelineAssets)
        ensures
            is_image_of(assets.buffer_in.contents@, cell_words(filled(initial_fill, cells as nat))),
            assets.buffer_in.contents@.len() == 32 * cells,
            assets.buffer_in.label == Some("Buffer In"),
            assets.buffer_in.usage == (BufferUsages {
                storage: true,
                uniform: false,
                copy_dst: true,
            }),
            assets.same_on_both_sides(),
    {
        let initial_data = filled_cells(initial_fill, cells);
        let buffer_in = create_storage_buffer_with_data(&initial_data, Some("Buffer In"));
        let buffer_out = BufferInitDescriptor {
            label: buffer_in.label,
            contents: buffer_in.contents.clone(),
            usage: buffer_in.usage,
        };
        SandPipelineAssets { buffer_in, buffer_out }
    }

    /// The buffers of the simulation's grid, empty.
    pub fn new() -> (assets: SandPipelineAssets)
        ensures
            is_image_of(
                assets.buffer_in.contents@,
                cell_words(filled(Matter::spec_empty(), NUM_OF_CELLS as nat)),
            ),
            assets.buffer_in.contents@.len() == 32 * NUM_OF_CELLS,
            assets.buffer_in.label == Some("Buffer In"),
            assets.buffer_in.usage == (BufferUsages {
                storage: true,
                uniform: false,
                copy_dst: true,
            }),
            assets.same_on_both_sides(),
    {
        SandPipelineAssets::allocate(Matter::empty(), NUM_OF_CELLS)
    }

    /// The buffer that stands behind an identifier.
    pub fn as_binding(&self, buffer: BufferId) -> (descriptor: &BufferInitDescriptor)
        ensures
            *descriptor == match buffer {
                BufferId::A => self.buffer_in,
                BufferId::B => self.buffer_out,
            },
    {
        match buffer {
            BufferId::A => &self.buffer_in,
            BufferId::B => &self.buffer_out,
        }
    }
}

} // verus!
