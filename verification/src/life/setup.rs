//! What the automaton asks of the device at launch.

use crate::bytes::is_image_of;
use crate::life::automata::GameOfLifeBuffers;
use crate::life::constants::{NUM_OF_CELLS, SIM_SIZE};
use crate::life::utils::{create_image, create_storage_buffer_with_data, create_uniform_buffer};
use crate::resources::{
    BufferInitDescriptor,
    BufferUsages,
    FilterMode,
    ImageDescriptor,
    TextureFormat,
};
use vstd::prelude::*;

verus! {

/// The resources of a launch.
#[derive(Clone, Debug, PartialEq, Eq)]
pub struct Launch {
    pub image: ImageDescriptor,
    pub buffers: GameOfLifeBuffers,
}

/// What the cell buffers start out holding: two zero words for each cell.
pub open spec fn initial_life_data() -> Seq<u32> {
    Seq::new(2 * NUM_OF_CELLS as nat, |i: int| 0u32)
}

/// The output surface, as large as the grid; two cell buffers, all cells
/// dead and cold; and the uniform that tells the kernels the grid's width
/// and height.
pub fn setup() -> (launch: Launch)
    ensures
        launch.image.width == SIM_SIZE.0,
        launch.image.height == SIM_SIZE.1,
        launch.image.fill@ == seq![0u8, 0u8, 0u8, 255u8],
        launch.image.format == TextureFormat::Rgba8Unorm,
        launch.image.mag_filter == FilterMode::Nearest,
        launch.image.min_filter == FilterMode::Nearest,
        launch.image.mipmap_filter == FilterMode::Nearest,
        launch.buffers.in_out_buffers@.len() == 2,
        forall|i: int|
            0 <= i < 2 ==> is_image_of(
                (#[trigger] launch.buffers.in_out_buffers@[i]).contents@,
                initial_life_data(),
            ) && launch.buffers.in_out_buffers@[i].usage == (BufferUsages {
                storage: true,
                uniform: false,
                copy_dst: true,
            }),
        launch.buffers.in_out_buffers@[0].label == Some("Game of Life Buffer 0"),
        launch.buffers.in_out_buffers@[1].label == Some("Game of Life Buffer 1"),
        is_image_of(launch.buffers.uniform_buffer.contents@, seq![SIM_SIZE.0, SIM_SIZE.1]),
        launch.buffers.uniform_buffer.label == Some("Simulation Size Uniform"),
        launch.buffers.uniform_buffer.usage == (BufferUsages {
            storage: false,
            uniform: true,
            copy_dst: true,
        }),
{
    let image = create_image(SIM_SIZE.0, SIM_SIZE.1);

    let mut initial: Vec<u32> = Vec::new();
    while initial.len() < 2 * NUM_OF_CELLS
        invariant
            initial@.len() <= 2 * NUM_OF_CELLS,
            forall|i: int| 0 <= i < initial@.len() ==> initial@[i] == 0u32,
        decreases 2 * NUM_OF_CELLS - initial@.len(),
    {
        initial.push(0);
    }
    assert(initial@ =~= initial_life_data());

    let mut buffers: Vec<BufferInitDescriptor> = Vec::new();
    buffers.push(create_storage_buffer_with_data(&initial, Some("Game of Life Buffer 0")));
    buffers.push(create_storage_buffer_with_data(&initial, Some("Game of Life Buffer 1")));

    let mut size: Vec<u32> = Vec::new();
    size.push(SIM_SIZE.0);
    size.push(SIM_SIZE.1);
    assert(size@ =~= seq![SIM_SIZE.0, SIM_SIZE.1]);
    let uniform_buffer = create_uniform_buffer(&size, Some("Simulation Size Uniform"));

    Launch { image, buffers: GameOfLifeBuffers { in_out_buffers: buffers, uniform_buffer } }
}

} // verus!
