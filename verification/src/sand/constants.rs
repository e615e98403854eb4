//! Launch configuration of the falling-sand simulation.

use crate::grid::{covering_groups, evenly_divided, Grid};
use vstd::prelude::*;

verus! {

/// Edge of the square of cells one workgroup handles.
pub const WORKGROUP_SIZE: u32 = 8;

/// Width and height of the grid, in cells.
pub const SIM_SIZE: (u32, u32) = (720, 720);

/// Workgroups per dispatch along the horizontal axis.
pub const GRID_W: u32 = SIM_SIZE.0 / WORKGROUP_SIZE;

/// Workgroups per dispatch along the vertical axis.
pub const GRID_H: u32 = SIM_SIZE.1 / WORKGROUP_SIZE;

/// Cells in one buffer.
pub const NUM_OF_CELLS: usize = (SIM_SIZE.0 * SIM_SIZE.1) as usize;

/// Identifier under which the shared core shader source is registered.
pub const SHADER_CORE: u64 = 1371231089456109822;

/// Identifier under which the direction helpers are registered.
pub const SHADER_DIRECTION: u64 = 4462033275253590181;

/// Identifier under which the neighbourhood queries are registered.
pub const SHADER_QUERY: u64 = 5254739165481917368;

/// Identifier under which the matter definitions are registered.
pub const SHADER_MATTER: u64 = 1287391288877821366;

/// The grid the simulation is launched with.
pub fn sim_grid() -> (grid: Grid)
    ensures
        grid.spec_width() == SIM_SIZE.0,
        grid.spec_height() == SIM_SIZE.1,
        grid.spec_workgroup() == WORKGROUP_SIZE,
{
    Grid::tiled(SIM_SIZE.0, SIM_SIZE.1, WORKGROUP_SIZE)
}

/// The dispatch size covers the grid exactly: the workgroup size divides
/// both dimensions, and the workgroups of one dispatch hold every cell once.
pub proof fn dispatch_covers_grid()
    ensures
        evenly_divided(SIM_SIZE.0, SIM_SIZE.1, WORKGROUP_SIZE),
        GRID_W == covering_groups(SIM_SIZE.0, WORKGROUP_SIZE),
        GRID_H == covering_groups(SIM_SIZE.1, WORKGROUP_SIZE),
        GRID_W * WORKGROUP_SIZE == SIM_SIZE.0,
        GRID_H * WORKGROUP_SIZE == SIM_SIZE.1,
        NUM_OF_CELLS == SIM_SIZE.0 * SIM_SIZE.1,
{
}

} // verus!
