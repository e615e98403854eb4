//! Grid dimensions and the dispatch domain that covers them.

use vstd::prelude::*;

verus! {

/// Why a grid cannot be dispatched over.
#[derive(Clone, Copy, Debug, PartialEq, Eq)]
pub enum ConfigError {
    /// The workgroup size is zero or does not divide both dimensions.
    WorkgroupMismatch,
}

/// Whether workgroups of this size tile a grid of these dimensions exactly.
pub open spec fn evenly_divided(width: u32, height: u32, workgroup: u32) -> bool {
    workgroup > 0 && width % workgroup == 0 && height % workgroup == 0
}

/// How many workgroups of this size it takes to cover an extent.
pub open spec fn covering_groups(extent: u32, workgroup: u32) -> int
    recommends
        workgroup > 0,
{
    (extent + workgroup - 1) / (workgroup as int)
}

/// The dimensions of a cell grid, fixed at launch, with the workgroup size
/// its kernels were built for.
///
/// Every value of this type is evenly divided by its workgroup size.
pub struct Grid {
    width: u32,
    height: u32,
    workgroup: u32,
}

impl Grid {
    #[verifier::type_invariant]
    spec fn well_formed(self) -> bool {
        evenly_divided(self.width, self.height, self.workgroup)
    }

    /// The number of cells in a row.
    pub closed spec fn spec_width(&self) -> u32 {
        self.width
    }

    /// The number of rows.
    pub closed spec fn spec_height(&self) -> u32 {
        self.height
    }

    /// The edge of the square of cells one workgroup handles.
    pub closed spec fn spec_workgroup(&self) -> u32 {
        self.workgroup
    }

    /// Checks a launch configuration.
    pub fn new(width: u32, height: u32, workgroup: u32) -> (grid: Result<Grid, ConfigError>)
        ensures
            match grid {
                Ok(g) => evenly_divided(width, height, workgroup) && g.spec_width() == width
                    && g.spec_height() == height && g.spec_workgroup() == workgroup,
                Err(ConfigError::WorkgroupMismatch) => !evenly_divided(width, height, workgroup),
            },
    {
        if workgroup == 0 || width % workgroup != 0 || height % workgroup != 0 {
            return Err(ConfigError::WorkgroupMismatch);
        }
        Ok(Grid::tiled(width, height, workgroup))
    }

    /// A grid from a configuration already known to be sound.
    pub(crate) fn tiled(width: u32, height: u32, workgroup: u32) -> (grid: Grid)
        requires
            evenly_divided(width, height, workgroup),
        ensures
            grid.spec_width() == width,
            grid.spec_height() == height,
            grid.spec_workgroup() == workgroup,
    {
        Grid { width, height, workgroup }
    }

    /// The number of cells in a row.
    #[verifier::when_used_as_spec(spec_width)]
    pub fn width(&self) -> (width: u32)
        ensures
            width == self.spec_width(),
    {
        self.width
    }

    /// The number of rows.
    #[verifier::when_used_as_spec(spec_height)]
    pub fn height(&self) -> (height: u32)
        ensures
            height == self.spec_height(),
    {
        self.height
    }

    /// The edge of the square of cells one workgroup handles.
    #[verifier::when_used_as_spec(spec_workgroup)]
    pub fn workgroup(&self) -> (workgroup: u32)
        ensures
            workgroup == self.spec_workgroup(),
    {
        self.workgroup
    }

    /// The number of cells in one buffer.
    pub fn num_cells(&self) -> (cells: u64)
        ensures
            cells == self.spec_width() * self.spec_height(),
    {
        assert(self.width * self.height <= 0xFFFF_FFFF * 0xFFFF_FFFF) by (nonlinear_arith)
            requires
                self.width <= 0xFFFF_FFFF,
                self.height <= 0xFFFF_FFFF,
        ;
        (self.width as u64) * (self.height as u64)
    }

    /// The size of the one dispatch that covers the grid.
    pub fn workgroups(&self) -> (size: (u32, u32, u32))
        ensures
            size.0 == covering_groups(self.spec_width(), self.spec_workgroup()),
            size.1 == covering_groups(self.spec_height(), self.spec_workgroup()),
            size.2 == 1,
            size.0 * self.spec_workgroup() == self.spec_width(),
            size.1 * self.spec_workgroup() == self.spec_height(),
    {
        proof {
            use_type_invariant(self);
            exact_cover(self.width, self.workgroup);
            exact_cover(self.height, self.workgroup);
        }
        (self.width / self.workgroup, self.height / self.workgroup, 1)
    }
}

/// Where the workgroup size divides an extent, rounding the quotient up
/// changes nothing, and that many workgroups cover the extent with no cell
/// left over.
pub proof fn exact_cover(extent: u32, workgroup: u32)
    requires
        workgroup > 0,
        extent % workgroup == 0,
    ensures
        covering_groups(extent, workgroup) == extent / workgroup,
        (extent / workgroup) * workgroup == extent,
{
    let e = extent as int;
    let w = workgroup as int;
    vstd::arithmetic::div_mod::lemma_fundamental_div_mod(e, w);
    assert((e / w) * w == e) by (nonlinear_arith)
        requires
            e == w * (e / w) + e % w,
            e % w == 0,
    ;
    vstd::arithmetic::div_mod::lemma_div_multiples_vanish_fancy(e / w, w - 1, w);
    assert((w * (e / w) + (w - 1)) == e + w - 1) by (nonlinear_arith)
        requires
            (e / w) * w == e,
    ;
}

} // verus!
