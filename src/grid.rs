use vstd::prelude::*;

verus! {

/// Number of columns of the terrain grid.
pub const GRID_WIDTH: u32 = 2048;

/// Number of rows of the terrain grid.
pub const GRID_HEIGHT: u32 = 1024;

/// Number of cells of the terrain grid (`GRID_WIDTH * GRID_HEIGHT`).
pub const GRID_CELL_COUNT: u32 = 2097152;

/// Invocations per GPU work-group.
pub const WORKGROUP_SIZE: u32 = 256;

/// Number of columns of the terrain grid.
pub fn grid_width() -> (r: u32)
    ensures
        r == GRID_WIDTH,
{
    GRID_WIDTH
}

/// Number of rows of the terrain grid.
pub fn grid_height() -> (r: u32)
    ensures
        r == GRID_HEIGHT,
{
    GRID_HEIGHT
}

/// Number of cells of the terrain grid.
pub fn grid_cell_count() -> (r: u32)
    ensures
        r == GRID_CELL_COUNT,
        r == GRID_WIDTH * GRID_HEIGHT,
{
    GRID_CELL_COUNT
}

} // verus!
