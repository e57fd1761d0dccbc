use vstd::prelude::*;

verus! {

/// Why a request to the core was refused.
#[derive(Clone, Copy, Debug, PartialEq, Eq, Structural)]
pub enum TerrainError {
    /// The flat cell count differs from the grid's fixed cell count.
    InvalidGridSize,
    /// The coverage fraction lies outside `[0, 1]`, or is not a number.
    InvalidCoverage,
    /// A sequence of zero passes was requested.
    InvalidPassCount,
    /// The heightmap does not hold exactly one sample per grid cell.
    LengthMismatch,
}

} // verus!
