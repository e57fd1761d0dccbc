//! The integer side of heightmap metric extraction: one row-major scan that
//! counts low-lying (drainage) cells and classifies each three-point run
//! along a row as a turn or a straight stretch.
//!
//! Samples are taken as the bit patterns of single-precision numbers
//! (`f32::to_bits`). The drainage test is decided on the bits exactly. The
//! curvature test is floating-point arithmetic on three neighbouring samples;
//! it is handed in by the caller and applied to every run of three
//! neighbours in a row, never across a row boundary.
use crate::bits::SIGN_BIT;
use crate::error::TerrainError;
use crate::grid::{GRID_CELL_COUNT, GRID_HEIGHT, GRID_WIDTH};
use vstd::prelude::*;

verus! {

/// Bit pattern of the single-precision drainage cutoff `0.42`.
pub const DRAINAGE_CUTOFF_BITS: u32 = 0x3ED7_0A3D;

/// Bit pattern of the single-precision number negative infinity.
pub const NEG_INFINITY_BITS: u32 = 0xFF80_0000;

/// Three-point runs in one row: every column from the third on ends one.
pub const RUNS_PER_ROW: u32 = 2046;

/// The sample, clamped to `[0, 1]`, lies below the drainage cutoff: it is
/// negative (clamped to zero), a zero of either sign, or a positive number
/// under the cutoff. Not-a-number stays not-a-number and never drains.
pub open spec fn drains(bits: u32) -> bool {
    (SIGN_BIT <= bits && bits <= NEG_INFINITY_BITS) || bits < DRAINAGE_CUTOFF_BITS
}

/// Number of draining samples among the first `n` of `s`.
pub open spec fn drainage_in_prefix(s: Seq<u32>, n: nat) -> nat
    decreases n,
{
    if n == 0 {
        0
    } else {
        drainage_in_prefix(s, (n - 1) as nat) + if drains(s[n - 1]) {
            1nat
        } else {
            0nat
        }
    }
}

/// The curvature test gives one answer for each run of three samples.
pub open spec fn decides_runs<F: Fn(u32, u32, u32) -> bool>(bends: F) -> bool {
    forall|a: u32, b: u32, c: u32|
        !(#[trigger] bends.ensures((a, b, c), true) && bends.ensures((a, b, c), false))
}

/// The run of three samples that ends at flat index `i` is a turn.
pub open spec fn is_turn<F: Fn(u32, u32, u32) -> bool>(bends: F, s: Seq<u32>, i: int) -> bool {
    bends.ensures((s[i - 2], s[i - 1], s[i]), true)
}

/// Number of turns among the runs that end in the first `n` samples: a run
/// ends at every sample from the third column of its row on.
pub open spec fn turns_in_prefix<F: Fn(u32, u32, u32) -> bool>(
    bends: F,
    s: Seq<u32>,
    n: nat,
) -> nat
    decreases n,
{
    if n == 0 {
        0
    } else {
        turns_in_prefix(bends, s, (n - 1) as nat) + if (n - 1) % (GRID_WIDTH as int) >= 2
            && is_turn(bends, s, n - 1) {
            1nat
        } else {
            0nat
        }
    }
}

/// `c` holds the tallies of a whole heightmap `s` under the curvature test
/// `bends`: its draining cells, one classification per run, and, where the
/// test decides each run, its turns.
pub open spec fn tallies_of<F: Fn(u32, u32, u32) -> bool>(
    bends: F,
    s: Seq<u32>,
    c: TerrainCounts,
) -> bool {
    &&& c.drainage_cells == drainage_in_prefix(s, s.len())
    &&& c.turn_count + c.straight_count == GRID_HEIGHT * RUNS_PER_ROW
    &&& decides_runs(bends) ==> c.turn_count == turns_in_prefix(bends, s, s.len())
}

/// Tallies of one scan, or of part of one: turns, straight stretches and
/// draining cells.
#[derive(Clone, Copy, Debug, PartialEq, Eq, Structural)]
pub struct TerrainCounts {
    pub turn_count: u64,
    pub straight_count: u64,
    pub drainage_cells: u64,
}

impl TerrainCounts {
    /// Tallies of nothing scanned.
    pub fn empty() -> (r: TerrainCounts)
        ensures
            r.turn_count == 0 && r.straight_count == 0 && r.drainage_cells == 0,
    {
        TerrainCounts { turn_count: 0, straight_count: 0, drainage_cells: 0 }
    }

    /// Tallies of two disjoint parts of a scan: each count is the sum.
    pub fn merge(self, other: TerrainCounts) -> (r: TerrainCounts)
        requires
            self.turn_count + other.turn_count <= u64::MAX,
            self.straight_count + other.straight_count <= u64::MAX,
            self.drainage_cells + other.drainage_cells <= u64::MAX,
        ensures
            r.turn_count == self.turn_count + other.turn_count,
            r.straight_count == self.straight_count + other.straight_count,
            r.drainage_cells == self.drainage_cells + other.drainage_cells,
    {
        TerrainCounts {
            turn_count: self.turn_count + other.turn_count,
            straight_count: self.straight_count + other.straight_count,
            drainage_cells: self.drainage_cells + other.drainage_cells,
        }
    }

    /// Divisor of the straight-to-turn ratio: the turn count, at least one.
    pub fn turn_divisor(&self) -> (r: u64)
        ensures
            r == if self.turn_count >= 1 { self.turn_count } else { 1 },
    {
        if self.turn_count >= 1 {
            self.turn_count
        } else {
            1
        }
    }

    /// Divisor of the sinuosity term: the straight count, at least one.
    pub fn straight_divisor(&self) -> (r: u64)
        ensures
            r == if self.straight_count >= 1 { self.straight_count } else { 1 },
    {
        if self.straight_count >= 1 {
            self.straight_count
        } else {
            1
        }
    }
}

/// Whether a sample, clamped to `[0, 1]`, lies below the drainage cutoff.
pub fn sample_drains(bits: u32) -> (r: bool)
    ensures
        r == drains(bits),
{
    (SIGN_BIT <= bits && bits <= NEG_INFINITY_BITS) || bits < DRAINAGE_CUTOFF_BITS
}

/// Refuses a heightmap that does not hold one sample per grid cell.
pub fn check_heightmap_len(len: usize) -> (r: Result<(), TerrainError>)
    ensures
        len == GRID_CELL_COUNT ==> r is Ok,
        len != GRID_CELL_COUNT ==> r == Err::<(), TerrainError>(TerrainError::LengthMismatch),
{
    if len != GRID_CELL_COUNT as usize {
        Err(TerrainError::LengthMismatch)
    } else {
        Ok(())
    }
}

/// Scans one row that starts at `row_start`. `total` holds the tallies of the
/// rows before it; the result holds those of this row alone.
fn scan_row<F: Fn(u32, u32, u32) -> bool>(
    flat: &Vec<u32>,
    row_start: usize,
    bends: &F,
    Ghost(total): Ghost<TerrainCounts>,
) -> (r: TerrainCounts)
    requires
        flat.len() == GRID_CELL_COUNT,
        row_start + GRID_WIDTH <= GRID_CELL_COUNT,
        row_start % GRID_WIDTH as usize == 0,
        total.drainage_cells == drainage_in_prefix(flat@, row_start as nat),
        decides_runs(*bends) ==> total.turn_count == turns_in_prefix(
            *bends,
            flat@,
            row_start as nat,
        ),
        forall|a: u32, b: u32, c: u32| bends.requires((a, b, c)),
    ensures
        decides_runs(*bends) ==> total.turn_count + r.turn_count == turns_in_prefix(
            *bends,
            flat@,
            (row_start + GRID_WIDTH) as nat,
        ),
        total.drainage_cells + r.drainage_cells == drainage_in_prefix(
            flat@,
            (row_start + GRID_WIDTH) as nat,
        ),
        r.turn_count + r.straight_count == RUNS_PER_ROW,
        r.drainage_cells <= GRID_WIDTH,
        r.turn_count <= GRID_WIDTH,
{
    let mut row = TerrainCounts::empty();
    let width = GRID_WIDTH as usize;
    let mut x: usize = 0;
    while x < width
        invariant
            x <= width == GRID_WIDTH,
            flat.len() == GRID_CELL_COUNT,
            row_start + GRID_WIDTH <= GRID_CELL_COUNT,
            forall|a: u32, b: u32, c: u32| bends.requires((a, b, c)),
            row_start % GRID_WIDTH as usize == 0,
            decides_runs(*bends) ==> total.turn_count == turns_in_prefix(
                *bends,
                flat@,
                row_start as nat,
            ),
            decides_runs(*bends) ==> total.turn_count + row.turn_count == turns_in_prefix(
                *bends,
                flat@,
                (row_start + x) as nat,
            ),
            row.turn_count <= x,
            total.drainage_cells == drainage_in_prefix(flat@, row_start as nat),
            total.drainage_cells + row.drainage_cells == drainage_in_prefix(
                flat@,
                (row_start + x) as nat,
            ),
            row.drainage_cells <= x,
            row.turn_count + row.straight_count == if x >= 2 { x - 2 } else { 0 },
        decreases width - x,
    {
        let idx = row_start + x;
        assert(idx as int % GRID_WIDTH as int == x as int) by (nonlinear_arith)
            requires
                idx == row_start + x,
                row_start % 2048 == 0,
                x < 2048,
        ;
        let value = flat[idx];
        if sample_drains(value) {
            row.drainage_cells = row.drainage_cells + 1;
        }
        if x >= 2 {
            if bends(flat[idx - 2], flat[idx - 1], value) {
                row.turn_count = row.turn_count + 1;
            } else {
                row.straight_count = row.straight_count + 1;
            }
        }
        x = x + 1;
    }
    row
}

/// Scans a heightmap of one sample per grid cell, row by row, and tallies it.
///
/// A cell drains when its sample, clamped to `[0, 1]`, lies below `0.42`;
/// the drainage count is exact. Along each row, every sample from the third
/// column on closes a run of three neighbours, which `bends` classifies as a
/// turn (`true`) or a straight stretch (`false`); runs never span two rows.
/// A heightmap of the wrong length is refused whatever it holds.
pub fn scan_heightmap<F: Fn(u32, u32, u32) -> bool>(flat: &Vec<u32>, bends: F) -> (r: Result<
    TerrainCounts,
    TerrainError,
>)
    requires
        forall|a: u32, b: u32, c: u32| bends.requires((a, b, c)),
    ensures
        flat.len() != GRID_CELL_COUNT ==> r == Err::<TerrainCounts, TerrainError>(
            TerrainError::LengthMismatch,
        ),
        flat.len() == GRID_CELL_COUNT ==> r is Ok,
        r matches Ok(c) ==> tallies_of(bends, flat@, c),
{
    match check_heightmap_len(flat.len()) {
        Ok(()) => {},
        Err(e) => return Err(e),
    }
    let width = GRID_WIDTH as usize;
    let height = GRID_HEIGHT as usize;
    let mut total = TerrainCounts::empty();
    let mut y: usize = 0;
    while y < height
        invariant
            y <= height == GRID_HEIGHT,
            width == GRID_WIDTH,
            flat.len() == GRID_CELL_COUNT,
            forall|a: u32, b: u32, c: u32| bends.requires((a, b, c)),
            total.drainage_cells == drainage_in_prefix(flat@, (y * width) as nat),
            total.drainage_cells <= y * width,
            total.turn_count + total.straight_count == y * RUNS_PER_ROW,
            total.turn_count <= y * width,
            decides_runs(bends) ==> total.turn_count == turns_in_prefix(
                bends,
                flat@,
                (y * width) as nat,
            ),
        decreases height - y,
    {
        assert(y * width + width <= GRID_CELL_COUNT) by (nonlinear_arith)
            requires
                y < height,
                height == 1024,
                width == 2048,
        ;
        let row_start = y * width;
        assert(row_start % 2048 == 0) by (nonlinear_arith)
            requires
                row_start == y * width,
                width == 2048,
        ;
        let row = scan_row(flat, row_start, &bends, Ghost(total));
        assert((y + 1) * width == y * width + width) by (nonlinear_arith);
        total = total.merge(row);
        y = y + 1;
    }
    Ok(total)
}

/// Every draining sample counts: where all of the first `n` samples drain,
/// the drainage count of that prefix is `n`.
pub proof fn lemma_all_draining_prefix(s: Seq<u32>, n: nat)
    requires
        n <= s.len(),
        forall|i: int| 0 <= i < n ==> drains(#[trigger] s[i]),
    ensures
        drainage_in_prefix(s, n) == n,
    decreases n,
{
    if n > 0 {
        lemma_all_draining_prefix(s, (n - 1) as nat);
    }
}

/// A heightmap of zeros drains everywhere: each of its cells counts.
pub proof fn lemma_flat_zero_heightmap_drains(s: Seq<u32>)
    requires
        s.len() == GRID_CELL_COUNT,
        forall|i: int| 0 <= i < s.len() ==> #[trigger] s[i] == 0,
    ensures
        drainage_in_prefix(s, s.len()) == GRID_CELL_COUNT,
{
    lemma_all_draining_prefix(s, s.len());
}

/// A level heightmap, one sample repeated, has no turns when the curvature
/// test does not call three equal samples a turn.
pub proof fn lemma_level_heightmap_has_no_turns<F: Fn(u32, u32, u32) -> bool>(
    bends: F,
    s: Seq<u32>,
    v: u32,
    n: nat,
)
    requires
        n <= s.len(),
        forall|i: int| 0 <= i < s.len() ==> #[trigger] s[i] == v,
        !bends.ensures((v, v, v), true),
    ensures
        turns_in_prefix(bends, s, n) == 0,
    decreases n,
{
    if n > 0 {
        lemma_level_heightmap_has_no_turns(bends, s, v, (n - 1) as nat);
        if (n - 1) % (GRID_WIDTH as int) >= 2 {
            assert(s[n - 3] == v && s[n - 2] == v && s[n - 1] == v);
        }
    }
}

/// Scanning is deterministic: under a curvature test that decides each run,
/// any two tallies of the same heightmap are equal.
pub proof fn lemma_scan_deterministic<F: Fn(u32, u32, u32) -> bool>(
    bends: F,
    s: Seq<u32>,
    first: TerrainCounts,
    second: TerrainCounts,
)
    requires
        decides_runs(bends),
        tallies_of(bends, s, first),
        tallies_of(bends, s, second),
    ensures
        first == second,
{
}

} // verus!
