//! Dispatch sizing: how many grid cells a coverage fraction makes active, and
//! how many work-groups each pass of a compute pipeline needs for them.
//!
//! A coverage fraction is taken as the bit pattern of an IEEE-754
//! single-precision number (`f32::to_bits`). Every such number in `[0, 1]` is
//! a significand over a power of two, so the covered-cell count is computed
//! exactly, with integers.
use crate::bits::{
    magnitude, pow2_u64, scale_exponent, significand, FRACTION_SPAN, ONE_BITS,
    SIGN_BIT,
};
use crate::error::TerrainError;
use crate::grid::{GRID_CELL_COUNT, GRID_HEIGHT, GRID_WIDTH, WORKGROUP_SIZE};
use vstd::arithmetic::power2::{
    lemma2_to64, lemma2_to64_rest, lemma_pow2_pos, lemma_pow2_strictly_increases, pow2,
};
use vstd::prelude::*;

verus! {

/// Work-groups of a primary pass folded by one work-group of a reduction pass.
pub const REDUCTION_FAN_IN: u32 = 64;

/// `ceil(a / b)` for a positive `b`.
pub open spec fn ceil_div(a: int, b: int) -> int {
    (a + b - 1) / b
}

/// The larger of `a` and `b`.
pub open spec fn max_int(a: int, b: int) -> int {
    if a >= b { a } else { b }
}

/// The pattern stands for a number in `[0, 1]`: `+0.0` up to `1.0`, or `-0.0`.
/// Not-a-number lies outside.
pub open spec fn coverage_in_range(bits: u32) -> bool {
    magnitude(bits) <= ONE_BITS && (bits < SIGN_BIT || magnitude(bits) == 0)
}

/// `max(1, ceil(GRID_CELL_COUNT * coverage))`, with the coverage written as
/// `significand / 2^scale_exponent`.
pub open spec fn covered_cells_of(bits: u32) -> int {
    max_int(
        1,
        ceil_div(GRID_CELL_COUNT * significand(bits), pow2(scale_exponent(bits)) as int),
    )
}

/// Work-groups of a primary pass over the covered cells.
pub open spec fn primary_dispatch_of(bits: u32) -> int {
    ceil_div(covered_cells_of(bits), WORKGROUP_SIZE as int)
}

/// Work-groups of a reduction pass behind a primary pass of `primary` work-groups.
pub open spec fn reduction_dispatch_of(primary: int) -> int {
    max_int(1, ceil_div(primary, REDUCTION_FAN_IN as int))
}

/// The error that a dispatch request meets, if any: the cell count is checked first.
pub open spec fn dispatch_error(flat_cell_count: u32, bits: u32) -> Option<TerrainError> {
    if flat_cell_count != GRID_CELL_COUNT {
        Some(TerrainError::InvalidGridSize)
    } else if !coverage_in_range(bits) {
        Some(TerrainError::InvalidCoverage)
    } else {
        None
    }
}

/// `k` passes: the reduction pass second, every other pass a primary pass.
pub open spec fn reduction_sequence(primary: int, k: nat) -> Seq<u32> {
    Seq::new(k, |i: int| if i == 1 { reduction_dispatch_of(primary) as u32 } else { primary as u32 })
}

/// `k` primary passes.
pub open spec fn uniform_sequence(primary: int, k: nat) -> Seq<u32> {
    Seq::new(k, |i: int| primary as u32)
}

/// What a sequence builder returns: the dispatch error where there is one,
/// otherwise the work-group counts `shape`.
pub open spec fn builder_result(
    r: Result<Vec<u32>, TerrainError>,
    flat_cell_count: u32,
    bits: u32,
    shape: Seq<u32>,
) -> bool {
    match dispatch_error(flat_cell_count, bits) {
        Some(e) => r == Err::<Vec<u32>, TerrainError>(e),
        None => r is Ok && r->Ok_0@ == shape,
    }
}

/// The covered-cell count for an in-range coverage fraction.
fn covered_cells_for(coverage_bits: u32) -> (r: u32)
    requires
        coverage_in_range(coverage_bits),
    ensures
        r == covered_cells_of(coverage_bits),
        1 <= r <= GRID_CELL_COUNT,
{
    let magnitude: u32 = coverage_bits % SIGN_BIT;
    let exponent: u32 = magnitude / FRACTION_SPAN;
    let fraction: u32 = magnitude % FRACTION_SPAN;
    let sig: u32;
    let scale: u32;
    if exponent == 0 {
        sig = fraction;
        scale = 149;
    } else {
        sig = fraction + FRACTION_SPAN;
        scale = 150 - exponent;
    }
    assert(sig == significand(coverage_bits) && scale == scale_exponent(coverage_bits));
    assert(exponent <= 127);
    assert(sig < 0x100_0000);
    let ghost n: int = GRID_CELL_COUNT * sig;
    let ghost d: int = pow2(scale as nat) as int;
    proof {
        lemma_pow2_pos(scale as nat);
        lemma2_to64();
    }
    if scale > 45 {
        proof {
            lemma2_to64_rest();
            lemma_pow2_strictly_increases(45, scale as nat);
            assert(n <= d);
            assert(0 <= ceil_div(n, d) <= 1) by (nonlinear_arith)
                requires
                    0 <= n <= d,
                    d > 0,
            ;
        }
        return 1;
    }
    // The coverage is at most one: `significand <= 2^scale`.
    proof {
        if exponent == 127 {
            assert(fraction == 0);
        } else {
            if scale > 24 {
                lemma_pow2_strictly_increases(24, scale as nat);
            }
        }
        assert(sig <= d);
    }
    let numerator: u64 = GRID_CELL_COUNT as u64 * sig as u64;
    let denominator: u64 = pow2_u64(scale);
    let cells: u64 = (numerator + denominator - 1) / denominator;
    proof {
        assert(cells <= GRID_CELL_COUNT) by (nonlinear_arith)
            requires
                cells as int == (numerator + denominator - 1) as int / denominator as int,
                numerator == 2097152 * sig,
                sig <= denominator,
                denominator > 0,
        ;
    }
    if cells < 1 {
        1
    } else {
        cells as u32
    }
}

/// Sizes a single dispatch over the grid: returns the covered-cell count,
/// `max(1, ceil(cell_count * coverage))`, and the work-groups of a primary
/// pass over them, `ceil(covered / WORKGROUP_SIZE)`.
///
/// `coverage_bits` is the bit pattern of the single-precision coverage
/// fraction. The cell count must equal the grid's; the coverage must lie in
/// `[0, 1]`, not-a-number excluded.
pub fn compute_dispatch(flat_cell_count: u32, coverage_bits: u32) -> (r: Result<
    (u32, u32),
    TerrainError,
>)
    ensures
        match dispatch_error(flat_cell_count, coverage_bits) {
            Some(e) => r == Err::<(u32, u32), TerrainError>(e),
            None => r == Ok::<(u32, u32), TerrainError>(
                (
                    covered_cells_of(coverage_bits) as u32,
                    primary_dispatch_of(coverage_bits) as u32,
                ),
            ),
        },
        dispatch_error(flat_cell_count, coverage_bits) is None ==> 1 <= covered_cells_of(
            coverage_bits,
        ) <= GRID_CELL_COUNT && 1 <= primary_dispatch_of(coverage_bits) <= GRID_CELL_COUNT
            / WORKGROUP_SIZE,
{
    if flat_cell_count != GRID_CELL_COUNT {
        return Err(TerrainError::InvalidGridSize);
    }
    let magnitude: u32 = coverage_bits % SIGN_BIT;
    if magnitude > ONE_BITS || (coverage_bits >= SIGN_BIT && magnitude != 0) {
        return Err(TerrainError::InvalidCoverage);
    }
    let covered_cells = covered_cells_for(coverage_bits);
    let dispatch_x = covered_cells / WORKGROUP_SIZE + if covered_cells % WORKGROUP_SIZE == 0 {
        0
    } else {
        1
    };
    Ok((covered_cells, dispatch_x))
}

/// Work-groups of a reduction pass: `max(1, ceil(primary / REDUCTION_FAN_IN))`.
fn reduction_dispatch(primary: u32) -> (r: u32)
    ensures
        r == reduction_dispatch_of(primary as int),
{
    let folded = primary / REDUCTION_FAN_IN + if primary % REDUCTION_FAN_IN == 0 {
        0
    } else {
        1
    };
    if folded < 1 {
        1
    } else {
        folded
    }
}

/// `passes` work-group counts: the reduction count second, the primary count elsewhere.
fn reduction_passes(primary: u32, passes: usize) -> (r: Vec<u32>)
    ensures
        r@ == reduction_sequence(primary as int, passes as nat),
{
    let reduce = reduction_dispatch(primary);
    let mut out: Vec<u32> = Vec::new();
    let mut i: usize = 0;
    while i < passes
        invariant
            i <= passes,
            reduce == reduction_dispatch_of(primary as int),
            out@ =~= reduction_sequence(primary as int, i as nat),
        decreases passes - i,
    {
        if i == 1 {
            out.push(reduce);
        } else {
            out.push(primary);
        }
        i = i + 1;
    }
    out
}

/// `passes` copies of the primary count.
fn uniform_passes(primary: u32, passes: u32) -> (r: Vec<u32>)
    ensures
        r@ == uniform_sequence(primary as int, passes as nat),
{
    let mut out: Vec<u32> = Vec::new();
    let mut i: u32 = 0;
    while i < passes
        invariant
            i <= passes,
            out@ =~= uniform_sequence(primary as int, i as nat),
        decreases passes - i,
    {
        out.push(primary);
        i = i + 1;
    }
    out
}

/// The dispatch geometry of one pass: grid width and height, covered cells,
/// primary work-groups and the work-group size.
pub fn map_flat_1d_to_gpu(flat_cell_count: u32, coverage_bits: u32) -> (r: Result<
    Vec<u32>,
    TerrainError,
>)
    ensures
        builder_result(
            r,
            flat_cell_count,
            coverage_bits,
            seq![
                GRID_WIDTH,
                GRID_HEIGHT,
                covered_cells_of(coverage_bits) as u32,
                primary_dispatch_of(coverage_bits) as u32,
                WORKGROUP_SIZE,
            ],
        ),
{
    let (covered_cells, dispatch_x) = match compute_dispatch(flat_cell_count, coverage_bits) {
        Ok(plan) => plan,
        Err(e) => return Err(e),
    };
    let out = vec![GRID_WIDTH, GRID_HEIGHT, covered_cells, dispatch_x, WORKGROUP_SIZE];
    assert(out@ =~= seq![
        GRID_WIDTH,
        GRID_HEIGHT,
        covered_cells_of(coverage_bits) as u32,
        primary_dispatch_of(coverage_bits) as u32,
        WORKGROUP_SIZE,
    ]);
    Ok(out)
}

/// The work-groups of a single primary pass.
pub fn single_pass_dispatch_sequence(flat_cell_count: u32, coverage_bits: u32) -> (r: Result<
    Vec<u32>,
    TerrainError,
>)
    ensures
        builder_result(
            r,
            flat_cell_count,
            coverage_bits,
            uniform_sequence(primary_dispatch_of(coverage_bits), 1),
        ),
{
    match compute_dispatch(flat_cell_count, coverage_bits) {
        Ok((_, dispatch_x)) => Ok(uniform_passes(dispatch_x, 1)),
        Err(e) => Err(e),
    }
}

/// The work-groups of `passes` primary passes. The dispatch is sized first;
/// then a pass count of zero is refused.
pub fn n_pass_dispatch_sequence(flat_cell_count: u32, coverage_bits: u32, passes: u32) -> (r:
    Result<Vec<u32>, TerrainError>)
    ensures
        dispatch_error(flat_cell_count, coverage_bits) is None && passes == 0 ==> r == Err::<
            Vec<u32>,
            TerrainError,
        >(TerrainError::InvalidPassCount),
        passes > 0 || dispatch_error(flat_cell_count, coverage_bits) is Some ==> builder_result(
            r,
            flat_cell_count,
            coverage_bits,
            uniform_sequence(primary_dispatch_of(coverage_bits), passes as nat),
        ),
{
    match compute_dispatch(flat_cell_count, coverage_bits) {
        Ok((_, dispatch_x)) => {
            if passes == 0 {
                Err(TerrainError::InvalidPassCount)
            } else {
                Ok(uniform_passes(dispatch_x, passes))
            }
        },
        Err(e) => Err(e),
    }
}

/// Sizes the dispatch, then lays out `passes` passes with the reduction pass second.
fn reduction_pipeline(flat_cell_count: u32, coverage_bits: u32, passes: usize) -> (r: Result<
    Vec<u32>,
    TerrainError,
>)
    ensures
        builder_result(
            r,
            flat_cell_count,
            coverage_bits,
            reduction_sequence(primary_dispatch_of(coverage_bits), passes as nat),
        ),
{
    match compute_dispatch(flat_cell_count, coverage_bits) {
        Ok((_, dispatch_x)) => Ok(reduction_passes(dispatch_x, passes)),
        Err(e) => Err(e),
    }
}

/// Three passes: primary, reduction, primary.
pub fn three_pass_dispatch_sequence(flat_cell_count: u32, coverage_bits: u32) -> (r: Result<
    Vec<u32>,
    TerrainError,
>)
    ensures
        builder_result(
            r,
            flat_cell_count,
            coverage_bits,
            reduction_sequence(primary_dispatch_of(coverage_bits), 3),
        ),
{
    reduction_pipeline(flat_cell_count, coverage_bits, 3)
}

/// Four passes: primary, reduction, then two primary passes.
pub fn four_pass_dispatch_sequence(flat_cell_count: u32, coverage_bits: u32) -> (r: Result<
    Vec<u32>,
    TerrainError,
>)
    ensures
        builder_result(
            r,
            flat_cell_count,
            coverage_bits,
            reduction_sequence(primary_dispatch_of(coverage_bits), 4),
        ),
{
    reduction_pipeline(flat_cell_count, coverage_bits, 4)
}

/// Five passes: primary, reduction, then three primary passes.
pub fn five_pass_dispatch_sequence(flat_cell_count: u32, coverage_bits: u32) -> (r: Result<
    Vec<u32>,
    TerrainError,
>)
    ensures
        builder_result(
            r,
            flat_cell_count,
            coverage_bits,
            reduction_sequence(primary_dispatch_of(coverage_bits), 5),
        ),
{
    reduction_pipeline(flat_cell_count, coverage_bits, 5)
}

/// Six passes: primary, reduction, then four primary passes.
pub fn six_pass_dispatch_sequence(flat_cell_count: u32, coverage_bits: u32) -> (r: Result<
    Vec<u32>,
    TerrainError,
>)
    ensures
        builder_result(
            r,
            flat_cell_count,
            coverage_bits,
            reduction_sequence(primary_dispatch_of(coverage_bits), 6),
        ),
{
    reduction_pipeline(flat_cell_count, coverage_bits, 6)
}

/// Every valid request covers at least one cell, and its primary pass has
/// `ceil(covered / WORKGROUP_SIZE)` work-groups, at least one.
pub proof fn lemma_dispatch_covers_a_cell(coverage_bits: u32)
    requires
        coverage_in_range(coverage_bits),
    ensures
        covered_cells_of(coverage_bits) >= 1,
        primary_dispatch_of(coverage_bits) == ceil_div(
            covered_cells_of(coverage_bits),
            WORKGROUP_SIZE as int,
        ),
        primary_dispatch_of(coverage_bits) >= 1,
{
    assert(ceil_div(covered_cells_of(coverage_bits), 256) >= 1) by (nonlinear_arith)
        requires
            covered_cells_of(coverage_bits) >= 1,
    ;
}

/// A coverage of `1.0` covers the whole grid.
pub proof fn lemma_full_coverage_covers_grid()
    ensures
        coverage_in_range(ONE_BITS),
        covered_cells_of(ONE_BITS) == GRID_CELL_COUNT,
{
    lemma2_to64();
    assert(significand(ONE_BITS) == 0x80_0000);
    assert(scale_exponent(ONE_BITS) == 23);
}

/// A coverage of `0.0`, of either sign, still covers one cell.
pub proof fn lemma_zero_coverage_covers_one_cell()
    ensures
        coverage_in_range(0),
        covered_cells_of(0) == 1,
        coverage_in_range(SIGN_BIT),
        covered_cells_of(SIGN_BIT) == 1,
{
    lemma_pow2_pos(149);
    assert(significand(0) == 0);
    assert(significand(SIGN_BIT) == 0);
    let d = pow2(149) as int;
    assert(ceil_div(0, d) == 0) by (nonlinear_arith)
        requires
            d > 0,
    ;
}

/// A reduction pipeline of three to six passes has one count per pass: the
/// second is `max(1, ceil(primary / REDUCTION_FAN_IN))`, all others `primary`.
pub proof fn lemma_reduction_pipeline_shape(primary: u32, passes: nat)
    requires
        3 <= passes <= 6,
    ensures
        reduction_sequence(primary as int, passes).len() == passes,
        reduction_sequence(primary as int, passes)[1] == max_int(
            1,
            ceil_div(primary as int, REDUCTION_FAN_IN as int),
        ),
        forall|i: int|
            0 <= i < passes && i != 1 ==> #[trigger] reduction_sequence(primary as int, passes)[i]
                == primary,
{
    assert(0 <= ceil_div(primary as int, 64) <= primary as int + 1) by (nonlinear_arith);
}

/// A uniform pipeline of `passes` passes has `passes` counts, all equal to each other.
pub proof fn lemma_uniform_pipeline_shape(primary: u32, passes: nat)
    ensures
        uniform_sequence(primary as int, passes).len() == passes,
        forall|i: int, j: int|
            0 <= i < passes && 0 <= j < passes ==> #[trigger] uniform_sequence(
                primary as int,
                passes,
            )[i] == #[trigger] uniform_sequence(primary as int, passes)[j],
{
}

} // verus!
