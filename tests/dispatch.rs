use terrain_core::{
    compute_dispatch, five_pass_dispatch_sequence, four_pass_dispatch_sequence, grid_cell_count,
    grid_height, grid_width, map_flat_1d_to_gpu, n_pass_dispatch_sequence,
    single_pass_dispatch_sequence, six_pass_dispatch_sequence, three_pass_dispatch_sequence,
    TerrainError,
};

const CELLS: u32 = 2_097_152;

fn float_covered(coverage: f32) -> u32 {
    ((CELLS as f32) * coverage).ceil().max(1.0) as u32
}

#[test]
fn grid_dimensions() {
    assert_eq!(grid_width(), 2048);
    assert_eq!(grid_height(), 1024);
    assert_eq!(grid_cell_count(), CELLS);
}

#[test]
fn full_coverage_covers_grid() {
    assert_eq!(compute_dispatch(CELLS, 1.0f32.to_bits()), Ok((CELLS, 8192)));
}

#[test]
fn zero_coverage_covers_one_cell() {
    assert_eq!(compute_dispatch(CELLS, 0.0f32.to_bits()), Ok((1, 1)));
    assert_eq!(compute_dispatch(CELLS, (-0.0f32).to_bits()), Ok((1, 1)));
}

#[test]
fn half_coverage() {
    assert_eq!(compute_dispatch(CELLS, 0.5f32.to_bits()), Ok((1_048_576, 4096)));
}

#[test]
fn partial_work_group_rounds_up() {
    // 257 cells need two work-groups of 256.
    let coverage = 257.0f32 / CELLS as f32;
    assert_eq!(compute_dispatch(CELLS, coverage.to_bits()), Ok((257, 2)));
}

#[test]
fn wrong_cell_count_is_refused() {
    assert_eq!(compute_dispatch(CELLS - 1, 0.5f32.to_bits()), Err(TerrainError::InvalidGridSize));
    assert_eq!(compute_dispatch(0, 0.5f32.to_bits()), Err(TerrainError::InvalidGridSize));
    // The cell count is checked before the coverage.
    assert_eq!(compute_dispatch(7, f32::NAN.to_bits()), Err(TerrainError::InvalidGridSize));
}

#[test]
fn coverage_outside_unit_interval_is_refused() {
    for c in [1.0000001f32, 1.5, 2.0, -0.1, -f32::MIN_POSITIVE, f32::INFINITY, f32::NEG_INFINITY, f32::NAN, -f32::NAN] {
        assert_eq!(compute_dispatch(CELLS, c.to_bits()), Err(TerrainError::InvalidCoverage), "{c}");
    }
}

#[test]
fn covered_cells_agree_with_float_rule() {
    let mut values = vec![
        0.0f32, 1.0, 0.25, 0.3, 0.333, 0.999999, 1e-7, 1e-30, f32::MIN_POSITIVE, 1e-45, 0.1,
        0.7, 0.42, 0.0035,
    ];
    let mut x = 0x1234_5678u32;
    for _ in 0..2000 {
        x = x.wrapping_mul(1_664_525).wrapping_add(1_013_904_223);
        values.push((x >> 8) as f32 / (1u32 << 24) as f32);
        values.push(f32::from_bits(x % 0x3F80_0001));
    }
    for c in values {
        let covered = float_covered(c);
        let expected = (covered, covered.div_ceil(256));
        assert_eq!(compute_dispatch(CELLS, c.to_bits()), Ok(expected), "coverage {c:e}");
    }
}

#[test]
fn single_dispatch_geometry() {
    assert_eq!(map_flat_1d_to_gpu(CELLS, 0.5f32.to_bits()), Ok(vec![2048, 1024, 1_048_576, 4096, 256]));
    assert_eq!(map_flat_1d_to_gpu(CELLS, 0.0f32.to_bits()), Ok(vec![2048, 1024, 1, 1, 256]));
    assert_eq!(map_flat_1d_to_gpu(1, 0.5f32.to_bits()), Err(TerrainError::InvalidGridSize));
    assert_eq!(map_flat_1d_to_gpu(CELLS, 3.0f32.to_bits()), Err(TerrainError::InvalidCoverage));
}

#[test]
fn reduction_pipelines_have_fixed_shapes() {
    let bits = 1.0f32.to_bits();
    // primary 8192 work-groups, reduction ceil(8192 / 64) = 128.
    assert_eq!(three_pass_dispatch_sequence(CELLS, bits), Ok(vec![8192, 128, 8192]));
    assert_eq!(four_pass_dispatch_sequence(CELLS, bits), Ok(vec![8192, 128, 8192, 8192]));
    assert_eq!(five_pass_dispatch_sequence(CELLS, bits), Ok(vec![8192, 128, 8192, 8192, 8192]));
    assert_eq!(
        six_pass_dispatch_sequence(CELLS, bits),
        Ok(vec![8192, 128, 8192, 8192, 8192, 8192])
    );
}

#[test]
fn reduction_pass_rounds_up_and_floors_at_one() {
    // 0.5 coverage: primary 4096, reduction 64.
    assert_eq!(three_pass_dispatch_sequence(CELLS, 0.5f32.to_bits()), Ok(vec![4096, 64, 4096]));
    // 65 primary work-groups need two reduction work-groups.
    let coverage = (65.0f32 * 256.0) / CELLS as f32;
    assert_eq!(three_pass_dispatch_sequence(CELLS, coverage.to_bits()), Ok(vec![65, 2, 65]));
    // One primary work-group: the reduction still has one.
    assert_eq!(four_pass_dispatch_sequence(CELLS, 0.0f32.to_bits()), Ok(vec![1, 1, 1, 1]));
}

#[test]
fn reduction_pipeline_slots_for_every_length() {
    let builders = [
        three_pass_dispatch_sequence,
        four_pass_dispatch_sequence,
        five_pass_dispatch_sequence,
        six_pass_dispatch_sequence,
    ];
    for c in [0.0f32, 0.01, 0.3, 0.77, 1.0] {
        let (_, primary) = compute_dispatch(CELLS, c.to_bits()).unwrap();
        let reduction = primary.div_ceil(64).max(1);
        for (k, build) in builders.iter().enumerate() {
            let seq = build(CELLS, c.to_bits()).unwrap();
            assert_eq!(seq.len(), k + 3);
            for (i, v) in seq.iter().enumerate() {
                assert_eq!(*v, if i == 1 { reduction } else { primary });
            }
        }
    }
}

#[test]
fn reduction_pipelines_pass_errors_on() {
    assert_eq!(five_pass_dispatch_sequence(3, 0.5f32.to_bits()), Err(TerrainError::InvalidGridSize));
    assert_eq!(six_pass_dispatch_sequence(CELLS, f32::NAN.to_bits()), Err(TerrainError::InvalidCoverage));
}

#[test]
fn uniform_pipelines() {
    let bits = 0.5f32.to_bits();
    assert_eq!(single_pass_dispatch_sequence(CELLS, bits), Ok(vec![4096]));
    assert_eq!(n_pass_dispatch_sequence(CELLS, bits, 1), Ok(vec![4096]));
    assert_eq!(n_pass_dispatch_sequence(CELLS, bits, 4), Ok(vec![4096; 4]));
    let seq = n_pass_dispatch_sequence(CELLS, 0.9f32.to_bits(), 17).unwrap();
    assert_eq!(seq.len(), 17);
    assert!(seq.iter().all(|v| *v == seq[0]));
}

#[test]
fn zero_passes_are_refused() {
    assert_eq!(n_pass_dispatch_sequence(CELLS, 0.5f32.to_bits(), 0), Err(TerrainError::InvalidPassCount));
    assert_eq!(n_pass_dispatch_sequence(5, 0.5f32.to_bits(), 0), Err(TerrainError::InvalidGridSize));
    assert_eq!(single_pass_dispatch_sequence(CELLS, 9.0f32.to_bits()), Err(TerrainError::InvalidCoverage));
}
