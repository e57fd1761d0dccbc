use terrain_core::{check_heightmap_len, metrics_record, sample_drains, scan_heightmap, TerrainCounts, TerrainError};

const CELLS: usize = 2_097_152;
const RUNS: u64 = 1024 * 2046;

fn curvature_exceeds(a: u32, b: u32, c: u32) -> bool {
    let a = f32::from_bits(a).clamp(0.0, 1.0);
    let b = f32::from_bits(b).clamp(0.0, 1.0);
    let c = f32::from_bits(c).clamp(0.0, 1.0);
    ((c - b) - (b - a)).abs() > 0.0035
}

fn record_for(counts: &TerrainCounts, latency_ms: f64) -> String {
    let ratio = counts.straight_count as f64 / counts.turn_divisor() as f64;
    let sinuosity = 1.0 + (counts.turn_count as f64 / counts.straight_divisor() as f64) * 0.1;
    let drainage = (counts.drainage_cells as f64 / CELLS as f64) * 100.0;
    metrics_record(
        &format!("{sinuosity:.6}"),
        &format!("{ratio:.6}"),
        &format!("{drainage:.6}"),
        &format!("{latency_ms:.6}"),
    )
}

#[test]
fn zero_heightmap_metrics() {
    let flat = vec![0.0f32.to_bits(); CELLS];
    let counts = scan_heightmap(&flat, curvature_exceeds).unwrap();
    assert_eq!(counts.drainage_cells, CELLS as u64);
    assert_eq!(counts.turn_count, 0);
    assert_eq!(counts.straight_count, RUNS);
    assert_eq!(counts.turn_divisor(), 1);
    assert_eq!(
        record_for(&counts, 0.0),
        "{\"sinuosity_index\":1.000000,\"straight_to_turn_ratio\":2095104.000000,\"hydro_drainage_pct\":100.000000,\"latency_ms\":0.000000}"
    );
}

#[test]
fn wrong_length_is_refused_whatever_it_holds() {
    for len in [0usize, 1, CELLS - 1, CELLS + 1] {
        let flat = vec![0.9f32.to_bits(); len];
        assert_eq!(scan_heightmap(&flat, curvature_exceeds), Err(TerrainError::LengthMismatch));
        assert_eq!(check_heightmap_len(len), Err(TerrainError::LengthMismatch));
    }
    assert_eq!(check_heightmap_len(CELLS), Ok(()));
}

#[test]
fn drainage_cutoff_on_bits() {
    assert!(sample_drains(0.0f32.to_bits()));
    assert!(sample_drains((-0.0f32).to_bits()));
    assert!(sample_drains((-3.5f32).to_bits()));
    assert!(sample_drains(f32::NEG_INFINITY.to_bits()));
    assert!(sample_drains(0.42f32.to_bits() - 1));
    assert!(!sample_drains(0.42f32.to_bits()));
    assert!(!sample_drains(0.5f32.to_bits()));
    assert!(!sample_drains(7.0f32.to_bits()));
    assert!(!sample_drains(f32::INFINITY.to_bits()));
    assert!(!sample_drains(f32::NAN.to_bits()));
    assert!(!sample_drains((-f32::NAN).to_bits()));
}

#[test]
fn drainage_agrees_with_float_rule() {
    let mut x = 0x9E37_79B9u32;
    for _ in 0..20000 {
        x = x.wrapping_mul(1_664_525).wrapping_add(1_013_904_223);
        let v = f32::from_bits(x);
        assert_eq!(sample_drains(x), v.clamp(0.0, 1.0) < 0.42, "{v:e}");
    }
}

#[test]
fn runs_stay_within_rows() {
    // Each sample holds its own index; a run spanning two rows would start in
    // one of the last two columns.
    let flat: Vec<u32> = (0..CELLS as u32).collect();
    let in_row = |a: u32, b: u32, c: u32| a % 2048 <= 2045 && b == a + 1 && c == b + 1;
    let counts = scan_heightmap(&flat, in_row).unwrap();
    assert_eq!(counts.turn_count, RUNS);
    assert_eq!(counts.straight_count, 0);
}

#[test]
fn mixed_heightmap_metrics() {
    // Each row climbs steadily, then bends once in its middle; the left half lies low.
    let mut flat = Vec::with_capacity(CELLS);
    for _ in 0..1024 {
        for x in 0..2048u32 {
            let v = if x < 1024 { 0.0f32 } else { (x - 1024) as f32 / 1024.0 };
            flat.push(v.to_bits());
        }
    }
    let counts = scan_heightmap(&flat, curvature_exceeds).unwrap();
    let low_per_row = (0..2048u32).filter(|x| *x < 1024 || ((x - 1024) as f32 / 1024.0) < 0.42).count() as u64;
    assert_eq!(counts.drainage_cells, low_per_row * 1024);
    assert_eq!(counts.turn_count + counts.straight_count, RUNS);
    assert_eq!(counts.turn_count, 0);
    let drainage = (counts.drainage_cells as f64 / CELLS as f64) * 100.0;
    assert!(record_for(&counts, 1.5).contains(&format!("\"hydro_drainage_pct\":{drainage:.6}")));
}

#[test]
fn sharp_bends_count_as_turns() {
    // Alternate 0 and 1 along every row: every run of three bends sharply.
    let flat: Vec<u32> = (0..CELLS).map(|i| if i % 2 == 0 { 0.0f32 } else { 1.0 }.to_bits()).collect();
    let counts = scan_heightmap(&flat, curvature_exceeds).unwrap();
    assert_eq!(counts.turn_count, RUNS);
    assert_eq!(counts.straight_count, 0);
    assert_eq!(counts.drainage_cells, CELLS as u64 / 2);
    assert_eq!(counts.straight_divisor(), 1);
    assert_eq!(
        record_for(&counts, 12.25),
        "{\"sinuosity_index\":209511.400000,\"straight_to_turn_ratio\":0.000000,\"hydro_drainage_pct\":50.000000,\"latency_ms\":12.250000}"
    );
}

#[test]
fn scanning_twice_gives_identical_records() {
    let flat: Vec<u32> = (0..CELLS).map(|i| ((i * 7919 % 1000) as f32 / 1000.0).to_bits()).collect();
    let first = record_for(&scan_heightmap(&flat, curvature_exceeds).unwrap(), 3.75);
    let second = record_for(&scan_heightmap(&flat, curvature_exceeds).unwrap(), 3.75);
    assert_eq!(first, second);
}

#[test]
fn latency_passes_through() {
    let counts = TerrainCounts { turn_count: 0, straight_count: 0, drainage_cells: 0 };
    for latency in [0.0f64, 16.6667, 123456789.125, 1e12] {
        let record = record_for(&counts, latency);
        assert!(record.ends_with(&format!(",\"latency_ms\":{latency:.6}}}")), "{record}");
    }
}

#[test]
fn record_layout() {
    assert_eq!(
        metrics_record("a", "b", "c", "d"),
        "{\"sinuosity_index\":a,\"straight_to_turn_ratio\":b,\"hydro_drainage_pct\":c,\"latency_ms\":d}"
    );
}

#[test]
fn counts_merge_by_addition() {
    let a = TerrainCounts { turn_count: 3, straight_count: 5, drainage_cells: 7 };
    let b = TerrainCounts { turn_count: 10, straight_count: 20, drainage_cells: 30 };
    assert_eq!(a.merge(b), TerrainCounts { turn_count: 13, straight_count: 25, drainage_cells: 37 });
    assert_eq!(TerrainCounts::empty().merge(a), a);
    assert_eq!(a.turn_divisor(), 3);
    assert_eq!(a.straight_divisor(), 5);
    assert_eq!(TerrainCounts::empty().turn_divisor(), 1);
    assert_eq!(TerrainCounts::empty().straight_divisor(), 1);
}
