use terrain_core::{
    deterministic_seed, deterministic_seed_from_input, normalized_plate_count,
    normalized_plate_count_from_slider,
};

fn float_seed(raw: f64) -> u32 {
    if !raw.is_finite() || raw.is_sign_negative() {
        return 1337;
    }
    raw.floor().min(u32::MAX as f64) as u32
}

fn float_plate_count(raw: f32) -> u32 {
    if !raw.is_finite() {
        return 15;
    }
    raw.round().clamp(3.0, 100.0) as u32
}

#[test]
fn parameter_defaults() {
    assert_eq!(deterministic_seed(), 1337);
    assert_eq!(normalized_plate_count(), 15);
}

#[test]
fn seed_from_input_examples() {
    assert_eq!(deterministic_seed_from_input(42.9f64.to_bits()), 42);
    assert_eq!(deterministic_seed_from_input(0.0f64.to_bits()), 0);
    assert_eq!(deterministic_seed_from_input(0.999f64.to_bits()), 0);
    assert_eq!(deterministic_seed_from_input(4294967295.7f64.to_bits()), u32::MAX);
    assert_eq!(deterministic_seed_from_input(1e20f64.to_bits()), u32::MAX);
    assert_eq!(deterministic_seed_from_input(f64::MAX.to_bits()), u32::MAX);
}

#[test]
fn seed_falls_back_to_default() {
    for raw in [-0.0f64, -1.0, -1e300, f64::NAN, -f64::NAN, f64::INFINITY, f64::NEG_INFINITY] {
        assert_eq!(deterministic_seed_from_input(raw.to_bits()), 1337, "{raw}");
    }
}

#[test]
fn seed_agrees_with_float_rule() {
    let mut x = 0x0123_4567_89AB_CDEFu64;
    for _ in 0..20000 {
        x = x.wrapping_mul(6_364_136_223_846_793_005).wrapping_add(1_442_695_040_888_963_407);
        let scaled = (x >> 11) as f64 / 1024.0;
        for raw in [f64::from_bits(x), scaled, scaled / 1e6] {
            assert_eq!(deterministic_seed_from_input(raw.to_bits()), float_seed(raw), "{raw:e}");
        }
    }
}

#[test]
fn plate_count_examples() {
    assert_eq!(normalized_plate_count_from_slider(2.4f32.to_bits()), 3);
    assert_eq!(normalized_plate_count_from_slider(3.5f32.to_bits()), 4);
    assert_eq!(normalized_plate_count_from_slider(7.49f32.to_bits()), 7);
    assert_eq!(normalized_plate_count_from_slider(99.5f32.to_bits()), 100);
    assert_eq!(normalized_plate_count_from_slider(150.0f32.to_bits()), 100);
    assert_eq!(normalized_plate_count_from_slider((-5.0f32).to_bits()), 3);
    assert_eq!(normalized_plate_count_from_slider(f32::NAN.to_bits()), 15);
    assert_eq!(normalized_plate_count_from_slider(f32::NEG_INFINITY.to_bits()), 15);
}

#[test]
fn plate_count_agrees_with_float_rule() {
    let mut values = vec![0.0f32, -0.0, 0.5, 1.5, 2.5, 2.4999998, 50.5, 99.49999, 100.0, 1e-40, 1e30];
    let mut x = 0xDEAD_BEEFu32;
    for _ in 0..20000 {
        x = x.wrapping_mul(1_664_525).wrapping_add(1_013_904_223);
        values.push(f32::from_bits(x));
        values.push((x >> 16) as f32 / 256.0);
    }
    for raw in values {
        assert_eq!(normalized_plate_count_from_slider(raw.to_bits()), float_plate_count(raw), "{raw:e}");
    }
}
