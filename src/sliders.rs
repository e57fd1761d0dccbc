//! Float-valued parameters that the host derives from raw slider input: each
//! is a range clamp, some with a fallback for infinite or not-a-number input.
//!
//! Inputs and results are bit patterns of single-precision numbers
//! (`f32::to_bits`). A clamp only compares and picks one of its operands, so
//! it is decided exactly on the bits.
use crate::bits::{magnitude, INFINITY_BITS, ONE_BITS, SIGN_BIT};
use vstd::prelude::*;

verus! {

/// Bit pattern of `-1.0`.
pub const MINUS_ONE_BITS: u32 = 0xBF80_0000;

/// Bit pattern of `0.0`.
pub const ZERO_BITS: u32 = 0x0000_0000;

/// Bit pattern of `0.1`.
pub const TENTH_BITS: u32 = 0x3DCC_CCCD;

/// Bit pattern of `0.3`.
pub const POINT_THREE_BITS: u32 = 0x3E99_999A;

/// Bit pattern of `0.8`.
pub const POINT_EIGHT_BITS: u32 = 0x3F4C_CCCD;

/// Bit pattern of `2.0`.
pub const TWO_BITS: u32 = 0x4000_0000;

/// Bit pattern of `4.0`.
pub const FOUR_BITS: u32 = 0x4080_0000;

/// Bit pattern of `5.0`.
pub const FIVE_BITS: u32 = 0x40A0_0000;

/// Bit pattern of `20.0`.
pub const TWENTY_BITS: u32 = 0x41A0_0000;

/// Bit pattern of `50.0`.
pub const FIFTY_BITS: u32 = 0x4248_0000;

/// Bit pattern of `360.0`.
pub const FULL_TURN_BITS: u32 = 0x43B4_0000;

/// Bit pattern of the default fBm base frequency, `1.2`.
pub const DEFAULT_FBM_BASE_FREQUENCY_BITS: u32 = 0x3F99_999A;

/// Bit pattern of the default land threshold, `0.54`.
pub const DEFAULT_LAND_THRESHOLD_BITS: u32 = 0x3F0A_3D71;

/// Bit pattern of the default falloff strength, `2.2`.
pub const DEFAULT_FALLOFF_STRENGTH_BITS: u32 = 0x400C_CCCD;

/// Bit pattern of the default noise amplitude, `0.6`.
pub const DEFAULT_NOISE_AMPLITUDE_BITS: u32 = 0x3F19_999A;

/// Bit pattern of the default plate warp amplitude, `0.5`.
pub const DEFAULT_PLATE_WARP_AMPLITUDE_BITS: u32 = 0x3F00_0000;

/// Bit pattern of the default plate warp roughness, `0.6`.
pub const DEFAULT_PLATE_WARP_ROUGHNESS_BITS: u32 = 0x3F19_999A;

/// Bit pattern of the default mountain radius, `20.0`.
pub const DEFAULT_MOUNTAIN_RADIUS_BITS: u32 = 0x41A0_0000;

/// Bit pattern of the default mountain height, `0.8`.
pub const DEFAULT_MOUNTAIN_HEIGHT_BITS: u32 = 0x3F4C_CCCD;

/// Bit pattern of the default terrain roughness, `0.5`.
pub const DEFAULT_TERRAIN_ROUGHNESS_BITS: u32 = 0x3F00_0000;

/// Bit pattern of the default terrain frequency, `8.0`.
pub const DEFAULT_TERRAIN_FREQUENCY_BITS: u32 = 0x4100_0000;

/// Bit pattern of the default elevation scale, `10.0`.
pub const DEFAULT_ELEVATION_SCALE_BITS: u32 = 0x4120_0000;

/// Bit pattern of the default vertical exaggeration, `5.0`.
pub const DEFAULT_VERTICAL_EXAGGERATION_BITS: u32 = 0x40A0_0000;

/// Bit pattern of the default edge warp, `0.12`.
pub const DEFAULT_EDGE_WARP_BITS: u32 = 0x3DF5_C28F;

/// Bit pattern of the default sun angle, `315.0`.
pub const DEFAULT_SUN_ANGLE_BITS: u32 = 0x439D_8000;

/// The pattern is not a number.
pub open spec fn is_nan(bits: u32) -> bool {
    magnitude(bits) > INFINITY_BITS
}

/// The pattern is a finite number.
pub open spec fn is_finite(bits: u32) -> bool {
    magnitude(bits) < INFINITY_BITS
}

/// A key that orders numbers as their values do: the magnitude, negated when
/// the sign is set. Both zeros get the key zero, as they compare equal.
pub open spec fn order_key(bits: u32) -> int {
    if bits >= SIGN_BIT {
        -magnitude(bits)
    } else {
        magnitude(bits) as int
    }
}

/// `raw` held to `[lo, hi]`: `lo` when it compares below `lo`, `hi` when it
/// compares above `hi`, otherwise `raw` itself (not a number included).
pub open spec fn clamp_of(raw: u32, lo: u32, hi: u32) -> u32 {
    if is_nan(raw) {
        raw
    } else if order_key(raw) < order_key(lo) {
        lo
    } else if order_key(raw) > order_key(hi) {
        hi
    } else {
        raw
    }
}

/// Numeric `a < b` on two patterns that are numbers.
fn less_than(a: u32, b: u32) -> (r: bool)
    requires
        !is_nan(a),
        !is_nan(b),
    ensures
        r == (order_key(a) < order_key(b)),
{
    let ma = a % SIGN_BIT;
    let mb = b % SIGN_BIT;
    if a >= SIGN_BIT {
        if b >= SIGN_BIT {
            mb < ma
        } else {
            ma != 0 || mb != 0
        }
    } else {
        if b >= SIGN_BIT {
            false
        } else {
            ma < mb
        }
    }
}

/// Clamps a number's bit pattern to `[lo, hi]`, as `f32::clamp` does.
fn clamp_bits(raw: u32, lo: u32, hi: u32) -> (r: u32)
    requires
        !is_nan(lo),
        !is_nan(hi),
        order_key(lo) <= order_key(hi),
    ensures
        r == clamp_of(raw, lo, hi),
{
    if raw % SIGN_BIT > INFINITY_BITS {
        raw
    } else if less_than(raw, lo) {
        lo
    } else if less_than(hi, raw) {
        hi
    } else {
        raw
    }
}

/// Bit pattern of the default fBm base frequency.
pub fn normalized_fbm_base_frequency() -> (r: u32)
    ensures
        r == DEFAULT_FBM_BASE_FREQUENCY_BITS,
{
    DEFAULT_FBM_BASE_FREQUENCY_BITS
}

/// Bit pattern of the default land threshold.
pub fn normalized_land_threshold() -> (r: u32)
    ensures
        r == DEFAULT_LAND_THRESHOLD_BITS,
{
    DEFAULT_LAND_THRESHOLD_BITS
}

/// Bit pattern of the default falloff strength.
pub fn normalized_falloff_strength() -> (r: u32)
    ensures
        r == DEFAULT_FALLOFF_STRENGTH_BITS,
{
    DEFAULT_FALLOFF_STRENGTH_BITS
}

/// Bit pattern of the default noise amplitude.
pub fn normalized_noise_amplitude() -> (r: u32)
    ensures
        r == DEFAULT_NOISE_AMPLITUDE_BITS,
{
    DEFAULT_NOISE_AMPLITUDE_BITS
}

/// Bit pattern of the default edge warp.
pub fn normalized_edge_warp() -> (r: u32)
    ensures
        r == DEFAULT_EDGE_WARP_BITS,
{
    DEFAULT_EDGE_WARP_BITS
}

/// Bit pattern of the default plate warp amplitude.
pub fn normalized_plate_warp_amplitude() -> (r: u32)
    ensures
        r == DEFAULT_PLATE_WARP_AMPLITUDE_BITS,
{
    DEFAULT_PLATE_WARP_AMPLITUDE_BITS
}

/// Bit pattern of the default plate warp roughness.
pub fn normalized_plate_warp_roughness() -> (r: u32)
    ensures
        r == DEFAULT_PLATE_WARP_ROUGHNESS_BITS,
{
    DEFAULT_PLATE_WARP_ROUGHNESS_BITS
}

/// Bit pattern of the default mountain radius.
pub fn normalized_mountain_radius() -> (r: u32)
    ensures
        r == DEFAULT_MOUNTAIN_RADIUS_BITS,
{
    DEFAULT_MOUNTAIN_RADIUS_BITS
}

/// Bit pattern of the default mountain height.
pub fn normalized_mountain_height() -> (r: u32)
    ensures
        r == DEFAULT_MOUNTAIN_HEIGHT_BITS,
{
    DEFAULT_MOUNTAIN_HEIGHT_BITS
}

/// Bit pattern of the default terrain roughness.
pub fn normalized_terrain_roughness() -> (r: u32)
    ensures
        r == DEFAULT_TERRAIN_ROUGHNESS_BITS,
{
    DEFAULT_TERRAIN_ROUGHNESS_BITS
}

/// Bit pattern of the default terrain frequency.
pub fn normalized_terrain_frequency() -> (r: u32)
    ensures
        r == DEFAULT_TERRAIN_FREQUENCY_BITS,
{
    DEFAULT_TERRAIN_FREQUENCY_BITS
}

/// Bit pattern of the default sun angle.
pub fn normalized_sun_angle() -> (r: u32)
    ensures
        r == DEFAULT_SUN_ANGLE_BITS,
{
    DEFAULT_SUN_ANGLE_BITS
}

/// Bit pattern of the default elevation scale.
pub fn normalized_elevation_scale() -> (r: u32)
    ensures
        r == DEFAULT_ELEVATION_SCALE_BITS,
{
    DEFAULT_ELEVATION_SCALE_BITS
}

/// Bit pattern of the default vertical exaggeration.
pub fn normalized_vertical_exaggeration() -> (r: u32)
    ensures
        r == DEFAULT_VERTICAL_EXAGGERATION_BITS,
{
    DEFAULT_VERTICAL_EXAGGERATION_BITS
}

/// Land threshold held to `[-1, 2]`.
pub fn normalized_land_threshold_from_slider(raw_bits: u32) -> (r: u32)
    ensures
        r == clamp_of(raw_bits, MINUS_ONE_BITS, TWO_BITS),
{
    clamp_bits(raw_bits, MINUS_ONE_BITS, TWO_BITS)
}

/// Falloff strength held to `[0, 4]`.
pub fn normalized_falloff_strength_from_slider(raw_bits: u32) -> (r: u32)
    ensures
        r == clamp_of(raw_bits, ZERO_BITS, FOUR_BITS),
{
    clamp_bits(raw_bits, ZERO_BITS, FOUR_BITS)
}

/// Noise amplitude held to `[0, 2]`.
pub fn normalized_noise_amplitude_from_slider(raw_bits: u32) -> (r: u32)
    ensures
        r == clamp_of(raw_bits, ZERO_BITS, TWO_BITS),
{
    clamp_bits(raw_bits, ZERO_BITS, TWO_BITS)
}

/// Edge warp: the input when it is finite, the default otherwise.
pub fn normalized_edge_warp_from_input(raw_bits: u32) -> (r: u32)
    ensures
        r == if is_finite(raw_bits) { raw_bits } else { DEFAULT_EDGE_WARP_BITS },
{
    if raw_bits % SIGN_BIT < INFINITY_BITS {
        raw_bits
    } else {
        DEFAULT_EDGE_WARP_BITS
    }
}

/// Plate warp amplitude held to `[0, 2]`.
pub fn normalized_plate_warp_amplitude_from_slider(raw_bits: u32) -> (r: u32)
    ensures
        r == clamp_of(raw_bits, ZERO_BITS, TWO_BITS),
{
    clamp_bits(raw_bits, ZERO_BITS, TWO_BITS)
}

/// Plate warp roughness held to `[0.3, 0.8]`.
pub fn normalized_plate_warp_roughness_from_slider(raw_bits: u32) -> (r: u32)
    ensures
        r == clamp_of(raw_bits, POINT_THREE_BITS, POINT_EIGHT_BITS),
{
    clamp_bits(raw_bits, POINT_THREE_BITS, POINT_EIGHT_BITS)
}

/// Mountain radius held to `[5, 50]`.
pub fn normalized_mountain_radius_from_slider(raw_bits: u32) -> (r: u32)
    ensures
        r == clamp_of(raw_bits, FIVE_BITS, FIFTY_BITS),
{
    clamp_bits(raw_bits, FIVE_BITS, FIFTY_BITS)
}

/// Mountain height held to `[0.1, 2]`.
pub fn normalized_mountain_height_from_slider(raw_bits: u32) -> (r: u32)
    ensures
        r == clamp_of(raw_bits, TENTH_BITS, TWO_BITS),
{
    clamp_bits(raw_bits, TENTH_BITS, TWO_BITS)
}

/// Terrain roughness held to `[0, 1]`.
pub fn normalized_terrain_roughness_from_slider(raw_bits: u32) -> (r: u32)
    ensures
        r == clamp_of(raw_bits, ZERO_BITS, ONE_BITS),
{
    clamp_bits(raw_bits, ZERO_BITS, ONE_BITS)
}

/// Terrain frequency held to `[1, 20]`.
pub fn normalized_terrain_frequency_from_slider(raw_bits: u32) -> (r: u32)
    ensures
        r == clamp_of(raw_bits, ONE_BITS, TWENTY_BITS),
{
    clamp_bits(raw_bits, ONE_BITS, TWENTY_BITS)
}

/// Sun angle held to `[0, 360]` when finite; the default otherwise.
pub fn normalized_sun_angle_from_slider(raw_bits: u32) -> (r: u32)
    ensures
        r == if is_finite(raw_bits) {
            clamp_of(raw_bits, ZERO_BITS, FULL_TURN_BITS)
        } else {
            DEFAULT_SUN_ANGLE_BITS
        },
{
    if raw_bits % SIGN_BIT < INFINITY_BITS {
        clamp_bits(raw_bits, ZERO_BITS, FULL_TURN_BITS)
    } else {
        DEFAULT_SUN_ANGLE_BITS
    }
}

/// Elevation scale held to `[1, 20]`.
pub fn normalized_elevation_scale_from_slider(raw_bits: u32) -> (r: u32)
    ensures
        r == clamp_of(raw_bits, ONE_BITS, TWENTY_BITS),
{
    clamp_bits(raw_bits, ONE_BITS, TWENTY_BITS)
}

/// Vertical exaggeration held to `[1, 20]`.
pub fn normalized_vertical_exaggeration_from_slider(raw_bits: u32) -> (r: u32)
    ensures
        r == clamp_of(raw_bits, ONE_BITS, TWENTY_BITS),
{
    clamp_bits(raw_bits, ONE_BITS, TWENTY_BITS)
}

} // verus!
