//! Numeric core of a GPU terrain pipeline: dispatch sizing for a fixed grid,
//! the row scan and record of heightmap metric extraction, and the parameter
//! helpers that map raw slider input into range.
//!
//! Single- and double-precision inputs are taken as their IEEE-754 bit
//! patterns, so every rule here is decided exactly, with integers.

pub mod bits;
pub mod dispatch;
pub mod error;
pub mod grid;
pub mod metrics;
pub mod params;
pub mod record;
pub mod sliders;

pub use dispatch::{
    compute_dispatch, five_pass_dispatch_sequence, four_pass_dispatch_sequence,
    map_flat_1d_to_gpu, n_pass_dispatch_sequence, single_pass_dispatch_sequence,
    six_pass_dispatch_sequence, three_pass_dispatch_sequence,
};
pub use error::TerrainError;
pub use grid::{grid_cell_count, grid_height, grid_width};
pub use metrics::{check_heightmap_len, sample_drains, scan_heightmap, TerrainCounts};
pub use record::metrics_record;
pub use params::{
    deterministic_seed, deterministic_seed_from_input, normalized_plate_count,
    normalized_plate_count_from_slider,
};
pub use sliders::{
    normalized_fbm_base_frequency, normalized_land_threshold, normalized_falloff_strength, normalized_noise_amplitude, normalized_edge_warp, normalized_plate_warp_amplitude, normalized_plate_warp_roughness, normalized_mountain_radius, normalized_mountain_height, normalized_terrain_roughness, normalized_terrain_frequency, normalized_sun_angle, normalized_elevation_scale, normalized_vertical_exaggeration,
    normalized_edge_warp_from_input, normalized_elevation_scale_from_slider,
    normalized_falloff_strength_from_slider, normalized_land_threshold_from_slider,
    normalized_mountain_height_from_slider, normalized_mountain_radius_from_slider,
    normalized_noise_amplitude_from_slider, normalized_plate_warp_amplitude_from_slider,
    normalized_plate_warp_roughness_from_slider, normalized_sun_angle_from_slider,
    normalized_terrain_frequency_from_slider, normalized_terrain_roughness_from_slider,
    normalized_vertical_exaggeration_from_slider,
};
