use rray::binary32::Binary32;
use rray::raster::{check_camera, check_fuzz, check_refractive_index, to_bgra, ConfigError, RenderSettings, DEFAULT_SAMPLES};
use rray::trace::{after_query, after_scatter, Step, Terminal, MAX_DEPTH};

fn v(x: f32) -> Binary32 {
    Binary32::from_bits(x.to_bits())
}

/// The gamma curve and scaling applied to an averaged channel.
fn level(c: f32) -> u32 {
    (255.99 * c.sqrt()) as u32
}

#[test]
fn white_and_black_pack_to_full_alpha() {
    assert_eq!(to_bgra(level(1.0), level(1.0), level(1.0)), 0xFFFF_FFFF);
    assert_eq!(to_bgra(level(0.0), level(0.0), level(0.0)), 0xFF00_0000);
}

#[test]
fn channels_pack_in_order() {
    assert_eq!(to_bgra(0x12, 0x34, 0x56), 0xFF12_3456);
    assert_eq!(to_bgra(level(0.25), 0, 0), 0xFF7F_0000);
}

#[test]
fn overflowing_level_held_at_255() {
    assert_eq!(to_bgra(256, 0, 1000), 0xFFFF_00FF);
}

#[test]
fn settings_accepted() {
    let s = RenderSettings::new(500, 281, DEFAULT_SAMPLES, MAX_DEPTH).unwrap();
    assert_eq!(s.pixel_count(), 140_500);
    assert_eq!(s.samples, 256);
    assert_eq!(s.max_depth, 16);
}

#[test]
fn settings_refused() {
    assert_eq!(RenderSettings::new(0, 10, 4, 16).unwrap_err(), ConfigError::ZeroWidth);
    assert_eq!(RenderSettings::new(0, 0, 0, 16).unwrap_err(), ConfigError::ZeroWidth);
    assert_eq!(RenderSettings::new(10, 0, 4, 16).unwrap_err(), ConfigError::ZeroHeight);
    assert_eq!(RenderSettings::new(10, 10, 0, 16).unwrap_err(), ConfigError::ZeroSamples);
    assert_eq!(
        RenderSettings::new(usize::MAX / 2, 3, 4, 16).unwrap_err(),
        ConfigError::TooManyPixels
    );
    assert!(RenderSettings::new(usize::MAX, 1, 4, 16).is_ok());
}

#[test]
fn top_row_comes_first() {
    let s = RenderSettings::new(4, 3, 1, 16).unwrap();
    assert_eq!(s.pixel_position(0), (2, 0));
    assert_eq!(s.pixel_position(3), (2, 3));
    assert_eq!(s.pixel_position(4), (1, 0));
    assert_eq!(s.pixel_position(11), (0, 3));
    let mut seen = vec![false; 12];
    for pos in 0..12 {
        let (row, col) = s.pixel_position(pos);
        let slot = (3 - 1 - row) * 4 + col;
        assert_eq!(slot, pos);
        assert!(!seen[slot]);
        seen[slot] = true;
    }
}

#[test]
fn camera_parameters_checked() {
    assert_eq!(check_camera(v(20.0), v(16.0 / 9.0)), Ok(()));
    assert_eq!(check_camera(v(0.0), v(1.0)), Err(ConfigError::FieldOfView));
    assert_eq!(check_camera(v(180.0), v(1.0)), Err(ConfigError::FieldOfView));
    assert_eq!(check_camera(v(f32::NAN), v(1.0)), Err(ConfigError::FieldOfView));
    assert_eq!(check_camera(v(90.0), v(0.0)), Err(ConfigError::AspectRatio));
    assert_eq!(check_camera(v(90.0), v(-1.5)), Err(ConfigError::AspectRatio));
    assert_eq!(check_camera(v(90.0), v(f32::INFINITY)), Err(ConfigError::AspectRatio));
}

#[test]
fn material_parameters_checked() {
    assert_eq!(check_fuzz(v(0.0)), Ok(()));
    assert_eq!(check_fuzz(v(1.0)), Ok(()));
    assert_eq!(check_fuzz(v(1.5)), Err(ConfigError::Fuzz));
    assert_eq!(check_fuzz(v(-0.1)), Err(ConfigError::Fuzz));
    assert_eq!(check_refractive_index(v(1.5)), Ok(()));
    assert_eq!(check_refractive_index(v(0.0)), Err(ConfigError::RefractiveIndex));
}

/// Runs the integrator's control on a scene where every query hits and every
/// scatter succeeds, counting the queries.
fn run_trap(max_depth: u32) -> (Terminal, u32, u32) {
    let mut depth: u32 = 0;
    let mut queries: u32 = 0;
    loop {
        queries += 1;
        match after_query(depth, max_depth, true) {
            Step::Sky => return (Terminal::Sky, depth, queries),
            Step::Black => return (Terminal::Black, depth, queries),
            Step::Scatter => match after_scatter(depth, max_depth, true) {
                Some(next) => depth = next,
                None => return (Terminal::Black, depth, queries),
            },
        }
    }
}

#[test]
fn mirror_trap_ends_black_at_depth_bound() {
    assert_eq!(run_trap(MAX_DEPTH), (Terminal::Black, 16, 17));
    assert_eq!(run_trap(0), (Terminal::Black, 0, 1));
}

#[test]
fn miss_and_absorption_end_paths() {
    assert_eq!(after_query(3, MAX_DEPTH, false), Step::Sky);
    assert_eq!(after_query(16, MAX_DEPTH, false), Step::Sky);
    assert_eq!(after_query(15, MAX_DEPTH, true), Step::Scatter);
    assert_eq!(after_scatter(15, MAX_DEPTH, true), Some(16));
    assert_eq!(after_scatter(2, MAX_DEPTH, false), None);
}
