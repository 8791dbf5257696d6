use busycrab::motion::Motion;
use busycrab::motion::mandelbrot::FP;
use busycrab::motion::mandelbrot::MandelbrotMotion;
use busycrab::motion::mandelbrot::escape_iterations;

#[test]
fn test_mandelbrot_motion_creation() {
    // Test that MandelbrotMotion can be created
    let _motion = MandelbrotMotion::new();
    // Just verify it can be created without error
    assert!(true);
}

#[test]
fn test_mandelbrot_motion_update() {
    // Test that MandelbrotMotion can be updated without crashing
    let mut motion = MandelbrotMotion::new();

    // Run a few updates to make sure it doesn't crash
    for _ in 0..3 {
        motion.update();
    }

    // If we get here without panicking, the test passes
    assert!(true);
}

#[test]
fn test_convergence_at_origin() {
    // FractalZoom convergence: c = 0 sits inside the main cardioid, so the
    // count always equals the iteration bound.
    let motion = MandelbrotMotion::new();
    assert_eq!(motion.max_iterations(), 100);
    assert_eq!(motion.mandelbrot_iterations(0, 0), 100);
}

#[test]
fn test_divergence_far_outside() {
    // A point far outside the set (c = 10 + 10i) escapes immediately.
    let motion = MandelbrotMotion::new();
    let count = motion.mandelbrot_iterations(10 * FP, 10 * FP);
    assert!(count <= 1);
    assert_eq!(count, 1);
}

#[test]
fn test_escape_iterations_free() {
    assert_eq!(escape_iterations(0, 0, 100), 100);
    assert_eq!(escape_iterations(10 * FP, 10 * FP, 100), 1);
}

#[test]
fn test_zoom_envelope() {
    // FractalZoom zoom envelope: the computed zoom stays within
    // [0.5x, 2.0x] of the active waypoint's base zoom across a breathing
    // cycle.
    let mut motion = MandelbrotMotion::new();
    assert_eq!(motion.base_zoom(), FP);
    for _ in 0..700 {
        motion.update_animation();
        let base = motion.base_zoom();
        assert!(motion.zoom() >= base / 2);
        assert!(motion.zoom() <= 2 * base);
    }
}

#[test]
fn test_zoom_first_tick_exact() {
    let mut motion = MandelbrotMotion::new();
    motion.update_animation();
    assert_eq!(motion.base_zoom(), FP);
    assert_eq!(motion.zoom(), 21097349);
}

#[test]
fn test_character_gradient() {
    let motion = MandelbrotMotion::new();
    assert_eq!(motion.get_character(100, 0, 0), '█');
    assert_eq!(motion.get_character(0, 0, 0), ' ');
    assert_eq!(motion.get_character(50, 0, 0), '+');
}

#[test]
fn test_color_mapping() {
    let motion = MandelbrotMotion::new();
    // Inside the set: pure black.
    assert_eq!(motion.get_color(100, 0, 0), 0);
    // Outside the set: within the 216-color range.
    let c = motion.get_color(0, 0, 0);
    assert_eq!(c, 16);
    let c2 = motion.get_color(99, 0, 0);
    assert!((16..=231).contains(&c2));
}
