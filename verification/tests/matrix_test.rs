use busycrab::motion::Motion;
use busycrab::motion::matrix::MatrixMotion;
use busycrab::motion::matrix::advance_drops;
use busycrab::motion::matrix::render_matrix_frame;
use busycrab::motion::matrix::resized_drops;
use busycrab::motion::matrix::resized_grid;

#[test]
fn test_matrix_motion_creation() {
    // Test that MatrixMotion can be created
    let _motion = MatrixMotion::new();
    // Just verify it can be created without error
    assert!(true);
}

#[test]
fn test_matrix_motion_update() {
    // Test that MatrixMotion can be updated without crashing
    let mut motion = MatrixMotion::new();

    // Run a few updates to make sure it doesn't crash
    for _ in 0..5 {
        motion.update();
    }

    // If we get here without panicking, the test passes
    assert!(true);
}

#[test]
fn test_resize_grows_drops() {
    // Rain grid resize: growing the column count keeps existing drops and
    // starts new columns just above the screen.
    let drops: Vec<i64> = vec![5, 7];
    let out = resized_drops(&drops, 4);
    assert_eq!(out, vec![5, 7, -1, -1]);
}

#[test]
fn test_resize_shrinks_drops() {
    let drops: Vec<i64> = vec![5, 7, 9];
    let out = resized_drops(&drops, 2);
    assert_eq!(out, vec![5, 7]);
}

#[test]
fn test_resize_grid_preserves_prefix() {
    let grid: Vec<char> = vec!['a', 'b', 'c'];
    let grown = resized_grid(&grid, 5);
    assert_eq!(grown, vec!['a', 'b', 'c', ' ', ' ']);
    let shrunk = resized_grid(&grid, 2);
    assert_eq!(shrunk, vec!['a', 'b']);
}

#[test]
fn test_advance_drops_falls_or_resets() {
    let drops: Vec<i64> = vec![0, 3, 9, 0, 5];
    let out = advance_drops(&drops, 10);
    assert_eq!(out.len(), drops.len());
    for (i, v) in out.iter().enumerate() {
        // Each drop either fell one row or was reset above the screen.
        assert!(*v == drops[i] + 1 || (-10 < *v && *v <= 0));
    }
}

#[test]
fn test_advance_drops_forces_reset_below_screen() {
    // A drop more than rows + 10 past the top must be reset.
    let drops: Vec<i64> = vec![21];
    let out = advance_drops(&drops, 10);
    assert!(-10 < out[0] && out[0] <= 0);
}

#[test]
fn test_advance_drops_zero_rows() {
    // A zero-height screen must not panic; resets rest at 0.
    let drops: Vec<i64> = vec![15];
    let out = advance_drops(&drops, 0);
    assert!(out[0] == 16 || out[0] == 0);
}

#[test]
fn test_matrix_frame_text() {
    // One tail cell at distance 5 from the head fades to green 24.
    let grid: Vec<char> = vec!['G'];
    let drops: Vec<i64> = vec![5];
    let frame: String = render_matrix_frame(&grid, &drops, 1, 1, false).iter().collect();
    assert_eq!(frame, "\u{1b}[2J\u{1b}[H\u{1b}[38;5;24mG\n\u{1b}[0m");
}

#[test]
fn test_matrix_frame_head_cell() {
    // The head row is drawn bright white (color 15).
    let grid: Vec<char> = vec!['X'];
    let drops: Vec<i64> = vec![0];
    let frame: String = render_matrix_frame(&grid, &drops, 1, 1, false).iter().collect();
    assert_eq!(frame, "\u{1b}[2J\u{1b}[H\u{1b}[38;5;15mX\n\u{1b}[0m");
}

#[test]
fn test_matrix_frame_background_cell() {
    // A cell far from any drop is drawn in dim green (color 22).
    let grid: Vec<char> = vec![' '];
    let drops: Vec<i64> = vec![-3];
    let frame: String = render_matrix_frame(&grid, &drops, 1, 1, false).iter().collect();
    assert_eq!(frame, "\u{1b}[2J\u{1b}[H\u{1b}[38;5;22m \n\u{1b}[0m");
}
