use std::cell::Cell;

use busycrab::motion::Motion;
use busycrab::motion::crab::CrabMotion;
use busycrab::motion::crab::render_crab_frame;

// Create a simple mock motion implementation for testing
struct MockMotion {
    update_count: Cell<usize>,
}

impl MockMotion {
    fn new() -> Self {
        MockMotion { update_count: Cell::new(0) }
    }

    fn update_count(&self) -> usize {
        self.update_count.get()
    }
}

impl Motion for MockMotion {
    fn update(&mut self) {
        let count = self.update_count.get();
        self.update_count.set(count + 1);
    }

    fn finish(&mut self) {}
}

#[test]
fn test_crab_motion_creation() {
    // Test that CrabMotion can be created
    let _motion = CrabMotion::new();
    // Just verify it can be created without error
    assert!(true);
}

#[test]
fn test_motion_trait_impl() {
    // Test that a Motion trait object can be created and used
    let mut mock = MockMotion::new();

    // Call update a few times
    mock.update();
    mock.update();
    mock.update();

    // Verify that the updates were counted
    assert_eq!(mock.update_count(), 3);

    // Test that we can use it through a trait object
    let mut motion_box: Box<dyn Motion> = Box::new(MockMotion::new());

    // This verifies we can call methods through the trait object
    motion_box.update();
}

#[test]
fn test_crab_new_state() {
    let motion = CrabMotion::new();
    assert_eq!(motion.position(), 0);
    assert_eq!(motion.direction(), 1);
}

#[test]
fn test_crab_bounce_bounds() {
    // Bounce bounds: over any number of ticks the position stays within
    // [0, width] and the direction stays a unit step.
    let mut motion = CrabMotion::new();
    for _ in 0..200 {
        motion.update();
        assert!(motion.position() <= motion.width());
        assert!(motion.direction() == 1 || motion.direction() == -1);
    }
}

#[test]
fn test_crab_first_step_moves_right() {
    let mut motion = CrabMotion::new();
    motion.update();
    if motion.width() > 1 {
        assert_eq!(motion.position(), 1);
        assert_eq!(motion.direction(), 1);
    }
}

#[test]
fn test_crab_frame_text() {
    let frame: String = render_crab_frame(false, 3).iter().collect();
    assert_eq!(frame, "\r\u{1b}[K   🦀");
    let first: String = render_crab_frame(true, 0).iter().collect();
    assert_eq!(first, "\u{1b}[?25l\r\u{1b}[K🦀");
}
