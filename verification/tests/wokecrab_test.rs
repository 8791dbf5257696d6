use std::cell::RefCell;
use std::rc::Rc;
use std::time::Duration;

use busycrab::BusyCrab;
use busycrab::LoopState;
use busycrab::MouseController;
use busycrab::PlatformTrait;
use busycrab::activity_transition;
use busycrab::next_sleep_slice;

/// A mock mouse controller for testing.
pub struct MockMouseController {
    /// Tracks the calls to mouse_move_relative
    pub move_calls: Rc<RefCell<Vec<(i32, i32)>>>,
}

impl MockMouseController {
    /// Creates a new MockMouseController.
    pub fn new() -> Self {
        Self { move_calls: Rc::new(RefCell::new(Vec::new())) }
    }

    /// A shared handle on the recorded calls.
    pub fn calls_handle(&self) -> Rc<RefCell<Vec<(i32, i32)>>> {
        Rc::clone(&self.move_calls)
    }
}

impl MouseController for MockMouseController {
    fn mouse_move_relative(&mut self, x: i32, y: i32) {
        self.move_calls.borrow_mut().push((x, y));
    }
}

/// A mock platform implementation for testing.
pub struct MockPlatform {
    /// Whether prevent_sleep was called
    pub prevent_sleep_called: Rc<RefCell<bool>>,
    /// The result to return from prevent_sleep
    pub prevent_sleep_result: RefCell<Result<(), &'static str>>,
}

impl MockPlatform {
    /// Creates a new MockPlatform.
    pub fn new() -> Self {
        Self {
            prevent_sleep_called: Rc::new(RefCell::new(false)),
            prevent_sleep_result: RefCell::new(Ok(())),
        }
    }

    /// Creates a MockPlatform that returns an error.
    pub fn with_error(error: &'static str) -> Self {
        Self {
            prevent_sleep_called: Rc::new(RefCell::new(false)),
            prevent_sleep_result: RefCell::new(Err(error)),
        }
    }

    /// A shared handle on the called flag.
    pub fn called_handle(&self) -> Rc<RefCell<bool>> {
        Rc::clone(&self.prevent_sleep_called)
    }
}

impl PlatformTrait for MockPlatform {
    fn prevent_sleep(&self) -> Result<(), &'static str> {
        *self.prevent_sleep_called.borrow_mut() = true;
        *self.prevent_sleep_result.borrow()
    }
}

#[test]
fn test_wokecrab_initialization() {
    // Test that the core can be created with valid parameters
    let crab = BusyCrab::with_mouse_controller(60, 3, MockMouseController::new());
    assert_eq!(crab.get_interval(), Duration::from_secs(60));
    assert_eq!(crab.get_wiggle_distance(), 3);
    assert_eq!(crab.is_verbose(), false);
    assert_eq!(crab.has_motion(), false);
}

#[test]
fn test_wokecrab_builder_pattern() {
    // Test the builder pattern methods
    let crab = BusyCrab::with_mouse_controller(30, 5, MockMouseController::new())
        .with_verbose(true)
        .with_motion("crab");

    assert_eq!(crab.get_interval(), Duration::from_secs(30));
    assert_eq!(crab.get_wiggle_distance(), 5);
    assert_eq!(crab.is_verbose(), true);
    assert_eq!(crab.has_motion(), true);
}

#[test]
fn test_motion_selection() {
    // Test that motion selection works correctly
    let crab_motion = BusyCrab::with_mouse_controller(60, 3, MockMouseController::new())
        .with_motion("crab");
    assert_eq!(crab_motion.has_motion(), true);

    let no_motion = BusyCrab::with_mouse_controller(60, 3, MockMouseController::new())
        .with_motion("none");
    assert_eq!(no_motion.has_motion(), false);

    // Invalid motion type should default to none
    let invalid_motion = BusyCrab::with_mouse_controller(60, 3, MockMouseController::new())
        .with_motion("invalid");
    assert_eq!(invalid_motion.has_motion(), false);
}

#[test]
fn test_motion_selection_all_variants() {
    for key in ["matrix", "mandelbrot", "clock", "CRAB", "Matrix"] {
        let crab = BusyCrab::with_mouse_controller(60, 3, MockMouseController::new())
            .with_motion(key);
        assert!(crab.has_motion(), "expected motion for key {key}");
    }
    let empty = BusyCrab::with_mouse_controller(60, 3, MockMouseController::new())
        .with_motion("");
    assert!(!empty.has_motion());
}

#[test]
fn test_take_motion() {
    let mut crab = BusyCrab::with_mouse_controller(60, 3, MockMouseController::new())
        .with_motion("crab");
    let taken = crab.take_motion();
    assert!(taken.is_some());
    assert!(!crab.has_motion());
    assert!(crab.take_motion().is_none());
}

// Basic test to demonstrate mocking
#[test]
fn test_simulate_activity() {
    let mock_mouse = MockMouseController::new();
    let calls = mock_mouse.calls_handle();

    let mut crab = BusyCrab::with_mouse_controller(60, 5, mock_mouse);
    crab.simulate_activity();

    assert_eq!(calls.borrow().len(), 2);
    assert_eq!(calls.borrow().get(0).cloned(), Some((5, 0)));
    assert_eq!(calls.borrow().get(1).cloned(), Some((-5, 0)));
}

// Test the activity cycle with mocked components
#[test]
fn test_activity_cycle() {
    let mock_mouse = MockMouseController::new();
    let mock_platform = MockPlatform::new();
    let calls = mock_mouse.calls_handle();
    let called = mock_platform.called_handle();

    let mut crab = BusyCrab::for_testing(60, 5, mock_mouse, mock_platform);
    let mut count = 0;
    let result = crab.execute_activity_cycle(&mut count);

    assert!(result.is_ok());
    assert_eq!(count, 1);
    assert_eq!(calls.borrow().len(), 2);
    assert!(*called.borrow());
}

// Test handling of platform errors
#[test]
fn test_platform_error() {
    let mock_mouse = MockMouseController::new();
    let mock_platform = MockPlatform::with_error("Test error");

    let mut crab = BusyCrab::for_testing(60, 5, mock_mouse, mock_platform);
    let mut count = 0;
    let result = crab.execute_activity_cycle(&mut count);

    assert!(result.is_err());
    assert_eq!(result.unwrap_err(), "Test error");
    assert_eq!(count, 0); // Count should not be incremented on error
}

#[test]
fn test_error_cycle_moves_no_mouse() {
    // Activity cycle error propagation: on a sleep-prevention error the
    // mouse is never moved and the counter stays put.
    let mock_mouse = MockMouseController::new();
    let calls = mock_mouse.calls_handle();
    let mut crab = BusyCrab::for_testing(60, 5, mock_mouse, MockPlatform::with_error("boom"));
    let mut count = 7;
    let result = crab.execute_activity_cycle(&mut count);
    assert!(result.is_err());
    assert_eq!(count, 7);
    assert_eq!(calls.borrow().len(), 0);
}

#[test]
fn test_activity_transition() {
    // The loop keeps running exactly while the signal holds and the cycle
    // succeeded; an error or a stop request moves it to Stopped.
    assert!(matches!(activity_transition(LoopState::Running, true, true), LoopState::Running));
    assert!(matches!(activity_transition(LoopState::Running, false, true), LoopState::Stopped));
    assert!(matches!(activity_transition(LoopState::Running, true, false), LoopState::Stopped));
    assert!(matches!(activity_transition(LoopState::Stopped, true, true), LoopState::Stopped));
}

#[test]
fn test_next_sleep_slice() {
    assert_eq!(next_sleep_slice(1000), (200, 800));
    assert_eq!(next_sleep_slice(200), (200, 0));
    assert_eq!(next_sleep_slice(150), (150, 0));
    assert_eq!(next_sleep_slice(0), (0, 0));
}

#[test]
fn test_integration_basic_setup() {
    // Integration test for core components: create an instance with
    // minimal settings and verify it can be configured.
    let crab = BusyCrab::with_mouse_controller(1, 1, MockMouseController::new());
    let crab = crab.with_verbose(true);
    assert!(crab.is_verbose());
}
