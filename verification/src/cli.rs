//! Command-line configuration.
//!
//! The library holds the bare configuration record; actual argument parsing
//! lives with the program around the library.

use vstd::prelude::*;

verus! {

/// Runtime configuration selected on the command line.
pub struct Args {
    /// Interval between mouse movements in seconds.
    pub interval: u64,
    /// Distance in pixels for mouse movement.
    pub wiggle: i32,
    /// Display additional information during operation.
    pub verbose: bool,
    /// Selected motion animation type (crab, matrix, mandelbrot, clock, none).
    pub motion: String,
}

} // verus!
