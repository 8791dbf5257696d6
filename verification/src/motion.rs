//! Terminal animations.
//!
//! Four renderers share one capability: a single `update` step renders
//! exactly one full frame, and `finish` restores the terminal (cursor shown,
//! colors reset) when the animation stops.

use vstd::prelude::*;

pub mod clock;
pub mod crab;
pub mod mandelbrot;
pub mod matrix;

verus! {

/// A terminal animation.
pub trait Motion {
    /// Renders exactly one full frame as a side effect.  Safe to call
    /// indefinitely, whatever the terminal reports about its size.
    fn update(&mut self);

    /// Restores the terminal (cursor visible, colors reset).  Called once
    /// when the animation stops, on every exit path.
    fn finish(&mut self);
}

} // verus!
