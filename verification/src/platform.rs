//! Sleep-prevention capability.
//!
//! The OS-specific calls that actually inhibit sleep are collaborators
//! outside this library; they are reached only through the `PlatformTrait`
//! capability.  The `Platform` here is the portable fallback, which reports
//! that sleep prevention is unavailable.

use vstd::prelude::*;

verus! {

/// Capability for platform-specific operations.
///
/// Abstracts the sleep-prevention primitive so that callers can be verified
/// against the interface alone; real OS backends and test doubles implement
/// it outside the library.
pub trait PlatformTrait: Sized {
    /// Prevents the system from sleeping or turning off the display.
    ///
    /// Returns `Ok(())` on success and an error message otherwise.  Which of
    /// the two comes back is the implementation's decision; nothing more is
    /// promised here.
    fn prevent_sleep(&self) -> Result<(), &'static str>;
}

/// Portable fallback platform: sleep prevention is not implemented here.
pub struct Platform;

impl Platform {
    /// Creates a new `Platform` instance.
    pub fn new() -> (p: Platform) {
        Platform
    }
}

impl PlatformTrait for Platform {
    /// Always reports, with a fixed message, that sleep prevention is
    /// unavailable on this platform.
    fn prevent_sleep(&self) -> (r: Result<(), &'static str>)
        ensures
            r matches Err(e) && e@
                == "Sleep prevention not implemented for this OS. I will work on this when I have access to a Linux machine."@,
    {
        Err("Sleep prevention not implemented for this OS. I will work on this when I have access to a Linux machine.")
    }
}

} // verus!
