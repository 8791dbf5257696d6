//! BusyCrab: keeps a workstation looking active.
//!
//! The core periodically nudges the mouse and asks the platform to prevent
//! sleep, while an independent terminal animation runs on a background
//! thread.  The activity cycle, the animation renderers and the scheduler
//! state machine are verified here; the mouse device, the OS sleep calls,
//! signal handling and the thread plumbing are collaborators around the
//! library, reached only through capability traits and thin trusted
//! wrappers.

use vstd::prelude::*;
use std::time::Duration;

pub mod cli;
pub mod motion;
pub mod platform;
pub mod sched;
pub mod term;
pub mod trig;

pub use platform::Platform;
pub use platform::PlatformTrait;
use sched::AnyMotion;
use motion::clock::ClockMotion;
use motion::crab::CrabMotion;
use motion::mandelbrot::MandelbrotMotion;
use motion::matrix::MatrixMotion;
use term::dec_i64_seq;
use term::dec_u64_seq;
use term::push_dec_i64;
use term::push_dec_u64;
use term::push_str_chars;
use term::term_emit;
use term::term_flush;

verus! {

/// Mouse control capability.
///
/// Abstracts mouse movement for real control and testing: the real device
/// and test doubles implement it outside the library.
pub trait MouseController: Sized {
    /// Moves the mouse cursor relative to its current position, by `x`
    /// pixels horizontally and `y` pixels vertically.
    fn mouse_move_relative(&mut self, x: i32, y: i32);

    /// A short pause between two nudges of one activity cycle.  The real
    /// controller sleeps briefly so the round trip is visible; doubles
    /// need not do anything, which is the default.
    fn pause_briefly(&self) {
    }
}

/// Whether the cooperative activity loop keeps going.
pub enum LoopState {
    Running,
    Stopped,
}

/// One decision of the activity loop: it keeps running exactly while it
/// was running, the keep-running signal still holds, and the last activity
/// cycle succeeded.
pub fn activity_transition(state: LoopState, keep_running: bool, cycle_ok: bool) -> (r: LoopState)
    ensures
        r is Stopped <==> (state is Stopped || !keep_running || !cycle_ok),
{
    match state {
        LoopState::Stopped => LoopState::Stopped,
        LoopState::Running => {
            if keep_running && cycle_ok {
                LoopState::Running
            } else {
                LoopState::Stopped
            }
        },
    }
}

/// How long to sleep next while waiting for the next cycle: a slice of at
/// most 200 ms, so a stop request is honored within one slice, and what
/// remains of the wait after it.
pub fn next_sleep_slice(remaining_ms: u64) -> (r: (u64, u64))
    ensures
        r.0 == if remaining_ms < 200 { remaining_ms as int } else { 200int },
        r.1 == remaining_ms - r.0,
{
    if remaining_ms < 200 {
        (remaining_ms, 0)
    } else {
        (200, remaining_ms - 200)
    }
}

// ---------------------------------------------------------------------------
// Case-insensitive motion selection.
// ---------------------------------------------------------------------------

/// ASCII lowercase of one character.
pub open spec fn lower_char(c: char) -> char {
    if 'A' <= c && c <= 'Z' {
        ((c as u8) + 32) as char
    } else {
        c
    }
}

/// ASCII lowercase of a character sequence.
pub open spec fn lower_seq(s: Seq<char>) -> Seq<char> {
    s.map_values(|c: char| lower_char(c))
}

/// ASCII lowercase of one character.
fn lower_char_exec(c: char) -> (r: char)
    ensures
        r == lower_char(c),
{
    if 'A' <= c && c <= 'Z' {
        ((c as u8) + 32) as char
    } else {
        c
    }
}

/// Compares two strings ignoring ASCII case.
pub fn eq_ignore_ascii_case(a: &str, b: &str) -> (r: bool)
    ensures
        r == (lower_seq(a@) == lower_seq(b@)),
{
    let na = a.unicode_len();
    let nb = b.unicode_len();
    if na != nb {
        proof {
            assert(lower_seq(a@).len() == a@.len());
            assert(lower_seq(b@).len() == b@.len());
        }
        return false;
    }
    let mut i: usize = 0;
    while i < na
        invariant
            na == a@.len(),
            na == b@.len(),
            i <= na,
            forall|j: int| 0 <= j < i ==> #[trigger] lower_seq(a@)[j] == lower_seq(b@)[j],
        decreases na - i,
    {
        let ca = lower_char_exec(a.get_char(i));
        let cb = lower_char_exec(b.get_char(i));
        if ca != cb {
            proof {
                assert(lower_seq(a@)[i as int] == lower_char(a@[i as int]));
                assert(lower_seq(b@)[i as int] == lower_char(b@[i as int]));
            }
            return false;
        }
        proof {
            assert(lower_seq(a@)[i as int] == lower_char(a@[i as int]));
            assert(lower_seq(b@)[i as int] == lower_char(b@[i as int]));
        }
        i = i + 1;
    }
    proof {
        assert(lower_seq(a@) =~= lower_seq(b@));
    }
    true
}

// ---------------------------------------------------------------------------
// Trusted boundary: durations.
// ---------------------------------------------------------------------------

/// Relies on `std::time::Duration::from_secs`: a duration of `secs` whole
/// seconds.  vstd gives `Duration` no model, so nothing is stated of the
/// value; the library's own second counts are the authoritative state.
#[verifier::external_body]
fn duration_from_secs(secs: u64) -> (d: Duration) {
    Duration::from_secs(secs)
}

// ---------------------------------------------------------------------------
// Verbose log messages, exact to the character.
// ---------------------------------------------------------------------------

/// The status line printed after a completed activity cycle.
pub open spec fn activity_status_seq(count: u64, secs: u64) -> Seq<char> {
    "Activity cycle #"@ + dec_u64_seq(count) + " completed. Next update in "@ + dec_u64_seq(secs)
        + " seconds.\n"@
}

/// The notice printed before the mouse is nudged.
pub open spec fn moving_mouse_seq(wiggle: int) -> Seq<char> {
    "Moving mouse by "@ + dec_i64_seq(wiggle) + " pixels\n"@
}

/// Builds the status line printed after a completed activity cycle.
fn activity_status_message(count: u64, secs: u64) -> (v: Vec<char>)
    ensures
        v@ == activity_status_seq(count, secs),
{
    let mut v: Vec<char> = Vec::new();
    push_str_chars(&mut v, "Activity cycle #");
    push_dec_u64(&mut v, count);
    push_str_chars(&mut v, " completed. Next update in ");
    push_dec_u64(&mut v, secs);
    push_str_chars(&mut v, " seconds.\n");
    proof {
        assert(v@ =~= activity_status_seq(count, secs));
    }
    v
}

/// Builds the notice printed before the mouse is nudged.
fn moving_mouse_message(wiggle: i32) -> (v: Vec<char>)
    ensures
        v@ == moving_mouse_seq(wiggle as int),
{
    let mut v: Vec<char> = Vec::new();
    push_str_chars(&mut v, "Moving mouse by ");
    push_dec_i64(&mut v, wiggle as i64);
    push_str_chars(&mut v, " pixels\n");
    proof {
        assert(v@ =~= moving_mouse_seq(wiggle as int));
    }
    v
}

// ---------------------------------------------------------------------------
// The application core.
// ---------------------------------------------------------------------------

/// Main application struct: the verified core of the activity keeper.
///
/// Generic over its two capabilities, so the real device and OS backend or
/// test doubles can stand behind the same verified cycle.
pub struct BusyCrab<M: MouseController, P: PlatformTrait> {
    /// Mouse controller.
    mouse: M,
    /// Platform implementation.
    platform: P,
    /// Time between activities, in whole seconds.
    interval_secs: u64,
    /// Mouse movement distance, in pixels.
    wiggle_distance: i32,
    /// Verbose mode flag.
    verbose: bool,
    /// Optional animation.
    motion: Option<AnyMotion>,
    /// The relative moves asked of the mouse capability so far, oldest
    /// first: the ghost log the activity-cycle contracts are stated over.
    mouse_log: Ghost<Seq<(int, int)>>,
}

impl<M: MouseController, P: PlatformTrait> BusyCrab<M, P> {
    /// The configured interval between activity cycles, in seconds.
    pub closed spec fn spec_interval_secs(&self) -> int {
        self.interval_secs as int
    }

    /// The configured mouse movement distance, in pixels.
    pub closed spec fn spec_wiggle(&self) -> int {
        self.wiggle_distance as int
    }

    /// Whether verbose mode is on.
    pub closed spec fn spec_verbose(&self) -> bool {
        self.verbose
    }

    /// Whether an animation is configured.
    pub closed spec fn spec_has_motion(&self) -> bool {
        self.motion is Some
    }

    /// The relative moves the core has asked the mouse capability for so
    /// far, oldest first.
    pub closed spec fn mouse_moves(&self) -> Seq<(int, int)> {
        self.mouse_log@
    }

    /// The fixed configuration (everything but the mouse log and the
    /// motion) is unchanged between two states.
    pub open spec fn config_unchanged(pre: &Self, post: &Self) -> bool {
        &&& post.spec_interval_secs() == pre.spec_interval_secs()
        &&& post.spec_wiggle() == pre.spec_wiggle()
        &&& post.spec_verbose() == pre.spec_verbose()
        &&& post.spec_has_motion() == pre.spec_has_motion()
    }

    /// Creates a fully customizable instance, mouse and platform both
    /// injected.  Used for testing.
    pub fn for_testing(
        interval_secs: u64,
        wiggle_distance: i32,
        mouse_controller: M,
        platform: P,
    ) -> (r: Self)
        requires
            wiggle_distance > i32::MIN,
        ensures
            r.spec_interval_secs() == interval_secs,
            r.spec_wiggle() == wiggle_distance,
            !r.spec_verbose(),
            !r.spec_has_motion(),
            r.mouse_moves() == Seq::<(int, int)>::empty(),
    {
        BusyCrab {
            mouse: mouse_controller,
            platform,
            interval_secs,
            wiggle_distance,
            verbose: false,
            motion: None,
            mouse_log: Ghost(Seq::empty()),
        }
    }

    /// Executes one activity cycle: asks the platform to prevent sleep —
    /// propagating its error immediately, with the counter untouched — then
    /// nudges the mouse there and back and counts the completed cycle.
    pub fn execute_activity_cycle(&mut self, activity_count: &mut u64) -> (r: Result<
        (),
        &'static str,
    >)
        requires
            *old(activity_count) < u64::MAX,
            old(self).spec_wiggle() > i32::MIN,
        ensures
            Self::config_unchanged(old(self), final(self)),
            r is Ok ==> *final(activity_count) == *old(activity_count) + 1,
            r is Ok ==> final(self).mouse_moves() == old(self).mouse_moves().push(
                (old(self).spec_wiggle(), 0),
            ).push((-old(self).spec_wiggle(), 0)),
            r is Err ==> *final(activity_count) == *old(activity_count),
            r is Err ==> final(self).mouse_moves() == old(self).mouse_moves(),
    {
        let result = self.platform.prevent_sleep();
        if let Err(e) = result {
            return Err(e);
        }
        self.simulate_activity();
        *activity_count = *activity_count + 1;
        self.log_activity_status(*activity_count);
        Ok(())
    }

    /// Logs activity if verbose mode is on.
    fn log_activity_status(&self, activity_count: u64)
    {
        if self.verbose {
            let mut cr: Vec<char> = Vec::new();
            cr.push('\r');
            term_emit(&cr);
            term_flush();
            let msg = activity_status_message(activity_count, self.interval_secs);
            term_emit(&msg);
            term_flush();
        }
    }

    /// Moves the mouse slightly to simulate activity: one nudge of the
    /// configured distance and one nudge straight back, restoring the net
    /// position to zero.
    pub fn simulate_activity(&mut self)
        requires
            old(self).spec_wiggle() > i32::MIN,
        ensures
            Self::config_unchanged(old(self), final(self)),
            final(self).mouse_moves() == old(self).mouse_moves().push(
                (old(self).spec_wiggle(), 0),
            ).push((-old(self).spec_wiggle(), 0)),
    {
        if self.verbose {
            let mut cr: Vec<char> = Vec::new();
            cr.push('\r');
            term_emit(&cr);
            term_flush();
            let msg = moving_mouse_message(self.wiggle_distance);
            term_emit(&msg);
        }
        let wiggle = self.wiggle_distance;
        self.mouse.mouse_move_relative(wiggle, 0);
        self.mouse_log = Ghost(self.mouse_log@.push((wiggle as int, 0)));
        self.mouse.pause_briefly();
        self.mouse.mouse_move_relative(-wiggle, 0);
        self.mouse_log = Ghost(self.mouse_log@.push((-wiggle as int, 0)));
    }

    /// Sets verbose mode.
    pub fn with_verbose(self, verbose: bool) -> (r: Self)
        ensures
            r.spec_verbose() == verbose,
            r.spec_interval_secs() == self.spec_interval_secs(),
            r.spec_wiggle() == self.spec_wiggle(),
            r.spec_has_motion() == self.spec_has_motion(),
            r.mouse_moves() == self.mouse_moves(),
    {
        let mut this = self;
        this.verbose = verbose;
        this
    }

    /// Sets the animation type from its case-insensitive string key:
    /// `crab`, `matrix`, `mandelbrot` or `clock` select a variant, and any
    /// other key — `none` included — selects no animation.
    pub fn with_motion(self, motion_type: &str) -> (r: Self)
        ensures
            r.spec_has_motion() <==> (lower_seq(motion_type@) == lower_seq("crab"@) || lower_seq(
                motion_type@,
            ) == lower_seq("matrix"@) || lower_seq(motion_type@) == lower_seq("mandelbrot"@)
                || lower_seq(motion_type@) == lower_seq("clock"@)),
            r.spec_interval_secs() == self.spec_interval_secs(),
            r.spec_wiggle() == self.spec_wiggle(),
            r.spec_verbose() == self.spec_verbose(),
            r.mouse_moves() == self.mouse_moves(),
    {
        let mut this = self;
        this.motion = if eq_ignore_ascii_case(motion_type, "crab") {
            Some(AnyMotion::Crab(CrabMotion::new()))
        } else if eq_ignore_ascii_case(motion_type, "matrix") {
            Some(AnyMotion::Matrix(MatrixMotion::new()))
        } else if eq_ignore_ascii_case(motion_type, "mandelbrot") {
            Some(AnyMotion::Mandelbrot(MandelbrotMotion::new()))
        } else if eq_ignore_ascii_case(motion_type, "clock") {
            Some(AnyMotion::Clock(ClockMotion::new()))
        } else {
            None
        };
        this
    }

    /// Gets the interval between activity cycles.  vstd gives `Duration`
    /// no model, so the verified statement of the interval is
    /// `spec_interval_secs`; this accessor hands the same count of seconds
    /// to callers that want a `Duration`.
    pub fn get_interval(&self) -> Duration {
        duration_from_secs(self.interval_secs)
    }

    /// Gets the interval between activity cycles, in whole seconds.
    pub fn get_interval_secs(&self) -> (r: u64)
        ensures
            r == self.spec_interval_secs(),
    {
        self.interval_secs
    }

    /// Gets the wiggle distance.
    pub fn get_wiggle_distance(&self) -> (r: i32)
        ensures
            r == self.spec_wiggle(),
    {
        self.wiggle_distance
    }

    /// Checks if verbose mode is on.
    pub fn is_verbose(&self) -> (r: bool)
        ensures
            r == self.spec_verbose(),
    {
        self.verbose
    }

    /// Checks if motion is enabled.
    pub fn has_motion(&self) -> (r: bool)
        ensures
            r == self.spec_has_motion(),
    {
        match &self.motion {
            Some(_) => true,
            None => false,
        }
    }

    /// Hands the configured animation out to the render thread, leaving
    /// none behind.
    pub fn take_motion(&mut self) -> (r: Option<AnyMotion>)
        ensures
            !final(self).spec_has_motion(),
            r is Some <==> old(self).spec_has_motion(),
            final(self).spec_interval_secs() == old(self).spec_interval_secs(),
            final(self).spec_wiggle() == old(self).spec_wiggle(),
            final(self).spec_verbose() == old(self).spec_verbose(),
            final(self).mouse_moves() == old(self).mouse_moves(),
    {
        let mut taken: Option<AnyMotion> = None;
        core::mem::swap(&mut taken, &mut self.motion);
        taken
    }
}

impl<M: MouseController> BusyCrab<M, Platform> {
    /// Creates an instance with a custom mouse controller and the default
    /// platform.  Used for testing.
    pub fn with_mouse_controller(interval_secs: u64, wiggle_distance: i32, mouse_controller: M) -> (r: Self)
        requires
            wiggle_distance > i32::MIN,
        ensures
            r.spec_interval_secs() == interval_secs,
            r.spec_wiggle() == wiggle_distance,
            !r.spec_verbose(),
            !r.spec_has_motion(),
            r.mouse_moves() == Seq::<(int, int)>::empty(),
    {
        BusyCrab {
            mouse: mouse_controller,
            platform: Platform::new(),
            interval_secs,
            wiggle_distance,
            verbose: false,
            motion: None,
            mouse_log: Ghost(Seq::empty()),
        }
    }
}

} // verus!
