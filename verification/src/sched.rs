//! Animation scheduler: the state machine a dedicated render thread runs.
//!
//! The thread around the library loops observing a shared stop flag and
//! calling `tick`; the decisions — render another frame or stop, and
//! restore the terminal exactly once on the way out — live here, verified.
//! Once the flag has been observed false the scheduler is stopped for good:
//! no later observation renders another frame.

use vstd::prelude::*;
use crate::motion::Motion;
use crate::motion::clock::ClockMotion;
use crate::motion::crab::CrabMotion;
use crate::motion::mandelbrot::MandelbrotMotion;
use crate::motion::matrix::MatrixMotion;

verus! {

/// One of the four terminal animations, chosen at construction time.
pub enum AnyMotion {
    Crab(CrabMotion),
    Matrix(MatrixMotion),
    Mandelbrot(MandelbrotMotion),
    Clock(ClockMotion),
}

impl Motion for AnyMotion {
    /// Renders one frame of whichever animation this is.
    fn update(&mut self) {
        match self {
            AnyMotion::Crab(m) => m.update(),
            AnyMotion::Matrix(m) => m.update(),
            AnyMotion::Mandelbrot(m) => m.update(),
            AnyMotion::Clock(m) => m.update(),
        }
    }

    /// Restores the terminal for whichever animation this is.
    fn finish(&mut self) {
        match self {
            AnyMotion::Crab(m) => m.finish(),
            AnyMotion::Matrix(m) => m.finish(),
            AnyMotion::Mandelbrot(m) => m.finish(),
            AnyMotion::Clock(m) => m.finish(),
        }
    }
}

/// Specification-level state of the scheduler.
pub struct SchedState {
    pub stopped: bool,
    pub frames: int,
    pub cleaned: bool,
}

/// One observation of the shared stop flag: a running scheduler renders a
/// frame while the flag holds, stops for good the first time it does not,
/// and a stopped scheduler never changes again.
pub open spec fn sched_step(s: SchedState, keep_running: bool) -> SchedState {
    if s.stopped {
        s
    } else if !keep_running {
        SchedState { stopped: true, ..s }
    } else {
        SchedState { frames: s.frames + 1, ..s }
    }
}

/// The scheduler run over a whole sequence of flag observations.
pub open spec fn sched_run(s: SchedState, flags: Seq<bool>) -> SchedState
    decreases flags.len(),
{
    if flags.len() == 0 {
        s
    } else {
        sched_run(sched_step(s, flags[0]), flags.drop_first())
    }
}

/// A stopped scheduler stays exactly as it is, whatever it observes.
pub proof fn lemma_stopped_stays(s: SchedState, flags: Seq<bool>)
    requires
        s.stopped,
    ensures
        sched_run(s, flags) == s,
    decreases flags.len(),
{
    if flags.len() > 0 {
        lemma_stopped_stays(s, flags.drop_first());
    }
}

/// Scheduler shutdown: once the stop signal is observed, no further frames
/// are ever rendered — the frame count after any sequence of later
/// observations equals the count at the moment of the signal.
pub proof fn lemma_stop_halts_frames(s: SchedState, flags: Seq<bool>)
    ensures
        sched_run(sched_step(s, false), flags).frames == s.frames,
{
    let stopped = sched_step(s, false);
    lemma_stopped_stays(stopped, flags);
}

/// The scheduler around one chosen animation.
pub struct AnimationScheduler {
    motion: AnyMotion,
    stopped: bool,
    frames: u64,
    cleaned: bool,
}

impl View for AnimationScheduler {
    type V = SchedState;

    closed spec fn view(&self) -> SchedState {
        SchedState { stopped: self.stopped, frames: self.frames as int, cleaned: self.cleaned }
    }
}

impl AnimationScheduler {
    /// Creates a running scheduler that owns the given animation.
    pub fn new(motion: AnyMotion) -> (s: Self)
        ensures
            !s@.stopped,
            s@.frames == 0,
            !s@.cleaned,
    {
        AnimationScheduler { motion, stopped: false, frames: 0, cleaned: false }
    }

    /// One tick of the render thread's loop, driven by the current value of
    /// the shared stop flag: renders one frame while running, stops for
    /// good once the flag is false.
    pub fn tick(&mut self, keep_running: bool)
        requires
            old(self)@.frames < u64::MAX,
        ensures
            final(self)@ == sched_step(old(self)@, keep_running),
    {
        if self.stopped {
            return ;
        }
        if !keep_running {
            self.stopped = true;
            return ;
        }
        self.motion.update();
        self.frames = self.frames + 1;
    }

    /// Whether the scheduler has observed the stop signal.
    pub fn is_stopped(&self) -> (r: bool)
        ensures
            r == self@.stopped,
    {
        self.stopped
    }

    /// How many frames have been rendered.
    pub fn frames_rendered(&self) -> (r: u64)
        ensures
            r == self@.frames,
    {
        self.frames
    }

    /// Stops the scheduler (if it is still running) and restores the
    /// terminal: after this the cursor-show and color-reset sequences have
    /// been emitted.  Runs on every exit path of the render thread.
    pub fn finish(&mut self)
        ensures
            final(self)@.stopped,
            final(self)@.cleaned,
            final(self)@.frames == old(self)@.frames,
    {
        self.stopped = true;
        self.motion.finish();
        self.cleaned = true;
    }
}

} // verus!
