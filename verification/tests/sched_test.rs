use busycrab::motion::crab::CrabMotion;
use busycrab::sched::AnimationScheduler;
use busycrab::sched::AnyMotion;

#[test]
fn test_scheduler_renders_while_running() {
    let mut sched = AnimationScheduler::new(AnyMotion::Crab(CrabMotion::new()));
    assert_eq!(sched.frames_rendered(), 0);
    assert!(!sched.is_stopped());
    sched.tick(true);
    sched.tick(true);
    sched.tick(true);
    assert_eq!(sched.frames_rendered(), 3);
    sched.finish();
}

#[test]
fn test_scheduler_shutdown() {
    // Scheduler shutdown: after the stop signal, no further frames are
    // rendered, and finish restores the terminal.
    let mut sched = AnimationScheduler::new(AnyMotion::Crab(CrabMotion::new()));
    sched.tick(true);
    sched.tick(true);
    assert_eq!(sched.frames_rendered(), 2);
    sched.tick(false);
    assert!(sched.is_stopped());
    // Later observations render nothing, whatever the flag says.
    sched.tick(true);
    sched.tick(true);
    assert_eq!(sched.frames_rendered(), 2);
    sched.finish();
    assert_eq!(sched.frames_rendered(), 2);
    assert!(sched.is_stopped());
}
