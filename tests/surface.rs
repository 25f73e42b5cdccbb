use particle_trails::resources::Extent;
use particle_trails::surface::{acquire_action, AcquireAction, AcquireOutcome};

#[test]
fn transient_failure_is_retried_once() {
    let size = Extent { width: 640, height: 480 };
    for outcome in [AcquireOutcome::Timeout, AcquireOutcome::Outdated, AcquireOutcome::Lost] {
        assert_eq!(acquire_action(outcome, false, size), AcquireAction::Reconfigure(size));
        assert_eq!(acquire_action(outcome, true, size), AcquireAction::Fail);
    }
}

#[test]
fn success_renders_and_out_of_memory_fails() {
    let size = Extent { width: 1, height: 1 };
    assert_eq!(acquire_action(AcquireOutcome::Acquired, false, size), AcquireAction::Render);
    assert_eq!(acquire_action(AcquireOutcome::Acquired, true, size), AcquireAction::Render);
    assert_eq!(acquire_action(AcquireOutcome::OutOfMemory, false, size), AcquireAction::Fail);
}
