//! What to do with the outcome of acquiring the next surface image.

use vstd::prelude::*;
use crate::resources::Extent;

verus! {

/// Outcome of asking the surface for its next image.
#[derive(Clone, Copy, Debug, PartialEq, Eq, Structural)]
pub enum AcquireOutcome {
    Acquired,
    Timeout,
    Outdated,
    Lost,
    OutOfMemory,
}

/// What the caller does next.
#[derive(Clone, Copy, Debug, PartialEq, Eq, Structural)]
pub enum AcquireAction {
    /// Render the frame into the acquired image.
    Render,
    /// Configure the surface again at this size, then acquire once more.
    Reconfigure(Extent),
    /// Give up: the error is fatal.
    Fail,
}

/// A failure that reconfiguring the surface may cure.
pub open spec fn is_transient(outcome: AcquireOutcome) -> bool {
    match outcome {
        AcquireOutcome::Timeout | AcquireOutcome::Outdated | AcquireOutcome::Lost => true,
        _ => false,
    }
}

/// The action for `outcome`; `retried` says whether this attempt already
/// followed a reconfiguration, and `size` is the last known surface size.
pub open spec fn acquire_policy(outcome: AcquireOutcome, retried: bool, size: Extent) -> AcquireAction {
    if outcome == AcquireOutcome::Acquired {
        AcquireAction::Render
    } else if is_transient(outcome) && !retried {
        AcquireAction::Reconfigure(size)
    } else {
        AcquireAction::Fail
    }
}

/// Decides what follows an attempt to acquire the next surface image: a
/// transient failure is retried once after reconfiguring at `size`, a second
/// failure or any other error is fatal.
pub fn acquire_action(outcome: AcquireOutcome, retried: bool, size: Extent) -> (r: AcquireAction)
    ensures
        r == acquire_policy(outcome, retried, size),
{
    match outcome {
        AcquireOutcome::Acquired => AcquireAction::Render,
        AcquireOutcome::Timeout | AcquireOutcome::Outdated | AcquireOutcome::Lost => {
            if retried {
                AcquireAction::Fail
            } else {
                AcquireAction::Reconfigure(size)
            }
        },
        AcquireOutcome::OutOfMemory => AcquireAction::Fail,
    }
}

/// At most one reconfiguration is asked for per frame: after a retry every
/// outcome but success is fatal.
pub proof fn lemma_single_retry(outcome: AcquireOutcome, size: Extent)
    ensures
        acquire_policy(outcome, true, size) is Render || acquire_policy(outcome, true, size) is Fail,
{
}

} // verus!
