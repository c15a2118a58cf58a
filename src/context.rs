use vstd::prelude::*;

verus! {

/// How long a harness run may take before it is a failure, in seconds.
pub const HARNESS_TIMEOUT_SECS: u64 = 2;

/// The other half of the context is gone.
#[derive(PartialEq, Eq, Structural, Debug, Clone, Copy)]
pub struct PeerClosed;

/// Where a harness run stands after a turn.
#[derive(PartialEq, Eq, Structural, Debug, Clone, Copy)]
pub enum HarnessStep {
    /// Neither participant has finished and the deadline has not passed.
    Running,
    /// The driver or the unit under test has finished: the run succeeded.
    Finished,
    /// The deadline passed first: the run failed.
    TimedOut,
}

/// The result of a receive that does not wait, from what one poll of the
/// incoming side gave: `None` when it was not ready, `Some(None)` when the
/// sender is gone, `Some(Some(m))` for a directive.
pub fn try_recv_result<T>(polled: Option<Option<T>>) -> (r: Result<Option<T>, PeerClosed>)
    ensures
        polled == Some(None::<T>) <==> r is Err,
        polled is None ==> r == Ok::<Option<T>, PeerClosed>(None),
        forall|m: T| polled == Some(Some(m)) ==> r == Ok::<Option<T>, PeerClosed>(Some(m)),
{
    match polled {
        Some(Some(m)) => Ok(Some(m)),
        Some(None) => Err(PeerClosed),
        None => Ok(None),
    }
}

/// The result of a waiting receive, from what the incoming side finally
/// gave: a directive, or `None` when the sender is gone.
pub fn recv_result<T>(next: Option<T>) -> (r: Result<T, PeerClosed>)
    ensures
        next is None <==> r is Err,
        forall|m: T| next == Some(m) ==> r == Ok::<T, PeerClosed>(m),
{
    match next {
        Some(m) => Ok(m),
        None => Err(PeerClosed),
    }
}

/// The state of a run after a turn in which the driver, the unit under test
/// and the deadline were each found finished or not.
pub open spec fn harness_outcome(driver_done: bool, unit_done: bool, deadline_expired: bool) -> HarnessStep {
    if driver_done || unit_done {
        HarnessStep::Finished
    } else if deadline_expired {
        HarnessStep::TimedOut
    } else {
        HarnessStep::Running
    }
}

/// Decides a turn of a harness run: the first participant to finish ends the
/// run with success, and the deadline ends it with failure only when neither
/// has finished.
pub fn harness_step(driver_done: bool, unit_done: bool, deadline_expired: bool) -> (r: HarnessStep)
    ensures
        r == harness_outcome(driver_done, unit_done, deadline_expired),
{
    if driver_done || unit_done {
        HarnessStep::Finished
    } else if deadline_expired {
        HarnessStep::TimedOut
    } else {
        HarnessStep::Running
    }
}

/// A run whose participants never finish fails once the deadline has passed,
/// and a run whose driver finishes succeeds whatever the unit does.
pub proof fn lemma_harness_ends(unit_done: bool, deadline_expired: bool)
    ensures
        harness_outcome(false, false, true) == HarnessStep::TimedOut,
        harness_outcome(false, false, false) == HarnessStep::Running,
        harness_outcome(true, unit_done, deadline_expired) == HarnessStep::Finished,
{
}

} // verus!
