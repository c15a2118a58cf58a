use vstd::prelude::*;

verus! {

/// What one poll of a deadline-bounded computation reports.
#[derive(PartialEq, Eq, Structural, Debug, Clone, Copy)]
pub enum TimeoutPoll<T> {
    /// Neither the deadline nor the computation is ready yet.
    Pending,
    /// The deadline has passed.
    TimedOut,
    /// The computation finished in time with this output.
    Completed(T),
}

/// The outcome of one turn, given whether the deadline has expired and, if
/// the computation was polled, whether it produced an output.
pub open spec fn timeout_outcome<T>(deadline_expired: bool, output: Option<T>) -> TimeoutPoll<T> {
    if deadline_expired {
        TimeoutPoll::TimedOut
    } else {
        match output {
            Some(v) => TimeoutPoll::Completed(v),
            None => TimeoutPoll::Pending,
        }
    }
}

/// Decides one turn of a deadline-bounded computation. The deadline is
/// looked at first: once it has expired the turn reports a timeout, whatever
/// the computation would have produced.
pub fn resolve_timeout<T>(deadline_expired: bool, output: Option<T>) -> (r: TimeoutPoll<T>)
    ensures
        r == timeout_outcome(deadline_expired, output),
{
    if deadline_expired {
        TimeoutPoll::TimedOut
    } else {
        match output {
            Some(v) => TimeoutPoll::Completed(v),
            None => TimeoutPoll::Pending,
        }
    }
}

/// The deadline wins a tie: when it expires in the same turn in which the
/// computation becomes ready, the turn reports a timeout, never the output.
pub proof fn lemma_deadline_has_priority<T>(output: T)
    ensures
        timeout_outcome(true, Some(output)) == TimeoutPoll::<T>::TimedOut,
        timeout_outcome(false, Some(output)) == TimeoutPoll::Completed(output),
{
}

} // verus!
