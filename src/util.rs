use vstd::prelude::*;
use crate::registers::{Probe, Registers};

verus! {

/// What a bounded poll does after looking at one reading.
#[derive(Clone, Copy, Debug, PartialEq, Eq, Structural)]
pub enum PollStep {
    /// The condition holds: the wait is over.
    Done,
    /// Not yet: read again.
    Again,
    /// Not yet, and the budget is spent.
    TimedOut,
}

/// Outcome of a poll that has read `elapsed` times before `observed`, with a
/// budget of `budget` reads.
pub open spec fn poll_outcome(probe: Probe, observed: Registers, elapsed: u32, budget: u32) -> PollStep {
    if !probe.busy(observed) {
        PollStep::Done
    } else if elapsed + 1 >= budget {
        PollStep::TimedOut
    } else {
        PollStep::Again
    }
}

/// One iteration of a bounded poll: decides from a fresh reading whether the
/// wait is over, goes on, or has run out of its budget.
pub fn poll_step(probe: Probe, observed: &Registers, elapsed: u32, budget: u32) -> (r: PollStep)
    requires
        probe matches Probe::CancelFinished(i) ==> i < 32,
    ensures
        r == poll_outcome(probe, *observed, elapsed, budget),
{
    if !probe.is_busy(observed) {
        PollStep::Done
    } else if budget == 0 || elapsed >= budget - 1 {
        PollStep::TimedOut
    } else {
        PollStep::Again
    }
}

/// A poll that keeps getting readings in which the condition does not hold
/// times out after exactly its budget of reads (one at least): each step
/// before that says to read again.
pub proof fn lemma_poll_bounded(probe: Probe, observed: Registers, elapsed: u32, budget: u32)
    requires
        probe.busy(observed),
    ensures
        poll_outcome(probe, observed, elapsed, budget) == PollStep::TimedOut <==> elapsed + 1 >= budget,
        poll_outcome(probe, observed, elapsed, budget) == PollStep::Again <==> elapsed + 1 < budget,
{
}

} // verus!
