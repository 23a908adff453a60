//! What holds of every run of the lifecycle, however the tunnel's
//! operations end.

use crate::tunnel::{DriverActionView, DriverEventView, DriverView, Outcomes, READY_SIGNAL};
use vstd::prelude::*;

verus! {

/// A run from the start asks for exactly the actions of
/// [`Outcomes::actions`], in that order, however the tunnel's operations
/// end.
pub proof fn lemma_run_follows_the_lifecycle(outcomes: Outcomes)
    ensures
        DriverView::idle().run(DriverEventView::Start, outcomes) == outcomes.actions(),
{
    reveal_with_fuel(DriverView::run, 6);
    assert(DriverView::idle().run(DriverEventView::Start, outcomes) =~= outcomes.actions());
}

/// Whether `prepare` and `serve` succeed, fail or (for `serve`) never
/// start, the driver asks for `cleanup` exactly once: after the last of
/// them, and right before it returns.
pub proof fn lemma_cleanup_runs_exactly_once(outcomes: Outcomes)
    ensures
        ({
            let actions = DriverView::idle().run(DriverEventView::Start, outcomes);
            let at = actions.len() - 2;
            &&& actions.len() >= 4
            &&& actions[at] == DriverActionView::Cleanup
            &&& actions.last() is Return
            &&& forall|i: int|
                0 <= i < actions.len() && i != at ==> actions[i] != DriverActionView::Cleanup
        }),
{
    lemma_run_follows_the_lifecycle(outcomes);
}

/// A failure of `prepare` is what the run returns, and `serve` is then
/// never asked for; else a failure of `serve` is what the run returns; and
/// only when both succeeded does the run return what `cleanup` returned.
pub proof fn lemma_earlier_failure_wins(outcomes: Outcomes)
    ensures
        ({
            let actions = DriverView::idle().run(DriverEventView::Start, outcomes);
            &&& actions.last() == DriverActionView::Return(outcomes.overall())
            &&& outcomes.prepare is Err ==> {
                &&& actions.last() == DriverActionView::Return(outcomes.prepare)
                &&& forall|i: int| 0 <= i < actions.len() ==> actions[i] != DriverActionView::Serve
            }
            &&& outcomes.prepare is Ok && outcomes.serve is Err ==> actions.last()
                == DriverActionView::Return(outcomes.serve)
            &&& outcomes.prepare is Ok && outcomes.serve is Ok ==> actions.last()
                == DriverActionView::Return(outcomes.cleanup)
        }),
{
    lemma_run_follows_the_lifecycle(outcomes);
}

/// The readiness signal is emitted exactly once in every run: right after
/// `prepare` has returned, and before `serve` where `serve` is asked for.
pub proof fn lemma_ready_is_signalled_once_after_prepare(outcomes: Outcomes)
    ensures
        ({
            let actions = DriverView::idle().run(DriverEventView::Start, outcomes);
            &&& actions.len() >= 4
            &&& actions[0] == DriverActionView::Prepare
            &&& actions[1] == DriverActionView::SignalReady(READY_SIGNAL@)
            &&& forall|i: int| 0 <= i < actions.len() && i != 1 ==> !(actions[i] is SignalReady)
            &&& forall|i: int|
                0 <= i < actions.len() && actions[i] == DriverActionView::Serve ==> i == 2
        }),
{
    lemma_run_follows_the_lifecycle(outcomes);
}

} // verus!
