//! Decides when an idle session counts as finished.

use crate::blockers::BlockerScanResult;
use crate::blockers::CallerResponseBlocker;
use crate::latch::observed;
use crate::latch::CallerResponseEventLatch;
use crate::latch::LatchKey;
use vstd::prelude::*;

verus! {

/// Remembers that the session looked finished once already.
#[derive(Debug, Clone, Copy, PartialEq, Eq, Structural)]
pub struct IdleCompletionMonitor {
    pub completion_candidate_pending: bool,
}

/// What to do with an idle session.
pub enum IdleCompletionOutcome {
    /// Keep watching.
    Continue,
    /// The caller has to answer first.
    Blocker(Box<CallerResponseBlocker>),
    /// The session is finished.
    Complete,
}

/// What to do with an idle session after the first look, or that a second look is needed.
pub enum IdleEvaluation {
    Settled(IdleCompletionOutcome),
    /// Everything points to a finished session; one more scan has to confirm it.
    Confirm,
}

impl IdleCompletionMonitor {
    /// The session made progress.
    pub fn reset_on_root_progress(&mut self)
        ensures
            !final(self).completion_candidate_pending,
    {
        self.completion_candidate_pending = false;
    }

    /// The session may not be finished after all.
    pub fn reset_completion_candidate(&mut self)
        ensures
            !final(self).completion_candidate_pending,
    {
        self.completion_candidate_pending = false;
    }
}

impl Default for IdleCompletionMonitor {
    fn default() -> (r: Self)
        ensures
            !r.completion_candidate_pending,
    {
        IdleCompletionMonitor { completion_candidate_pending: false }
    }
}

/// What follows from the first look at an idle session, and whether it then counts as a candidate. A
/// scan that found a request asks for the caller. Only after a clear scan that may complete, with no
/// request held from events, the session can be finished: at once if no events come in any more,
/// else if it was a candidate before.
pub open spec fn evaluated(
    pending: bool,
    held: Map<LatchKey, nat>,
    scan: BlockerScanResult,
    may_complete: bool,
    sse_active: bool,
) -> (bool, IdleEvaluation) {
    match scan {
        BlockerScanResult::Found(blocker) => (
            false,
            IdleEvaluation::Settled(IdleCompletionOutcome::Blocker(blocker)),
        ),
        BlockerScanResult::Inconclusive => (
            false,
            IdleEvaluation::Settled(IdleCompletionOutcome::Continue),
        ),
        BlockerScanResult::Clear => if !may_complete {
            (pending, IdleEvaluation::Settled(IdleCompletionOutcome::Continue))
        } else if held != Map::<LatchKey, nat>::empty() {
            (false, IdleEvaluation::Settled(IdleCompletionOutcome::Continue))
        } else if sse_active && !pending {
            (true, IdleEvaluation::Settled(IdleCompletionOutcome::Continue))
        } else {
            (pending, IdleEvaluation::Confirm)
        },
    }
}

/// What follows from the confirming scan, and whether the session still counts as a candidate.
pub open spec fn confirmed(
    pending: bool,
    held: Map<LatchKey, nat>,
    scan: BlockerScanResult,
) -> (bool, IdleCompletionOutcome) {
    match scan {
        BlockerScanResult::Found(blocker) => (false, IdleCompletionOutcome::Blocker(blocker)),
        BlockerScanResult::Inconclusive => (pending, IdleCompletionOutcome::Continue),
        BlockerScanResult::Clear => if held == Map::<LatchKey, nat>::empty() {
            (false, IdleCompletionOutcome::Complete)
        } else {
            (false, IdleCompletionOutcome::Continue)
        },
    }
}

/// Judge an idle session by a first scan. A scan made by polling also counts for the requests held
/// from events.
pub fn evaluate_idle_completion(
    monitor: &mut IdleCompletionMonitor,
    latch: &mut CallerResponseEventLatch,
    initial_scan: BlockerScanResult,
    poll_driven: bool,
    may_complete: bool,
    sse_active: bool,
) -> (r: IdleEvaluation)
    requires
        old(latch).wf(),
    ensures
        final(latch).wf(),
        final(latch)@ == if poll_driven {
            observed(old(latch)@, initial_scan)
        } else {
            old(latch)@
        },
        (final(monitor).completion_candidate_pending, r) == evaluated(
            old(monitor).completion_candidate_pending,
            final(latch)@,
            initial_scan,
            may_complete,
            sse_active,
        ),
{
    if poll_driven {
        latch.observe_poll_scan(&initial_scan);
    }
    match initial_scan {
        BlockerScanResult::Found(blocker) => {
            monitor.reset_on_root_progress();
            return IdleEvaluation::Settled(IdleCompletionOutcome::Blocker(blocker));
        },
        BlockerScanResult::Inconclusive => {
            monitor.reset_completion_candidate();
            return IdleEvaluation::Settled(IdleCompletionOutcome::Continue);
        },
        BlockerScanResult::Clear => {},
    }
    if !may_complete {
        return IdleEvaluation::Settled(IdleCompletionOutcome::Continue);
    }
    if !latch.is_empty() {
        monitor.reset_completion_candidate();
        return IdleEvaluation::Settled(IdleCompletionOutcome::Continue);
    }
    if sse_active && !monitor.completion_candidate_pending {
        monitor.completion_candidate_pending = true;
        return IdleEvaluation::Settled(IdleCompletionOutcome::Continue);
    }
    IdleEvaluation::Confirm
}

/// Judge an idle session by the confirming scan.
pub fn confirm_idle_completion(
    monitor: &mut IdleCompletionMonitor,
    latch: &CallerResponseEventLatch,
    final_scan: BlockerScanResult,
) -> (r: IdleCompletionOutcome)
    ensures
        (final(monitor).completion_candidate_pending, r) == confirmed(
            old(monitor).completion_candidate_pending,
            latch@,
            final_scan,
        ),
{
    match final_scan {
        BlockerScanResult::Found(blocker) => {
            monitor.reset_on_root_progress();
            IdleCompletionOutcome::Blocker(blocker)
        },
        BlockerScanResult::Inconclusive => IdleCompletionOutcome::Continue,
        BlockerScanResult::Clear => {
            if latch.is_empty() {
                monitor.reset_on_root_progress();
                IdleCompletionOutcome::Complete
            } else {
                monitor.reset_completion_candidate();
                IdleCompletionOutcome::Continue
            }
        },
    }
}

/// A session counts as finished only after two clear scans in a row with no request held from events;
/// and, while events come in, only if it was a candidate before.
pub proof fn law_complete_needs_two_clear_scans(
    pending: bool,
    held: Map<LatchKey, nat>,
    first: BlockerScanResult,
    second: BlockerScanResult,
    may_complete: bool,
    sse_active: bool,
)
    requires
        evaluated(pending, held, first, may_complete, sse_active).1 is Confirm,
        confirmed(
            evaluated(pending, held, first, may_complete, sse_active).0,
            held,
            second,
        ).1 is Complete,
    ensures
        first is Clear,
        second is Clear,
        may_complete,
        held == Map::<LatchKey, nat>::empty(),
        sse_active ==> pending,
{
}

/// A look that may not complete never leads to a finished session, and leaves a candidate as it is
/// unless something was found or could not be seen.
pub proof fn law_observation_never_completes(
    pending: bool,
    held: Map<LatchKey, nat>,
    scan: BlockerScanResult,
    sse_active: bool,
)
    ensures
        ({
            let (after, evaluation) = evaluated(pending, held, scan, false, sse_active);
            &&& evaluation is Settled
            &&& !(evaluation->Settled_0 is Complete)
            &&& scan is Clear ==> after == pending
        }),
{
}

/// A request that was found always reaches the caller.
pub proof fn law_found_reaches_caller(
    pending: bool,
    held: Map<LatchKey, nat>,
    blocker: Box<CallerResponseBlocker>,
    may_complete: bool,
    sse_active: bool,
)
    ensures
        evaluated(pending, held, BlockerScanResult::Found(blocker), may_complete, sse_active).1
            == IdleEvaluation::Settled(IdleCompletionOutcome::Blocker(blocker)),
        confirmed(pending, held, BlockerScanResult::Found(blocker)).1
            == IdleCompletionOutcome::Blocker(blocker),
{
}

/// When a confirming scan is made, and when it completes: exactly after a clear scan that may complete, with
/// no request held, and with the session already a candidate or without events; and exactly if that scan
/// is clear too, with no request held.
pub proof fn law_completion_is_owed(
    pending: bool,
    held: Map<LatchKey, nat>,
    scan: BlockerScanResult,
    may_complete: bool,
    sse_active: bool,
)
    ensures
        evaluated(pending, held, scan, may_complete, sse_active).1 is Confirm <==> scan is Clear
            && may_complete && held.dom() =~= Set::<LatchKey>::empty() && (pending || !sse_active),
        confirmed(pending, held, scan).1 is Complete <==> scan is Clear && held.dom() =~= Set::<
            LatchKey,
        >::empty(),
        evaluated(pending, held, scan, may_complete, sse_active).1 matches IdleEvaluation::Settled(
            IdleCompletionOutcome::Blocker(b),
        ) ==> scan == BlockerScanResult::Found(b),
        confirmed(pending, held, scan).1 matches IdleCompletionOutcome::Blocker(b) ==> scan
            == BlockerScanResult::Found(b),
{
    if held.dom() =~= Set::<LatchKey>::empty() {
        assert(held =~= Map::<LatchKey, nat>::empty());
    }
}

/// When an idle session becomes a candidate and when it stops being one: it becomes one on a clear scan
/// that may complete, with no request held; it stops on anything found or held, and on a first scan that
/// could not see everything; a confirming scan that could not see everything leaves it as it is.
pub proof fn law_candidates_come_and_go(
    pending: bool,
    held: Map<LatchKey, nat>,
    scan: BlockerScanResult,
    may_complete: bool,
    sse_active: bool,
)
    ensures
        ({
            let after = evaluated(pending, held, scan, may_complete, sse_active).0;
            let last = confirmed(pending, held, scan).0;
            let empty = held.dom() =~= Set::<LatchKey>::empty();
            &&& !(scan is Clear) ==> !after
            &&& scan is Clear && !may_complete ==> after == pending
            &&& scan is Clear && may_complete && !empty ==> !after
            &&& scan is Clear && may_complete && empty && sse_active ==> after
            &&& scan is Clear && may_complete && empty && !sse_active ==> after == pending
            &&& scan is Inconclusive ==> last == pending
            &&& !(scan is Inconclusive) ==> !last
        }),
{
    if held.dom() =~= Set::<LatchKey>::empty() {
        assert(held =~= Map::<LatchKey, nat>::empty());
    }
}

} // verus!
