//! What holds of every run, whatever is handed to its supervisor.

use crate::api::ApiError;
use crate::api::Event;
use crate::api::PermissionRequest;
use crate::api::QuestionRequest;
use crate::api::Session;
use crate::api::SessionStatusInfo;
use crate::blockers::BlockerScanResult;
use crate::blockers::CallerResponseBlocker;
use crate::blockers::CallerResponseBlockerKind;
use crate::blockers::CallerResponseBlockerPayload;
use crate::errors::ToolError;
use crate::idle::law_observation_never_completes;
use crate::latch::observed;
use crate::latch::LatchKey;
use crate::lineage::standing;
use crate::lineage::Parents;
use crate::lineage::Standing;
use crate::outcome::TokenStanding;
use crate::run_model::before_hand_over;
use crate::run_model::concerns_request;
use crate::run_model::concludes;
use crate::run_model::event_comes;
use crate::run_model::final_messages_taken;
use crate::run_model::may_complete;
use crate::run_model::scan_permissions_taken;
use crate::run_model::scan_questions_taken;
use crate::run_model::scan_session_taken;
use crate::run_model::scan_steps;
use crate::run_model::steps;
use crate::run_model::RunAction;
use crate::run_model::RunPhase;
use crate::run_model::RunSupervisor;
use crate::run_model::ScanPurpose;
use crate::run_model::Stimulus;
use crate::scan::depths_after;
use crate::scan::known_after;
use crate::scan::law_scan_finds_the_first_in_the_tree;
use crate::scan::permission_payloads;
use crate::scan::permissions_taken;
use crate::scan::question_payloads;
use crate::scan::questions_taken;
use crate::scan::session_taken;
use crate::scan::sifted;
use crate::scan::BlockerScan;
use crate::scan::OwnerDepth;
use crate::scan::ScanStep;
use crate::text::views;
use crate::types::RunStatus;
use vstd::prelude::*;

verus! {

/// The scan on its way is to confirm that the session is finished.
pub open spec fn confirming(phase: RunPhase) -> bool {
    phase is Scanning && phase->purpose == ScanPurpose::Confirm
}

/// What a run keeps as long as it goes on: what it was asked to do, that the session was seen at work,
/// that events have stopped, the command's message, the warnings and the text received.
pub open spec fn keeps(s: RunSupervisor, after: RunSupervisor) -> bool {
    &&& after.limits == s.limits
    &&& after.mode == s.mode
    &&& after.session_id == s.session_id
    &&& after.command == s.command
    &&& after.agent == s.agent
    &&& after.message == s.message
    &&& after.wait_for_activity == s.wait_for_activity
    &&& s.observed_busy ==> after.observed_busy
    &&& !s.sse_active ==> !after.sse_active
    &&& s.window is Some ==> after.window == s.window
    &&& views(s.warnings@).is_prefix_of(views(after.warnings@))
    &&& s.partial_response@.is_prefix_of(after.partial_response@)
    &&& s.correlated_assistant_ids@.subset_of(after.correlated_assistant_ids@)
}

proof fn lemma_concludes(
    s: RunSupervisor,
    purpose: ScanPurpose,
    result: Result<BlockerScanResult, ToolError>,
    after: RunSupervisor,
    action: RunAction,
)
    requires
        concludes(s, purpose, result, after, action),
    ensures
        purpose != ScanPurpose::Preflight ==> !before_hand_over(after.phase),
        !confirming(after.phase),
        !(action is StartCommand),
        !(action is SendPrompt),
        purpose != ScanPurpose::Preflight ==> !(action is Subscribe),
        after.phase is Finalizing ==> {
            &&& purpose == ScanPurpose::Confirm
            &&& result == Ok::<BlockerScanResult, ToolError>(BlockerScanResult::Clear)
            &&& s.latch@ == Map::<LatchKey, nat>::empty()
        },
        !(after.phase is Done) && !(after.phase is Finalizing) ==> keeps(s, after),
{
    if result is Ok {
        law_observation_never_completes(
            s.monitor.completion_candidate_pending,
            s.latch@,
            result->Ok_0,
            s.sse_active,
        );
    }
}

proof fn lemma_scan_steps(
    s: RunSupervisor,
    purpose: ScanPurpose,
    scan: BlockerScan,
    step: ScanStep,
    after: RunSupervisor,
    action: RunAction,
)
    requires
        scan_steps(s, purpose, scan, step, after, action),
    ensures
        purpose != ScanPurpose::Preflight ==> !before_hand_over(after.phase),
        confirming(after.phase) ==> purpose == ScanPurpose::Confirm,
        !(action is StartCommand),
        !(action is SendPrompt),
        purpose != ScanPurpose::Preflight ==> !(action is Subscribe),
        after.phase is Finalizing ==> {
            &&& purpose == ScanPurpose::Confirm
            &&& step == ScanStep::Finished(Ok(BlockerScanResult::Clear))
            &&& s.latch@ == Map::<LatchKey, nat>::empty()
        },
        !(after.phase is Done) && !(after.phase is Finalizing) ==> keeps(s, after),
{
    if let ScanStep::Finished(result) = step {
        lemma_concludes(s, purpose, result, after, action);
    }
}

/// What a scan waits for after a step is what the step asked for.
pub open spec fn scan_awaits(scan: BlockerScan, step: ScanStep) -> bool {
    match step {
        ScanStep::ListPermissions => scan.stage is ListingPermissions,
        ScanStep::ListQuestions => scan.stage is ListingQuestions,
        ScanStep::FetchSession(id) => scan.stage is Placing && scan.stage->fetching == id,
        ScanStep::Finished(_) => true,
    }
}

/// What a step of a scan found, if anything, is below this root session.
pub open spec fn finds_below(step: ScanStep, root: String) -> bool {
    match step {
        ScanStep::Finished(Ok(BlockerScanResult::Found(blocker))) => blocker.root_session_id == root,
        _ => true,
    }
}

proof fn lemma_sifted(
    known: Parents,
    root: String,
    asks: CallerResponseBlockerKind,
    pending: Seq<CallerResponseBlockerPayload>,
    depths: Seq<OwnerDepth>,
    inconclusive: bool,
    after: BlockerScan,
    step: ScanStep,
)
    requires
        sifted(known, root, asks, pending, depths, inconclusive, after, step),
    ensures
        scan_awaits(after, step),
        finds_below(step, root),
{
    if let ScanStep::Finished(Ok(BlockerScanResult::Found(found))) = step {
        let i = law_scan_finds_the_first_in_the_tree(
            known,
            root,
            asks,
            pending,
            depths,
            inconclusive,
            after,
            found,
        );
    }
}

/// Whether the scan on its way goes to this state, with this step, by what was handed in.
pub open spec fn scan_goes_to(
    s: RunSupervisor,
    stimulus: Stimulus,
    scan: BlockerScan,
    step: ScanStep,
) -> bool {
    let before = s.phase->Scanning_scan;
    let known = s.lineage.known();
    match stimulus {
        Stimulus::Permissions { reply } => exists|warnings: Seq<String>| #[trigger]
            permissions_taken(
                before,
                s.session_id,
                known,
                s.warnings@,
                reply,
                scan,
                warnings,
                step,
            ),
        Stimulus::Questions { reply } => questions_taken(
            before,
            s.session_id,
            known,
            reply,
            scan,
            step,
        ),
        Stimulus::ScanSession { reply } => session_taken(
            before,
            s.session_id,
            known,
            known_after(known, before.stage->fetching@, reply),
            reply,
            scan,
            step,
        ),
        _ => false,
    }
}

/// Whether the scan on its way ends by what was handed in, and found nothing and saw everything.
pub open spec fn scan_ends_clear(s: RunSupervisor, stimulus: Stimulus) -> bool {
    exists|scan: BlockerScan|
        #[trigger] scan_goes_to(
            s,
            stimulus,
            scan,
            ScanStep::Finished(Ok(BlockerScanResult::Clear)),
        )
}

/// What is known of the step of a scan that a step of the run was made from.
spec fn scanned_from(
    s: RunSupervisor,
    mid: RunSupervisor,
    scan: BlockerScan,
    step: ScanStep,
    after: RunSupervisor,
    action: RunAction,
) -> bool {
    &&& mid == (RunSupervisor {
        lineage: mid.lineage,
        warnings: mid.warnings,
        phase: RunPhase::Done,
        ..s
    })
    &&& views(s.warnings@).is_prefix_of(views(mid.warnings@))
    &&& scan_steps(mid, s.phase->purpose, scan, step, after, action)
    &&& scan_awaits(scan, step)
    &&& finds_below(step, s.session_id)
}

proof fn lemma_scanned_permissions(
    s: RunSupervisor,
    reply: Result<Vec<PermissionRequest>, ApiError>,
    after: RunSupervisor,
    action: RunAction,
) -> (r: (RunSupervisor, BlockerScan, ScanStep))
    requires
        scan_permissions_taken(s, reply, after, action),
    ensures
        scanned_from(s, r.0, r.1, r.2, after, action),
        scan_goes_to(s, Stimulus::Permissions { reply }, r.1, r.2),
        r.0.lineage.known() == s.lineage.known(),
{
    let (mid, scan, step) = choose|mid: RunSupervisor, scan: BlockerScan, step: ScanStep|
        {
            &&& mid == (RunSupervisor {
                lineage: mid.lineage,
                warnings: mid.warnings,
                phase: RunPhase::Done,
                ..s
            })
            &&& mid.lineage.known() == s.lineage.known()
            &&& permissions_taken(
                s.phase->Scanning_scan,
                s.session_id,
                s.lineage.known(),
                s.warnings@,
                reply,
                scan,
                mid.warnings@,
                step,
            )
            &&& #[trigger] scan_steps(mid, s.phase->purpose, scan, step, after, action)
        };
    if let Ok(permissions) = reply {
        lemma_sifted(
            s.lineage.known(),
            s.session_id,
            CallerResponseBlockerKind::Permission,
            permission_payloads(permissions@),
            Seq::empty(),
            s.phase->Scanning_scan.inconclusive,
            scan,
            step,
        );
    }
    (mid, scan, step)
}

proof fn lemma_scanned_questions(
    s: RunSupervisor,
    reply: Result<Vec<QuestionRequest>, ApiError>,
    after: RunSupervisor,
    action: RunAction,
) -> (r: (RunSupervisor, BlockerScan, ScanStep))
    requires
        scan_questions_taken(s, reply, after, action),
    ensures
        scanned_from(s, r.0, r.1, r.2, after, action),
        scan_goes_to(s, Stimulus::Questions { reply }, r.1, r.2),
        r.0.lineage.known() == s.lineage.known(),
        r.0.warnings == s.warnings,
{
    let (mid, scan, step) = choose|mid: RunSupervisor, scan: BlockerScan, step: ScanStep|
        {
            &&& mid == (RunSupervisor { lineage: mid.lineage, phase: RunPhase::Done, ..s })
            &&& mid.lineage.known() == s.lineage.known()
            &&& questions_taken(
                s.phase->Scanning_scan,
                s.session_id,
                s.lineage.known(),
                reply,
                scan,
                step,
            )
            &&& #[trigger] scan_steps(mid, s.phase->purpose, scan, step, after, action)
        };
    if let Ok(questions) = reply {
        lemma_sifted(
            s.lineage.known(),
            s.session_id,
            CallerResponseBlockerKind::Question,
            question_payloads(questions@),
            Seq::empty(),
            s.phase->Scanning_scan.inconclusive,
            scan,
            step,
        );
    }
    (mid, scan, step)
}

proof fn lemma_scanned_session(
    s: RunSupervisor,
    reply: Result<Session, ApiError>,
    after: RunSupervisor,
    action: RunAction,
) -> (r: (RunSupervisor, BlockerScan, ScanStep))
    requires
        scan_session_taken(s, reply, after, action),
    ensures
        scanned_from(s, r.0, r.1, r.2, after, action),
        scan_goes_to(s, Stimulus::ScanSession { reply }, r.1, r.2),
        r.0.warnings == s.warnings,
{
    let (mid, scan, step) = choose|mid: RunSupervisor, scan: BlockerScan, step: ScanStep|
        {
            &&& mid == (RunSupervisor { lineage: mid.lineage, phase: RunPhase::Done, ..s })
            &&& session_taken(
                s.phase->Scanning_scan,
                s.session_id,
                s.lineage.known(),
                mid.lineage.known(),
                reply,
                scan,
                step,
            )
            &&& #[trigger] scan_steps(mid, s.phase->purpose, scan, step, after, action)
        };
    let before = s.phase->Scanning_scan;
    lemma_sifted(
        mid.lineage.known(),
        s.session_id,
        before.stage->asks,
        before.stage->sweep.pending@,
        depths_after(before.stage->sweep.depths@, reply),
        before.inconclusive,
        scan,
        step,
    );
    (mid, scan, step)
}

/// Gives back what a step of the run was made from while a scan is on its way.
proof fn lemma_scanned(
    s: RunSupervisor,
    stimulus: Stimulus,
    after: RunSupervisor,
    action: RunAction,
) -> (r: (RunSupervisor, BlockerScan, ScanStep))
    requires
        steps(s, stimulus, after, action),
        s.phase is Scanning,
    ensures
        scanned_from(s, r.0, r.1, r.2, after, action),
        scan_goes_to(s, stimulus, r.1, r.2),
        !(stimulus is ScanSession) ==> r.0.lineage.known() == s.lineage.known(),
        !(stimulus is Permissions) ==> r.0.warnings == s.warnings,
{
    match stimulus {
        Stimulus::Permissions { reply } => lemma_scanned_permissions(s, reply, after, action),
        Stimulus::Questions { reply } => lemma_scanned_questions(s, reply, after, action),
        Stimulus::ScanSession { reply } => lemma_scanned_session(s, reply, after, action),
        _ => arbitrary(),
    }
}

/// Work is handed over once: after that, no step sends a command or a prompt or subscribes again, and none
/// leads back to where that is done.
#[verifier::spinoff_prover]
#[verifier::rlimit(40)]
pub proof fn law_work_is_handed_over_once(
    s: RunSupervisor,
    stimulus: Stimulus,
    after: RunSupervisor,
    action: RunAction,
)
    requires
        steps(s, stimulus, after, action),
        !before_hand_over(s.phase),
    ensures
        !before_hand_over(after.phase),
        !(action is StartCommand),
        !(action is SendPrompt),
        !(action is Subscribe),
{
    if s.phase is Scanning {
        let (mid, scan, step) = lemma_scanned(s, stimulus, after, action);
        lemma_scan_steps(mid, s.phase->purpose, scan, step, after, action);
    }
}

/// Whether the supervisor waits for what an action brings.
pub open spec fn awaits(s: RunSupervisor, action: RunAction) -> bool {
    match action {
        RunAction::ReadStatus => {
            ||| s.phase is InitialStatus
            ||| s.phase is PostSubscribeStatus
            ||| s.phase is PollStatus
            ||| s.phase is GraceStatus
            ||| s.phase is CommandStatus
        },
        RunAction::ListPermissions => s.phase is Scanning
            && s.phase->Scanning_scan.stage is ListingPermissions,
        RunAction::ListQuestions => s.phase is Scanning
            && s.phase->Scanning_scan.stage is ListingQuestions,
        RunAction::FetchSession(id) => {
            ||| s.phase is PlacingOwner && s.phase->fetching == id
            ||| s.phase is Scanning && s.phase->Scanning_scan.stage is Placing
                && s.phase->Scanning_scan.stage->fetching == id
        },
        RunAction::Subscribe => s.phase is Subscribing,
        RunAction::StartCommand { .. } => s.phase is StartingCommand,
        RunAction::SendPrompt { .. } => s.phase is Prompting,
        RunAction::ReadClock => s.phase is LoopTop,
        RunAction::Wait { events, command, .. } => s.phase is Waiting && events == s.sse_active
            && command == s.command_active,
        RunAction::ReadTranscript => s.phase is CommandTranscript,
        RunAction::ReadMessages { .. } => s.phase is Finalizing
            && s.phase->Finalizing_0.stage is Reading,
        RunAction::Summarize { .. } => s.phase is Finalizing
            && s.phase->Finalizing_0.stage is Summarizing,
        RunAction::Return(_) => s.phase is Done,
        RunAction::AbortCommandAndReturn(_) => s.phase is Done,
    }
}

proof fn lemma_scan_is_awaited(
    s: RunSupervisor,
    stimulus: Stimulus,
    after: RunSupervisor,
    action: RunAction,
)
    requires
        steps(s, stimulus, after, action),
        s.phase is Scanning,
    ensures
        awaits(after, action),
{
    let (mid, scan, step) = lemma_scanned(s, stimulus, after, action);
}

proof fn lemma_final_messages_are_awaited(
    s: RunSupervisor,
    reply: Result<Option<String>, ApiError>,
    after: RunSupervisor,
    action: RunAction,
)
    requires
        final_messages_taken(s, reply, after, action),
    ensures
        awaits(after, action),
{
}

proof fn lemma_event_is_awaited(
    s: RunSupervisor,
    event: Event,
    now: u64,
    tokens: TokenStanding,
    after: RunSupervisor,
    action: RunAction,
)
    requires
        event_comes(s, event, now, tokens, after, action),
    ensures
        awaits(after, action),
{
}

/// The supervisor never gets out of step: after every step it waits for what the action it names brings.
#[verifier::spinoff_prover]
#[verifier::rlimit(40)]
pub proof fn law_every_action_is_awaited(
    s: RunSupervisor,
    stimulus: Stimulus,
    after: RunSupervisor,
    action: RunAction,
)
    requires
        steps(s, stimulus, after, action),
    ensures
        awaits(after, action),
{
    match stimulus {
        Stimulus::Permissions { .. } | Stimulus::Questions { .. }
        | Stimulus::ScanSession { .. } => {
            lemma_scan_is_awaited(s, stimulus, after, action);
        },
        Stimulus::FinalMessages { reply } => {
            lemma_final_messages_are_awaited(s, reply, after, action);
        },
        Stimulus::EventCame { event, now, tokens } => {
            lemma_event_is_awaited(s, event, now, tokens, after, action);
        },
        _ => {},
    }
}

/// As long as the work is not handed over, no message id is tied to it.
#[verifier::spinoff_prover]
#[verifier::rlimit(40)]
pub proof fn law_no_message_before_hand_over(
    s: RunSupervisor,
    stimulus: Stimulus,
    after: RunSupervisor,
    action: RunAction,
)
    requires
        steps(s, stimulus, after, action),
        before_hand_over(s.phase) ==> s.window is None,
    ensures
        before_hand_over(after.phase) ==> after.window is None,
{
    if s.phase is Scanning {
        let (mid, scan, step) = lemma_scanned(s, stimulus, after, action);
        lemma_scan_steps(mid, s.phase->purpose, scan, step, after, action);
    }
}

/// What a run hands back names the session that it monitored, and says that the session is completed
/// exactly if it comes from the end of the run; else it asks the caller for something.
#[verifier::spinoff_prover]
#[verifier::rlimit(40)]
pub proof fn law_output_names_the_monitored_session(
    s: RunSupervisor,
    stimulus: Stimulus,
    after: RunSupervisor,
    action: RunAction,
)
    requires
        s.wf(),
        steps(s, stimulus, after, action),
        action is Return,
        action->Return_0 is Ok,
    ensures
        ({
            let output = action->Return_0->Ok_0.output;
            &&& output.session_id == if s.phase is Finalizing {
                s.phase->Finalizing_0.session_id
            } else {
                s.session_id
            }
            &&& output.status == RunStatus::Completed <==> s.phase is Finalizing
        }),
{
    if s.phase is Scanning {
        let (mid, scan, step) = lemma_scanned(s, stimulus, after, action);
    }
}

/// The end of a run reports on the session that was monitored.
#[verifier::spinoff_prover]
#[verifier::rlimit(40)]
pub proof fn law_end_keeps_the_session(
    s: RunSupervisor,
    stimulus: Stimulus,
    after: RunSupervisor,
    action: RunAction,
)
    requires
        steps(s, stimulus, after, action),
        after.phase is Finalizing,
    ensures
        after.phase->Finalizing_0.session_id == if s.phase is Finalizing {
            s.phase->Finalizing_0.session_id
        } else {
            s.session_id
        },
{
    match stimulus {
        Stimulus::Permissions { .. } | Stimulus::Questions { .. }
        | Stimulus::ScanSession { .. } => {
            lemma_scan_keeps_the_session(s, stimulus, after, action);
        },
        Stimulus::FinalMessages { reply } => {
            lemma_final_messages_keep_the_session(s, reply, after, action);
        },
        Stimulus::EventCame { event, now, tokens } => {
            lemma_events_do_not_end(s, event, now, tokens, after, action);
        },
        _ => {},
    }
}

proof fn lemma_scan_keeps_the_session(
    s: RunSupervisor,
    stimulus: Stimulus,
    after: RunSupervisor,
    action: RunAction,
)
    requires
        steps(s, stimulus, after, action),
        s.phase is Scanning,
        after.phase is Finalizing,
    ensures
        after.phase->Finalizing_0.session_id == s.session_id,
{
    let (mid, scan, step) = lemma_scanned(s, stimulus, after, action);
}

proof fn lemma_final_messages_keep_the_session(
    s: RunSupervisor,
    reply: Result<Option<String>, ApiError>,
    after: RunSupervisor,
    action: RunAction,
)
    requires
        final_messages_taken(s, reply, after, action),
        after.phase is Finalizing,
    ensures
        after.phase->Finalizing_0.session_id == s.phase->Finalizing_0.session_id,
{
}

proof fn lemma_events_do_not_end(
    s: RunSupervisor,
    event: Event,
    now: u64,
    tokens: TokenStanding,
    after: RunSupervisor,
    action: RunAction,
)
    requires
        event_comes(s, event, now, tokens, after, action),
    ensures
        !(after.phase is Finalizing),
{
}

/// The end of a run begins in one way only: with a scan that was made to confirm it, found nothing and
/// saw everything, while no request is held from events.
#[verifier::spinoff_prover]
#[verifier::rlimit(40)]
pub proof fn law_only_a_clear_confirmation_completes(
    s: RunSupervisor,
    stimulus: Stimulus,
    after: RunSupervisor,
    action: RunAction,
)
    requires
        steps(s, stimulus, after, action),
        after.phase is Finalizing,
        !(s.phase is Finalizing),
    ensures
        confirming(s.phase),
        s.latch@ == Map::<LatchKey, nat>::empty(),
        scan_ends_clear(s, stimulus),
{
    if s.phase is Scanning {
        let (mid, scan, step) = lemma_scanned(s, stimulus, after, action);
        lemma_scan_steps(mid, s.phase->purpose, scan, step, after, action);
        assert(scan_goes_to(s, stimulus, scan, step));
    }
}

/// A confirming scan begins in one way only: on a poll that found the session idle and nothing waiting,
/// with no request held from events, when the session may be finished; and, while events come in, only
/// if an earlier poll found the same.
#[verifier::spinoff_prover]
#[verifier::rlimit(40)]
pub proof fn law_confirmation_needs_a_clear_idle_poll(
    s: RunSupervisor,
    stimulus: Stimulus,
    after: RunSupervisor,
    action: RunAction,
)
    requires
        steps(s, stimulus, after, action),
        confirming(after.phase),
        !confirming(s.phase),
    ensures
        stimulus matches Stimulus::PollStatus { reply, now } && reply is Ok
            && !reply->Ok_0.busy_like() && may_complete(s, now),
        s.phase is PollStatus,
        s.phase->PollStatus_scan is Clear,
        after.latch@ == Map::<LatchKey, nat>::empty(),
        s.sse_active ==> s.monitor.completion_candidate_pending,
{
    if s.phase is Scanning {
        let (mid, scan, step) = lemma_scanned(s, stimulus, after, action);
        lemma_scan_steps(mid, s.phase->purpose, scan, step, after, action);
    }
}

/// New work that was not seen at work yet cannot be finished before its grace period is over: a poll that
/// finds the session idle then leads to the next wait, or hands a request to the caller.
pub proof fn law_new_work_is_given_time(
    s: RunSupervisor,
    reply: Result<SessionStatusInfo, ApiError>,
    now: u64,
    after: RunSupervisor,
    action: RunAction,
)
    requires
        steps(s, Stimulus::PollStatus { reply, now }, after, action),
        s.dispatched_new_work(),
        !s.observed_busy,
        s.idle_grace_deadline is None || now < s.idle_grace_deadline->Some_0,
    ensures
        after.phase is LoopTop || after.phase is Done,
        s.phase->PollStatus_scan is Clear && reply is Ok && !reply->Ok_0.busy_like()
            && s.idle_grace_deadline is Some ==> after.awaiting_idle_grace_check,
{
}

/// As long as a request is held from events, no poll leads to a confirming scan or to the end.
pub proof fn law_held_requests_prevent_completion(
    s: RunSupervisor,
    reply: Result<SessionStatusInfo, ApiError>,
    now: u64,
    after: RunSupervisor,
    action: RunAction,
)
    requires
        steps(s, Stimulus::PollStatus { reply, now }, after, action),
        observed(s.latch@, s.phase->PollStatus_scan) != Map::<LatchKey, nat>::empty(),
    ensures
        after.phase is LoopTop || after.phase is Done,
        !(s.phase->PollStatus_scan is Found) ==> after.phase is LoopTop && after.latch@ == observed(
            s.latch@,
            s.phase->PollStatus_scan,
        ),
{
}

/// An event that concerns no request and does not name the monitored session changes nothing.
pub proof fn law_unrelated_events_change_nothing(
    s: RunSupervisor,
    event: Event,
    now: u64,
    tokens: TokenStanding,
    after: RunSupervisor,
    action: RunAction,
)
    requires
        steps(s, Stimulus::EventCame { event, now, tokens }, after, action),
        !concerns_request(event),
        event.names_session() != Some(s.session_id@),
    ensures
        after == (RunSupervisor { phase: RunPhase::LoopTop, ..s }),
        action is ReadClock,
{
}

/// An announced request whose owner is known to be outside the root's tree changes nothing.
pub proof fn law_foreign_requests_are_ignored(
    s: RunSupervisor,
    event: Event,
    now: u64,
    tokens: TokenStanding,
    after: RunSupervisor,
    action: RunAction,
)
    requires
        steps(s, Stimulus::EventCame { event, now, tokens }, after, action),
        event is PermissionAsked || event is QuestionAsked,
        standing(s.lineage.known(), s.session_id@, event.names_session()->Some_0)
            == Standing::Outside,
    ensures
        after == (RunSupervisor { lineage: after.lineage, phase: RunPhase::LoopTop, ..s }),
        after.lineage.known() == s.lineage.known(),
        action is ReadClock,
{
}

/// An announced request whose owner turns out to be outside the root's tree, because a session on the way
/// does not exist or shows it, changes nothing but what is known of sessions.
pub proof fn law_foreign_owners_are_ignored(
    s: RunSupervisor,
    reply: Result<Session, ApiError>,
    after: RunSupervisor,
    action: RunAction,
)
    requires
        steps(s, Stimulus::OwnerSession { reply }, after, action),
        match reply {
            Ok(_) => standing(
                known_after(s.lineage.known(), s.phase->fetching@, reply),
                s.session_id@,
                s.phase->owner_session_id@,
            ) == Standing::Outside,
            Err(error) => error.not_found(),
        },
    ensures
        after == (RunSupervisor { lineage: after.lineage, phase: RunPhase::LoopTop, ..s }),
        after.lineage.known() == known_after(s.lineage.known(), s.phase->fetching@, reply),
        action is ReadClock,
{
}

/// A request that a scan finds ends the run and reaches the caller: the output names the root session and
/// what is asked for, and brings all warnings.
pub proof fn law_found_requests_reach_the_caller(
    s: RunSupervisor,
    purpose: ScanPurpose,
    blocker: CallerResponseBlocker,
    after: RunSupervisor,
    action: RunAction,
)
    requires
        concludes(
            s,
            purpose,
            Ok(BlockerScanResult::Found(Box::new(blocker))),
            after,
            action,
        ),
    ensures
        after.phase is Done,
        action matches RunAction::Return(Ok(outcome)) && {
            &&& outcome.output.session_id == blocker.root_session_id
            &&& outcome.output.warnings == s.warnings
            &&& match blocker.payload {
                CallerResponseBlockerPayload::Permission(permission) => {
                    &&& outcome.output.status == RunStatus::PermissionRequired
                    &&& outcome.output.permission_request_id == Some(permission.id)
                },
                CallerResponseBlockerPayload::Question(question) => {
                    &&& outcome.output.status == RunStatus::QuestionRequired
                    &&& outcome.output.question_request_id == Some(question.id)
                },
            }
        },
{
}

proof fn lemma_event_keeps(
    s: RunSupervisor,
    event: Event,
    now: u64,
    tokens: TokenStanding,
    after: RunSupervisor,
    action: RunAction,
)
    requires
        event_comes(s, event, now, tokens, after, action),
        !(after.phase is Done),
    ensures
        keeps(s, after),
{
    match event {
        Event::MessagePartDelta { properties } => {
            assert(s.partial_response@.is_prefix_of(after.partial_response@));
        },
        Event::MessageUpdated { properties } => {
            assert(s.partial_response@.is_prefix_of(after.partial_response@));
            assert(s.correlated_assistant_ids@.subset_of(after.correlated_assistant_ids@));
        },
        _ => {},
    }
}

proof fn lemma_command_keeps(
    s: RunSupervisor,
    stimulus: Stimulus,
    after: RunSupervisor,
    action: RunAction,
)
    requires
        stimulus is CommandReturned || stimulus is CommandStatus || stimulus is Transcript,
        steps(s, stimulus, after, action),
        !(after.phase is Done),
    ensures
        keeps(s, after),
{
    if after.warnings != s.warnings {
        assert(views(s.warnings@).is_prefix_of(views(after.warnings@)));
    }
}

proof fn lemma_scan_keeps(
    s: RunSupervisor,
    stimulus: Stimulus,
    after: RunSupervisor,
    action: RunAction,
)
    requires
        steps(s, stimulus, after, action),
        s.phase is Scanning,
        !(after.phase is Done),
        !(after.phase is Finalizing),
    ensures
        keeps(s, after),
{
    let (mid, scan, step) = lemma_scanned(s, stimulus, after, action);
    lemma_scan_steps(mid, s.phase->purpose, scan, step, after, action);
    assert(views(s.warnings@).is_prefix_of(views(after.warnings@)));
}

/// A run that goes on keeps what it was asked to do, the monitored session, what it has seen, its
/// warnings and the text received; warnings and text only grow.
#[verifier::spinoff_prover]
#[verifier::rlimit(40)]
pub proof fn law_what_every_step_keeps(
    s: RunSupervisor,
    stimulus: Stimulus,
    after: RunSupervisor,
    action: RunAction,
)
    requires
        s.wf(),
        steps(s, stimulus, after, action),
        !(after.phase is Done),
        !(after.phase is Finalizing),
    ensures
        keeps(s, after),
{
    match stimulus {
        Stimulus::EventCame { event, now, tokens } => {
            lemma_event_keeps(s, event, now, tokens, after, action);
        },
        Stimulus::CommandReturned { .. } | Stimulus::CommandStatus { .. }
        | Stimulus::Transcript { .. } => {
            lemma_command_keeps(s, stimulus, after, action);
        },
        Stimulus::Permissions { .. } | Stimulus::Questions { .. }
        | Stimulus::ScanSession { .. } => {
            lemma_scan_keeps(s, stimulus, after, action);
        },
        _ => {},
    }
}

/// Whether anything about how a run stands changes only by what may change it: the tokens, the text and the
/// messages noted by events, the requests held by events, owners and polls, the sessions known by
/// sessions fetched, the warnings by lists of permissions and lost commands, and the times by what is said of
/// the work.
pub open spec fn changes_only_by(
    s: RunSupervisor,
    stimulus: Stimulus,
    after: RunSupervisor,
) -> bool {
    &&& after.tokens == s.tokens || (stimulus is EventCame && after.tokens == stimulus->tokens)
    &&& after.partial_response == s.partial_response || stimulus is EventCame
    &&& after.correlated_assistant_ids == s.correlated_assistant_ids || stimulus is EventCame
    &&& after.precorrelation_deltas == s.precorrelation_deltas || stimulus is EventCame
        || stimulus is Subscription
    &&& after.latch@ == s.latch@ || stimulus is EventCame || stimulus is OwnerSession
        || stimulus is PollStatus
    &&& after.lineage.known() == s.lineage.known() || stimulus is ScanSession
        || stimulus is OwnerSession
    &&& after.warnings == s.warnings || stimulus is Permissions || stimulus is CommandReturned
        || stimulus is CommandStatus || stimulus is Transcript
    &&& after.window == s.window || stimulus is Subscription
    &&& after.command_active == s.command_active || stimulus is Subscription
        || stimulus is CommandReturned || stimulus is CommandStatus || stimulus is Transcript
    &&& after.sse_active == s.sse_active || stimulus is StreamClosed
    &&& after.observed_busy == s.observed_busy || stimulus is EventCame || stimulus is PollStatus
        || stimulus is GraceStatus || stimulus is CommandStatus
    &&& after.deadline == s.deadline || stimulus is Subscription || stimulus is CommandStarted
        || stimulus is PromptSent
    &&& after.idle_grace_deadline == s.idle_grace_deadline || stimulus is Subscription
        || stimulus is PromptSent || stimulus is CommandReturned || stimulus is Transcript
    &&& after.awaiting_idle_grace_check ==> s.awaiting_idle_grace_check || stimulus is PollStatus
    &&& after.monitor.completion_candidate_pending ==> s.monitor.completion_candidate_pending
        || stimulus is PollStatus
}

/// Activity is dated by the time at which it was seen, and is seen only in what says so.
pub open spec fn activity_is_dated(
    s: RunSupervisor,
    stimulus: Stimulus,
    after: RunSupervisor,
) -> bool {
    after.last_activity == s.last_activity || match stimulus {
        Stimulus::Subscription { now, .. } => after.last_activity == now,
        Stimulus::CommandStarted { now } => after.last_activity == now,
        Stimulus::PromptSent { now, .. } => after.last_activity == now,
        Stimulus::EventCame { now, .. } => after.last_activity == now,
        Stimulus::PollStatus { now, .. } => after.last_activity == now,
        Stimulus::GraceStatus { now, .. } => after.last_activity == now,
        Stimulus::CommandStatus { now, .. } => after.last_activity == now,
        Stimulus::Transcript { now, .. } => after.last_activity == now,
        _ => false,
    }
}

proof fn lemma_event_changes(
    s: RunSupervisor,
    event: Event,
    now: u64,
    tokens: TokenStanding,
    after: RunSupervisor,
    action: RunAction,
)
    requires
        event_comes(s, event, now, tokens, after, action),
        !(after.phase is Done),
    ensures
        changes_only_by(s, Stimulus::EventCame { event, now, tokens }, after),
        activity_is_dated(s, Stimulus::EventCame { event, now, tokens }, after),
{
}

proof fn lemma_scan_changes(
    s: RunSupervisor,
    stimulus: Stimulus,
    after: RunSupervisor,
    action: RunAction,
)
    requires
        steps(s, stimulus, after, action),
        s.phase is Scanning,
        !(after.phase is Done),
        !(after.phase is Finalizing),
    ensures
        changes_only_by(s, stimulus, after),
        activity_is_dated(s, stimulus, after),
{
    let (mid, scan, step) = lemma_scanned(s, stimulus, after, action);
}

/// While a run goes on, each part of how it stands is left alone by every step but those that are about it, and
/// activity is dated by the time handed in.
#[verifier::spinoff_prover]
#[verifier::rlimit(40)]
pub proof fn law_steps_leave_the_rest_alone(
    s: RunSupervisor,
    stimulus: Stimulus,
    after: RunSupervisor,
    action: RunAction,
)
    requires
        steps(s, stimulus, after, action),
        !(after.phase is Done),
        !(after.phase is Finalizing),
    ensures
        changes_only_by(s, stimulus, after),
        activity_is_dated(s, stimulus, after),
{
    match stimulus {
        Stimulus::EventCame { event, now, tokens } => {
            lemma_event_changes(s, event, now, tokens, after, action);
        },
        Stimulus::Permissions { .. } | Stimulus::Questions { .. }
        | Stimulus::ScanSession { .. } => {
            lemma_scan_changes(s, stimulus, after, action);
        },
        _ => {},
    }
}

// ---------------------------------------------------------------------------
// Whole runs
// ---------------------------------------------------------------------------
/// A run on its way: each state follows from the one before by what was handed in there, and names the
/// action next to it.
pub open spec fn is_run(
    states: Seq<RunSupervisor>,
    stimuli: Seq<Stimulus>,
    actions: Seq<RunAction>,
) -> bool {
    &&& states.len() == stimuli.len() + 1
    &&& actions.len() == stimuli.len()
    &&& forall|i: int|
        0 <= i < stimuli.len() ==> #[trigger] steps(
            states[i],
            stimuli[i],
            states[i + 1],
            actions[i],
        )
}

/// Whether an action hands over the work of a run.
pub open spec fn hands_over_work(action: RunAction) -> bool {
    action is StartCommand || action is SendPrompt
}

proof fn lemma_stays_handed_over(
    states: Seq<RunSupervisor>,
    stimuli: Seq<Stimulus>,
    actions: Seq<RunAction>,
    i: int,
    j: int,
)
    requires
        is_run(states, stimuli, actions),
        0 <= i <= j < states.len(),
        !before_hand_over(states[i].phase),
    ensures
        !before_hand_over(states[j].phase),
    decreases j - i,
{
    if i < j {
        lemma_stays_handed_over(states, stimuli, actions, i, j - 1);
        assert(steps(states[j - 1], stimuli[j - 1], states[j - 1 + 1], actions[j - 1]));
        law_work_is_handed_over_once(states[j - 1], stimuli[j - 1], states[j], actions[j - 1]);
    }
}

/// In all of a run at most one command or prompt is sent.
pub proof fn law_a_run_hands_over_once(
    states: Seq<RunSupervisor>,
    stimuli: Seq<Stimulus>,
    actions: Seq<RunAction>,
    i: int,
    j: int,
)
    requires
        is_run(states, stimuli, actions),
        0 <= i < j < actions.len(),
        hands_over_work(actions[i]),
    ensures
        !hands_over_work(actions[j]),
{
    assert(steps(states[i], stimuli[i], states[i + 1], actions[i]));
    law_every_action_is_awaited(states[i], stimuli[i], states[i + 1], actions[i]);
    lemma_stays_handed_over(states, stimuli, actions, i + 1, j);
    assert(steps(states[j], stimuli[j], states[j + 1], actions[j]));
    law_work_is_handed_over_once(states[j], stimuli[j], states[j + 1], actions[j]);
}

/// The end of the run began at a step: with a confirming scan that found nothing and saw everything,
/// while no request is held from events.
pub open spec fn end_begins(
    states: Seq<RunSupervisor>,
    stimuli: Seq<Stimulus>,
    k: int,
) -> bool {
    &&& confirming(states[k].phase)
    &&& scan_ends_clear(states[k], stimuli[k])
    &&& states[k].latch@ == Map::<LatchKey, nat>::empty()
    &&& states[k + 1].phase is Finalizing
}

/// A confirming scan began at a step: on a poll that found the session idle, nothing waiting and no
/// request held from events, when the session may be finished.
pub open spec fn confirmation_begins(
    states: Seq<RunSupervisor>,
    stimuli: Seq<Stimulus>,
    j: int,
) -> bool {
    &&& stimuli[j] matches Stimulus::PollStatus { reply, now } && reply is Ok
        && !reply->Ok_0.busy_like() && may_complete(states[j], now)
    &&& states[j].phase is PollStatus
    &&& states[j].phase->PollStatus_scan is Clear
    &&& confirming(states[j + 1].phase)
    &&& states[j + 1].latch@ == Map::<LatchKey, nat>::empty()
}

proof fn lemma_end_began(
    states: Seq<RunSupervisor>,
    stimuli: Seq<Stimulus>,
    actions: Seq<RunAction>,
    n: int,
) -> (k: int)
    requires
        is_run(states, stimuli, actions),
        0 <= n < states.len(),
        states[0].phase is InitialStatus,
        states[n].phase is Finalizing,
    ensures
        0 <= k < n,
        end_begins(states, stimuli, k),
    decreases n,
{
    assert(steps(states[n - 1], stimuli[n - 1], states[n - 1 + 1], actions[n - 1]));
    if states[n - 1].phase is Finalizing {
        lemma_end_began(states, stimuli, actions, n - 1)
    } else {
        law_only_a_clear_confirmation_completes(
            states[n - 1],
            stimuli[n - 1],
            states[n],
            actions[n - 1],
        );
        n - 1
    }
}

proof fn lemma_confirmation_began(
    states: Seq<RunSupervisor>,
    stimuli: Seq<Stimulus>,
    actions: Seq<RunAction>,
    n: int,
) -> (j: int)
    requires
        is_run(states, stimuli, actions),
        0 <= n < states.len(),
        states[0].phase is InitialStatus,
        confirming(states[n].phase),
    ensures
        0 <= j < n,
        confirmation_begins(states, stimuli, j),
    decreases n,
{
    assert(steps(states[n - 1], stimuli[n - 1], states[n - 1 + 1], actions[n - 1]));
    if confirming(states[n - 1].phase) {
        lemma_confirmation_began(states, stimuli, actions, n - 1)
    } else {
        law_confirmation_needs_a_clear_idle_poll(
            states[n - 1],
            stimuli[n - 1],
            states[n],
            actions[n - 1],
        );
        n - 1
    }
}

/// A run that reports completion has polled the session idle with nothing waiting, and after that a
/// confirming scan found nothing and saw everything, both while no request was held from events.
pub proof fn law_a_completed_run_was_confirmed(
    states: Seq<RunSupervisor>,
    stimuli: Seq<Stimulus>,
    actions: Seq<RunAction>,
) -> (r: (int, int))
    requires
        is_run(states, stimuli, actions),
        actions.len() > 0,
        states[0].phase is InitialStatus,
        states[states.len() - 2].wf(),
        actions.last() is Return,
        actions.last()->Return_0 is Ok,
        actions.last()->Return_0->Ok_0.output.status == RunStatus::Completed,
    ensures
        0 <= r.0 < r.1 < actions.len(),
        confirmation_begins(states, stimuli, r.0),
        end_begins(states, stimuli, r.1),
{
    let n = actions.len() - 1;
    assert(steps(states[n], stimuli[n], states[n + 1], actions[n]));
    law_output_names_the_monitored_session(states[n], stimuli[n], states[n + 1], actions[n]);
    let k = lemma_end_began(states, stimuli, actions, n);
    let j = lemma_confirmation_began(states, stimuli, actions, k);
    (j, k)
}

} // verus!
