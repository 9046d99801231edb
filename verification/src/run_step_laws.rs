//! What each thing that is handed to the supervisor of a run does, said of the state before and after.

use crate::api::ApiError;
use crate::api::ApiErrorKind;
use crate::api::Event;
use crate::api::Message;
use crate::api::MessagePartEventProps;
use crate::api::MessageUpdatedProps;
use crate::api::RequestRef;
use crate::api::Session;
use crate::api::SessionStatusInfo;
use crate::blockers::BlockerScanResult;
use crate::blockers::CallerResponseBlocker;
use crate::blockers::CallerResponseBlockerKind;
use crate::blockers::CallerResponseBlockerPayload;
use crate::errors::ToolError;
use crate::latch::LatchKey;
use crate::lineage::standing;
use crate::lineage::Standing;
use crate::outcome::law_questions_are_shown_in_full;
use crate::outcome::FinalizeStage;
use crate::outcome::TokenStanding;
use crate::request::RunRequest;
use crate::run_model::concludes;
use crate::run_model::creation_taken;
use crate::run_model::may_complete;
use crate::run_model::resumption_taken;
use crate::run_model::run_begins;
use crate::run_model::steps;
use crate::run_model::CommandResult;
use crate::run_model::RunAction;
use crate::run_model::RunPhase;
use crate::run_model::RunSupervisor;
use crate::run_model::ScanPurpose;
use crate::run_model::Stimulus;
use crate::scan::PermissionPreflightMode;
use crate::text::lemma_occurs_at_the_end;
use crate::text::lemma_occurs_between;
use crate::text::occurs_in;
use crate::text::views;
use crate::tools::RunLimits;
use vstd::prelude::*;

verus! {

/// Whether a run ends with exactly this error, which is not the caller's fault.
pub open spec fn ends_with(action: RunAction, text: Seq<char>) -> bool {
    &&& action is Return
    &&& action->Return_0 is Err
    &&& action->Return_0->Err_0 is Internal
    &&& action->Return_0->Err_0->Internal_0@ == text
}

/// A session that is to be resumed must exist, and else is named as the caller's fault; a new session is taken by
/// its id. Any other failure is passed on with what the server said.
pub proof fn law_sessions_to_supervise_exist(
    session_id: Seq<char>,
    session: Result<Session, ApiError>,
    resumed: Result<(), ToolError>,
    created: Result<String, ToolError>,
)
    requires
        resumption_taken(session_id, session, resumed),
        creation_taken(session, created),
    ensures
        session is Ok <==> resumed is Ok,
        session is Ok <==> created is Ok,
        session is Ok ==> created->Ok_0 == session->Ok_0.id,
        session is Err ==> (resumed->Err_0 is InvalidInput <==> session->Err_0.kind
            == ApiErrorKind::Http(404)),
        session is Err && session->Err_0.kind == ApiErrorKind::Http(404) ==> occurs_in(
            session_id,
            resumed->Err_0->InvalidInput_0@,
        ),
        session is Err && session->Err_0.kind != ApiErrorKind::Http(404) ==> resumed->Err_0 is Internal
            && occurs_in(session->Err_0.text@, resumed->Err_0->Internal_0@),
        session is Err ==> created->Err_0 is Internal && occurs_in(
            session->Err_0.text@,
            created->Err_0->Internal_0@,
        ),
{
    lemma_occurs_between(
        "Session '"@,
        session_id,
        "' not found. Use list_sessions to discover sessions, or omit session_id to create a new session."@,
    );
    if let Err(error) = session {
        lemma_occurs_at_the_end("Failed to get session: "@, error.text@);
        lemma_occurs_at_the_end("Failed to create session: "@, error.text@);
    }
}

/// A run begins with just what it was asked to do, in the session it was given, with the tokens counted so far and
/// no text, warning, request or activity; events are listened to.
pub proof fn law_runs_begin_with_what_was_asked(
    limits: RunLimits,
    request: RunRequest,
    session_id: String,
    mode: PermissionPreflightMode,
    tokens: TokenStanding,
    s: RunSupervisor,
    action: RunAction,
)
    requires
        run_begins(limits, request, session_id, mode, tokens, s, action),
    ensures
        s.session_id == session_id,
        s.command == request.command,
        s.agent == request.agent,
        s.message == request.message,
        s.wait_for_activity == request.wait_for_activity,
        s.mode == mode,
        s.limits == limits,
        s.tokens == tokens,
        forall|id: Seq<char>| !#[trigger] s.lineage.known().contains_key(id),
        forall|key: LatchKey| !#[trigger] s.latch@.contains_key(key),
        forall|id: Seq<char>| !#[trigger] s.correlated_assistant_ids@.contains(id),
        s.warnings@.len() == 0 && s.partial_response@.len() == 0,
        s.idle_grace_deadline is None && s.window is None && s.precorrelation_deltas is None,
        !s.awaiting_idle_grace_check && !s.command_active && !s.observed_busy,
        !s.monitor.completion_candidate_pending,
        s.sse_active,
        s.phase is InitialStatus && action is ReadStatus,
{
}

// ---------------------------------------------------------------------------
// What the caller gets of a request that was found
// ---------------------------------------------------------------------------
/// A question that a scan finds reaches the caller with every question and every option of it, each at its
/// own place and in its own words, and with the text received so far.
pub proof fn law_found_questions_are_shown_in_full(
    s: RunSupervisor,
    purpose: ScanPurpose,
    blocker: CallerResponseBlocker,
    request: crate::api::QuestionRequest,
    after: RunSupervisor,
    action: RunAction,
)
    requires
        concludes(s, purpose, Ok(BlockerScanResult::Found(Box::new(blocker))), after, action),
        blocker.payload == CallerResponseBlockerPayload::Question(request),
    ensures
        action is Return,
        action->Return_0 is Ok,
        ({
            let output = action->Return_0->Ok_0.output;
            &&& output.question_request_id == Some(request.id)
            &&& output.questions@.len() == request.questions@.len()
            &&& forall|i: int|
                0 <= i < request.questions@.len() ==> {
                    &&& (#[trigger] output.questions@[i]).question == request.questions@[i].question
                    &&& output.questions@[i].header == request.questions@[i].header
                    &&& output.questions@[i].multiple == request.questions@[i].multiple
                    &&& output.questions@[i].custom == request.questions@[i].custom
                    &&& output.questions@[i].options@.len()
                        == request.questions@[i].options@.len()
                }
            &&& forall|i: int, j: int|
                0 <= i < request.questions@.len() && 0 <= j
                    < request.questions@[i].options@.len() ==> {
                    &&& (#[trigger] output.questions@[i].options@[j]).label
                        == request.questions@[i].options@[j].label
                    &&& output.questions@[i].options@[j].description
                        == request.questions@[i].options@[j].description
                }
        }),
{
    law_questions_are_shown_in_full(
        action->Return_0->Ok_0.output.questions@,
        request.questions@,
    );
}

/// A permission that a scan finds reaches the caller with its id, its type and all of its patterns.
pub proof fn law_found_permissions_are_shown_in_full(
    s: RunSupervisor,
    purpose: ScanPurpose,
    blocker: CallerResponseBlocker,
    request: crate::api::PermissionRequest,
    after: RunSupervisor,
    action: RunAction,
)
    requires
        concludes(s, purpose, Ok(BlockerScanResult::Found(Box::new(blocker))), after, action),
        blocker.payload == CallerResponseBlockerPayload::Permission(request),
    ensures
        action is Return,
        action->Return_0 is Ok,
        ({
            let output = action->Return_0->Ok_0.output;
            &&& output.permission_request_id == Some(request.id)
            &&& output.permission_type == Some(request.permission)
            &&& output.permission_patterns == request.patterns
            &&& output.status is PermissionRequired
            &&& output.response is None
        }),
{
}

/// Whatever is found, the caller gets the text received so far, none if there is none, and the tokens used so
/// far are logged; before work starts there is neither.
pub proof fn law_found_requests_come_with_the_text_so_far(
    s: RunSupervisor,
    purpose: ScanPurpose,
    blocker: CallerResponseBlocker,
    after: RunSupervisor,
    action: RunAction,
)
    requires
        concludes(s, purpose, Ok(BlockerScanResult::Found(Box::new(blocker))), after, action),
    ensures
        action is Return,
        action->Return_0 is Ok,
        ({
            let outcome = action->Return_0->Ok_0;
            &&& purpose is Preflight ==> outcome.output.partial_response is None
                && outcome.log_meta.token_usage is None && !outcome.log_meta.token_usage_saturated
            &&& !(purpose is Preflight) && s.partial_response@.len() > 0
                ==> outcome.output.partial_response is Some
                && outcome.output.partial_response->Some_0@ == s.partial_response@
            &&& !(purpose is Preflight) && s.partial_response@.len() == 0
                ==> outcome.output.partial_response is None
            &&& !(purpose is Preflight) ==> outcome.log_meta.token_usage == s.tokens.token_usage
                && outcome.log_meta.token_usage_saturated == s.tokens.token_usage_saturated
        }),
{
}

/// What a scan that found nothing leads to, by why it was made; a scan that failed fails the run.
pub proof fn law_scans_lead_on_by_their_purpose(
    s: RunSupervisor,
    purpose: ScanPurpose,
    scan: BlockerScanResult,
    error: ToolError,
    after: RunSupervisor,
    action: RunAction,
    failed: RunSupervisor,
    failure: RunAction,
)
    requires
        !(scan is Found),
        concludes(s, purpose, Ok(scan), after, action),
        concludes(s, purpose, Err(error), failed, failure),
    ensures
        failure == RunAction::Return(Err(error)),
        failed.phase is Done,
        purpose is Preflight ==> action is Subscribe,
        purpose is Asked ==> action is ReadClock && after.latch@ == s.latch@,
        purpose is Poll ==> action is ReadStatus && after.phase == (RunPhase::PollStatus { scan }),
        purpose is PostSubscribe || purpose is SessionIdle || purpose is IdleGrace
            ==> action is ReadClock,
        purpose is Confirm && scan is Inconclusive ==> action is ReadClock,
        purpose is Confirm && scan is Clear && s.latch@.dom() =~= Set::<LatchKey>::empty()
            ==> action == (RunAction::ReadMessages { delay_ms: 0 }) && after.phase is Finalizing
            && after.phase->Finalizing_0.session_id == s.session_id
            && after.phase->Finalizing_0.warnings == s.warnings
            && after.phase->Finalizing_0.tokens == s.tokens,
        purpose is Confirm && scan is Clear && !(s.latch@.dom() =~= Set::<LatchKey>::empty())
            ==> action is ReadClock && !after.monitor.completion_candidate_pending,
        purpose is Confirm && scan is Inconclusive ==> after.monitor == s.monitor,
        (purpose is PostSubscribe || purpose is SessionIdle || purpose is IdleGrace)
            && scan is Clear ==> after.monitor == s.monitor,
        (purpose is PostSubscribe || purpose is SessionIdle || purpose is IdleGrace)
            && scan is Inconclusive ==> !after.monitor.completion_candidate_pending,
        purpose is Preflight || purpose is Asked || purpose is Poll ==> after == (RunSupervisor {
            phase: after.phase,
            ..s
        }),
        after.phase is LoopTop ==> after.latch@ == s.latch@,
{
    if s.latch@.dom() =~= Set::<LatchKey>::empty() {
        assert(s.latch@ =~= Map::<LatchKey, nat>::empty());
    }
    crate::idle::law_observation_never_completes(
        s.monitor.completion_candidate_pending,
        s.latch@,
        scan,
        s.sse_active,
    );
}

/// Every scan starts afresh, with the permissions and with nothing missed yet; only the one before work starts is
/// made as such.
pub proof fn law_every_scan_starts_afresh(
    s: RunSupervisor,
    stimulus: Stimulus,
    after: RunSupervisor,
    action: RunAction,
)
    requires
        steps(s, stimulus, after, action),
        !(s.phase is Scanning),
        !(s.phase is Finalizing),
        after.phase is Scanning,
    ensures
        action is ListPermissions,
        after.phase->Scanning_scan.stage is ListingPermissions,
        !after.phase->Scanning_scan.inconclusive,
        after.phase->purpose is Preflight <==> stimulus is InitialStatus,
        after.phase->purpose is Preflight ==> after.phase->Scanning_scan.source
            == crate::scan::BlockerDetectionSource::Preflight(s.mode),
        !(after.phase->purpose is Preflight) ==> after.phase->Scanning_scan.source is Fallback,
        after.phase->purpose is Poll <==> stimulus is PollTick,
        after.phase->purpose is Confirm <==> stimulus is PollStatus,
        after.phase->purpose is IdleGrace <==> stimulus is GraceStatus,
        after.phase->purpose is PostSubscribe <==> stimulus is PostSubscribeStatus,
{
}

// ---------------------------------------------------------------------------
// Before the wait
// ---------------------------------------------------------------------------
/// A session whose status can be read is looked through for requests first; one whose status cannot be read
/// ends the run.
pub proof fn law_requests_come_before_work(
    s: RunSupervisor,
    reply: Result<SessionStatusInfo, ApiError>,
    after: RunSupervisor,
    action: RunAction,
)
    requires
        steps(s, Stimulus::InitialStatus { reply }, after, action),
    ensures
        reply is Ok ==> action is ListPermissions && after.phase is Scanning
            && after.phase->purpose is Preflight && after.phase->Scanning_scan.source
            == crate::scan::BlockerDetectionSource::Preflight(s.mode)
            && !after.phase->Scanning_scan.inconclusive,
        reply is Err ==> ends_with(
            action,
            "Failed to get session status: "@ + reply->Err_0.text@,
        ),
{
}

/// A command is sent with the caller's message as its arguments, under the very message id that answers are
/// known by from then on; nothing is buffered yet.
pub proof fn law_command_is_sent_as_given(
    s: RunSupervisor,
    now: u64,
    after: RunSupervisor,
    action: RunAction,
)
    requires
        steps(s, Stimulus::Subscription { reply: Ok(()), now }, after, action),
        s.command is Some,
    ensures
        action is StartCommand,
        action->StartCommand_command == s.command->Some_0,
        s.message is Some ==> action->arguments@ == s.message->Some_0@,
        s.message is None ==> action->arguments@.len() == 0,
        after.window is Some,
        after.window->Some_0.command_message_id == action->message_id,
        after.precorrelation_deltas is Some,
        after.precorrelation_deltas->Some_0@.len() == 0,
        after.command_active,
        after.idle_grace_deadline == s.idle_grace_deadline,
{
}

/// Without a command the caller's message is sent as a prompt, to the caller's agent; without a message
/// nothing is sent, and only a run that waits for activity gets a grace period.
pub proof fn law_prompt_is_sent_as_given(
    s: RunSupervisor,
    now: u64,
    after: RunSupervisor,
    action: RunAction,
)
    requires
        steps(s, Stimulus::Subscription { reply: Ok(()), now }, after, action),
        s.command is None,
    ensures
        s.message matches Some(text) ==> action == (RunAction::SendPrompt { text, agent: s.agent })
            && after.window == s.window,
        s.message is None && s.wait_for_activity ==> action is ReadClock
            && after.idle_grace_deadline == Some((now + s.limits.idle_grace) as u128),
        s.message is None && !s.wait_for_activity ==> action is ReadStatus
            && after.phase is PostSubscribeStatus && after.idle_grace_deadline
            == s.idle_grace_deadline,
        s.message is None ==> after.deadline == now + s.limits.session_deadline
            && after.last_activity == now,
{
}

/// The time limits run from when the work is on its way: the whole run, the time without activity, and after
/// a prompt its grace period too.
pub proof fn law_limits_run_from_the_start_of_work(
    s: RunSupervisor,
    now: u64,
    started: RunSupervisor,
    start: RunAction,
    prompted: RunSupervisor,
    prompt: RunAction,
)
    requires
        s.dispatched_new_work(),
        s.phase is StartingCommand ==> steps(s, Stimulus::CommandStarted { now }, started, start),
        s.phase is Prompting ==> steps(
            s,
            Stimulus::PromptSent { reply: Ok(()), now },
            prompted,
            prompt,
        ),
    ensures
        s.phase is StartingCommand ==> started.deadline == now + s.limits.session_deadline
            && started.last_activity == now && started.idle_grace_deadline == s.idle_grace_deadline
            && start is ReadClock,
        s.phase is Prompting ==> prompted.deadline == now + s.limits.session_deadline
            && prompted.last_activity == now && prompted.idle_grace_deadline == Some(
            (now + s.limits.idle_grace) as u128,
        ) && prompt is ReadClock,
{
}

/// A subscription or a prompt that fails ends the run with an error that gives the reason.
pub proof fn law_failed_starts_end_the_run(
    s: RunSupervisor,
    error: ApiError,
    now: u64,
    after: RunSupervisor,
    action: RunAction,
)
    requires
        steps(s, Stimulus::Subscription { reply: Err(error), now }, after, action) || steps(
            s,
            Stimulus::PromptSent { reply: Err(error), now },
            after,
            action,
        ),
    ensures
        after.phase is Done,
        action is Return,
        action->Return_0 is Err,
        action->Return_0->Err_0 is Internal,
        s.phase is Subscribing ==> action->Return_0->Err_0->Internal_0@
            == "Failed to subscribe to events: "@ + error.text@,
        s.phase is Prompting ==> action->Return_0->Err_0->Internal_0@
            == "Failed to send prompt: "@ + error.text@,
{
}

/// A session that is only watched is looked through before the wait exactly if it is idle already.
pub proof fn law_idle_sessions_are_looked_through_at_once(
    s: RunSupervisor,
    reply: Result<SessionStatusInfo, ApiError>,
    after: RunSupervisor,
    action: RunAction,
)
    requires
        steps(s, Stimulus::PostSubscribeStatus { reply }, after, action),
    ensures
        reply is Ok && reply->Ok_0 is Idle <==> action is ListPermissions,
        !(reply is Ok && reply->Ok_0 is Idle) <==> action is ReadClock,
{
}

// ---------------------------------------------------------------------------
// The wait
// ---------------------------------------------------------------------------
/// The run gives up exactly when nothing has happened for as long as the limit says, or when its deadline has
/// come; else it waits for all that can still happen.
pub proof fn law_run_gives_up_in_time(
    s: RunSupervisor,
    now: u64,
    after: RunSupervisor,
    action: RunAction,
)
    requires
        steps(s, Stimulus::Clock { now }, after, action),
    ensures
        action is Return <==> now >= s.deadline || s.limits.inactivity_timeout == 0 || now
            - s.last_activity >= s.limits.inactivity_timeout,
        action is Return ==> after.phase is Done && ends_with(
            action,
            if s.limits.inactivity_timeout == 0 || now - s.last_activity
                >= s.limits.inactivity_timeout {
                "Session idle timeout: no activity for 5 minutes (session_id="@ + s.session_id@
                    + "). The session may still be running; use run(session_id=...) to check status."@
            } else {
                "Session execution timed out after 1 hour. The session may still be running; use run with the session_id to check status."@
            },
        ),
        action is Return || action is Wait,
        action is Wait ==> after == (RunSupervisor { phase: RunPhase::Waiting, ..s }),
        action matches RunAction::Wait { events, grace, command } ==> {
            &&& events == s.sse_active
            &&& command == s.command_active
            &&& s.awaiting_idle_grace_check ==> grace == s.idle_grace_deadline
            &&& !s.awaiting_idle_grace_check ==> grace is None
        },
{
}

/// A session that is seen at work on a poll, or when its grace period is over, has been active now, is no
/// candidate for completion, and needs no grace any more.
pub proof fn law_work_is_progress(
    s: RunSupervisor,
    status: SessionStatusInfo,
    now: u64,
    after: RunSupervisor,
    action: RunAction,
)
    requires
        !(status is Idle),
        steps(s, Stimulus::PollStatus { reply: Ok(status), now }, after, action) || steps(
            s,
            Stimulus::GraceStatus { reply: Ok(status), now },
            after,
            action,
        ),
    ensures
        after.observed_busy,
        after.last_activity == now,
        !after.monitor.completion_candidate_pending,
        s.phase is PollStatus ==> !after.awaiting_idle_grace_check,
        s.phase is GraceStatus ==> after.latch@ == s.latch@,
        s.phase is PollStatus ==> after.latch@ == crate::latch::observed(
            s.latch@,
            s.phase->PollStatus_scan,
        ),
        action is ReadClock,
{
}

/// A status that cannot be read changes nothing but that the session is no candidate any more, and that the
/// poll counts for the held requests.
pub proof fn law_unread_status_is_no_progress(
    s: RunSupervisor,
    error: ApiError,
    now: u64,
    after: RunSupervisor,
    action: RunAction,
)
    requires
        steps(s, Stimulus::PollStatus { reply: Err(error), now }, after, action) || steps(
            s,
            Stimulus::GraceStatus { reply: Err(error), now },
            after,
            action,
        ),
    ensures
        after.observed_busy == s.observed_busy,
        after.last_activity == s.last_activity,
        after.awaiting_idle_grace_check == s.awaiting_idle_grace_check,
        s.phase is PollStatus ==> !after.monitor.completion_candidate_pending,
        s.phase is GraceStatus ==> after.monitor == s.monitor,
        s.phase is PollStatus ==> after.latch@ == crate::latch::observed(
            s.latch@,
            s.phase->PollStatus_scan,
        ),
        action is ReadClock,
{
}

/// When an idle session may count as finished: if this run handed over no work, or the session was seen at
/// work, or its grace period is over.
pub proof fn law_may_complete(s: RunSupervisor, now: u64)
    ensures
        may_complete(s, now) <==> (s.command is None && s.message is None && !s.wait_for_activity)
            || s.observed_busy || (s.idle_grace_deadline is Some && s.idle_grace_deadline->Some_0
            <= now),
{
}

/// On a poll that found nothing, an idle session that may be finished becomes a candidate, and a candidate is
/// confirmed; without events it is confirmed at once. One that may not be finished yet waits for its grace.
pub proof fn law_idle_polls_lead_to_completion(
    s: RunSupervisor,
    now: u64,
    after: RunSupervisor,
    action: RunAction,
)
    requires
        steps(
            s,
            Stimulus::PollStatus { reply: Ok(SessionStatusInfo::Idle), now },
            after,
            action,
        ),
        s.phase->PollStatus_scan is Clear,
        s.latch@.dom() =~= Set::<LatchKey>::empty(),
    ensures
        may_complete(s, now) && s.sse_active && !s.monitor.completion_candidate_pending
            ==> action is ReadClock && after.monitor.completion_candidate_pending,
        may_complete(s, now) && (!s.sse_active || s.monitor.completion_candidate_pending)
            ==> action is ListPermissions && after.phase is Scanning
            && after.phase->purpose is Confirm && after.phase->Scanning_scan.source is Fallback,
        !may_complete(s, now) ==> action is ReadClock && after.monitor == s.monitor,
        !may_complete(s, now) && s.idle_grace_deadline is Some ==> after.awaiting_idle_grace_check,
        !may_complete(s, now) && s.idle_grace_deadline is None ==> after.awaiting_idle_grace_check
            == s.awaiting_idle_grace_check,
        may_complete(s, now) ==> after.awaiting_idle_grace_check == s.awaiting_idle_grace_check,
        after.observed_busy == s.observed_busy,
        after.last_activity == s.last_activity,
{
    let held = crate::latch::observed(s.latch@, BlockerScanResult::Clear);
    assert(held =~= Map::<LatchKey, nat>::empty());
}

/// An idle session with a request held, or whose requests could not all be seen, does not finish and becomes no
/// candidate, and the run goes on; it waits for its grace as any other does. What is held is counted once per poll.
pub proof fn law_unclear_polls_lead_nowhere(
    s: RunSupervisor,
    now: u64,
    after: RunSupervisor,
    action: RunAction,
)
    requires
        steps(
            s,
            Stimulus::PollStatus { reply: Ok(SessionStatusInfo::Idle), now },
            after,
            action,
        ),
        !(s.phase->PollStatus_scan is Found),
        s.phase->PollStatus_scan is Inconclusive || exists|key: LatchKey|
            #[trigger] crate::latch::observed(s.latch@, s.phase->PollStatus_scan).contains_key(key),
    ensures
        action is ReadClock,
        s.phase->PollStatus_scan is Inconclusive || may_complete(s, now)
            ==> !after.monitor.completion_candidate_pending,
        s.phase->PollStatus_scan is Clear && !may_complete(s, now) ==> after.monitor == s.monitor,
        after.latch@ == crate::latch::observed(s.latch@, s.phase->PollStatus_scan),
        after.awaiting_idle_grace_check <==> s.awaiting_idle_grace_check || (!may_complete(s, now)
            && s.idle_grace_deadline is Some),
        after.observed_busy == s.observed_busy,
        after.last_activity == s.last_activity,
{
    let held = crate::latch::observed(s.latch@, s.phase->PollStatus_scan);
    if !(s.phase->PollStatus_scan is Inconclusive) {
        let key = choose|key: LatchKey| #[trigger] held.contains_key(key);
        assert(held.dom().contains(key));
    }
}

/// A poll looks through all requests; so does the end of a grace period, if the session is idle.
pub proof fn law_polls_and_grace_look_through(
    s: RunSupervisor,
    now: u64,
    polled: RunSupervisor,
    poll: RunAction,
    ended: RunSupervisor,
    end: RunAction,
    after: RunSupervisor,
    action: RunAction,
)
    requires
        s.phase is Waiting ==> steps(s, Stimulus::PollTick, polled, poll) && steps(
            s,
            Stimulus::GraceElapsed,
            ended,
            end,
        ),
        s.phase is GraceStatus ==> steps(
            s,
            Stimulus::GraceStatus { reply: Ok(SessionStatusInfo::Idle), now },
            after,
            action,
        ),
    ensures
        s.phase is Waiting ==> poll is ListPermissions && polled.phase is Scanning
            && polled.phase->purpose is Poll && polled.phase->Scanning_scan.source is Fallback,
        s.phase is Waiting ==> end is ReadStatus && ended == (RunSupervisor {
            awaiting_idle_grace_check: false,
            phase: RunPhase::GraceStatus,
            ..s
        }),
        s.phase is Waiting ==> polled == (RunSupervisor { phase: polled.phase, ..s }),
        s.phase is GraceStatus ==> action is ListPermissions && after.phase is Scanning
            && after.phase->purpose is IdleGrace && after == (RunSupervisor {
            phase: after.phase,
            ..s
        }),
{
}

/// A caller that cancels gets a cancellation, and the command is stopped; a stream that closes only stops the
/// events.
pub proof fn law_cancelling_and_closing(
    s: RunSupervisor,
    cancelled: RunSupervisor,
    cancel: RunAction,
    closed: RunSupervisor,
    close: RunAction,
)
    requires
        steps(s, Stimulus::Cancelled, cancelled, cancel),
        steps(s, Stimulus::StreamClosed, closed, close),
    ensures
        cancel == RunAction::AbortCommandAndReturn(ToolError::Cancelled(None)),
        cancelled.phase is Done,
        close is ReadClock,
        !closed.sse_active,
        closed == (RunSupervisor { sse_active: false, phase: RunPhase::LoopTop, ..s }),
{
}

// ---------------------------------------------------------------------------
// Events
// ---------------------------------------------------------------------------
/// An answer to a request releases that request and no other, whichever session owns it, and changes nothing
/// else.
pub proof fn law_answers_release_their_request(
    s: RunSupervisor,
    request: RequestRef,
    event: Event,
    now: u64,
    tokens: TokenStanding,
    after: RunSupervisor,
    action: RunAction,
    key: LatchKey,
)
    requires
        steps(s, Stimulus::EventCame { event, now, tokens }, after, action),
        event == (Event::PermissionReplied { request }) || event == (Event::QuestionReplied {
            request,
        }) || event == (Event::QuestionRejected { request }),
    ensures
        ({
            let kind = if event is PermissionReplied {
                CallerResponseBlockerKind::Permission
            } else {
                CallerResponseBlockerKind::Question
            };
            let answered = (kind, request.session_id@, request.request_id@);
            &&& !after.latch@.contains_key(answered)
            &&& key != answered ==> after.latch@.contains_key(key) == s.latch@.contains_key(key)
            &&& key != answered && s.latch@.contains_key(key) ==> after.latch@[key] == s.latch@[key]
        }),
        after == (RunSupervisor { latch: after.latch, phase: RunPhase::LoopTop, ..s }),
        action is ReadClock,
{
}

/// A request announced in the root's tree is held with no clear poll seen, no other is touched, the session
/// is no candidate any more, and all requests are looked through.
pub proof fn law_announced_requests_are_held(
    s: RunSupervisor,
    request: RequestRef,
    event: Event,
    now: u64,
    tokens: TokenStanding,
    after: RunSupervisor,
    action: RunAction,
    key: LatchKey,
)
    requires
        steps(s, Stimulus::EventCame { event, now, tokens }, after, action),
        event == (Event::PermissionAsked { request }) || event == (Event::QuestionAsked { request }),
        standing(s.lineage.known(), s.session_id@, request.session_id@) is Below,
    ensures
        ({
            let kind = if event is PermissionAsked {
                CallerResponseBlockerKind::Permission
            } else {
                CallerResponseBlockerKind::Question
            };
            let asked = (kind, request.session_id@, request.request_id@);
            &&& after.latch@.contains_key(asked)
            &&& after.latch@[asked] == 0
            &&& key != asked ==> after.latch@.contains_key(key) == s.latch@.contains_key(key)
            &&& key != asked && s.latch@.contains_key(key) ==> after.latch@[key] == s.latch@[key]
        }),
        !after.monitor.completion_candidate_pending,
        action is ListPermissions,
        after.phase is Scanning,
        after.phase->purpose is Asked,
        after.phase->Scanning_scan.source is Fallback,
        after.observed_busy == s.observed_busy,
        after.last_activity == s.last_activity,
{
}

/// A request announced by an owner that cannot be placed yet waits for the session that is needed, with its
/// kind, its owner and its id.
pub proof fn law_unplaced_owners_are_looked_up(
    s: RunSupervisor,
    request: RequestRef,
    event: Event,
    now: u64,
    tokens: TokenStanding,
    after: RunSupervisor,
    action: RunAction,
)
    requires
        steps(s, Stimulus::EventCame { event, now, tokens }, after, action),
        event == (Event::PermissionAsked { request }) || event == (Event::QuestionAsked { request }),
        standing(s.lineage.known(), s.session_id@, request.session_id@) is Unknown,
    ensures
        action is FetchSession,
        standing(s.lineage.known(), s.session_id@, request.session_id@) == Standing::Unknown(
            action->FetchSession_0@,
        ),
        after.phase is PlacingOwner,
        after.phase->kind is Permission <==> event is PermissionAsked,
        after.phase->owner_session_id == request.session_id,
        after.phase->request_id == request.request_id,
        after.phase->fetching == action->FetchSession_0,
        after.latch@ == s.latch@,
{
}

/// Once its owner is placed in the tree, or cannot be verified, an announced request is held as if it had been
/// placed at once.
pub proof fn law_looked_up_requests_are_held(
    s: RunSupervisor,
    reply: Result<Session, ApiError>,
    after: RunSupervisor,
    action: RunAction,
)
    requires
        steps(s, Stimulus::OwnerSession { reply }, after, action),
        match reply {
            Ok(_) => standing(after.lineage.known(), s.session_id@, s.phase->owner_session_id@) is Below,
            Err(error) => error.kind != ApiErrorKind::Http(404),
        },
    ensures
        after.latch@.contains_key(
            (s.phase->kind, s.phase->owner_session_id@, s.phase->request_id@),
        ),
        after.latch@[(s.phase->kind, s.phase->owner_session_id@, s.phase->request_id@)] == 0,
        !after.monitor.completion_candidate_pending,
        action is ListPermissions,
        after.phase is Scanning,
        after.phase->purpose is Asked,
{
}

/// An event of the monitored session brings the tokens up to date; one of another session does not.
pub proof fn law_own_events_count_tokens(
    s: RunSupervisor,
    event: Event,
    now: u64,
    tokens: TokenStanding,
    after: RunSupervisor,
    action: RunAction,
)
    requires
        steps(s, Stimulus::EventCame { event, now, tokens }, after, action),
        !(after.phase is Done),
    ensures
        after.tokens == if !(event is PermissionAsked || event is PermissionReplied
            || event is QuestionAsked || event is QuestionReplied || event is QuestionRejected)
            && event.names_session() == Some(s.session_id@) {
            tokens
        } else {
            s.tokens
        },
{
}

/// A message of the assistant in the monitored session is progress: without a command each, with a command
/// one that names the command's message as its parent, which is known to answer from then on.
pub proof fn law_answering_messages_are_progress(
    s: RunSupervisor,
    properties: MessageUpdatedProps,
    now: u64,
    tokens: TokenStanding,
    after: RunSupervisor,
    action: RunAction,
)
    requires
        steps(
            s,
            Stimulus::EventCame { event: Event::MessageUpdated { properties }, now, tokens },
            after,
            action,
        ),
        properties.info.session_id is Some,
        properties.info.session_id->Some_0@ == s.session_id@,
    ensures
        ({
            let answers = properties.info.role@ == "assistant"@ && (s.window is None || (
            properties.info.parent_id is Some && properties.info.parent_id->Some_0@
                == s.window->Some_0.command_message_id@));
            &&& answers ==> after.observed_busy && after.last_activity == now
                && !after.awaiting_idle_grace_check && !after.monitor.completion_candidate_pending
            &&& answers ==> after.correlated_assistant_ids@.contains(properties.info.id@)
            &&& !answers ==> after.observed_busy == s.observed_busy && after.last_activity
                == s.last_activity && after.awaiting_idle_grace_check == s.awaiting_idle_grace_check
                && after.monitor == s.monitor
            &&& !answers ==> after.correlated_assistant_ids@ == s.correlated_assistant_ids@
                && after.partial_response@ == s.partial_response@
        }),
        after.latch@ == s.latch@,
        action is ReadClock,
{
}

/// A delta or an update of a part in the monitored session is progress: without a command each, with a command
/// one of a message that is known to answer; and only then the delta joins the text.
pub proof fn law_answering_parts_are_progress(
    s: RunSupervisor,
    properties: MessagePartEventProps,
    event: Event,
    now: u64,
    tokens: TokenStanding,
    after: RunSupervisor,
    action: RunAction,
)
    requires
        event == (Event::MessagePartDelta { properties }) || event == (Event::MessagePartUpdated {
            properties,
        }),
        steps(s, Stimulus::EventCame { event, now, tokens }, after, action),
        properties.session_id is Some,
        properties.session_id->Some_0@ == s.session_id@,
    ensures
        ({
            let answers = s.window is None || (properties.message_id is Some
                && s.correlated_assistant_ids@.contains(properties.message_id->Some_0@));
            &&& answers ==> after.observed_busy && after.last_activity == now
                && !after.awaiting_idle_grace_check && !after.monitor.completion_candidate_pending
            &&& !answers ==> after.observed_busy == s.observed_busy && after.last_activity
                == s.last_activity && after.awaiting_idle_grace_check == s.awaiting_idle_grace_check
                && after.monitor == s.monitor
            &&& answers && event is MessagePartDelta && properties.delta is Some
                ==> after.partial_response@ == s.partial_response@ + properties.delta->Some_0@
            &&& !answers || event is MessagePartUpdated || properties.delta is None
                ==> after.partial_response@ == s.partial_response@
        }),
        after.correlated_assistant_ids@ == s.correlated_assistant_ids@,
        after.latch@ == s.latch@,
        action is ReadClock,
{
}

/// An error of the monitored session ends the run with that error; an idle session is looked through.
pub proof fn law_session_events_end_or_look_through(
    s: RunSupervisor,
    id: String,
    error: Option<String>,
    now: u64,
    tokens: TokenStanding,
    failed: RunSupervisor,
    failure: RunAction,
    after: RunSupervisor,
    action: RunAction,
)
    requires
        id@ == s.session_id@,
        steps(
            s,
            Stimulus::EventCame {
                event: Event::SessionError { session_id: Some(id), error },
                now,
                tokens,
            },
            failed,
            failure,
        ),
        steps(
            s,
            Stimulus::EventCame { event: Event::SessionIdle { session_id: id }, now, tokens },
            after,
            action,
        ),
    ensures
        failure is Return,
        failure->Return_0 is Err,
        failure->Return_0->Err_0 is Internal,
        error matches Some(text) ==> failure->Return_0->Err_0->Internal_0@ == "Session error: "@
            + text@,
        error is None ==> failure->Return_0->Err_0->Internal_0@ == "Session error: "@
            + "Unknown error"@,
        action is ListPermissions,
        after.phase is Scanning,
        after.phase->purpose is SessionIdle,
        after.phase->Scanning_scan.source is Fallback,
        after.observed_busy == s.observed_busy,
        after.latch@ == s.latch@,
{
}

// ---------------------------------------------------------------------------
// The command
// ---------------------------------------------------------------------------
/// What becomes of a command that came back: carried out, its grace period starts; refused by the server, the
/// input was at fault; lost on the way, it is looked for unless the session was seen at work; any other
/// failure ends the run.
pub proof fn law_commands_come_back(
    s: RunSupervisor,
    result: CommandResult,
    now: u64,
    after: RunSupervisor,
    action: RunAction,
)
    requires
        steps(s, Stimulus::CommandReturned { result, now }, after, action),
    ensures
        result is Completed ==> action is ReadClock && !after.command_active
            && after.idle_grace_deadline == Some((now + s.limits.idle_grace) as u128)
            && after.observed_busy == s.observed_busy && after.warnings == s.warnings,
        result matches CommandResult::Panicked(text) ==> ends_with(
            action,
            "Command task panicked: "@ + text@,
        ),
        result matches CommandResult::Failed(error) ==> {
            let refused = error.kind == ApiErrorKind::Http(400) || error.kind == ApiErrorKind::Http(
                404,
            );
            let lost = error.kind is Transport;
            let name = if s.command is Some {
                s.command->Some_0@
            } else {
                "unknown"@
            };
            &&& refused ==> action is Return && action->Return_0 is Err
                && action->Return_0->Err_0 is InvalidInput
                && action->Return_0->Err_0->InvalidInput_0@ == "Failed to dispatch command '"@
                + name + "': "@ + error.text@
            &&& !refused && !lost ==> ends_with(
                action,
                "Failed to dispatch command '"@ + name + "': "@ + error.text@,
            )
            &&& lost && s.observed_busy ==> action is ReadClock && !after.command_active
                && after.warnings@.len() == s.warnings@.len() + 1 && after.warnings@.last()@
                == "OpenCode command transport error after start evidence; continuing supervision: "@
                + error.text@ && after.idle_grace_deadline == s.idle_grace_deadline
            &&& lost && !s.observed_busy ==> action is ReadStatus && after.phase is CommandStatus
                && after.phase->CommandStatus_error == error && after.command_active
                == s.command_active
        },
{
    assert(views(after.warnings@).len() == after.warnings@.len());
    assert(views(s.warnings@).len() == s.warnings@.len());
    if after.warnings@.len() > 0 {
        assert(views(after.warnings@).last() == after.warnings@.last()@);
    }
}

/// A command that was lost on the way had started if the session is at work or its message is in the
/// transcript; then the run goes on with one more warning that gives the reason, else it ends.
pub proof fn law_lost_commands_need_evidence(
    s: RunSupervisor,
    status: Result<SessionStatusInfo, ApiError>,
    transcript: Result<Vec<Message>, ApiError>,
    now: u64,
    after: RunSupervisor,
    action: RunAction,
)
    requires
        s.window is Some,
        s.phase is CommandStatus || s.phase is CommandTranscript,
        s.phase is CommandStatus ==> steps(
            s,
            Stimulus::CommandStatus { reply: status, now },
            after,
            action,
        ),
        s.phase is CommandTranscript ==> steps(
            s,
            Stimulus::Transcript { reply: transcript, now },
            after,
            action,
        ),
    ensures
        ({
            let error = if s.phase is CommandStatus {
                s.phase->CommandStatus_error
            } else {
                s.phase->CommandTranscript_error
            };
            let at_work = status is Ok && !(status->Ok_0 is Idle);
            let written = transcript is Ok && exists|i: int|
                0 <= i < transcript->Ok_0@.len() && #[trigger] transcript->Ok_0@[i].id@
                    == s.window->Some_0.command_message_id@;
            let goes_on = (s.phase is CommandStatus && at_work) || (s.phase is CommandTranscript
                && written);
            &&& goes_on <==> action is ReadClock
            &&& goes_on ==> !after.command_active && after.last_activity == now
                && after.warnings@.len() == s.warnings@.len() + 1 && after.warnings@.last()@
                == "OpenCode command transport error after start evidence; continuing supervision: "@
                + error.text@
            &&& s.phase is CommandStatus && at_work ==> after.observed_busy
                && !after.awaiting_idle_grace_check
            &&& s.phase is CommandStatus && !at_work ==> action is ReadTranscript
                && after.phase is CommandTranscript && after.phase->CommandTranscript_error == error
            &&& s.phase is CommandTranscript && written ==> after.observed_busy == s.observed_busy
                && (s.idle_grace_deadline is Some ==> after.idle_grace_deadline
                == s.idle_grace_deadline) && (s.idle_grace_deadline is None
                ==> after.idle_grace_deadline == Some((now + s.limits.idle_grace) as u128))
            &&& s.phase is CommandTranscript && !written ==> ends_with(
                action,
                "Failed to dispatch command '"@ + (if s.command is Some {
                    s.command->Some_0@
                } else {
                    "unknown"@
                }) + "': "@ + "transport error before session start evidence: "@ + error.text@,
            )
        }),
{
    assert(views(after.warnings@).len() == after.warnings@.len());
    assert(views(s.warnings@).len() == s.warnings@.len());
    if after.warnings@.len() > 0 {
        assert(views(after.warnings@).last() == after.warnings@.last()@);
    }
}

// ---------------------------------------------------------------------------
// What stays
// ---------------------------------------------------------------------------
/// The deadline of the run is set when its work is on its way and never again; so is its grace period, but for
/// a command that came back or was found in the transcript.
pub proof fn law_deadlines_are_set_once(
    s: RunSupervisor,
    stimulus: Stimulus,
    after: RunSupervisor,
    action: RunAction,
)
    requires
        steps(s, stimulus, after, action),
        !(after.phase is Done),
        !(after.phase is Finalizing),
        !(s.phase is Scanning),
    ensures
        after.deadline != s.deadline ==> stimulus is Subscription || stimulus is CommandStarted
            || stimulus is PromptSent,
        after.idle_grace_deadline != s.idle_grace_deadline ==> stimulus is Subscription
            || stimulus is PromptSent || stimulus is CommandReturned || stimulus is Transcript,
        after.command_active && !s.command_active ==> stimulus is Subscription,
        after.sse_active != s.sse_active ==> stimulus is StreamClosed,
{
    match stimulus {
        Stimulus::EventCame { event, now, tokens } => {},
        Stimulus::PollStatus { reply, now } => {},
        _ => {},
    }
}

/// What is asked for at the end of a run, and handed back then, is what the end of the run says.
pub proof fn law_end_of_a_run(
    s: RunSupervisor,
    reply: Result<Option<String>, ApiError>,
    after: RunSupervisor,
    action: RunAction,
)
    requires
        s.wf(),
        steps(s, Stimulus::FinalMessages { reply }, after, action),
    ensures
        reply is Err ==> action is Return && action->Return_0 is Err,
        action matches RunAction::ReadMessages { delay_ms } ==> delay_ms > 0
            && after.phase is Finalizing && after.phase->Finalizing_0.stage is Reading,
        reply is Ok && action is Return ==> action->Return_0 is Ok
            && action->Return_0->Ok_0.output.response == reply->Ok_0,
        reply is Ok && reply->Ok_0 is Some ==> !(action is ReadMessages),
        action matches RunAction::Summarize { provider_id, model_id } ==> {
            &&& s.phase->Finalizing_0.tokens.compaction_needed
            &&& s.phase->Finalizing_0.tokens.provider_id == Some(provider_id)
            &&& s.phase->Finalizing_0.tokens.model_id == Some(model_id)
            &&& after.phase is Finalizing
            &&& after.phase->Finalizing_0.stage == (FinalizeStage::Summarizing {
                response: reply->Ok_0,
            })
        },
{
}

} // verus!
