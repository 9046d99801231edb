//! The state of a supervised run, and what each answer and event does to it.

use crate::api::optional_view;
use crate::api::ApiError;
use crate::api::Event;
use crate::api::Message;
use crate::api::MessagePartEventProps;
use crate::api::MessageUpdatedProps;
use crate::api::PermissionRequest;
use crate::api::QuestionRequest;
use crate::api::Session;
use crate::api::SessionStatusInfo;
use crate::blockers::BlockerScanResult;
use crate::blockers::CallerResponseBlocker;
use crate::blockers::CallerResponseBlockerKind;
use crate::delta_buffer::PreCorrelationDeltaBuffer;
use crate::errors::ToolError;
use crate::idle::confirmed;
use crate::idle::evaluated;
use crate::idle::IdleCompletionMonitor;
use crate::idle::IdleCompletionOutcome;
use crate::idle::IdleEvaluation;
use crate::latch::observed;
use crate::latch::CallerResponseEventLatch;
use crate::latch::LatchKey;
use crate::lineage::standing;
use crate::lineage::SessionLineageResolver;
use crate::lineage::Standing;
use crate::outcome::asks_caller;
use crate::outcome::logged;
use crate::outcome::messages_taken;
use crate::outcome::summary_taken;
use crate::outcome::Finalization;
use crate::outcome::FinalizeStage;
use crate::outcome::FinalizeStep;
use crate::outcome::RunOutcome;
use crate::outcome::TokenStanding;
use crate::outcome::ToolLogMeta;
use crate::request::RunRequest;
use crate::scan::known_after;
use crate::scan::permissions_taken;
use crate::scan::questions_taken;
use crate::scan::session_taken;
use crate::scan::warned;
use crate::scan::BlockerDetectionSource;
use crate::scan::BlockerScan;
use crate::scan::PermissionPreflightMode;
use crate::scan::ScanStage;
use crate::scan::ScanStep;
use crate::tools::RunLimits;
use crate::transcript::buffer_wf;
use crate::transcript::delta_recorded;
use crate::transcript::dispatch_seen;
use crate::transcript::part_matches;
use crate::transcript::update_matches;
use crate::transcript::update_recorded;
use crate::transcript::CommandTranscriptWindow;
use vstd::hash_set::StringHashSet;
use vstd::prelude::*;

verus! {

/// Why the supervisor looks for requests that wait for the caller.
#[derive(Clone, Copy, Debug, PartialEq, Eq, Structural)]
pub enum ScanPurpose {
    /// Before anything is done.
    Preflight,
    /// Right after subscribing, on a session that is only watched and idle.
    PostSubscribe,
    /// After an event announced a request.
    Asked,
    /// After an event said that the session is idle.
    SessionIdle,
    /// On every poll.
    Poll,
    /// To confirm that an idle session is finished.
    Confirm,
    /// When work that was handed over showed no activity in time.
    IdleGrace,
}

/// What the supervisor waits for.
#[allow(inconsistent_fields)]
pub enum RunPhase {
    /// The status of the session before anything is done.
    InitialStatus,
    /// Something that a scan asked for.
    Scanning { scan: BlockerScan, purpose: ScanPurpose },
    /// The subscription to events.
    Subscribing,
    /// The command to be on its way.
    StartingCommand,
    /// The prompt to be accepted.
    Prompting,
    /// The status of a session that is only watched.
    PostSubscribeStatus,
    /// The time, before the next wait.
    LoopTop,
    /// Whatever happens next.
    Waiting,
    /// A session that places the owner of an announced request.
    PlacingOwner {
        kind: CallerResponseBlockerKind,
        owner_session_id: String,
        request_id: String,
        fetching: String,
    },
    /// The status of the session, on a poll that found no request.
    PollStatus { scan: BlockerScanResult },
    /// The status of the session when the grace period is over.
    GraceStatus,
    /// The status of the session after the command was lost on the way.
    CommandStatus { error: ApiError },
    /// The transcript after the command was lost on the way.
    CommandTranscript { error: ApiError },
    /// Something that the end of the run asked for.
    Finalizing(Finalization),
    /// Nothing: the run is over.
    Done,
}

/// What has to be done next.
#[allow(inconsistent_fields)]
pub enum RunAction {
    /// Read the status of the session.
    ReadStatus,
    /// List all pending permissions.
    ListPermissions,
    /// List all pending questions.
    ListQuestions,
    /// Fetch a session.
    FetchSession(String),
    /// Subscribe to events.
    Subscribe,
    /// Send a command without waiting for it.
    StartCommand { command: String, arguments: String, message_id: String },
    /// Send a prompt.
    SendPrompt { text: String, agent: Option<String> },
    /// Read the clock.
    ReadClock,
    /// Wait for the first of: the caller cancels; an event comes or the stream ends, if `events`; the
    /// next poll is due; the time `grace` is reached, if given; the command comes back, if `command`.
    Wait { events: bool, grace: Option<u128>, command: bool },
    /// Read the transcript.
    ReadTranscript,
    /// Wait this many milliseconds, then read the transcript for the assistant's text.
    ReadMessages { delay_ms: u64 },
    /// Have the context summarized.
    Summarize { provider_id: String, model_id: String },
    /// Hand this back to the caller.
    Return(Result<RunOutcome, ToolError>),
    /// Stop the command if it is still on its way, then hand this back to the caller.
    AbortCommandAndReturn(ToolError),
}

/// How a command that was sent came back.
pub enum CommandResult {
    /// It was carried out.
    Completed,
    /// The call failed.
    Failed(ApiError),
    /// The task that sent it broke down.
    Panicked(String),
}

/// A run on its way. Times are in nanoseconds on one monotonic clock.
pub struct RunSupervisor {
    pub limits: RunLimits,
    pub mode: PermissionPreflightMode,
    /// The monitored root session.
    pub session_id: String,
    pub command: Option<String>,
    pub agent: Option<String>,
    pub message: Option<String>,
    pub wait_for_activity: bool,
    pub lineage: SessionLineageResolver,
    pub warnings: Vec<String>,
    pub tokens: TokenStanding,
    /// When work that was handed over has had its chance to show activity.
    pub idle_grace_deadline: Option<u128>,
    pub awaiting_idle_grace_check: bool,
    /// The command has not come back yet.
    pub command_active: bool,
    pub window: Option<CommandTranscriptWindow>,
    pub deadline: u128,
    pub last_activity: u64,
    /// Text received so far.
    pub partial_response: String,
    /// The session was seen at work since this run began.
    pub observed_busy: bool,
    /// Messages known to answer the command.
    pub correlated_assistant_ids: StringHashSet,
    pub precorrelation_deltas: Option<PreCorrelationDeltaBuffer>,
    /// Events still come in.
    pub sse_active: bool,
    pub latch: CallerResponseEventLatch,
    pub monitor: IdleCompletionMonitor,
    pub phase: RunPhase,
}

/// The work of the run has not been handed over yet.
pub open spec fn before_hand_over(phase: RunPhase) -> bool {
    ||| phase is InitialStatus
    ||| phase is Subscribing
    ||| (phase is Scanning && phase->purpose == ScanPurpose::Preflight)
}

impl RunSupervisor {
    /// The parts of the state agree with each other.
    pub open spec fn wf(&self) -> bool {
        &&& self.lineage.consistent_with(self.session_id@)
        &&& self.latch.wf()
        &&& buffer_wf(self.precorrelation_deltas)
        &&& self.precorrelation_deltas is Some == self.window is Some
        &&& self.command_active ==> self.window is Some
        &&& before_hand_over(self.phase) ==> self.window is None
        &&& self.phase matches RunPhase::Scanning { scan, .. } ==> scan.wf()
        &&& self.phase matches RunPhase::PollStatus { scan } ==> !(scan is Found)
        &&& self.phase matches RunPhase::Finalizing(finalization) ==> finalization.wf()
    }

    /// This run hands over new work, or waits for work that was just released.
    pub open spec fn dispatched_new_work(&self) -> bool {
        self.command is Some || self.message is Some || self.wait_for_activity
    }
}

/// The text received so far, if any.
pub open spec fn partial_of(s: RunSupervisor) -> Option<String> {
    if s.partial_response@.len() == 0 {
        None
    } else {
        Some(s.partial_response)
    }
}

/// The state with a mark whether the session is a candidate for completion.
pub open spec fn candidate(s: RunSupervisor, pending: bool) -> RunSupervisor {
    RunSupervisor {
        monitor: IdleCompletionMonitor { completion_candidate_pending: pending },
        ..s
    }
}

/// The state once the monitored session was seen at work.
pub open spec fn progressed(s: RunSupervisor, now: u64) -> RunSupervisor {
    RunSupervisor {
        last_activity: now,
        observed_busy: true,
        awaiting_idle_grace_check: false,
        ..candidate(s, false)
    }
}

/// The run goes on with the next wait.
pub open spec fn loops(s: RunSupervisor, after: RunSupervisor, action: RunAction) -> bool {
    after == (RunSupervisor { phase: RunPhase::LoopTop, ..s }) && action is ReadClock
}

/// The run goes on with the next wait, with these requests held from events.
pub open spec fn loops_holding(
    s: RunSupervisor,
    held: Map<LatchKey, nat>,
    after: RunSupervisor,
    action: RunAction,
) -> bool {
    &&& loops(RunSupervisor { latch: after.latch, ..s }, after, action)
    &&& after.latch@ == held
}

/// The run ends with an internal error.
pub open spec fn fails(after: RunSupervisor, action: RunAction, text: Seq<char>) -> bool {
    &&& after.phase is Done
    &&& action matches RunAction::Return(Err(error))
    &&& error.is_internal(text)
}

/// The run ends and asks its caller for what a blocker needs.
pub open spec fn hands_over(
    s: RunSupervisor,
    blocker: CallerResponseBlocker,
    partial: Option<String>,
    tokens: ToolLogMeta,
    after: RunSupervisor,
    action: RunAction,
) -> bool {
    &&& after.phase is Done
    &&& action matches RunAction::Return(Ok(outcome))
    &&& asks_caller(outcome.output, blocker, partial, s.warnings)
    &&& outcome.log_meta == tokens
}

/// A scan that was just begun.
pub open spec fn fresh_scan(source: BlockerDetectionSource) -> BlockerScan {
    BlockerScan { source, inconclusive: false, stage: ScanStage::ListingPermissions }
}

/// The run goes on with a scan.
pub open spec fn scans(
    s: RunSupervisor,
    source: BlockerDetectionSource,
    purpose: ScanPurpose,
    after: RunSupervisor,
    action: RunAction,
) -> bool {
    &&& after == (RunSupervisor {
        phase: RunPhase::Scanning { scan: fresh_scan(source), purpose },
        ..s
    })
    &&& action is ListPermissions
}

/// The run reads the assistant's text, to report that the session is finished.
pub open spec fn finalizes(s: RunSupervisor, after: RunSupervisor, action: RunAction) -> bool {
    &&& after.phase == RunPhase::Finalizing(
        Finalization {
            session_id: s.session_id,
            tokens: s.tokens,
            warnings: s.warnings,
            stage: FinalizeStage::Reading { attempt: 0 },
        },
    )
    &&& action == (RunAction::ReadMessages { delay_ms: 0 })
}

/// The run goes on as the judgement of an idle session says.
pub open spec fn settles(
    s: RunSupervisor,
    held: Map<LatchKey, nat>,
    evaluation: IdleEvaluation,
    after: RunSupervisor,
    action: RunAction,
) -> bool {
    match evaluation {
        IdleEvaluation::Settled(IdleCompletionOutcome::Continue) => loops_holding(
            s,
            held,
            after,
            action,
        ),
        IdleEvaluation::Settled(IdleCompletionOutcome::Blocker(blocker)) => hands_over(
            s,
            *blocker,
            partial_of(s),
            logged(s.tokens),
            after,
            action,
        ),
        IdleEvaluation::Settled(IdleCompletionOutcome::Complete) => finalizes(s, after, action),
        IdleEvaluation::Confirm => {
            &&& scans(
                RunSupervisor { latch: after.latch, ..s },
                BlockerDetectionSource::Fallback,
                ScanPurpose::Confirm,
                after,
                action,
            )
            &&& after.latch@ == held
        },
    }
}

/// The run goes on from a look at an idle session that cannot by itself finish it.
pub open spec fn observes(
    s: RunSupervisor,
    scan: BlockerScanResult,
    after: RunSupervisor,
    action: RunAction,
) -> bool {
    let (pending, evaluation) = evaluated(
        s.monitor.completion_candidate_pending,
        s.latch@,
        scan,
        false,
        s.sse_active,
    );
    settles(candidate(s, pending), s.latch@, evaluation, after, action)
}

// ---------------------------------------------------------------------------
// Scans
// ---------------------------------------------------------------------------
/// What follows from the outcome of a scan.
pub open spec fn concludes(
    s: RunSupervisor,
    purpose: ScanPurpose,
    result: Result<BlockerScanResult, ToolError>,
    after: RunSupervisor,
    action: RunAction,
) -> bool {
    match result {
        Err(error) => after.phase is Done && action == RunAction::Return(Err(error)),
        Ok(scan) => match purpose {
            ScanPurpose::Preflight => match scan {
                BlockerScanResult::Found(blocker) => hands_over(
                    s,
                    *blocker,
                    None,
                    ToolLogMeta { token_usage: None, token_usage_saturated: false },
                    after,
                    action,
                ),
                _ => after == (RunSupervisor { phase: RunPhase::Subscribing, ..s })
                    && action is Subscribe,
            },
            ScanPurpose::PostSubscribe | ScanPurpose::SessionIdle | ScanPurpose::IdleGrace => {
                observes(s, scan, after, action)
            },
            ScanPurpose::Asked => match scan {
                BlockerScanResult::Found(blocker) => hands_over(
                    s,
                    *blocker,
                    partial_of(s),
                    logged(s.tokens),
                    after,
                    action,
                ),
                _ => loops(s, after, action),
            },
            ScanPurpose::Poll => match scan {
                BlockerScanResult::Found(blocker) => hands_over(
                    s,
                    *blocker,
                    partial_of(s),
                    logged(s.tokens),
                    after,
                    action,
                ),
                _ => after == (RunSupervisor { phase: RunPhase::PollStatus { scan }, ..s })
                    && action is ReadStatus,
            },
            ScanPurpose::Confirm => {
                let (pending, outcome) = confirmed(
                    s.monitor.completion_candidate_pending,
                    s.latch@,
                    scan,
                );
                settles(
                    candidate(s, pending),
                    s.latch@,
                    IdleEvaluation::Settled(outcome),
                    after,
                    action,
                )
            },
        },
    }
}

/// What follows from a step of a scan: the next thing to ask for, or its outcome.
pub open spec fn scan_steps(
    s: RunSupervisor,
    purpose: ScanPurpose,
    scan: BlockerScan,
    step: ScanStep,
    after: RunSupervisor,
    action: RunAction,
) -> bool {
    let waiting = RunSupervisor { phase: RunPhase::Scanning { scan, purpose }, ..s };
    match step {
        ScanStep::ListPermissions => after == waiting && action is ListPermissions,
        ScanStep::ListQuestions => after == waiting && action is ListQuestions,
        ScanStep::FetchSession(id) => after == waiting && action == RunAction::FetchSession(id),
        ScanStep::Finished(result) => concludes(s, purpose, result, after, action),
    }
}

// ---------------------------------------------------------------------------
// Events
// ---------------------------------------------------------------------------
/// An event releases a request that was held.
pub open spec fn releases(
    s: RunSupervisor,
    kind: CallerResponseBlockerKind,
    owner: String,
    request_id: String,
    after: RunSupervisor,
    action: RunAction,
) -> bool {
    loops_holding(s, s.latch@.remove((kind, owner@, request_id@)), after, action)
}

/// An announced request is held, and all pending requests are looked at.
pub open spec fn announces(
    s: RunSupervisor,
    kind: CallerResponseBlockerKind,
    owner: String,
    request_id: String,
    after: RunSupervisor,
    action: RunAction,
) -> bool {
    &&& scans(
        RunSupervisor { latch: after.latch, ..candidate(s, false) },
        BlockerDetectionSource::Fallback,
        ScanPurpose::Asked,
        after,
        action,
    )
    &&& after.latch@ == s.latch@.insert((kind, owner@, request_id@), 0)
}

/// What follows from where the owner of an announced request stands: a request in the root's tree is
/// held, one outside is ignored, and to tell them apart sessions are fetched.
pub open spec fn places_owner(
    s: RunSupervisor,
    kind: CallerResponseBlockerKind,
    owner: String,
    request_id: String,
    stands: Standing,
    after: RunSupervisor,
    action: RunAction,
) -> bool {
    match stands {
        Standing::Below(_) => announces(s, kind, owner, request_id, after, action),
        Standing::Outside => loops(s, after, action),
        Standing::Unknown(id) => {
            &&& after == (RunSupervisor { phase: after.phase, ..s })
            &&& after.phase matches RunPhase::PlacingOwner {
                kind: k,
                owner_session_id,
                request_id: r,
                fetching,
            }
            &&& k == kind
            &&& owner_session_id == owner
            &&& r == request_id
            &&& fetching@ == id
            &&& action == RunAction::FetchSession(fetching)
        },
    }
}

/// What follows from a session that places the owner of an announced request. If the owner cannot be
/// verified the request is held all the same.
pub open spec fn owner_session_taken(
    s: RunSupervisor,
    reply: Result<Session, ApiError>,
    after: RunSupervisor,
    action: RunAction,
) -> bool {
    let kind = s.phase->kind;
    let owner = s.phase->owner_session_id;
    let request_id = s.phase->request_id;
    let now = RunSupervisor { lineage: after.lineage, ..s };
    &&& after.lineage.known() == known_after(s.lineage.known(), s.phase->fetching@, reply)
    &&& match reply {
        Ok(_) => places_owner(
            now,
            kind,
            owner,
            request_id,
            standing(after.lineage.known(), s.session_id@, owner@),
            after,
            action,
        ),
        Err(error) => if error.not_found() {
            loops(now, after, action)
        } else {
            announces(now, kind, owner, request_id, after, action)
        },
    }
}

/// A delta to a message of the monitored session.
pub open spec fn delta_comes(
    s: RunSupervisor,
    properties: MessagePartEventProps,
    now: u64,
    after: RunSupervisor,
    action: RunAction,
) -> bool {
    let correlated = part_matches(
        s.window,
        optional_view(properties.message_id),
        s.correlated_assistant_ids@,
    );
    &&& delta_recorded(
        properties,
        correlated,
        s.precorrelation_deltas,
        after.precorrelation_deltas,
        s.partial_response@,
        after.partial_response@,
    )
    &&& loops(
        RunSupervisor {
            precorrelation_deltas: after.precorrelation_deltas,
            partial_response: after.partial_response,
            ..if correlated {
                progressed(s, now)
            } else {
                s
            }
        },
        after,
        action,
    )
}

/// An update of a message of the monitored session.
pub open spec fn update_comes(
    s: RunSupervisor,
    properties: MessageUpdatedProps,
    now: u64,
    after: RunSupervisor,
    action: RunAction,
) -> bool {
    let correlated = update_matches(
        s.window,
        properties.info.role@,
        optional_view(properties.info.parent_id),
    );
    &&& update_recorded(
        properties,
        correlated,
        s.correlated_assistant_ids@,
        after.correlated_assistant_ids@,
        s.precorrelation_deltas,
        after.precorrelation_deltas,
        s.partial_response@,
        after.partial_response@,
    )
    &&& loops(
        RunSupervisor {
            correlated_assistant_ids: after.correlated_assistant_ids,
            precorrelation_deltas: after.precorrelation_deltas,
            partial_response: after.partial_response,
            ..if correlated {
                progressed(s, now)
            } else {
                s
            }
        },
        after,
        action,
    )
}

/// Events that concern a request, whichever session owns it.
pub open spec fn concerns_request(event: Event) -> bool {
    ||| event is PermissionAsked
    ||| event is PermissionReplied
    ||| event is QuestionAsked
    ||| event is QuestionReplied
    ||| event is QuestionRejected
}

/// Whether the tokens used have to be brought up to date by an event: only for events of the monitored
/// session that do not concern a request.
pub open spec fn counts_tokens(s: RunSupervisor, event: Event) -> bool {
    !concerns_request(event) && event.names_session() == Some(s.session_id@)
}

/// What an event does. `tokens` is the standing with the event taken into account.
pub open spec fn event_comes(
    s: RunSupervisor,
    event: Event,
    now: u64,
    tokens: TokenStanding,
    after: RunSupervisor,
    action: RunAction,
) -> bool {
    let counted = RunSupervisor { tokens, ..s };
    match event {
        Event::PermissionReplied { request } => releases(
            s,
            CallerResponseBlockerKind::Permission,
            request.session_id,
            request.request_id,
            after,
            action,
        ),
        Event::QuestionReplied { request } => releases(
            s,
            CallerResponseBlockerKind::Question,
            request.session_id,
            request.request_id,
            after,
            action,
        ),
        Event::QuestionRejected { request } => releases(
            s,
            CallerResponseBlockerKind::Question,
            request.session_id,
            request.request_id,
            after,
            action,
        ),
        Event::PermissionAsked { request } => request_comes(
            s,
            CallerResponseBlockerKind::Permission,
            request.session_id,
            request.request_id,
            after,
            action,
        ),
        Event::QuestionAsked { request } => request_comes(
            s,
            CallerResponseBlockerKind::Question,
            request.session_id,
            request.request_id,
            after,
            action,
        ),
        _ => if event.names_session() != Some(s.session_id@) {
            loops(s, after, action)
        } else {
            match event {
                Event::MessagePartDelta { properties } => delta_comes(
                    counted,
                    properties,
                    now,
                    after,
                    action,
                ),
                Event::MessageUpdated { properties } => update_comes(
                    counted,
                    properties,
                    now,
                    after,
                    action,
                ),
                Event::MessagePartUpdated { properties } => loops(
                    if part_matches(
                        s.window,
                        optional_view(properties.message_id),
                        s.correlated_assistant_ids@,
                    ) {
                        progressed(counted, now)
                    } else {
                        counted
                    },
                    after,
                    action,
                ),
                Event::SessionError { error, .. } => fails(
                    after,
                    action,
                    "Session error: "@ + match error {
                        Some(text) => text@,
                        None => "Unknown error"@,
                    },
                ),
                Event::SessionIdle { .. } => scans(
                    counted,
                    BlockerDetectionSource::Fallback,
                    ScanPurpose::SessionIdle,
                    after,
                    action,
                ),
                _ => loops(counted, after, action),
            }
        },
    }
}

/// An event announces a request.
pub open spec fn request_comes(
    s: RunSupervisor,
    kind: CallerResponseBlockerKind,
    owner: String,
    request_id: String,
    after: RunSupervisor,
    action: RunAction,
) -> bool {
    &&& after.lineage.known() == s.lineage.known()
    &&& places_owner(
        RunSupervisor { lineage: after.lineage, ..s },
        kind,
        owner,
        request_id,
        standing(s.lineage.known(), s.session_id@, owner@),
        after,
        action,
    )
}

// ---------------------------------------------------------------------------
// Polls, grace and the command
// ---------------------------------------------------------------------------
/// Whether an idle session may count as finished: new work must have been seen at work, or must have
/// had its time to show activity.
pub open spec fn may_complete(s: RunSupervisor, now: u64) -> bool {
    ||| !s.dispatched_new_work()
    ||| s.observed_busy
    ||| (s.idle_grace_deadline is Some && now >= s.idle_grace_deadline->Some_0)
}

/// What the status of the session means on a poll that found no request.
pub open spec fn poll_status_taken(
    s: RunSupervisor,
    scan: BlockerScanResult,
    reply: Result<SessionStatusInfo, ApiError>,
    now: u64,
    after: RunSupervisor,
    action: RunAction,
) -> bool {
    let held = observed(s.latch@, scan);
    match reply {
        Err(_) => loops_holding(candidate(s, false), held, after, action),
        Ok(status) => if status.busy_like() {
            loops_holding(progressed(s, now), held, after, action)
        } else {
            let waits = !may_complete(s, now) && s.idle_grace_deadline is Some;
            let (pending, evaluation) = evaluated(
                s.monitor.completion_candidate_pending,
                held,
                scan,
                may_complete(s, now),
                s.sse_active,
            );
            settles(
                RunSupervisor {
                    awaiting_idle_grace_check: s.awaiting_idle_grace_check || waits,
                    ..candidate(s, pending)
                },
                held,
                evaluation,
                after,
                action,
            )
        },
    }
}

/// What the status of the session means when the grace period is over.
pub open spec fn grace_status_taken(
    s: RunSupervisor,
    reply: Result<SessionStatusInfo, ApiError>,
    now: u64,
    after: RunSupervisor,
    action: RunAction,
) -> bool {
    match reply {
        Err(_) => loops(s, after, action),
        Ok(status) => if status.busy_like() {
            loops(
                RunSupervisor { last_activity: now, observed_busy: true, ..candidate(s, false) },
                after,
                action,
            )
        } else {
            scans(
                s,
                BlockerDetectionSource::Fallback,
                ScanPurpose::IdleGrace,
                after,
                action,
            )
        },
    }
}

/// The name of the command, as errors give it.
pub open spec fn command_name(s: RunSupervisor) -> Seq<char> {
    match s.command {
        Some(command) => command@,
        None => "unknown"@,
    }
}

/// The start of the error about a command that could not be sent.
pub open spec fn dispatch_failure(s: RunSupervisor) -> Seq<char> {
    "Failed to dispatch command '"@ + command_name(s) + "': "@
}

/// The command was lost on the way, but it had started: the run goes on without it, with a warning.
pub open spec fn goes_on_without_command(
    s: RunSupervisor,
    error: ApiError,
    after: RunSupervisor,
    action: RunAction,
) -> bool {
    &&& warned(
        s.warnings@,
        after.warnings@,
        seq![
            "OpenCode command transport error after start evidence; continuing supervision: "@
                + error.text@,
        ],
    )
    &&& loops(
        RunSupervisor { warnings: after.warnings, command_active: false, ..s },
        after,
        action,
    )
}

/// The command was lost on the way, and nothing shows that it had started.
pub open spec fn command_never_started(
    s: RunSupervisor,
    error: ApiError,
    after: RunSupervisor,
    action: RunAction,
) -> bool {
    fails(
        after,
        action,
        dispatch_failure(s) + "transport error before session start evidence: "@ + error.text@,
    )
}

/// What the return of the command means.
pub open spec fn command_returns(
    s: RunSupervisor,
    result: CommandResult,
    now: u64,
    after: RunSupervisor,
    action: RunAction,
) -> bool {
    match result {
        CommandResult::Completed => loops(
            RunSupervisor {
                idle_grace_deadline: Some((now + s.limits.idle_grace) as u128),
                command_active: false,
                ..s
            },
            after,
            action,
        ),
        CommandResult::Panicked(text) => fails(
            after,
            action,
            "Command task panicked: "@ + text@,
        ),
        CommandResult::Failed(error) => if error.validation_error() || error.not_found() {
            &&& after.phase is Done
            &&& action matches RunAction::Return(Err(e))
            &&& e.is_invalid_input(dispatch_failure(s) + error.text@)
        } else if error.kind != crate::api::ApiErrorKind::Transport {
            fails(after, action, dispatch_failure(s) + error.text@)
        } else if s.observed_busy {
            goes_on_without_command(s, error, after, action)
        } else {
            &&& after == (RunSupervisor { phase: RunPhase::CommandStatus { error }, ..s })
            &&& action is ReadStatus
        },
    }
}

/// What the status of the session says of a command that was lost on the way.
pub open spec fn command_status_taken(
    s: RunSupervisor,
    error: ApiError,
    reply: Result<SessionStatusInfo, ApiError>,
    now: u64,
    after: RunSupervisor,
    action: RunAction,
) -> bool {
    if reply is Ok && reply->Ok_0.busy_like() {
        goes_on_without_command(
            RunSupervisor {
                observed_busy: true,
                last_activity: now,
                awaiting_idle_grace_check: false,
                ..s
            },
            error,
            after,
            action,
        )
    } else if s.window is Some {
        &&& after == (RunSupervisor { phase: RunPhase::CommandTranscript { error }, ..s })
        &&& action is ReadTranscript
    } else {
        command_never_started(s, error, after, action)
    }
}

/// What the transcript says of a command that was lost on the way.
pub open spec fn command_transcript_taken(
    s: RunSupervisor,
    error: ApiError,
    reply: Result<Vec<Message>, ApiError>,
    now: u64,
    after: RunSupervisor,
    action: RunAction,
) -> bool {
    if s.window is Some && reply is Ok && dispatch_seen(reply->Ok_0@, s.window->Some_0) {
        goes_on_without_command(
            RunSupervisor {
                idle_grace_deadline: match s.idle_grace_deadline {
                    Some(deadline) => Some(deadline),
                    None => Some((now + s.limits.idle_grace) as u128),
                },
                last_activity: now,
                ..s
            },
            error,
            after,
            action,
        )
    } else {
        command_never_started(s, error, after, action)
    }
}

/// What the end of a run asks for next, or hands back.
pub open spec fn final_steps(
    finalization: Finalization,
    step: FinalizeStep,
    after: RunSupervisor,
    action: RunAction,
) -> bool {
    match step {
        FinalizeStep::ReadMessages { delay_ms } => {
            &&& after.phase == RunPhase::Finalizing(finalization)
            &&& action == (RunAction::ReadMessages { delay_ms })
        },
        FinalizeStep::Summarize { provider_id, model_id } => {
            &&& after.phase == RunPhase::Finalizing(finalization)
            &&& action == (RunAction::Summarize { provider_id, model_id })
        },
        FinalizeStep::Finished(result) => {
            &&& after.phase is Done
            &&& action == RunAction::Return(result)
        },
    }
}

// ---------------------------------------------------------------------------
// Before the wait
// ---------------------------------------------------------------------------
/// What becomes of the answer to the question whether a session exists that is to be resumed.
pub open spec fn resumption_taken(
    session_id: Seq<char>,
    reply: Result<Session, ApiError>,
    r: Result<(), ToolError>,
) -> bool {
    match reply {
        Ok(_) => r is Ok,
        Err(error) => if error.not_found() {
            r is Err && r->Err_0.is_invalid_input(
                "Session '"@ + session_id
                    + "' not found. Use list_sessions to discover sessions, or omit session_id to create a new session."@,
            )
        } else {
            r is Err && r->Err_0.is_internal("Failed to get session: "@ + error.text@)
        },
    }
}

/// What becomes of the answer to the demand for a new session.
pub open spec fn creation_taken(
    reply: Result<Session, ApiError>,
    r: Result<String, ToolError>,
) -> bool {
    match reply {
        Ok(session) => r == Ok::<String, ToolError>(session.id),
        Err(error) => r is Err && r->Err_0.is_internal("Failed to create session: "@ + error.text@),
    }
}

/// How a run begins: with what it is asked to do and nothing seen yet; the status is read first.
pub open spec fn run_begins(
    limits: RunLimits,
    request: RunRequest,
    session_id: String,
    mode: PermissionPreflightMode,
    tokens: TokenStanding,
    s: RunSupervisor,
    action: RunAction,
) -> bool {
    &&& s.limits == limits
    &&& s.mode == mode
    &&& s.session_id == session_id
    &&& s.command == request.command
    &&& s.agent == request.agent
    &&& s.message == request.message
    &&& s.wait_for_activity == request.wait_for_activity
    &&& s.lineage.known() == Map::<Seq<char>, Option<Seq<char>>>::empty()
    &&& s.warnings@.len() == 0
    &&& s.tokens == tokens
    &&& s.idle_grace_deadline is None
    &&& !s.awaiting_idle_grace_check
    &&& !s.command_active
    &&& s.window is None
    &&& s.deadline == 0
    &&& s.last_activity == 0
    &&& s.partial_response@.len() == 0
    &&& !s.observed_busy
    &&& s.correlated_assistant_ids@ == Set::<Seq<char>>::empty()
    &&& s.precorrelation_deltas is None
    &&& s.sse_active
    &&& s.latch@ == Map::<LatchKey, nat>::empty()
    &&& !s.monitor.completion_candidate_pending
    &&& s.phase is InitialStatus
    &&& action is ReadStatus
}

/// The characters of a message id: the prefix `msg_`, twelve lower-case hexadecimal digits, and
/// fourteen letters or digits.
pub open spec fn is_message_id(id: Seq<char>) -> bool {
    &&& id.len() == 30
    &&& id.take(4) == "msg_"@
    &&& forall|i: int| 4 <= i < 16 ==> is_hex_digit(#[trigger] id[i])
    &&& forall|i: int| 16 <= i < 30 ==> is_base62_digit(#[trigger] id[i])
}

/// A lower-case hexadecimal digit.
pub open spec fn is_hex_digit(c: char) -> bool {
    '0' <= c <= '9' || 'a' <= c <= 'f'
}

/// A digit or a letter of the Latin alphabet.
pub open spec fn is_base62_digit(c: char) -> bool {
    '0' <= c <= '9' || 'A' <= c <= 'Z' || 'a' <= c <= 'z'
}

/// The state once work has been handed over and the wait begins.
pub open spec fn enters_loop(
    s: RunSupervisor,
    now: u64,
    after: RunSupervisor,
    action: RunAction,
) -> bool {
    let entered = RunSupervisor {
        deadline: (now + s.limits.session_deadline) as u128,
        last_activity: now,
        ..s
    };
    if s.dispatched_new_work() {
        loops(entered, after, action)
    } else {
        &&& after == (RunSupervisor { phase: RunPhase::PostSubscribeStatus, ..entered })
        &&& action is ReadStatus
    }
}

/// A command is sent under a message id of its own.
pub open spec fn sends_command(
    s: RunSupervisor,
    message_id: String,
    after: RunSupervisor,
    action: RunAction,
) -> bool {
    &&& after.precorrelation_deltas is Some
    &&& after.precorrelation_deltas->Some_0@.len() == 0
    &&& after == (RunSupervisor {
        window: Some(CommandTranscriptWindow { command_message_id: message_id }),
        precorrelation_deltas: after.precorrelation_deltas,
        command_active: true,
        phase: RunPhase::StartingCommand,
        ..s
    })
    &&& action matches RunAction::StartCommand { command, arguments, message_id: id }
    &&& s.command == Some(command)
    &&& arguments@ == match s.message {
        Some(message) => message@,
        None => Seq::empty(),
    }
    &&& id == message_id
}

/// What is done without a command: a prompt is sent, or else the wait begins. A run that only waits for
/// activity starts its grace period.
pub open spec fn goes_without_command(
    s: RunSupervisor,
    now: u64,
    after: RunSupervisor,
    action: RunAction,
) -> bool {
    if s.message is Some {
        &&& after == (RunSupervisor { phase: RunPhase::Prompting, ..s })
        &&& action == (RunAction::SendPrompt { text: s.message->Some_0, agent: s.agent })
    } else if s.wait_for_activity {
        enters_loop(
            RunSupervisor {
                idle_grace_deadline: Some((now + s.limits.idle_grace) as u128),
                ..s
            },
            now,
            after,
            action,
        )
    } else {
        enters_loop(s, now, after, action)
    }
}

/// What the status of the session means before anything is done: whatever it is, all pending requests
/// are looked at next.
pub open spec fn initial_status_taken(
    s: RunSupervisor,
    reply: Result<SessionStatusInfo, ApiError>,
    after: RunSupervisor,
    action: RunAction,
) -> bool {
    match reply {
        Ok(_) => scans(
            s,
            BlockerDetectionSource::Preflight(s.mode),
            ScanPurpose::Preflight,
            after,
            action,
        ),
        Err(error) => fails(after, action, "Failed to get session status: "@ + error.text@),
    }
}

/// What the subscription to events leads to: the work is handed over, a command under a fresh message
/// id.
pub open spec fn subscription_taken(
    s: RunSupervisor,
    reply: Result<(), ApiError>,
    now: u64,
    after: RunSupervisor,
    action: RunAction,
) -> bool {
    match reply {
        Ok(_) => if s.command is Some {
            exists|message_id: String|
                is_message_id(message_id@) && #[trigger] sends_command(s, message_id, after, action)
        } else {
            goes_without_command(s, now, after, action)
        },
        Err(error) => fails(after, action, "Failed to subscribe to events: "@ + error.text@),
    }
}

/// What the answer to a prompt means: once it was accepted its grace period starts.
pub open spec fn prompt_taken(
    s: RunSupervisor,
    reply: Result<(), ApiError>,
    now: u64,
    after: RunSupervisor,
    action: RunAction,
) -> bool {
    match reply {
        Ok(_) => enters_loop(
            RunSupervisor {
                idle_grace_deadline: Some((now + s.limits.idle_grace) as u128),
                ..s
            },
            now,
            after,
            action,
        ),
        Err(error) => fails(after, action, "Failed to send prompt: "@ + error.text@),
    }
}

/// What the status means of a session that is only watched: if it is idle already, all pending requests
/// are looked at before the wait.
pub open spec fn post_subscribe_status_taken(
    s: RunSupervisor,
    reply: Result<SessionStatusInfo, ApiError>,
    after: RunSupervisor,
    action: RunAction,
) -> bool {
    if reply is Ok && !reply->Ok_0.busy_like() {
        scans(
            s,
            BlockerDetectionSource::Fallback,
            ScanPurpose::PostSubscribe,
            after,
            action,
        )
    } else {
        loops(s, after, action)
    }
}

// ---------------------------------------------------------------------------
// The wait
// ---------------------------------------------------------------------------
/// How long nothing has happened.
pub open spec fn quiet_for(s: RunSupervisor, now: u64) -> int {
    if now >= s.last_activity {
        now - s.last_activity
    } else {
        0
    }
}

/// What the time means: the run gives up when nothing has happened for too long or when it has taken too
/// long in all; else it waits.
pub open spec fn clock_taken(
    s: RunSupervisor,
    now: u64,
    after: RunSupervisor,
    action: RunAction,
) -> bool {
    if quiet_for(s, now) >= s.limits.inactivity_timeout {
        fails(
            after,
            action,
            "Session idle timeout: no activity for 5 minutes (session_id="@ + s.session_id@
                + "). The session may still be running; use run(session_id=...) to check status."@,
        )
    } else if now >= s.deadline {
        fails(
            after,
            action,
            "Session execution timed out after 1 hour. The session may still be running; use run with the session_id to check status."@,
        )
    } else {
        &&& after == (RunSupervisor { phase: RunPhase::Waiting, ..s })
        &&& action == (RunAction::Wait {
            events: s.sse_active,
            grace: if s.awaiting_idle_grace_check {
                s.idle_grace_deadline
            } else {
                None
            },
            command: s.command_active,
        })
    }
}

/// The caller cancels: the command is stopped and the run ends.
pub open spec fn cancels(s: RunSupervisor, after: RunSupervisor, action: RunAction) -> bool {
    &&& after == (RunSupervisor { command_active: false, phase: RunPhase::Done, ..s })
    &&& action == RunAction::AbortCommandAndReturn(ToolError::Cancelled(None))
}

/// The stream of events has closed: the run goes on without events.
pub open spec fn stream_closes(s: RunSupervisor, after: RunSupervisor, action: RunAction) -> bool {
    loops(RunSupervisor { sse_active: false, ..s }, after, action)
}

/// It is time for a poll: all pending requests are looked at.
pub open spec fn poll_begins(s: RunSupervisor, after: RunSupervisor, action: RunAction) -> bool {
    scans(s, BlockerDetectionSource::Fallback, ScanPurpose::Poll, after, action)
}

/// The grace period is over: the status of the session is read again.
pub open spec fn grace_elapses(s: RunSupervisor, after: RunSupervisor, action: RunAction) -> bool {
    &&& after == (RunSupervisor {
        awaiting_idle_grace_check: false,
        phase: RunPhase::GraceStatus,
        ..s
    })
    &&& action is ReadStatus
}

// ---------------------------------------------------------------------------
// Scans and the end
// ---------------------------------------------------------------------------
/// What the list of permissions leads to that a scan asked for.
pub open spec fn scan_permissions_taken(
    s: RunSupervisor,
    reply: Result<Vec<PermissionRequest>, ApiError>,
    after: RunSupervisor,
    action: RunAction,
) -> bool {
    exists|mid: RunSupervisor, scan: BlockerScan, step: ScanStep|
        {
            &&& mid == (RunSupervisor {
                lineage: mid.lineage,
                warnings: mid.warnings,
                phase: RunPhase::Done,
                ..s
            })
            &&& mid.lineage.known() == s.lineage.known()
            &&& permissions_taken(
                s.phase->Scanning_scan,
                s.session_id,
                s.lineage.known(),
                s.warnings@,
                reply,
                scan,
                mid.warnings@,
                step,
            )
            &&& #[trigger] scan_steps(mid, s.phase->purpose, scan, step, after, action)
        }
}

/// What the list of questions leads to that a scan asked for.
pub open spec fn scan_questions_taken(
    s: RunSupervisor,
    reply: Result<Vec<QuestionRequest>, ApiError>,
    after: RunSupervisor,
    action: RunAction,
) -> bool {
    exists|mid: RunSupervisor, scan: BlockerScan, step: ScanStep|
        {
            &&& mid == (RunSupervisor { lineage: mid.lineage, phase: RunPhase::Done, ..s })
            &&& mid.lineage.known() == s.lineage.known()
            &&& questions_taken(
                s.phase->Scanning_scan,
                s.session_id,
                s.lineage.known(),
                reply,
                scan,
                step,
            )
            &&& #[trigger] scan_steps(mid, s.phase->purpose, scan, step, after, action)
        }
}

/// What a session leads to that a scan asked for.
pub open spec fn scan_session_taken(
    s: RunSupervisor,
    reply: Result<Session, ApiError>,
    after: RunSupervisor,
    action: RunAction,
) -> bool {
    exists|mid: RunSupervisor, scan: BlockerScan, step: ScanStep|
        {
            &&& mid == (RunSupervisor { lineage: mid.lineage, phase: RunPhase::Done, ..s })
            &&& session_taken(
                s.phase->Scanning_scan,
                s.session_id,
                s.lineage.known(),
                mid.lineage.known(),
                reply,
                scan,
                step,
            )
            &&& #[trigger] scan_steps(mid, s.phase->purpose, scan, step, after, action)
        }
}

/// What the assistant's text of a finished session leads to.
pub open spec fn final_messages_taken(
    s: RunSupervisor,
    reply: Result<Option<String>, ApiError>,
    after: RunSupervisor,
    action: RunAction,
) -> bool {
    exists|next: Finalization, step: FinalizeStep|
        messages_taken(s.phase->Finalizing_0, reply, next, step) && #[trigger] final_steps(
            next,
            step,
            after,
            action,
        )
}

/// What the attempt to have the context summarized leads to.
pub open spec fn final_summary_taken(
    s: RunSupervisor,
    reply: Result<(), ApiError>,
    after: RunSupervisor,
    action: RunAction,
) -> bool {
    &&& after.phase is Done
    &&& action matches RunAction::Return(result)
    &&& summary_taken(s.phase->Finalizing_0, reply, result)
}

// ---------------------------------------------------------------------------
// All steps
// ---------------------------------------------------------------------------
/// Everything that can be handed to the supervisor.
#[allow(inconsistent_fields)]
pub enum Stimulus {
    InitialStatus { reply: Result<SessionStatusInfo, ApiError> },
    Permissions { reply: Result<Vec<PermissionRequest>, ApiError> },
    Questions { reply: Result<Vec<QuestionRequest>, ApiError> },
    ScanSession { reply: Result<Session, ApiError> },
    Subscription { reply: Result<(), ApiError>, now: u64 },
    CommandStarted { now: u64 },
    PromptSent { reply: Result<(), ApiError>, now: u64 },
    PostSubscribeStatus { reply: Result<SessionStatusInfo, ApiError> },
    Clock { now: u64 },
    Cancelled,
    StreamClosed,
    EventCame { event: Event, now: u64, tokens: TokenStanding },
    OwnerSession { reply: Result<Session, ApiError> },
    PollTick,
    PollStatus { reply: Result<SessionStatusInfo, ApiError>, now: u64 },
    GraceElapsed,
    GraceStatus { reply: Result<SessionStatusInfo, ApiError>, now: u64 },
    CommandReturned { result: CommandResult, now: u64 },
    CommandStatus { reply: Result<SessionStatusInfo, ApiError>, now: u64 },
    Transcript { reply: Result<Vec<Message>, ApiError>, now: u64 },
    FinalMessages { reply: Result<Option<String>, ApiError> },
    Summary { reply: Result<(), ApiError> },
}

/// Whether the supervisor waits for this.
pub open spec fn expects(s: RunSupervisor, stimulus: Stimulus) -> bool {
    match stimulus {
        Stimulus::InitialStatus { .. } => s.phase is InitialStatus,
        Stimulus::Permissions { .. } => s.phase is Scanning
            && s.phase->Scanning_scan.stage is ListingPermissions,
        Stimulus::Questions { .. } => s.phase is Scanning
            && s.phase->Scanning_scan.stage is ListingQuestions,
        Stimulus::ScanSession { .. } => s.phase is Scanning
            && s.phase->Scanning_scan.stage is Placing,
        Stimulus::Subscription { .. } => s.phase is Subscribing,
        Stimulus::CommandStarted { .. } => s.phase is StartingCommand,
        Stimulus::PromptSent { .. } => s.phase is Prompting,
        Stimulus::PostSubscribeStatus { .. } => s.phase is PostSubscribeStatus,
        Stimulus::Clock { .. } => s.phase is LoopTop,
        Stimulus::Cancelled => s.phase is Waiting,
        Stimulus::StreamClosed => s.phase is Waiting,
        Stimulus::EventCame { .. } => s.phase is Waiting,
        Stimulus::OwnerSession { .. } => s.phase is PlacingOwner,
        Stimulus::PollTick => s.phase is Waiting,
        Stimulus::PollStatus { .. } => s.phase is PollStatus,
        Stimulus::GraceElapsed => s.phase is Waiting,
        Stimulus::GraceStatus { .. } => s.phase is GraceStatus,
        Stimulus::CommandReturned { .. } => s.phase is Waiting && s.command_active,
        Stimulus::CommandStatus { .. } => s.phase is CommandStatus,
        Stimulus::Transcript { .. } => s.phase is CommandTranscript,
        Stimulus::FinalMessages { .. } => s.phase is Finalizing
            && s.phase->Finalizing_0.stage is Reading,
        Stimulus::Summary { .. } => s.phase is Finalizing
            && s.phase->Finalizing_0.stage is Summarizing,
    }
}

/// What the supervisor does with what it is handed.
pub open spec fn steps(
    s: RunSupervisor,
    stimulus: Stimulus,
    after: RunSupervisor,
    action: RunAction,
) -> bool {
    &&& expects(s, stimulus)
    &&& match stimulus {
        Stimulus::InitialStatus { reply } => initial_status_taken(s, reply, after, action),
        Stimulus::Permissions { reply } => scan_permissions_taken(s, reply, after, action),
        Stimulus::Questions { reply } => scan_questions_taken(s, reply, after, action),
        Stimulus::ScanSession { reply } => scan_session_taken(s, reply, after, action),
        Stimulus::Subscription { reply, now } => subscription_taken(s, reply, now, after, action),
        Stimulus::CommandStarted { now } => enters_loop(s, now, after, action),
        Stimulus::PromptSent { reply, now } => prompt_taken(s, reply, now, after, action),
        Stimulus::PostSubscribeStatus { reply } => post_subscribe_status_taken(
            s,
            reply,
            after,
            action,
        ),
        Stimulus::Clock { now } => clock_taken(s, now, after, action),
        Stimulus::Cancelled => cancels(s, after, action),
        Stimulus::StreamClosed => stream_closes(s, after, action),
        Stimulus::EventCame { event, now, tokens } => event_comes(
            s,
            event,
            now,
            tokens,
            after,
            action,
        ),
        Stimulus::OwnerSession { reply } => owner_session_taken(s, reply, after, action),
        Stimulus::PollTick => poll_begins(s, after, action),
        Stimulus::PollStatus { reply, now } => poll_status_taken(
            s,
            s.phase->PollStatus_scan,
            reply,
            now,
            after,
            action,
        ),
        Stimulus::GraceElapsed => grace_elapses(s, after, action),
        Stimulus::GraceStatus { reply, now } => grace_status_taken(s, reply, now, after, action),
        Stimulus::CommandReturned { result, now } => command_returns(
            s,
            result,
            now,
            after,
            action,
        ),
        Stimulus::CommandStatus { reply, now } => command_status_taken(
            s,
            s.phase->CommandStatus_error,
            reply,
            now,
            after,
            action,
        ),
        Stimulus::Transcript { reply, now } => command_transcript_taken(
            s,
            s.phase->CommandTranscript_error,
            reply,
            now,
            after,
            action,
        ),
        Stimulus::FinalMessages { reply } => final_messages_taken(s, reply, after, action),
        Stimulus::Summary { reply } => final_summary_taken(s, reply, after, action),
    }
}

} // verus!
