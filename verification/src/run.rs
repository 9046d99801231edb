//! Supervises a run: from the first look at the session to the outcome for the caller.
//!
//! The supervisor never talks to the server itself. Each method takes one answer or event and names
//! the action that has to be carried out next; the phase says which answer it waits for.

use crate::api::optional_str;
use crate::api::ApiError;
use crate::api::ApiErrorKind;
use crate::api::Event;
use crate::api::Message;
use crate::api::PermissionRequest;
use crate::api::QuestionRequest;
use crate::api::Session;
use crate::api::SessionStatusInfo;
use crate::blockers::BlockerScanResult;
use crate::blockers::CallerResponseBlocker;
use crate::blockers::CallerResponseBlockerKind;
use crate::delta_buffer::PreCorrelationDeltaBuffer;
use crate::errors::ToolError;
use crate::idle::confirm_idle_completion;
use crate::idle::evaluate_idle_completion;
use crate::idle::IdleCompletionMonitor;
use crate::idle::IdleCompletionOutcome;
use crate::idle::IdleEvaluation;
use crate::latch::CallerResponseEventLatch;
use crate::lineage::standing;
use crate::lineage::tells;
use crate::lineage::LineageAnswer;
use crate::lineage::SessionLineageResolver;
use crate::lineage::Standing;
use crate::outcome::Finalization;
use crate::outcome::FinalizeStep;
use crate::outcome::RunOutcome;
use crate::outcome::TokenStanding;
use crate::request::RunRequest;
use crate::run_model::announces;
use crate::run_model::cancels;
use crate::run_model::clock_taken;
use crate::run_model::command_never_started;
use crate::run_model::command_returns;
use crate::run_model::command_status_taken;
use crate::run_model::command_transcript_taken;
use crate::run_model::concludes;
use crate::run_model::counts_tokens;
use crate::run_model::creation_taken;
use crate::run_model::dispatch_failure;
use crate::run_model::enters_loop;
use crate::run_model::event_comes;
use crate::run_model::final_messages_taken;
use crate::run_model::final_steps;
use crate::run_model::final_summary_taken;
use crate::run_model::finalizes;
use crate::run_model::goes_on_without_command;
use crate::run_model::goes_without_command;
use crate::run_model::grace_elapses;
use crate::run_model::grace_status_taken;
use crate::run_model::hands_over;
use crate::run_model::initial_status_taken;
use crate::run_model::is_message_id;
use crate::run_model::loops;
use crate::run_model::observes;
use crate::run_model::owner_session_taken;
use crate::run_model::partial_of;
use crate::run_model::places_owner;
use crate::run_model::poll_begins;
use crate::run_model::poll_status_taken;
use crate::run_model::post_subscribe_status_taken;
use crate::run_model::progressed;
use crate::run_model::prompt_taken;
use crate::run_model::request_comes;
use crate::run_model::resumption_taken;
use crate::run_model::run_begins;
use crate::run_model::scan_permissions_taken;
use crate::run_model::scan_questions_taken;
use crate::run_model::scan_session_taken;
use crate::run_model::scan_steps;
use crate::run_model::scans;
use crate::run_model::sends_command;
use crate::run_model::settles;
use crate::run_model::stream_closes;
use crate::run_model::subscription_taken;
use crate::run_model::CommandResult;
use crate::run_model::RunAction;
use crate::run_model::RunPhase;
use crate::run_model::RunSupervisor;
use crate::run_model::ScanPurpose;
use crate::scan::BlockerDetectionSource;
use crate::scan::BlockerScan;
use crate::scan::PermissionPreflightMode;
use crate::scan::ScanStep;
use crate::text::cat2;
use crate::text::cat3;
use crate::text::same_text;
use crate::tools::OrchestratorRunTool;
use crate::transcript::part_event_matches_command;
use crate::transcript::record_message_part_delta;
use crate::transcript::record_message_updated;
use crate::transcript::transcript_indicates_command_dispatch;
use crate::transcript::CommandTranscriptWindow;
use vstd::hash_set::StringHashSet;
use vstd::pervasive::unreached;
use vstd::prelude::*;

verus! {

// ---------------------------------------------------------------------------
// The session to supervise
// ---------------------------------------------------------------------------
/// Take the answer to the question whether a session exists.
pub fn check_session_lookup(session_id: &String, reply: Result<Session, ApiError>) -> (r: Result<
    (),
    ToolError,
>)
    ensures
        resumption_taken(session_id@, reply, r),
{
    match reply {
        Ok(_) => Ok(()),
        Err(error) => {
            if error.is_not_found() {
                Err(
                    ToolError::InvalidInput(
                        cat3(
                            "Session '",
                            session_id.as_str(),
                            "' not found. Use list_sessions to discover sessions, or omit session_id to create a new session.",
                        ),
                    ),
                )
            } else {
                Err(ToolError::Internal(cat2("Failed to get session: ", error.text.as_str())))
            }
        },
    }
}

/// Take a session that was created.
pub fn take_created_session(reply: Result<Session, ApiError>) -> (r: Result<String, ToolError>)
    ensures
        creation_taken(reply, r),
{
    match reply {
        Ok(session) => Ok(session.id),
        Err(error) => Err(
            ToolError::Internal(cat2("Failed to create session: ", error.text.as_str())),
        ),
    }
}

/// `opencode_rs::types::new_message_id` makes a message id out of the time, a counter and chance. What
/// is claimed of it is its shape, which holds of every outcome; nothing is claimed about one id being
/// different from another. It relies on a system clock that is not set before 1970.
#[verifier::external_body]
fn fresh_message_id() -> (r: String)
    ensures
        is_message_id(r@),
{
    opencode_rs::types::new_message_id()
}

// ---------------------------------------------------------------------------
// Entering the run
// ---------------------------------------------------------------------------
impl OrchestratorRunTool {
    /// Start to supervise a session that exists; its status is read first.
    pub fn supervise(
        &self,
        request: RunRequest,
        session_id: String,
        mode: PermissionPreflightMode,
        tokens: TokenStanding,
    ) -> (r: (RunSupervisor, RunAction))
        ensures
            r.0.wf(),
            run_begins(self.handle().limits, request, session_id, mode, tokens, r.0, r.1),
    {
        let supervisor = RunSupervisor {
            limits: self.server().limits,
            mode,
            session_id,
            command: request.command,
            agent: request.agent,
            message: request.message,
            wait_for_activity: request.wait_for_activity,
            lineage: SessionLineageResolver::default(),
            warnings: Vec::new(),
            tokens,
            idle_grace_deadline: None,
            awaiting_idle_grace_check: false,
            command_active: false,
            window: None,
            deadline: 0,
            last_activity: 0,
            partial_response: String::new(),
            observed_busy: false,
            correlated_assistant_ids: StringHashSet::new(),
            precorrelation_deltas: None,
            sse_active: true,
            latch: CallerResponseEventLatch::default(),
            monitor: IdleCompletionMonitor::default(),
            phase: RunPhase::InitialStatus,
        };
        (supervisor, RunAction::ReadStatus)
    }
}

impl RunSupervisor {
    /// Whether this run hands over new work, or waits for work that was just released.
    fn has_new_work(&self) -> (r: bool)
        ensures
            r == self.dispatched_new_work(),
    {
        self.command.is_some() || self.message.is_some() || self.wait_for_activity
    }

    fn to_loop_top(&mut self) -> (action: RunAction)
        ensures
            loops(*old(self), *final(self), action),
    {
        self.phase = RunPhase::LoopTop;
        RunAction::ReadClock
    }

    fn fail(&mut self, error: ToolError) -> (action: RunAction)
        ensures
            *final(self) == (RunSupervisor { phase: RunPhase::Done, ..*old(self) }),
            action == RunAction::Return(Err(error)),
    {
        self.phase = RunPhase::Done;
        RunAction::Return(Err(error))
    }

    fn start_scan(&mut self, source: BlockerDetectionSource, purpose: ScanPurpose) -> (action:
        RunAction)
        ensures
            scans(*old(self), source, purpose, *final(self), action),
    {
        let (scan, _) = BlockerScan::begin(source);
        self.phase = RunPhase::Scanning { scan, purpose };
        RunAction::ListPermissions
    }

    fn take_partial(&mut self) -> (r: Option<String>)
        ensures
            r == partial_of(*old(self)),
            *final(self) == (RunSupervisor {
                partial_response: final(self).partial_response,
                ..*old(self)
            }),
    {
        if self.partial_response.as_str().is_empty() {
            None
        } else {
            let mut text = String::new();
            core::mem::swap(&mut self.partial_response, &mut text);
            Some(text)
        }
    }

    fn hand_over(&mut self, blocker: CallerResponseBlocker, partial: Option<String>) -> (action:
        RunAction)
        requires
            old(self).wf(),
        ensures
            final(self).wf(),
            hands_over(
                *old(self),
                blocker,
                partial,
                crate::outcome::logged(old(self).tokens),
                *final(self),
                action,
            ),
    {
        let mut warnings: Vec<String> = Vec::new();
        let mut tokens = TokenStanding::default();
        core::mem::swap(&mut self.warnings, &mut warnings);
        core::mem::swap(&mut self.tokens, &mut tokens);
        self.phase = RunPhase::Done;
        let output = OrchestratorRunTool::caller_response_blocker_output(
            blocker,
            partial,
            warnings,
        );
        RunAction::Return(Ok(RunOutcome::with_tracker(output, tokens)))
    }

    fn finalize(&mut self) -> (action: RunAction)
        requires
            old(self).wf(),
        ensures
            final(self).wf(),
            finalizes(*old(self), *final(self), action),
    {
        let mut warnings: Vec<String> = Vec::new();
        let mut tokens = TokenStanding::default();
        core::mem::swap(&mut self.warnings, &mut warnings);
        core::mem::swap(&mut self.tokens, &mut tokens);
        let (finalization, _) = Finalization::begin(self.session_id.clone(), tokens, warnings);
        self.phase = RunPhase::Finalizing(finalization);
        RunAction::ReadMessages { delay_ms: 0 }
    }

    /// Carry out the judgement of an idle session.
    fn settle(&mut self, evaluation: IdleEvaluation) -> (action: RunAction)
        requires
            old(self).wf(),
        ensures
            final(self).wf(),
            settles(*old(self), old(self).latch@, evaluation, *final(self), action),
    {
        match evaluation {
            IdleEvaluation::Settled(IdleCompletionOutcome::Continue) => self.to_loop_top(),
            IdleEvaluation::Settled(IdleCompletionOutcome::Blocker(blocker)) => {
                let partial = self.take_partial();
                self.hand_over(*blocker, partial)
            },
            IdleEvaluation::Settled(IdleCompletionOutcome::Complete) => self.finalize(),
            IdleEvaluation::Confirm => {
                self.start_scan(BlockerDetectionSource::Fallback, ScanPurpose::Confirm)
            },
        }
    }

    /// Go on from a look at an idle session that cannot by itself finish it.
    fn observe(&mut self, scan: BlockerScanResult) -> (action: RunAction)
        requires
            old(self).wf(),
        ensures
            final(self).wf(),
            observes(*old(self), scan, *final(self), action),
    {
        let sse_active = self.sse_active;
        let evaluation = evaluate_idle_completion(
            &mut self.monitor,
            &mut self.latch,
            scan,
            false,
            false,
            sse_active,
        );
        self.settle(evaluation)
    }

    /// Go on from the outcome of a scan.
    fn conclude(&mut self, purpose: ScanPurpose, result: Result<BlockerScanResult, ToolError>) -> (
    action: RunAction)
        requires
            old(self).wf(),
            old(self).phase is Done,
            purpose == ScanPurpose::Preflight ==> old(self).window is None,
        ensures
            final(self).wf(),
            concludes(*old(self), purpose, result, *final(self), action),
    {
        let scan = match result {
            Ok(scan) => scan,
            Err(error) => {
                return self.fail(error);
            },
        };
        match purpose {
            ScanPurpose::Preflight => {
                match scan {
                    BlockerScanResult::Found(blocker) => {
                        let mut warnings: Vec<String> = Vec::new();
                        core::mem::swap(&mut self.warnings, &mut warnings);
                        let output = OrchestratorRunTool::caller_response_blocker_output(
                            *blocker,
                            None,
                            warnings,
                        );
                        RunAction::Return(Ok(RunOutcome::without_tokens(output)))
                    },
                    _ => {
                        self.phase = RunPhase::Subscribing;
                        RunAction::Subscribe
                    },
                }
            },
            ScanPurpose::PostSubscribe => self.observe(scan),
            ScanPurpose::SessionIdle => self.observe(scan),
            ScanPurpose::IdleGrace => self.observe(scan),
            ScanPurpose::Asked => {
                match scan {
                    BlockerScanResult::Found(blocker) => {
                        let partial = self.take_partial();
                        self.hand_over(*blocker, partial)
                    },
                    _ => self.to_loop_top(),
                }
            },
            ScanPurpose::Poll => {
                match scan {
                    BlockerScanResult::Found(blocker) => {
                        let partial = self.take_partial();
                        self.hand_over(*blocker, partial)
                    },
                    scan => {
                        self.phase = RunPhase::PollStatus { scan };
                        RunAction::ReadStatus
                    },
                }
            },
            ScanPurpose::Confirm => {
                let outcome = confirm_idle_completion(&mut self.monitor, &self.latch, scan);
                self.settle(IdleEvaluation::Settled(outcome))
            },
        }
    }

    /// Go on from a step of a scan.
    fn step_scan(&mut self, purpose: ScanPurpose, scan: BlockerScan, step: ScanStep) -> (action:
        RunAction)
        requires
            old(self).wf(),
            old(self).phase is Done,
            purpose == ScanPurpose::Preflight ==> old(self).window is None,
            scan.wf(),
        ensures
            final(self).wf(),
            scan_steps(*old(self), purpose, scan, step, *final(self), action),
    {
        match step {
            ScanStep::ListPermissions => {
                self.phase = RunPhase::Scanning { scan, purpose };
                RunAction::ListPermissions
            },
            ScanStep::ListQuestions => {
                self.phase = RunPhase::Scanning { scan, purpose };
                RunAction::ListQuestions
            },
            ScanStep::FetchSession(id) => {
                self.phase = RunPhase::Scanning { scan, purpose };
                RunAction::FetchSession(id)
            },
            ScanStep::Finished(result) => self.conclude(purpose, result),
        }
    }

    fn enter_loop(&mut self, now: u64) -> (action: RunAction)
        requires
            old(self).wf(),
        ensures
            final(self).wf(),
            enters_loop(*old(self), now, *final(self), action),
    {
        self.deadline = now as u128 + self.limits.session_deadline as u128;
        self.last_activity = now;
        if self.has_new_work() {
            self.to_loop_top()
        } else {
            self.phase = RunPhase::PostSubscribeStatus;
            RunAction::ReadStatus
        }
    }

    // -----------------------------------------------------------------------
    // Before the wait
    // -----------------------------------------------------------------------
    /// Take the status of the session before anything is done. Whatever it is, all pending requests
    /// are looked at next.
    pub fn on_initial_status(&mut self, reply: Result<SessionStatusInfo, ApiError>) -> (action:
        RunAction)
        requires
            old(self).wf(),
            old(self).phase is InitialStatus,
        ensures
            final(self).wf(),
            initial_status_taken(*old(self), reply, *final(self), action),
    {
        match reply {
            Ok(_) => {
                self.start_scan(
                    BlockerDetectionSource::Preflight(self.mode),
                    ScanPurpose::Preflight,
                )
            },
            Err(error) => {
                self.fail(
                    ToolError::Internal(
                        cat2("Failed to get session status: ", error.text.as_str()),
                    ),
                )
            },
        }
    }

    /// Take the list of permissions that a scan asked for.
    pub fn on_permissions(&mut self, reply: Result<Vec<PermissionRequest>, ApiError>) -> (action:
        RunAction)
        requires
            old(self).wf(),
            old(self).phase is Scanning,
            old(self).phase->Scanning_scan.stage is ListingPermissions,
        ensures
            final(self).wf(),
            scan_permissions_taken(*old(self), reply, *final(self), action),
    {
        let mut phase = RunPhase::Done;
        core::mem::swap(&mut self.phase, &mut phase);
        match phase {
            RunPhase::Scanning { scan, purpose } => {
                let mut scan = scan;
                let step = scan.on_permissions(
                    &self.session_id,
                    &mut self.lineage,
                    &mut self.warnings,
                    reply,
                );
                let ghost mid = *self;
                let ghost taken = scan;
                let action = self.step_scan(purpose, scan, step);
                assert(scan_steps(mid, purpose, taken, step, *self, action));
                action
            },
            _ => unreached(),
        }
    }

    /// Take the list of questions that a scan asked for.
    pub fn on_questions(&mut self, reply: Result<Vec<QuestionRequest>, ApiError>) -> (action:
        RunAction)
        requires
            old(self).wf(),
            old(self).phase is Scanning,
            old(self).phase->Scanning_scan.stage is ListingQuestions,
        ensures
            final(self).wf(),
            scan_questions_taken(*old(self), reply, *final(self), action),
    {
        let mut phase = RunPhase::Done;
        core::mem::swap(&mut self.phase, &mut phase);
        match phase {
            RunPhase::Scanning { scan, purpose } => {
                let mut scan = scan;
                let step = scan.on_questions(&self.session_id, &mut self.lineage, reply);
                let ghost mid = *self;
                let ghost taken = scan;
                let action = self.step_scan(purpose, scan, step);
                assert(scan_steps(mid, purpose, taken, step, *self, action));
                action
            },
            _ => unreached(),
        }
    }

    /// Take a session that a scan asked for.
    pub fn on_scan_session(&mut self, reply: Result<Session, ApiError>) -> (action: RunAction)
        requires
            old(self).wf(),
            old(self).phase is Scanning,
            old(self).phase->Scanning_scan.stage is Placing,
        ensures
            final(self).wf(),
            scan_session_taken(*old(self), reply, *final(self), action),
    {
        let mut phase = RunPhase::Done;
        core::mem::swap(&mut self.phase, &mut phase);
        match phase {
            RunPhase::Scanning { scan, purpose } => {
                let mut scan = scan;
                let step = scan.on_session(&self.session_id, &mut self.lineage, reply);
                let ghost mid = *self;
                let ghost taken = scan;
                let action = self.step_scan(purpose, scan, step);
                assert(scan_steps(mid, purpose, taken, step, *self, action));
                action
            },
            _ => unreached(),
        }
    }

    /// Take the subscription to events, and hand over the work; a command gets a fresh message id.
    pub fn on_subscribed(&mut self, reply: Result<(), ApiError>, now: u64) -> (action: RunAction)
        requires
            old(self).wf(),
            old(self).phase is Subscribing,
        ensures
            final(self).wf(),
            subscription_taken(*old(self), reply, now, *final(self), action),
    {
        match reply {
            Ok(_) => {
                if self.command.is_some() {
                    let message_id = fresh_message_id();
                    self.send_command(message_id)
                } else {
                    self.go_without_command(now)
                }
            },
            Err(error) => {
                self.fail(
                    ToolError::Internal(
                        cat2("Failed to subscribe to events: ", error.text.as_str()),
                    ),
                )
            },
        }
    }

    /// Send the command under the given message id.
    pub fn send_command(&mut self, message_id: String) -> (action: RunAction)
        requires
            old(self).wf(),
            old(self).phase is Subscribing,
            old(self).command is Some,
        ensures
            final(self).wf(),
            sends_command(*old(self), message_id, *final(self), action),
    {
        let command = match &self.command {
            Some(command) => command.clone(),
            None => unreached(),
        };
        let arguments = match &self.message {
            Some(message) => message.clone(),
            None => String::new(),
        };
        self.window = Some(CommandTranscriptWindow { command_message_id: message_id.clone() });
        self.precorrelation_deltas = Some(PreCorrelationDeltaBuffer::default());
        self.command_active = true;
        self.phase = RunPhase::StartingCommand;
        RunAction::StartCommand { command, arguments, message_id }
    }

    /// Send the prompt, or begin to wait.
    fn go_without_command(&mut self, now: u64) -> (action: RunAction)
        requires
            old(self).wf(),
        ensures
            final(self).wf(),
            goes_without_command(*old(self), now, *final(self), action),
    {
        if let Some(message) = &self.message {
            let text = message.clone();
            let agent = crate::text::copy_optional(&self.agent);
            self.phase = RunPhase::Prompting;
            return RunAction::SendPrompt { text, agent };
        }
        if self.wait_for_activity {
            self.idle_grace_deadline = Some(now as u128 + self.limits.idle_grace as u128);
        }
        self.enter_loop(now)
    }

    /// The command is on its way.
    pub fn on_command_started(&mut self, now: u64) -> (action: RunAction)
        requires
            old(self).wf(),
            old(self).phase is StartingCommand,
        ensures
            final(self).wf(),
            enters_loop(*old(self), now, *final(self), action),
    {
        self.enter_loop(now)
    }

    /// Take the answer to a prompt. Once it was accepted its grace period starts.
    pub fn on_prompt_sent(&mut self, reply: Result<(), ApiError>, now: u64) -> (action: RunAction)
        requires
            old(self).wf(),
            old(self).phase is Prompting,
        ensures
            final(self).wf(),
            prompt_taken(*old(self), reply, now, *final(self), action),
    {
        match reply {
            Ok(_) => {
                self.idle_grace_deadline = Some(now as u128 + self.limits.idle_grace as u128);
                self.enter_loop(now)
            },
            Err(error) => {
                self.fail(
                    ToolError::Internal(cat2("Failed to send prompt: ", error.text.as_str())),
                )
            },
        }
    }

    /// Take the status of a session that is only watched. If it is idle already, all pending requests
    /// are looked at before the wait.
    pub fn on_post_subscribe_status(&mut self, reply: Result<SessionStatusInfo, ApiError>) -> (
    action: RunAction)
        requires
            old(self).wf(),
            old(self).phase is PostSubscribeStatus,
        ensures
            final(self).wf(),
            post_subscribe_status_taken(*old(self), reply, *final(self), action),
    {
        match reply {
            Ok(SessionStatusInfo::Idle) => {
                self.start_scan(BlockerDetectionSource::Fallback, ScanPurpose::PostSubscribe)
            },
            _ => self.to_loop_top(),
        }
    }

    // -----------------------------------------------------------------------
    // The wait
    // -----------------------------------------------------------------------
    /// Take the time: the run gives up when nothing has happened for too long or when it has taken too
    /// long in all; else it waits.
    pub fn on_clock(&mut self, now: u64) -> (action: RunAction)
        requires
            old(self).wf(),
            old(self).phase is LoopTop,
        ensures
            final(self).wf(),
            clock_taken(*old(self), now, *final(self), action),
    {
        if now.saturating_sub(self.last_activity) >= self.limits.inactivity_timeout {
            let text = cat3(
                "Session idle timeout: no activity for 5 minutes (session_id=",
                self.session_id.as_str(),
                "). The session may still be running; use run(session_id=...) to check status.",
            );
            return self.fail(ToolError::Internal(text));
        }
        if now as u128 >= self.deadline {
            return self.fail(
                ToolError::Internal(
                    "Session execution timed out after 1 hour. The session may still be running; use run with the session_id to check status.".to_string(),
                ),
            );
        }
        self.phase = RunPhase::Waiting;
        RunAction::Wait {
            events: self.sse_active,
            grace: if self.awaiting_idle_grace_check {
                self.idle_grace_deadline
            } else {
                None
            },
            command: self.command_active,
        }
    }

    /// The caller cancelled: the command is stopped and the run ends.
    pub fn on_cancelled(&mut self) -> (action: RunAction)
        requires
            old(self).wf(),
            old(self).phase is Waiting,
        ensures
            final(self).wf(),
            cancels(*old(self), *final(self), action),
    {
        self.command_active = false;
        self.phase = RunPhase::Done;
        RunAction::AbortCommandAndReturn(ToolError::Cancelled(None))
    }

    /// No more events come in: from now on polls alone drive the run.
    pub fn on_stream_closed(&mut self) -> (action: RunAction)
        requires
            old(self).wf(),
            old(self).phase is Waiting,
        ensures
            final(self).wf(),
            stream_closes(*old(self), *final(self), action),
    {
        self.sse_active = false;
        self.to_loop_top()
    }

    /// Whether the tokens used have to be brought up to date before an event is handed in.
    pub fn tracks_tokens(&self, event: &Event) -> (r: bool)
        ensures
            r == counts_tokens(*self, *event),
    {
        match event {
            Event::PermissionAsked { .. } => false,
            Event::PermissionReplied { .. } => false,
            Event::QuestionAsked { .. } => false,
            Event::QuestionReplied { .. } => false,
            Event::QuestionRejected { .. } => false,
            _ => match event.session_id() {
                Some(id) => same_text(id, self.session_id.as_str()),
                None => false,
            },
        }
    }

    /// Take an event. `tokens` is the standing of the tokens used, with the event taken into account
    /// where `tracks_tokens` says so.
    pub fn on_event(&mut self, event: Event, now: u64, tokens: TokenStanding) -> (action: RunAction)
        requires
            old(self).wf(),
            old(self).phase is Waiting,
        ensures
            final(self).wf(),
            event_comes(*old(self), event, now, tokens, *final(self), action),
    {
        let counted = self.tracks_tokens(&event);
        match event {
            Event::PermissionReplied { request } => {
                self.latch.remove(
                    CallerResponseBlockerKind::Permission,
                    request.session_id.as_str(),
                    request.request_id.as_str(),
                );
                return self.to_loop_top();
            },
            Event::QuestionReplied { request } => {
                self.latch.remove(
                    CallerResponseBlockerKind::Question,
                    request.session_id.as_str(),
                    request.request_id.as_str(),
                );
                return self.to_loop_top();
            },
            Event::QuestionRejected { request } => {
                self.latch.remove(
                    CallerResponseBlockerKind::Question,
                    request.session_id.as_str(),
                    request.request_id.as_str(),
                );
                return self.to_loop_top();
            },
            Event::PermissionAsked { request } => {
                return self.on_request(
                    CallerResponseBlockerKind::Permission,
                    request.session_id,
                    request.request_id,
                );
            },
            Event::QuestionAsked { request } => {
                return self.on_request(
                    CallerResponseBlockerKind::Question,
                    request.session_id,
                    request.request_id,
                );
            },
            _ => {},
        }
        if !counted {
            return self.to_loop_top();
        }
        self.tokens = tokens;
        match event {
            Event::MessagePartDelta { properties } => {
                let correlated = record_message_part_delta(
                    &properties,
                    self.window.as_ref(),
                    &self.correlated_assistant_ids,
                    &mut self.precorrelation_deltas,
                    &mut self.partial_response,
                );
                if correlated {
                    self.note_progress(now);
                }
                self.to_loop_top()
            },
            Event::MessageUpdated { properties } => {
                let correlated = record_message_updated(
                    &properties,
                    self.window.as_ref(),
                    &mut self.correlated_assistant_ids,
                    &mut self.precorrelation_deltas,
                    &mut self.partial_response,
                );
                if correlated {
                    self.note_progress(now);
                }
                self.to_loop_top()
            },
            Event::MessagePartUpdated { properties } => {
                let correlated = part_event_matches_command(
                    self.window.as_ref(),
                    optional_str(&properties.message_id),
                    &self.correlated_assistant_ids,
                );
                if correlated {
                    self.note_progress(now);
                }
                self.to_loop_top()
            },
            Event::SessionError { error, .. } => {
                let text = match error {
                    Some(text) => cat2("Session error: ", text.as_str()),
                    None => cat2("Session error: ", "Unknown error"),
                };
                self.fail(ToolError::Internal(text))
            },
            Event::SessionIdle { .. } => {
                self.start_scan(BlockerDetectionSource::Fallback, ScanPurpose::SessionIdle)
            },
            _ => self.to_loop_top(),
        }
    }

    fn note_progress(&mut self, now: u64)
        ensures
            *final(self) == progressed(*old(self), now),
    {
        self.last_activity = now;
        self.observed_busy = true;
        self.awaiting_idle_grace_check = false;
        self.monitor.reset_on_root_progress();
    }

    fn announce(
        &mut self,
        kind: CallerResponseBlockerKind,
        owner_session_id: &String,
        request_id: &String,
    ) -> (action: RunAction)
        requires
            old(self).wf(),
        ensures
            final(self).wf(),
            announces(*old(self), kind, *owner_session_id, *request_id, *final(self), action),
    {
        self.latch.latch(kind, owner_session_id.as_str(), request_id.as_str());
        self.monitor.reset_completion_candidate();
        self.start_scan(BlockerDetectionSource::Fallback, ScanPurpose::Asked)
    }

    fn place_owner(
        &mut self,
        kind: CallerResponseBlockerKind,
        owner_session_id: String,
        request_id: String,
        answer: LineageAnswer,
    ) -> (action: RunAction)
        requires
            old(self).wf(),
        ensures
            final(self).wf(),
            forall|stands: Standing|
                tells(answer, stands) ==> #[trigger] places_owner(
                    *old(self),
                    kind,
                    owner_session_id,
                    request_id,
                    stands,
                    *final(self),
                    action,
                ),
    {
        match answer {
            LineageAnswer::Known(Some(_)) => self.announce(kind, &owner_session_id, &request_id),
            LineageAnswer::Known(None) => self.to_loop_top(),
            LineageAnswer::Fetch(id) => {
                self.phase = RunPhase::PlacingOwner {
                    kind,
                    owner_session_id,
                    request_id,
                    fetching: id.clone(),
                };
                RunAction::FetchSession(id)
            },
        }
    }

    fn on_request(
        &mut self,
        kind: CallerResponseBlockerKind,
        owner_session_id: String,
        request_id: String,
    ) -> (action: RunAction)
        requires
            old(self).wf(),
        ensures
            final(self).wf(),
            request_comes(
                *old(self),
                kind,
                owner_session_id,
                request_id,
                *final(self),
                action,
            ),
    {
        let answer = self.lineage.eligible_owner_depth(
            self.session_id.as_str(),
            owner_session_id.as_str(),
        );
        let ghost mid = *self;
        let ghost stands = standing(mid.lineage.known(), mid.session_id@, owner_session_id@);
        let action = self.place_owner(kind, owner_session_id, request_id, answer);
        proof {
            assert(places_owner(
                mid,
                kind,
                owner_session_id,
                request_id,
                stands,
                *self,
                action,
            ));
            assert(self.lineage == mid.lineage);
        }
        action
    }

    /// Take a session that places the owner of an announced request.
    pub fn on_owner_session(&mut self, reply: Result<Session, ApiError>) -> (action: RunAction)
        requires
            old(self).wf(),
            old(self).phase is PlacingOwner,
        ensures
            final(self).wf(),
            owner_session_taken(*old(self), reply, *final(self), action),
    {
        let mut phase = RunPhase::Done;
        core::mem::swap(&mut self.phase, &mut phase);
        match phase {
            RunPhase::PlacingOwner { kind, owner_session_id, request_id, fetching } => {
                let answer = self.lineage.settle(
                    self.session_id.as_str(),
                    owner_session_id.as_str(),
                    fetching.as_str(),
                    reply,
                );
                let ghost mid = *self;
                let ghost stands = standing(
                    mid.lineage.known(),
                    mid.session_id@,
                    owner_session_id@,
                );
                match answer {
                    Ok(answer) => {
                        let action = self.place_owner(kind, owner_session_id, request_id, answer);
                        proof {
                            if reply is Ok {
                                assert(places_owner(
                                    mid,
                                    kind,
                                    owner_session_id,
                                    request_id,
                                    stands,
                                    *self,
                                    action,
                                ));
                            } else {
                                assert(places_owner(
                                    mid,
                                    kind,
                                    owner_session_id,
                                    request_id,
                                    Standing::Outside,
                                    *self,
                                    action,
                                ));
                            }
                            assert(self.lineage == mid.lineage);
                        }
                        action
                    },
                    Err(_) => self.announce(kind, &owner_session_id, &request_id),
                }
            },
            _ => unreached(),
        }
    }

    /// The next poll is due: all pending requests are looked at.
    pub fn on_poll_tick(&mut self) -> (action: RunAction)
        requires
            old(self).wf(),
            old(self).phase is Waiting,
        ensures
            final(self).wf(),
            poll_begins(*old(self), *final(self), action),
    {
        self.start_scan(BlockerDetectionSource::Fallback, ScanPurpose::Poll)
    }

    /// Take the status of the session on a poll that found no request.
    pub fn on_poll_status(&mut self, reply: Result<SessionStatusInfo, ApiError>, now: u64) -> (
    action: RunAction)
        requires
            old(self).wf(),
            old(self).phase is PollStatus,
        ensures
            final(self).wf(),
            poll_status_taken(
                *old(self),
                old(self).phase->PollStatus_scan,
                reply,
                now,
                *final(self),
                action,
            ),
    {
        let mut phase = RunPhase::Done;
        core::mem::swap(&mut self.phase, &mut phase);
        let scan = match phase {
            RunPhase::PollStatus { scan } => scan,
            _ => unreached(),
        };
        match reply {
            Ok(SessionStatusInfo::Idle) => {
                let may_complete = if !self.has_new_work() || self.observed_busy {
                    true
                } else if let Some(deadline) = self.idle_grace_deadline {
                    if now as u128 >= deadline {
                        true
                    } else {
                        self.awaiting_idle_grace_check = true;
                        false
                    }
                } else {
                    false
                };
                let sse_active = self.sse_active;
                let evaluation = evaluate_idle_completion(
                    &mut self.monitor,
                    &mut self.latch,
                    scan,
                    true,
                    may_complete,
                    sse_active,
                );
                self.settle(evaluation)
            },
            Ok(_) => {
                self.latch.observe_poll_scan(&scan);
                self.note_progress(now);
                self.to_loop_top()
            },
            Err(_) => {
                self.latch.observe_poll_scan(&scan);
                self.monitor.reset_completion_candidate();
                self.to_loop_top()
            },
        }
    }

    /// The grace period is over: the status of the session is read again.
    pub fn on_grace_elapsed(&mut self) -> (action: RunAction)
        requires
            old(self).wf(),
            old(self).phase is Waiting,
        ensures
            final(self).wf(),
            grace_elapses(*old(self), *final(self), action),
    {
        self.awaiting_idle_grace_check = false;
        self.phase = RunPhase::GraceStatus;
        RunAction::ReadStatus
    }

    /// Take the status of the session when the grace period is over.
    pub fn on_grace_status(&mut self, reply: Result<SessionStatusInfo, ApiError>, now: u64) -> (
    action: RunAction)
        requires
            old(self).wf(),
            old(self).phase is GraceStatus,
        ensures
            final(self).wf(),
            grace_status_taken(*old(self), reply, now, *final(self), action),
    {
        match reply {
            Ok(SessionStatusInfo::Idle) => {
                self.start_scan(BlockerDetectionSource::Fallback, ScanPurpose::IdleGrace)
            },
            Ok(_) => {
                self.last_activity = now;
                self.observed_busy = true;
                self.monitor.reset_on_root_progress();
                self.to_loop_top()
            },
            Err(_) => self.to_loop_top(),
        }
    }

    // -----------------------------------------------------------------------
    // The command
    // -----------------------------------------------------------------------
    /// The command came back.
    pub fn on_command_result(&mut self, result: CommandResult, now: u64) -> (action: RunAction)
        requires
            old(self).wf(),
            old(self).phase is Waiting,
            old(self).command_active,
        ensures
            final(self).wf(),
            command_returns(*old(self), result, now, *final(self), action),
    {
        match result {
            CommandResult::Completed => {
                self.idle_grace_deadline = Some(now as u128 + self.limits.idle_grace as u128);
                self.command_active = false;
                self.to_loop_top()
            },
            CommandResult::Panicked(text) => {
                self.fail(ToolError::Internal(cat2("Command task panicked: ", text.as_str())))
            },
            CommandResult::Failed(error) => {
                if error.is_validation_error() || error.is_not_found() {
                    let mut text = self.dispatch_failure_text();
                    text.append(error.text.as_str());
                    return self.fail(ToolError::InvalidInput(text));
                }
                if error.kind != ApiErrorKind::Transport {
                    let mut text = self.dispatch_failure_text();
                    text.append(error.text.as_str());
                    return self.fail(ToolError::Internal(text));
                }
                if self.observed_busy {
                    return self.go_on_without_command(error);
                }
                self.phase = RunPhase::CommandStatus { error };
                RunAction::ReadStatus
            },
        }
    }

    fn dispatch_failure_text(&self) -> (r: String)
        ensures
            r@ == dispatch_failure(*self),
    {
        match &self.command {
            Some(command) => cat3("Failed to dispatch command '", command.as_str(), "': "),
            None => cat3("Failed to dispatch command '", "unknown", "': "),
        }
    }

    fn go_on_without_command(&mut self, error: ApiError) -> (action: RunAction)
        requires
            old(self).wf(),
        ensures
            final(self).wf(),
            goes_on_without_command(*old(self), error, *final(self), action),
    {
        self.warnings.push(
            cat2(
                "OpenCode command transport error after start evidence; continuing supervision: ",
                error.text.as_str(),
            ),
        );
        self.command_active = false;
        self.to_loop_top()
    }

    fn command_never_started(&mut self, error: ApiError) -> (action: RunAction)
        requires
            old(self).wf(),
        ensures
            final(self).wf(),
            command_never_started(*old(self), error, *final(self), action),
    {
        let mut text = self.dispatch_failure_text();
        text.append("transport error before session start evidence: ");
        text.append(error.text.as_str());
        self.fail(ToolError::Internal(text))
    }

    /// Take the status of the session after the command was lost on the way.
    pub fn on_command_status(&mut self, reply: Result<SessionStatusInfo, ApiError>, now: u64) -> (
    action: RunAction)
        requires
            old(self).wf(),
            old(self).phase is CommandStatus,
        ensures
            final(self).wf(),
            command_status_taken(
                *old(self),
                old(self).phase->CommandStatus_error,
                reply,
                now,
                *final(self),
                action,
            ),
    {
        let mut phase = RunPhase::Done;
        core::mem::swap(&mut self.phase, &mut phase);
        match phase {
            RunPhase::CommandStatus { error } => {
                if let Ok(status) = reply {
                    if status.is_busy_like() {
                        self.observed_busy = true;
                        self.last_activity = now;
                        self.awaiting_idle_grace_check = false;
                        return self.go_on_without_command(error);
                    }
                }
                if self.window.is_some() {
                    self.phase = RunPhase::CommandTranscript { error };
                    return RunAction::ReadTranscript;
                }
                self.command_never_started(error)
            },
            _ => unreached(),
        }
    }

    /// Take the transcript after the command was lost on the way.
    pub fn on_transcript(&mut self, reply: Result<Vec<Message>, ApiError>, now: u64) -> (action:
        RunAction)
        requires
            old(self).wf(),
            old(self).phase is CommandTranscript,
        ensures
            final(self).wf(),
            command_transcript_taken(
                *old(self),
                old(self).phase->CommandTranscript_error,
                reply,
                now,
                *final(self),
                action,
            ),
    {
        let mut phase = RunPhase::Done;
        core::mem::swap(&mut self.phase, &mut phase);
        match phase {
            RunPhase::CommandTranscript { error } => {
                let seen = match (&reply, &self.window) {
                    (Ok(messages), Some(window)) => {
                        transcript_indicates_command_dispatch(messages, window)
                    },
                    _ => false,
                };
                if !seen {
                    return self.command_never_started(error);
                }
                if self.idle_grace_deadline.is_none() {
                    self.idle_grace_deadline = Some(now as u128 + self.limits.idle_grace as u128);
                }
                self.last_activity = now;
                self.go_on_without_command(error)
            },
            _ => unreached(),
        }
    }

    // -----------------------------------------------------------------------
    // The end
    // -----------------------------------------------------------------------
    fn step_finalization(&mut self, finalization: Finalization, step: FinalizeStep) -> (action:
        RunAction)
        requires
            old(self).wf(),
            finalization.wf(),
        ensures
            final(self).wf(),
            final_steps(finalization, step, *final(self), action),
    {
        match step {
            FinalizeStep::ReadMessages { delay_ms } => {
                self.phase = RunPhase::Finalizing(finalization);
                RunAction::ReadMessages { delay_ms }
            },
            FinalizeStep::Summarize { provider_id, model_id } => {
                self.phase = RunPhase::Finalizing(finalization);
                RunAction::Summarize { provider_id, model_id }
            },
            FinalizeStep::Finished(result) => {
                self.phase = RunPhase::Done;
                RunAction::Return(result)
            },
        }
    }

    /// Take the assistant's text of a finished session, if there is any.
    pub fn on_final_messages(&mut self, reply: Result<Option<String>, ApiError>) -> (action:
        RunAction)
        requires
            old(self).wf(),
            old(self).phase is Finalizing,
            old(self).phase->Finalizing_0.stage is Reading,
        ensures
            final(self).wf(),
            final_messages_taken(*old(self), reply, *final(self), action),
    {
        let mut phase = RunPhase::Done;
        core::mem::swap(&mut self.phase, &mut phase);
        match phase {
            RunPhase::Finalizing(finalization) => {
                let mut finalization = finalization;
                let step = finalization.on_messages(reply);
                let ghost next = finalization;
                let action = self.step_finalization(finalization, step);
                assert(final_steps(next, step, *self, action));
                action
            },
            _ => unreached(),
        }
    }

    /// Take the answer to the request to have the context summarized.
    pub fn on_summarized(&mut self, reply: Result<(), ApiError>) -> (action: RunAction)
        requires
            old(self).wf(),
            old(self).phase is Finalizing,
            old(self).phase->Finalizing_0.stage is Summarizing,
        ensures
            final(self).wf(),
            final_summary_taken(*old(self), reply, *final(self), action),
    {
        let mut phase = RunPhase::Done;
        core::mem::swap(&mut self.phase, &mut phase);
        match phase {
            RunPhase::Finalizing(finalization) => {
                let mut finalization = finalization;
                let step = finalization.on_summarized(reply);
                self.step_finalization(finalization, step)
            },
            _ => unreached(),
        }
    }
}

} // verus!
