//! Responding to permission and question requests, and watching the session afterwards.

use crate::api::ApiError;
use crate::api::PermissionRequest;
use crate::api::QuestionRequest;
use crate::api::Session;
use crate::blockers::CallerResponseBlockerKind;
use crate::blockers::CallerResponseBlockerPayload;
use crate::errors::ToolError;
use crate::outcome::RunOutcome;
use crate::scan::permission_payloads;
use crate::scan::question_payloads;
use crate::scan::warned;
use crate::scan::PermissionPreflightMode;
use crate::selection::listing_taken;
use crate::selection::selection_session_taken;
use crate::selection::RequestSelection;
use crate::selection::SelectionStep;
use crate::text::cat2;
use crate::text::cat3;
use crate::text::cat5;
use crate::text::join;
use crate::text::joined;
use crate::text::same_text;
use crate::text::views;
use crate::types::OrchestratorRunInput;
use crate::types::OrchestratorRunOutput;
use crate::types::PermissionReply;
use crate::types::QuestionAction;
use crate::types::RespondPermissionInput;
use crate::types::RespondQuestionInput;
use crate::types::RunStatus;
use vstd::pervasive::unreached;
use vstd::prelude::*;

verus! {

/// The permission that is answered.
pub struct ChosenPermission {
    pub id: String,
    pub permission: String,
    pub patterns: Vec<String>,
}

/// What a permission response waits for.
pub enum PermissionStage {
    /// The list of permissions.
    Listing,
    /// A session that places the owner of a permission.
    Selecting,
    /// The assistant's text before the reply.
    ReadingBaseline { chosen: ChosenPermission },
    /// The reply to be accepted.
    Replying { chosen: ChosenPermission, baseline: Option<String> },
    /// The outcome of watching the session.
    Running { chosen: ChosenPermission, baseline: Option<String> },
    /// Nothing: it is over.
    Done,
}

/// A permission response on its way.
pub struct PermissionResponse {
    pub session_id: String,
    pub wanted: Option<String>,
    pub reply: PermissionReply,
    pub message: Option<String>,
    pub selection: RequestSelection,
    /// What the caller should know of the response itself.
    pub warnings: Vec<String>,
    pub stage: PermissionStage,
}

/// What a response needs next.
pub enum RespondAction {
    /// List all pending permissions.
    ListPermissions,
    /// List all pending questions.
    ListQuestions,
    /// Fetch a session.
    FetchSession(String),
    /// Read the transcript for the assistant's text.
    ReadBaseline,
    /// Reply to a permission request.
    ReplyPermission { request_id: String, reply: PermissionReply, message: Option<String> },
    /// Answer a question request.
    ReplyQuestion { request_id: String, answers: Vec<Vec<String>> },
    /// Reject a question request.
    RejectQuestion { request_id: String },
    /// Watch the session as `run` does.
    Run { input: OrchestratorRunInput, mode: PermissionPreflightMode },
    /// Hand this back to the caller.
    Return(Result<RunOutcome, ToolError>),
}

/// Whether the response ends with this internal error.
pub open spec fn response_breaks(action: RespondAction, text: Seq<char>) -> bool {
    action matches RespondAction::Return(Err(error)) && error.is_internal(text)
}

/// Whether the response ends with this error about the input.
pub open spec fn response_refuses(action: RespondAction, text: Seq<char>) -> bool {
    action matches RespondAction::Return(Err(error)) && error.is_invalid_input(text)
}

/// The input with which the session is watched afterwards.
pub open spec fn watches(input: OrchestratorRunInput, session_id: String, wait: Option<bool>) -> bool {
    input == (OrchestratorRunInput {
        session_id: Some(session_id),
        command: None,
        agent: None,
        message: None,
        wait_for_activity: wait,
    })
}

fn watch_input(session_id: String, wait: Option<bool>) -> (r: OrchestratorRunInput)
    ensures
        watches(r, session_id, wait),
{
    OrchestratorRunInput {
        session_id: Some(session_id),
        command: None,
        agent: None,
        message: None,
        wait_for_activity: wait,
    }
}

// ---------------------------------------------------------------------------
// Permissions
// ---------------------------------------------------------------------------
/// Goes on with the permission to answer: before a rejection the assistant's text is read, else the
/// reply is sent.
pub open spec fn permission_chosen(
    s: PermissionResponse,
    chosen: ChosenPermission,
    after: PermissionResponse,
    action: RespondAction,
) -> bool {
    if s.reply == PermissionReply::Reject {
        &&& after == (PermissionResponse {
            stage: PermissionStage::ReadingBaseline { chosen },
            ..s
        })
        &&& action is ReadBaseline
    } else {
        replies_permission(s, chosen, None, after, action)
    }
}

/// Sends the reply.
pub open spec fn replies_permission(
    s: PermissionResponse,
    chosen: ChosenPermission,
    baseline: Option<String>,
    after: PermissionResponse,
    action: RespondAction,
) -> bool {
    &&& after == (PermissionResponse {
        message: after.message,
        stage: PermissionStage::Replying { chosen, baseline },
        ..s
    })
    &&& action == (RespondAction::ReplyPermission {
        request_id: chosen.id,
        reply: s.reply,
        message: s.message,
    })
}

/// Goes on from a step of the selection.
pub open spec fn permission_selects(
    s: PermissionResponse,
    step: SelectionStep,
    after: PermissionResponse,
    action: RespondAction,
) -> bool {
    match step {
        SelectionStep::FetchSession(id) => {
            &&& after == (PermissionResponse { stage: PermissionStage::Selecting, ..s })
            &&& action == RespondAction::FetchSession(id)
        },
        SelectionStep::Chosen(request) => match request {
            CallerResponseBlockerPayload::Permission(permission) => permission_chosen(
                s,
                ChosenPermission {
                    id: permission.id,
                    permission: permission.permission,
                    patterns: permission.patterns,
                },
                after,
                action,
            ),
            CallerResponseBlockerPayload::Question(_) => false,
        },
        SelectionStep::Failed(error) => {
            &&& after == (PermissionResponse { stage: PermissionStage::Done, ..s })
            &&& action == RespondAction::Return(Err(error))
        },
    }
}

/// What follows from the list of permissions. If the server cannot make sense of its own state, a
/// request that the caller named is answered all the same, with a warning.
pub open spec fn permission_listing_taken(
    s: PermissionResponse,
    reply: Result<Vec<PermissionRequest>, ApiError>,
    after: PermissionResponse,
    action: RespondAction,
) -> bool {
    match reply {
        Ok(permissions) => exists|mid: PermissionResponse, step: SelectionStep|
            {
                &&& mid == (PermissionResponse {
                    selection: mid.selection,
                    stage: PermissionStage::Done,
                    ..s
                })
                &&& listing_taken(
                    s.selection,
                    permission_payloads(permissions@),
                    mid.selection,
                    step,
                )
                &&& s.selection.chooses_as_asked(step)
                &&& #[trigger] permission_selects(mid, step, after, action)
            },
        Err(error) => if !error.validation_error() {
            after.stage is Done && response_breaks(
                action,
                "Failed to list permissions: "@ + error.text@,
            )
        } else {
            match s.wanted {
                Some(id) => exists|mid: PermissionResponse, chosen: ChosenPermission|
                    {
                        &&& mid == (PermissionResponse {
                            warnings: mid.warnings,
                            stage: PermissionStage::Done,
                            ..s
                        })
                        &&& warned(
                            s.warnings@,
                            mid.warnings@,
                            seq![
                                "Permission validation failed for request '"@ + id@ + "' ("@
                                    + error.text@
                                    + "); submitting reply using the provided request id."@,
                            ],
                        )
                        &&& chosen.id == id
                        &&& chosen.permission@ == "unknown"@
                        &&& chosen.patterns@.len() == 0
                        &&& #[trigger] permission_chosen(mid, chosen, after, action)
                    },
                None => after.stage is Done && response_refuses(
                    action,
                    "Unable to discover a pending permission for session '"@ + s.session_id@
                        + "': permission state could not be listed (HTTP 400). Permission state may be stale or malformed. Retry with permission_request_id (from run) if available; otherwise reopen the session or start a new one."@,
                ),
            }
        },
    }
}

/// The assistant's text before a rejection, as far as it could be read.
pub open spec fn baseline_of(reply: Result<Option<String>, ApiError>) -> Option<String> {
    match reply {
        Ok(text) => text,
        Err(_) => None,
    }
}

/// The warnings about the attempt to read the assistant's text before a rejection.
pub open spec fn baseline_warnings(reply: Result<Option<String>, ApiError>) -> Seq<Seq<char>> {
    match reply {
        Ok(_) => seq![],
        Err(error) => seq!["Failed to fetch baseline messages: "@ + error.text@],
    }
}

/// Whether a rejection left the session without new text: it completed, and its text is missing or what
/// it was before.
pub open spec fn stale_after_reject(
    s: PermissionResponse,
    output: OrchestratorRunOutput,
    baseline: Option<String>,
) -> bool {
    &&& s.reply == PermissionReply::Reject
    &&& output.status == RunStatus::Completed
    &&& output.response is None || (baseline is Some && output.response->Some_0@
        == baseline->Some_0@)
}

/// The warning about a rejection that left the session without new text.
pub open spec fn rejection_warning(chosen: ChosenPermission) -> Seq<char> {
    "Permission rejected for '"@ + chosen.permission@ + "'. Patterns: "@ + if chosen.patterns@.len()
        == 0 {
        "(none)"@
    } else {
        joined(views(chosen.patterns@), ", "@)
    } + ". Session stopped without generating a new assistant response."@
}

/// What is handed back of the outcome of watching the session: the warnings about the response itself
/// are added, and text from before a rejection is dropped.
pub open spec fn permission_run_taken(
    s: PermissionResponse,
    chosen: ChosenPermission,
    baseline: Option<String>,
    result: Result<RunOutcome, ToolError>,
    action: RespondAction,
) -> bool {
    match result {
        Err(error) => action == RespondAction::Return(Err(error)),
        Ok(outcome) => {
            let stale = stale_after_reject(s, outcome.output, baseline);
            let added = views(s.warnings@) + if stale {
                seq![rejection_warning(chosen)]
            } else {
                seq![]
            };
            &&& action matches RespondAction::Return(Ok(handed))
            &&& handed.log_meta == outcome.log_meta
            &&& handed.output == (OrchestratorRunOutput {
                response: if stale {
                    None
                } else {
                    outcome.output.response
                },
                warnings: handed.output.warnings,
                ..outcome.output
            })
            &&& warned(outcome.output.warnings@, handed.output.warnings@, added)
        },
    }
}

/// A permission response that was just begun: it holds what the caller gave, and the pending permissions
/// are listed first.
pub open spec fn permission_begun(
    input: RespondPermissionInput,
    s: PermissionResponse,
    action: RespondAction,
) -> bool {
    &&& s.session_id == input.session_id
    &&& s.wanted == input.permission_request_id
    &&& s.reply == input.reply
    &&& s.message == input.message
    &&& s.selection.root == input.session_id
    &&& s.selection.wanted == input.permission_request_id
    &&& s.selection.kind == CallerResponseBlockerKind::Permission
    &&& s.selection.lineage.known() == Map::<Seq<char>, Option<Seq<char>>>::empty()
    &&& s.warnings@.len() == 0
    &&& s.stage is Listing
    &&& action is ListPermissions
}

/// What follows from a session that places the owner of a permission.
pub open spec fn permission_session_taken(
    s: PermissionResponse,
    reply: Result<Session, ApiError>,
    after: PermissionResponse,
    action: RespondAction,
) -> bool {
    exists|mid: PermissionResponse, step: SelectionStep|
        {
            &&& mid == (PermissionResponse {
                selection: mid.selection,
                stage: PermissionStage::Done,
                ..s
            })
            &&& selection_session_taken(s.selection, reply, mid.selection, step)
            &&& s.selection.chooses_as_asked(step)
            &&& #[trigger] permission_selects(mid, step, after, action)
        }
}

/// What follows from the assistant's text before a rejection; without it the response goes on with a
/// warning.
pub open spec fn baseline_taken(
    s: PermissionResponse,
    reply: Result<Option<String>, ApiError>,
    after: PermissionResponse,
    action: RespondAction,
) -> bool {
    exists|mid: PermissionResponse|
        {
            &&& mid == (PermissionResponse {
                warnings: mid.warnings,
                stage: PermissionStage::Done,
                ..s
            })
            &&& warned(s.warnings@, mid.warnings@, baseline_warnings(reply))
            &&& #[trigger] replies_permission(
                mid,
                s.stage->ReadingBaseline_chosen,
                baseline_of(reply),
                after,
                action,
            )
        }
}

/// What follows from the answer to the reply: once it was accepted the session is watched.
pub open spec fn permission_reply_taken(
    s: PermissionResponse,
    reply: Result<(), ApiError>,
    after: PermissionResponse,
    action: RespondAction,
) -> bool {
    match reply {
        Ok(_) => {
            &&& after == (PermissionResponse {
                stage: PermissionStage::Running {
                    chosen: s.stage->Replying_chosen,
                    baseline: s.stage->Replying_baseline,
                },
                ..s
            })
            &&& action matches RespondAction::Run { input, mode }
            &&& mode == PermissionPreflightMode::RespondPermissionContinuation
            &&& watches(
                input,
                s.session_id,
                if s.reply == PermissionReply::Reject {
                    None
                } else {
                    Some(true)
                },
            )
        },
        Err(error) => {
            &&& after.stage is Done
            &&& if error.not_found() {
                response_refuses(
                    action,
                    "Permission request '"@ + s.stage->Replying_chosen.id@
                        + "' was not found or is no longer pending (HTTP 404). It may be stale. Re-run orchestrator_run(session_id='"@
                        + s.session_id@
                        + "') to get the latest permission_request_id and retry."@,
                )
            } else {
                response_breaks(action, "Failed to reply to permission: "@ + error.text@)
            }
        },
    }
}

impl PermissionResponse {
    /// The parts of the state agree with each other.
    pub open spec fn wf(&self) -> bool {
        &&& self.selection.wf()
        &&& self.selection.kind == CallerResponseBlockerKind::Permission
        &&& self.selection.root == self.session_id
        &&& self.selection.wanted == self.wanted
        &&& self.stage is Listing ==> self.selection.stage is Listing
        &&& self.stage is Selecting ==> self.selection.stage is Placing && forall|i: int|
            0 <= i < self.selection.stage->sweep.pending@.len() ==> (
            #[trigger] self.selection.stage->sweep.pending@[i]).asks()
                == CallerResponseBlockerKind::Permission
    }

    /// Start to respond: the pending permissions are listed first.
    pub fn begin(input: RespondPermissionInput) -> (r: (Self, RespondAction))
        ensures
            r.0.wf(),
            permission_begun(input, r.0, r.1),
            r.0.session_id == input.session_id,
            r.0.wanted == input.permission_request_id,
            r.0.reply == input.reply,
            r.0.message == input.message,
            r.0.selection.lineage.known() == Map::<Seq<char>, Option<Seq<char>>>::empty(),
            r.0.warnings@.len() == 0,
            r.0.stage is Listing,
            r.1 is ListPermissions,
    {
        let selection = RequestSelection::begin(
            CallerResponseBlockerKind::Permission,
            input.session_id.clone(),
            crate::text::copy_optional(&input.permission_request_id),
        );
        (
            PermissionResponse {
                session_id: input.session_id,
                wanted: input.permission_request_id,
                reply: input.reply,
                message: input.message,
                selection,
                warnings: Vec::new(),
                stage: PermissionStage::Listing,
            },
            RespondAction::ListPermissions,
        )
    }

    fn send_reply(&mut self, chosen: ChosenPermission, baseline: Option<String>) -> (action:
        RespondAction)
        ensures
            replies_permission(*old(self), chosen, baseline, *final(self), action),
    {
        let mut message: Option<String> = None;
        core::mem::swap(&mut self.message, &mut message);
        let request_id = chosen.id.clone();
        self.stage = PermissionStage::Replying { chosen, baseline };
        RespondAction::ReplyPermission { request_id, reply: self.reply, message }
    }

    fn choose_permission(&mut self, chosen: ChosenPermission) -> (action: RespondAction)
        ensures
            permission_chosen(*old(self), chosen, *final(self), action),
    {
        if self.reply == PermissionReply::Reject {
            self.stage = PermissionStage::ReadingBaseline { chosen };
            RespondAction::ReadBaseline
        } else {
            self.send_reply(chosen, None)
        }
    }

    fn step_selection(&mut self, step: SelectionStep) -> (action: RespondAction)
        requires
            old(self).selection.wf(),
            old(self).stage is Done,
            step matches SelectionStep::Chosen(request) ==> request.asks()
                == CallerResponseBlockerKind::Permission,
        ensures
            permission_selects(*old(self), step, *final(self), action),
    {
        match step {
            SelectionStep::FetchSession(id) => {
                self.stage = PermissionStage::Selecting;
                RespondAction::FetchSession(id)
            },
            SelectionStep::Chosen(request) => {
                match request {
                    CallerResponseBlockerPayload::Permission(permission) => {
                        self.choose_permission(
                            ChosenPermission {
                                id: permission.id,
                                permission: permission.permission,
                                patterns: permission.patterns,
                            },
                        )
                    },
                    CallerResponseBlockerPayload::Question(_) => unreached(),
                }
            },
            SelectionStep::Failed(error) => RespondAction::Return(Err(error)),
        }
    }

    /// Take the list of permissions.
    pub fn on_permissions(&mut self, reply: Result<Vec<PermissionRequest>, ApiError>) -> (action:
        RespondAction)
        requires
            old(self).wf(),
            old(self).stage is Listing,
        ensures
            final(self).wf(),
            permission_listing_taken(*old(self), reply, *final(self), action),
    {
        self.stage = PermissionStage::Done;
        match reply {
            Ok(permissions) => {
                let mut pending: Vec<CallerResponseBlockerPayload> = Vec::new();
                for permission in it: permissions
                    invariant
                        it.seq() == permissions@,
                        pending@ == permission_payloads(permissions@).take(it.index() as int),
                {
                    pending.push(CallerResponseBlockerPayload::Permission(permission));
                    assert(pending@ == permission_payloads(permissions@).take(it.index() + 1));
                }
                assert(pending@ == permission_payloads(permissions@));
                let ghost requests = pending@;
                let step = self.selection.on_listed(pending);
                let ghost mid = *self;
                proof {
                    lemma_listing_keeps_kind(old(self).selection, requests, mid.selection, step);
                }
                let action = self.step_selection(step);
                assert(permission_selects(mid, step, *self, action));
                action
            },
            Err(error) => {
                if !error.is_validation_error() {
                    return RespondAction::Return(
                        Err(
                            ToolError::Internal(
                                cat2("Failed to list permissions: ", error.text.as_str()),
                            ),
                        ),
                    );
                }
                match &self.wanted {
                    Some(id) => {
                        let warning = cat5(
                            "Permission validation failed for request '",
                            id.as_str(),
                            "' (",
                            error.text.as_str(),
                            "); submitting reply using the provided request id.",
                        );
                        let chosen = ChosenPermission {
                            id: id.clone(),
                            permission: "unknown".to_string(),
                            patterns: Vec::new(),
                        };
                        self.warnings.push(warning);
                        let ghost mid = *self;
                        let action = self.choose_permission(chosen);
                        assert(permission_chosen(mid, chosen, *self, action));
                        action
                    },
                    None => {
                        let text = cat3(
                            "Unable to discover a pending permission for session '",
                            self.session_id.as_str(),
                            "': permission state could not be listed (HTTP 400). Permission state may be stale or malformed. Retry with permission_request_id (from run) if available; otherwise reopen the session or start a new one.",
                        );
                        RespondAction::Return(Err(ToolError::InvalidInput(text)))
                    },
                }
            },
        }
    }

    /// Take a session that places the owner of a permission.
    pub fn on_session(&mut self, reply: Result<Session, ApiError>) -> (action: RespondAction)
        requires
            old(self).wf(),
            old(self).stage is Selecting,
        ensures
            final(self).wf(),
            permission_session_taken(*old(self), reply, *final(self), action),
    {
        self.stage = PermissionStage::Done;
        let step = self.selection.on_session(reply);
        let ghost mid = *self;
        proof {
            lemma_session_keeps_kind(old(self).selection, reply, mid.selection, step);
        }
        let action = self.step_selection(step);
        assert(permission_selects(mid, step, *self, action));
        action
    }

    /// Take the assistant's text before a rejection; without it the response goes on with a warning.
    pub fn on_baseline(&mut self, reply: Result<Option<String>, ApiError>) -> (action: RespondAction)
        requires
            old(self).wf(),
            old(self).stage is ReadingBaseline,
        ensures
            final(self).wf(),
            baseline_taken(*old(self), reply, *final(self), action),
    {
        let mut stage = PermissionStage::Done;
        core::mem::swap(&mut self.stage, &mut stage);
        match stage {
            PermissionStage::ReadingBaseline { chosen } => {
                let baseline = match reply {
                    Ok(text) => text,
                    Err(error) => {
                        self.warnings.push(
                            cat2("Failed to fetch baseline messages: ", error.text.as_str()),
                        );
                        None
                    },
                };
                let ghost mid = *self;
                let action = self.send_reply(chosen, baseline);
                assert(replies_permission(mid, chosen, baseline, *self, action));
                action
            },
            _ => unreached(),
        }
    }

    /// Take the answer to the reply. Once it was accepted the session is watched; after anything but a
    /// rejection the watch waits for activity.
    pub fn on_replied(&mut self, reply: Result<(), ApiError>) -> (action: RespondAction)
        requires
            old(self).wf(),
            old(self).stage is Replying,
        ensures
            final(self).wf(),
            permission_reply_taken(*old(self), reply, *final(self), action),
    {
        let mut stage = PermissionStage::Done;
        core::mem::swap(&mut self.stage, &mut stage);
        match stage {
            PermissionStage::Replying { chosen, baseline } => {
                match reply {
                    Ok(_) => {
                        self.stage = PermissionStage::Running { chosen, baseline };
                        let wait = if self.reply == PermissionReply::Reject {
                            None
                        } else {
                            Some(true)
                        };
                        RespondAction::Run {
                            input: watch_input(self.session_id.clone(), wait),
                            mode: PermissionPreflightMode::RespondPermissionContinuation,
                        }
                    },
                    Err(error) => {
                        if error.is_not_found() {
                            let text = cat5(
                                "Permission request '",
                                chosen.id.as_str(),
                                "' was not found or is no longer pending (HTTP 404). It may be stale. Re-run orchestrator_run(session_id='",
                                self.session_id.as_str(),
                                "') to get the latest permission_request_id and retry.",
                            );
                            RespondAction::Return(Err(ToolError::InvalidInput(text)))
                        } else {
                            RespondAction::Return(
                                Err(
                                    ToolError::Internal(
                                        cat2(
                                            "Failed to reply to permission: ",
                                            error.text.as_str(),
                                        ),
                                    ),
                                ),
                            )
                        }
                    },
                }
            },
            _ => unreached(),
        }
    }

    /// Take the outcome of watching the session.
    pub fn on_run(&mut self, result: Result<RunOutcome, ToolError>) -> (action: RespondAction)
        requires
            old(self).wf(),
            old(self).stage is Running,
        ensures
            final(self).wf(),
            final(self).stage is Done,
            permission_run_taken(
                *old(self),
                old(self).stage->Running_chosen,
                old(self).stage->Running_baseline,
                result,
                action,
            ),
    {
        let mut stage = PermissionStage::Done;
        core::mem::swap(&mut self.stage, &mut stage);
        let outcome = match result {
            Ok(outcome) => outcome,
            Err(error) => {
                return RespondAction::Return(Err(error));
            },
        };
        match stage {
            PermissionStage::Running { chosen, baseline } => {
                let RunOutcome { output, log_meta } = outcome;
                let ghost unchanged = output;
                let mut output = output;
                let mut added: Vec<String> = Vec::new();
                core::mem::swap(&mut self.warnings, &mut added);
                let ghost own = added@;
                output.warnings.append(&mut added);
                assert(views(output.warnings@) == views(unchanged.warnings@) + views(own));
                let unchanged_text = match (&output.response, &baseline) {
                    (None, _) => true,
                    (Some(text), Some(earlier)) => same_text(text.as_str(), earlier.as_str()),
                    (Some(_), None) => false,
                };
                if self.reply == PermissionReply::Reject && output.status == RunStatus::Completed
                    && unchanged_text {
                    output.response = None;
                    let patterns = if chosen.patterns.len() == 0 {
                        "(none)".to_string()
                    } else {
                        join(&chosen.patterns, ", ")
                    };
                    let warning = cat5(
                        "Permission rejected for '",
                        chosen.permission.as_str(),
                        "'. Patterns: ",
                        patterns.as_str(),
                        ". Session stopped without generating a new assistant response.",
                    );
                    let ghost merged = output.warnings@;
                    output.warnings.push(warning);
                    assert(views(output.warnings@) == views(merged).push(warning@));
                    assert(views(output.warnings@) == views(unchanged.warnings@) + (views(own)
                        + seq![rejection_warning(chosen)]));
                } else {
                    assert(views(own) + Seq::<Seq<char>>::empty() == views(own));
                }
                RespondAction::Return(Ok(RunOutcome { output, log_meta }))
            },
            _ => unreached(),
        }
    }
}

/// After a rejection that brought no new text, the caller gets no text and is told of the rejection last.
pub proof fn law_rejection_hides_old_text(
    s: PermissionResponse,
    chosen: ChosenPermission,
    baseline: Option<String>,
    outcome: RunOutcome,
    action: RespondAction,
)
    requires
        permission_run_taken(s, chosen, baseline, Ok(outcome), action),
        s.reply == PermissionReply::Reject,
        outcome.output.status == RunStatus::Completed,
        outcome.output.response is None || (baseline is Some && outcome.output.response->Some_0@
            == baseline->Some_0@),
    ensures
        action matches RespondAction::Return(Ok(handed)) && {
            &&& handed.output.response is None
            &&& handed.output.warnings@.len() > 0
            &&& handed.output.warnings@.last()@ == rejection_warning(chosen)
        },
{
    if let RespondAction::Return(Ok(handed)) = action {
        let shown = views(handed.output.warnings@);
        let added = views(s.warnings@) + seq![rejection_warning(chosen)];
        assert(shown == views(outcome.output.warnings@) + added);
        assert(shown.last() == added.last());
    }
}

/// In all other cases the caller gets the outcome of watching the session as it is, with the warnings
/// about the response itself behind its own.
pub proof fn law_other_outcomes_are_kept(
    s: PermissionResponse,
    chosen: ChosenPermission,
    baseline: Option<String>,
    outcome: RunOutcome,
    action: RespondAction,
)
    requires
        permission_run_taken(s, chosen, baseline, Ok(outcome), action),
        !stale_after_reject(s, outcome.output, baseline),
    ensures
        action matches RespondAction::Return(Ok(handed)) && {
            &&& handed.log_meta == outcome.log_meta
            &&& handed.output == (OrchestratorRunOutput {
                warnings: handed.output.warnings,
                ..outcome.output
            })
            &&& views(handed.output.warnings@) == views(outcome.output.warnings@) + views(
                s.warnings@,
            )
        },
{
    assert(views(s.warnings@) + Seq::<Seq<char>>::empty() == views(s.warnings@));
}

// ---------------------------------------------------------------------------
// Questions
// ---------------------------------------------------------------------------
/// What a question response waits for.
pub enum QuestionStage {
    /// The list of questions.
    Listing,
    /// A session that places the owner of a question.
    Selecting,
    /// The reply or the rejection to be accepted.
    Responding,
    /// The outcome of watching the session.
    Running,
    /// Nothing: it is over.
    Done,
}

/// A question response on its way.
pub struct QuestionResponse {
    pub session_id: String,
    pub wanted: Option<String>,
    pub action: QuestionAction,
    pub answers: Vec<Vec<String>>,
    pub selection: RequestSelection,
    pub stage: QuestionStage,
}

/// Goes on with the question request to respond to: a reply needs answers.
pub open spec fn question_chosen(
    s: QuestionResponse,
    request_id: String,
    after: QuestionResponse,
    action: RespondAction,
) -> bool {
    if s.action == QuestionAction::Reject {
        &&& after == (QuestionResponse { stage: QuestionStage::Responding, ..s })
        &&& action == (RespondAction::RejectQuestion { request_id })
    } else if s.answers@.len() == 0 {
        &&& after == (QuestionResponse { stage: QuestionStage::Done, ..s })
        &&& response_refuses(action, "answers is required when action=reply"@)
    } else {
        &&& after == (QuestionResponse {
            answers: after.answers,
            stage: QuestionStage::Responding,
            ..s
        })
        &&& action == (RespondAction::ReplyQuestion { request_id, answers: s.answers })
    }
}

/// Goes on from a step of the selection.
pub open spec fn question_selects(
    s: QuestionResponse,
    step: SelectionStep,
    after: QuestionResponse,
    action: RespondAction,
) -> bool {
    match step {
        SelectionStep::FetchSession(id) => {
            &&& after == (QuestionResponse { stage: QuestionStage::Selecting, ..s })
            &&& action == RespondAction::FetchSession(id)
        },
        SelectionStep::Chosen(request) => question_chosen(s, request.request_id(), after, action),
        SelectionStep::Failed(error) => {
            &&& after == (QuestionResponse { stage: QuestionStage::Done, ..s })
            &&& action == RespondAction::Return(Err(error))
        },
    }
}

/// A question response that was just begun: it holds what the caller gave, and the pending questions are
/// listed first.
pub open spec fn question_begun(
    input: RespondQuestionInput,
    s: QuestionResponse,
    action: RespondAction,
) -> bool {
    &&& s.session_id == input.session_id
    &&& s.wanted == input.question_request_id
    &&& s.action == input.action
    &&& s.answers == input.answers
    &&& s.selection.root == input.session_id
    &&& s.selection.wanted == input.question_request_id
    &&& s.selection.kind == CallerResponseBlockerKind::Question
    &&& s.selection.lineage.known() == Map::<Seq<char>, Option<Seq<char>>>::empty()
    &&& s.stage is Listing
    &&& action is ListQuestions
}

/// What follows from the list of questions.
pub open spec fn question_listing_taken(
    s: QuestionResponse,
    reply: Result<Vec<QuestionRequest>, ApiError>,
    after: QuestionResponse,
    action: RespondAction,
) -> bool {
    match reply {
        Ok(questions) => exists|mid: QuestionResponse, step: SelectionStep|
            {
                &&& mid == (QuestionResponse {
                    selection: mid.selection,
                    stage: QuestionStage::Done,
                    ..s
                })
                &&& listing_taken(
                    s.selection,
                    question_payloads(questions@),
                    mid.selection,
                    step,
                )
                &&& s.selection.chooses_as_asked(step)
                &&& #[trigger] question_selects(mid, step, after, action)
            },
        Err(error) => after.stage is Done && response_breaks(
            action,
            "Failed to list questions: "@ + error.text@,
        ),
    }
}

/// What follows from a session that places the owner of a question.
pub open spec fn question_session_taken(
    s: QuestionResponse,
    reply: Result<Session, ApiError>,
    after: QuestionResponse,
    action: RespondAction,
) -> bool {
    exists|mid: QuestionResponse, step: SelectionStep|
        {
            &&& mid == (QuestionResponse {
                selection: mid.selection,
                stage: QuestionStage::Done,
                ..s
            })
            &&& selection_session_taken(s.selection, reply, mid.selection, step)
            &&& s.selection.chooses_as_asked(step)
            &&& #[trigger] question_selects(mid, step, after, action)
        }
}

/// What follows from the answer to the reply or the rejection: once it was accepted the session is watched.
pub open spec fn question_response_taken(
    s: QuestionResponse,
    reply: Result<(), ApiError>,
    after: QuestionResponse,
    action: RespondAction,
) -> bool {
    match reply {
        Ok(_) => {
            &&& after == (QuestionResponse { stage: QuestionStage::Running, ..s })
            &&& action matches RespondAction::Run { input, mode }
            &&& mode == PermissionPreflightMode::Strict
            &&& watches(
                input,
                s.session_id,
                if s.action == QuestionAction::Reject {
                    None
                } else {
                    Some(true)
                },
            )
        },
        Err(error) => after.stage is Done && response_breaks(
            action,
            if s.action == QuestionAction::Reject {
                "Failed to reject question: "@ + error.text@
            } else {
                "Failed to reply to question: "@ + error.text@
            },
        ),
    }
}

/// The outcome of watching the session is handed back as it is.
pub open spec fn question_run_taken(
    result: Result<RunOutcome, ToolError>,
    after: QuestionResponse,
    action: RespondAction,
) -> bool {
    after.stage is Done && action == RespondAction::Return(result)
}

impl QuestionResponse {
    /// The parts of the state agree with each other.
    pub open spec fn wf(&self) -> bool {
        &&& self.selection.wf()
        &&& self.selection.kind == CallerResponseBlockerKind::Question
        &&& self.selection.root == self.session_id
        &&& self.selection.wanted == self.wanted
        &&& self.stage is Listing ==> self.selection.stage is Listing
        &&& self.stage is Selecting ==> self.selection.stage is Placing
    }

    /// Start to respond: the pending questions are listed first.
    pub fn begin(input: RespondQuestionInput) -> (r: (Self, RespondAction))
        ensures
            r.0.wf(),
            question_begun(input, r.0, r.1),
            r.0.session_id == input.session_id,
            r.0.wanted == input.question_request_id,
            r.0.action == input.action,
            r.0.answers == input.answers,
            r.0.selection.lineage.known() == Map::<Seq<char>, Option<Seq<char>>>::empty(),
            r.0.stage is Listing,
            r.1 is ListQuestions,
    {
        let selection = RequestSelection::begin(
            CallerResponseBlockerKind::Question,
            input.session_id.clone(),
            crate::text::copy_optional(&input.question_request_id),
        );
        (
            QuestionResponse {
                session_id: input.session_id,
                wanted: input.question_request_id,
                action: input.action,
                answers: input.answers,
                selection,
                stage: QuestionStage::Listing,
            },
            RespondAction::ListQuestions,
        )
    }

    fn choose_question(&mut self, request_id: String) -> (action: RespondAction)
        ensures
            question_chosen(*old(self), request_id, *final(self), action),
    {
        match self.action {
            QuestionAction::Reject => {
                self.stage = QuestionStage::Responding;
                RespondAction::RejectQuestion { request_id }
            },
            QuestionAction::Reply => {
                if self.answers.len() == 0 {
                    self.stage = QuestionStage::Done;
                    return RespondAction::Return(
                        Err(
                            ToolError::InvalidInput(
                                "answers is required when action=reply".to_string(),
                            ),
                        ),
                    );
                }
                let mut answers: Vec<Vec<String>> = Vec::new();
                core::mem::swap(&mut self.answers, &mut answers);
                self.stage = QuestionStage::Responding;
                RespondAction::ReplyQuestion { request_id, answers }
            },
        }
    }

    fn step_selection(&mut self, step: SelectionStep) -> (action: RespondAction)
        requires
            old(self).stage is Done,
        ensures
            question_selects(*old(self), step, *final(self), action),
    {
        match step {
            SelectionStep::FetchSession(id) => {
                self.stage = QuestionStage::Selecting;
                RespondAction::FetchSession(id)
            },
            SelectionStep::Chosen(request) => {
                let request_id = request.id().clone();
                self.choose_question(request_id)
            },
            SelectionStep::Failed(error) => RespondAction::Return(Err(error)),
        }
    }

    /// Take the list of questions.
    pub fn on_questions(&mut self, reply: Result<Vec<QuestionRequest>, ApiError>) -> (action:
        RespondAction)
        requires
            old(self).wf(),
            old(self).stage is Listing,
        ensures
            final(self).wf(),
            question_listing_taken(*old(self), reply, *final(self), action),
    {
        self.stage = QuestionStage::Done;
        match reply {
            Ok(questions) => {
                let mut pending: Vec<CallerResponseBlockerPayload> = Vec::new();
                for question in it: questions
                    invariant
                        it.seq() == questions@,
                        pending@ == question_payloads(questions@).take(it.index() as int),
                {
                    pending.push(CallerResponseBlockerPayload::Question(question));
                    assert(pending@ == question_payloads(questions@).take(it.index() + 1));
                }
                assert(pending@ == question_payloads(questions@));
                let step = self.selection.on_listed(pending);
                let ghost mid = *self;
                let action = self.step_selection(step);
                assert(question_selects(mid, step, *self, action));
                action
            },
            Err(error) => RespondAction::Return(
                Err(
                    ToolError::Internal(cat2("Failed to list questions: ", error.text.as_str())),
                ),
            ),
        }
    }

    /// Take a session that places the owner of a question.
    pub fn on_session(&mut self, reply: Result<Session, ApiError>) -> (action: RespondAction)
        requires
            old(self).wf(),
            old(self).stage is Selecting,
        ensures
            final(self).wf(),
            question_session_taken(*old(self), reply, *final(self), action),
    {
        self.stage = QuestionStage::Done;
        let step = self.selection.on_session(reply);
        let ghost mid = *self;
        let action = self.step_selection(step);
        assert(question_selects(mid, step, *self, action));
        action
    }

    /// Take the answer to the reply or the rejection. Once it was accepted the session is watched; after
    /// a reply the watch waits for activity.
    pub fn on_responded(&mut self, reply: Result<(), ApiError>) -> (action: RespondAction)
        requires
            old(self).wf(),
            old(self).stage is Responding,
        ensures
            final(self).wf(),
            question_response_taken(*old(self), reply, *final(self), action),
    {
        match reply {
            Ok(_) => {
                self.stage = QuestionStage::Running;
                let wait = match self.action {
                    QuestionAction::Reject => None,
                    QuestionAction::Reply => Some(true),
                };
                RespondAction::Run {
                    input: watch_input(self.session_id.clone(), wait),
                    mode: PermissionPreflightMode::Strict,
                }
            },
            Err(error) => {
                self.stage = QuestionStage::Done;
                let text = match self.action {
                    QuestionAction::Reject => cat2(
                        "Failed to reject question: ",
                        error.text.as_str(),
                    ),
                    QuestionAction::Reply => cat2(
                        "Failed to reply to question: ",
                        error.text.as_str(),
                    ),
                };
                RespondAction::Return(Err(ToolError::Internal(text)))
            },
        }
    }

    /// Take the outcome of watching the session, which is handed back as it is.
    pub fn on_run(&mut self, result: Result<RunOutcome, ToolError>) -> (action: RespondAction)
        requires
            old(self).wf(),
            old(self).stage is Running,
        ensures
            final(self).wf(),
            question_run_taken(result, *final(self), action),
            final(self).stage is Done,
            action == RespondAction::Return(result),
    {
        self.stage = QuestionStage::Done;
        RespondAction::Return(result)
    }
}

// ---------------------------------------------------------------------------
// Selections stay with one kind of request
// ---------------------------------------------------------------------------
proof fn lemma_eligible_from(
    pending: Seq<CallerResponseBlockerPayload>,
    depths: Seq<crate::scan::OwnerDepth>,
    kind: CallerResponseBlockerKind,
)
    requires
        forall|i: int| 0 <= i < pending.len() ==> (#[trigger] pending[i]).asks() == kind,
    ensures
        forall|i: int|
            0 <= i < crate::selection::eligible(pending, depths).len() ==> (
            #[trigger] crate::selection::eligible(pending, depths)[i]).asks() == kind,
    decreases pending.len(),
{
    if pending.len() > 0 {
        lemma_eligible_from(pending.drop_last(), depths, kind);
        assert(pending.last() == pending[pending.len() - 1]);
    }
}

proof fn lemma_narrow_keeps_kind(
    before: RequestSelection,
    known: crate::lineage::Parents,
    requests: Seq<CallerResponseBlockerPayload>,
    depths: Seq<crate::scan::OwnerDepth>,
    after: RequestSelection,
    step: SelectionStep,
    kind: CallerResponseBlockerKind,
)
    requires
        crate::selection::narrows(before, known, requests, depths, after, step),
        forall|i: int| 0 <= i < requests.len() ==> (#[trigger] requests[i]).asks() == kind,
        before.wanted is Some ==> requests.len() == 1,
    ensures
        after.kind == before.kind,
        after.root == before.root,
        after.wanted == before.wanted,
        step matches SelectionStep::Chosen(request) ==> request.asks() == kind,
        step is FetchSession ==> after.stage is Placing && forall|i: int|
            0 <= i < after.stage->sweep.pending@.len() ==> (
            #[trigger] after.stage->sweep.pending@[i]).asks() == kind,
{
    let all = crate::scan::filled(known, before.root@, requests, depths);
    lemma_eligible_from(requests, all, kind);
    if step is Chosen {
        if before.wanted is Some {
            assert(requests[0].asks() == kind);
        } else {
            assert(crate::selection::eligible(requests, all)[0].asks() == kind);
        }
    }
}

proof fn lemma_listing_keeps_kind(
    before: RequestSelection,
    pending: Seq<CallerResponseBlockerPayload>,
    after: RequestSelection,
    step: SelectionStep,
)
    requires
        listing_taken(before, pending, after, step),
        forall|i: int| 0 <= i < pending.len() ==> (#[trigger] pending[i]).asks() == before.kind,
    ensures
        after.kind == before.kind,
        after.root == before.root,
        after.wanted == before.wanted,
        step matches SelectionStep::Chosen(request) ==> request.asks() == before.kind,
        step is FetchSession ==> after.stage is Placing && forall|i: int|
            0 <= i < after.stage->sweep.pending@.len() ==> (
            #[trigger] after.stage->sweep.pending@[i]).asks() == before.kind,
{
    if before.wanted is Some {
        crate::selection::lemma_position(pending, before.wanted->Some_0@, 0);
    }
    match crate::selection::candidates(pending, before.wanted) {
        Some(requests) => {
            lemma_narrow_keeps_kind(
                before,
                before.lineage.known(),
                requests,
                Seq::empty(),
                after,
                step,
                before.kind,
            );
        },
        None => {},
    }
}

proof fn lemma_session_keeps_kind(
    before: RequestSelection,
    reply: Result<Session, ApiError>,
    after: RequestSelection,
    step: SelectionStep,
)
    requires
        before.wf(),
        before.stage is Placing,
        selection_session_taken(before, reply, after, step),
        forall|i: int|
            0 <= i < before.stage->sweep.pending@.len() ==> (
            #[trigger] before.stage->sweep.pending@[i]).asks() == before.kind,
    ensures
        after.kind == before.kind,
        after.root == before.root,
        after.wanted == before.wanted,
        step matches SelectionStep::Chosen(request) ==> request.asks() == before.kind,
        step is FetchSession ==> after.stage is Placing && forall|i: int|
            0 <= i < after.stage->sweep.pending@.len() ==> (
            #[trigger] after.stage->sweep.pending@[i]).asks() == before.kind,
{
    lemma_narrow_keeps_kind(
        before,
        crate::scan::known_after(before.lineage.known(), before.stage->fetching@, reply),
        before.stage->sweep.pending@,
        crate::scan::depths_after(before.stage->sweep.depths@, reply),
        after,
        step,
        before.kind,
    );
}

} // verus!
