//! What holds of every response to a request, from its input to its outcome.

use crate::api::ApiError;
use crate::api::ApiErrorKind;
use crate::api::PermissionRequest;
use crate::api::QuestionRequest;
use crate::api::Session;
use crate::blockers::CallerResponseBlockerPayload;
use crate::errors::ToolError;
use crate::lineage::law_standing_follows_the_parent;
use crate::outcome::RunOutcome;
use crate::respond::baseline_taken;
use crate::respond::permission_begun;
use crate::respond::permission_listing_taken;
use crate::respond::permission_reply_taken;
use crate::respond::permission_run_taken;
use crate::respond::permission_selects;
use crate::respond::permission_session_taken;
use crate::respond::question_begun;
use crate::respond::question_listing_taken;
use crate::respond::question_response_taken;
use crate::respond::question_run_taken;
use crate::respond::question_selects;
use crate::respond::question_session_taken;
use crate::respond::rejection_warning;
use crate::respond::ChosenPermission;
use crate::respond::PermissionResponse;
use crate::respond::PermissionStage;
use crate::respond::QuestionResponse;
use crate::respond::QuestionStage;
use crate::respond::RespondAction;
use crate::scan::filled;
use crate::scan::next_unknown;
use crate::scan::permission_payloads;
use crate::scan::question_payloads;
use crate::selection::candidates;
use crate::selection::law_discovered_choice_is_owed;
use crate::selection::law_named_choice_is_owed;
use crate::selection::lemma_position;
use crate::selection::listing_taken;
use crate::selection::selection_session_taken;
use crate::selection::RequestSelection;
use crate::selection::SelectionStep;
use crate::text::joined;
use crate::text::lemma_occurs_at_the_end;
use crate::text::lemma_occurs_between;
use crate::text::occurs_in;
use crate::text::views;
use crate::types::PermissionReply;
use crate::types::QuestionAction;
use crate::types::RespondPermissionInput;
use crate::types::RespondQuestionInput;
use crate::types::RunStatus;
use vstd::prelude::*;

verus! {

// ---------------------------------------------------------------------------
// Permission responses
// ---------------------------------------------------------------------------
/// Everything that can be handed to a permission response.
#[allow(inconsistent_fields)]
pub enum PermissionStimulus {
    Permissions { reply: Result<Vec<PermissionRequest>, ApiError> },
    OwnerSession { reply: Result<Session, ApiError> },
    Baseline { reply: Result<Option<String>, ApiError> },
    Replied { reply: Result<(), ApiError> },
    RunEnded { result: Result<RunOutcome, ToolError> },
}

/// What a permission response does with what it is handed.
pub open spec fn permission_steps(
    s: PermissionResponse,
    stimulus: PermissionStimulus,
    after: PermissionResponse,
    action: RespondAction,
) -> bool {
    match stimulus {
        PermissionStimulus::Permissions { reply } => s.stage is Listing && permission_listing_taken(
            s,
            reply,
            after,
            action,
        ),
        PermissionStimulus::OwnerSession { reply } => s.stage is Selecting
            && permission_session_taken(s, reply, after, action),
        PermissionStimulus::Baseline { reply } => s.stage is ReadingBaseline && baseline_taken(
            s,
            reply,
            after,
            action,
        ),
        PermissionStimulus::Replied { reply } => s.stage is Replying && permission_reply_taken(
            s,
            reply,
            after,
            action,
        ),
        PermissionStimulus::RunEnded { result } => s.stage is Running && after.stage is Done
            && permission_run_taken(
            s,
            s.stage->Running_chosen,
            s.stage->Running_baseline,
            result,
            action,
        ),
    }
}

/// A permission response on its way, from its input on: each state follows from the one before by what was
/// handed in there, and names the action next to it.
pub open spec fn is_permission_response(
    input: RespondPermissionInput,
    states: Seq<PermissionResponse>,
    stimuli: Seq<PermissionStimulus>,
    actions: Seq<RespondAction>,
) -> bool {
    &&& states.len() == stimuli.len() + 1
    &&& actions.len() == stimuli.len()
    &&& permission_begun(input, states[0], RespondAction::ListPermissions)
    &&& forall|i: int|
        0 <= i < stimuli.len() ==> #[trigger] permission_steps(
            states[i],
            stimuli[i],
            states[i + 1],
            actions[i],
        )
}

/// What a permission response keeps of its input as long as the reply is not sent.
spec fn holds_permission_input(input: RespondPermissionInput, s: PermissionResponse) -> bool {
    &&& s.session_id == input.session_id
    &&& s.wanted == input.permission_request_id
    &&& s.reply == input.reply
    &&& s.selection.wanted == input.permission_request_id
    &&& s.selection.root == input.session_id
    &&& s.stage is Listing || s.stage is Selecting || s.stage is ReadingBaseline ==> s.message
        == input.message
    &&& s.stage is ReadingBaseline ==> s.reply == PermissionReply::Reject
    &&& s.stage is ReadingBaseline && input.permission_request_id is Some
        ==> s.stage->ReadingBaseline_chosen.id@ == input.permission_request_id->Some_0@
}

/// The action that a step names is the caller's own.
spec fn acts_for_permission(input: RespondPermissionInput, action: RespondAction) -> bool {
    match action {
        RespondAction::ReplyPermission { request_id, reply, message } => {
            &&& reply == input.reply
            &&& message == input.message
            &&& input.permission_request_id is Some ==> request_id@
                == input.permission_request_id->Some_0@
        },
        RespondAction::Run { input: run, .. } => {
            &&& run.session_id == Some(input.session_id)
            &&& run.command is None && run.agent is None && run.message is None
            &&& run.wait_for_activity == if input.reply == PermissionReply::Reject {
                None
            } else {
                Some(true)
            }
        },
        RespondAction::ReadBaseline => input.reply == PermissionReply::Reject,
        RespondAction::ReplyQuestion { .. } => false,
        RespondAction::RejectQuestion { .. } => false,
        RespondAction::ListQuestions => false,
        _ => true,
    }
}

proof fn lemma_permission_selected(
    input: RespondPermissionInput,
    s: PermissionResponse,
    mid: PermissionResponse,
    step: SelectionStep,
    after: PermissionResponse,
    action: RespondAction,
)
    requires
        holds_permission_input(input, s),
        s.stage is Listing || s.stage is Selecting,
        mid == (PermissionResponse {
            selection: mid.selection,
            stage: PermissionStage::Done,
            ..s
        }),
        mid.selection.wanted == s.selection.wanted,
        mid.selection.root == s.selection.root,
        s.selection.chooses_as_asked(step),
        permission_selects(mid, step, after, action),
    ensures
        holds_permission_input(input, after),
        acts_for_permission(input, action),
{
}

proof fn lemma_permission_step(
    input: RespondPermissionInput,
    s: PermissionResponse,
    stimulus: PermissionStimulus,
    after: PermissionResponse,
    action: RespondAction,
)
    requires
        holds_permission_input(input, s),
        permission_steps(s, stimulus, after, action),
    ensures
        !(after.stage is Done) ==> holds_permission_input(input, after),
        acts_for_permission(input, action),
{
    match stimulus {
        PermissionStimulus::Permissions { reply } => {
            if let Ok(permissions) = reply {
                let (mid, step) = choose|mid: PermissionResponse, step: SelectionStep|
                    {
                        &&& mid == (PermissionResponse {
                            selection: mid.selection,
                            stage: PermissionStage::Done,
                            ..s
                        })
                        &&& listing_taken(
                            s.selection,
                            permission_payloads(permissions@),
                            mid.selection,
                            step,
                        )
                        &&& s.selection.chooses_as_asked(step)
                        &&& #[trigger] permission_selects(mid, step, after, action)
                    };
                lemma_permission_selected(input, s, mid, step, after, action);
            }
        },
        PermissionStimulus::OwnerSession { reply } => {
            let (mid, step) = choose|mid: PermissionResponse, step: SelectionStep|
                {
                    &&& mid == (PermissionResponse {
                        selection: mid.selection,
                        stage: PermissionStage::Done,
                        ..s
                    })
                    &&& selection_session_taken(s.selection, reply, mid.selection, step)
                    &&& s.selection.chooses_as_asked(step)
                    &&& #[trigger] permission_selects(mid, step, after, action)
                };
            lemma_permission_selected(input, s, mid, step, after, action);
        },
        _ => {},
    }
}

proof fn lemma_permission_input_is_held(
    input: RespondPermissionInput,
    states: Seq<PermissionResponse>,
    stimuli: Seq<PermissionStimulus>,
    actions: Seq<RespondAction>,
    i: int,
)
    requires
        is_permission_response(input, states, stimuli, actions),
        0 <= i < states.len(),
    ensures
        !(states[i].stage is Done) ==> holds_permission_input(input, states[i]),
    decreases i,
{
    if i > 0 {
        lemma_permission_input_is_held(input, states, stimuli, actions, i - 1);
        assert(permission_steps(
            states[i - 1],
            stimuli[i - 1],
            states[i - 1 + 1],
            actions[i - 1],
        ));
        lemma_permission_step(input, states[i - 1], stimuli[i - 1], states[i], actions[i - 1]);
    }
}

/// The reply that is sent is the caller's: once, always or reject as it was given, with the caller's
/// message, to the request that the caller named, if it named one. No question is ever answered.
pub proof fn law_reply_is_the_callers(
    input: RespondPermissionInput,
    states: Seq<PermissionResponse>,
    stimuli: Seq<PermissionStimulus>,
    actions: Seq<RespondAction>,
    i: int,
)
    requires
        is_permission_response(input, states, stimuli, actions),
        0 <= i < actions.len(),
    ensures
        actions[i] matches RespondAction::ReplyPermission { request_id, reply, message } ==> {
            &&& reply == input.reply
            &&& message == input.message
            &&& input.permission_request_id is Some ==> request_id@
                == input.permission_request_id->Some_0@
        },
        !(actions[i] is ReplyQuestion),
        !(actions[i] is RejectQuestion),
        actions[i] is ReadBaseline ==> input.reply == PermissionReply::Reject,
{
    lemma_permission_input_is_held(input, states, stimuli, actions, i);
    assert(permission_steps(states[i], stimuli[i], states[i + 1], actions[i]));
    lemma_permission_step(input, states[i], stimuli[i], states[i + 1], actions[i]);
}

/// After the reply the caller's session is watched and nothing else is asked of it: with a wait for activity
/// unless the reply was a rejection.
pub proof fn law_watch_follows_the_reply(
    input: RespondPermissionInput,
    states: Seq<PermissionResponse>,
    stimuli: Seq<PermissionStimulus>,
    actions: Seq<RespondAction>,
    i: int,
)
    requires
        is_permission_response(input, states, stimuli, actions),
        0 <= i < actions.len(),
    ensures
        actions[i] is Run <==> stimuli[i] is Replied && stimuli[i]->Replied_reply is Ok,
        actions[i] matches RespondAction::Run { input: run, mode } ==> {
            &&& run.session_id == Some(input.session_id)
            &&& run.command is None
            &&& run.agent is None
            &&& run.message is None
            &&& input.reply == PermissionReply::Reject ==> run.wait_for_activity is None
            &&& input.reply != PermissionReply::Reject ==> run.wait_for_activity == Some(true)
            &&& mode is RespondPermissionContinuation
        },
{
    lemma_permission_input_is_held(input, states, stimuli, actions, i);
    assert(permission_steps(states[i], stimuli[i], states[i + 1], actions[i]));
    lemma_permission_step(input, states[i], stimuli[i], states[i + 1], actions[i]);
}

/// How far a permission response has come.
spec fn permission_rank(stage: PermissionStage) -> int {
    match stage {
        PermissionStage::Listing => 0,
        PermissionStage::Selecting => 1,
        PermissionStage::ReadingBaseline { .. } => 2,
        PermissionStage::Replying { .. } => 3,
        PermissionStage::Running { .. } => 4,
        PermissionStage::Done => 5,
    }
}

proof fn lemma_permission_rank(
    input: RespondPermissionInput,
    states: Seq<PermissionResponse>,
    stimuli: Seq<PermissionStimulus>,
    actions: Seq<RespondAction>,
    i: int,
    j: int,
)
    requires
        is_permission_response(input, states, stimuli, actions),
        0 <= i <= j < states.len(),
    ensures
        permission_rank(states[i].stage) <= permission_rank(states[j].stage),
    decreases j - i,
{
    if i < j {
        lemma_permission_rank(input, states, stimuli, actions, i, j - 1);
        assert(permission_steps(
            states[j - 1],
            stimuli[j - 1],
            states[j - 1 + 1],
            actions[j - 1],
        ));
    }
}

/// At most one reply is sent, and the session is watched at most once.
pub proof fn law_one_reply_is_sent(
    input: RespondPermissionInput,
    states: Seq<PermissionResponse>,
    stimuli: Seq<PermissionStimulus>,
    actions: Seq<RespondAction>,
    i: int,
    j: int,
)
    requires
        is_permission_response(input, states, stimuli, actions),
        0 <= i < j < actions.len(),
    ensures
        !(actions[i] is ReplyPermission && actions[j] is ReplyPermission),
        !(actions[i] is Run && actions[j] is Run),
        actions[i] is Run ==> !(actions[j] is ReplyPermission),
{
    assert(permission_steps(states[i], stimuli[i], states[i + 1], actions[i]));
    assert(permission_steps(states[j], stimuli[j], states[j + 1], actions[j]));
    lemma_permission_rank(input, states, stimuli, actions, i + 1, j);
}

/// A pending permission of the caller's own session, named or alone, is replied to: at once, or after the
/// assistant's text was read if it is rejected.
pub proof fn law_own_permission_is_answered(
    input: RespondPermissionInput,
    s: PermissionResponse,
    permissions: Vec<PermissionRequest>,
    after: PermissionResponse,
    action: RespondAction,
)
    requires
        permission_begun(input, s, RespondAction::ListPermissions),
        permission_listing_taken(s, Ok(permissions), after, action),
        permissions@.len() == 1,
        permissions@[0].session_id@ == input.session_id@,
        input.permission_request_id is Some ==> input.permission_request_id->Some_0@
            == permissions@[0].id@,
    ensures
        input.reply != PermissionReply::Reject ==> action == (RespondAction::ReplyPermission {
            request_id: permissions@[0].id,
            reply: input.reply,
            message: input.message,
        }),
        input.reply == PermissionReply::Reject ==> action is ReadBaseline,
        input.reply == PermissionReply::Reject ==> after.stage is ReadingBaseline
            && after.stage->ReadingBaseline_chosen.id == permissions@[0].id
            && after.stage->ReadingBaseline_chosen.permission == permissions@[0].permission
            && after.stage->ReadingBaseline_chosen.patterns == permissions@[0].patterns,
{
    let pending = permission_payloads(permissions@);
    let (mid, step) = choose|mid: PermissionResponse, step: SelectionStep|
        {
            &&& mid == (PermissionResponse {
                selection: mid.selection,
                stage: PermissionStage::Done,
                ..s
            })
            &&& listing_taken(s.selection, pending, mid.selection, step)
            &&& s.selection.chooses_as_asked(step)
            &&& #[trigger] permission_selects(mid, step, after, action)
        };
    lemma_own_request_is_chosen(s.selection, pending, mid.selection, step);
}

proof fn lemma_own_request_is_chosen(
    s: RequestSelection,
    pending: Seq<CallerResponseBlockerPayload>,
    after: RequestSelection,
    step: SelectionStep,
)
    requires
        listing_taken(s, pending, after, step),
        pending.len() == 1,
        pending[0].owner()@ == s.root@,
        s.wanted is Some ==> s.wanted->Some_0@ == pending[0].request_id()@,
    ensures
        step == SelectionStep::Chosen(pending[0]),
{
    let known = s.lineage.known();
    let none = Seq::<Result<Option<usize>, ApiError>>::empty();
    let all = filled(known, s.root@, pending, none);
    law_standing_follows_the_parent(known, s.root@, s.root@, s.root@, s.root@);
    reveal_with_fuel(next_unknown, 3);
    assert(next_unknown(known, s.root@, pending, 0) is None);
    assert(all =~= seq![Ok::<Option<usize>, ApiError>(Some(0))]);
    if s.wanted is Some {
        lemma_position(pending, s.wanted->Some_0@, 0);
        assert(candidates(pending, s.wanted)->Some_0 =~= seq![pending[0]]);
        assert(pending =~= seq![pending[0]]);
        law_named_choice_is_owed(
            s.kind,
            s.root@,
            s.wanted->Some_0,
            pending[0],
            Ok(Some(0)),
            step,
        );
    } else {
        assert(crate::scan::in_tree(all, 0));
        law_discovered_choice_is_owed(s.kind, s.root@, pending, all, 0, step);
    }
}

/// What watching the session brought is handed back as it is, but for warnings about the response behind
/// its own, unless a rejection left a completed session without new text.
pub proof fn law_outcomes_are_kept(
    s: PermissionResponse,
    chosen: ChosenPermission,
    baseline: Option<String>,
    outcome: RunOutcome,
    action: RespondAction,
)
    requires
        permission_run_taken(s, chosen, baseline, Ok(outcome), action),
    ensures
        action is Return,
        action->Return_0 is Ok,
        ({
            let handed = action->Return_0->Ok_0;
            &&& handed.log_meta == outcome.log_meta
            &&& handed.output.session_id == outcome.output.session_id
            &&& handed.output.status == outcome.output.status
            &&& handed.output.partial_response == outcome.output.partial_response
            &&& handed.output.permission_request_id == outcome.output.permission_request_id
            &&& handed.output.permission_type == outcome.output.permission_type
            &&& handed.output.permission_patterns == outcome.output.permission_patterns
            &&& handed.output.question_request_id == outcome.output.question_request_id
            &&& handed.output.questions == outcome.output.questions
            &&& views(outcome.output.warnings@).is_prefix_of(views(handed.output.warnings@))
            &&& s.reply != PermissionReply::Reject || outcome.output.status != RunStatus::Completed
                || (outcome.output.response is Some && (baseline is None
                || outcome.output.response->Some_0@ != baseline->Some_0@)) ==> {
                &&& handed.output.response == outcome.output.response
                &&& views(handed.output.warnings@) == views(outcome.output.warnings@) + views(
                    s.warnings@,
                )
            }
            &&& s.reply == PermissionReply::Reject && outcome.output.status == RunStatus::Completed
                && (outcome.output.response is None || (baseline is Some
                && outcome.output.response->Some_0@ == baseline->Some_0@)) ==> {
                &&& handed.output.response is None
                &&& views(handed.output.warnings@) == views(outcome.output.warnings@) + views(
                    s.warnings@,
                ) + seq![rejection_warning(chosen)]
            }
        }),
{
    let handed = action->Return_0->Ok_0;
    assert(views(handed.output.warnings@).len() == handed.output.warnings@.len());
    assert(views(s.warnings@) + Seq::<Seq<char>>::empty() =~= views(s.warnings@));
    assert(views(outcome.output.warnings@) + (views(s.warnings@) + seq![rejection_warning(chosen)])
        =~= views(outcome.output.warnings@) + views(s.warnings@) + seq![rejection_warning(chosen)]);
}

/// A run that failed fails the response with the same error.
pub proof fn law_failed_runs_fail_the_response(
    s: PermissionResponse,
    chosen: ChosenPermission,
    baseline: Option<String>,
    error: ToolError,
    action: RespondAction,
)
    requires
        permission_run_taken(s, chosen, baseline, Err(error), action),
    ensures
        action == RespondAction::Return(Err(error)),
{
}

/// The warning about a rejection names the permission and all of its patterns.
pub proof fn law_rejection_is_named(chosen: ChosenPermission)
    ensures
        chosen.patterns@.len() == 0 ==> rejection_warning(chosen) == "Permission rejected for '"@
            + chosen.permission@ + "'. Patterns: "@ + "(none)"@
            + ". Session stopped without generating a new assistant response."@,
        chosen.patterns@.len() > 0 ==> rejection_warning(chosen) == "Permission rejected for '"@
            + chosen.permission@ + "'. Patterns: "@ + joined(views(chosen.patterns@), ", "@)
            + ". Session stopped without generating a new assistant response."@,
{
}

/// What the assistant had said before a rejection is what was read, if it could be read; else a warning
/// says so.
pub proof fn law_baseline_is_what_was_read(
    s: PermissionResponse,
    reply: Result<Option<String>, ApiError>,
    after: PermissionResponse,
    action: RespondAction,
)
    requires
        s.stage is ReadingBaseline,
        baseline_taken(s, reply, after, action),
    ensures
        action is ReplyPermission,
        action->ReplyPermission_request_id == s.stage->ReadingBaseline_chosen.id,
        after.stage is Replying,
        after.stage->Replying_chosen == s.stage->ReadingBaseline_chosen,
        reply matches Ok(text) ==> after.stage->Replying_baseline == text,
        reply is Err ==> after.stage->Replying_baseline is None,
        after.warnings@.len() == s.warnings@.len() + if reply is Err {
            1int
        } else {
            0
        },
        views(s.warnings@).is_prefix_of(views(after.warnings@)),
{
    assert(views(after.warnings@).len() == after.warnings@.len());
}

// ---------------------------------------------------------------------------
// Question responses
// ---------------------------------------------------------------------------
/// Everything that can be handed to a question response.
#[allow(inconsistent_fields)]
pub enum QuestionStimulus {
    Questions { reply: Result<Vec<QuestionRequest>, ApiError> },
    OwnerSession { reply: Result<Session, ApiError> },
    Responded { reply: Result<(), ApiError> },
    RunEnded { result: Result<RunOutcome, ToolError> },
}

/// What a question response does with what it is handed.
pub open spec fn question_steps(
    s: QuestionResponse,
    stimulus: QuestionStimulus,
    after: QuestionResponse,
    action: RespondAction,
) -> bool {
    match stimulus {
        QuestionStimulus::Questions { reply } => s.stage is Listing && question_listing_taken(
            s,
            reply,
            after,
            action,
        ),
        QuestionStimulus::OwnerSession { reply } => s.stage is Selecting && question_session_taken(
            s,
            reply,
            after,
            action,
        ),
        QuestionStimulus::Responded { reply } => s.stage is Responding && question_response_taken(
            s,
            reply,
            after,
            action,
        ),
        QuestionStimulus::RunEnded { result } => s.stage is Running && question_run_taken(
            result,
            after,
            action,
        ),
    }
}

/// A question response on its way, from its input on: each state follows from the one before by what was
/// handed in there, and names the action next to it.
pub open spec fn is_question_response(
    input: RespondQuestionInput,
    states: Seq<QuestionResponse>,
    stimuli: Seq<QuestionStimulus>,
    actions: Seq<RespondAction>,
) -> bool {
    &&& states.len() == stimuli.len() + 1
    &&& actions.len() == stimuli.len()
    &&& question_begun(input, states[0], RespondAction::ListQuestions)
    &&& forall|i: int|
        0 <= i < stimuli.len() ==> #[trigger] question_steps(
            states[i],
            stimuli[i],
            states[i + 1],
            actions[i],
        )
}

/// What a question response keeps of its input.
spec fn holds_question_input(input: RespondQuestionInput, s: QuestionResponse) -> bool {
    &&& s.session_id == input.session_id
    &&& s.wanted == input.question_request_id
    &&& s.action == input.action
    &&& s.selection.wanted == input.question_request_id
    &&& s.selection.root == input.session_id
    &&& s.stage is Listing || s.stage is Selecting ==> s.answers == input.answers
}

/// The action that a step names is the caller's own.
spec fn acts_for_question(input: RespondQuestionInput, action: RespondAction) -> bool {
    match action {
        RespondAction::ReplyQuestion { request_id, answers } => {
            &&& input.action == QuestionAction::Reply
            &&& answers == input.answers
            &&& answers@.len() > 0
            &&& input.question_request_id is Some ==> request_id@
                == input.question_request_id->Some_0@
        },
        RespondAction::RejectQuestion { request_id } => {
            &&& input.action == QuestionAction::Reject
            &&& input.question_request_id is Some ==> request_id@
                == input.question_request_id->Some_0@
        },
        RespondAction::Run { input: run, .. } => {
            &&& run.session_id == Some(input.session_id)
            &&& run.command is None && run.agent is None && run.message is None
            &&& run.wait_for_activity == if input.action == QuestionAction::Reject {
                None
            } else {
                Some(true)
            }
        },
        RespondAction::ReplyPermission { .. } => false,
        _ => true,
    }
}

proof fn lemma_question_selected(
    input: RespondQuestionInput,
    s: QuestionResponse,
    mid: QuestionResponse,
    step: SelectionStep,
    after: QuestionResponse,
    action: RespondAction,
)
    requires
        holds_question_input(input, s),
        s.stage is Listing || s.stage is Selecting,
        mid == (QuestionResponse { selection: mid.selection, stage: QuestionStage::Done, ..s }),
        mid.selection.wanted == s.selection.wanted,
        mid.selection.root == s.selection.root,
        s.selection.chooses_as_asked(step),
        question_selects(mid, step, after, action),
    ensures
        holds_question_input(input, after),
        acts_for_question(input, action),
{
}

proof fn lemma_question_step(
    input: RespondQuestionInput,
    s: QuestionResponse,
    stimulus: QuestionStimulus,
    after: QuestionResponse,
    action: RespondAction,
)
    requires
        holds_question_input(input, s),
        question_steps(s, stimulus, after, action),
        stimulus is RunEnded ==> after.stage is Done,
    ensures
        !(after.stage is Done) ==> holds_question_input(input, after),
        acts_for_question(input, action),
{
    match stimulus {
        QuestionStimulus::Questions { reply } => {
            if let Ok(questions) = reply {
                let (mid, step) = choose|mid: QuestionResponse, step: SelectionStep|
                    {
                        &&& mid == (QuestionResponse {
                            selection: mid.selection,
                            stage: QuestionStage::Done,
                            ..s
                        })
                        &&& listing_taken(
                            s.selection,
                            question_payloads(questions@),
                            mid.selection,
                            step,
                        )
                        &&& s.selection.chooses_as_asked(step)
                        &&& #[trigger] question_selects(mid, step, after, action)
                    };
                lemma_question_selected(input, s, mid, step, after, action);
            }
        },
        QuestionStimulus::OwnerSession { reply } => {
            let (mid, step) = choose|mid: QuestionResponse, step: SelectionStep|
                {
                    &&& mid == (QuestionResponse {
                        selection: mid.selection,
                        stage: QuestionStage::Done,
                        ..s
                    })
                    &&& selection_session_taken(s.selection, reply, mid.selection, step)
                    &&& s.selection.chooses_as_asked(step)
                    &&& #[trigger] question_selects(mid, step, after, action)
                };
            lemma_question_selected(input, s, mid, step, after, action);
        },
        _ => {},
    }
}

proof fn lemma_question_input_is_held(
    input: RespondQuestionInput,
    states: Seq<QuestionResponse>,
    stimuli: Seq<QuestionStimulus>,
    actions: Seq<RespondAction>,
    i: int,
)
    requires
        is_question_response(input, states, stimuli, actions),
        0 <= i < states.len(),
    ensures
        !(states[i].stage is Done) ==> holds_question_input(input, states[i]),
    decreases i,
{
    if i > 0 {
        lemma_question_input_is_held(input, states, stimuli, actions, i - 1);
        assert(question_steps(states[i - 1], stimuli[i - 1], states[i - 1 + 1], actions[i - 1]));
        lemma_question_step(input, states[i - 1], stimuli[i - 1], states[i], actions[i - 1]);
    }
}

/// What is sent is what the caller decided: answers only if it replies, and exactly its answers; a rejection
/// only if it rejects; either to the request that it named, if it named one. No permission is answered.
pub proof fn law_answer_is_the_callers(
    input: RespondQuestionInput,
    states: Seq<QuestionResponse>,
    stimuli: Seq<QuestionStimulus>,
    actions: Seq<RespondAction>,
    i: int,
)
    requires
        is_question_response(input, states, stimuli, actions),
        0 <= i < actions.len(),
    ensures
        actions[i] matches RespondAction::ReplyQuestion { request_id, answers } ==> {
            &&& input.action == QuestionAction::Reply
            &&& answers == input.answers
            &&& input.answers@.len() > 0
            &&& input.question_request_id is Some ==> request_id@
                == input.question_request_id->Some_0@
        },
        actions[i] matches RespondAction::RejectQuestion { request_id } ==> {
            &&& input.action == QuestionAction::Reject
            &&& input.question_request_id is Some ==> request_id@
                == input.question_request_id->Some_0@
        },
        !(actions[i] is ReplyPermission),
        !(actions[i] is ReadBaseline),
{
    lemma_question_input_is_held(input, states, stimuli, actions, i);
    assert(question_steps(states[i], stimuli[i], states[i + 1], actions[i]));
    lemma_question_step(input, states[i], stimuli[i], states[i + 1], actions[i]);
}

/// After the response the caller's session is watched and nothing else is asked of it: with a wait for
/// activity after a reply alone. What that brings is handed back as it is.
pub proof fn law_watch_follows_the_answer(
    input: RespondQuestionInput,
    states: Seq<QuestionResponse>,
    stimuli: Seq<QuestionStimulus>,
    actions: Seq<RespondAction>,
    i: int,
)
    requires
        is_question_response(input, states, stimuli, actions),
        0 <= i < actions.len(),
    ensures
        actions[i] is Run <==> stimuli[i] is Responded && stimuli[i]->Responded_reply is Ok,
        actions[i] matches RespondAction::Run { input: run, mode } ==> {
            &&& run.session_id == Some(input.session_id)
            &&& run.command is None
            &&& run.agent is None
            &&& run.message is None
            &&& input.action == QuestionAction::Reject ==> run.wait_for_activity is None
            &&& input.action == QuestionAction::Reply ==> run.wait_for_activity == Some(true)
            &&& mode is Strict
        },
        stimuli[i] matches QuestionStimulus::RunEnded { result } ==> actions[i]
            == RespondAction::Return(result),
{
    lemma_question_input_is_held(input, states, stimuli, actions, i);
    assert(question_steps(states[i], stimuli[i], states[i + 1], actions[i]));
    lemma_question_step(input, states[i], stimuli[i], states[i + 1], actions[i]);
}

/// Once a request is chosen, a reply with answers is sent with exactly those to exactly that request, a reply
/// without answers is refused, and a rejection is sent to that request.
pub proof fn law_chosen_question_is_answered(
    s: QuestionResponse,
    request: QuestionRequest,
    after: QuestionResponse,
    action: RespondAction,
)
    requires
        question_selects(
            s,
            SelectionStep::Chosen(CallerResponseBlockerPayload::Question(request)),
            after,
            action,
        ),
    ensures
        s.action == QuestionAction::Reply && s.answers@.len() > 0 ==> action
            == (RespondAction::ReplyQuestion { request_id: request.id, answers: s.answers }),
        s.action == QuestionAction::Reply && s.answers@.len() == 0 ==> action is Return
            && action->Return_0 is Err && action->Return_0->Err_0 is InvalidInput,
        s.action == QuestionAction::Reject ==> action == (RespondAction::RejectQuestion {
            request_id: request.id,
        }),
{
}

/// A pending question of the caller's own session, named or alone, is answered with the caller's answers, or
/// rejected if the caller rejects it.
pub proof fn law_own_question_is_answered(
    input: RespondQuestionInput,
    s: QuestionResponse,
    questions: Vec<QuestionRequest>,
    after: QuestionResponse,
    action: RespondAction,
)
    requires
        question_begun(input, s, RespondAction::ListQuestions),
        question_listing_taken(s, Ok(questions), after, action),
        questions@.len() == 1,
        questions@[0].session_id@ == input.session_id@,
        input.question_request_id is Some ==> input.question_request_id->Some_0@
            == questions@[0].id@,
    ensures
        input.action == QuestionAction::Reply && input.answers@.len() > 0 ==> action
            == (RespondAction::ReplyQuestion {
            request_id: questions@[0].id,
            answers: input.answers,
        }),
        input.action == QuestionAction::Reject ==> action == (RespondAction::RejectQuestion {
            request_id: questions@[0].id,
        }),
        input.action == QuestionAction::Reply && input.answers@.len() == 0 ==> action is Return
            && action->Return_0 is Err,
{
    let pending = question_payloads(questions@);
    let (mid, step) = choose|mid: QuestionResponse, step: SelectionStep|
        {
            &&& mid == (QuestionResponse {
                selection: mid.selection,
                stage: QuestionStage::Done,
                ..s
            })
            &&& listing_taken(s.selection, pending, mid.selection, step)
            &&& s.selection.chooses_as_asked(step)
            &&& #[trigger] question_selects(mid, step, after, action)
        };
    lemma_own_request_is_chosen(s.selection, pending, mid.selection, step);
}

/// Once a permission is chosen, it is replied to with the caller's reply and message, or, before a rejection,
/// the assistant's text is read first; its type and patterns are kept for the warning.
pub proof fn law_chosen_permission_is_answered(
    s: PermissionResponse,
    request: PermissionRequest,
    after: PermissionResponse,
    action: RespondAction,
)
    requires
        permission_selects(
            s,
            SelectionStep::Chosen(CallerResponseBlockerPayload::Permission(request)),
            after,
            action,
        ),
    ensures
        s.reply != PermissionReply::Reject ==> action == (RespondAction::ReplyPermission {
            request_id: request.id,
            reply: s.reply,
            message: s.message,
        }),
        s.reply == PermissionReply::Reject ==> action is ReadBaseline && after.message == s.message
            && after.stage is ReadingBaseline && after.stage->ReadingBaseline_chosen.id == request.id
            && after.stage->ReadingBaseline_chosen.permission == request.permission
            && after.stage->ReadingBaseline_chosen.patterns == request.patterns,
{
}

/// At most one response is sent.
pub proof fn law_one_answer_is_sent(
    input: RespondQuestionInput,
    states: Seq<QuestionResponse>,
    stimuli: Seq<QuestionStimulus>,
    actions: Seq<RespondAction>,
    i: int,
    j: int,
)
    requires
        is_question_response(input, states, stimuli, actions),
        0 <= i < j < actions.len(),
        actions[i] is ReplyQuestion || actions[i] is RejectQuestion,
    ensures
        !(actions[j] is ReplyQuestion),
        !(actions[j] is RejectQuestion),
{
    assert(question_steps(states[i], stimuli[i], states[i + 1], actions[i]));
    assert(question_steps(states[j], stimuli[j], states[j + 1], actions[j]));
    lemma_question_rank(input, states, stimuli, actions, i + 1, j);
}

spec fn question_rank(stage: QuestionStage) -> int {
    match stage {
        QuestionStage::Listing => 0,
        QuestionStage::Selecting => 1,
        QuestionStage::Responding => 2,
        QuestionStage::Running => 3,
        QuestionStage::Done => 4,
    }
}

proof fn lemma_question_rank(
    input: RespondQuestionInput,
    states: Seq<QuestionResponse>,
    stimuli: Seq<QuestionStimulus>,
    actions: Seq<RespondAction>,
    i: int,
    j: int,
)
    requires
        is_question_response(input, states, stimuli, actions),
        0 <= i <= j < states.len(),
    ensures
        question_rank(states[i].stage) <= question_rank(states[j].stage),
    decreases j - i,
{
    if i < j {
        lemma_question_rank(input, states, stimuli, actions, i, j - 1);
        assert(question_steps(states[j - 1], stimuli[j - 1], states[j - 1 + 1], actions[j - 1]));
    }
}

// ---------------------------------------------------------------------------
// Failures on the way
// ---------------------------------------------------------------------------
/// Where the permissions cannot be listed, the failure is passed on with what the server said, unless the server
/// cannot make sense of its own state. In that case a permission that the caller named is answered under that
/// name, with one warning that names it and says what the server said; and without a name the caller is
/// asked for one.
pub proof fn law_unlisted_permissions_need_a_name(
    s: PermissionResponse,
    error: ApiError,
    after: PermissionResponse,
    action: RespondAction,
)
    requires
        permission_listing_taken(s, Err(error), after, action),
    ensures
        error.kind != ApiErrorKind::Http(400) ==> fails_with(action, error.text@, false),
        error.kind == ApiErrorKind::Http(400) && s.wanted is None ==> fails_with(
            action,
            s.session_id@,
            true,
        ),
        error.kind == ApiErrorKind::Http(400) && s.wanted is Some ==> {
            let id = s.wanted->Some_0;
            &&& s.reply != PermissionReply::Reject ==> action == (RespondAction::ReplyPermission {
                request_id: id,
                reply: s.reply,
                message: s.message,
            })
            &&& s.reply == PermissionReply::Reject ==> {
                &&& action is ReadBaseline
                &&& after.message == s.message
                &&& after.stage is ReadingBaseline
                &&& after.stage->ReadingBaseline_chosen.id == id
                &&& after.stage->ReadingBaseline_chosen.permission@ == "unknown"@
                &&& after.stage->ReadingBaseline_chosen.patterns@.len() == 0
            }
            &&& views(after.warnings@).len() == s.warnings@.len() + 1
            &&& views(s.warnings@).is_prefix_of(views(after.warnings@))
            &&& occurs_in(id@, views(after.warnings@).last())
            &&& occurs_in(error.text@, views(after.warnings@).last())
        },
{
    lemma_occurs_at_the_end("Failed to list permissions: "@, error.text@);
    if error.kind == ApiErrorKind::Http(400) {
        if let Some(id) = s.wanted {
            let front = "Permission validation failed for request '"@;
            let tail = "); submitting reply using the provided request id."@;
            lemma_occurs_between(front, id@, "' ("@ + error.text@ + tail);
            lemma_occurs_between(front + id@ + "' ("@, error.text@, tail);
            assert(front + id@ + ("' ("@ + error.text@ + tail) =~= front + id@ + "' ("@
                + error.text@ + tail);
        } else {
            lemma_occurs_between(
                "Unable to discover a pending permission for session '"@,
                s.session_id@,
                "': permission state could not be listed (HTTP 400). Permission state may be stale or malformed. Retry with permission_request_id (from run) if available; otherwise reopen the session or start a new one."@,
            );
        }
    }
}

/// Whether a response ends with an error that holds this text, and whether that is the caller's fault.
pub open spec fn fails_with(action: RespondAction, text: Seq<char>, callers_fault: bool) -> bool {
    &&& action is Return
    &&& action->Return_0 is Err
    &&& if callers_fault {
        action->Return_0->Err_0 is InvalidInput && occurs_in(
            text,
            action->Return_0->Err_0->InvalidInput_0@,
        )
    } else {
        action->Return_0->Err_0 is Internal && occurs_in(
            text,
            action->Return_0->Err_0->Internal_0@,
        )
    }
}

/// A reply that the server takes leaves everything about the response as it was. One that it does not take fails
/// the response: a request that is not found is named together with the session, any other failure is passed on
/// with what the server said.
pub proof fn law_replies_are_taken_or_fail(
    s: PermissionResponse,
    reply: Result<(), ApiError>,
    after: PermissionResponse,
    action: RespondAction,
)
    requires
        s.stage is Replying,
        permission_reply_taken(s, reply, after, action),
    ensures
        reply is Ok ==> action is Run && after == (PermissionResponse {
            stage: PermissionStage::Running {
                chosen: s.stage->Replying_chosen,
                baseline: s.stage->Replying_baseline,
            },
            ..s
        }),
        reply is Err && reply->Err_0.kind == ApiErrorKind::Http(404) ==> fails_with(
            action,
            s.stage->Replying_chosen.id@,
            true,
        ) && fails_with(action, s.session_id@, true),
        reply is Err && reply->Err_0.kind != ApiErrorKind::Http(404) ==> fails_with(
            action,
            reply->Err_0.text@,
            false,
        ),
        reply is Err ==> after.stage is Done,
{
    if let Err(error) = reply {
        lemma_occurs_at_the_end("Failed to reply to permission: "@, error.text@);
        let id = s.stage->Replying_chosen.id@;
        let front = "Permission request '"@;
        let middle = "' was not found or is no longer pending (HTTP 404). It may be stale. Re-run orchestrator_run(session_id='"@;
        let tail = "') to get the latest permission_request_id and retry."@;
        lemma_occurs_between(front, id, middle + s.session_id@ + tail);
        lemma_occurs_between(front + id + middle, s.session_id@, tail);
        assert(front + id + (middle + s.session_id@ + tail) =~= front + id + middle + s.session_id@
            + tail);
    }
}

/// Where the questions cannot be listed, or the server does not take the answer, the response fails with what the
/// server said; an answer that it takes leaves everything about the response as it was.
pub proof fn law_answers_are_taken_or_fail(
    s: QuestionResponse,
    error: ApiError,
    listed: QuestionResponse,
    listing: RespondAction,
    reply: Result<(), ApiError>,
    after: QuestionResponse,
    action: RespondAction,
)
    requires
        question_listing_taken(s, Err(error), listed, listing),
        question_response_taken(s, reply, after, action),
    ensures
        fails_with(listing, error.text@, false) && listed.stage is Done,
        reply is Ok ==> action is Run && after == (QuestionResponse {
            stage: QuestionStage::Running,
            ..s
        }),
        reply is Err ==> fails_with(action, reply->Err_0.text@, false) && after.stage is Done,
{
    lemma_occurs_at_the_end("Failed to list questions: "@, error.text@);
    if let Err(e) = reply {
        lemma_occurs_at_the_end("Failed to reject question: "@, e.text@);
        lemma_occurs_at_the_end("Failed to reply to question: "@, e.text@);
    }
}

/// What a selection asks for is asked for, and why it fails is handed back, unchanged.
pub proof fn law_selections_are_followed(
    p: PermissionResponse,
    step: SelectionStep,
    p_after: PermissionResponse,
    p_action: RespondAction,
    q: QuestionResponse,
    q_after: QuestionResponse,
    q_action: RespondAction,
)
    requires
        permission_selects(p, step, p_after, p_action),
        question_selects(q, step, q_after, q_action),
    ensures
        step matches SelectionStep::FetchSession(id) ==> {
            &&& p_action == RespondAction::FetchSession(id)
            &&& q_action == RespondAction::FetchSession(id)
            &&& p_after == (PermissionResponse { stage: PermissionStage::Selecting, ..p })
            &&& q_after == (QuestionResponse { stage: QuestionStage::Selecting, ..q })
        },
        step matches SelectionStep::Failed(error) ==> {
            &&& p_action == RespondAction::Return(Err(error))
            &&& q_action == RespondAction::Return(Err(error))
            &&& p_after.stage is Done
            &&& q_after.stage is Done
        },
{
}

} // verus!
