//! What a run hands back, and how a finished session is turned into it.

use crate::api::ApiError;
use crate::api::PermissionRequest;
use crate::api::QuestionInfo;
use crate::api::QuestionOption;
use crate::api::QuestionRequest;
use crate::blockers::CallerResponseBlocker;
use crate::blockers::CallerResponseBlockerPayload;
use crate::errors::ToolError;
use crate::text::cat2;
use crate::text::lemma_occurs_at_the_end;
use crate::text::occurs_in;
use crate::text::views;
use crate::tools::OrchestratorRunTool;
use crate::types::OrchestratorRunOutput;
use crate::types::QuestionInfoView;
use crate::types::QuestionOptionView;
use crate::types::RunStatus;
use vstd::pervasive::unreached;
use vstd::prelude::*;

verus! {

/// Token counts of a call, as they are logged.
#[verifier::external_type_specification]
#[verifier::external_body]
pub struct ExTokenUsage(agentic_logging::TokenUsage);

/// What is logged about a call besides its input and output.
#[derive(Debug, Clone)]
pub struct ToolLogMeta {
    pub token_usage: Option<agentic_logging::TokenUsage>,
    pub token_usage_saturated: bool,
}

impl Default for ToolLogMeta {
    fn default() -> (r: Self)
        ensures
            r.token_usage is None,
            !r.token_usage_saturated,
    {
        ToolLogMeta { token_usage: None, token_usage_saturated: false }
    }
}

/// What is known of the tokens that the monitored session has used.
#[derive(Debug, Clone)]
pub struct TokenStanding {
    /// The context is nearly full.
    pub compaction_needed: bool,
    pub provider_id: Option<String>,
    pub model_id: Option<String>,
    pub token_usage: Option<agentic_logging::TokenUsage>,
    pub token_usage_saturated: bool,
}

impl Default for TokenStanding {
    fn default() -> (r: Self)
        ensures
            !r.compaction_needed,
            r.provider_id is None,
            r.model_id is None,
            r.token_usage is None,
            !r.token_usage_saturated,
    {
        TokenStanding {
            compaction_needed: false,
            provider_id: None,
            model_id: None,
            token_usage: None,
            token_usage_saturated: false,
        }
    }
}

/// The output of a run and what is logged about it.
pub struct RunOutcome {
    pub output: OrchestratorRunOutput,
    pub log_meta: ToolLogMeta,
}

impl RunOutcome {
    /// An outcome of which no tokens are logged.
    pub fn without_tokens(output: OrchestratorRunOutput) -> (r: Self)
        ensures
            r.output == output,
            r.log_meta == (ToolLogMeta { token_usage: None, token_usage_saturated: false }),
    {
        RunOutcome { output, log_meta: ToolLogMeta::default() }
    }

    /// An outcome with the tokens used so far.
    pub fn with_tracker(output: OrchestratorRunOutput, tokens: TokenStanding) -> (r: Self)
        ensures
            r.output == output,
            r.log_meta == logged(tokens),
    {
        RunOutcome {
            output,
            log_meta: ToolLogMeta {
                token_usage: tokens.token_usage,
                token_usage_saturated: tokens.token_usage_saturated,
            },
        }
    }
}

/// What is logged of the tokens used.
pub open spec fn logged(tokens: TokenStanding) -> ToolLogMeta {
    ToolLogMeta {
        token_usage: tokens.token_usage,
        token_usage_saturated: tokens.token_usage_saturated,
    }
}

// ---------------------------------------------------------------------------
// Outputs that need the caller
// ---------------------------------------------------------------------------
/// Whether an option is shown as the server gave it.
pub open spec fn shows_option(shown: QuestionOptionView, option: QuestionOption) -> bool {
    shown.label == option.label && shown.description == option.description
}

/// Whether a question is shown as the server gave it.
pub open spec fn shows_question(shown: QuestionInfoView, question: QuestionInfo) -> bool {
    &&& shown.question == question.question
    &&& shown.header == question.header
    &&& shown.multiple == question.multiple
    &&& shown.custom == question.custom
    &&& shown.options@.len() == question.options@.len()
    &&& forall|i: int|
        0 <= i < question.options@.len() ==> shows_option(
            #[trigger] shown.options@[i],
            question.options@[i],
        )
}

/// Whether the questions of a request are shown as the server gave them, in order.
pub open spec fn shows_questions(
    shown: Seq<QuestionInfoView>,
    questions: Seq<QuestionInfo>,
) -> bool {
    &&& shown.len() == questions.len()
    &&& forall|i: int|
        0 <= i < questions.len() ==> shows_question(#[trigger] shown[i], questions[i])
}

/// Whether an output asks the caller for the permission.
pub open spec fn asks_permission(
    output: OrchestratorRunOutput,
    root: String,
    permission: PermissionRequest,
    partial: Option<String>,
    warnings: Vec<String>,
) -> bool {
    &&& output.session_id == root
    &&& output.status == RunStatus::PermissionRequired
    &&& output.response is None
    &&& output.partial_response == partial
    &&& output.permission_request_id == Some(permission.id)
    &&& output.permission_type == Some(permission.permission)
    &&& output.permission_patterns == permission.patterns
    &&& output.question_request_id is None
    &&& output.questions@.len() == 0
    &&& output.warnings == warnings
}

/// Whether an output asks the caller the questions.
pub open spec fn asks_questions(
    output: OrchestratorRunOutput,
    root: String,
    request: QuestionRequest,
    partial: Option<String>,
    warnings: Vec<String>,
) -> bool {
    &&& output.session_id == root
    &&& output.status == RunStatus::QuestionRequired
    &&& output.response is None
    &&& output.partial_response == partial
    &&& output.permission_request_id is None
    &&& output.permission_type is None
    &&& output.permission_patterns@.len() == 0
    &&& output.question_request_id == Some(request.id)
    &&& shows_questions(output.questions@, request.questions@)
    &&& output.warnings == warnings
}

/// Whether an output asks the caller for what a blocker needs. It names the root session, whichever
/// session owns the request.
pub open spec fn asks_caller(
    output: OrchestratorRunOutput,
    blocker: CallerResponseBlocker,
    partial: Option<String>,
    warnings: Vec<String>,
) -> bool {
    match blocker.payload {
        CallerResponseBlockerPayload::Permission(permission) => asks_permission(
            output,
            blocker.root_session_id,
            permission,
            partial,
            warnings,
        ),
        CallerResponseBlockerPayload::Question(question) => asks_questions(
            output,
            blocker.root_session_id,
            question,
            partial,
            warnings,
        ),
    }
}

/// Whether an output reports a finished session.
pub open spec fn reports_completion(
    output: OrchestratorRunOutput,
    session_id: String,
    response: Option<String>,
    warnings: Seq<Seq<char>>,
) -> bool {
    &&& output.session_id == session_id
    &&& output.status == RunStatus::Completed
    &&& output.response == response
    &&& output.partial_response is None
    &&& output.permission_request_id is None
    &&& output.permission_type is None
    &&& output.permission_patterns@.len() == 0
    &&& output.question_request_id is None
    &&& output.questions@.len() == 0
    &&& views(output.warnings@) == warnings
}

fn map_options(options: &Vec<QuestionOption>) -> (r: Vec<QuestionOptionView>)
    ensures
        r@.len() == options@.len(),
        forall|i: int| 0 <= i < options@.len() ==> shows_option(#[trigger] r@[i], options@[i]),
{
    let mut shown: Vec<QuestionOptionView> = Vec::new();
    let mut i: usize = 0;
    while i < options.len()
        invariant
            i <= options.len(),
            shown@.len() == i,
            forall|j: int| 0 <= j < i ==> shows_option(#[trigger] shown@[j], options@[j]),
        decreases options.len() - i,
    {
        shown.push(
            QuestionOptionView {
                label: options[i].label.clone(),
                description: options[i].description.clone(),
            },
        );
        i += 1;
    }
    shown
}

impl OrchestratorRunTool {
    /// The questions of a request as they are shown to the caller.
    pub fn map_questions(req: &QuestionRequest) -> (r: Vec<QuestionInfoView>)
        ensures
            shows_questions(r@, req.questions@),
    {
        let mut shown: Vec<QuestionInfoView> = Vec::new();
        let mut i: usize = 0;
        while i < req.questions.len()
            invariant
                i <= req.questions.len(),
                shown@.len() == i,
                forall|j: int|
                    0 <= j < i ==> shows_question(#[trigger] shown@[j], req.questions@[j]),
            decreases req.questions.len() - i,
        {
            let question = &req.questions[i];
            shown.push(
                QuestionInfoView {
                    question: question.question.clone(),
                    header: question.header.clone(),
                    options: map_options(&question.options),
                    multiple: question.multiple,
                    custom: question.custom,
                },
            );
            i += 1;
        }
        shown
    }

    /// The output that asks the caller for answers.
    pub fn question_required_output(
        session_id: String,
        partial_response: Option<String>,
        request: &QuestionRequest,
        warnings: Vec<String>,
    ) -> (r: OrchestratorRunOutput)
        ensures
            asks_questions(r, session_id, *request, partial_response, warnings),
    {
        OrchestratorRunOutput {
            session_id,
            status: RunStatus::QuestionRequired,
            response: None,
            partial_response,
            permission_request_id: None,
            permission_type: None,
            permission_patterns: Vec::new(),
            question_request_id: Some(request.id.clone()),
            questions: Self::map_questions(request),
            warnings,
        }
    }

    /// The output that asks the caller for what a blocker needs.
    pub fn caller_response_blocker_output(
        blocker: CallerResponseBlocker,
        partial_response: Option<String>,
        warnings: Vec<String>,
    ) -> (r: OrchestratorRunOutput)
        ensures
            asks_caller(r, blocker, partial_response, warnings),
    {
        match blocker.payload {
            CallerResponseBlockerPayload::Permission(permission) => OrchestratorRunOutput {
                session_id: blocker.root_session_id,
                status: RunStatus::PermissionRequired,
                response: None,
                partial_response,
                permission_request_id: Some(permission.id),
                permission_type: Some(permission.permission),
                permission_patterns: permission.patterns,
                question_request_id: None,
                questions: Vec::new(),
                warnings,
            },
            CallerResponseBlockerPayload::Question(question) => Self::question_required_output(
                blocker.root_session_id,
                partial_response,
                &question,
                warnings,
            ),
        }
    }
}

// ---------------------------------------------------------------------------
// Finished sessions
// ---------------------------------------------------------------------------
/// How often the transcript of a finished session is read for the assistant's text.
pub const FINALIZE_ATTEMPTS: usize = 5;

/// How long to wait before each attempt to read the transcript, in milliseconds.
pub open spec fn backoff(attempt: nat) -> u64 {
    if attempt == 0 {
        0
    } else if attempt == 1 {
        50
    } else if attempt == 2 {
        100
    } else if attempt == 3 {
        200
    } else {
        400
    }
}

/// How long to wait before an attempt to read the transcript, in milliseconds.
pub fn backoff_ms(attempt: usize) -> (r: u64)
    ensures
        r == backoff(attempt as nat),
{
    match attempt {
        0 => 0,
        1 => 50,
        2 => 100,
        3 => 200,
        _ => 400,
    }
}

/// How far the end of a run has come.
pub enum FinalizeStage {
    /// Waiting for the assistant's text, at this attempt.
    Reading { attempt: usize },
    /// Waiting for the context to be summarized.
    Summarizing { response: Option<String> },
    /// Over.
    Finished,
}

/// Turns a finished session into the output of the run.
pub struct Finalization {
    pub session_id: String,
    pub tokens: TokenStanding,
    pub warnings: Vec<String>,
    pub stage: FinalizeStage,
}

/// What the end of a run needs next, or its outcome.
pub enum FinalizeStep {
    /// Wait this many milliseconds, then read the transcript for the assistant's text.
    ReadMessages { delay_ms: u64 },
    /// Have the context summarized.
    Summarize { provider_id: String, model_id: String },
    Finished(Result<RunOutcome, ToolError>),
}

/// Whether the context has to be summarized, and by which model.
pub open spec fn summarizer(tokens: TokenStanding) -> Option<(String, String)> {
    match (tokens.compaction_needed, tokens.provider_id, tokens.model_id) {
        (true, Some(provider), Some(model)) => Some((provider, model)),
        _ => None,
    }
}

/// What a finalization does once the response is settled: it has the context summarized if that is
/// needed, else it reports completion.
pub open spec fn response_settled(
    session_id: String,
    tokens: TokenStanding,
    warnings: Seq<String>,
    response: Option<String>,
    after: Finalization,
    step: FinalizeStep,
) -> bool {
    match summarizer(tokens) {
        Some((provider, model)) => {
            &&& after.session_id == session_id
            &&& after.tokens == tokens
            &&& after.warnings@ == warnings
            &&& after.stage == (FinalizeStage::Summarizing { response })
            &&& step == (FinalizeStep::Summarize { provider_id: provider, model_id: model })
        },
        None => {
            &&& after.stage is Finished
            &&& step matches FinalizeStep::Finished(Ok(outcome))
            &&& reports_completion(outcome.output, session_id, response, views(warnings))
            &&& outcome.log_meta == logged(tokens)
        },
    }
}

/// The warning about the attempt to have the context summarized.
pub open spec fn summary_warning(reply: Result<(), ApiError>) -> Seq<char> {
    match reply {
        Ok(_) => "Context limit reached; summarization triggered"@,
        Err(error) => "Summarization failed: "@ + error.text@,
    }
}

/// What a finalization does with the assistant's text: without text the next attempt follows, until
/// there are none left; then, or with text, the response is settled.
pub open spec fn messages_taken(
    before: Finalization,
    reply: Result<Option<String>, ApiError>,
    after: Finalization,
    step: FinalizeStep,
) -> bool {
    match reply {
        Err(error) => {
            &&& after.stage is Finished
            &&& step matches FinalizeStep::Finished(Err(e))
            &&& e.is_internal("Failed to list messages: "@ + error.text@)
        },
        Ok(response) => if response is None && before.stage->attempt + 1 < FINALIZE_ATTEMPTS {
            let attempt = (before.stage->attempt + 1) as usize;
            &&& after == (Finalization { stage: FinalizeStage::Reading { attempt }, ..before })
            &&& step == (FinalizeStep::ReadMessages { delay_ms: backoff(attempt as nat) })
        } else {
            response_settled(
                before.session_id,
                before.tokens,
                before.warnings@,
                response,
                after,
                step,
            )
        },
    }
}

/// What a finalization hands back after the attempt to have the context summarized: completion either
/// way, with a warning that says how the attempt went.
pub open spec fn summary_taken(
    before: Finalization,
    reply: Result<(), ApiError>,
    result: Result<RunOutcome, ToolError>,
) -> bool {
    &&& result matches Ok(outcome)
    &&& reports_completion(
        outcome.output,
        before.session_id,
        before.stage->response,
        views(before.warnings@).push(summary_warning(reply)),
    )
    &&& outcome.log_meta == logged(before.tokens)
}

impl Finalization {
    /// The attempt that is waited for is one of those allowed.
    pub open spec fn wf(&self) -> bool {
        self.stage matches FinalizeStage::Reading { attempt } ==> attempt < FINALIZE_ATTEMPTS
    }

    /// Start with the first attempt to read the transcript, without delay.
    pub fn begin(session_id: String, tokens: TokenStanding, warnings: Vec<String>) -> (r: (
        Self,
        FinalizeStep,
    ))
        ensures
            r.0.wf(),
            r.0 == (Finalization {
                session_id,
                tokens,
                warnings,
                stage: FinalizeStage::Reading { attempt: 0 },
            }),
            r.1 == (FinalizeStep::ReadMessages { delay_ms: 0 }),
    {
        (
            Finalization {
                session_id,
                tokens,
                warnings,
                stage: FinalizeStage::Reading { attempt: 0 },
            },
            FinalizeStep::ReadMessages { delay_ms: backoff_ms(0) },
        )
    }

    /// Take the assistant's text, if the transcript holds any. Without text the next attempt follows,
    /// until there are none left.
    pub fn on_messages(&mut self, reply: Result<Option<String>, ApiError>) -> (step: FinalizeStep)
        requires
            old(self).wf(),
            old(self).stage is Reading,
        ensures
            final(self).wf(),
            messages_taken(*old(self), reply, *final(self), step),
    {
        let attempt: usize = match &self.stage {
            FinalizeStage::Reading { attempt } => *attempt,
            _ => unreached(),
        };
        match reply {
            Err(error) => {
                self.stage = FinalizeStage::Finished;
                FinalizeStep::Finished(
                    Err(
                        ToolError::Internal(
                            cat2("Failed to list messages: ", error.text.as_str()),
                        ),
                    ),
                )
            },
            Ok(response) => {
                if response.is_none() && attempt + 1 < FINALIZE_ATTEMPTS {
                    self.stage = FinalizeStage::Reading { attempt: attempt + 1 };
                    return FinalizeStep::ReadMessages { delay_ms: backoff_ms(attempt + 1) };
                }
                if self.tokens.compaction_needed {
                    if let (Some(provider), Some(model)) = (
                        &self.tokens.provider_id,
                        &self.tokens.model_id,
                    ) {
                        let provider_id = provider.clone();
                        let model_id = model.clone();
                        self.stage = FinalizeStage::Summarizing { response };
                        return FinalizeStep::Summarize { provider_id, model_id };
                    }
                }
                self.complete(response)
            },
        }
    }

    /// Take the answer to the request to have the context summarized.
    pub fn on_summarized(&mut self, reply: Result<(), ApiError>) -> (step: FinalizeStep)
        requires
            old(self).stage is Summarizing,
        ensures
            final(self).stage is Finished,
            step matches FinalizeStep::Finished(result) && summary_taken(
                *old(self),
                reply,
                result,
            ),
    {
        let mut stage = FinalizeStage::Finished;
        core::mem::swap(&mut self.stage, &mut stage);
        let response = match stage {
            FinalizeStage::Summarizing { response } => response,
            _ => unreached(),
        };
        match reply {
            Ok(_) => {
                self.warnings.push("Context limit reached; summarization triggered".to_string());
            },
            Err(error) => {
                self.warnings.push(cat2("Summarization failed: ", error.text.as_str()));
            },
        }
        assert(views(self.warnings@) == views(old(self).warnings@).push(summary_warning(reply)));
        self.complete(response)
    }

    fn complete(&mut self, response: Option<String>) -> (step: FinalizeStep)
        ensures
            final(self).stage is Finished,
            step matches FinalizeStep::Finished(Ok(outcome)) && reports_completion(
                outcome.output,
                old(self).session_id,
                response,
                views(old(self).warnings@),
            ) && outcome.log_meta == logged(old(self).tokens),
    {
        let mut session_id = String::new();
        let mut tokens = TokenStanding::default();
        let mut warnings: Vec<String> = Vec::new();
        core::mem::swap(&mut self.session_id, &mut session_id);
        core::mem::swap(&mut self.tokens, &mut tokens);
        core::mem::swap(&mut self.warnings, &mut warnings);
        self.stage = FinalizeStage::Finished;
        let output = OrchestratorRunOutput {
            session_id,
            status: RunStatus::Completed,
            response,
            partial_response: None,
            permission_request_id: None,
            permission_type: None,
            permission_patterns: Vec::new(),
            question_request_id: None,
            questions: Vec::new(),
            warnings,
        };
        FinalizeStep::Finished(Ok(RunOutcome::with_tracker(output, tokens)))
    }
}

// ---------------------------------------------------------------------------
// What the caller gets to see
// ---------------------------------------------------------------------------
/// Every question and every one of its options is shown, each at its own place and in its own words.
pub proof fn law_questions_are_shown_in_full(
    shown: Seq<QuestionInfoView>,
    questions: Seq<QuestionInfo>,
)
    requires
        shows_questions(shown, questions),
    ensures
        shown.len() == questions.len(),
        forall|i: int|
            0 <= i < questions.len() ==> {
                &&& (#[trigger] shown[i]).question == questions[i].question
                &&& shown[i].header == questions[i].header
                &&& shown[i].multiple == questions[i].multiple
                &&& shown[i].custom == questions[i].custom
                &&& shown[i].options@.len() == questions[i].options@.len()
            },
        forall|i: int, j: int|
            0 <= i < questions.len() && 0 <= j < questions[i].options@.len() ==> {
                &&& (#[trigger] shown[i].options@[j]).label == questions[i].options@[j].label
                &&& shown[i].options@[j].description == questions[i].options@[j].description
            },
{
    assert forall|i: int, j: int|
        0 <= i < questions.len() && 0 <= j < questions[i].options@.len() implies {
        &&& (#[trigger] shown[i].options@[j]).label == questions[i].options@[j].label
        &&& shown[i].options@[j].description == questions[i].options@[j].description
    } by {
        assert(shows_question(shown[i], questions[i]));
        assert(shows_option(shown[i].options@[j], questions[i].options@[j]));
    }
}

/// What the caller is asked for is what the blocker holds, all of it: the request's id, its type and its
/// patterns, or its questions; with the text and the warnings so far, under the root session.
pub proof fn law_caller_is_asked_for_all(
    output: OrchestratorRunOutput,
    blocker: CallerResponseBlocker,
    partial: Option<String>,
    warnings: Vec<String>,
)
    requires
        asks_caller(output, blocker, partial, warnings),
    ensures
        output.session_id == blocker.root_session_id,
        output.response is None,
        output.partial_response == partial,
        output.warnings == warnings,
        blocker.payload matches CallerResponseBlockerPayload::Permission(permission) ==> {
            &&& output.status is PermissionRequired
            &&& output.permission_request_id == Some(permission.id)
            &&& output.permission_type == Some(permission.permission)
            &&& output.permission_patterns == permission.patterns
            &&& output.question_request_id is None
            &&& output.questions@.len() == 0
        },
        blocker.payload matches CallerResponseBlockerPayload::Question(question) ==> {
            &&& output.status is QuestionRequired
            &&& output.question_request_id == Some(question.id)
            &&& output.questions@.len() == question.questions@.len()
            &&& output.permission_request_id is None
            &&& output.permission_type is None
            &&& output.permission_patterns@.len() == 0
        },
{
}

/// The tokens that are logged are those that were counted.
pub proof fn law_tokens_are_logged_as_counted(tokens: TokenStanding)
    ensures
        logged(tokens).token_usage == tokens.token_usage,
        logged(tokens).token_usage_saturated == tokens.token_usage_saturated,
{
}

/// The assistant's text is read up to five times, at once and then after 50, 100, 200 and 400 milliseconds,
/// and no longer than until there is one; what is read is the response.
pub proof fn law_text_is_read_until_there_is_one(
    before: Finalization,
    reply: Result<Option<String>, ApiError>,
    after: Finalization,
    step: FinalizeStep,
)
    requires
        before.wf(),
        before.stage is Reading,
        messages_taken(before, reply, after, step),
    ensures
        step is ReadMessages <==> reply == Ok::<Option<String>, ApiError>(None)
            && before.stage->attempt < 4,
        step matches FinalizeStep::ReadMessages { delay_ms } ==> {
            &&& after.stage is Reading
            &&& after.stage->attempt == before.stage->attempt + 1
            &&& after.session_id == before.session_id
            &&& after.tokens == before.tokens
            &&& after.warnings == before.warnings
            &&& delay_ms == if before.stage->attempt == 0 {
                50
            } else {
                2 * backoff(before.stage->attempt as nat)
            }
        },
        reply is Err <==> step is Finished && step->Finished_0 is Err,
        reply is Err ==> step->Finished_0->Err_0 is Internal && occurs_in(
            reply->Err_0.text@,
            step->Finished_0->Err_0->Internal_0@,
        ),
        reply is Ok && step is Finished ==> {
            let output = step->Finished_0->Ok_0.output;
            &&& output.response == reply->Ok_0
            &&& output.session_id == before.session_id
            &&& output.status is Completed
            &&& output.partial_response is None
            &&& output.permission_request_id is None
            &&& output.question_request_id is None
            &&& output.questions@.len() == 0
            &&& output.permission_patterns@.len() == 0
            &&& views(output.warnings@) == views(before.warnings@)
            &&& step->Finished_0->Ok_0.log_meta.token_usage == before.tokens.token_usage
            &&& step->Finished_0->Ok_0.log_meta.token_usage_saturated
                == before.tokens.token_usage_saturated
        },
        step is Summarize ==> {
            &&& after.stage is Summarizing
            &&& after.stage->response == reply->Ok_0
            &&& after.session_id == before.session_id
            &&& after.tokens == before.tokens
            &&& views(after.warnings@) == views(before.warnings@)
        },
{
    if let Err(error) = reply {
        lemma_occurs_at_the_end("Failed to list messages: "@, error.text@);
    }
}

/// The context is summarized exactly if it is nearly full and both the provider and the model are known, and
/// by those; after that the response is handed back with one more warning, which says how it went.
pub proof fn law_context_is_summarized_when_full(
    before: Finalization,
    text: Option<String>,
    after: Finalization,
    step: FinalizeStep,
    reply: Result<(), ApiError>,
    result: Result<RunOutcome, ToolError>,
)
    requires
        before.wf(),
        before.stage is Reading,
        text is Some || before.stage->attempt == 4,
        messages_taken(before, Ok(text), after, step),
        step is Summarize ==> summary_taken(after, reply, result),
    ensures
        step is Summarize <==> before.tokens.compaction_needed && before.tokens.provider_id is Some
            && before.tokens.model_id is Some,
        step matches FinalizeStep::Summarize { provider_id, model_id } ==> {
            &&& before.tokens.provider_id == Some(provider_id)
            &&& before.tokens.model_id == Some(model_id)
            &&& result is Ok
            &&& result->Ok_0.output.response == text
            &&& result->Ok_0.output.partial_response is None
            &&& result->Ok_0.output.permission_request_id is None
            &&& result->Ok_0.output.question_request_id is None
            &&& result->Ok_0.output.questions@.len() == 0
            &&& result->Ok_0.output.permission_patterns@.len() == 0
            &&& result->Ok_0.output.session_id == before.session_id
            &&& result->Ok_0.output.status is Completed
            &&& result->Ok_0.output.warnings@.len() == before.warnings@.len() + 1
            &&& views(before.warnings@).is_prefix_of(views(result->Ok_0.output.warnings@))
            &&& result->Ok_0.log_meta.token_usage == before.tokens.token_usage
            &&& result->Ok_0.log_meta.token_usage_saturated == before.tokens.token_usage_saturated
            &&& reply is Ok ==> views(result->Ok_0.output.warnings@).last()
                == "Context limit reached; summarization triggered"@
            &&& reply is Err ==> views(result->Ok_0.output.warnings@).last()
                == "Summarization failed: "@ + reply->Err_0.text@
        },
{
    if step is Summarize {
        assert(views(result->Ok_0.output.warnings@).len() == result->Ok_0.output.warnings@.len());
        assert(views(before.warnings@).len() == before.warnings@.len());
    }
}

} // verus!
