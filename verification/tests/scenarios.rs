//! Whole tool calls, driven against a scripted server.

use opencode_orchestrator_mcp::api::ApiError;
use opencode_orchestrator_mcp::api::ApiErrorKind;
use opencode_orchestrator_mcp::api::Event;
use opencode_orchestrator_mcp::api::Message;
use opencode_orchestrator_mcp::api::MessageInfo;
use opencode_orchestrator_mcp::api::MessagePartEventProps;
use opencode_orchestrator_mcp::api::MessageUpdatedProps;
use opencode_orchestrator_mcp::api::PermissionRequest;
use opencode_orchestrator_mcp::api::QuestionInfo;
use opencode_orchestrator_mcp::api::QuestionOption;
use opencode_orchestrator_mcp::api::QuestionRequest;
use opencode_orchestrator_mcp::api::RequestRef;
use opencode_orchestrator_mcp::api::Session;
use opencode_orchestrator_mcp::api::SessionStatusInfo;
use opencode_orchestrator_mcp::errors::ToolError;
use opencode_orchestrator_mcp::outcome::RunOutcome;
use opencode_orchestrator_mcp::outcome::TokenStanding;
use opencode_orchestrator_mcp::request::check_run_input;
use opencode_orchestrator_mcp::request::check_run_policies;
use opencode_orchestrator_mcp::request::AgentPolicyDecision;
use opencode_orchestrator_mcp::request::CommandPolicyDecision;
use opencode_orchestrator_mcp::respond::PermissionResponse;
use opencode_orchestrator_mcp::respond::QuestionResponse;
use opencode_orchestrator_mcp::respond::RespondAction;
use opencode_orchestrator_mcp::run::check_session_lookup;
use opencode_orchestrator_mcp::run::take_created_session;
use opencode_orchestrator_mcp::run_model::CommandResult;
use opencode_orchestrator_mcp::run_model::RunAction;
use opencode_orchestrator_mcp::run_model::RunPhase;
use opencode_orchestrator_mcp::scan::PermissionPreflightMode;
use opencode_orchestrator_mcp::tools::OrchestratorRunTool;
use opencode_orchestrator_mcp::tools::OrchestratorServerHandle;
use opencode_orchestrator_mcp::tools::RunLimits;
use opencode_orchestrator_mcp::types::OrchestratorRunInput;
use opencode_orchestrator_mcp::types::OrchestratorRunOutput;
use opencode_orchestrator_mcp::types::PermissionReply;
use opencode_orchestrator_mcp::types::QuestionAction;
use opencode_orchestrator_mcp::types::RespondPermissionInput;
use opencode_orchestrator_mcp::types::RespondQuestionInput;
use opencode_orchestrator_mcp::types::RunStatus;
use std::collections::HashMap;
use std::collections::VecDeque;
use std::sync::Arc;

const SECOND: u64 = 1_000_000_000;

/// What happens while a run waits.
enum Happening {
    Event(Event),
    /// A delta to, then an update of, a message that answers the command.
    CommandAnswer { message: &'static str, text: &'static str },
    Closed,
    Command(CommandResult),
    Cancel,
    Tick,
}

/// Answers in order; the last one is given again and again.
struct Answers<T> {
    given: usize,
    list: Vec<T>,
}

impl<T: Clone> Answers<T> {
    fn new(list: Vec<T>) -> Self {
        Answers { given: 0, list }
    }

    fn next(&mut self) -> T {
        let at = self.given.min(self.list.len() - 1);
        self.given += 1;
        self.list[at].clone()
    }
}

struct Fake {
    sessions: HashMap<String, Answers<Result<Option<String>, ApiError>>>,
    permissions: Answers<Result<Vec<PermissionRequest>, ApiError>>,
    questions: Answers<Result<Vec<QuestionRequest>, ApiError>>,
    statuses: Answers<Result<SessionStatusInfo, ApiError>>,
    texts: Answers<Result<Option<String>, ApiError>>,
    /// The text as long as the status was read fewer times than this.
    early_text: Option<(usize, Result<Option<String>, ApiError>)>,
    transcript: Answers<Result<Vec<Message>, ApiError>>,
    prompt: Result<(), ApiError>,
    subscription: Result<(), ApiError>,
    replied: Result<(), ApiError>,
    summarized: Result<(), ApiError>,
    happenings: VecDeque<Happening>,
    limits: RunLimits,
    tokens: TokenStanding,
    now: u64,
    ticks: usize,
    commands: Vec<(String, String, String)>,
    prompts: Vec<(String, Option<String>)>,
    replies: Vec<String>,
    delays: Vec<u64>,
    summaries: Vec<(String, String)>,
    aborted: bool,
}

fn fake() -> Fake {
    Fake {
        sessions: HashMap::new(),
        permissions: Answers::new(vec![Ok(vec![])]),
        questions: Answers::new(vec![Ok(vec![])]),
        statuses: Answers::new(vec![Ok(SessionStatusInfo::Idle)]),
        texts: Answers::new(vec![Ok(None)]),
        early_text: None,
        transcript: Answers::new(vec![Ok(vec![])]),
        prompt: Ok(()),
        subscription: Ok(()),
        replied: Ok(()),
        summarized: Ok(()),
        happenings: VecDeque::new(),
        limits: RunLimits {
            session_deadline: 3600 * SECOND,
            inactivity_timeout: 300 * SECOND,
            idle_grace: SECOND,
        },
        tokens: TokenStanding::default(),
        now: 1_000,
        ticks: 0,
        commands: vec![],
        prompts: vec![],
        replies: vec![],
        delays: vec![],
        summaries: vec![],
        aborted: false,
    }
}

fn session(id: &str, parent: Option<String>) -> Session {
    Session {
        id: id.to_string(),
        title: "title".to_string(),
        directory: None,
        path: None,
        parent_id: parent,
        time: None,
        summary: None,
    }
}

fn http(status: u16, text: &str) -> ApiError {
    ApiError { kind: ApiErrorKind::Http(status), text: text.to_string() }
}

/// What the client makes of an answer with this status and body.
fn answered(status: u16, body: &str) -> ApiError {
    ApiError {
        kind: ApiErrorKind::Http(status),
        text: opencode_rs::OpencodeError::http(status, body).to_string(),
    }
}

/// The body with which the server refuses to list permissions for patched files.
const PATCH_FILE_ARRAY: &str = r#"[{"additions":1,"deletions":1,"filePath":"/tmp/src/lib.rs","movePath":null,"patch":"Index: src/lib.rs\n@@ -1 +1 @@\n-old\n+new\n","relativePath":"src/lib.rs","type":"update"}]"#;

fn transport() -> ApiError {
    ApiError { kind: ApiErrorKind::Transport, text: "Transport error: connection closed".to_string() }
}

fn permission(id: &str, owner: &str, kind: &str, patterns: &[&str]) -> PermissionRequest {
    PermissionRequest {
        id: id.to_string(),
        session_id: owner.to_string(),
        permission: kind.to_string(),
        patterns: patterns.iter().map(|p| p.to_string()).collect(),
    }
}

fn option(label: &str, description: &str) -> QuestionOption {
    QuestionOption { label: label.to_string(), description: description.to_string() }
}

fn question(id: &str, owner: &str, text: &str) -> QuestionRequest {
    QuestionRequest {
        id: id.to_string(),
        session_id: owner.to_string(),
        questions: vec![QuestionInfo {
            question: text.to_string(),
            header: "Question Header".to_string(),
            options: vec![option("yes", "Proceed"), option("no", "Stop")],
            multiple: false,
            custom: false,
        }],
    }
}

fn decision(id: &str, owner: &str, text: &str) -> QuestionRequest {
    QuestionRequest {
        id: id.to_string(),
        session_id: owner.to_string(),
        questions: vec![QuestionInfo {
            question: text.to_string(),
            header: "Decision".to_string(),
            options: vec![],
            multiple: false,
            custom: true,
        }],
    }
}

fn busy() -> Result<SessionStatusInfo, ApiError> {
    Ok(SessionStatusInfo::Busy)
}

fn idle() -> Result<SessionStatusInfo, ApiError> {
    Ok(SessionStatusInfo::Idle)
}

fn text(t: &str) -> Result<Option<String>, ApiError> {
    Ok(Some(t.to_string()))
}

fn asked_permission(id: &str, owner: &str) -> Happening {
    Happening::Event(Event::PermissionAsked {
        request: RequestRef { session_id: owner.to_string(), request_id: id.to_string() },
    })
}

fn asked_question(id: &str, owner: &str) -> Happening {
    Happening::Event(Event::QuestionAsked {
        request: RequestRef { session_id: owner.to_string(), request_id: id.to_string() },
    })
}

fn assistant_update(id: &str, session: &str) -> Happening {
    Happening::Event(Event::MessageUpdated {
        properties: MessageUpdatedProps {
            info: MessageInfo {
                id: id.to_string(),
                session_id: Some(session.to_string()),
                role: "assistant".to_string(),
                parent_id: None,
            },
        },
    })
}

fn delta(session: &str, message: &str, text: &str) -> Event {
    Event::MessagePartDelta {
        properties: MessagePartEventProps {
            session_id: Some(session.to_string()),
            message_id: Some(message.to_string()),
            delta: Some(text.to_string()),
        },
    }
}

fn session_idle(session: &str) -> Happening {
    Happening::Event(Event::SessionIdle { session_id: session.to_string() })
}

impl Fake {
    fn with_session(mut self, id: &str, parent: Option<&str>) -> Self {
        self.sessions.insert(
            id.to_string(),
            Answers::new(vec![Ok(parent.map(|p| p.to_string()))]),
        );
        self
    }

    fn fetch(&mut self, id: &str) -> Result<Session, ApiError> {
        match self.sessions.get_mut(id) {
            Some(answers) => answers.next().map(|parent| session(id, parent)),
            None => Err(http(404, "HTTP error 404: not found")),
        }
    }

    fn read_text(&mut self) -> Result<Option<String>, ApiError> {
        match &self.early_text {
            Some((reads, early)) if self.statuses.given < *reads => early.clone(),
            _ => self.texts.next(),
        }
    }

    fn run(&mut self, input: OrchestratorRunInput) -> Result<RunOutcome, ToolError> {
        self.run_in(input, PermissionPreflightMode::Strict)
    }

    fn run_in(
        &mut self,
        input: OrchestratorRunInput,
        mode: PermissionPreflightMode,
    ) -> Result<RunOutcome, ToolError> {
        let request = check_run_input(input)?;
        check_run_policies(
            &request,
            CommandPolicyDecision::Allowed,
            AgentPolicyDecision::Allowed,
        )?;
        let session_id = match &request.session_id {
            Some(id) => {
                let reply = self.fetch(id);
                check_session_lookup(id, reply)?;
                id.clone()
            }
            None => take_created_session(Ok(session("created", None)))?,
        };
        let root = session_id.clone();
        let tool = OrchestratorRunTool::new(Arc::new(OrchestratorServerHandle {
            limits: self.limits,
        }));
        let (mut run, mut action) =
            tool.supervise(request, session_id, mode, TokenStanding::default());
        for _ in 0..2_000 {
            action = match action {
                RunAction::ReadStatus => {
                    let reply = self.statuses.next();
                    let now = self.now;
                    match &run.phase {
                        RunPhase::InitialStatus => run.on_initial_status(reply),
                        RunPhase::PostSubscribeStatus => run.on_post_subscribe_status(reply),
                        RunPhase::PollStatus { .. } => run.on_poll_status(reply, now),
                        RunPhase::GraceStatus => run.on_grace_status(reply, now),
                        RunPhase::CommandStatus { .. } => run.on_command_status(reply, now),
                        _ => panic!("no status was asked for"),
                    }
                }
                RunAction::ListPermissions => {
                    let reply = self.permissions.next();
                    run.on_permissions(reply)
                }
                RunAction::ListQuestions => {
                    let reply = self.questions.next();
                    run.on_questions(reply)
                }
                RunAction::FetchSession(id) => {
                    let reply = self.fetch(&id);
                    match &run.phase {
                        RunPhase::PlacingOwner { .. } => run.on_owner_session(reply),
                        _ => run.on_scan_session(reply),
                    }
                }
                RunAction::Subscribe => run.on_subscribed(self.subscription.clone(), self.now),
                RunAction::StartCommand { command, arguments, message_id } => {
                    self.commands.push((command, arguments, message_id));
                    run.on_command_started(self.now)
                }
                RunAction::SendPrompt { text, agent } => {
                    self.prompts.push((text, agent));
                    run.on_prompt_sent(self.prompt.clone(), self.now)
                }
                RunAction::ReadClock => run.on_clock(self.now),
                RunAction::Wait { events, grace, command } => {
                    match self.happenings.pop_front() {
                        Some(Happening::Event(event)) if events => {
                            let tokens = if run.tracks_tokens(&event) {
                                self.tokens.clone()
                            } else {
                                TokenStanding::default()
                            };
                            run.on_event(event, self.now, tokens)
                        }
                        Some(Happening::CommandAnswer { message, text }) => {
                            let parent = self.commands[0].2.clone();
                            self.happenings.push_front(Happening::Event(Event::MessageUpdated {
                                properties: MessageUpdatedProps {
                                    info: MessageInfo {
                                        id: message.to_string(),
                                        session_id: Some(root.clone()),
                                        role: "assistant".to_string(),
                                        parent_id: Some(parent),
                                    },
                                },
                            }));
                            run.on_event(
                                delta(&root, message, text),
                                self.now,
                                TokenStanding::default(),
                            )
                        }
                        Some(Happening::Closed) => run.on_stream_closed(),
                        Some(Happening::Command(result)) => {
                            assert!(command);
                            run.on_command_result(result, self.now)
                        }
                        Some(Happening::Cancel) => run.on_cancelled(),
                        Some(Happening::Tick) => run.on_poll_tick(),
                        _ => match grace {
                            Some(at) if at <= u128::from(self.now + SECOND) => {
                                self.now = self.now.max(at as u64);
                                run.on_grace_elapsed()
                            }
                            _ => {
                                if self.ticks > 0 {
                                    self.now += SECOND;
                                }
                                self.ticks += 1;
                                run.on_poll_tick()
                            }
                        },
                    }
                }
                RunAction::ReadTranscript => {
                    let reply = self.transcript.next();
                    run.on_transcript(reply, self.now)
                }
                RunAction::ReadMessages { delay_ms } => {
                    self.delays.push(delay_ms);
                    let reply = self.read_text();
                    run.on_final_messages(reply)
                }
                RunAction::Summarize { provider_id, model_id } => {
                    self.summaries.push((provider_id, model_id));
                    run.on_summarized(self.summarized.clone())
                }
                RunAction::Return(result) => return result,
                RunAction::AbortCommandAndReturn(error) => {
                    self.aborted = true;
                    return Err(error);
                }
            };
        }
        panic!("the run did not end");
    }

    fn respond_permission(
        &mut self,
        input: RespondPermissionInput,
    ) -> Result<RunOutcome, ToolError> {
        let (mut response, mut action) = PermissionResponse::begin(input);
        loop {
            action = match action {
                RespondAction::ListPermissions => {
                    let reply = self.permissions.next();
                    response.on_permissions(reply)
                }
                RespondAction::FetchSession(id) => {
                    let reply = self.fetch(&id);
                    response.on_session(reply)
                }
                RespondAction::ReadBaseline => {
                    let reply = self.read_text();
                    response.on_baseline(reply)
                }
                RespondAction::ReplyPermission { request_id, .. } => {
                    self.replies.push(request_id);
                    response.on_replied(self.replied.clone())
                }
                RespondAction::Run { input, mode } => {
                    let result = self.run_in(input, mode);
                    response.on_run(result)
                }
                RespondAction::Return(result) => return result,
                _ => panic!("not an action of a permission response"),
            };
        }
    }

    fn respond_question(&mut self, input: RespondQuestionInput) -> Result<RunOutcome, ToolError> {
        let (mut response, mut action) = QuestionResponse::begin(input);
        loop {
            action = match action {
                RespondAction::ListQuestions => {
                    let reply = self.questions.next();
                    response.on_questions(reply)
                }
                RespondAction::FetchSession(id) => {
                    let reply = self.fetch(&id);
                    response.on_session(reply)
                }
                RespondAction::ReplyQuestion { request_id, answers } => {
                    assert!(!answers.is_empty());
                    self.replies.push(request_id);
                    response.on_responded(self.replied.clone())
                }
                RespondAction::RejectQuestion { request_id } => {
                    self.replies.push(request_id);
                    response.on_responded(self.replied.clone())
                }
                RespondAction::Run { input, mode } => {
                    let result = self.run_in(input, mode);
                    response.on_run(result)
                }
                RespondAction::Return(result) => return result,
                _ => panic!("not an action of a question response"),
            };
        }
    }
}

fn run_input(root: &str) -> OrchestratorRunInput {
    OrchestratorRunInput {
        session_id: Some(root.to_string()),
        command: None,
        agent: None,
        message: None,
        wait_for_activity: None,
    }
}

fn prompt_input(root: &str, message: &str) -> OrchestratorRunInput {
    OrchestratorRunInput { message: Some(message.to_string()), ..run_input(root) }
}

fn command_input(root: &str, command: &str, message: &str) -> OrchestratorRunInput {
    OrchestratorRunInput {
        command: Some(command.to_string()),
        message: Some(message.to_string()),
        ..run_input(root)
    }
}

fn permission_input(root: &str, id: Option<&str>, reply: PermissionReply) -> RespondPermissionInput {
    RespondPermissionInput {
        session_id: root.to_string(),
        permission_request_id: id.map(|i| i.to_string()),
        reply,
        message: None,
    }
}

fn question_input(
    root: &str,
    id: Option<&str>,
    action: QuestionAction,
    answers: Vec<Vec<String>>,
) -> RespondQuestionInput {
    RespondQuestionInput {
        session_id: root.to_string(),
        question_request_id: id.map(|i| i.to_string()),
        action,
        answers,
    }
}

fn yes() -> Vec<Vec<String>> {
    vec![vec!["yes".to_string()]]
}

fn output(result: Result<RunOutcome, ToolError>) -> OrchestratorRunOutput {
    match result {
        Ok(outcome) => outcome.output,
        Err(error) => panic!("the call failed: {}", error.to_text()),
    }
}

fn failure(result: Result<RunOutcome, ToolError>) -> ToolError {
    match result {
        Ok(_) => panic!("the call succeeded"),
        Err(error) => error,
    }
}

// ---------------------------------------------------------------------------
// Requests of sessions below the root
// ---------------------------------------------------------------------------

#[test]
fn preflight_detects_direct_child_permission() {
    let root = "root-direct-permission";
    let child = "child-direct-permission";
    let mut server = fake().with_session(root, None).with_session(child, Some(root));
    server.permissions = Answers::new(vec![Ok(vec![permission(
        "permission-child",
        child,
        "file.write",
        &["/tmp/out"],
    )])]);
    let output = output(server.run(run_input(root)));
    assert!(matches!(output.status, RunStatus::PermissionRequired));
    assert_eq!(output.session_id, root);
    assert_eq!(output.permission_request_id.as_deref(), Some("permission-child"));
    assert_eq!(output.permission_type.as_deref(), Some("file.write"));
    assert_eq!(output.permission_patterns, vec!["/tmp/out".to_string()]);
}

#[test]
fn preflight_detects_deep_descendant_question() {
    let root = "root-deep-question";
    let child = "child-deep-question";
    let grandchild = "grandchild-deep-question";
    let mut server = fake()
        .with_session(root, None)
        .with_session(child, Some(root))
        .with_session(grandchild, Some(child));
    server.questions = Answers::new(vec![Ok(vec![decision(
        "question-grandchild",
        grandchild,
        "Continue?",
    )])]);
    let output = output(server.run(run_input(root)));
    assert!(matches!(output.status, RunStatus::QuestionRequired));
    assert_eq!(output.session_id, root);
    assert_eq!(output.question_request_id.as_deref(), Some("question-grandchild"));
    assert_eq!(output.questions[0].question, "Continue?");
    assert_eq!(output.questions[0].header, "Decision");
    assert!(output.questions[0].options.is_empty());
    assert!(!output.questions[0].multiple);
    assert!(output.questions[0].custom);
}

#[test]
fn preflight_excludes_unrelated_cycle_and_broken_parent_chains() {
    let root = "root-exclusions";
    let mut server = fake()
        .with_session(root, None)
        .with_session("unrelated", None)
        .with_session("cycle-a", Some("cycle-b"))
        .with_session("cycle-b", Some("cycle-a"))
        .with_session("broken", Some("missing-parent"));
    server.permissions = Answers::new(vec![Ok(vec![
        permission("permission-unrelated", "unrelated", "file.read", &["*"]),
        permission("permission-cycle", "cycle-a", "file.read", &["*"]),
        permission("permission-broken", "broken", "file.read", &["*"]),
    ])]);
    server.texts = Answers::new(vec![text("done")]);
    let output = output(server.run(run_input(root)));
    assert!(matches!(output.status, RunStatus::Completed));
    assert_eq!(output.response.as_deref(), Some("done"));
}

#[test]
fn selection_prefers_permission_then_depth_owner_and_request() {
    let root = "root-ordering";
    let mut server = fake()
        .with_session(root, None)
        .with_session("owner-b", Some(root))
        .with_session("owner-a", Some(root))
        .with_session("deep-parent", Some(root))
        .with_session("aaa-deep-owner", Some("deep-parent"));
    server.permissions = Answers::new(vec![Ok(vec![
        permission("request-0", "aaa-deep-owner", "file.read", &["*"]),
        permission("request-z", "owner-a", "file.read", &["*"]),
        permission("request-a", "owner-b", "file.read", &["*"]),
        permission("request-a", "owner-a", "file.read", &["*"]),
    ])]);
    server.questions = Answers::new(vec![Ok(vec![decision("root-question", root, "Root question?")])]);
    let output = output(server.run(run_input(root)));
    assert!(matches!(output.status, RunStatus::PermissionRequired));
    assert_eq!(output.permission_request_id.as_deref(), Some("request-a"));
}

#[test]
fn polling_detects_descendant_permission_after_empty_preflight() {
    let root = "root-polling";
    let child = "child-polling";
    let mut server = fake().with_session(root, None).with_session(child, Some(root));
    server.statuses = Answers::new(vec![busy()]);
    server.permissions = Answers::new(vec![
        Ok(vec![]),
        Ok(vec![permission("permission-poll", child, "bash", &["*"])]),
    ]);
    let output = output(server.run(prompt_input(root, "start work")));
    assert!(matches!(output.status, RunStatus::PermissionRequired));
    assert_eq!(output.session_id, root);
    assert_eq!(output.permission_request_id.as_deref(), Some("permission-poll"));
    assert_eq!(server.prompts, vec![("start work".to_string(), None)]);
}

#[test]
fn polling_detects_descendant_question_after_empty_preflight() {
    let root = "root-question-polling";
    let child = "child-question-polling";
    let mut server = fake().with_session(root, None).with_session(child, Some(root));
    server.statuses = Answers::new(vec![busy()]);
    server.questions = Answers::new(vec![
        Ok(vec![]),
        Ok(vec![decision("question-poll", child, "Continue polling?")]),
    ]);
    let output = output(server.run(prompt_input(root, "start work")));
    assert!(matches!(output.status, RunStatus::QuestionRequired));
    assert_eq!(output.session_id, root);
    assert_eq!(output.question_request_id.as_deref(), Some("question-poll"));
}

#[test]
fn sse_descendant_blocker_ignores_unrelated_ordinary_events() {
    let root = "root-sse-isolation";
    let child = "child-sse-isolation";
    let mut server = fake().with_session(root, None).with_session(child, Some(root));
    server.statuses = Answers::new(vec![busy()]);
    server.permissions = Answers::new(vec![
        Ok(vec![]),
        Ok(vec![permission("permission-sse-child", child, "bash", &["*"])]),
    ]);
    server.happenings = VecDeque::from(vec![
        Happening::Event(delta("unrelated", "unrelated-message", "must not leak")),
        session_idle("unrelated"),
        Happening::Event(Event::SessionError {
            session_id: Some("unrelated".to_string()),
            error: Some("must be ignored".to_string()),
        }),
        asked_permission("permission-sse-child", child),
    ]);
    let output = output(server.run(prompt_input(root, "start work")));
    assert!(matches!(output.status, RunStatus::PermissionRequired));
    assert_eq!(output.session_id, root);
    assert_eq!(output.permission_request_id.as_deref(), Some("permission-sse-child"));
    assert!(output.partial_response.is_none());
}

#[test]
fn sse_descendant_question_triggers_authoritative_scan() {
    let root = "root-sse-question";
    let child = "child-sse-question";
    let mut server = fake().with_session(root, None).with_session(child, Some(root));
    server.statuses = Answers::new(vec![busy()]);
    server.questions = Answers::new(vec![
        Ok(vec![]),
        Ok(vec![decision("question-sse-child", child, "Continue from child?")]),
    ]);
    server.happenings = VecDeque::from(vec![asked_question("question-sse-child", child)]);
    let output = output(server.run(prompt_input(root, "start work")));
    assert!(matches!(output.status, RunStatus::QuestionRequired));
    assert_eq!(output.session_id, root);
    assert_eq!(output.question_request_id.as_deref(), Some("question-sse-child"));
}

#[test]
fn sse_before_list_persistence_is_recovered_by_later_scan() {
    let root = "root-sse-race";
    let child = "child-sse-race";
    let mut server = fake().with_session(root, None).with_session(child, Some(root));
    server.statuses = Answers::new(vec![busy()]);
    server.permissions = Answers::new(vec![
        Ok(vec![]),
        Ok(vec![]),
        Ok(vec![]),
        Ok(vec![permission("permission-after-race", child, "bash", &["*"])]),
    ]);
    server.texts = Answers::new(vec![text("MUST_NOT_FINALIZE")]);
    server.happenings = VecDeque::from(vec![
        assistant_update("root-before-descendant-asked", root),
        session_idle(root),
        asked_permission("permission-after-race", child),
    ]);
    let output = output(server.run(prompt_input(root, "start work")));
    assert!(server.permissions.given >= 4);
    assert_eq!(output.permission_request_id.as_deref(), Some("permission-after-race"));
}

#[test]
fn transient_asked_event_ancestry_failure_stays_latched_until_blocker_is_visible() {
    let root = "root-transient-event-ancestry";
    let child = "child-transient-event-ancestry";
    let request_id = "permission-transient-event-ancestry";
    let mut server = fake().with_session(root, None);
    server.sessions.insert(
        child.to_string(),
        Answers::new(vec![
            Err(answered(503, "transient session lookup failure")),
            Ok(Some(root.to_string())),
        ]),
    );
    server.statuses = Answers::new(vec![busy(), idle()]);
    server.permissions = Answers::new(vec![
        Ok(vec![]),
        Ok(vec![]),
        Ok(vec![]),
        Ok(vec![]),
        Ok(vec![permission(request_id, child, "bash", &["*"])]),
    ]);
    server.texts = Answers::new(vec![text("MUST_NOT_COMPLETE")]);
    server.happenings = VecDeque::from(vec![
        asked_permission(request_id, child),
        assistant_update("root-after-transient-ancestry", root),
        session_idle(root),
    ]);
    let output = output(server.run(prompt_input(root, "start work")));
    assert!(matches!(output.status, RunStatus::PermissionRequired));
    assert_eq!(output.session_id, root);
    assert_eq!(output.permission_request_id.as_deref(), Some(request_id));
    assert!(output.response.is_none());
}

#[test]
fn unrelated_caller_response_event_does_not_delay_root_completion() {
    let root = "root-unrelated-event-control";
    let unrelated = "unrelated-event-owner";
    let mut server = fake().with_session(root, None).with_session(unrelated, None);
    server.statuses = Answers::new(vec![busy(), idle()]);
    server.texts = Answers::new(vec![text("ROOT_DONE")]);
    server.happenings = VecDeque::from(vec![
        asked_permission("permission-unrelated-event", unrelated),
        session_idle(root),
    ]);
    let output = output(server.run(run_input(root)));
    assert!(matches!(output.status, RunStatus::Completed));
    assert_eq!(output.response.as_deref(), Some("ROOT_DONE"));
    assert!(server.permissions.given >= 2);
    assert!(server.replies.is_empty());
}

#[test]
fn stale_eligible_event_latch_clears_after_two_authoritative_polls() {
    let root = "root-stale-event";
    let child = "child-stale-event";
    let mut server = fake().with_session(root, None).with_session(child, Some(root));
    server.statuses = Answers::new(vec![busy(), idle()]);
    server.texts = Answers::new(vec![text("STALE_EVENT_CLEARED")]);
    server.happenings = VecDeque::from(vec![
        asked_permission("permission-stale-event", child),
        assistant_update("root-stale-activity", root),
        session_idle(root),
    ]);
    let output = output(server.run(prompt_input(root, "start work")));
    assert!(matches!(output.status, RunStatus::Completed));
    assert_eq!(output.response.as_deref(), Some("STALE_EVENT_CLEARED"));
    assert!(server.permissions.given >= 5);
}

#[test]
fn respond_permission_accepts_descendant_explicit_id_and_resumes_root() {
    let root = "root-permission-reply";
    let child = "child-permission-reply";
    let request_id = "permission-descendant-reply";
    let mut server = fake().with_session(root, None).with_session(child, Some(root));
    server.permissions = Answers::new(vec![
        Ok(vec![permission(request_id, child, "file.write", &["/tmp/out"])]),
        Ok(vec![]),
    ]);
    server.statuses = Answers::new(vec![busy(), busy(), idle()]);
    server.texts = Answers::new(vec![text("ROOT_PERMISSION_DONE")]);
    let output = output(server.respond_permission(permission_input(
        root,
        Some(request_id),
        PermissionReply::Once,
    )));
    assert!(matches!(output.status, RunStatus::Completed));
    assert_eq!(output.session_id, root);
    assert_eq!(output.response.as_deref(), Some("ROOT_PERMISSION_DONE"));
    assert_eq!(server.replies, vec![request_id.to_string()]);
}

#[test]
fn respond_permission_rejects_unrelated_explicit_id() {
    let root = "root-permission-unrelated";
    let unrelated = "unrelated-permission-owner";
    let request_id = "permission-unrelated";
    let mut server = fake().with_session(unrelated, None);
    server.permissions =
        Answers::new(vec![Ok(vec![permission(request_id, unrelated, "file.read", &["*"])])]);
    let error = failure(server.respond_permission(permission_input(
        root,
        Some(request_id),
        PermissionReply::Once,
    )));
    assert!(error.to_text().contains("not session"));
    assert_eq!(
        error.to_text(),
        "invalid input: Permission request 'permission-unrelated' belongs to session \
         'unrelated-permission-owner', which is not session 'root-permission-unrelated' or an \
         eligible descendant."
    );
    assert!(server.replies.is_empty());
}

#[test]
fn respond_permission_fails_closed_on_explicit_id_ancestry_error() {
    let root = "root-permission-ancestry-error";
    let child = "child-permission-ancestry-error";
    let request_id = "permission-ancestry-error";
    let mut server = fake();
    server.sessions.insert(
        child.to_string(),
        Answers::new(vec![Err(answered(503, "session lookup unavailable"))]),
    );
    server.permissions =
        Answers::new(vec![Ok(vec![permission(request_id, child, "file.read", &["*"])])]);
    let error = failure(server.respond_permission(permission_input(
        root,
        Some(request_id),
        PermissionReply::Once,
    )));
    assert!(error.to_text().contains("Failed to verify permission request"));
    assert!(error.to_text().contains("503"));
    assert!(matches!(error, ToolError::Internal(_)));
    assert!(server.replies.is_empty());
}

#[test]
fn respond_question_accepts_descendant_explicit_id_and_resumes_root() {
    let root = "root-question-reply";
    let child = "child-question-reply";
    let request_id = "question-descendant-reply";
    let mut server = fake().with_session(root, None).with_session(child, Some(root));
    server.questions =
        Answers::new(vec![Ok(vec![decision(request_id, child, "Continue?")]), Ok(vec![])]);
    server.statuses = Answers::new(vec![busy(), busy(), idle()]);
    server.texts = Answers::new(vec![text("ROOT_QUESTION_DONE")]);
    let output = output(server.respond_question(question_input(
        root,
        Some(request_id),
        QuestionAction::Reply,
        yes(),
    )));
    assert!(matches!(output.status, RunStatus::Completed));
    assert_eq!(output.session_id, root);
    assert_eq!(output.response.as_deref(), Some("ROOT_QUESTION_DONE"));
}

#[test]
fn respond_question_rejects_unrelated_explicit_id() {
    let root = "root-question-unrelated";
    let unrelated = "unrelated-question-owner";
    let request_id = "question-unrelated";
    let mut server = fake().with_session(unrelated, None);
    server.questions = Answers::new(vec![Ok(vec![decision(request_id, unrelated, "Continue?")])]);
    let error = failure(server.respond_question(question_input(
        root,
        Some(request_id),
        QuestionAction::Reply,
        yes(),
    )));
    assert!(error.to_text().contains("not session"));
    assert!(server.replies.is_empty());
}

#[test]
fn respond_question_list_failure_has_no_compatibility_bypass() {
    let mut server = fake();
    server.questions =
        Answers::new(vec![Err(answered(400, r#"{"error":"invalid question state"}"#))]);
    let error = failure(server.respond_question(question_input(
        "root-question-list-error",
        Some("question-list-error"),
        QuestionAction::Reply,
        yes(),
    )));
    assert!(error.to_text().contains("Failed to list questions"));
    assert!(server.replies.is_empty());
}

#[test]
fn polling_final_confirmation_surfaces_new_descendant_blocker() {
    let root = "root-resume-idle-confirmation";
    let child = "child-resume-idle-confirmation";
    let request_id = "permission-resume-idle-confirmation";
    let mut server = fake().with_session(root, None).with_session(child, Some(root));
    server.permissions = Answers::new(vec![
        Ok(vec![]),
        Ok(vec![]),
        Ok(vec![]),
        Ok(vec![permission(request_id, child, "bash", &["*"])]),
    ]);
    server.texts = Answers::new(vec![text("MUST_NOT_COMPLETE")]);
    let output = output(server.run(run_input(root)));
    assert!(matches!(output.status, RunStatus::PermissionRequired));
    assert_eq!(output.session_id, root);
    assert_eq!(output.permission_request_id.as_deref(), Some(request_id));
    assert!(output.response.is_none());
}

// ---------------------------------------------------------------------------
// Sessions that are idle before anyone looks
// ---------------------------------------------------------------------------

#[test]
fn fast_idle_prompt_completes_without_hanging() {
    let sid = "fast-idle-prompt";
    let mut server = fake().with_session(sid, None);
    server.limits.idle_grace = 0;
    server.texts = Answers::new(vec![text("FAST_IDLE_DONE")]);
    let output = output(server.run(prompt_input(sid, "say hello")));
    assert!(matches!(output.status, RunStatus::Completed));
    assert_eq!(output.response.as_deref(), Some("FAST_IDLE_DONE"));
}

#[test]
fn fast_idle_resume_after_permission_reply_completes_without_hanging() {
    let sid = "fast-idle-resume";
    let mut server = fake().with_session(sid, None);
    server.limits.idle_grace = 0;
    server.permissions = Answers::new(vec![
        Ok(vec![permission("perm-fast-idle", sid, "file.write", &["/tmp/out.txt"])]),
        Ok(vec![]),
    ]);
    server.texts = Answers::new(vec![text("RESUME_DONE")]);
    let output =
        output(server.respond_permission(permission_input(sid, None, PermissionReply::Once)));
    assert!(matches!(output.status, RunStatus::Completed));
    assert_eq!(output.response.as_deref(), Some("RESUME_DONE"));
}

#[test]
fn idle_grace_deadline_rechecks_descendant_blocker_before_finalizing() {
    let root = "root-idle-grace-recheck";
    let child = "child-idle-grace-recheck";
    let request_id = "permission-idle-grace-recheck";
    let mut server = fake().with_session(root, None).with_session(child, Some(root));
    server.limits.idle_grace = SECOND / 20;
    server.permissions = Answers::new(vec![
        Ok(vec![]),
        Ok(vec![]),
        Ok(vec![permission(request_id, child, "bash", &["*"])]),
    ]);
    server.texts = Answers::new(vec![text("MUST_NOT_FINALIZE")]);
    let output = output(server.run(prompt_input(root, "start work")));
    assert!(matches!(output.status, RunStatus::PermissionRequired));
    assert_eq!(output.session_id, root);
    assert_eq!(output.permission_request_id.as_deref(), Some(request_id));
    assert!(output.response.is_none());
}

#[test]
fn respond_permission_known_id_replies_even_when_permission_list_bad_requests() {
    let sid = "permission-pre-reply-wedge";
    let perm_id = "perm-patch-pre";
    let mut server = fake().with_session(sid, None);
    server.limits.idle_grace = 0;
    server.permissions = Answers::new(vec![Err(answered(400, PATCH_FILE_ARRAY)), Ok(vec![])]);
    server.statuses = Answers::new(vec![busy(), idle()]);
    server.texts = Answers::new(vec![text("PRE_REPLY_DONE")]);
    let output = output(server.respond_permission(permission_input(
        sid,
        Some(perm_id),
        PermissionReply::Once,
    )));
    assert!(matches!(output.status, RunStatus::Completed));
    assert_eq!(output.response.as_deref(), Some("PRE_REPLY_DONE"));
    assert_eq!(
        output.warnings,
        vec![format!(
            "Permission validation failed for request 'perm-patch-pre' (HTTP error 400: \
             {PATCH_FILE_ARRAY}); submitting reply using the provided request id."
        )]
    );
    assert_eq!(server.replies, vec![perm_id.to_string()]);
}

#[test]
fn respond_permission_continues_after_reply_when_follow_up_permission_list_bad_requests() {
    let sid = "permission-post-reply-wedge";
    let perm_id = "perm-patch-post";
    let mut server = fake().with_session(sid, None);
    server.limits.idle_grace = 0;
    server.permissions = Answers::new(vec![
        Ok(vec![permission(perm_id, sid, "edit", &["src/lib.rs"])]),
        Err(answered(400, PATCH_FILE_ARRAY)),
        Ok(vec![]),
    ]);
    server.statuses = Answers::new(vec![busy(), idle()]);
    server.texts = Answers::new(vec![text("POST_REPLY_DONE")]);
    let output = output(server.respond_permission(permission_input(
        sid,
        Some(perm_id),
        PermissionReply::Once,
    )));
    assert!(matches!(output.status, RunStatus::Completed));
    assert_eq!(output.response.as_deref(), Some("POST_REPLY_DONE"));
    assert!(output
        .warnings
        .iter()
        .any(|warning| warning.contains("Permission refresh failed after reply")));
    assert_eq!(server.replies, vec![perm_id.to_string()]);
}

#[test]
fn run_tolerates_initial_permission_list_bad_request_with_warning() {
    let sid = "permission-strict-run";
    let mut server = fake().with_session(sid, None);
    server.limits.idle_grace = 0;
    server.permissions = Answers::new(vec![Err(answered(400, PATCH_FILE_ARRAY)), Ok(vec![])]);
    server.texts = Answers::new(vec![text("OK")]);
    let output = output(server.run(run_input(sid)));
    assert!(matches!(output.status, RunStatus::Completed));
    assert_eq!(output.response.as_deref(), Some("OK"));
    assert!(output.warnings.iter().any(|warning| {
        let warning = warning.to_lowercase();
        warning.contains("could not be listed")
            && warning.contains("stale")
            && warning.contains("malformed")
    }));
}

#[test]
fn respond_permission_no_id_permission_list_400_is_actionable_invalid_input() {
    let mut server = fake();
    server.permissions = Answers::new(vec![Err(answered(400, PATCH_FILE_ARRAY))]);
    match failure(server.respond_permission(permission_input(
        "permission-discovery-400",
        None,
        PermissionReply::Once,
    ))) {
        ToolError::InvalidInput(message) => {
            let message = message.to_lowercase();
            assert!(message.contains("could not be listed"));
            assert!(message.contains("permission_request_id"));
        }
        other => panic!("expected invalid input error, got {other:?}"),
    }
}

#[test]
fn respond_permission_reply_404_is_actionable_invalid_input() {
    let sid = "permission-reply-404";
    let perm_id = "perm-stale-404";
    let mut server = fake();
    server.permissions =
        Answers::new(vec![Ok(vec![permission(perm_id, sid, "file.write", &["/tmp/out.txt"])])]);
    server.replied =
        Err(answered(404, r#"{"name":"NotFound","message":"Permission request not found"}"#));
    match failure(server.respond_permission(permission_input(sid, None, PermissionReply::Once))) {
        ToolError::InvalidInput(message) => {
            assert_eq!(
                message,
                "Permission request 'perm-stale-404' was not found or is no longer pending (HTTP \
                 404). It may be stale. Re-run orchestrator_run(session_id='permission-reply-404') \
                 to get the latest permission_request_id and retry."
            );
        }
        other => panic!("expected invalid input error, got {other:?}"),
    }
    assert_eq!(server.replies, vec![perm_id.to_string()]);
}

#[test]
fn command_transport_error_after_start_evidence_warns_and_completes() {
    let sid = "command-transport-post-start";
    let mut server = fake().with_session(sid, None);
    server.limits.idle_grace = 0;
    server.statuses = Answers::new(vec![idle(), busy(), busy(), idle()]);
    server.texts = Answers::new(vec![Ok(None), Ok(None), text("COMMAND_DONE")]);
    server.happenings = VecDeque::from(vec![
        Happening::Tick,
        Happening::Command(CommandResult::Failed(transport())),
    ]);
    let output = output(server.run(command_input(sid, "implement_plan", "args")));
    assert!(matches!(output.status, RunStatus::Completed));
    assert_eq!(output.response.as_deref(), Some("COMMAND_DONE"));
    assert!(output.warnings.iter().any(|warning| {
        warning.contains("transport error") && warning.contains("continuing supervision")
    }));
    assert_eq!(server.commands.len(), 1);
}

#[test]
fn command_transport_error_before_start_evidence_fails_clearly() {
    let sid = "command-transport-pre-start";
    let mut server = fake().with_session(sid, None);
    server.limits.idle_grace = 0;
    server.happenings =
        VecDeque::from(vec![Happening::Command(CommandResult::Failed(transport()))]);
    match failure(server.run(command_input(sid, "implement_plan", "args"))) {
        ToolError::Internal(message) => {
            assert_eq!(
                message,
                "Failed to dispatch command 'implement_plan': transport error before session start \
                 evidence: Transport error: connection closed"
            );
        }
        other => panic!("expected internal dispatch failure, got {other:?}"),
    }
    assert_eq!(server.commands.len(), 1);
}

fn assert_command_dispatch_invalid_input(status: u16, body: &str) {
    let sid = format!("command-invalid-input-{status}");
    let mut server = fake().with_session(&sid, None);
    server.happenings =
        VecDeque::from(vec![Happening::Command(CommandResult::Failed(answered(status, body)))]);
    match failure(server.run(command_input(&sid, "implement_plan", "args"))) {
        ToolError::InvalidInput(message) => {
            let lower = message.to_lowercase();
            assert!(lower.contains("failed to dispatch command 'implement_plan'"));
            assert!(lower.contains("bad request") || lower.contains("not found"));
        }
        other => panic!("expected invalid input error, got {other:?}"),
    }
}

#[test]
fn command_dispatch_400_is_actionable_invalid_input() {
    assert_command_dispatch_invalid_input(
        400,
        r#"{"name":"BadRequest","message":"Bad request"}"#,
    );
}

#[test]
fn command_dispatch_404_is_actionable_invalid_input() {
    assert_command_dispatch_invalid_input(404, r#"{"name":"NotFound","message":"Not found"}"#);
}

#[test]
fn command_dispatch_posts_server_valid_message_id() {
    let sid = "command-valid-message-id";
    let mut server = fake().with_session(sid, None);
    server.statuses = Answers::new(vec![busy(), idle()]);
    server.texts = Answers::new(vec![text("COMMAND_DONE")]);
    server.happenings = VecDeque::from(vec![Happening::Command(CommandResult::Completed)]);
    let output = output(server.run(command_input(sid, "implement_plan", "args")));
    assert!(matches!(output.status, RunStatus::Completed));
    assert_eq!(output.response.as_deref(), Some("COMMAND_DONE"));
    let (command, arguments, message_id) = &server.commands[0];
    assert_eq!(command, "implement_plan");
    assert_eq!(arguments, "args");
    assert!(message_id.starts_with("msg_"));
    assert_eq!(message_id.len(), 30);
    assert!(message_id[4..16].chars().all(|c| c.is_ascii_digit() || ('a'..='f').contains(&c)));
    assert!(message_id[16..].chars().all(|c| c.is_ascii_alphanumeric()));
}

// ---------------------------------------------------------------------------
// Permissions
// ---------------------------------------------------------------------------

#[test]
fn command_precorrelation_deltas_are_returned_in_permission_partial_response() {
    let sid = "permission-sse-preview";
    let mut server = fake().with_session(sid, None);
    server.statuses = Answers::new(vec![busy()]);
    server.permissions = Answers::new(vec![
        Ok(vec![]),
        Ok(vec![]),
        Ok(vec![permission("permission-preview", sid, "bash", &["*"])]),
    ]);
    server.happenings = VecDeque::from(vec![
        Happening::CommandAnswer { message: "assistant-preview", text: "permission preview" },
        asked_permission("permission-preview", sid),
    ]);
    let output = output(server.run(command_input(sid, "implement_plan", "Do the work")));
    assert!(matches!(output.status, RunStatus::PermissionRequired));
    assert_eq!(output.partial_response.as_deref(), Some("permission preview"));
    assert_eq!(output.permission_request_id.as_deref(), Some("permission-preview"));
}

#[test]
fn it_bug1_completion_retries_messages_until_visible() {
    let sid = "s1";
    let mut server = fake().with_session(sid, None);
    server.statuses = Answers::new(vec![busy(), busy(), idle()]);
    server.texts = Answers::new(vec![Ok(None), text("FINAL_RESPONSE")]);
    let output = output(server.run(prompt_input(sid, "test prompt")));
    assert!(matches!(output.status, RunStatus::Completed));
    assert_eq!(output.response.as_deref(), Some("FINAL_RESPONSE"));
    assert_eq!(server.delays, vec![0, 50]);
}

#[test]
fn it_bug2_reject_returns_none_and_warning_not_stale_text() {
    let sid = "s2";
    let mut server = fake().with_session(sid, None);
    server.permissions = Answers::new(vec![
        Ok(vec![permission("perm-123", sid, "file.write", &["/tmp/test.txt"])]),
        Ok(vec![]),
    ]);
    server.texts = Answers::new(vec![text("I_WILL_CREATE_FILE")]);
    let output =
        output(server.respond_permission(permission_input(sid, None, PermissionReply::Reject)));
    assert!(matches!(output.status, RunStatus::Completed));
    assert!(output.response.is_none());
    assert_eq!(
        output.warnings,
        vec![
            "Permission rejected for 'file.write'. Patterns: /tmp/test.txt. Session stopped without \
             generating a new assistant response."
                .to_string()
        ]
    );
}

#[test]
fn it_bug3_respond_permission_returns_response_without_resumption() {
    let sid = "s3";
    let mut server = fake().with_session(sid, None);
    server.statuses = Answers::new(vec![idle(), busy(), idle()]);
    server.permissions = Answers::new(vec![
        Ok(vec![permission("perm-456", sid, "file.write", &["/tmp/out.txt"])]),
        Ok(vec![]),
    ]);
    server.early_text = Some((2, Ok(None)));
    server.texts = Answers::new(vec![text("PERMISSION_GRANTED_RESPONSE")]);
    let output =
        output(server.respond_permission(permission_input(sid, None, PermissionReply::Once)));
    assert!(matches!(output.status, RunStatus::Completed));
    assert_eq!(output.response.as_deref(), Some("PERMISSION_GRANTED_RESPONSE"));
    assert!(server.statuses.given >= 3);
}

#[test]
fn it_bug5_respond_permission_waits_and_does_not_return_stale_pre_permission_text() {
    let sid = "s5";
    let mut server = fake().with_session(sid, None);
    server.permissions = Answers::new(vec![
        Ok(vec![permission("perm-999", sid, "file.write", &["/tmp/out.txt"])]),
        Ok(vec![]),
    ]);
    server.statuses = Answers::new(vec![
        busy(),
        idle(),
        Ok(SessionStatusInfo::Retry { attempt: 1, message: "retrying".to_string(), next: 0 }),
        idle(),
    ]);
    server.early_text = Some((3, text("PRE_PERMISSION_TEXT")));
    server.texts = Answers::new(vec![text("POST_PERMISSION_TEXT")]);
    let output =
        output(server.respond_permission(permission_input(sid, None, PermissionReply::Once)));
    assert!(matches!(output.status, RunStatus::Completed));
    assert_eq!(output.response.as_deref(), Some("POST_PERMISSION_TEXT"));
    assert!(server.statuses.given >= 4);
}

#[test]
fn it_bug4_command_dispatch_transport_error_does_not_retry_without_start_evidence() {
    let sid = "s4";
    let mut server = fake().with_session(sid, None);
    server.happenings =
        VecDeque::from(vec![Happening::Command(CommandResult::Failed(transport()))]);
    let error = failure(server.run(command_input(sid, "test_cmd", "test args")));
    let message = error.to_text().to_lowercase();
    assert!(message.contains("transport error before session start evidence"));
    assert_eq!(server.commands.len(), 1);
}

// ---------------------------------------------------------------------------
// Questions
// ---------------------------------------------------------------------------

#[test]
fn command_precorrelation_deltas_are_returned_in_question_partial_response() {
    let sid = "question-sse-preview";
    let mut server = fake().with_session(sid, None);
    server.statuses = Answers::new(vec![busy()]);
    server.questions = Answers::new(vec![
        Ok(vec![]),
        Ok(vec![]),
        Ok(vec![question("question-preview", sid, "Continue?")]),
    ]);
    server.happenings = VecDeque::from(vec![
        Happening::CommandAnswer { message: "assistant-preview", text: "question preview" },
        asked_question("question-preview", sid),
    ]);
    let output = output(server.run(command_input(sid, "implement_plan", "Do the work")));
    assert!(matches!(output.status, RunStatus::QuestionRequired));
    assert_eq!(output.partial_response.as_deref(), Some("question preview"));
    assert_eq!(output.question_request_id.as_deref(), Some("question-preview"));
}

#[test]
fn pending_question_preflight_returns_question_required() {
    let sid = "question-preflight";
    let mut server = fake().with_session(sid, None);
    server.questions = Answers::new(vec![Ok(vec![question("question-1", sid, "Continue?")])]);
    let output = output(server.run(run_input(sid)));
    assert!(matches!(output.status, RunStatus::QuestionRequired));
    assert_eq!(output.question_request_id.as_deref(), Some("question-1"));
    assert_eq!(output.questions.len(), 1);
    assert_eq!(output.questions[0].question, "Continue?");
}

#[test]
fn poll_detected_question_returns_question_required() {
    let sid = "question-poll";
    let mut server = fake().with_session(sid, None);
    server.questions = Answers::new(vec![
        Ok(vec![]),
        Ok(vec![question("question-2", sid, "Approve rollout?")]),
    ]);
    let output = output(server.run(prompt_input(sid, "Do the work")));
    assert!(matches!(output.status, RunStatus::QuestionRequired));
    assert_eq!(output.question_request_id.as_deref(), Some("question-2"));
    assert_eq!(output.questions[0].question, "Approve rollout?");
}

#[test]
fn respond_question_reply_resumes_to_completed() {
    let sid = "question-reply";
    let mut server = fake().with_session(sid, None);
    server.questions = Answers::new(vec![
        Ok(vec![question("question-3", sid, "Continue deployment?")]),
        Ok(vec![]),
    ]);
    server.statuses = Answers::new(vec![busy(), busy(), idle()]);
    server.texts = Answers::new(vec![text("QUESTION_REPLY_DONE")]);
    let output = output(server.respond_question(question_input(
        sid,
        None,
        QuestionAction::Reply,
        yes(),
    )));
    assert!(matches!(output.status, RunStatus::Completed));
    assert_eq!(output.response.as_deref(), Some("QUESTION_REPLY_DONE"));
    assert_eq!(server.replies, vec!["question-3".to_string()]);
}

#[test]
fn respond_question_reject_completes_cleanly() {
    let sid = "question-reject";
    let mut server = fake().with_session(sid, None);
    server.questions =
        Answers::new(vec![Ok(vec![question("question-4", sid, "Reject this?")]), Ok(vec![])]);
    let output = output(server.respond_question(question_input(
        sid,
        None,
        QuestionAction::Reject,
        vec![],
    )));
    assert!(matches!(output.status, RunStatus::Completed));
    assert!(output.response.is_none());
    assert_eq!(server.delays, vec![0, 50, 100, 200, 400]);
}

#[test]
fn permission_priority_wins_over_question() {
    let sid = "question-priority";
    let mut server = fake().with_session(sid, None);
    server.permissions = Answers::new(vec![Ok(vec![permission(
        "perm-priority",
        sid,
        "file.write",
        &["/tmp/out.txt"],
    )])]);
    server.questions = Answers::new(vec![Ok(vec![question("question-priority", sid, "Continue?")])]);
    let output = output(server.run(run_input(sid)));
    assert!(matches!(output.status, RunStatus::PermissionRequired));
    assert!(output.question_request_id.is_none());
}

#[test]
fn respond_question_by_id_lookup() {
    let sid = "question-by-id";
    let question_id = "question-specific";
    let mut server = fake().with_session(sid, None);
    server.questions = Answers::new(vec![
        Ok(vec![
            question("question-other", sid, "First question?"),
            question(question_id, sid, "Second question?"),
        ]),
        Ok(vec![]),
    ]);
    server.statuses = Answers::new(vec![busy(), busy(), idle()]);
    server.texts = Answers::new(vec![text("Reply done")]);
    let output = output(server.respond_question(question_input(
        sid,
        Some(question_id),
        QuestionAction::Reply,
        yes(),
    )));
    assert!(matches!(output.status, RunStatus::Completed));
    assert_eq!(server.replies, vec![question_id.to_string()]);
}

#[test]
fn multiple_pending_questions_returns_ambiguity_error() {
    let sid = "question-ambiguous";
    let mut server = fake();
    server.questions = Answers::new(vec![Ok(vec![
        question("q1", sid, "First question?"),
        question("q2", sid, "Second question?"),
    ])]);
    let error = failure(server.respond_question(question_input(
        sid,
        None,
        QuestionAction::Reply,
        yes(),
    )));
    assert_eq!(
        error.to_text(),
        "invalid input: Multiple pending questions found for session 'question-ambiguous': q1, q2. \
         Please retry with question_request_id (returned by run)."
    );
}

#[test]
fn reply_with_empty_answers_returns_validation_error() {
    let sid = "question-empty-answers";
    let mut server = fake();
    server.questions = Answers::new(vec![Ok(vec![question("q-empty", sid, "Continue?")])]);
    let error = failure(server.respond_question(question_input(
        sid,
        None,
        QuestionAction::Reply,
        vec![],
    )));
    assert_eq!(error.to_text(), "invalid input: answers is required when action=reply");
}

// ---------------------------------------------------------------------------
// More ways a call can go
// ---------------------------------------------------------------------------

#[test]
fn input_faults_are_named_in_order() {
    let fault = |input: OrchestratorRunInput| failure(fake().run(input)).to_text();
    let empty = OrchestratorRunInput {
        session_id: None,
        command: None,
        agent: None,
        message: None,
        wait_for_activity: None,
    };
    assert_eq!(
        fault(empty.clone()),
        "invalid input: Either session_id (to resume/check status) or message/command (to start \
         work) is required"
    );
    assert_eq!(
        fault(OrchestratorRunInput { command: Some("c".into()), ..empty.clone() }),
        "invalid input: message is required when command is specified (becomes $ARGUMENTS for \
         template expansion)"
    );
    assert_eq!(
        fault(OrchestratorRunInput {
            command: Some("c".into()),
            agent: Some("a".into()),
            message: Some(" ".into()),
            ..empty.clone()
        }),
        "invalid input: agent cannot be provided when command is specified"
    );
    assert_eq!(
        fault(OrchestratorRunInput { message: Some(" \n\t".into()), ..empty.clone() }),
        "invalid input: message cannot be empty or whitespace-only"
    );
    assert_eq!(
        fault(OrchestratorRunInput {
            message: Some("m".into()),
            agent: Some("\u{a0}".into()),
            ..empty
        }),
        "invalid input: agent cannot be empty or whitespace-only"
    );
}

#[test]
fn prompts_go_out_trimmed_with_their_agent() {
    let mut server = fake().with_session("created", None);
    server.statuses = Answers::new(vec![busy(), busy(), idle()]);
    server.texts = Answers::new(vec![text("done")]);
    let output = output(server.run(OrchestratorRunInput {
        session_id: None,
        command: None,
        agent: Some(" Plan\n".into()),
        message: Some("\u{2003}explain this  code \n".into()),
        wait_for_activity: None,
    }));
    assert_eq!(output.session_id, "created");
    assert_eq!(
        server.prompts,
        vec![("explain this  code".to_string(), Some("Plan".to_string()))]
    );
}

#[test]
fn missing_sessions_are_invalid_input() {
    assert_eq!(
        failure(fake().run(run_input("gone"))).to_text(),
        "invalid input: Session 'gone' not found. Use list_sessions to discover sessions, or omit \
         session_id to create a new session."
    );
    let mut server = fake();
    server
        .sessions
        .insert("s".to_string(), Answers::new(vec![Err(http(500, "HTTP error 500: oops"))]));
    assert_eq!(
        failure(server.run(run_input("s"))).to_text(),
        "internal error: Failed to get session: HTTP error 500: oops"
    );
    match take_created_session(Err(http(500, "HTTP error 500: oops"))) {
        Err(error) => assert_eq!(
            error.to_text(),
            "internal error: Failed to create session: HTTP error 500: oops"
        ),
        Ok(_) => panic!("no session was created"),
    }
}

#[test]
fn failures_before_the_wait_end_the_run() {
    let mut server = fake().with_session("s", None);
    server.statuses = Answers::new(vec![Err(http(500, "no status"))]);
    assert_eq!(
        failure(server.run(run_input("s"))).to_text(),
        "internal error: Failed to get session status: no status"
    );

    let mut server = fake().with_session("s", None);
    server.permissions = Answers::new(vec![Err(http(500, "no permissions"))]);
    assert_eq!(
        failure(server.run(run_input("s"))).to_text(),
        "internal error: Failed to list permissions: no permissions"
    );

    let mut server = fake().with_session("s", None);
    server.questions = Answers::new(vec![Err(http(400, "no questions"))]);
    assert_eq!(
        failure(server.run(run_input("s"))).to_text(),
        "internal error: Failed to list questions: no questions"
    );

    let mut server = fake().with_session("s", None);
    server.subscription = Err(http(500, "no events"));
    assert_eq!(
        failure(server.run(run_input("s"))).to_text(),
        "internal error: Failed to subscribe to events: no events"
    );

    let mut server = fake().with_session("s", None);
    server.prompt = Err(http(500, "no prompt"));
    assert_eq!(
        failure(server.run(prompt_input("s", "m"))).to_text(),
        "internal error: Failed to send prompt: no prompt"
    );
}

#[test]
fn failed_listings_during_the_wait_only_delay_completion() {
    let mut server = fake().with_session("s", None);
    server.permissions = Answers::new(vec![Ok(vec![]), Err(http(500, "down")), Ok(vec![])]);
    server.questions = Answers::new(vec![Ok(vec![]), Err(http(500, "down")), Ok(vec![])]);
    server.texts = Answers::new(vec![text("done")]);
    let output = output(server.run(run_input("s")));
    assert_eq!(output.response.as_deref(), Some("done"));
    assert!(output.warnings.is_empty());
}

#[test]
fn quiet_and_long_runs_time_out() {
    let mut server = fake().with_session("s", None);
    server.limits.idle_grace = 3000 * SECOND;
    server.statuses = Answers::new(vec![idle()]);
    assert_eq!(
        failure(server.run(prompt_input("s", "m"))).to_text(),
        "internal error: Session idle timeout: no activity for 5 minutes (session_id=s). The session \
         may still be running; use run(session_id=...) to check status."
    );

    let mut server = fake().with_session("s", None);
    server.limits.session_deadline = 20 * SECOND;
    server.statuses = Answers::new(vec![busy()]);
    assert_eq!(
        failure(server.run(prompt_input("s", "m"))).to_text(),
        "internal error: Session execution timed out after 1 hour. The session may still be running; \
         use run with the session_id to check status."
    );
}

#[test]
fn cancellation_stops_the_command() {
    let mut server = fake().with_session("s", None);
    server.happenings = VecDeque::from(vec![Happening::Cancel]);
    let error = failure(server.run(command_input("s", "c", "m")));
    assert_eq!(error.to_text(), "cancelled");
    assert!(matches!(error, ToolError::Cancelled(None)));
    assert!(server.aborted);
}

#[test]
fn session_errors_end_the_run() {
    let error_event = |error: Option<&str>| {
        Happening::Event(Event::SessionError {
            session_id: Some("s".to_string()),
            error: error.map(|e| e.to_string()),
        })
    };
    let mut server = fake().with_session("s", None);
    server.happenings = VecDeque::from(vec![error_event(Some("it broke"))]);
    assert_eq!(
        failure(server.run(prompt_input("s", "m"))).to_text(),
        "internal error: Session error: it broke"
    );
    let mut server = fake().with_session("s", None);
    server.happenings = VecDeque::from(vec![error_event(None)]);
    assert_eq!(
        failure(server.run(prompt_input("s", "m"))).to_text(),
        "internal error: Session error: Unknown error"
    );
}

#[test]
fn other_command_failures_end_the_run() {
    let mut server = fake().with_session("s", None);
    server.happenings =
        VecDeque::from(vec![Happening::Command(CommandResult::Failed(http(500, "oops")))]);
    assert_eq!(
        failure(server.run(command_input("s", "c", "m"))).to_text(),
        "internal error: Failed to dispatch command 'c': oops"
    );
    let mut server = fake().with_session("s", None);
    server.happenings =
        VecDeque::from(vec![Happening::Command(CommandResult::Panicked("boom".to_string()))]);
    assert_eq!(
        failure(server.run(command_input("s", "c", "m"))).to_text(),
        "internal error: Command task panicked: boom"
    );
}

#[test]
fn a_busy_session_shows_that_a_lost_command_had_started() {
    let mut server = fake().with_session("s", None);
    server.statuses = Answers::new(vec![idle(), busy(), idle()]);
    server.texts = Answers::new(vec![text("done")]);
    server.happenings =
        VecDeque::from(vec![Happening::Command(CommandResult::Failed(transport()))]);
    let output = output(server.run(command_input("s", "c", "m")));
    assert_eq!(output.response.as_deref(), Some("done"));
    assert_eq!(
        output.warnings,
        vec![
            "OpenCode command transport error after start evidence; continuing supervision: \
             Transport error: connection closed"
                .to_string()
        ]
    );
}

#[test]
fn a_run_without_new_work_needs_two_idle_polls_while_events_come_in() {
    let mut server = fake().with_session("s", None);
    server.texts = Answers::new(vec![text("done")]);
    assert_eq!(output(server.run(run_input("s"))).response.as_deref(), Some("done"));
    assert_eq!(server.ticks, 2);

    let mut server = fake().with_session("s", None);
    server.texts = Answers::new(vec![text("done")]);
    server.happenings = VecDeque::from(vec![Happening::Closed]);
    assert_eq!(output(server.run(run_input("s"))).response.as_deref(), Some("done"));
    assert_eq!(server.ticks, 1);
}

#[test]
fn a_reply_event_releases_a_held_request() {
    let root = "root";
    let mut server = fake().with_session(root, None).with_session("child", Some(root));
    server.statuses = Answers::new(vec![busy(), idle()]);
    server.texts = Answers::new(vec![text("done")]);
    server.happenings = VecDeque::from(vec![
        asked_question("q", "child"),
        asked_permission("p", "child"),
        assistant_update("m", root),
        Happening::Event(Event::PermissionReplied {
            request: RequestRef { session_id: "child".to_string(), request_id: "p".to_string() },
        }),
        Happening::Event(Event::QuestionRejected {
            request: RequestRef { session_id: "child".to_string(), request_id: "q".to_string() },
        }),
    ]);
    assert_eq!(output(server.run(prompt_input(root, "m"))).response.as_deref(), Some("done"));
    // With both requests held, two more polls would have been needed.
    assert_eq!(server.ticks, 2);
}

#[test]
fn a_full_context_is_summarized_at_the_end() {
    let tokens = TokenStanding {
        compaction_needed: true,
        provider_id: Some("provider".to_string()),
        model_id: Some("model".to_string()),
        token_usage: Some(agentic_logging::TokenUsage {
            prompt: 1,
            completion: 2,
            total: 3,
            reasoning_tokens: None,
        }),
        token_usage_saturated: true,
    };
    let mut server = fake().with_session("s", None);
    server.tokens = tokens.clone();
    server.texts = Answers::new(vec![text("done")]);
    server.happenings = VecDeque::from(vec![assistant_update("m", "s")]);
    match server.run(prompt_input("s", "m")) {
        Ok(outcome) => {
            assert_eq!(
                outcome.output.warnings,
                vec!["Context limit reached; summarization triggered".to_string()]
            );
            assert!(outcome.log_meta.token_usage_saturated);
            assert_eq!(outcome.log_meta.token_usage.map(|usage| usage.total), Some(3));
        }
        Err(error) => panic!("the call failed: {}", error.to_text()),
    }
    assert_eq!(server.summaries, vec![("provider".to_string(), "model".to_string())]);

    let mut server = fake().with_session("s", None);
    server.tokens = tokens;
    server.summarized = Err(http(500, "no summary"));
    server.texts = Answers::new(vec![text("done")]);
    server.happenings = VecDeque::from(vec![assistant_update("m", "s")]);
    assert_eq!(
        output(server.run(prompt_input("s", "m"))).warnings,
        vec!["Summarization failed: no summary".to_string()]
    );
}

#[test]
fn events_of_other_sessions_do_not_count_tokens() {
    let mut server = fake().with_session("s", None);
    server.tokens.compaction_needed = true;
    server.tokens.provider_id = Some("p".to_string());
    server.tokens.model_id = Some("m".to_string());
    server.texts = Answers::new(vec![text("done")]);
    server.happenings = VecDeque::from(vec![assistant_update("m", "other")]);
    assert!(output(server.run(run_input("s"))).warnings.is_empty());
    assert!(server.summaries.is_empty());
}

#[test]
fn a_failing_transcript_ends_the_run() {
    let mut server = fake().with_session("s", None);
    server.texts = Answers::new(vec![Ok(None), Err(http(500, "gone"))]);
    assert_eq!(
        failure(server.run(run_input("s"))).to_text(),
        "internal error: Failed to list messages: gone"
    );
}

#[test]
fn discovery_names_owners_that_could_not_be_verified() {
    let mut server = fake();
    for owner in ["b", "a"] {
        server.sessions.insert(
            owner.to_string(),
            Answers::new(vec![Err(http(503, &format!("no {owner}")))]),
        );
    }
    server.permissions = Answers::new(vec![Ok(vec![
        permission("p3", "b", "bash", &[]),
        permission("p2", "a", "bash", &[]),
        permission("p1", "a", "bash", &[]),
        permission("own", "root", "bash", &[]),
    ])]);
    assert_eq!(
        failure(server.respond_permission(permission_input("root", None, PermissionReply::Once)))
            .to_text(),
        "internal error: Unable to safely discover a pending permission for root session 'root': \
         request ancestry could not be verified (request 'p1' owned by session 'a': no a; request \
         'p2' owned by session 'a': no a; request 'p3' owned by session 'b': no b). Retry after the \
         OpenCode session endpoint recovers, or provide permission_request_id returned by run."
    );
    assert!(server.replies.is_empty());
}

#[test]
fn discovery_finds_nothing_or_too_much() {
    let mut server = fake().with_session("child", Some("root")).with_session("lone", None);
    server.permissions =
        Answers::new(vec![Ok(vec![permission("p", "lone", "bash", &[])])]);
    assert_eq!(
        failure(server.respond_permission(permission_input("root", None, PermissionReply::Once)))
            .to_text(),
        "invalid input: No pending permission found for session 'root'. The permission may have \
         already been responded to."
    );
    server.permissions = Answers::new(vec![Ok(vec![
        permission("p1", "child", "bash", &[]),
        permission("p3", "root", "bash", &[]),
        permission("p2", "root", "bash", &[]),
    ])]);
    assert_eq!(
        failure(server.respond_permission(permission_input("root", None, PermissionReply::Once)))
            .to_text(),
        "invalid input: Multiple pending permissions found for session 'root': p2, p3, p1. Please \
         retry with permission_request_id (returned by run)."
    );
}

#[test]
fn owners_and_requests_are_ordered_by_id() {
    let root = "root";
    let mut server = fake().with_session("owner-b", Some(root)).with_session("owner-a", Some(root));
    server = server.with_session(root, None);
    server.permissions = Answers::new(vec![Ok(vec![
        permission("request-z", "owner-a", "bash", &[]),
        permission("request-a", "owner-b", "file.write", &[]),
        permission("request-a", "owner-a", "file.read", &[]),
    ])]);
    let shown = output(server.run(run_input(root)));
    assert_eq!(shown.permission_request_id.as_deref(), Some("request-a"));
    assert_eq!(shown.permission_type.as_deref(), Some("file.read"));

    server.questions = Answers::new(vec![Ok(vec![
        question("q2", "owner-a", "Second question?"),
        question("q3", root, "Third question?"),
        question("q1", "owner-a", "First question?"),
    ])]);
    assert!(failure(server.respond_question(question_input(
        root,
        None,
        QuestionAction::Reply,
        yes()
    )))
    .to_text()
    .contains("q3, q1, q2."));
}

#[test]
fn command_arguments_are_trimmed() {
    let mut server = fake().with_session("s", None);
    server.happenings = VecDeque::from(vec![Happening::Command(CommandResult::Panicked(
        "boom".to_string(),
    ))]);
    failure(server.run(command_input("s", " c ", " args ")));
    assert_eq!((server.commands[0].0.as_str(), server.commands[0].1.as_str()), (" c ", "args"));
}

#[test]
fn the_named_request_is_the_one_answered() {
    let tree = || {
        fake()
            .with_session("root", None)
            .with_session("child", Some("root"))
            .with_session("other", Some("root"))
    };
    let mut server = tree();
    server.permissions = Answers::new(vec![
        Ok(vec![
            permission("p1", "other", "bash", &[]),
            permission("p2", "child", "bash", &[]),
        ]),
        Ok(vec![]),
    ]);
    output(server.respond_permission(permission_input("root", Some("p2"), PermissionReply::Reject)));
    assert_eq!(server.replies, vec!["p2".to_string()]);

    let mut server = tree();
    server.questions = Answers::new(vec![
        Ok(vec![question("q1", "other", "?"), question("q2", "child", "?")]),
        Ok(vec![]),
    ]);
    output(server.respond_question(question_input(
        "root",
        Some("q2"),
        QuestionAction::Reply,
        yes(),
    )));
    assert_eq!(server.replies, vec!["q2".to_string()]);
}

#[test]
fn a_permission_below_the_root_needs_its_id() {
    let pending = || Answers::new(vec![Ok(vec![permission("p", "child", "bash", &["*"])]), Ok(vec![])]);
    for reply in [PermissionReply::Once, PermissionReply::Always, PermissionReply::Reject] {
        let mut server = fake().with_session("root", None).with_session("child", Some("root"));
        server.permissions = pending();
        let error = failure(server.respond_permission(permission_input("root", None, reply)));
        assert!(matches!(error, ToolError::InvalidInput(_)));
        assert_eq!(
            error.to_text(),
            "invalid input: Permission request 'p' belongs to session 'child', a descendant of \
             session 'root'. Please retry with permission_request_id (returned by run)."
        );
        assert!(server.replies.is_empty());
    }

    let mut server = fake().with_session("root", None).with_session("child", Some("root"));
    server.permissions = pending();
    server.texts = Answers::new(vec![text("done")]);
    let named = permission_input("root", Some("p"), PermissionReply::Once);
    assert_eq!(output(server.respond_permission(named)).response.as_deref(), Some("done"));
    assert_eq!(server.replies, vec!["p".to_string()]);
}

#[test]
fn a_question_below_the_root_needs_its_id() {
    let pending = || Answers::new(vec![Ok(vec![question("q", "grandchild", "?")]), Ok(vec![])]);
    let tree = || {
        fake()
            .with_session("root", None)
            .with_session("child", Some("root"))
            .with_session("grandchild", Some("child"))
    };
    for action in [QuestionAction::Reply, QuestionAction::Reject] {
        let mut server = tree();
        server.questions = pending();
        let error = failure(server.respond_question(question_input("root", None, action, yes())));
        assert!(matches!(error, ToolError::InvalidInput(_)));
        assert_eq!(
            error.to_text(),
            "invalid input: Question request 'q' belongs to session 'grandchild', a descendant of \
             session 'root'. Please retry with question_request_id (returned by run)."
        );
        assert!(server.replies.is_empty());
    }

    let mut server = tree();
    server.questions = pending();
    server.texts = Answers::new(vec![text("done")]);
    let named = question_input("root", Some("q"), QuestionAction::Reply, yes());
    assert_eq!(output(server.respond_question(named)).response.as_deref(), Some("done"));
    assert_eq!(server.replies, vec!["q".to_string()]);
}

#[test]
fn an_event_of_an_owner_outside_the_tree_is_not_held() {
    let root = "root";
    for owner in ["top", "gone"] {
        let mut server = fake().with_session(root, None).with_session("top", None);
        server.statuses = Answers::new(vec![busy(), idle()]);
        server.texts = Answers::new(vec![text("done")]);
        server.happenings =
            VecDeque::from(vec![asked_question("q", owner), assistant_update("m", root)]);
        let shown = output(server.run(prompt_input(root, "m")));
        assert_eq!(shown.response.as_deref(), Some("done"));
        assert_eq!(server.ticks, 2);
    }
}

#[test]
fn a_named_request_must_be_pending() {
    let mut server = fake();
    assert_eq!(
        failure(server.respond_permission(permission_input(
            "root",
            Some("p"),
            PermissionReply::Always
        )))
        .to_text(),
        "invalid input: No pending permission found with id 'p'. (session_id='root')"
    );
    assert_eq!(
        failure(server.respond_question(question_input(
            "root",
            Some("q"),
            QuestionAction::Reject,
            vec![]
        )))
        .to_text(),
        "invalid input: No pending question found with id 'q'. (session_id='root')"
    );
    server.permissions = Answers::new(vec![Err(http(500, "down"))]);
    assert_eq!(
        failure(server.respond_permission(permission_input(
            "root",
            Some("p"),
            PermissionReply::Always
        )))
        .to_text(),
        "internal error: Failed to list permissions: down"
    );
}

#[test]
fn failed_replies_end_the_response() {
    let mut server = fake();
    server.permissions = Answers::new(vec![Ok(vec![permission("p", "root", "bash", &[])])]);
    server.questions = Answers::new(vec![Ok(vec![question("q", "root", "?")])]);
    server.replied = Err(http(500, "down"));
    assert_eq!(
        failure(server.respond_permission(permission_input("root", None, PermissionReply::Once)))
            .to_text(),
        "internal error: Failed to reply to permission: down"
    );
    assert_eq!(
        failure(server.respond_question(question_input("root", None, QuestionAction::Reply, yes())))
            .to_text(),
        "internal error: Failed to reply to question: down"
    );
    assert_eq!(
        failure(server.respond_question(question_input(
            "root",
            None,
            QuestionAction::Reject,
            vec![]
        )))
        .to_text(),
        "internal error: Failed to reject question: down"
    );
}

#[test]
fn new_text_after_a_rejection_is_kept() {
    let mut server = fake().with_session("root", None);
    server.permissions =
        Answers::new(vec![Ok(vec![permission("p", "root", "bash", &[])]), Ok(vec![])]);
    server.texts = Answers::new(vec![text("before"), text("after")]);
    let kept =
        output(server.respond_permission(permission_input("root", None, PermissionReply::Reject)));
    assert_eq!(kept.response.as_deref(), Some("after"));
    assert!(kept.warnings.is_empty());
}

#[test]
fn a_rejection_without_baseline_warns_and_lists_no_patterns() {
    let mut server = fake().with_session("root", None);
    server.permissions =
        Answers::new(vec![Ok(vec![permission("p", "root", "bash", &[])]), Ok(vec![])]);
    server.texts = Answers::new(vec![Err(http(500, "down")), Ok(None)]);
    let shown =
        output(server.respond_permission(permission_input("root", None, PermissionReply::Reject)));
    assert!(shown.response.is_none());
    assert_eq!(
        shown.warnings,
        vec![
            "Failed to fetch baseline messages: down".to_string(),
            "Permission rejected for 'bash'. Patterns: (none). Session stopped without generating a \
             new assistant response."
                .to_string(),
        ]
    );
}

#[test]
fn text_of_an_uncorrelated_message_never_reaches_the_caller() {
    let sid = "root";
    let mut server = fake().with_session(sid, None);
    server.statuses = Answers::new(vec![busy()]);
    server.permissions = Answers::new(vec![
        Ok(vec![]),
        Ok(vec![permission("p", sid, "bash", &[])]),
    ]);
    server.happenings = VecDeque::from(vec![
        Happening::Event(delta(sid, "stray", "must not show")),
        assistant_update("stray", sid),
        asked_permission("p", sid),
    ]);
    let shown = output(server.run(command_input(sid, "c", "m")));
    assert!(shown.partial_response.is_none());
}
