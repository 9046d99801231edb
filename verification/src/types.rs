//! Inputs and outputs of the tools.

use vstd::prelude::*;

verus! {

// ---------------------------------------------------------------------------
// run
// ---------------------------------------------------------------------------
/// Input for the `run` tool.
#[derive(Debug, Clone)]
pub struct OrchestratorRunInput {
    /// Existing session to resume. Omit to create a new session.
    pub session_id: Option<String>,
    /// Command to run; the message then becomes its arguments.
    pub command: Option<String>,
    /// Agent for a raw prompt. Not supported with a command.
    pub agent: Option<String>,
    /// The message to send. Omit only to check on an existing session.
    pub message: Option<String>,
    /// Do not finish merely because the session is idle right now.
    pub wait_for_activity: Option<bool>,
}

/// How a run ended.
#[derive(Debug, Clone, Copy, PartialEq, Eq, Structural)]
pub enum RunStatus {
    /// The session finished.
    Completed,
    /// The session waits for a permission.
    PermissionRequired,
    /// The session waits for answers.
    QuestionRequired,
}

/// One choice offered by a question.
#[derive(Debug, Clone)]
pub struct QuestionOptionView {
    pub label: String,
    pub description: String,
}

/// One question.
#[derive(Debug, Clone)]
pub struct QuestionInfoView {
    pub question: String,
    pub header: String,
    pub options: Vec<QuestionOptionView>,
    pub multiple: bool,
    pub custom: bool,
}

/// Output from the `run` tool.
#[derive(Debug, Clone)]
pub struct OrchestratorRunOutput {
    /// Session to name in later calls.
    pub session_id: String,
    /// How the run ended.
    pub status: RunStatus,
    /// Final text of the assistant, when completed.
    pub response: Option<String>,
    /// Text received before the caller was needed.
    pub partial_response: Option<String>,
    /// Permission request to answer.
    pub permission_request_id: Option<String>,
    /// Permission type, such as "file.write" or "bash.execute".
    pub permission_type: Option<String>,
    /// Patterns that the permission is asked for.
    pub permission_patterns: Vec<String>,
    /// Question request to answer.
    pub question_request_id: Option<String>,
    /// The questions.
    pub questions: Vec<QuestionInfoView>,
    /// Anything the caller should know.
    pub warnings: Vec<String>,
}

// ---------------------------------------------------------------------------
// list_sessions and get_session_state
// ---------------------------------------------------------------------------
/// Input for the `list_sessions` tool.
#[derive(Debug, Clone)]
pub struct ListSessionsInput {
    /// Most sessions to return; 20 if not given.
    pub limit: Option<usize>,
}

impl Default for ListSessionsInput {
    fn default() -> (r: Self)
        ensures
            r.limit is None,
    {
        ListSessionsInput { limit: None }
    }
}

/// Summary of one session.
#[derive(Debug, Clone)]
pub struct SessionSummary {
    pub id: String,
    pub title: String,
    /// Unix time of the last update.
    pub updated: Option<i64>,
    /// Unix time of creation.
    pub created: Option<i64>,
    /// Working directory.
    pub directory: Option<String>,
    /// Path relative to the project.
    pub path: Option<String>,
    /// What the session is doing, if that is known.
    pub status: Option<SessionStatusSummary>,
    /// What the session changed in files.
    pub change_stats: Option<ChangeStats>,
    /// Whether the current server instance created this session.
    pub launched_by_you: bool,
}

/// What a session is doing.
#[derive(Debug, Clone)]
pub enum SessionStatusSummary {
    Idle,
    Busy,
    Retry {
        attempt: u64,
        message: String,
        /// Unix time of the next attempt, in milliseconds.
        next: u64,
    },
}

/// What a session changed in files.
#[derive(Debug, Clone)]
pub struct ChangeStats {
    pub additions: u64,
    pub deletions: u64,
    pub files: u64,
}

/// Input for the `get_session_state` tool.
#[derive(Debug, Clone)]
pub struct GetSessionStateInput {
    /// The session to inspect.
    pub session_id: String,
}

/// Output from the `get_session_state` tool.
#[derive(Debug, Clone)]
pub struct GetSessionStateOutput {
    pub session_id: String,
    pub title: String,
    pub directory: Option<String>,
    pub path: Option<String>,
    pub status: SessionStatusSummary,
    /// Whether the current server instance created this session.
    pub launched_by_you: bool,
    /// Messages that wait for a reply of the assistant.
    pub pending_message_count: usize,
    /// Unix time of the latest activity.
    pub last_activity: Option<i64>,
    /// Recent tool calls, most recent first.
    pub recent_tool_calls: Vec<ToolCallSummary>,
}

/// Summary of one tool call.
#[derive(Debug, Clone)]
pub struct ToolCallSummary {
    pub call_id: String,
    pub tool_name: String,
    pub state: ToolStateSummary,
    pub started_at: Option<i64>,
    pub completed_at: Option<i64>,
}

/// How far a tool call has come.
#[derive(Debug, Clone)]
pub enum ToolStateSummary {
    Pending,
    Running,
    Completed,
    Error { message: String },
}

/// Output from the `list_sessions` tool.
#[derive(Debug, Clone)]
pub struct ListSessionsOutput {
    pub sessions: Vec<SessionSummary>,
}

// ---------------------------------------------------------------------------
// list_commands and list_agents
// ---------------------------------------------------------------------------
/// Input for the `list_commands` tool.
#[derive(Debug, Clone)]
pub struct ListCommandsInput {}

impl Default for ListCommandsInput {
    fn default() -> (r: Self)
        ensures
            r == (ListCommandsInput {  }),
    {
        ListCommandsInput {  }
    }
}

/// An available command.
#[derive(Debug, Clone)]
pub struct CommandInfo {
    pub name: String,
    pub description: Option<String>,
}

/// Output from the `list_commands` tool.
#[derive(Debug, Clone)]
pub struct ListCommandsOutput {
    pub commands: Vec<CommandInfo>,
}

/// Input for the `list_agents` tool.
#[derive(Debug, Clone)]
pub struct ListAgentsInput {}

impl Default for ListAgentsInput {
    fn default() -> (r: Self)
        ensures
            r == (ListAgentsInput {  }),
    {
        ListAgentsInput {  }
    }
}

/// An available agent.
#[derive(Debug, Clone)]
pub struct AgentInfo {
    pub name: String,
    pub description: Option<String>,
}

/// Output from the `list_agents` tool.
#[derive(Debug, Clone)]
pub struct ListAgentsOutput {
    pub agents: Vec<AgentInfo>,
}

// ---------------------------------------------------------------------------
// respond_permission and respond_question
// ---------------------------------------------------------------------------
/// Input for the `respond_permission` tool.
#[derive(Debug, Clone)]
pub struct RespondPermissionInput {
    /// Monitored root session; the permission belongs to it or to a session below it.
    pub session_id: String,
    /// Permission request as returned by `run`. Required for a permission of a session below the root;
    /// may be omitted only for one of the root session itself.
    pub permission_request_id: Option<String>,
    /// How to respond.
    pub reply: PermissionReply,
    /// Message to go with the reply.
    pub message: Option<String>,
}

/// How to respond to a permission request.
#[derive(Debug, Clone, Copy, PartialEq, Eq, Structural)]
pub enum PermissionReply {
    /// Allow this request.
    Once,
    /// Allow whatever matches its patterns.
    Always,
    /// Deny it.
    Reject,
}

/// Output from the `respond_permission` tool, which goes on to monitor the session.
pub type RespondPermissionOutput = OrchestratorRunOutput;

/// How to respond to a question request.
#[derive(Debug, Clone, Copy, PartialEq, Eq, Structural)]
pub enum QuestionAction {
    Reply,
    Reject,
}

/// Input for the `respond_question` tool.
#[derive(Debug, Clone)]
pub struct RespondQuestionInput {
    /// Monitored root session; the question belongs to it or to a session below it.
    pub session_id: String,
    /// Question request as returned by `run`. Required for a question of a session below the root; may
    /// be omitted only for one of the root session itself.
    pub question_request_id: Option<String>,
    pub action: QuestionAction,
    /// One list of answers for each question.
    pub answers: Vec<Vec<String>>,
}

/// Output from the `respond_question` tool, which goes on to monitor the session.
pub type RespondQuestionOutput = OrchestratorRunOutput;

} // verus!
