//! Plain values read from and sent to the `OpenCode` server.

use vstd::prelude::*;

verus! {

/// What went wrong with a call to the server.
#[derive(Debug, Clone, Copy, PartialEq, Eq, Structural)]
pub enum ApiErrorKind {
    /// The server answered with this HTTP status.
    Http(u16),
    /// The request or its answer was lost on the way.
    Transport,
    /// Anything else.
    Other,
}

/// A failed call to the server, with its text for people.
#[derive(Debug, Clone)]
pub struct ApiError {
    pub kind: ApiErrorKind,
    pub text: String,
}

impl ApiError {
    /// The server does not know what was asked for.
    pub open spec fn not_found(&self) -> bool {
        self.kind == ApiErrorKind::Http(404)
    }

    /// The server could not make sense of the request, or of its own state.
    pub open spec fn validation_error(&self) -> bool {
        self.kind == ApiErrorKind::Http(400)
    }

    /// Whether the server does not know what was asked for.
    pub fn is_not_found(&self) -> (r: bool)
        ensures
            r == self.not_found(),
    {
        self.kind == ApiErrorKind::Http(404)
    }

    /// Whether the server could not make sense of the request, or of its own state.
    pub fn is_validation_error(&self) -> (r: bool)
        ensures
            r == self.validation_error(),
    {
        self.kind == ApiErrorKind::Http(400)
    }
}

/// When a session was created and last updated.
#[derive(Debug, Clone, Copy)]
pub struct SessionTime {
    pub created: i64,
    pub updated: i64,
}

/// What a session changed in files.
#[derive(Debug, Clone, Copy)]
pub struct SessionChanges {
    pub additions: u64,
    pub deletions: u64,
    pub files: u64,
}

/// A session.
#[derive(Debug, Clone)]
pub struct Session {
    pub id: String,
    pub title: String,
    pub directory: Option<String>,
    pub path: Option<String>,
    pub parent_id: Option<String>,
    pub time: Option<SessionTime>,
    pub summary: Option<SessionChanges>,
}

/// What a session is doing.
#[derive(Debug, Clone)]
pub enum SessionStatusInfo {
    Idle,
    Busy,
    Retry { attempt: u64, message: String, next: u64 },
    Unknown,
}

impl SessionStatusInfo {
    /// Anything but idle counts as busy.
    pub open spec fn busy_like(&self) -> bool {
        !(self is Idle)
    }

    /// Whether the session is busy, waiting to retry, or in a state not known here.
    pub fn is_busy_like(&self) -> (r: bool)
        ensures
            r == self.busy_like(),
    {
        match self {
            SessionStatusInfo::Busy => true,
            SessionStatusInfo::Retry { .. } => true,
            SessionStatusInfo::Unknown => true,
            SessionStatusInfo::Idle => false,
        }
    }
}

/// A pending request for a permission.
#[derive(Debug, Clone)]
pub struct PermissionRequest {
    pub id: String,
    pub session_id: String,
    pub permission: String,
    pub patterns: Vec<String>,
}

/// One choice offered by a question.
#[derive(Debug, Clone)]
pub struct QuestionOption {
    pub label: String,
    pub description: String,
}

/// One question.
#[derive(Debug, Clone)]
pub struct QuestionInfo {
    pub question: String,
    pub header: String,
    pub options: Vec<QuestionOption>,
    pub multiple: bool,
    pub custom: bool,
}

/// A pending request for answers.
#[derive(Debug, Clone)]
pub struct QuestionRequest {
    pub id: String,
    pub session_id: String,
    pub questions: Vec<QuestionInfo>,
}

/// How far a tool call has come.
#[derive(Debug, Clone)]
pub enum ToolState {
    Pending,
    Running { start: i64 },
    Completed { start: i64, end: i64 },
    Error { error: String, start: i64, end: i64 },
    Unknown,
}

/// A part of a message.
#[derive(Debug, Clone)]
pub enum Part {
    Tool { call_id: String, tool: String, state: Option<ToolState> },
    Other,
}

/// A message of a session's transcript.
#[derive(Debug, Clone)]
pub struct Message {
    pub id: String,
    pub role: String,
    pub created: i64,
    pub completed: Option<i64>,
    pub parts: Vec<Part>,
}

/// What an update says of a message.
#[derive(Debug, Clone)]
pub struct MessageInfo {
    pub id: String,
    pub session_id: Option<String>,
    pub role: String,
    pub parent_id: Option<String>,
}

/// Properties of an update to a message.
#[derive(Debug, Clone)]
pub struct MessageUpdatedProps {
    pub info: MessageInfo,
}

/// Properties of an update or a delta to a part of a message.
#[derive(Debug, Clone)]
pub struct MessagePartEventProps {
    pub session_id: Option<String>,
    pub message_id: Option<String>,
    pub delta: Option<String>,
}

/// The session that owns a request, and the request.
#[derive(Debug, Clone)]
pub struct RequestRef {
    pub session_id: String,
    pub request_id: String,
}

/// An event from the server's stream.
#[allow(inconsistent_fields)]
#[derive(Debug, Clone)]
pub enum Event {
    PermissionAsked { request: RequestRef },
    PermissionReplied { request: RequestRef },
    QuestionAsked { request: RequestRef },
    QuestionReplied { request: RequestRef },
    QuestionRejected { request: RequestRef },
    MessageUpdated { properties: MessageUpdatedProps },
    MessagePartUpdated { properties: MessagePartEventProps },
    MessagePartDelta { properties: MessagePartEventProps },
    SessionError { session_id: Option<String>, error: Option<String> },
    SessionIdle { session_id: String },
    Other { session_id: Option<String> },
}

/// The characters of an optional text.
pub open spec fn optional_view(text: Option<String>) -> Option<Seq<char>> {
    match text {
        Some(t) => Some(t@),
        None => None,
    }
}

impl Event {
    /// The session that an event names.
    pub open spec fn names_session(&self) -> Option<Seq<char>> {
        match self {
            Event::PermissionAsked { request } => Some(request.session_id@),
            Event::PermissionReplied { request } => Some(request.session_id@),
            Event::QuestionAsked { request } => Some(request.session_id@),
            Event::QuestionReplied { request } => Some(request.session_id@),
            Event::QuestionRejected { request } => Some(request.session_id@),
            Event::MessageUpdated { properties } => optional_view(properties.info.session_id),
            Event::MessagePartUpdated { properties } => optional_view(properties.session_id),
            Event::MessagePartDelta { properties } => optional_view(properties.session_id),
            Event::SessionError { session_id, .. } => optional_view(*session_id),
            Event::SessionIdle { session_id } => Some(session_id@),
            Event::Other { session_id } => optional_view(*session_id),
        }
    }

    /// The session that the event names, if any.
    pub fn session_id(&self) -> (r: Option<&str>)
        ensures
            match r {
                Some(id) => self.names_session() == Some(id@),
                None => self.names_session() is None,
            },
    {
        match self {
            Event::PermissionAsked { request } => Some(request.session_id.as_str()),
            Event::PermissionReplied { request } => Some(request.session_id.as_str()),
            Event::QuestionAsked { request } => Some(request.session_id.as_str()),
            Event::QuestionReplied { request } => Some(request.session_id.as_str()),
            Event::QuestionRejected { request } => Some(request.session_id.as_str()),
            Event::MessageUpdated { properties } => optional_str(&properties.info.session_id),
            Event::MessagePartUpdated { properties } => optional_str(&properties.session_id),
            Event::MessagePartDelta { properties } => optional_str(&properties.session_id),
            Event::SessionError { session_id, .. } => optional_str(session_id),
            Event::SessionIdle { session_id } => Some(session_id.as_str()),
            Event::Other { session_id } => optional_str(session_id),
        }
    }
}

/// An optional text, borrowed.
pub fn optional_str(text: &Option<String>) -> (r: Option<&str>)
    ensures
        match r {
            Some(t) => optional_view(*text) == Some(t@),
            None => optional_view(*text) is None,
        },
{
    match text {
        Some(t) => Some(t.as_str()),
        None => None,
    }
}

/// An event names the session that stands in it, and an error is told apart by its HTTP status alone.
pub proof fn law_events_name_their_session(
    request: RequestRef,
    update: MessageUpdatedProps,
    part: MessagePartEventProps,
    id: String,
    error: Option<String>,
)
    ensures
        (Event::PermissionAsked { request }).names_session() == Some(request.session_id@),
        (Event::PermissionReplied { request }).names_session() == Some(request.session_id@),
        (Event::QuestionAsked { request }).names_session() == Some(request.session_id@),
        (Event::QuestionReplied { request }).names_session() == Some(request.session_id@),
        (Event::QuestionRejected { request }).names_session() == Some(request.session_id@),
        update.info.session_id == Some(id) ==> (Event::MessageUpdated {
            properties: update,
        }).names_session() == Some(id@),
        update.info.session_id is None ==> (Event::MessageUpdated {
            properties: update,
        }).names_session() is None,
        part.session_id == Some(id) ==> (Event::MessagePartUpdated {
            properties: part,
        }).names_session() == Some(id@),
        part.session_id == Some(id) ==> (Event::MessagePartDelta {
            properties: part,
        }).names_session() == Some(id@),
        part.session_id is None ==> (Event::MessagePartUpdated {
            properties: part,
        }).names_session() is None,
        part.session_id is None ==> (Event::MessagePartDelta {
            properties: part,
        }).names_session() is None,
        (Event::SessionError { session_id: Some(id), error }).names_session() == Some(id@),
        (Event::SessionError { session_id: None, error }).names_session() is None,
        (Event::SessionIdle { session_id: id }).names_session() == Some(id@),
        (Event::Other { session_id: Some(id) }).names_session() == Some(id@),
        (Event::Other { session_id: None }).names_session() is None,
{
}

/// What counts as not found, as a validation error and as busy.
pub proof fn law_answers_are_told_apart(error: ApiError, status: SessionStatusInfo)
    ensures
        error.not_found() <==> error.kind is Http && error.kind->Http_0 == 404,
        error.validation_error() <==> error.kind is Http && error.kind->Http_0 == 400,
        status.busy_like() <==> status is Busy || status is Retry || status is Unknown,
{
}

} // verus!
