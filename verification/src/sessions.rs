//! Listing sessions, and the detailed state of one session.

use crate::api::ApiError;
use crate::api::Message;
use crate::api::Session;
use crate::api::SessionStatusInfo;
use crate::errors::ToolError;
use crate::text::cat2;
use crate::text::cat3;
use crate::text::lemma_occurs_at_the_end;
use crate::text::lemma_occurs_between;
use crate::text::occurs_in;
use crate::tools::GetSessionStateTool;
use crate::tools::ListSessionsTool;
use crate::transcript::count_pending_messages;
use crate::transcript::extract_recent_tool_calls;
use crate::transcript::get_last_activity_time;
use crate::transcript::last_activity;
use crate::transcript::listed_count;
use crate::transcript::pending_count;
use crate::transcript::recent_tools;
use crate::transcript::summarizes;
use crate::types::ChangeStats;
use crate::types::GetSessionStateOutput;
use crate::types::ListSessionsInput;
use crate::types::ListSessionsOutput;
use crate::types::SessionStatusSummary;
use crate::types::SessionSummary;
use vstd::hash_map::StringHashMap;
use vstd::hash_set::StringHashSet;
use vstd::prelude::*;

verus! {

/// How many sessions are listed when the caller sets no limit.
pub const DEFAULT_SESSION_LIMIT: usize = 20;

/// How many recent tool calls the state of a session shows.
pub const RECENT_TOOL_CALLS: usize = 10;

/// A status as it is shown: a state not known here counts as busy.
pub open spec fn status_shown(status: SessionStatusInfo) -> SessionStatusSummary {
    match status {
        SessionStatusInfo::Idle => SessionStatusSummary::Idle,
        SessionStatusInfo::Busy => SessionStatusSummary::Busy,
        SessionStatusInfo::Unknown => SessionStatusSummary::Busy,
        SessionStatusInfo::Retry { attempt, message, next } => SessionStatusSummary::Retry {
            attempt,
            message,
            next,
        },
    }
}

/// A status as it is shown.
pub fn summarize_status(status: &SessionStatusInfo) -> (r: SessionStatusSummary)
    ensures
        r == status_shown(*status),
{
    match status {
        SessionStatusInfo::Idle => SessionStatusSummary::Idle,
        SessionStatusInfo::Busy => SessionStatusSummary::Busy,
        SessionStatusInfo::Unknown => SessionStatusSummary::Busy,
        SessionStatusInfo::Retry { attempt, message, next } => SessionStatusSummary::Retry {
            attempt: *attempt,
            message: message.clone(),
            next: *next,
        },
    }
}

/// The statuses of sessions by session id, if they could be had.
pub open spec fn statuses(
    map: Option<&StringHashMap<SessionStatusInfo>>,
) -> Option<Map<Seq<char>, SessionStatusInfo>> {
    match map {
        Some(m) => Some(m@),
        None => None,
    }
}

/// The status shown for a session: none if no statuses could be had, idle if the server names none for
/// it.
pub open spec fn session_status(
    map: Option<Map<Seq<char>, SessionStatusInfo>>,
    id: Seq<char>,
) -> Option<SessionStatusSummary> {
    match map {
        Some(m) => if m.contains_key(id) {
            Some(status_shown(m[id]))
        } else {
            Some(SessionStatusSummary::Idle)
        },
        None => None,
    }
}

/// The summary of a session.
pub open spec fn session_summary(
    session: Session,
    map: Option<Map<Seq<char>, SessionStatusInfo>>,
    spawned: Set<Seq<char>>,
) -> SessionSummary {
    SessionSummary {
        id: session.id,
        title: session.title,
        updated: match session.time {
            Some(time) => Some(time.updated),
            None => None,
        },
        created: match session.time {
            Some(time) => Some(time.created),
            None => None,
        },
        directory: session.directory,
        path: session.path,
        status: session_status(map, session.id@),
        change_stats: match session.summary {
            Some(summary) => Some(
                ChangeStats {
                    additions: summary.additions,
                    deletions: summary.deletions,
                    files: summary.files,
                },
            ),
            None => None,
        },
        launched_by_you: spawned.contains(session.id@),
    }
}

/// How many of the sessions are listed.
pub open spec fn session_count(available: nat, limit: Option<usize>) -> nat {
    let most = match limit {
        Some(limit) => limit as nat,
        None => DEFAULT_SESSION_LIMIT as nat,
    };
    if available < most {
        available
    } else {
        most
    }
}

fn summarize_session(
    session: Session,
    status_map: Option<&StringHashMap<SessionStatusInfo>>,
    spawned: &StringHashSet,
) -> (r: SessionSummary)
    ensures
        r == session_summary(session, statuses(status_map), spawned@),
{
    let status = match status_map {
        Some(map) => match map.get(session.id.as_str()) {
            Some(status) => Some(summarize_status(status)),
            None => Some(SessionStatusSummary::Idle),
        },
        None => None,
    };
    let change_stats = match &session.summary {
        Some(summary) => Some(
            ChangeStats {
                additions: summary.additions,
                deletions: summary.deletions,
                files: summary.files,
            },
        ),
        None => None,
    };
    let (updated, created) = match &session.time {
        Some(time) => (Some(time.updated), Some(time.created)),
        None => (None, None),
    };
    SessionSummary {
        launched_by_you: spawned.contains(session.id.as_str()),
        created,
        updated,
        directory: session.directory,
        path: session.path,
        title: session.title,
        id: session.id,
        status,
        change_stats,
    }
}

/// Whether a list shows the sessions as they are.
pub open spec fn lists(
    output: ListSessionsOutput,
    limit: Option<usize>,
    sessions: Seq<Session>,
    map: Option<Map<Seq<char>, SessionStatusInfo>>,
    spawned: Set<Seq<char>>,
) -> bool {
    &&& output.sessions@.len() == session_count(sessions.len(), limit)
    &&& forall|i: int|
        0 <= i < output.sessions@.len() ==> #[trigger] output.sessions@[i] == session_summary(
            sessions[i],
            map,
            spawned,
        )
}

/// Whether a description gives the state of a session as it is.
pub open spec fn describes(
    output: GetSessionStateOutput,
    session_id: Seq<char>,
    session: Session,
    status: SessionStatusSummary,
    messages: Seq<Message>,
    spawned: Set<Seq<char>>,
) -> bool {
    &&& output.session_id == session.id
    &&& output.title == session.title
    &&& output.directory == session.directory
    &&& output.path == session.path
    &&& output.status == status
    &&& output.launched_by_you == spawned.contains(session_id)
    &&& output.pending_message_count == pending_count(messages)
    &&& output.last_activity == last_activity(
        messages,
        match session.time {
            Some(time) => Some(time.updated),
            None => None,
        },
    )
    &&& output.recent_tool_calls@.len() == listed_count(
        recent_tools(messages).len(),
        RECENT_TOOL_CALLS as nat,
    )
    &&& forall|i: int|
        0 <= i < output.recent_tool_calls@.len() ==> summarizes(
            #[trigger] output.recent_tool_calls@[i],
            recent_tools(messages)[i],
        )
}

/// What becomes of the server's answer about its sessions.
pub open spec fn listing_taken(
    reply: Result<Vec<Session>, ApiError>,
    r: Result<Vec<Session>, ToolError>,
) -> bool {
    match reply {
        Ok(sessions) => r == Ok::<Vec<Session>, ToolError>(sessions),
        Err(error) => r is Err && r->Err_0.is_internal("Failed to list sessions: "@ + error.text@),
    }
}

/// What becomes of the server's answer about the session to describe.
pub open spec fn lookup_taken(
    session_id: Seq<char>,
    reply: Result<Session, ApiError>,
    r: Result<Session, ToolError>,
) -> bool {
    match reply {
        Ok(session) => r == Ok::<Session, ToolError>(session),
        Err(error) => if error.not_found() {
            r is Err && r->Err_0.is_invalid_input(
                "Session '"@ + session_id
                    + "' not found. Use list_sessions to discover available sessions."@,
            )
        } else {
            r is Err && r->Err_0.is_internal("Failed to get session: "@ + error.text@)
        },
    }
}

/// What becomes of the server's answer about the status of the session to describe.
pub open spec fn status_taken(
    reply: Result<SessionStatusInfo, ApiError>,
    r: Result<SessionStatusSummary, ToolError>,
) -> bool {
    match reply {
        Ok(status) => r == Ok::<SessionStatusSummary, ToolError>(status_shown(status)),
        Err(error) => r is Err && r->Err_0.is_internal(
            "Failed to get session status: "@ + error.text@,
        ),
    }
}

impl ListSessionsTool {
    /// Take the list of sessions.
    pub fn take_listed(reply: Result<Vec<Session>, ApiError>) -> (r: Result<Vec<Session>, ToolError>)
        ensures
            listing_taken(reply, r),
    {
        match reply {
            Ok(sessions) => Ok(sessions),
            Err(error) => Err(
                ToolError::Internal(cat2("Failed to list sessions: ", error.text.as_str())),
            ),
        }
    }

    /// The summaries of the first sessions, up to the limit, in order of listing by the server.
    pub fn summarize(
        input: &ListSessionsInput,
        sessions: Vec<Session>,
        status_map: Option<&StringHashMap<SessionStatusInfo>>,
        spawned: &StringHashSet,
    ) -> (r: ListSessionsOutput)
        ensures
            lists(r, input.limit, sessions@, statuses(status_map), spawned@),
            r.sessions@.len() == session_count(sessions@.len(), input.limit),
            forall|i: int|
                0 <= i < r.sessions@.len() ==> #[trigger] r.sessions@[i] == session_summary(
                    sessions@[i],
                    statuses(status_map),
                    spawned@,
                ),
    {
        let limit: usize = match input.limit {
            Some(limit) => limit,
            None => DEFAULT_SESSION_LIMIT,
        };
        let mut summaries: Vec<SessionSummary> = Vec::new();
        for session in it: sessions
            invariant
                it.seq() == sessions@,
                summaries@.len() == if it.index() < limit {
                    it.index() as int
                } else {
                    limit as int
                },
                forall|i: int|
                    0 <= i < summaries@.len() ==> #[trigger] summaries@[i] == session_summary(
                        sessions@[i],
                        statuses(status_map),
                        spawned@,
                    ),
        {
            if summaries.len() < limit {
                summaries.push(summarize_session(session, status_map, spawned));
            }
        }
        ListSessionsOutput { sessions: summaries }
    }
}

impl GetSessionStateTool {
    /// Take the session to describe.
    pub fn take_session(session_id: &String, reply: Result<Session, ApiError>) -> (r: Result<
        Session,
        ToolError,
    >)
        ensures
            lookup_taken(session_id@, reply, r),
    {
        match reply {
            Ok(session) => Ok(session),
            Err(error) => {
                if error.is_not_found() {
                    Err(
                        ToolError::InvalidInput(
                            cat3(
                                "Session '",
                                session_id.as_str(),
                                "' not found. Use list_sessions to discover available sessions.",
                            ),
                        ),
                    )
                } else {
                    Err(ToolError::Internal(cat2("Failed to get session: ", error.text.as_str())))
                }
            },
        }
    }

    /// Take the status of the session to describe.
    pub fn take_status(reply: Result<SessionStatusInfo, ApiError>) -> (r: Result<
        SessionStatusSummary,
        ToolError,
    >)
        ensures
            status_taken(reply, r),
    {
        match reply {
            Ok(status) => Ok(summarize_status(&status)),
            Err(error) => Err(
                ToolError::Internal(cat2("Failed to get session status: ", error.text.as_str())),
            ),
        }
    }

    /// Describe a session by its transcript. `spawned` holds the sessions created here.
    pub fn describe(
        session_id: &String,
        session: Session,
        status: SessionStatusSummary,
        reply: Result<Vec<Message>, ApiError>,
        spawned: &StringHashSet,
    ) -> (r: Result<GetSessionStateOutput, ToolError>)
        ensures
            match reply {
                Ok(messages) => {
                    &&& r matches Ok(output)
                    &&& describes(output, session_id@, session, status, messages@, spawned@)
                    &&& output.session_id == session.id
                    &&& output.title == session.title
                    &&& output.directory == session.directory
                    &&& output.path == session.path
                    &&& output.status == status
                    &&& output.launched_by_you == spawned@.contains(session_id@)
                    &&& output.pending_message_count == pending_count(messages@)
                    &&& output.last_activity == last_activity(
                        messages@,
                        match session.time {
                            Some(time) => Some(time.updated),
                            None => None,
                        },
                    )
                    &&& output.recent_tool_calls@.len() == listed_count(
                        recent_tools(messages@).len(),
                        RECENT_TOOL_CALLS as nat,
                    )
                    &&& forall|i: int|
                        0 <= i < output.recent_tool_calls@.len() ==> summarizes(
                            #[trigger] output.recent_tool_calls@[i],
                            recent_tools(messages@)[i],
                        )
                },
                Err(error) => r is Err && r->Err_0.is_internal(
                    "Failed to list messages: "@ + error.text@,
                ),
            },
    {
        let messages = match reply {
            Ok(messages) => messages,
            Err(error) => {
                return Err(
                    ToolError::Internal(cat2("Failed to list messages: ", error.text.as_str())),
                );
            },
        };
        let fallback = match &session.time {
            Some(time) => Some(time.updated),
            None => None,
        };
        Ok(
            GetSessionStateOutput {
                session_id: session.id,
                title: session.title,
                directory: session.directory,
                path: session.path,
                status,
                launched_by_you: spawned.contains(session_id.as_str()),
                pending_message_count: count_pending_messages(&messages),
                last_activity: get_last_activity_time(&messages, fallback),
                recent_tool_calls: extract_recent_tool_calls(&messages, RECENT_TOOL_CALLS),
            },
        )
    }
}

/// A list shows the first sessions in the server's order, as many as there are up to the limit, which is
/// twenty if none is set.
pub proof fn law_list_shows_the_first_sessions(
    output: ListSessionsOutput,
    limit: Option<usize>,
    sessions: Seq<Session>,
    map: Option<Map<Seq<char>, SessionStatusInfo>>,
    spawned: Set<Seq<char>>,
    i: int,
)
    requires
        lists(output, limit, sessions, map, spawned),
    ensures
        output.sessions@.len() <= sessions.len(),
        limit matches Some(n) ==> output.sessions@.len() <= n && (sessions.len() <= n
            ==> output.sessions@.len() == sessions.len()) && (sessions.len() >= n
            ==> output.sessions@.len() == n),
        limit is None && sessions.len() <= 20 ==> output.sessions@.len() == sessions.len(),
        limit is None && sessions.len() >= 20 ==> output.sessions@.len() == 20,
        0 <= i < output.sessions@.len() ==> {
            &&& output.sessions@[i].id == sessions[i].id
            &&& output.sessions@[i].title == sessions[i].title
            &&& output.sessions@[i].directory == sessions[i].directory
            &&& output.sessions@[i].path == sessions[i].path
            &&& output.sessions@[i].launched_by_you <==> spawned.contains(sessions[i].id@)
        },
{
}

/// A listed session keeps its own times and changes, each number where it belongs.
pub proof fn law_list_keeps_times_and_changes(
    session: Session,
    map: Option<Map<Seq<char>, SessionStatusInfo>>,
    spawned: Set<Seq<char>>,
)
    ensures
        ({
            let shown = session_summary(session, map, spawned);
            &&& session.time is None ==> shown.created is None && shown.updated is None
            &&& session.time matches Some(time) ==> shown.created == Some(time.created)
                && shown.updated == Some(time.updated)
            &&& session.summary is None ==> shown.change_stats is None
            &&& session.summary matches Some(summary) ==> shown.change_stats is Some
                && shown.change_stats->Some_0.additions == summary.additions
                && shown.change_stats->Some_0.deletions == summary.deletions
                && shown.change_stats->Some_0.files == summary.files
        }),
{
}

/// A listed session shows the status that the server gives for that session: none if no statuses could be
/// had, idle if it names none; and a retry with its own attempt, reason and time.
pub proof fn law_list_shows_each_status(
    session: Session,
    statuses: Map<Seq<char>, SessionStatusInfo>,
    spawned: Set<Seq<char>>,
    attempt: u64,
    message: String,
    next: u64,
)
    ensures
        session_summary(session, None, spawned).status is None,
        ({
            let status = session_summary(session, Some(statuses), spawned).status;
            &&& status is Some
            &&& !statuses.contains_key(session.id@) ==> status->Some_0 is Idle
            &&& statuses.contains_key(session.id@) ==> {
                let given = statuses[session.id@];
                &&& given is Idle <==> status->Some_0 is Idle
                &&& given is Busy || given is Unknown <==> status->Some_0 is Busy
                &&& given == (SessionStatusInfo::Retry { attempt, message, next })
                    <==> status->Some_0 == (SessionStatusSummary::Retry { attempt, message, next })
            }
        }),
        status_shown(SessionStatusInfo::Idle) is Idle,
        status_shown(SessionStatusInfo::Busy) is Busy,
        status_shown(SessionStatusInfo::Unknown) is Busy,
        status_shown(SessionStatusInfo::Retry { attempt, message, next })
            == (SessionStatusSummary::Retry { attempt, message, next }),
{
}

/// A description is of the session that was asked for, and is brought up to date by its last message.
pub proof fn law_description_is_of_the_session(
    output: GetSessionStateOutput,
    session_id: Seq<char>,
    session: Session,
    status: SessionStatusSummary,
    messages: Seq<Message>,
    m: Message,
    spawned: Set<Seq<char>>,
)
    requires
        describes(output, session_id, session, status, messages.push(m), spawned),
    ensures
        output.session_id == session.id,
        output.title == session.title,
        output.directory == session.directory,
        output.path == session.path,
        output.status == status,
        output.launched_by_you <==> spawned.contains(session_id),
        m.completed is Some ==> output.last_activity == m.completed,
        m.completed is None ==> output.last_activity == Some(m.created),
        m.role@ == "assistant"@ ==> output.pending_message_count == 0,
        m.role@ == "user"@ ==> output.pending_message_count == pending_count(messages) + 1,
        output.recent_tool_calls@.len() <= 10,
        recent_tools(messages.push(m)).len() <= 10 ==> output.recent_tool_calls@.len()
            == recent_tools(messages.push(m)).len(),
        recent_tools(messages.push(m)).len() >= 10 ==> output.recent_tool_calls@.len() == 10,
        m.parts@.len() > 0 && m.parts@.last() is Tool ==> output.recent_tool_calls@.len() > 0
            && output.recent_tool_calls@[0].call_id == m.parts@.last()->call_id,
        forall|i: int|
            0 <= i < output.recent_tool_calls@.len() ==> {
                let shown = #[trigger] output.recent_tool_calls@[i];
                let part = recent_tools(messages.push(m))[i];
                part is Tool && shown.call_id == part->call_id && shown.tool_name == part->tool
            },
{
    crate::transcript::law_last_activity_is_of_the_last_message(
        messages,
        m,
        match session.time {
            Some(time) => Some(time.updated),
            None => None,
        },
    );
    crate::transcript::law_pending_messages_wait_for_the_assistant(messages, m);
    if m.parts@.len() > 0 && m.parts@.last() is Tool {
        let parts = m.parts@;
        crate::transcript::law_recent_tools_come_latest_first(
            messages,
            m,
            parts.drop_last(),
            parts.last(),
        );
        assert(parts == parts.drop_last().push(parts.last()));
        assert(recent_tools(messages.push(m))[0] == parts.last());
        assert(summarizes(output.recent_tool_calls@[0], recent_tools(messages.push(m))[0]));
    }
}

/// Without messages the session's own update is its last activity, and nothing waits.
pub proof fn law_description_without_messages(
    output: GetSessionStateOutput,
    session_id: Seq<char>,
    session: Session,
    status: SessionStatusSummary,
    spawned: Set<Seq<char>>,
)
    requires
        describes(output, session_id, session, status, Seq::empty(), spawned),
    ensures
        session.time matches Some(time) ==> output.last_activity == Some(time.updated),
        session.time is None ==> output.last_activity is None,
        output.pending_message_count == 0,
        output.recent_tool_calls@.len() == 0,
{
}

/// What the server answers is taken as it is. A session that is not found is the caller's fault, and is named;
/// any other failure is passed on with what the server said.
pub proof fn law_server_answers_are_taken(
    session_id: Seq<char>,
    session: Result<Session, ApiError>,
    taken: Result<Session, ToolError>,
    sessions: Result<Vec<Session>, ApiError>,
    listed: Result<Vec<Session>, ToolError>,
    status: Result<SessionStatusInfo, ApiError>,
    shown: Result<SessionStatusSummary, ToolError>,
)
    requires
        lookup_taken(session_id, session, taken),
        listing_taken(sessions, listed),
        status_taken(status, shown),
    ensures
        session is Ok ==> taken is Ok && taken->Ok_0 == session->Ok_0,
        session is Err ==> taken is Err,
        session is Err ==> (taken->Err_0 is InvalidInput <==> session->Err_0.kind
            == crate::api::ApiErrorKind::Http(404)),
        session is Err && taken->Err_0 is InvalidInput ==> occurs_in(
            session_id,
            taken->Err_0->InvalidInput_0@,
        ),
        session is Err && !(taken->Err_0 is InvalidInput) ==> taken->Err_0 is Internal && occurs_in(
            session->Err_0.text@,
            taken->Err_0->Internal_0@,
        ),
        sessions is Ok ==> listed is Ok && listed->Ok_0@ == sessions->Ok_0@,
        sessions is Err ==> listed is Err && listed->Err_0 is Internal && occurs_in(
            sessions->Err_0.text@,
            listed->Err_0->Internal_0@,
        ),
        status == Ok::<SessionStatusInfo, ApiError>(SessionStatusInfo::Idle) ==> shown == Ok::<
            SessionStatusSummary,
            ToolError,
        >(SessionStatusSummary::Idle),
        status == Ok::<SessionStatusInfo, ApiError>(SessionStatusInfo::Busy) ==> shown == Ok::<
            SessionStatusSummary,
            ToolError,
        >(SessionStatusSummary::Busy),
        status is Ok ==> shown is Ok,
        status is Err ==> shown is Err && shown->Err_0 is Internal && occurs_in(
            status->Err_0.text@,
            shown->Err_0->Internal_0@,
        ),
{
    lemma_occurs_between(
        "Session '"@,
        session_id,
        "' not found. Use list_sessions to discover available sessions."@,
    );
    if let Err(error) = session {
        lemma_occurs_at_the_end("Failed to get session: "@, error.text@);
    }
    if let Err(error) = sessions {
        lemma_occurs_at_the_end("Failed to list sessions: "@, error.text@);
    }
    if let Err(error) = status {
        lemma_occurs_at_the_end("Failed to get session status: "@, error.text@);
    }
}

} // verus!
