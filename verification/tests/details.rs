//! Tests of single decisions, their edge cases and errors.

use opencode_orchestrator_mcp::api::ApiError;
use opencode_orchestrator_mcp::api::ApiErrorKind;
use opencode_orchestrator_mcp::api::Event;
use opencode_orchestrator_mcp::api::Message;
use opencode_orchestrator_mcp::api::Part;
use opencode_orchestrator_mcp::api::PermissionRequest;
use opencode_orchestrator_mcp::api::QuestionRequest;
use opencode_orchestrator_mcp::api::Session;
use opencode_orchestrator_mcp::api::SessionChanges;
use opencode_orchestrator_mcp::api::SessionStatusInfo;
use opencode_orchestrator_mcp::api::SessionTime;
use opencode_orchestrator_mcp::api::ToolState;
use opencode_orchestrator_mcp::blockers::first_blocker;
use opencode_orchestrator_mcp::blockers::BlockerScanResult;
use opencode_orchestrator_mcp::blockers::CallerResponseBlocker;
use opencode_orchestrator_mcp::blockers::CallerResponseBlockerKind;
use opencode_orchestrator_mcp::blockers::CallerResponseBlockerPayload;
use opencode_orchestrator_mcp::catalog::OfferedAgent;
use opencode_orchestrator_mcp::catalog::OfferedCommand;
use opencode_orchestrator_mcp::errors::ToolError;
use opencode_orchestrator_mcp::idle::confirm_idle_completion;
use opencode_orchestrator_mcp::idle::evaluate_idle_completion;
use opencode_orchestrator_mcp::idle::IdleCompletionMonitor;
use opencode_orchestrator_mcp::idle::IdleCompletionOutcome;
use opencode_orchestrator_mcp::idle::IdleEvaluation;
use opencode_orchestrator_mcp::latch::CallerResponseEventLatch;
use opencode_orchestrator_mcp::lineage::LineageAnswer;
use opencode_orchestrator_mcp::lineage::SessionLineageResolver;
use opencode_orchestrator_mcp::outcome::backoff_ms;
use opencode_orchestrator_mcp::outcome::ToolLogMeta;
use opencode_orchestrator_mcp::records::failure_record;
use opencode_orchestrator_mcp::records::success_record;
use opencode_orchestrator_mcp::request::blocked_agent_error;
use opencode_orchestrator_mcp::request::blocked_command_error;
use opencode_orchestrator_mcp::request::check_run_policies;
use opencode_orchestrator_mcp::request::AgentPolicyDecision;
use opencode_orchestrator_mcp::request::CommandPolicyDecision;
use opencode_orchestrator_mcp::request::RunRequest;
use opencode_orchestrator_mcp::scan::BlockerDetectionSource;
use opencode_orchestrator_mcp::scan::BlockerScan;
use opencode_orchestrator_mcp::scan::PermissionPreflightMode;
use opencode_orchestrator_mcp::scan::ScanStep;
use opencode_orchestrator_mcp::text::characters;
use opencode_orchestrator_mcp::text::decimal;
use opencode_orchestrator_mcp::text::first_line;
use opencode_orchestrator_mcp::text::join;
use opencode_orchestrator_mcp::text::text_before;
use opencode_orchestrator_mcp::text::trim;
use opencode_orchestrator_mcp::tools::GetSessionStateTool;
use opencode_orchestrator_mcp::tools::ListAgentsTool;
use opencode_orchestrator_mcp::tools::ListCommandsTool;
use opencode_orchestrator_mcp::tools::ListSessionsTool;
use opencode_orchestrator_mcp::tools::OrchestratorRunTool;
use opencode_orchestrator_mcp::tools::OrchestratorServerHandle;
use opencode_orchestrator_mcp::tools::RespondPermissionTool;
use opencode_orchestrator_mcp::tools::RespondQuestionTool;
use opencode_orchestrator_mcp::tools::RunLimits;
use opencode_orchestrator_mcp::transcript::count_pending_messages;
use opencode_orchestrator_mcp::transcript::extract_recent_tool_calls;
use opencode_orchestrator_mcp::transcript::get_last_activity_time;
use opencode_orchestrator_mcp::transcript::transcript_indicates_command_dispatch;
use opencode_orchestrator_mcp::transcript::CommandTranscriptWindow;
use opencode_orchestrator_mcp::types::ListSessionsInput;
use opencode_orchestrator_mcp::types::SessionStatusSummary;
use opencode_orchestrator_mcp::types::ToolStateSummary;
use opencode_orchestrator_mcp::StringHashMap;
use opencode_orchestrator_mcp::StringHashSet;
use std::sync::Arc;

fn http(status: u16, text: &str) -> ApiError {
    ApiError { kind: ApiErrorKind::Http(status), text: text.to_string() }
}

fn message(id: &str, role: &str) -> Message {
    Message {
        id: id.to_string(),
        role: role.to_string(),
        created: 10,
        completed: None,
        parts: vec![],
    }
}

fn tool(id: &str, state: Option<ToolState>) -> Part {
    Part::Tool { call_id: id.to_string(), tool: "bash".to_string(), state }
}

fn session(id: &str) -> Session {
    Session {
        id: id.to_string(),
        title: format!("title of {id}"),
        directory: Some("/tmp".to_string()),
        path: None,
        parent_id: None,
        time: Some(SessionTime { created: 1, updated: 2 }),
        summary: Some(SessionChanges { additions: 3, deletions: 4, files: 5 }),
    }
}

fn blocker(owner: &str, id: &str) -> CallerResponseBlocker {
    CallerResponseBlocker {
        root_session_id: "root".to_string(),
        owner_session_id: owner.to_string(),
        owner_depth: 1,
        request_id: id.to_string(),
        kind: CallerResponseBlockerKind::Permission,
        payload: CallerResponseBlockerPayload::Permission(PermissionRequest {
            id: id.to_string(),
            session_id: owner.to_string(),
            permission: "bash".to_string(),
            patterns: vec![],
        }),
    }
}

// ---------------------------------------------------------------------------
// Text
// ---------------------------------------------------------------------------

#[test]
fn trimming_knows_exactly_the_white_space_of_unicode() {
    for code in 0..=0x10_ffff_u32 {
        if let Some(c) = char::from_u32(code) {
            let padded = format!("{c}x{c}");
            let expected = padded.trim().to_string();
            assert_eq!(trim(&padded), expected, "code point {code:x}");
        }
    }
    assert_eq!(trim(""), "");
    assert_eq!(trim(" \t "), "");
    assert_eq!(trim(" a b "), "a b");
}

#[test]
fn white_space_is_what_the_contract_lists() {
    let listed = |c: char| {
        matches!(
            c,
            '\u{9}'..='\u{d}'
                | '\u{20}'
                | '\u{85}'
                | '\u{a0}'
                | '\u{1680}'
                | '\u{2000}'..='\u{200a}'
                | '\u{2028}'
                | '\u{2029}'
                | '\u{202f}'
                | '\u{205f}'
                | '\u{3000}'
        )
    };
    for code in 0..=0x10_ffff_u32 {
        if let Some(c) = char::from_u32(code) {
            assert_eq!(trim(&c.to_string()).is_empty(), listed(c), "code point {code:x}");
        }
    }
}

#[test]
fn texts_are_ordered_like_strings() {
    let texts = ["", "a", "ab", "b", "B", "\u{e9}", "z\u{10348}", "z\u{ffff}", "z", "aa"];
    for a in texts {
        for b in texts {
            assert_eq!(text_before(a, b), a < b, "{a:?} {b:?}");
        }
    }
}

#[test]
fn numbers_lines_and_joins() {
    assert_eq!(decimal(0), "0");
    assert_eq!(decimal(9), "9");
    assert_eq!(decimal(10), "10");
    assert_eq!(decimal(1_234_567_890), "1234567890");
    assert_eq!(decimal(u64::MAX), "18446744073709551615");
    assert_eq!(first_line(""), None);
    assert_eq!(first_line("one"), Some("one".to_string()));
    assert_eq!(first_line("one\ntwo"), Some("one".to_string()));
    assert_eq!(first_line("one\r\ntwo"), Some("one".to_string()));
    assert_eq!(first_line("\r\n"), Some("".to_string()));
    assert_eq!(first_line("one\r"), Some("one\r".to_string()));
    assert_eq!(join(&vec![], ", "), "");
    assert_eq!(join(&vec!["a".to_string()], ", "), "a");
    assert_eq!(join(&vec!["a".to_string(), "".to_string(), "c".to_string()], ", "), "a, , c");
    assert_eq!(characters("a\u{20ac}"), vec!['a', '\u{20ac}']);
}

// ---------------------------------------------------------------------------
// Policies and records
// ---------------------------------------------------------------------------

#[test]
fn denied_commands_and_agents_are_explained() {
    assert_eq!(
        blocked_command_error("deploy", CommandPolicyDecision::DeniedByAllowlist).to_text(),
        "invalid input: Command 'deploy' cannot be run because it is not present in \
         orchestrator.commands.allow."
    );
    assert_eq!(
        blocked_command_error("deploy", CommandPolicyDecision::DeniedByDenylist).to_text(),
        "invalid input: Command 'deploy' cannot be run because it is blocked by \
         orchestrator.commands.deny."
    );
    assert_eq!(
        blocked_command_error("deploy", CommandPolicyDecision::Allowed).to_text(),
        "internal error: command unexpectedly allowed"
    );
    assert_eq!(
        blocked_agent_error("Plan", AgentPolicyDecision::DeniedByAllowlist).to_text(),
        "invalid input: Agent 'Plan' cannot be used because it is not present in \
         orchestrator.agents.allow."
    );
    assert_eq!(
        blocked_agent_error("Plan", AgentPolicyDecision::DeniedByDenylist).to_text(),
        "invalid input: Agent 'Plan' cannot be used because it is blocked by \
         orchestrator.agents.deny."
    );
    assert_eq!(
        blocked_agent_error("Plan", AgentPolicyDecision::Allowed).to_text(),
        "internal error: agent unexpectedly allowed"
    );
}

#[test]
fn policies_only_concern_what_a_request_names() {
    let request = |command: Option<&str>, agent: Option<&str>| RunRequest {
        session_id: None,
        command: command.map(|c| c.to_string()),
        agent: agent.map(|a| a.to_string()),
        message: Some("m".to_string()),
        wait_for_activity: false,
    };
    let denied = CommandPolicyDecision::DeniedByDenylist;
    let shut = AgentPolicyDecision::DeniedByAllowlist;
    assert!(check_run_policies(&request(None, None), denied, shut).is_ok());
    assert!(check_run_policies(&request(Some("c"), None), denied, shut).is_err());
    assert!(check_run_policies(&request(None, Some("a")), denied, shut).is_err());
    assert!(check_run_policies(
        &request(Some("c"), None),
        CommandPolicyDecision::Allowed,
        shut
    )
    .is_ok());
}

#[test]
fn failures_are_classified_for_the_log() {
    let kind = |error: ToolError| failure_record("run", &error).failure_kind;
    assert_eq!(
        kind(ToolError::Internal("Session execution TIMED OUT after 1 hour.".to_string())),
        Some("timeout".to_string())
    );
    assert_eq!(
        kind(ToolError::Internal("Session idle timeout: cancelled".to_string())),
        Some("timeout".to_string())
    );
    assert_eq!(kind(ToolError::Cancelled(None)), Some("cancelled".to_string()));
    assert_eq!(
        kind(ToolError::InvalidInput("was Canceled".to_string())),
        Some("cancelled".to_string())
    );
    assert_eq!(kind(ToolError::InvalidInput("nope".to_string())), Some("error".to_string()));
    let record = failure_record("run", &ToolError::Cancelled(Some("by user".to_string())));
    assert_eq!(record.server, "opencode-orchestrator-mcp");
    assert_eq!(record.tool, "run");
    assert!(!record.success);
    assert_eq!(record.error.as_deref(), Some("cancelled: by user"));
    assert!(record.token_usage.is_none());
}

#[test]
fn successes_are_logged_with_their_tokens() {
    let record = success_record(
        "list_agents",
        ToolLogMeta {
            token_usage: Some(agentic_logging::TokenUsage {
                prompt: 7,
                completion: 0,
                total: 7,
                reasoning_tokens: Some(1),
            }),
            token_usage_saturated: true,
        },
    );
    assert_eq!(record.server, "opencode-orchestrator-mcp");
    assert_eq!(record.tool, "list_agents");
    assert!(record.success && record.error.is_none() && record.failure_kind.is_none());
    assert_eq!(record.token_usage.map(|usage| usage.prompt), Some(7));
    assert!(record.token_usage_saturated);
    assert!(ToolLogMeta::default().token_usage.is_none());
}

// ---------------------------------------------------------------------------
// Lineage, latch and idleness
// ---------------------------------------------------------------------------

#[test]
fn depths_count_parent_links() {
    let mut lineage = SessionLineageResolver::default();
    assert!(matches!(
        lineage.eligible_owner_depth("root", "root"),
        LineageAnswer::Known(Some(0))
    ));
    match lineage.eligible_owner_depth("root", "grandchild") {
        LineageAnswer::Fetch(id) => assert_eq!(id, "grandchild"),
        other => panic!("expected a fetch, got {other:?}"),
    }
    lineage.record_session("grandchild", Some("child".to_string()));
    match lineage.eligible_owner_depth("root", "grandchild") {
        LineageAnswer::Fetch(id) => assert_eq!(id, "child"),
        other => panic!("expected a fetch, got {other:?}"),
    }
    lineage.record_session("child", Some("root".to_string()));
    assert!(matches!(
        lineage.eligible_owner_depth("root", "grandchild"),
        LineageAnswer::Known(Some(2))
    ));
    // What is known stays.
    lineage.record_session("child", None);
    assert!(matches!(
        lineage.eligible_owner_depth("root", "child"),
        LineageAnswer::Known(Some(1))
    ));
}

#[test]
fn circles_tops_and_missing_sessions_are_outside() {
    let mut lineage = SessionLineageResolver::default();
    lineage.record_session("a", Some("b".to_string()));
    lineage.record_session("b", Some("a".to_string()));
    lineage.record_session("self", Some("self".to_string()));
    lineage.record_session("top", None);
    for owner in ["a", "b", "self", "top"] {
        assert!(matches!(
            lineage.eligible_owner_depth("root", owner),
            LineageAnswer::Known(None)
        ));
    }
    assert!(matches!(
        lineage.settle("root", "x", "x", Err(http(404, "gone"))),
        Ok(LineageAnswer::Known(None))
    ));
    match lineage.settle("root", "x", "x", Err(http(500, "down"))) {
        Err(error) => assert_eq!(error.text, "down"),
        Ok(other) => panic!("expected the error back, got {other:?}"),
    }
    let child = Session { parent_id: Some("root".to_string()), ..session("x") };
    assert!(matches!(
        lineage.settle("root", "x", "x", Ok(child)),
        Ok(LineageAnswer::Known(Some(1)))
    ));
}

#[test]
fn of_equal_requests_the_first_listed_leads() {
    let mut first = blocker("o", "r");
    first.root_session_id = "listed first".to_string();
    let mut second = blocker("o", "r");
    second.root_session_id = "listed second".to_string();
    let led = first_blocker(vec![blocker("p", "a"), first, second]).unwrap();
    assert_eq!(led.root_session_id, "listed first");
    assert!(first_blocker(vec![]).is_none());
}

#[test]
fn a_scan_that_missed_something_never_ends_clear() {
    let root = "root".to_string();
    let mut lineage = SessionLineageResolver::default();
    let mut warnings = vec![];
    let (mut scan, _) = BlockerScan::begin(BlockerDetectionSource::Fallback);
    let step =
        scan.on_permissions(&root, &mut lineage, &mut warnings, Err(http(503, "unavailable")));
    assert!(matches!(step, ScanStep::ListQuestions));
    assert!(warnings.is_empty());
    let question = QuestionRequest {
        id: "q".to_string(),
        session_id: "gone".to_string(),
        questions: vec![],
    };
    let step = scan.on_questions(&root, &mut lineage, Ok(vec![question]));
    assert!(matches!(step, ScanStep::FetchSession(id) if id == "gone"));
    let step = scan.on_session(&root, &mut lineage, Err(http(404, "not found")));
    assert!(matches!(step, ScanStep::Finished(Ok(BlockerScanResult::Inconclusive))));

    let (mut scan, _) = BlockerScan::begin(BlockerDetectionSource::Fallback);
    scan.on_permissions(&root, &mut lineage, &mut warnings, Ok(vec![]));
    let step = scan.on_questions(&root, &mut lineage, Err(http(400, "bad")));
    assert!(matches!(step, ScanStep::Finished(Ok(BlockerScanResult::Inconclusive))));

    let (mut scan, _) = BlockerScan::begin(BlockerDetectionSource::Preflight(
        PermissionPreflightMode::RespondPermissionContinuation,
    ));
    scan.on_permissions(&root, &mut lineage, &mut warnings, Err(http(400, "bad")));
    assert_eq!(
        warnings,
        vec![
            "Permission refresh failed after reply (bad); permission state could not be listed and \
             may be stale or malformed. Continuing with polling fallback."
                .to_string()
        ]
    );
}

#[test]
fn a_latch_needs_two_clear_polls_in_a_row() {
    let permission = CallerResponseBlockerKind::Permission;
    let mut latch = CallerResponseEventLatch::default();
    assert!(latch.is_empty());
    latch.latch(permission, "child", "p");
    latch.observe_poll_scan(&BlockerScanResult::Clear);
    assert!(!latch.is_empty());
    latch.observe_poll_scan(&BlockerScanResult::Inconclusive);
    latch.observe_poll_scan(&BlockerScanResult::Clear);
    assert!(!latch.is_empty());
    latch.observe_poll_scan(&BlockerScanResult::Found(Box::new(blocker("child", "p"))));
    latch.observe_poll_scan(&BlockerScanResult::Clear);
    assert!(latch.is_empty());
}

#[test]
fn a_latch_tells_requests_apart() {
    let permission = CallerResponseBlockerKind::Permission;
    let question = CallerResponseBlockerKind::Question;
    let mut latch = CallerResponseEventLatch::default();
    latch.latch(permission, "child", "p");
    latch.latch(permission, "child", "p");
    latch.remove(question, "child", "p");
    latch.remove(permission, "other", "p");
    latch.remove(permission, "child", "q");
    assert!(!latch.is_empty());
    latch.remove(permission, "child", "p");
    assert!(latch.is_empty());
    // Announcing a request again starts its count anew.
    latch.latch(permission, "child", "p");
    latch.observe_poll_scan(&BlockerScanResult::Clear);
    latch.latch(permission, "child", "p");
    latch.observe_poll_scan(&BlockerScanResult::Clear);
    assert!(!latch.is_empty());
}

#[test]
fn idle_sessions_are_judged_step_by_step() {
    let mut monitor = IdleCompletionMonitor::default();
    let mut latch = CallerResponseEventLatch::default();
    let clear = BlockerScanResult::Clear;

    let first =
        evaluate_idle_completion(&mut monitor, &mut latch, clear.clone(), true, true, true);
    assert!(matches!(first, IdleEvaluation::Settled(IdleCompletionOutcome::Continue)));
    assert!(monitor.completion_candidate_pending);

    let second =
        evaluate_idle_completion(&mut monitor, &mut latch, clear.clone(), true, true, true);
    assert!(matches!(second, IdleEvaluation::Confirm));
    assert!(matches!(
        confirm_idle_completion(&mut monitor, &latch, BlockerScanResult::Inconclusive),
        IdleCompletionOutcome::Continue
    ));
    assert!(monitor.completion_candidate_pending);
    assert!(matches!(
        confirm_idle_completion(&mut monitor, &latch, clear.clone()),
        IdleCompletionOutcome::Complete
    ));
    assert!(!monitor.completion_candidate_pending);

    // Without events one clear look is enough to ask for confirmation.
    let quiet =
        evaluate_idle_completion(&mut monitor, &mut latch, clear.clone(), true, true, false);
    assert!(matches!(quiet, IdleEvaluation::Confirm));

    monitor.completion_candidate_pending = true;
    let observed =
        evaluate_idle_completion(&mut monitor, &mut latch, clear.clone(), false, false, true);
    assert!(matches!(observed, IdleEvaluation::Settled(IdleCompletionOutcome::Continue)));
    assert!(monitor.completion_candidate_pending);

    latch.latch(CallerResponseBlockerKind::Question, "child", "q");
    let held = evaluate_idle_completion(&mut monitor, &mut latch, clear.clone(), true, true, true);
    assert!(matches!(held, IdleEvaluation::Settled(IdleCompletionOutcome::Continue)));
    assert!(!monitor.completion_candidate_pending);
    assert!(matches!(
        confirm_idle_completion(&mut monitor, &latch, clear),
        IdleCompletionOutcome::Continue
    ));

    monitor.completion_candidate_pending = true;
    let found = BlockerScanResult::Found(Box::new(blocker("child", "p")));
    match evaluate_idle_completion(&mut monitor, &mut latch, found, true, true, true) {
        IdleEvaluation::Settled(IdleCompletionOutcome::Blocker(b)) => {
            assert_eq!(b.request_id, "p");
        }
        _ => panic!("a found request reaches the caller"),
    }
    assert!(!monitor.completion_candidate_pending);

    monitor.completion_candidate_pending = true;
    monitor.reset_on_root_progress();
    assert!(!monitor.completion_candidate_pending);
    monitor.completion_candidate_pending = true;
    monitor.reset_completion_candidate();
    assert!(!monitor.completion_candidate_pending);
}

// ---------------------------------------------------------------------------
// Sessions, commands and agents
// ---------------------------------------------------------------------------

#[test]
fn pending_messages_are_those_after_the_last_reply() {
    assert_eq!(count_pending_messages(&vec![]), 0);
    assert_eq!(
        count_pending_messages(&vec![
            message("1", "user"),
            message("2", "assistant"),
            message("3", "user"),
            message("4", "system"),
            message("5", "user"),
        ]),
        2
    );
    assert_eq!(count_pending_messages(&vec![message("1", "user"), message("2", "assistant")]), 0);
}

#[test]
fn last_activity_prefers_completion() {
    let mut done = message("1", "assistant");
    done.completed = Some(20);
    assert_eq!(get_last_activity_time(&vec![message("0", "user"), done], Some(99)), Some(20));
    assert_eq!(get_last_activity_time(&vec![message("0", "user")], Some(99)), Some(10));
    assert_eq!(get_last_activity_time(&vec![], None), None);
}

#[test]
fn recent_tool_calls_come_most_recent_first() {
    let mut first = message("1", "assistant");
    first.parts = vec![tool("a", None), Part::Other, tool("b", Some(ToolState::Unknown))];
    let mut second = message("2", "assistant");
    second.parts = vec![
        tool("c", Some(ToolState::Running { start: 1 })),
        tool("d", Some(ToolState::Completed { start: 2, end: 3 })),
        tool("e", Some(ToolState::Error { error: "boom".to_string(), start: 4, end: 5 })),
        tool("f", Some(ToolState::Pending)),
    ];
    let messages = vec![first, second];
    let ids = |limit: usize| -> Vec<String> {
        extract_recent_tool_calls(&messages, limit).into_iter().map(|c| c.call_id).collect()
    };
    assert_eq!(ids(10), ["f", "e", "d", "c", "b", "a"]);
    assert_eq!(ids(2), ["f", "e"]);
    assert_eq!(ids(0), ["f"]);
    assert!(extract_recent_tool_calls(&vec![], 0).is_empty());
    let calls = extract_recent_tool_calls(&messages, 10);
    assert!(matches!(calls[0].state, ToolStateSummary::Pending));
    match &calls[1].state {
        ToolStateSummary::Error { message } => assert_eq!(message, "boom"),
        other => panic!("expected an error, got {other:?}"),
    }
    assert_eq!((calls[1].started_at, calls[1].completed_at), (Some(4), Some(5)));
    assert!(matches!(calls[2].state, ToolStateSummary::Completed));
    assert_eq!((calls[2].started_at, calls[2].completed_at), (Some(2), Some(3)));
    assert!(matches!(calls[3].state, ToolStateSummary::Running));
    assert_eq!((calls[3].started_at, calls[3].completed_at), (Some(1), None));
    assert!(matches!(calls[4].state, ToolStateSummary::Pending));
    assert_eq!((calls[4].started_at, calls[4].completed_at), (None, None));
    assert_eq!(calls[5].tool_name, "bash");
}

#[test]
fn a_transcript_shows_the_command_by_its_message() {
    let window = CommandTranscriptWindow { command_message_id: "msg-command".to_string() };
    assert!(!transcript_indicates_command_dispatch(&vec![], &window));
    assert!(!transcript_indicates_command_dispatch(&vec![message("other", "user")], &window));
    assert!(transcript_indicates_command_dispatch(
        &vec![message("other", "user"), message("msg-command", "user")],
        &window
    ));
}

#[test]
fn sessions_are_summarized_up_to_the_limit() {
    let mut statuses: StringHashMap<SessionStatusInfo> = StringHashMap::new();
    statuses.insert("s0".to_string(), SessionStatusInfo::Busy);
    statuses.insert("s1".to_string(), SessionStatusInfo::Unknown);
    statuses.insert(
        "s2".to_string(),
        SessionStatusInfo::Retry { attempt: 2, message: "slow".to_string(), next: 9 },
    );
    statuses.insert("s3".to_string(), SessionStatusInfo::Idle);
    let mut spawned = StringHashSet::new();
    spawned.insert("s1".to_string());
    let many = || (0..25).map(|i| session(&format!("s{i}"))).collect::<Vec<Session>>();

    let listed = ListSessionsTool::summarize(
        &ListSessionsInput::default(),
        many(),
        Some(&statuses),
        &spawned,
    );
    assert_eq!(listed.sessions.len(), 20);
    let words: Vec<&'static str> = listed
        .sessions
        .iter()
        .take(5)
        .map(|s| match &s.status {
            Some(SessionStatusSummary::Busy) => "busy",
            Some(SessionStatusSummary::Idle) => "idle",
            Some(SessionStatusSummary::Retry { attempt: 2, next: 9, .. }) => "retry",
            _ => "other",
        })
        .collect();
    assert_eq!(words, ["busy", "busy", "retry", "idle", "idle"]);
    assert!(!listed.sessions[0].launched_by_you);
    assert!(listed.sessions[1].launched_by_you);
    assert_eq!(listed.sessions[4].id, "s4");
    assert_eq!(listed.sessions[4].title, "title of s4");
    assert_eq!(listed.sessions[4].created, Some(1));
    assert_eq!(listed.sessions[4].updated, Some(2));
    assert_eq!(listed.sessions[4].directory.as_deref(), Some("/tmp"));
    assert_eq!(listed.sessions[4].path, None);
    let stats = listed.sessions[4].change_stats.as_ref().unwrap();
    assert_eq!((stats.additions, stats.deletions, stats.files), (3, 4, 5));

    let none = ListSessionsTool::summarize(
        &ListSessionsInput { limit: Some(0) },
        many(),
        None,
        &spawned,
    );
    assert!(none.sessions.is_empty());
    let all = ListSessionsTool::summarize(
        &ListSessionsInput { limit: Some(100) },
        many(),
        None,
        &spawned,
    );
    assert_eq!(all.sessions.len(), 25);
    assert!(all.sessions[0].status.is_none());
    match ListSessionsTool::take_listed(Err(http(500, "down"))) {
        Err(error) => {
            assert_eq!(error.to_text(), "internal error: Failed to list sessions: down");
        }
        Ok(_) => panic!("the listing failed"),
    }
    assert_eq!(ListSessionsTool::take_listed(Ok(many())).unwrap().len(), 25);
}

#[test]
fn a_session_is_described_by_its_transcript() {
    let id = "s".to_string();
    let mut spawned = StringHashSet::new();
    spawned.insert("s".to_string());
    let status = GetSessionStateTool::take_status(Ok(SessionStatusInfo::Unknown)).unwrap();
    let mut last = message("2", "user");
    last.parts = vec![tool("c", None)];
    let state = GetSessionStateTool::describe(
        &id,
        session("s"),
        status,
        Ok(vec![message("1", "assistant"), last]),
        &spawned,
    )
    .unwrap();
    assert_eq!(state.session_id, "s");
    assert_eq!(state.title, "title of s");
    assert!(matches!(state.status, SessionStatusSummary::Busy));
    assert!(state.launched_by_you);
    assert_eq!(state.pending_message_count, 1);
    assert_eq!(state.last_activity, Some(10));
    assert_eq!(state.recent_tool_calls.len(), 1);

    let empty = GetSessionStateTool::describe(
        &"other".to_string(),
        session("s"),
        SessionStatusSummary::Idle,
        Ok(vec![]),
        &spawned,
    )
    .unwrap();
    assert!(!empty.launched_by_you);
    assert_eq!(empty.last_activity, Some(2));
}

#[test]
fn a_session_that_cannot_be_described_is_an_error() {
    let id = "s".to_string();
    let text = |error: ToolError| error.to_text();
    assert_eq!(
        text(GetSessionStateTool::take_session(&id, Err(http(404, "gone"))).unwrap_err()),
        "invalid input: Session 's' not found. Use list_sessions to discover available sessions."
    );
    assert_eq!(
        text(GetSessionStateTool::take_session(&id, Err(http(500, "down"))).unwrap_err()),
        "internal error: Failed to get session: down"
    );
    assert_eq!(GetSessionStateTool::take_session(&id, Ok(session("s"))).unwrap().id, "s");
    assert_eq!(
        text(GetSessionStateTool::take_status(Err(http(500, "down"))).unwrap_err()),
        "internal error: Failed to get session status: down"
    );
    assert_eq!(
        text(
            GetSessionStateTool::describe(
                &id,
                session("s"),
                SessionStatusSummary::Idle,
                Err(http(500, "down")),
                &StringHashSet::new(),
            )
            .unwrap_err()
        ),
        "internal error: Failed to list messages: down"
    );
}

#[test]
fn hidden_and_denied_entries_are_not_listed() {
    let agent = |name: &str, hidden: Option<bool>, decision: AgentPolicyDecision| OfferedAgent {
        name: name.to_string(),
        description: Some(format!("about {name}")),
        hidden,
        decision,
    };
    let agents = ListAgentsTool::list(Ok(vec![
        agent("a", None, AgentPolicyDecision::Allowed),
        agent("b", Some(true), AgentPolicyDecision::Allowed),
        agent("c", Some(false), AgentPolicyDecision::DeniedByDenylist),
        agent("d", Some(false), AgentPolicyDecision::Allowed),
    ]))
    .unwrap();
    let names: Vec<String> = agents.agents.into_iter().map(|a| a.name).collect();
    assert_eq!(names, ["a", "d"]);
    assert_eq!(
        ListAgentsTool::list(Err(http(500, "down"))).unwrap_err().to_text(),
        "internal error: Failed to list agents: down"
    );

    let command = |name: &str, decision: CommandPolicyDecision| OfferedCommand {
        name: name.to_string(),
        description: None,
        decision,
    };
    let commands = ListCommandsTool::list(Ok(vec![
        command("x", CommandPolicyDecision::DeniedByAllowlist),
        command("y", CommandPolicyDecision::Allowed),
    ]))
    .unwrap();
    assert_eq!(commands.commands.len(), 1);
    assert_eq!(commands.commands[0].name, "y");
    assert_eq!(
        ListCommandsTool::list(Err(http(500, "down"))).unwrap_err().to_text(),
        "internal error: Failed to list commands: down"
    );
}

// ---------------------------------------------------------------------------
// Values
// ---------------------------------------------------------------------------

#[test]
fn errors_statuses_and_events_are_told_apart() {
    assert!(http(404, "").is_not_found());
    assert!(!http(400, "").is_not_found());
    assert!(http(400, "").is_validation_error());
    let lost = ApiError { kind: ApiErrorKind::Transport, text: String::new() };
    assert!(!lost.is_not_found() && !lost.is_validation_error());
    assert!(!SessionStatusInfo::Idle.is_busy_like());
    assert!(SessionStatusInfo::Busy.is_busy_like());
    assert!(SessionStatusInfo::Unknown.is_busy_like());
    assert!(Event::Other { session_id: None }.session_id().is_none());
    assert_eq!(Event::SessionIdle { session_id: "s".to_string() }.session_id(), Some("s"));
}

#[test]
fn delays_before_reading_the_transcript_grow() {
    let delays: Vec<u64> = (0..5).map(backoff_ms).collect();
    assert_eq!(delays, [0, 50, 100, 200, 400]);
}

#[test]
fn tools_share_one_server() {
    let server = Arc::new(OrchestratorServerHandle {
        limits: RunLimits { session_deadline: 1, inactivity_timeout: 2, idle_grace: 3 },
    });
    assert_eq!(OrchestratorRunTool::new(Arc::clone(&server)).server().limits.idle_grace, 3);
    assert_eq!(ListSessionsTool::new(Arc::clone(&server)).server().limits.session_deadline, 1);
    assert_eq!(GetSessionStateTool::new(Arc::clone(&server)).server().limits.idle_grace, 3);
    assert_eq!(ListAgentsTool::new(Arc::clone(&server)).server().limits.idle_grace, 3);
    assert_eq!(ListCommandsTool::new(Arc::clone(&server)).server().limits.idle_grace, 3);
    assert_eq!(RespondPermissionTool::new(Arc::clone(&server)).server().limits.idle_grace, 3);
    assert_eq!(
        RespondQuestionTool::new(Arc::clone(&server)).server().limits.inactivity_timeout,
        2
    );
    assert_eq!(Arc::strong_count(&server), 1);
}
