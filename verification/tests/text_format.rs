//! Tests of the outputs as text.

use opencode_orchestrator_mcp::format::format_time_ago;
use opencode_orchestrator_mcp::format::format_time_ago_at;
use opencode_orchestrator_mcp::format::unix_time;
use opencode_orchestrator_mcp::types::AgentInfo;
use opencode_orchestrator_mcp::types::ChangeStats;
use opencode_orchestrator_mcp::types::CommandInfo;
use opencode_orchestrator_mcp::types::GetSessionStateOutput;
use opencode_orchestrator_mcp::types::ListAgentsOutput;
use opencode_orchestrator_mcp::types::ListCommandsOutput;
use opencode_orchestrator_mcp::types::ListSessionsOutput;
use opencode_orchestrator_mcp::types::OrchestratorRunOutput;
use opencode_orchestrator_mcp::types::QuestionInfoView;
use opencode_orchestrator_mcp::types::QuestionOptionView;
use opencode_orchestrator_mcp::types::RunStatus;
use opencode_orchestrator_mcp::types::SessionStatusSummary;
use opencode_orchestrator_mcp::types::SessionSummary;
use opencode_orchestrator_mcp::types::ToolCallSummary;
use opencode_orchestrator_mcp::types::ToolStateSummary;

#[test]
fn run_output_text_format_completed() {
    let out = OrchestratorRunOutput {
        session_id: "sess-123".into(),
        status: RunStatus::Completed,
        response: Some("Task completed successfully.".into()),
        partial_response: None,
        permission_request_id: None,
        permission_type: None,
        permission_patterns: vec![],
        question_request_id: None,
        questions: vec![],
        warnings: vec![],
    };

    let text = out.fmt_text();
    assert!(text.contains("completed"));
    assert!(text.contains("sess-123"));
    assert!(text.contains("Task completed successfully"));
    assert_eq!(
        text,
        "\u{2713} session completed sess-123\n\n--- Response ---\nTask completed successfully."
    );
}

#[test]
fn run_output_text_format_permission_required() {
    let out = OrchestratorRunOutput {
        session_id: "sess-456".into(),
        status: RunStatus::PermissionRequired,
        response: None,
        partial_response: Some("Starting task...".into()),
        permission_request_id: Some("perm-789".into()),
        permission_type: Some("file.write".into()),
        permission_patterns: vec!["src/**/*.rs".into()],
        question_request_id: None,
        questions: vec![],
        warnings: vec![],
    };

    let text = out.fmt_text();
    assert!(text.contains("permission_required"));
    assert!(text.contains("sess-456"));
    assert!(text.contains("file.write"));
    assert!(text.contains("src/**/*.rs"));
    assert!(text.contains("perm-789"));
    assert!(text.contains("orchestrator_respond_permission"));
    assert!(text.contains("permission_request_id"));
    assert_eq!(
        text,
        "\u{23f8} session permission_required sess-456\n\
         \n--- Permission Request ---\n\
         Type: file.write\n\
         Patterns: src/**/*.rs\n\
         Request ID: perm-789\n\
         \nTo respond: orchestrator_respond_permission(session_id, permission_request_id=<Request ID>, reply)\n  \
         reply options: once | always | reject\n  \
         omission is supported only for root-owned compatibility discovery\n\
         \n--- Partial Response ---\nStarting task..."
    );
}

#[test]
fn run_output_text_format_question_required() {
    let out = OrchestratorRunOutput {
        session_id: "sess-789".into(),
        status: RunStatus::QuestionRequired,
        response: None,
        partial_response: Some("Need confirmation".into()),
        permission_request_id: None,
        permission_type: None,
        permission_patterns: vec![],
        question_request_id: Some("question-123".into()),
        questions: vec![QuestionInfoView {
            question: "Continue with deploy?".into(),
            header: "Deployment".into(),
            options: vec![QuestionOptionView {
                label: "yes".into(),
                description: "Proceed".into(),
            }],
            multiple: false,
            custom: false,
        }],
        warnings: vec![],
    };

    let text = out.fmt_text();
    assert!(text.contains("question_required"));
    assert!(text.contains("question-123"));
    assert!(text.contains("Continue with deploy?"));
    assert!(text.contains("orchestrator_respond_question"));
    assert_eq!(
        text,
        "? session question_required sess-789\n\
         \n--- Question Request ---\n\
         Request ID: question-123\n\
         Header: Deployment\n\
         Question 1: Continue with deploy?\n  \
         - yes: Proceed\n  \
         multiple: false\n  \
         custom: false\n\
         \nTo respond: orchestrator_respond_question(session_id, question_request_id=<Request ID>, action, answers)\n  \
         action options: reply | reject\n  \
         omission is supported only for root-owned compatibility discovery\n\
         \n--- Partial Response ---\nNeed confirmation"
    );
}

#[test]
fn list_sessions_text_format() {
    let out = ListSessionsOutput {
        sessions: vec![SessionSummary {
            id: "sess-1".into(),
            title: "Research caching".into(),
            updated: Some(0),
            created: Some(0),
            directory: Some("/tmp/project".into()),
            path: Some("src/cache.rs".into()),
            status: Some(SessionStatusSummary::Idle),
            change_stats: Some(ChangeStats {
                additions: 1,
                deletions: 0,
                files: 1,
            }),
            launched_by_you: true,
        }],
    };

    let text = out.fmt_text();
    assert!(text.contains("Sessions (1)"));
    assert!(text.contains("sess-1"));
    assert!(text.contains("Research caching"));
    assert!(text.contains("idle"));
    assert!(text.contains("launched by you"));
    assert!(text.contains("Path: src/cache.rs"));
    // The clock is read: the epoch lies days back.
    assert!(text.contains("d ago, idle) [launched by you]\n"));
    assert_eq!(
        out.fmt_text_at(7200),
        "Sessions (1):\n  sess-1 - Research caching (2h ago, idle) [launched by you]\n    Path: src/cache.rs\n"
    );
}

#[test]
fn get_session_state_text_format_includes_path() {
    let out = GetSessionStateOutput {
        session_id: "sess-1".into(),
        title: "Research caching".into(),
        directory: Some("/tmp/project".into()),
        path: Some("src/cache.rs".into()),
        status: SessionStatusSummary::Idle,
        launched_by_you: false,
        pending_message_count: 0,
        last_activity: None,
        recent_tool_calls: vec![],
    };

    let text = out.fmt_text();
    assert!(text.contains("Directory: /tmp/project"));
    assert!(text.contains("Path: src/cache.rs"));
    assert_eq!(
        text,
        "Session: sess-1 (Research caching)\n  Directory: /tmp/project\n  Path: src/cache.rs\n  \
         Status: Idle\n  Launched by you: false\n  Pending messages: 0\n"
    );
}

#[test]
fn list_commands_text_format() {
    let out = ListCommandsOutput {
        commands: vec![CommandInfo {
            name: "research".into(),
            description: Some("Run research workflow".into()),
        }],
    };

    let text = out.fmt_text();
    assert!(text.contains("research"));
    assert!(text.contains("Run research workflow"));
    assert!(text.contains("orchestrator_run"));
}

#[test]
fn list_agents_text_format() {
    let out = ListAgentsOutput {
        agents: vec![AgentInfo {
            name: "Plan".into(),
            description: Some("Use for planning tasks\nExtra detail".into()),
        }],
    };

    let text = out.fmt_text();
    assert!(text.contains("Available agents"));
    assert!(text.contains("Plan"));
    assert!(text.contains("Use for planning tasks"));
    assert!(!text.contains("Extra detail"));
    assert!(text.contains("orchestrator_run"));
    assert!(text.contains("agent=<name>"));
}

#[test]
fn list_agents_text_format_omits_dash_when_description_missing() {
    let out = ListAgentsOutput {
        agents: vec![AgentInfo {
            name: "NoDesc".into(),
            description: None,
        }],
    };

    let text = out.fmt_text();
    assert!(text.contains("  NoDesc\n"));
    assert!(!text.contains("NoDesc -"));
}

#[test]
fn list_of_commands_shows_first_lines_only() {
    let out = ListCommandsOutput {
        commands: vec![
            CommandInfo { name: "a".into(), description: Some("one\r\ntwo".into()) },
            CommandInfo { name: "b".into(), description: Some("".into()) },
            CommandInfo { name: "c".into(), description: Some("\nlate".into()) },
            CommandInfo { name: "d".into(), description: Some("bare\r".into()) },
            CommandInfo { name: "e".into(), description: None },
        ],
    };
    assert_eq!(
        out.fmt_text(),
        "Available commands:\n  a - one\n  b\n  c - \n  d - bare\r\n  e\n\
         \nUse orchestrator_run(command=<name>, message=<args>) to execute\n"
    );
}

#[test]
fn empty_lists_say_so() {
    assert_eq!(
        ListCommandsOutput { commands: vec![] }.fmt_text(),
        "Available commands:\n  (no commands available)\n\
         \nUse orchestrator_run(command=<name>, message=<args>) to execute\n"
    );
    assert_eq!(
        ListAgentsOutput { agents: vec![] }.fmt_text(),
        "Available agents:\n  (no agents available)\n\
         \nUse orchestrator_run(message=<prompt>, agent=<name>) for raw prompts\n"
    );
    assert_eq!(
        ListSessionsOutput { sessions: vec![] }.fmt_text(),
        "Sessions (0):\n  (no sessions found)\n"
    );
}

#[test]
fn warnings_and_several_questions_are_listed_in_order() {
    let question = |text: &str| QuestionInfoView {
        question: text.to_string(),
        header: String::new(),
        options: vec![QuestionOptionView { label: "go".into(), description: String::new() }],
        multiple: true,
        custom: true,
    };
    let out = OrchestratorRunOutput {
        session_id: "s".into(),
        status: RunStatus::QuestionRequired,
        response: None,
        partial_response: Some(" \n\u{3000}\t".into()),
        permission_request_id: None,
        permission_type: None,
        permission_patterns: vec![],
        question_request_id: None,
        questions: vec![question("First?"), question("Second?")],
        warnings: vec!["w1".into(), "w2".into()],
    };
    assert_eq!(
        out.fmt_text(),
        "? session question_required s\n  warning: w1\n  warning: w2\n\
         \n--- Question Request ---\n\
         Question 1: First?\n  - go\n  multiple: true\n  custom: true\n\
         Question 2: Second?\n  - go\n  multiple: true\n  custom: true\n\
         \nTo respond: orchestrator_respond_question(session_id, question_request_id=<Request ID>, action, answers)\n  \
         action options: reply | reject\n  \
         omission is supported only for root-owned compatibility discovery\n"
    );
}

#[test]
fn ages_are_given_in_the_largest_full_unit() {
    assert_eq!(format_time_ago_at(100, 41), "just now");
    assert_eq!(format_time_ago_at(100, 500), "just now");
    assert_eq!(format_time_ago_at(100, 40), "1m ago");
    assert_eq!(format_time_ago_at(3599, 0), "59m ago");
    assert_eq!(format_time_ago_at(3600, 0), "1h ago");
    assert_eq!(format_time_ago_at(86_399, 0), "23h ago");
    assert_eq!(format_time_ago_at(86_400, 0), "1d ago");
    assert_eq!(format_time_ago_at(864_000, 0), "10d ago");
    assert_eq!(format_time_ago_at(i64::MAX, i64::MIN), "213503982334601d ago");
}

#[test]
fn the_clock_is_read_in_seconds_since_the_epoch() {
    assert_eq!(unix_time(None), 0);
    assert_eq!(unix_time(Some(12)), 12);
    assert_eq!(unix_time(Some(u64::MAX)), 0);
    let days: u64 = format_time_ago(0).trim_end_matches("d ago").parse().unwrap();
    assert!(days > 19_000);
    assert_eq!(format_time_ago(i64::MAX), "just now");
}

#[test]
fn session_state_text_shows_activity_and_tool_calls() {
    let call = |id: &str, state: ToolStateSummary| ToolCallSummary {
        call_id: id.to_string(),
        tool_name: "bash".into(),
        state,
        started_at: None,
        completed_at: None,
    };
    let out = GetSessionStateOutput {
        session_id: "s".into(),
        title: "t".into(),
        directory: None,
        path: None,
        status: SessionStatusSummary::Retry { attempt: 3, message: "busy".into(), next: 1_700 },
        launched_by_you: true,
        pending_message_count: 12,
        last_activity: Some(40),
        recent_tool_calls: vec![
            call("c1", ToolStateSummary::Pending),
            call("c2", ToolStateSummary::Running),
            call("c3", ToolStateSummary::Completed),
            call("c4", ToolStateSummary::Error { message: "boom".into() }),
        ],
    };
    assert_eq!(
        out.fmt_text_at(160),
        "Session: s (t)\n  Status: Retry (attempt 3, next at 1700, reason: busy)\n  \
         Launched by you: true\n  Pending messages: 12\n  Last activity: 2m ago\n  \
         Recent tool calls:\n    c1 (bash) - pending\n    c2 (bash) - running\n    \
         c3 (bash) - completed\n    c4 (bash) - error: boom\n"
    );
}

#[test]
fn statuses_of_listed_sessions_have_words() {
    let session = |status: Option<SessionStatusSummary>| SessionSummary {
        id: "i".into(),
        title: "t".into(),
        updated: None,
        created: None,
        directory: None,
        path: None,
        status,
        change_stats: None,
        launched_by_you: false,
    };
    let out = ListSessionsOutput {
        sessions: vec![
            session(Some(SessionStatusSummary::Busy)),
            session(Some(SessionStatusSummary::Retry { attempt: 1, message: "m".into(), next: 2 })),
            session(None),
        ],
    };
    assert_eq!(
        out.fmt_text(),
        "Sessions (3):\n  i - t (unknown, busy)\n  i - t (unknown, retry)\n  i - t (unknown, unknown)\n"
    );
}
