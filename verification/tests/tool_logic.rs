//! Unit tests of the decisions behind the tools.

use opencode_orchestrator_mcp::api::MessageInfo;
use opencode_orchestrator_mcp::api::MessagePartEventProps;
use opencode_orchestrator_mcp::api::MessageUpdatedProps;
use opencode_orchestrator_mcp::api::PermissionRequest;
use opencode_orchestrator_mcp::api::QuestionRequest;
use opencode_orchestrator_mcp::blockers::compare_caller_response_blockers;
use opencode_orchestrator_mcp::blockers::CallerResponseBlocker;
use opencode_orchestrator_mcp::blockers::CallerResponseBlockerKind;
use opencode_orchestrator_mcp::blockers::CallerResponseBlockerPayload;
use opencode_orchestrator_mcp::delta_buffer::PreCorrelationDeltaBuffer;
use opencode_orchestrator_mcp::delta_buffer::PRECORRELATION_MESSAGE_BYTES;
use opencode_orchestrator_mcp::delta_buffer::PRECORRELATION_MESSAGE_IDS;
use opencode_orchestrator_mcp::delta_buffer::PRECORRELATION_TOTAL_BYTES;
use opencode_orchestrator_mcp::tools::GetSessionStateTool;
use opencode_orchestrator_mcp::tools::ListAgentsTool;
use opencode_orchestrator_mcp::tools::ListCommandsTool;
use opencode_orchestrator_mcp::tools::ListSessionsTool;
use opencode_orchestrator_mcp::tools::OrchestratorRunTool;
use opencode_orchestrator_mcp::tools::RespondPermissionTool;
use opencode_orchestrator_mcp::tools::RespondQuestionTool;
use opencode_orchestrator_mcp::transcript::assistant_update_matches_command;
use opencode_orchestrator_mcp::transcript::get_last_activity_time;
use opencode_orchestrator_mcp::transcript::part_event_matches_command;
use opencode_orchestrator_mcp::transcript::record_message_part_delta;
use opencode_orchestrator_mcp::transcript::record_message_updated;
use opencode_orchestrator_mcp::transcript::CommandTranscriptWindow;
use opencode_orchestrator_mcp::StringHashSet;

fn test_blocker(
    kind: CallerResponseBlockerKind,
    owner_session_id: &str,
    owner_depth: usize,
    request_id: &str,
) -> CallerResponseBlocker {
    let payload = match kind {
        CallerResponseBlockerKind::Permission => {
            CallerResponseBlockerPayload::Permission(PermissionRequest {
                id: request_id.to_string(),
                session_id: owner_session_id.to_string(),
                permission: "file.read".to_string(),
                patterns: vec![],
            })
        }
        CallerResponseBlockerKind::Question => {
            CallerResponseBlockerPayload::Question(QuestionRequest {
                id: request_id.to_string(),
                session_id: owner_session_id.to_string(),
                questions: vec![],
            })
        }
    };

    CallerResponseBlocker {
        root_session_id: "root".to_string(),
        owner_session_id: owner_session_id.to_string(),
        owner_depth,
        request_id: request_id.to_string(),
        kind,
        payload,
    }
}

#[test]
fn tool_names_are_short() {
    assert_eq!(OrchestratorRunTool::NAME, "run");
    assert_eq!(ListSessionsTool::NAME, "list_sessions");
    assert_eq!(GetSessionStateTool::NAME, "get_session_state");
    assert_eq!(ListCommandsTool::NAME, "list_commands");
    assert_eq!(RespondPermissionTool::NAME, "respond_permission");
    assert_eq!(RespondQuestionTool::NAME, "respond_question");
    assert_eq!(ListAgentsTool::NAME, "list_agents");
}

#[test]
fn caller_response_blocker_order_prefers_permission_before_question() {
    let mut blockers = [
        test_blocker(CallerResponseBlockerKind::Question, "root", 0, "question"),
        test_blocker(
            CallerResponseBlockerKind::Permission,
            "deep-child",
            3,
            "permission",
        ),
    ];

    blockers.sort_by(compare_caller_response_blockers);
    assert_eq!(blockers[0].kind, CallerResponseBlockerKind::Permission);
}

#[test]
fn caller_response_blocker_order_prefers_shallower_owner() {
    let mut blockers = [
        test_blocker(
            CallerResponseBlockerKind::Permission,
            "deep",
            2,
            "request-1",
        ),
        test_blocker(
            CallerResponseBlockerKind::Permission,
            "shallow",
            1,
            "request-2",
        ),
    ];

    blockers.sort_by(compare_caller_response_blockers);
    assert_eq!(blockers[0].owner_session_id, "shallow");
}

#[test]
fn caller_response_blocker_order_uses_owner_then_request_id() {
    let mut blockers = [
        test_blocker(
            CallerResponseBlockerKind::Question,
            "owner-b",
            1,
            "request-a",
        ),
        test_blocker(
            CallerResponseBlockerKind::Question,
            "owner-a",
            1,
            "request-z",
        ),
        test_blocker(
            CallerResponseBlockerKind::Question,
            "owner-a",
            1,
            "request-a",
        ),
    ];

    blockers.sort_by(compare_caller_response_blockers);
    assert_eq!(blockers[0].owner_session_id, "owner-a");
    assert_eq!(blockers[0].request_id, "request-a");
    assert_eq!(blockers[1].owner_session_id, "owner-a");
    assert_eq!(blockers[1].request_id, "request-z");
    assert_eq!(blockers[2].owner_session_id, "owner-b");
}

#[test]
fn last_activity_falls_back_to_session_timestamp_when_messages_are_empty() {
    assert_eq!(get_last_activity_time(&vec![], Some(1_234)), Some(1_234));
}

#[test]
fn command_activity_requires_current_assistant_lineage() {
    let window = CommandTranscriptWindow {
        command_message_id: "msg-command".to_string(),
    };
    assert!(!assistant_update_matches_command(
        Some(&window),
        "user",
        Some("msg-command")
    ));
    assert!(!assistant_update_matches_command(
        Some(&window),
        "assistant",
        Some("msg-other")
    ));
    assert!(assistant_update_matches_command(
        Some(&window),
        "assistant",
        Some("msg-command")
    ));
}

#[test]
fn command_part_activity_requires_correlated_assistant_id() {
    let window = CommandTranscriptWindow {
        command_message_id: "msg-command".to_string(),
    };
    let mut correlated = StringHashSet::new();
    correlated.insert("msg-assistant".to_string());
    assert!(!part_event_matches_command(
        Some(&window),
        Some("msg-command"),
        &correlated
    ));
    assert!(part_event_matches_command(
        Some(&window),
        Some("msg-assistant"),
        &correlated
    ));
    assert!(part_event_matches_command(None, None, &correlated));
}

#[test]
fn precorrelation_deltas_flush_only_after_matching_assistant_lineage() {
    let window = CommandTranscriptWindow {
        command_message_id: "msg-command".to_string(),
    };
    let mut correlated_assistant_ids = StringHashSet::new();
    let mut buffer = Some(PreCorrelationDeltaBuffer::default());
    let mut partial_response = String::new();
    let delta = MessagePartEventProps {
        session_id: Some("session-1".to_string()),
        message_id: Some("msg-assistant".to_string()),
        delta: Some("buffered prefix".to_string()),
    };
    let update = MessageUpdatedProps {
        info: MessageInfo {
            id: "msg-assistant".to_string(),
            session_id: Some("session-1".to_string()),
            role: "assistant".to_string(),
            parent_id: Some("msg-command".to_string()),
        },
    };

    assert!(!record_message_part_delta(
        &delta,
        Some(&window),
        &correlated_assistant_ids,
        &mut buffer,
        &mut partial_response,
    ));
    assert!(partial_response.is_empty());

    assert!(record_message_updated(
        &update,
        Some(&window),
        &mut correlated_assistant_ids,
        &mut buffer,
        &mut partial_response,
    ));
    assert_eq!(partial_response, "buffered prefix");
}

#[test]
fn precorrelation_deltas_do_not_flush_for_other_lineage() {
    let window = CommandTranscriptWindow {
        command_message_id: "msg-command".to_string(),
    };
    let mut buffer = PreCorrelationDeltaBuffer::default();
    buffer.push("msg-assistant", "must remain unconfirmed");

    assert!(!assistant_update_matches_command(
        Some(&window),
        "assistant",
        Some("msg-other")
    ));
    buffer.evict_message("msg-assistant");
    assert!(!buffer.contains_message("msg-assistant"));
    assert_eq!(buffer.total_bytes(), 0);
}

#[test]
fn precorrelation_delta_buffer_enforces_byte_and_message_caps() {
    let mut buffer = PreCorrelationDeltaBuffer::default();
    let per_message = "x".repeat(PRECORRELATION_MESSAGE_BYTES);
    buffer.push("full", &per_message);
    buffer.push("full", "overflow");
    assert_eq!(buffer.take("full"), per_message);

    for index in 0..PRECORRELATION_MESSAGE_IDS {
        buffer.push(&format!("id-{index}"), "x");
    }
    buffer.push("newest", "y");
    assert!(!buffer.contains_message("id-0"));
    assert_eq!(buffer.message_count(), PRECORRELATION_MESSAGE_IDS);
    assert_eq!(buffer.take("newest"), "y");

    let mut total_capped = PreCorrelationDeltaBuffer::default();
    for index in 0..(PRECORRELATION_TOTAL_BYTES / PRECORRELATION_MESSAGE_BYTES) {
        total_capped.push(&format!("chunk-{index}"), &per_message);
    }
    assert_eq!(total_capped.total_bytes(), PRECORRELATION_TOTAL_BYTES);
    total_capped.push("replacement", "z");
    assert!(!total_capped.contains_message("chunk-0"));
    assert_eq!(
        total_capped.total_bytes(),
        PRECORRELATION_TOTAL_BYTES - PRECORRELATION_MESSAGE_BYTES + 1
    );

    let oversized = "x".repeat(PRECORRELATION_MESSAGE_BYTES + 1);
    total_capped.push("oversized", &oversized);
    assert!(!total_capped.contains_message("oversized"));
}

#[test]
fn deltas_of_one_message_are_read_back_in_order() {
    let mut buffer = PreCorrelationDeltaBuffer::default();
    buffer.push("a", "one ");
    buffer.push("b", "other");
    buffer.push("a", "two");
    buffer.push("", "no message");
    buffer.push("a", "");
    assert_eq!(buffer.message_count(), 2);
    assert_eq!(buffer.total_bytes(), 12);
    assert_eq!(buffer.take("a"), "one two");
    assert_eq!(buffer.take("a"), "");
    assert_eq!(buffer.take("b"), "other");
    assert_eq!(buffer.total_bytes(), 0);
}

#[test]
fn deltas_are_measured_in_bytes() {
    let mut buffer = PreCorrelationDeltaBuffer::default();
    buffer.push("a", "\u{20ac}");
    assert_eq!(buffer.total_bytes(), 3);
}

#[test]
fn a_new_message_displaces_the_oldest_as_a_whole() {
    let mut buffer = PreCorrelationDeltaBuffer::default();
    let chunk = "x".repeat(PRECORRELATION_MESSAGE_BYTES);
    let nearly = "x".repeat(PRECORRELATION_MESSAGE_BYTES - 1);
    buffer.push("own", &nearly);
    buffer.push("b", &chunk);
    buffer.push("c", &chunk);
    buffer.push("d", &chunk);
    // One byte is left in all and in the message itself.
    buffer.push("own", "z");
    assert_eq!(buffer.total_bytes(), PRECORRELATION_TOTAL_BYTES);
    // The oldest message makes way for a new one as a whole.
    buffer.push("e", "y");
    assert!(!buffer.contains_message("own"));
    assert_eq!(
        buffer.total_bytes(),
        PRECORRELATION_TOTAL_BYTES - PRECORRELATION_MESSAGE_BYTES + 1
    );
}

#[test]
fn a_delta_without_room_behind_its_own_message_is_dropped_after_evictions() {
    let mut buffer = PreCorrelationDeltaBuffer::default();
    let chunk = "x".repeat(PRECORRELATION_MESSAGE_BYTES);
    buffer.push("old", &"o".repeat(1024));
    buffer.push("own", "mine");
    buffer.push("b", &chunk);
    buffer.push("c", &chunk);
    buffer.push("d", &chunk);
    let rest = PRECORRELATION_TOTAL_BYTES - buffer.total_bytes();
    buffer.push("e", &"x".repeat(rest));
    assert_eq!(buffer.total_bytes(), PRECORRELATION_TOTAL_BYTES);
    // The older message leaves, which is not enough; then the message itself is the oldest.
    buffer.push("own", &"y".repeat(8 * 1024));
    assert!(!buffer.contains_message("old"));
    assert_eq!(buffer.message_count(), 5);
    assert_eq!(buffer.total_bytes(), PRECORRELATION_TOTAL_BYTES - 1024);
    assert_eq!(buffer.take("own"), "mine");
    assert_eq!(buffer.take("b"), chunk);
}

#[test]
fn without_a_command_every_assistant_update_is_progress() {
    assert!(assistant_update_matches_command(None, "assistant", None));
    assert!(!assistant_update_matches_command(None, "user", None));
}
