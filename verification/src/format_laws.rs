//! What stands in the texts for people, piece by piece.

use crate::format::agent_lines;
use crate::format::agents_text;
use crate::format::clock_time;
use crate::format::command_lines;
use crate::format::commands_text;
use crate::format::entry_line;
use crate::format::option_line;
use crate::format::option_lines;
use crate::format::question_part;
use crate::format::question_parts;
use crate::format::run_text;
use crate::format::session_lines;
use crate::format::session_list;
use crate::format::sessions_text;
use crate::format::state_text;
use crate::format::status_sentence;
use crate::format::time_ago;
use crate::format::tool_line;
use crate::format::tool_lines;
use crate::format::warning_lines;
use crate::text::first_line_of;
use crate::text::is_white_space;
use crate::text::joined;
use crate::text::law_trimmed_is_the_core;
use crate::text::numeral;
use crate::text::trimmed;
use crate::text::views;
use crate::types::AgentInfo;
use crate::types::CommandInfo;
use crate::types::GetSessionStateOutput;
use crate::types::ListAgentsOutput;
use crate::types::ListCommandsOutput;
use crate::types::ListSessionsOutput;
use crate::types::OrchestratorRunOutput;
use crate::types::QuestionInfoView;
use crate::types::QuestionOptionView;
use crate::types::SessionStatusSummary;
use crate::types::SessionSummary;
use crate::types::ToolCallSummary;
use vstd::prelude::*;

verus! {

// ---------------------------------------------------------------------------
// Runs
// ---------------------------------------------------------------------------
/// Warnings stand one per line, in order, each in full.
pub proof fn law_each_warning_has_its_line(warnings: Seq<Seq<char>>, warning: Seq<char>)
    ensures
        warning_lines(Seq::<Seq<char>>::empty()) == Seq::<char>::empty(),
        warning_lines(warnings.push(warning)) == warning_lines(warnings) + ("  warning: "@ + warning
            + "\n"@),
{
    assert(warnings.push(warning).drop_last() == warnings);
}

/// Options stand one per line, in order, each by its label, with its description behind if it has one.
pub proof fn law_each_option_has_its_line(
    options: Seq<QuestionOptionView>,
    option: QuestionOptionView,
)
    ensures
        option_lines(Seq::<QuestionOptionView>::empty()) == Seq::<char>::empty(),
        option_lines(options.push(option)) == option_lines(options) + option_line(option),
        option.description@.len() == 0 ==> option_line(option) == "  - "@ + option.label@ + "\n"@,
        option.description@.len() > 0 ==> option_line(option) == "  - "@ + option.label@ + ": "@
            + option.description@ + "\n"@,
{
    assert(options.push(option).drop_last() == options);
}

/// Questions stand in order, numbered from one, each with its header if it has one, its text, its options and
/// how it may be answered.
pub proof fn law_each_question_has_its_part(
    questions: Seq<QuestionInfoView>,
    question: QuestionInfoView,
    number: nat,
)
    ensures
        question_parts(Seq::<QuestionInfoView>::empty()) == Seq::<char>::empty(),
        question_parts(questions.push(question)) == question_parts(questions) + question_part(
            question,
            (questions.len() + 1) as nat,
        ),
        question_part(question, number) == (if question.header@.len() == 0 {
            Seq::<char>::empty()
        } else {
            "Header: "@ + question.header@ + "\n"@
        }) + ("Question "@ + numeral(number) + ": "@ + question.question@ + "\n"@) + option_lines(
            question.options@,
        ) + ("  multiple: "@ + (if question.multiple {
            "true"@
        } else {
            "false"@
        }) + "\n"@) + ("  custom: "@ + (if question.custom {
            "true"@
        } else {
            "false"@
        }) + "\n"@),
{
    assert(questions.push(question).drop_last() == questions);
}

/// What stands below the rest: the response in full, or else the text so far, unless it holds only white
/// space.
pub open spec fn ending(output: OrchestratorRunOutput) -> Seq<char> {
    if output.response is Some {
        "\n--- Response ---\n"@ + output.response->Some_0@
    } else if output.partial_response is Some && exists|i: int|
        0 <= i < output.partial_response->Some_0@.len() && !is_white_space(
            #[trigger] output.partial_response->Some_0@[i],
        ) {
        "\n--- Partial Response ---\n"@ + output.partial_response->Some_0@
    } else {
        Seq::empty()
    }
}

proof fn lemma_ending(output: OrchestratorRunOutput)
    ensures
        crate::format::response_part(output) == ending(output),
{
    if output.response is None && output.partial_response is Some {
        let text = output.partial_response->Some_0@;
        let (front, back) = law_trimmed_is_the_core(text);
        if trimmed(text).len() > 0 {
            assert(text[front.len() as int] == trimmed(text)[0]);
        } else {
            assert forall|i: int| 0 <= i < text.len() implies is_white_space(
                #[trigger] text[i],
            ) by {
                if i < front.len() {
                    assert(text[i] == front[i]);
                } else {
                    assert(text[i] == back[i - front.len()]);
                }
            }
        }
    }
}

/// The whole text of a finished run: how it ended and its session, every warning, and the response.
pub proof fn law_text_of_a_finished_run(output: OrchestratorRunOutput)
    requires
        output.status is Completed,
    ensures
        output.response is Some ==> run_text(output) == "\u{2713}"@ + " session "@ + "completed"@
            + " "@ + output.session_id@ + "\n"@ + warning_lines(views(output.warnings@))
            + "\n--- Response ---\n"@ + output.response->Some_0@,
        output.response is None && output.partial_response is None ==> run_text(output)
            == "\u{2713}"@ + " session "@ + "completed"@ + " "@ + output.session_id@ + "\n"@
            + warning_lines(views(output.warnings@)),
{
    lemma_ending(output);
    let none = Seq::<char>::empty();
    let head = "\u{2713}"@ + " session "@ + "completed"@ + " "@ + output.session_id@ + "\n"@
        + warning_lines(views(output.warnings@));
    assert(run_text(output) =~= head + ending(output));
    if output.response is Some {
        assert(head + ending(output) =~= head + "\n--- Response ---\n"@
            + output.response->Some_0@);
    } else if output.partial_response is None {
        assert(head + none =~= head);
    }
}

/// A line with a label, if there is something to say.
pub open spec fn line(label: Seq<char>, text: Option<String>) -> Seq<char> {
    if text is Some {
        label + text->Some_0@ + "\n"@
    } else {
        Seq::empty()
    }
}

/// The whole text of any run: how it ended and its session, every warning, what the caller is asked for, and the
/// response or the text so far.
pub proof fn law_text_of_a_run(output: OrchestratorRunOutput)
    ensures
        run_text(output) == (if output.status is Completed {
            "\u{2713}"@ + " session "@ + "completed"@
        } else if output.status is PermissionRequired {
            "\u{23f8}"@ + " session "@ + "permission_required"@
        } else {
            "?"@ + " session "@ + "question_required"@
        }) + " "@ + output.session_id@ + "\n"@ + warning_lines(views(output.warnings@)) + (
        if output.status is PermissionRequired {
            "\n--- Permission Request ---\n"@ + line("Type: "@, output.permission_type) + (
            if output.permission_patterns@.len() > 0 {
                "Patterns: "@ + joined(views(output.permission_patterns@), ", "@) + "\n"@
            } else {
                Seq::<char>::empty()
            }) + line("Request ID: "@, output.permission_request_id)
                + "\nTo respond: orchestrator_respond_permission(session_id, permission_request_id=<Request ID>, reply)\n"@
                + "  reply options: once | always | reject\n"@
                + "  omission is supported only for root-owned compatibility discovery\n"@
        } else if output.status is QuestionRequired {
            "\n--- Question Request ---\n"@ + line("Request ID: "@, output.question_request_id)
                + question_parts(output.questions@)
                + "\nTo respond: orchestrator_respond_question(session_id, question_request_id=<Request ID>, action, answers)\n"@
                + "  action options: reply | reject\n"@
                + "  omission is supported only for root-owned compatibility discovery\n"@
        } else {
            Seq::<char>::empty()
        }) + ending(output),
{
    lemma_ending(output);
    let none = Seq::<char>::empty();
    let head = crate::format::run_head(output) + warning_lines(views(output.warnings@));
    let permission = crate::format::permission_part(output);
    let questions = crate::format::questions_part(output);
    assert(head + none =~= head);
    assert(permission + none =~= permission);
    if output.status is PermissionRequired {
        assert(head + permission + none =~= head + permission);
    }
}

/// The whole text of a run that needs a permission: how it ended and its session, every warning, the type, all
/// patterns and the id of the request, how to respond, and the text so far.
pub proof fn law_text_of_a_run_that_needs_a_permission(
    output: OrchestratorRunOutput,
    asked: String,
    id: String,
    text: String,
)
    requires
        output.status is PermissionRequired,
        output.permission_type == Some(asked),
        output.permission_request_id == Some(id),
        output.response is None,
    ensures
        ({
            let shown = "\u{23f8}"@ + " session "@ + "permission_required"@ + " "@
                + output.session_id@ + "\n"@ + warning_lines(views(output.warnings@))
                + "\n--- Permission Request ---\n"@ + ("Type: "@ + asked@ + "\n"@) + (
            if output.permission_patterns@.len() > 0 {
                "Patterns: "@ + joined(views(output.permission_patterns@), ", "@) + "\n"@
            } else {
                Seq::<char>::empty()
            }) + ("Request ID: "@ + id@ + "\n"@)
                + "\nTo respond: orchestrator_respond_permission(session_id, permission_request_id=<Request ID>, reply)\n"@
                + "  reply options: once | always | reject\n"@
                + "  omission is supported only for root-owned compatibility discovery\n"@;
            &&& output.partial_response is None ==> run_text(output) == shown
            &&& output.partial_response == Some(text) && text@.len() > 0 && !is_white_space(text@[0])
                ==> run_text(output) == shown + "\n--- Partial Response ---\n"@ + text@
        }),
{
    lemma_ending(output);
    let shown = "\u{23f8}"@ + " session "@ + "permission_required"@ + " "@ + output.session_id@
        + "\n"@ + warning_lines(views(output.warnings@)) + "\n--- Permission Request ---\n"@ + (
    "Type: "@ + asked@ + "\n"@) + (if output.permission_patterns@.len() > 0 {
        "Patterns: "@ + joined(views(output.permission_patterns@), ", "@) + "\n"@
    } else {
        Seq::<char>::empty()
    }) + ("Request ID: "@ + id@ + "\n"@)
        + "\nTo respond: orchestrator_respond_permission(session_id, permission_request_id=<Request ID>, reply)\n"@
        + "  reply options: once | always | reject\n"@
        + "  omission is supported only for root-owned compatibility discovery\n"@;
    assert(run_text(output) =~= shown + ending(output));
    if output.partial_response is None {
        assert(shown + ending(output) =~= shown);
    } else if output.partial_response == Some(text) && text@.len() > 0 && !is_white_space(text@[0]) {
        assert(shown + ending(output) =~= shown + "\n--- Partial Response ---\n"@ + text@);
    }
}

/// The whole text of a run that needs answers: how it ended and its session, every warning, the id of the
/// request, every question, how to respond, and the text so far.
pub proof fn law_text_of_a_run_that_needs_answers(
    output: OrchestratorRunOutput,
    id: String,
    text: String,
)
    requires
        output.status is QuestionRequired,
        output.question_request_id == Some(id),
        output.response is None,
    ensures
        ({
            let shown = "?"@ + " session "@ + "question_required"@ + " "@ + output.session_id@
                + "\n"@ + warning_lines(views(output.warnings@)) + "\n--- Question Request ---\n"@ + (
            "Request ID: "@ + id@ + "\n"@) + question_parts(output.questions@)
                + "\nTo respond: orchestrator_respond_question(session_id, question_request_id=<Request ID>, action, answers)\n"@
                + "  action options: reply | reject\n"@
                + "  omission is supported only for root-owned compatibility discovery\n"@;
            &&& output.partial_response is None ==> run_text(output) == shown
            &&& output.partial_response == Some(text) && text@.len() > 0 && !is_white_space(text@[0])
                ==> run_text(output) == shown + "\n--- Partial Response ---\n"@ + text@
        }),
{
    lemma_ending(output);
    let shown = "?"@ + " session "@ + "question_required"@ + " "@ + output.session_id@ + "\n"@
        + warning_lines(views(output.warnings@)) + "\n--- Question Request ---\n"@ + (
    "Request ID: "@ + id@ + "\n"@) + question_parts(output.questions@)
        + "\nTo respond: orchestrator_respond_question(session_id, question_request_id=<Request ID>, action, answers)\n"@
        + "  action options: reply | reject\n"@
        + "  omission is supported only for root-owned compatibility discovery\n"@;
    assert(run_text(output) =~= shown + ending(output));
    if output.partial_response is None {
        assert(shown + ending(output) =~= shown);
    } else if output.partial_response == Some(text) && text@.len() > 0 && !is_white_space(text@[0]) {
        assert(shown + ending(output) =~= shown + "\n--- Partial Response ---\n"@ + text@);
    }
}

// ---------------------------------------------------------------------------
// Sessions
// ---------------------------------------------------------------------------
/// Times are given in whole minutes up to an hour, in whole hours up to a day, and in whole days from then on;
/// less than a minute, and anything still ahead, is just now.
pub proof fn law_time_ago_counts_whole_units(count: int, rest: int)
    ensures
        rest < 60 ==> time_ago(rest) == "just now"@,
        1 <= count < 60 && 0 <= rest < 60 ==> time_ago(60 * count + rest) == numeral(count as nat)
            + "m ago"@,
        1 <= count < 24 && 0 <= rest < 3600 ==> time_ago(3600 * count + rest) == numeral(
            count as nat,
        ) + "h ago"@,
        1 <= count && 0 <= rest < 86400 ==> time_ago(86400 * count + rest) == numeral(count as nat)
            + "d ago"@,
{
    if 0 <= rest < 60 {
        assert((60 * count + rest) / 60 == count) by (nonlinear_arith)
            requires
                0 <= rest < 60,
        ;
    }
    if 0 <= rest < 3600 {
        assert((3600 * count + rest) / 3600 == count) by (nonlinear_arith)
            requires
                0 <= rest < 3600,
        ;
    }
    if 0 <= rest < 86400 {
        assert((86400 * count + rest) / 86400 == count) by (nonlinear_arith)
            requires
                0 <= rest < 86400,
        ;
    }
}

/// A reading of the clock is taken as it is, as far as it can be held; a clock that cannot be read stands at
/// the epoch.
pub proof fn law_clock_is_taken_as_read(seconds: u64)
    ensures
        seconds <= i64::MAX ==> clock_time(Some(seconds)) == seconds,
        seconds > i64::MAX ==> clock_time(Some(seconds)) == 0,
        clock_time(None) == 0,
{
}

/// Sessions stand in order, each by its id and title, its age, its status, whether the caller launched it, and
/// its path if it has one.
pub proof fn law_each_session_has_its_lines(
    sessions: Seq<SessionSummary>,
    s: SessionSummary,
    now: int,
    updated: i64,
)
    ensures
        session_list(Seq::<SessionSummary>::empty(), now) == Seq::<char>::empty(),
        session_list(sessions.push(s), now) == session_list(sessions, now) + session_lines(s, now),
        session_lines(s, now) == ("  "@ + s.id@ + " - "@ + s.title@ + " ("@ + (if s.updated is Some {
            time_ago(now - s.updated->Some_0)
        } else {
            "unknown"@
        }) + ", "@) + ((if s.status is None {
            "unknown"@
        } else if s.status->Some_0 is Idle {
            "idle"@
        } else if s.status->Some_0 is Busy {
            "busy"@
        } else {
            "retry"@
        }) + ")"@ + (if s.launched_by_you {
            " [launched by you]"@
        } else {
            ""@
        }) + "\n"@ + line("    Path: "@, s.path)),
{
    assert(sessions.push(s).drop_last() == sessions);
}

/// The whole list of sessions: how many, then each; or that there are none.
pub proof fn law_text_of_a_list_of_sessions(output: ListSessionsOutput, now: int)
    ensures
        output.sessions@.len() > 0 ==> sessions_text(output, now) == "Sessions ("@ + numeral(
            output.sessions@.len() as nat,
        ) + "):\n"@ + session_list(output.sessions@, now),
        output.sessions@.len() == 0 ==> sessions_text(output, now) == "Sessions ("@ + numeral(0)
            + "):\n"@ + "  (no sessions found)\n"@,
{
    let head = "Sessions ("@ + numeral(output.sessions@.len() as nat) + "):\n"@;
    if output.sessions@.len() > 0 {
        assert(sessions_text(output, now) =~= head + session_list(output.sessions@, now));
    } else {
        assert(sessions_text(output, now) =~= head + "  (no sessions found)\n"@);
    }
}

/// Tool calls stand one per line, in order, each by its id, its tool and how far it has come, with the error
/// if it failed.
pub proof fn law_each_tool_call_has_its_line(
    calls: Seq<ToolCallSummary>,
    call: ToolCallSummary,
)
    ensures
        tool_lines(Seq::<ToolCallSummary>::empty()) == Seq::<char>::empty(),
        tool_lines(calls.push(call)) == tool_lines(calls) + tool_line(call),
        tool_line(call) == "    "@ + call.call_id@ + " ("@ + call.tool_name@ + ") - "@ + (
        if call.state is Pending {
            "pending"@
        } else if call.state is Running {
            "running"@
        } else if call.state is Completed {
            "completed"@
        } else {
            "error: "@ + call.state->message@
        }) + "\n"@,
{
    assert(calls.push(call).drop_last() == calls);
}

/// The whole description of a session: its id and title, where it works, what it is doing, who launched it,
/// what waits, when it was last active, and its recent tool calls.
pub proof fn law_text_of_a_description(s: GetSessionStateOutput, now: int)
    ensures
        state_text(s, now) == ("Session: "@ + s.session_id@ + " ("@ + s.title@ + ")\n"@) + line(
            "  Directory: "@,
            s.directory,
        ) + line("  Path: "@, s.path) + (("  Status: "@ + status_sentence(s.status) + "\n"@) + (
        "  Launched by you: "@ + (if s.launched_by_you {
            "true"@
        } else {
            "false"@
        }) + "\n"@) + ("  Pending messages: "@ + numeral(s.pending_message_count as nat)
            + "\n"@)) + ((if s.last_activity is Some {
            "  Last activity: "@ + time_ago(now - s.last_activity->Some_0) + "\n"@
        } else {
            Seq::<char>::empty()
        }) + (if s.recent_tool_calls@.len() > 0 {
            "  Recent tool calls:\n"@ + tool_lines(s.recent_tool_calls@)
        } else {
            Seq::<char>::empty()
        })),
{
}

/// The status of a session in its description; a retry gives its attempt, its time and its reason.
pub proof fn law_status_in_a_description(attempt: u64, message: String, next: u64)
    ensures
        status_sentence(SessionStatusSummary::Idle) == "Idle"@,
        status_sentence(SessionStatusSummary::Busy) == "Busy"@,
        status_sentence(SessionStatusSummary::Retry { attempt, message, next })
            == "Retry (attempt "@ + numeral(attempt as nat) + ", next at "@ + numeral(next as nat)
            + ", reason: "@ + message@ + ")"@,
{
}

// ---------------------------------------------------------------------------
// Commands and agents
// ---------------------------------------------------------------------------
/// Commands and agents stand one per line, in order, each by its name, with the first line of its description
/// behind if that has one.
pub proof fn law_each_entry_has_its_line(
    commands: Seq<CommandInfo>,
    command: CommandInfo,
    agents: Seq<AgentInfo>,
    agent: AgentInfo,
    name: Seq<char>,
    description: Option<String>,
)
    ensures
        command_lines(Seq::<CommandInfo>::empty()) == Seq::<char>::empty(),
        agent_lines(Seq::<AgentInfo>::empty()) == Seq::<char>::empty(),
        command_lines(commands.push(command)) == command_lines(commands) + entry_line(
            command.name@,
            command.description,
        ),
        agent_lines(agents.push(agent)) == agent_lines(agents) + entry_line(
            agent.name@,
            agent.description,
        ),
        description is None || description->Some_0@.len() == 0 ==> entry_line(name, description)
            == "  "@ + name + "\n"@,
        description is Some && description->Some_0@.len() > 0 ==> first_line_of(
            description->Some_0@,
        ) is Some && entry_line(name, description) == "  "@ + name + (" - "@ + first_line_of(
            description->Some_0@,
        )->Some_0) + "\n"@,
{
    assert(commands.push(command).drop_last() == commands);
    assert(agents.push(agent).drop_last() == agents);
    assert("  "@ + name + Seq::<char>::empty() =~= "  "@ + name);
}

/// The whole lists of commands and of agents: each entry, or that there is none, and how to use them.
pub proof fn law_text_of_lists(commands: ListCommandsOutput, agents: ListAgentsOutput)
    ensures
        commands.commands@.len() > 0 ==> commands_text(commands) == "Available commands:\n"@
            + command_lines(commands.commands@)
            + "\nUse orchestrator_run(command=<name>, message=<args>) to execute\n"@,
        commands.commands@.len() == 0 ==> commands_text(commands) == "Available commands:\n"@
            + "  (no commands available)\n"@
            + "\nUse orchestrator_run(command=<name>, message=<args>) to execute\n"@,
        agents.agents@.len() > 0 ==> agents_text(agents) == "Available agents:\n"@ + agent_lines(
            agents.agents@,
        ) + "\nUse orchestrator_run(message=<prompt>, agent=<name>) for raw prompts\n"@,
        agents.agents@.len() == 0 ==> agents_text(agents) == "Available agents:\n"@
            + "  (no agents available)\n"@
            + "\nUse orchestrator_run(message=<prompt>, agent=<name>) for raw prompts\n"@,
{
    let c = "\nUse orchestrator_run(command=<name>, message=<args>) to execute\n"@;
    let a = "\nUse orchestrator_run(message=<prompt>, agent=<name>) for raw prompts\n"@;
    if commands.commands@.len() > 0 {
        assert(commands_text(commands) =~= "Available commands:\n"@ + command_lines(
            commands.commands@,
        ) + c);
    } else {
        assert(commands_text(commands) =~= "Available commands:\n"@
            + "  (no commands available)\n"@ + c);
    }
    if agents.agents@.len() > 0 {
        assert(agents_text(agents) =~= "Available agents:\n"@ + agent_lines(agents.agents@) + a);
    } else {
        assert(agents_text(agents) =~= "Available agents:\n"@ + "  (no agents available)\n"@ + a);
    }
}

} // verus!
