//! The outputs of the tools as text for people.

use crate::text::cat2;
use crate::text::cat3;
use crate::text::cat5;
use crate::text::cat7;
use crate::text::decimal;
use crate::text::first_line;
use crate::text::first_line_of;
use crate::text::join;
use crate::text::joined;
use crate::text::lemma_occurs_between;
use crate::text::lemma_occurs_within;
use crate::text::numeral;
use crate::text::occurs_in;
use crate::text::trim;
use crate::text::trimmed;
use crate::text::truth;
use crate::text::truth_text;
use crate::text::views;
use crate::types::AgentInfo;
use crate::types::CommandInfo;
use crate::types::GetSessionStateOutput;
use crate::types::ListAgentsOutput;
use crate::types::ListCommandsOutput;
use crate::types::ListSessionsOutput;
use crate::types::OrchestratorRunOutput;
use crate::types::QuestionInfoView;
use crate::types::QuestionOptionView;
use crate::types::RunStatus;
use crate::types::SessionStatusSummary;
use crate::types::SessionSummary;
use crate::types::ToolCallSummary;
use crate::types::ToolStateSummary;
use vstd::prelude::*;

verus! {

/// No text.
pub open spec fn nothing() -> Seq<char> {
    Seq::empty()
}

// ---------------------------------------------------------------------------
// run, respond_permission, respond_question
// ---------------------------------------------------------------------------
/// The sign and the word for how a run ended.
pub open spec fn status_words(status: RunStatus) -> (Seq<char>, Seq<char>) {
    match status {
        RunStatus::Completed => ("\u{2713}"@, "completed"@),
        RunStatus::PermissionRequired => ("\u{23f8}"@, "permission_required"@),
        RunStatus::QuestionRequired => ("?"@, "question_required"@),
    }
}

/// The first line: how the run ended, and the session.
pub open spec fn run_head(output: OrchestratorRunOutput) -> Seq<char> {
    status_words(output.status).0 + " session "@ + status_words(output.status).1 + " "@
        + output.session_id@ + "\n"@
}

/// One line for each warning.
pub open spec fn warning_lines(warnings: Seq<Seq<char>>) -> Seq<char>
    decreases warnings.len(),
{
    if warnings.len() == 0 {
        nothing()
    } else {
        warning_lines(warnings.drop_last()) + ("  warning: "@ + warnings.last() + "\n"@)
    }
}

/// A line with a label, if there is something to say.
pub open spec fn labelled(label: Seq<char>, text: Option<String>) -> Seq<char> {
    match text {
        Some(t) => label + t@ + "\n"@,
        None => nothing(),
    }
}

/// The part about a permission: what is asked for, and how to respond.
pub open spec fn permission_part(output: OrchestratorRunOutput) -> Seq<char> {
    if output.status != RunStatus::PermissionRequired {
        nothing()
    } else {
        "\n--- Permission Request ---\n"@ + labelled("Type: "@, output.permission_type)
            + pattern_line(output.permission_patterns@) + labelled(
            "Request ID: "@,
            output.permission_request_id,
        )
            + "\nTo respond: orchestrator_respond_permission(session_id, permission_request_id=<Request ID>, reply)\n"@
            + "  reply options: once | always | reject\n"@
            + "  omission is supported only for root-owned compatibility discovery\n"@
    }
}

/// The patterns that a permission is asked for, if any.
pub open spec fn pattern_line(patterns: Seq<String>) -> Seq<char> {
    if patterns.len() == 0 {
        nothing()
    } else {
        "Patterns: "@ + joined(views(patterns), ", "@) + "\n"@
    }
}

/// One line for each choice that a question offers.
pub open spec fn option_lines(options: Seq<QuestionOptionView>) -> Seq<char>
    decreases options.len(),
{
    if options.len() == 0 {
        nothing()
    } else {
        option_lines(options.drop_last()) + option_line(options.last())
    }
}

/// A choice, with its description if it has one.
pub open spec fn option_line(option: QuestionOptionView) -> Seq<char> {
    if option.description@.len() == 0 {
        "  - "@ + option.label@ + "\n"@
    } else {
        "  - "@ + option.label@ + ": "@ + option.description@ + "\n"@
    }
}

/// A question with its number, counted from one.
pub open spec fn question_part(question: QuestionInfoView, number: nat) -> Seq<char> {
    question_header(question) + ("Question "@ + numeral(number) + ": "@ + question.question@ + "\n"@)
        + option_lines(question.options@) + ("  multiple: "@ + truth_text(question.multiple)
        + "\n"@) + ("  custom: "@ + truth_text(question.custom) + "\n"@)
}

/// The header of a question, if it has one.
pub open spec fn question_header(question: QuestionInfoView) -> Seq<char> {
    if question.header@.len() == 0 {
        nothing()
    } else {
        "Header: "@ + question.header@ + "\n"@
    }
}

/// The questions, in order.
pub open spec fn question_parts(questions: Seq<QuestionInfoView>) -> Seq<char>
    decreases questions.len(),
{
    if questions.len() == 0 {
        nothing()
    } else {
        question_parts(questions.drop_last()) + question_part(
            questions.last(),
            questions.len() as nat,
        )
    }
}

/// The part about questions: what is asked, and how to respond.
pub open spec fn questions_part(output: OrchestratorRunOutput) -> Seq<char> {
    if output.status != RunStatus::QuestionRequired {
        nothing()
    } else {
        "\n--- Question Request ---\n"@ + labelled("Request ID: "@, output.question_request_id)
            + question_parts(output.questions@)
            + "\nTo respond: orchestrator_respond_question(session_id, question_request_id=<Request ID>, action, answers)\n"@
            + "  action options: reply | reject\n"@
            + "  omission is supported only for root-owned compatibility discovery\n"@
    }
}

/// The text of the assistant: the response, or else what was received so far unless it is blank.
pub open spec fn response_part(output: OrchestratorRunOutput) -> Seq<char> {
    match output.response {
        Some(response) => "\n--- Response ---\n"@ + response@,
        None => match output.partial_response {
            Some(partial) => if trimmed(partial@).len() > 0 {
                "\n--- Partial Response ---\n"@ + partial@
            } else {
                nothing()
            },
            None => nothing(),
        },
    }
}

/// The output of a run as text.
pub open spec fn run_text(output: OrchestratorRunOutput) -> Seq<char> {
    run_head(output) + warning_lines(views(output.warnings@)) + permission_part(output)
        + questions_part(output) + response_part(output)
}

fn labelled_text(label: &str, text: &Option<String>) -> (r: String)
    ensures
        r@ == labelled(label@, *text),
{
    match text {
        Some(t) => cat3(label, t.as_str(), "\n"),
        None => String::new(),
    }
}

fn option_text(option: &QuestionOptionView) -> (r: String)
    ensures
        r@ == option_line(*option),
{
    if option.description.as_str().is_empty() {
        cat3("  - ", option.label.as_str(), "\n")
    } else {
        cat5("  - ", option.label.as_str(), ": ", option.description.as_str(), "\n")
    }
}

fn options_text(options: &Vec<QuestionOptionView>) -> (r: String)
    ensures
        r@ == option_lines(options@),
{
    let mut out = String::new();
    let mut i: usize = 0;
    while i < options.len()
        invariant
            i <= options.len(),
            out@ == option_lines(options@.take(i as int)),
        decreases options.len() - i,
    {
        assert(options@.take(i + 1).drop_last() == options@.take(i as int));
        let line = option_text(&options[i]);
        out.append(line.as_str());
        i += 1;
    }
    assert(options@.take(i as int) == options@);
    out
}

fn question_text(question: &QuestionInfoView, number: u64) -> (r: String)
    ensures
        r@ == question_part(*question, number as nat),
{
    let header = if question.header.as_str().is_empty() {
        String::new()
    } else {
        cat3("Header: ", question.header.as_str(), "\n")
    };
    let numbered = decimal(number);
    let asked = cat5(
        "Question ",
        numbered.as_str(),
        ": ",
        question.question.as_str(),
        "\n",
    );
    let options = options_text(&question.options);
    let multiple = cat3("  multiple: ", truth(question.multiple), "\n");
    let custom = cat3("  custom: ", truth(question.custom), "\n");
    cat5(header.as_str(), asked.as_str(), options.as_str(), multiple.as_str(), custom.as_str())
}

impl OrchestratorRunOutput {
    /// The output as text for people.
    pub fn fmt_text(&self) -> (r: String)
        ensures
            r@ == run_text(*self),
    {
        let head = self.head_text();
        let warnings = self.warnings_text();
        let permission = self.permission_text();
        let questions = self.questions_text();
        let response = self.response_text();
        cat5(
            head.as_str(),
            warnings.as_str(),
            permission.as_str(),
            questions.as_str(),
            response.as_str(),
        )
    }

    fn head_text(&self) -> (r: String)
        ensures
            r@ == run_head(*self),
    {
        let (icon, word) = match self.status {
            RunStatus::Completed => ("\u{2713}", "completed"),
            RunStatus::PermissionRequired => ("\u{23f8}", "permission_required"),
            RunStatus::QuestionRequired => ("?", "question_required"),
        };
        let mut out = cat5(icon, " session ", word, " ", self.session_id.as_str());
        out.append("\n");
        out
    }

    fn warnings_text(&self) -> (r: String)
        ensures
            r@ == warning_lines(views(self.warnings@)),
    {
        let mut out = String::new();
        let mut i: usize = 0;
        while i < self.warnings.len()
            invariant
                i <= self.warnings.len(),
                out@ == warning_lines(views(self.warnings@).take(i as int)),
            decreases self.warnings.len() - i,
        {
            assert(views(self.warnings@).take(i + 1).drop_last() == views(self.warnings@).take(
                i as int,
            ));
            let line = cat3("  warning: ", self.warnings[i].as_str(), "\n");
            out.append(line.as_str());
            i += 1;
        }
        assert(views(self.warnings@).take(i as int) == views(self.warnings@));
        out
    }

    fn permission_text(&self) -> (r: String)
        ensures
            r@ == permission_part(*self),
    {
        if self.status != RunStatus::PermissionRequired {
            return String::new();
        }
        let asked = labelled_text("Type: ", &self.permission_type);
        let patterns = if self.permission_patterns.len() == 0 {
            String::new()
        } else {
            let list = join(&self.permission_patterns, ", ");
            cat3("Patterns: ", list.as_str(), "\n")
        };
        let request = labelled_text("Request ID: ", &self.permission_request_id);
        cat7(
            "\n--- Permission Request ---\n",
            asked.as_str(),
            patterns.as_str(),
            request.as_str(),
            "\nTo respond: orchestrator_respond_permission(session_id, permission_request_id=<Request ID>, reply)\n",
            "  reply options: once | always | reject\n",
            "  omission is supported only for root-owned compatibility discovery\n",
        )
    }

    fn questions_text(&self) -> (r: String)
        ensures
            r@ == questions_part(*self),
    {
        if self.status != RunStatus::QuestionRequired {
            return String::new();
        }
        let request = labelled_text("Request ID: ", &self.question_request_id);
        let mut parts = String::new();
        let mut i: usize = 0;
        while i < self.questions.len()
            invariant
                i <= self.questions.len(),
                parts@ == question_parts(self.questions@.take(i as int)),
            decreases self.questions.len() - i,
        {
            assert(self.questions@.take(i + 1).drop_last() == self.questions@.take(i as int));
            let part = question_text(&self.questions[i], i as u64 + 1);
            parts.append(part.as_str());
            i += 1;
        }
        assert(self.questions@.take(i as int) == self.questions@);
        let mut out = cat5(
            "\n--- Question Request ---\n",
            request.as_str(),
            parts.as_str(),
            "\nTo respond: orchestrator_respond_question(session_id, question_request_id=<Request ID>, action, answers)\n",
            "  action options: reply | reject\n",
        );
        out.append("  omission is supported only for root-owned compatibility discovery\n");
        out
    }

    fn response_text(&self) -> (r: String)
        ensures
            r@ == response_part(*self),
    {
        match &self.response {
            Some(response) => cat2("\n--- Response ---\n", response.as_str()),
            None => match &self.partial_response {
                Some(partial) => {
                    let rest = trim(partial.as_str());
                    if rest.as_str().is_empty() {
                        String::new()
                    } else {
                        cat2("\n--- Partial Response ---\n", partial.as_str())
                    }
                },
                None => String::new(),
            },
        }
    }
}

/// The text of a run names the session and how the run ended.
pub proof fn law_run_text_names_session(output: OrchestratorRunOutput)
    ensures
        occurs_in(output.session_id@, run_text(output)),
        occurs_in(status_words(output.status).1, run_text(output)),
{
    let head = run_head(output);
    let (icon, word) = status_words(output.status);
    let rest = warning_lines(views(output.warnings@)) + permission_part(output) + questions_part(
        output,
    ) + response_part(output);
    assert(head == icon + " session "@ + word + (" "@ + output.session_id@ + "\n"@));
    lemma_occurs_between(icon + " session "@, word, " "@ + output.session_id@ + "\n"@);
    assert(head == (icon + " session "@ + word + " "@) + output.session_id@ + "\n"@);
    lemma_occurs_between(
        icon + " session "@ + word + " "@,
        output.session_id@,
        "\n"@,
    );
    lemma_occurs_within(output.session_id@, nothing(), head, rest);
    lemma_occurs_within(word, nothing(), head, rest);
    assert(run_text(output) == nothing() + head + rest);
}

/// The text of a run that needs a permission names the request, its type and how to respond.
pub proof fn law_run_text_names_permission(output: OrchestratorRunOutput)
    requires
        output.status == RunStatus::PermissionRequired,
        output.permission_request_id is Some,
        output.permission_type is Some,
    ensures
        occurs_in(output.permission_request_id->Some_0@, run_text(output)),
        occurs_in(output.permission_type->Some_0@, run_text(output)),
        occurs_in(
            "\nTo respond: orchestrator_respond_permission(session_id, permission_request_id=<Request ID>, reply)\n"@,
            run_text(output),
        ),
{
    let id = output.permission_request_id->Some_0@;
    let asked = output.permission_type->Some_0@;
    let how = "\nTo respond: orchestrator_respond_permission(session_id, permission_request_id=<Request ID>, reply)\n"@;
    let part = permission_part(output);
    let head = "\n--- Permission Request ---\n"@;
    let typed = labelled("Type: "@, output.permission_type);
    let patterns = pattern_line(output.permission_patterns@);
    let named = labelled("Request ID: "@, output.permission_request_id);
    let options = "  reply options: once | always | reject\n"@
        + "  omission is supported only for root-owned compatibility discovery\n"@;
    let before = run_head(output) + warning_lines(views(output.warnings@));
    let after = questions_part(output) + response_part(output);
    assert(run_text(output) == before + part + after);
    lemma_occurs_between("Type: "@, asked, "\n"@);
    lemma_occurs_within(asked, head, typed, patterns + named + how + options);
    assert(part == head + typed + (patterns + named + how + options));
    lemma_occurs_within(asked, before, part, after);
    lemma_occurs_between("Request ID: "@, id, "\n"@);
    lemma_occurs_within(id, head + typed + patterns, named, how + options);
    assert(part == (head + typed + patterns) + named + (how + options));
    lemma_occurs_within(id, before, part, after);
    lemma_occurs_between(head + typed + patterns + named, how, options);
    assert(part == (head + typed + patterns + named) + how + options);
    lemma_occurs_within(how, before, part, after);
}

proof fn lemma_question_named(questions: Seq<QuestionInfoView>, i: int)
    requires
        0 <= i < questions.len(),
    ensures
        occurs_in(questions[i].question@, question_parts(questions)),
    decreases questions.len(),
{
    let rest = question_parts(questions.drop_last());
    let last = question_part(questions.last(), questions.len() as nat);
    if i < questions.len() - 1 {
        lemma_question_named(questions.drop_last(), i);
        lemma_occurs_within(questions[i].question@, nothing(), rest, last);
        assert(rest + last == nothing() + rest + last);
    } else {
        let q = questions.last();
        let number = numeral(questions.len() as nat);
        let line = "Question "@ + number + ": "@ + q.question@ + "\n"@;
        let tail = option_lines(q.options@) + ("  multiple: "@ + truth_text(q.multiple) + "\n"@) + (
        "  custom: "@ + truth_text(q.custom) + "\n"@);
        lemma_occurs_between("Question "@ + number + ": "@, q.question@, "\n"@);
        lemma_occurs_within(q.question@, question_header(q), line, tail);
        assert(last == question_header(q) + line + tail);
        lemma_occurs_within(q.question@, rest, last, nothing());
        assert(rest + last + nothing() == rest + last);
    }
}

/// The text of a run that needs answers names the request, every question and how to respond.
pub proof fn law_run_text_names_questions(output: OrchestratorRunOutput)
    requires
        output.status == RunStatus::QuestionRequired,
        output.question_request_id is Some,
    ensures
        occurs_in(output.question_request_id->Some_0@, run_text(output)),
        forall|i: int|
            0 <= i < output.questions@.len() ==> occurs_in(
                (#[trigger] output.questions@[i]).question@,
                run_text(output),
            ),
        occurs_in(
            "\nTo respond: orchestrator_respond_question(session_id, question_request_id=<Request ID>, action, answers)\n"@,
            run_text(output),
        ),
{
    let id = output.question_request_id->Some_0@;
    let how = "\nTo respond: orchestrator_respond_question(session_id, question_request_id=<Request ID>, action, answers)\n"@;
    let part = questions_part(output);
    let head = "\n--- Question Request ---\n"@;
    let named = labelled("Request ID: "@, output.question_request_id);
    let parts = question_parts(output.questions@);
    let options = "  action options: reply | reject\n"@
        + "  omission is supported only for root-owned compatibility discovery\n"@;
    let before = run_head(output) + warning_lines(views(output.warnings@)) + permission_part(
        output,
    );
    let after = response_part(output);
    assert(run_text(output) == before + part + after);
    lemma_occurs_between("Request ID: "@, id, "\n"@);
    lemma_occurs_within(id, head, named, parts + how + options);
    assert(part == head + named + (parts + how + options));
    lemma_occurs_within(id, before, part, after);
    lemma_occurs_between(head + named + parts, how, options);
    assert(part == (head + named + parts) + how + options);
    lemma_occurs_within(how, before, part, after);
    assert forall|i: int| 0 <= i < output.questions@.len() implies occurs_in(
        (#[trigger] output.questions@[i]).question@,
        run_text(output),
    ) by {
        let asked = output.questions@[i].question@;
        lemma_question_named(output.questions@, i);
        lemma_occurs_within(asked, head + named, parts, how + options);
        assert(part == (head + named) + parts + (how + options));
        lemma_occurs_within(asked, before, part, after);
    }
}

// ---------------------------------------------------------------------------
// list_sessions, get_session_state
// ---------------------------------------------------------------------------
/// How long ago something was, `seconds` seconds before now; what lies ahead was just now.
pub open spec fn time_ago(seconds: int) -> Seq<char> {
    if seconds < 60 {
        "just now"@
    } else if seconds < 3600 {
        numeral((seconds / 60) as nat) + "m ago"@
    } else if seconds < 86400 {
        numeral((seconds / 3600) as nat) + "h ago"@
    } else {
        numeral((seconds / 86400) as nat) + "d ago"@
    }
}

/// How long before `now` something was, both in Unix time.
pub fn format_time_ago_at(now: i64, unix_ts: i64) -> (r: String)
    ensures
        r@ == time_ago(now - unix_ts),
{
    let diff: i128 = now as i128 - unix_ts as i128;
    if diff < 60 {
        return "just now".to_string();
    }
    let seconds: u64 = diff as u64;
    assert(seconds == diff);
    let (count, unit) = if seconds < 3600 {
        (seconds / 60, "m ago")
    } else if seconds < 86400 {
        (seconds / 3600, "h ago")
    } else {
        (seconds / 86400, "d ago")
    };
    let mut out = decimal(count);
    out.append(unit);
    out
}

/// `SystemTime::elapsed` of `UNIX_EPOCH` gives the time that has passed since the Unix epoch, or an error
/// if the clock is set to an earlier time. It is handed on in whole seconds. Nothing is claimed of the
/// value: it depends on the clock.
#[verifier::external_body]
fn seconds_since_epoch() -> (r: Option<u64>) {
    std::time::UNIX_EPOCH.elapsed().ok().map(|elapsed| elapsed.as_secs())
}

/// The Unix time for a reading of the clock; a clock that cannot be read stands at the epoch.
pub open spec fn clock_time(seconds: Option<u64>) -> i64 {
    match seconds {
        Some(s) => if s <= i64::MAX {
            s as i64
        } else {
            0
        },
        None => 0,
    }
}

/// The Unix time for a reading of the clock.
pub fn unix_time(seconds: Option<u64>) -> (r: i64)
    ensures
        r == clock_time(seconds),
        r >= 0,
{
    match seconds {
        Some(s) => {
            if s <= i64::MAX as u64 {
                s as i64
            } else {
                0
            }
        },
        None => 0,
    }
}

/// How long ago something was.
pub fn format_time_ago(unix_ts: i64) -> (r: String)
    ensures
        exists|now: i64| now >= 0 && r@ == #[trigger] time_ago(now - unix_ts),
{
    let now = unix_time(seconds_since_epoch());
    format_time_ago_at(now, unix_ts)
}

/// The word for the status of a session in a list.
pub open spec fn status_word(status: Option<SessionStatusSummary>) -> Seq<char> {
    match status {
        Some(SessionStatusSummary::Idle) => "idle"@,
        Some(SessionStatusSummary::Busy) => "busy"@,
        Some(SessionStatusSummary::Retry { .. }) => "retry"@,
        None => "unknown"@,
    }
}

/// A session in a list, as of `now`.
pub open spec fn session_lines(s: SessionSummary, now: int) -> Seq<char> {
    ("  "@ + s.id@ + " - "@ + s.title@ + " ("@ + match s.updated {
        Some(updated) => time_ago(now - updated),
        None => "unknown"@,
    } + ", "@) + (status_word(s.status) + ")"@ + if s.launched_by_you {
        " [launched by you]"@
    } else {
        ""@
    } + "\n"@ + labelled("    Path: "@, s.path))
}

/// The sessions of a list, in order, as of `now`.
pub open spec fn session_list(sessions: Seq<SessionSummary>, now: int) -> Seq<char>
    decreases sessions.len(),
{
    if sessions.len() == 0 {
        nothing()
    } else {
        session_list(sessions.drop_last(), now) + session_lines(sessions.last(), now)
    }
}

/// The list of sessions as text, as of `now`.
pub open spec fn sessions_text(output: ListSessionsOutput, now: int) -> Seq<char> {
    "Sessions ("@ + numeral(output.sessions@.len() as nat) + "):\n"@ + session_list(
        output.sessions@,
        now,
    ) + if output.sessions@.len() == 0 {
        "  (no sessions found)\n"@
    } else {
        nothing()
    }
}

/// The list of sessions names the id and the title of every session.
pub proof fn law_sessions_text_names_sessions(output: ListSessionsOutput, now: int, i: int)
    requires
        0 <= i < output.sessions@.len(),
    ensures
        occurs_in(output.sessions@[i].id@, sessions_text(output, now)),
        occurs_in(output.sessions@[i].title@, sessions_text(output, now)),
{
    let head = "Sessions ("@ + numeral(output.sessions@.len() as nat) + "):\n"@;
    let list = session_list(output.sessions@, now);
    lemma_session_named(output.sessions@, now, i);
    lemma_occurs_within(output.sessions@[i].id@, head, list, nothing());
    lemma_occurs_within(output.sessions@[i].title@, head, list, nothing());
}

proof fn lemma_session_named(sessions: Seq<SessionSummary>, now: int, i: int)
    requires
        0 <= i < sessions.len(),
    ensures
        occurs_in(sessions[i].id@, session_list(sessions, now)),
        occurs_in(sessions[i].title@, session_list(sessions, now)),
    decreases sessions.len(),
{
    let rest = session_list(sessions.drop_last(), now);
    let last = session_lines(sessions.last(), now);
    let id = sessions[i].id@;
    let title = sessions[i].title@;
    if i < sessions.len() - 1 {
        lemma_session_named(sessions.drop_last(), now, i);
        lemma_occurs_within(id, nothing(), rest, last);
        lemma_occurs_within(title, nothing(), rest, last);
        assert(nothing() + rest + last == rest + last);
    } else {
        let after_id = last.skip(2 + id.len() as int);
        let before_title = "  "@ + id + " - "@;
        let after_title = last.skip(before_title.len() as int + title.len());
        reveal_strlit("  ");
        assert(last == "  "@ + id + after_id);
        assert(last == before_title + title + after_title);
        lemma_occurs_between("  "@, id, after_id);
        lemma_occurs_between(before_title, title, after_title);
        lemma_occurs_within(id, rest, last, nothing());
        lemma_occurs_within(title, rest, last, nothing());
        assert(rest + last + nothing() == rest + last);
    }
}

fn session_text(s: &SessionSummary, now: i64) -> (r: String)
    ensures
        r@ == session_lines(*s, now as int),
{
    let age = match s.updated {
        Some(updated) => format_time_ago_at(now, updated),
        None => "unknown".to_string(),
    };
    let status = match &s.status {
        Some(SessionStatusSummary::Idle) => "idle",
        Some(SessionStatusSummary::Busy) => "busy",
        Some(SessionStatusSummary::Retry { .. }) => "retry",
        None => "unknown",
    };
    let launched = if s.launched_by_you {
        " [launched by you]"
    } else {
        ""
    };
    let head = cat7("  ", s.id.as_str(), " - ", s.title.as_str(), " (", age.as_str(), ", ");
    let path = labelled_text("    Path: ", &s.path);
    let tail = cat5(status, ")", launched, "\n", path.as_str());
    cat2(head.as_str(), tail.as_str())
}

impl ListSessionsOutput {
    /// The list as text for people, as of `now`.
    pub fn fmt_text_at(&self, now: i64) -> (r: String)
        ensures
            r@ == sessions_text(*self, now as int),
    {
        let count = decimal(self.sessions.len() as u64);
        let mut list = String::new();
        let mut i: usize = 0;
        while i < self.sessions.len()
            invariant
                i <= self.sessions.len(),
                list@ == session_list(self.sessions@.take(i as int), now as int),
            decreases self.sessions.len() - i,
        {
            assert(self.sessions@.take(i + 1).drop_last() == self.sessions@.take(i as int));
            let lines = session_text(&self.sessions[i], now);
            list.append(lines.as_str());
            i += 1;
        }
        assert(self.sessions@.take(i as int) == self.sessions@);
        let mut out = cat5("Sessions (", count.as_str(), "):\n", list.as_str(), "");
        proof {
            reveal_strlit("");
            assert(""@ == nothing());
            assert(out@ == "Sessions ("@ + numeral(self.sessions@.len() as nat) + "):\n"@ + list@);
        }
        if self.sessions.len() == 0 {
            out.append("  (no sessions found)\n");
        } else {
            assert(out@ + nothing() == out@);
        }
        out
    }

    /// The list as text for people.
    pub fn fmt_text(&self) -> (r: String)
        ensures
            exists|now: i64| now >= 0 && r@ == #[trigger] sessions_text(*self, now as int),
    {
        let now = unix_time(seconds_since_epoch());
        self.fmt_text_at(now)
    }
}

/// The status of a session in its detailed state.
pub open spec fn status_sentence(status: SessionStatusSummary) -> Seq<char> {
    match status {
        SessionStatusSummary::Idle => "Idle"@,
        SessionStatusSummary::Busy => "Busy"@,
        SessionStatusSummary::Retry { attempt, message, next } => "Retry (attempt "@ + numeral(
            attempt as nat,
        ) + ", next at "@ + numeral(next as nat) + ", reason: "@ + message@ + ")"@,
    }
}

/// How far a tool call has come.
pub open spec fn tool_state_word(state: ToolStateSummary) -> Seq<char> {
    match state {
        ToolStateSummary::Pending => "pending"@,
        ToolStateSummary::Running => "running"@,
        ToolStateSummary::Completed => "completed"@,
        ToolStateSummary::Error { message } => "error: "@ + message@,
    }
}

/// A tool call in the detailed state.
pub open spec fn tool_line(call: ToolCallSummary) -> Seq<char> {
    "    "@ + call.call_id@ + " ("@ + call.tool_name@ + ") - "@ + tool_state_word(call.state)
        + "\n"@
}

/// The tool calls, in order.
pub open spec fn tool_lines(calls: Seq<ToolCallSummary>) -> Seq<char>
    decreases calls.len(),
{
    if calls.len() == 0 {
        nothing()
    } else {
        tool_lines(calls.drop_last()) + tool_line(calls.last())
    }
}

/// The first lines of the detailed state: which session, and where.
pub open spec fn state_head(s: GetSessionStateOutput) -> Seq<char> {
    ("Session: "@ + s.session_id@ + " ("@ + s.title@ + ")\n"@) + labelled(
        "  Directory: "@,
        s.directory,
    ) + labelled("  Path: "@, s.path)
}

/// The middle of the detailed state: what the session is doing.
pub open spec fn state_body(s: GetSessionStateOutput) -> Seq<char> {
    ("  Status: "@ + status_sentence(s.status) + "\n"@) + ("  Launched by you: "@ + truth_text(
        s.launched_by_you,
    ) + "\n"@) + ("  Pending messages: "@ + numeral(s.pending_message_count as nat) + "\n"@)
}

/// The latest activity as of `now`, if there was any.
pub open spec fn activity_line(last_activity: Option<i64>, now: int) -> Seq<char> {
    match last_activity {
        Some(last) => "  Last activity: "@ + time_ago(now - last) + "\n"@,
        None => nothing(),
    }
}

/// The tool calls with a line above them, if there are any.
pub open spec fn tool_part(calls: Seq<ToolCallSummary>) -> Seq<char> {
    if calls.len() == 0 {
        nothing()
    } else {
        "  Recent tool calls:\n"@ + tool_lines(calls)
    }
}

/// The end of the detailed state as of `now`: latest activity and tool calls.
pub open spec fn state_tail(s: GetSessionStateOutput, now: int) -> Seq<char> {
    activity_line(s.last_activity, now) + tool_part(s.recent_tool_calls@)
}

/// The detailed state as text, as of `now`.
pub open spec fn state_text(s: GetSessionStateOutput, now: int) -> Seq<char> {
    state_head(s) + state_body(s) + state_tail(s, now)
}

fn tool_text(call: &ToolCallSummary) -> (r: String)
    ensures
        r@ == tool_line(*call),
{
    let state = match &call.state {
        ToolStateSummary::Pending => "pending".to_string(),
        ToolStateSummary::Running => "running".to_string(),
        ToolStateSummary::Completed => "completed".to_string(),
        ToolStateSummary::Error { message } => cat2("error: ", message.as_str()),
    };
    cat7(
        "    ",
        call.call_id.as_str(),
        " (",
        call.tool_name.as_str(),
        ") - ",
        state.as_str(),
        "\n",
    )
}

impl GetSessionStateOutput {
    /// The state as text for people, as of `now`.
    pub fn fmt_text_at(&self, now: i64) -> (r: String)
        ensures
            r@ == state_text(*self, now as int),
    {
        let head = self.head_text();
        let body = self.body_text();
        let tail = self.tail_text(now);
        cat3(head.as_str(), body.as_str(), tail.as_str())
    }

    /// The state as text for people.
    pub fn fmt_text(&self) -> (r: String)
        ensures
            exists|now: i64| now >= 0 && r@ == #[trigger] state_text(*self, now as int),
    {
        let now = unix_time(seconds_since_epoch());
        self.fmt_text_at(now)
    }

    fn head_text(&self) -> (r: String)
        ensures
            r@ == state_head(*self),
    {
        let first = cat5(
            "Session: ",
            self.session_id.as_str(),
            " (",
            self.title.as_str(),
            ")\n",
        );
        let directory = labelled_text("  Directory: ", &self.directory);
        let path = labelled_text("  Path: ", &self.path);
        cat3(first.as_str(), directory.as_str(), path.as_str())
    }

    fn body_text(&self) -> (r: String)
        ensures
            r@ == state_body(*self),
    {
        let status = match &self.status {
            SessionStatusSummary::Idle => "Idle".to_string(),
            SessionStatusSummary::Busy => "Busy".to_string(),
            SessionStatusSummary::Retry { attempt, message, next } => {
                let attempt = decimal(*attempt);
                let next = decimal(*next);
                cat7(
                    "Retry (attempt ",
                    attempt.as_str(),
                    ", next at ",
                    next.as_str(),
                    ", reason: ",
                    message.as_str(),
                    ")",
                )
            },
        };
        let pending = decimal(self.pending_message_count as u64);
        let status = cat3("  Status: ", status.as_str(), "\n");
        let launched = cat3("  Launched by you: ", truth(self.launched_by_you), "\n");
        let pending = cat3("  Pending messages: ", pending.as_str(), "\n");
        cat3(status.as_str(), launched.as_str(), pending.as_str())
    }

    fn tail_text(&self, now: i64) -> (r: String)
        ensures
            r@ == state_tail(*self, now as int),
    {
        let activity = match self.last_activity {
            Some(last) => {
                let age = format_time_ago_at(now, last);
                cat3("  Last activity: ", age.as_str(), "\n")
            },
            None => String::new(),
        };
        if self.recent_tool_calls.len() == 0 {
            assert(activity@ + nothing() == activity@);
            return activity;
        }
        let mut lines = String::new();
        let mut i: usize = 0;
        while i < self.recent_tool_calls.len()
            invariant
                i <= self.recent_tool_calls.len(),
                lines@ == tool_lines(self.recent_tool_calls@.take(i as int)),
            decreases self.recent_tool_calls.len() - i,
        {
            assert(self.recent_tool_calls@.take(i + 1).drop_last() == self.recent_tool_calls@.take(
                i as int,
            ));
            let line = tool_text(&self.recent_tool_calls[i]);
            lines.append(line.as_str());
            i += 1;
        }
        assert(self.recent_tool_calls@.take(i as int) == self.recent_tool_calls@);
        let calls = cat2("  Recent tool calls:\n", lines.as_str());
        cat2(activity.as_str(), calls.as_str())
    }
}

// ---------------------------------------------------------------------------
// list_commands, list_agents
// ---------------------------------------------------------------------------
/// A name with the first line of its description, if that has one.
pub open spec fn entry_line(name: Seq<char>, description: Option<String>) -> Seq<char> {
    "  "@ + name + match description {
        Some(text) => match first_line_of(text@) {
            Some(line) => " - "@ + line,
            None => nothing(),
        },
        None => nothing(),
    } + "\n"@
}

/// The commands of a list, in order.
pub open spec fn command_lines(commands: Seq<CommandInfo>) -> Seq<char>
    decreases commands.len(),
{
    if commands.len() == 0 {
        nothing()
    } else {
        command_lines(commands.drop_last()) + entry_line(
            commands.last().name@,
            commands.last().description,
        )
    }
}

/// The agents of a list, in order.
pub open spec fn agent_lines(agents: Seq<AgentInfo>) -> Seq<char>
    decreases agents.len(),
{
    if agents.len() == 0 {
        nothing()
    } else {
        agent_lines(agents.drop_last()) + entry_line(agents.last().name@, agents.last().description)
    }
}

/// The list of commands as text.
pub open spec fn commands_text(output: ListCommandsOutput) -> Seq<char> {
    "Available commands:\n"@ + command_lines(output.commands@) + if output.commands@.len() == 0 {
        "  (no commands available)\n"@
    } else {
        nothing()
    } + "\nUse orchestrator_run(command=<name>, message=<args>) to execute\n"@
}

/// The list of agents as text.
pub open spec fn agents_text(output: ListAgentsOutput) -> Seq<char> {
    "Available agents:\n"@ + agent_lines(output.agents@) + if output.agents@.len() == 0 {
        "  (no agents available)\n"@
    } else {
        nothing()
    } + "\nUse orchestrator_run(message=<prompt>, agent=<name>) for raw prompts\n"@
}

fn entry_text(name: &str, description: &Option<String>) -> (r: String)
    ensures
        r@ == entry_line(name@, *description),
{
    let summary = match description {
        Some(text) => match first_line(text.as_str()) {
            Some(line) => cat2(" - ", line.as_str()),
            None => String::new(),
        },
        None => String::new(),
    };
    let mut out = cat3("  ", name, summary.as_str());
    out.append("\n");
    out
}

impl ListCommandsOutput {
    /// The list as text for people.
    pub fn fmt_text(&self) -> (r: String)
        ensures
            r@ == commands_text(*self),
    {
        let mut lines = String::new();
        let mut i: usize = 0;
        while i < self.commands.len()
            invariant
                i <= self.commands.len(),
                lines@ == command_lines(self.commands@.take(i as int)),
            decreases self.commands.len() - i,
        {
            assert(self.commands@.take(i + 1).drop_last() == self.commands@.take(i as int));
            let line = entry_text(self.commands[i].name.as_str(), &self.commands[i].description);
            lines.append(line.as_str());
            i += 1;
        }
        assert(self.commands@.take(i as int) == self.commands@);
        let empty = if self.commands.len() == 0 {
            "  (no commands available)\n".to_string()
        } else {
            String::new()
        };
        let mut out = cat3("Available commands:\n", lines.as_str(), empty.as_str());
        out.append("\nUse orchestrator_run(command=<name>, message=<args>) to execute\n");
        out
    }
}

impl ListAgentsOutput {
    /// The list as text for people.
    pub fn fmt_text(&self) -> (r: String)
        ensures
            r@ == agents_text(*self),
    {
        let mut lines = String::new();
        let mut i: usize = 0;
        while i < self.agents.len()
            invariant
                i <= self.agents.len(),
                lines@ == agent_lines(self.agents@.take(i as int)),
            decreases self.agents.len() - i,
        {
            assert(self.agents@.take(i + 1).drop_last() == self.agents@.take(i as int));
            let line = entry_text(self.agents[i].name.as_str(), &self.agents[i].description);
            lines.append(line.as_str());
            i += 1;
        }
        assert(self.agents@.take(i as int) == self.agents@);
        let empty = if self.agents.len() == 0 {
            "  (no agents available)\n".to_string()
        } else {
            String::new()
        };
        let mut out = cat3("Available agents:\n", lines.as_str(), empty.as_str());
        out.append("\nUse orchestrator_run(message=<prompt>, agent=<name>) for raw prompts\n");
        out
    }
}

} // verus!
