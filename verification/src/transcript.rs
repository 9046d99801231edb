//! What a transcript and its events say of the running command.

use crate::api::optional_str;
use crate::api::optional_view;
use crate::api::Message;
use crate::api::MessagePartEventProps;
use crate::api::MessageUpdatedProps;
use crate::api::Part;
use crate::api::ToolState;
use crate::delta_buffer::offered;
use crate::delta_buffer::text_for;
use crate::delta_buffer::without;
use crate::delta_buffer::PreCorrelationDeltaBuffer;
use crate::text::same_text;
use crate::types::ToolCallSummary;
use crate::types::ToolStateSummary;
use vstd::hash_set::StringHashSet;
use vstd::prelude::*;

verus! {

/// Ties a transcript to the command that was sent.
#[derive(Debug, Clone)]
pub struct CommandTranscriptWindow {
    pub command_message_id: String,
}

/// Whether the command's own message is in the transcript.
pub open spec fn dispatch_seen(messages: Seq<Message>, window: CommandTranscriptWindow) -> bool {
    exists|i: int| 0 <= i < messages.len() && #[trigger] messages[i].id@ == window.command_message_id@
}

/// Whether the transcript shows that the command was started.
pub fn transcript_indicates_command_dispatch(
    messages: &Vec<Message>,
    transcript_window: &CommandTranscriptWindow,
) -> (r: bool)
    ensures
        r == dispatch_seen(messages@, *transcript_window),
{
    let mut i: usize = 0;
    while i < messages.len()
        invariant
            i <= messages.len(),
            forall|j: int|
                0 <= j < i ==> #[trigger] messages@[j].id@ != transcript_window.command_message_id@,
        decreases messages.len() - i,
    {
        if same_text(messages[i].id.as_str(), transcript_window.command_message_id.as_str()) {
            return true;
        }
        i += 1;
    }
    false
}

/// Whether an update is of a message of the assistant, and answers the command if there is one.
pub open spec fn update_matches(
    window: Option<CommandTranscriptWindow>,
    role: Seq<char>,
    parent_id: Option<Seq<char>>,
) -> bool {
    &&& role == "assistant"@
    &&& window is Some ==> parent_id == Some(window->Some_0.command_message_id@)
}

/// A borrowed window as a plain optional value.
pub open spec fn window_value(window: Option<&CommandTranscriptWindow>) -> Option<
    CommandTranscriptWindow,
> {
    match window {
        Some(w) => Some(*w),
        None => None,
    }
}

/// The characters of an optional borrowed text.
pub open spec fn optional_text(text: Option<&str>) -> Option<Seq<char>> {
    match text {
        Some(t) => Some(t@),
        None => None,
    }
}

/// Whether an update of a message counts as progress of the command, or of the session if no command
/// runs.
pub fn assistant_update_matches_command(
    transcript_window: Option<&CommandTranscriptWindow>,
    role: &str,
    parent_id: Option<&str>,
) -> (r: bool)
    ensures
        r == update_matches(window_value(transcript_window), role@, optional_text(parent_id)),
{
    if !same_text(role, "assistant") {
        return false;
    }
    match transcript_window {
        None => true,
        Some(window) => match parent_id {
            Some(parent) => same_text(parent, window.command_message_id.as_str()),
            None => false,
        },
    }
}

/// Whether an event is of a message that is known to answer the command, if there is one.
pub open spec fn part_matches(
    window: Option<CommandTranscriptWindow>,
    message_id: Option<Seq<char>>,
    correlated: Set<Seq<char>>,
) -> bool {
    window is None || (message_id is Some && correlated.contains(message_id->Some_0))
}

/// Whether an event of a part counts as progress of the command, or of the session if no command runs.
pub fn part_event_matches_command(
    transcript_window: Option<&CommandTranscriptWindow>,
    message_id: Option<&str>,
    correlated_assistant_ids: &StringHashSet,
) -> (r: bool)
    ensures
        r == part_matches(
            window_value(transcript_window),
            optional_text(message_id),
            correlated_assistant_ids@,
        ),
{
    if transcript_window.is_none() {
        return true;
    }
    match message_id {
        Some(id) => correlated_assistant_ids.contains(id),
        None => false,
    }
}

/// A buffer that may not be there is well-formed.
pub open spec fn buffer_wf(buffer: Option<PreCorrelationDeltaBuffer>) -> bool {
    buffer is Some ==> buffer->Some_0.wf()
}

/// What the text received and the buffer become when a delta comes: a delta of a message known to
/// answer the command joins the text; any other is offered to the buffer.
pub open spec fn delta_recorded(
    properties: MessagePartEventProps,
    correlated: bool,
    buffer: Option<PreCorrelationDeltaBuffer>,
    after: Option<PreCorrelationDeltaBuffer>,
    partial: Seq<char>,
    partial_after: Seq<char>,
) -> bool {
    let message_id = optional_view(properties.message_id);
    let delta = optional_view(properties.delta);
    if correlated && delta is Some {
        partial_after == partial + delta->Some_0 && after == buffer
    } else if buffer is Some && message_id is Some && delta is Some {
        &&& partial_after == partial
        &&& after is Some
        &&& after->Some_0@ == offered(buffer->Some_0@, message_id->Some_0, delta->Some_0)
    } else {
        partial_after == partial && after == buffer
    }
}

/// Take a delta; tells whether it counts as progress.
pub fn record_message_part_delta(
    properties: &MessagePartEventProps,
    transcript_window: Option<&CommandTranscriptWindow>,
    correlated_assistant_ids: &StringHashSet,
    precorrelation_deltas: &mut Option<PreCorrelationDeltaBuffer>,
    partial_response: &mut String,
) -> (correlated: bool)
    requires
        buffer_wf(*old(precorrelation_deltas)),
    ensures
        buffer_wf(*final(precorrelation_deltas)),
        correlated == part_matches(
            window_value(transcript_window),
            optional_view(properties.message_id),
            correlated_assistant_ids@,
        ),
        delta_recorded(
            *properties,
            correlated,
            *old(precorrelation_deltas),
            *final(precorrelation_deltas),
            old(partial_response)@,
            final(partial_response)@,
        ),
{
    let correlated = part_event_matches_command(
        transcript_window,
        optional_str(&properties.message_id),
        correlated_assistant_ids,
    );
    match &properties.delta {
        Some(delta) => {
            if correlated {
                partial_response.append(delta.as_str());
            } else {
                match &properties.message_id {
                    Some(message_id) => {
                        match precorrelation_deltas {
                            Some(buffer) => {
                                if !message_id.as_str().is_empty() {
                                    buffer.push(message_id.as_str(), delta.as_str());
                                }
                            },
                            None => {},
                        }
                    },
                    None => {},
                }
            }
        },
        None => {},
    }
    correlated
}

/// What becomes of the ids known to answer the command, the buffer and the text received when a
/// message is updated: a message that answers is noted and its buffered text released; any other
/// loses its buffered text.
pub open spec fn update_recorded(
    properties: MessageUpdatedProps,
    correlated: bool,
    ids: Set<Seq<char>>,
    ids_after: Set<Seq<char>>,
    buffer: Option<PreCorrelationDeltaBuffer>,
    after: Option<PreCorrelationDeltaBuffer>,
    partial: Seq<char>,
    partial_after: Seq<char>,
) -> bool {
    let id = properties.info.id@;
    &&& ids_after == if correlated {
        ids.insert(id)
    } else {
        ids
    }
    &&& after is Some == buffer is Some
    &&& buffer is Some ==> after->Some_0@ == without(buffer->Some_0@, id)
    &&& partial_after == if correlated && buffer is Some {
        partial + text_for(buffer->Some_0@, id)
    } else {
        partial
    }
}

/// Take an update of a message; tells whether it counts as progress.
pub fn record_message_updated(
    properties: &MessageUpdatedProps,
    transcript_window: Option<&CommandTranscriptWindow>,
    correlated_assistant_ids: &mut StringHashSet,
    precorrelation_deltas: &mut Option<PreCorrelationDeltaBuffer>,
    partial_response: &mut String,
) -> (correlated: bool)
    requires
        buffer_wf(*old(precorrelation_deltas)),
    ensures
        buffer_wf(*final(precorrelation_deltas)),
        correlated == update_matches(
            window_value(transcript_window),
            properties.info.role@,
            optional_view(properties.info.parent_id),
        ),
        update_recorded(
            *properties,
            correlated,
            old(correlated_assistant_ids)@,
            final(correlated_assistant_ids)@,
            *old(precorrelation_deltas),
            *final(precorrelation_deltas),
            old(partial_response)@,
            final(partial_response)@,
        ),
{
    let correlated = assistant_update_matches_command(
        transcript_window,
        properties.info.role.as_str(),
        optional_str(&properties.info.parent_id),
    );
    let message_id = &properties.info.id;
    if correlated {
        correlated_assistant_ids.insert(message_id.clone());
        if let Some(buffer) = precorrelation_deltas {
            let text = buffer.take(message_id.as_str());
            partial_response.append(text.as_str());
        }
    } else if let Some(buffer) = precorrelation_deltas {
        buffer.evict_message(message_id.as_str());
    }
    correlated
}

/// Text that was buffered for a message is released when the message turns out to answer the command,
/// behind what was received before, and never when it does not.
pub proof fn law_buffered_text_needs_lineage(
    properties: MessageUpdatedProps,
    window: Option<CommandTranscriptWindow>,
    ids: Set<Seq<char>>,
    ids_after: Set<Seq<char>>,
    buffer: PreCorrelationDeltaBuffer,
    after: Option<PreCorrelationDeltaBuffer>,
    partial: Seq<char>,
    partial_after: Seq<char>,
)
    requires
        buffer.wf(),
        update_recorded(
            properties,
            update_matches(
                window,
                properties.info.role@,
                optional_view(properties.info.parent_id),
            ),
            ids,
            ids_after,
            Some(buffer),
            after,
            partial,
            partial_after,
        ),
    ensures
        update_matches(window, properties.info.role@, optional_view(properties.info.parent_id))
            ==> partial_after == partial + text_for(buffer@, properties.info.id@),
        !update_matches(window, properties.info.role@, optional_view(properties.info.parent_id))
            ==> partial_after == partial,
        text_for(after->Some_0@, properties.info.id@) == Seq::<char>::empty(),
{
    crate::delta_buffer::lemma_without(buffer@, properties.info.id@, properties.info.id@);
}

// ---------------------------------------------------------------------------
// Session diagnostics
// ---------------------------------------------------------------------------
/// The messages of the user after the last message of the assistant.
pub open spec fn pending_count(messages: Seq<Message>) -> nat
    decreases messages.len(),
{
    if messages.len() == 0 || messages.last().role@ == "assistant"@ {
        0
    } else {
        pending_count(messages.drop_last()) + if messages.last().role@ == "user"@ {
            1nat
        } else {
            0nat
        }
    }
}

/// How many messages of the user wait for a reply of the assistant.
pub fn count_pending_messages(messages: &Vec<Message>) -> (r: usize)
    ensures
        r == pending_count(messages@),
{
    let mut pending: usize = 0;
    let mut i: usize = messages.len();
    assert(messages@.take(i as int) == messages@);
    proof {
        reveal_strlit("user");
        reveal_strlit("assistant");
        assert("user"@.len() != "assistant"@.len());
    }
    while i > 0
        invariant
            i <= messages.len(),
            pending <= messages.len() - i,
            pending_count(messages@) == pending + pending_count(messages@.take(i as int)),
            "user"@ != "assistant"@,
        decreases i,
    {
        i -= 1;
        assert(messages@.take(i + 1).drop_last() == messages@.take(i as int));
        if same_text(messages[i].role.as_str(), "user") {
            pending += 1;
        } else if same_text(messages[i].role.as_str(), "assistant") {
            return pending;
        }
    }
    pending
}

/// When the last message was completed, or else created; without messages, the fallback.
pub open spec fn last_activity(messages: Seq<Message>, fallback: Option<i64>) -> Option<i64> {
    if messages.len() == 0 {
        fallback
    } else {
        match messages.last().completed {
            Some(at) => Some(at),
            None => Some(messages.last().created),
        }
    }
}

/// The time of the latest activity in a transcript.
pub fn get_last_activity_time(messages: &Vec<Message>, fallback: Option<i64>) -> (r: Option<i64>)
    ensures
        r == last_activity(messages@, fallback),
{
    if messages.len() == 0 {
        return fallback;
    }
    let message = &messages[messages.len() - 1];
    match message.completed {
        Some(at) => Some(at),
        None => Some(message.created),
    }
}

/// Whether a summary says of a tool call what its part says.
pub open spec fn summarizes(summary: ToolCallSummary, part: Part) -> bool {
    match part {
        Part::Tool { call_id, tool, state } => {
            &&& summary.call_id == call_id
            &&& summary.tool_name == tool
            &&& match state {
                Some(ToolState::Running { start }) => {
                    &&& summary.state is Running
                    &&& summary.started_at == Some(start)
                    &&& summary.completed_at is None
                },
                Some(ToolState::Completed { start, end }) => {
                    &&& summary.state is Completed
                    &&& summary.started_at == Some(start)
                    &&& summary.completed_at == Some(end)
                },
                Some(ToolState::Error { error, start, end }) => {
                    &&& summary.state == (ToolStateSummary::Error { message: error })
                    &&& summary.started_at == Some(start)
                    &&& summary.completed_at == Some(end)
                },
                _ => {
                    &&& summary.state is Pending
                    &&& summary.started_at is None
                    &&& summary.completed_at is None
                },
            }
        },
        Part::Other => false,
    }
}

/// The tool calls of one message, last part first.
pub open spec fn tool_parts(parts: Seq<Part>) -> Seq<Part>
    decreases parts.len(),
{
    if parts.len() == 0 {
        Seq::empty()
    } else if parts.last() is Tool {
        seq![parts.last()] + tool_parts(parts.drop_last())
    } else {
        tool_parts(parts.drop_last())
    }
}

/// The tool calls of a transcript, most recent first.
pub open spec fn recent_tools(messages: Seq<Message>) -> Seq<Part>
    decreases messages.len(),
{
    if messages.len() == 0 {
        Seq::empty()
    } else {
        tool_parts(messages.last().parts@) + recent_tools(messages.drop_last())
    }
}

/// How many tool calls are listed of `available` ones: up to the limit, but never none of some.
pub open spec fn listed_count(available: nat, limit: nat) -> nat {
    let most = if limit == 0 {
        1
    } else {
        limit
    };
    if available < most {
        available
    } else {
        most
    }
}

fn summarize_tool(part: &Part) -> (r: Option<ToolCallSummary>)
    ensures
        match r {
            Some(summary) => part is Tool && summarizes(summary, *part),
            None => !(part is Tool),
        },
{
    match part {
        Part::Tool { call_id, tool, state } => {
            let (state, started_at, completed_at) = match state {
                Some(ToolState::Running { start }) => (ToolStateSummary::Running, Some(*start), None),
                Some(ToolState::Completed { start, end }) => {
                    (ToolStateSummary::Completed, Some(*start), Some(*end))
                },
                Some(ToolState::Error { error, start, end }) => {
                    (ToolStateSummary::Error { message: error.clone() }, Some(*start), Some(*end))
                },
                _ => (ToolStateSummary::Pending, None, None),
            };
            Some(
                ToolCallSummary {
                    call_id: call_id.clone(),
                    tool_name: tool.clone(),
                    state,
                    started_at,
                    completed_at,
                },
            )
        },
        Part::Other => None,
    }
}

/// The most recent tool calls of a transcript, most recent first.
pub fn extract_recent_tool_calls(messages: &Vec<Message>, limit: usize) -> (r: Vec<ToolCallSummary>)
    ensures
        r@.len() == listed_count(recent_tools(messages@).len(), limit as nat),
        forall|i: int|
            0 <= i < r@.len() ==> summarizes(#[trigger] r@[i], recent_tools(messages@)[i]),
{
    let mut tool_calls: Vec<ToolCallSummary> = Vec::new();
    let ghost all = recent_tools(messages@);
    let mut m: usize = messages.len();
    assert(messages@.take(m as int) == messages@);
    assert(Seq::<Part>::empty() + recent_tools(messages@) == recent_tools(messages@));
    let ghost mut done: Seq<Part> = Seq::empty();
    while m > 0
        invariant
            m <= messages.len(),
            all == recent_tools(messages@),
            all == done + recent_tools(messages@.take(m as int)),
            tool_calls@.len() == done.len(),
            tool_calls@.len() == 0 || tool_calls@.len() < limit,
            forall|i: int| 0 <= i < done.len() ==> summarizes(#[trigger] tool_calls@[i], done[i]),
        decreases m,
    {
        m -= 1;
        let parts = &messages[m].parts;
        let mut p: usize = parts.len();
        let ghost rest = recent_tools(messages@.take(m as int));
        proof {
            assert(messages@.take(m + 1).drop_last() == messages@.take(m as int));
            assert(parts@.take(p as int) == parts@);
            assert(done + (tool_parts(parts@) + rest) == done + tool_parts(parts@) + rest);
        }
        while p > 0
            invariant
                m < messages.len(),
                parts@ == messages@[m as int].parts@,
                p <= parts.len(),
                all == recent_tools(messages@),
                rest == recent_tools(messages@.take(m as int)),
                all == done + tool_parts(parts@.take(p as int)) + rest,
                tool_calls@.len() == done.len(),
                tool_calls@.len() == 0 || tool_calls@.len() < limit,
                forall|i: int|
                    0 <= i < done.len() ==> summarizes(#[trigger] tool_calls@[i], done[i]),
            decreases p,
        {
            p -= 1;
            let ghost fewer = tool_parts(parts@.take(p as int));
            assert(parts@.take(p + 1).drop_last() == parts@.take(p as int));
            if let Some(summary) = summarize_tool(&parts[p]) {
                tool_calls.push(summary);
                proof {
                    let part = parts@[p as int];
                    assert(done + (seq![part] + fewer) + rest == done.push(part) + fewer + rest);
                    done = done.push(part);
                }
                if tool_calls.len() >= limit {
                    assert forall|i: int| 0 <= i < tool_calls@.len() implies summarizes(
                        #[trigger] tool_calls@[i],
                        all[i],
                    ) by {
                        assert(all[i] == done[i]);
                    }
                    return tool_calls;
                }
            }
        }
        assert(parts@.take(0) == Seq::<Part>::empty());
        assert(done + Seq::<Part>::empty() + rest == done + rest);
    }
    assert(messages@.take(0) == Seq::<Message>::empty());
    assert(all == done);
    tool_calls
}

// ---------------------------------------------------------------------------
// What holds of every transcript
// ---------------------------------------------------------------------------
/// The last message alone gives the time of the last activity: when it was completed, or else created,
/// whatever came before. Only without messages the fallback counts.
pub proof fn law_last_activity_is_of_the_last_message(
    messages: Seq<Message>,
    m: Message,
    fallback: Option<i64>,
)
    ensures
        m.completed is Some ==> last_activity(messages.push(m), fallback) == m.completed,
        m.completed is None ==> last_activity(messages.push(m), fallback) == Some(m.created),
        last_activity(Seq::<Message>::empty(), fallback) == fallback,
{
    assert(messages.push(m).last() == m);
}

/// One more message of the user is one more that waits, a message of the assistant answers all, and any
/// other message changes nothing.
pub proof fn law_pending_messages_wait_for_the_assistant(messages: Seq<Message>, m: Message)
    ensures
        m.role@ == "user"@ ==> pending_count(messages.push(m)) == pending_count(messages) + 1,
        m.role@ == "assistant"@ ==> pending_count(messages.push(m)) == 0,
        m.role@ != "user"@ && m.role@ != "assistant"@ ==> pending_count(messages.push(m))
            == pending_count(messages),
        pending_count(Seq::<Message>::empty()) == 0,
{
    reveal_strlit("user");
    reveal_strlit("assistant");
    assert("user"@.len() != "assistant"@.len());
    assert(messages.push(m).drop_last() == messages);
    assert(messages.push(m).last() == m);
}

/// The command is seen in a transcript exactly if one of its messages has the command's id.
pub proof fn law_dispatch_is_seen_by_message_id(
    messages: Seq<Message>,
    m: Message,
    window: CommandTranscriptWindow,
)
    ensures
        dispatch_seen(messages.push(m), window) <==> dispatch_seen(messages, window) || m.id@
            == window.command_message_id@,
        !dispatch_seen(Seq::<Message>::empty(), window),
{
    let longer = messages.push(m);
    if dispatch_seen(messages, window) {
        let i = choose|i: int|
            0 <= i < messages.len() && #[trigger] messages[i].id@ == window.command_message_id@;
        assert(longer[i].id@ == window.command_message_id@);
    }
    if m.id@ == window.command_message_id@ {
        assert(longer[messages.len() as int].id@ == window.command_message_id@);
    }
    if dispatch_seen(longer, window) {
        let i = choose|i: int|
            0 <= i < longer.len() && #[trigger] longer[i].id@ == window.command_message_id@;
        if i < messages.len() {
            assert(messages[i].id@ == window.command_message_id@);
        }
    }
}

/// The tool calls of a message come before those of all earlier messages, and within a message a later
/// part comes before an earlier one; only tool calls count.
pub proof fn law_recent_tools_come_latest_first(
    messages: Seq<Message>,
    m: Message,
    parts: Seq<Part>,
    part: Part,
)
    ensures
        recent_tools(messages.push(m)) == tool_parts(m.parts@) + recent_tools(messages),
        recent_tools(Seq::<Message>::empty()) == Seq::<Part>::empty(),
        part is Tool ==> tool_parts(parts.push(part)) == seq![part] + tool_parts(parts),
        part is Other ==> tool_parts(parts.push(part)) == tool_parts(parts),
        tool_parts(Seq::<Part>::empty()) == Seq::<Part>::empty(),
{
    assert(messages.push(m).drop_last() == messages);
    assert(messages.push(m).last() == m);
    assert(parts.push(part).drop_last() == parts);
    assert(parts.push(part).last() == part);
}

/// Every tool call of a transcript is among the recent ones, and nothing else is.
pub proof fn law_recent_tools_are_all_tools(messages: Seq<Message>, part: Part)
    ensures
        recent_tools(messages).contains(part) <==> part is Tool && exists|i: int|
            0 <= i < messages.len() && #[trigger] messages[i].parts@.contains(part),
    decreases messages.len(),
{
    if messages.len() > 0 {
        let rest = messages.drop_last();
        let last = messages.last();
        law_recent_tools_are_all_tools(rest, part);
        lemma_tool_parts_contain(last.parts@, part);
        let head = tool_parts(last.parts@);
        let all = head + recent_tools(rest);
        if all.contains(part) {
            let k = choose|k: int| 0 <= k < all.len() && all[k] == part;
            if k < head.len() {
                assert(head[k] == part);
                assert(messages[messages.len() - 1].parts@.contains(part));
            } else {
                assert(recent_tools(rest)[k - head.len()] == part);
                let i = choose|i: int|
                    0 <= i < rest.len() && #[trigger] rest[i].parts@.contains(part);
                assert(messages[i].parts@.contains(part));
            }
        }
        if part is Tool && exists|i: int|
            0 <= i < messages.len() && #[trigger] messages[i].parts@.contains(part) {
            let i = choose|i: int|
                0 <= i < messages.len() && #[trigger] messages[i].parts@.contains(part);
            if i == messages.len() - 1 {
                let k = choose|k: int| 0 <= k < head.len() && head[k] == part;
                assert(all[k] == part);
            } else {
                assert(rest[i].parts@.contains(part));
                let k = choose|k: int|
                    0 <= k < recent_tools(rest).len() && recent_tools(rest)[k] == part;
                assert(all[head.len() + k] == part);
            }
        }
    }
}

proof fn lemma_tool_parts_contain(parts: Seq<Part>, part: Part)
    ensures
        tool_parts(parts).contains(part) <==> part is Tool && parts.contains(part),
    decreases parts.len(),
{
    if parts.len() > 0 {
        let rest = parts.drop_last();
        let last = parts.last();
        lemma_tool_parts_contain(rest, part);
        if tool_parts(parts).contains(part) {
            let k = choose|k: int| 0 <= k < tool_parts(parts).len() && tool_parts(parts)[k] == part;
            if last is Tool {
                if k == 0 {
                    assert(parts[parts.len() - 1] == part);
                } else {
                    assert(tool_parts(rest)[k - 1] == part);
                    let n = choose|n: int| 0 <= n < rest.len() && rest[n] == part;
                    assert(parts[n] == part);
                }
            } else {
                let n = choose|n: int| 0 <= n < rest.len() && rest[n] == part;
                assert(parts[n] == part);
            }
        }
        if part is Tool && parts.contains(part) {
            let n = choose|n: int| 0 <= n < parts.len() && parts[n] == part;
            if n == parts.len() - 1 {
                assert(tool_parts(parts)[0] == part);
            } else {
                assert(rest[n] == part);
                let k = choose|k: int| 0 <= k < tool_parts(rest).len() && tool_parts(rest)[k] == part;
                if last is Tool {
                    assert(tool_parts(parts)[k + 1] == part);
                }
            }
        }
    }
}

/// As many tool calls are listed as there are, up to the limit; a limit of zero counts as one.
pub proof fn law_listed_count(available: nat, limit: nat)
    ensures
        listed_count(available, limit) <= available,
        limit >= 1 ==> listed_count(available, limit) <= limit,
        limit >= 1 && available >= limit ==> listed_count(available, limit) == limit,
        available <= limit ==> listed_count(available, limit) == available,
        listed_count(available, 0) == listed_count(available, 1),
{
}

/// A summary names the call and the tool, and gives the state with exactly the times that the state has.
pub proof fn law_tool_summary_gives_the_call(
    summary: ToolCallSummary,
    call_id: String,
    tool: String,
    state: Option<ToolState>,
)
    requires
        summarizes(summary, (Part::Tool { call_id, tool, state })),
    ensures
        summary.call_id == call_id,
        summary.tool_name == tool,
        summary.state is Running <==> state is Some && state->Some_0 is Running,
        summary.state is Completed <==> state is Some && state->Some_0 is Completed,
        summary.state is Error <==> state is Some && state->Some_0 is Error,
        summary.state is Pending <==> state is None || state->Some_0 is Pending || state->Some_0 is Unknown,
        state matches Some(ToolState::Running { start }) ==> summary.started_at == Some(start),
        state matches Some(ToolState::Completed { start, end }) ==> summary.started_at == Some(start)
            && summary.completed_at == Some(end),
        state matches Some(ToolState::Error { error, start, end }) ==> summary.started_at == Some(
            start,
        ) && summary.completed_at == Some(end) && summary.state->message == error,
        summary.started_at is Some <==> !(summary.state is Pending),
        summary.completed_at is Some <==> summary.state is Completed || summary.state is Error,
{
}

/// Without a command every message of the assistant counts as progress; with a command only one that names
/// the command's message as its parent. No other role ever counts.
pub proof fn law_updates_count_by_role_and_parent(
    window: CommandTranscriptWindow,
    role: Seq<char>,
    parent_id: Option<Seq<char>>,
)
    ensures
        update_matches(None, role, parent_id) <==> role == "assistant"@,
        update_matches(Some(window), role, parent_id) <==> role == "assistant"@ && parent_id is Some
            && parent_id->Some_0 == window.command_message_id@,
{
}

/// Without a command every part counts as progress; with a command only one of a message that is already
/// known to answer it.
pub proof fn law_parts_count_by_message(
    window: CommandTranscriptWindow,
    id: Seq<char>,
    correlated: Set<Seq<char>>,
    message_id: Option<Seq<char>>,
)
    ensures
        part_matches(None, message_id, correlated),
        part_matches(Some(window), Some(id), correlated) <==> correlated.contains(id),
        !part_matches(Some(window), None, correlated),
        part_matches(Some(window), Some(id), correlated.insert(id)),
{
}

/// A delta of a message that answers is appended to the text as it is and leaves the buffer alone; a delta
/// of any other message leaves the text alone and goes to the buffer under its own message.
pub proof fn law_deltas_go_to_text_or_buffer(
    properties: MessagePartEventProps,
    correlated: bool,
    buffer: Option<PreCorrelationDeltaBuffer>,
    after: Option<PreCorrelationDeltaBuffer>,
    partial: Seq<char>,
    partial_after: Seq<char>,
)
    requires
        delta_recorded(properties, correlated, buffer, after, partial, partial_after),
    ensures
        correlated && properties.delta is Some ==> partial_after == partial
            + properties.delta->Some_0@ && after == buffer,
        !correlated ==> partial_after == partial,
        properties.delta is None ==> partial_after == partial && after == buffer,
        properties.message_id is None && !correlated ==> after == buffer,
        buffer is None ==> after is None,
        !correlated && buffer is Some && properties.message_id is Some && properties.delta is Some
            ==> after is Some && after->Some_0@ == offered(
            buffer->Some_0@,
            properties.message_id->Some_0@,
            properties.delta->Some_0@,
        ),
{
}

/// An update notes its message exactly if it answers, releases what was buffered of that message behind
/// the text exactly then, and takes the message out of the buffer either way.
pub proof fn law_updates_note_and_release(
    properties: MessageUpdatedProps,
    correlated: bool,
    ids: Set<Seq<char>>,
    ids_after: Set<Seq<char>>,
    buffer: Option<PreCorrelationDeltaBuffer>,
    after: Option<PreCorrelationDeltaBuffer>,
    partial: Seq<char>,
    partial_after: Seq<char>,
    other: Seq<char>,
)
    requires
        update_recorded(
            properties,
            correlated,
            ids,
            ids_after,
            buffer,
            after,
            partial,
            partial_after,
        ),
    ensures
        correlated ==> ids_after.contains(properties.info.id@),
        !correlated ==> ids_after == ids,
        other != properties.info.id@ ==> ids_after.contains(other) == ids.contains(other),
        after is Some == buffer is Some,
        buffer is Some && correlated ==> partial_after == partial + text_for(
            buffer->Some_0@,
            properties.info.id@,
        ),
        buffer is None || !correlated ==> partial_after == partial,
        buffer is Some ==> text_for(after->Some_0@, properties.info.id@) == Seq::<char>::empty(),
        buffer is Some && other != properties.info.id@ ==> text_for(after->Some_0@, other)
            == text_for(buffer->Some_0@, other),
{
    if buffer is Some {
        crate::delta_buffer::lemma_without(buffer->Some_0@, properties.info.id@, other);
        crate::delta_buffer::lemma_without(
            buffer->Some_0@,
            properties.info.id@,
            properties.info.id@,
        );
    }
}

} // verus!
