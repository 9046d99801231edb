//! What is logged about each tool call.

use crate::errors::ToolError;
use crate::outcome::ToolLogMeta;
use crate::text::occurs_in;
use vstd::prelude::*;

verus! {

/// The name under which the calls of all tools are logged.
pub const SERVER_NAME: &'static str = "opencode-orchestrator-mcp";

/// What is logged about a call, besides its times, its request and the file that its output went to.
pub struct CallRecord {
    pub server: String,
    pub tool: String,
    pub success: bool,
    pub error: Option<String>,
    pub failure_kind: Option<String>,
    pub token_usage: Option<agentic_logging::TokenUsage>,
    /// The record has to say that the token counts are at their limit.
    pub token_usage_saturated: bool,
}

/// The lower-case letter for an upper-case ASCII letter; any other character stays.
pub open spec fn ascii_lower(c: char) -> char {
    if 'A' <= c <= 'Z' {
        (c as u32 + 32) as char
    } else {
        c
    }
}

/// A text with its ASCII letters in lower case.
pub open spec fn ascii_lowered(text: Seq<char>) -> Seq<char> {
    Seq::new(text.len(), |i: int| ascii_lower(text[i]))
}

/// The kind of a failure, by what its text mentions in any mix of upper and lower case.
pub open spec fn failure_kind_of(error: Seq<char>) -> Seq<char> {
    let text = ascii_lowered(error);
    if occurs_in("timed out"@, text) || occurs_in("timeout"@, text) {
        "timeout"@
    } else if occurs_in("cancelled"@, text) || occurs_in("canceled"@, text) {
        "cancelled"@
    } else {
        "error"@
    }
}

/// `agentic_logging::classify_failure_kind` gives no kind for a success. For a failure it looks, without
/// regard to the case of ASCII letters, for words of a timeout first and then for words of a
/// cancellation; a failure without a text is like one with an empty text.
pub assume_specification[ agentic_logging::classify_failure_kind ](
    success: bool,
    error: Option<&str>,
) -> (r: Option<String>)
    ensures
        success ==> r is None,
        !success ==> r is Some && r->Some_0@ == failure_kind_of(
            match error {
                Some(text) => text@,
                None => Seq::empty(),
            },
        ),
;

/// Whether this is the record of a call that succeeded.
pub open spec fn records_success(r: CallRecord, tool: Seq<char>, log_meta: ToolLogMeta) -> bool {
    &&& r.server@ == SERVER_NAME@
    &&& r.tool@ == tool
    &&& r.success
    &&& r.error is None
    &&& r.failure_kind is None
    &&& r.token_usage == log_meta.token_usage
    &&& r.token_usage_saturated == log_meta.token_usage_saturated
}

/// Whether this is the record of a call that failed.
pub open spec fn records_failure(r: CallRecord, tool: Seq<char>, error: ToolError) -> bool {
    &&& r.server@ == SERVER_NAME@
    &&& r.tool@ == tool
    &&& !r.success
    &&& r.error is Some
    &&& r.error->Some_0@ == error.message()
    &&& r.failure_kind is Some
    &&& r.failure_kind->Some_0@ == failure_kind_of(error.message())
    &&& r.token_usage is None
    &&& !r.token_usage_saturated
}

/// The record of a call that succeeded.
pub fn success_record(tool: &str, log_meta: ToolLogMeta) -> (r: CallRecord)
    ensures
        records_success(r, tool@, log_meta),
{
    CallRecord {
        server: SERVER_NAME.to_string(),
        tool: tool.to_string(),
        success: true,
        error: None,
        failure_kind: None,
        token_usage: log_meta.token_usage,
        token_usage_saturated: log_meta.token_usage_saturated,
    }
}

/// The record of a call that failed.
pub fn failure_record(tool: &str, error: &ToolError) -> (r: CallRecord)
    ensures
        records_failure(r, tool@, *error),
{
    let text = error.to_text();
    let failure_kind = agentic_logging::classify_failure_kind(false, Some(text.as_str()));
    CallRecord {
        server: SERVER_NAME.to_string(),
        tool: tool.to_string(),
        success: false,
        error: Some(text),
        failure_kind,
        token_usage: None,
        token_usage_saturated: false,
    }
}

/// Every call is recorded under its own tool and this server. A success is recorded with the tokens used and no
/// error; a failure with all that its error says, a kind, and no tokens.
pub proof fn law_calls_are_recorded(
    succeeded: CallRecord,
    failed: CallRecord,
    tool: Seq<char>,
    log_meta: ToolLogMeta,
    error: ToolError,
    text: String,
)
    requires
        records_success(succeeded, tool, log_meta),
        records_failure(failed, tool, error),
    ensures
        succeeded.tool@ == tool,
        failed.tool@ == tool,
        succeeded.server@ == "opencode-orchestrator-mcp"@,
        failed.server@ == "opencode-orchestrator-mcp"@,
        succeeded.success && !failed.success,
        succeeded.error is None && succeeded.failure_kind is None,
        succeeded.token_usage == log_meta.token_usage,
        succeeded.token_usage_saturated == log_meta.token_usage_saturated,
        failed.error is Some && failed.failure_kind is Some,
        failed.token_usage is None && !failed.token_usage_saturated,
        error == ToolError::InvalidInput(text) ==> failed.error->Some_0@ == "invalid input: "@
            + text@,
        error == ToolError::Internal(text) ==> failed.error->Some_0@ == "internal error: "@
            + text@,
        error == ToolError::Cancelled(Some(text)) ==> failed.error->Some_0@ == "cancelled: "@
            + text@,
        error == ToolError::Cancelled(None) ==> failed.error->Some_0@ == "cancelled"@,
        error is Cancelled && !occurs_in("timed out"@, ascii_lowered(error.message()))
            && !occurs_in("timeout"@, ascii_lowered(error.message()))
            ==> failed.failure_kind->Some_0@ == "cancelled"@,
{
    if error is Cancelled {
        let message = error.message();
        reveal_strlit("cancelled");
        reveal_strlit("cancelled: ");
        let word = "cancelled"@;
        let start: int = 0;
        assert(ascii_lowered(message).subrange(start, start + word.len()) =~= word);
    }
}

} // verus!
