//! Errors that the tools hand to their caller.

use crate::text::cat2;
use crate::text::lemma_occurs_between;
use crate::text::occurs_in;
use vstd::prelude::*;

verus! {

/// Why a tool call failed.
#[derive(Debug, Clone)]
pub enum ToolError {
    /// The caller asked for something that cannot be done as asked.
    InvalidInput(String),
    /// Something went wrong on the way.
    Internal(String),
    /// The caller cancelled the call, for a reason it may have given.
    Cancelled(Option<String>),
}

impl ToolError {
    /// The error as people read it.
    pub open spec fn message(&self) -> Seq<char> {
        match self {
            ToolError::InvalidInput(text) => "invalid input: "@ + text@,
            ToolError::Internal(text) => "internal error: "@ + text@,
            ToolError::Cancelled(Some(reason)) => "cancelled: "@ + reason@,
            ToolError::Cancelled(None) => "cancelled"@,
        }
    }

    /// The error as people read it.
    pub fn to_text(&self) -> (r: String)
        ensures
            r@ == self.message(),
    {
        match self {
            ToolError::InvalidInput(text) => cat2("invalid input: ", text.as_str()),
            ToolError::Internal(text) => cat2("internal error: ", text.as_str()),
            ToolError::Cancelled(Some(reason)) => cat2("cancelled: ", reason.as_str()),
            ToolError::Cancelled(None) => "cancelled".to_string(),
        }
    }

    /// Whether this is an invalid-input error with exactly this text.
    pub open spec fn is_invalid_input(&self, text: Seq<char>) -> bool {
        self is InvalidInput && self->InvalidInput_0@ == text
    }

    /// Whether this is an internal error with exactly this text.
    pub open spec fn is_internal(&self, text: Seq<char>) -> bool {
        self is Internal && self->Internal_0@ == text
    }
}

/// An error is read with what it says, in full and behind what kind of error it is.
pub proof fn law_errors_read_as_what_they_say(error: ToolError, text: String)
    ensures
        error == ToolError::InvalidInput(text) ==> error.message() == "invalid input: "@ + text@,
        error == ToolError::Internal(text) ==> error.message() == "internal error: "@ + text@,
        error == ToolError::Cancelled(Some(text)) ==> error.message() == "cancelled: "@ + text@,
        error == ToolError::Cancelled(None) ==> error.message() == "cancelled"@,
        error == ToolError::InvalidInput(text) || error == ToolError::Internal(text) || error
            == ToolError::Cancelled(Some(text)) ==> occurs_in(text@, error.message()),
{
    let none = Seq::<char>::empty();
    lemma_occurs_between("invalid input: "@, text@, none);
    lemma_occurs_between("internal error: "@, text@, none);
    lemma_occurs_between("cancelled: "@, text@, none);
    assert("invalid input: "@ + text@ + none =~= "invalid input: "@ + text@);
    assert("internal error: "@ + text@ + none =~= "internal error: "@ + text@);
    assert("cancelled: "@ + text@ + none =~= "cancelled: "@ + text@);
}

} // verus!
