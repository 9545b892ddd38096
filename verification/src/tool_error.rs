//! Failures of tool calls.

use vstd::prelude::*;

use crate::text::concat;

verus! {

/// Why a tool call failed.
#[derive(Debug, PartialEq, Eq)]
pub enum ToolCallError {
    /// The input does not make sense.
    InvalidInput(String),
    /// The server is at fault.
    InternalError(String),
    /// The call is not permitted.
    Denied(String),
    /// The call needs something that is not configured.
    NeedsConfiguration(String),
}

/// The view of [`ToolCallError`].
pub enum ToolCallErrorView {
    InvalidInput(Seq<char>),
    InternalError(Seq<char>),
    Denied(Seq<char>),
    NeedsConfiguration(Seq<char>),
}

impl View for ToolCallError {
    type V = ToolCallErrorView;

    open spec fn view(&self) -> ToolCallErrorView {
        match self {
            ToolCallError::InvalidInput(message) => ToolCallErrorView::InvalidInput(message@),
            ToolCallError::InternalError(message) => ToolCallErrorView::InternalError(message@),
            ToolCallError::Denied(message) => ToolCallErrorView::Denied(message@),
            ToolCallError::NeedsConfiguration(message) => ToolCallErrorView::NeedsConfiguration(
                message@,
            ),
        }
    }
}

/// What a tool call error says to a reader.
pub open spec fn tool_error_message(error: ToolCallErrorView) -> Seq<char> {
    match error {
        ToolCallErrorView::InvalidInput(message) => "invalid input: "@ + message,
        ToolCallErrorView::InternalError(message) => "internal error: "@ + message,
        ToolCallErrorView::Denied(message) => "denied: "@ + message,
        ToolCallErrorView::NeedsConfiguration(message) => "needs configuration: "@ + message,
    }
}

impl ToolCallError {
    /// What the error says to a reader.
    pub fn message(&self) -> (result: String)
        ensures
            result@ == tool_error_message(self@),
    {
        match self {
            ToolCallError::InvalidInput(message) => concat("invalid input: ", message.as_str()),
            ToolCallError::InternalError(message) => concat("internal error: ", message.as_str()),
            ToolCallError::Denied(message) => concat("denied: ", message.as_str()),
            ToolCallError::NeedsConfiguration(message) => concat(
                "needs configuration: ",
                message.as_str(),
            ),
        }
    }
}

/// An input error with a message.
pub fn invalid_input(message: &str) -> (result: ToolCallError)
    ensures
        result@ == ToolCallErrorView::InvalidInput(message@),
{
    ToolCallError::InvalidInput(message.to_string())
}

/// A server error with a message.
pub fn internal_error(message: &str) -> (result: ToolCallError)
    ensures
        result@ == ToolCallErrorView::InternalError(message@),
{
    ToolCallError::InternalError(message.to_string())
}

/// The view of a fallible tool call whose value is its own view.
pub open spec fn tool_result<T>(result: Result<T, ToolCallError>) -> Result<T, ToolCallErrorView> {
    match result {
        Ok(value) => Ok(value),
        Err(error) => Err(error@),
    }
}

} // verus!
