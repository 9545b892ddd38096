//! Failures of memory initialization and command execution.

use vstd::prelude::*;

use crate::rpc_memory::{MemoryForgetResult, MemoryForgetResultView};
use crate::text::{concat, decimal, decimal_text};

verus! {

/// A failure of memory initialization or command execution.
#[derive(Debug, PartialEq, Eq)]
pub enum MemoryError {
    /// The memory directory could not be prepared or written.
    Directory(String),
    /// The memory database refused an operation.
    Database(String),
    /// A writer failed while it held the memory database.
    LockPoisoned,
    /// The memory database returned a negative count.
    InvalidCount(i64),
    /// The memory database returned a text that is no instant.
    InvalidTimestamp(String),
    /// The project identity of a workspace could not be resolved.
    ProjectIdentity(String),
    /// The Native Session selectors name more than one project.
    AmbiguousProjectScope,
    /// No Native Session selector names a project.
    ProjectSessionRequired,
    /// A Native Session selector names a session without a workspace root.
    ProjectSessionUnavailable,
    /// The global feature switch is off.
    Disabled,
    /// The request does not make sense.
    InvalidRequest(String),
    /// The content may hold a secret.
    SecretContentRejected,
    /// The memory database holds a value that has no meaning here.
    InvalidStoredValue(String),
    /// The entry was retired, but the readable projection was not refreshed.
    ForgetCommitted { result: Box<MemoryForgetResult>, projection_error: Box<MemoryError> },
}

/// The view of [`MemoryError`].
pub enum MemoryErrorView {
    Directory(Seq<char>),
    Database(Seq<char>),
    LockPoisoned,
    InvalidCount(i64),
    InvalidTimestamp(Seq<char>),
    ProjectIdentity(Seq<char>),
    AmbiguousProjectScope,
    ProjectSessionRequired,
    ProjectSessionUnavailable,
    Disabled,
    InvalidRequest(Seq<char>),
    SecretContentRejected,
    InvalidStoredValue(Seq<char>),
    ForgetCommitted { result: MemoryForgetResultView, projection_error: Box<MemoryErrorView> },
}

pub open spec fn error_view(error: MemoryError) -> MemoryErrorView
    decreases error,
{
    match error {
        MemoryError::Directory(message) => MemoryErrorView::Directory(message@),
        MemoryError::Database(message) => MemoryErrorView::Database(message@),
        MemoryError::LockPoisoned => MemoryErrorView::LockPoisoned,
        MemoryError::InvalidCount(count) => MemoryErrorView::InvalidCount(count),
        MemoryError::InvalidTimestamp(text) => MemoryErrorView::InvalidTimestamp(text@),
        MemoryError::ProjectIdentity(message) => MemoryErrorView::ProjectIdentity(message@),
        MemoryError::AmbiguousProjectScope => MemoryErrorView::AmbiguousProjectScope,
        MemoryError::ProjectSessionRequired => MemoryErrorView::ProjectSessionRequired,
        MemoryError::ProjectSessionUnavailable => MemoryErrorView::ProjectSessionUnavailable,
        MemoryError::Disabled => MemoryErrorView::Disabled,
        MemoryError::InvalidRequest(message) => MemoryErrorView::InvalidRequest(message@),
        MemoryError::SecretContentRejected => MemoryErrorView::SecretContentRejected,
        MemoryError::InvalidStoredValue(text) => MemoryErrorView::InvalidStoredValue(text@),
        MemoryError::ForgetCommitted { result, projection_error } => {
            MemoryErrorView::ForgetCommitted {
                result: (*result)@,
                projection_error: Box::new(error_view(*projection_error)),
            }
        },
    }
}

impl View for MemoryError {
    type V = MemoryErrorView;

    open spec fn view(&self) -> MemoryErrorView {
        error_view(*self)
    }
}

/// The decimal form of a signed number.
pub open spec fn signed_decimal(value: int) -> Seq<char> {
    if value < 0 {
        "-"@ + decimal((-value) as nat)
    } else {
        decimal(value as nat)
    }
}

/// Writes a signed number in decimal form.
pub fn signed_text(value: i64) -> (result: String)
    ensures
        result@ == signed_decimal(value as int),
{
    if value < 0 {
        let magnitude: u64 = if value == i64::MIN {
            9_223_372_036_854_775_808
        } else {
            (-value) as u64
        };
        let digits = decimal_text(magnitude);
        concat("-", digits.as_str())
    } else {
        decimal_text(value as u64)
    }
}

/// What an error says to a reader.
pub open spec fn error_message(error: MemoryErrorView) -> Seq<char>
    decreases error,
{
    match error {
        MemoryErrorView::Directory(message) => "failed to prepare memory directory: "@ + message,
        MemoryErrorView::Database(message) => "memory database error: "@ + message,
        MemoryErrorView::LockPoisoned => "memory database lock was poisoned"@,
        MemoryErrorView::InvalidCount(count) => "memory database returned an invalid count: "@
            + signed_decimal(count as int),
        MemoryErrorView::InvalidTimestamp(text) => {
            "memory database returned an invalid timestamp: "@ + text
        },
        MemoryErrorView::ProjectIdentity(message) => {
            "failed to resolve memory project identity: "@ + message
        },
        MemoryErrorView::AmbiguousProjectScope => {
            "Project scope has ambiguous Native Session selectors"@
        },
        MemoryErrorView::ProjectSessionRequired => {
            "Project scope requires a Native Session selector"@
        },
        MemoryErrorView::ProjectSessionUnavailable => {
            "Project scope requires a Session with a workspace root"@
        },
        MemoryErrorView::Disabled => "memory is disabled"@,
        MemoryErrorView::InvalidRequest(message) => "invalid memory request: "@ + message,
        MemoryErrorView::SecretContentRejected => {
            "memory content was rejected because it may contain a secret"@
        },
        MemoryErrorView::InvalidStoredValue(text) => {
            "memory database contains an invalid value: "@ + text
        },
        MemoryErrorView::ForgetCommitted { projection_error, .. } => {
            "memory forget committed but projection refresh failed: "@ + error_message(
                *projection_error,
            )
        },
    }
}

impl MemoryError {
    /// What the error says to a reader.
    pub fn message(&self) -> (result: String)
        ensures
            result@ == error_message(self@),
        decreases self,
    {
        match self {
            MemoryError::Directory(message) => concat(
                "failed to prepare memory directory: ",
                message.as_str(),
            ),
            MemoryError::Database(message) => concat("memory database error: ", message.as_str()),
            MemoryError::LockPoisoned => "memory database lock was poisoned".to_string(),
            MemoryError::InvalidCount(count) => {
                let number = signed_text(*count);
                concat("memory database returned an invalid count: ", number.as_str())
            },
            MemoryError::InvalidTimestamp(text) => concat(
                "memory database returned an invalid timestamp: ",
                text.as_str(),
            ),
            MemoryError::ProjectIdentity(message) => concat(
                "failed to resolve memory project identity: ",
                message.as_str(),
            ),
            MemoryError::AmbiguousProjectScope => {
                "Project scope has ambiguous Native Session selectors".to_string()
            },
            MemoryError::ProjectSessionRequired => {
                "Project scope requires a Native Session selector".to_string()
            },
            MemoryError::ProjectSessionUnavailable => {
                "Project scope requires a Session with a workspace root".to_string()
            },
            MemoryError::Disabled => "memory is disabled".to_string(),
            MemoryError::InvalidRequest(message) => concat(
                "invalid memory request: ",
                message.as_str(),
            ),
            MemoryError::SecretContentRejected => {
                "memory content was rejected because it may contain a secret".to_string()
            },
            MemoryError::InvalidStoredValue(text) => concat(
                "memory database contains an invalid value: ",
                text.as_str(),
            ),
            MemoryError::ForgetCommitted { projection_error, .. } => {
                let inner = projection_error.message();
                concat(
                    "memory forget committed but projection refresh failed: ",
                    inner.as_str(),
                )
            },
        }
    }
}

/// Takes over a row count of the memory database.
pub fn count_rows(count: i64) -> (result: Result<u64, MemoryError>)
    ensures
        match result {
            Ok(rows) => count >= 0 && rows == count,
            Err(error) => count < 0 && error@ == MemoryErrorView::InvalidCount(count),
        },
{
    if count < 0 {
        Err(MemoryError::InvalidCount(count))
    } else {
        Ok(count as u64)
    }
}

} // verus!
