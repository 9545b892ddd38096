//! The names under which enumerations and instants are stored.

use vstd::prelude::*;

use crate::memory_error::{MemoryError, MemoryErrorView};
use crate::rpc_memory::{MemoryKind, MemoryOrigin, MemoryScope, MemoryState};
use crate::text::same_text;
use crate::time::{parsed_timestamp, Timestamp};

verus! {

/// The stored name of a scope.
pub open spec fn scope_text(scope: MemoryScope) -> Seq<char> {
    match scope {
        MemoryScope::User => "user"@,
        MemoryScope::Project => "project"@,
    }
}

/// The stored name of a kind.
pub open spec fn kind_text(kind: MemoryKind) -> Seq<char> {
    match kind {
        MemoryKind::Preference => "preference"@,
        MemoryKind::Feedback => "feedback"@,
        MemoryKind::Fact => "fact"@,
        MemoryKind::Reference => "reference"@,
    }
}

/// The stored name of a state.
pub open spec fn state_text(state: MemoryState) -> Seq<char> {
    match state {
        MemoryState::Active => "active"@,
        MemoryState::Stale => "stale"@,
        MemoryState::Conflicted => "conflicted"@,
        MemoryState::Retired => "retired"@,
        MemoryState::Restored => "restored"@,
    }
}

/// The stored name of an origin.
pub open spec fn origin_text(origin: MemoryOrigin) -> Seq<char> {
    match origin {
        MemoryOrigin::ExplicitUser => "explicit_user"@,
        MemoryOrigin::InferredSession => "inferred_session"@,
    }
}

pub fn scope_name(scope: MemoryScope) -> (result: &'static str)
    ensures
        result@ == scope_text(scope),
{
    match scope {
        MemoryScope::User => "user",
        MemoryScope::Project => "project",
    }
}

pub fn kind_name(kind: MemoryKind) -> (result: &'static str)
    ensures
        result@ == kind_text(kind),
{
    match kind {
        MemoryKind::Preference => "preference",
        MemoryKind::Feedback => "feedback",
        MemoryKind::Fact => "fact",
        MemoryKind::Reference => "reference",
    }
}

pub fn state_name(state: MemoryState) -> (result: &'static str)
    ensures
        result@ == state_text(state),
{
    match state {
        MemoryState::Active => "active",
        MemoryState::Stale => "stale",
        MemoryState::Conflicted => "conflicted",
        MemoryState::Retired => "retired",
        MemoryState::Restored => "restored",
    }
}

pub fn origin_name(origin: MemoryOrigin) -> (result: &'static str)
    ensures
        result@ == origin_text(origin),
{
    match origin {
        MemoryOrigin::ExplicitUser => "explicit_user",
        MemoryOrigin::InferredSession => "inferred_session",
    }
}

/// The scope that a stored name stands for.
pub open spec fn scope_of(text: Seq<char>) -> Result<MemoryScope, MemoryErrorView> {
    if text == "user"@ {
        Ok(MemoryScope::User)
    } else if text == "project"@ {
        Ok(MemoryScope::Project)
    } else {
        Err(MemoryErrorView::InvalidStoredValue(text))
    }
}

/// The kind that a stored name stands for.
pub open spec fn kind_of(text: Seq<char>) -> Result<MemoryKind, MemoryErrorView> {
    if text == "preference"@ {
        Ok(MemoryKind::Preference)
    } else if text == "feedback"@ {
        Ok(MemoryKind::Feedback)
    } else if text == "fact"@ {
        Ok(MemoryKind::Fact)
    } else if text == "reference"@ {
        Ok(MemoryKind::Reference)
    } else {
        Err(MemoryErrorView::InvalidStoredValue(text))
    }
}

/// The state that a stored name stands for.
pub open spec fn state_of(text: Seq<char>) -> Result<MemoryState, MemoryErrorView> {
    if text == "active"@ {
        Ok(MemoryState::Active)
    } else if text == "stale"@ {
        Ok(MemoryState::Stale)
    } else if text == "conflicted"@ {
        Ok(MemoryState::Conflicted)
    } else if text == "retired"@ {
        Ok(MemoryState::Retired)
    } else if text == "restored"@ {
        Ok(MemoryState::Restored)
    } else {
        Err(MemoryErrorView::InvalidStoredValue(text))
    }
}

/// The origin that a stored name stands for.
pub open spec fn origin_of(text: Seq<char>) -> Result<MemoryOrigin, MemoryErrorView> {
    if text == "explicit_user"@ {
        Ok(MemoryOrigin::ExplicitUser)
    } else if text == "inferred_session"@ {
        Ok(MemoryOrigin::InferredSession)
    } else {
        Err(MemoryErrorView::InvalidStoredValue(text))
    }
}

/// The instant that a stored text stands for.
pub open spec fn timestamp_of(text: Seq<char>) -> Result<Timestamp, MemoryErrorView> {
    match parsed_timestamp(text) {
        Some(timestamp) => Ok(timestamp),
        None => Err(MemoryErrorView::InvalidTimestamp(text)),
    }
}

/// The view of a result whose value is its own view.
pub open spec fn plain_result<T>(result: Result<T, MemoryError>) -> Result<T, MemoryErrorView> {
    match result {
        Ok(value) => Ok(value),
        Err(error) => Err(error@),
    }
}

pub fn parse_scope(value: &str) -> (result: Result<MemoryScope, MemoryError>)
    ensures
        plain_result(result) == scope_of(value@),
{
    if same_text(value, "user") {
        Ok(MemoryScope::User)
    } else if same_text(value, "project") {
        Ok(MemoryScope::Project)
    } else {
        Err(MemoryError::InvalidStoredValue(value.to_string()))
    }
}

pub fn parse_kind(value: &str) -> (result: Result<MemoryKind, MemoryError>)
    ensures
        plain_result(result) == kind_of(value@),
{
    if same_text(value, "preference") {
        Ok(MemoryKind::Preference)
    } else if same_text(value, "feedback") {
        Ok(MemoryKind::Feedback)
    } else if same_text(value, "fact") {
        Ok(MemoryKind::Fact)
    } else if same_text(value, "reference") {
        Ok(MemoryKind::Reference)
    } else {
        Err(MemoryError::InvalidStoredValue(value.to_string()))
    }
}

pub fn parse_state(value: &str) -> (result: Result<MemoryState, MemoryError>)
    ensures
        plain_result(result) == state_of(value@),
{
    if same_text(value, "active") {
        Ok(MemoryState::Active)
    } else if same_text(value, "stale") {
        Ok(MemoryState::Stale)
    } else if same_text(value, "conflicted") {
        Ok(MemoryState::Conflicted)
    } else if same_text(value, "retired") {
        Ok(MemoryState::Retired)
    } else if same_text(value, "restored") {
        Ok(MemoryState::Restored)
    } else {
        Err(MemoryError::InvalidStoredValue(value.to_string()))
    }
}

pub fn parse_origin(value: &str) -> (result: Result<MemoryOrigin, MemoryError>)
    ensures
        plain_result(result) == origin_of(value@),
{
    if same_text(value, "explicit_user") {
        Ok(MemoryOrigin::ExplicitUser)
    } else if same_text(value, "inferred_session") {
        Ok(MemoryOrigin::InferredSession)
    } else {
        Err(MemoryError::InvalidStoredValue(value.to_string()))
    }
}

pub fn parse_timestamp(value: &str) -> (result: Result<Timestamp, MemoryError>)
    ensures
        plain_result(result) == timestamp_of(value@),
{
    match Timestamp::parse(value) {
        Some(timestamp) => Ok(timestamp),
        None => Err(MemoryError::InvalidTimestamp(value.to_string())),
    }
}

/// The literal names all differ, so each reads back as what it was written for.
pub proof fn law_stored_names_read_back(
    scope: MemoryScope,
    kind: MemoryKind,
    state: MemoryState,
    origin: MemoryOrigin,
)
    ensures
        scope_of(scope_text(scope)) == Ok::<MemoryScope, MemoryErrorView>(scope),
        kind_of(kind_text(kind)) == Ok::<MemoryKind, MemoryErrorView>(kind),
        state_of(state_text(state)) == Ok::<MemoryState, MemoryErrorView>(state),
        origin_of(origin_text(origin)) == Ok::<MemoryOrigin, MemoryErrorView>(origin),
{
    reveal_strlit("user");
    reveal_strlit("project");
    reveal_strlit("preference");
    reveal_strlit("feedback");
    reveal_strlit("fact");
    reveal_strlit("reference");
    reveal_strlit("active");
    reveal_strlit("stale");
    reveal_strlit("conflicted");
    reveal_strlit("retired");
    reveal_strlit("restored");
    reveal_strlit("explicit_user");
    reveal_strlit("inferred_session");
    assert("user"@.len() == 4);
    assert("project"@.len() == 7);
    assert("preference"@.len() == 10);
    assert("feedback"@.len() == 8);
    assert("fact"@.len() == 4);
    assert("reference"@.len() == 9);
    assert("active"@.len() == 6);
    assert("stale"@.len() == 5);
    assert("conflicted"@.len() == 10);
    assert("retired"@.len() == 7);
    assert("restored"@.len() == 8);
    assert("explicit_user"@.len() == 13);
    assert("inferred_session"@.len() == 16);
}

/// A stored name that reads as something is the name of that thing.
pub proof fn law_stored_names_are_exact(text: Seq<char>)
    ensures
        scope_of(text) matches Ok(scope) ==> text == scope_text(scope),
        kind_of(text) matches Ok(kind) ==> text == kind_text(kind),
        state_of(text) matches Ok(state) ==> text == state_text(state),
        origin_of(text) matches Ok(origin) ==> text == origin_text(origin),
{
}

} // verus!
