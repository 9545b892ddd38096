//! Laws of the tools: what a call of a model becomes, who may make it, and how a tool is
//! shown.

use vstd::prelude::*;

use crate::command_types::{MemoryForgetSelectorView, PreparedMemoryForgetRequestView};
use crate::core_ids::TurnId;
use crate::current_user_item::{current_message, message_is, CurrentUserItemError, InlineTurnView};
use crate::forget::{forget_step, prepared_forget};
use crate::forget_authorization::{agent_step, ForgetStateView, MemoryToolInvocationView};
use crate::forget_execution::MemoryForgetExecutionErrorView;
use crate::ids::uuid_text;
use crate::memory_error::{error_message, MemoryErrorView};
use crate::memory_tool_specs::{
    forget_call, forget_tool, remember_call, remember_tool, search_call, search_tool,
    ForgetCallView, RememberCallView, SearchCallView, ToolAgentScope, ToolContextView,
    ToolExecutionMode, ToolOutputMode, ToolPreparationFeedback, ToolSpecView,
};
use crate::memory_tools::{
    agent_forget_step, agent_lease_step, forget_request_of, forget_told, remember_request_of,
    search_request_of, tool_error_of, AgentForgetView, ToolFactsView,
};
use crate::rows::{
    first_match, lemma_filter_holds, lemma_first_match, lemma_is_first_match, lemma_no_match,
};
use crate::rpc_memory::{
    MemoryForgetParamsView, MemoryForgetResultView, MemoryKind, MemoryRememberParamsView,
    MemoryScope, MemorySearchParamsView,
};
use crate::runtime::single_source;
use crate::sandbox_overlay::{
    spawn_overlay, SandboxNetworkPermission, SandboxPermissionOverlayView, SpawnNetworkPermission,
};
use crate::tables::MemoryTablesView;
use crate::text::{decimal, trimmed};
use crate::time::Timestamp;
use crate::tool_display::{
    command_display, result_actions, start_item, ExecCommandSource, ToolStartItemView,
};
use crate::tool_error::{tool_error_message, ToolCallErrorView};
use crate::tool_input::{
    as_text, field_named, value_of, value_of_either, InputValueView, ToolInputView,
};
use crate::tool_registry::is_open_to_subagents;

verus! {

// ---------------------------------------------------------------------------
// What an input holds.
// ---------------------------------------------------------------------------
/// Whether an input has no field with a name.
pub open spec fn lacks(input: ToolInputView, key: Seq<char>) -> bool {
    forall|i: int| 0 <= i < input.fields.len() ==> (#[trigger] input.fields[i]).key != key
}

/// Whether the first field of an input with a name has a value.
pub open spec fn holds(input: ToolInputView, key: Seq<char>, value: InputValueView) -> bool {
    exists|i: int|
        0 <= i < input.fields.len() && (#[trigger] input.fields[i]).key == key
            && input.fields[i].value == value && forall|j: int|
            0 <= j < i ==> (#[trigger] input.fields[j]).key != key
}

/// Whether an input says a text under a name.
pub open spec fn says(input: ToolInputView, key: Seq<char>, text: Seq<char>) -> bool {
    holds(input, key, InputValueView::Text(text))
}

/// Whether an input says nothing under a name: it lacks the field, or the field is no
/// text.
pub open spec fn is_silent(input: ToolInputView, key: Seq<char>) -> bool {
    forall|text: Seq<char>| !#[trigger] says(input, key, text)
}

/// Whether an input says a text under either of two names, of which the first counts.
pub open spec fn says_either(
    input: ToolInputView,
    key: Seq<char>,
    other: Seq<char>,
    text: Seq<char>,
) -> bool {
    says(input, key, text) || (lacks(input, key) && says(input, other, text))
}

/// An input holds under a name what its first field with the name says, and nothing
/// where it lacks the field.
pub proof fn law_input_holds_its_first_fields(
    input: ToolInputView,
    key: Seq<char>,
    value: InputValueView,
)
    ensures
        holds(input, key, value) <==> value_of(input, key) == Some(value),
        lacks(input, key) <==> value_of(input, key) is None,
{
    let accepts = field_named(key);
    lemma_first_match(input.fields, accepts);
    if holds(input, key, value) {
        let i = choose|i: int|
            0 <= i < input.fields.len() && (#[trigger] input.fields[i]).key == key
                && input.fields[i].value == value && forall|j: int|
                0 <= j < i ==> (#[trigger] input.fields[j]).key != key;
        lemma_is_first_match(input.fields, accepts, i);
    }
    if lacks(input, key) {
        lemma_no_match(input.fields, accepts);
    }
    if let Some(i) = first_match(input.fields, accepts) {
        assert(input.fields[i].key == key);
        assert forall|j: int| 0 <= j < i implies (#[trigger] input.fields[j]).key != key by {
            assert(!accepts(input.fields[j]));
        }
    } else {
        assert forall|i: int| 0 <= i < input.fields.len() implies (
        #[trigger] input.fields[i]).key != key by {
            assert(!accepts(input.fields[i]));
        }
    }
}

proof fn lemma_inputs(input: ToolInputView)
    ensures
        forall|key: Seq<char>, value: InputValueView| #[trigger]
            holds(input, key, value) <==> value_of(input, key) == Some(value),
        forall|key: Seq<char>| #[trigger] lacks(input, key) <==> value_of(input, key) is None,
        forall|key: Seq<char>| #[trigger]
            is_silent(input, key) <==> !(value_of(input, key) matches Some(
                InputValueView::Text(_),
            )),
{
    assert forall|key: Seq<char>, value: InputValueView| #[trigger]
        holds(input, key, value) <==> value_of(input, key) == Some(value) by {
        law_input_holds_its_first_fields(input, key, value);
    }
    assert forall|key: Seq<char>| #[trigger] lacks(input, key) <==> value_of(
        input,
        key,
    ) is None by {
        law_input_holds_its_first_fields(input, key, InputValueView::Other);
    }
    assert forall|key: Seq<char>| #[trigger]
        is_silent(input, key) <==> !(value_of(input, key) matches Some(
            InputValueView::Text(_),
        )) by {
        if let Some(InputValueView::Text(text)) = value_of(input, key) {
            assert(says(input, key, text));
        }
    }
}

// ---------------------------------------------------------------------------
// Calls.
// ---------------------------------------------------------------------------
/// Whether an input names another message than the current one.
pub open spec fn names_other_source(input: ToolInputView, current: Seq<char>) -> bool {
    exists|named: Seq<char>| #[trigger]
        says_either(input, "source_user_item_id"@, "sourceUserItemId"@, named) && named != current
}

/// Whether an input asks for a scope: the one that it says, or the user's.
pub open spec fn asks_scope(input: ToolInputView, scope: MemoryScope) -> bool {
    match scope {
        MemoryScope::User => is_silent(input, "scope"@) || says(input, "scope"@, "user"@),
        MemoryScope::Project => says(input, "scope"@, "project"@),
    }
}

/// Whether an input asks for a kind: the one that it says, or none.
pub open spec fn asks_kind(input: ToolInputView, kind: Option<MemoryKind>) -> bool {
    match kind {
        None => is_silent(input, "kind"@),
        Some(MemoryKind::Preference) => says(input, "kind"@, "preference"@),
        Some(MemoryKind::Feedback) => says(input, "kind"@, "feedback"@),
        Some(MemoryKind::Fact) => says(input, "kind"@, "fact"@),
        Some(MemoryKind::Reference) => says(input, "kind"@, "reference"@),
    }
}

/// A call to remember is made by the root agent, in a turn with a current message and
/// with a coordinator, and takes the text, the scope and the kind that the input says.
/// Its source is the current message, which the input may name but not replace. Where
/// any of that is missing the call is refused.
pub proof fn law_remembering_takes_what_the_input_says(
    ctx: ToolContextView,
    input: ToolInputView,
    text: Seq<char>,
    scope: MemoryScope,
    kind: Option<MemoryKind>,
    current: Seq<char>,
    turn_id: TurnId,
)
    ensures
        remember_call(ctx, input) matches Ok(call) ==> {
            &&& ctx.agent_scope == ToolAgentScope::Root
            &&& ctx.has_coordinator
            &&& call.session_id == ctx.session_id
            &&& ctx.turn_id == Some(call.turn_id)
            &&& ctx.current_user_item_id is Some
            &&& call.params.source_user_item_id == ctx.current_user_item_id
            &&& says(input, "text"@, call.params.text)
            &&& asks_scope(input, call.params.scope)
            &&& asks_kind(input, call.params.kind)
            &&& !names_other_source(input, ctx.current_user_item_id->Some_0)
        },
        ctx.agent_scope == ToolAgentScope::Root && ctx.has_coordinator && ctx.turn_id == Some(
            turn_id,
        ) && ctx.current_user_item_id == Some(current) && !names_other_source(input, current)
            && says(input, "text"@, text) && asks_scope(input, scope) && asks_kind(input, kind)
            ==> remember_call(ctx, input) == Ok::<RememberCallView, ToolCallErrorView>(
            RememberCallView {
                session_id: ctx.session_id,
                turn_id,
                params: MemoryRememberParamsView {
                    text,
                    scope,
                    kind,
                    source_user_item_id: Some(current),
                },
            },
        ),
{
    lemma_inputs(input);
    lemma_words_differ();
    lemma_source(input);
}

proof fn lemma_words_differ()
    ensures
        "user"@ != "project"@,
        "preference"@ != "feedback"@,
        "preference"@ != "fact"@,
        "preference"@ != "reference"@,
        "feedback"@ != "fact"@,
        "feedback"@ != "reference"@,
        "fact"@ != "reference"@,
{
    reveal_strlit("user");
    reveal_strlit("project");
    reveal_strlit("preference");
    reveal_strlit("feedback");
    reveal_strlit("fact");
    reveal_strlit("reference");
    assert("user"@.len() == 4 && "project"@.len() == 7);
    assert("preference"@.len() == 10 && "feedback"@.len() == 8 && "fact"@.len() == 4
        && "reference"@.len() == 9);
}

proof fn lemma_source(input: ToolInputView)
    ensures
        ({
            let named = as_text(
                value_of_either(
                    input,
                    "source_user_item_id"@,
                    "sourceUserItemId"@,
                ),
            );
            &&& named is None ==> forall|current: Seq<char>|
                !#[trigger] names_other_source(input, current)
            &&& named matches Some(named) ==> forall|current: Seq<char>| #[trigger]
                names_other_source(input, current) <==> named != current
        }),
{
    lemma_inputs(input);
    let named = as_text(
        value_of_either(input, "source_user_item_id"@, "sourceUserItemId"@),
    );
    if let Some(text) = named {
        assert(says_either(input, "source_user_item_id"@, "sourceUserItemId"@, text));
    }
}

/// A call to forget is made by the root agent in the same way, names its entry by ID,
/// and says neither a text nor a scope.
pub proof fn law_forgetting_takes_a_stable_id(
    ctx: ToolContextView,
    input: ToolInputView,
    entry_id: Seq<char>,
    current: Seq<char>,
    turn_id: TurnId,
)
    ensures
        forget_call(ctx, input) matches Ok(call) ==> {
            &&& ctx.agent_scope == ToolAgentScope::Root
            &&& ctx.has_coordinator
            &&& call.session_id == ctx.session_id
            &&& ctx.turn_id == Some(call.turn_id)
            &&& ctx.current_user_item_id is Some
            &&& call.params.source_user_item_id == ctx.current_user_item_id
            &&& call.params.entry_id matches Some(id) && says_either(
                input,
                "entry_id"@,
                "entryId"@,
                id,
            )
            &&& call.params.text is None
            &&& lacks(input, "text"@)
            &&& lacks(input, "scope"@)
            &&& !names_other_source(input, ctx.current_user_item_id->Some_0)
        },
        ctx.agent_scope == ToolAgentScope::Root && ctx.has_coordinator && ctx.turn_id == Some(
            turn_id,
        ) && ctx.current_user_item_id == Some(current) && !names_other_source(input, current)
            && says_either(input, "entry_id"@, "entryId"@, entry_id) && lacks(input, "text"@)
            && lacks(input, "scope"@) ==> forget_call(ctx, input) == Ok::<
            ForgetCallView,
            ToolCallErrorView,
        >(
            ForgetCallView {
                session_id: ctx.session_id,
                turn_id,
                params: MemoryForgetParamsView {
                    entry_id: Some(entry_id),
                    text: None,
                    scope: MemoryScope::User,
                    source_user_item_id: Some(current),
                },
            },
        ),
{
    lemma_inputs(input);
    lemma_source(input);
}

/// A call to search is made by the root agent for a message of the user, and searches
/// for the query without the whitespace round it, which must leave something.
pub proof fn law_searching_takes_a_query(
    ctx: ToolContextView,
    params: Result<MemorySearchParamsView, Seq<char>>,
)
    ensures
        search_call(ctx, params) is Ok <==> ctx.agent_scope == ToolAgentScope::Root
            && ctx.has_coordinator && ctx.turn_id is Some && ctx.current_user_item_id is Some
            && params is Ok && trimmed(params->Ok_0.query).len() > 0,
        search_call(ctx, params) matches Ok(call) ==> {
            &&& call.invocation.session_id == ctx.session_id
            &&& Some(call.invocation.turn_id) == ctx.turn_id
            &&& Some(call.invocation.user_item_id) == ctx.current_user_item_id
            &&& call.params.query == trimmed(params->Ok_0.query)
            &&& call.params.scope == params->Ok_0.scope
            &&& call.params.kind == params->Ok_0.kind
            &&& call.params.state == params->Ok_0.state
        },
        ctx.agent_scope == ToolAgentScope::Subagent ==> search_call(ctx, params) == Err::<
            SearchCallView,
            ToolCallErrorView,
        >(ToolCallErrorView::Denied("sub-agents cannot read or mutate user memory"@)),
{
}

// ---------------------------------------------------------------------------
// Requests.
// ---------------------------------------------------------------------------
/// Whether a message is the one that a running turn answers: an item of the turn that
/// the user wrote, with the ID.
pub open spec fn is_answered(
    running: Option<InlineTurnView>,
    turn_id: TurnId,
    user_item_id: Seq<char>,
    text: Seq<char>,
) -> bool {
    running matches Some(turn) && turn.turn_id == turn_id && exists|i: int|
        0 <= i < turn.items.len() && (#[trigger] turn.items[i]).turn_id == turn_id
            && uuid_text(turn.items[i].item_id.value) == user_item_id
            && turn.items[i].user_message == Some(text)
}

/// The current message of a turn is one that the user wrote in that turn, under the ID
/// that was given; there is one wherever such an item is.
pub proof fn law_current_message_is_of_the_turn(
    running: Option<InlineTurnView>,
    turn_id: TurnId,
    user_item_id: Seq<char>,
)
    ensures
        current_message(running, turn_id, user_item_id) matches Ok(text) ==> is_answered(
            running,
            turn_id,
            user_item_id,
            text,
        ),
        current_message(running, turn_id, user_item_id) is Err ==> forall|text: Seq<char>|
            !#[trigger] is_answered(running, turn_id, user_item_id, text),
        running is None ==> current_message(running, turn_id, user_item_id) == Err::<
            Seq<char>,
            CurrentUserItemError,
        >(CurrentUserItemError::ActiveTurnUnavailable),
        running matches Some(turn) ==> turn.turn_id != turn_id ==> current_message(
            running,
            turn_id,
            user_item_id,
        ) == Err::<Seq<char>, CurrentUserItemError>(
            CurrentUserItemError::TurnMismatch,
        ),
{
    if let Some(turn) = running {
        let accepts = message_is(turn_id, user_item_id);
        lemma_first_match(turn.items, accepts);
        match first_match(turn.items, accepts) {
            Some(i) => {
                assert(accepts(turn.items[i]));
                assert(turn.items[i].turn_id == turn_id);
            },
            None => {
                assert forall|i: int| 0 <= i < turn.items.len() implies !(
                (#[trigger] turn.items[i]).turn_id == turn_id && uuid_text(
                    turn.items[i].item_id.value,
                ) == user_item_id && turn.items[i].user_message is Some) by {
                    assert(!accepts(turn.items[i]));
                }
            },
        }
    }
}

/// A request to remember takes what the call says, and its source is the message, the
/// session and the turn of the call, in the workspace of the session.
pub proof fn law_remember_request_is_the_calls(
    invocation: MemoryToolInvocationView,
    params: MemoryRememberParamsView,
    facts: ToolFactsView,
)
    ensures
        remember_request_of(invocation, params, facts) is Ok <==> {
            &&& params.source_user_item_id == Some(invocation.user_item_id)
            &&& exists|text: Seq<char>| #[trigger]
                is_answered(facts.running, invocation.turn_id, invocation.user_item_id, text)
            &&& facts.memory_available
            &&& facts.session matches Some(session) && session.parent_session_id is None
        },
        remember_request_of(invocation, params, facts) matches Ok(request) ==> {
            &&& request.text == params.text
            &&& request.scope == params.scope
            &&& request.kind == params.kind
            &&& request.source.session_id == invocation.session_id
            &&& request.source.turn_id == Some(invocation.turn_id)
            &&& request.source.user_item_id == Some(invocation.user_item_id)
            &&& request.source.workspace_root == facts.session->Some_0.workspace_root
        },
{
    law_current_message_is_of_the_turn(
        facts.running,
        invocation.turn_id,
        invocation.user_item_id,
    );
    if let Ok(text) = current_message(
        facts.running,
        invocation.turn_id,
        invocation.user_item_id,
    ) {
        assert(is_answered(facts.running, invocation.turn_id, invocation.user_item_id, text));
    }
}

/// A request to forget is about the entry that the call names by ID, and goes by the
/// text of the message; it has the source of a request to remember.
pub proof fn law_forget_request_is_the_calls(
    invocation: MemoryToolInvocationView,
    params: MemoryForgetParamsView,
    facts: ToolFactsView,
)
    ensures
        forget_request_of(invocation, params, facts) is Ok <==> {
            &&& params.source_user_item_id == Some(invocation.user_item_id)
            &&& params.entry_id is Some && params.text is None
            &&& exists|text: Seq<char>| #[trigger]
                is_answered(facts.running, invocation.turn_id, invocation.user_item_id, text)
            &&& facts.memory_available
            &&& facts.session matches Some(session) && session.parent_session_id is None
        },
        forget_request_of(invocation, params, facts) matches Ok(call) ==> {
            &&& Some(call.entry_id) == params.entry_id
            &&& is_answered(
                facts.running,
                invocation.turn_id,
                invocation.user_item_id,
                call.user_text,
            )
            &&& call.request.selector == MemoryForgetSelectorView::EntryId(call.entry_id)
            &&& call.request.scope == params.scope
            &&& call.request.source.session_id == invocation.session_id
            &&& call.request.source.turn_id == Some(invocation.turn_id)
            &&& call.request.source.user_item_id == Some(invocation.user_item_id)
            &&& call.request.source.workspace_root == facts.session->Some_0.workspace_root
        },
{
    law_current_message_is_of_the_turn(
        facts.running,
        invocation.turn_id,
        invocation.user_item_id,
    );
    if let Ok(text) = current_message(
        facts.running,
        invocation.turn_id,
        invocation.user_item_id,
    ) {
        assert(is_answered(facts.running, invocation.turn_id, invocation.user_item_id, text));
    }
}

/// A search is of the user's memory unless it asks for the project's, and only then is
/// bound to the workspace; it may come from any session.
pub proof fn law_search_request_is_the_calls(
    invocation: MemoryToolInvocationView,
    params: MemorySearchParamsView,
    facts: ToolFactsView,
)
    ensures
        search_request_of(invocation, params, facts) is Ok <==> {
            &&& exists|text: Seq<char>| #[trigger]
                is_answered(facts.running, invocation.turn_id, invocation.user_item_id, text)
            &&& facts.memory_available
            &&& facts.session is Some
        },
        search_request_of(invocation, params, facts) matches Ok(request) ==> {
            &&& request.query == params.query
            &&& request.kind == params.kind
            &&& request.state == params.state
            &&& request.scope == MemoryScope::Project <==> params.scope == Some(
                MemoryScope::Project,
            )
            &&& request.workspace_root == if request.scope == MemoryScope::Project {
                Some(facts.session->Some_0.workspace_root)
            } else {
                None
            }
        },
{
    law_current_message_is_of_the_turn(
        facts.running,
        invocation.turn_id,
        invocation.user_item_id,
    );
    if let Ok(text) = current_message(
        facts.running,
        invocation.turn_id,
        invocation.user_item_id,
    ) {
        assert(is_answered(facts.running, invocation.turn_id, invocation.user_item_id, text));
    }
}

// ---------------------------------------------------------------------------
// Failures.
// ---------------------------------------------------------------------------
/// A model learns what it can mend, that it was denied, or that memory is off; all else
/// is unavailable to it, whatever it says inside.
pub proof fn law_failures_are_told_by_kind(error: MemoryErrorView)
    ensures
        error matches MemoryErrorView::InvalidRequest(message) ==> tool_error_of(error)
            == ToolCallErrorView::InvalidInput(message),
        error is SecretContentRejected ==> tool_error_of(error) == ToolCallErrorView::Denied(
            "memory content was rejected for safety"@,
        ),
        error is Disabled ==> tool_error_of(error) == ToolCallErrorView::NeedsConfiguration(
            "memory is disabled"@,
        ),
        error is AmbiguousProjectScope ==> tool_error_of(error) == ToolCallErrorView::InvalidInput(
            "memory operation has ambiguous Native Session selectors"@,
        ),
        error is ProjectSessionRequired ==> tool_error_of(error)
            == ToolCallErrorView::InvalidInput(
            "Project memory requires a session-bound connection"@,
        ),
        error is ProjectSessionUnavailable ==> tool_error_of(error)
            == ToolCallErrorView::InvalidInput(
            "Project memory requires a session with a workspace root"@,
        ),
        error is Directory || error is Database || error is LockPoisoned || error is InvalidCount
            || error is InvalidTimestamp || error is ProjectIdentity || error
            is InvalidStoredValue || error is ForgetCommitted ==> tool_error_of(error)
            == ToolCallErrorView::InternalError("memory operation is unavailable"@),
        forget_told(Err(MemoryForgetExecutionErrorView::Storage(error))) == Err::<
            MemoryForgetResultView,
            ToolCallErrorView,
        >(tool_error_of(error)),
        forget_told(Err(MemoryForgetExecutionErrorView::Projection(error))) == Err::<
            MemoryForgetResultView,
            ToolCallErrorView,
        >(
            ToolCallErrorView::InternalError(
                "memory forget committed but projection refresh failed: "@ + error_message(error),
            ),
        ),
{
}

/// What a failure of a tool says begins with its kind.
pub proof fn law_tool_failures_say_their_kind(message: Seq<char>)
    ensures
        tool_error_message(ToolCallErrorView::InvalidInput(message)) == "invalid input: "@
            + message,
        tool_error_message(ToolCallErrorView::InternalError(message)) == "internal error: "@
            + message,
        tool_error_message(ToolCallErrorView::Denied(message)) == "denied: "@ + message,
        tool_error_message(ToolCallErrorView::NeedsConfiguration(message))
            == "needs configuration: "@ + message,
{
}

/// What a failure of the store says.
pub proof fn law_store_failures_say_what_failed(error: MemoryErrorView)
    ensures
        error matches MemoryErrorView::Directory(message) ==> error_message(error)
            == "failed to prepare memory directory: "@ + message,
        error matches MemoryErrorView::Database(message) ==> error_message(error)
            == "memory database error: "@ + message,
        error is LockPoisoned ==> error_message(error) == "memory database lock was poisoned"@,
        error matches MemoryErrorView::InvalidTimestamp(text) ==> error_message(error)
            == "memory database returned an invalid timestamp: "@ + text,
        error matches MemoryErrorView::ProjectIdentity(message) ==> error_message(error)
            == "failed to resolve memory project identity: "@ + message,
        error is AmbiguousProjectScope ==> error_message(error)
            == "Project scope has ambiguous Native Session selectors"@,
        error is ProjectSessionRequired ==> error_message(error)
            == "Project scope requires a Native Session selector"@,
        error is ProjectSessionUnavailable ==> error_message(error)
            == "Project scope requires a Session with a workspace root"@,
        error is Disabled ==> error_message(error) == "memory is disabled"@,
        error matches MemoryErrorView::InvalidRequest(message) ==> error_message(error)
            == "invalid memory request: "@ + message,
        error is SecretContentRejected ==> error_message(error)
            == "memory content was rejected because it may contain a secret"@,
        error matches MemoryErrorView::InvalidStoredValue(text) ==> error_message(error)
            == "memory database contains an invalid value: "@ + text,
        error matches MemoryErrorView::ForgetCommitted { projection_error, .. } ==> error_message(
            error,
        ) == "memory forget committed but projection refresh failed: "@ + error_message(
            *projection_error,
        ),
        error matches MemoryErrorView::InvalidCount(count) ==> {
            &&& count >= 0 ==> error_message(error)
                == "memory database returned an invalid count: "@ + decimal(
                count as nat,
            )
            &&& count < 0 ==> error_message(error)
                == "memory database returned an invalid count: "@ + ("-"@ + decimal(
                (-count) as nat,
            ))
        },
{
}

// ---------------------------------------------------------------------------
// Tools.
// ---------------------------------------------------------------------------
/// Whether a tool is one that agents are coordinated with, or that memory is used with.
pub open spec fn is_for_the_root(name: Seq<char>) -> bool {
    name == "spawn_agent"@ || name == "send_message"@ || name == "await_task"@ || name
        == "list_tasks"@ || name == "cancel_task"@ || name == "wait_agent"@ || name
        == "list_agents"@ || name == "close_agent"@ || name == "memory_remember"@ || name
        == "memory_forget"@ || name == "memory_search"@
}

/// A subagent is offered every tool but those for the root agent.
pub proof fn law_subagents_are_offered_the_rest(tools: Seq<ToolSpecView>, tool: ToolSpecView)
    ensures
        tools.filter(is_open_to_subagents()).contains(tool) <==> tools.contains(tool)
            && !is_for_the_root(tool.name),
{
    lemma_filter_holds(tools, is_open_to_subagents());
    assert(is_open_to_subagents()(tool) == !is_for_the_root(tool.name));
}

/// The memory tools by their names: two that change memory and one that reads it, each
/// with the inputs that it takes and no others.
pub proof fn law_memory_tools()
    ensures
        remember_tool().name == "memory_remember"@,
        remember_tool().execution_mode == ToolExecutionMode::Mutating,
        remember_tool().input_schema.required == Some(seq!["text"@]),
        remember_tool().input_schema.additional_properties == Some(false),
        remember_tool().input_schema.properties.len() == 4,
        remember_tool().input_schema.properties[0].name == "kind"@,
        remember_tool().input_schema.properties[1].name == "scope"@,
        remember_tool().input_schema.properties[2].name == "source_user_item_id"@,
        remember_tool().input_schema.properties[3].name == "text"@,
        forget_tool().name == "memory_forget"@,
        forget_tool().execution_mode == ToolExecutionMode::Mutating,
        forget_tool().input_schema.required == Some(Seq::<Seq<char>>::empty()),
        forget_tool().input_schema.additional_properties == Some(false),
        forget_tool().input_schema.properties.len() == 2,
        forget_tool().input_schema.properties[0].name == "entry_id"@,
        forget_tool().input_schema.properties[1].name == "source_user_item_id"@,
        search_tool().name == "memory_search"@,
        search_tool().execution_mode == ToolExecutionMode::ReadOnly,
        search_tool().input_schema.required == Some(seq!["query"@]),
        search_tool().input_schema.additional_properties == Some(false),
        search_tool().input_schema.properties.len() == 4,
        search_tool().input_schema.properties[0].name == "kind"@,
        search_tool().input_schema.properties[1].name == "query"@,
        search_tool().input_schema.properties[2].name == "scope"@,
        search_tool().input_schema.properties[3].name == "state"@,
        remember_tool().output_mode == ToolOutputMode::StructuredJson,
        forget_tool().output_mode == ToolOutputMode::StructuredJson,
        search_tool().output_mode == ToolOutputMode::StructuredJson,
        !remember_tool().supports_parallel,
        !forget_tool().supports_parallel,
        !search_tool().supports_parallel,
{
}

/// Permissions are handed on as they are: the network stays off where it is not enabled,
/// and every path is a path to read, or to write, as it was.
pub proof fn law_permissions_are_handed_on(overlay: SandboxPermissionOverlayView)
    ensures
        spawn_overlay(overlay).network == SpawnNetworkPermission::Enabled <==> overlay.network
            == SandboxNetworkPermission::Enabled,
        spawn_overlay(overlay).read_paths == overlay.read_paths,
        spawn_overlay(overlay).write_paths == overlay.write_paths,
{
}

// ---------------------------------------------------------------------------
// How a tool is shown.
// ---------------------------------------------------------------------------
/// A tool that is only told of while it runs is shown as a call. Else a tool that writes
/// files is shown as a change of files, then one that runs a command as a command, then
/// that of the plan as a plan, and any other as a call.
pub proof fn law_tools_are_shown_by_what_they_do(
    tool_call_id: Seq<char>,
    tool_name: Seq<char>,
    command: Seq<char>,
    input: Seq<char>,
    runs_command: bool,
    feedback: ToolPreparationFeedback,
    actions: Seq<Seq<char>>,
)
    ensures
        ({
            let item = start_item(
                tool_call_id,
                tool_name,
                command,
                input,
                runs_command,
                feedback,
                actions,
            );
            let live = feedback == ToolPreparationFeedback::LiveOnly;
            let writes = tool_name == "apply_patch"@ || tool_name == "write"@ || tool_name
                == "edit"@;
            let plans = tool_name == "update_plan"@;
            &&& item is FileChange <==> !live && writes
            &&& item is CommandExecution <==> !live && !writes && runs_command
            &&& item is Plan <==> !live && !writes && !runs_command && plans
            &&& item matches ToolStartItemView::ToolCall {
                tool_call_id: id,
                tool_name: name,
                parameters,
                command_actions,
            } ==> id == tool_call_id && name == tool_name && parameters == input
                && command_actions == actions
            &&& item matches ToolStartItemView::FileChange {
                tool_call_id: id,
                tool_name: name,
                input: told,
                changes,
                is_error,
            } ==> id == tool_call_id && name == tool_name && told == input && changes.len() == 0
                && !is_error
            &&& item matches ToolStartItemView::CommandExecution {
                tool_call_id: id,
                tool_name: name,
                command: run,
                input: told,
                source,
                command_actions,
                output,
                is_error,
            } ==> id == tool_call_id && name == tool_name && run == command && told == input
                && source == ExecCommandSource::Agent && command_actions == actions && output
                is None && !is_error
            &&& item matches ToolStartItemView::Plan { title, text } ==> title == "Plan"@
                && text.len() == 0
        }),
{
}

/// The actions of a call are those of its input; a read that has none is told by its
/// summary.
pub proof fn law_reads_are_told_by_their_summary(
    tool_name: Seq<char>,
    actions: Seq<Seq<char>>,
    summary: Option<Seq<char>>,
)
    ensures
        actions.len() > 0 || tool_name != "read"@ || summary is None ==> result_actions(
            tool_name,
            actions,
            summary,
        ) == actions,
        actions.len() == 0 && tool_name == "read"@ ==> (summary matches Some(summary)
            ==> result_actions(tool_name, actions, Some(summary)) == seq![summary]),
{
}

proof fn lemma_shown_names_differ()
    ensures
        "exec_command"@ != "write_stdin"@,
        "exec_command"@ != "read"@,
        "exec_command"@ != "find"@,
        "exec_command"@ != "glob"@,
        "exec_command"@ != "grep"@,
        "exec_command"@ != "code_search"@,
        "exec_command"@ != "mcp__code_search__code_search"@,
        "write_stdin"@ != "read"@,
        "write_stdin"@ != "find"@,
        "write_stdin"@ != "glob"@,
        "write_stdin"@ != "grep"@,
        "write_stdin"@ != "code_search"@,
        "write_stdin"@ != "mcp__code_search__code_search"@,
        "read"@ != "find"@,
        "read"@ != "glob"@,
        "read"@ != "grep"@,
        "read"@ != "code_search"@,
        "read"@ != "mcp__code_search__code_search"@,
        "find"@ != "code_search"@,
        "glob"@ != "code_search"@,
        "grep"@ != "code_search"@,
        "find"@ != "mcp__code_search__code_search"@,
        "glob"@ != "mcp__code_search__code_search"@,
        "grep"@ != "mcp__code_search__code_search"@,
{
    reveal_strlit("exec_command");
    reveal_strlit("write_stdin");
    reveal_strlit("read");
    reveal_strlit("find");
    reveal_strlit("glob");
    reveal_strlit("grep");
    reveal_strlit("code_search");
    reveal_strlit("mcp__code_search__code_search");
    assert("exec_command"@.len() == 12 && "write_stdin"@.len() == 11 && "read"@.len() == 4
        && "find"@.len() == 4 && "glob"@.len() == 4 && "grep"@.len() == 4 && "code_search"@.len()
        == 11 && "mcp__code_search__code_search"@.len() == 29);
    assert("write_stdin"@[0] != "code_search"@[0]);
    assert("read"@[0] != "find"@[0]);
    assert("read"@[0] != "glob"@[0]);
    assert("read"@[0] != "grep"@[0]);
}

/// A command is shown as it was typed, whichever of its two names it goes by; a write to
/// a process as such, or as a poll where nothing is written, with the number of the
/// process; a read by its path.
pub proof fn law_commands_are_shown(input: ToolInputView, text: Seq<char>, number: i128)
    ensures
        says_either(input, "cmd"@, "command"@, text) ==> command_display("exec_command"@, input)
            == text,
        lacks(input, "cmd"@) && lacks(input, "command"@) ==> command_display(
            "exec_command"@,
            input,
        ).len() == 0,
        says_either(input, "filePath"@, "path"@, text) ==> command_display("read"@, input)
            == "read "@ + text,
        0 <= number <= i64::MAX && (holds(
            input,
            "process_id"@,
            InputValueView::Integer(number),
        ) || (lacks(input, "process_id"@) && holds(
            input,
            "session_id"@,
            InputValueView::Integer(number),
        ))) ==> {
            &&& says(input, "chars"@, text) && text.len() > 0 ==> command_display(
                "write_stdin"@,
                input,
            ) == "write_stdin process "@ + decimal(number as nat)
            &&& lacks(input, "chars"@) || says(input, "chars"@, Seq::empty())
                ==> command_display("write_stdin"@, input) == "poll process "@
                + decimal(number as nat)
        },
        lacks(input, "process_id"@) && lacks(input, "session_id"@) && lacks(input, "chars"@)
            ==> command_display("write_stdin"@, input) == "poll process "@ + "?"@,
{
    lemma_inputs(input);
    lemma_shown_names_differ();
}

/// A search by a pattern is shown with its name, its pattern and the path that it
/// searches, if it says one.
pub proof fn law_pattern_searches_are_shown(
    name: Seq<char>,
    input: ToolInputView,
    pattern: Seq<char>,
    path: Seq<char>,
)
    requires
        name == "find"@ || name == "glob"@ || name == "grep"@,
        says(input, "pattern"@, pattern),
    ensures
        says(input, "path"@, path) && path.len() > 0 ==> command_display(name, input) == name
            + " "@ + pattern + " in "@ + path,
        lacks(input, "path"@) || says(input, "path"@, Seq::empty()) ==> command_display(
            name,
            input,
        ) == name + " "@ + pattern,
{
    lemma_inputs(input);
    lemma_shown_names_differ();
}

/// A search of code is shown with its query and the path that it searches, as far as it
/// says them, and one for what is related with the file, and the line, that it starts
/// from.
pub proof fn law_code_searches_are_shown(
    name: Seq<char>,
    input: ToolInputView,
    query: Seq<char>,
    path: Seq<char>,
    line: i128,
)
    requires
        name == "code_search"@ || name == "mcp__code_search__code_search"@,
        query.len() > 0,
        path.len() > 0,
    ensures
        says(input, "operation"@, "find_related"@) ==> {
            &&& says(input, "file_path"@, path) && holds(
                input,
                "line"@,
                InputValueView::Integer(line),
            ) && 0 <= line <= u64::MAX ==> command_display(name, input)
                == "code_search related "@ + path + ":"@ + decimal(line as nat)
            &&& says(input, "file_path"@, path) && lacks(input, "line"@) ==> command_display(
                name,
                input,
            ) == "code_search related "@ + path
            &&& lacks(input, "file_path"@) ==> command_display(name, input)
                == "code_search related"@
        },
        lacks(input, "operation"@) ==> {
            &&& says(input, "query"@, query) && says(input, "path"@, path) ==> command_display(
                name,
                input,
            ) == "code_search "@ + query + " in "@ + path
            &&& says(input, "query"@, query) && lacks(input, "path"@) ==> command_display(
                name,
                input,
            ) == "code_search "@ + query
            &&& lacks(input, "query"@) && says(input, "path"@, path) ==> command_display(
                name,
                input,
            ) == "code_search in "@ + path
            &&& lacks(input, "query"@) && lacks(input, "path"@) ==> command_display(name, input)
                == "code_search"@
        },
{
    lemma_inputs(input);
    lemma_shown_names_differ();
}

/// A process is shown by its number, with a sign if it is below zero; a number that is
/// out of reach, or none at all, as unknown.
pub proof fn law_processes_are_shown(input: ToolInputView, number: i128)
    requires
        lacks(input, "chars"@),
        holds(input, "process_id"@, InputValueView::Integer(number)),
    ensures
        0 <= number <= i64::MAX ==> command_display("write_stdin"@, input) == "poll process "@
            + decimal(number as nat),
        i64::MIN <= number < 0 ==> command_display("write_stdin"@, input) == "poll process "@ + (
        "-"@ + decimal((-number) as nat)),
        number < i64::MIN || number > i64::MAX ==> command_display("write_stdin"@, input)
            == "poll process "@ + "?"@,
{
    lemma_inputs(input);
    lemma_shown_names_differ();
}

/// Any other tool is shown without a command.
pub proof fn law_other_tools_show_no_command(name: Seq<char>, input: ToolInputView)
    requires
        name != "exec_command"@,
        name != "write_stdin"@,
        name != "read"@,
        name != "find"@,
        name != "glob"@,
        name != "grep"@,
        name != "code_search"@,
        name != "mcp__code_search__code_search"@,
    ensures
        command_display(name, input).len() == 0,
{
}

/// A call that is refused says why: that subagents may not, what the input lacks, that it
/// names another message, or what the session lacks.
pub proof fn law_refused_calls_say_why(ctx: ToolContextView, input: ToolInputView)
    ensures
        ctx.agent_scope == ToolAgentScope::Subagent ==> {
            &&& remember_call(ctx, input) == Err::<RememberCallView, ToolCallErrorView>(
                ToolCallErrorView::Denied("sub-agents cannot read or mutate user memory"@),
            )
            &&& forget_call(ctx, input) == Err::<ForgetCallView, ToolCallErrorView>(
                ToolCallErrorView::Denied("sub-agents cannot read or mutate user memory"@),
            )
        },
        ctx.agent_scope == ToolAgentScope::Root && is_silent(input, "text"@) ==> remember_call(
            ctx,
            input,
        ) == Err::<RememberCallView, ToolCallErrorView>(
            ToolCallErrorView::InvalidInput("missing 'text' field"@),
        ),
        ctx.agent_scope == ToolAgentScope::Root && !is_silent(input, "text"@) ==> {
            &&& ctx.current_user_item_id is None ==> remember_call(ctx, input) == Err::<
                RememberCallView,
                ToolCallErrorView,
            >(
                ToolCallErrorView::InvalidInput(
                    "memory_remember requires the current user message context"@,
                ),
            )
            &&& ctx.current_user_item_id matches Some(current) ==> names_other_source(
                input,
                current,
            ) ==> remember_call(ctx, input) == Err::<RememberCallView, ToolCallErrorView>(
                ToolCallErrorView::InvalidInput(
                    "memory_remember source must match the current user message context"@,
                ),
            )
        },
        ctx.agent_scope == ToolAgentScope::Root && !(lacks(input, "text"@) && lacks(
            input,
            "scope"@,
        )) ==> forget_call(ctx, input) == Err::<ForgetCallView, ToolCallErrorView>(
            ToolCallErrorView::InvalidInput(
                "memory_forget accepts only 'entry_id' and server-bound source context"@,
            ),
        ),
        remember_call(ctx, input) is Err && ctx.agent_scope == ToolAgentScope::Root
            && !ctx.has_coordinator && ctx.turn_id is Some && remember_call(
            ToolContextView { has_coordinator: true, ..ctx },
            input,
        ) is Ok ==> remember_call(ctx, input) == Err::<RememberCallView, ToolCallErrorView>(
            ToolCallErrorView::NeedsConfiguration(
                "memory_remember"@ + " requires a server runtime coordinator"@,
            ),
        ),
{
    lemma_inputs(input);
    lemma_source(input);
}

/// An agent gets its permission only for what can be prepared, in the scope that the
/// entry is in, and only while memory is on; without it the store stays as it is.
pub proof fn law_agent_leases_what_is_prepared(
    enabled: bool,
    tables: MemoryTablesView,
    state: ForgetStateView,
    invocation: MemoryToolInvocationView,
    call: AgentForgetView,
    now: u64,
    at: Timestamp,
    row_id: Seq<char>,
)
    ensures
        ({
            let leased = agent_lease_step(enabled, tables, state, invocation, call, now);
            let done = agent_forget_step(
                enabled,
                tables,
                state,
                invocation,
                call,
                now,
                at,
                row_id,
            );
            let prepared = prepared_forget(
                tables,
                call.request.selector,
                call.request.scope,
                single_source(call.request.source),
            );
            &&& done.state == leased.state
            &&& !enabled ==> leased.state == state && leased.result == Err::<
                (u64, PreparedMemoryForgetRequestView),
                ToolCallErrorView,
            >(ToolCallErrorView::NeedsConfiguration("memory is disabled"@))
            &&& enabled ==> (prepared matches Err(error) ==> leased.state == state
                && leased.result == Err::<
                (u64, PreparedMemoryForgetRequestView),
                ToolCallErrorView,
            >(tool_error_of(error)))
            &&& enabled ==> (prepared matches Ok(wanted) ==> {
                let granted = agent_step(
                    state,
                    invocation,
                    call.user_text,
                    call.entry_id,
                    wanted.scope,
                    now,
                );
                &&& leased.state == granted.state
                &&& granted.result matches Ok(given) ==> leased.result == Ok::<
                    (u64, PreparedMemoryForgetRequestView),
                    ToolCallErrorView,
                >((given.reservation.reservation_id, wanted)) && done.tables == forget_step(
                    tables,
                    wanted,
                    at,
                    row_id,
                ).tables
                &&& granted.result matches Err(error) ==> leased.result == Err::<
                    (u64, PreparedMemoryForgetRequestView),
                    ToolCallErrorView,
                >(error)
            })
            &&& leased.result is Err ==> done.tables == tables && done.result is Err
        }),
{
}

} // verus!
