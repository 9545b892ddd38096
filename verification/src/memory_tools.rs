//! The memory tools of an agent: what they check before they touch memory, and what
//! they tell the agent afterwards.

use vstd::prelude::*;

use crate::command_types::{
    MemoryCommandResult, MemoryForgetRequest, MemoryForgetRequestView, MemoryForgetSelector,
    MemoryForgetSelectorView, MemoryRememberRequest, MemoryRememberRequestView, MemorySourceContext,
    MemorySourceContextView, PreparedMemoryForgetRequest, PreparedMemoryForgetRequestView,
    WorkspaceRoot, WorkspaceRootView,
};
use crate::core_ids::SessionId;
use crate::current_user_item::{
    current_item_message, current_message, current_user_item_text, InlineTurn, InlineTurnView,
};
use crate::forget::{
    forget_at, forget_source_of, forget_step, forgotten_result, prepare_forget, prepared_forget,
    ForgottenEntry, ForgottenEntryView,
};
use crate::forget_authorization::{
    agent_step, names_entry, search_step, CoordinatorStep, ForgetCommandGrammar, ForgetStateView,
    MemoryForgetCoordinator, MemoryForgetReservation, MemoryToolInvocation,
    MemoryToolInvocationView, PENDING_SELECTION_TTL,
};
use crate::forget_execution::{
    complete_forget_execution, forget_end, MemoryForgetExecutionError,
    MemoryForgetExecutionErrorView,
};
use crate::ids::{ItemId, MemoryEntryId};
use crate::memory_error::{error_message, MemoryError, MemoryErrorView};
use crate::rpc_memory::{
    MemoryEntry, MemoryForgetParams, MemoryForgetParamsView, MemoryForgetResult,
    MemoryForgetResultView, MemoryKind, MemoryRememberParams, MemoryRememberParamsView, MemoryScope,
    MemorySearchParams, MemorySearchParamsView, MemorySearchResult, MemoryState,
};
use crate::runtime::{forget_command, single_source, CommandOutcomeView, Fresh, MemoryRuntime};
use crate::tables::MemoryTablesView;
use crate::text::{concat, opt_view};
use crate::time::Timestamp;
use crate::tool_error::{internal_error, invalid_input, ToolCallError, ToolCallErrorView};

verus! {

/// What an agent is told of a failure of memory: nothing of the store's inside.
pub open spec fn tool_error_of(error: MemoryErrorView) -> ToolCallErrorView {
    match error {
        MemoryErrorView::InvalidRequest(message) => ToolCallErrorView::InvalidInput(message),
        MemoryErrorView::SecretContentRejected => ToolCallErrorView::Denied(
            "memory content was rejected for safety"@,
        ),
        MemoryErrorView::Disabled => ToolCallErrorView::NeedsConfiguration("memory is disabled"@),
        MemoryErrorView::AmbiguousProjectScope => ToolCallErrorView::InvalidInput(
            "memory operation has ambiguous Native Session selectors"@,
        ),
        MemoryErrorView::ProjectSessionRequired => ToolCallErrorView::InvalidInput(
            "Project memory requires a session-bound connection"@,
        ),
        MemoryErrorView::ProjectSessionUnavailable => ToolCallErrorView::InvalidInput(
            "Project memory requires a session with a workspace root"@,
        ),
        _ => ToolCallErrorView::InternalError("memory operation is unavailable"@),
    }
}

/// What an agent is told of a failure of memory.
pub fn memory_tool_error(error: MemoryError) -> (result: ToolCallError)
    ensures
        result@ == tool_error_of(error@),
{
    match error {
        MemoryError::InvalidRequest(message) => ToolCallError::InvalidInput(message),
        MemoryError::SecretContentRejected => ToolCallError::Denied(
            "memory content was rejected for safety".to_string(),
        ),
        MemoryError::Disabled => ToolCallError::NeedsConfiguration(
            "memory is disabled".to_string(),
        ),
        MemoryError::AmbiguousProjectScope => invalid_input(
            "memory operation has ambiguous Native Session selectors",
        ),
        MemoryError::ProjectSessionRequired => invalid_input(
            "Project memory requires a session-bound connection",
        ),
        MemoryError::ProjectSessionUnavailable => invalid_input(
            "Project memory requires a session with a workspace root",
        ),
        _ => internal_error("memory operation is unavailable"),
    }
}

/// The session that an agent works for.
#[derive(Debug, PartialEq, Eq)]
pub struct AgentSession {
    pub parent_session_id: Option<SessionId>,
    pub workspace_root: WorkspaceRoot,
}

/// The view of [`AgentSession`].
#[verifier::ext_equal]
pub struct AgentSessionView {
    pub parent_session_id: Option<SessionId>,
    pub workspace_root: WorkspaceRootView,
}

impl View for AgentSession {
    type V = AgentSessionView;

    open spec fn view(&self) -> AgentSessionView {
        AgentSessionView {
            parent_session_id: self.parent_session_id,
            workspace_root: self.workspace_root@,
        }
    }
}

impl Clone for AgentSession {
    fn clone(&self) -> (result: Self)
        ensures
            result@ == self@,
    {
        let result = AgentSession {
            parent_session_id: self.parent_session_id,
            workspace_root: self.workspace_root.clone(),
        };
        result
    }
}

/// What the server knows of a tool call.
#[derive(Debug, PartialEq, Eq)]
pub struct ToolFacts {
    /// The running turn of the session.
    pub running: Option<InlineTurn>,
    pub memory_available: bool,
    /// The session, if it is known.
    pub session: Option<AgentSession>,
}

/// The view of [`ToolFacts`].
#[verifier::ext_equal]
pub struct ToolFactsView {
    pub running: Option<InlineTurnView>,
    pub memory_available: bool,
    pub session: Option<AgentSessionView>,
}

impl View for ToolFacts {
    type V = ToolFactsView;

    open spec fn view(&self) -> ToolFactsView {
        ToolFactsView {
            running: opt_view(self.running),
            memory_available: self.memory_available,
            session: opt_view(self.session),
        }
    }
}

impl Clone for ToolFacts {
    fn clone(&self) -> (result: Self)
        ensures
            result@ == self@,
    {
        let result = ToolFacts {
            running: self.running.clone(),
            memory_available: self.memory_available,
            session: self.session.clone(),
        };
        result
    }
}

// ---------------------------------------------------------------------------
// Checks.
// ---------------------------------------------------------------------------
/// The message of the user that a tool call answers.
pub open spec fn user_text_of(
    invocation: MemoryToolInvocationView,
    facts: ToolFactsView,
) -> Result<Seq<char>, ToolCallErrorView> {
    match current_message(facts.running, invocation.turn_id, invocation.user_item_id) {
        Ok(text) => Ok(text),
        Err(error) => Err(ToolCallErrorView::InvalidInput(current_item_message(error))),
    }
}

/// The source of a change of memory. Subagents change nothing.
pub open spec fn mutation_source(
    invocation: MemoryToolInvocationView,
    facts: ToolFactsView,
) -> Result<MemorySourceContextView, ToolCallErrorView> {
    if !facts.memory_available {
        Err(ToolCallErrorView::NeedsConfiguration("memory runtime is unavailable"@))
    } else {
        match facts.session {
            None => Err(ToolCallErrorView::InvalidInput("session not found"@)),
            Some(session) => if session.parent_session_id is Some {
                Err(ToolCallErrorView::Denied("sub-agents cannot mutate user memory"@))
            } else {
                Ok(
                    MemorySourceContextView {
                        user_item_id: Some(invocation.user_item_id),
                        session_id: invocation.session_id,
                        turn_id: Some(invocation.turn_id),
                        workspace_root: session.workspace_root,
                    },
                )
            },
        }
    }
}

/// What a call of the remember tool asks memory for.
pub open spec fn remember_request_of(
    invocation: MemoryToolInvocationView,
    params: MemoryRememberParamsView,
    facts: ToolFactsView,
) -> Result<MemoryRememberRequestView, ToolCallErrorView> {
    if params.source_user_item_id != Some(invocation.user_item_id) {
        Err(
            ToolCallErrorView::InvalidInput(
                "memory_remember source must match the current user message context"@,
            ),
        )
    } else {
        match user_text_of(invocation, facts) {
            Err(error) => Err(error),
            Ok(_) => match mutation_source(invocation, facts) {
                Err(error) => Err(error),
                Ok(source) => Ok(
                    MemoryRememberRequestView {
                        text: params.text,
                        scope: params.scope,
                        kind: params.kind,
                        source,
                    },
                ),
            },
        }
    }
}

/// A deletion that an agent asks for.
#[derive(Debug, PartialEq, Eq)]
pub struct AgentForget {
    pub entry_id: MemoryEntryId,
    /// What the user said.
    pub user_text: String,
    pub request: MemoryForgetRequest,
}

/// The view of [`AgentForget`].
#[verifier::ext_equal]
pub struct AgentForgetView {
    pub entry_id: Seq<char>,
    pub user_text: Seq<char>,
    pub request: MemoryForgetRequestView,
}

impl View for AgentForget {
    type V = AgentForgetView;

    open spec fn view(&self) -> AgentForgetView {
        AgentForgetView {
            entry_id: self.entry_id@,
            user_text: self.user_text@,
            request: self.request@,
        }
    }
}

impl Clone for AgentForget {
    fn clone(&self) -> (result: Self)
        ensures
            result@ == self@,
    {
        let result = AgentForget {
            entry_id: self.entry_id.clone(),
            user_text: self.user_text.clone(),
            request: self.request.clone(),
        };
        result
    }
}

/// What a call of the forget tool asks memory for: an agent has to name an entry by
/// its stable ID.
pub open spec fn forget_request_of(
    invocation: MemoryToolInvocationView,
    params: MemoryForgetParamsView,
    facts: ToolFactsView,
) -> Result<AgentForgetView, ToolCallErrorView> {
    if params.source_user_item_id != Some(invocation.user_item_id) {
        Err(
            ToolCallErrorView::InvalidInput(
                "memory_forget source must match the current user message context"@,
            ),
        )
    } else {
        match (params.entry_id, params.text) {
            (Some(_), Some(_)) => Err(
                ToolCallErrorView::InvalidInput(
                    "memory forget accepts exactly one of entryId or text"@,
                ),
            ),
            (None, None) => Err(
                ToolCallErrorView::InvalidInput("memory forget requires entryId or text"@),
            ),
            (None, Some(_)) => Err(
                ToolCallErrorView::InvalidInput(
                    "root-agent memory_forget requires an exact stable ID"@,
                ),
            ),
            (Some(entry_id), None) => match user_text_of(invocation, facts) {
                Err(error) => Err(error),
                Ok(user_text) => match mutation_source(invocation, facts) {
                    Err(error) => Err(error),
                    Ok(source) => Ok(
                        AgentForgetView {
                            entry_id,
                            user_text,
                            request: MemoryForgetRequestView {
                                selector: MemoryForgetSelectorView::EntryId(entry_id),
                                scope: params.scope,
                                source,
                            },
                        },
                    ),
                },
            },
        }
    }
}

/// A search in memory.
#[derive(Debug, PartialEq, Eq)]
pub struct SearchMemoryRequest {
    pub query: String,
    pub scope: MemoryScope,
    pub kind: Option<MemoryKind>,
    pub state: Option<MemoryState>,
    /// The workspace of the session, for a search in a project.
    pub workspace_root: Option<WorkspaceRoot>,
}

/// The view of [`SearchMemoryRequest`].
#[verifier::ext_equal]
pub struct SearchMemoryRequestView {
    pub query: Seq<char>,
    pub scope: MemoryScope,
    pub kind: Option<MemoryKind>,
    pub state: Option<MemoryState>,
    pub workspace_root: Option<WorkspaceRootView>,
}

impl View for SearchMemoryRequest {
    type V = SearchMemoryRequestView;

    open spec fn view(&self) -> SearchMemoryRequestView {
        SearchMemoryRequestView {
            query: self.query@,
            scope: self.scope,
            kind: self.kind,
            state: self.state,
            workspace_root: opt_view(self.workspace_root),
        }
    }
}

impl Clone for SearchMemoryRequest {
    fn clone(&self) -> (result: Self)
        ensures
            result@ == self@,
    {
        let result = SearchMemoryRequest {
            query: self.query.clone(),
            scope: self.scope,
            kind: self.kind,
            state: self.state,
            workspace_root: self.workspace_root.clone(),
        };
        result
    }
}

/// What a call of the search tool asks memory for.
pub open spec fn search_request_of(
    invocation: MemoryToolInvocationView,
    params: MemorySearchParamsView,
    facts: ToolFactsView,
) -> Result<SearchMemoryRequestView, ToolCallErrorView> {
    match user_text_of(invocation, facts) {
        Err(error) => Err(error),
        Ok(_) => if !facts.memory_available {
            Err(ToolCallErrorView::NeedsConfiguration("memory runtime is unavailable"@))
        } else {
            match facts.session {
                None => Err(ToolCallErrorView::InvalidInput("session not found"@)),
                Some(session) => {
                    let scope = match params.scope {
                        Some(scope) => scope,
                        None => MemoryScope::User,
                    };
                    Ok(
                        SearchMemoryRequestView {
                            query: params.query,
                            scope,
                            kind: params.kind,
                            state: params.state,
                            workspace_root: if scope == MemoryScope::Project {
                                Some(session.workspace_root)
                            } else {
                                None
                            },
                        },
                    )
                },
            }
        },
    }
}

/// The view of a checked tool call.
pub open spec fn checked<T: View>(result: Result<T, ToolCallError>) -> Result<
    T::V,
    ToolCallErrorView,
> {
    match result {
        Ok(value) => Ok(value@),
        Err(error) => Err(error@),
    }
}

fn is_current_source(source: &Option<ItemId>, invocation: &MemoryToolInvocation) -> (result: bool)
    ensures
        result == (opt_view(*source) == Some(invocation@.user_item_id)),
{
    match source {
        Some(item_id) => item_id.same(&invocation.user_item_id),
        None => false,
    }
}

fn user_text(invocation: &MemoryToolInvocation, facts: &ToolFacts) -> (result: Result<
    String,
    ToolCallError,
>)
    ensures
        checked(result) == user_text_of(invocation@, facts@),
{
    match current_user_item_text(
        &facts.running,
        invocation.turn_id,
        invocation.user_item_id.as_str(),
    ) {
        Ok(text) => Ok(text),
        Err(error) => Err(ToolCallError::InvalidInput(error.message())),
    }
}

fn source_of(invocation: &MemoryToolInvocation, facts: &ToolFacts) -> (result: Result<
    MemorySourceContext,
    ToolCallError,
>)
    ensures
        checked(result) == mutation_source(invocation@, facts@),
{
    if !facts.memory_available {
        return Err(
            ToolCallError::NeedsConfiguration("memory runtime is unavailable".to_string()),
        );
    }
    let session = match &facts.session {
        Some(session) => session,
        None => return Err(invalid_input("session not found")),
    };
    if session.parent_session_id.is_some() {
        return Err(ToolCallError::Denied("sub-agents cannot mutate user memory".to_string()));
    }
    Ok(
        MemorySourceContext {
            user_item_id: Some(invocation.user_item_id.clone()),
            session_id: invocation.session_id,
            turn_id: Some(invocation.turn_id),
            workspace_root: session.workspace_root.clone(),
        },
    )
}

/// Checks a call of the remember tool.
pub fn remember_request(
    invocation: &MemoryToolInvocation,
    params: MemoryRememberParams,
    facts: &ToolFacts,
) -> (result: Result<MemoryRememberRequest, ToolCallError>)
    ensures
        checked(result) == remember_request_of(invocation@, params@, facts@),
{
    if !is_current_source(&params.source_user_item_id, invocation) {
        return Err(
            invalid_input("memory_remember source must match the current user message context"),
        );
    }
    match user_text(invocation, facts) {
        Ok(_) => {},
        Err(error) => return Err(error),
    }
    let source = match source_of(invocation, facts) {
        Ok(source) => source,
        Err(error) => return Err(error),
    };
    Ok(MemoryRememberRequest { text: params.text, scope: params.scope, kind: params.kind, source })
}

/// What the agent is told of a remembered entry.
pub fn remember_result(executed: Result<MemoryCommandResult, MemoryError>) -> (result: Result<
    MemoryEntry,
    ToolCallError,
>)
    ensures
        match executed {
            Ok(MemoryCommandResult::Remember(entry)) => result == Ok::<MemoryEntry, ToolCallError>(
                entry,
            ),
            Ok(_) => result matches Err(error) && error@ == ToolCallErrorView::InternalError(
                "memory_remember returned an unexpected result"@,
            ),
            Err(error) => result matches Err(told) && told@ == tool_error_of(error@),
        },
{
    match executed {
        Ok(MemoryCommandResult::Remember(entry)) => Ok(entry),
        Ok(_) => Err(internal_error("memory_remember returned an unexpected result")),
        Err(error) => Err(memory_tool_error(error)),
    }
}

/// Checks a call of the forget tool.
pub fn forget_request(
    invocation: &MemoryToolInvocation,
    params: &MemoryForgetParams,
    facts: &ToolFacts,
) -> (result: Result<AgentForget, ToolCallError>)
    ensures
        checked(result) == forget_request_of(invocation@, params@, facts@),
{
    if !is_current_source(&params.source_user_item_id, invocation) {
        return Err(
            invalid_input("memory_forget source must match the current user message context"),
        );
    }
    let entry_id = match MemoryForgetSelector::from_params(params) {
        Ok(MemoryForgetSelector::EntryId(entry_id)) => entry_id,
        Ok(MemoryForgetSelector::Text(_)) => return Err(
            invalid_input("root-agent memory_forget requires an exact stable ID"),
        ),
        Err(message) => return Err(invalid_input(message)),
    };
    let user_text = match user_text(invocation, facts) {
        Ok(user_text) => user_text,
        Err(error) => return Err(error),
    };
    let source = match source_of(invocation, facts) {
        Ok(source) => source,
        Err(error) => return Err(error),
    };
    Ok(
        AgentForget {
            entry_id: entry_id.clone(),
            user_text,
            request: MemoryForgetRequest {
                selector: MemoryForgetSelector::EntryId(entry_id),
                scope: params.scope,
                source,
            },
        },
    )
}

/// Checks a call of the search tool.
pub fn search_request(
    invocation: &MemoryToolInvocation,
    params: MemorySearchParams,
    facts: &ToolFacts,
) -> (result: Result<SearchMemoryRequest, ToolCallError>)
    ensures
        checked(result) == search_request_of(invocation@, params@, facts@),
{
    match user_text(invocation, facts) {
        Ok(_) => {},
        Err(error) => return Err(error),
    }
    if !facts.memory_available {
        return Err(
            ToolCallError::NeedsConfiguration("memory runtime is unavailable".to_string()),
        );
    }
    let session = match &facts.session {
        Some(session) => session,
        None => return Err(invalid_input("session not found")),
    };
    let scope = match params.scope {
        Some(scope) => scope,
        None => MemoryScope::User,
    };
    let workspace_root = if scope == MemoryScope::Project {
        Some(session.workspace_root.clone())
    } else {
        None
    };
    Ok(
        SearchMemoryRequest {
            query: params.query,
            scope,
            kind: params.kind,
            state: params.state,
            workspace_root,
        },
    )
}

/// Ends a search: what was found may be selected from in a later turn, unless the
/// coordinator refuses.
pub fn finish_search(
    coordinator: &mut MemoryForgetCoordinator,
    invocation: &MemoryToolInvocation,
    executed: Result<MemorySearchResult, MemoryError>,
    now: u64,
) -> (result: Result<MemorySearchResult, ToolCallError>)
    requires
        old(coordinator).well_formed(),
        now + PENDING_SELECTION_TTL <= u64::MAX,
    ensures
        final(coordinator).well_formed(),
        match executed {
            Err(error) => {
                &&& final(coordinator)@ == old(coordinator)@
                &&& result matches Err(told) && told@ == tool_error_of(error@)
            },
            Ok(found) => {
                let step = search_step(old(coordinator)@, invocation@, found@.data, now);
                &&& final(coordinator)@ == step.state
                &&& match step.result {
                    Ok(_) => result == Ok::<MemorySearchResult, ToolCallError>(found),
                    Err(error) => result matches Err(told) && told@ == error,
                }
            },
        },
{
    let found = match executed {
        Ok(found) => found,
        Err(error) => return Err(memory_tool_error(error)),
    };
    match coordinator.record_search_at(invocation, &found.data, now) {
        Ok(_) => Ok(found),
        Err(error) => Err(error),
    }
}

// ---------------------------------------------------------------------------
// Forgetting.
// ---------------------------------------------------------------------------
/// A deletion that was prepared and authorized, before the store is asked for it.
#[derive(Debug, PartialEq, Eq)]
pub struct AgentLease {
    pub reservation: MemoryForgetReservation,
    pub prepared: PreparedMemoryForgetRequest,
}

/// The view of a lease that was asked for.
pub open spec fn lease_result(result: Result<AgentLease, ToolCallError>) -> Result<
    (u64, PreparedMemoryForgetRequestView),
    ToolCallErrorView,
> {
    match result {
        Ok(lease) => Ok((lease.reservation.reservation_id, lease.prepared@)),
        Err(error) => Err(error@),
    }
}

/// The entry is looked up first: its own scope is what the coordinator is asked for.
pub open spec fn agent_lease_step(
    enabled: bool,
    tables: MemoryTablesView,
    state: ForgetStateView,
    invocation: MemoryToolInvocationView,
    call: AgentForgetView,
    now: u64,
) -> CoordinatorStep<(u64, PreparedMemoryForgetRequestView)> {
    let prepared = if enabled {
        prepared_forget(
            tables,
            call.request.selector,
            call.request.scope,
            single_source(call.request.source),
        )
    } else {
        Err(MemoryErrorView::Disabled)
    };
    match prepared {
        Err(error) => CoordinatorStep { state, result: Err(tool_error_of(error)) },
        Ok(prepared) => {
            let granted = agent_step(
                state,
                invocation,
                call.user_text,
                call.entry_id,
                prepared.scope,
                now,
            );
            CoordinatorStep {
                state: granted.state,
                result: match granted.result {
                    Err(error) => Err(error),
                    Ok(authorized) => Ok((authorized.reservation.reservation_id, prepared)),
                },
            }
        },
    }
}

/// Prepares and authorizes a deletion that an agent asks for. What executes the
/// command takes it from there, and [`finish_agent_forget`] ends it.
pub fn authorize_agent_forget(
    coordinator: &mut MemoryForgetCoordinator,
    memory: &MemoryRuntime,
    invocation: &MemoryToolInvocation,
    call: &AgentForget,
    now: u64,
) -> (result: Result<AgentLease, ToolCallError>)
    requires
        old(coordinator).well_formed(),
    ensures
        final(coordinator).well_formed(),
        agent_lease_step(
            memory.config.enabled,
            memory.tables@,
            old(coordinator)@,
            invocation@,
            call@,
            now,
        ) == (CoordinatorStep { state: final(coordinator)@, result: lease_result(result) }),
{
    if !memory.config.enabled {
        return Err(memory_tool_error(MemoryError::Disabled));
    }
    let source = forget_source_of(&call.request.source);
    assert(source@ == single_source(call.request.source@));
    let prepared = match prepare_forget(
        &memory.tables,
        &call.request.selector,
        call.request.scope,
        &source,
    ) {
        Ok(prepared) => prepared,
        Err(error) => return Err(memory_tool_error(error)),
    };
    match coordinator.authorize_agent_at(
        invocation,
        call.user_text.as_str(),
        &call.entry_id,
        prepared.scope,
        now,
    ) {
        Ok(authorized) => Ok(AgentLease { reservation: authorized.reservation, prepared }),
        Err(error) => Err(error),
    }
}

/// A deletion that was authorized and executed, before its page is written out.
#[derive(Debug, PartialEq, Eq)]
pub struct StartedForget {
    pub reservation: MemoryForgetReservation,
    pub executed: Result<ForgottenEntry, MemoryError>,
}

/// What a deletion does up to the page: the store and the coordinator that it
/// leaves, and the lease with what the store did, or why it did not come so far.
pub struct AgentForgetStep {
    pub tables: MemoryTablesView,
    pub state: ForgetStateView,
    pub result: Result<(u64, Result<ForgottenEntryView, MemoryErrorView>), ToolCallErrorView>,
}

/// The view of a started deletion.
pub open spec fn started_result(result: Result<StartedForget, ToolCallError>) -> Result<
    (u64, Result<ForgottenEntryView, MemoryErrorView>),
    ToolCallErrorView,
> {
    match result {
        Ok(started) => Ok(
            (started.reservation.reservation_id, forgotten_result(started.executed)),
        ),
        Err(error) => Err(error@),
    }
}

/// Only with the lease does the store forget the entry that was prepared.
pub open spec fn agent_forget_step(
    enabled: bool,
    tables: MemoryTablesView,
    state: ForgetStateView,
    invocation: MemoryToolInvocationView,
    call: AgentForgetView,
    now: u64,
    at: Timestamp,
    row_id: Seq<char>,
) -> AgentForgetStep {
    let leased = agent_lease_step(enabled, tables, state, invocation, call, now);
    match leased.result {
        Err(error) => AgentForgetStep { tables, state: leased.state, result: Err(error) },
        Ok((reservation_id, prepared)) => {
            let step = forget_step(tables, prepared, at, row_id);
            AgentForgetStep {
                tables: step.tables,
                state: leased.state,
                result: Ok((reservation_id, step.result)),
            }
        },
    }
}

/// Prepares, authorizes and executes a deletion that an agent asks for, at a given
/// instant and with a given ID for a revocation.
pub fn start_agent_forget(
    coordinator: &mut MemoryForgetCoordinator,
    memory: &mut MemoryRuntime,
    invocation: &MemoryToolInvocation,
    call: &AgentForget,
    now: u64,
    at: Timestamp,
    row_id: &String,
) -> (result: Result<StartedForget, ToolCallError>)
    requires
        old(coordinator).well_formed(),
    ensures
        final(coordinator).well_formed(),
        final(memory).config == old(memory).config,
        agent_forget_step(
            old(memory).config.enabled,
            old(memory).tables@,
            old(coordinator)@,
            invocation@,
            call@,
            now,
            at,
            row_id@,
        ) == (AgentForgetStep {
            tables: final(memory).tables@,
            state: final(coordinator)@,
            result: started_result(result),
        }),
{
    match authorize_agent_forget(coordinator, &*memory, invocation, call, now) {
        Err(error) => Err(error),
        Ok(lease) => {
            let executed = forget_at(&mut memory.tables, &lease.prepared, at, row_id);
            Ok(StartedForget { reservation: lease.reservation, executed })
        },
    }
}

/// What an agent is told of the end of a deletion.
pub open spec fn forget_told(
    result: Result<MemoryForgetResultView, MemoryForgetExecutionErrorView>,
) -> Result<MemoryForgetResultView, ToolCallErrorView> {
    match result {
        Ok(forgotten) => Ok(forgotten),
        Err(MemoryForgetExecutionErrorView::Coordinator(error)) => Err(error),
        Err(MemoryForgetExecutionErrorView::Storage(error)) => Err(tool_error_of(error)),
        Err(MemoryForgetExecutionErrorView::Projection(error)) => Err(
            ToolCallErrorView::InternalError(
                "memory forget committed but projection refresh failed: "@ + error_message(error),
            ),
        ),
        Err(MemoryForgetExecutionErrorView::UnexpectedResult) => Err(
            ToolCallErrorView::InternalError("memory_forget returned an unexpected result"@),
        ),
    }
}

/// Ends a deletion that an agent asked for, once its page was written or could not
/// be.
pub fn finish_agent_forget(
    coordinator: &mut MemoryForgetCoordinator,
    reservation: MemoryForgetReservation,
    executed: Result<MemoryCommandResult, MemoryError>,
) -> (result: Result<MemoryForgetResult, ToolCallError>)
    requires
        old(coordinator).well_formed(),
    ensures
        final(coordinator).well_formed(),
        final(coordinator)@ == forget_end(
            old(coordinator)@,
            reservation.reservation_id,
            executed,
        ).state,
        checked(result) == forget_told(
            forget_end(old(coordinator)@, reservation.reservation_id, executed).result,
        ),
{
    match complete_forget_execution(coordinator, reservation, executed) {
        Ok(forgotten) => Ok(forgotten),
        Err(MemoryForgetExecutionError::Coordinator(error)) => Err(error),
        Err(MemoryForgetExecutionError::Storage(error)) => Err(memory_tool_error(error)),
        Err(MemoryForgetExecutionError::Projection(error)) => {
            let message = error.message();
            Err(
                ToolCallError::InternalError(
                    concat(
                        "memory forget committed but projection refresh failed: ",
                        message.as_str(),
                    ),
                ),
            )
        },
        Err(MemoryForgetExecutionError::UnexpectedResult) => Err(
            internal_error("memory_forget returned an unexpected result"),
        ),
    }
}

// ---------------------------------------------------------------------------
// Laws.
// ---------------------------------------------------------------------------
/// A subagent changes no memory: a call from a session with a parent is denied.
pub proof fn law_subagents_change_no_memory(
    invocation: MemoryToolInvocationView,
    remember: MemoryRememberParamsView,
    forget: MemoryForgetParamsView,
    facts: ToolFactsView,
)
    requires
        facts.session matches Some(session) && session.parent_session_id is Some,
    ensures
        remember_request_of(invocation, remember, facts) is Err,
        forget_request_of(invocation, forget, facts) is Err,
{
}

/// A call that is not bound to the current message of the user changes no memory.
pub proof fn law_memory_changes_on_the_users_word(
    invocation: MemoryToolInvocationView,
    remember: MemoryRememberParamsView,
    forget: MemoryForgetParamsView,
    facts: ToolFactsView,
)
    ensures
        remember_request_of(invocation, remember, facts) is Ok || forget_request_of(
            invocation,
            forget,
            facts,
        ) is Ok ==> current_message(
            facts.running,
            invocation.turn_id,
            invocation.user_item_id,
        ) is Ok,
        remember_request_of(invocation, remember, facts) is Ok ==> remember.source_user_item_id
            == Some(invocation.user_item_id),
        forget_request_of(invocation, forget, facts) is Ok ==> forget.source_user_item_id == Some(
            invocation.user_item_id,
        ),
{
}

/// A deletion that is executed as a command once it was authorized does to an
/// unchanged store what a deletion in one step does.
pub proof fn law_authorized_forget_is_the_command(
    tables: MemoryTablesView,
    state: ForgetStateView,
    invocation: MemoryToolInvocationView,
    call: AgentForgetView,
    now: u64,
    fresh: Fresh,
)
    requires
        agent_lease_step(true, tables, state, invocation, call, now).result is Ok,
    ensures
        ({
            let command = forget_command(tables, call.request, fresh);
            let step = agent_forget_step(
                true,
                tables,
                state,
                invocation,
                call,
                now,
                fresh.at,
                fresh.row_id,
            );
            &&& step.tables == command.tables
            &&& step.result matches Ok((_, executed)) && match executed {
                Ok(forgotten) => command.result == Ok::<CommandOutcomeView, MemoryErrorView>(
                    CommandOutcomeView::Forgotten(forgotten),
                ),
                Err(error) => command.result == Err::<CommandOutcomeView, MemoryErrorView>(error),
            }
        }),
{
}

/// An agent forgets an entry only where the user named it: outright, or by
/// confirming a candidate of an earlier turn.
pub proof fn law_agent_forgets_what_the_user_names(
    enabled: bool,
    tables: MemoryTablesView,
    state: ForgetStateView,
    invocation: MemoryToolInvocationView,
    call: AgentForgetView,
    now: u64,
    at: Timestamp,
    row_id: Seq<char>,
)
    ensures
        agent_forget_step(enabled, tables, state, invocation, call, now, at, row_id).tables
            != tables ==> {
            ||| names_entry(ForgetCommandGrammar::Direct, call.user_text, call.entry_id)
            ||| names_entry(ForgetCommandGrammar::Confirmation, call.user_text, call.entry_id)
        },
        !enabled ==> agent_forget_step(
            enabled,
            tables,
            state,
            invocation,
            call,
            now,
            at,
            row_id,
        ).tables == tables,
{
}

} // verus!
