//! The memory methods of the native protocol: which requests they accept, what they
//! ask memory for, and what they answer.

use vstd::prelude::*;

use crate::command_types::{
    ListMemoryRequest, ListMemoryRequestView, MemoryCommandResult, MemoryForgetRequest,
    MemoryForgetRequestView, MemoryForgetSelector, MemoryForgetSelectorView, MemoryRememberRequest,
    MemoryRememberRequestView, MemorySourceContext, MemorySourceContextView, ProjectMemorySession,
    ProjectMemorySessionView, WorkspaceRoot, WorkspaceRootView,
};
use crate::core_ids::{SessionId, TurnId};
use crate::current_user_item::{current_message, current_user_item_text, InlineTurn, InlineTurnView};
use crate::forget::{project_source, resolve_project_memory_source};
use crate::forget_authorization::{native_step, MemoryForgetCoordinator, MemoryForgetReservation};
use crate::forget_execution::{
    complete_forget_execution, forget_end, MemoryForgetExecutionError,
    MemoryForgetExecutionErrorView,
};
use crate::ids::ItemId;
use crate::memory_error::{error_message, MemoryError, MemoryErrorView};
use crate::rows::{first_match, lemma_is_first_match, lemma_no_match};
use crate::rpc_memory::{
    MemoryEntry, MemoryForgetParams, MemoryForgetParamsView, MemoryForgetResult,
    MemoryForgetResultView, MemoryListParams, MemoryListParamsView, MemoryListResult,
    MemoryRememberParams, MemoryRememberParamsView, MemoryScope, MemoryStatus, MemoryStatusParams,
};
use crate::status::{is_unavailable, unavailable_memory_status};
use crate::text::{concat, opt_view, views};
use crate::tool_error::tool_error_message;

verus! {

/// What kind of failure a response reports.
#[derive(Debug, Clone, Copy, PartialEq, Eq, Structural)]
pub enum ProtocolErrorCode {
    /// The request does not make sense.
    InvalidParams,
    /// The server is at fault.
    InternalError,
}

/// A failure, as a response reports it.
#[derive(Debug, PartialEq, Eq)]
pub struct ProtocolError {
    pub code: ProtocolErrorCode,
    pub message: String,
}

/// The view of [`ProtocolError`].
#[verifier::ext_equal]
pub struct ProtocolErrorView {
    pub code: ProtocolErrorCode,
    pub message: Seq<char>,
}

impl View for ProtocolError {
    type V = ProtocolErrorView;

    open spec fn view(&self) -> ProtocolErrorView {
        ProtocolErrorView {
            code: self.code,
            message: self.message@,
        }
    }
}

impl Clone for ProtocolError {
    fn clone(&self) -> (result: Self)
        ensures
            result@ == self@,
    {
        let result = ProtocolError {
            code: self.code,
            message: self.message.clone(),
        };
        result
    }
}

/// A request that does not make sense.
pub open spec fn invalid_params(message: Seq<char>) -> ProtocolErrorView {
    ProtocolErrorView { code: ProtocolErrorCode::InvalidParams, message }
}

/// A failure of the server.
pub open spec fn server_error(message: Seq<char>) -> ProtocolErrorView {
    ProtocolErrorView { code: ProtocolErrorCode::InternalError, message }
}

/// The view of a response.
pub open spec fn response<T: View>(result: Result<T, ProtocolError>) -> Result<
    T::V,
    ProtocolErrorView,
> {
    match result {
        Ok(value) => Ok(value@),
        Err(error) => Err(error@),
    }
}

fn invalid(message: &str) -> (result: ProtocolError)
    ensures
        result@ == invalid_params(message@),
{
    ProtocolError { code: ProtocolErrorCode::InvalidParams, message: message.to_string() }
}

fn internal(message: &str) -> (result: ProtocolError)
    ensures
        result@ == server_error(message@),
{
    ProtocolError { code: ProtocolErrorCode::InternalError, message: message.to_string() }
}

fn invalid_with(left: &str, right: &str) -> (result: ProtocolError)
    ensures
        result@ == invalid_params(left@ + right@),
{
    ProtocolError { code: ProtocolErrorCode::InvalidParams, message: concat(left, right) }
}

// ---------------------------------------------------------------------------
// Failures of memory.
// ---------------------------------------------------------------------------
/// What a client is told of a failure of memory: nothing of the store's inside.
pub open spec fn memory_failure(method: Seq<char>, error: MemoryErrorView) -> ProtocolErrorView {
    match error {
        MemoryErrorView::InvalidRequest(message) => invalid_params(message),
        MemoryErrorView::SecretContentRejected => invalid_params(
            "memory content was rejected for safety"@,
        ),
        MemoryErrorView::Disabled => server_error("memory is disabled"@),
        MemoryErrorView::ProjectSessionRequired => invalid_params(
            method + " Project scope requires a session-bound connection"@,
        ),
        MemoryErrorView::AmbiguousProjectScope => invalid_params(
            method + " Project scope has ambiguous Native Session selectors"@,
        ),
        MemoryErrorView::ProjectSessionUnavailable => invalid_params(
            method + " Project scope requires a session with a workspace root"@,
        ),
        _ => server_error("memory operation is unavailable"@),
    }
}

/// What a client is told of a failure of memory.
pub fn memory_error_response(method: &str, error: MemoryError) -> (result: ProtocolError)
    ensures
        result@ == memory_failure(method@, error@),
{
    match error {
        MemoryError::InvalidRequest(message) => ProtocolError {
            code: ProtocolErrorCode::InvalidParams,
            message,
        },
        MemoryError::SecretContentRejected => invalid("memory content was rejected for safety"),
        MemoryError::Disabled => internal("memory is disabled"),
        MemoryError::ProjectSessionRequired => invalid_with(
            method,
            " Project scope requires a session-bound connection",
        ),
        MemoryError::AmbiguousProjectScope => invalid_with(
            method,
            " Project scope has ambiguous Native Session selectors",
        ),
        MemoryError::ProjectSessionUnavailable => invalid_with(
            method,
            " Project scope requires a session with a workspace root",
        ),
        _ => internal("memory operation is unavailable"),
    }
}

/// Why the project of a connection is not known.
#[derive(Debug, PartialEq, Eq)]
pub enum ProjectMemoryContextError {
    NoSession,
    Ambiguous,
    SessionUnavailable(SessionId),
    ProjectIdentity(String),
}

/// What a client is told when its project is not known.
pub open spec fn context_failure(
    method: Seq<char>,
    error: ProjectMemoryContextError,
) -> ProtocolErrorView {
    invalid_params(
        match error {
            ProjectMemoryContextError::NoSession => {
                method + " Project scope requires a session-bound connection"@
            },
            ProjectMemoryContextError::Ambiguous => {
                method + " Project scope has ambiguous Native Session selectors"@
            },
            ProjectMemoryContextError::SessionUnavailable(_) => {
                method + " Project scope requires a session with a workspace root"@
            },
            ProjectMemoryContextError::ProjectIdentity(_) => {
                method + " Project scope identity is unavailable"@
            },
        },
    )
}

/// What a client is told when its project is not known.
pub fn project_memory_context_error_response(
    method: &str,
    error: &ProjectMemoryContextError,
) -> (result: ProtocolError)
    ensures
        result@ == context_failure(method@, *error),
{
    match error {
        ProjectMemoryContextError::NoSession => invalid_with(
            method,
            " Project scope requires a session-bound connection",
        ),
        ProjectMemoryContextError::Ambiguous => invalid_with(
            method,
            " Project scope has ambiguous Native Session selectors",
        ),
        ProjectMemoryContextError::SessionUnavailable(_) => invalid_with(
            method,
            " Project scope requires a session with a workspace root",
        ),
        ProjectMemoryContextError::ProjectIdentity(_) => invalid_with(
            method,
            " Project scope identity is unavailable",
        ),
    }
}

// ---------------------------------------------------------------------------
// Status.
// ---------------------------------------------------------------------------
/// Answers a request for the status of memory. The parameters were read, or could
/// not be; the command was executed, unless there is no memory. A failure of memory
/// is told as a status: it must not keep a session from working.
pub fn memory_status_response(
    params: Result<MemoryStatusParams, String>,
    configured_enabled: bool,
    executed: Option<Result<MemoryCommandResult, MemoryError>>,
) -> (result: Result<MemoryStatus, ProtocolError>)
    ensures
        match (params, executed) {
            (Err(reason), _) => result matches Err(error) && error@ == invalid_params(
                "invalid memory/status params: "@ + reason@,
            ),
            (Ok(_), Some(Ok(MemoryCommandResult::Status(status)))) => result == Ok::<
                MemoryStatus,
                ProtocolError,
            >(status),
            (Ok(_), _) => result matches Ok(status) && is_unavailable(status, configured_enabled),
        },
{
    match params {
        Ok(_) => {},
        Err(reason) => return Err(invalid_with("invalid memory/status params: ", reason.as_str())),
    }
    match executed {
        Some(Ok(MemoryCommandResult::Status(status))) => Ok(status),
        _ => Ok(unavailable_memory_status(configured_enabled)),
    }
}

// ---------------------------------------------------------------------------
// The source of a change.
// ---------------------------------------------------------------------------
/// A turn that runs in a session of a connection.
#[derive(Debug, PartialEq, Eq)]
pub struct ActiveTurn {
    pub session_id: SessionId,
    pub turn_id: TurnId,
    pub running: Option<InlineTurn>,
}

/// The view of [`ActiveTurn`].
#[verifier::ext_equal]
pub struct ActiveTurnView {
    pub session_id: SessionId,
    pub turn_id: TurnId,
    pub running: Option<InlineTurnView>,
}

impl View for ActiveTurn {
    type V = ActiveTurnView;

    open spec fn view(&self) -> ActiveTurnView {
        ActiveTurnView {
            session_id: self.session_id,
            turn_id: self.turn_id,
            running: opt_view(self.running),
        }
    }
}

impl Clone for ActiveTurn {
    fn clone(&self) -> (result: Self)
        ensures
            result@ == self@,
    {
        let result = ActiveTurn {
            session_id: self.session_id,
            turn_id: self.turn_id,
            running: self.running.clone(),
        };
        result
    }
}

/// The message of a user that a change of memory is bound to.
#[derive(Debug, PartialEq, Eq)]
pub struct MemorySourceBinding {
    pub session_id: Option<SessionId>,
    pub turn_id: Option<TurnId>,
    pub user_item_id: Option<ItemId>,
}

/// The view of [`MemorySourceBinding`].
#[verifier::ext_equal]
pub struct MemorySourceBindingView {
    pub session_id: Option<SessionId>,
    pub turn_id: Option<TurnId>,
    pub user_item_id: Option<Seq<char>>,
}

impl View for MemorySourceBinding {
    type V = MemorySourceBindingView;

    open spec fn view(&self) -> MemorySourceBindingView {
        MemorySourceBindingView {
            session_id: self.session_id,
            turn_id: self.turn_id,
            user_item_id: opt_view(self.user_item_id),
        }
    }
}

impl Clone for MemorySourceBinding {
    fn clone(&self) -> (result: Self)
        ensures
            result@ == self@,
    {
        let result = MemorySourceBinding {
            session_id: self.session_id,
            turn_id: self.turn_id,
            user_item_id: self.user_item_id.clone(),
        };
        result
    }
}

/// Where a change of memory comes from.
#[derive(Debug, PartialEq, Eq)]
pub struct ActiveMemoryMutationSource {
    pub active_session_ids: Vec<SessionId>,
    pub source: Option<MemorySourceBinding>,
}

/// The view of [`ActiveMemoryMutationSource`].
#[verifier::ext_equal]
pub struct ActiveMemoryMutationSourceView {
    pub active_session_ids: Seq<SessionId>,
    pub source: Option<MemorySourceBindingView>,
}

impl View for ActiveMemoryMutationSource {
    type V = ActiveMemoryMutationSourceView;

    open spec fn view(&self) -> ActiveMemoryMutationSourceView {
        ActiveMemoryMutationSourceView {
            active_session_ids: self.active_session_ids@,
            source: opt_view(self.source),
        }
    }
}

impl Clone for ActiveMemoryMutationSource {
    fn clone(&self) -> (result: Self)
        ensures
            result@ == self@,
    {
        let result = ActiveMemoryMutationSource {
            active_session_ids: self.active_session_ids.clone(),
            source: self.source.clone(),
        };
        assert(result.active_session_ids@ =~= self.active_session_ids@);
        result
    }
}

/// Accepts a turn whose current message is under an ID.
pub open spec fn answers(user_item_id: Seq<char>) -> spec_fn(ActiveTurnView) -> bool {
    |turn: ActiveTurnView| current_message(turn.running, turn.turn_id, user_item_id) is Ok
}

/// The sessions of turns.
pub open spec fn sessions_of(turns: Seq<ActiveTurnView>) -> Seq<SessionId> {
    turns.map_values(|turn: ActiveTurnView| turn.session_id)
}

/// Where a change of memory comes from: a client that names a message has to name
/// the current one of a running turn, and one without a running turn names none.
pub open spec fn active_source(
    turns: Seq<ActiveTurnView>,
    source_user_item_id: Option<Seq<char>>,
    operation: Seq<char>,
) -> Result<ActiveMemoryMutationSourceView, ProtocolErrorView> {
    match source_user_item_id {
        None => Ok(
            ActiveMemoryMutationSourceView { active_session_ids: sessions_of(turns), source: None },
        ),
        Some(user_item_id) => if turns.len() == 0 {
            Err(
                invalid_params(
                    "direct "@ + operation + " commands must omit sourceUserItemId"@,
                ),
            )
        } else {
            match first_match(turns, answers(user_item_id)) {
                None => Err(
                    invalid_params(operation + " source item is not the current user message"@),
                ),
                Some(i) => Ok(
                    ActiveMemoryMutationSourceView {
                        active_session_ids: sessions_of(turns),
                        source: Some(
                            MemorySourceBindingView {
                                session_id: Some(turns[i].session_id),
                                turn_id: Some(turns[i].turn_id),
                                user_item_id: Some(user_item_id),
                            },
                        ),
                    },
                ),
            }
        },
    }
}

fn collect_sessions(turns: &Vec<ActiveTurn>) -> (result: Vec<SessionId>)
    ensures
        result@ == sessions_of(views(turns@)),
{
    let mut sessions: Vec<SessionId> = Vec::new();
    let mut i: usize = 0;
    while i < turns.len()
        invariant
            i <= turns.len(),
            sessions.len() == i,
            forall|j: int| 0 <= j < i ==> sessions@[j] == (#[trigger] turns@[j])@.session_id,
        decreases turns.len() - i,
    {
        sessions.push(turns[i].session_id);
        i = i + 1;
    }
    assert(sessions@ =~= sessions_of(views(turns@)));
    sessions
}

fn bind_message(turns: &Vec<ActiveTurn>, user_item_id: &ItemId) -> (result: Option<
    MemorySourceBinding,
>)
    ensures
        match first_match(views(turns@), answers(user_item_id@)) {
            Some(i) => result matches Some(binding) && binding@ == (MemorySourceBindingView {
                session_id: Some(views(turns@)[i].session_id),
                turn_id: Some(views(turns@)[i].turn_id),
                user_item_id: Some(user_item_id@),
            }),
            None => result is None,
        },
{
    let ghost all = views(turns@);
    let ghost wanted = answers(user_item_id@);
    let mut i: usize = 0;
    while i < turns.len()
        invariant
            i <= turns.len(),
            all == views(turns@),
            wanted == answers(user_item_id@),
            forall|j: int| 0 <= j < i ==> !wanted(#[trigger] all[j]),
        decreases turns.len() - i,
    {
        let turn = &turns[i];
        assert(all[i as int] == turn@);
        if current_user_item_text(&turn.running, turn.turn_id, user_item_id.as_str()).is_ok() {
            proof {
                lemma_is_first_match(all, wanted, i as int);
            }
            return Some(
                MemorySourceBinding {
                    session_id: Some(turn.session_id),
                    turn_id: Some(turn.turn_id),
                    user_item_id: Some(user_item_id.clone()),
                },
            );
        }
        i = i + 1;
    }
    proof {
        lemma_no_match(all, wanted);
    }
    None
}

/// Finds where a change of memory comes from.
pub fn resolve_active_memory_mutation_source(
    turns: &Vec<ActiveTurn>,
    source_user_item_id: Option<&ItemId>,
    operation: &str,
) -> (result: Result<ActiveMemoryMutationSource, ProtocolError>)
    ensures
        response(result) == active_source(
            views(turns@),
            match source_user_item_id {
                Some(user_item_id) => Some(user_item_id@),
                None => None,
            },
            operation@,
        ),
{
    let active_session_ids = collect_sessions(turns);
    assert(views(turns@).len() == turns.len());
    match source_user_item_id {
        None => Ok(ActiveMemoryMutationSource { active_session_ids, source: None }),
        Some(user_item_id) => {
            if turns.len() == 0 {
                let direct = concat("direct ", operation);
                return Err(
                    invalid_with(direct.as_str(), " commands must omit sourceUserItemId"),
                );
            }
            match bind_message(turns, user_item_id) {
                Some(binding) => Ok(
                    ActiveMemoryMutationSource { active_session_ids, source: Some(binding) },
                ),
                None => Err(
                    invalid_with(operation, " source item is not the current user message"),
                ),
            }
        },
    }
}

// ---------------------------------------------------------------------------
// Remember.
// ---------------------------------------------------------------------------
/// What a request to remember asks memory for. The source was found, or why it was
/// not.
pub open spec fn native_remember(
    params: Result<MemoryRememberParamsView, Seq<char>>,
    memory_available: bool,
    source: Result<MemorySourceContextView, ProtocolErrorView>,
) -> Result<MemoryRememberRequestView, ProtocolErrorView> {
    match params {
        Err(reason) => Err(invalid_params("invalid memory/remember params: "@ + reason)),
        Ok(params) => if !memory_available {
            Err(server_error("memory runtime is unavailable"@))
        } else {
            match source {
                Err(error) => Err(error),
                Ok(source) => Ok(
                    MemoryRememberRequestView {
                        text: params.text,
                        scope: params.scope,
                        kind: params.kind,
                        source,
                    },
                ),
            }
        },
    }
}

/// The view of parameters that were read, or could not be.
pub open spec fn read_params<T: View>(params: Result<T, String>) -> Result<T::V, Seq<char>> {
    match params {
        Ok(params) => Ok(params@),
        Err(reason) => Err(reason@),
    }
}

/// Checks a request to remember.
pub fn native_remember_request(
    params: Result<MemoryRememberParams, String>,
    memory_available: bool,
    source: Result<MemorySourceContext, ProtocolError>,
) -> (result: Result<MemoryRememberRequest, ProtocolError>)
    ensures
        response(result) == native_remember(
            read_params(params),
            memory_available,
            response(source),
        ),
{
    let params = match params {
        Ok(params) => params,
        Err(reason) => return Err(
            invalid_with("invalid memory/remember params: ", reason.as_str()),
        ),
    };
    if !memory_available {
        return Err(internal("memory runtime is unavailable"));
    }
    let source = match source {
        Ok(source) => source,
        Err(error) => return Err(error),
    };
    Ok(MemoryRememberRequest { text: params.text, scope: params.scope, kind: params.kind, source })
}

/// Answers a request to remember, once the command was executed.
pub fn memory_remember_response(executed: Result<MemoryCommandResult, MemoryError>) -> (result:
    Result<MemoryEntry, ProtocolError>)
    ensures
        match executed {
            Ok(MemoryCommandResult::Remember(entry)) => result == Ok::<MemoryEntry, ProtocolError>(
                entry,
            ),
            Ok(_) => result matches Err(error) && error@ == server_error(
                "memory/remember returned an unexpected result"@,
            ),
            Err(failure) => result matches Err(error) && error@ == memory_failure(
                "memory/remember"@,
                failure@,
            ),
        },
{
    match executed {
        Ok(MemoryCommandResult::Remember(entry)) => Ok(entry),
        Ok(_) => Err(internal("memory/remember returned an unexpected result")),
        Err(failure) => Err(memory_error_response("memory/remember", failure)),
    }
}

// ---------------------------------------------------------------------------
// List.
// ---------------------------------------------------------------------------
/// The scope of a list request: the user's, unless it says otherwise.
pub open spec fn listed_scope(params: MemoryListParamsView) -> MemoryScope {
    match params.scope {
        Some(scope) => scope,
        None => MemoryScope::User,
    }
}

/// A workspace that is none.
pub open spec fn no_workspace() -> WorkspaceRootView {
    WorkspaceRootView { path: Seq::empty(), project_scope: Err(Seq::empty()) }
}

/// What a list request asks memory for. The project of the connection counts only
/// for a list of a project.
pub open spec fn native_list(
    params: Result<MemoryListParamsView, Seq<char>>,
    memory_available: bool,
    project: Result<WorkspaceRootView, ProtocolErrorView>,
) -> Result<ListMemoryRequestView, ProtocolErrorView> {
    match params {
        Err(reason) => Err(invalid_params("invalid memory/list params: "@ + reason)),
        Ok(params) => if !memory_available {
            Err(server_error("memory runtime is unavailable"@))
        } else if listed_scope(params) == MemoryScope::Project && project is Err {
            Err(project->Err_0)
        } else {
            Ok(
                ListMemoryRequestView {
                    scope: Some(listed_scope(params)),
                    kind: params.kind,
                    state: params.state,
                    origin: params.origin,
                    text: params.text,
                    cursor: params.cursor,
                    limit: params.limit,
                    workspace_root: if listed_scope(params) == MemoryScope::Project {
                        project->Ok_0
                    } else {
                        no_workspace()
                    },
                },
            )
        },
    }
}

/// The view of the project of a connection.
pub open spec fn project_result(
    project: Result<WorkspaceRoot, ProjectMemoryContextError>,
) -> Result<WorkspaceRootView, ProtocolErrorView> {
    match project {
        Ok(root) => Ok(root@),
        Err(error) => Err(context_failure("memory/list"@, error)),
    }
}

/// Checks a list request.
pub fn native_list_request(
    params: Result<MemoryListParams, String>,
    memory_available: bool,
    project: Result<WorkspaceRoot, ProjectMemoryContextError>,
) -> (result: Result<ListMemoryRequest, ProtocolError>)
    ensures
        response(result) == native_list(
            read_params(params),
            memory_available,
            project_result(project),
        ),
{
    let params = match params {
        Ok(params) => params,
        Err(reason) => return Err(invalid_with("invalid memory/list params: ", reason.as_str())),
    };
    if !memory_available {
        return Err(internal("memory runtime is unavailable"));
    }
    let scope = match params.scope {
        Some(scope) => scope,
        None => MemoryScope::User,
    };
    let workspace_root = if scope == MemoryScope::Project {
        match project {
            Ok(root) => root,
            Err(error) => return Err(
                project_memory_context_error_response("memory/list", &error),
            ),
        }
    } else {
        let none = WorkspaceRoot { path: Vec::new(), project_scope: Err(String::new()) };
        assert(none@ == no_workspace());
        none
    };
    Ok(
        ListMemoryRequest {
            scope: Some(scope),
            kind: params.kind,
            state: params.state,
            origin: params.origin,
            text: params.text,
            cursor: params.cursor,
            limit: params.limit,
            workspace_root,
        },
    )
}

/// Answers a list request, once the command was executed.
pub fn memory_list_response(executed: Result<MemoryCommandResult, MemoryError>) -> (result: Result<
    MemoryListResult,
    ProtocolError,
>)
    ensures
        match executed {
            Ok(MemoryCommandResult::List(page)) => result == Ok::<MemoryListResult, ProtocolError>(
                page,
            ),
            Ok(_) => result matches Err(error) && error@ == server_error(
                "memory/list returned an unexpected result"@,
            ),
            Err(failure) => result matches Err(error) && error@ == memory_failure(
                "memory/list"@,
                failure@,
            ),
        },
{
    match executed {
        Ok(MemoryCommandResult::List(page)) => Ok(page),
        Ok(_) => Err(internal("memory/list returned an unexpected result")),
        Err(failure) => Err(memory_error_response("memory/list", failure)),
    }
}

// ---------------------------------------------------------------------------
// Forget.
// ---------------------------------------------------------------------------
/// Where a deletion comes from: from one session, or from a project whose session
/// has to be found among candidates.
#[derive(Debug, PartialEq, Eq)]
pub enum MemoryMutationSource {
    User(MemorySourceContext),
    Project { candidates: Vec<ProjectMemorySession>, source: MemorySourceBinding },
}

/// The source of a change in a project: the session that its message is bound to,
/// or else the one that was found.
pub open spec fn project_mutation(
    candidates: Seq<ProjectMemorySessionView>,
    source: MemorySourceBindingView,
) -> Result<MemorySourceContextView, MemoryErrorView> {
    match project_source(candidates) {
        Err(error) => Err(error),
        Ok(None) => Err(MemoryErrorView::ProjectSessionRequired),
        Ok(Some(session)) => Ok(
            MemorySourceContextView {
                user_item_id: source.user_item_id,
                session_id: match source.session_id {
                    Some(session_id) => session_id,
                    None => session.session_id,
                },
                turn_id: source.turn_id,
                workspace_root: session.workspace_root,
            },
        ),
    }
}

/// The source of a deletion.
pub open spec fn mutation_context(source: MemoryMutationSource) -> Result<
    MemorySourceContextView,
    MemoryErrorView,
> {
    match source {
        MemoryMutationSource::User(source) => Ok(source@),
        MemoryMutationSource::Project { candidates, source } => project_mutation(
            views(candidates@),
            source@,
        ),
    }
}

/// Finds the source of a change in a project.
pub fn resolve_project_mutation_source(
    candidates: &Vec<ProjectMemorySession>,
    source: MemorySourceBinding,
) -> (result: Result<MemorySourceContext, MemoryError>)
    ensures
        match result {
            Ok(context) => project_mutation(views(candidates@), source@) == Ok::<
                MemorySourceContextView,
                MemoryErrorView,
            >(context@),
            Err(error) => project_mutation(views(candidates@), source@) == Err::<
                MemorySourceContextView,
                MemoryErrorView,
            >(error@),
        },
{
    let (selected, workspace_root) = match resolve_project_memory_source(candidates) {
        Ok(found) => found,
        Err(error) => return Err(error),
    };
    let session_id = match source.session_id {
        Some(session_id) => session_id,
        None => selected,
    };
    Ok(
        MemorySourceContext {
            user_item_id: source.user_item_id,
            session_id,
            turn_id: source.turn_id,
            workspace_root,
        },
    )
}

/// What a request to forget selects.
pub open spec fn selected(params: MemoryForgetParamsView) -> Result<
    MemoryForgetSelectorView,
    Seq<char>,
> {
    match (params.entry_id, params.text) {
        (Some(entry_id), None) => Ok(MemoryForgetSelectorView::EntryId(entry_id)),
        (None, Some(text)) => Ok(MemoryForgetSelectorView::Text(text)),
        (Some(_), Some(_)) => Err("memory forget accepts exactly one of entryId or text"@),
        (None, None) => Err("memory forget requires entryId or text"@),
    }
}

/// What a request to forget asks memory for.
pub open spec fn native_forget(
    params: Result<MemoryForgetParamsView, Seq<char>>,
    memory_available: bool,
    source: Result<MemoryMutationSource, ProtocolError>,
) -> Result<MemoryForgetRequestView, ProtocolErrorView> {
    match params {
        Err(reason) => Err(invalid_params("invalid memory/forget params: "@ + reason)),
        Ok(params) => if !memory_available {
            Err(server_error("memory runtime is unavailable"@))
        } else {
            match selected(params) {
                Err(message) => Err(invalid_params(message)),
                Ok(selector) => match source {
                    Err(error) => Err(error@),
                    Ok(source) => match mutation_context(source) {
                        Err(error) => Err(memory_failure("memory/forget"@, error)),
                        Ok(source) => Ok(
                            MemoryForgetRequestView { selector, scope: params.scope, source },
                        ),
                    },
                },
            }
        },
    }
}

/// Checks a request to forget.
pub fn native_forget_request(
    params: Result<MemoryForgetParams, String>,
    memory_available: bool,
    source: Result<MemoryMutationSource, ProtocolError>,
) -> (result: Result<MemoryForgetRequest, ProtocolError>)
    ensures
        response(result) == native_forget(read_params(params), memory_available, source),
{
    let params = match params {
        Ok(params) => params,
        Err(reason) => return Err(invalid_with("invalid memory/forget params: ", reason.as_str())),
    };
    if !memory_available {
        return Err(internal("memory runtime is unavailable"));
    }
    let selector = match MemoryForgetSelector::from_params(&params) {
        Ok(selector) => selector,
        Err(message) => return Err(invalid(message)),
    };
    let context = match source {
        Err(error) => return Err(error),
        Ok(MemoryMutationSource::User(context)) => context,
        Ok(MemoryMutationSource::Project { candidates, source }) => {
            match resolve_project_mutation_source(&candidates, source) {
                Ok(context) => context,
                Err(error) => return Err(memory_error_response("memory/forget", error)),
            }
        },
    };
    Ok(MemoryForgetRequest { selector, scope: params.scope, source: context })
}

/// The entry that a request names by its ID, if it does.
pub open spec fn exact_target(selector: MemoryForgetSelectorView) -> Option<Seq<char>> {
    match selector {
        MemoryForgetSelectorView::EntryId(entry_id) => Some(entry_id),
        MemoryForgetSelectorView::Text(_) => None,
    }
}

/// Takes the lease for a request to forget.
pub fn authorize_native_forget(
    coordinator: &mut MemoryForgetCoordinator,
    request: &MemoryForgetRequest,
) -> (result: Result<MemoryForgetReservation, ProtocolError>)
    requires
        old(coordinator).well_formed(),
    ensures
        final(coordinator).well_formed(),
        ({
            let step = native_step(
                old(coordinator)@,
                request@.source.session_id,
                exact_target(request@.selector),
            );
            &&& final(coordinator)@ == step.state
            &&& match step.result {
                Ok(reservation) => result == Ok::<MemoryForgetReservation, ProtocolError>(
                    reservation,
                ),
                Err(error) => result matches Err(told) && told@ == invalid_params(
                    tool_error_message(error),
                ),
            }
        }),
{
    let entry_id = match &request.selector {
        MemoryForgetSelector::EntryId(entry_id) => Some(entry_id),
        MemoryForgetSelector::Text(_) => None,
    };
    match coordinator.authorize_native(request.source.session_id, entry_id) {
        Ok(reservation) => Ok(reservation),
        Err(error) => Err(
            ProtocolError { code: ProtocolErrorCode::InvalidParams, message: error.message() },
        ),
    }
}

/// What a client is told of the end of a deletion.
pub open spec fn native_forget_told(
    result: Result<MemoryForgetResultView, MemoryForgetExecutionErrorView>,
) -> Result<MemoryForgetResultView, ProtocolErrorView> {
    match result {
        Ok(forgotten) => Ok(forgotten),
        Err(MemoryForgetExecutionErrorView::Projection(error)) => Err(
            server_error(
                "memory forget committed but projection refresh failed: "@ + error_message(error),
            ),
        ),
        Err(MemoryForgetExecutionErrorView::UnexpectedResult) => Err(
            server_error("memory/forget returned an unexpected result"@),
        ),
        Err(MemoryForgetExecutionErrorView::Storage(error)) => Err(
            memory_failure("memory/forget"@, error),
        ),
        Err(MemoryForgetExecutionErrorView::Coordinator(error)) => Err(
            server_error(tool_error_message(error)),
        ),
    }
}

/// Answers a request to forget, once the command was executed: the lease is used up
/// or given back.
pub fn memory_forget_response(
    coordinator: &mut MemoryForgetCoordinator,
    reservation: MemoryForgetReservation,
    executed: Result<MemoryCommandResult, MemoryError>,
) -> (result: Result<MemoryForgetResult, ProtocolError>)
    requires
        old(coordinator).well_formed(),
    ensures
        final(coordinator).well_formed(),
        final(coordinator)@ == forget_end(
            old(coordinator)@,
            reservation.reservation_id,
            executed,
        ).state,
        response(result) == native_forget_told(
            forget_end(old(coordinator)@, reservation.reservation_id, executed).result,
        ),
{
    match complete_forget_execution(coordinator, reservation, executed) {
        Ok(forgotten) => Ok(forgotten),
        Err(MemoryForgetExecutionError::Projection(error)) => {
            let message = error.message();
            Err(
                ProtocolError {
                    code: ProtocolErrorCode::InternalError,
                    message: concat(
                        "memory forget committed but projection refresh failed: ",
                        message.as_str(),
                    ),
                },
            )
        },
        Err(MemoryForgetExecutionError::UnexpectedResult) => Err(
            internal("memory/forget returned an unexpected result"),
        ),
        Err(MemoryForgetExecutionError::Storage(error)) => Err(
            memory_error_response("memory/forget", error),
        ),
        Err(MemoryForgetExecutionError::Coordinator(error)) => Err(
            ProtocolError { code: ProtocolErrorCode::InternalError, message: error.message() },
        ),
    }
}

// ---------------------------------------------------------------------------
// Laws.
// ---------------------------------------------------------------------------
/// Failures of the store are told alike, whatever they say inside.
pub proof fn law_store_failures_stay_inside(method: Seq<char>, error: MemoryErrorView)
    requires
        error is Directory || error is Database || error is LockPoisoned || error is InvalidCount
            || error is InvalidTimestamp || error is ProjectIdentity || error is InvalidStoredValue
            || error is ForgetCommitted,
    ensures
        memory_failure(method, error) == server_error("memory operation is unavailable"@),
{
}

/// A change that names a message is bound to a running turn whose current message it
/// is; one that names none is bound to nothing.
pub proof fn law_named_message_is_current(
    turns: Seq<ActiveTurnView>,
    source_user_item_id: Option<Seq<char>>,
    operation: Seq<char>,
)
    ensures
        active_source(turns, source_user_item_id, operation) matches Ok(found) ==> {
            &&& found.source is None <==> source_user_item_id is None
            &&& found.source matches Some(binding) ==> exists|i: int|
                0 <= i < turns.len() && Some((#[trigger] turns[i]).session_id) == binding.session_id
                    && Some(turns[i].turn_id) == binding.turn_id && current_message(
                    turns[i].running,
                    turns[i].turn_id,
                    source_user_item_id->Some_0,
                ) is Ok
        },
{
    if let Some(user_item_id) = source_user_item_id {
        crate::rows::lemma_first_match(turns, answers(user_item_id));
    }
}

} // verus!
