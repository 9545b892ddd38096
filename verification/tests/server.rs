//! Memory requests of clients and of agents.

use devo_memory::command_types::{
    MemoryCommand, MemoryCommandResult, MemoryForgetRequest, MemoryForgetSelector,
    MemorySourceContext, ProjectMemorySession, ProjectMemorySessionActivity, WorkspaceRoot,
};
use devo_memory::config::MemoryConfig;
use devo_memory::connections::{
    native_session_ids_for_connection, project_memory_sessions, project_session_ids,
    subscribed_session, EventSubscription, SessionWorkspace, StreamSelector,
};
use devo_memory::core_ids::{ItemId as CoreItemId, SessionId, TurnId};
use devo_memory::current_user_item::{
    current_user_item_text, CurrentUserItemError, InlineTurn, StreamItem,
};
use devo_memory::entries::{remember_entry_at, MemoryWriteMode};
use devo_memory::forget_authorization::{MemoryForgetCoordinator, MemoryToolInvocation};
use devo_memory::forget_execution::{complete_forget_execution, MemoryForgetExecutionError};
use devo_memory::ids::{ItemId, MemoryEntryId};
use devo_memory::memory_error::MemoryError;
use devo_memory::memory_tool_specs::{ForgetCall, RememberCall};
use devo_memory::memory_tools::{
    authorize_agent_forget, finish_agent_forget, finish_search, forget_request,
    memory_tool_error, remember_request, remember_result, search_request, start_agent_forget,
    AgentSession, ToolFacts,
};
use devo_memory::native_memory::{
    authorize_native_forget, memory_error_response, memory_forget_response, memory_list_response,
    memory_remember_response, memory_status_response, native_forget_request, native_list_request,
    native_remember_request, project_memory_context_error_response,
    resolve_active_memory_mutation_source, resolve_project_mutation_source, ActiveTurn,
    MemoryMutationSource, MemorySourceBinding, ProjectMemoryContextError, ProtocolError,
    ProtocolErrorCode,
};
use devo_memory::rpc_memory::{
    MemoryEntry, MemoryForgetParams, MemoryForgetResult, MemoryKind, MemoryListParams,
    MemoryListResult, MemoryOrigin, MemoryRememberParams, MemoryScope, MemorySearchEntry,
    MemorySearchParams, MemorySearchResult, MemoryState, MemoryStatusParams,
};
use devo_memory::runtime::{finish_command, MemoryRuntime};
use devo_memory::sandbox_overlay::{
    sandbox_overlay_for_spawn, SandboxNetworkPermission, SandboxPermissionOverlay,
    SpawnNetworkPermission,
};
use devo_memory::tables::MemoryTables;
use devo_memory::time::Timestamp;
use devo_memory::tool_error::ToolCallError;

const SESSION: SessionId = SessionId { value: 1 };
const TURN: TurnId = TurnId { value: 2 };

fn at(seconds: i64) -> Timestamp {
    Timestamp::new(seconds, 0).expect("an instant")
}

fn root(scope: &str) -> WorkspaceRoot {
    WorkspaceRoot { path: b"/work".to_vec(), project_scope: Ok(scope.to_string()) }
}

fn item_id() -> String {
    CoreItemId { value: 3 }.to_text()
}

fn running(text: &str) -> Option<InlineTurn> {
    Some(InlineTurn {
        turn_id: TURN,
        items: vec![StreamItem {
            turn_id: TURN,
            item_id: CoreItemId { value: 3 },
            user_message: Some(text.to_string()),
        }],
    })
}

fn invocation() -> MemoryToolInvocation {
    MemoryToolInvocation {
        session_id: SESSION,
        turn_id: TURN,
        user_item_id: ItemId::from_string(item_id()),
    }
}

fn facts(text: &str) -> ToolFacts {
    ToolFacts {
        running: running(text),
        memory_available: true,
        session: Some(AgentSession { parent_session_id: None, workspace_root: root("scope") }),
    }
}

fn remember_params() -> MemoryRememberParams {
    MemoryRememberParams {
        text: "Use tabs".to_string(),
        scope: MemoryScope::User,
        kind: None,
        source_user_item_id: Some(ItemId::from_string(item_id())),
    }
}

fn forget_params(entry_id: &str) -> MemoryForgetParams {
    MemoryForgetParams {
        entry_id: Some(MemoryEntryId::from(entry_id)),
        text: None,
        scope: MemoryScope::User,
        source_user_item_id: Some(ItemId::from_string(item_id())),
    }
}

fn source() -> MemorySourceContext {
    MemorySourceContext {
        user_item_id: Some(ItemId::from_string(item_id())),
        session_id: SESSION,
        turn_id: Some(TURN),
        workspace_root: root("scope"),
    }
}

fn entry(id: &str) -> MemoryEntry {
    MemoryEntry {
        entry_id: MemoryEntryId::from(id),
        scope: MemoryScope::User,
        scope_id: "user".to_string(),
        kind: MemoryKind::Preference,
        normalized_key: "use tabs".to_string(),
        body: "Use tabs".to_string(),
        origin: MemoryOrigin::ExplicitUser,
        state: MemoryState::Retired,
        created_at: at(1),
        updated_at: at(2),
        replacement_entry_id: None,
        provenance: vec![],
    }
}

fn forgotten(id: &str) -> MemoryForgetResult {
    MemoryForgetResult { forgotten: Some(entry(id)), candidates: vec![] }
}

fn invalid(message: &str) -> ProtocolError {
    ProtocolError { code: ProtocolErrorCode::InvalidParams, message: message.to_string() }
}

fn internal(message: &str) -> ProtocolError {
    ProtocolError { code: ProtocolErrorCode::InternalError, message: message.to_string() }
}

/// A runtime that remembers one entry.
fn runtime(id: &str) -> MemoryRuntime {
    let config = MemoryConfig { enabled: true, ..MemoryConfig::default() };
    let mut runtime =
        MemoryRuntime::open(config, MemoryTables::default()).expect("memory runtime");
    let request =
        remember_request(&invocation(), remember_params(), &facts("Use tabs")).expect("request");
    remember_entry_at(
        &mut runtime.tables,
        &request,
        &MemoryWriteMode::Explicit,
        false,
        at(1),
        &MemoryEntryId::from(id),
        &"evidence".to_string(),
    )
    .expect("remembered")
    .expect("an entry");
    runtime
}

#[test]
fn current_user_message_is_found() {
    assert_eq!(
        current_user_item_text(&running("hello"), TURN, &item_id()),
        Ok("hello".to_string())
    );
    let other_item = current_user_item_text(&running("hello"), TURN, "other");
    assert_eq!(other_item, Err(CurrentUserItemError::ItemMismatch));
    assert_eq!(
        CurrentUserItemError::ItemMismatch.message(),
        "memory tool source must be the current user message"
    );
    let other_turn = current_user_item_text(&running("hello"), TurnId { value: 9 }, &item_id());
    assert_eq!(other_turn, Err(CurrentUserItemError::TurnMismatch));
    assert_eq!(
        CurrentUserItemError::TurnMismatch.message(),
        "memory tool turn context does not match the active turn"
    );
    let idle = current_user_item_text(&None, TURN, &item_id());
    assert_eq!(idle, Err(CurrentUserItemError::ActiveTurnUnavailable));
    assert_eq!(
        CurrentUserItemError::ActiveTurnUnavailable.message(),
        "memory tool requires an active turn with a current user message"
    );
}

#[test]
fn agent_remembers_the_current_message() {
    let request =
        remember_request(&invocation(), remember_params(), &facts("Use tabs")).expect("request");
    assert_eq!(request.text, "Use tabs");
    assert_eq!(request.source, source());
    let other = MemoryRememberParams {
        source_user_item_id: Some(ItemId::from("item-other")),
        ..remember_params()
    };
    assert_eq!(
        remember_request(&invocation(), other, &facts("Use tabs")),
        Err(ToolCallError::InvalidInput(
            "memory_remember source must match the current user message context".to_string()
        ))
    );
}

#[test]
fn agent_needs_a_root_session_with_memory() {
    let away = ToolFacts { memory_available: false, ..facts("Use tabs") };
    assert_eq!(
        remember_request(&invocation(), remember_params(), &away),
        Err(ToolCallError::NeedsConfiguration("memory runtime is unavailable".to_string()))
    );
    let gone = ToolFacts { session: None, ..facts("Use tabs") };
    assert_eq!(
        remember_request(&invocation(), remember_params(), &gone),
        Err(ToolCallError::InvalidInput("session not found".to_string()))
    );
    let child = ToolFacts {
        session: Some(AgentSession {
            parent_session_id: Some(SessionId { value: 8 }),
            workspace_root: root("scope"),
        }),
        ..facts("Use tabs")
    };
    assert_eq!(
        remember_request(&invocation(), remember_params(), &child),
        Err(ToolCallError::Denied("sub-agents cannot mutate user memory".to_string()))
    );
}

#[test]
fn store_errors_are_told_to_agents_with_care() {
    assert_eq!(
        memory_tool_error(MemoryError::Database("no such table: secrets".to_string())),
        ToolCallError::InternalError("memory operation is unavailable".to_string())
    );
    assert_eq!(
        remember_result(Err(MemoryError::Disabled)),
        Err(ToolCallError::NeedsConfiguration("memory is disabled".to_string()))
    );
    assert_eq!(
        remember_result(Ok(MemoryCommandResult::Forget(forgotten("mem_1")))),
        Err(ToolCallError::InternalError(
            "memory_remember returned an unexpected result".to_string()
        ))
    );
    assert_eq!(remember_result(Ok(MemoryCommandResult::Remember(entry("m")))), Ok(entry("m")));
}

#[test]
fn agent_forgets_what_the_user_names() {
    let mut memory = runtime("mem_1");
    let mut coordinator = MemoryForgetCoordinator::new();
    let text = "Forget memory entry mem_1";
    let call = forget_request(&invocation(), &forget_params("mem_1"), &facts(text)).expect("call");
    let started = start_agent_forget(
        &mut coordinator,
        &mut memory,
        &invocation(),
        &call,
        5,
        at(9),
        &"revocation".to_string(),
    )
    .expect("authorized");
    assert!(coordinator.state.active.is_some());
    let executed = started.executed.expect("forgotten");
    let result = finish_agent_forget(
        &mut coordinator,
        started.reservation,
        Ok(MemoryCommandResult::Forget(executed.result)),
    )
    .expect("finished");
    assert_eq!(result.forgotten.expect("an entry").entry_id, MemoryEntryId::from("mem_1"));
    assert!(coordinator.state.active.is_none());
    assert_eq!(memory.tables.entries[0].state, "retired");
}

#[test]
fn agent_does_not_forget_on_its_own() {
    let mut memory = runtime("mem_1");
    let before = memory.tables.clone();
    let mut coordinator = MemoryForgetCoordinator::new();
    let call = forget_request(&invocation(), &forget_params("mem_1"), &facts("tidy up"))
        .expect("call");
    let refused = start_agent_forget(
        &mut coordinator,
        &mut memory,
        &invocation(),
        &call,
        5,
        at(9),
        &"revocation".to_string(),
    );
    assert!(refused.is_err());
    assert_eq!(memory.tables, before);
    assert!(coordinator.state.active.is_none());
}

#[test]
fn authorized_forget_runs_as_a_command() {
    let mut memory = runtime("mem_1");
    let mut coordinator = MemoryForgetCoordinator::new();
    let text = "Forget memory entry mem_1";
    let call = forget_request(&invocation(), &forget_params("mem_1"), &facts(text)).expect("call");
    let lease = authorize_agent_forget(&mut coordinator, &memory, &invocation(), &call, 5)
        .expect("authorized");
    assert_eq!(lease.prepared.scope, MemoryScope::User);
    assert!(coordinator.state.active.is_some());
    let second = authorize_agent_forget(&mut coordinator, &memory, &invocation(), &call, 6);
    assert!(second.is_err());
    let executed = memory
        .execute_command(MemoryCommand::Forget(call.request), false)
        .and_then(|outcome| finish_command(outcome, Ok(())));
    let result = finish_agent_forget(&mut coordinator, lease.reservation, executed)
        .expect("finished");
    assert_eq!(result.forgotten.expect("an entry").entry_id, MemoryEntryId::from("mem_1"));
    assert!(coordinator.state.active.is_none());
    assert_eq!(memory.tables.entries[0].state, "retired");
}

#[test]
fn calls_are_bound_to_a_message() {
    let call = RememberCall {
        session_id: invocation().session_id,
        turn_id: invocation().turn_id,
        params: remember_params(),
    };
    assert_eq!(call.invocation(), Ok(invocation()));
    let unbound = ForgetCall {
        session_id: invocation().session_id,
        turn_id: invocation().turn_id,
        params: MemoryForgetParams { source_user_item_id: None, ..forget_params("mem_1") },
    };
    assert_eq!(
        unbound.invocation(),
        Err(ToolCallError::InvalidInput(
            "memory tool requires an active turn with a current user message".to_string()
        ))
    );
}

#[test]
fn agent_forgets_by_id_alone() {
    let by_text = MemoryForgetParams {
        entry_id: None,
        text: Some("tabs".to_string()),
        ..forget_params("mem_1")
    };
    assert!(forget_request(&invocation(), &by_text, &facts("forget tabs")).is_err());
}

#[test]
fn search_offers_its_candidates() {
    let params = MemorySearchParams {
        query: "tabs".to_string(),
        scope: None,
        kind: None,
        state: None,
    };
    let request = search_request(&invocation(), params, &facts("forget tabs")).expect("request");
    assert_eq!(request.query, "tabs");
    assert_eq!(request.scope, MemoryScope::User);
    let mut coordinator = MemoryForgetCoordinator::new();
    let found = MemorySearchResult {
        data: vec![MemorySearchEntry {
            entry_id: MemoryEntryId::from("mem_1"),
            scope: MemoryScope::User,
            kind: MemoryKind::Preference,
            state: MemoryState::Active,
            summary: "Use tabs".to_string(),
        }],
    };
    let result = finish_search(&mut coordinator, &invocation(), Ok(found.clone()), 5);
    assert_eq!(result, Ok(found));
    let pending = coordinator.state.pending_by_session.get(SESSION).expect("a selection");
    assert_eq!(pending.candidates.len(), 1);
    assert_eq!(
        finish_search(&mut coordinator, &invocation(), Err(MemoryError::Disabled), 6),
        Err(ToolCallError::NeedsConfiguration("memory is disabled".to_string()))
    );
}

#[test]
fn forget_execution_frees_the_lease() {
    let mut coordinator = MemoryForgetCoordinator::new();
    let id = MemoryEntryId::from("mem_1");
    let reservation = coordinator.authorize_native(SESSION, Some(&id)).expect("reserved");
    let result = complete_forget_execution(
        &mut coordinator,
        reservation,
        Ok(MemoryCommandResult::Forget(forgotten("mem_1"))),
    );
    assert_eq!(result, Ok(forgotten("mem_1")));
    assert!(coordinator.state.active.is_none());

    let reservation = coordinator.authorize_native(SESSION, Some(&id)).expect("reserved");
    let failed = complete_forget_execution(
        &mut coordinator,
        reservation,
        Err(MemoryError::LockPoisoned),
    );
    assert_eq!(failed, Err(MemoryForgetExecutionError::Storage(MemoryError::LockPoisoned)));
    assert!(coordinator.state.active.is_none());

    let reservation = coordinator.authorize_native(SESSION, Some(&id)).expect("reserved");
    let unexpected = complete_forget_execution(
        &mut coordinator,
        reservation,
        Ok(MemoryCommandResult::Remember(entry("mem_1"))),
    );
    assert_eq!(unexpected, Err(MemoryForgetExecutionError::UnexpectedResult));

    let reservation = coordinator.authorize_native(SESSION, Some(&id)).expect("reserved");
    let committed = MemoryError::ForgetCommitted {
        result: Box::new(forgotten("mem_1")),
        projection_error: Box::new(MemoryError::Directory("disk full".to_string())),
    };
    let unshown = complete_forget_execution(&mut coordinator, reservation, Err(committed));
    assert!(matches!(unshown, Err(MemoryForgetExecutionError::Projection(_))));
    assert!(coordinator.state.active.is_none());
}

#[test]
fn store_failures_stay_inside() {
    assert_eq!(
        memory_error_response("memory/list", MemoryError::Database("secret".to_string())),
        internal("memory operation is unavailable")
    );
    assert_eq!(
        memory_error_response("memory/remember", MemoryError::SecretContentRejected),
        invalid("memory content was rejected for safety")
    );
    let missing =
        project_memory_context_error_response("memory/list", &ProjectMemoryContextError::NoSession);
    assert_eq!(missing.code, ProtocolErrorCode::InvalidParams);
    assert!(missing.message.contains("memory/list"));
}

#[test]
fn unreadable_params_are_told() {
    let broken = || "bad field".to_string();
    assert_eq!(
        memory_status_response(Err(broken()), true, None),
        Err(invalid("invalid memory/status params: bad field"))
    );
    assert_eq!(
        native_remember_request(Err(broken()), true, Ok(source())),
        Err(invalid("invalid memory/remember params: bad field"))
    );
    assert_eq!(
        native_list_request(Err(broken()), true, Ok(root("scope"))),
        Err(invalid("invalid memory/list params: bad field"))
    );
    assert_eq!(
        native_forget_request(Err(broken()), true, Ok(MemoryMutationSource::User(source()))),
        Err(invalid("invalid memory/forget params: bad field"))
    );
}

#[test]
fn status_without_runtime_is_unavailable() {
    let status = memory_status_response(Ok(MemoryStatusParams {}), true, None).expect("a status");
    assert!(status.enabled);
    assert_eq!(status.storage_health, "unavailable");
    assert_eq!(status.entry_count, 0);
}

#[test]
fn named_message_has_to_be_current() {
    let turns = vec![ActiveTurn { session_id: SESSION, turn_id: TURN, running: running("hi") }];
    let named = ItemId::from_string(item_id());
    let resolved =
        resolve_active_memory_mutation_source(&turns, Some(&named), "remember").expect("current");
    assert_eq!(resolved.active_session_ids, vec![SESSION]);
    assert_eq!(
        resolved.source,
        Some(MemorySourceBinding {
            session_id: Some(SESSION),
            turn_id: Some(TURN),
            user_item_id: Some(named),
        })
    );
    let other = ItemId::from("other");
    assert!(resolve_active_memory_mutation_source(&turns, Some(&other), "remember").is_err());
}

#[test]
fn clients_remember_and_list() {
    let params = remember_params();
    let request = native_remember_request(Ok(params.clone()), true, Ok(source())).expect("request");
    assert_eq!(request.text, params.text);
    assert_eq!(request.source, source());
    assert_eq!(
        native_remember_request(Ok(params), false, Ok(source())),
        Err(internal("memory runtime is unavailable"))
    );
    assert_eq!(
        memory_remember_response(Ok(MemoryCommandResult::Remember(entry("m")))),
        Ok(entry("m"))
    );
    assert_eq!(
        memory_remember_response(Ok(MemoryCommandResult::Forget(forgotten("m")))),
        Err(internal("memory/remember returned an unexpected result"))
    );
    let list = MemoryListParams {
        scope: Some(MemoryScope::Project),
        kind: None,
        state: None,
        origin: None,
        text: None,
        cursor: None,
        limit: Some(3),
    };
    let request = native_list_request(Ok(list.clone()), true, Ok(root("scope"))).expect("request");
    assert_eq!(request.limit, Some(3));
    assert_eq!(request.workspace_root, root("scope"));
    assert!(native_list_request(Ok(list), true, Err(ProjectMemoryContextError::Ambiguous)).is_err());
    let page = MemoryListResult { data: vec![entry("m")], next_cursor: None };
    assert_eq!(memory_list_response(Ok(MemoryCommandResult::List(page.clone()))), Ok(page));
    assert_eq!(
        memory_list_response(Ok(MemoryCommandResult::Remember(entry("m")))),
        Err(internal("memory/list returned an unexpected result"))
    );
}

#[test]
fn clients_forget() {
    let mut coordinator = MemoryForgetCoordinator::new();
    let request = native_forget_request(
        Ok(forget_params("mem_1")),
        true,
        Ok(MemoryMutationSource::User(source())),
    )
    .expect("request");
    assert_eq!(
        request,
        MemoryForgetRequest {
            selector: MemoryForgetSelector::EntryId(MemoryEntryId::from("mem_1")),
            scope: MemoryScope::User,
            source: source(),
        }
    );
    let reservation = authorize_native_forget(&mut coordinator, &request).expect("reserved");
    assert!(authorize_native_forget(&mut coordinator, &request).is_err());
    let result = memory_forget_response(
        &mut coordinator,
        reservation,
        Ok(MemoryCommandResult::Forget(forgotten("mem_1"))),
    );
    assert_eq!(result, Ok(forgotten("mem_1")));
    let reservation = authorize_native_forget(&mut coordinator, &request).expect("reserved");
    assert_eq!(
        memory_forget_response(
            &mut coordinator,
            reservation,
            Ok(MemoryCommandResult::Remember(entry("m"))),
        ),
        Err(internal("memory/forget returned an unexpected result"))
    );
}

#[test]
fn project_source_is_one_project() {
    let session = |value, scope: &str| ProjectMemorySession {
        session_id: SessionId { value },
        workspace_root: Some(root(scope)),
        activity: ProjectMemorySessionActivity::Inactive,
    };
    let binding = MemorySourceBinding { session_id: None, turn_id: None, user_item_id: None };
    let same = vec![session(4, "a"), session(5, "a")];
    let resolved = resolve_project_mutation_source(&same, binding.clone()).expect("one project");
    assert_eq!(resolved.workspace_root.project_scope, Ok("a".to_string()));
    let different = vec![session(4, "a"), session(5, "b")];
    assert_eq!(
        resolve_project_mutation_source(&different, binding.clone()),
        Err(MemoryError::AmbiguousProjectScope)
    );
    assert_eq!(
        resolve_project_mutation_source(&vec![], binding),
        Err(MemoryError::ProjectSessionRequired)
    );
}

#[test]
fn sessions_of_a_connection_are_found() {
    let text = SessionId { value: 7 }.to_text();
    let subscription = |connection_id, session_id: &str| EventSubscription {
        connection_id,
        selectors: vec![
            StreamSelector::Other,
            StreamSelector::Session { session_id: session_id.to_string() },
        ],
    };
    let subscriptions = vec![subscription(1, &text), subscription(1, "broken"), subscription(2, &text)];
    assert_eq!(
        native_session_ids_for_connection(&subscriptions, 1),
        vec![SessionId { value: 7 }]
    );
    assert!(native_session_ids_for_connection(&subscriptions, 3).is_empty());
    assert_eq!(subscribed_session(&vec![None, Some(SESSION)]), Some(SESSION));
    let both = project_session_ids(&vec![SESSION], &vec![SessionId { value: 7 }, SESSION]);
    assert_eq!(both, vec![SESSION, SessionId { value: 7 }]);
    let sessions = project_memory_sessions(
        vec![
            SessionWorkspace { session_id: SESSION, workspace_root: Some(root("a")) },
            SessionWorkspace { session_id: SessionId { value: 7 }, workspace_root: None },
        ],
        &vec![SESSION],
    );
    assert_eq!(sessions[0].activity, ProjectMemorySessionActivity::Active);
    assert_eq!(sessions[1].activity, ProjectMemorySessionActivity::Inactive);
    assert_eq!(sessions[1].workspace_root, None);
}

#[test]
fn sandbox_overlay_keeps_its_permissions() {
    assert_eq!(sandbox_overlay_for_spawn(None), None);
    let overlay = SandboxPermissionOverlay {
        network: SandboxNetworkPermission::Enabled,
        read_paths: vec!["/usr".to_string()],
        write_paths: vec!["/tmp".to_string()],
    };
    let spawned = sandbox_overlay_for_spawn(Some(&overlay)).expect("an overlay");
    assert_eq!(spawned.network, SpawnNetworkPermission::Enabled);
    assert_eq!(spawned.read_paths, overlay.read_paths);
    assert_eq!(spawned.write_paths, overlay.write_paths);
}
