//! Laws of the commands of memory: what each hands to the store and gives back, what a
//! turn recalls, and what a client is told.

use vstd::prelude::*;

use crate::after_turn::{continues_goal, step_after, AfterTurn};
use crate::command_types::{
    ListMemoryRequestView, MemoryCommand, MemoryForgetSelectorView, MemoryForgetSourceView,
    MemoryRememberRequestView, MemorySourceContextView, PreparedMemoryView, ProjectMemoryOperation,
    ProjectMemorySessionActivity, ProjectMemorySessionView, WorkspaceRootView,
};
use crate::config::{MemoryConfig, MemorySetting};
use crate::connections::{
    is_selected, project_session, selects, subscribes, united_sessions, EventSubscription,
    SessionWorkspace, StreamSelector,
};
use crate::core_ids::SessionId;
use crate::current_user_item::current_message;
use crate::entries::{remember_step, MemoryWriteModeView};
use crate::forget::{forget_step, prepared_forget, project_source};
use crate::forget_execution::MemoryForgetExecutionErrorView;
use crate::ids::{uuid_text, uuid_value};
use crate::memory_error::{error_message, MemoryErrorView};
use crate::native_memory::{
    active_source, answers, context_failure, exact_target, memory_failure, mutation_context,
    native_forget, native_forget_told, native_list, native_remember, ActiveTurnView,
    MemoryMutationSource, ProjectMemoryContextError, ProtocolError, ProtocolErrorCode,
    ProtocolErrorView,
};
use crate::queries::{listed_page, MemoryListMode};
use crate::rollout::{
    InternalRecordV2View, LegacyTurnStatus, RolloutLine, RolloutLineV2View,
    SessionSettingsFieldView,
};
use crate::rows::{lemma_first_match, lemma_is_first_match, lemma_no_match};
use crate::rpc_memory::{
    MemoryForgetParamsView, MemoryForgetResultView, MemoryListParamsView, MemoryRememberParamsView,
    MemoryScope, MemoryState,
};
use crate::runtime::{command_step, turn_memory, CommandOutcomeView, Fresh};
use crate::session::SessionSettingsView;
use crate::session_memory::{
    field_is, inherited_setting, is_settings_batch, is_settings_line, is_settings_record,
    later_epoch, patch_plan, patched_snapshot, planned_settings, records_updates, replayed_setting,
    ReplayedSettingView, SessionMemorySettingsSnapshot, SessionSettingsPatch, SettingsLineView,
    SettingsUpdateView,
};
use crate::session_state::TurnMetadataView;
use crate::status::last_scan;
use crate::tables::MemoryTablesView;
use crate::text::{opt_view, views};
use crate::time::Timestamp;
use crate::tool_error::tool_error_message;
use crate::tool_laws::{is_answered, law_current_message_is_of_the_turn};

verus! {

// ---------------------------------------------------------------------------
// Commands.
// ---------------------------------------------------------------------------
/// A command to remember writes what it asks for as the user's own word, and gives back
/// the entry that was written, or why it was not.
pub proof fn law_remember_command_writes(
    tables: MemoryTablesView,
    command: MemoryCommand,
    detected: bool,
    fresh: Fresh,
)
    ensures
        command matches MemoryCommand::Remember(request) ==> {
            let step = command_step(true, tables, command, detected, fresh);
            let write = remember_step(
                tables,
                request@,
                MemoryWriteModeView::Explicit,
                detected,
                fresh.at,
                fresh.entry_id,
                fresh.row_id,
            );
            &&& step.tables == write.tables
            &&& write.result matches Ok(Some(remembered)) ==> step.result == Ok::<
                CommandOutcomeView,
                MemoryErrorView,
            >(CommandOutcomeView::Remembered(remembered))
            &&& write.result matches Err(error) ==> step.result == Err::<
                CommandOutcomeView,
                MemoryErrorView,
            >(error)
        },
{
}

/// A command to forget speaks for the session that it comes from, which is taken to be
/// active, and does what the request that it is prepared into does.
pub proof fn law_forget_command_forgets(
    tables: MemoryTablesView,
    command: MemoryCommand,
    detected: bool,
    fresh: Fresh,
)
    ensures
        command matches MemoryCommand::Forget(request) ==> {
            let step = command_step(true, tables, command, detected, fresh);
            let source = MemoryForgetSourceView {
                bound_session_id: Some(request@.source.session_id),
                user_session_id: Some(request@.source.session_id),
                sessions: seq![
                    ProjectMemorySessionView {
                        session_id: request@.source.session_id,
                        workspace_root: Some(request@.source.workspace_root),
                        activity: ProjectMemorySessionActivity::Active,
                    },
                ],
            };
            match prepared_forget(tables, request@.selector, request@.scope, source) {
                Err(error) => step.tables == tables && step.result == Err::<
                    CommandOutcomeView,
                    MemoryErrorView,
                >(error),
                Ok(prepared) => {
                    let done = forget_step(tables, prepared, fresh.at, fresh.row_id);
                    &&& step.tables == done.tables
                    &&& done.result matches Ok(forgotten) ==> step.result == Ok::<
                        CommandOutcomeView,
                        MemoryErrorView,
                    >(CommandOutcomeView::Forgotten(forgotten))
                    &&& done.result matches Err(error) ==> step.result == Err::<
                        CommandOutcomeView,
                        MemoryErrorView,
                    >(error)
                },
            }
        },
{
}

/// A command to list gives back the page for managing memory and changes nothing; the
/// status is told unless the store cannot be read for it.
pub proof fn law_list_command_lists(
    tables: MemoryTablesView,
    command: MemoryCommand,
    detected: bool,
    fresh: Fresh,
)
    ensures
        command matches MemoryCommand::List(request) ==> {
            let step = command_step(true, tables, command, detected, fresh);
            &&& step.tables == tables
            &&& match listed_page(tables, request@, MemoryListMode::Management) {
                Ok(page) => step.result == Ok::<CommandOutcomeView, MemoryErrorView>(
                    CommandOutcomeView::Listed(page),
                ),
                Err(error) => step.result == Err::<CommandOutcomeView, MemoryErrorView>(error),
            }
        },
        command is Status ==> forall|enabled: bool|
            {
                let step = #[trigger] command_step(enabled, tables, command, detected, fresh);
                &&& step.tables == tables
                &&& step.result is Ok <==> last_scan(tables.jobs) is Ok
                &&& step.result is Ok ==> step.result == Ok::<CommandOutcomeView, MemoryErrorView>(
                    CommandOutcomeView::Status,
                )
            },
{
}

/// A command on a project is one on the project of the session that stands for it: it
/// writes into that project, with the source that it names or else that session, or
/// lists that project.
pub proof fn law_project_command_is_of_the_project(
    tables: MemoryTablesView,
    command: MemoryCommand,
    detected: bool,
    fresh: Fresh,
)
    ensures
        command matches MemoryCommand::Project { candidates, operation } ==> {
            let step = command_step(true, tables, command, detected, fresh);
            match project_source(views(candidates@)) {
                Err(error) => step.tables == tables && step.result == Err::<
                    CommandOutcomeView,
                    MemoryErrorView,
                >(error),
                Ok(None) => step.tables == tables && step.result == Err::<
                    CommandOutcomeView,
                    MemoryErrorView,
                >(MemoryErrorView::ProjectSessionRequired),
                Ok(Some(session)) => match operation {
                    ProjectMemoryOperation::Remember {
                        text,
                        kind,
                        source_user_item_id,
                        source_session_id,
                        source_turn_id,
                    } => {
                        let write = remember_step(
                            tables,
                            MemoryRememberRequestView {
                                text: text@,
                                scope: MemoryScope::Project,
                                kind,
                                source: MemorySourceContextView {
                                    user_item_id: opt_view(source_user_item_id),
                                    session_id: match source_session_id {
                                        Some(named) => named,
                                        None => session.session_id,
                                    },
                                    turn_id: source_turn_id,
                                    workspace_root: session.workspace_root,
                                },
                            },
                            MemoryWriteModeView::Explicit,
                            detected,
                            fresh.at,
                            fresh.entry_id,
                            fresh.row_id,
                        );
                        &&& step.tables == write.tables
                        &&& write.result matches Ok(Some(remembered)) ==> step.result == Ok::<
                            CommandOutcomeView,
                            MemoryErrorView,
                        >(CommandOutcomeView::Remembered(remembered))
                        &&& write.result matches Err(error) ==> step.result == Err::<
                            CommandOutcomeView,
                            MemoryErrorView,
                        >(error)
                    },
                    ProjectMemoryOperation::List { kind, state, origin, text, cursor, limit } => {
                        let asked = ListMemoryRequestView {
                            scope: Some(MemoryScope::Project),
                            kind,
                            state,
                            origin,
                            text: opt_view(text),
                            cursor: opt_view(cursor),
                            limit,
                            workspace_root: session.workspace_root,
                        };
                        &&& step.tables == tables
                        &&& match listed_page(tables, asked, MemoryListMode::Management) {
                            Ok(page) => step.result == Ok::<CommandOutcomeView, MemoryErrorView>(
                                CommandOutcomeView::Listed(page),
                            ),
                            Err(error) => step.result == Err::<CommandOutcomeView, MemoryErrorView>(
                                error,
                            ),
                        }
                    },
                },
            }
        },
{
}

/// While memory is off, a change is refused for that, and a list is empty.
pub proof fn law_commands_of_a_disabled_memory(
    tables: MemoryTablesView,
    command: MemoryCommand,
    detected: bool,
    fresh: Fresh,
)
    ensures
        ({
            let step = command_step(false, tables, command, detected, fresh);
            let lists = command is List || (command matches MemoryCommand::Project {
                operation,
                ..
            } && operation is List);
            &&& step.tables == tables
            &&& lists ==> (step.result matches Ok(CommandOutcomeView::Listed(page))
                && page.data.len() == 0 && page.next_cursor is None)
            &&& !lists && !(command is Status) ==> step.result == Err::<
                CommandOutcomeView,
                MemoryErrorView,
            >(MemoryErrorView::Disabled)
        }),
{
}

// ---------------------------------------------------------------------------
// Recall and settings.
// ---------------------------------------------------------------------------
/// A turn recalls only where memory is on and the session recalls, be it by its own
/// choice or by the default that it inherits. What it recalls are the entries of the
/// user that may be recalled, up to the number that is configured.
pub proof fn law_turn_recalls_where_it_may(
    config: MemoryConfig,
    tables: MemoryTablesView,
    workspace_root: WorkspaceRootView,
    session_recall: MemorySetting,
)
    ensures
        ({
            let recalled = turn_memory(config, tables, workspace_root, session_recall);
            let recalls = config.enabled && (session_recall == MemorySetting::On || (
            session_recall == MemorySetting::Inherit && config.default_recall
                == MemorySetting::On));
            &&& !recalls ==> (recalled matches Ok(memory) && memory.project_scope_id is None
                && memory.user_entries.len() == 0)
            &&& recalls ==> (workspace_root.project_scope matches Err(message) ==> recalled
                == Err::<PreparedMemoryView, MemoryErrorView>(
                MemoryErrorView::ProjectIdentity(message),
            ))
            &&& recalls ==> (workspace_root.project_scope matches Ok(project) ==> {
                let asked = ListMemoryRequestView {
                    scope: Some(MemoryScope::User),
                    kind: None,
                    state: Some(MemoryState::Active),
                    origin: None,
                    text: None,
                    cursor: None,
                    limit: Some(config.max_entries_per_turn),
                    workspace_root,
                };
                &&& recalled matches Ok(memory) ==> memory.project_scope_id == Some(project)
                &&& config.max_entries_per_turn == 0 ==> (recalled matches Ok(memory)
                    && memory.user_entries.len() == 0)
                &&& config.max_entries_per_turn > 0 ==> match listed_page(
                    tables,
                    asked,
                    MemoryListMode::Recallable,
                ) {
                    Ok(page) => recalled matches Ok(memory) && memory.user_entries == page.data,
                    Err(error) => recalled == Err::<PreparedMemoryView, MemoryErrorView>(error),
                }
            })
        }),
{
}

/// A patch sets what it says and leaves what it does not say; its version counts it if
/// it changed anything.
pub proof fn law_patch_sets_what_it_says(
    snapshot: SessionMemorySettingsSnapshot,
    recall: Option<MemorySetting>,
    contribution: Option<MemorySetting>,
)
    ensures
        ({
            let after = patched_snapshot(snapshot, recall, contribution);
            &&& recall matches Some(recall) ==> after.settings.recall == recall
            &&& recall is None ==> after.settings.recall == snapshot.settings.recall
            &&& contribution matches Some(contribution) ==> after.settings.contribution
                == contribution
            &&& contribution is None ==> after.settings.contribution
                == snapshot.settings.contribution
            &&& after.settings == snapshot.settings ==> after.version == snapshot.version
            &&& after.settings != snapshot.settings && snapshot.version < u64::MAX
                ==> after.version == snapshot.version + 1
            &&& snapshot.version == u64::MAX ==> after.version == u64::MAX
        }),
{
}

/// A plan for a patch records exactly what the patch changes: recall first, each under
/// its own field, with the value that the patch says.
pub proof fn law_plan_records_what_changes(
    current: SessionSettingsView,
    patch: SessionSettingsPatch,
)
    ensures
        ({
            let plan = patch_plan(current, Some(patch));
            let after = planned_settings(current, plan);
            let recall_changes = patch.memory_recall is Some && patch.memory_recall != Some(
                current.memory_recall,
            );
            let contribution_changes = patch.memory_contribution is Some
                && patch.memory_contribution != Some(current.memory_contribution);
            &&& plan.updates.len() == if recall_changes && contribution_changes {
                2nat
            } else if recall_changes || contribution_changes {
                1
            } else {
                0
            }
            &&& recall_changes ==> plan.updates[0].field == SessionSettingsFieldView::MemoryRecall
                && Some(plan.updates[0].setting) == patch.memory_recall
            &&& contribution_changes ==> plan.updates.last().field
                == SessionSettingsFieldView::MemoryContribution && Some(
                plan.updates.last().setting,
            ) == patch.memory_contribution
            &&& after.memory_recall == match patch.memory_recall {
                Some(recall) => recall,
                None => current.memory_recall,
            }
            &&& after.memory_contribution == match patch.memory_contribution {
                Some(contribution) => contribution,
                None => current.memory_contribution,
            }
            &&& after.permission_profile == current.permission_profile
            &&& after.reasoning_effort == current.reasoning_effort
            &&& after.mode == current.mode
            &&& after.sandbox_profile == current.sandbox_profile
            &&& after.effective_context_window == current.effective_context_window
        }),
        patch_plan(current, None).updates.len() == 0,
{
}

/// A setting reads back as it is recorded first under its field; what is not recorded,
/// or does not read as a setting, is inherited. Only what is not inherited is recorded
/// for a new session.
pub proof fn law_settings_read_back(
    values: Seq<ReplayedSettingView>,
    field: SessionSettingsFieldView,
    i: int,
    setting: MemorySetting,
)
    ensures
        0 <= i < values.len() && values[i].field == field && (forall|j: int|
            0 <= j < i ==> (#[trigger] values[j]).field != field) ==> match values[i].setting {
            Some(setting) => replayed_setting(values, field) == setting,
            None => replayed_setting(values, field) == MemorySetting::Inherit,
        },
        (forall|j: int| 0 <= j < values.len() ==> (#[trigger] values[j]).field != field)
            ==> replayed_setting(values, field) == MemorySetting::Inherit,
        inherited_setting(setting) is None <==> setting == MemorySetting::Inherit,
        inherited_setting(setting) matches Some(recorded) ==> recorded == setting,
{
    let accepts = field_is(field);
    if 0 <= i < values.len() && values[i].field == field && (forall|j: int|
        0 <= j < i ==> (#[trigger] values[j]).field != field) {
        lemma_is_first_match(values, accepts, i);
    }
    if forall|j: int| 0 <= j < values.len() ==> (#[trigger] values[j]).field != field {
        lemma_no_match(values, accepts);
    }
}

// ---------------------------------------------------------------------------
// Clients.
// ---------------------------------------------------------------------------
/// What a client can mend is a fault of its request, told by its message; all else is a
/// fault of the server.
pub proof fn law_clients_are_told_what_they_can_mend(method: Seq<char>, error: MemoryErrorView)
    ensures
        ({
            let told = memory_failure(method, error);
            &&& told.code == ProtocolErrorCode::InvalidParams <==> error is InvalidRequest || error
                is SecretContentRejected || error is ProjectSessionRequired || error
                is AmbiguousProjectScope || error is ProjectSessionUnavailable
            &&& error matches MemoryErrorView::InvalidRequest(message) ==> told.message == message
            &&& error is SecretContentRejected ==> told.message
                == "memory content was rejected for safety"@
            &&& error is Disabled ==> told.message == "memory is disabled"@
            &&& error is ProjectSessionRequired ==> told.message == method
                + " Project scope requires a session-bound connection"@
            &&& error is AmbiguousProjectScope ==> told.message == method
                + " Project scope has ambiguous Native Session selectors"@
            &&& error is ProjectSessionUnavailable ==> told.message == method
                + " Project scope requires a session with a workspace root"@
            &&& told.code == ProtocolErrorCode::InternalError && !(error is Disabled)
                ==> told.message == "memory operation is unavailable"@
        }),
{
}

/// Why a project has no session is a fault of the request, told by its kind.
pub proof fn law_missing_project_is_the_clients_fault(
    method: Seq<char>,
    error: ProjectMemoryContextError,
)
    ensures
        ({
            let told = context_failure(method, error);
            &&& told.code == ProtocolErrorCode::InvalidParams
            &&& error is NoSession ==> told.message == method
                + " Project scope requires a session-bound connection"@
            &&& error is Ambiguous ==> told.message == method
                + " Project scope has ambiguous Native Session selectors"@
            &&& error is SessionUnavailable ==> told.message == method
                + " Project scope requires a session with a workspace root"@
            &&& error is ProjectIdentity ==> told.message == method
                + " Project scope identity is unavailable"@
        }),
{
}

/// A request of a client to remember is what its parameters say, from the source that
/// was found; it fails for its parameters, then for want of a memory, then for its
/// source.
pub proof fn law_client_remembers_what_it_says(
    params: Result<MemoryRememberParamsView, Seq<char>>,
    memory_available: bool,
    source: Result<MemorySourceContextView, ProtocolErrorView>,
)
    ensures
        ({
            let asked = native_remember(params, memory_available, source);
            &&& asked is Ok <==> params is Ok && memory_available && source is Ok
            &&& asked matches Ok(request) ==> request.text == params->Ok_0.text && request.scope
                == params->Ok_0.scope && request.kind == params->Ok_0.kind && request.source
                == source->Ok_0
            &&& params matches Err(reason) ==> (asked matches Err(error) && error.code
                == ProtocolErrorCode::InvalidParams && error.message
                == "invalid memory/remember params: "@ + reason)
            &&& params is Ok && !memory_available ==> (asked matches Err(error) && error.code
                == ProtocolErrorCode::InternalError && error.message
                == "memory runtime is unavailable"@)
            &&& params is Ok && memory_available ==> (source matches Err(error) ==> asked == Err::<
                MemoryRememberRequestView,
                ProtocolErrorView,
            >(error))
        }),
{
}

/// A request of a client to list is what its parameters say, of the user unless they say
/// the project, which then has to be known.
pub proof fn law_client_lists_what_it_says(
    params: Result<MemoryListParamsView, Seq<char>>,
    memory_available: bool,
    project: Result<WorkspaceRootView, ProtocolErrorView>,
)
    ensures
        ({
            let asked = native_list(params, memory_available, project);
            let of_project = params is Ok && params->Ok_0.scope == Some(MemoryScope::Project);
            &&& asked is Ok <==> params is Ok && memory_available && (of_project ==> project is Ok)
            &&& asked matches Ok(request) ==> {
                &&& request.scope == Some(MemoryScope::Project) <==> of_project
                &&& request.scope == Some(MemoryScope::User) <==> !of_project
                &&& request.kind == params->Ok_0.kind
                &&& request.state == params->Ok_0.state
                &&& request.origin == params->Ok_0.origin
                &&& request.text == params->Ok_0.text
                &&& request.cursor == params->Ok_0.cursor
                &&& request.limit == params->Ok_0.limit
                &&& of_project ==> request.workspace_root == project->Ok_0
            }
            &&& params matches Err(reason) ==> (asked matches Err(error) && error.code
                == ProtocolErrorCode::InvalidParams && error.message
                == "invalid memory/list params: "@ + reason)
            &&& params is Ok && !memory_available ==> (asked matches Err(error) && error.code
                == ProtocolErrorCode::InternalError && error.message
                == "memory runtime is unavailable"@)
            &&& of_project && memory_available ==> (project matches Err(error) ==> asked == Err::<
                ListMemoryRequestView,
                ProtocolErrorView,
            >(error))
        }),
{
}

/// A request of a client to forget names one thing, an ID or a text, and is about that,
/// in the scope that it says and from the source that was found. Its permission is for
/// the ID, if it names one.
pub proof fn law_client_forgets_what_it_names(
    params: Result<MemoryForgetParamsView, Seq<char>>,
    memory_available: bool,
    source: Result<MemoryMutationSource, ProtocolError>,
)
    ensures
        ({
            let asked = native_forget(params, memory_available, source);
            let id = params->Ok_0.entry_id;
            let text = params->Ok_0.text;
            &&& asked matches Ok(request) ==> {
                &&& params is Ok && memory_available && source is Ok
                &&& request.scope == params->Ok_0.scope
                &&& id is Some <==> text is None
                &&& id matches Some(id) ==> request.selector == MemoryForgetSelectorView::EntryId(
                    id,
                ) && exact_target(request.selector) == Some(id)
                &&& text matches Some(text) ==> request.selector == MemoryForgetSelectorView::Text(
                    text,
                ) && exact_target(request.selector) is None
                &&& mutation_context(source->Ok_0) == Ok::<
                    MemorySourceContextView,
                    MemoryErrorView,
                >(request.source)
            }
            &&& params is Ok && memory_available && id is Some && text is Some ==> (
            asked matches Err(error) && error.code == ProtocolErrorCode::InvalidParams
                && error.message == "memory forget accepts exactly one of entryId or text"@)
            &&& params is Ok && memory_available && id is None && text is None ==> (
            asked matches Err(error) && error.code == ProtocolErrorCode::InvalidParams
                && error.message == "memory forget requires entryId or text"@)
            &&& params is Ok && memory_available && (id is Some <==> text is None) && source is Ok
                ==> (asked is Ok <==> mutation_context(source->Ok_0) is Ok)
            &&& params matches Err(reason) ==> (asked matches Err(error) && error.code
                == ProtocolErrorCode::InvalidParams && error.message
                == "invalid memory/forget params: "@ + reason)
            &&& params is Ok && !memory_available ==> (asked matches Err(error) && error.code
                == ProtocolErrorCode::InternalError && error.message
                == "memory runtime is unavailable"@)
        }),
{
}

/// A change comes from the user's session as it is, or from the session that stands for
/// the project, unless the change is bound to another.
pub proof fn law_change_comes_from_its_source(source: MemoryMutationSource)
    ensures
        source matches MemoryMutationSource::User(context) ==> mutation_context(source) == Ok::<
            MemorySourceContextView,
            MemoryErrorView,
        >(context@),
        source matches MemoryMutationSource::Project { candidates, source: binding } ==> {
            let found = mutation_context(source);
            match project_source(views(candidates@)) {
                Err(error) => found == Err::<MemorySourceContextView, MemoryErrorView>(error),
                Ok(None) => found == Err::<MemorySourceContextView, MemoryErrorView>(
                    MemoryErrorView::ProjectSessionRequired,
                ),
                Ok(Some(session)) => found matches Ok(context) && context.workspace_root
                    == session.workspace_root && context.user_item_id == binding@.user_item_id
                    && context.turn_id == binding@.turn_id && (binding@.session_id is Some ==> Some(
                    context.session_id,
                ) == binding@.session_id) && (binding@.session_id is None ==> context.session_id
                    == session.session_id),
            }
        },
{
}

/// A change that names a message is bound to the first running turn that the message is
/// the current one of, with its session; one that names none is bound to nothing, and a
/// message that no running turn answers is refused. All running sessions are told of.
pub proof fn law_change_is_bound_to_its_message(
    turns: Seq<ActiveTurnView>,
    source_user_item_id: Option<Seq<char>>,
    operation: Seq<char>,
)
    ensures
        ({
            let found = active_source(turns, source_user_item_id, operation);
            &&& found matches Ok(source) ==> {
                &&& source.active_session_ids.len() == turns.len()
                &&& forall|i: int|
                    0 <= i < turns.len() ==> #[trigger] source.active_session_ids[i]
                        == turns[i].session_id
            }
            &&& source_user_item_id is None ==> (found matches Ok(source) && source.source is None)
            &&& source_user_item_id matches Some(id) ==> {
                &&& turns.len() == 0 ==> (found matches Err(error) && error.code
                    == ProtocolErrorCode::InvalidParams && error.message == "direct "@ + operation
                    + " commands must omit sourceUserItemId"@)
                &&& turns.len() > 0 && found is Err ==> found->Err_0.code
                    == ProtocolErrorCode::InvalidParams && found->Err_0.message == operation
                    + " source item is not the current user message"@ && forall|i: int|
                    0 <= i < turns.len() ==> !answers_message(#[trigger] turns[i], id)
                &&& found matches Ok(source) ==> exists|i: int|
                    {
                        &&& 0 <= i < turns.len()
                        &&& answers_message(#[trigger] turns[i], id)
                        &&& forall|j: int| 0 <= j < i ==> !answers_message(#[trigger] turns[j], id)
                        &&& source.source matches Some(binding) && binding.session_id == Some(
                            turns[i].session_id,
                        ) && binding.turn_id == Some(turns[i].turn_id) && binding.user_item_id
                            == Some(id)
                    }
            }
        }),
{
    if let Some(id) = source_user_item_id {
        let accepts = answers(id);
        lemma_first_match(turns, accepts);
        assert forall|i: int| 0 <= i < turns.len() implies (answers_message(#[trigger] turns[i], id)
            <==> accepts(turns[i])) by {
            law_current_message_is_of_the_turn(turns[i].running, turns[i].turn_id, id);
            if let Ok(text) = current_message(
                turns[i].running,
                turns[i].turn_id,
                id,
            ) {
                assert(is_answered(turns[i].running, turns[i].turn_id, id, text));
            }
        }
    }
}

/// Whether a running turn answers a message.
pub open spec fn answers_message(turn: ActiveTurnView, user_item_id: Seq<char>) -> bool {
    exists|text: Seq<char>| #[trigger] is_answered(turn.running, turn.turn_id, user_item_id, text)
}

/// How a deletion ended is told to a client by its kind.
pub proof fn law_client_is_told_how_it_ended(
    result: Result<MemoryForgetResultView, MemoryForgetExecutionErrorView>,
)
    ensures
        ({
            let told = native_forget_told(result);
            &&& result matches Ok(forgotten) ==> told == Ok::<
                MemoryForgetResultView,
                ProtocolErrorView,
            >(forgotten)
            &&& result is Err ==> told is Err
            &&& result matches Err(MemoryForgetExecutionErrorView::Storage(error)) ==> told
                == Err::<MemoryForgetResultView, ProtocolErrorView>(
                memory_failure("memory/forget"@, error),
            )
            &&& result matches Err(MemoryForgetExecutionErrorView::Projection(error)) ==> (
            told matches Err(failure) && failure.code == ProtocolErrorCode::InternalError
                && failure.message == "memory forget committed but projection refresh failed: "@
                + error_message(error))
            &&& result matches Err(MemoryForgetExecutionErrorView::UnexpectedResult) ==> (
            told matches Err(failure) && failure.code == ProtocolErrorCode::InternalError
                && failure.message == "memory/forget returned an unexpected result"@)
            &&& result matches Err(MemoryForgetExecutionErrorView::Coordinator(error)) ==> (
            told matches Err(failure) && failure.code == ProtocolErrorCode::InternalError
                && failure.message == tool_error_message(error))
        }),
{
}

// ---------------------------------------------------------------------------
// Connections and the time after a turn.
// ---------------------------------------------------------------------------
/// A connection selects a session if one of its own subscriptions names the session.
pub proof fn law_connection_selects_what_it_names(
    subscriptions: Seq<EventSubscription>,
    connection_id: u64,
    session_id: SessionId,
    i: int,
    j: int,
    named: String,
)
    ensures
        0 <= i < subscriptions.len() && subscriptions[i].connection_id == connection_id && 0 <= j
            < subscriptions[i].selectors@.len() && subscriptions[i].selectors@[j]
            == (StreamSelector::Session { session_id: named }) && uuid_value(named@) == Some(
            session_id.value,
        ) ==> is_selected(subscriptions, connection_id, session_id),
        is_selected(subscriptions, connection_id, session_id) ==> exists|k: int, l: int|
            0 <= k < subscriptions.len() && (#[trigger] subscriptions[k]).connection_id
                == connection_id && 0 <= l < subscriptions[k].selectors@.len() && (
            #[trigger] subscriptions[k].selectors@[l] matches StreamSelector::Session {
                session_id: text,
            } && uuid_value(text@) == Some(session_id.value)),
{
    if 0 <= i < subscriptions.len() && subscriptions[i].connection_id == connection_id && 0 <= j
        < subscriptions[i].selectors@.len() && subscriptions[i].selectors@[j]
        == (StreamSelector::Session { session_id: named }) && uuid_value(named@) == Some(
        session_id.value,
    ) {
        assert(selects(subscriptions[i].selectors@[j], session_id));
        assert(subscribes(subscriptions[i], connection_id, session_id));
    }
    if is_selected(subscriptions, connection_id, session_id) {
        let k = choose|k: int|
            0 <= k < subscriptions.len() && subscribes(
                #[trigger] subscriptions[k],
                connection_id,
                session_id,
            );
        let l = choose|l: int|
            0 <= l < subscriptions[k].selectors@.len() && selects(
                #[trigger] subscriptions[k].selectors@[l],
                session_id,
            );
        assert(subscriptions[k].connection_id == connection_id);
        assert(subscriptions[k].selectors@[l] matches StreamSelector::Session { session_id: text }
            && uuid_value(text@) == Some(session_id.value));
    }
}

/// The session of a workspace is active exactly if it is among the active ones.
pub proof fn law_active_sessions_are_active(workspace: SessionWorkspace, active: Seq<SessionId>)
    ensures
        ({
            let session = project_session(workspace, active);
            &&& session.session_id == workspace.session_id
            &&& session.workspace_root == opt_view(workspace.workspace_root)
            &&& session.activity == ProjectMemorySessionActivity::Active <==> exists|i: int|
                0 <= i < active.len() && active[i] == workspace.session_id
        }),
{
}

/// United sessions are the first ones as they are, and then each of the others that is
/// not there yet, in order.
pub proof fn law_united_sessions(
    sessions: Seq<SessionId>,
    others: Seq<SessionId>,
    next: SessionId,
)
    ensures
        united_sessions(sessions, Seq::empty()) == sessions,
        united_sessions(sessions, others).contains(next) ==> united_sessions(
            sessions,
            others.push(next),
        ) == united_sessions(sessions, others),
        !united_sessions(sessions, others).contains(next) ==> united_sessions(
            sessions,
            others.push(next),
        ) == united_sessions(sessions, others).push(next),
{
    assert(others.push(next).drop_last() =~= others);
}

/// After a turn, what follows up is done first, then what is queued, then what a parent
/// has for its child; the goal goes on only where none of that was done and the turn
/// ended by itself.
pub proof fn law_after_a_turn(
    latest_turn: Option<TurnMetadataView>,
    step: AfterTurn,
    succeeded: bool,
)
    ensures
        ({
            let goes_on = latest_turn is Some && (latest_turn->Some_0.status
                == LegacyTurnStatus::Completed || latest_turn->Some_0.status
                == LegacyTurnStatus::Failed);
            let next = step_after(step, succeeded, continues_goal(latest_turn));
            &&& step is ScheduleTitle ==> next is ChainFollowUp
            &&& step is ChainFollowUp ==> (if succeeded {
                next is Finished
            } else {
                next is StartFromQueue
            })
            &&& step is StartFromQueue ==> (if succeeded {
                next is Finished
            } else {
                next is FindParent
            })
            &&& step is FindParent && succeeded ==> next is AskChild
            &&& step is AskChild && succeeded ==> next is DrainChildMailbox
            &&& (step is FindParent || step is AskChild) && !succeeded ==> (if goes_on {
                next is ContinueGoal
            } else {
                next is Finished
            })
            &&& step is DrainChildMailbox || step is ContinueGoal || step is Finished ==> next
                is Finished
        }),
{
}

/// Recorded settings are lines of the session, one for each update in order, with its
/// field and its value.
pub proof fn law_settings_are_recorded_in_order(
    lines: Seq<RolloutLine>,
    session_id: SessionId,
    updates: Seq<SettingsUpdateView>,
    timestamps: Seq<Timestamp>,
    i: int,
)
    requires
        records_updates(lines, session_id, updates, timestamps),
        0 <= i < updates.len(),
    ensures
        lines.len() == updates.len(),
        lines[i] matches RolloutLine::SessionSettings {
            timestamp,
            session_id: told,
            field,
            value,
        } && timestamp == timestamps[i] && told@ == uuid_text(session_id.value) && field@
            == updates[i].field && value@ == updates[i].value,
{
    let line = lines[i];
    assert(is_settings_line(
        line,
        SettingsLineView {
            timestamp: timestamps[i],
            session_id: uuid_text(session_id.value),
            field: updates[i].field,
            value: updates[i].value,
        },
    ));
}

/// A batch of settings is one record for each update in order, each of the next epoch,
/// of the session and of no turn.
pub proof fn law_settings_batch_counts_epochs(
    lines: Seq<RolloutLineV2View>,
    session_id: SessionId,
    updates: Seq<SettingsUpdateView>,
    first_epoch: u64,
    i: int,
)
    requires
        is_settings_batch(lines, session_id, updates, first_epoch),
        0 <= i < updates.len(),
    ensures
        lines.len() == updates.len(),
        lines[i] matches RolloutLineV2View::Internal {
            v,
            timestamp: _,
            session_id: told,
            turn_id,
            seq,
            entry,
        } && v == 2 && told == uuid_text(session_id.value) && turn_id is None && seq == 0 && (
        entry matches InternalRecordV2View::SessionSettings { schema_version, field, value, epoch }
            && schema_version == 1 && field == updates[i].field && value == updates[i].value
            && epoch == if first_epoch + i <= u64::MAX {
            first_epoch + i
        } else {
            u64::MAX as int
        }),
{
    assert(is_settings_record(
        lines[i],
        session_id,
        updates[i],
        later_epoch(first_epoch, i),
    ));
}

} // verus!
