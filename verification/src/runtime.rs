//! The memory runtime: one switch, one store, and the commands on it.

use vstd::prelude::*;

use crate::command_types::{
    EnqueueOutcome, ListMemoryRequest, ListMemoryRequestView, MemoryCommand, MemoryCommandResult,
    MemoryForgetRequestView, MemoryForgetSourceView, MemoryInferredRememberRequest,
    MemoryRememberRequest, MemoryRememberRequestView, MemorySourceContext, MemorySourceContextView,
    PrepareMemoryRequest, PreparedMemory, PreparedMemoryView, ProjectMemoryOperation,
    ProjectMemorySessionActivity, ProjectMemorySessionView, SessionMemorySource, WorkspaceRootView,
};
use crate::config::{resolved_setting, MemoryConfig, MemorySetting};
use crate::core_ids::SessionId;
use crate::entries::{
    finish_remember, inferred_write, remember_entry_at, remember_inferred, remember_inferred_at,
    remember_step, MemoryProjection, MemoryWriteMode, MemoryWriteModeView, RememberStep,
    RememberedEntry, RememberedEntryView,
};
use crate::forget::{
    finish_forget, forget_at, forget_source_of, forget_step, prepare_forget, prepared_forget,
    project_source, resolve_project_memory_source, ForgottenEntry, ForgottenEntryView,
};
use crate::ids::{fresh_uuid, is_new_id, is_simple_uuid, MemoryEntryId};
use crate::memory_error::{MemoryError, MemoryErrorView};
use crate::queries::{
    law_lists_are_complete, law_pages_are_bounded, lemma_entries_from_rows, list, list_recallable,
    listed_page, listed_rows, page_limit, page_window, MemoryListMode,
};
use crate::rpc_memory::{
    MemoryEntryView, MemoryKind, MemoryListResult, MemoryListResultView, MemoryOrigin, MemoryScope,
    MemoryState, MemoryStatus,
};
use crate::schema::{migrate_schema, updated_schema};
use crate::status::{is_status_of, last_scan, status};
use crate::store::optional_result;
use crate::stored_values::law_stored_names_read_back;
use crate::tables::{MemoryTables, MemoryTablesView};
use crate::text::{opt_view, views};
use crate::time::{now, Timestamp};

verus! {

/// Server-owned runtime of General Persistent Memory.
#[derive(Debug, PartialEq, Eq)]
pub struct MemoryRuntime {
    pub config: MemoryConfig,
    pub tables: MemoryTables,
}

/// What a command came to, before a page that it changed is written out.
#[derive(Debug, PartialEq, Eq)]
pub enum CommandOutcome {
    Status(MemoryStatus),
    Remembered(RememberedEntry),
    Forgotten(ForgottenEntry),
    Listed(MemoryListResult),
}

/// The view of [`CommandOutcome`], but for a status.
pub enum CommandOutcomeView {
    Status,
    Remembered(RememberedEntryView),
    Forgotten(ForgottenEntryView),
    Listed(MemoryListResultView),
}

impl View for CommandOutcome {
    type V = CommandOutcomeView;

    open spec fn view(&self) -> CommandOutcomeView {
        match self {
            CommandOutcome::Status(_) => CommandOutcomeView::Status,
            CommandOutcome::Remembered(remembered) => CommandOutcomeView::Remembered(remembered@),
            CommandOutcome::Forgotten(forgotten) => CommandOutcomeView::Forgotten(forgotten@),
            CommandOutcome::Listed(page) => CommandOutcomeView::Listed(page@),
        }
    }
}

/// What a command does: the store that it leaves, and what it comes to.
pub struct CommandStep {
    pub tables: MemoryTablesView,
    pub result: Result<CommandOutcomeView, MemoryErrorView>,
}

/// What comes up by chance or time while a command executes: the instant, the ID
/// of an entry that it may create, and the ID of another row that it may create.
pub struct Fresh {
    pub at: Timestamp,
    pub entry_id: Seq<char>,
    pub row_id: Seq<char>,
}

/// The page that a disabled memory shows.
pub open spec fn empty_page() -> MemoryListResultView {
    MemoryListResultView { data: Seq::empty(), next_cursor: None }
}

/// An explicit write, which a disabled memory refuses.
pub open spec fn remember_command(
    tables: MemoryTablesView,
    request: MemoryRememberRequestView,
    detected: bool,
    fresh: Fresh,
) -> CommandStep {
    let step = remember_step(
        tables,
        request,
        MemoryWriteModeView::Explicit,
        detected,
        fresh.at,
        fresh.entry_id,
        fresh.row_id,
    );
    CommandStep {
        tables: step.tables,
        result: match step.result {
            Ok(Some(remembered)) => Ok(CommandOutcomeView::Remembered(remembered)),
            Ok(None) => Err(
                MemoryErrorView::InvalidStoredValue("explicit memory write was skipped"@),
            ),
            Err(error) => Err(error),
        },
    }
}

/// The source of a forget request that comes from one session.
pub open spec fn single_source(source: MemorySourceContextView) -> MemoryForgetSourceView {
    MemoryForgetSourceView {
        bound_session_id: Some(source.session_id),
        user_session_id: Some(source.session_id),
        sessions: seq![
            ProjectMemorySessionView {
                session_id: source.session_id,
                workspace_root: Some(source.workspace_root),
                activity: ProjectMemorySessionActivity::Active,
            },
        ],
    }
}

/// A forget request, which a disabled memory refuses.
pub open spec fn forget_command(
    tables: MemoryTablesView,
    request: MemoryForgetRequestView,
    fresh: Fresh,
) -> CommandStep {
    match prepared_forget(tables, request.selector, request.scope, single_source(request.source)) {
        Err(error) => CommandStep { tables, result: Err(error) },
        Ok(prepared) => {
            let step = forget_step(tables, prepared, fresh.at, fresh.row_id);
            CommandStep {
                tables: step.tables,
                result: match step.result {
                    Ok(forgotten) => Ok(CommandOutcomeView::Forgotten(forgotten)),
                    Err(error) => Err(error),
                },
            }
        },
    }
}

/// A list request, which a disabled memory answers with an empty page.
pub open spec fn list_command(
    tables: MemoryTablesView,
    request: ListMemoryRequestView,
) -> CommandStep {
    CommandStep {
        tables,
        result: match listed_page(tables, request, MemoryListMode::Management) {
            Ok(page) => Ok(CommandOutcomeView::Listed(page)),
            Err(error) => Err(error),
        },
    }
}

/// A project operation, once its session is known.
pub open spec fn project_command(
    tables: MemoryTablesView,
    operation: ProjectMemoryOperation,
    session_id: SessionId,
    workspace_root: WorkspaceRootView,
    detected: bool,
    fresh: Fresh,
) -> CommandStep {
    match operation {
        ProjectMemoryOperation::Remember {
            text,
            kind,
            source_user_item_id,
            source_session_id,
            source_turn_id,
        } => remember_command(
            tables,
            MemoryRememberRequestView {
                text: text@,
                scope: MemoryScope::Project,
                kind,
                source: MemorySourceContextView {
                    user_item_id: opt_view(source_user_item_id),
                    session_id: match source_session_id {
                        Some(source_session_id) => source_session_id,
                        None => session_id,
                    },
                    turn_id: source_turn_id,
                    workspace_root,
                },
            },
            detected,
            fresh,
        ),
        ProjectMemoryOperation::List { kind, state, origin, text, cursor, limit } => list_command(
            tables,
            ListMemoryRequestView {
                scope: Some(MemoryScope::Project),
                kind,
                state,
                origin,
                text: opt_view(text),
                cursor: opt_view(cursor),
                limit,
                workspace_root,
            },
        ),
    }
}

/// What a command does. While memory is disabled writes are refused, lists are empty,
/// and only the status is told; a status changes nothing.
pub open spec fn command_step(
    enabled: bool,
    tables: MemoryTablesView,
    command: MemoryCommand,
    detected: bool,
    fresh: Fresh,
) -> CommandStep {
    match command {
        MemoryCommand::Status => CommandStep {
            tables,
            result: match last_scan(tables.jobs) {
                Ok(_) => Ok(CommandOutcomeView::Status),
                Err(error) => Err(error),
            },
        },
        MemoryCommand::Remember(request) => if enabled {
            remember_command(tables, request@, detected, fresh)
        } else {
            CommandStep { tables, result: Err(MemoryErrorView::Disabled) }
        },
        MemoryCommand::Forget(request) => if enabled {
            forget_command(tables, request@, fresh)
        } else {
            CommandStep { tables, result: Err(MemoryErrorView::Disabled) }
        },
        MemoryCommand::List(request) => if enabled {
            list_command(tables, request@)
        } else {
            CommandStep { tables, result: Ok(CommandOutcomeView::Listed(empty_page())) }
        },
        MemoryCommand::Project { candidates, operation } => if !enabled {
            CommandStep {
                tables,
                result: match operation {
                    ProjectMemoryOperation::Remember { .. } => Err(MemoryErrorView::Disabled),
                    ProjectMemoryOperation::List { .. } => Ok(
                        CommandOutcomeView::Listed(empty_page()),
                    ),
                },
            }
        } else {
            match project_source(views(candidates@)) {
                Err(error) => CommandStep { tables, result: Err(error) },
                Ok(None) => CommandStep {
                    tables,
                    result: Err(MemoryErrorView::ProjectSessionRequired),
                },
                Ok(Some(session)) => project_command(
                    tables,
                    operation,
                    session.session_id,
                    session.workspace_root,
                    detected,
                    fresh,
                ),
            }
        },
    }
}

/// The view of what a command comes to.
pub open spec fn outcome_result(result: Result<CommandOutcome, MemoryError>) -> Result<
    CommandOutcomeView,
    MemoryErrorView,
> {
    match result {
        Ok(outcome) => Ok(outcome@),
        Err(error) => Err(error@),
    }
}

fn no_entries() -> (result: MemoryListResult)
    ensures
        result@ == empty_page(),
{
    let result = MemoryListResult { data: Vec::new(), next_cursor: None };
    assert(result@.data =~= Seq::<MemoryEntryView>::empty());
    result
}

impl MemoryRuntime {
    fn remember_at(
        &mut self,
        request: &MemoryRememberRequest,
        detected: bool,
        at: Timestamp,
        entry_id: &MemoryEntryId,
        row_id: &String,
    ) -> (result: Result<CommandOutcome, MemoryError>)
        ensures
            final(self).config == old(self).config,
            remember_command(
                old(self).tables@,
                request@,
                detected,
                Fresh { at, entry_id: entry_id@, row_id: row_id@ },
            ) == (CommandStep { tables: final(self).tables@, result: outcome_result(result) }),
    {
        match remember_entry_at(
            &mut self.tables,
            request,
            &MemoryWriteMode::Explicit,
            detected,
            at,
            entry_id,
            row_id,
        ) {
            Ok(Some(remembered)) => Ok(CommandOutcome::Remembered(remembered)),
            Ok(None) => Err(
                MemoryError::InvalidStoredValue("explicit memory write was skipped".to_string()),
            ),
            Err(error) => Err(error),
        }
    }

    fn list_page(&self, request: &ListMemoryRequest) -> (result: Result<
        CommandOutcome,
        MemoryError,
    >)
        ensures
            list_command(self.tables@, request@) == (CommandStep {
                tables: self.tables@,
                result: outcome_result(result),
            }),
    {
        match list(&self.tables, request) {
            Ok(page) => Ok(CommandOutcome::Listed(page)),
            Err(error) => Err(error),
        }
    }

    /// Opens memory over a store that was read, once the store is brought to the
    /// present form. A store that cannot be is refused.
    pub fn open(config: MemoryConfig, tables: MemoryTables) -> (result: Result<Self, MemoryError>)
        ensures
            match (result, updated_schema(tables@)) {
                (Ok(runtime), Ok(updated)) => runtime.config == config && runtime.tables@
                    == updated,
                (Err(error), Err(refusal)) => error@ == refusal,
                _ => false,
            },
    {
        let mut updated = tables;
        match migrate_schema(&mut updated) {
            Ok(_) => Ok(MemoryRuntime { config, tables: updated }),
            Err(error) => Err(error),
        }
    }

    /// Executes a command at a given instant, with given IDs for what it may create,
    /// and given whether a detector found a secret in its text.
    pub fn execute_command_at(
        &mut self,
        command: MemoryCommand,
        detected: bool,
        at: Timestamp,
        entry_id: &MemoryEntryId,
        row_id: &String,
    ) -> (result: Result<CommandOutcome, MemoryError>)
        ensures
            final(self).config == old(self).config,
            command_step(
                old(self).config.enabled,
                old(self).tables@,
                command,
                detected,
                Fresh { at, entry_id: entry_id@, row_id: row_id@ },
            ) == (CommandStep { tables: final(self).tables@, result: outcome_result(result) }),
            result matches Ok(CommandOutcome::Status(status)) ==> is_status_of(
                status,
                old(self).config.enabled,
                old(self).tables@,
            ),
    {
        match command {
            MemoryCommand::Status => match status(self.config.enabled, &self.tables) {
                Ok(status) => Ok(CommandOutcome::Status(status)),
                Err(error) => Err(error),
            },
            MemoryCommand::Remember(request) => {
                if !self.config.enabled {
                    return Err(MemoryError::Disabled);
                }
                self.remember_at(&request, detected, at, entry_id, row_id)
            },
            MemoryCommand::Forget(request) => {
                if !self.config.enabled {
                    return Err(MemoryError::Disabled);
                }
                let source = forget_source_of(&request.source);
                assert(source@ == single_source(request.source@));
                let prepared = match prepare_forget(
                    &self.tables,
                    &request.selector,
                    request.scope,
                    &source,
                ) {
                    Ok(prepared) => prepared,
                    Err(error) => return Err(error),
                };
                match forget_at(&mut self.tables, &prepared, at, row_id) {
                    Ok(forgotten) => Ok(CommandOutcome::Forgotten(forgotten)),
                    Err(error) => Err(error),
                }
            },
            MemoryCommand::List(request) => {
                if !self.config.enabled {
                    return Ok(CommandOutcome::Listed(no_entries()));
                }
                self.list_page(&request)
            },
            MemoryCommand::Project { candidates, operation } => {
                if !self.config.enabled {
                    return match operation {
                        ProjectMemoryOperation::Remember { .. } => Err(MemoryError::Disabled),
                        ProjectMemoryOperation::List { .. } => Ok(
                            CommandOutcome::Listed(no_entries()),
                        ),
                    };
                }
                let (session_id, workspace_root) = match resolve_project_memory_source(
                    &candidates,
                ) {
                    Ok(source) => source,
                    Err(error) => return Err(error),
                };
                match operation {
                    ProjectMemoryOperation::Remember {
                        text,
                        kind,
                        source_user_item_id,
                        source_session_id,
                        source_turn_id,
                    } => {
                        let source_session = match source_session_id {
                            Some(source_session_id) => source_session_id,
                            None => session_id,
                        };
                        let request = MemoryRememberRequest {
                            text,
                            scope: MemoryScope::Project,
                            kind,
                            source: MemorySourceContext {
                                user_item_id: source_user_item_id,
                                session_id: source_session,
                                turn_id: source_turn_id,
                                workspace_root,
                            },
                        };
                        self.remember_at(&request, detected, at, entry_id, row_id)
                    },
                    ProjectMemoryOperation::List { kind, state, origin, text, cursor, limit } => {
                        let request = ListMemoryRequest {
                            scope: Some(MemoryScope::Project),
                            kind,
                            state,
                            origin,
                            text,
                            cursor,
                            limit,
                            workspace_root,
                        };
                        self.list_page(&request)
                    },
                }
            },
        }
    }

    /// Executes a command now. Which instant that is, and which new IDs come up, is
    /// open; whatever they are, it is [`command_step`] for them.
    pub fn execute_command(&mut self, command: MemoryCommand, detected: bool) -> (result: Result<
        CommandOutcome,
        MemoryError,
    >)
        ensures
            final(self).config == old(self).config,
            exists|fresh: Fresh|
                fresh.at.is_told_by_clock() && is_new_id("mem_"@, fresh.entry_id)
                    && is_simple_uuid(fresh.row_id) && #[trigger] command_step(
                    old(self).config.enabled,
                    old(self).tables@,
                    command,
                    detected,
                    fresh,
                ) == (CommandStep { tables: final(self).tables@, result: outcome_result(result) }),
            result matches Ok(CommandOutcome::Status(status)) ==> is_status_of(
                status,
                old(self).config.enabled,
                old(self).tables@,
            ),
    {
        let at = now();
        let entry_id = MemoryEntryId::new();
        let row_id = fresh_uuid();
        self.execute_command_at(command, detected, at, &entry_id, &row_id)
    }

    /// Records one observation of the passive extraction path at a given instant, with
    /// given IDs for what it may create.
    pub fn record_inferred_at(
        &mut self,
        request: &MemoryInferredRememberRequest,
        detected: bool,
        at: Timestamp,
        entry_id: &MemoryEntryId,
        evidence_id: &String,
    ) -> (result: Result<Option<RememberedEntry>, MemoryError>)
        ensures
            final(self).config == old(self).config,
            !old(self).config.enabled ==> final(self).tables@ == old(self).tables@ && (
            result matches Err(error) && error@ == MemoryErrorView::Disabled),
            old(self).config.enabled ==> remember_step(
                old(self).tables@,
                inferred_write(*request).0,
                inferred_write(*request).1,
                detected,
                at,
                entry_id@,
                evidence_id@,
            ) == (RememberStep {
                tables: final(self).tables@,
                result: optional_result(result),
            }),
    {
        if !self.config.enabled {
            return Err(MemoryError::Disabled);
        }
        remember_inferred_at(&mut self.tables, request, detected, at, entry_id, evidence_id)
    }

    /// Records one observation of the passive extraction path.
    pub fn record_inferred(
        &mut self,
        request: &MemoryInferredRememberRequest,
        detected: bool,
    ) -> (result:
        Result<Option<RememberedEntry>, MemoryError>)
        ensures
            final(self).config == old(self).config,
            !old(self).config.enabled ==> final(self).tables@ == old(self).tables@ && (
            result matches Err(error) && error@ == MemoryErrorView::Disabled),
            old(self).config.enabled ==> exists|
                at: Timestamp,
                entry_id: Seq<char>,
                evidence_id: Seq<char>,
            |
                at.is_told_by_clock() && is_new_id("mem_"@, entry_id) && is_simple_uuid(evidence_id)
                    && #[trigger] remember_step(
                    old(self).tables@,
                    inferred_write(*request).0,
                    inferred_write(*request).1,
                    detected,
                    at,
                    entry_id,
                    evidence_id,
                ) == (RememberStep {
                    tables: final(self).tables@,
                    result: optional_result(result),
                }),
    {
        if !self.config.enabled {
            return Err(MemoryError::Disabled);
        }
        remember_inferred(&mut self.tables, request, detected)
    }

    /// Prepares an immutable memory snapshot for a turn.
    pub fn prepare_turn(&self, request: &PrepareMemoryRequest) -> (result: Result<
        PreparedMemory,
        MemoryError,
    >)
        ensures
            match result {
                Ok(prepared) => turn_memory(
                    self.config,
                    self.tables@,
                    request.workspace_root@,
                    request.session_recall,
                ) == Ok::<PreparedMemoryView, MemoryErrorView>(prepared@),
                Err(error) => turn_memory(
                    self.config,
                    self.tables@,
                    request.workspace_root@,
                    request.session_recall,
                ) == Err::<PreparedMemoryView, MemoryErrorView>(error@),
            },
            result matches Ok(prepared) ==> prepared@.user_entries.len()
                <= self.config.max_entries_per_turn,
    {
        proof {
            law_turn_recalls_no_more_than_configured(
                self.config,
                self.tables@,
                request.workspace_root@,
                request.session_recall,
            );
        }
        if self.config.resolve_recall(request.session_recall) != MemorySetting::On {
            let prepared = PreparedMemory { project_scope_id: None, user_entries: Vec::new() };
            assert(prepared@.user_entries =~= Seq::<MemoryEntryView>::empty());
            return Ok(prepared);
        }
        let scope_id = match &request.workspace_root.project_scope {
            Ok(scope_id) => scope_id.clone(),
            Err(message) => return Err(MemoryError::ProjectIdentity(message.clone())),
        };
        if self.config.max_entries_per_turn == 0 {
            let prepared = PreparedMemory {
                project_scope_id: Some(scope_id),
                user_entries: Vec::new(),
            };
            assert(prepared@.user_entries =~= Seq::<MemoryEntryView>::empty());
            return Ok(prepared);
        }
        let wanted = ListMemoryRequest {
            scope: Some(MemoryScope::User),
            kind: None,
            state: Some(MemoryState::Active),
            origin: None,
            text: None,
            cursor: None,
            limit: Some(self.config.max_entries_per_turn),
            workspace_root: request.workspace_root.clone(),
        };
        assert(wanted@ == recall_request(
            request.workspace_root@,
            self.config.max_entries_per_turn,
        ));
        match list_recallable(&self.tables, &wanted) {
            Ok(page) => Ok(
                PreparedMemory { project_scope_id: Some(scope_id), user_entries: page.data },
            ),
            Err(error) => Err(error),
        }
    }

    /// Accepts a session source for later extraction, if the session contributes.
    pub fn enqueue_source(&self, source: &SessionMemorySource) -> (result: EnqueueOutcome)
        ensures
            result.accepted == (resolved_setting(
                self.config.enabled,
                source.session_contribution,
                self.config.default_contribution,
            ) == MemorySetting::On),
    {
        EnqueueOutcome {
            accepted: self.config.resolve_contribution(source.session_contribution)
                == MemorySetting::On,
        }
    }
}

/// The list request by which a turn recalls the user's entries.
pub open spec fn recall_request(
    workspace_root: WorkspaceRootView,
    limit: u32,
) -> ListMemoryRequestView {
    ListMemoryRequestView {
        scope: Some(MemoryScope::User),
        kind: None,
        state: Some(MemoryState::Active),
        origin: None,
        text: None,
        cursor: None,
        limit: Some(limit),
        workspace_root,
    }
}

/// The memory of a turn: nothing unless the session recalls, and otherwise the
/// project and the user's newest active and restored entries, as many as a turn may
/// have.
pub open spec fn turn_memory(
    config: MemoryConfig,
    tables: MemoryTablesView,
    workspace_root: WorkspaceRootView,
    session_recall: MemorySetting,
) -> Result<PreparedMemoryView, MemoryErrorView> {
    if resolved_setting(config.enabled, session_recall, config.default_recall)
        != MemorySetting::On {
        Ok(PreparedMemoryView { project_scope_id: None, user_entries: Seq::empty() })
    } else {
        match workspace_root.project_scope {
            Err(message) => Err(MemoryErrorView::ProjectIdentity(message)),
            Ok(scope_id) => if config.max_entries_per_turn == 0 {
                Ok(
                    PreparedMemoryView {
                        project_scope_id: Some(scope_id),
                        user_entries: Seq::empty(),
                    },
                )
            } else {
                match listed_page(
                    tables,
                    recall_request(workspace_root, config.max_entries_per_turn),
                    MemoryListMode::Recallable,
                ) {
                    Err(error) => Err(error),
                    Ok(page) => Ok(
                        PreparedMemoryView {
                            project_scope_id: Some(scope_id),
                            user_entries: page.data,
                        },
                    ),
                }
            },
        }
    }
}

/// The page that has to be written out before a command is finished, if any.
pub fn page_to_write(outcome: &CommandOutcome) -> (result: Option<&MemoryProjection>)
    ensures
        match (outcome, result) {
            (CommandOutcome::Remembered(remembered), Some(page)) => page@
                == remembered@.projection,
            (CommandOutcome::Forgotten(forgotten), Some(page)) => forgotten@.projection == Some(
                page@,
            ),
            (CommandOutcome::Forgotten(forgotten), None) => forgotten@.projection is None,
            (CommandOutcome::Status(_), None) => true,
            (CommandOutcome::Listed(_), None) => true,
            _ => false,
        },
{
    match outcome {
        CommandOutcome::Remembered(remembered) => Some(&remembered.projection),
        CommandOutcome::Forgotten(forgotten) => match &forgotten.projection {
            Some(page) => Some(page),
            None => None,
        },
        CommandOutcome::Status(_) => None,
        CommandOutcome::Listed(_) => None,
    }
}

/// Finishes a command once its page was written, or could not be.
pub fn finish_command(outcome: CommandOutcome, page_write: Result<(), MemoryError>) -> (result:
    Result<MemoryCommandResult, MemoryError>)
    ensures
        match (outcome, page_write) {
            (CommandOutcome::Status(status), _) => result matches Ok(
                MemoryCommandResult::Status(returned),
            ) && returned == status,
            (CommandOutcome::Listed(page), _) => result matches Ok(
                MemoryCommandResult::List(returned),
            ) && returned == page,
            (CommandOutcome::Remembered(remembered), Ok(_)) => result matches Ok(
                MemoryCommandResult::Remember(entry),
            ) && entry@ == remembered@.entry,
            (CommandOutcome::Remembered(_), Err(error)) => result matches Err(failure) && failure@
                == error@,
            (CommandOutcome::Forgotten(forgotten), Ok(_)) => result matches Ok(
                MemoryCommandResult::Forget(returned),
            ) && returned@ == forgotten@.result,
            (CommandOutcome::Forgotten(forgotten), Err(error)) => result matches Err(failure)
                && failure@ == (MemoryErrorView::ForgetCommitted {
                result: forgotten@.result,
                projection_error: Box::new(error@),
            }),
        },
{
    match outcome {
        CommandOutcome::Status(status) => Ok(MemoryCommandResult::Status(status)),
        CommandOutcome::Listed(page) => Ok(MemoryCommandResult::List(page)),
        CommandOutcome::Remembered(remembered) => match finish_remember(remembered, page_write) {
            Ok(entry) => Ok(MemoryCommandResult::Remember(entry)),
            Err(error) => Err(error),
        },
        CommandOutcome::Forgotten(forgotten) => match finish_forget(forgotten, page_write) {
            Ok(returned) => Ok(MemoryCommandResult::Forget(returned)),
            Err(error) => Err(error),
        },
    }
}

// ---------------------------------------------------------------------------
// Laws.
// ---------------------------------------------------------------------------
/// A disabled memory protects the store: no command changes it, and none reads an
/// entry out of it.
pub proof fn law_disabled_memory_protects_the_store(
    tables: MemoryTablesView,
    command: MemoryCommand,
    detected: bool,
    fresh: Fresh,
)
    ensures
        ({
            let step = command_step(false, tables, command, detected, fresh);
            &&& step.tables == tables
            &&& match step.result {
                Ok(CommandOutcomeView::Status) => true,
                Ok(CommandOutcomeView::Listed(page)) => page == empty_page(),
                Ok(_) => false,
                Err(_) => true,
            }
        }),
{
}

/// Every command keeps the constraints of the store.
pub proof fn law_commands_keep_store_well_formed(
    enabled: bool,
    tables: MemoryTablesView,
    command: MemoryCommand,
    detected: bool,
    fresh: Fresh,
)
    requires
        tables.well_formed(),
    ensures
        command_step(enabled, tables, command, detected, fresh).tables.well_formed(),
{
    match command {
        MemoryCommand::Remember(request) => {
            crate::entries::law_write_keeps_store_well_formed(
                tables,
                request@,
                MemoryWriteModeView::Explicit,
                detected,
                fresh.at,
                fresh.entry_id,
                fresh.row_id,
            );
        },
        MemoryCommand::Forget(request) => {
            let prepared = prepared_forget(
                tables,
                request@.selector,
                request@.scope,
                single_source(request@.source),
            );
            if prepared is Ok {
                crate::lifecycle::law_forget_keeps_store_well_formed(
                    tables,
                    prepared->Ok_0,
                    fresh.at,
                    fresh.row_id,
                );
            }
        },
        MemoryCommand::Project { candidates, operation } => {
            if project_source(views(candidates@)) is Ok {
                if let Some(session) = project_source(views(candidates@))->Ok_0 {
                    if let ProjectMemoryOperation::Remember {
                        text,
                        kind,
                        source_user_item_id,
                        source_session_id,
                        source_turn_id,
                    } = operation {
                        crate::entries::law_write_keeps_store_well_formed(
                            tables,
                            MemoryRememberRequestView {
                                text: text@,
                                scope: MemoryScope::Project,
                                kind,
                                source: MemorySourceContextView {
                                    user_item_id: opt_view(source_user_item_id),
                                    session_id: match source_session_id {
                                        Some(source_session_id) => source_session_id,
                                        None => session.session_id,
                                    },
                                    turn_id: source_turn_id,
                                    workspace_root: session.workspace_root,
                                },
                            },
                            MemoryWriteModeView::Explicit,
                            detected,
                            fresh.at,
                            fresh.entry_id,
                            fresh.row_id,
                        );
                    }
                }
            }
        },
        _ => {},
    }
}

/// Listing and asking for the status change nothing, while memory is enabled too.
pub proof fn law_reading_changes_nothing(
    enabled: bool,
    tables: MemoryTablesView,
    command: MemoryCommand,
    detected: bool,
    fresh: Fresh,
)
    requires
        command is Status || command is List,
    ensures
        command_step(enabled, tables, command, detected, fresh).tables == tables,
{
}

/// A turn recalls no more entries than it may have.
pub proof fn law_turn_recalls_no_more_than_configured(
    config: MemoryConfig,
    tables: MemoryTablesView,
    workspace_root: WorkspaceRootView,
    session_recall: MemorySetting,
)
    ensures
        turn_memory(config, tables, workspace_root, session_recall) matches Ok(prepared)
            ==> prepared.user_entries.len() <= config.max_entries_per_turn,
{
    law_pages_are_bounded(
        tables,
        recall_request(workspace_root, config.max_entries_per_turn),
        MemoryListMode::Recallable,
    );
}

/// A turn recalls live entries of the user alone: they are active, or were restored.
pub proof fn law_turn_recalls_live_user_entries(
    config: MemoryConfig,
    tables: MemoryTablesView,
    workspace_root: WorkspaceRootView,
    session_recall: MemorySetting,
    i: int,
)
    requires
        turn_memory(config, tables, workspace_root, session_recall) matches Ok(prepared) && 0 <= i
            < prepared.user_entries.len(),
    ensures
        ({
            let entry = turn_memory(
                config,
                tables,
                workspace_root,
                session_recall,
            )->Ok_0.user_entries[i];
            &&& entry.scope == MemoryScope::User
            &&& entry.scope_id == "user"@
            &&& entry.state == MemoryState::Active || entry.state == MemoryState::Restored
        }),
{
    let request = recall_request(workspace_root, config.max_entries_per_turn);
    let mode = MemoryListMode::Recallable;
    let rows = listed_rows(tables.entries, MemoryScope::User, "user"@, request, mode);
    let window = page_window(rows, 0, page_limit(request.limit));
    law_lists_are_complete(tables.entries, MemoryScope::User, "user"@, request, mode);
    lemma_entries_from_rows(window, tables.evidence);
    assert(window[i] == rows[i]);
    assert(rows.contains(rows[i]));
    law_stored_names_read_back(
        MemoryScope::User,
        MemoryKind::Fact,
        MemoryState::Active,
        MemoryOrigin::ExplicitUser,
    );
    law_stored_names_read_back(
        MemoryScope::User,
        MemoryKind::Fact,
        MemoryState::Restored,
        MemoryOrigin::ExplicitUser,
    );
}

} // verus!
