//! Remembering, forgetting, listing and preparing memory, through the runtime.

use devo_memory::command_types::{
    ListMemoryRequest, MemoryCommand, MemoryCommandResult, MemoryForgetRequest,
    MemoryForgetSelector, MemoryInferredRememberRequest, MemoryRememberRequest,
    MemorySourceContext, PrepareMemoryRequest, ProjectMemoryOperation, ProjectMemorySession,
    ProjectMemorySessionActivity, SessionMemorySource, WorkspaceRoot,
};
use devo_memory::config::{MemoryConfig, MemorySetting};
use devo_memory::core_ids::{SessionId, TurnId};
use devo_memory::ids::{ItemId, MemoryEntryId};
use devo_memory::memory_error::MemoryError;
use devo_memory::rpc_memory::{
    MemoryEntry, MemoryForgetResult, MemoryKind, MemoryListResult, MemoryOrigin, MemoryProvenance,
    MemoryScope, MemoryState,
};
use devo_memory::runtime::{finish_command, page_to_write, CommandOutcome, MemoryRuntime};
use devo_memory::tables::{JobRow, MemoryTables, RevocationRow};
use devo_memory::time::Timestamp;

fn test_uuid(seed: &str) -> u128 {
    seed.bytes().fold(0_u128, |value, byte| value.rotate_left(5) ^ u128::from(byte))
}

fn no_root() -> WorkspaceRoot {
    WorkspaceRoot { path: Vec::new(), project_scope: Err("no workspace".to_string()) }
}

fn project_root(scope_id: &str) -> WorkspaceRoot {
    WorkspaceRoot { path: b"/work".to_vec(), project_scope: Ok(scope_id.to_string()) }
}

fn test_source(
    user_item_id: Option<&str>,
    session_id: &str,
    turn_id: Option<&str>,
) -> MemorySourceContext {
    MemorySourceContext {
        user_item_id: user_item_id
            .map(|seed| ItemId::from_string(format!("item_{:032x}", test_uuid(seed)))),
        session_id: SessionId { value: test_uuid(session_id) },
        turn_id: turn_id.map(|seed| TurnId { value: test_uuid(seed) }),
        workspace_root: no_root(),
    }
}

fn remember_request(text: &str) -> MemoryRememberRequest {
    MemoryRememberRequest {
        text: text.to_owned(),
        scope: MemoryScope::User,
        kind: Some(MemoryKind::Preference),
        source: test_source(Some("user-item-1"), "session-1", Some("turn-1")),
    }
}

fn forget_selector(selector: MemoryForgetSelector) -> MemoryForgetRequest {
    MemoryForgetRequest {
        selector,
        scope: MemoryScope::User,
        source: test_source(None, "session-1", None),
    }
}

fn forget_request(entry_id: MemoryEntryId) -> MemoryForgetRequest {
    forget_selector(MemoryForgetSelector::EntryId(entry_id))
}

fn inferred_request(text: &str, observed_at: &str) -> MemoryInferredRememberRequest {
    MemoryInferredRememberRequest {
        text: text.to_owned(),
        scope: MemoryScope::User,
        kind: Some(MemoryKind::Preference),
        source: test_source(None, "session-2", Some("turn-2")),
        source_observed_at: Timestamp::parse(observed_at).expect("observed timestamp"),
        source_watermark: observed_at.to_owned(),
    }
}

fn enabled() -> MemoryConfig {
    MemoryConfig { enabled: true, ..MemoryConfig::default() }
}

fn open_runtime() -> MemoryRuntime {
    MemoryRuntime::open(enabled(), MemoryTables::default()).expect("memory runtime")
}

fn execute(
    runtime: &mut MemoryRuntime,
    command: MemoryCommand,
) -> Result<MemoryCommandResult, MemoryError> {
    runtime
        .execute_command(command, false)
        .and_then(|outcome| finish_command(outcome, Ok(())))
}

fn remember(runtime: &mut MemoryRuntime, text: &str) -> MemoryEntry {
    match execute(runtime, MemoryCommand::Remember(remember_request(text))).expect("remember entry")
    {
        MemoryCommandResult::Remember(entry) => entry,
        other => panic!("expected remembered entry, got {other:?}"),
    }
}

fn remember_on(runtime: &mut MemoryRuntime, text: &str, at: &str) -> MemoryEntry {
    let outcome = runtime.execute_command_at(
        MemoryCommand::Remember(remember_request(text)),
        false,
        Timestamp::parse(at).expect("an instant"),
        &MemoryEntryId::from("mem_fixed"),
        &"evidence_fixed".to_string(),
    );
    match outcome.and_then(|outcome| finish_command(outcome, Ok(()))).expect("remember entry") {
        MemoryCommandResult::Remember(entry) => entry,
        other => panic!("expected remembered entry, got {other:?}"),
    }
}

fn forget(
    runtime: &mut MemoryRuntime,
    request: MemoryForgetRequest,
) -> Result<MemoryForgetResult, MemoryError> {
    match execute(runtime, MemoryCommand::Forget(request))? {
        MemoryCommandResult::Forget(result) => Ok(result),
        other => panic!("expected forgotten entry, got {other:?}"),
    }
}

fn list_request(state: Option<MemoryState>) -> ListMemoryRequest {
    ListMemoryRequest {
        scope: Some(MemoryScope::User),
        kind: None,
        state,
        origin: None,
        text: None,
        cursor: None,
        limit: None,
        workspace_root: no_root(),
    }
}

fn list(runtime: &mut MemoryRuntime, request: ListMemoryRequest) -> MemoryListResult {
    match execute(runtime, MemoryCommand::List(request)).expect("list entries") {
        MemoryCommandResult::List(page) => page,
        other => panic!("expected memory list, got {other:?}"),
    }
}

fn infer(
    runtime: &mut MemoryRuntime,
    text: &str,
    observed_at: &str,
) -> Result<Option<MemoryEntry>, MemoryError> {
    runtime
        .record_inferred(&inferred_request(text, observed_at), false)
        .map(|remembered| remembered.map(|remembered| remembered.entry))
}

/// Inferred source replay cannot reactivate a revoked identity.
#[test]
fn old_inferred_evidence_cannot_reactivate_a_revoked_identity() {
    let mut runtime = open_runtime();
    let remembered = remember(&mut runtime, "Use tabs");
    forget(&mut runtime, forget_request(remembered.entry_id.clone())).expect("forget entry");

    let result =
        infer(&mut runtime, "Use tabs", "2026-09-09T00:00:00Z").expect("replay old evidence");
    assert_eq!(result, None);

    let listed = list(&mut runtime, list_request(Some(MemoryState::Retired)));
    assert_eq!(listed.data.len(), 1);
    assert_eq!(listed.data[0].entry_id, remembered.entry_id);
}

/// An old inferred observation cannot overwrite an explicitly restored identity.
#[test]
fn restored_explicit_memory_rejects_old_inferred_replay() {
    let mut runtime = open_runtime();
    let remembered = remember(&mut runtime, "Use tabs");
    forget(&mut runtime, forget_request(remembered.entry_id.clone())).expect("forget entry");
    let restored = remember(&mut runtime, "Use tabs");

    let replay =
        infer(&mut runtime, "Use tabs!", "2026-09-09T00:00:00Z").expect("replay old evidence");

    assert_eq!(replay, None);
    assert_eq!(restored.entry_id, remembered.entry_id);
    assert_eq!(restored.body, "Use tabs");
    assert_eq!(restored.state, MemoryState::Restored);
}

/// Inferred content preserves an explicit identity while adding evidence.
#[test]
fn inferred_memory_does_not_replace_explicit_content() {
    let mut runtime = open_runtime();
    let remembered = remember_on(&mut runtime, "Use tabs", "2026-09-10T00:00:00Z");

    let inferred = runtime
        .record_inferred_at(
            &inferred_request("Use tabs!", "2026-09-11T00:00:00Z"),
            false,
            Timestamp::parse("2026-09-12T00:00:00Z").expect("an instant"),
            &MemoryEntryId::from("mem_unused"),
            &"evidence_inferred".to_string(),
        )
        .expect("inferred duplicate")
        .expect("evidence-preserving inference")
        .entry;
    let remembered_updated_at = remembered.updated_at;
    let expected = MemoryEntry {
        updated_at: inferred.updated_at,
        provenance: vec![
            remembered.provenance[0].clone(),
            MemoryProvenance {
                source_session_id: Some(SessionId { value: test_uuid("session-2") }.to_text()),
                source_turn_id: Some(TurnId { value: test_uuid("turn-2") }.to_text()),
                source_user_item_id: None,
            },
        ],
        ..remembered
    };
    assert_eq!(inferred, expected);
    assert!(remembered_updated_at.is_before(&inferred.updated_at));

    let listed = list(&mut runtime, list_request(None));
    assert_eq!(listed.data, vec![inferred]);
}

#[test]
fn remembered_entry_is_stored_as_it_was_said() {
    let mut runtime = open_runtime();
    let entry = remember(&mut runtime, "  Use   tabs ");
    assert_eq!(entry.body, "Use tabs");
    assert_eq!(entry.scope_id, "user");
    assert_eq!(entry.origin, MemoryOrigin::ExplicitUser);
    assert_eq!(entry.state, MemoryState::Active);
    assert_eq!(entry.kind, MemoryKind::Preference);
    assert_eq!(entry.provenance.len(), 1);
    assert_eq!(runtime.tables.entries.len(), 1);
    assert_eq!(runtime.tables.index.len(), 1);
}

#[test]
fn empty_text_is_refused() {
    let mut runtime = open_runtime();
    let error = execute(&mut runtime, MemoryCommand::Remember(remember_request("  ")))
        .expect_err("nothing to remember");
    assert!(matches!(error, MemoryError::InvalidRequest(_)));
    assert!(runtime.tables.entries.is_empty());
}

#[test]
fn secrets_are_not_stored() {
    let mut runtime = open_runtime();
    let detected = runtime
        .execute_command(MemoryCommand::Remember(remember_request("harmless text")), true)
        .expect_err("a detector found something");
    assert_eq!(detected, MemoryError::SecretContentRejected);
    let marked = execute(&mut runtime, MemoryCommand::Remember(remember_request("Bearer of news")))
        .expect_err("the text is marked");
    assert_eq!(
        marked.message(),
        "memory content was rejected because it may contain a secret"
    );
    assert!(runtime.tables.entries.is_empty());
    assert!(runtime.tables.evidence.is_empty());
}

#[test]
fn disabled_memory_refuses_writes_and_shows_nothing() {
    let mut runtime = MemoryRuntime::open(MemoryConfig::default(), MemoryTables::default())
        .expect("memory runtime");
    let refused = execute(&mut runtime, MemoryCommand::Remember(remember_request("Use tabs")))
        .expect_err("memory is off");
    assert_eq!(refused, MemoryError::Disabled);
    assert_eq!(refused.message(), "memory is disabled");
    assert_eq!(
        infer(&mut runtime, "Use tabs", "2026-09-09T00:00:00Z"),
        Err(MemoryError::Disabled)
    );
    assert_eq!(
        forget(&mut runtime, forget_request(MemoryEntryId::from("mem_1"))),
        Err(MemoryError::Disabled)
    );
    assert!(list(&mut runtime, list_request(None)).data.is_empty());
    match execute(&mut runtime, MemoryCommand::Status).expect("status") {
        MemoryCommandResult::Status(status) => {
            assert!(!status.enabled);
            assert_eq!(status.storage_health, "healthy");
        }
        other => panic!("expected a status, got {other:?}"),
    }
}

#[test]
fn forgetting_by_text_needs_one_match() {
    let mut runtime = open_runtime();
    remember(&mut runtime, "Use tabs");
    remember(&mut runtime, "Use spaces in tables");
    let ambiguous =
        forget(&mut runtime, forget_selector(MemoryForgetSelector::Text("use".to_string())))
            .expect("two candidates");
    assert_eq!(ambiguous.forgotten, None);
    assert_eq!(ambiguous.candidates.len(), 2);
    assert!(list(&mut runtime, list_request(Some(MemoryState::Retired))).data.is_empty());

    let forgotten =
        forget(&mut runtime, forget_selector(MemoryForgetSelector::Text("tables".to_string())))
            .expect("one match");
    assert_eq!(
        forgotten.forgotten.expect("forgotten entry").body,
        "Use spaces in tables"
    );
    assert!(forgotten.candidates.is_empty());

    let missing =
        forget(&mut runtime, forget_selector(MemoryForgetSelector::Text("nothing".to_string())))
            .expect_err("no match");
    assert_eq!(missing.message(), "invalid memory request: memory entry not found");
}

#[test]
fn unknown_entry_cannot_be_forgotten() {
    let mut runtime = open_runtime();
    let error = forget(&mut runtime, forget_request(MemoryEntryId::from("mem_unknown")))
        .expect_err("no such entry");
    assert_eq!(error, MemoryError::InvalidRequest("memory entry not found".to_string()));
}

#[test]
fn page_that_cannot_be_written_is_reported() {
    let mut runtime = open_runtime();
    let remembered = remember(&mut runtime, "Use tabs");
    let outcome = runtime
        .execute_command(MemoryCommand::Forget(forget_request(remembered.entry_id)), false)
        .expect("forgotten in the store");
    assert!(matches!(outcome, CommandOutcome::Forgotten(_)));
    let page = page_to_write(&outcome).expect("a page changed");
    assert!(page.text.contains("  - state: retired\n"));
    let failure = finish_command(outcome, Err(MemoryError::Directory("disk full".to_string())))
        .expect_err("the page was not refreshed");
    match failure {
        MemoryError::ForgetCommitted { result, projection_error } => {
            assert_eq!(result.forgotten.expect("forgotten entry").body, "Use tabs");
            assert_eq!(
                projection_error.message(),
                "failed to prepare memory directory: disk full"
            );
        }
        other => panic!("unexpected failure {other:?}"),
    }
}

#[test]
fn pages_follow_each_other() {
    let mut runtime = open_runtime();
    for text in ["one", "two", "three"] {
        remember(&mut runtime, text);
    }
    let first = list(&mut runtime, ListMemoryRequest { limit: Some(2), ..list_request(None) });
    assert_eq!(first.data.len(), 2);
    assert_eq!(first.next_cursor, Some("2".to_string()));
    let second = list(
        &mut runtime,
        ListMemoryRequest { limit: Some(2), cursor: first.next_cursor, ..list_request(None) },
    );
    assert_eq!(second.data.len(), 1);
    assert_eq!(second.next_cursor, None);
    let error = execute(
        &mut runtime,
        MemoryCommand::List(ListMemoryRequest {
            cursor: Some("two".to_string()),
            ..list_request(None)
        }),
    )
    .expect_err("no cursor");
    assert!(matches!(error, MemoryError::InvalidRequest(_)));
}

#[test]
fn project_command_needs_one_project() {
    let mut runtime = open_runtime();
    let session = |seed: &str, root: Option<WorkspaceRoot>, activity| ProjectMemorySession {
        session_id: SessionId { value: test_uuid(seed) },
        workspace_root: root,
        activity,
    };
    let operation = |text: &str| ProjectMemoryOperation::Remember {
        text: text.to_string(),
        kind: None,
        source_user_item_id: None,
        source_session_id: None,
        source_turn_id: None,
    };
    let none = execute(
        &mut runtime,
        MemoryCommand::Project { candidates: Vec::new(), operation: operation("Use Rust") },
    );
    assert_eq!(none, Err(MemoryError::ProjectSessionRequired));
    let rootless = execute(
        &mut runtime,
        MemoryCommand::Project {
            candidates: vec![session("a", None, ProjectMemorySessionActivity::Active)],
            operation: operation("Use Rust"),
        },
    );
    assert_eq!(rootless, Err(MemoryError::ProjectSessionUnavailable));
    let ambiguous = execute(
        &mut runtime,
        MemoryCommand::Project {
            candidates: vec![
                session("a", Some(project_root("one")), ProjectMemorySessionActivity::Active),
                session("b", Some(project_root("two")), ProjectMemorySessionActivity::Active),
            ],
            operation: operation("Use Rust"),
        },
    );
    assert_eq!(ambiguous, Err(MemoryError::AmbiguousProjectScope));
    let unresolved = execute(
        &mut runtime,
        MemoryCommand::Project {
            candidates: vec![session("a", Some(no_root()), ProjectMemorySessionActivity::Active)],
            operation: operation("Use Rust"),
        },
    );
    assert_eq!(unresolved, Err(MemoryError::ProjectIdentity("no workspace".to_string())));

    let remembered = execute(
        &mut runtime,
        MemoryCommand::Project {
            candidates: vec![
                session("a", Some(project_root("one")), ProjectMemorySessionActivity::Inactive),
                session("b", Some(project_root("one")), ProjectMemorySessionActivity::Active),
            ],
            operation: operation("Use Rust"),
        },
    )
    .expect("one project");
    match remembered {
        MemoryCommandResult::Remember(entry) => {
            assert_eq!(entry.scope, MemoryScope::Project);
            assert_eq!(entry.scope_id, "one");
            assert_eq!(
                entry.provenance[0].source_session_id,
                Some(SessionId { value: test_uuid("b") }.to_text())
            );
        }
        other => panic!("expected remembered entry, got {other:?}"),
    }
}

#[test]
fn turn_gets_active_and_restored_entries() {
    let mut runtime = open_runtime();
    let first = remember(&mut runtime, "Use tabs");
    remember(&mut runtime, "Use Rust");
    forget(&mut runtime, forget_request(first.entry_id)).expect("forget entry");
    let request = |recall| PrepareMemoryRequest {
        workspace_root: project_root("one"),
        session_recall: recall,
    };
    let prepared = runtime.prepare_turn(&request(MemorySetting::On)).expect("prepared memory");
    assert_eq!(prepared.project_scope_id, Some("one".to_string()));
    assert_eq!(prepared.user_entries.len(), 1);
    assert_eq!(prepared.user_entries[0].body, "Use Rust");
    remember(&mut runtime, "Use tabs");
    let restored = runtime.prepare_turn(&request(MemorySetting::Inherit)).expect("prepared memory");
    assert_eq!(restored.user_entries.len(), 2);
    let off = runtime.prepare_turn(&request(MemorySetting::Off)).expect("prepared memory");
    assert_eq!(off.project_scope_id, None);
    assert!(off.user_entries.is_empty());
    assert!(
        runtime
            .enqueue_source(&SessionMemorySource { session_contribution: MemorySetting::On })
            .accepted
    );
    assert!(
        !runtime
            .enqueue_source(&SessionMemorySource { session_contribution: MemorySetting::Off })
            .accepted
    );
}

fn job(job_id: &str, key: &str, state: &str, error_class: Option<&str>) -> JobRow {
    JobRow {
        job_id: job_id.to_string(),
        job_kind: "source_scan".to_string(),
        job_key: key.to_string(),
        source_session_id: "session".to_string(),
        source_watermark: job_id.to_string(),
        state: state.to_string(),
        error_class: error_class.map(str::to_string),
        updated_at: "2026-01-01T00:00:00Z".to_string(),
    }
}

#[test]
fn status_counts_jobs_and_hides_what_failed_inside() {
    let tables = MemoryTables {
        jobs: vec![
            job("1", "a", "pending", None),
            job("2", "b", "retrying", None),
            job("3", "c", "error", Some("quota_unavailable")),
            job("4", "d", "error", Some("password=1234")),
            job("5", "e", "completed", None),
        ],
        ..MemoryTables::default()
    };
    let mut runtime = MemoryRuntime::open(enabled(), tables).expect("memory runtime");
    match execute(&mut runtime, MemoryCommand::Status).expect("status") {
        MemoryCommandResult::Status(status) => {
            assert_eq!(status.pending_job_count, 1);
            assert_eq!(status.retrying_job_count, 1);
            assert_eq!(status.error_job_count, 2);
            assert_eq!(
                status.error_classes,
                vec!["quota_unavailable".to_string(), "unknown".to_string()]
            );
            assert_eq!(
                status.last_successful_scan_at,
                Timestamp::parse("2026-01-01T00:00:00Z")
            );
        }
        other => panic!("expected a status, got {other:?}"),
    }
}

#[test]
fn older_stores_are_brought_up_to_date() {
    let revocation = |id: &str, revoked_at: &str, restored_at: Option<&str>| RevocationRow {
        revocation_id: id.to_string(),
        scope_type: "user".to_string(),
        scope_id: "user".to_string(),
        normalized_key: "use tabs".to_string(),
        revoked_at: revoked_at.to_string(),
        restored_at: restored_at.map(str::to_string),
    };
    let tables = MemoryTables {
        jobs: vec![job("1", "", "pending", None)],
        revocations: vec![
            revocation("r1", "2026-01-01T00:00:00Z", Some("2026-01-03T00:00:00Z")),
            revocation("r2", "2026-01-02T00:00:00Z", None),
        ],
        ..MemoryTables::default()
    };
    let runtime = MemoryRuntime::open(enabled(), tables).expect("memory runtime");
    assert_eq!(runtime.tables.jobs[0].job_key, "session:1");
    assert_eq!(
        runtime.tables.revocations,
        vec![revocation("r2", "2026-01-02T00:00:00Z", Some("2026-01-03T00:00:00Z"))]
    );

    let clashing = MemoryTables {
        jobs: vec![job("1", "same", "pending", None), job("2", "same", "pending", None)],
        ..MemoryTables::default()
    };
    let refused = MemoryRuntime::open(enabled(), clashing).expect_err("two jobs share a key");
    assert_eq!(
        refused.message(),
        "memory database error: UNIQUE constraint failed: memory_jobs.job_kind, memory_jobs.job_key"
    );
}

#[test]
fn remembered_entry_is_found_until_it_is_forgotten() {
    let mut runtime = open_runtime();
    let remembered = remember(&mut runtime, "Use tabs");
    let request = PrepareMemoryRequest {
        workspace_root: project_root("scope"),
        session_recall: MemorySetting::On,
    };
    let recalled = runtime.prepare_turn(&request).expect("prepared memory");
    assert_eq!(recalled.user_entries, vec![remembered.clone()]);
    assert_eq!(list(&mut runtime, list_request(None)).data, vec![remembered.clone()]);

    forget(&mut runtime, forget_request(remembered.entry_id)).expect("forgotten");
    let recalled = runtime.prepare_turn(&request).expect("prepared memory");
    assert!(recalled.user_entries.is_empty());
    assert!(list(&mut runtime, list_request(Some(MemoryState::Active))).data.is_empty());
}

#[test]
fn old_observation_stays_out_after_restoring() {
    let mut runtime = open_runtime();
    let first = remember(&mut runtime, "Use tabs");
    forget(&mut runtime, forget_request(first.entry_id)).expect("forgotten");
    let restored = remember(&mut runtime, "Use tabs");
    assert_eq!(restored.state, MemoryState::Restored);
    let before = runtime.tables.clone();
    let replayed = infer(&mut runtime, "Use tabs", "2020-01-01T00:00:00Z").expect("replayed");
    assert_eq!(replayed, None);
    assert_eq!(runtime.tables, before);
}

#[test]
fn writes_leave_other_entries_and_reads_change_nothing() {
    let mut runtime = open_runtime();
    remember(&mut runtime, "Use tabs");
    let kept = runtime.tables.entries[0].clone();
    remember(&mut runtime, "Use Rust");
    assert_eq!(runtime.tables.entries[0], kept);
    assert_eq!(runtime.tables.entries.len(), 2);
    let before = runtime.tables.clone();
    list(&mut runtime, list_request(None));
    execute(&mut runtime, MemoryCommand::Status).expect("status");
    assert_eq!(runtime.tables, before);
}

#[test]
fn turn_recalls_nothing_where_nothing_is_configured() {
    let config = MemoryConfig { max_entries_per_turn: 0, ..enabled() };
    let mut runtime = MemoryRuntime::open(config, MemoryTables::default()).expect("runtime");
    remember(&mut runtime, "Use tabs");
    let request = PrepareMemoryRequest {
        workspace_root: project_root("one"),
        session_recall: MemorySetting::On,
    };
    let prepared = runtime.prepare_turn(&request).expect("prepared memory");
    assert_eq!(prepared.project_scope_id, Some("one".to_string()));
    assert!(prepared.user_entries.is_empty());
}

#[test]
fn turn_recalls_no_more_than_configured() {
    let config = MemoryConfig { max_entries_per_turn: 2, ..enabled() };
    let mut runtime = MemoryRuntime::open(config, MemoryTables::default()).expect("runtime");
    for text in ["Use tabs", "Use Rust", "Use nix"] {
        remember(&mut runtime, text);
    }
    let request = PrepareMemoryRequest {
        workspace_root: project_root("one"),
        session_recall: MemorySetting::On,
    };
    let prepared = runtime.prepare_turn(&request).expect("prepared memory");
    assert_eq!(prepared.user_entries.len(), 2);
    assert!(prepared.user_entries.iter().all(|entry| entry.scope == MemoryScope::User));
}

#[test]
fn remembering_twice_keeps_one_entry() {
    let mut runtime = open_runtime();
    let first = remember(&mut runtime, "Use  tabs");
    let second = remember(&mut runtime, " Use tabs ");
    let expected = MemoryEntry { updated_at: second.updated_at, ..first };
    assert_eq!(second, expected);
    assert_eq!(second.provenance.len(), 1);
    assert_eq!(runtime.tables.entries.len(), 1);
    assert_eq!(runtime.tables.evidence.len(), 1);
}

#[test]
fn remembering_after_forgetting_restores_the_entry() {
    let mut runtime = open_runtime();
    let first = remember(&mut runtime, "Use tabs");
    assert_eq!(first.state, MemoryState::Active);
    forget(&mut runtime, forget_request(first.entry_id.clone())).expect("forgotten");
    let again = remember(&mut runtime, "Use   tabs");
    let expected = MemoryEntry {
        state: MemoryState::Restored,
        updated_at: again.updated_at,
        ..first
    };
    assert_eq!(again, expected);
    assert_eq!(runtime.tables.entries.len(), 1);
}

#[test]
fn inferred_source_is_evidence_once() {
    let mut runtime = open_runtime();
    remember_on(&mut runtime, "Use tabs", "2026-09-10T00:00:00Z");
    for _ in 0..2 {
        let inferred = infer(&mut runtime, "Use tabs", "2026-09-11T00:00:00Z")
            .expect("readable")
            .expect("an entry");
        assert_eq!(inferred.origin, MemoryOrigin::ExplicitUser);
        assert_eq!(inferred.provenance.len(), 2);
    }
    assert_eq!(runtime.tables.evidence.len(), 2);
}
