//! Stored values, pages, lists, identities and the status of the store.

use devo_memory::command_types::{ListMemoryRequest, WorkspaceRoot};
use devo_memory::entries::MemoryEntryIdentity;
use devo_memory::entry_identity::{clear_self_replacements, merge_into};
use devo_memory::equivalence::explicit_memory_key;
use devo_memory::ids::{ItemId, MemoryEntryId};
use devo_memory::memory_error::MemoryError;
use devo_memory::migration::migrate_explicit_equivalence;
use devo_memory::projection::render_projection;
use devo_memory::queries::{list, list_recallable, parse_cursor, MAX_PATTERN_BYTES};
use devo_memory::rpc_memory::{
    MemoryEntry, MemoryKind, MemoryOrigin, MemoryProvenance, MemoryScope, MemoryState,
};
use devo_memory::schema::{migrate_schema, unite_revocations, MEMORY_SCHEMA_VERSION};
use devo_memory::status::{
    error_classes, last_successful_scan_at, redact_error_class, status, unavailable_memory_status,
};
use devo_memory::stored_values::{
    kind_name, origin_name, parse_kind, parse_origin, parse_scope, parse_state, parse_timestamp,
    scope_name, state_name,
};
use devo_memory::tables::{EntryRow, EvidenceRow, JobRow, MemoryTables, RevocationRow};
use devo_memory::time::{now, Timestamp, MAX_SECONDS, MIN_SECONDS};

fn at(seconds: i64) -> Timestamp {
    Timestamp::new(seconds, 0).expect("an instant")
}

#[test]
fn instants_are_written_in_rfc3339() {
    assert_eq!(at(0).to_rfc3339(), "1970-01-01T00:00:00+00:00");
    let fine = Timestamp::new(951_782_400, 1_000_000).expect("an instant");
    assert_eq!(fine.to_rfc3339(), "2000-02-29T00:00:00.001+00:00");
    assert_eq!(Timestamp::parse("2000-02-29T01:00:00.001+01:00"), Some(fine));
    assert_eq!(Timestamp::parse("yesterday"), None);
    assert_eq!(Timestamp::new(MAX_SECONDS + 1, 0), None);
    assert!(Timestamp::new(MIN_SECONDS, 0).is_some());
    assert!(at(0).is_before(&fine));
    assert!(at(0).is_before(&now()));
    assert!(now().nanos() < 1_000_000_000);
    assert_eq!(Timestamp::parse(&now().to_rfc3339()).is_some(), true);
}

#[test]
fn names_read_back() {
    for scope in [MemoryScope::User, MemoryScope::Project] {
        assert_eq!(parse_scope(scope_name(scope)), Ok(scope));
    }
    for kind in
        [MemoryKind::Preference, MemoryKind::Feedback, MemoryKind::Fact, MemoryKind::Reference]
    {
        assert_eq!(parse_kind(kind_name(kind)), Ok(kind));
    }
    for state in [
        MemoryState::Active,
        MemoryState::Stale,
        MemoryState::Conflicted,
        MemoryState::Retired,
        MemoryState::Restored,
    ] {
        assert_eq!(parse_state(state_name(state)), Ok(state));
    }
    for origin in [MemoryOrigin::ExplicitUser, MemoryOrigin::InferredSession] {
        assert_eq!(parse_origin(origin_name(origin)), Ok(origin));
    }
    assert_eq!(kind_name(MemoryKind::Fact), "fact");
    let error = parse_kind("rumour").expect_err("no kind");
    assert_eq!(error, MemoryError::InvalidStoredValue("rumour".to_string()));
    assert_eq!(error.message(), "memory database contains an invalid value: rumour");
    let error = parse_timestamp("soon").expect_err("no instant");
    assert_eq!(error, MemoryError::InvalidTimestamp("soon".to_string()));
    assert_eq!(error.message(), "memory database returned an invalid timestamp: soon");
}

#[test]
fn errors_are_told() {
    assert_eq!(
        MemoryError::Database("locked".to_string()).message(),
        "memory database error: locked"
    );
    assert_eq!(MemoryError::LockPoisoned.message(), "memory database lock was poisoned");
    assert_eq!(
        MemoryError::InvalidCount(-3).message(),
        "memory database returned an invalid count: -3"
    );
    assert_eq!(
        MemoryError::ProjectIdentity("gone".to_string()).message(),
        "failed to resolve memory project identity: gone"
    );
}

fn entry(id: &str, kind: MemoryKind, body: &str) -> MemoryEntry {
    MemoryEntry {
        entry_id: MemoryEntryId::from(id),
        scope: MemoryScope::User,
        scope_id: "user".to_string(),
        kind,
        normalized_key: body.to_lowercase(),
        body: body.to_string(),
        origin: MemoryOrigin::ExplicitUser,
        state: MemoryState::Active,
        created_at: at(0),
        updated_at: at(1),
        replacement_entry_id: None,
        provenance: vec![],
    }
}

#[test]
fn pages_show_entries_by_kind() {
    assert_eq!(
        render_projection(MemoryScope::Project, &vec![]),
        "# Project Memory\n\n<!-- Generated from SQLite. Read-only; manual edits are not canonical. -->\n\n_No memory entries._\n"
    );
    let mut preference = entry("mem_1", MemoryKind::Preference, "Use tabs");
    preference.provenance = vec![MemoryProvenance {
        source_session_id: Some("s".to_string()),
        source_turn_id: None,
        source_user_item_id: Some(ItemId::from("item_1")),
    }];
    let fact = entry("mem_2", MemoryKind::Fact, "Rust");
    assert_eq!(
        render_projection(MemoryScope::User, &vec![preference, fact]),
        "# User Memory\n\n<!-- Generated from SQLite. Read-only; manual edits are not canonical. -->\n\
         \n## fact\n\
         \n- `mem_2` \u{2014} Rust\n  - state: active\n  - origin: explicit_user\n  - created_at: 1970-01-01T00:00:00+00:00\n  - updated_at: 1970-01-01T00:00:01+00:00\n\
         \n## preference\n\
         \n- `mem_1` \u{2014} Use tabs\n  - state: active\n  - origin: explicit_user\n  - created_at: 1970-01-01T00:00:00+00:00\n  - updated_at: 1970-01-01T00:00:01+00:00\n  - sources:\n    - source_session_id: s\n      source_turn_id: <none>\n      source_user_item_id: item_1\n"
    );
}

fn row(id: &str, body: &str, updated: i64) -> EntryRow {
    EntryRow {
        entry_id: id.to_string(),
        scope_type: "user".to_string(),
        scope_id: "user".to_string(),
        kind: "preference".to_string(),
        normalized_key: body.to_lowercase(),
        body: body.to_string(),
        origin: "explicit_user".to_string(),
        state: "active".to_string(),
        created_at: at(updated).to_rfc3339(),
        updated_at: at(updated).to_rfc3339(),
        last_recalled_at: None,
        replacement_entry_id: None,
        expires_at: None,
    }
}

fn evidence(id: &str, entry_id: &str) -> EvidenceRow {
    EvidenceRow {
        evidence_id: id.to_string(),
        entry_id: entry_id.to_string(),
        session_id: format!("session-{id}"),
        turn_id: None,
        source_user_item_id: None,
        observed_at: at(1).to_rfc3339(),
        source_watermark: "w".to_string(),
    }
}

fn request(cursor: Option<&str>, limit: Option<u32>) -> ListMemoryRequest {
    ListMemoryRequest {
        scope: Some(MemoryScope::User),
        kind: None,
        state: None,
        origin: None,
        text: None,
        cursor: cursor.map(str::to_string),
        limit,
        workspace_root: WorkspaceRoot {
            path: vec![],
            project_scope: Err("no workspace".to_string()),
        },
    }
}

#[test]
fn lists_come_in_pages() {
    let mut tables = MemoryTables::default();
    for (id, updated) in [("mem_1", 1), ("mem_2", 2), ("mem_3", 3)] {
        tables.entries.push(row(id, id, updated));
    }
    let first = list(&tables, &request(None, Some(2))).expect("a page");
    let ids: Vec<String> = first.data.iter().map(|entry| entry.entry_id.to_text()).collect();
    assert_eq!(ids, vec!["mem_3", "mem_2"]);
    assert_eq!(first.next_cursor, Some("2".to_string()));
    let second = list(&tables, &request(Some("2"), Some(2))).expect("a page");
    assert_eq!(second.data.len(), 1);
    assert_eq!(second.next_cursor, None);
    assert!(list(&tables, &request(Some("two"), None)).is_err());
    assert_eq!(parse_cursor(None), Ok(0));
    assert_eq!(parse_cursor(Some("17")), Ok(17));

    tables.entries[0].state = "retired".to_string();
    tables.entries[1].state = "restored".to_string();
    let active = ListMemoryRequest { state: Some(MemoryState::Active), ..request(None, None) };
    assert_eq!(list_recallable(&tables, &active).expect("a page").data.len(), 2);
    assert_eq!(list(&tables, &active).expect("a page").data.len(), 1);
    assert_eq!(list(&tables, &request(None, None)).expect("a page").data.len(), 3);
}

fn job(kind: &str, state: &str, error_class: Option<&str>, updated: i64) -> JobRow {
    JobRow {
        job_id: format!("{kind}-{state}-{updated}"),
        job_kind: kind.to_string(),
        job_key: "k".to_string(),
        source_session_id: "s".to_string(),
        source_watermark: "w".to_string(),
        state: state.to_string(),
        error_class: error_class.map(str::to_string),
        updated_at: at(updated).to_rfc3339(),
    }
}

#[test]
fn status_counts_the_store() {
    let mut tables = MemoryTables::default();
    tables.entries.push(row("mem_1", "a", 1));
    tables.candidate_count = 4;
    tables.jobs = vec![
        job("source_scan", "completed", None, 5),
        job("source_scan", "completed", None, 7),
        job("source_scan", "pending", None, 9),
        job("extract", "retrying", None, 9),
        job("extract", "error", Some("quota_unavailable"), 9),
        job("extract", "error", Some("password=hunter2"), 10),
    ];
    let told = status(true, &tables).expect("a status");
    assert_eq!(told.entry_count, 1);
    assert_eq!(told.candidate_count, 4);
    assert_eq!(told.pending_job_count, 1);
    assert_eq!(told.retrying_job_count, 1);
    assert_eq!(told.error_job_count, 2);
    assert_eq!(told.last_successful_scan_at, Some(at(7)));
    assert_eq!(told.error_classes, vec!["quota_unavailable", "unknown"]);
    assert_eq!(error_classes(&tables.jobs), told.error_classes);
    assert_eq!(redact_error_class("other".to_string()), "unknown");

    tables.jobs[0].updated_at = "zzz".to_string();
    assert_eq!(
        last_successful_scan_at(&tables.jobs),
        Err(MemoryError::InvalidTimestamp("zzz".to_string()))
    );
    let away = unavailable_memory_status(false);
    assert!(!away.enabled);
    assert_eq!(away.storage_health, "unavailable");
}

#[test]
fn merged_entries_keep_their_evidence() {
    let mut tables = MemoryTables::default();
    tables.entries = vec![row("mem_1", "I prefer tabs", 1), row("mem_2", "I prefer tabs.", 2)];
    tables.entries[0].replacement_entry_id = Some("mem_2".to_string());
    tables.evidence = vec![evidence("e1", "mem_1"), evidence("e2", "mem_2")];
    merge_into(&mut tables, "mem_1", "mem_2");
    assert_eq!(tables.entries.len(), 1);
    assert_eq!(tables.evidence.len(), 2);
    assert!(tables.evidence.iter().all(|row| row.entry_id == "mem_1"));
    clear_self_replacements(&mut tables.entries);
    assert_eq!(tables.entries[0].replacement_entry_id, None);
}

#[test]
fn equivalent_entries_are_found_as_one() {
    let mut tables = MemoryTables::default();
    tables.entries = vec![row("mem_1", "I prefer tabs", 1)];
    tables.entries[0].normalized_key = explicit_memory_key("I prefer tabs");
    tables.evidence = vec![evidence("e1", "mem_1")];
    let identity = MemoryEntryIdentity::from_body("I prefer tabs.");
    let found = identity
        .resolve_and_merge_existing(&mut tables, MemoryScope::User, "user")
        .expect("readable");
    assert_eq!(found.map(|entry| entry.entry_id), Some("mem_1".to_string()));
    let other = MemoryEntryIdentity::from_body("Use spaces");
    assert_eq!(
        other.resolve_and_merge_existing(&mut tables, MemoryScope::User, "user"),
        Ok(None)
    );
}

#[test]
fn migration_unites_equivalent_entries() {
    let mut tables = MemoryTables::default();
    tables.entries = vec![row("mem_1", "I prefer tabs", 1), row("mem_2", "I prefer tabs.", 2)];
    tables.evidence = vec![evidence("e1", "mem_1"), evidence("e2", "mem_2")];
    migrate_explicit_equivalence(&mut tables);
    assert_eq!(tables.entries.len(), 1);
    assert_eq!(tables.evidence.len(), 2);
    let once = tables.clone();
    migrate_explicit_equivalence(&mut tables);
    assert_eq!(tables, once);
}

fn revocation(id: &str, revoked: i64) -> RevocationRow {
    RevocationRow {
        revocation_id: id.to_string(),
        scope_type: "user".to_string(),
        scope_id: "user".to_string(),
        normalized_key: "use tabs".to_string(),
        revoked_at: at(revoked).to_rfc3339(),
        restored_at: None,
    }
}

#[test]
fn revocations_are_united() {
    let mut rows = vec![revocation("r1", 1), revocation("r2", 2)];
    unite_revocations(&mut rows);
    assert_eq!(rows.len(), 1);
    assert_eq!(rows[0].revoked_at, at(2).to_rfc3339());
    let mut tables = MemoryTables::default();
    tables.revocations = vec![revocation("r1", 1), revocation("r2", 2)];
    migrate_schema(&mut tables).expect("readable rows");
    assert_eq!(tables.revocations.len(), 1);
    let once = tables.clone();
    migrate_schema(&mut tables).expect("readable rows");
    assert_eq!(tables, once);
    assert_eq!(MEMORY_SCHEMA_VERSION, "4");
}

#[test]
fn all_pages_are_the_list() {
    let mut tables = MemoryTables::default();
    for number in 1..=7 {
        tables.entries.push(row(&format!("mem_{number}"), &format!("claim {number}"), number));
    }
    let mut found = Vec::new();
    let mut cursor = None;
    let mut sizes = Vec::new();
    loop {
        let page = list(&tables, &request(cursor.as_deref(), Some(3))).expect("a page");
        sizes.push(page.data.len());
        found.extend(page.data.into_iter().map(|entry| entry.entry_id.to_text()));
        cursor = page.next_cursor;
        if cursor.is_none() {
            break;
        }
    }
    assert_eq!(sizes, vec![3, 3, 1]);
    assert_eq!(found, vec!["mem_7", "mem_6", "mem_5", "mem_4", "mem_3", "mem_2", "mem_1"]);
}

#[test]
fn patterns_have_a_longest_length() {
    let mut tables = MemoryTables::default();
    let searched = |text: String| ListMemoryRequest { text: Some(text), ..request(None, None) };
    let longest = "t".repeat(MAX_PATTERN_BYTES - 2);
    let longer = "t".repeat(MAX_PATTERN_BYTES - 1);
    assert!(list(&tables, &searched(longer.clone())).expect("no rows to match").data.is_empty());
    tables.entries.push(row("mem_1", "Use tabs", 1));
    assert!(list(&tables, &searched(longest)).expect("a page").data.is_empty());
    assert_eq!(
        list(&tables, &searched(longer.clone())),
        Err(MemoryError::Database("LIKE or GLOB pattern too complex".to_string()))
    );
    let elsewhere = ListMemoryRequest { kind: Some(MemoryKind::Fact), ..searched(longer) };
    assert!(list(&tables, &elsewhere).expect("no rows to match").data.is_empty());
}

#[test]
fn texts_are_read_up_to_a_null_character() {
    let mut tables = MemoryTables::default();
    tables.entries.push(row("mem_1", "Use tabs\0not spaces", 1));
    let found = |text: &str| {
        let searched = ListMemoryRequest { text: Some(text.to_string()), ..request(None, None) };
        list(&tables, &searched).expect("a page").data.len()
    };
    assert_eq!(found("tabs"), 1);
    assert_eq!(found("spaces"), 0);
}

#[test]
fn migrated_stores_are_settled() {
    let mut tables = MemoryTables::default();
    tables.entries = vec![row("mem_1", "I prefer tabs", 1), row("mem_2", "I prefer tabs.", 2)];
    tables.entries[1].replacement_entry_id = Some("mem_1".to_string());
    tables.evidence = vec![evidence("e1", "mem_1"), evidence("e2", "mem_2")];
    tables.evidence[1].session_id = tables.evidence[0].session_id.clone();
    let revoked = |id: &str, key: &str, at_second: i64| RevocationRow {
        normalized_key: key.to_string(),
        ..revocation(id, at_second)
    };
    tables.revocations =
        vec![revoked("r1", "i prefer tabs", 1), revoked("r2", "i prefer tabs.", 3)];
    tables.revocations[0].restored_at = Some(at(2).to_rfc3339());
    migrate_explicit_equivalence(&mut tables);
    assert_eq!(tables.entries.len(), 1);
    let kept = &tables.entries[0];
    assert_eq!(kept.entry_id, "mem_1");
    assert_eq!(kept.normalized_key, explicit_memory_key(&kept.body));
    assert_eq!(kept.replacement_entry_id, None);
    assert_eq!(tables.evidence.len(), 1);
    assert_eq!(tables.revocations.len(), 1);
    assert_eq!(tables.revocations[0].revoked_at, at(3).to_rfc3339());
    assert_eq!(tables.revocations[0].restored_at, None);
    let once = tables.clone();
    migrate_explicit_equivalence(&mut tables);
    assert_eq!(tables, once);
}
