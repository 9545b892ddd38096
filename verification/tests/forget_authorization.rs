//! The coordinator of memory deletions: who may forget what, and when.

use devo_memory::core_ids::{SessionId, TurnId};
use devo_memory::forget_authorization::{
    strict_forget_names, ActiveForgetKind, ActiveForgetMutation, AuthorizedForget,
    ForgetCommandGrammar, ForgetState, MemoryForgetCoordinator, MemoryToolInvocation,
    PendingForgetCandidate, PendingForgetSelection, PendingItem, PendingSelections,
    PENDING_SELECTION_TTL,
};
use devo_memory::ids::{ItemId, MemoryEntryId};
use devo_memory::rpc_memory::{
    MemoryEntry, MemoryKind, MemoryOrigin, MemoryScope, MemorySearchEntry, MemoryState,
};
use devo_memory::time::Timestamp;
use devo_memory::tool_error::ToolCallError;

/// An instant of the clock, in nanoseconds.
const NOW: u64 = 1_000_000_000_000;

/// A second, in nanoseconds.
const SECOND: u64 = 1_000_000_000;

fn authorize(
    authorizations: &mut MemoryForgetCoordinator,
    invocation: &MemoryToolInvocation,
    user_text: &str,
    entry_id: &MemoryEntryId,
) -> Result<AuthorizedForget, ToolCallError> {
    authorize_at(authorizations, invocation, user_text, entry_id, NOW)
}

fn authorize_at(
    authorizations: &mut MemoryForgetCoordinator,
    invocation: &MemoryToolInvocation,
    user_text: &str,
    entry_id: &MemoryEntryId,
    now: u64,
) -> Result<AuthorizedForget, ToolCallError> {
    authorizations.authorize_agent_at(invocation, user_text, entry_id, MemoryScope::User, now)
}

fn new_turn() -> TurnId {
    TurnId { value: uuid::Uuid::now_v7().as_u128() }
}

fn invocation() -> MemoryToolInvocation {
    MemoryToolInvocation {
        session_id: SessionId { value: uuid::Uuid::now_v7().as_u128() },
        turn_id: new_turn(),
        user_item_id: ItemId::new(),
    }
}

/// A later turn of the session of an invocation.
fn later_turn(search: &MemoryToolInvocation) -> MemoryToolInvocation {
    MemoryToolInvocation {
        session_id: search.session_id,
        turn_id: new_turn(),
        user_item_id: ItemId::new(),
    }
}

fn candidate(entry_id: MemoryEntryId, scope: MemoryScope) -> MemorySearchEntry {
    MemorySearchEntry {
        entry_id,
        scope,
        kind: MemoryKind::Preference,
        state: MemoryState::Active,
        summary: "summary".to_string(),
    }
}

fn forgotten_entry(entry_id: MemoryEntryId) -> MemoryEntry {
    let timestamp = Timestamp::parse("2026-01-01T00:00:00Z").expect("fixed timestamp");
    MemoryEntry {
        entry_id,
        scope: MemoryScope::User,
        scope_id: "user".to_string(),
        kind: MemoryKind::Preference,
        normalized_key: "key".to_string(),
        body: "body".to_string(),
        origin: MemoryOrigin::ExplicitUser,
        state: MemoryState::Retired,
        created_at: timestamp,
        updated_at: timestamp,
        replacement_entry_id: None,
        provenance: Vec::new(),
    }
}

fn record_search(
    authorizations: &mut MemoryForgetCoordinator,
    invocation: &MemoryToolInvocation,
    candidates: &[MemorySearchEntry],
) -> Result<(), ToolCallError> {
    record_search_at(authorizations, invocation, candidates, NOW)
}

fn record_search_at(
    authorizations: &mut MemoryForgetCoordinator,
    invocation: &MemoryToolInvocation,
    candidates: &[MemorySearchEntry],
    now: u64,
) -> Result<(), ToolCallError> {
    authorizations.record_search_at(invocation, &candidates.to_vec(), now)
}

/// Direct and confirmation commands anchor their grammar while preserving byte-exact ID casing.
#[test]
fn direct_exact_id_grammar_is_closed_over_task_rewrites() {
    let entry_id = MemoryEntryId::from("mem_test");
    assert!(strict_forget_names(
        ForgetCommandGrammar::Direct,
        "Forget memory entry mem_test",
        &entry_id
    ));
    assert!(strict_forget_names(
        ForgetCommandGrammar::Direct,
        "删除记忆条目 mem_test",
        &entry_id
    ));
    assert!(strict_forget_names(
        ForgetCommandGrammar::Direct,
        "FORGET MEMORY ENTRY mem_test",
        &entry_id
    ));
    assert!(!strict_forget_names(
        ForgetCommandGrammar::Direct,
        "Forget memory entry MEM_TEST",
        &entry_id
    ));
    assert!(strict_forget_names(
        ForgetCommandGrammar::Confirmation,
        "CONFIRM FORGET MEMORY ENTRY mem_test",
        &entry_id
    ));
    assert!(!strict_forget_names(
        ForgetCommandGrammar::Confirmation,
        "Confirm forget memory entry MEM_TEST",
        &entry_id
    ));

    for prefix in [
        "Please forget that I use tests",
        "Forget about memory safety",
        "请忘记我在写测试",
        "请删除我不需要的文件",
    ] {
        for separator in [" and ", "; ", ". ", "\n", "，", "；"] {
            for suffix in ["implement docs", "then continue", "然后实现文档"] {
                let text = format!("{prefix}{separator}{suffix}");
                assert!(
                    !strict_forget_names(ForgetCommandGrammar::Direct, &text, &entry_id),
                    "{text}"
                );
                let uppercase = text.to_ascii_uppercase();
                assert!(
                    !strict_forget_names(ForgetCommandGrammar::Direct, &uppercase, &entry_id),
                    "{uppercase}"
                );
            }
        }
    }
    for text in [
        "Do not forget memory entry mem_test",
        "Please explain forget memory entry mem_test",
        "Forget memory entry mem_test and implement docs",
        "删除记忆条目 mem_test，然后实现文档",
    ] {
        assert!(
            !strict_forget_names(ForgetCommandGrammar::Direct, text, &entry_id),
            "{text}"
        );
    }
}

/// Pending authorization rejects same-turn and outside-candidate mutations, then accepts a later exact selection once.
#[test]
fn pending_selection_is_turn_bound_candidate_bound_and_single_use() {
    let mut authorizations = MemoryForgetCoordinator::new();
    let search = invocation();
    let selected_id = MemoryEntryId::from("mem_selected");
    let outside_id = MemoryEntryId::from("mem_outside");
    record_search(
            &mut authorizations,
            &search,
            &[candidate(selected_id.clone(), MemoryScope::User)],
        )
        .expect("record pending search");

    assert_eq!(
        authorize(
                &mut authorizations,
                &search,
                &format!("Confirm forget memory entry {}", selected_id.as_str()),
                &selected_id,
            )
            .expect_err("same-turn forget must fail")
            .message(),
        "invalid input: memory_forget requires a subsequent user selection after memory_search"
    );
    let selection = later_turn(&search);
    assert_eq!(
        authorize(
                &mut authorizations,
                &selection,
                &format!("Confirm forget memory entry {}", outside_id.as_str()),
                &outside_id,
            )
            .expect_err("outside candidate must fail")
            .message(),
        "invalid input: memory_forget target is not one of the pending candidates"
    );
    assert_eq!(
        authorize(&mut authorizations, &selection, selected_id.as_str(), &selected_id)
            .expect_err("bare candidate ID must not authorize mutation")
            .message(),
        "invalid input: memory_forget pending selection must explicitly confirm the selected stable ID"
    );
    let authorized = authorize(
            &mut authorizations,
            &selection,
            &format!("Confirm forget memory entry {}", selected_id.as_str()),
            &selected_id,
        )
        .expect("selected candidate is authorized");
    let forgotten = forgotten_entry(selected_id.clone());
    authorizations
        .complete(authorized.reservation, Some(&forgotten))
        .expect("successful mutation consumes selection");
    assert_eq!(
        authorize(
                &mut authorizations,
                &selection,
                &format!("Confirm forget memory entry {}", selected_id.as_str()),
                &selected_id,
            )
            .expect_err("consumed selection must fail")
            .message(),
        "invalid input: memory_forget requires a strict exact stable-ID command or a pending selection"
    );
}

/// An unrelated Pending selection never shadows an independently authorized direct exact-ID command.
#[test]
fn pending_selection_does_not_shadow_direct_exact_id_authority() {
    let mut authorizations = MemoryForgetCoordinator::new();
    let search = invocation();
    record_search(
            &mut authorizations,
            &search,
            &[candidate(
                MemoryEntryId::from("mem_pending"),
                MemoryScope::User,
            )],
        )
        .expect("record pending search");
    let direct = later_turn(&search);
    let direct_id = MemoryEntryId::from("mem_direct");

    let authorized = authorize(
            &mut authorizations,
            &direct,
            &format!("Forget memory entry {}", direct_id.as_str()),
            &direct_id,
        )
        .expect("direct command is authorized despite unrelated pending state");
    assert_eq!(authorized.scope, MemoryScope::User);
}

/// A direct mutation lease blocks a pending confirmation from another session.
#[test]
fn direct_inflight_blocks_pending_confirmation() {
    let mut authorizations = MemoryForgetCoordinator::new();
    let direct = invocation();
    let direct_id = MemoryEntryId::from("mem_direct");
    let _direct_grant = authorize(
            &mut authorizations,
            &direct,
            &format!("Forget memory entry {}", direct_id.as_str()),
            &direct_id,
        )
        .expect("direct mutation is authorized");
    let search = invocation();
    let selected_id = MemoryEntryId::from("mem_selected");
    record_search(
            &mut authorizations,
            &search,
            &[candidate(selected_id.clone(), MemoryScope::User)],
        )
        .expect("record pending search");
    let confirmation = later_turn(&search);

    let blocked = authorize(
            &mut authorizations,
            &confirmation,
            &format!("Confirm forget memory entry {}", selected_id.as_str()),
            &selected_id,
        )
        .expect_err("direct mutation must block pending confirmation")
        .message();
    assert_eq!(
        blocked,
        "invalid input: memory forget mutation is already in flight"
    );
    authorizations.release(_direct_grant.reservation);
    authorize(
            &mut authorizations,
            &confirmation,
            &format!("Confirm forget memory entry {}", selected_id.as_str()),
            &selected_id,
        )
        .expect("dropping a failed direct mutation releases the pending confirmation");
}

/// An in-flight confirmed mutation blocks a concurrent direct exact-ID mutation from another session.
#[test]
fn inflight_selection_blocks_direct_exact_id_authority() {
    let mut authorizations = MemoryForgetCoordinator::new();
    let search = invocation();
    let selected_id = MemoryEntryId::from("mem_pending");
    record_search(
            &mut authorizations,
            &search,
            &[candidate(selected_id.clone(), MemoryScope::User)],
        )
        .expect("record pending search");
    let selection = later_turn(&search);
    let _reservation = authorize(
            &mut authorizations,
            &selection,
            &format!("Confirm forget memory entry {}", selected_id.as_str()),
            &selected_id,
        )
        .expect("reserve selected candidate")
        .reservation;
    let direct = invocation();
    let direct_id = MemoryEntryId::from("mem_direct");

    assert_eq!(
        authorize(
                &mut authorizations,
                &direct,
                &format!("Forget memory entry {}", direct_id.as_str()),
                &direct_id,
            )
            .expect_err("in-flight selection must block direct mutation")
            .message(),
        "invalid input: memory forget mutation is already in flight"
    );
}

/// A successful deletion removes the same stable ID from every session's pending candidates.
#[test]
fn successful_forget_removes_entry_from_all_pending_selections() {
    let mut authorizations = MemoryForgetCoordinator::new();
    let deleted_id = MemoryEntryId::from("mem_deleted");
    let confirming_search = invocation();
    let other_search = invocation();
    record_search(
            &mut authorizations,
            &confirming_search,
            &[candidate(deleted_id.clone(), MemoryScope::User)],
        )
        .expect("record confirming search");
    record_search(
            &mut authorizations,
            &other_search,
            &[
                candidate(deleted_id.clone(), MemoryScope::User),
                candidate(MemoryEntryId::from("mem_other"), MemoryScope::User),
            ],
        )
        .expect("record other search");
    let confirmation = later_turn(&confirming_search);
    let authorized = authorize(
            &mut authorizations,
            &confirmation,
            &format!("Confirm forget memory entry {}", deleted_id.as_str()),
            &deleted_id,
        )
        .expect("reserve confirmed candidate");
    let forgotten = forgotten_entry(deleted_id.clone());
    authorizations
        .complete(authorized.reservation, Some(&forgotten))
        .expect("commit confirmed deletion");
    let other_confirmation = later_turn(&other_search);

    assert_eq!(
        authorize(
                &mut authorizations,
                &other_confirmation,
                &format!("Confirm forget memory entry {}", deleted_id.as_str()),
                &deleted_id,
            )
            .expect_err("deleted ID must be removed from other pending selections")
            .message(),
        "invalid input: memory_forget target is not one of the pending candidates"
    );
}

/// An in-flight selection excludes concurrent mutation and returns to Pending when mutation does not commit.
#[test]
fn abandoned_inflight_selection_can_be_retried() {
    let mut authorizations = MemoryForgetCoordinator::new();
    let search = invocation();
    let entry_id = MemoryEntryId::from("mem_retry");
    record_search(&mut authorizations, &search, &[candidate(entry_id.clone(), MemoryScope::User)])
        .expect("record pending search");
    let selection = later_turn(&search);

    let reservation = authorize(
            &mut authorizations,
            &selection,
            &format!("Confirm forget memory entry {}", entry_id.as_str()),
            &entry_id,
        )
        .expect("reserve selected candidate");
    assert_eq!(
        authorize(
                &mut authorizations,
                &selection,
                &format!("Confirm forget memory entry {}", entry_id.as_str()),
                &entry_id,
            )
            .expect_err("concurrent selection must fail")
            .message(),
        "invalid input: memory forget mutation is already in flight"
    );
    authorizations.release(reservation.reservation);
    authorize(
            &mut authorizations,
            &selection,
            &format!("Confirm forget memory entry {}", entry_id.as_str()),
            &entry_id,
        )
        .expect("abandoned selection returns to pending");
}

/// Search cannot replace or prune an active confirmed selection; normal TTL cleanup resumes after cancellation.
#[test]
fn active_confirmation_protects_its_selection_from_search_and_expiry() {
    let mut authorizations = MemoryForgetCoordinator::new();
    let search = invocation();
    let selected_id = MemoryEntryId::from("mem_selected");
    let started_at = NOW;
    let source_session_id = search.session_id;
    let source_turn_id = search.turn_id;
    let source_user_item_id = search.user_item_id.clone();
    record_search_at(
            &mut authorizations,
            &search,
            &[candidate(selected_id.clone(), MemoryScope::User)],
            started_at,
        )
        .expect("record pending search");
    let confirmation = later_turn(&search);
    let reservation = authorize_at(
            &mut authorizations,
            &confirmation,
            &format!("Confirm forget memory entry {}", selected_id.as_str()),
            &selected_id,
            started_at,
        )
        .expect("reserve confirmed candidate");

    assert_eq!(
        record_search_at(
                &mut authorizations,
                &confirmation,
                &[candidate(
                    MemoryEntryId::from("mem_replacement"),
                    MemoryScope::User,
                )],
                started_at + PENDING_SELECTION_TTL + SECOND,
            )
            .expect_err("active confirmation must block replacement search")
            .message(),
        "invalid input: memory_forget selection mutation is already in flight"
    );
    let other_search = invocation();
    let other_session_id = other_search.session_id;
    let other_turn_id = other_search.turn_id;
    let other_user_item_id = other_search.user_item_id.clone();
    let other_entry_id = MemoryEntryId::from("mem_other");
    record_search_at(
            &mut authorizations,
            &other_search,
            &[candidate(other_entry_id.clone(), MemoryScope::User)],
            started_at + PENDING_SELECTION_TTL + SECOND,
        )
        .expect("other session search may proceed without pruning active selection");
    assert_eq!(
        authorizations.state,
        ForgetState {
            pending_by_session: PendingSelections { items: vec![
                PendingItem {
                    session_id: source_session_id,
                    selection: PendingForgetSelection {
                        selection_id: 0,
                        source_turn_id,
                        source_user_item_id,
                        candidates: vec![PendingForgetCandidate {
                            entry_id: selected_id.clone(),
                            scope: MemoryScope::User,
                        }],
                        expires_at: started_at + PENDING_SELECTION_TTL,
                    } },
                PendingItem {
                    session_id: other_session_id,
                    selection: PendingForgetSelection {
                        selection_id: 1,
                        source_turn_id: other_turn_id,
                        source_user_item_id: other_user_item_id,
                        candidates: vec![PendingForgetCandidate {
                            entry_id: other_entry_id,
                            scope: MemoryScope::User,
                        }],
                        expires_at: started_at
                            + PENDING_SELECTION_TTL
                            + SECOND
                            + PENDING_SELECTION_TTL,
                    } },
            ] },
            active: Some(ActiveForgetMutation {
                reservation_id: 0,
                session_id: confirmation.session_id,
                kind: ActiveForgetKind::AgentConfirmed { selection_id: 0 },
                entry_id: Some(selected_id.clone()),
            }),
            next_reservation_id: 1,
            next_selection_id: 2,
        }
    );
    authorizations.release(reservation.reservation);
    assert_eq!(
        authorize_at(
                &mut authorizations,
                &confirmation,
                &format!("Confirm forget memory entry {}", selected_id.as_str()),
                &selected_id,
                started_at + PENDING_SELECTION_TTL + SECOND,
            )
            .expect_err("expired selection is pruned after cancellation releases its lease")
            .message(),
        "invalid input: memory_forget requires a strict exact stable-ID command or a pending selection"
    );
}

/// An old reservation drop or failed commit cannot clear a newer active mutation lease.
#[test]
fn stale_reservation_cannot_clear_new_active_lease() {
    let mut authorizations = MemoryForgetCoordinator::new();
    let first = invocation();
    let first_id = MemoryEntryId::from("mem_first");
    let stale = authorize(
            &mut authorizations,
            &first,
            &format!("Forget memory entry {}", first_id.as_str()),
            &first_id,
        )
        .expect("reserve first direct mutation")
        .reservation;
    authorizations.release(stale);
    let second = invocation();
    let second_id = MemoryEntryId::from("mem_second");
    let current = authorize(
            &mut authorizations,
            &second,
            &format!("Forget memory entry {}", second_id.as_str()),
            &second_id,
        )
        .expect("reserve replacement direct mutation")
        .reservation;

    assert_eq!(
        authorizations
            .complete(stale, Some(&forgotten_entry(first_id)))
            .expect_err("stale commit must fail")
            .message(),
        "internal error: memory forget reservation is no longer current"
    );
    let third = invocation();
    let third_id = MemoryEntryId::from("mem_third");
    assert_eq!(
        authorize(
                &mut authorizations,
                &third,
                &format!("Forget memory entry {}", third_id.as_str()),
                &third_id,
            )
            .expect_err("stale reservation must not clear current mutation")
            .message(),
        "invalid input: memory forget mutation is already in flight"
    );
    authorizations.release(current);
}

/// Expired pending state fails closed and requires a fresh search.
#[test]
fn pending_selection_expires_fail_closed() {
    let mut authorizations = MemoryForgetCoordinator::new();
    let search = invocation();
    let entry_id = MemoryEntryId::from("mem_expired");
    record_search(&mut authorizations, &search, &[candidate(entry_id.clone(), MemoryScope::User)])
        .expect("record pending search");
    let selection = later_turn(&search);

    assert_eq!(
        authorize_at(
                &mut authorizations,
                &selection,
                &format!("Confirm forget memory entry {}", entry_id.as_str()),
                &entry_id,
                NOW + PENDING_SELECTION_TTL + SECOND,
            )
            .expect_err("expired selection must fail")
            .message(),
        "invalid input: memory_forget requires a strict exact stable-ID command or a pending selection"
    );
}

/// Recording a later search removes expired pending selections from other sessions.
#[test]
fn recording_search_prunes_expired_pending_selections() {
    let mut authorizations = MemoryForgetCoordinator::new();
    let expired = invocation();
    let current = invocation();
    let now = NOW;
    record_search_at(
            &mut authorizations,
            &expired,
            &[candidate(
                MemoryEntryId::from("mem_expired"),
                MemoryScope::User,
            )],
            now,
        )
        .expect("record expiring search");
    record_search_at(
            &mut authorizations,
            &current,
            &[candidate(
                MemoryEntryId::from("mem_current"),
                MemoryScope::User,
            )],
            now + PENDING_SELECTION_TTL + SECOND,
        )
        .expect("record current search");

        assert_eq!(
        authorizations.state,
        ForgetState {
            pending_by_session: PendingSelections { items: vec![PendingItem {
                session_id: current.session_id,
                selection: PendingForgetSelection {
                    selection_id: 1,
                    source_turn_id: current.turn_id,
                    source_user_item_id: current.user_item_id.clone(),
                    candidates: vec![PendingForgetCandidate {
                        entry_id: MemoryEntryId::from("mem_current"),
                        scope: MemoryScope::User,
                    }],
                    expires_at: now
                        + PENDING_SELECTION_TTL
                        + SECOND
                        + PENDING_SELECTION_TTL,
                } }] },
            active: None::<ActiveForgetMutation>,
            next_reservation_id: 0,
            next_selection_id: 2,
        }
    );
}

/// Deleting a session removes its pending forget authorization state.
#[test]
fn removing_session_clears_pending_selection() {
    let mut authorizations = MemoryForgetCoordinator::new();
    let search = invocation();
    record_search(
            &mut authorizations,
            &search,
            &[candidate(
                MemoryEntryId::from("mem_deleted_session"),
                MemoryScope::User,
            )],
        )
        .expect("record pending search");

    authorizations.remove_session(search.session_id);

    assert!(
        authorizations.state.pending_by_session.items.is_empty()
    );
}
