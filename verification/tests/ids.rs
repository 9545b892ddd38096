//! Identifiers of the native protocol and of the core.

use devo_memory::core_ids;
use devo_memory::ids::{GoalId, ItemId, MemoryEntryId, SessionId, TurnId};

#[test]
fn new_ids_carry_their_prefix() {
    assert!(SessionId::new().as_str().starts_with("ses_"));
    assert!(TurnId::new().as_str().starts_with("turn_"));
    assert!(ItemId::new().as_str().starts_with("item_"));
    assert!(GoalId::new().as_str().starts_with("goal_"));
    assert!(MemoryEntryId::new().as_str().starts_with("mem_"));
}

#[test]
fn legacy_bare_uuid_round_trips_unchanged() {
    let uuid = uuid::Uuid::now_v7();
    let id = SessionId::from_legacy_uuid(uuid.as_u128());
    assert_eq!(id.as_str(), uuid.to_string());
    let json = serde_json::to_string(id.as_str()).expect("serialize");
    assert_eq!(json, format!("\"{uuid}\""));
    let back: String = serde_json::from_str(&json).expect("deserialize");
    assert_eq!(SessionId::from_string(back), id);
}

#[test]
fn new_ids_differ() {
    assert_ne!(MemoryEntryId::new(), MemoryEntryId::new());
    assert_ne!(ItemId::new(), ItemId::default());
}

#[test]
fn texts_are_taken_over_as_they_came() {
    let id: MemoryEntryId = "mem_1".parse().expect("any text is an id");
    assert_eq!(id.as_str(), "mem_1");
    assert_eq!(id, MemoryEntryId::from("mem_1"));
    assert_eq!(id, MemoryEntryId::from("mem_1".to_string()));
    assert!(id.same(&id.clone()));
}

#[test]
fn core_ids_read_back_their_text() {
    let id = core_ids::SessionId { value: 0x0123_4567_89ab_cdef_0123_4567_89ab_cdef };
    assert_eq!(id.to_text(), "01234567-89ab-cdef-0123-456789abcdef");
    assert_eq!(core_ids::SessionId::parse(&id.to_text()), Some(id));
    assert_eq!(core_ids::SessionId::parse("no uuid"), None);
    assert_eq!(
        core_ids::TurnId::parse("01234567-89ab-cdef-0123-456789abcdef"),
        Some(core_ids::TurnId { value: id.value })
    );
    assert_eq!(core_ids::TurnId::parse(""), None);
}
