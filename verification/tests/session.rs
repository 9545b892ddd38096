//! The state of a running session and the commands on it.

use devo_memory::after_turn::AfterTurn;
use devo_memory::config::MemorySetting;
use devo_memory::core_ids::{SessionId, TurnId};
use devo_memory::pending_input::{
    collaboration_mode_from_pending_metadata, model_selection_from_pending_metadata,
    pop_queued_turn_input_data, subagent_usage_owner_from_pending_metadata,
};
use devo_memory::rollout::{LegacyTurnKind, LegacyTurnStatus};
use devo_memory::session::NamedChoice;
use devo_memory::session_actor::{
    NormalizedSandboxProfile, SessionCommand, SessionReply, MISSING_RECORD,
};
use devo_memory::session_memory::{SessionMemorySettings, SessionMemorySettingsSnapshot};
use devo_memory::session_state::{
    CoreState, MetadataField, PendingInputItem, PendingInputKind, PendingMetadata,
    QueuedTurnInputData, RecordedSession, RuntimePermissionProfile, SessionActorState,
    SessionConfig, SessionMetadata, SessionRuntimeStatus, SessionTitleFinalSource,
    SessionTitleState, SubagentUsageOwner, TokenTotals, TurnConfig, TurnMetadata,
};
use devo_memory::time::{now, Timestamp};
use tokio::sync::{mpsc, watch};

fn at(seconds: i64) -> Timestamp {
    Timestamp::new(seconds, 0).expect("an instant")
}

fn tokens() -> TokenTotals {
    TokenTotals {
        total_input_tokens: 0,
        total_output_tokens: 0,
        total_tokens: 0,
        total_cache_creation_tokens: 0,
        total_cache_read_tokens: 0,
        prompt_token_estimate: 0,
    }
}

fn config() -> SessionConfig {
    SessionConfig {
        permission_mode: "ask".to_string(),
        permission_profile: "default".to_string(),
        sandbox_profile: None,
        effective_context_window_override: None,
        context_window: 1000,
        auto_compact_token_limit: None,
    }
}

fn record() -> RecordedSession {
    RecordedSession {
        title: None,
        title_state: SessionTitleState::Unset,
        model: None,
        model_binding_id: None,
        reasoning_effort_selection: None,
        collaboration_mode: None,
        permission_preset: None,
        rollout_path: "/rollout".to_string(),
        updated_at: at(0),
        details: "{}".to_string(),
    }
}

fn state() -> SessionActorState {
    SessionActorState {
        summary: SessionMetadata {
            session_id: SessionId { value: 1 },
            parent_session_id: None,
            ephemeral: false,
            cwd: "/work".to_string(),
            title: None,
            title_state: SessionTitleState::Unset,
            status: SessionRuntimeStatus::Idle,
            model: None,
            model_binding_id: None,
            reasoning_effort_selection: None,
            collaboration_mode: NamedChoice::Default,
            permission_preset: None,
            effective_context_window: None,
            updated_at: at(0),
            last_activity_at: at(0),
            tokens: tokens(),
        },
        core: CoreState {
            cwd: "/work".to_string(),
            collaboration_mode: NamedChoice::Default,
            config: config(),
            tokens: tokens(),
            session_context: None,
            latest_turn_context: None,
            active_goal: None,
            last_turn_interrupted: false,
        },
        config: config(),
        memory: SessionMemorySettingsSnapshot {
            settings: SessionMemorySettings::default(),
            version: 1,
        },
        active_turn: None,
        latest_turn: None,
        record: Some(record()),
        max_turns: None,
        pending_turn_queue: Vec::new(),
        next_item_seq: 1,
        loaded_item_count: 0,
        persisted_turn_items: Vec::new(),
        history_items: Vec::new(),
        first_user_input: None,
        session_approvals: Vec::new(),
        turn_approvals: Vec::new(),
        deferred_assistant: None,
        deferred_reasoning: None,
        runtime_context: 7,
        tool_registry: None,
        session_context_recorded: false,
    }
}

fn turn(value: u128) -> TurnMetadata {
    TurnMetadata {
        turn_id: TurnId { value },
        kind: LegacyTurnKind::Regular,
        status: LegacyTurnStatus::Running,
        completed_at: None,
        details: "{}".to_string(),
    }
}

fn turn_config() -> TurnConfig {
    TurnConfig {
        model_slug: "model-a".to_string(),
        model_binding_id: None,
        reasoning_effort_selection: None,
    }
}

fn begin(value: u128) -> SessionCommand {
    SessionCommand::TryBeginActiveTurn {
        turn: turn(value),
        turn_config: turn_config(),
        captured_context: Some("context".to_string()),
    }
}

fn user_text(text: &str) -> PendingInputItem {
    PendingInputItem::new(PendingInputKind::UserText { text: text.to_string() }, None, now())
}

#[test]
fn pop_queued_turn_input_data_preserves_pending_input_id() {
    let item = PendingInputItem::new(
        PendingInputKind::UserText { text: "queued prompt".to_string() },
        None,
        now(),
    );
    let queued_input_id = item.id;

    let popped = pop_queued_turn_input_data(item).expect("user input should be queued");

    assert_eq!(
        popped,
        QueuedTurnInputData {
            queued_input_id,
            display_input: "queued prompt".to_string(),
            input_text: "queued prompt".to_string(),
            input_messages: Vec::new(),
            collaboration_mode: NamedChoice::Default,
            model_selection: None,
            subagent_usage_owner: None,
        }
    );
}

/// Durable settings notification is retained even when the ordinary actor mailbox is full.
#[test]
fn memory_settings_notification_does_not_depend_on_mailbox_capacity() {
    let (tx, _rx) = mpsc::channel(1);
    tx.try_send(SessionCommand::GetSummary).expect("fill actor mailbox");
    assert!(tx.try_send(SessionCommand::GetSummary).is_err());
    let initial_memory_settings = SessionMemorySettingsSnapshot {
        settings: Default::default(),
        version: 1,
    };
    let (memory_settings_tx, _memory_settings_rx) = watch::channel(initial_memory_settings);

    let mut changed = false;
    memory_settings_tx.send_modify(|settings| {
        changed = settings.apply(Some(MemorySetting::Off), Some(MemorySetting::On));
    });
    assert!(changed);
    assert_eq!(
        *memory_settings_tx.borrow(),
        SessionMemorySettingsSnapshot {
            settings: SessionMemorySettings {
                recall: MemorySetting::Off,
                contribution: MemorySetting::On,
            },
            version: 2,
        }
    );
}

#[test]
fn items_that_are_no_user_input_start_no_turn() {
    let item = PendingInputItem::new(PendingInputKind::Other, None, at(0));
    assert_eq!(pop_queued_turn_input_data(item), None);
}

fn field(key: &str, text: &str) -> MetadataField {
    MetadataField { key: key.to_string(), text: Some(text.to_string()), mode: None }
}

#[test]
fn pending_metadata_names_the_turn_settings() {
    let owner = SessionId { value: 0x2a };
    let metadata = Some(PendingMetadata {
        fields: vec![
            field("model", "model-a"),
            field("model_binding_id", "model-b"),
            MetadataField {
                key: "collaboration_mode".to_string(),
                text: Some("plan".to_string()),
                mode: Some(NamedChoice::Named("plan".to_string())),
            },
            field("devo_subagent_usage_parent_session_id", &owner.to_text()),
            field("devo_subagent_usage_parent_turn_id", &TurnId { value: 3 }.to_text()),
        ],
    });
    assert_eq!(
        collaboration_mode_from_pending_metadata(&metadata),
        NamedChoice::Named("plan".to_string())
    );
    assert_eq!(model_selection_from_pending_metadata(&metadata), Some("model-b".to_string()));
    assert_eq!(
        subagent_usage_owner_from_pending_metadata(&metadata),
        Some(SubagentUsageOwner { session_id: owner, turn_id: Some(TurnId { value: 3 }) })
    );
    let unreadable = Some(PendingMetadata {
        fields: vec![field("devo_subagent_usage_parent_session_id", "none")],
    });
    assert_eq!(subagent_usage_owner_from_pending_metadata(&unreadable), None);
    assert_eq!(collaboration_mode_from_pending_metadata(&unreadable), NamedChoice::Default);
    assert_eq!(model_selection_from_pending_metadata(&None), None);
}

#[test]
fn one_turn_runs_at_a_time() {
    let mut state = state();
    assert!(state.needs_session_context());
    assert_eq!(state.handle_at(begin(5), at(10)), SessionReply::Decided(true));
    assert_eq!(state.summary.status, SessionRuntimeStatus::ActiveTurn);
    assert_eq!(state.core.session_context, Some("context".to_string()));
    assert!(!state.needs_session_context());
    assert_eq!(state.handle_at(begin(6), at(11)), SessionReply::Decided(false));
    assert_eq!(
        state.handle_at(SessionCommand::GetActiveTurnId, at(12)),
        SessionReply::ActiveTurnId(Some(TurnId { value: 5 }))
    );
    let other = SessionCommand::ClearActiveTurnIfMatches { turn_id: TurnId { value: 6 } };
    assert_eq!(state.handle_at(other, at(13)), SessionReply::Decided(false));
    let own = SessionCommand::ClearActiveTurnIfMatches { turn_id: TurnId { value: 5 } };
    assert_eq!(state.handle_at(own, at(14)), SessionReply::Decided(true));
    assert_eq!(state.summary.status, SessionRuntimeStatus::Idle);
}

#[test]
fn interrupting_ends_the_turn() {
    let mut state = state();
    assert_eq!(
        state.handle_at(SessionCommand::InterruptActiveTurn, at(1)),
        SessionReply::Interrupted(None)
    );
    state.handle_at(begin(5), at(10));
    match state.handle_at(SessionCommand::InterruptActiveTurn, at(20)) {
        SessionReply::Interrupted(Some(turn)) => {
            assert_eq!(turn.turn_id, TurnId { value: 5 });
            assert_eq!(turn.status, LegacyTurnStatus::Interrupted);
            assert_eq!(turn.completed_at, Some(at(20)));
        }
        other => panic!("expected the interrupted turn, got {other:?}"),
    }
    assert_eq!(state.active_turn, None);
    assert_eq!(state.summary.status, SessionRuntimeStatus::Idle);
}

#[test]
fn waiting_inputs_leave_in_order() {
    let mut state = state();
    for text in ["first", "second"] {
        let command = SessionCommand::EnqueuePendingTurnInput { item: user_text(text) };
        state.handle_at(command, at(1));
    }
    assert_eq!(
        state.handle_at(SessionCommand::GetPendingQueueSnapshot, at(2)),
        SessionReply::PendingCount(2)
    );
    // A waiting input goes before a turn that nobody waited for.
    assert_eq!(state.handle_at(begin(5), at(3)), SessionReply::Decided(false));
    match state.handle_at(SessionCommand::PopQueuedTurnInput { require_idle_session: true }, at(4))
    {
        SessionReply::QueuedInput(Some(input)) => assert_eq!(input.input_text, "first"),
        other => panic!("expected an input, got {other:?}"),
    }
    state.active_turn = Some(turn(5));
    assert_eq!(
        state.handle_at(SessionCommand::PopQueuedTurnInput { require_idle_session: true }, at(5)),
        SessionReply::QueuedInput(None)
    );
    match state.handle_at(SessionCommand::PopQueuedTurnInput { require_idle_session: false }, at(6))
    {
        SessionReply::QueuedInput(Some(input)) => assert_eq!(input.input_text, "second"),
        other => panic!("expected an input, got {other:?}"),
    }
    assert!(state.pending_turn_queue.is_empty());
}

#[test]
fn item_numbers_grow() {
    let mut state = state();
    assert_eq!(state.handle_at(SessionCommand::AllocateItemSeq, at(1)), SessionReply::ItemSeq(1));
    assert_eq!(state.handle(SessionCommand::AllocateItemSeq), SessionReply::ItemSeq(2));
    assert_eq!(state.next_item_seq, 3);
}

#[test]
fn final_title_stays() {
    let mut state = state();
    let rename = SessionCommand::SetSessionTitleUserRename { title: "Mine".to_string() };
    match state.handle_at(rename, at(9)) {
        SessionReply::Summary(summary) => assert_eq!(summary.title, Some("Mine".to_string())),
        other => panic!("expected a summary, got {other:?}"),
    }
    assert_eq!(
        state.summary.title_state,
        SessionTitleState::Final(SessionTitleFinalSource::UserRename)
    );
    let proposed = SessionCommand::UpdateTitle {
        title: "Generated".to_string(),
        title_state: SessionTitleState::Provisional,
    };
    assert_eq!(state.handle_at(proposed, at(10)), SessionReply::Retitled(None));
    assert_eq!(state.summary.title, Some("Mine".to_string()));
}

#[test]
fn first_user_input_is_kept() {
    let mut state = state();
    for text in ["one", "two"] {
        let command = SessionCommand::SetFirstUserInputIfUnset { text: text.to_string() };
        state.handle_at(command, at(1));
    }
    assert_eq!(state.first_user_input, Some("one".to_string()));
}

#[test]
fn memory_settings_change_by_patch() {
    let mut state = state();
    let patch = SessionCommand::UpdateMemorySettings {
        recall: Some(MemorySetting::Off),
        contribution: None,
    };
    let changed = SessionMemorySettingsSnapshot {
        settings: SessionMemorySettings {
            recall: MemorySetting::Off,
            contribution: SessionMemorySettings::default().contribution,
        },
        version: 2,
    };
    assert_eq!(state.handle_at(patch, at(1)), SessionReply::MemorySettings(changed));
    assert_eq!(
        state.handle_at(SessionCommand::GetMemorySettings, at(2)),
        SessionReply::MemorySettings(changed)
    );
}

#[test]
fn profile_change_takes_approvals_back() {
    let mut state = state();
    state.session_approvals = vec!["host".to_string()];
    state.turn_approvals = vec!["path".to_string()];
    let command = SessionCommand::ApplyPermissionProfile {
        profile: RuntimePermissionProfile {
            preset: "full".to_string(),
            permission_mode: "never-ask".to_string(),
            implied_sandbox_profile: "open".to_string(),
            profile: "full-profile".to_string(),
        },
    };
    state.handle_at(command, at(1));
    assert!(state.session_approvals.is_empty());
    assert!(state.turn_approvals.is_empty());
    assert_eq!(state.summary.permission_preset, Some("full".to_string()));
    assert_eq!(state.config.permission_profile, "full-profile");
}

#[test]
fn unknown_sandbox_profile_is_refused() {
    let mut state = state();
    let unknown = SessionCommand::ApplySandboxProfile {
        normalized: NormalizedSandboxProfile::Unknown("unknown profile".to_string()),
    };
    let before = state.clone();
    assert_eq!(
        state.handle_at(unknown, at(1)),
        SessionReply::SandboxProfileRefused("unknown profile".to_string())
    );
    assert_eq!(state, before);
    let known = SessionCommand::ApplySandboxProfile {
        normalized: NormalizedSandboxProfile::Known("strict".to_string()),
    };
    assert_eq!(
        state.handle_at(known, at(2)),
        SessionReply::SandboxProfile("strict".to_string())
    );
    assert_eq!(state.config.sandbox_profile, Some("strict".to_string()));
}

#[test]
fn turn_without_record_cannot_be_persisted() {
    let mut state = state();
    match state.handle_at(SessionCommand::PersistTurnLine { turn: turn(5) }, at(1)) {
        SessionReply::AppendTurn { record, turn, .. } => {
            assert_eq!(record.rollout_path, "/rollout");
            assert_eq!(turn.turn_id, TurnId { value: 5 });
        }
        other => panic!("expected a line to append, got {other:?}"),
    }
    state.record = None;
    assert_eq!(
        state.handle_at(SessionCommand::PersistTurnLine { turn: turn(5) }, at(2)),
        SessionReply::NoRecord
    );
    assert_eq!(MISSING_RECORD, "missing session record for turn persistence");
}

#[test]
fn steps_after_a_turn_end() {
    let mut step = AfterTurn::first();
    assert_eq!(step, AfterTurn::ScheduleTitle);
    let mut steps = 0;
    while step != AfterTurn::Finished {
        step = step.next(false, true);
        steps += 1;
        assert!(steps < 10);
    }
    assert_eq!(AfterTurn::ChainFollowUp.next(true, true), AfterTurn::Finished);
}

#[test]
fn interrupted_turn_ends_the_goal() {
    let mut state = state();
    assert!(!state.should_continue_goal());
    for (status, continued) in [
        (LegacyTurnStatus::Interrupted, false),
        (LegacyTurnStatus::Completed, true),
        (LegacyTurnStatus::Failed, true),
        (LegacyTurnStatus::Running, false),
    ] {
        let mut latest = turn(5);
        latest.status = status;
        state.latest_turn = Some(latest);
        assert_eq!(state.should_continue_goal(), continued);
    }
}

#[test]
fn context_is_locked_once() {
    let mut state = state();
    state.handle_at(begin(5), at(1));
    state.handle_at(SessionCommand::SetSessionIdle { latest_turn: None }, at(2));
    let again = SessionCommand::BeginActiveTurn {
        turn: turn(6),
        turn_config: turn_config(),
        captured_context: Some("other".to_string()),
    };
    state.handle_at(again, at(3));
    assert_eq!(state.core.session_context, Some("context".to_string()));
}

#[test]
fn mode_change_keeps_the_model() {
    let mut state = state();
    state.handle_at(begin(5), at(1));
    let mode_only = SessionCommand::UpdateSessionMetadata {
        model: None,
        model_binding_id: None,
        reasoning_effort_selection: None,
        collaboration_mode: Some(NamedChoice::Named("plan".to_string())),
    };
    state.handle_at(mode_only, at(2));
    assert_eq!(state.summary.model, Some("model-a".to_string()));
    assert_eq!(state.core.collaboration_mode, NamedChoice::Named("plan".to_string()));
    let cleared = SessionCommand::UpdateSessionMetadata {
        model: None,
        model_binding_id: None,
        reasoning_effort_selection: None,
        collaboration_mode: None,
    };
    state.handle_at(cleared, at(3));
    assert_eq!(state.summary.model, None);
}

#[test]
fn reading_commands_change_nothing() {
    let mut state = state();
    let before = state.clone();
    for command in [
        SessionCommand::GetSummary,
        SessionCommand::GetRecord,
        SessionCommand::GetResumeSnapshot,
        SessionCommand::GetTurnReservationSnapshot,
        SessionCommand::ExportRuntimeSession,
    ] {
        state.handle_at(command, at(9));
        assert_eq!(state, before);
    }
}
