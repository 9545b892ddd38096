//! Converting the lines of a session file, and the settings in it.

use devo_memory::config::MemorySetting;
use devo_memory::core_ids::SessionId as CoreSessionId;
use devo_memory::ids::{ItemId, SessionId, TurnId};
use devo_memory::item::{
    ApprovalDecisionKind, ApprovalScope, ApprovalTarget, Item, ItemState, UserInput,
    UserMessageEntry,
};
use devo_memory::legacy_projector::{
    canonical_turn_from_record, FreshIds, LegacyProjectError, LegacyProjector,
};
use devo_memory::rollout::{
    ApprovalDecisionItem, ApprovalRequestItem, CommandExecutionItem, InternalEntry,
    InternalRecordV2, ItemRecord, LegacyTurnError, LegacyTurnKind, LegacyTurnStatus,
    LegacyTurnUsage, RolloutLine, RolloutLineV2, SessionRecord, SessionSettingsField, TurnItem,
    TurnRecord, ROLLOUT_FORMAT_VERSION,
};
use devo_memory::session::{
    NamedChoice, PermissionProfile, SessionParent, SessionSettings, SessionStatus, TurnKind,
    TurnStatus,
};
use devo_memory::session_memory::{
    inherited_updates, memory_settings, persisted_settings, settings_batch,
    MemorySettingsPatchPlan, PersistMemorySettings, PersistMemorySettingsError, ReplayedSetting,
    SessionMemorySettings, SessionMemorySettingsSnapshot, SessionSettingsPatch, SettingsUpdate,
};
use devo_memory::time::Timestamp;

const SESSION: &str = "00000000-0000-0000-0000-000000000001";
const TURN: &str = "00000000-0000-0000-0000-000000000002";
const ITEM: &str = "00000000-0000-0000-0000-000000000003";

fn at(seconds: i64) -> Timestamp {
    Timestamp::new(seconds, 0).expect("an instant")
}

fn items(input_items: Vec<TurnItem>, output_items: Vec<TurnItem>) -> RolloutLine {
    RolloutLine::Item {
        timestamp: at(50),
        item: Box::new(ItemRecord {
            id: ITEM.to_string(),
            session_id: SESSION.to_string(),
            turn_id: TURN.to_string(),
            timestamp: at(40),
            input_items,
            output_items,
        }),
    }
}

fn envelope(line: &RolloutLineV2) -> &devo_memory::item::ItemEnvelope {
    match line {
        RolloutLineV2::Item { item, .. } => item,
        other => panic!("expected an item, got {other:?}"),
    }
}

fn update(field: SessionSettingsField, value: &str) -> SettingsUpdate {
    SettingsUpdate { field, value: value.to_string() }
}

fn entries(lines: Vec<RolloutLineV2>) -> Vec<InternalRecordV2> {
    lines
        .into_iter()
        .map(|line| match line {
            RolloutLineV2::Internal { entry, .. } => entry,
            other => panic!("settings line must be an internal record, got {other:?}"),
        })
        .collect()
}

#[test]
fn concurrent_single_and_batch_settings_appends_preserve_batch_and_epochs() {
    let session_id = CoreSessionId { value: 9 };
    let on = "\"on\"";
    let off = "\"off\"";
    let single = vec![update(SessionSettingsField::MemoryRecall, on)];
    let batch = vec![
        update(SessionSettingsField::MemoryRecall, off),
        update(SessionSettingsField::MemoryContribution, on),
    ];
    let setting = |field, value: &str, epoch| InternalRecordV2::SessionSettings {
        schema_version: 1,
        field,
        value: value.to_string(),
        epoch,
    };

    // The lock on the file puts the two appends in one order or the other.
    for single_first in [true, false] {
        let mut projector = LegacyProjector::new();
        let mut written = Vec::new();
        let order = if single_first { [&single, &batch] } else { [&batch, &single] };
        for updates in order {
            let lines = settings_batch(&mut projector, session_id, updates).expect("append");
            written.extend(entries(lines));
        }
        let expected = if single_first {
            vec![
                setting(SessionSettingsField::MemoryRecall, on, 1),
                setting(SessionSettingsField::MemoryRecall, off, 2),
                setting(SessionSettingsField::MemoryContribution, on, 3),
            ]
        } else {
            vec![
                setting(SessionSettingsField::MemoryRecall, off, 1),
                setting(SessionSettingsField::MemoryContribution, on, 2),
                setting(SessionSettingsField::MemoryRecall, on, 3),
            ]
        };
        assert_eq!(written, expected);
    }
}

#[test]
fn payloads_take_their_place_in_the_session() {
    let mut projector = LegacyProjector::new();
    let line = items(
        vec![
            TurnItem::UserMessage("hello".to_string()),
            TurnItem::HookPrompt("hook".to_string()),
        ],
        vec![TurnItem::AgentMessage("hi".to_string()), TurnItem::WebSearch("found".to_string())],
    );
    let fresh: Vec<FreshIds> =
        (0..4).map(|i| FreshIds { item: 100 + i, orphan: 200 + i }).collect();
    let lines = projector.project_line_with(&line, &fresh).expect("items");
    assert_eq!(lines.len(), 4);
    let first = envelope(&lines[0]);
    assert_eq!(first.id, ItemId::from_legacy_uuid(3));
    assert_eq!(first.session_id, SessionId::from_legacy_uuid(1));
    assert_eq!(first.turn_id, TurnId::from_legacy_uuid(2));
    assert_eq!(first.seq, 1);
    assert_eq!(first.revision, 1);
    assert_eq!(first.created_at, at(40));
    assert_eq!(first.state, ItemState::Completed);
    assert_eq!(
        first.item,
        Item::UserMessage {
            client_user_message_id: None,
            content: vec![UserInput::Text { text: "hello".to_string() }],
            entry: UserMessageEntry::TurnStart,
        }
    );
    match &lines[1] {
        RolloutLineV2::Internal { seq, entry, turn_id, .. } => {
            assert_eq!(*seq, 2);
            assert_eq!(*turn_id, Some(TurnId::from_legacy_uuid(2)));
            assert_eq!(
                *entry,
                InternalRecordV2::Entry {
                    entry: InternalEntry::HookPrompt { text: "hook".to_string() }
                }
            );
        }
        other => panic!("expected an internal record, got {other:?}"),
    }
    assert_eq!(envelope(&lines[2]).seq, 3);
    let search = envelope(&lines[3]);
    assert_eq!(search.seq, 4);
    assert_eq!(
        search.item,
        Item::HostedToolCall {
            call_id: search.id.to_text(),
            tool_name: "web_search".to_string(),
            input: None,
            output_text: Some("found".to_string()),
        }
    );
    assert_eq!(projector.next_seq, 5);
}

fn request() -> TurnItem {
    TurnItem::ApprovalRequest(ApprovalRequestItem {
        approval_id: "approval-1".to_string(),
        action_summary: "run".to_string(),
        justification: "needed".to_string(),
        resource: None,
        available_scopes: vec!["once".to_string()],
        command_pattern: None,
        command_prefix: None,
        path: Some("/etc".to_string()),
        host: None,
        target: None,
    })
}

fn decision(approval_id: &str) -> TurnItem {
    TurnItem::ApprovalDecision(ApprovalDecisionItem {
        approval_id: approval_id.to_string(),
        decision: "approve".to_string(),
        scope: "session".to_string(),
        decision_source: None,
    })
}

#[test]
fn decision_folds_into_its_request() {
    let mut projector = LegacyProjector::default();
    let asked = projector.project_line(&items(vec![], vec![request()])).expect("request");
    let asked = envelope(&asked[0]).clone();
    assert_eq!(asked.state, ItemState::Waiting);
    let decided =
        projector.project_line(&items(vec![], vec![decision("approval-1")])).expect("decision");
    let decided = envelope(&decided[0]);
    assert_eq!(decided.id, asked.id);
    assert_eq!(decided.seq, asked.seq);
    assert_eq!(decided.revision, asked.revision + 1);
    match &decided.item {
        Item::Approval { action_summary, target, decision: Some(decision), .. } => {
            assert_eq!(action_summary, "run");
            assert_eq!(*target, Some(ApprovalTarget::Path { path: "/etc".to_string() }));
            assert_eq!(decision.decision, ApprovalDecisionKind::Approved);
            assert_eq!(decision.scope, ApprovalScope::Session);
            assert_eq!(decision.decided_at, at(40));
        }
        other => panic!("expected a decided approval, got {other:?}"),
    }
    // The numbers go on behind the request.
    let next = projector
        .project_line(&items(vec![TurnItem::UserMessage("on".to_string())], vec![]))
        .expect("message");
    assert_eq!(envelope(&next[0]).seq, asked.seq + 1);
}

#[test]
fn decision_without_request_stands_alone() {
    let mut projector = LegacyProjector::new();
    let lines =
        projector.project_line(&items(vec![], vec![decision("lost")])).expect("decision");
    let lone = envelope(&lines[0]);
    assert_eq!(lone.seq, 1);
    assert_eq!(
        lone.item,
        Item::Warning {
            code: "legacyOrphanApprovalDecision".to_string(),
            message: "approval decision 'approve'/'session' references unknown approval id lost"
                .to_string(),
            retryable: false,
        }
    );
}

#[test]
fn observed_lines_continue_the_record() {
    let mut writer = LegacyProjector::new();
    let lines = writer.project_line(&items(vec![], vec![request()])).expect("request");
    let mut reader = LegacyProjector::new();
    for line in &lines {
        reader.observe_v2_line(line);
    }
    assert_eq!(reader.next_seq, writer.next_seq);
    let decided =
        reader.project_line(&items(vec![], vec![decision("approval-1")])).expect("decision");
    assert_eq!(envelope(&decided[0]).id, envelope(&lines[0]).id);

    let update = vec![update(SessionSettingsField::MemoryRecall, "\"on\"")];
    let settings =
        settings_batch(&mut writer, CoreSessionId { value: 1 }, &update).expect("settings");
    reader.observe_v2_line(&settings[0]);
    assert_eq!(reader.next_settings_epoch(), 2);
}

#[test]
fn broken_ids_are_refused() {
    let mut projector = LegacyProjector::new();
    let line = RolloutLine::SessionTitleUpdated {
        timestamp: at(1),
        session_id: "no uuid".to_string(),
        title: "t".to_string(),
        previous_title: None,
    };
    assert!(projector.can_project(&line));
    let error = projector.project_line(&line).expect_err("no session");
    assert_eq!(error, LegacyProjectError::InvalidLegacyId("no uuid".to_string()));
    assert_eq!(error.message(), "legacy identifier is not a valid UUID: no uuid");
    assert_eq!(projector.next_seq, 1);
}

#[test]
fn full_record_has_no_room() {
    let mut projector = LegacyProjector::new();
    projector.next_seq = u64::MAX;
    let line = items(vec![TurnItem::UserMessage("a".to_string())], vec![]);
    assert!(!projector.can_project(&line));
}

fn session() -> SessionRecord {
    SessionRecord {
        id: SESSION.to_string(),
        cwd: "/work".to_string(),
        additional_directories: vec![],
        parent_session_id: None,
        agent_role: None,
        agent_nickname: None,
        agent_path: None,
        approval_mode: "on-request".to_string(),
        git_sha: None,
        git_branch: None,
        git_origin_url: None,
        tokens_used: 12,
        created_at: at(1),
        updated_at: at(2),
        last_activity_at: None,
        archived_at: Some(at(3)),
        title: Some("Title".to_string()),
        model_provider: "provider".to_string(),
        model: Some("model".to_string()),
        reasoning_effort: None,
        sandbox_policy: "strict".to_string(),
        effective_context_window: None,
        first_user_message: Some("first".to_string()),
        session_context: None,
        cli_version: "1.0".to_string(),
        source: "cli".to_string(),
        collaboration_mode: NamedChoice::Default,
        permission_preset: NamedChoice::Default,
    }
}

#[test]
fn session_lines_keep_the_session() {
    let mut projector = LegacyProjector::new();
    let line = RolloutLine::SessionMeta { timestamp: at(9), session: Box::new(session()) };
    let lines = projector.project_line(&line).expect("session");
    match &lines[..] {
        [RolloutLineV2::SessionMeta { v, timestamp, session, extras }] => {
            assert_eq!(*v, ROLLOUT_FORMAT_VERSION);
            assert_eq!(*timestamp, at(9));
            assert_eq!(session.id, SessionId::from_legacy_uuid(1));
            assert_eq!(session.cwd, "/work");
            assert_eq!(session.status, SessionStatus::Idle);
            assert!(session.archived);
            assert_eq!(session.title, Some("Title".to_string()));
            assert_eq!(session.model.provider, "provider");
            assert_eq!(session.model.model, "model");
            assert_eq!(session.preview, "first");
            assert_eq!(session.settings.permission_profile, PermissionProfile::Default);
            assert_eq!(session.parent, None);
            assert_eq!(session.last_activity_at, at(2));
            let extras = extras.as_ref().expect("extras");
            assert_eq!(extras.cli_version, "1.0");
        }
        other => panic!("expected a session, got {other:?}"),
    }
    assert_eq!(projector.session_cwd, Some("/work".to_string()));

    let command = TurnItem::CommandExecution(CommandExecutionItem {
        tool_call_id: "call".to_string(),
        command: "ls".to_string(),
        input: "{}".to_string(),
        output: "\"\"".to_string(),
        is_error: false,
    });
    let lines = projector.project_line(&items(vec![], vec![command])).expect("command");
    match &envelope(&lines[0]).item {
        Item::CommandExecution { cwd, .. } => assert_eq!(cwd, "/work"),
        other => panic!("expected a command, got {other:?}"),
    }

    let mut child = session();
    child.parent_session_id = Some(ITEM.to_string());
    child.agent_role = Some("scout".to_string());
    let line = RolloutLine::SessionMeta { timestamp: at(9), session: Box::new(child) };
    match &projector.project_line(&line).expect("child")[..] {
        [RolloutLineV2::SessionMeta { session, .. }] => assert_eq!(
            session.parent,
            Some(SessionParent::Agent {
                session_id: SessionId::from_legacy_uuid(3),
                role: Some("scout".to_string()),
            })
        ),
        other => panic!("expected a session, got {other:?}"),
    }
}

fn turn() -> TurnRecord {
    TurnRecord {
        id: TURN.to_string(),
        session_id: SESSION.to_string(),
        sequence: 4,
        kind: LegacyTurnKind::ManualCompaction,
        status: LegacyTurnStatus::Failed,
        model: "shown".to_string(),
        request_model: "sent".to_string(),
        model_binding_id: None,
        reasoning_effort: Some("high".to_string()),
        turn_context: None,
        session_context: None,
        request_thinking: None,
        input_token_estimate: None,
        latest_query_usage: None,
        context_occupancy: None,
        stop_reason: None,
        failure_reason: None,
        started_at: at(5),
        completed_at: Some(at(6)),
        error: Some(LegacyTurnError {
            code: "E1".to_string(),
            message: "broke".to_string(),
            recovery_hint: None,
        }),
        usage: Some(LegacyTurnUsage {
            input_tokens: 10,
            output_tokens: 5,
            total_tokens: None,
            reasoning_output_tokens: Some(2),
            cache_read_input_tokens: None,
            cache_creation_input_tokens: Some(1),
        }),
    }
}

#[test]
fn turn_records_keep_the_turn() {
    let turn = canonical_turn_from_record(&turn()).expect("a turn");
    assert_eq!(turn.id, TurnId::from_legacy_uuid(2));
    assert_eq!(turn.sequence, 4);
    assert_eq!(turn.kind, TurnKind::Compaction);
    assert_eq!(turn.status, TurnStatus::Failed);
    assert_eq!(turn.model.reasoning_effort, Some("high".to_string()));
    assert_eq!(turn.error.expect("error").code, "E1");
    let usage = turn.usage.expect("usage");
    assert_eq!(usage.query.input_tokens, 10);
    assert_eq!(usage.query.output_tokens, 5);
    assert_eq!(usage.query.reasoning_tokens, 2);
    assert_eq!(usage.query.cache_creation_input_tokens, 1);

    let line = RolloutLine::Turn { timestamp: at(7), turn: Box::new(self::turn()) };
    let lines = LegacyProjector::new().project_line(&line).expect("a line");
    assert!(matches!(&lines[..], [RolloutLineV2::Turn { v: 2, .. }]));
}

#[test]
fn remaining_lines_keep_their_kind() {
    let mut projector = LegacyProjector::new();
    let rollback = RolloutLine::SessionRollback {
        timestamp: at(1),
        session_id: SESSION.to_string(),
        retained_turn_ids: vec![TURN.to_string()],
        retained_item_ids: vec![ITEM.to_string()],
        latest_turn_id: None,
    };
    assert_eq!(
        projector.project_line(&rollback).expect("rollback"),
        vec![RolloutLineV2::SessionRollback {
            v: 2,
            timestamp: at(1),
            session_id: SessionId::from_legacy_uuid(1),
            retained_turn_ids: vec![TurnId::from_legacy_uuid(2)],
            retained_item_ids: vec![ItemId::from_legacy_uuid(3)],
            latest_turn_id: None,
        }]
    );
    let checkpoint = RolloutLine::TurnWorkspaceCheckpointRecorded {
        timestamp: at(1),
        record: "{}".to_string(),
    };
    assert_eq!(
        projector.project_line(&checkpoint).expect("checkpoint"),
        vec![RolloutLineV2::WorkspaceCheckpoint {
            v: 2,
            timestamp: at(1),
            record: "{}".to_string()
        }]
    );
}

fn current_settings() -> SessionSettings {
    SessionSettings {
        permission_profile: PermissionProfile::Default,
        reasoning_effort: None,
        mode: None,
        sandbox_profile: None,
        effective_context_window: None,
        memory_recall: MemorySetting::Inherit,
        memory_contribution: MemorySetting::On,
    }
}

#[test]
fn plan_holds_what_a_patch_changes() {
    let mut current = current_settings();
    let patch = SessionSettingsPatch {
        memory_recall: Some(MemorySetting::Off),
        memory_contribution: Some(MemorySetting::On),
    };
    let plan = MemorySettingsPatchPlan::new(&current, Some(&patch));
    assert_eq!(plan.recall, Some(MemorySetting::Off));
    assert_eq!(plan.contribution, None);
    assert_eq!(plan.updates.len(), 1);
    assert_eq!(plan.persist(true), PersistMemorySettings::RecordAndNotify);
    assert_eq!(plan.persist(false), PersistMemorySettings::ChangeSession);
    plan.apply_to(&mut current);
    assert_eq!(current.memory_recall, MemorySetting::Off);
    assert_eq!(current.memory_contribution, MemorySetting::On);

    let nothing = MemorySettingsPatchPlan::new(&current, None);
    assert_eq!(nothing.persist(true), PersistMemorySettings::Nothing);
}

#[test]
fn unwritten_settings_are_reported() {
    let snapshot = SessionMemorySettingsSnapshot {
        settings: SessionMemorySettings::default(),
        version: 3,
    };
    assert_eq!(
        persisted_settings(
            PersistMemorySettings::RecordAndNotify,
            Err("disk full".to_string()),
            Some(snapshot),
        ),
        Err(PersistMemorySettingsError::Persistence("disk full".to_string()))
    );
    assert_eq!(
        persisted_settings(PersistMemorySettings::ChangeSession, Ok(()), None),
        Err(PersistMemorySettingsError::SessionUnavailable)
    );
    assert_eq!(
        persisted_settings(PersistMemorySettings::ChangeSession, Ok(()), Some(snapshot)),
        Ok(Some(snapshot))
    );
}

#[test]
fn inherited_settings_read_back() {
    let settings = SessionMemorySettings {
        recall: MemorySetting::Off,
        contribution: MemorySetting::Inherit,
    };
    let replayed: Vec<ReplayedSetting> = inherited_updates(settings)
        .into_iter()
        .map(|update| ReplayedSetting { field: update.field, setting: Some(update.setting) })
        .collect();
    assert_eq!(memory_settings(&replayed), settings);
}

#[test]
fn snapshot_version_counts_changes() {
    let mut snapshot = SessionMemorySettingsSnapshot {
        settings: SessionMemorySettings::default(),
        version: 1,
    };
    assert!(!snapshot.apply(None, None));
    assert_eq!(snapshot.version, 1);
    assert!(snapshot.apply(Some(MemorySetting::Off), None));
    assert_eq!(snapshot.version, 2);
    assert!(!snapshot.apply(Some(MemorySetting::Off), None));
    assert_eq!(snapshot.version, 2);
}
