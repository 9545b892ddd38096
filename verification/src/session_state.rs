//! The state of a live session: what its actor owns.
//!
//! What the actor only carries along is kept as a JSON text. What only the
//! surrounding program can hold (a runtime context, a tool registry) is kept as
//! the number under which that program finds it.

use vstd::prelude::*;

use crate::core_ids::{SessionId, TurnId};
use crate::ids::fresh_uuid_value;
use crate::rollout::{LegacyTurnKind, LegacyTurnKindView, LegacyTurnStatus};
use crate::session::{NamedChoice, NamedChoiceView};
use crate::session_memory::SessionMemorySettingsSnapshot;
use crate::text::{opt_view, views};
use crate::time::Timestamp;

verus! {

/// Whether a session works on a turn.
#[derive(Debug, Clone, Copy, PartialEq, Eq, Structural)]
pub enum SessionRuntimeStatus {
    Idle,
    ActiveTurn,
}

/// Where a final title comes from.
#[derive(Debug, Clone, Copy, PartialEq, Eq, Structural)]
pub enum SessionTitleFinalSource {
    /// The user named the session.
    UserRename,
    /// A model named it.
    ModelGenerated,
}

/// How far the title of a session is.
#[derive(Debug, Clone, Copy, PartialEq, Eq, Structural)]
pub enum SessionTitleState {
    Unset,
    Provisional,
    Final(SessionTitleFinalSource),
}

/// Tokens that a session has used.
#[derive(Debug, Clone, Copy, PartialEq, Eq, Structural)]
pub struct TokenTotals {
    pub total_input_tokens: u64,
    pub total_output_tokens: u64,
    pub total_tokens: u64,
    pub total_cache_creation_tokens: u64,
    pub total_cache_read_tokens: u64,
    pub prompt_token_estimate: u64,
}

/// Identifies an input that waits for a turn.
#[derive(Debug, Clone, Copy, PartialEq, Eq, Structural)]
pub struct PendingInputId {
    pub value: u128,
}

/// The session and the turn that pay for the usage of a subagent.
#[derive(Debug, Clone, Copy, PartialEq, Eq, Structural)]
pub struct SubagentUsageOwner {
    pub session_id: SessionId,
    pub turn_id: Option<TurnId>,
}

/// What is known of a turn.
#[derive(Debug, PartialEq, Eq)]
pub struct TurnMetadata {
    pub turn_id: TurnId,
    pub kind: LegacyTurnKind,
    pub status: LegacyTurnStatus,
    pub completed_at: Option<Timestamp>,
    /// What else is known of the turn.
    pub details: String,
}

/// The view of [`TurnMetadata`].
#[verifier::ext_equal]
pub struct TurnMetadataView {
    pub turn_id: TurnId,
    pub kind: LegacyTurnKindView,
    pub status: LegacyTurnStatus,
    pub completed_at: Option<Timestamp>,
    pub details: Seq<char>,
}

impl View for TurnMetadata {
    type V = TurnMetadataView;

    open spec fn view(&self) -> TurnMetadataView {
        TurnMetadataView {
            turn_id: self.turn_id,
            kind: self.kind@,
            status: self.status,
            completed_at: self.completed_at,
            details: self.details@,
        }
    }
}

impl Clone for TurnMetadata {
    fn clone(&self) -> (result: Self)
        ensures
            result@ == self@,
    {
        let result = TurnMetadata {
            turn_id: self.turn_id,
            kind: self.kind.clone(),
            status: self.status,
            completed_at: self.completed_at,
            details: self.details.clone(),
        };
        result
    }
}

/// What is known of a session.
#[derive(Debug, PartialEq, Eq)]
pub struct SessionMetadata {
    pub session_id: SessionId,
    pub parent_session_id: Option<SessionId>,
    pub ephemeral: bool,
    pub cwd: String,
    pub title: Option<String>,
    pub title_state: SessionTitleState,
    pub status: SessionRuntimeStatus,
    pub model: Option<String>,
    pub model_binding_id: Option<String>,
    pub reasoning_effort_selection: Option<String>,
    pub collaboration_mode: NamedChoice,
    pub permission_preset: Option<String>,
    pub effective_context_window: Option<u64>,
    pub updated_at: Timestamp,
    pub last_activity_at: Timestamp,
    pub tokens: TokenTotals,
}

/// The view of [`SessionMetadata`].
#[verifier::ext_equal]
pub struct SessionMetadataView {
    pub session_id: SessionId,
    pub parent_session_id: Option<SessionId>,
    pub ephemeral: bool,
    pub cwd: Seq<char>,
    pub title: Option<Seq<char>>,
    pub title_state: SessionTitleState,
    pub status: SessionRuntimeStatus,
    pub model: Option<Seq<char>>,
    pub model_binding_id: Option<Seq<char>>,
    pub reasoning_effort_selection: Option<Seq<char>>,
    pub collaboration_mode: NamedChoiceView,
    pub permission_preset: Option<Seq<char>>,
    pub effective_context_window: Option<u64>,
    pub updated_at: Timestamp,
    pub last_activity_at: Timestamp,
    pub tokens: TokenTotals,
}

impl View for SessionMetadata {
    type V = SessionMetadataView;

    open spec fn view(&self) -> SessionMetadataView {
        SessionMetadataView {
            session_id: self.session_id,
            parent_session_id: self.parent_session_id,
            ephemeral: self.ephemeral,
            cwd: self.cwd@,
            title: opt_view(self.title),
            title_state: self.title_state,
            status: self.status,
            model: opt_view(self.model),
            model_binding_id: opt_view(self.model_binding_id),
            reasoning_effort_selection: opt_view(self.reasoning_effort_selection),
            collaboration_mode: self.collaboration_mode@,
            permission_preset: opt_view(self.permission_preset),
            effective_context_window: self.effective_context_window,
            updated_at: self.updated_at,
            last_activity_at: self.last_activity_at,
            tokens: self.tokens,
        }
    }
}

impl Clone for SessionMetadata {
    fn clone(&self) -> (result: Self)
        ensures
            result@ == self@,
    {
        let result = SessionMetadata {
            session_id: self.session_id,
            parent_session_id: self.parent_session_id,
            ephemeral: self.ephemeral,
            cwd: self.cwd.clone(),
            title: self.title.clone(),
            title_state: self.title_state,
            status: self.status,
            model: self.model.clone(),
            model_binding_id: self.model_binding_id.clone(),
            reasoning_effort_selection: self.reasoning_effort_selection.clone(),
            collaboration_mode: self.collaboration_mode.clone(),
            permission_preset: self.permission_preset.clone(),
            effective_context_window: self.effective_context_window,
            updated_at: self.updated_at,
            last_activity_at: self.last_activity_at,
            tokens: self.tokens,
        };
        result
    }
}

/// The record of a session, as far as the actor changes it.
#[derive(Debug, PartialEq, Eq)]
pub struct RecordedSession {
    pub title: Option<String>,
    pub title_state: SessionTitleState,
    pub model: Option<String>,
    pub model_binding_id: Option<String>,
    pub reasoning_effort_selection: Option<String>,
    pub collaboration_mode: Option<NamedChoice>,
    pub permission_preset: Option<String>,
    pub rollout_path: String,
    pub updated_at: Timestamp,
    /// What else the record holds.
    pub details: String,
}

/// The view of [`RecordedSession`].
#[verifier::ext_equal]
pub struct RecordedSessionView {
    pub title: Option<Seq<char>>,
    pub title_state: SessionTitleState,
    pub model: Option<Seq<char>>,
    pub model_binding_id: Option<Seq<char>>,
    pub reasoning_effort_selection: Option<Seq<char>>,
    pub collaboration_mode: Option<NamedChoiceView>,
    pub permission_preset: Option<Seq<char>>,
    pub rollout_path: Seq<char>,
    pub updated_at: Timestamp,
    pub details: Seq<char>,
}

impl View for RecordedSession {
    type V = RecordedSessionView;

    open spec fn view(&self) -> RecordedSessionView {
        RecordedSessionView {
            title: opt_view(self.title),
            title_state: self.title_state,
            model: opt_view(self.model),
            model_binding_id: opt_view(self.model_binding_id),
            reasoning_effort_selection: opt_view(self.reasoning_effort_selection),
            collaboration_mode: opt_view(self.collaboration_mode),
            permission_preset: opt_view(self.permission_preset),
            rollout_path: self.rollout_path@,
            updated_at: self.updated_at,
            details: self.details@,
        }
    }
}

impl Clone for RecordedSession {
    fn clone(&self) -> (result: Self)
        ensures
            result@ == self@,
    {
        let result = RecordedSession {
            title: self.title.clone(),
            title_state: self.title_state,
            model: self.model.clone(),
            model_binding_id: self.model_binding_id.clone(),
            reasoning_effort_selection: self.reasoning_effort_selection.clone(),
            collaboration_mode: self.collaboration_mode.clone(),
            permission_preset: self.permission_preset.clone(),
            rollout_path: self.rollout_path.clone(),
            updated_at: self.updated_at,
            details: self.details.clone(),
        };
        result
    }
}

/// What a session may do, and how large its context may grow.
#[derive(Debug, PartialEq, Eq)]
pub struct SessionConfig {
    pub permission_mode: String,
    pub permission_profile: String,
    pub sandbox_profile: Option<String>,
    pub effective_context_window_override: Option<u64>,
    pub context_window: u64,
    pub auto_compact_token_limit: Option<u64>,
}

/// The view of [`SessionConfig`].
#[verifier::ext_equal]
pub struct SessionConfigView {
    pub permission_mode: Seq<char>,
    pub permission_profile: Seq<char>,
    pub sandbox_profile: Option<Seq<char>>,
    pub effective_context_window_override: Option<u64>,
    pub context_window: u64,
    pub auto_compact_token_limit: Option<u64>,
}

impl View for SessionConfig {
    type V = SessionConfigView;

    open spec fn view(&self) -> SessionConfigView {
        SessionConfigView {
            permission_mode: self.permission_mode@,
            permission_profile: self.permission_profile@,
            sandbox_profile: opt_view(self.sandbox_profile),
            effective_context_window_override: self.effective_context_window_override,
            context_window: self.context_window,
            auto_compact_token_limit: self.auto_compact_token_limit,
        }
    }
}

impl Clone for SessionConfig {
    fn clone(&self) -> (result: Self)
        ensures
            result@ == self@,
    {
        let result = SessionConfig {
            permission_mode: self.permission_mode.clone(),
            permission_profile: self.permission_profile.clone(),
            sandbox_profile: self.sandbox_profile.clone(),
            effective_context_window_override: self.effective_context_window_override,
            context_window: self.context_window,
            auto_compact_token_limit: self.auto_compact_token_limit,
        };
        result
    }
}

/// The part of a session that runs its turns.
#[derive(Debug, PartialEq, Eq)]
pub struct CoreState {
    pub cwd: String,
    pub collaboration_mode: NamedChoice,
    pub config: SessionConfig,
    pub tokens: TokenTotals,
    /// The context that the session was locked to, once it is.
    pub session_context: Option<String>,
    pub latest_turn_context: Option<String>,
    pub active_goal: Option<String>,
    pub last_turn_interrupted: bool,
}

/// The view of [`CoreState`].
#[verifier::ext_equal]
pub struct CoreStateView {
    pub cwd: Seq<char>,
    pub collaboration_mode: NamedChoiceView,
    pub config: SessionConfigView,
    pub tokens: TokenTotals,
    pub session_context: Option<Seq<char>>,
    pub latest_turn_context: Option<Seq<char>>,
    pub active_goal: Option<Seq<char>>,
    pub last_turn_interrupted: bool,
}

impl View for CoreState {
    type V = CoreStateView;

    open spec fn view(&self) -> CoreStateView {
        CoreStateView {
            cwd: self.cwd@,
            collaboration_mode: self.collaboration_mode@,
            config: self.config@,
            tokens: self.tokens,
            session_context: opt_view(self.session_context),
            latest_turn_context: opt_view(self.latest_turn_context),
            active_goal: opt_view(self.active_goal),
            last_turn_interrupted: self.last_turn_interrupted,
        }
    }
}

impl Clone for CoreState {
    fn clone(&self) -> (result: Self)
        ensures
            result@ == self@,
    {
        let result = CoreState {
            cwd: self.cwd.clone(),
            collaboration_mode: self.collaboration_mode.clone(),
            config: self.config.clone(),
            tokens: self.tokens,
            session_context: self.session_context.clone(),
            latest_turn_context: self.latest_turn_context.clone(),
            active_goal: self.active_goal.clone(),
            last_turn_interrupted: self.last_turn_interrupted,
        };
        result
    }
}

/// How a turn is to be run.
#[derive(Debug, PartialEq, Eq)]
pub struct TurnConfig {
    pub model_slug: String,
    pub model_binding_id: Option<String>,
    pub reasoning_effort_selection: Option<String>,
}

/// The view of [`TurnConfig`].
#[verifier::ext_equal]
pub struct TurnConfigView {
    pub model_slug: Seq<char>,
    pub model_binding_id: Option<Seq<char>>,
    pub reasoning_effort_selection: Option<Seq<char>>,
}

impl View for TurnConfig {
    type V = TurnConfigView;

    open spec fn view(&self) -> TurnConfigView {
        TurnConfigView {
            model_slug: self.model_slug@,
            model_binding_id: opt_view(self.model_binding_id),
            reasoning_effort_selection: opt_view(self.reasoning_effort_selection),
        }
    }
}

impl Clone for TurnConfig {
    fn clone(&self) -> (result: Self)
        ensures
            result@ == self@,
    {
        let result = TurnConfig {
            model_slug: self.model_slug.clone(),
            model_binding_id: self.model_binding_id.clone(),
            reasoning_effort_selection: self.reasoning_effort_selection.clone(),
        };
        result
    }
}

/// A permission profile, with what it implies.
#[derive(Debug, PartialEq, Eq)]
pub struct RuntimePermissionProfile {
    pub preset: String,
    pub permission_mode: String,
    pub implied_sandbox_profile: String,
    pub profile: String,
}

/// The view of [`RuntimePermissionProfile`].
#[verifier::ext_equal]
pub struct RuntimePermissionProfileView {
    pub preset: Seq<char>,
    pub permission_mode: Seq<char>,
    pub implied_sandbox_profile: Seq<char>,
    pub profile: Seq<char>,
}

impl View for RuntimePermissionProfile {
    type V = RuntimePermissionProfileView;

    open spec fn view(&self) -> RuntimePermissionProfileView {
        RuntimePermissionProfileView {
            preset: self.preset@,
            permission_mode: self.permission_mode@,
            implied_sandbox_profile: self.implied_sandbox_profile@,
            profile: self.profile@,
        }
    }
}

impl Clone for RuntimePermissionProfile {
    fn clone(&self) -> (result: Self)
        ensures
            result@ == self@,
    {
        let result = RuntimePermissionProfile {
            preset: self.preset.clone(),
            permission_mode: self.permission_mode.clone(),
            implied_sandbox_profile: self.implied_sandbox_profile.clone(),
            profile: self.profile.clone(),
        };
        result
    }
}

/// A field of the metadata of an input, as far as it reads as a text or as a mode.
#[derive(Debug, PartialEq, Eq)]
pub struct MetadataField {
    pub key: String,
    pub text: Option<String>,
    pub mode: Option<NamedChoice>,
}

/// The view of [`MetadataField`].
#[verifier::ext_equal]
pub struct MetadataFieldView {
    pub key: Seq<char>,
    pub text: Option<Seq<char>>,
    pub mode: Option<NamedChoiceView>,
}

impl View for MetadataField {
    type V = MetadataFieldView;

    open spec fn view(&self) -> MetadataFieldView {
        MetadataFieldView {
            key: self.key@,
            text: opt_view(self.text),
            mode: opt_view(self.mode),
        }
    }
}

impl Clone for MetadataField {
    fn clone(&self) -> (result: Self)
        ensures
            result@ == self@,
    {
        let result = MetadataField {
            key: self.key.clone(),
            text: self.text.clone(),
            mode: self.mode.clone(),
        };
        result
    }
}

/// The metadata of an input.
#[derive(Debug, PartialEq, Eq)]
pub struct PendingMetadata {
    pub fields: Vec<MetadataField>,
}

/// The view of [`PendingMetadata`].
#[verifier::ext_equal]
pub struct PendingMetadataView {
    pub fields: Seq<MetadataFieldView>,
}

impl View for PendingMetadata {
    type V = PendingMetadataView;

    open spec fn view(&self) -> PendingMetadataView {
        PendingMetadataView {
            fields: views(self.fields@),
        }
    }
}

impl Clone for PendingMetadata {
    fn clone(&self) -> (result: Self)
        ensures
            result@ == self@,
    {
        let result = PendingMetadata {
            fields: self.fields.clone(),
        };
        assert(views(result.fields@) =~= views(self.fields@));
        result
    }
}

/// What waits for a turn.
#[derive(Debug, PartialEq, Eq)]
#[allow(inconsistent_fields)]
pub enum PendingInputKind {
    UserText { text: String },
    UserInput { display_text: String, prompt_text: String, prompt_messages: Vec<String> },
    /// Nothing that starts a turn.
    Other,
}

/// The view of [`PendingInputKind`].
#[verifier::ext_equal]
#[allow(inconsistent_fields)]
pub enum PendingInputKindView {
    UserText { text: Seq<char> },
    UserInput { display_text: Seq<char>, prompt_text: Seq<char>, prompt_messages: Seq<Seq<char>> },
    Other,
}

impl View for PendingInputKind {
    type V = PendingInputKindView;

    open spec fn view(&self) -> PendingInputKindView {
        match self {
            PendingInputKind::UserText { text } => PendingInputKindView::UserText {
                text: text@,
            },
            PendingInputKind::UserInput {
                display_text,
                prompt_text,
                prompt_messages,
            } => PendingInputKindView::UserInput {
                display_text: display_text@,
                prompt_text: prompt_text@,
                prompt_messages: views(prompt_messages@),
            },
            PendingInputKind::Other => PendingInputKindView::Other,
        }
    }
}

impl Clone for PendingInputKind {
    fn clone(&self) -> (result: Self)
        ensures
            result@ == self@,
    {
        match self {
            PendingInputKind::UserText { text } => {
                PendingInputKind::UserText {
                    text: text.clone(),
                }
            },
            PendingInputKind::UserInput { display_text, prompt_text, prompt_messages } => {
                let prompt_messages_copy = prompt_messages.clone();
                assert(views(prompt_messages_copy@) =~= views(prompt_messages@));
                PendingInputKind::UserInput {
                    display_text: display_text.clone(),
                    prompt_text: prompt_text.clone(),
                    prompt_messages: prompt_messages_copy,
                }
            },
            PendingInputKind::Other => PendingInputKind::Other,
        }
    }
}

/// An input that waits for a turn.
#[derive(Debug, PartialEq, Eq)]
pub struct PendingInputItem {
    pub id: PendingInputId,
    pub kind: PendingInputKind,
    pub metadata: Option<PendingMetadata>,
    pub created_at: Timestamp,
}

/// The view of [`PendingInputItem`].
#[verifier::ext_equal]
pub struct PendingInputItemView {
    pub id: PendingInputId,
    pub kind: PendingInputKindView,
    pub metadata: Option<PendingMetadataView>,
    pub created_at: Timestamp,
}

impl View for PendingInputItem {
    type V = PendingInputItemView;

    open spec fn view(&self) -> PendingInputItemView {
        PendingInputItemView {
            id: self.id,
            kind: self.kind@,
            metadata: opt_view(self.metadata),
            created_at: self.created_at,
        }
    }
}

impl Clone for PendingInputItem {
    fn clone(&self) -> (result: Self)
        ensures
            result@ == self@,
    {
        let result = PendingInputItem {
            id: self.id,
            kind: self.kind.clone(),
            metadata: self.metadata.clone(),
            created_at: self.created_at,
        };
        result
    }
}

/// An input, made ready for a turn.
#[derive(Debug, PartialEq, Eq)]
pub struct QueuedTurnInputData {
    pub queued_input_id: PendingInputId,
    pub display_input: String,
    pub input_text: String,
    pub input_messages: Vec<String>,
    pub collaboration_mode: NamedChoice,
    pub model_selection: Option<String>,
    pub subagent_usage_owner: Option<SubagentUsageOwner>,
}

/// The view of [`QueuedTurnInputData`].
#[verifier::ext_equal]
pub struct QueuedTurnInputDataView {
    pub queued_input_id: PendingInputId,
    pub display_input: Seq<char>,
    pub input_text: Seq<char>,
    pub input_messages: Seq<Seq<char>>,
    pub collaboration_mode: NamedChoiceView,
    pub model_selection: Option<Seq<char>>,
    pub subagent_usage_owner: Option<SubagentUsageOwner>,
}

impl View for QueuedTurnInputData {
    type V = QueuedTurnInputDataView;

    open spec fn view(&self) -> QueuedTurnInputDataView {
        QueuedTurnInputDataView {
            queued_input_id: self.queued_input_id,
            display_input: self.display_input@,
            input_text: self.input_text@,
            input_messages: views(self.input_messages@),
            collaboration_mode: self.collaboration_mode@,
            model_selection: opt_view(self.model_selection),
            subagent_usage_owner: self.subagent_usage_owner,
        }
    }
}

impl Clone for QueuedTurnInputData {
    fn clone(&self) -> (result: Self)
        ensures
            result@ == self@,
    {
        let result = QueuedTurnInputData {
            queued_input_id: self.queued_input_id,
            display_input: self.display_input.clone(),
            input_text: self.input_text.clone(),
            input_messages: self.input_messages.clone(),
            collaboration_mode: self.collaboration_mode.clone(),
            model_selection: self.model_selection.clone(),
            subagent_usage_owner: self.subagent_usage_owner,
        };
        assert(views(result.input_messages@) =~= views(self.input_messages@));
        result
    }
}

/// Everything that the actor of a session owns.
#[derive(Debug, PartialEq, Eq)]
pub struct SessionActorState {
    pub summary: SessionMetadata,
    pub core: CoreState,
    pub config: SessionConfig,
    pub memory: SessionMemorySettingsSnapshot,
    pub active_turn: Option<TurnMetadata>,
    pub latest_turn: Option<TurnMetadata>,
    pub record: Option<RecordedSession>,
    pub max_turns: Option<u32>,
    pub pending_turn_queue: Vec<PendingInputItem>,
    pub next_item_seq: u64,
    pub loaded_item_count: u64,
    pub persisted_turn_items: Vec<String>,
    pub history_items: Vec<String>,
    pub first_user_input: Option<String>,
    pub session_approvals: Vec<String>,
    pub turn_approvals: Vec<String>,
    pub deferred_assistant: Option<String>,
    pub deferred_reasoning: Option<String>,
    pub runtime_context: u64,
    pub tool_registry: Option<u64>,
    pub session_context_recorded: bool,
}

/// The view of [`SessionActorState`].
pub struct SessionActorStateView {
    pub summary: SessionMetadataView,
    pub core: CoreStateView,
    pub config: SessionConfigView,
    pub memory: SessionMemorySettingsSnapshot,
    pub active_turn: Option<TurnMetadataView>,
    pub latest_turn: Option<TurnMetadataView>,
    pub record: Option<RecordedSessionView>,
    pub max_turns: Option<u32>,
    pub pending_turn_queue: Seq<PendingInputItemView>,
    pub next_item_seq: u64,
    pub loaded_item_count: u64,
    pub persisted_turn_items: Seq<Seq<char>>,
    pub history_items: Seq<Seq<char>>,
    pub first_user_input: Option<Seq<char>>,
    pub session_approvals: Seq<Seq<char>>,
    pub turn_approvals: Seq<Seq<char>>,
    pub deferred_assistant: Option<Seq<char>>,
    pub deferred_reasoning: Option<Seq<char>>,
    pub runtime_context: u64,
    pub tool_registry: Option<u64>,
    pub session_context_recorded: bool,
}

impl View for SessionActorState {
    type V = SessionActorStateView;

    open spec fn view(&self) -> SessionActorStateView {
        SessionActorStateView {
            summary: self.summary@,
            core: self.core@,
            config: self.config@,
            memory: self.memory,
            active_turn: opt_view(self.active_turn),
            latest_turn: opt_view(self.latest_turn),
            record: opt_view(self.record),
            max_turns: self.max_turns,
            pending_turn_queue: views(self.pending_turn_queue@),
            next_item_seq: self.next_item_seq,
            loaded_item_count: self.loaded_item_count,
            persisted_turn_items: views(self.persisted_turn_items@),
            history_items: views(self.history_items@),
            first_user_input: opt_view(self.first_user_input),
            session_approvals: views(self.session_approvals@),
            turn_approvals: views(self.turn_approvals@),
            deferred_assistant: opt_view(self.deferred_assistant),
            deferred_reasoning: opt_view(self.deferred_reasoning),
            runtime_context: self.runtime_context,
            tool_registry: self.tool_registry,
            session_context_recorded: self.session_context_recorded,
        }
    }
}

impl Clone for SessionActorState {
    fn clone(&self) -> (result: Self)
        ensures
            result@ == self@,
    {
        let result = SessionActorState {
            summary: self.summary.clone(),
            core: self.core.clone(),
            config: self.config.clone(),
            memory: self.memory,
            active_turn: self.active_turn.clone(),
            latest_turn: self.latest_turn.clone(),
            record: self.record.clone(),
            max_turns: self.max_turns,
            pending_turn_queue: self.pending_turn_queue.clone(),
            next_item_seq: self.next_item_seq,
            loaded_item_count: self.loaded_item_count,
            persisted_turn_items: self.persisted_turn_items.clone(),
            history_items: self.history_items.clone(),
            first_user_input: self.first_user_input.clone(),
            session_approvals: self.session_approvals.clone(),
            turn_approvals: self.turn_approvals.clone(),
            deferred_assistant: self.deferred_assistant.clone(),
            deferred_reasoning: self.deferred_reasoning.clone(),
            runtime_context: self.runtime_context,
            tool_registry: self.tool_registry,
            session_context_recorded: self.session_context_recorded,
        };
        assert(views(result.pending_turn_queue@) =~= views(self.pending_turn_queue@));
        assert(views(result.persisted_turn_items@) =~= views(self.persisted_turn_items@));
        assert(views(result.history_items@) =~= views(self.history_items@));
        assert(views(result.session_approvals@) =~= views(self.session_approvals@));
        assert(views(result.turn_approvals@) =~= views(self.turn_approvals@));
        result
    }
}

impl PendingInputItem {
    /// An input under a new ID.
    pub fn new(
        kind: PendingInputKind,
        metadata: Option<PendingMetadata>,
        created_at: Timestamp,
    ) -> (result: Self)
        ensures
            result.kind == kind,
            result.metadata == metadata,
            result.created_at == created_at,
    {
        PendingInputItem {
            id: PendingInputId { value: fresh_uuid_value() },
            kind,
            metadata,
            created_at,
        }
    }
}

} // verus!
