//! The actor of a session: which commands it takes, what it answers, and what each
//! command does to the state of the session.
//!
//! The actor takes one command at a time. A command that needs outside work carries
//! what the work gave: the workspace instructions that a session is locked to, a
//! sandbox profile by its normalized name, the approvals that a granted scope leaves.

use vstd::prelude::*;

use crate::config::MemorySetting;
use crate::core_ids::{SessionId, TurnId};
use crate::pending_input::{pop_queued_turn_input_data, queued_input};
use crate::rollout::{LegacyTurnKind, LegacyTurnKindView, LegacyTurnStatus};
use crate::session::{NamedChoice, NamedChoiceView};
use crate::session_memory::{patched_snapshot, SessionMemorySettingsSnapshot};
use crate::session_state::{
    CoreStateView, PendingInputItem, PendingInputItemView, PendingInputKind, PendingInputKindView,
    QueuedTurnInputData, QueuedTurnInputDataView, RecordedSession, RecordedSessionView,
    RuntimePermissionProfile, RuntimePermissionProfileView, SessionActorState,
    SessionActorStateView, SessionConfig, SessionConfigView, SessionMetadata, SessionMetadataView,
    SessionRuntimeStatus, SessionTitleFinalSource, SessionTitleState, TokenTotals, TurnConfig,
    TurnConfigView, TurnMetadata, TurnMetadataView,
};
use crate::text::{opt_view, views};
use crate::time::{now, Timestamp};

verus! {

/// What a sandbox profile is called, or why there is none of that name.
#[derive(Debug, PartialEq, Eq)]
#[allow(inconsistent_fields)]
pub enum NormalizedSandboxProfile {
    Known(String),
    Unknown(String),
}

/// The view of [`NormalizedSandboxProfile`].
#[verifier::ext_equal]
#[allow(inconsistent_fields)]
pub enum NormalizedSandboxProfileView {
    Known(Seq<char>),
    Unknown(Seq<char>),
}

impl View for NormalizedSandboxProfile {
    type V = NormalizedSandboxProfileView;

    open spec fn view(&self) -> NormalizedSandboxProfileView {
        match self {
            NormalizedSandboxProfile::Known(name) => NormalizedSandboxProfileView::Known(name@),
            NormalizedSandboxProfile::Unknown(reason) => NormalizedSandboxProfileView::Unknown(
                reason@,
            ),
        }
    }
}

/// A command to the actor of a session.
#[derive(Debug, PartialEq, Eq)]
#[allow(inconsistent_fields)]
pub enum SessionCommand {
    GetSummary,
    GetMemorySettings,
    GetSpawnSnapshot,
    GetApprovalCacheSnapshot,
    GetCollaborationMode,
    GetParentSessionId,
    GetTurnReservationSnapshot,
    GetHookContextSnapshot,
    GetTurnPersistenceSnapshot,
    GetShellExecContext,
    GetTitleGenerationContext,
    GetPendingQueueSnapshot,
    PopQueuedTurnInput { require_idle_session: bool },
    EnqueuePendingTurnInput { item: PendingInputItem },
    GetActiveTurnId,
    GetRecord,
    PreparePersistItem { turn_id: TurnId },
    TakeShutdownDeferredSnapshot,
    AllocateItemSeq,
    AppendPersistedItem { item: String },
    AppendHistoryItem { item: String },
    TakeDeferredItems,
    TouchLastActivity,
    /// The approvals and profiles that a granted scope leaves.
    ApplyApprovalScope {
        session_approvals: Vec<String>,
        turn_approvals: Vec<String>,
        core_profile: String,
        profile: String,
    },
    UpdateSummary { summary: SessionMetadata },
    SetFirstUserInputIfUnset { text: String },
    UpdateTitle { title: String, title_state: SessionTitleState },
    BeginActiveTurn {
        turn: TurnMetadata,
        turn_config: TurnConfig,
        captured_context: Option<String>,
    },
    ClearActiveTurnIfMatches { turn_id: TurnId },
    SetSessionIdle { latest_turn: Option<TurnMetadata> },
    ActivateQueuedTurn {
        turn: TurnMetadata,
        turn_config: TurnConfig,
        captured_context: Option<String>,
    },
    UpdateCorePermissionMode { permission_mode: String },
    SetActiveGoal { goal: Option<String> },
    UpdateRecordRolloutPath { rollout_path: String },
    /// The totals that the usage of subagents leaves.
    ApplyParentUsageSnapshot { tokens: TokenTotals },
    InterruptActiveTurn,
    ExportRuntimeSession,
    UpdateSessionWorkspace { cwd: String, runtime_context: u64 },
    UpdateSessionMetadata {
        model: Option<String>,
        model_binding_id: Option<String>,
        reasoning_effort_selection: Option<String>,
        collaboration_mode: Option<NamedChoice>,
    },
    UpdateMemorySettings { recall: Option<MemorySetting>, contribution: Option<MemorySetting> },
    ApplyPermissionProfile { profile: RuntimePermissionProfile },
    ApplyEffectiveContextWindow { limit: u64 },
    ApplySandboxProfile { normalized: NormalizedSandboxProfile },
    SetSessionTitleUserRename { title: String },
    SetToolRegistry { tool_registry: Option<u64> },
    GetRuntimeContext,
    GetResumeSnapshot,
    TryBeginActiveTurn {
        turn: TurnMetadata,
        turn_config: TurnConfig,
        captured_context: Option<String>,
    },
    ReplaceState { state: Box<SessionActorState> },
    /// Asks for what has to be appended to the record of a turn.
    PersistTurnLine { turn: TurnMetadata },
    /// The line of a turn was appended.
    TurnLineAppended { session_context_recorded: bool },
    Shutdown,
}

/// What the actor of a session answers.
#[derive(Debug, PartialEq, Eq)]
#[allow(inconsistent_fields)]
pub enum SessionReply {
    /// The command has no answer.
    Silent,
    Done,
    Summary(SessionMetadata),
    MemorySettings(SessionMemorySettingsSnapshot),
    State(Box<SessionActorState>),
    Approvals { session_approvals: Vec<String>, turn_approvals: Vec<String> },
    CollaborationMode(NamedChoice),
    ParentSession(Option<SessionId>),
    TurnReservation {
        max_turns: Option<u32>,
        active_turn: Option<TurnMetadata>,
        latest_turn: Option<TurnMetadata>,
        ephemeral: bool,
        parent_session_id: Option<SessionId>,
        summary: SessionMetadata,
        runtime_context: u64,
        pending_turn_queue: Vec<PendingInputItem>,
    },
    HookContext {
        runtime_context: u64,
        record: Option<RecordedSession>,
        summary: SessionMetadata,
        config: SessionConfig,
    },
    Record(Option<RecordedSession>),
    ShellExecContext(Option<String>),
    TitleGenerationContext {
        model: Option<String>,
        model_binding_id: Option<String>,
        reasoning_effort_selection: Option<String>,
        title_state: SessionTitleState,
        runtime_context: u64,
    },
    PendingCount(u64),
    QueuedInput(Option<QueuedTurnInputData>),
    ActiveTurnId(Option<TurnId>),
    PersistItem { turn_kind: LegacyTurnKind, record: Option<RecordedSession> },
    ShutdownDeferred {
        deferred_assistant: Option<String>,
        deferred_reasoning: Option<String>,
        active_turn_id: Option<TurnId>,
        record: Option<RecordedSession>,
    },
    ItemSeq(u64),
    DeferredItems { deferred_assistant: Option<String>, deferred_reasoning: Option<String> },
    FirstUserInput(Option<String>),
    Retitled(Option<SessionMetadata>),
    Decided(bool),
    Interrupted(Option<TurnMetadata>),
    SandboxProfile(String),
    SandboxProfileRefused(String),
    RuntimeContext(u64),
    Resume {
        summary: SessionMetadata,
        latest_turn: Option<TurnMetadata>,
        loaded_item_count: u64,
        history_items: Vec<String>,
        pending_texts: Vec<String>,
    },
    /// What has to be appended to the record of a turn.
    AppendTurn {
        record: RecordedSession,
        turn: TurnMetadata,
        latest_turn_context: Option<String>,
        session_context: Option<String>,
        session_context_recorded: bool,
    },
    /// There is no record to append to.
    NoRecord,
    /// The actor takes no more commands.
    Stopped,
}

/// The view of [`SessionReply`].
#[allow(inconsistent_fields)]
pub enum SessionReplyView {
    Silent,
    Done,
    Summary(SessionMetadataView),
    MemorySettings(SessionMemorySettingsSnapshot),
    State(SessionActorStateView),
    Approvals { session_approvals: Seq<Seq<char>>, turn_approvals: Seq<Seq<char>> },
    CollaborationMode(NamedChoiceView),
    ParentSession(Option<SessionId>),
    TurnReservation {
        max_turns: Option<u32>,
        active_turn: Option<TurnMetadataView>,
        latest_turn: Option<TurnMetadataView>,
        ephemeral: bool,
        parent_session_id: Option<SessionId>,
        summary: SessionMetadataView,
        runtime_context: u64,
        pending_turn_queue: Seq<PendingInputItemView>,
    },
    HookContext {
        runtime_context: u64,
        record: Option<RecordedSessionView>,
        summary: SessionMetadataView,
        config: SessionConfigView,
    },
    Record(Option<RecordedSessionView>),
    ShellExecContext(Option<Seq<char>>),
    TitleGenerationContext {
        model: Option<Seq<char>>,
        model_binding_id: Option<Seq<char>>,
        reasoning_effort_selection: Option<Seq<char>>,
        title_state: SessionTitleState,
        runtime_context: u64,
    },
    PendingCount(u64),
    QueuedInput(Option<QueuedTurnInputDataView>),
    ActiveTurnId(Option<TurnId>),
    PersistItem { turn_kind: LegacyTurnKindView, record: Option<RecordedSessionView> },
    ShutdownDeferred {
        deferred_assistant: Option<Seq<char>>,
        deferred_reasoning: Option<Seq<char>>,
        active_turn_id: Option<TurnId>,
        record: Option<RecordedSessionView>,
    },
    ItemSeq(u64),
    DeferredItems { deferred_assistant: Option<Seq<char>>, deferred_reasoning: Option<Seq<char>> },
    FirstUserInput(Option<Seq<char>>),
    Retitled(Option<SessionMetadataView>),
    Decided(bool),
    Interrupted(Option<TurnMetadataView>),
    SandboxProfile(Seq<char>),
    SandboxProfileRefused(Seq<char>),
    RuntimeContext(u64),
    Resume {
        summary: SessionMetadataView,
        latest_turn: Option<TurnMetadataView>,
        loaded_item_count: u64,
        history_items: Seq<Seq<char>>,
        pending_texts: Seq<Seq<char>>,
    },
    AppendTurn {
        record: RecordedSessionView,
        turn: TurnMetadataView,
        latest_turn_context: Option<Seq<char>>,
        session_context: Option<Seq<char>>,
        session_context_recorded: bool,
    },
    NoRecord,
    Stopped,
}

impl View for SessionReply {
    type V = SessionReplyView;

    open spec fn view(&self) -> SessionReplyView {
        match self {
            SessionReply::Silent => SessionReplyView::Silent,
            SessionReply::Done => SessionReplyView::Done,
            SessionReply::Summary(summary) => SessionReplyView::Summary(summary@),
            SessionReply::MemorySettings(memory) => SessionReplyView::MemorySettings(*memory),
            SessionReply::State(state) => SessionReplyView::State((**state)@),
            SessionReply::Approvals {
                session_approvals,
                turn_approvals,
            } => SessionReplyView::Approvals {
                session_approvals: views(session_approvals@),
                turn_approvals: views(turn_approvals@),
            },
            SessionReply::CollaborationMode(mode) => SessionReplyView::CollaborationMode(mode@),
            SessionReply::ParentSession(parent_session_id) => SessionReplyView::ParentSession(
                *parent_session_id,
            ),
            SessionReply::TurnReservation {
                max_turns,
                active_turn,
                latest_turn,
                ephemeral,
                parent_session_id,
                summary,
                runtime_context,
                pending_turn_queue,
            } => SessionReplyView::TurnReservation {
                max_turns: *max_turns,
                active_turn: opt_view(*active_turn),
                latest_turn: opt_view(*latest_turn),
                ephemeral: *ephemeral,
                parent_session_id: *parent_session_id,
                summary: summary@,
                runtime_context: *runtime_context,
                pending_turn_queue: views(pending_turn_queue@),
            },
            SessionReply::HookContext {
                runtime_context,
                record,
                summary,
                config,
            } => SessionReplyView::HookContext {
                runtime_context: *runtime_context,
                record: opt_view(*record),
                summary: summary@,
                config: config@,
            },
            SessionReply::Record(record) => SessionReplyView::Record(opt_view(*record)),
            SessionReply::ShellExecContext(sandbox_profile) => SessionReplyView::ShellExecContext(
                opt_view(*sandbox_profile),
            ),
            SessionReply::TitleGenerationContext {
                model,
                model_binding_id,
                reasoning_effort_selection,
                title_state,
                runtime_context,
            } => SessionReplyView::TitleGenerationContext {
                model: opt_view(*model),
                model_binding_id: opt_view(*model_binding_id),
                reasoning_effort_selection: opt_view(*reasoning_effort_selection),
                title_state: *title_state,
                runtime_context: *runtime_context,
            },
            SessionReply::PendingCount(pending_count) => SessionReplyView::PendingCount(
                *pending_count,
            ),
            SessionReply::QueuedInput(input) => SessionReplyView::QueuedInput(opt_view(*input)),
            SessionReply::ActiveTurnId(turn_id) => SessionReplyView::ActiveTurnId(*turn_id),
            SessionReply::PersistItem { turn_kind, record } => SessionReplyView::PersistItem {
                turn_kind: turn_kind@,
                record: opt_view(*record),
            },
            SessionReply::ShutdownDeferred {
                deferred_assistant,
                deferred_reasoning,
                active_turn_id,
                record,
            } => SessionReplyView::ShutdownDeferred {
                deferred_assistant: opt_view(*deferred_assistant),
                deferred_reasoning: opt_view(*deferred_reasoning),
                active_turn_id: *active_turn_id,
                record: opt_view(*record),
            },
            SessionReply::ItemSeq(item_seq) => SessionReplyView::ItemSeq(*item_seq),
            SessionReply::DeferredItems {
                deferred_assistant,
                deferred_reasoning,
            } => SessionReplyView::DeferredItems {
                deferred_assistant: opt_view(*deferred_assistant),
                deferred_reasoning: opt_view(*deferred_reasoning),
            },
            SessionReply::FirstUserInput(text) => SessionReplyView::FirstUserInput(opt_view(*text)),
            SessionReply::Retitled(summary) => SessionReplyView::Retitled(opt_view(*summary)),
            SessionReply::Decided(done) => SessionReplyView::Decided(*done),
            SessionReply::Interrupted(turn) => SessionReplyView::Interrupted(opt_view(*turn)),
            SessionReply::SandboxProfile(name) => SessionReplyView::SandboxProfile(name@),
            SessionReply::SandboxProfileRefused(reason) => SessionReplyView::SandboxProfileRefused(
                reason@,
            ),
            SessionReply::RuntimeContext(runtime_context) => SessionReplyView::RuntimeContext(
                *runtime_context,
            ),
            SessionReply::Resume {
                summary,
                latest_turn,
                loaded_item_count,
                history_items,
                pending_texts,
            } => SessionReplyView::Resume {
                summary: summary@,
                latest_turn: opt_view(*latest_turn),
                loaded_item_count: *loaded_item_count,
                history_items: views(history_items@),
                pending_texts: views(pending_texts@),
            },
            SessionReply::AppendTurn {
                record,
                turn,
                latest_turn_context,
                session_context,
                session_context_recorded,
            } => SessionReplyView::AppendTurn {
                record: record@,
                turn: turn@,
                latest_turn_context: opt_view(*latest_turn_context),
                session_context: opt_view(*session_context),
                session_context_recorded: *session_context_recorded,
            },
            SessionReply::NoRecord => SessionReplyView::NoRecord,
            SessionReply::Stopped => SessionReplyView::Stopped,
        }
    }
}

/// What a session record lacks when a turn is to be persisted.
pub const MISSING_RECORD: &'static str = "missing session record for turn persistence";

/// A session after a command, and the answer.
pub struct ActorStep {
    pub state: SessionActorStateView,
    pub reply: SessionReplyView,
}

// ---------------------------------------------------------------------------
// What commands do to the state.
// ---------------------------------------------------------------------------
/// A session that has worked up to an instant.
pub open spec fn touched(summary: SessionMetadataView, at: Timestamp) -> SessionMetadataView {
    SessionMetadataView { updated_at: at, last_activity_at: at, ..summary }
}

/// A session with an active turn. The turn settles which model the session uses,
/// and a session that is not locked to a context yet is locked now.
pub open spec fn with_active_turn(
    state: SessionActorStateView,
    turn: TurnMetadataView,
    turn_config: TurnConfigView,
    captured_context: Option<Seq<char>>,
    at: Timestamp,
) -> SessionActorStateView {
    SessionActorStateView {
        summary: touched(
            SessionMetadataView {
                model: Some(turn_config.model_slug),
                model_binding_id: turn_config.model_binding_id,
                reasoning_effort_selection: turn_config.reasoning_effort_selection,
                status: SessionRuntimeStatus::ActiveTurn,
                ..state.summary
            },
            at,
        ),
        core: CoreStateView {
            session_context: if state.core.session_context is Some {
                state.core.session_context
            } else {
                captured_context
            },
            ..state.core
        },
        active_turn: Some(turn),
        ..state
    }
}

/// A session without an active turn.
pub open spec fn without_active_turn(
    state: SessionActorStateView,
    at: Timestamp,
) -> SessionActorStateView {
    SessionActorStateView {
        summary: touched(
            SessionMetadataView { status: SessionRuntimeStatus::Idle, ..state.summary },
            at,
        ),
        active_turn: None,
        ..state
    }
}

/// A turn that was interrupted.
pub open spec fn interrupted(turn: TurnMetadataView, at: Timestamp) -> TurnMetadataView {
    TurnMetadataView {
        status: LegacyTurnStatus::Interrupted,
        completed_at: Some(at),
        ..turn
    }
}

/// A session whose active turn, if it has one, was interrupted.
pub open spec fn interrupted_session(
    state: SessionActorStateView,
    at: Timestamp,
) -> SessionActorStateView {
    let idle = without_active_turn(state, at);
    SessionActorStateView {
        summary: SessionMetadataView { tokens: state.core.tokens, ..idle.summary },
        latest_turn: match state.active_turn {
            Some(turn) => Some(interrupted(turn, at)),
            None => state.latest_turn,
        },
        core: CoreStateView {
            last_turn_interrupted: state.active_turn is Some || state.core.last_turn_interrupted,
            ..state.core
        },
        ..idle
    }
}

/// A session under another title, in its record too.
pub open spec fn retitled(
    state: SessionActorStateView,
    title: Seq<char>,
    title_state: SessionTitleState,
    at: Timestamp,
) -> SessionActorStateView {
    SessionActorStateView {
        summary: SessionMetadataView {
            title: Some(title),
            title_state,
            updated_at: at,
            ..state.summary
        },
        record: match state.record {
            Some(record) => Some(
                RecordedSessionView { title: Some(title), title_state, updated_at: at, ..record },
            ),
            None => None,
        },
        ..state
    }
}

/// A session with other metadata, in its record too. A change of nothing but the
/// mode leaves the model as it is.
pub open spec fn with_metadata(
    state: SessionActorStateView,
    model: Option<Seq<char>>,
    model_binding_id: Option<Seq<char>>,
    reasoning_effort_selection: Option<Seq<char>>,
    collaboration_mode: Option<NamedChoiceView>,
    at: Timestamp,
) -> SessionActorStateView {
    let keeps_model = model is None && model_binding_id is None && reasoning_effort_selection
        is None && collaboration_mode is Some;
    SessionActorStateView {
        summary: SessionMetadataView {
            model: if keeps_model {
                state.summary.model
            } else {
                model
            },
            model_binding_id: if keeps_model {
                state.summary.model_binding_id
            } else {
                model_binding_id
            },
            reasoning_effort_selection: if keeps_model {
                state.summary.reasoning_effort_selection
            } else {
                reasoning_effort_selection
            },
            collaboration_mode: match collaboration_mode {
                Some(mode) => mode,
                None => state.summary.collaboration_mode,
            },
            updated_at: at,
            ..state.summary
        },
        core: CoreStateView {
            collaboration_mode: match collaboration_mode {
                Some(mode) => mode,
                None => state.core.collaboration_mode,
            },
            ..state.core
        },
        record: match state.record {
            Some(record) => Some(
                RecordedSessionView {
                    model: if keeps_model {
                        record.model
                    } else {
                        model
                    },
                    model_binding_id: if keeps_model {
                        record.model_binding_id
                    } else {
                        model_binding_id
                    },
                    reasoning_effort_selection: if keeps_model {
                        record.reasoning_effort_selection
                    } else {
                        reasoning_effort_selection
                    },
                    collaboration_mode: if collaboration_mode is Some {
                        collaboration_mode
                    } else {
                        record.collaboration_mode
                    },
                    updated_at: at,
                    ..record
                },
            ),
            None => None,
        },
        ..state
    }
}

/// A record that was changed at an instant.
pub open spec fn updated_record(record: Option<RecordedSessionView>, at: Timestamp) -> Option<
    RecordedSessionView,
> {
    match record {
        Some(record) => Some(RecordedSessionView { updated_at: at, ..record }),
        None => None,
    }
}

/// A session with patched memory settings.
pub open spec fn with_memory_settings(
    state: SessionActorStateView,
    recall: Option<MemorySetting>,
    contribution: Option<MemorySetting>,
    at: Timestamp,
) -> SessionActorStateView {
    let memory = patched_snapshot(state.memory, recall, contribution);
    if memory.settings == state.memory.settings {
        state
    } else {
        SessionActorStateView {
            memory,
            summary: SessionMetadataView { updated_at: at, ..state.summary },
            record: updated_record(state.record, at),
            ..state
        }
    }
}

/// A configuration under another permission profile.
pub open spec fn permitted(
    config: SessionConfigView,
    profile: RuntimePermissionProfileView,
) -> SessionConfigView {
    SessionConfigView {
        permission_mode: profile.permission_mode,
        permission_profile: profile.profile,
        sandbox_profile: Some(profile.implied_sandbox_profile),
        ..config
    }
}

/// A session under another permission profile. What was approved before counts no
/// more.
pub open spec fn with_permission_profile(
    state: SessionActorStateView,
    profile: RuntimePermissionProfileView,
    at: Timestamp,
) -> SessionActorStateView {
    SessionActorStateView {
        core: CoreStateView { config: permitted(state.core.config, profile), ..state.core },
        config: permitted(state.config, profile),
        session_approvals: Seq::empty(),
        turn_approvals: Seq::empty(),
        summary: SessionMetadataView {
            permission_preset: Some(profile.preset),
            updated_at: at,
            ..state.summary
        },
        record: match state.record {
            Some(record) => Some(
                RecordedSessionView {
                    permission_preset: Some(profile.preset),
                    updated_at: at,
                    ..record
                },
            ),
            None => None,
        },
        ..state
    }
}

/// A configuration with another context window.
pub open spec fn windowed(config: SessionConfigView, limit: u64) -> SessionConfigView {
    SessionConfigView {
        effective_context_window_override: Some(limit),
        context_window: limit,
        auto_compact_token_limit: Some(limit),
        ..config
    }
}

/// A session with another context window. The window is not part of its record.
pub open spec fn with_context_window(
    state: SessionActorStateView,
    limit: u64,
) -> SessionActorStateView {
    SessionActorStateView {
        core: CoreStateView { config: windowed(state.core.config, limit), ..state.core },
        config: windowed(state.config, limit),
        summary: SessionMetadataView {
            effective_context_window: Some(limit),
            ..state.summary
        },
        ..state
    }
}

/// A session under another sandbox profile. What was approved before still counts:
/// the profile does not widen what tools may do.
pub open spec fn with_sandbox_profile(
    state: SessionActorStateView,
    name: Seq<char>,
) -> SessionActorStateView {
    SessionActorStateView {
        core: CoreStateView {
            config: SessionConfigView { sandbox_profile: Some(name), ..state.core.config },
            ..state.core
        },
        config: SessionConfigView { sandbox_profile: Some(name), ..state.config },
        ..state
    }
}

/// One more, as long as it can be counted.
pub open spec fn one_more(count: u64) -> u64 {
    if count < u64::MAX {
        (count + 1) as u64
    } else {
        u64::MAX
    }
}

// ---------------------------------------------------------------------------
// What commands read.
// ---------------------------------------------------------------------------
/// The ID of a turn, if there is one.
pub open spec fn id_of(turn: Option<TurnMetadataView>) -> Option<TurnId> {
    match turn {
        Some(turn) => Some(turn.turn_id),
        None => None,
    }
}

/// What a turn of a session was for: the active one, the latest one, or some other,
/// which counts as a regular one.
pub open spec fn kind_of_turn(state: SessionActorStateView, turn_id: TurnId) -> LegacyTurnKindView {
    if id_of(state.active_turn) == Some(turn_id) {
        state.active_turn->Some_0.kind
    } else if id_of(state.latest_turn) == Some(turn_id) {
        state.latest_turn->Some_0.kind
    } else {
        LegacyTurnKindView::Regular
    }
}

/// The text that a queued input shows, if it starts a turn.
pub open spec fn shown_text(item: PendingInputItemView) -> Option<Seq<char>> {
    match item.kind {
        PendingInputKindView::UserText { text } => Some(text),
        PendingInputKindView::UserInput { display_text, .. } => Some(display_text),
        PendingInputKindView::Other => None,
    }
}

/// The texts that the inputs of a queue show, in order.
pub open spec fn pending_texts(queue: Seq<PendingInputItemView>) -> Seq<Seq<char>>
    decreases queue.len(),
{
    if queue.len() == 0 {
        Seq::empty()
    } else {
        let front = pending_texts(queue.drop_last());
        match shown_text(queue.last()) {
            Some(text) => front.push(text),
            None => front,
        }
    }
}

/// What a command that reads of the session as a whole is answered. Other commands are
/// none of these.
pub open spec fn read_summary_step(
    state: SessionActorStateView,
    command: SessionCommand,
) -> Option<ActorStep> {
    match command {
        SessionCommand::GetSummary => Some(
            ActorStep { state, reply: SessionReplyView::Summary(state.summary) },
        ),
        SessionCommand::GetMemorySettings => Some(
            ActorStep { state, reply: SessionReplyView::MemorySettings(state.memory) },
        ),
        SessionCommand::GetSpawnSnapshot => Some(
            ActorStep { state, reply: SessionReplyView::State(state) },
        ),
        SessionCommand::GetApprovalCacheSnapshot => Some(
            ActorStep {
                state,
                reply: SessionReplyView::Approvals {
                    session_approvals: state.session_approvals,
                    turn_approvals: state.turn_approvals,
                },
            },
        ),
        SessionCommand::GetCollaborationMode => Some(
            ActorStep {
                state,
                reply: SessionReplyView::CollaborationMode(state.core.collaboration_mode),
            },
        ),
        SessionCommand::GetParentSessionId => Some(
            ActorStep {
                state,
                reply: SessionReplyView::ParentSession(state.summary.parent_session_id),
            },
        ),
        SessionCommand::GetTurnReservationSnapshot => Some(
            ActorStep {
                state,
                reply: SessionReplyView::TurnReservation {
                    max_turns: state.max_turns,
                    active_turn: state.active_turn,
                    latest_turn: state.latest_turn,
                    ephemeral: state.summary.ephemeral,
                    parent_session_id: state.summary.parent_session_id,
                    summary: state.summary,
                    runtime_context: state.runtime_context,
                    pending_turn_queue: state.pending_turn_queue,
                },
            },
        ),
        SessionCommand::GetHookContextSnapshot => Some(
            ActorStep {
                state,
                reply: SessionReplyView::HookContext {
                    runtime_context: state.runtime_context,
                    record: state.record,
                    summary: state.summary,
                    config: state.config,
                },
            },
        ),
        SessionCommand::GetTurnPersistenceSnapshot => Some(
            ActorStep { state, reply: SessionReplyView::Record(state.record) },
        ),
        _ => None,
    }
}

/// What a command that reads of the session's work is answered. Other commands are
/// none of these.
pub open spec fn read_work_step(
    state: SessionActorStateView,
    command: SessionCommand,
) -> Option<ActorStep> {
    match command {
        SessionCommand::GetShellExecContext => Some(
            ActorStep {
                state,
                reply: SessionReplyView::ShellExecContext(state.core.config.sandbox_profile),
            },
        ),
        SessionCommand::GetTitleGenerationContext => Some(
            ActorStep {
                state,
                reply: SessionReplyView::TitleGenerationContext {
                    model: state.summary.model,
                    model_binding_id: state.summary.model_binding_id,
                    reasoning_effort_selection: state.summary.reasoning_effort_selection,
                    title_state: state.summary.title_state,
                    runtime_context: state.runtime_context,
                },
            },
        ),
        SessionCommand::GetPendingQueueSnapshot => Some(
            ActorStep {
                state,
                reply: SessionReplyView::PendingCount(
                    pending_texts(state.pending_turn_queue).len() as u64,
                ),
            },
        ),
        SessionCommand::GetActiveTurnId => Some(
            ActorStep {
                state,
                reply: SessionReplyView::ActiveTurnId(id_of(state.active_turn)),
            },
        ),
        SessionCommand::GetRecord => Some(
            ActorStep { state, reply: SessionReplyView::Record(state.record) },
        ),
        SessionCommand::PreparePersistItem { turn_id } => Some(
            ActorStep {
                state,
                reply: SessionReplyView::PersistItem {
                    turn_kind: kind_of_turn(state, turn_id),
                    record: state.record,
                },
            },
        ),
        SessionCommand::TakeShutdownDeferredSnapshot => Some(
            ActorStep {
                state,
                reply: SessionReplyView::ShutdownDeferred {
                    deferred_assistant: state.deferred_assistant,
                    deferred_reasoning: state.deferred_reasoning,
                    active_turn_id: id_of(state.active_turn),
                    record: state.record,
                },
            },
        ),
        SessionCommand::ExportRuntimeSession => Some(
            ActorStep { state, reply: SessionReplyView::State(state) },
        ),
        SessionCommand::GetRuntimeContext => Some(
            ActorStep {
                state,
                reply: SessionReplyView::RuntimeContext(state.runtime_context),
            },
        ),
        SessionCommand::GetResumeSnapshot => Some(
            ActorStep {
                state,
                reply: SessionReplyView::Resume {
                    summary: state.summary,
                    latest_turn: state.latest_turn,
                    loaded_item_count: state.loaded_item_count,
                    history_items: state.history_items,
                    pending_texts: pending_texts(state.pending_turn_queue),
                },
            },
        ),
        _ => None,
    }
}

/// What a command does that begins, ends or records a turn. Other commands are
/// none of these.
pub open spec fn turn_step(
    state: SessionActorStateView,
    command: SessionCommand,
    at: Timestamp,
) -> Option<ActorStep> {
    match command {
        SessionCommand::BeginActiveTurn { turn, turn_config, captured_context } => {
            let turn = turn@;
            let turn_config = turn_config@;
            let captured_context = opt_view(captured_context);
            Some(
                ActorStep {
                    state: with_active_turn(state, turn, turn_config, captured_context, at),
                    reply: SessionReplyView::Silent,
                },
            )
        },
        SessionCommand::ClearActiveTurnIfMatches { turn_id } => Some(
            ActorStep {
                state: if id_of(state.active_turn) == Some(turn_id) {
                    without_active_turn(state, at)
                } else {
                    state
                },
                reply: SessionReplyView::Decided(id_of(state.active_turn) == Some(turn_id)),
            },
        ),
        SessionCommand::SetSessionIdle { latest_turn } => {
            let latest_turn = opt_view(latest_turn);
            Some(
                ActorStep {
                    state: SessionActorStateView {
                        latest_turn: if latest_turn is Some {
                            latest_turn
                        } else {
                            state.latest_turn
                        },
                        ..without_active_turn(state, at)
                    },
                    reply: SessionReplyView::Silent,
                },
            )
        },
        SessionCommand::ActivateQueuedTurn { turn, turn_config, captured_context } => {
            let turn = turn@;
            let turn_config = turn_config@;
            let captured_context = opt_view(captured_context);
            Some(
                ActorStep {
                    state: with_active_turn(state, turn, turn_config, captured_context, at),
                    reply: SessionReplyView::Silent,
                },
            )
        },
        SessionCommand::InterruptActiveTurn => Some(
            ActorStep {
                state: interrupted_session(state, at),
                reply: SessionReplyView::Interrupted(
                    match state.active_turn {
                        Some(turn) => Some(interrupted(turn, at)),
                        None => None,
                    },
                ),
            },
        ),
        SessionCommand::TryBeginActiveTurn { turn, turn_config, captured_context } => {
            let turn = turn@;
            let turn_config = turn_config@;
            let captured_context = opt_view(captured_context);
            Some(
                ActorStep {
                    state: if state.active_turn is None && state.pending_turn_queue.len() == 0 {
                        with_active_turn(state, turn, turn_config, captured_context, at)
                    } else {
                        state
                    },
                    reply: SessionReplyView::Decided(
                        state.active_turn is None && state.pending_turn_queue.len() == 0,
                    ),
                },
            )
        },
        SessionCommand::PersistTurnLine { turn } => {
            let turn = turn@;
            Some(
                ActorStep {
                    state,
                    reply: match state.record {
                        Some(record) => SessionReplyView::AppendTurn {
                            record,
                            turn,
                            latest_turn_context: state.core.latest_turn_context,
                            session_context: state.core.session_context,
                            session_context_recorded: state.session_context_recorded,
                        },
                        None => SessionReplyView::NoRecord,
                    },
                },
            )
        },
        SessionCommand::TurnLineAppended { session_context_recorded } => Some(
            ActorStep {
                state: SessionActorStateView { session_context_recorded, ..state },
                reply: SessionReplyView::Silent,
            },
        ),
        _ => None,
    }
}

/// What a command does that queues an input or keeps an item. Other commands are
/// none of these.
pub open spec fn item_step(
    state: SessionActorStateView,
    command: SessionCommand,
    at: Timestamp,
) -> Option<ActorStep> {
    match command {
        SessionCommand::PopQueuedTurnInput { require_idle_session } => {
            if require_idle_session && state.active_turn is Some || state.pending_turn_queue.len()
                == 0 {
                Some(ActorStep { state, reply: SessionReplyView::QueuedInput(None) })
            } else {
                Some(
                    ActorStep {
                        state: SessionActorStateView {
                            pending_turn_queue: state.pending_turn_queue.skip(1),
                            ..state
                        },
                        reply: SessionReplyView::QueuedInput(
                            queued_input(state.pending_turn_queue[0]),
                        ),
                    },
                )
            }
        },
        SessionCommand::EnqueuePendingTurnInput { item } => {
            let item = item@;
            Some(
                ActorStep {
                    state: SessionActorStateView {
                        pending_turn_queue: state.pending_turn_queue.push(item),
                        ..state
                    },
                    reply: SessionReplyView::Silent,
                },
            )
        },
        SessionCommand::AllocateItemSeq => Some(
            ActorStep {
                state: SessionActorStateView {
                    next_item_seq: one_more(state.next_item_seq),
                    loaded_item_count: one_more(state.loaded_item_count),
                    ..state
                },
                reply: SessionReplyView::ItemSeq(state.next_item_seq),
            },
        ),
        SessionCommand::AppendPersistedItem { item } => {
            let item = item@;
            Some(
                ActorStep {
                    state: SessionActorStateView {
                        persisted_turn_items: state.persisted_turn_items.push(item),
                        ..state
                    },
                    reply: SessionReplyView::Silent,
                },
            )
        },
        SessionCommand::AppendHistoryItem { item } => {
            let item = item@;
            Some(
                ActorStep {
                    state: SessionActorStateView {
                        history_items: state.history_items.push(item),
                        ..state
                    },
                    reply: SessionReplyView::Silent,
                },
            )
        },
        SessionCommand::TakeDeferredItems => Some(
            ActorStep {
                state: SessionActorStateView {
                    deferred_assistant: None,
                    deferred_reasoning: None,
                    ..state
                },
                reply: SessionReplyView::DeferredItems {
                    deferred_assistant: state.deferred_assistant,
                    deferred_reasoning: state.deferred_reasoning,
                },
            },
        ),
        SessionCommand::TouchLastActivity => Some(
            ActorStep {
                state: SessionActorStateView {
                    summary: SessionMetadataView {
                        last_activity_at: if state.summary.last_activity_at.earlier(at) {
                            at
                        } else {
                            state.summary.last_activity_at
                        },
                        ..state.summary
                    },
                    ..state
                },
                reply: SessionReplyView::Silent,
            },
        ),
        SessionCommand::SetFirstUserInputIfUnset { text } => {
            let text = text@;
            Some(
                ActorStep {
                    state: SessionActorStateView {
                        first_user_input: if state.first_user_input is Some {
                            state.first_user_input
                        } else {
                            Some(text)
                        },
                        ..state
                    },
                    reply: SessionReplyView::FirstUserInput(
                        if state.first_user_input is Some {
                            state.first_user_input
                        } else {
                            Some(text)
                        },
                    ),
                },
            )
        },
        _ => None,
    }
}

/// What a command does that changes what the session may do. Other commands are
/// none of these.
pub open spec fn settings_step(
    state: SessionActorStateView,
    command: SessionCommand,
    at: Timestamp,
) -> Option<ActorStep> {
    match command {
        SessionCommand::ApplyApprovalScope {
            session_approvals,
            turn_approvals,
            core_profile,
            profile,
        } => {
            let session_approvals = views(session_approvals@);
            let turn_approvals = views(turn_approvals@);
            let core_profile = core_profile@;
            let profile = profile@;
            Some(
                ActorStep {
                    state: SessionActorStateView {
                        session_approvals,
                        turn_approvals,
                        core: CoreStateView {
                            config: SessionConfigView {
                                permission_profile: core_profile,
                                ..state.core.config
                            },
                            ..state.core
                        },
                        config: SessionConfigView { permission_profile: profile, ..state.config },
                        ..state
                    },
                    reply: SessionReplyView::Silent,
                },
            )
        },
        SessionCommand::UpdateCorePermissionMode { permission_mode } => {
            let permission_mode = permission_mode@;
            Some(
                ActorStep {
                    state: SessionActorStateView {
                        core: CoreStateView {
                            config: SessionConfigView { permission_mode, ..state.core.config },
                            ..state.core
                        },
                        config: SessionConfigView { permission_mode, ..state.config },
                        ..state
                    },
                    reply: SessionReplyView::Silent,
                },
            )
        },
        SessionCommand::SetActiveGoal { goal } => {
            let goal = opt_view(goal);
            Some(
                ActorStep {
                    state: SessionActorStateView {
                        core: CoreStateView { active_goal: goal, ..state.core },
                        ..state
                    },
                    reply: SessionReplyView::Silent,
                },
            )
        },
        SessionCommand::UpdateMemorySettings { recall, contribution } => Some(
            ActorStep {
                state: with_memory_settings(state, recall, contribution, at),
                reply: SessionReplyView::MemorySettings(
                    with_memory_settings(state, recall, contribution, at).memory,
                ),
            },
        ),
        SessionCommand::ApplyPermissionProfile { profile } => {
            let profile = profile@;
            Some(
                ActorStep {
                    state: with_permission_profile(state, profile, at),
                    reply: SessionReplyView::Done,
                },
            )
        },
        SessionCommand::ApplyEffectiveContextWindow { limit } => Some(
            ActorStep { state: with_context_window(state, limit), reply: SessionReplyView::Done },
        ),
        SessionCommand::ApplySandboxProfile { normalized } => {
            let normalized = normalized@;
            Some(match normalized {
            NormalizedSandboxProfileView::Known(name) => ActorStep {
                state: with_sandbox_profile(state, name),
                reply: SessionReplyView::SandboxProfile(name),
            },
            NormalizedSandboxProfileView::Unknown(reason) => ActorStep {
                state,
                reply: SessionReplyView::SandboxProfileRefused(reason),
            },
        })
        },
        SessionCommand::SetToolRegistry { tool_registry } => Some(
            ActorStep {
                state: SessionActorStateView { tool_registry, ..state },
                reply: SessionReplyView::Done,
            },
        ),
        _ => None,
    }
}

/// What a command does that changes what is known of the session. Other commands are
/// none of these.
pub open spec fn metadata_step(
    state: SessionActorStateView,
    command: SessionCommand,
    at: Timestamp,
) -> Option<ActorStep> {
    match command {
        SessionCommand::UpdateSummary { summary } => {
            let summary = summary@;
            Some(
                ActorStep {
                    state: SessionActorStateView { summary, ..state },
                    reply: SessionReplyView::Silent,
                },
            )
        },
        SessionCommand::UpdateTitle { title, title_state } => {
            let title = title@;
            if state.summary.title_state is Final {
                Some(ActorStep { state, reply: SessionReplyView::Retitled(None) })
            } else {
                Some(
                    ActorStep {
                        state: retitled(state, title, title_state, at),
                        reply: SessionReplyView::Retitled(
                            Some(retitled(state, title, title_state, at).summary),
                        ),
                    },
                )
            }
        },
        SessionCommand::UpdateRecordRolloutPath { rollout_path } => {
            let rollout_path = rollout_path@;
            Some(
                ActorStep {
                    state: SessionActorStateView {
                        record: match state.record {
                            Some(record) => Some(RecordedSessionView { rollout_path, ..record }),
                            None => None,
                        },
                        ..state
                    },
                    reply: SessionReplyView::Silent,
                },
            )
        },
        SessionCommand::ApplyParentUsageSnapshot { tokens } => Some(
            ActorStep {
                state: SessionActorStateView {
                    summary: SessionMetadataView { tokens, ..state.summary },
                    core: CoreStateView { tokens, ..state.core },
                    ..state
                },
                reply: SessionReplyView::Silent,
            },
        ),
        SessionCommand::UpdateSessionWorkspace { cwd, runtime_context } => {
            let cwd = cwd@;
            Some(
                ActorStep {
                    state: SessionActorStateView {
                        runtime_context,
                        core: CoreStateView { cwd, ..state.core },
                        summary: SessionMetadataView { cwd, ..state.summary },
                        ..state
                    },
                    reply: SessionReplyView::Silent,
                },
            )
        },
        SessionCommand::UpdateSessionMetadata {
            model,
            model_binding_id,
            reasoning_effort_selection,
            collaboration_mode,
        } => {
            let model = opt_view(model);
            let model_binding_id = opt_view(model_binding_id);
            let reasoning_effort_selection = opt_view(reasoning_effort_selection);
            let collaboration_mode = opt_view(collaboration_mode);
            Some(
                ActorStep {
                    state: with_metadata(
                        state,
                        model,
                        model_binding_id,
                        reasoning_effort_selection,
                        collaboration_mode,
                        at,
                    ),
                    reply: SessionReplyView::Summary(
                        with_metadata(
                            state,
                            model,
                            model_binding_id,
                            reasoning_effort_selection,
                            collaboration_mode,
                            at,
                        ).summary,
                    ),
                },
            )
        },
        SessionCommand::SetSessionTitleUserRename { title } => {
            let title = title@;
            Some(
                ActorStep {
                    state: retitled(
                        state,
                        title,
                        SessionTitleState::Final(SessionTitleFinalSource::UserRename),
                        at,
                    ),
                    reply: SessionReplyView::Summary(
                        retitled(
                            state,
                            title,
                            SessionTitleState::Final(SessionTitleFinalSource::UserRename),
                            at,
                        ).summary,
                    ),
                },
            )
        },
        SessionCommand::ReplaceState { state: replacement } => {
            let replacement = (*replacement)@;
            Some(ActorStep { state: replacement, reply: SessionReplyView::Done })
        },
        _ => None,
    }
}

/// What a command does, and what is answered. A command that asks for nothing else
/// stops the actor.
pub open spec fn actor_step(
    state: SessionActorStateView,
    command: SessionCommand,
    at: Timestamp,
) -> ActorStep {
    if let Some(step) = read_summary_step(state, command) {
        step
    } else if let Some(step) = read_work_step(state, command) {
        step
    } else if let Some(step) = turn_step(state, command, at) {
        step
    } else if let Some(step) = item_step(state, command, at) {
        step
    } else if let Some(step) = settings_step(state, command, at) {
        step
    } else if let Some(step) = metadata_step(state, command, at) {
        step
    } else {
        ActorStep { state, reply: SessionReplyView::Stopped }
    }
}

// ---------------------------------------------------------------------------
// The actor.
// ---------------------------------------------------------------------------
fn active_id(turn: &Option<TurnMetadata>) -> (result: Option<TurnId>)
    ensures
        result == id_of(opt_view(*turn)),
{
    match turn {
        Some(turn) => Some(turn.turn_id),
        None => None,
    }
}

fn clone_turn(turn: &Option<TurnMetadata>) -> (result: Option<TurnMetadata>)
    ensures
        opt_view(result) == opt_view(*turn),
{
    match turn {
        Some(turn) => Some(turn.clone()),
        None => None,
    }
}

fn clone_record(record: &Option<RecordedSession>) -> (result: Option<RecordedSession>)
    ensures
        opt_view(result) == opt_view(*record),
{
    match record {
        Some(record) => Some(record.clone()),
        None => None,
    }
}

fn clone_texts(texts: &Vec<String>) -> (result: Vec<String>)
    ensures
        views(result@) == views(texts@),
{
    let copy = texts.clone();
    assert(views(copy@) =~= views(texts@));
    copy
}

fn clone_queue(queue: &Vec<PendingInputItem>) -> (result: Vec<PendingInputItem>)
    ensures
        views(result@) == views(queue@),
{
    let copy = queue.clone();
    assert(views(copy@) =~= views(queue@));
    copy
}

fn shown(item: &PendingInputItem) -> (result: Option<String>)
    ensures
        opt_view(result) == shown_text(item@),
{
    match &item.kind {
        PendingInputKind::UserText { text } => Some(text.clone()),
        PendingInputKind::UserInput { display_text, .. } => Some(display_text.clone()),
        PendingInputKind::Other => None,
    }
}

fn shown_texts(queue: &Vec<PendingInputItem>) -> (result: Vec<String>)
    ensures
        views(result@) == pending_texts(views(queue@)),
        result@.len() <= queue@.len(),
{
    let ghost all = views(queue@);
    let mut texts: Vec<String> = Vec::new();
    let mut i: usize = 0;
    assert(views(texts@) =~= Seq::<Seq<char>>::empty());
    while i < queue.len()
        invariant
            i <= queue.len(),
            all == views(queue@),
            views(texts@) == pending_texts(all.take(i as int)),
            texts@.len() <= i,
        decreases queue.len() - i,
    {
        let ghost next = all.take(i + 1);
        let ghost before = views(texts@);
        assert(next.drop_last() =~= all.take(i as int));
        assert(next.last() == queue@[i as int]@);
        if let Some(text) = shown(&queue[i]) {
            let ghost added = text@;
            texts.push(text);
            assert(views(texts@) =~= before.push(added));
        }
        i = i + 1;
    }
    assert(all.take(i as int) =~= all);
    texts
}

fn set_window(config: &mut SessionConfig, limit: u64)
    ensures
        final(config)@ == windowed(old(config)@, limit),
{
    config.effective_context_window_override = Some(limit);
    config.context_window = limit;
    config.auto_compact_token_limit = Some(limit);
}

fn permit(config: &mut SessionConfig, profile: &RuntimePermissionProfile)
    ensures
        final(config)@ == permitted(old(config)@, profile@),
{
    config.permission_mode = profile.permission_mode.clone();
    config.permission_profile = profile.profile.clone();
    config.sandbox_profile = Some(profile.implied_sandbox_profile.clone());
}

fn apply_turn_config_to_session_summary(summary: &mut SessionMetadata, turn_config: &TurnConfig)
    ensures
        final(summary)@ == (SessionMetadataView {
            model: Some(turn_config@.model_slug),
            model_binding_id: turn_config@.model_binding_id,
            reasoning_effort_selection: turn_config@.reasoning_effort_selection,
            ..old(summary)@
        }),
{
    summary.model = Some(turn_config.model_slug.clone());
    summary.model_binding_id = turn_config.model_binding_id.clone();
    summary.reasoning_effort_selection = turn_config.reasoning_effort_selection.clone();
}

impl SessionActorState {
    /// Whether the session still has to be locked to a context when its next turn
    /// begins.
    pub fn needs_session_context(&self) -> (result: bool)
        ensures
            result == (self@.core.session_context is None),
    {
        self.core.session_context.is_none()
    }

    fn begin_turn(
        &mut self,
        turn: TurnMetadata,
        turn_config: &TurnConfig,
        captured_context: Option<String>,
        at: Timestamp,
    )
        ensures
            final(self)@ == with_active_turn(
                old(self)@,
                turn@,
                turn_config@,
                opt_view(captured_context),
                at,
            ),
    {
        apply_turn_config_to_session_summary(&mut self.summary, turn_config);
        if self.core.session_context.is_none() {
            self.core.session_context = captured_context;
        }
        self.summary.status = SessionRuntimeStatus::ActiveTurn;
        self.summary.updated_at = at;
        self.summary.last_activity_at = at;
        self.active_turn = Some(turn);
    }

    fn end_turn(&mut self, at: Timestamp)
        ensures
            final(self)@ == without_active_turn(old(self)@, at),
    {
        self.active_turn = None;
        self.summary.status = SessionRuntimeStatus::Idle;
        self.summary.updated_at = at;
        self.summary.last_activity_at = at;
    }

    fn interrupt(&mut self, at: Timestamp) -> (result: Option<TurnMetadata>)
        ensures
            final(self)@ == interrupted_session(old(self)@, at),
            opt_view(result) == match old(self)@.active_turn {
                Some(turn) => Some(interrupted(turn, at)),
                None => None,
            },
    {
        self.summary.tokens = self.core.tokens;
        let ended = match &self.active_turn {
            Some(turn) => {
                let mut turn = turn.clone();
                turn.status = LegacyTurnStatus::Interrupted;
                turn.completed_at = Some(at);
                Some(turn)
            },
            None => None,
        };
        self.end_turn(at);
        if ended.is_some() {
            self.latest_turn = clone_turn(&ended);
            self.core.last_turn_interrupted = true;
        }
        ended
    }

    fn retitle(&mut self, title: String, title_state: SessionTitleState, at: Timestamp)
        ensures
            final(self)@ == retitled(old(self)@, title@, title_state, at),
    {
        self.summary.title = Some(title.clone());
        self.summary.title_state = title_state;
        self.summary.updated_at = at;
        let mut record = clone_record(&self.record);
        if let Some(mut known) = record {
            known.title = Some(title);
            known.title_state = title_state;
            known.updated_at = at;
            self.record = Some(known);
        }
    }

    fn set_metadata(
        &mut self,
        model: Option<String>,
        model_binding_id: Option<String>,
        reasoning_effort_selection: Option<String>,
        collaboration_mode: Option<NamedChoice>,
        at: Timestamp,
    )
        ensures
            final(self)@ == with_metadata(
                old(self)@,
                opt_view(model),
                opt_view(model_binding_id),
                opt_view(reasoning_effort_selection),
                opt_view(collaboration_mode),
                at,
            ),
    {
        let mode_only_update = model.is_none() && model_binding_id.is_none()
            && reasoning_effort_selection.is_none() && collaboration_mode.is_some();
        if !mode_only_update {
            self.summary.model = model.clone();
            self.summary.model_binding_id = model_binding_id.clone();
            self.summary.reasoning_effort_selection = reasoning_effort_selection.clone();
        }
        self.summary.updated_at = at;
        if let Some(mode) = &collaboration_mode {
            self.core.collaboration_mode = mode.clone();
            self.summary.collaboration_mode = mode.clone();
        }
        let record = clone_record(&self.record);
        if let Some(mut known) = record {
            if !mode_only_update {
                known.model = model;
                known.model_binding_id = model_binding_id;
                known.reasoning_effort_selection = reasoning_effort_selection;
            }
            if let Some(mode) = collaboration_mode {
                known.collaboration_mode = Some(mode);
            }
            known.updated_at = at;
            self.record = Some(known);
        }
    }

    fn set_memory_settings(
        &mut self,
        recall: Option<MemorySetting>,
        contribution: Option<MemorySetting>,
        at: Timestamp,
    )
        ensures
            final(self)@ == with_memory_settings(old(self)@, recall, contribution, at),
    {
        let changed = self.memory.apply(recall, contribution);
        if changed {
            self.summary.updated_at = at;
            let record = clone_record(&self.record);
            if let Some(mut known) = record {
                known.updated_at = at;
                self.record = Some(known);
            }
        }
    }

    fn set_permission_profile(&mut self, profile: &RuntimePermissionProfile, at: Timestamp)
        ensures
            final(self)@ == with_permission_profile(old(self)@, profile@, at),
    {
        permit(&mut self.core.config, profile);
        permit(&mut self.config, profile);
        self.session_approvals = Vec::new();
        self.turn_approvals = Vec::new();
        assert(views(self.session_approvals@) =~= Seq::<Seq<char>>::empty());
        assert(views(self.turn_approvals@) =~= Seq::<Seq<char>>::empty());
        self.summary.permission_preset = Some(profile.preset.clone());
        self.summary.updated_at = at;
        let record = clone_record(&self.record);
        if let Some(mut known) = record {
            known.permission_preset = Some(profile.preset.clone());
            known.updated_at = at;
            self.record = Some(known);
        }
    }

    fn pop_input(&mut self) -> (result: Option<QueuedTurnInputData>)
        requires
            old(self)@.pending_turn_queue.len() > 0,
        ensures
            final(self)@ == (SessionActorStateView {
                pending_turn_queue: old(self)@.pending_turn_queue.skip(1),
                ..old(self)@
            }),
            opt_view(result) == queued_input(old(self)@.pending_turn_queue[0]),
    {
        let ghost before = self@.pending_turn_queue;
        assert(before[0] == self.pending_turn_queue@[0]@);
        let item = self.pending_turn_queue.remove(0);
        assert(views(self.pending_turn_queue@) =~= before.skip(1));
        pop_queued_turn_input_data(item)
    }

    fn turn_kind(&self, turn_id: TurnId) -> (result: LegacyTurnKind)
        ensures
            result@ == kind_of_turn(self@, turn_id),
    {
        if let Some(turn) = &self.active_turn {
            if turn.turn_id == turn_id {
                return turn.kind.clone();
            }
        }
        if let Some(turn) = &self.latest_turn {
            if turn.turn_id == turn_id {
                return turn.kind.clone();
            }
        }
        LegacyTurnKind::Regular
    }

    fn push_input(&mut self, item: PendingInputItem)
        ensures
            final(self)@ == (SessionActorStateView {
                pending_turn_queue: old(self)@.pending_turn_queue.push(item@),
                ..old(self)@
            }),
    {
        let ghost before = self@.pending_turn_queue;
        let ghost added = item@;
        self.pending_turn_queue.push(item);
        assert(views(self.pending_turn_queue@) =~= before.push(added));
    }

    fn push_persisted(&mut self, item: String)
        ensures
            final(self)@ == (SessionActorStateView {
                persisted_turn_items: old(self)@.persisted_turn_items.push(item@),
                ..old(self)@
            }),
    {
        let ghost before = self@.persisted_turn_items;
        let ghost added = item@;
        self.persisted_turn_items.push(item);
        assert(views(self.persisted_turn_items@) =~= before.push(added));
    }

    fn push_history(&mut self, item: String)
        ensures
            final(self)@ == (SessionActorStateView {
                history_items: old(self)@.history_items.push(item@),
                ..old(self)@
            }),
    {
        let ghost before = self@.history_items;
        let ghost added = item@;
        self.history_items.push(item);
        assert(views(self.history_items@) =~= before.push(added));
    }

    fn set_rollout_path(&mut self, rollout_path: String)
        ensures
            final(self)@ == (SessionActorStateView {
                record: match old(self)@.record {
                    Some(record) => Some(
                        RecordedSessionView { rollout_path: rollout_path@, ..record },
                    ),
                    None => None,
                },
                ..old(self)@
            }),
    {
        let record = clone_record(&self.record);
        if let Some(mut known) = record {
            known.rollout_path = rollout_path;
            self.record = Some(known);
        }
    }

    fn read_summary(&self, command: &SessionCommand) -> (result: Option<SessionReply>)
        ensures
            match result {
                Some(reply) => read_summary_step(self@, *command) == Some(
                    ActorStep { state: self@, reply: reply@ },
                ),
                None => read_summary_step(self@, *command) is None,
            },
    {
        let reply = match command {
            SessionCommand::GetSummary => SessionReply::Summary(self.summary.clone()),
            SessionCommand::GetMemorySettings => SessionReply::MemorySettings(self.memory),
            SessionCommand::GetSpawnSnapshot => SessionReply::State(Box::new(self.clone())),
            SessionCommand::GetApprovalCacheSnapshot => SessionReply::Approvals {
                session_approvals: clone_texts(&self.session_approvals),
                turn_approvals: clone_texts(&self.turn_approvals),
            },
            SessionCommand::GetCollaborationMode => SessionReply::CollaborationMode(
                self.core.collaboration_mode.clone(),
            ),
            SessionCommand::GetParentSessionId => SessionReply::ParentSession(
                self.summary.parent_session_id,
            ),
            SessionCommand::GetTurnReservationSnapshot => SessionReply::TurnReservation {
                max_turns: self.max_turns,
                active_turn: clone_turn(&self.active_turn),
                latest_turn: clone_turn(&self.latest_turn),
                ephemeral: self.summary.ephemeral,
                parent_session_id: self.summary.parent_session_id,
                summary: self.summary.clone(),
                runtime_context: self.runtime_context,
                pending_turn_queue: clone_queue(&self.pending_turn_queue),
            },
            SessionCommand::GetHookContextSnapshot => SessionReply::HookContext {
                runtime_context: self.runtime_context,
                record: clone_record(&self.record),
                summary: self.summary.clone(),
                config: self.config.clone(),
            },
            SessionCommand::GetTurnPersistenceSnapshot => SessionReply::Record(
                clone_record(&self.record),
            ),
            _ => return None,
        };
        Some(reply)
    }

    fn read_work(&self, command: &SessionCommand) -> (result: Option<SessionReply>)
        ensures
            match result {
                Some(reply) => read_work_step(self@, *command) == Some(
                    ActorStep { state: self@, reply: reply@ },
                ),
                None => read_work_step(self@, *command) is None,
            },
    {
        let reply = match command {
            SessionCommand::GetShellExecContext => SessionReply::ShellExecContext(
                self.core.config.sandbox_profile.clone(),
            ),
            SessionCommand::GetTitleGenerationContext => SessionReply::TitleGenerationContext {
                model: self.summary.model.clone(),
                model_binding_id: self.summary.model_binding_id.clone(),
                reasoning_effort_selection: self.summary.reasoning_effort_selection.clone(),
                title_state: self.summary.title_state,
                runtime_context: self.runtime_context,
            },
            SessionCommand::GetPendingQueueSnapshot => {
                let texts = shown_texts(&self.pending_turn_queue);
                SessionReply::PendingCount(texts.len() as u64)
            },
            SessionCommand::GetActiveTurnId => SessionReply::ActiveTurnId(
                active_id(&self.active_turn),
            ),
            SessionCommand::GetRecord => SessionReply::Record(clone_record(&self.record)),
            SessionCommand::PreparePersistItem { turn_id } => SessionReply::PersistItem {
                turn_kind: self.turn_kind(*turn_id),
                record: clone_record(&self.record),
            },
            SessionCommand::TakeShutdownDeferredSnapshot => SessionReply::ShutdownDeferred {
                deferred_assistant: self.deferred_assistant.clone(),
                deferred_reasoning: self.deferred_reasoning.clone(),
                active_turn_id: active_id(&self.active_turn),
                record: clone_record(&self.record),
            },
            SessionCommand::ExportRuntimeSession => SessionReply::State(Box::new(self.clone())),
            SessionCommand::GetRuntimeContext => SessionReply::RuntimeContext(self.runtime_context),
            SessionCommand::GetResumeSnapshot => SessionReply::Resume {
                summary: self.summary.clone(),
                latest_turn: clone_turn(&self.latest_turn),
                loaded_item_count: self.loaded_item_count,
                history_items: clone_texts(&self.history_items),
                pending_texts: shown_texts(&self.pending_turn_queue),
            },
            _ => return None,
        };
        Some(reply)
    }

    fn handle_turn(&mut self, command: SessionCommand, at: Timestamp) -> (result: Result<
        SessionReply,
        SessionCommand,
    >)
        ensures
            match result {
                Ok(reply) => turn_step(old(self)@, command, at) == Some(
                    ActorStep { state: final(self)@, reply: reply@ },
                ),
                Err(other) => {
                    &&& turn_step(old(self)@, command, at) is None
                    &&& other == command
                    &&& final(self)@ == old(self)@
                },
            },
    {
        let reply = match command {
            SessionCommand::BeginActiveTurn { turn, turn_config, captured_context } => {
                self.begin_turn(turn, &turn_config, captured_context, at);
                SessionReply::Silent
            },
            SessionCommand::ClearActiveTurnIfMatches { turn_id } => {
                let cleared = match &self.active_turn {
                    Some(turn) => turn.turn_id == turn_id,
                    None => false,
                };
                if cleared {
                    self.end_turn(at);
                }
                SessionReply::Decided(cleared)
            },
            SessionCommand::SetSessionIdle { latest_turn } => {
                if latest_turn.is_some() {
                    self.latest_turn = latest_turn;
                }
                self.end_turn(at);
                SessionReply::Silent
            },
            SessionCommand::ActivateQueuedTurn { turn, turn_config, captured_context } => {
                self.begin_turn(turn, &turn_config, captured_context, at);
                SessionReply::Silent
            },
            SessionCommand::InterruptActiveTurn => SessionReply::Interrupted(self.interrupt(at)),
            SessionCommand::TryBeginActiveTurn { turn, turn_config, captured_context } => {
                if self.active_turn.is_some() || self.pending_turn_queue.len() > 0 {
                    SessionReply::Decided(false)
                } else {
                    self.begin_turn(turn, &turn_config, captured_context, at);
                    SessionReply::Decided(true)
                }
            },
            SessionCommand::PersistTurnLine { turn } => match &self.record {
                Some(record) => SessionReply::AppendTurn {
                    record: record.clone(),
                    turn,
                    latest_turn_context: self.core.latest_turn_context.clone(),
                    session_context: self.core.session_context.clone(),
                    session_context_recorded: self.session_context_recorded,
                },
                None => SessionReply::NoRecord,
            },
            SessionCommand::TurnLineAppended { session_context_recorded } => {
                self.session_context_recorded = session_context_recorded;
                SessionReply::Silent
            },
            other => return Err(other),
        };
        Ok(reply)
    }

    fn handle_item(&mut self, command: SessionCommand, at: Timestamp) -> (result: Result<
        SessionReply,
        SessionCommand,
    >)
        ensures
            match result {
                Ok(reply) => item_step(old(self)@, command, at) == Some(
                    ActorStep { state: final(self)@, reply: reply@ },
                ),
                Err(other) => {
                    &&& item_step(old(self)@, command, at) is None
                    &&& other == command
                    &&& final(self)@ == old(self)@
                },
            },
    {
        let reply = match command {
            SessionCommand::PopQueuedTurnInput { require_idle_session } => {
                if require_idle_session && self.active_turn.is_some()
                    || self.pending_turn_queue.len() == 0 {
                    SessionReply::QueuedInput(None)
                } else {
                    SessionReply::QueuedInput(self.pop_input())
                }
            },
            SessionCommand::EnqueuePendingTurnInput { item } => {
                self.push_input(item);
                SessionReply::Silent
            },
            SessionCommand::AllocateItemSeq => {
                let item_seq = self.next_item_seq;
                self.next_item_seq = self.next_item_seq.saturating_add(1);
                self.loaded_item_count = self.loaded_item_count.saturating_add(1);
                SessionReply::ItemSeq(item_seq)
            },
            SessionCommand::AppendPersistedItem { item } => {
                self.push_persisted(item);
                SessionReply::Silent
            },
            SessionCommand::AppendHistoryItem { item } => {
                self.push_history(item);
                SessionReply::Silent
            },
            SessionCommand::TakeDeferredItems => {
                let deferred_assistant = self.deferred_assistant.clone();
                let deferred_reasoning = self.deferred_reasoning.clone();
                self.deferred_assistant = None;
                self.deferred_reasoning = None;
                SessionReply::DeferredItems { deferred_assistant, deferred_reasoning }
            },
            SessionCommand::TouchLastActivity => {
                if self.summary.last_activity_at.is_before(&at) {
                    self.summary.last_activity_at = at;
                }
                SessionReply::Silent
            },
            SessionCommand::SetFirstUserInputIfUnset { text } => {
                if self.first_user_input.is_none() {
                    self.first_user_input = Some(text);
                }
                SessionReply::FirstUserInput(self.first_user_input.clone())
            },
            other => return Err(other),
        };
        Ok(reply)
    }

    fn handle_settings(&mut self, command: SessionCommand, at: Timestamp) -> (result: Result<
        SessionReply,
        SessionCommand,
    >)
        ensures
            match result {
                Ok(reply) => settings_step(old(self)@, command, at) == Some(
                    ActorStep { state: final(self)@, reply: reply@ },
                ),
                Err(other) => {
                    &&& settings_step(old(self)@, command, at) is None
                    &&& other == command
                    &&& final(self)@ == old(self)@
                },
            },
    {
        let reply = match command {
            SessionCommand::ApplyApprovalScope {
                session_approvals,
                turn_approvals,
                core_profile,
                profile,
            } => {
                self.session_approvals = session_approvals;
                self.turn_approvals = turn_approvals;
                self.core.config.permission_profile = core_profile;
                self.config.permission_profile = profile;
                SessionReply::Silent
            },
            SessionCommand::UpdateCorePermissionMode { permission_mode } => {
                self.core.config.permission_mode = permission_mode.clone();
                self.config.permission_mode = permission_mode;
                SessionReply::Silent
            },
            SessionCommand::SetActiveGoal { goal } => {
                self.core.active_goal = goal;
                SessionReply::Silent
            },
            SessionCommand::UpdateMemorySettings { recall, contribution } => {
                self.set_memory_settings(recall, contribution, at);
                SessionReply::MemorySettings(self.memory)
            },
            SessionCommand::ApplyPermissionProfile { profile } => {
                self.set_permission_profile(&profile, at);
                SessionReply::Done
            },
            SessionCommand::ApplyEffectiveContextWindow { limit } => {
                set_window(&mut self.core.config, limit);
                set_window(&mut self.config, limit);
                self.summary.effective_context_window = Some(limit);
                SessionReply::Done
            },
            SessionCommand::ApplySandboxProfile { normalized } => match normalized {
                NormalizedSandboxProfile::Known(name) => {
                    self.core.config.sandbox_profile = Some(name.clone());
                    self.config.sandbox_profile = Some(name.clone());
                    SessionReply::SandboxProfile(name)
                },
                NormalizedSandboxProfile::Unknown(reason) => {
                    SessionReply::SandboxProfileRefused(reason)
                },
            },
            SessionCommand::SetToolRegistry { tool_registry } => {
                self.tool_registry = tool_registry;
                SessionReply::Done
            },
            other => return Err(other),
        };
        Ok(reply)
    }

    fn handle_metadata(&mut self, command: SessionCommand, at: Timestamp) -> (result: Result<
        SessionReply,
        SessionCommand,
    >)
        ensures
            match result {
                Ok(reply) => metadata_step(old(self)@, command, at) == Some(
                    ActorStep { state: final(self)@, reply: reply@ },
                ),
                Err(other) => {
                    &&& metadata_step(old(self)@, command, at) is None
                    &&& other == command
                    &&& final(self)@ == old(self)@
                },
            },
    {
        let reply = match command {
            SessionCommand::UpdateSummary { summary } => {
                self.summary = summary;
                SessionReply::Silent
            },
            SessionCommand::UpdateTitle { title, title_state } => {
                if let SessionTitleState::Final(_) = self.summary.title_state {
                    SessionReply::Retitled(None)
                } else {
                    self.retitle(title, title_state, at);
                    SessionReply::Retitled(Some(self.summary.clone()))
                }
            },
            SessionCommand::UpdateRecordRolloutPath { rollout_path } => {
                self.set_rollout_path(rollout_path);
                SessionReply::Silent
            },
            SessionCommand::ApplyParentUsageSnapshot { tokens } => {
                self.summary.tokens = tokens;
                self.core.tokens = tokens;
                SessionReply::Silent
            },
            SessionCommand::UpdateSessionWorkspace { cwd, runtime_context } => {
                self.runtime_context = runtime_context;
                self.core.cwd = cwd.clone();
                self.summary.cwd = cwd;
                SessionReply::Silent
            },
            SessionCommand::UpdateSessionMetadata {
                model,
                model_binding_id,
                reasoning_effort_selection,
                collaboration_mode,
            } => {
                self.set_metadata(
                    model,
                    model_binding_id,
                    reasoning_effort_selection,
                    collaboration_mode,
                    at,
                );
                SessionReply::Summary(self.summary.clone())
            },
            SessionCommand::SetSessionTitleUserRename { title } => {
                self.retitle(
                    title,
                    SessionTitleState::Final(SessionTitleFinalSource::UserRename),
                    at,
                );
                SessionReply::Summary(self.summary.clone())
            },
            SessionCommand::ReplaceState { state } => {
                *self = *state;
                SessionReply::Done
            },
            other => return Err(other),
        };
        Ok(reply)
    }

    /// Handles a command at an instant.
    pub fn handle_at(&mut self, command: SessionCommand, at: Timestamp) -> (result: SessionReply)
        ensures
            (ActorStep { state: final(self)@, reply: result@ }) == actor_step(
                old(self)@,
                command,
                at,
            ),
    {
        if let Some(reply) = self.read_summary(&command) {
            return reply;
        }
        if let Some(reply) = self.read_work(&command) {
            return reply;
        }
        let command = match self.handle_turn(command, at) {
            Ok(reply) => return reply,
            Err(command) => command,
        };
        let command = match self.handle_item(command, at) {
            Ok(reply) => return reply,
            Err(command) => command,
        };
        let command = match self.handle_settings(command, at) {
            Ok(reply) => return reply,
            Err(command) => command,
        };
        match self.handle_metadata(command, at) {
            Ok(reply) => reply,
            Err(_) => SessionReply::Stopped,
        }
    }

    /// Handles a command now.
    pub fn handle(&mut self, command: SessionCommand) -> (result: SessionReply)
        ensures
            exists|at: Timestamp|
                at.is_told_by_clock() && (ActorStep { state: final(self)@, reply: result@ }) == #[trigger] actor_step(
                    old(self)@,
                    command,
                    at,
                ),
    {
        let at = now();
        self.handle_at(command, at)
    }
}

} // verus!
