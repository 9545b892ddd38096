//! Sessions, turns and usage of the native protocol.
//!
//! The state of a session has three independent dimensions: its status, which
//! follows the active turn; flags, which tell why it waits; and whether the user
//! archived it.

use vstd::prelude::*;

use crate::config::MemorySetting;
use crate::ids::{SessionId, TurnId};
use crate::text::{opt_view, views};
use crate::time::Timestamp;

verus! {

/// Whether a session has an active turn.
#[derive(Debug, Clone, Copy, PartialEq, Eq, Structural)]
pub enum SessionStatus {
    Idle,
    Active,
}

/// Why a session waits. Flags stack on top of the status.
#[derive(Debug, Clone, Copy, PartialEq, Eq, Structural, PartialOrd, Ord)]
pub enum SessionFlag {
    /// A pending approval request.
    WaitingApproval,
    /// An unanswered structured question.
    WaitingUserInput,
    /// Compaction in progress.
    Compacting,
    /// Goal-internal orchestration in progress.
    UpdatingGoal,
}

/// What a session may do without asking.
#[derive(Debug, Clone, Copy, PartialEq, Eq, Structural)]
pub enum PermissionProfile {
    Default,
    AutoReview,
    FullAccess,
}

/// Token and call counts.
#[derive(Debug, Clone, Copy, PartialEq, Eq, Structural, Default)]
pub struct UsageTotals {
    pub total_tokens: u64,
    pub input_tokens: u64,
    pub output_tokens: u64,
    pub reasoning_tokens: u64,
    pub cache_read_input_tokens: u64,
    pub cache_creation_input_tokens: u64,
    pub call_count: u64,
    pub metered_call_count: u64,
}

/// No usage at all.
pub open spec fn no_usage() -> UsageTotals {
    UsageTotals {
        total_tokens: 0,
        input_tokens: 0,
        output_tokens: 0,
        reasoning_tokens: 0,
        cache_read_input_tokens: 0,
        cache_creation_input_tokens: 0,
        call_count: 0,
        metered_call_count: 0,
    }
}

impl UsageTotals {
    /// No usage at all.
    pub fn none() -> (result: Self)
        ensures
            result == no_usage(),
    {
        UsageTotals {
            total_tokens: 0,
            input_tokens: 0,
            output_tokens: 0,
            reasoning_tokens: 0,
            cache_read_input_tokens: 0,
            cache_creation_input_tokens: 0,
            call_count: 0,
            metered_call_count: 0,
        }
    }
}

/// A choice that older records made by name.
#[derive(Debug, PartialEq, Eq)]
pub enum NamedChoice {
    /// None was recorded.
    Default,
    Named(String),
}

/// The view of [`NamedChoice`].
pub enum NamedChoiceView {
    Default,
    Named(Seq<char>),
}

impl View for NamedChoice {
    type V = NamedChoiceView;

    open spec fn view(&self) -> NamedChoiceView {
        match self {
            NamedChoice::Default => NamedChoiceView::Default,
            NamedChoice::Named(name) => NamedChoiceView::Named(name@),
        }
    }
}

impl Clone for NamedChoice {
    fn clone(&self) -> (result: Self)
        ensures
            result@ == self@,
    {
        match self {
            NamedChoice::Default => NamedChoice::Default,
            NamedChoice::Named(name) => NamedChoice::Named(name.clone()),
        }
    }
}

/// Usage for one purpose.
#[derive(Debug, PartialEq, Eq)]
pub struct PurposeUsage {
    pub purpose: String,
    pub totals: UsageTotals,
}

/// The view of [`PurposeUsage`].
#[verifier::ext_equal]
pub struct PurposeUsageView {
    pub purpose: Seq<char>,
    pub totals: UsageTotals,
}

impl View for PurposeUsage {
    type V = PurposeUsageView;

    open spec fn view(&self) -> PurposeUsageView {
        PurposeUsageView {
            purpose: self.purpose@,
            totals: self.totals,
        }
    }
}

impl Clone for PurposeUsage {
    fn clone(&self) -> (result: Self)
        ensures
            result@ == self@,
    {
        let result = PurposeUsage {
            purpose: self.purpose.clone(),
            totals: self.totals,
        };
        result
    }
}

/// Aggregate usage of a session.
#[derive(Debug, PartialEq, Eq)]
pub struct SessionUsage {
    pub total: UsageTotals,
    pub by_purpose: Vec<PurposeUsage>,
    /// What an older record held as one lump.
    pub legacy: Option<UsageTotals>,
    pub updated_at: Timestamp,
}

/// The view of [`SessionUsage`].
#[verifier::ext_equal]
pub struct SessionUsageView {
    pub total: UsageTotals,
    pub by_purpose: Seq<PurposeUsageView>,
    pub legacy: Option<UsageTotals>,
    pub updated_at: Timestamp,
}

impl View for SessionUsage {
    type V = SessionUsageView;

    open spec fn view(&self) -> SessionUsageView {
        SessionUsageView {
            total: self.total,
            by_purpose: views(self.by_purpose@),
            legacy: self.legacy,
            updated_at: self.updated_at,
        }
    }
}

impl Clone for SessionUsage {
    fn clone(&self) -> (result: Self)
        ensures
            result@ == self@,
    {
        let result = SessionUsage {
            total: self.total,
            by_purpose: self.by_purpose.clone(),
            legacy: self.legacy,
            updated_at: self.updated_at,
        };
        assert(views(result.by_purpose@) =~= views(self.by_purpose@));
        result
    }
}

/// A model and how it is asked.
#[derive(Debug, PartialEq, Eq)]
pub struct ModelBinding {
    pub provider: String,
    pub model: String,
    pub reasoning_effort: Option<String>,
}

/// The view of [`ModelBinding`].
#[verifier::ext_equal]
pub struct ModelBindingView {
    pub provider: Seq<char>,
    pub model: Seq<char>,
    pub reasoning_effort: Option<Seq<char>>,
}

impl View for ModelBinding {
    type V = ModelBindingView;

    open spec fn view(&self) -> ModelBindingView {
        ModelBindingView {
            provider: self.provider@,
            model: self.model@,
            reasoning_effort: opt_view(self.reasoning_effort),
        }
    }
}

impl Clone for ModelBinding {
    fn clone(&self) -> (result: Self)
        ensures
            result@ == self@,
    {
        let result = ModelBinding {
            provider: self.provider.clone(),
            model: self.model.clone(),
            reasoning_effort: self.reasoning_effort.clone(),
        };
        result
    }
}

/// Where a session comes from: a parallel history, or an executor that was spawned.
#[derive(Debug, PartialEq, Eq)]
#[allow(inconsistent_fields)]
pub enum SessionParent {
    Fork { session_id: SessionId, at_turn_id: Option<TurnId> },
    Agent { session_id: SessionId, role: Option<String> },
}

/// The view of [`SessionParent`].
#[verifier::ext_equal]
#[allow(inconsistent_fields)]
pub enum SessionParentView {
    Fork { session_id: Seq<char>, at_turn_id: Option<Seq<char>> },
    Agent { session_id: Seq<char>, role: Option<Seq<char>> },
}

impl View for SessionParent {
    type V = SessionParentView;

    open spec fn view(&self) -> SessionParentView {
        match self {
            SessionParent::Fork { session_id, at_turn_id } => SessionParentView::Fork {
                session_id: session_id@,
                at_turn_id: opt_view(*at_turn_id),
            },
            SessionParent::Agent { session_id, role } => SessionParentView::Agent {
                session_id: session_id@,
                role: opt_view(*role),
            },
        }
    }
}

impl Clone for SessionParent {
    fn clone(&self) -> (result: Self)
        ensures
            result@ == self@,
    {
        match self {
            SessionParent::Fork { session_id, at_turn_id } => {
                SessionParent::Fork {
                    session_id: session_id.clone(),
                    at_turn_id: at_turn_id.clone(),
                }
            },
            SessionParent::Agent { session_id, role } => {
                SessionParent::Agent {
                    session_id: session_id.clone(),
                    role: role.clone(),
                }
            },
        }
    }
}

/// Settings of a session that can change.
#[derive(Debug, PartialEq, Eq)]
pub struct SessionSettings {
    pub permission_profile: PermissionProfile,
    pub reasoning_effort: Option<String>,
    /// ACP-style session mode, if one is active.
    pub mode: Option<String>,
    /// Active sandbox profile, needed to restore the sandbox.
    pub sandbox_profile: Option<String>,
    /// Context window that the session asks for, in tokens.
    pub effective_context_window: Option<u64>,
    pub memory_recall: MemorySetting,
    pub memory_contribution: MemorySetting,
}

/// The view of [`SessionSettings`].
#[verifier::ext_equal]
pub struct SessionSettingsView {
    pub permission_profile: PermissionProfile,
    pub reasoning_effort: Option<Seq<char>>,
    pub mode: Option<Seq<char>>,
    pub sandbox_profile: Option<Seq<char>>,
    pub effective_context_window: Option<u64>,
    pub memory_recall: MemorySetting,
    pub memory_contribution: MemorySetting,
}

impl View for SessionSettings {
    type V = SessionSettingsView;

    open spec fn view(&self) -> SessionSettingsView {
        SessionSettingsView {
            permission_profile: self.permission_profile,
            reasoning_effort: opt_view(self.reasoning_effort),
            mode: opt_view(self.mode),
            sandbox_profile: opt_view(self.sandbox_profile),
            effective_context_window: self.effective_context_window,
            memory_recall: self.memory_recall,
            memory_contribution: self.memory_contribution,
        }
    }
}

impl Clone for SessionSettings {
    fn clone(&self) -> (result: Self)
        ensures
            result@ == self@,
    {
        let result = SessionSettings {
            permission_profile: self.permission_profile,
            reasoning_effort: self.reasoning_effort.clone(),
            mode: self.mode.clone(),
            sandbox_profile: self.sandbox_profile.clone(),
            effective_context_window: self.effective_context_window,
            memory_recall: self.memory_recall,
            memory_contribution: self.memory_contribution,
        };
        result
    }
}

/// What was seen of a repository at some instant.
#[derive(Debug, PartialEq, Eq)]
pub struct GitInfo {
    pub sha: Option<String>,
    pub branch: Option<String>,
    pub origin_url: Option<String>,
    /// `None` if it is not known.
    pub dirty: Option<bool>,
    pub observed_at: Timestamp,
}

/// The view of [`GitInfo`].
#[verifier::ext_equal]
pub struct GitInfoView {
    pub sha: Option<Seq<char>>,
    pub branch: Option<Seq<char>>,
    pub origin_url: Option<Seq<char>>,
    pub dirty: Option<bool>,
    pub observed_at: Timestamp,
}

impl View for GitInfo {
    type V = GitInfoView;

    open spec fn view(&self) -> GitInfoView {
        GitInfoView {
            sha: opt_view(self.sha),
            branch: opt_view(self.branch),
            origin_url: opt_view(self.origin_url),
            dirty: self.dirty,
            observed_at: self.observed_at,
        }
    }
}

impl Clone for GitInfo {
    fn clone(&self) -> (result: Self)
        ensures
            result@ == self@,
    {
        let result = GitInfo {
            sha: self.sha.clone(),
            branch: self.branch.clone(),
            origin_url: self.origin_url.clone(),
            dirty: self.dirty,
            observed_at: self.observed_at,
        };
        result
    }
}

/// A session.
#[derive(Debug, PartialEq, Eq)]
pub struct Session {
    pub id: SessionId,
    /// Token for optimistic concurrency.
    pub version: u64,
    /// Execution scope: a normalized absolute path.
    pub cwd: String,
    pub additional_directories: Vec<String>,
    pub parent: Option<SessionParent>,
    pub ephemeral: bool,
    pub created_at: Timestamp,
    pub status: SessionStatus,
    pub flags: Vec<SessionFlag>,
    pub archived: bool,
    pub active_turn_id: Option<TurnId>,
    pub queued_count: u32,
    pub title: Option<String>,
    pub model: ModelBinding,
    pub settings: SessionSettings,
    pub git_info: Option<GitInfo>,
    pub preview: String,
    pub last_activity_at: Timestamp,
    pub transcript_size_bytes: Option<u64>,
    pub usage: SessionUsage,
}

/// The view of [`Session`].
#[verifier::ext_equal]
pub struct SessionView {
    pub id: Seq<char>,
    pub version: u64,
    pub cwd: Seq<char>,
    pub additional_directories: Seq<Seq<char>>,
    pub parent: Option<SessionParentView>,
    pub ephemeral: bool,
    pub created_at: Timestamp,
    pub status: SessionStatus,
    pub flags: Seq<SessionFlag>,
    pub archived: bool,
    pub active_turn_id: Option<Seq<char>>,
    pub queued_count: u32,
    pub title: Option<Seq<char>>,
    pub model: ModelBindingView,
    pub settings: SessionSettingsView,
    pub git_info: Option<GitInfoView>,
    pub preview: Seq<char>,
    pub last_activity_at: Timestamp,
    pub transcript_size_bytes: Option<u64>,
    pub usage: SessionUsageView,
}

impl View for Session {
    type V = SessionView;

    open spec fn view(&self) -> SessionView {
        SessionView {
            id: self.id@,
            version: self.version,
            cwd: self.cwd@,
            additional_directories: views(self.additional_directories@),
            parent: opt_view(self.parent),
            ephemeral: self.ephemeral,
            created_at: self.created_at,
            status: self.status,
            flags: self.flags@,
            archived: self.archived,
            active_turn_id: opt_view(self.active_turn_id),
            queued_count: self.queued_count,
            title: opt_view(self.title),
            model: self.model@,
            settings: self.settings@,
            git_info: opt_view(self.git_info),
            preview: self.preview@,
            last_activity_at: self.last_activity_at,
            transcript_size_bytes: self.transcript_size_bytes,
            usage: self.usage@,
        }
    }
}

impl Clone for Session {
    fn clone(&self) -> (result: Self)
        ensures
            result@ == self@,
    {
        let result = Session {
            id: self.id.clone(),
            version: self.version,
            cwd: self.cwd.clone(),
            additional_directories: self.additional_directories.clone(),
            parent: self.parent.clone(),
            ephemeral: self.ephemeral,
            created_at: self.created_at,
            status: self.status,
            flags: self.flags.clone(),
            archived: self.archived,
            active_turn_id: self.active_turn_id.clone(),
            queued_count: self.queued_count,
            title: self.title.clone(),
            model: self.model.clone(),
            settings: self.settings.clone(),
            git_info: self.git_info.clone(),
            preview: self.preview.clone(),
            last_activity_at: self.last_activity_at,
            transcript_size_bytes: self.transcript_size_bytes,
            usage: self.usage.clone(),
        };
        assert(views(result.additional_directories@) =~= views(self.additional_directories@));
        assert(result.flags@ =~= self.flags@);
        result
    }
}

/// The place of a flag in the order in which flags are written.
pub open spec fn flag_rank(flag: SessionFlag) -> int {
    match flag {
        SessionFlag::WaitingApproval => 0,
        SessionFlag::WaitingUserInput => 1,
        SessionFlag::Compacting => 2,
        SessionFlag::UpdatingGoal => 3,
    }
}

impl SessionView {
    /// Whether a session snapshot is consistent: active exactly while it has an
    /// active turn, and no flag twice or out of order.
    pub open spec fn is_consistent(self) -> bool {
        &&& self.status == SessionStatus::Active <==> self.active_turn_id is Some
        &&& forall|i: int, j: int|
            0 <= i < j < self.flags.len() ==> flag_rank(#[trigger] self.flags[i]) < flag_rank(
                #[trigger] self.flags[j],
            )
    }
}

/// What a turn is for.
#[derive(Debug, Clone, Copy, PartialEq, Eq, Structural)]
pub enum TurnKind {
    Regular,
    Compaction,
}

/// How far a turn is.
#[derive(Debug, Clone, Copy, PartialEq, Eq, Structural)]
pub enum TurnStatus {
    InProgress,
    Completed,
    Interrupted,
    Failed,
}

/// Usage of a turn.
#[derive(Debug, Clone, Copy, PartialEq, Eq, Structural)]
pub struct TurnUsage {
    pub query: UsageTotals,
    pub overhead: UsageTotals,
}

/// Why a turn failed.
#[derive(Debug, PartialEq, Eq)]
pub struct AgentError {
    pub code: String,
    pub message: String,
    pub recovery_hint: Option<String>,
}

/// The view of [`AgentError`].
#[verifier::ext_equal]
pub struct AgentErrorView {
    pub code: Seq<char>,
    pub message: Seq<char>,
    pub recovery_hint: Option<Seq<char>>,
}

impl View for AgentError {
    type V = AgentErrorView;

    open spec fn view(&self) -> AgentErrorView {
        AgentErrorView {
            code: self.code@,
            message: self.message@,
            recovery_hint: opt_view(self.recovery_hint),
        }
    }
}

impl Clone for AgentError {
    fn clone(&self) -> (result: Self)
        ensures
            result@ == self@,
    {
        let result = AgentError {
            code: self.code.clone(),
            message: self.message.clone(),
            recovery_hint: self.recovery_hint.clone(),
        };
        result
    }
}

/// A turn of a session.
#[derive(Debug, PartialEq, Eq)]
pub struct Turn {
    pub id: TurnId,
    pub session_id: SessionId,
    pub sequence: u32,
    pub kind: TurnKind,
    pub status: TurnStatus,
    pub model: ModelBinding,
    pub collaboration_mode: Option<NamedChoice>,
    pub started_at: Timestamp,
    pub completed_at: Option<Timestamp>,
    pub error: Option<AgentError>,
    pub usage: Option<TurnUsage>,
}

/// The view of [`Turn`].
#[verifier::ext_equal]
pub struct TurnView {
    pub id: Seq<char>,
    pub session_id: Seq<char>,
    pub sequence: u32,
    pub kind: TurnKind,
    pub status: TurnStatus,
    pub model: ModelBindingView,
    pub collaboration_mode: Option<NamedChoiceView>,
    pub started_at: Timestamp,
    pub completed_at: Option<Timestamp>,
    pub error: Option<AgentErrorView>,
    pub usage: Option<TurnUsage>,
}

impl View for Turn {
    type V = TurnView;

    open spec fn view(&self) -> TurnView {
        TurnView {
            id: self.id@,
            session_id: self.session_id@,
            sequence: self.sequence,
            kind: self.kind,
            status: self.status,
            model: self.model@,
            collaboration_mode: opt_view(self.collaboration_mode),
            started_at: self.started_at,
            completed_at: self.completed_at,
            error: opt_view(self.error),
            usage: self.usage,
        }
    }
}

impl Clone for Turn {
    fn clone(&self) -> (result: Self)
        ensures
            result@ == self@,
    {
        let result = Turn {
            id: self.id.clone(),
            session_id: self.session_id.clone(),
            sequence: self.sequence,
            kind: self.kind,
            status: self.status,
            model: self.model.clone(),
            collaboration_mode: self.collaboration_mode.clone(),
            started_at: self.started_at,
            completed_at: self.completed_at,
            error: self.error.clone(),
            usage: self.usage,
        };
        result
    }
}

} // verus!
