//! Lines of a session's record: the older form, and the present one.
//!
//! What a line only carries along is kept as a JSON text. Identifiers of the older
//! form are kept as the texts that stand in the record.

use vstd::prelude::*;

use crate::ids::{ItemId, SessionId, TurnId};
use crate::item::{clone_opt_texts, opt_texts, ItemEnvelope, ItemEnvelopeView};
use crate::session::{NamedChoice, NamedChoiceView, Session, SessionView, Turn, TurnView};
use crate::text::{opt_view, views};
use crate::time::Timestamp;

verus! {

/// The version of the present form.
pub const ROLLOUT_FORMAT_VERSION: u32 = 2;

/// A tool was called.
#[derive(Debug, PartialEq, Eq)]
pub struct ToolCallItem {
    pub tool_call_id: String,
    pub tool_name: String,
    pub input: String,
}

/// The view of [`ToolCallItem`].
#[verifier::ext_equal]
pub struct ToolCallItemView {
    pub tool_call_id: Seq<char>,
    pub tool_name: Seq<char>,
    pub input: Seq<char>,
}

impl View for ToolCallItem {
    type V = ToolCallItemView;

    open spec fn view(&self) -> ToolCallItemView {
        ToolCallItemView {
            tool_call_id: self.tool_call_id@,
            tool_name: self.tool_name@,
            input: self.input@,
        }
    }
}

impl Clone for ToolCallItem {
    fn clone(&self) -> (result: Self)
        ensures
            result@ == self@,
    {
        let result = ToolCallItem {
            tool_call_id: self.tool_call_id.clone(),
            tool_name: self.tool_name.clone(),
            input: self.input.clone(),
        };
        result
    }
}

/// A tool reported progress.
#[derive(Debug, PartialEq, Eq)]
pub struct ToolProgressItem {
    pub tool_call_id: String,
    pub message: String,
}

/// The view of [`ToolProgressItem`].
#[verifier::ext_equal]
pub struct ToolProgressItemView {
    pub tool_call_id: Seq<char>,
    pub message: Seq<char>,
}

impl View for ToolProgressItem {
    type V = ToolProgressItemView;

    open spec fn view(&self) -> ToolProgressItemView {
        ToolProgressItemView {
            tool_call_id: self.tool_call_id@,
            message: self.message@,
        }
    }
}

impl Clone for ToolProgressItem {
    fn clone(&self) -> (result: Self)
        ensures
            result@ == self@,
    {
        let result = ToolProgressItem {
            tool_call_id: self.tool_call_id.clone(),
            message: self.message.clone(),
        };
        result
    }
}

/// A tool returned.
#[derive(Debug, PartialEq, Eq)]
pub struct ToolResultItem {
    pub tool_call_id: String,
    pub output: String,
    pub display_content: Option<String>,
    pub is_error: bool,
}

/// The view of [`ToolResultItem`].
#[verifier::ext_equal]
pub struct ToolResultItemView {
    pub tool_call_id: Seq<char>,
    pub output: Seq<char>,
    pub display_content: Option<Seq<char>>,
    pub is_error: bool,
}

impl View for ToolResultItem {
    type V = ToolResultItemView;

    open spec fn view(&self) -> ToolResultItemView {
        ToolResultItemView {
            tool_call_id: self.tool_call_id@,
            output: self.output@,
            display_content: opt_view(self.display_content),
            is_error: self.is_error,
        }
    }
}

impl Clone for ToolResultItem {
    fn clone(&self) -> (result: Self)
        ensures
            result@ == self@,
    {
        let result = ToolResultItem {
            tool_call_id: self.tool_call_id.clone(),
            output: self.output.clone(),
            display_content: self.display_content.clone(),
            is_error: self.is_error,
        };
        result
    }
}

/// A command was run.
#[derive(Debug, PartialEq, Eq)]
pub struct CommandExecutionItem {
    pub tool_call_id: String,
    pub command: String,
    pub input: String,
    pub output: String,
    pub is_error: bool,
}

/// The view of [`CommandExecutionItem`].
#[verifier::ext_equal]
pub struct CommandExecutionItemView {
    pub tool_call_id: Seq<char>,
    pub command: Seq<char>,
    pub input: Seq<char>,
    pub output: Seq<char>,
    pub is_error: bool,
}

impl View for CommandExecutionItem {
    type V = CommandExecutionItemView;

    open spec fn view(&self) -> CommandExecutionItemView {
        CommandExecutionItemView {
            tool_call_id: self.tool_call_id@,
            command: self.command@,
            input: self.input@,
            output: self.output@,
            is_error: self.is_error,
        }
    }
}

impl Clone for CommandExecutionItem {
    fn clone(&self) -> (result: Self)
        ensures
            result@ == self@,
    {
        let result = CommandExecutionItem {
            tool_call_id: self.tool_call_id.clone(),
            command: self.command.clone(),
            input: self.input.clone(),
            output: self.output.clone(),
            is_error: self.is_error,
        };
        result
    }
}

/// An approval was asked for.
#[derive(Debug, PartialEq, Eq)]
pub struct ApprovalRequestItem {
    pub approval_id: String,
    pub action_summary: String,
    pub justification: String,
    pub resource: Option<String>,
    pub available_scopes: Vec<String>,
    pub command_pattern: Option<Vec<String>>,
    pub command_prefix: Option<Vec<String>>,
    pub path: Option<String>,
    pub host: Option<String>,
    pub target: Option<String>,
}

/// The view of [`ApprovalRequestItem`].
#[verifier::ext_equal]
pub struct ApprovalRequestItemView {
    pub approval_id: Seq<char>,
    pub action_summary: Seq<char>,
    pub justification: Seq<char>,
    pub resource: Option<Seq<char>>,
    pub available_scopes: Seq<Seq<char>>,
    pub command_pattern: Option<Seq<Seq<char>>>,
    pub command_prefix: Option<Seq<Seq<char>>>,
    pub path: Option<Seq<char>>,
    pub host: Option<Seq<char>>,
    pub target: Option<Seq<char>>,
}

impl View for ApprovalRequestItem {
    type V = ApprovalRequestItemView;

    open spec fn view(&self) -> ApprovalRequestItemView {
        ApprovalRequestItemView {
            approval_id: self.approval_id@,
            action_summary: self.action_summary@,
            justification: self.justification@,
            resource: opt_view(self.resource),
            available_scopes: views(self.available_scopes@),
            command_pattern: opt_texts(self.command_pattern),
            command_prefix: opt_texts(self.command_prefix),
            path: opt_view(self.path),
            host: opt_view(self.host),
            target: opt_view(self.target),
        }
    }
}

impl Clone for ApprovalRequestItem {
    fn clone(&self) -> (result: Self)
        ensures
            result@ == self@,
    {
        let result = ApprovalRequestItem {
            approval_id: self.approval_id.clone(),
            action_summary: self.action_summary.clone(),
            justification: self.justification.clone(),
            resource: self.resource.clone(),
            available_scopes: self.available_scopes.clone(),
            command_pattern: clone_opt_texts(&self.command_pattern),
            command_prefix: clone_opt_texts(&self.command_prefix),
            path: self.path.clone(),
            host: self.host.clone(),
            target: self.target.clone(),
        };
        assert(views(result.available_scopes@) =~= views(self.available_scopes@));
        result
    }
}

/// An approval was decided.
#[derive(Debug, PartialEq, Eq)]
pub struct ApprovalDecisionItem {
    pub approval_id: String,
    pub decision: String,
    pub scope: String,
    pub decision_source: Option<NamedChoice>,
}

/// The view of [`ApprovalDecisionItem`].
#[verifier::ext_equal]
pub struct ApprovalDecisionItemView {
    pub approval_id: Seq<char>,
    pub decision: Seq<char>,
    pub scope: Seq<char>,
    pub decision_source: Option<NamedChoiceView>,
}

impl View for ApprovalDecisionItem {
    type V = ApprovalDecisionItemView;

    open spec fn view(&self) -> ApprovalDecisionItemView {
        ApprovalDecisionItemView {
            approval_id: self.approval_id@,
            decision: self.decision@,
            scope: self.scope@,
            decision_source: opt_view(self.decision_source),
        }
    }
}

impl Clone for ApprovalDecisionItem {
    fn clone(&self) -> (result: Self)
        ensures
            result@ == self@,
    {
        let result = ApprovalDecisionItem {
            approval_id: self.approval_id.clone(),
            decision: self.decision.clone(),
            scope: self.scope.clone(),
            decision_source: self.decision_source.clone(),
        };
        result
    }
}

/// A payload of an older item record.
#[derive(Debug, PartialEq, Eq)]
#[allow(inconsistent_fields)]
pub enum TurnItem {
    UserMessage(String),
    SteerInput(String),
    HookPrompt(String),
    AgentMessage(String),
    Plan(String),
    Reasoning(String),
    ToolCall(ToolCallItem),
    ToolProgress(ToolProgressItem),
    ToolResult(ToolResultItem),
    CommandExecution(CommandExecutionItem),
    WebSearch(String),
    ImageGeneration(String),
    ContextCompaction(String),
    TurnSummary(String),
    ApprovalRequest(ApprovalRequestItem),
    ApprovalDecision(ApprovalDecisionItem),
}

/// The view of [`TurnItem`].
#[verifier::ext_equal]
#[allow(inconsistent_fields)]
pub enum TurnItemView {
    UserMessage(Seq<char>),
    SteerInput(Seq<char>),
    HookPrompt(Seq<char>),
    AgentMessage(Seq<char>),
    Plan(Seq<char>),
    Reasoning(Seq<char>),
    ToolCall(ToolCallItemView),
    ToolProgress(ToolProgressItemView),
    ToolResult(ToolResultItemView),
    CommandExecution(CommandExecutionItemView),
    WebSearch(Seq<char>),
    ImageGeneration(Seq<char>),
    ContextCompaction(Seq<char>),
    TurnSummary(Seq<char>),
    ApprovalRequest(ApprovalRequestItemView),
    ApprovalDecision(ApprovalDecisionItemView),
}

impl View for TurnItem {
    type V = TurnItemView;

    open spec fn view(&self) -> TurnItemView {
        match self {
            TurnItem::UserMessage(text) => TurnItemView::UserMessage(text@),
            TurnItem::SteerInput(text) => TurnItemView::SteerInput(text@),
            TurnItem::HookPrompt(text) => TurnItemView::HookPrompt(text@),
            TurnItem::AgentMessage(text) => TurnItemView::AgentMessage(text@),
            TurnItem::Plan(text) => TurnItemView::Plan(text@),
            TurnItem::Reasoning(text) => TurnItemView::Reasoning(text@),
            TurnItem::ToolCall(call) => TurnItemView::ToolCall(call@),
            TurnItem::ToolProgress(progress) => TurnItemView::ToolProgress(progress@),
            TurnItem::ToolResult(result) => TurnItemView::ToolResult(result@),
            TurnItem::CommandExecution(command) => TurnItemView::CommandExecution(command@),
            TurnItem::WebSearch(text) => TurnItemView::WebSearch(text@),
            TurnItem::ImageGeneration(text) => TurnItemView::ImageGeneration(text@),
            TurnItem::ContextCompaction(text) => TurnItemView::ContextCompaction(text@),
            TurnItem::TurnSummary(text) => TurnItemView::TurnSummary(text@),
            TurnItem::ApprovalRequest(request) => TurnItemView::ApprovalRequest(request@),
            TurnItem::ApprovalDecision(decision) => TurnItemView::ApprovalDecision(decision@),
        }
    }
}

impl Clone for TurnItem {
    fn clone(&self) -> (result: Self)
        ensures
            result@ == self@,
    {
        match self {
            TurnItem::UserMessage(text) => TurnItem::UserMessage(text.clone()),
            TurnItem::SteerInput(text) => TurnItem::SteerInput(text.clone()),
            TurnItem::HookPrompt(text) => TurnItem::HookPrompt(text.clone()),
            TurnItem::AgentMessage(text) => TurnItem::AgentMessage(text.clone()),
            TurnItem::Plan(text) => TurnItem::Plan(text.clone()),
            TurnItem::Reasoning(text) => TurnItem::Reasoning(text.clone()),
            TurnItem::ToolCall(call) => TurnItem::ToolCall(call.clone()),
            TurnItem::ToolProgress(progress) => TurnItem::ToolProgress(progress.clone()),
            TurnItem::ToolResult(result) => TurnItem::ToolResult(result.clone()),
            TurnItem::CommandExecution(command) => TurnItem::CommandExecution(command.clone()),
            TurnItem::WebSearch(text) => TurnItem::WebSearch(text.clone()),
            TurnItem::ImageGeneration(text) => TurnItem::ImageGeneration(text.clone()),
            TurnItem::ContextCompaction(text) => TurnItem::ContextCompaction(text.clone()),
            TurnItem::TurnSummary(text) => TurnItem::TurnSummary(text.clone()),
            TurnItem::ApprovalRequest(request) => TurnItem::ApprovalRequest(request.clone()),
            TurnItem::ApprovalDecision(decision) => TurnItem::ApprovalDecision(decision.clone()),
        }
    }
}

/// An older item record, which packs payloads under one ID.
#[derive(Debug, PartialEq, Eq)]
pub struct ItemRecord {
    pub id: String,
    pub session_id: String,
    pub turn_id: String,
    pub timestamp: Timestamp,
    pub input_items: Vec<TurnItem>,
    pub output_items: Vec<TurnItem>,
}

/// The view of [`ItemRecord`].
#[verifier::ext_equal]
pub struct ItemRecordView {
    pub id: Seq<char>,
    pub session_id: Seq<char>,
    pub turn_id: Seq<char>,
    pub timestamp: Timestamp,
    pub input_items: Seq<TurnItemView>,
    pub output_items: Seq<TurnItemView>,
}

impl View for ItemRecord {
    type V = ItemRecordView;

    open spec fn view(&self) -> ItemRecordView {
        ItemRecordView {
            id: self.id@,
            session_id: self.session_id@,
            turn_id: self.turn_id@,
            timestamp: self.timestamp,
            input_items: views(self.input_items@),
            output_items: views(self.output_items@),
        }
    }
}

impl Clone for ItemRecord {
    fn clone(&self) -> (result: Self)
        ensures
            result@ == self@,
    {
        let result = ItemRecord {
            id: self.id.clone(),
            session_id: self.session_id.clone(),
            turn_id: self.turn_id.clone(),
            timestamp: self.timestamp,
            input_items: self.input_items.clone(),
            output_items: self.output_items.clone(),
        };
        assert(views(result.input_items@) =~= views(self.input_items@));
        assert(views(result.output_items@) =~= views(self.output_items@));
        result
    }
}

/// What an older turn was for.
#[derive(Debug, PartialEq, Eq)]
#[allow(inconsistent_fields)]
pub enum LegacyTurnKind {
    Regular,
    Review,
    ManualCompaction,
    Other(String),
}

/// The view of [`LegacyTurnKind`].
#[verifier::ext_equal]
#[allow(inconsistent_fields)]
pub enum LegacyTurnKindView {
    Regular,
    Review,
    ManualCompaction,
    Other(Seq<char>),
}

impl View for LegacyTurnKind {
    type V = LegacyTurnKindView;

    open spec fn view(&self) -> LegacyTurnKindView {
        match self {
            LegacyTurnKind::Regular => LegacyTurnKindView::Regular,
            LegacyTurnKind::Review => LegacyTurnKindView::Review,
            LegacyTurnKind::ManualCompaction => LegacyTurnKindView::ManualCompaction,
            LegacyTurnKind::Other(name) => LegacyTurnKindView::Other(name@),
        }
    }
}

impl Clone for LegacyTurnKind {
    fn clone(&self) -> (result: Self)
        ensures
            result@ == self@,
    {
        match self {
            LegacyTurnKind::Regular => LegacyTurnKind::Regular,
            LegacyTurnKind::Review => LegacyTurnKind::Review,
            LegacyTurnKind::ManualCompaction => LegacyTurnKind::ManualCompaction,
            LegacyTurnKind::Other(name) => LegacyTurnKind::Other(name.clone()),
        }
    }
}

/// How far an older turn was.
#[derive(Debug, Clone, Copy, PartialEq, Eq, Structural)]
pub enum LegacyTurnStatus {
    Pending,
    Running,
    WaitingApproval,
    Completed,
    Interrupted,
    Failed,
}

/// Usage of an older turn.
#[derive(Debug, Clone, Copy, PartialEq, Eq, Structural)]
pub struct LegacyTurnUsage {
    pub input_tokens: u32,
    pub output_tokens: u32,
    pub total_tokens: Option<u32>,
    pub reasoning_output_tokens: Option<u32>,
    pub cache_read_input_tokens: Option<u32>,
    pub cache_creation_input_tokens: Option<u32>,
}

/// Why an older turn failed.
#[derive(Debug, PartialEq, Eq)]
pub struct LegacyTurnError {
    pub code: String,
    pub message: String,
    pub recovery_hint: Option<String>,
}

/// The view of [`LegacyTurnError`].
#[verifier::ext_equal]
pub struct LegacyTurnErrorView {
    pub code: Seq<char>,
    pub message: Seq<char>,
    pub recovery_hint: Option<Seq<char>>,
}

impl View for LegacyTurnError {
    type V = LegacyTurnErrorView;

    open spec fn view(&self) -> LegacyTurnErrorView {
        LegacyTurnErrorView {
            code: self.code@,
            message: self.message@,
            recovery_hint: opt_view(self.recovery_hint),
        }
    }
}

impl Clone for LegacyTurnError {
    fn clone(&self) -> (result: Self)
        ensures
            result@ == self@,
    {
        let result = LegacyTurnError {
            code: self.code.clone(),
            message: self.message.clone(),
            recovery_hint: self.recovery_hint.clone(),
        };
        result
    }
}

/// The context of a turn.
#[derive(Debug, PartialEq, Eq)]
pub struct TurnContext {
    pub collaboration_mode: NamedChoice,
    pub json: String,
}

/// The view of [`TurnContext`].
#[verifier::ext_equal]
pub struct TurnContextView {
    pub collaboration_mode: NamedChoiceView,
    pub json: Seq<char>,
}

impl View for TurnContext {
    type V = TurnContextView;

    open spec fn view(&self) -> TurnContextView {
        TurnContextView {
            collaboration_mode: self.collaboration_mode@,
            json: self.json@,
        }
    }
}

impl Clone for TurnContext {
    fn clone(&self) -> (result: Self)
        ensures
            result@ == self@,
    {
        let result = TurnContext {
            collaboration_mode: self.collaboration_mode.clone(),
            json: self.json.clone(),
        };
        result
    }
}

/// An older turn record.
#[derive(Debug, PartialEq, Eq)]
pub struct TurnRecord {
    pub id: String,
    pub session_id: String,
    pub sequence: u32,
    pub kind: LegacyTurnKind,
    pub status: LegacyTurnStatus,
    pub model: String,
    pub request_model: String,
    pub model_binding_id: Option<String>,
    /// The selected effort, if the record's selection names one.
    pub reasoning_effort: Option<String>,
    pub turn_context: Option<TurnContext>,
    pub session_context: Option<String>,
    pub request_thinking: Option<String>,
    pub input_token_estimate: Option<u64>,
    pub latest_query_usage: Option<String>,
    pub context_occupancy: Option<String>,
    pub stop_reason: Option<String>,
    pub failure_reason: Option<String>,
    pub started_at: Timestamp,
    pub completed_at: Option<Timestamp>,
    pub error: Option<LegacyTurnError>,
    pub usage: Option<LegacyTurnUsage>,
}

/// An older session record.
#[derive(Debug, PartialEq, Eq)]
pub struct SessionRecord {
    pub id: String,
    pub cwd: String,
    pub additional_directories: Vec<String>,
    pub parent_session_id: Option<String>,
    pub agent_role: Option<String>,
    pub agent_nickname: Option<String>,
    pub agent_path: Option<String>,
    pub approval_mode: String,
    pub git_sha: Option<String>,
    pub git_branch: Option<String>,
    pub git_origin_url: Option<String>,
    pub tokens_used: i64,
    pub created_at: Timestamp,
    pub updated_at: Timestamp,
    pub last_activity_at: Option<Timestamp>,
    pub archived_at: Option<Timestamp>,
    pub title: Option<String>,
    pub model_provider: String,
    pub model: Option<String>,
    /// The selected effort, if the record's selection names one.
    pub reasoning_effort: Option<String>,
    pub sandbox_policy: String,
    pub effective_context_window: Option<u64>,
    pub first_user_message: Option<String>,
    pub session_context: Option<String>,
    pub cli_version: String,
    pub source: String,
    pub collaboration_mode: NamedChoice,
    pub permission_preset: NamedChoice,
}

/// A setting of a session that is recorded by itself.
#[derive(Debug, PartialEq, Eq)]
#[allow(inconsistent_fields)]
pub enum SessionSettingsField {
    MemoryRecall,
    MemoryContribution,
    Named(String),
}

/// The view of [`SessionSettingsField`].
#[verifier::ext_equal]
#[allow(inconsistent_fields)]
pub enum SessionSettingsFieldView {
    MemoryRecall,
    MemoryContribution,
    Named(Seq<char>),
}

impl View for SessionSettingsField {
    type V = SessionSettingsFieldView;

    open spec fn view(&self) -> SessionSettingsFieldView {
        match self {
            SessionSettingsField::MemoryRecall => SessionSettingsFieldView::MemoryRecall,
            SessionSettingsField::MemoryContribution => SessionSettingsFieldView::MemoryContribution,
            SessionSettingsField::Named(name) => SessionSettingsFieldView::Named(name@),
        }
    }
}

impl Clone for SessionSettingsField {
    fn clone(&self) -> (result: Self)
        ensures
            result@ == self@,
    {
        match self {
            SessionSettingsField::MemoryRecall => SessionSettingsField::MemoryRecall,
            SessionSettingsField::MemoryContribution => SessionSettingsField::MemoryContribution,
            SessionSettingsField::Named(name) => SessionSettingsField::Named(name.clone()),
        }
    }
}

/// A message was edited.
#[derive(Debug, PartialEq, Eq)]
pub struct MessageEditRecord {
    pub session_id: String,
    pub target_turn_id: Option<String>,
    pub replacement_turn_id: Option<String>,
    pub json: String,
}

/// The view of [`MessageEditRecord`].
#[verifier::ext_equal]
pub struct MessageEditRecordView {
    pub session_id: Seq<char>,
    pub target_turn_id: Option<Seq<char>>,
    pub replacement_turn_id: Option<Seq<char>>,
    pub json: Seq<char>,
}

impl View for MessageEditRecord {
    type V = MessageEditRecordView;

    open spec fn view(&self) -> MessageEditRecordView {
        MessageEditRecordView {
            session_id: self.session_id@,
            target_turn_id: opt_view(self.target_turn_id),
            replacement_turn_id: opt_view(self.replacement_turn_id),
            json: self.json@,
        }
    }
}

impl Clone for MessageEditRecord {
    fn clone(&self) -> (result: Self)
        ensures
            result@ == self@,
    {
        let result = MessageEditRecord {
            session_id: self.session_id.clone(),
            target_turn_id: self.target_turn_id.clone(),
            replacement_turn_id: self.replacement_turn_id.clone(),
            json: self.json.clone(),
        };
        result
    }
}

/// A turn was superseded by another.
#[derive(Debug, PartialEq, Eq)]
pub struct TurnSupersededRecord {
    pub session_id: String,
    pub replacement_turn_id: String,
    pub json: String,
}

/// The view of [`TurnSupersededRecord`].
#[verifier::ext_equal]
pub struct TurnSupersededRecordView {
    pub session_id: Seq<char>,
    pub replacement_turn_id: Seq<char>,
    pub json: Seq<char>,
}

impl View for TurnSupersededRecord {
    type V = TurnSupersededRecordView;

    open spec fn view(&self) -> TurnSupersededRecordView {
        TurnSupersededRecordView {
            session_id: self.session_id@,
            replacement_turn_id: self.replacement_turn_id@,
            json: self.json@,
        }
    }
}

impl Clone for TurnSupersededRecord {
    fn clone(&self) -> (result: Self)
        ensures
            result@ == self@,
    {
        let result = TurnSupersededRecord {
            session_id: self.session_id.clone(),
            replacement_turn_id: self.replacement_turn_id.clone(),
            json: self.json.clone(),
        };
        result
    }
}

/// A line of the older form.
#[derive(Debug, PartialEq, Eq)]
#[allow(inconsistent_fields)]
pub enum RolloutLine {
    SessionMeta { timestamp: Timestamp, session: Box<SessionRecord> },
    Turn { timestamp: Timestamp, turn: Box<TurnRecord> },
    Item { timestamp: Timestamp, item: Box<ItemRecord> },
    SessionTitleUpdated {
        timestamp: Timestamp,
        session_id: String,
        title: String,
        previous_title: Option<String>,
    },
    SessionContextUpdated { timestamp: Timestamp, session_id: String, session_context: String },
    SessionSettings {
        timestamp: Timestamp,
        session_id: String,
        field: SessionSettingsField,
        value: String,
    },
    CompactionSnapshot {
        timestamp: Timestamp,
        session_id: String,
        turn_id: String,
        summary_item_id: String,
        preserved_item_ids: Vec<String>,
        context_occupancy: Option<String>,
    },
    MessageEditRecorded { timestamp: Timestamp, record: MessageEditRecord },
    TurnSuperseded { timestamp: Timestamp, record: TurnSupersededRecord },
    TurnWorkspaceCheckpointRecorded { timestamp: Timestamp, record: String },
    TurnWorkspaceChangeRecorded { timestamp: Timestamp, record: String },
    TurnWorkspaceRestoreStarted { timestamp: Timestamp, record: String },
    TurnWorkspaceRestoreCompleted { timestamp: Timestamp, record: String },
    SessionRollback {
        timestamp: Timestamp,
        session_id: String,
        retained_turn_ids: Vec<String>,
        retained_item_ids: Vec<String>,
        latest_turn_id: Option<String>,
    },
}

/// Something that is no item.
#[derive(Debug, PartialEq, Eq)]
#[allow(inconsistent_fields)]
pub enum InternalEntry {
    HookPrompt { text: String },
    ToolProgress { call_id: String, message: String },
    TurnSummary { text: String },
}

/// The view of [`InternalEntry`].
#[verifier::ext_equal]
#[allow(inconsistent_fields)]
pub enum InternalEntryView {
    HookPrompt { text: Seq<char> },
    ToolProgress { call_id: Seq<char>, message: Seq<char> },
    TurnSummary { text: Seq<char> },
}

impl View for InternalEntry {
    type V = InternalEntryView;

    open spec fn view(&self) -> InternalEntryView {
        match self {
            InternalEntry::HookPrompt { text } => InternalEntryView::HookPrompt {
                text: text@,
            },
            InternalEntry::ToolProgress { call_id, message } => InternalEntryView::ToolProgress {
                call_id: call_id@,
                message: message@,
            },
            InternalEntry::TurnSummary { text } => InternalEntryView::TurnSummary {
                text: text@,
            },
        }
    }
}

/// A record that is no item.
#[derive(Debug, PartialEq, Eq)]
#[allow(inconsistent_fields)]
pub enum InternalRecordV2 {
    Entry { entry: InternalEntry },
    SessionContext(String),
    SessionSettings { schema_version: u32, field: SessionSettingsField, value: String, epoch: u64 },
    MessageEdit(MessageEditRecord),
    TurnSuperseded(TurnSupersededRecord),
}

/// The view of [`InternalRecordV2`].
#[verifier::ext_equal]
#[allow(inconsistent_fields)]
pub enum InternalRecordV2View {
    Entry { entry: InternalEntryView },
    SessionContext(Seq<char>),
    SessionSettings {
        schema_version: u32,
        field: SessionSettingsFieldView,
        value: Seq<char>,
        epoch: u64,
    },
    MessageEdit(MessageEditRecordView),
    TurnSuperseded(TurnSupersededRecordView),
}

impl View for InternalRecordV2 {
    type V = InternalRecordV2View;

    open spec fn view(&self) -> InternalRecordV2View {
        match self {
            InternalRecordV2::Entry { entry } => InternalRecordV2View::Entry {
                entry: entry@,
            },
            InternalRecordV2::SessionContext(json) => InternalRecordV2View::SessionContext(json@),
            InternalRecordV2::SessionSettings {
                schema_version,
                field,
                value,
                epoch,
            } => InternalRecordV2View::SessionSettings {
                schema_version: *schema_version,
                field: field@,
                value: value@,
                epoch: *epoch,
            },
            InternalRecordV2::MessageEdit(record) => InternalRecordV2View::MessageEdit(record@),
            InternalRecordV2::TurnSuperseded(record) => InternalRecordV2View::TurnSuperseded(
                record@,
            ),
        }
    }
}

/// What a session line keeps beside the session.
#[derive(Debug, PartialEq, Eq)]
pub struct SessionPersistenceExtras {
    pub session_context: Option<String>,
    pub cli_version: String,
    pub source: String,
    pub collaboration_mode: NamedChoice,
    pub permission_preset: NamedChoice,
}

/// The view of [`SessionPersistenceExtras`].
#[verifier::ext_equal]
pub struct SessionPersistenceExtrasView {
    pub session_context: Option<Seq<char>>,
    pub cli_version: Seq<char>,
    pub source: Seq<char>,
    pub collaboration_mode: NamedChoiceView,
    pub permission_preset: NamedChoiceView,
}

impl View for SessionPersistenceExtras {
    type V = SessionPersistenceExtrasView;

    open spec fn view(&self) -> SessionPersistenceExtrasView {
        SessionPersistenceExtrasView {
            session_context: opt_view(self.session_context),
            cli_version: self.cli_version@,
            source: self.source@,
            collaboration_mode: self.collaboration_mode@,
            permission_preset: self.permission_preset@,
        }
    }
}

/// What a turn line keeps beside the turn.
#[derive(Debug, PartialEq, Eq)]
pub struct TurnPersistenceExtras {
    pub session_context: Option<String>,
    pub turn_context: Option<TurnContext>,
    pub request_thinking: Option<String>,
    pub input_token_estimate: Option<u64>,
    pub latest_query_usage: Option<String>,
    pub context_occupancy: Option<String>,
    pub stop_reason: Option<String>,
    pub failure_reason: Option<String>,
}

/// The view of [`TurnPersistenceExtras`].
#[verifier::ext_equal]
pub struct TurnPersistenceExtrasView {
    pub session_context: Option<Seq<char>>,
    pub turn_context: Option<TurnContextView>,
    pub request_thinking: Option<Seq<char>>,
    pub input_token_estimate: Option<u64>,
    pub latest_query_usage: Option<Seq<char>>,
    pub context_occupancy: Option<Seq<char>>,
    pub stop_reason: Option<Seq<char>>,
    pub failure_reason: Option<Seq<char>>,
}

impl View for TurnPersistenceExtras {
    type V = TurnPersistenceExtrasView;

    open spec fn view(&self) -> TurnPersistenceExtrasView {
        TurnPersistenceExtrasView {
            session_context: opt_view(self.session_context),
            turn_context: opt_view(self.turn_context),
            request_thinking: opt_view(self.request_thinking),
            input_token_estimate: self.input_token_estimate,
            latest_query_usage: opt_view(self.latest_query_usage),
            context_occupancy: opt_view(self.context_occupancy),
            stop_reason: opt_view(self.stop_reason),
            failure_reason: opt_view(self.failure_reason),
        }
    }
}

/// A line of the present form.
#[derive(Debug, PartialEq, Eq)]
#[allow(inconsistent_fields)]
pub enum RolloutLineV2 {
    SessionMeta {
        v: u32,
        timestamp: Timestamp,
        session: Box<Session>,
        extras: Option<SessionPersistenceExtras>,
    },
    Turn { v: u32, timestamp: Timestamp, turn: Box<Turn>, extras: Option<TurnPersistenceExtras> },
    Item { v: u32, timestamp: Timestamp, item: Box<ItemEnvelope> },
    Internal {
        v: u32,
        timestamp: Timestamp,
        session_id: SessionId,
        turn_id: Option<TurnId>,
        seq: u64,
        entry: InternalRecordV2,
    },
    SessionTitleUpdated {
        v: u32,
        timestamp: Timestamp,
        session_id: SessionId,
        title: String,
        previous_title: Option<String>,
    },
    CompactionSnapshot {
        v: u32,
        timestamp: Timestamp,
        session_id: SessionId,
        turn_id: TurnId,
        summary_item_id: ItemId,
        preserved_item_ids: Vec<ItemId>,
        context_occupancy: Option<String>,
    },
    SessionRollback {
        v: u32,
        timestamp: Timestamp,
        session_id: SessionId,
        retained_turn_ids: Vec<TurnId>,
        retained_item_ids: Vec<ItemId>,
        latest_turn_id: Option<TurnId>,
    },
    WorkspaceCheckpoint { v: u32, timestamp: Timestamp, record: String },
    WorkspaceChange { v: u32, timestamp: Timestamp, record: String },
    WorkspaceRestoreStarted { v: u32, timestamp: Timestamp, record: String },
    WorkspaceRestoreCompleted { v: u32, timestamp: Timestamp, record: String },
}

/// The view of [`RolloutLineV2`].
#[verifier::ext_equal]
#[allow(inconsistent_fields)]
pub enum RolloutLineV2View {
    SessionMeta {
        v: u32,
        timestamp: Timestamp,
        session: SessionView,
        extras: Option<SessionPersistenceExtrasView>,
    },
    Turn {
        v: u32,
        timestamp: Timestamp,
        turn: TurnView,
        extras: Option<TurnPersistenceExtrasView>,
    },
    Item { v: u32, timestamp: Timestamp, item: ItemEnvelopeView },
    Internal {
        v: u32,
        timestamp: Timestamp,
        session_id: Seq<char>,
        turn_id: Option<Seq<char>>,
        seq: u64,
        entry: InternalRecordV2View,
    },
    SessionTitleUpdated {
        v: u32,
        timestamp: Timestamp,
        session_id: Seq<char>,
        title: Seq<char>,
        previous_title: Option<Seq<char>>,
    },
    CompactionSnapshot {
        v: u32,
        timestamp: Timestamp,
        session_id: Seq<char>,
        turn_id: Seq<char>,
        summary_item_id: Seq<char>,
        preserved_item_ids: Seq<Seq<char>>,
        context_occupancy: Option<Seq<char>>,
    },
    SessionRollback {
        v: u32,
        timestamp: Timestamp,
        session_id: Seq<char>,
        retained_turn_ids: Seq<Seq<char>>,
        retained_item_ids: Seq<Seq<char>>,
        latest_turn_id: Option<Seq<char>>,
    },
    WorkspaceCheckpoint { v: u32, timestamp: Timestamp, record: Seq<char> },
    WorkspaceChange { v: u32, timestamp: Timestamp, record: Seq<char> },
    WorkspaceRestoreStarted { v: u32, timestamp: Timestamp, record: Seq<char> },
    WorkspaceRestoreCompleted { v: u32, timestamp: Timestamp, record: Seq<char> },
}

impl View for RolloutLineV2 {
    type V = RolloutLineV2View;

    open spec fn view(&self) -> RolloutLineV2View {
        match self {
            RolloutLineV2::SessionMeta {
                v,
                timestamp,
                session,
                extras,
            } => RolloutLineV2View::SessionMeta {
                v: *v,
                timestamp: *timestamp,
                session: (**session)@,
                extras: opt_view(*extras),
            },
            RolloutLineV2::Turn { v, timestamp, turn, extras } => RolloutLineV2View::Turn {
                v: *v,
                timestamp: *timestamp,
                turn: (**turn)@,
                extras: opt_view(*extras),
            },
            RolloutLineV2::Item { v, timestamp, item } => RolloutLineV2View::Item {
                v: *v,
                timestamp: *timestamp,
                item: (**item)@,
            },
            RolloutLineV2::Internal {
                v,
                timestamp,
                session_id,
                turn_id,
                seq,
                entry,
            } => RolloutLineV2View::Internal {
                v: *v,
                timestamp: *timestamp,
                session_id: session_id@,
                turn_id: opt_view(*turn_id),
                seq: *seq,
                entry: entry@,
            },
            RolloutLineV2::SessionTitleUpdated {
                v,
                timestamp,
                session_id,
                title,
                previous_title,
            } => RolloutLineV2View::SessionTitleUpdated {
                v: *v,
                timestamp: *timestamp,
                session_id: session_id@,
                title: title@,
                previous_title: opt_view(*previous_title),
            },
            RolloutLineV2::CompactionSnapshot {
                v,
                timestamp,
                session_id,
                turn_id,
                summary_item_id,
                preserved_item_ids,
                context_occupancy,
            } => RolloutLineV2View::CompactionSnapshot {
                v: *v,
                timestamp: *timestamp,
                session_id: session_id@,
                turn_id: turn_id@,
                summary_item_id: summary_item_id@,
                preserved_item_ids: views(preserved_item_ids@),
                context_occupancy: opt_view(*context_occupancy),
            },
            RolloutLineV2::SessionRollback {
                v,
                timestamp,
                session_id,
                retained_turn_ids,
                retained_item_ids,
                latest_turn_id,
            } => RolloutLineV2View::SessionRollback {
                v: *v,
                timestamp: *timestamp,
                session_id: session_id@,
                retained_turn_ids: views(retained_turn_ids@),
                retained_item_ids: views(retained_item_ids@),
                latest_turn_id: opt_view(*latest_turn_id),
            },
            RolloutLineV2::WorkspaceCheckpoint {
                v,
                timestamp,
                record,
            } => RolloutLineV2View::WorkspaceCheckpoint {
                v: *v,
                timestamp: *timestamp,
                record: record@,
            },
            RolloutLineV2::WorkspaceChange {
                v,
                timestamp,
                record,
            } => RolloutLineV2View::WorkspaceChange {
                v: *v,
                timestamp: *timestamp,
                record: record@,
            },
            RolloutLineV2::WorkspaceRestoreStarted {
                v,
                timestamp,
                record,
            } => RolloutLineV2View::WorkspaceRestoreStarted {
                v: *v,
                timestamp: *timestamp,
                record: record@,
            },
            RolloutLineV2::WorkspaceRestoreCompleted {
                v,
                timestamp,
                record,
            } => RolloutLineV2View::WorkspaceRestoreCompleted {
                v: *v,
                timestamp: *timestamp,
                record: record@,
            },
        }
    }
}

} // verus!
