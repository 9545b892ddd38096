//! Items of the native protocol: what a turn consists of.

use vstd::prelude::*;

use crate::ids::{ItemId, SessionId, TurnId};
use crate::session::{NamedChoice, NamedChoiceView};
use crate::text::{opt_view, views};
use crate::time::Timestamp;

verus! {

/// The views of optional texts in a list.
pub open spec fn opt_texts(texts: Option<Vec<String>>) -> Option<Seq<Seq<char>>> {
    match texts {
        Some(texts) => Some(views(texts@)),
        None => None,
    }
}

/// Copies an optional list of texts.
pub fn clone_opt_texts(texts: &Option<Vec<String>>) -> (result: Option<Vec<String>>)
    ensures
        opt_texts(result) == opt_texts(*texts),
{
    match texts {
        Some(texts) => {
            let copy = texts.clone();
            assert(views(copy@) =~= views(texts@));
            Some(copy)
        },
        None => None,
    }
}

/// How a user message came into a turn.
#[derive(Debug, Clone, Copy, PartialEq, Eq, Structural)]
pub enum UserMessageEntry {
    TurnStart,
    Steer,
}

/// How far a plan step is.
#[derive(Debug, Clone, Copy, PartialEq, Eq, Structural)]
pub enum PlanStepStatus {
    Pending,
    InProgress,
    Completed,
}

/// Where a tool comes from.
#[derive(Debug, Clone, Copy, PartialEq, Eq, Structural)]
pub enum ToolSource {
    Builtin,
    Mcp,
}

/// How a command is run.
#[derive(Debug, Clone, Copy, PartialEq, Eq, Structural)]
pub enum ExecutionMode {
    Foreground,
    Background,
}

/// Who runs a command.
#[derive(Debug, Clone, Copy, PartialEq, Eq, Structural)]
pub enum ExecOrigin {
    AgentTool,
    User,
}

/// Why a context is compacted.
#[derive(Debug, Clone, Copy, PartialEq, Eq, Structural)]
pub enum CompactionTrigger {
    AutoThreshold,
    Manual,
}

/// How much of a context was in use.
#[derive(Debug, Clone, Copy, PartialEq, Eq, Structural)]
pub struct ContextUsage {
    /// Whether the counts were measured.
    pub measured: bool,
    pub used_tokens: u64,
}

/// How far an item is.
#[derive(Debug, Clone, Copy, PartialEq, Eq, Structural)]
pub enum ItemState {
    InProgress,
    Waiting,
    Completed,
}

/// What was decided on an approval.
#[derive(Debug, Clone, Copy, PartialEq, Eq, Structural)]
pub enum ApprovalDecisionKind {
    Approved,
    Denied,
    Cancelled,
}

/// How far an approval reaches.
#[derive(Debug, Clone, Copy, PartialEq, Eq, Structural)]
pub enum ApprovalScope {
    Once,
    Turn,
    Session,
    PathPrefix,
    Host,
    Tool,
    CommandPrefix,
    CommandPrefixPersist,
}

/// A part of a user message.
#[derive(Debug, PartialEq, Eq)]
#[allow(inconsistent_fields)]
pub enum UserInput {
    Text { text: String },
}

/// The view of [`UserInput`].
#[verifier::ext_equal]
#[allow(inconsistent_fields)]
pub enum UserInputView {
    Text { text: Seq<char> },
}

impl View for UserInput {
    type V = UserInputView;

    open spec fn view(&self) -> UserInputView {
        match self {
            UserInput::Text { text } => UserInputView::Text {
                text: text@,
            },
        }
    }
}

impl Clone for UserInput {
    fn clone(&self) -> (result: Self)
        ensures
            result@ == self@,
    {
        match self {
            UserInput::Text { text } => {
                UserInput::Text {
                    text: text.clone(),
                }
            },
        }
    }
}

/// A step of a plan.
#[derive(Debug, PartialEq, Eq)]
pub struct PlanEntry {
    pub step: String,
    pub status: PlanStepStatus,
}

/// The view of [`PlanEntry`].
#[verifier::ext_equal]
pub struct PlanEntryView {
    pub step: Seq<char>,
    pub status: PlanStepStatus,
}

impl View for PlanEntry {
    type V = PlanEntryView;

    open spec fn view(&self) -> PlanEntryView {
        PlanEntryView {
            step: self.step@,
            status: self.status,
        }
    }
}

impl Clone for PlanEntry {
    fn clone(&self) -> (result: Self)
        ensures
            result@ == self@,
    {
        let result = PlanEntry {
            step: self.step.clone(),
            status: self.status,
        };
        result
    }
}

/// What an approval is about.
#[derive(Debug, PartialEq, Eq)]
#[allow(inconsistent_fields)]
pub enum ApprovalTarget {
    Path { path: String },
    Host { host: String },
    Command { command: String },
}

/// The view of [`ApprovalTarget`].
#[verifier::ext_equal]
#[allow(inconsistent_fields)]
pub enum ApprovalTargetView {
    Path { path: Seq<char> },
    Host { host: Seq<char> },
    Command { command: Seq<char> },
}

impl View for ApprovalTarget {
    type V = ApprovalTargetView;

    open spec fn view(&self) -> ApprovalTargetView {
        match self {
            ApprovalTarget::Path { path } => ApprovalTargetView::Path {
                path: path@,
            },
            ApprovalTarget::Host { host } => ApprovalTargetView::Host {
                host: host@,
            },
            ApprovalTarget::Command { command } => ApprovalTargetView::Command {
                command: command@,
            },
        }
    }
}

impl Clone for ApprovalTarget {
    fn clone(&self) -> (result: Self)
        ensures
            result@ == self@,
    {
        match self {
            ApprovalTarget::Path { path } => {
                ApprovalTarget::Path {
                    path: path.clone(),
                }
            },
            ApprovalTarget::Host { host } => {
                ApprovalTarget::Host {
                    host: host.clone(),
                }
            },
            ApprovalTarget::Command { command } => {
                ApprovalTarget::Command {
                    command: command.clone(),
                }
            },
        }
    }
}

/// A decision on an approval.
#[derive(Debug, PartialEq, Eq)]
pub struct ApprovalDecision {
    pub decision: ApprovalDecisionKind,
    pub scope: ApprovalScope,
    pub decision_source: NamedChoice,
    pub decided_at: Timestamp,
}

/// The view of [`ApprovalDecision`].
#[verifier::ext_equal]
pub struct ApprovalDecisionView {
    pub decision: ApprovalDecisionKind,
    pub scope: ApprovalScope,
    pub decision_source: NamedChoiceView,
    pub decided_at: Timestamp,
}

impl View for ApprovalDecision {
    type V = ApprovalDecisionView;

    open spec fn view(&self) -> ApprovalDecisionView {
        ApprovalDecisionView {
            decision: self.decision,
            scope: self.scope,
            decision_source: self.decision_source@,
            decided_at: self.decided_at,
        }
    }
}

impl Clone for ApprovalDecision {
    fn clone(&self) -> (result: Self)
        ensures
            result@ == self@,
    {
        let result = ApprovalDecision {
            decision: self.decision,
            scope: self.scope,
            decision_source: self.decision_source.clone(),
            decided_at: self.decided_at,
        };
        result
    }
}

/// An item. Values that tools take and give are kept as JSON texts.
#[derive(Debug, PartialEq, Eq)]
#[allow(inconsistent_fields)]
pub enum Item {
    UserMessage {
        client_user_message_id: Option<String>,
        content: Vec<UserInput>,
        entry: UserMessageEntry,
    },
    AssistantMessage { text: String, phase: Option<String> },
    Plan { entries: Vec<PlanEntry> },
    Reasoning { text: String, provider_payload_ref: Option<String> },
    ToolCall {
        call_id: String,
        tool_name: String,
        source: ToolSource,
        server_name: Option<String>,
        input: Option<String>,
    },
    ToolResult {
        call_id: String,
        output: String,
        display_content: Option<String>,
        is_error: bool,
        truncated: bool,
    },
    CommandExecution {
        call_id: String,
        command: String,
        argv: Option<Vec<String>>,
        cwd: String,
        input: Option<String>,
        output: Option<String>,
        exit_code: Option<i32>,
        execution_handle: Option<String>,
        is_error: bool,
        execution_mode: ExecutionMode,
        origin: ExecOrigin,
        sandbox: Option<String>,
    },
    /// A tool of the provider; its output is a plain text.
    HostedToolCall {
        call_id: String,
        tool_name: String,
        input: Option<String>,
        output_text: Option<String>,
    },
    ContextCompaction {
        trigger: CompactionTrigger,
        before: ContextUsage,
        after: Option<ContextUsage>,
        summary: Option<String>,
    },
    Approval {
        approval_id: String,
        target_item_id: Option<ItemId>,
        action_summary: String,
        justification: String,
        resource: Option<String>,
        available_scopes: Vec<String>,
        command_pattern: Option<Vec<String>>,
        command_prefix: Option<Vec<String>>,
        target: Option<ApprovalTarget>,
        decision: Option<ApprovalDecision>,
    },
    Warning { code: String, message: String, retryable: bool },
}

/// The view of [`Item`].
#[verifier::ext_equal]
#[allow(inconsistent_fields)]
pub enum ItemView {
    UserMessage {
        client_user_message_id: Option<Seq<char>>,
        content: Seq<UserInputView>,
        entry: UserMessageEntry,
    },
    AssistantMessage { text: Seq<char>, phase: Option<Seq<char>> },
    Plan { entries: Seq<PlanEntryView> },
    Reasoning { text: Seq<char>, provider_payload_ref: Option<Seq<char>> },
    ToolCall {
        call_id: Seq<char>,
        tool_name: Seq<char>,
        source: ToolSource,
        server_name: Option<Seq<char>>,
        input: Option<Seq<char>>,
    },
    ToolResult {
        call_id: Seq<char>,
        output: Seq<char>,
        display_content: Option<Seq<char>>,
        is_error: bool,
        truncated: bool,
    },
    CommandExecution {
        call_id: Seq<char>,
        command: Seq<char>,
        argv: Option<Seq<Seq<char>>>,
        cwd: Seq<char>,
        input: Option<Seq<char>>,
        output: Option<Seq<char>>,
        exit_code: Option<i32>,
        execution_handle: Option<Seq<char>>,
        is_error: bool,
        execution_mode: ExecutionMode,
        origin: ExecOrigin,
        sandbox: Option<Seq<char>>,
    },
    HostedToolCall {
        call_id: Seq<char>,
        tool_name: Seq<char>,
        input: Option<Seq<char>>,
        output_text: Option<Seq<char>>,
    },
    ContextCompaction {
        trigger: CompactionTrigger,
        before: ContextUsage,
        after: Option<ContextUsage>,
        summary: Option<Seq<char>>,
    },
    Approval {
        approval_id: Seq<char>,
        target_item_id: Option<Seq<char>>,
        action_summary: Seq<char>,
        justification: Seq<char>,
        resource: Option<Seq<char>>,
        available_scopes: Seq<Seq<char>>,
        command_pattern: Option<Seq<Seq<char>>>,
        command_prefix: Option<Seq<Seq<char>>>,
        target: Option<ApprovalTargetView>,
        decision: Option<ApprovalDecisionView>,
    },
    Warning { code: Seq<char>, message: Seq<char>, retryable: bool },
}

impl View for Item {
    type V = ItemView;

    open spec fn view(&self) -> ItemView {
        match self {
            Item::UserMessage { client_user_message_id, content, entry } => ItemView::UserMessage {
                client_user_message_id: opt_view(*client_user_message_id),
                content: views(content@),
                entry: *entry,
            },
            Item::AssistantMessage { text, phase } => ItemView::AssistantMessage {
                text: text@,
                phase: opt_view(*phase),
            },
            Item::Plan { entries } => ItemView::Plan {
                entries: views(entries@),
            },
            Item::Reasoning { text, provider_payload_ref } => ItemView::Reasoning {
                text: text@,
                provider_payload_ref: opt_view(*provider_payload_ref),
            },
            Item::ToolCall {
                call_id,
                tool_name,
                source,
                server_name,
                input,
            } => ItemView::ToolCall {
                call_id: call_id@,
                tool_name: tool_name@,
                source: *source,
                server_name: opt_view(*server_name),
                input: opt_view(*input),
            },
            Item::ToolResult {
                call_id,
                output,
                display_content,
                is_error,
                truncated,
            } => ItemView::ToolResult {
                call_id: call_id@,
                output: output@,
                display_content: opt_view(*display_content),
                is_error: *is_error,
                truncated: *truncated,
            },
            Item::CommandExecution {
                call_id,
                command,
                argv,
                cwd,
                input,
                output,
                exit_code,
                execution_handle,
                is_error,
                execution_mode,
                origin,
                sandbox,
            } => ItemView::CommandExecution {
                call_id: call_id@,
                command: command@,
                argv: opt_texts(*argv),
                cwd: cwd@,
                input: opt_view(*input),
                output: opt_view(*output),
                exit_code: *exit_code,
                execution_handle: opt_view(*execution_handle),
                is_error: *is_error,
                execution_mode: *execution_mode,
                origin: *origin,
                sandbox: opt_view(*sandbox),
            },
            Item::HostedToolCall {
                call_id,
                tool_name,
                input,
                output_text,
            } => ItemView::HostedToolCall {
                call_id: call_id@,
                tool_name: tool_name@,
                input: opt_view(*input),
                output_text: opt_view(*output_text),
            },
            Item::ContextCompaction {
                trigger,
                before,
                after,
                summary,
            } => ItemView::ContextCompaction {
                trigger: *trigger,
                before: *before,
                after: *after,
                summary: opt_view(*summary),
            },
            Item::Approval {
                approval_id,
                target_item_id,
                action_summary,
                justification,
                resource,
                available_scopes,
                command_pattern,
                command_prefix,
                target,
                decision,
            } => ItemView::Approval {
                approval_id: approval_id@,
                target_item_id: opt_view(*target_item_id),
                action_summary: action_summary@,
                justification: justification@,
                resource: opt_view(*resource),
                available_scopes: views(available_scopes@),
                command_pattern: opt_texts(*command_pattern),
                command_prefix: opt_texts(*command_prefix),
                target: opt_view(*target),
                decision: opt_view(*decision),
            },
            Item::Warning { code, message, retryable } => ItemView::Warning {
                code: code@,
                message: message@,
                retryable: *retryable,
            },
        }
    }
}

impl Clone for Item {
    fn clone(&self) -> (result: Self)
        ensures
            result@ == self@,
    {
        match self {
            Item::UserMessage { client_user_message_id, content, entry } => {
                let content_copy = content.clone();
                assert(views(content_copy@) =~= views(content@));
                Item::UserMessage {
                    client_user_message_id: client_user_message_id.clone(),
                    content: content_copy,
                    entry: *entry,
                }
            },
            Item::AssistantMessage { text, phase } => {
                Item::AssistantMessage {
                    text: text.clone(),
                    phase: phase.clone(),
                }
            },
            Item::Plan { entries } => {
                let entries_copy = entries.clone();
                assert(views(entries_copy@) =~= views(entries@));
                Item::Plan {
                    entries: entries_copy,
                }
            },
            Item::Reasoning { text, provider_payload_ref } => {
                Item::Reasoning {
                    text: text.clone(),
                    provider_payload_ref: provider_payload_ref.clone(),
                }
            },
            Item::ToolCall { call_id, tool_name, source, server_name, input } => {
                Item::ToolCall {
                    call_id: call_id.clone(),
                    tool_name: tool_name.clone(),
                    source: *source,
                    server_name: server_name.clone(),
                    input: input.clone(),
                }
            },
            Item::ToolResult { call_id, output, display_content, is_error, truncated } => {
                Item::ToolResult {
                    call_id: call_id.clone(),
                    output: output.clone(),
                    display_content: display_content.clone(),
                    is_error: *is_error,
                    truncated: *truncated,
                }
            },
            Item::CommandExecution {
                call_id,
                command,
                argv,
                cwd,
                input,
                output,
                exit_code,
                execution_handle,
                is_error,
                execution_mode,
                origin,
                sandbox,
            } => {
                Item::CommandExecution {
                    call_id: call_id.clone(),
                    command: command.clone(),
                    argv: clone_opt_texts(argv),
                    cwd: cwd.clone(),
                    input: input.clone(),
                    output: output.clone(),
                    exit_code: *exit_code,
                    execution_handle: execution_handle.clone(),
                    is_error: *is_error,
                    execution_mode: *execution_mode,
                    origin: *origin,
                    sandbox: sandbox.clone(),
                }
            },
            Item::HostedToolCall { call_id, tool_name, input, output_text } => {
                Item::HostedToolCall {
                    call_id: call_id.clone(),
                    tool_name: tool_name.clone(),
                    input: input.clone(),
                    output_text: output_text.clone(),
                }
            },
            Item::ContextCompaction { trigger, before, after, summary } => {
                Item::ContextCompaction {
                    trigger: *trigger,
                    before: *before,
                    after: *after,
                    summary: summary.clone(),
                }
            },
            Item::Approval {
                approval_id,
                target_item_id,
                action_summary,
                justification,
                resource,
                available_scopes,
                command_pattern,
                command_prefix,
                target,
                decision,
            } => {
                let available_scopes_copy = available_scopes.clone();
                assert(views(available_scopes_copy@) =~= views(available_scopes@));
                Item::Approval {
                    approval_id: approval_id.clone(),
                    target_item_id: target_item_id.clone(),
                    action_summary: action_summary.clone(),
                    justification: justification.clone(),
                    resource: resource.clone(),
                    available_scopes: available_scopes_copy,
                    command_pattern: clone_opt_texts(command_pattern),
                    command_prefix: clone_opt_texts(command_prefix),
                    target: target.clone(),
                    decision: decision.clone(),
                }
            },
            Item::Warning { code, message, retryable } => {
                Item::Warning {
                    code: code.clone(),
                    message: message.clone(),
                    retryable: *retryable,
                }
            },
        }
    }
}

/// An item, with its place in a session.
#[derive(Debug, PartialEq, Eq)]
pub struct ItemEnvelope {
    pub id: ItemId,
    pub session_id: SessionId,
    pub turn_id: TurnId,
    /// Place among the items of the session, kept over revisions.
    pub seq: u64,
    pub revision: u32,
    pub created_at: Timestamp,
    pub updated_at: Timestamp,
    pub state: ItemState,
    pub item: Item,
}

/// The view of [`ItemEnvelope`].
#[verifier::ext_equal]
pub struct ItemEnvelopeView {
    pub id: Seq<char>,
    pub session_id: Seq<char>,
    pub turn_id: Seq<char>,
    pub seq: u64,
    pub revision: u32,
    pub created_at: Timestamp,
    pub updated_at: Timestamp,
    pub state: ItemState,
    pub item: ItemView,
}

impl View for ItemEnvelope {
    type V = ItemEnvelopeView;

    open spec fn view(&self) -> ItemEnvelopeView {
        ItemEnvelopeView {
            id: self.id@,
            session_id: self.session_id@,
            turn_id: self.turn_id@,
            seq: self.seq,
            revision: self.revision,
            created_at: self.created_at,
            updated_at: self.updated_at,
            state: self.state,
            item: self.item@,
        }
    }
}

impl Clone for ItemEnvelope {
    fn clone(&self) -> (result: Self)
        ensures
            result@ == self@,
    {
        let result = ItemEnvelope {
            id: self.id.clone(),
            session_id: self.session_id.clone(),
            turn_id: self.turn_id.clone(),
            seq: self.seq,
            revision: self.revision,
            created_at: self.created_at,
            updated_at: self.updated_at,
            state: self.state,
            item: self.item.clone(),
        };
        result
    }
}

} // verus!
