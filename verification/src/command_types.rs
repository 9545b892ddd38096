//! Commands of the memory runtime and what they carry.

use vstd::prelude::*;

use crate::config::MemorySetting;
use crate::core_ids::{SessionId, TurnId};
use crate::ids::{ItemId, MemoryEntryId};
use crate::rpc_memory::{
    MemoryEntry, MemoryEntryView, MemoryForgetParams, MemoryForgetResult, MemoryKind,
    MemoryListResult, MemoryOrigin, MemoryScope, MemoryState, MemoryStatus,
};
use crate::text::{opt_view, views};
use crate::time::Timestamp;

verus! {

/// A workspace directory and the project that owns it.
#[derive(Debug, PartialEq, Eq)]
pub struct WorkspaceRoot {
    /// The directory, as the bytes in which its platform encodes the path.
    pub path: Vec<u8>,
    /// The project's scope ID, or why it could not be resolved.
    pub project_scope: Result<String, String>,
}

/// The view of [`WorkspaceRoot`].
#[verifier::ext_equal]
pub struct WorkspaceRootView {
    pub path: Seq<u8>,
    pub project_scope: Result<Seq<char>, Seq<char>>,
}

impl View for WorkspaceRoot {
    type V = WorkspaceRootView;

    open spec fn view(&self) -> WorkspaceRootView {
        WorkspaceRootView {
            path: self.path@,
            project_scope: match self.project_scope {
                Ok(scope_id) => Ok(scope_id@),
                Err(message) => Err(message@),
            },
        }
    }
}

impl Clone for WorkspaceRoot {
    fn clone(&self) -> (result: Self)
        ensures
            result@ == self@,
    {
        let result = WorkspaceRoot {
            path: self.path.clone(),
            project_scope: match &self.project_scope {
                Ok(scope_id) => Ok(scope_id.clone()),
                Err(message) => Err(message.clone()),
            },
        };
        assert(result.path@ =~= self.path@);
        result
    }
}

/// Whether a project candidate owns an active turn or is only selected.
#[derive(Debug, Clone, Copy, PartialEq, Eq, Structural)]
pub enum ProjectMemorySessionActivity {
    Active,
    Inactive,
}

/// Native Session facts needed to resolve a Project scope.
#[derive(Debug, PartialEq, Eq)]
pub struct ProjectMemorySession {
    pub session_id: SessionId,
    /// The workspace of the session summary, or `None` when the summary is
    /// unavailable.
    pub workspace_root: Option<WorkspaceRoot>,
    pub activity: ProjectMemorySessionActivity,
}

/// The view of [`ProjectMemorySession`].
#[verifier::ext_equal]
pub struct ProjectMemorySessionView {
    pub session_id: SessionId,
    pub workspace_root: Option<WorkspaceRootView>,
    pub activity: ProjectMemorySessionActivity,
}

impl View for ProjectMemorySession {
    type V = ProjectMemorySessionView;

    open spec fn view(&self) -> ProjectMemorySessionView {
        ProjectMemorySessionView {
            session_id: self.session_id,
            workspace_root: opt_view(self.workspace_root),
            activity: self.activity,
        }
    }
}

impl Clone for ProjectMemorySession {
    fn clone(&self) -> (result: Self)
        ensures
            result@ == self@,
    {
        let result = ProjectMemorySession {
            session_id: self.session_id,
            workspace_root: self.workspace_root.clone(),
            activity: self.activity,
        };
        result
    }
}

/// Provenance and workspace context shared by memory mutations.
#[derive(Debug, PartialEq, Eq)]
pub struct MemorySourceContext {
    pub user_item_id: Option<ItemId>,
    pub session_id: SessionId,
    pub turn_id: Option<TurnId>,
    pub workspace_root: WorkspaceRoot,
}

/// The view of [`MemorySourceContext`].
#[verifier::ext_equal]
pub struct MemorySourceContextView {
    pub user_item_id: Option<Seq<char>>,
    pub session_id: SessionId,
    pub turn_id: Option<TurnId>,
    pub workspace_root: WorkspaceRootView,
}

impl View for MemorySourceContext {
    type V = MemorySourceContextView;

    open spec fn view(&self) -> MemorySourceContextView {
        MemorySourceContextView {
            user_item_id: opt_view(self.user_item_id),
            session_id: self.session_id,
            turn_id: self.turn_id,
            workspace_root: self.workspace_root@,
        }
    }
}

impl Clone for MemorySourceContext {
    fn clone(&self) -> (result: Self)
        ensures
            result@ == self@,
    {
        let result = MemorySourceContext {
            user_item_id: self.user_item_id.clone(),
            session_id: self.session_id,
            turn_id: self.turn_id,
            workspace_root: self.workspace_root.clone(),
        };
        result
    }
}

/// An explicit user request to remember. The source identifiers are kept as
/// provenance only.
#[derive(Debug, PartialEq, Eq)]
pub struct MemoryRememberRequest {
    pub text: String,
    pub scope: MemoryScope,
    pub kind: Option<MemoryKind>,
    pub source: MemorySourceContext,
}

/// The view of [`MemoryRememberRequest`].
#[verifier::ext_equal]
pub struct MemoryRememberRequestView {
    pub text: Seq<char>,
    pub scope: MemoryScope,
    pub kind: Option<MemoryKind>,
    pub source: MemorySourceContextView,
}

impl View for MemoryRememberRequest {
    type V = MemoryRememberRequestView;

    open spec fn view(&self) -> MemoryRememberRequestView {
        MemoryRememberRequestView {
            text: self.text@,
            scope: self.scope,
            kind: self.kind,
            source: self.source@,
        }
    }
}

impl Clone for MemoryRememberRequest {
    fn clone(&self) -> (result: Self)
        ensures
            result@ == self@,
    {
        let result = MemoryRememberRequest {
            text: self.text.clone(),
            scope: self.scope,
            kind: self.kind,
            source: self.source.clone(),
        };
        result
    }
}

/// One observation of the passive extraction path. It cannot bring a revoked
/// identity back.
#[derive(Debug, PartialEq, Eq)]
pub struct MemoryInferredRememberRequest {
    pub text: String,
    pub scope: MemoryScope,
    pub kind: Option<MemoryKind>,
    pub source: MemorySourceContext,
    pub source_observed_at: Timestamp,
    pub source_watermark: String,
}

/// The view of [`MemoryInferredRememberRequest`].
#[verifier::ext_equal]
pub struct MemoryInferredRememberRequestView {
    pub text: Seq<char>,
    pub scope: MemoryScope,
    pub kind: Option<MemoryKind>,
    pub source: MemorySourceContextView,
    pub source_observed_at: Timestamp,
    pub source_watermark: Seq<char>,
}

impl View for MemoryInferredRememberRequest {
    type V = MemoryInferredRememberRequestView;

    open spec fn view(&self) -> MemoryInferredRememberRequestView {
        MemoryInferredRememberRequestView {
            text: self.text@,
            scope: self.scope,
            kind: self.kind,
            source: self.source@,
            source_observed_at: self.source_observed_at,
            source_watermark: self.source_watermark@,
        }
    }
}

impl Clone for MemoryInferredRememberRequest {
    fn clone(&self) -> (result: Self)
        ensures
            result@ == self@,
    {
        let result = MemoryInferredRememberRequest {
            text: self.text.clone(),
            scope: self.scope,
            kind: self.kind,
            source: self.source.clone(),
            source_observed_at: self.source_observed_at,
            source_watermark: self.source_watermark.clone(),
        };
        result
    }
}

/// What a forget request selects.
#[derive(Debug, PartialEq, Eq)]
pub enum MemoryForgetSelector {
    /// One entry by its stable identity.
    EntryId(MemoryEntryId),
    /// Entries whose body or normalized identity holds this text.
    Text(String),
}

/// The view of [`MemoryForgetSelector`].
pub enum MemoryForgetSelectorView {
    EntryId(Seq<char>),
    Text(Seq<char>),
}

impl View for MemoryForgetSelector {
    type V = MemoryForgetSelectorView;

    open spec fn view(&self) -> MemoryForgetSelectorView {
        match self {
            MemoryForgetSelector::EntryId(entry_id) => MemoryForgetSelectorView::EntryId(
                entry_id@,
            ),
            MemoryForgetSelector::Text(text) => MemoryForgetSelectorView::Text(text@),
        }
    }
}

impl Clone for MemoryForgetSelector {
    fn clone(&self) -> (result: Self)
        ensures
            result@ == self@,
    {
        match self {
            MemoryForgetSelector::EntryId(entry_id) => MemoryForgetSelector::EntryId(
                entry_id.clone(),
            ),
            MemoryForgetSelector::Text(text) => MemoryForgetSelector::Text(text.clone()),
        }
    }
}

impl MemoryForgetSelector {
    /// Takes the selector out of request parameters, which must hold exactly one.
    pub fn from_params(params: &MemoryForgetParams) -> (result: Result<Self, &'static str>)
        ensures
            match (opt_view(params.entry_id), opt_view(params.text)) {
                (Some(entry_id), None) => result matches Ok(selector) && selector@
                    == MemoryForgetSelectorView::EntryId(entry_id),
                (None, Some(text)) => result matches Ok(selector) && selector@
                    == MemoryForgetSelectorView::Text(text),
                (Some(_), Some(_)) => result matches Err(message) && message@
                    == "memory forget accepts exactly one of entryId or text"@,
                (None, None) => result matches Err(message) && message@
                    == "memory forget requires entryId or text"@,
            },
    {
        match (&params.entry_id, &params.text) {
            (Some(entry_id), None) => Ok(MemoryForgetSelector::EntryId(entry_id.clone())),
            (None, Some(text)) => Ok(MemoryForgetSelector::Text(text.clone())),
            (Some(_), Some(_)) => Err("memory forget accepts exactly one of entryId or text"),
            (None, None) => Err("memory forget requires entryId or text"),
        }
    }
}

/// A request to forget one entry, by its stable ID or by a text that matches it.
#[derive(Debug, PartialEq, Eq)]
pub struct MemoryForgetRequest {
    pub selector: MemoryForgetSelector,
    pub scope: MemoryScope,
    pub source: MemorySourceContext,
}

/// The view of [`MemoryForgetRequest`].
#[verifier::ext_equal]
pub struct MemoryForgetRequestView {
    pub selector: MemoryForgetSelectorView,
    pub scope: MemoryScope,
    pub source: MemorySourceContextView,
}

impl View for MemoryForgetRequest {
    type V = MemoryForgetRequestView;

    open spec fn view(&self) -> MemoryForgetRequestView {
        MemoryForgetRequestView {
            selector: self.selector@,
            scope: self.scope,
            source: self.source@,
        }
    }
}

impl Clone for MemoryForgetRequest {
    fn clone(&self) -> (result: Self)
        ensures
            result@ == self@,
    {
        let result = MemoryForgetRequest {
            selector: self.selector.clone(),
            scope: self.scope,
            source: self.source.clone(),
        };
        result
    }
}

/// The sessions among which the source of a forget request is looked for.
#[derive(Debug, PartialEq, Eq)]
pub struct MemoryForgetSource {
    pub bound_session_id: Option<SessionId>,
    pub user_session_id: Option<SessionId>,
    pub sessions: Vec<ProjectMemorySession>,
}

/// The view of [`MemoryForgetSource`].
#[verifier::ext_equal]
pub struct MemoryForgetSourceView {
    pub bound_session_id: Option<SessionId>,
    pub user_session_id: Option<SessionId>,
    pub sessions: Seq<ProjectMemorySessionView>,
}

impl View for MemoryForgetSource {
    type V = MemoryForgetSourceView;

    open spec fn view(&self) -> MemoryForgetSourceView {
        MemoryForgetSourceView {
            bound_session_id: self.bound_session_id,
            user_session_id: self.user_session_id,
            sessions: views(self.sessions@),
        }
    }
}

impl Clone for MemoryForgetSource {
    fn clone(&self) -> (result: Self)
        ensures
            result@ == self@,
    {
        let result = MemoryForgetSource {
            bound_session_id: self.bound_session_id,
            user_session_id: self.user_session_id,
            sessions: self.sessions.clone(),
        };
        assert(views(result.sessions@) =~= views(self.sessions@));
        result
    }
}

/// What a prepared forget request will retire.
#[derive(Debug, PartialEq, Eq)]
pub enum PreparedMemoryForgetTarget {
    /// This entry, as it stood when the request was prepared.
    Exact(MemoryEntry),
    /// The one entry that matches this text.
    Text(String),
}

/// The view of [`PreparedMemoryForgetTarget`].
pub enum PreparedMemoryForgetTargetView {
    Exact(MemoryEntryView),
    Text(Seq<char>),
}

impl View for PreparedMemoryForgetTarget {
    type V = PreparedMemoryForgetTargetView;

    open spec fn view(&self) -> PreparedMemoryForgetTargetView {
        match self {
            PreparedMemoryForgetTarget::Exact(entry) => PreparedMemoryForgetTargetView::Exact(
                entry@,
            ),
            PreparedMemoryForgetTarget::Text(text) => PreparedMemoryForgetTargetView::Text(text@),
        }
    }
}

impl Clone for PreparedMemoryForgetTarget {
    fn clone(&self) -> (result: Self)
        ensures
            result@ == self@,
    {
        match self {
            PreparedMemoryForgetTarget::Exact(entry) => PreparedMemoryForgetTarget::Exact(
                entry.clone(),
            ),
            PreparedMemoryForgetTarget::Text(text) => PreparedMemoryForgetTarget::Text(
                text.clone(),
            ),
        }
    }
}

/// A forget request whose target and scope are resolved.
#[derive(Debug, PartialEq, Eq)]
pub struct PreparedMemoryForgetRequest {
    pub target: PreparedMemoryForgetTarget,
    pub scope: MemoryScope,
    pub scope_id: String,
    pub source_session_id: SessionId,
}

/// The view of [`PreparedMemoryForgetRequest`].
#[verifier::ext_equal]
pub struct PreparedMemoryForgetRequestView {
    pub target: PreparedMemoryForgetTargetView,
    pub scope: MemoryScope,
    pub scope_id: Seq<char>,
    pub source_session_id: SessionId,
}

impl View for PreparedMemoryForgetRequest {
    type V = PreparedMemoryForgetRequestView;

    open spec fn view(&self) -> PreparedMemoryForgetRequestView {
        PreparedMemoryForgetRequestView {
            target: self.target@,
            scope: self.scope,
            scope_id: self.scope_id@,
            source_session_id: self.source_session_id,
        }
    }
}

impl Clone for PreparedMemoryForgetRequest {
    fn clone(&self) -> (result: Self)
        ensures
            result@ == self@,
    {
        let result = PreparedMemoryForgetRequest {
            target: self.target.clone(),
            scope: self.scope,
            scope_id: self.scope_id.clone(),
            source_session_id: self.source_session_id,
        };
        result
    }
}

/// Filters and paging of a memory inspection.
#[derive(Debug, PartialEq, Eq)]
pub struct ListMemoryRequest {
    pub scope: Option<MemoryScope>,
    pub kind: Option<MemoryKind>,
    pub state: Option<MemoryState>,
    pub origin: Option<MemoryOrigin>,
    pub text: Option<String>,
    pub cursor: Option<String>,
    pub limit: Option<u32>,
    pub workspace_root: WorkspaceRoot,
}

/// The view of [`ListMemoryRequest`].
#[verifier::ext_equal]
pub struct ListMemoryRequestView {
    pub scope: Option<MemoryScope>,
    pub kind: Option<MemoryKind>,
    pub state: Option<MemoryState>,
    pub origin: Option<MemoryOrigin>,
    pub text: Option<Seq<char>>,
    pub cursor: Option<Seq<char>>,
    pub limit: Option<u32>,
    pub workspace_root: WorkspaceRootView,
}

impl View for ListMemoryRequest {
    type V = ListMemoryRequestView;

    open spec fn view(&self) -> ListMemoryRequestView {
        ListMemoryRequestView {
            scope: self.scope,
            kind: self.kind,
            state: self.state,
            origin: self.origin,
            text: opt_view(self.text),
            cursor: opt_view(self.cursor),
            limit: self.limit,
            workspace_root: self.workspace_root@,
        }
    }
}

impl Clone for ListMemoryRequest {
    fn clone(&self) -> (result: Self)
        ensures
            result@ == self@,
    {
        let result = ListMemoryRequest {
            scope: self.scope,
            kind: self.kind,
            state: self.state,
            origin: self.origin,
            text: self.text.clone(),
            cursor: self.cursor.clone(),
            limit: self.limit,
            workspace_root: self.workspace_root.clone(),
        };
        result
    }
}

/// Project-scoped operations of [`MemoryCommand::Project`].
#[derive(Debug, PartialEq, Eq)]
#[allow(inconsistent_fields)]
pub enum ProjectMemoryOperation {
    /// Validate, commit and project an explicit Project memory.
    Remember {
        text: String,
        kind: Option<MemoryKind>,
        source_user_item_id: Option<ItemId>,
        /// Session of the active turn; without one the selected Project session
        /// is the source.
        source_session_id: Option<SessionId>,
        source_turn_id: Option<TurnId>,
    },
    /// Return a filtered page of Project memory.
    List {
        kind: Option<MemoryKind>,
        state: Option<MemoryState>,
        origin: Option<MemoryOrigin>,
        text: Option<String>,
        cursor: Option<String>,
        limit: Option<u32>,
    },
}

/// Commands of the memory runtime.
#[derive(Debug, PartialEq, Eq)]
pub enum MemoryCommand {
    /// Return the effective feature state and safe aggregate health counts.
    Status,
    /// Validate, commit and project an explicit user memory.
    Remember(MemoryRememberRequest),
    /// Retire one exact identity, or return candidates for an ambiguous text.
    Forget(MemoryForgetRequest),
    /// Return a filtered page of memory entries.
    List(ListMemoryRequest),
    /// Resolve Native Session candidates to one Project scope and execute the
    /// operation within it.
    Project { candidates: Vec<ProjectMemorySession>, operation: ProjectMemoryOperation },
}

/// Result of a [`MemoryCommand`].
#[derive(Debug, PartialEq, Eq)]
pub enum MemoryCommandResult {
    Status(MemoryStatus),
    Remember(MemoryEntry),
    Forget(MemoryForgetResult),
    List(MemoryListResult),
}

/// Input of turn preparation.
#[derive(Debug, PartialEq, Eq)]
pub struct PrepareMemoryRequest {
    pub workspace_root: WorkspaceRoot,
    /// Recall preference of the session, before the global default is applied.
    pub session_recall: MemorySetting,
}

/// The view of [`PrepareMemoryRequest`].
#[verifier::ext_equal]
pub struct PrepareMemoryRequestView {
    pub workspace_root: WorkspaceRootView,
    pub session_recall: MemorySetting,
}

impl View for PrepareMemoryRequest {
    type V = PrepareMemoryRequestView;

    open spec fn view(&self) -> PrepareMemoryRequestView {
        PrepareMemoryRequestView {
            workspace_root: self.workspace_root@,
            session_recall: self.session_recall,
        }
    }
}

impl Clone for PrepareMemoryRequest {
    fn clone(&self) -> (result: Self)
        ensures
            result@ == self@,
    {
        let result = PrepareMemoryRequest {
            workspace_root: self.workspace_root.clone(),
            session_recall: self.session_recall,
        };
        result
    }
}

/// Memory context prepared for a turn.
#[derive(Debug, PartialEq, Eq, Default)]
pub struct PreparedMemory {
    pub project_scope_id: Option<String>,
    pub user_entries: Vec<MemoryEntry>,
}

/// The view of [`PreparedMemory`].
#[verifier::ext_equal]
pub struct PreparedMemoryView {
    pub project_scope_id: Option<Seq<char>>,
    pub user_entries: Seq<MemoryEntryView>,
}

impl View for PreparedMemory {
    type V = PreparedMemoryView;

    open spec fn view(&self) -> PreparedMemoryView {
        PreparedMemoryView {
            project_scope_id: opt_view(self.project_scope_id),
            user_entries: views(self.user_entries@),
        }
    }
}

impl Clone for PreparedMemory {
    fn clone(&self) -> (result: Self)
        ensures
            result@ == self@,
    {
        let result = PreparedMemory {
            project_scope_id: self.project_scope_id.clone(),
            user_entries: self.user_entries.clone(),
        };
        assert(views(result.user_entries@) =~= views(self.user_entries@));
        result
    }
}

/// A completed session source eligible for memory extraction.
#[derive(Debug, Clone, Copy, PartialEq, Eq, Structural)]
pub struct SessionMemorySource {
    /// Contribution preference of the session, before the global default is
    /// applied.
    pub session_contribution: MemorySetting,
}

impl Default for SessionMemorySource {
    fn default() -> (result: Self)
        ensures
            result.session_contribution == MemorySetting::Inherit,
    {
        SessionMemorySource { session_contribution: MemorySetting::Inherit }
    }
}

/// Outcome of an attempt to enqueue a session source.
#[derive(Debug, Clone, Copy, PartialEq, Eq, Structural, Default)]
pub struct EnqueueOutcome {
    /// Whether the source was accepted for processing.
    pub accepted: bool,
}

} // verus!
