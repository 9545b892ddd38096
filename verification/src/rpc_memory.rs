//! Parameter and result types of the General Persistent Memory API.

use vstd::prelude::*;

use crate::ids::{ItemId, MemoryEntryId};
use crate::text::{opt_view, views};
use crate::time::Timestamp;

verus! {

/// Parameters of `memory/status`.
#[derive(Debug, Clone, Copy, PartialEq, Eq, Structural, Default)]
pub struct MemoryStatusParams {}

/// Scope that owns a memory entry.
#[derive(Debug, Clone, Copy, PartialEq, Eq, Structural)]
pub enum MemoryScope {
    /// Memory shared by the current user across projects.
    User,
    /// Memory associated with the current project identity.
    Project,
}

impl Default for MemoryScope {
    fn default() -> (result: Self)
        ensures
            result == MemoryScope::User,
    {
        MemoryScope::User
    }
}

/// Approved semantic kind of a memory entry.
#[derive(Debug, Clone, Copy, PartialEq, Eq, Structural)]
pub enum MemoryKind {
    Preference,
    Feedback,
    Fact,
    Reference,
}

/// Lifecycle state of a memory entry.
#[derive(Debug, Clone, Copy, PartialEq, Eq, Structural)]
pub enum MemoryState {
    Active,
    Stale,
    Conflicted,
    Retired,
    /// Remembered again by the user after it was forgotten.
    Restored,
}

/// Origin of a memory entry.
#[derive(Debug, Clone, Copy, PartialEq, Eq, Structural)]
pub enum MemoryOrigin {
    ExplicitUser,
    InferredSession,
}

/// Provenance summary that is safe to return with a memory entry.
#[derive(Debug, PartialEq, Eq)]
pub struct MemoryProvenance {
    pub source_session_id: Option<String>,
    pub source_turn_id: Option<String>,
    pub source_user_item_id: Option<ItemId>,
}

/// The view of [`MemoryProvenance`].
#[verifier::ext_equal]
pub struct MemoryProvenanceView {
    pub source_session_id: Option<Seq<char>>,
    pub source_turn_id: Option<Seq<char>>,
    pub source_user_item_id: Option<Seq<char>>,
}

impl View for MemoryProvenance {
    type V = MemoryProvenanceView;

    open spec fn view(&self) -> MemoryProvenanceView {
        MemoryProvenanceView {
            source_session_id: opt_view(self.source_session_id),
            source_turn_id: opt_view(self.source_turn_id),
            source_user_item_id: opt_view(self.source_user_item_id),
        }
    }
}

impl Clone for MemoryProvenance {
    fn clone(&self) -> (result: Self)
        ensures
            result@ == self@,
    {
        let result = MemoryProvenance {
            source_session_id: self.source_session_id.clone(),
            source_turn_id: self.source_turn_id.clone(),
            source_user_item_id: self.source_user_item_id.clone(),
        };
        result
    }
}

/// Canonical, readable projection of one memory entry.
#[derive(Debug, PartialEq, Eq)]
pub struct MemoryEntry {
    pub entry_id: MemoryEntryId,
    pub scope: MemoryScope,
    pub scope_id: String,
    pub kind: MemoryKind,
    pub normalized_key: String,
    pub body: String,
    pub origin: MemoryOrigin,
    pub state: MemoryState,
    pub created_at: Timestamp,
    pub updated_at: Timestamp,
    pub replacement_entry_id: Option<MemoryEntryId>,
    pub provenance: Vec<MemoryProvenance>,
}

/// The view of [`MemoryEntry`].
#[verifier::ext_equal]
pub struct MemoryEntryView {
    pub entry_id: Seq<char>,
    pub scope: MemoryScope,
    pub scope_id: Seq<char>,
    pub kind: MemoryKind,
    pub normalized_key: Seq<char>,
    pub body: Seq<char>,
    pub origin: MemoryOrigin,
    pub state: MemoryState,
    pub created_at: Timestamp,
    pub updated_at: Timestamp,
    pub replacement_entry_id: Option<Seq<char>>,
    pub provenance: Seq<MemoryProvenanceView>,
}

impl View for MemoryEntry {
    type V = MemoryEntryView;

    open spec fn view(&self) -> MemoryEntryView {
        MemoryEntryView {
            entry_id: self.entry_id@,
            scope: self.scope,
            scope_id: self.scope_id@,
            kind: self.kind,
            normalized_key: self.normalized_key@,
            body: self.body@,
            origin: self.origin,
            state: self.state,
            created_at: self.created_at,
            updated_at: self.updated_at,
            replacement_entry_id: opt_view(self.replacement_entry_id),
            provenance: views(self.provenance@),
        }
    }
}

impl Clone for MemoryEntry {
    fn clone(&self) -> (result: Self)
        ensures
            result@ == self@,
    {
        let result = MemoryEntry {
            entry_id: self.entry_id.clone(),
            scope: self.scope,
            scope_id: self.scope_id.clone(),
            kind: self.kind,
            normalized_key: self.normalized_key.clone(),
            body: self.body.clone(),
            origin: self.origin,
            state: self.state,
            created_at: self.created_at,
            updated_at: self.updated_at,
            replacement_entry_id: self.replacement_entry_id.clone(),
            provenance: self.provenance.clone(),
        };
        assert(views(result.provenance@) =~= views(self.provenance@));
        result
    }
}

/// Parameters of an explicit user memory write.
#[derive(Debug, PartialEq, Eq)]
pub struct MemoryRememberParams {
    pub text: String,
    pub scope: MemoryScope,
    pub kind: Option<MemoryKind>,
    pub source_user_item_id: Option<ItemId>,
}

/// The view of [`MemoryRememberParams`].
#[verifier::ext_equal]
pub struct MemoryRememberParamsView {
    pub text: Seq<char>,
    pub scope: MemoryScope,
    pub kind: Option<MemoryKind>,
    pub source_user_item_id: Option<Seq<char>>,
}

impl View for MemoryRememberParams {
    type V = MemoryRememberParamsView;

    open spec fn view(&self) -> MemoryRememberParamsView {
        MemoryRememberParamsView {
            text: self.text@,
            scope: self.scope,
            kind: self.kind,
            source_user_item_id: opt_view(self.source_user_item_id),
        }
    }
}

impl Clone for MemoryRememberParams {
    fn clone(&self) -> (result: Self)
        ensures
            result@ == self@,
    {
        let result = MemoryRememberParams {
            text: self.text.clone(),
            scope: self.scope,
            kind: self.kind,
            source_user_item_id: self.source_user_item_id.clone(),
        };
        result
    }
}

/// Parameters of safe memory inspection.
#[derive(Debug, PartialEq, Eq, Default)]
pub struct MemoryListParams {
    pub scope: Option<MemoryScope>,
    pub kind: Option<MemoryKind>,
    pub state: Option<MemoryState>,
    pub origin: Option<MemoryOrigin>,
    pub text: Option<String>,
    pub cursor: Option<String>,
    pub limit: Option<u32>,
}

/// The view of [`MemoryListParams`].
#[verifier::ext_equal]
pub struct MemoryListParamsView {
    pub scope: Option<MemoryScope>,
    pub kind: Option<MemoryKind>,
    pub state: Option<MemoryState>,
    pub origin: Option<MemoryOrigin>,
    pub text: Option<Seq<char>>,
    pub cursor: Option<Seq<char>>,
    pub limit: Option<u32>,
}

impl View for MemoryListParams {
    type V = MemoryListParamsView;

    open spec fn view(&self) -> MemoryListParamsView {
        MemoryListParamsView {
            scope: self.scope,
            kind: self.kind,
            state: self.state,
            origin: self.origin,
            text: opt_view(self.text),
            cursor: opt_view(self.cursor),
            limit: self.limit,
        }
    }
}

impl Clone for MemoryListParams {
    fn clone(&self) -> (result: Self)
        ensures
            result@ == self@,
    {
        let result = MemoryListParams {
            scope: self.scope,
            kind: self.kind,
            state: self.state,
            origin: self.origin,
            text: self.text.clone(),
            cursor: self.cursor.clone(),
            limit: self.limit,
        };
        result
    }
}

/// Parameters of a forget request: one stable entry ID, or a text to match.
#[derive(Debug, PartialEq, Eq)]
pub struct MemoryForgetParams {
    pub entry_id: Option<MemoryEntryId>,
    pub text: Option<String>,
    pub scope: MemoryScope,
    pub source_user_item_id: Option<ItemId>,
}

/// The view of [`MemoryForgetParams`].
#[verifier::ext_equal]
pub struct MemoryForgetParamsView {
    pub entry_id: Option<Seq<char>>,
    pub text: Option<Seq<char>>,
    pub scope: MemoryScope,
    pub source_user_item_id: Option<Seq<char>>,
}

impl View for MemoryForgetParams {
    type V = MemoryForgetParamsView;

    open spec fn view(&self) -> MemoryForgetParamsView {
        MemoryForgetParamsView {
            entry_id: opt_view(self.entry_id),
            text: opt_view(self.text),
            scope: self.scope,
            source_user_item_id: opt_view(self.source_user_item_id),
        }
    }
}

impl Clone for MemoryForgetParams {
    fn clone(&self) -> (result: Self)
        ensures
            result@ == self@,
    {
        let result = MemoryForgetParams {
            entry_id: self.entry_id.clone(),
            text: self.text.clone(),
            scope: self.scope,
            source_user_item_id: self.source_user_item_id.clone(),
        };
        result
    }
}

/// Parameters of a memory search.
#[derive(Debug, PartialEq, Eq)]
pub struct MemorySearchParams {
    pub query: String,
    pub scope: Option<MemoryScope>,
    pub kind: Option<MemoryKind>,
    pub state: Option<MemoryState>,
}

/// The view of [`MemorySearchParams`].
#[verifier::ext_equal]
pub struct MemorySearchParamsView {
    pub query: Seq<char>,
    pub scope: Option<MemoryScope>,
    pub kind: Option<MemoryKind>,
    pub state: Option<MemoryState>,
}

impl View for MemorySearchParams {
    type V = MemorySearchParamsView;

    open spec fn view(&self) -> MemorySearchParamsView {
        MemorySearchParamsView {
            query: self.query@,
            scope: self.scope,
            kind: self.kind,
            state: self.state,
        }
    }
}

impl Clone for MemorySearchParams {
    fn clone(&self) -> (result: Self)
        ensures
            result@ == self@,
    {
        let result = MemorySearchParams {
            query: self.query.clone(),
            scope: self.scope,
            kind: self.kind,
            state: self.state,
        };
        result
    }
}

/// One candidate that a memory search returns.
#[derive(Debug, PartialEq, Eq)]
pub struct MemorySearchEntry {
    pub entry_id: MemoryEntryId,
    pub scope: MemoryScope,
    pub kind: MemoryKind,
    pub state: MemoryState,
    pub summary: String,
}

/// The view of [`MemorySearchEntry`].
#[verifier::ext_equal]
pub struct MemorySearchEntryView {
    pub entry_id: Seq<char>,
    pub scope: MemoryScope,
    pub kind: MemoryKind,
    pub state: MemoryState,
    pub summary: Seq<char>,
}

impl View for MemorySearchEntry {
    type V = MemorySearchEntryView;

    open spec fn view(&self) -> MemorySearchEntryView {
        MemorySearchEntryView {
            entry_id: self.entry_id@,
            scope: self.scope,
            kind: self.kind,
            state: self.state,
            summary: self.summary@,
        }
    }
}

impl Clone for MemorySearchEntry {
    fn clone(&self) -> (result: Self)
        ensures
            result@ == self@,
    {
        let result = MemorySearchEntry {
            entry_id: self.entry_id.clone(),
            scope: self.scope,
            kind: self.kind,
            state: self.state,
            summary: self.summary.clone(),
        };
        result
    }
}

/// Candidates that a memory search returns.
#[derive(Debug, PartialEq, Eq)]
pub struct MemorySearchResult {
    pub data: Vec<MemorySearchEntry>,
}

/// The view of [`MemorySearchResult`].
#[verifier::ext_equal]
pub struct MemorySearchResultView {
    pub data: Seq<MemorySearchEntryView>,
}

impl View for MemorySearchResult {
    type V = MemorySearchResultView;

    open spec fn view(&self) -> MemorySearchResultView {
        MemorySearchResultView {
            data: views(self.data@),
        }
    }
}

impl Clone for MemorySearchResult {
    fn clone(&self) -> (result: Self)
        ensures
            result@ == self@,
    {
        let result = MemorySearchResult {
            data: self.data.clone(),
        };
        assert(views(result.data@) =~= views(self.data@));
        result
    }
}

/// Outcome of a forget request: the retired entry, or the entries that match.
#[derive(Debug, PartialEq, Eq)]
pub struct MemoryForgetResult {
    pub forgotten: Option<MemoryEntry>,
    pub candidates: Vec<MemoryEntry>,
}

/// The view of [`MemoryForgetResult`].
#[verifier::ext_equal]
pub struct MemoryForgetResultView {
    pub forgotten: Option<MemoryEntryView>,
    pub candidates: Seq<MemoryEntryView>,
}

impl View for MemoryForgetResult {
    type V = MemoryForgetResultView;

    open spec fn view(&self) -> MemoryForgetResultView {
        MemoryForgetResultView {
            forgotten: opt_view(self.forgotten),
            candidates: views(self.candidates@),
        }
    }
}

impl Clone for MemoryForgetResult {
    fn clone(&self) -> (result: Self)
        ensures
            result@ == self@,
    {
        let result = MemoryForgetResult {
            forgotten: self.forgotten.clone(),
            candidates: self.candidates.clone(),
        };
        assert(views(result.candidates@) =~= views(self.candidates@));
        result
    }
}

/// One page of memory entries.
#[derive(Debug, PartialEq, Eq)]
pub struct MemoryListResult {
    pub data: Vec<MemoryEntry>,
    pub next_cursor: Option<String>,
}

/// The view of [`MemoryListResult`].
#[verifier::ext_equal]
pub struct MemoryListResultView {
    pub data: Seq<MemoryEntryView>,
    pub next_cursor: Option<Seq<char>>,
}

impl View for MemoryListResult {
    type V = MemoryListResultView;

    open spec fn view(&self) -> MemoryListResultView {
        MemoryListResultView {
            data: views(self.data@),
            next_cursor: opt_view(self.next_cursor),
        }
    }
}

impl Clone for MemoryListResult {
    fn clone(&self) -> (result: Self)
        ensures
            result@ == self@,
    {
        let result = MemoryListResult {
            data: self.data.clone(),
            next_cursor: self.next_cursor.clone(),
        };
        assert(views(result.data@) =~= views(self.data@));
        result
    }
}

/// Safe, aggregate memory health information.
/// 
/// Counts leave out row contents and error details.
#[derive(Debug, PartialEq, Eq)]
pub struct MemoryStatus {
    /// Effective global memory state after the global feature switch.
    pub enabled: bool,
    /// Redacted storage health, such as `healthy` or `unavailable`.
    pub storage_health: String,
    pub entry_count: u64,
    pub candidate_count: u64,
    pub pending_job_count: u64,
    pub retrying_job_count: u64,
    pub error_job_count: u64,
    /// Completion time of the most recent successful source scan.
    pub last_successful_scan_at: Option<Timestamp>,
    /// Distinct redacted failure classes of current error jobs.
    pub error_classes: Vec<String>,
}

/// The view of [`MemoryStatus`].
#[verifier::ext_equal]
pub struct MemoryStatusView {
    pub enabled: bool,
    pub storage_health: Seq<char>,
    pub entry_count: u64,
    pub candidate_count: u64,
    pub pending_job_count: u64,
    pub retrying_job_count: u64,
    pub error_job_count: u64,
    pub last_successful_scan_at: Option<Timestamp>,
    pub error_classes: Seq<Seq<char>>,
}

impl View for MemoryStatus {
    type V = MemoryStatusView;

    open spec fn view(&self) -> MemoryStatusView {
        MemoryStatusView {
            enabled: self.enabled,
            storage_health: self.storage_health@,
            entry_count: self.entry_count,
            candidate_count: self.candidate_count,
            pending_job_count: self.pending_job_count,
            retrying_job_count: self.retrying_job_count,
            error_job_count: self.error_job_count,
            last_successful_scan_at: self.last_successful_scan_at,
            error_classes: views(self.error_classes@),
        }
    }
}

impl Clone for MemoryStatus {
    fn clone(&self) -> (result: Self)
        ensures
            result@ == self@,
    {
        let result = MemoryStatus {
            enabled: self.enabled,
            storage_health: self.storage_health.clone(),
            entry_count: self.entry_count,
            candidate_count: self.candidate_count,
            pending_job_count: self.pending_job_count,
            retrying_job_count: self.retrying_job_count,
            error_job_count: self.error_job_count,
            last_successful_scan_at: self.last_successful_scan_at,
            error_classes: self.error_classes.clone(),
        };
        assert(views(result.error_classes@) =~= views(self.error_classes@));
        result
    }
}

} // verus!
