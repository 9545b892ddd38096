//! The rows of the memory store.
//!
//! A row holds its columns as they are stored. The operations on a table keep
//! the rows in the order in which they were written.

use vstd::prelude::*;

use crate::text::{opt_view, views};

verus! {

/// A row of `memory_entries`.
#[derive(Debug, PartialEq, Eq)]
pub struct EntryRow {
    pub entry_id: String,
    pub scope_type: String,
    pub scope_id: String,
    pub kind: String,
    pub normalized_key: String,
    pub body: String,
    pub origin: String,
    pub state: String,
    pub created_at: String,
    pub updated_at: String,
    pub last_recalled_at: Option<String>,
    pub replacement_entry_id: Option<String>,
    pub expires_at: Option<String>,
}

/// The view of [`EntryRow`].
#[verifier::ext_equal]
pub struct EntryRowView {
    pub entry_id: Seq<char>,
    pub scope_type: Seq<char>,
    pub scope_id: Seq<char>,
    pub kind: Seq<char>,
    pub normalized_key: Seq<char>,
    pub body: Seq<char>,
    pub origin: Seq<char>,
    pub state: Seq<char>,
    pub created_at: Seq<char>,
    pub updated_at: Seq<char>,
    pub last_recalled_at: Option<Seq<char>>,
    pub replacement_entry_id: Option<Seq<char>>,
    pub expires_at: Option<Seq<char>>,
}

impl View for EntryRow {
    type V = EntryRowView;

    open spec fn view(&self) -> EntryRowView {
        EntryRowView {
            entry_id: self.entry_id@,
            scope_type: self.scope_type@,
            scope_id: self.scope_id@,
            kind: self.kind@,
            normalized_key: self.normalized_key@,
            body: self.body@,
            origin: self.origin@,
            state: self.state@,
            created_at: self.created_at@,
            updated_at: self.updated_at@,
            last_recalled_at: opt_view(self.last_recalled_at),
            replacement_entry_id: opt_view(self.replacement_entry_id),
            expires_at: opt_view(self.expires_at),
        }
    }
}

impl Clone for EntryRow {
    fn clone(&self) -> (result: Self)
        ensures
            result@ == self@,
    {
        let result = EntryRow {
            entry_id: self.entry_id.clone(),
            scope_type: self.scope_type.clone(),
            scope_id: self.scope_id.clone(),
            kind: self.kind.clone(),
            normalized_key: self.normalized_key.clone(),
            body: self.body.clone(),
            origin: self.origin.clone(),
            state: self.state.clone(),
            created_at: self.created_at.clone(),
            updated_at: self.updated_at.clone(),
            last_recalled_at: self.last_recalled_at.clone(),
            replacement_entry_id: self.replacement_entry_id.clone(),
            expires_at: self.expires_at.clone(),
        };
        result
    }
}

/// A row of `memory_evidence`.
#[derive(Debug, PartialEq, Eq)]
pub struct EvidenceRow {
    pub evidence_id: String,
    pub entry_id: String,
    pub session_id: String,
    pub turn_id: Option<String>,
    pub source_user_item_id: Option<String>,
    pub observed_at: String,
    pub source_watermark: String,
}

/// The view of [`EvidenceRow`].
#[verifier::ext_equal]
pub struct EvidenceRowView {
    pub evidence_id: Seq<char>,
    pub entry_id: Seq<char>,
    pub session_id: Seq<char>,
    pub turn_id: Option<Seq<char>>,
    pub source_user_item_id: Option<Seq<char>>,
    pub observed_at: Seq<char>,
    pub source_watermark: Seq<char>,
}

impl View for EvidenceRow {
    type V = EvidenceRowView;

    open spec fn view(&self) -> EvidenceRowView {
        EvidenceRowView {
            evidence_id: self.evidence_id@,
            entry_id: self.entry_id@,
            session_id: self.session_id@,
            turn_id: opt_view(self.turn_id),
            source_user_item_id: opt_view(self.source_user_item_id),
            observed_at: self.observed_at@,
            source_watermark: self.source_watermark@,
        }
    }
}

impl Clone for EvidenceRow {
    fn clone(&self) -> (result: Self)
        ensures
            result@ == self@,
    {
        let result = EvidenceRow {
            evidence_id: self.evidence_id.clone(),
            entry_id: self.entry_id.clone(),
            session_id: self.session_id.clone(),
            turn_id: self.turn_id.clone(),
            source_user_item_id: self.source_user_item_id.clone(),
            observed_at: self.observed_at.clone(),
            source_watermark: self.source_watermark.clone(),
        };
        result
    }
}

/// A row of `memory_revocations`.
#[derive(Debug, PartialEq, Eq)]
pub struct RevocationRow {
    pub revocation_id: String,
    pub scope_type: String,
    pub scope_id: String,
    pub normalized_key: String,
    pub revoked_at: String,
    pub restored_at: Option<String>,
}

/// The view of [`RevocationRow`].
#[verifier::ext_equal]
pub struct RevocationRowView {
    pub revocation_id: Seq<char>,
    pub scope_type: Seq<char>,
    pub scope_id: Seq<char>,
    pub normalized_key: Seq<char>,
    pub revoked_at: Seq<char>,
    pub restored_at: Option<Seq<char>>,
}

impl View for RevocationRow {
    type V = RevocationRowView;

    open spec fn view(&self) -> RevocationRowView {
        RevocationRowView {
            revocation_id: self.revocation_id@,
            scope_type: self.scope_type@,
            scope_id: self.scope_id@,
            normalized_key: self.normalized_key@,
            revoked_at: self.revoked_at@,
            restored_at: opt_view(self.restored_at),
        }
    }
}

impl Clone for RevocationRow {
    fn clone(&self) -> (result: Self)
        ensures
            result@ == self@,
    {
        let result = RevocationRow {
            revocation_id: self.revocation_id.clone(),
            scope_type: self.scope_type.clone(),
            scope_id: self.scope_id.clone(),
            normalized_key: self.normalized_key.clone(),
            revoked_at: self.revoked_at.clone(),
            restored_at: self.restored_at.clone(),
        };
        result
    }
}

/// The columns of a row of `memory_jobs` that the runtime reads.
#[derive(Debug, PartialEq, Eq)]
pub struct JobRow {
    pub job_id: String,
    pub job_kind: String,
    pub job_key: String,
    pub source_session_id: String,
    pub source_watermark: String,
    pub state: String,
    pub error_class: Option<String>,
    pub updated_at: String,
}

/// The view of [`JobRow`].
#[verifier::ext_equal]
pub struct JobRowView {
    pub job_id: Seq<char>,
    pub job_kind: Seq<char>,
    pub job_key: Seq<char>,
    pub source_session_id: Seq<char>,
    pub source_watermark: Seq<char>,
    pub state: Seq<char>,
    pub error_class: Option<Seq<char>>,
    pub updated_at: Seq<char>,
}

impl View for JobRow {
    type V = JobRowView;

    open spec fn view(&self) -> JobRowView {
        JobRowView {
            job_id: self.job_id@,
            job_kind: self.job_kind@,
            job_key: self.job_key@,
            source_session_id: self.source_session_id@,
            source_watermark: self.source_watermark@,
            state: self.state@,
            error_class: opt_view(self.error_class),
            updated_at: self.updated_at@,
        }
    }
}

impl Clone for JobRow {
    fn clone(&self) -> (result: Self)
        ensures
            result@ == self@,
    {
        let result = JobRow {
            job_id: self.job_id.clone(),
            job_kind: self.job_kind.clone(),
            job_key: self.job_key.clone(),
            source_session_id: self.source_session_id.clone(),
            source_watermark: self.source_watermark.clone(),
            state: self.state.clone(),
            error_class: self.error_class.clone(),
            updated_at: self.updated_at.clone(),
        };
        result
    }
}

/// A row of the full-text index.
#[derive(Debug, PartialEq, Eq)]
pub struct IndexRow {
    pub entry_id: String,
    pub normalized_key: String,
    pub body: String,
}

/// The view of [`IndexRow`].
#[verifier::ext_equal]
pub struct IndexRowView {
    pub entry_id: Seq<char>,
    pub normalized_key: Seq<char>,
    pub body: Seq<char>,
}

impl View for IndexRow {
    type V = IndexRowView;

    open spec fn view(&self) -> IndexRowView {
        IndexRowView {
            entry_id: self.entry_id@,
            normalized_key: self.normalized_key@,
            body: self.body@,
        }
    }
}

impl Clone for IndexRow {
    fn clone(&self) -> (result: Self)
        ensures
            result@ == self@,
    {
        let result = IndexRow {
            entry_id: self.entry_id.clone(),
            normalized_key: self.normalized_key.clone(),
            body: self.body.clone(),
        };
        result
    }
}

/// The memory store.
#[derive(Debug, PartialEq, Eq, Default)]
pub struct MemoryTables {
    pub entries: Vec<EntryRow>,
    pub evidence: Vec<EvidenceRow>,
    pub revocations: Vec<RevocationRow>,
    pub jobs: Vec<JobRow>,
    pub index: Vec<IndexRow>,
    /// How many rows `memory_candidates` holds.
    pub candidate_count: u64,
}

/// The view of [`MemoryTables`].
#[verifier::ext_equal]
pub struct MemoryTablesView {
    pub entries: Seq<EntryRowView>,
    pub evidence: Seq<EvidenceRowView>,
    pub revocations: Seq<RevocationRowView>,
    pub jobs: Seq<JobRowView>,
    pub index: Seq<IndexRowView>,
    pub candidate_count: u64,
}

impl View for MemoryTables {
    type V = MemoryTablesView;

    open spec fn view(&self) -> MemoryTablesView {
        MemoryTablesView {
            entries: views(self.entries@),
            evidence: views(self.evidence@),
            revocations: views(self.revocations@),
            jobs: views(self.jobs@),
            index: views(self.index@),
            candidate_count: self.candidate_count,
        }
    }
}

impl Clone for MemoryTables {
    fn clone(&self) -> (result: Self)
        ensures
            result@ == self@,
    {
        let result = MemoryTables {
            entries: self.entries.clone(),
            evidence: self.evidence.clone(),
            revocations: self.revocations.clone(),
            jobs: self.jobs.clone(),
            index: self.index.clone(),
            candidate_count: self.candidate_count,
        };
        assert(views(result.entries@) =~= views(self.entries@));
        assert(views(result.evidence@) =~= views(self.evidence@));
        assert(views(result.revocations@) =~= views(self.revocations@));
        assert(views(result.jobs@) =~= views(self.jobs@));
        assert(views(result.index@) =~= views(self.index@));
        result
    }
}

} // verus!
