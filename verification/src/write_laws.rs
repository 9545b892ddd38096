//! Laws of what a write leaves in the store, column by column, and of the page that
//! comes back with it.

use vstd::prelude::*;

use crate::claim_laws::{has_identity, is_evidence_of, lemma_scope_name, revokes};
use crate::command_types::{
    MemoryForgetSelectorView, MemoryForgetSourceView, MemoryInferredRememberRequest,
    MemoryRememberRequestView, PreparedMemoryForgetRequestView, PreparedMemoryForgetTargetView,
};
use crate::entries::{
    admission, already_witnessed, decision, index_row_of_other, inferred_write, is_witness,
    law_write_keeps_store_well_formed, projection_from, remember_step, turn_text, written_id,
    AdmittedWriteView, MemoryProjectionView, MemoryWriteModeView,
};
use crate::entry_identity::{entry_is_other, merged, moved_evidence, outlives_merge, redirected};
use crate::forget::{forget_step, matching_rows, prepared_forget};
use crate::forget_laws::{law_project_forgets_for_its_sessions, may_speak};
use crate::ids::uuid_text;
use crate::memory_error::MemoryErrorView;
use crate::page_laws::{kind_name, lemma_names};
use crate::rows::{first_match, lemma_filter_holds, lemma_first_match, lemma_is_first_match};
use crate::rpc_memory::{MemoryEntryView, MemoryOrigin, MemoryScope, MemoryState};
use crate::search_laws::law_stored_names;
use crate::store::{
    entries_from, entry_from, entry_is, has_entry, has_evidence, identity_is, revocation_is,
};
use crate::stored_values::{origin_of, scope_text};
use crate::tables::{
    EntryRowView, EvidenceRowView, IndexRowView, MemoryTablesView, RevocationRowView,
};
use crate::text::{collapsed, text_less};
use crate::time::{parsed_timestamp, Timestamp};

verus! {

// ---------------------------------------------------------------------------
// Writes.
// ---------------------------------------------------------------------------
/// Whether an identity was ever revoked.
pub open spec fn is_revoked(
    revocations: Seq<RevocationRowView>,
    scope: MemoryScope,
    scope_id: Seq<char>,
    key: Seq<char>,
) -> bool {
    exists|i: int|
        0 <= i < revocations.len() && revokes(#[trigger] revocations[i], scope, scope_id, key)
}

/// Whether a store is readable where an identity is concerned: the origin of its entry
/// and the times of its revocation have a meaning.
pub open spec fn identity_reads(
    tables: MemoryTablesView,
    scope: MemoryScope,
    scope_id: Seq<char>,
    key: Seq<char>,
) -> bool {
    &&& forall|i: int|
        0 <= i < tables.entries.len() && has_identity(
            #[trigger] tables.entries[i],
            scope,
            scope_id,
            key,
        ) ==> origin_of(tables.entries[i].origin) is Ok
    &&& forall|i: int|
        0 <= i < tables.revocations.len() && revokes(
            #[trigger] tables.revocations[i],
            scope,
            scope_id,
            key,
        ) ==> parsed_timestamp(tables.revocations[i].revoked_at) is Some && (
        tables.revocations[i].restored_at matches Some(text) ==> parsed_timestamp(text) is Some)
}

/// Whether nothing has the IDs that a write may give out.
pub open spec fn ids_are_free(
    tables: MemoryTablesView,
    entry_id: Seq<char>,
    evidence_id: Seq<char>,
) -> bool {
    &&& forall|i: int|
        0 <= i < tables.entries.len() ==> (#[trigger] tables.entries[i]).entry_id != entry_id
    &&& forall|i: int|
        0 <= i < tables.evidence.len() ==> (#[trigger] tables.evidence[i]).evidence_id
            != evidence_id
}

/// Whether a write only adds its source to an entry that the user made.
pub open spec fn adds_to_the_users(
    tables: MemoryTablesView,
    mode: MemoryWriteModeView,
    k: int,
) -> bool {
    mode is Inferred && k < tables.entries.len() && tables.entries[k].origin == "explicit_user"@
}

/// Whether a row holds what a write says, since an instant.
pub open spec fn is_written_row(
    tables: MemoryTablesView,
    row: EntryRowView,
    k: int,
    request: MemoryRememberRequestView,
    write: AdmittedWriteView,
    mode: MemoryWriteModeView,
    now: Seq<char>,
) -> bool {
    &&& has_identity(row, request.scope, write.scope_id, write.normalized_key)
    &&& k < tables.entries.len() ==> has_identity(
        tables.entries[k],
        request.scope,
        write.scope_id,
        write.normalized_key,
    )
    &&& row.updated_at == now
    &&& k == tables.entries.len() ==> row.created_at == now && row.last_recalled_at is None
        && row.expires_at is None
    &&& adds_to_the_users(tables, mode, k) ==> row == (EntryRowView {
        updated_at: now,
        ..tables.entries[k]
    })
    &&& !adds_to_the_users(tables, mode, k) ==> {
        &&& row.body == collapsed(request.text)
        &&& row.kind == kind_name(write.kind)
        &&& row.replacement_entry_id is None
        &&& row.origin == if mode is Explicit {
            "explicit_user"@
        } else {
            "inferred_session"@
        }
        &&& row.state == if is_revoked(
            tables.revocations,
            request.scope,
            write.scope_id,
            write.normalized_key,
        ) {
            "restored"@
        } else {
            "active"@
        }
    }
}

/// Whether an index is searched for an entry by its key and its body alone, and for all
/// others as before.
pub open spec fn is_indexed(
    before: Seq<IndexRowView>,
    after: Seq<IndexRowView>,
    entry_id: Seq<char>,
    key: Seq<char>,
    body: Seq<char>,
) -> bool {
    &&& after.contains(IndexRowView { entry_id, normalized_key: key, body })
    &&& forall|row: IndexRowView| #[trigger]
        after.contains(row) && row.entry_id == entry_id ==> row == (IndexRowView {
            entry_id,
            normalized_key: key,
            body,
        })
    &&& forall|row: IndexRowView|
        row.entry_id != entry_id ==> (#[trigger] after.contains(row) <==> before.contains(row))
}

/// A write that nothing keeps out takes place, wherever the store can be read and the
/// IDs are free: its entry is there, once more or for the first time, with what was
/// said. The index follows, and the source is evidence, observed at the write if the
/// user wrote it. What stood revoked is restored then, if it was there to restore.
pub proof fn law_write_takes_place(
    tables: MemoryTablesView,
    request: MemoryRememberRequestView,
    write: AdmittedWriteView,
    mode: MemoryWriteModeView,
    detected: bool,
    now: Timestamp,
    entry_id: Seq<char>,
    evidence_id: Seq<char>,
) -> (k: int)
    requires
        tables.well_formed(),
        admission(request, detected) == Ok::<AdmittedWriteView, MemoryErrorView>(write),
        identity_reads(tables, request.scope, write.scope_id, write.normalized_key),
        ids_are_free(tables, entry_id, evidence_id),
        mode is Explicit || !is_revoked(
            tables.revocations,
            request.scope,
            write.scope_id,
            write.normalized_key,
        ),
    ensures
        ({
            let step = remember_step(
                tables,
                request,
                mode,
                detected,
                now,
                entry_id,
                evidence_id,
            );
            let after = step.tables;
            let row = after.entries[k];
            let old = tables.evidence.len() as int;
            &&& 0 <= k < after.entries.len()
            &&& is_written_row(tables, row, k, request, write, mode, now.text())
            &&& k == tables.entries.len() ==> row.entry_id == entry_id
            &&& adds_to_the_users(tables, mode, k) ==> after.index == tables.index
            &&& !adds_to_the_users(tables, mode, k) ==> is_indexed(
                tables.index,
                after.index,
                row.entry_id,
                row.normalized_key,
                row.body,
            )
            &&& exists|x: int|
                0 <= x < after.evidence.len() && is_evidence_of(
                    #[trigger] after.evidence[x],
                    row.entry_id,
                    request.source,
                )
            &&& after.evidence.len() > old ==> {
                let added = after.evidence[old];
                &&& after.evidence == tables.evidence.push(added)
                &&& added.evidence_id == evidence_id
                &&& is_evidence_of(added, row.entry_id, request.source)
                &&& mode is Explicit ==> added.observed_at == now.text() && added.source_watermark
                    == now.text()
                &&& forall|x: int|
                    0 <= x < old ==> !is_evidence_of(
                        #[trigger] tables.evidence[x],
                        row.entry_id,
                        request.source,
                    )
            }
            &&& !(mode is Explicit && k < tables.entries.len()) ==> after.revocations
                == tables.revocations
            &&& mode is Explicit && k < tables.entries.len() ==> forall|i: int|
                0 <= i < tables.revocations.len() && revokes(
                    tables.revocations[i],
                    request.scope,
                    write.scope_id,
                    write.normalized_key,
                ) ==> (#[trigger] after.revocations[i]).restored_at == match
                    tables.revocations[i].restored_at {
                    Some(restored) if !text_less(restored, tables.revocations[i].revoked_at) => {
                        Some(restored)
                    },
                    _ => Some(now.text()),
                }
            &&& step.result is Err ==> entry_from(row, after.evidence) is Err || projection_from(
                after,
                request.scope,
                write.scope_id,
            ) is Err
            &&& step.result matches Ok(remembered) ==> (remembered matches Some(remembered)
                && entry_from(row, after.evidence) == Ok::<
                MemoryEntryView,
                MemoryErrorView,
            >(remembered.entry) && projection_from(after, request.scope, write.scope_id) == Ok::<
                MemoryProjectionView,
                MemoryErrorView,
            >(remembered.projection))
        }),
{
    let scope = request.scope;
    let accepts = identity_is(scope_text(scope), write.scope_id, write.normalized_key);
    let revoked = revocation_is(scope_text(scope), write.scope_id, write.normalized_key);
    lemma_first_match(tables.entries, accepts);
    lemma_first_match(tables.revocations, revoked);
    assert forall|i: int| 0 <= i < tables.entries.len() implies accepts(
        #[trigger] tables.entries[i],
    ) == has_identity(tables.entries[i], scope, write.scope_id, write.normalized_key) by {
        lemma_scope_name(tables.entries[i].scope_type, scope);
    }
    assert forall|i: int| 0 <= i < tables.revocations.len() implies revoked(
        #[trigger] tables.revocations[i],
    ) == revokes(tables.revocations[i], scope, write.scope_id, write.normalized_key) by {
        lemma_scope_name(tables.revocations[i].scope_type, scope);
    }
    let was_revoked = is_revoked(
        tables.revocations,
        scope,
        write.scope_id,
        write.normalized_key,
    );
    let found = first_match(tables.revocations, revoked);
    assert(was_revoked == (found is Some)) by {
        if was_revoked {
            let i = choose|i: int|
                0 <= i < tables.revocations.len() && revokes(
                    #[trigger] tables.revocations[i],
                    scope,
                    write.scope_id,
                    write.normalized_key,
                );
            assert(revoked(tables.revocations[i]));
        }
        if let Some(i) = found {
            assert(revoked(tables.revocations[i]));
        }
    }
    let existing = first_match(tables.entries, accepts);
    if let Some(i) = existing {
        assert(accepts(tables.entries[i]));
        law_stored_names(tables.entries[i].origin);
    }
    if let Some(i) = found {
        assert(revoked(tables.revocations[i]));
    }
    let verdict = decision(tables, scope, write, mode)->Ok_0;
    assert(decision(tables, scope, write, mode) is Ok);
    assert(!verdict.skip);
    let id = written_id(tables, verdict, entry_id);
    assert(!has_entry(tables.entries, entry_id));
    assert(!has_evidence(tables.evidence, evidence_id));
    let step = remember_step(tables, request, mode, detected, now, entry_id, evidence_id);
    let after = step.tables;
    let k = match existing {
        Some(i) => i,
        None => tables.entries.len() as int,
    };
    let row = after.entries[k];
    assert(row.entry_id == id);
    lemma_scope_name(scope_text(scope), scope);
    lemma_names(write.kind, MemoryState::Active, MemoryOrigin::ExplicitUser);
    lemma_names(write.kind, MemoryState::Restored, MemoryOrigin::InferredSession);
    lemma_filter_holds(tables.index, index_row_of_other(id));
    if !adds_to_the_users(tables, mode, k) {
        let others = tables.index.filter(index_row_of_other(id));
        let own = IndexRowView {
            entry_id: id,
            normalized_key: write.normalized_key,
            body: write.body,
        };
        assert(after.index == others.push(own));
        assert(after.index[others.len() as int] == own);
        assert forall|x: IndexRowView| #[trigger]
            after.index.contains(x) <==> others.contains(x) || x == own by {
            if others.contains(x) {
                let m = choose|m: int| 0 <= m < others.len() && others[m] == x;
                assert(after.index[m] == x);
            }
            if after.index.contains(x) && x != own {
                let m = choose|m: int| 0 <= m < after.index.len() && after.index[m] == x;
                assert(others[m] == x);
            }
        }
        assert forall|x: IndexRowView| #[trigger] others.contains(x) <==> tables.index.contains(x)
            && x.entry_id != id by {
            assert(index_row_of_other(id)(x) == (x.entry_id != id));
        }
    }
    let session = uuid_text(request.source.session_id.value);
    let turn = turn_text(request.source);
    let item = request.source.user_item_id;
    if already_witnessed(tables, request.source, id) {
        let w = choose|w: int|
            0 <= w < tables.evidence.len() && #[trigger] is_witness(
                tables.evidence[w],
                id,
                session,
                turn,
                item,
            );
        assert(is_evidence_of(after.evidence[w], id, request.source));
    } else {
        let old = tables.evidence.len() as int;
        assert(is_evidence_of(after.evidence[old], id, request.source));
        assert forall|x: int| 0 <= x < old implies !is_evidence_of(
            #[trigger] tables.evidence[x],
            id,
            request.source,
        ) by {
            assert(!is_witness(tables.evidence[x], id, session, turn, item));
        }
    }
    law_write_keeps_store_well_formed(
        tables,
        request,
        mode,
        detected,
        now,
        entry_id,
        evidence_id,
    );
    assert forall|j: int| 0 <= j < k implies !entry_is(id)(#[trigger] after.entries[j]) by {
        assert(after.entries[j].entry_id != after.entries[k].entry_id);
    }
    lemma_is_first_match(after.entries, entry_is(id), k);
    k
}

/// An inferred request is written as it is: its text, its scope, its kind and its
/// source, as observed when and as far as it says.
pub proof fn law_inferred_request_is_written_as_it_is(request: MemoryInferredRememberRequest)
    ensures
        inferred_write(request).0.text == request.text@,
        inferred_write(request).0.scope == request.scope,
        inferred_write(request).0.kind == request.kind,
        inferred_write(request).0.source == request.source@,
        inferred_write(request).1 matches MemoryWriteModeView::Inferred {
            source_observed_at,
            source_watermark,
        } && source_observed_at == request.source_observed_at && source_watermark
            == request.source_watermark@,
{
}

// ---------------------------------------------------------------------------
// Deletions.
// ---------------------------------------------------------------------------
proof fn lemma_reading_commits_nothing(
    rows: Seq<EntryRowView>,
    evidence: Seq<EvidenceRowView>,
)
    ensures
        entries_from(rows, evidence) matches Err(error) ==> !(error is ForgetCommitted),
    decreases rows.len(),
{
    if rows.len() > 0 {
        lemma_reading_commits_nothing(rows.drop_last(), evidence);
    }
}

/// A deletion that comes back with a page comes back with that of the store it leaves,
/// and one that could not be shown says why.
pub proof fn law_deletion_shows_the_page(
    tables: MemoryTablesView,
    request: PreparedMemoryForgetRequestView,
    now: Timestamp,
    revocation_id: Seq<char>,
)
    ensures
        ({
            let step = forget_step(tables, request, now, revocation_id);
            let page = projection_from(step.tables, request.scope, request.scope_id);
            &&& step.result matches Ok(forgotten) ==> {
                &&& forgotten.projection is Some <==> forgotten.result.forgotten is Some
                &&& forgotten.projection matches Some(shown) ==> page == Ok::<
                    MemoryProjectionView,
                    MemoryErrorView,
                >(shown)
            }
            &&& step.result matches Err(MemoryErrorView::ForgetCommitted {
                result,
                projection_error,
            }) ==> page == Err::<MemoryProjectionView, MemoryErrorView>(*projection_error)
        }),
{
    if let PreparedMemoryForgetTargetView::Text(text) = request.target {
        let targets = matching_rows(
            tables.entries,
            scope_text(request.scope),
            request.scope_id,
            text,
        );
        lemma_reading_commits_nothing(targets, tables.evidence);
    }
}

/// A request to forget by ID is refused where no session may speak for the project of
/// the entry, and is prepared where one may: for the entry as it is stored, from such a
/// session.
pub proof fn law_exact_request_needs_a_session_of_the_project(
    tables: MemoryTablesView,
    entry_id: Seq<char>,
    scope: MemoryScope,
    source: MemoryForgetSourceView,
    k: int,
    s: int,
)
    requires
        tables.well_formed(),
        0 <= k < tables.entries.len(),
        tables.entries[k].entry_id == entry_id,
        entry_from(tables.entries[k], tables.evidence) matches Ok(entry) && entry.scope
            == MemoryScope::Project,
        0 <= s < source.sessions.len(),
        may_speak(
            source.sessions[s],
            source.bound_session_id,
            Some(tables.entries[k].scope_id),
            tables.entries[k].scope_id,
        ),
    ensures
        prepared_forget(
            tables,
            MemoryForgetSelectorView::EntryId(entry_id),
            scope,
            source,
        ) matches Ok(prepared) && {
            &&& prepared.target == PreparedMemoryForgetTargetView::Exact(
                entry_from(tables.entries[k], tables.evidence)->Ok_0,
            )
            &&& prepared.scope == MemoryScope::Project
            &&& prepared.scope_id == tables.entries[k].scope_id
            &&& exists|i: int|
                0 <= i < source.sessions.len() && may_speak(
                    #[trigger] source.sessions[i],
                    source.bound_session_id,
                    Some(tables.entries[k].scope_id),
                    tables.entries[k].scope_id,
                ) && source.sessions[i].session_id == prepared.source_session_id
        },
{
    let accepts = entry_is(entry_id);
    assert forall|j: int| 0 <= j < k implies !accepts(#[trigger] tables.entries[j]) by {
        assert(tables.entries[j].entry_id != tables.entries[k].entry_id);
    }
    lemma_is_first_match(tables.entries, accepts, k);
    law_project_forgets_for_its_sessions(Some(tables.entries[k].scope_id), source);
}

// ---------------------------------------------------------------------------
// Merges.
// ---------------------------------------------------------------------------
/// Merging leaves every entry but the duplicate, with its words, and sends what the
/// duplicate replaced to the one that is kept. Evidence of other entries stays; that of
/// the duplicate is evidence of the one that is kept, unless its source was already.
/// The duplicate is searched no more.
pub proof fn law_merge_takes_the_duplicate_alone(
    tables: MemoryTablesView,
    keeper: Seq<char>,
    duplicate: Seq<char>,
    row: EntryRowView,
    source: EvidenceRowView,
    entry: IndexRowView,
)
    requires
        keeper != duplicate,
    ensures
        ({
            let after = merged(tables, keeper, duplicate);
            &&& tables.entries.contains(row) && row.entry_id != duplicate
                ==> after.entries.contains(
                EntryRowView {
                    replacement_entry_id: if row.replacement_entry_id == Some(duplicate) {
                        Some(keeper)
                    } else {
                        row.replacement_entry_id
                    },
                    ..row
                },
            )
            &&& after.entries.contains(row) ==> row.entry_id != duplicate
            &&& tables.evidence.contains(source) && source.entry_id != duplicate
                ==> after.evidence.contains(source)
            &&& after.evidence.contains(source) ==> source.entry_id != duplicate
            &&& tables.evidence.contains(source) && source.entry_id == duplicate && (forall|i: int|
                0 <= i < tables.evidence.len() && (#[trigger] tables.evidence[i]).entry_id == keeper
                    ==> tables.evidence[i].session_id != source.session_id
                    || tables.evidence[i].turn_id != source.turn_id
                    || tables.evidence[i].source_user_item_id != source.source_user_item_id)
                ==> after.evidence.contains(EvidenceRowView { entry_id: keeper, ..source })
            &&& after.index.contains(entry) <==> tables.index.contains(entry) && entry.entry_id
                != duplicate
            &&& after.revocations == tables.revocations
            &&& after.jobs == tables.jobs
            &&& after.candidate_count == tables.candidate_count
        }),
{
    let after = merged(tables, keeper, duplicate);
    let redirect = |row: EntryRowView| redirected(row, keeper, duplicate);
    let rows = tables.entries.map_values(redirect);
    lemma_filter_holds(rows, entry_is_other(duplicate));
    if tables.entries.contains(row) && row.entry_id != duplicate {
        let i = choose|i: int| 0 <= i < tables.entries.len() && tables.entries[i] == row;
        assert(rows[i] == redirected(row, keeper, duplicate));
        assert(rows.contains(rows[i]));
        assert(entry_is_other(duplicate)(rows[i]));
        assert(after.entries.contains(rows[i]));
    }
    if after.entries.contains(row) {
        assert(entry_is_other(duplicate)(row));
    }
    let accepts = outlives_merge(tables.evidence, keeper, duplicate);
    let kept = tables.evidence.filter(accepts);
    lemma_filter_holds(tables.evidence, accepts);
    if tables.evidence.contains(source) && accepts(source) {
        assert(kept.contains(source));
        let i = choose|i: int| 0 <= i < kept.len() && kept[i] == source;
        assert(after.evidence[i] == moved_evidence(source, keeper, duplicate));
        assert(after.evidence.contains(moved_evidence(source, keeper, duplicate)));
    }
    if after.evidence.contains(source) {
        let i = choose|i: int| 0 <= i < after.evidence.len() && after.evidence[i] == source;
        assert(after.evidence[i] == moved_evidence(kept[i], keeper, duplicate));
    }
    lemma_filter_holds(tables.index, index_row_of_other(duplicate));
    assert(index_row_of_other(duplicate)(entry) == (entry.entry_id != duplicate));
}

} // verus!
