//! Laws of remembering again: what a second write does to an entry that the first
//! one left, with and without a forgetting between them.

use vstd::prelude::*;

use crate::command_types::{
    MemoryRememberRequestView, PreparedMemoryForgetRequestView, PreparedMemoryForgetTargetView,
};
use crate::entries::{
    admission, already_witnessed, decision, is_witness, law_write_keeps_store_well_formed,
    remember_step, revocation_of, rewritten_row, state_after, turn_text, AdmittedWriteView,
    MemoryWriteModeView, RememberedEntryView,
};
use crate::forget::{forget_step, scoped_entry_is};
use crate::lifecycle::{law_forget_keeps_store_well_formed, law_forgetting_revokes_the_identity};
use crate::ids::uuid_text;
use crate::memory_error::MemoryErrorView;
use crate::queries::{lemma_entries_from_rows, lemma_rows_read};
use crate::rows::{
    first_match, first_row, lemma_filter_holds, lemma_first_match, lemma_is_first_match, ordered,
};
use crate::rpc_memory::{MemoryEntryView, MemoryOrigin, MemoryScope, MemoryState};
use crate::store::{
    entries_from, entry_from, entry_in_scope, entry_is, evidence_of, has_evidence, identity_is,
    newer_first, observed_before, provenance_of, revocation_is, same_identity, scope_entries,
    sources_of,
};
use crate::stored_values::{law_stored_names_read_back, scope_text};
use crate::tables::{EntryRowView, EvidenceRowView, MemoryTablesView};
use crate::text::collapsed;
use crate::time::{parsed_timestamp, Timestamp};

verus! {

// ---------------------------------------------------------------------------
// Scopes that read.
// ---------------------------------------------------------------------------
/// Whether every row of the scope reads as an entry.
pub open spec fn scope_reads(
    tables: MemoryTablesView,
    scope: MemoryScope,
    scope_id: Seq<char>,
) -> bool {
    forall|j: int|
        0 <= j < tables.entries.len() && entry_in_scope(scope_text(scope), scope_id)(
            #[trigger] tables.entries[j],
        ) ==> entry_from(tables.entries[j], tables.evidence) is Ok
}

/// The entries of a scope read exactly when each row of it does.
proof fn lemma_scope_reads(tables: MemoryTablesView, scope: MemoryScope, scope_id: Seq<char>)
    ensures
        scope_entries(tables, scope, scope_id) is Ok <==> scope_reads(tables, scope, scope_id),
{
    broadcast use vstd::seq_lib::group_to_multiset_ensures;

    let accepts = entry_in_scope(scope_text(scope), scope_id);
    let chosen = tables.entries.filter(accepts);
    let rows = ordered(chosen, newer_first());
    crate::store::law_reading_orders(chosen, Seq::empty());
    lemma_filter_holds(tables.entries, accepts);
    assert forall|row: EntryRowView| rows.contains(row) <==> #[trigger] chosen.contains(row) by {
        assert(rows.contains(row) <==> rows.to_multiset().count(row) > 0);
        assert(chosen.contains(row) <==> chosen.to_multiset().count(row) > 0);
    }
    if scope_entries(tables, scope, scope_id) is Ok {
        lemma_entries_from_rows(rows, tables.evidence);
        assert(entries_from(rows, tables.evidence) is Ok);
        let entries = scope_entries(tables, scope, scope_id)->Ok_0;
        assert forall|j: int|
            0 <= j < tables.entries.len() && accepts(
                #[trigger] tables.entries[j],
            ) implies entry_from(tables.entries[j], tables.evidence) is Ok by {
            let row = tables.entries[j];
            assert(tables.entries.contains(row));
            assert(chosen.contains(row));
            assert(rows.contains(row));
            let k = choose|k: int| 0 <= k < rows.len() && rows[k] == row;
            assert(entry_from(rows[k], tables.evidence) == Ok::<MemoryEntryView, MemoryErrorView>(
                entries[k],
            ));
        }
    }
    if scope_reads(tables, scope, scope_id) {
        assert forall|i: int| 0 <= i < rows.len() implies entry_from(
            #[trigger] rows[i],
            tables.evidence,
        ) is Ok by {
            let row = rows[i];
            assert(rows.contains(row));
            assert(chosen.contains(row));
            assert(tables.entries.contains(row));
            let k = choose|k: int| 0 <= k < tables.entries.len() && tables.entries[k] == row;
            assert(accepts(tables.entries[k]));
        }
        lemma_rows_read(rows, tables.evidence);
    }
}

/// Which evidence stands beside a row does not decide whether it reads.
proof fn lemma_reads_whatever_the_evidence(
    row: EntryRowView,
    before: Seq<EvidenceRowView>,
    after: Seq<EvidenceRowView>,
)
    ensures
        entry_from(row, before) is Ok <==> entry_from(row, after) is Ok,
        entry_from(row, before) matches Ok(entry) ==> entry_from(row, after) == Ok::<
            MemoryEntryView,
            MemoryErrorView,
        >(MemoryEntryView { provenance: sources_of(after, row.entry_id), ..entry }),
{
}

// ---------------------------------------------------------------------------
// One explicit write.
// ---------------------------------------------------------------------------
/// What an explicit write makes of the entry that has its identity.
proof fn lemma_explicit_rewrite(
    tables: MemoryTablesView,
    request: MemoryRememberRequestView,
    write: AdmittedWriteView,
    now: Timestamp,
    entry_id: Seq<char>,
    evidence_id: Seq<char>,
    i: int,
)
    requires
        tables.well_formed(),
        admission(request, false) == Ok::<AdmittedWriteView, MemoryErrorView>(write),
        0 <= i < tables.entries.len(),
        identity_is(scope_text(request.scope), write.scope_id, write.normalized_key)(
            tables.entries[i],
        ),
        scope_reads(tables, request.scope, write.scope_id),
        revocation_of(tables, request.scope, write.scope_id, write.normalized_key) is Ok,
        already_witnessed(tables, request.source, tables.entries[i].entry_id) || !has_evidence(
            tables.evidence,
            evidence_id,
        ),
        parsed_timestamp(now.text()) == Some(now),
    ensures
        ({
            let step = remember_step(
                tables,
                request,
                MemoryWriteModeView::Explicit,
                false,
                now,
                entry_id,
                evidence_id,
            );
            let row = tables.entries[i];
            let revoked = revocation_of(
                tables,
                request.scope,
                write.scope_id,
                write.normalized_key,
            )->Ok_0 is Some;
            &&& step.tables.entries == tables.entries.update(
                i,
                rewritten_row(
                    row,
                    write,
                    MemoryWriteModeView::Explicit,
                    revoked,
                    false,
                    now.text(),
                ),
            )
            &&& already_witnessed(tables, request.source, row.entry_id) ==> step.tables.evidence
                == tables.evidence
            &&& step.result matches Ok(Some(remembered)) && remembered.entry == (MemoryEntryView {
                kind: write.kind,
                body: write.body,
                origin: MemoryOrigin::ExplicitUser,
                state: state_after(revoked),
                updated_at: now,
                replacement_entry_id: None,
                provenance: sources_of(step.tables.evidence, row.entry_id),
                ..entry_from(row, tables.evidence)->Ok_0
            })
        }),
{
    let mode = MemoryWriteModeView::Explicit;
    let step = remember_step(tables, request, mode, false, now, entry_id, evidence_id);
    let accepts = identity_is(scope_text(request.scope), write.scope_id, write.normalized_key);
    let row = tables.entries[i];
    assert(entry_from(row, tables.evidence) is Ok);
    assert forall|j: int| 0 <= j < i implies !accepts(#[trigger] tables.entries[j]) by {
        assert(!same_identity(tables.entries[j], tables.entries[i]));
    }
    lemma_is_first_match(tables.entries, accepts, i);
    assert(decision(tables, request.scope, write, mode) is Ok);
    let verdict = decision(tables, request.scope, write, mode)->Ok_0;
    assert(verdict.existing == Some(i) && !verdict.skip && !verdict.preserve);
    let after = step.tables;
    law_stored_names_read_back(
        request.scope,
        write.kind,
        state_after(verdict.revoked_before),
        MemoryOrigin::ExplicitUser,
    );
    let by_id = entry_is(row.entry_id);
    assert forall|j: int| 0 <= j < i implies !by_id(#[trigger] after.entries[j]) by {
        assert(tables.entries[j].entry_id != tables.entries[i].entry_id);
    }
    lemma_is_first_match(after.entries, by_id, i);
    assert(entry_from(after.entries[i], after.evidence) is Ok);
    assert(scope_reads(after, request.scope, write.scope_id)) by {
        assert forall|j: int|
            0 <= j < after.entries.len() && entry_in_scope(
                scope_text(request.scope),
                write.scope_id,
            )(#[trigger] after.entries[j]) implies entry_from(
            after.entries[j],
            after.evidence,
        ) is Ok by {
            if j != i {
                assert(after.entries[j] == tables.entries[j]);
                lemma_reads_whatever_the_evidence(
                    tables.entries[j],
                    tables.evidence,
                    after.evidence,
                );
            }
        }
    }
    lemma_scope_reads(after, request.scope, write.scope_id);
}

/// What a successful explicit write leaves, and where.
proof fn lemma_explicit_left(
    tables: MemoryTablesView,
    request: MemoryRememberRequestView,
    write: AdmittedWriteView,
    now: Timestamp,
    entry_id: Seq<char>,
    evidence_id: Seq<char>,
    remembered: RememberedEntryView,
) -> (k: int)
    requires
        tables.well_formed(),
        admission(request, false) == Ok::<AdmittedWriteView, MemoryErrorView>(write),
        remember_step(
            tables,
            request,
            MemoryWriteModeView::Explicit,
            false,
            now,
            entry_id,
            evidence_id,
        ).result == Ok::<Option<RememberedEntryView>, MemoryErrorView>(Some(remembered)),
        parsed_timestamp(now.text()) == Some(now),
    ensures
        ({
            let after = remember_step(
                tables,
                request,
                MemoryWriteModeView::Explicit,
                false,
                now,
                entry_id,
                evidence_id,
            ).tables;
            let entry = remembered.entry;
            let before = revocation_of(
                tables,
                request.scope,
                write.scope_id,
                write.normalized_key,
            );
            &&& after.well_formed()
            &&& 0 <= k < after.entries.len()
            &&& identity_is(scope_text(request.scope), write.scope_id, write.normalized_key)(
                after.entries[k],
            )
            &&& entry_from(after.entries[k], after.evidence) == Ok::<
                MemoryEntryView,
                MemoryErrorView,
            >(entry)
            &&& entry.scope == request.scope
            &&& entry.body == write.body
            &&& entry.origin == MemoryOrigin::ExplicitUser
            &&& entry.replacement_entry_id is None
            &&& scope_reads(after, request.scope, write.scope_id)
            &&& already_witnessed(after, request.source, entry.entry_id)
            &&& before is Ok
            &&& entry.state == state_after(before->Ok_0 is Some)
            &&& revocation_of(after, request.scope, write.scope_id, write.normalized_key)
                matches Ok(times) && (times is Some <==> before->Ok_0 is Some)
        }),
{
    let mode = MemoryWriteModeView::Explicit;
    let step = remember_step(tables, request, mode, false, now, entry_id, evidence_id);
    let after = step.tables;
    let scope = scope_text(request.scope);
    let accepts = identity_is(scope, write.scope_id, write.normalized_key);
    lemma_first_match(tables.entries, accepts);
    let verdict = decision(tables, request.scope, write, mode)->Ok_0;
    let k = match verdict.existing {
        Some(i) => i,
        None => tables.entries.len() as int,
    };
    let id = after.entries[k].entry_id;
    law_write_keeps_store_well_formed(
        tables,
        request,
        mode,
        false,
        now,
        entry_id,
        evidence_id,
    );
    law_stored_names_read_back(
        request.scope,
        write.kind,
        state_after(verdict.revoked_before),
        MemoryOrigin::ExplicitUser,
    );
    let by_id = entry_is(id);
    assert forall|j: int| 0 <= j < k implies !by_id(#[trigger] after.entries[j]) by {
        assert(after.entries[j].entry_id != after.entries[k].entry_id);
    }
    lemma_is_first_match(after.entries, by_id, k);
    lemma_scope_reads(after, request.scope, write.scope_id);
    if already_witnessed(tables, request.source, id) {
        assert(after.evidence == tables.evidence);
    } else {
        assert(is_witness(
            after.evidence[after.evidence.len() - 1],
            id,
            uuid_text(request.source.session_id.value),
            turn_text(request.source),
            request.source.user_item_id,
        ));
    }
    let revoked = revocation_is(scope, write.scope_id, write.normalized_key);
    lemma_first_match(tables.revocations, revoked);
    match first_match(tables.revocations, revoked) {
        Some(r) => {
            assert(after.revocations.len() == tables.revocations.len());
            assert forall|j: int| 0 <= j < r implies !revoked(#[trigger] after.revocations[j]) by {
                assert(!revoked(tables.revocations[j]));
            }
            assert(revoked(tables.revocations[r]));
            assert(revoked(after.revocations[r]));
            lemma_is_first_match(after.revocations, revoked, r);
        },
        None => {
            assert forall|j: int| 0 <= j < after.revocations.len() implies !revoked(
                #[trigger] after.revocations[j],
            ) by {
                assert(!revoked(tables.revocations[j]));
            }
            crate::rows::lemma_no_match(after.revocations, revoked);
        },
    }
    k
}

// ---------------------------------------------------------------------------
// Laws.
// ---------------------------------------------------------------------------
/// Whether exactly one entry has the identity, and it has the given ID.
pub open spec fn is_only_entry(
    entries: Seq<EntryRowView>,
    scope: MemoryScope,
    scope_id: Seq<char>,
    key: Seq<char>,
    entry_id: Seq<char>,
) -> bool {
    exists|k: int|
        0 <= k < entries.len() && (#[trigger] entries[k]).entry_id == entry_id && (forall|j: int|
            0 <= j < entries.len() ==> (identity_is(scope_text(scope), scope_id, key)(
                #[trigger] entries[j],
            ) <==> j == k))
}

proof fn lemma_is_only_entry(
    tables: MemoryTablesView,
    scope: MemoryScope,
    scope_id: Seq<char>,
    key: Seq<char>,
    k: int,
)
    requires
        tables.well_formed(),
        0 <= k < tables.entries.len(),
        identity_is(scope_text(scope), scope_id, key)(tables.entries[k]),
    ensures
        is_only_entry(tables.entries, scope, scope_id, key, tables.entries[k].entry_id),
{
    let accepts = identity_is(scope_text(scope), scope_id, key);
    assert forall|j: int| 0 <= j < tables.entries.len() implies (accepts(
        #[trigger] tables.entries[j],
    ) <==> j == k) by {
        if j < k {
            assert(!same_identity(tables.entries[j], tables.entries[k]));
        } else if k < j {
            assert(!same_identity(tables.entries[k], tables.entries[j]));
        }
    }
}

/// Remembering the same claim twice from one source keeps one entry: the second
/// time gives back the entry of the first, with its ID, creation time, body, state
/// and evidence, and only the kind that was asked for and the time of the last write
/// are new. The instants must be such that read back from their texts.
pub proof fn law_remembering_twice_keeps_one_entry(
    tables: MemoryTablesView,
    first: MemoryRememberRequestView,
    first_at: Timestamp,
    first_entry_id: Seq<char>,
    first_evidence_id: Seq<char>,
    remembered: RememberedEntryView,
    second: MemoryRememberRequestView,
    second_at: Timestamp,
    entry_id: Seq<char>,
    evidence_id: Seq<char>,
)
    requires
        tables.well_formed(),
        remember_step(
            tables,
            first,
            MemoryWriteModeView::Explicit,
            false,
            first_at,
            first_entry_id,
            first_evidence_id,
        ).result == Ok::<Option<RememberedEntryView>, MemoryErrorView>(Some(remembered)),
        collapsed(second.text) == collapsed(first.text),
        second.scope == first.scope,
        second.source == first.source,
    ensures
        ({
            let once = remember_step(
                tables,
                first,
                MemoryWriteModeView::Explicit,
                false,
                first_at,
                first_entry_id,
                first_evidence_id,
            );
            let twice = remember_step(
                once.tables,
                second,
                MemoryWriteModeView::Explicit,
                false,
                second_at,
                entry_id,
                evidence_id,
            );
            let entry = remembered.entry;
            parsed_timestamp(first_at.text()) == Some(first_at) && parsed_timestamp(
                second_at.text(),
            ) == Some(second_at) ==> {
                &&& twice.result matches Ok(Some(again)) && again.entry == (MemoryEntryView {
                    kind: admission(second, false)->Ok_0.kind,
                    updated_at: second_at,
                    ..entry
                })
                &&& twice.tables.entries.len() == once.tables.entries.len()
                &&& twice.tables.evidence == once.tables.evidence
                &&& is_only_entry(
                    twice.tables.entries,
                    entry.scope,
                    entry.scope_id,
                    entry.normalized_key,
                    entry.entry_id,
                )
            }
        }),
{
    if parsed_timestamp(first_at.text()) == Some(first_at) && parsed_timestamp(second_at.text())
        == Some(second_at) {
        let mode = MemoryWriteModeView::Explicit;
        let once = remember_step(
            tables,
            first,
            mode,
            false,
            first_at,
            first_entry_id,
            first_evidence_id,
        );
        let write = admission(first, false)->Ok_0;
        let k = lemma_explicit_left(
            tables,
            first,
            write,
            first_at,
            first_entry_id,
            first_evidence_id,
            remembered,
        );
        let rewrite = admission(second, false)->Ok_0;
        lemma_explicit_rewrite(
            once.tables,
            second,
            rewrite,
            second_at,
            entry_id,
            evidence_id,
            k,
        );
        law_write_keeps_store_well_formed(
            once.tables,
            second,
            mode,
            false,
            second_at,
            entry_id,
            evidence_id,
        );
        let twice = remember_step(
            once.tables,
            second,
            mode,
            false,
            second_at,
            entry_id,
            evidence_id,
        );
        lemma_is_only_entry(
            twice.tables,
            first.scope,
            write.scope_id,
            write.normalized_key,
            k,
        );
    }
}

/// An identity that was never revoked is remembered as active.
pub proof fn law_first_remembering_is_active(
    tables: MemoryTablesView,
    request: MemoryRememberRequestView,
    write: AdmittedWriteView,
    now: Timestamp,
    entry_id: Seq<char>,
    evidence_id: Seq<char>,
    remembered: RememberedEntryView,
)
    requires
        tables.well_formed(),
        admission(request, false) == Ok::<AdmittedWriteView, MemoryErrorView>(write),
        first_row(
            tables.revocations,
            revocation_is(scope_text(request.scope), write.scope_id, write.normalized_key),
        ) is None,
        remember_step(
            tables,
            request,
            MemoryWriteModeView::Explicit,
            false,
            now,
            entry_id,
            evidence_id,
        ).result == Ok::<Option<RememberedEntryView>, MemoryErrorView>(Some(remembered)),
    ensures
        parsed_timestamp(now.text()) == Some(now) ==> remembered.entry.state
            == MemoryState::Active,
{
    if parsed_timestamp(now.text()) == Some(now) {
        let k = lemma_explicit_left(
            tables,
            request,
            write,
            now,
            entry_id,
            evidence_id,
            remembered,
        );
    }
}

/// What is remembered, forgotten and remembered again is the same entry, restored:
/// it has the ID, the creation time and the body that it had. The instants must be
/// such that read back from their texts.
pub proof fn law_remembering_after_forgetting_restores(
    tables: MemoryTablesView,
    first: MemoryRememberRequestView,
    first_at: Timestamp,
    first_entry_id: Seq<char>,
    first_evidence_id: Seq<char>,
    remembered: RememberedEntryView,
    forget: PreparedMemoryForgetRequestView,
    forgotten_at: Timestamp,
    revocation_id: Seq<char>,
    second: MemoryRememberRequestView,
    second_at: Timestamp,
    entry_id: Seq<char>,
    evidence_id: Seq<char>,
)
    requires
        tables.well_formed(),
        remember_step(
            tables,
            first,
            MemoryWriteModeView::Explicit,
            false,
            first_at,
            first_entry_id,
            first_evidence_id,
        ).result == Ok::<Option<RememberedEntryView>, MemoryErrorView>(Some(remembered)),
        forget.scope == remembered.entry.scope,
        forget.scope_id == remembered.entry.scope_id,
        forget.target == PreparedMemoryForgetTargetView::Exact(remembered.entry),
        collapsed(second.text) == collapsed(first.text),
        second.scope == first.scope,
        second.source.workspace_root == first.source.workspace_root,
    ensures
        ({
            let once = remember_step(
                tables,
                first,
                MemoryWriteModeView::Explicit,
                false,
                first_at,
                first_entry_id,
                first_evidence_id,
            ).tables;
            let forgotten = forget_step(once, forget, forgotten_at, revocation_id);
            let twice = remember_step(
                forgotten.tables,
                second,
                MemoryWriteModeView::Explicit,
                false,
                second_at,
                entry_id,
                evidence_id,
            );
            let entry = remembered.entry;
            forgotten.result is Ok && !has_evidence(once.evidence, evidence_id)
                && parsed_timestamp(first_at.text()) == Some(first_at) && parsed_timestamp(
                forgotten_at.text(),
            ) == Some(forgotten_at) && parsed_timestamp(second_at.text()) == Some(second_at) ==> {
                &&& twice.result matches Ok(Some(again)) && again.entry == (MemoryEntryView {
                    kind: admission(second, false)->Ok_0.kind,
                    state: MemoryState::Restored,
                    updated_at: second_at,
                    provenance: again.entry.provenance,
                    ..entry
                })
                &&& twice.tables.entries.len() == once.entries.len()
            }
        }),
{
    let mode = MemoryWriteModeView::Explicit;
    let once = remember_step(
        tables,
        first,
        mode,
        false,
        first_at,
        first_entry_id,
        first_evidence_id,
    ).tables;
    let forgotten = forget_step(once, forget, forgotten_at, revocation_id);
    let entry = remembered.entry;
    if forgotten.result is Ok && !has_evidence(once.evidence, evidence_id) && parsed_timestamp(
        first_at.text(),
    ) == Some(first_at) && parsed_timestamp(forgotten_at.text()) == Some(forgotten_at)
        && parsed_timestamp(second_at.text()) == Some(second_at) {
        let write = admission(first, false)->Ok_0;
        let k = lemma_explicit_left(
            tables,
            first,
            write,
            first_at,
            first_entry_id,
            first_evidence_id,
            remembered,
        );
        let after = forgotten.tables;
        law_forget_keeps_store_well_formed(once, forget, forgotten_at, revocation_id);
        law_forgetting_revokes_the_identity(once, forget, entry, forgotten_at, revocation_id);
        let accepts = scoped_entry_is(entry.entry_id, scope_text(forget.scope), forget.scope_id);
        assert forall|j: int| 0 <= j < k implies !accepts(#[trigger] once.entries[j]) by {
            assert(once.entries[j].entry_id != once.entries[k].entry_id);
        }
        lemma_is_first_match(once.entries, accepts, k);
        law_stored_names_read_back(
            entry.scope,
            entry.kind,
            MemoryState::Retired,
            MemoryOrigin::ExplicitUser,
        );
        assert(after.evidence == once.evidence);
        assert(entry_from(after.entries[k], after.evidence) == Ok::<
            MemoryEntryView,
            MemoryErrorView,
        >(MemoryEntryView { state: MemoryState::Retired, updated_at: forgotten_at, ..entry }));
        assert(scope_reads(after, first.scope, write.scope_id)) by {
            assert forall|j: int|
                0 <= j < after.entries.len() && entry_in_scope(
                    scope_text(first.scope),
                    write.scope_id,
                )(#[trigger] after.entries[j]) implies entry_from(
                after.entries[j],
                after.evidence,
            ) is Ok by {
                if j != k {
                    assert(after.entries[j] == once.entries[j]);
                }
            }
        }
        lemma_explicit_rewrite(
            after,
            second,
            admission(second, false)->Ok_0,
            second_at,
            entry_id,
            evidence_id,
            k,
        );
    }
}

/// Evidence that no earlier evidence follows comes last among the sources.
proof fn lemma_latest_source(
    evidence: Seq<EvidenceRowView>,
    row: EvidenceRowView,
)
    requires
        is_latest(evidence, row),
    ensures
        sources_of(evidence.push(row), row.entry_id) == sources_of(evidence, row.entry_id).push(
            provenance_of(row),
        ),
{
    broadcast use vstd::seq_lib::group_to_multiset_ensures;

    let accepts = evidence_of(row.entry_id);
    let before = observed_before();
    let chosen = evidence.filter(accepts);
    let all = evidence.push(row);
    assert(all.filter(accepts) == chosen.push(row)) by {
        reveal(Seq::filter);
        assert(all.drop_last() =~= evidence);
    }
    assert(chosen.push(row).drop_last() =~= chosen);
    let rows = ordered(chosen, before);
    crate::store::law_reading_orders(Seq::empty(), chosen);
    if rows.len() > 0 {
        let last = rows.last();
        assert(rows.contains(last));
        assert(rows.to_multiset().count(last) > 0);
        assert(chosen.to_multiset().count(last) > 0);
        assert(chosen.contains(last));
        lemma_filter_holds(evidence, accepts);
        assert(evidence.contains(last) && accepts(last));
        let j = choose|j: int| 0 <= j < evidence.len() && evidence[j] == last;
        assert(!before(row, evidence[j]));
    }
    assert(ordered(chosen.push(row), before) == rows.push(row));
    assert(sources_of(all, row.entry_id) =~= sources_of(evidence, row.entry_id).push(
        provenance_of(row),
    ));
}

/// Whether no evidence of the row's entry was observed after the row.
pub open spec fn is_latest(evidence: Seq<EvidenceRowView>, row: EvidenceRowView) -> bool {
    forall|j: int|
        0 <= j < evidence.len() && (#[trigger] evidence[j]).entry_id == row.entry_id
            ==> !observed_before()(row, evidence[j])
}

/// An inferred write on an entry of the user gives that entry back with the time of
/// the write and with its source among the evidence: after all others, if none of
/// them was observed later, and as before, if the source was evidence already. The
/// instant must be one that reads back from its text.
pub proof fn law_inferred_write_adds_its_source(
    tables: MemoryTablesView,
    request: MemoryRememberRequestView,
    write: AdmittedWriteView,
    observed_at: Timestamp,
    watermark: Seq<char>,
    now: Timestamp,
    entry_id: Seq<char>,
    evidence_id: Seq<char>,
    i: int,
    entry: MemoryEntryView,
)
    requires
        tables.well_formed(),
        admission(request, false) == Ok::<AdmittedWriteView, MemoryErrorView>(write),
        0 <= i < tables.entries.len(),
        identity_is(scope_text(request.scope), write.scope_id, write.normalized_key)(
            tables.entries[i],
        ),
        entry_from(tables.entries[i], tables.evidence) == Ok::<MemoryEntryView, MemoryErrorView>(
            entry,
        ),
        entry.origin == MemoryOrigin::ExplicitUser,
        scope_reads(tables, request.scope, write.scope_id),
        !has_evidence(tables.evidence, evidence_id),
    ensures
        ({
            let mode = MemoryWriteModeView::Inferred {
                source_observed_at: observed_at,
                source_watermark: watermark,
            };
            let step = remember_step(tables, request, mode, false, now, entry_id, evidence_id);
            let witness = EvidenceRowView {
                evidence_id,
                entry_id: entry.entry_id,
                session_id: uuid_text(request.source.session_id.value),
                turn_id: turn_text(request.source),
                source_user_item_id: request.source.user_item_id,
                observed_at: observed_at.text(),
                source_watermark: watermark,
            };
            let known = already_witnessed(tables, request.source, entry.entry_id);
            (decision(tables, request.scope, write, mode) matches Ok(verdict) && !verdict.skip)
                && parsed_timestamp(now.text()) == Some(now) ==> {
                &&& step.result matches Ok(Some(remembered)) && remembered.entry == (
                MemoryEntryView {
                    updated_at: now,
                    provenance: sources_of(step.tables.evidence, entry.entry_id),
                    ..entry
                })
                &&& known ==> step.tables.evidence == tables.evidence
                &&& !known ==> step.tables.evidence == tables.evidence.push(witness)
                &&& !known && is_latest(tables.evidence, witness) ==> sources_of(
                    step.tables.evidence,
                    entry.entry_id,
                ) == entry.provenance.push(provenance_of(witness))
            }
        }),
{
    let mode = MemoryWriteModeView::Inferred {
        source_observed_at: observed_at,
        source_watermark: watermark,
    };
    let step = remember_step(tables, request, mode, false, now, entry_id, evidence_id);
    let after = step.tables;
    let accepts = identity_is(scope_text(request.scope), write.scope_id, write.normalized_key);
    assert forall|j: int| 0 <= j < i implies !accepts(#[trigger] tables.entries[j]) by {
        assert(!same_identity(tables.entries[j], tables.entries[i]));
    }
    lemma_is_first_match(tables.entries, accepts, i);
    if decision(tables, request.scope, write, mode) is Ok && !decision(
        tables,
        request.scope,
        write,
        mode,
    )->Ok_0.skip && parsed_timestamp(now.text()) == Some(now) {
        let by_id = entry_is(entry.entry_id);
        assert forall|j: int| 0 <= j < i implies !by_id(#[trigger] after.entries[j]) by {
            assert(tables.entries[j].entry_id != tables.entries[i].entry_id);
        }
        lemma_is_first_match(after.entries, by_id, i);
        assert forall|j: int|
            0 <= j < after.entries.len() && entry_in_scope(
                scope_text(request.scope),
                write.scope_id,
            )(#[trigger] after.entries[j]) implies entry_from(
            after.entries[j],
            after.evidence,
        ) is Ok by {
            assert(entry_from(tables.entries[j], tables.evidence) is Ok);
            lemma_reads_whatever_the_evidence(tables.entries[j], tables.evidence, after.evidence);
        }
        lemma_scope_reads(after, request.scope, write.scope_id);
        let witness = EvidenceRowView {
            evidence_id,
            entry_id: entry.entry_id,
            session_id: uuid_text(request.source.session_id.value),
            turn_id: turn_text(request.source),
            source_user_item_id: request.source.user_item_id,
            observed_at: observed_at.text(),
            source_watermark: watermark,
        };
        if is_latest(tables.evidence, witness) {
            lemma_latest_source(tables.evidence, witness);
        }
    }
}

} // verus!
