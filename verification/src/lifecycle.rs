//! Laws of the life of an identity: remembered, forgotten, remembered again, and
//! what inference may do with it meanwhile.

use vstd::prelude::*;

use crate::command_types::{
    ListMemoryRequestView, MemoryRememberRequestView, PreparedMemoryForgetRequestView,
    PreparedMemoryForgetTargetView,
};
use crate::entries::{
    admission, decision, has_secret_marker, index_row_of_other, law_explicit_write_takes_effect,
    law_revocation_keeps_inferred_out, remember_step, AdmittedWriteView, MemoryWriteModeView,
    RememberStep, RevocationTimes,
};
use crate::forget::{forget_step, matching_rows, retired, revoked_rows, scoped_entry_is};
use crate::memory_error::MemoryErrorView;
use crate::queries::{law_lists_are_complete, listed_rows, MemoryListMode};
use crate::rows::{first_match, first_row, lemma_first_match, lemma_is_first_match};
use crate::rpc_memory::{MemoryEntryView, MemoryScope, MemoryState};
use crate::store::{
    entry_is, has_entry, has_evidence, identity_is, revocation_is, same_identity, same_revoked,
};
use crate::stored_values::{origin_of, scope_text, state_text};
use crate::tables::{EntryRowView, MemoryTablesView, RevocationRowView};
use crate::text::collapsed;
use crate::time::{parsed_timestamp, Timestamp};

verus! {

proof fn lemma_retired_well_formed(
    tables: MemoryTablesView,
    scope: MemoryScope,
    scope_id: Seq<char>,
    entry_id: Seq<char>,
    key: Seq<char>,
    now: Seq<char>,
    revocation_id: Seq<char>,
)
    requires
        tables.well_formed(),
        retired(tables, scope, scope_id, entry_id, key, now, revocation_id) is Ok,
    ensures
        retired(tables, scope, scope_id, entry_id, key, now, revocation_id)->Ok_0.well_formed(),
{
    let after = retired(tables, scope, scope_id, entry_id, key, now, revocation_id)->Ok_0;
    lemma_first_match(tables.entries, scoped_entry_is(entry_id, scope_text(scope), scope_id));
    let accepts = revocation_is(scope_text(scope), scope_id, key);
    lemma_first_match(tables.revocations, accepts);
    assert forall|a: int, b: int| 0 <= a < b < after.entries.len() implies (
    #[trigger] after.entries[a]).entry_id != (#[trigger] after.entries[b]).entry_id
        && !same_identity(after.entries[a], after.entries[b]) by {
        assert(tables.entries[a].entry_id != tables.entries[b].entry_id);
        assert(!same_identity(tables.entries[a], tables.entries[b]));
    }
    assert forall|k: int| 0 <= k < after.evidence.len() implies has_entry(
        after.entries,
        (#[trigger] after.evidence[k]).entry_id,
    ) by {
        let id = tables.evidence[k].entry_id;
        assert(has_entry(tables.entries, id));
        let m = choose|m: int|
            0 <= m < tables.entries.len() && (#[trigger] tables.entries[m]).entry_id == id;
        assert(after.entries[m].entry_id == id);
    }
    assert forall|a: int, b: int| 0 <= a < b < after.revocations.len() implies !same_revoked(
        #[trigger] after.revocations[a],
        #[trigger] after.revocations[b],
    ) && after.revocations[a].revocation_id != after.revocations[b].revocation_id by {
        if b < tables.revocations.len() {
            assert(!same_revoked(tables.revocations[a], tables.revocations[b]));
            assert(tables.revocations[a].revocation_id != tables.revocations[b].revocation_id);
        } else {
            assert(!accepts(tables.revocations[a]));
            assert(tables.revocations[a].revocation_id != revocation_id);
        }
    }
}

/// Forgetting keeps the constraints of the store.
pub proof fn law_forget_keeps_store_well_formed(
    tables: MemoryTablesView,
    request: PreparedMemoryForgetRequestView,
    now: Timestamp,
    revocation_id: Seq<char>,
)
    requires
        tables.well_formed(),
    ensures
        forget_step(tables, request, now, revocation_id).tables.well_formed(),
{
    let scope = request.scope;
    let scope_id = request.scope_id;
    match request.target {
        PreparedMemoryForgetTargetView::Exact(entry) => {
            if retired(
                tables,
                scope,
                scope_id,
                entry.entry_id,
                entry.normalized_key,
                now.text(),
                revocation_id,
            ) is Ok {
                lemma_retired_well_formed(
                    tables,
                    scope,
                    scope_id,
                    entry.entry_id,
                    entry.normalized_key,
                    now.text(),
                    revocation_id,
                );
            }
        },
        PreparedMemoryForgetTargetView::Text(text) => {
            let targets = matching_rows(tables.entries, scope_text(scope), scope_id, text);
            if targets.len() == 1 && retired(
                tables,
                scope,
                scope_id,
                targets[0].entry_id,
                targets[0].normalized_key,
                now.text(),
                revocation_id,
            ) is Ok {
                lemma_retired_well_formed(
                    tables,
                    scope,
                    scope_id,
                    targets[0].entry_id,
                    targets[0].normalized_key,
                    now.text(),
                    revocation_id,
                );
            }
        },
    }
}

/// Whether exactly one entry of a store was retired, and nothing else about its
/// entries and their evidence changed.
pub open spec fn one_entry_retired(
    before: MemoryTablesView,
    after: MemoryTablesView,
    i: int,
    now: Timestamp,
) -> bool {
    &&& 0 <= i < before.entries.len()
    &&& after.entries == before.entries.update(
        i,
        EntryRowView {
            state: state_text(MemoryState::Retired),
            updated_at: now.text(),
            ..before.entries[i]
        },
    )
    &&& after.evidence == before.evidence
    &&& after.jobs == before.jobs
    &&& after.index == before.index.filter(index_row_of_other(before.entries[i].entry_id))
}

/// Forgetting either leaves the store as it is, or retires exactly one entry: no
/// row is deleted, and every other entry stays as it was.
pub proof fn law_forget_retires_at_most_one_entry(
    tables: MemoryTablesView,
    request: PreparedMemoryForgetRequestView,
    now: Timestamp,
    revocation_id: Seq<char>,
)
    ensures
        ({
            let after = forget_step(tables, request, now, revocation_id).tables;
            after == tables || exists|i: int| #[trigger] one_entry_retired(tables, after, i, now)
        }),
{
    let after = forget_step(tables, request, now, revocation_id).tables;
    let scope = scope_text(request.scope);
    let id = match request.target {
        PreparedMemoryForgetTargetView::Exact(entry) => entry.entry_id,
        PreparedMemoryForgetTargetView::Text(text) => matching_rows(
            tables.entries,
            scope,
            request.scope_id,
            text,
        )[0].entry_id,
    };
    let accepts = scoped_entry_is(id, scope, request.scope_id);
    lemma_first_match(tables.entries, accepts);
    if after != tables {
        let i = first_match(tables.entries, accepts)->Some_0;
        assert(one_entry_retired(tables, after, i, now));
    }
}

/// A text that matches several entries retires none of them.
pub proof fn law_ambiguous_text_changes_nothing(
    tables: MemoryTablesView,
    request: PreparedMemoryForgetRequestView,
    text: Seq<char>,
    now: Timestamp,
    revocation_id: Seq<char>,
)
    requires
        request.target == PreparedMemoryForgetTargetView::Text(text),
        matching_rows(tables.entries, scope_text(request.scope), request.scope_id, text).len() != 1,
    ensures
        forget_step(tables, request, now, revocation_id).tables == tables,
{
}

proof fn lemma_identity_is_revoked(
    revocations: Seq<RevocationRowView>,
    scope: Seq<char>,
    scope_id: Seq<char>,
    key: Seq<char>,
    now: Seq<char>,
    revocation_id: Seq<char>,
)
    ensures
        ({
            let after = revoked_rows(revocations, scope, scope_id, key, now, revocation_id);
            first_row(after, revocation_is(scope, scope_id, key)) matches Some(row)
                && row.revoked_at == now && row.restored_at is None
        }),
{
    let accepts = revocation_is(scope, scope_id, key);
    let after = revoked_rows(revocations, scope, scope_id, key, now, revocation_id);
    lemma_first_match(revocations, accepts);
    match first_match(revocations, accepts) {
        Some(i) => {
            assert forall|j: int| 0 <= j < i implies !accepts(#[trigger] after[j]) by {
                assert(after[j] == revocations[j]);
            }
            lemma_is_first_match(after, accepts, i);
        },
        None => {
            let last = revocations.len() as int;
            assert forall|j: int| 0 <= j < last implies !accepts(#[trigger] after[j]) by {
                assert(after[j] == revocations[j]);
            }
            lemma_is_first_match(after, accepts, last);
        },
    }
}

/// Forgetting an entry revokes its identity: the revocation bears the instant of
/// the request, and nothing restores it.
pub proof fn law_forgetting_revokes_the_identity(
    tables: MemoryTablesView,
    request: PreparedMemoryForgetRequestView,
    entry: MemoryEntryView,
    now: Timestamp,
    revocation_id: Seq<char>,
)
    requires
        request.target == PreparedMemoryForgetTargetView::Exact(entry),
    ensures
        ({
            let after = forget_step(tables, request, now, revocation_id).tables;
            let accepts = revocation_is(
                scope_text(request.scope),
                request.scope_id,
                entry.normalized_key,
            );
            retired(
                tables,
                request.scope,
                request.scope_id,
                entry.entry_id,
                entry.normalized_key,
                now.text(),
                revocation_id,
            ) is Ok ==> (first_row(after.revocations, accepts) matches Some(row) && row.revoked_at
                == now.text() && row.restored_at is None)
        }),
{
    lemma_identity_is_revoked(
        tables.revocations,
        scope_text(request.scope),
        request.scope_id,
        entry.normalized_key,
        now.text(),
        revocation_id,
    );
}

/// Whether every stored origin has a meaning.
pub open spec fn origins_are_known(tables: MemoryTablesView) -> bool {
    forall|i: int|
        0 <= i < tables.entries.len() ==> origin_of((#[trigger] tables.entries[i]).origin) is Ok
}

/// What is forgotten does not come back by inference: right after an entry was
/// forgotten, an inferred write of the same identity returns nothing and changes
/// nothing, however late it was observed. The instant of forgetting must be one
/// that reads back from its text.
pub proof fn law_inference_cannot_undo_forgetting(
    tables: MemoryTablesView,
    forget: PreparedMemoryForgetRequestView,
    entry: MemoryEntryView,
    forgotten_at: Timestamp,
    revocation_id: Seq<char>,
    request: MemoryRememberRequestView,
    write: AdmittedWriteView,
    observed_at: Timestamp,
    watermark: Seq<char>,
    now: Timestamp,
    entry_id: Seq<char>,
    evidence_id: Seq<char>,
)
    requires
        forget.target == PreparedMemoryForgetTargetView::Exact(entry),
        forget.scope == request.scope,
        origins_are_known(tables),
        admission(request, false) == Ok::<AdmittedWriteView, MemoryErrorView>(write),
        write.scope_id == forget.scope_id,
        write.normalized_key == entry.normalized_key,
    ensures
        ({
            let after = forget_step(tables, forget, forgotten_at, revocation_id).tables;
            let mode = MemoryWriteModeView::Inferred {
                source_observed_at: observed_at,
                source_watermark: watermark,
            };
            retired(
                tables,
                forget.scope,
                forget.scope_id,
                entry.entry_id,
                entry.normalized_key,
                forgotten_at.text(),
                revocation_id,
            ) is Ok && parsed_timestamp(forgotten_at.text()) == Some(forgotten_at)
                ==> remember_step(after, request, mode, false, now, entry_id, evidence_id) == (
            RememberStep { tables: after, result: Ok(None) })
        }),
{
    let after = forget_step(tables, forget, forgotten_at, revocation_id).tables;
    let outcome = retired(
        tables,
        forget.scope,
        forget.scope_id,
        entry.entry_id,
        entry.normalized_key,
        forgotten_at.text(),
        revocation_id,
    );
    if outcome is Ok && parsed_timestamp(forgotten_at.text()) == Some(forgotten_at) {
        law_forgetting_revokes_the_identity(tables, forget, entry, forgotten_at, revocation_id);
        let times = RevocationTimes { revoked_at: forgotten_at, restored_at: None };
        lemma_first_match(
            tables.entries,
            scoped_entry_is(entry.entry_id, scope_text(forget.scope), forget.scope_id),
        );
        assert forall|i: int| 0 <= i < after.entries.len() implies origin_of(
            (#[trigger] after.entries[i]).origin,
        ) is Ok by {
            assert(after.entries[i].origin == tables.entries[i].origin);
        }
        law_revocation_keeps_inferred_out(
            after,
            request,
            observed_at,
            watermark,
            now,
            entry_id,
            evidence_id,
            write,
            times,
        );
    }
}

/// What was restored by the user is not overwritten by old observations: after an
/// identity was revoked and then remembered again, an inferred write that was
/// observed no later than the revocation returns nothing and changes nothing.
pub proof fn law_old_observation_stays_out_after_restoring(
    tables: MemoryTablesView,
    request: MemoryRememberRequestView,
    write: AdmittedWriteView,
    revoked: RevocationRowView,
    revoked_at: Timestamp,
    restored_at: Timestamp,
    first_entry_id: Seq<char>,
    first_evidence_id: Seq<char>,
    inferred: MemoryRememberRequestView,
    inferred_write: AdmittedWriteView,
    observed_at: Timestamp,
    watermark: Seq<char>,
    now: Timestamp,
    entry_id: Seq<char>,
    evidence_id: Seq<char>,
)
    requires
        origins_are_known(tables),
        admission(request, false) == Ok::<AdmittedWriteView, MemoryErrorView>(write),
        admission(inferred, false) == Ok::<AdmittedWriteView, MemoryErrorView>(inferred_write),
        inferred.scope == request.scope,
        inferred_write.scope_id == write.scope_id,
        inferred_write.normalized_key == write.normalized_key,
        decision(tables, request.scope, write, MemoryWriteModeView::Explicit) matches Ok(decision)
            && decision.existing is Some,
        !has_evidence(tables.evidence, first_evidence_id),
        first_row(
            tables.revocations,
            revocation_is(scope_text(request.scope), write.scope_id, write.normalized_key),
        ) == Some(revoked),
        revoked.restored_at is None,
        !revoked_at.earlier(observed_at),
    ensures
        ({
            let restored = remember_step(
                tables,
                request,
                MemoryWriteModeView::Explicit,
                false,
                restored_at,
                first_entry_id,
                first_evidence_id,
            ).tables;
            let mode = MemoryWriteModeView::Inferred {
                source_observed_at: observed_at,
                source_watermark: watermark,
            };
            parsed_timestamp(revoked.revoked_at) == Some(revoked_at) && parsed_timestamp(
                restored_at.text(),
            ) == Some(restored_at) ==> remember_step(
                restored,
                inferred,
                mode,
                false,
                now,
                entry_id,
                evidence_id,
            ) == (RememberStep { tables: restored, result: Ok(None) })
        }),
{
    let restored = remember_step(
        tables,
        request,
        MemoryWriteModeView::Explicit,
        false,
        restored_at,
        first_entry_id,
        first_evidence_id,
    ).tables;
    if parsed_timestamp(revoked.revoked_at) == Some(revoked_at) && parsed_timestamp(
        restored_at.text(),
    ) == Some(restored_at) {
        let accepts = revocation_is(
            scope_text(request.scope),
            write.scope_id,
            write.normalized_key,
        );
        lemma_first_match(tables.revocations, accepts);
        let k = first_match(tables.revocations, accepts)->Some_0;
        assert forall|j: int| 0 <= j < k implies !accepts(#[trigger] restored.revocations[j]) by {
            assert(!accepts(tables.revocations[j]));
        }
        assert(accepts(restored.revocations[k]));
        lemma_is_first_match(restored.revocations, accepts, k);
        assert(restored.revocations[k].restored_at == Some(restored_at.text()));
        let times = RevocationTimes { revoked_at, restored_at: Some(restored_at) };
        crate::stored_values::law_stored_names_read_back(
            MemoryScope::User,
            crate::rpc_memory::MemoryKind::Fact,
            MemoryState::Active,
            crate::rpc_memory::MemoryOrigin::ExplicitUser,
        );
        lemma_first_match(
            tables.entries,
            identity_is(scope_text(request.scope), write.scope_id, write.normalized_key),
        );
        assert(restored.entries.len() == tables.entries.len());
        assert forall|i: int| 0 <= i < restored.entries.len() implies origin_of(
            (#[trigger] restored.entries[i]).origin,
        ) is Ok by {
            assert(origin_of(tables.entries[i].origin) is Ok);
        }
        law_revocation_keeps_inferred_out(
            restored,
            inferred,
            observed_at,
            watermark,
            now,
            entry_id,
            evidence_id,
            inferred_write,
            times,
        );
    }
}

/// Secrets are never stored: a write whose text holds a mark of a secret, or in
/// which a detector found one, is refused and changes nothing.
pub proof fn law_secrets_are_never_stored(
    tables: MemoryTablesView,
    request: MemoryRememberRequestView,
    mode: MemoryWriteModeView,
    detected: bool,
    now: Timestamp,
    entry_id: Seq<char>,
    evidence_id: Seq<char>,
)
    requires
        collapsed(request.text).len() > 0,
        has_secret_marker(collapsed(request.text)) || detected,
    ensures
        remember_step(tables, request, mode, detected, now, entry_id, evidence_id) == (
        RememberStep { tables, result: Err(MemoryErrorView::SecretContentRejected) }),
{
}

/// What is remembered is found: after an explicit write, the entry is in the list of
/// its scope, and among the active ones for recall.
pub proof fn law_remembered_entry_is_found(
    tables: MemoryTablesView,
    request: MemoryRememberRequestView,
    now: Timestamp,
    entry_id: Seq<char>,
    evidence_id: Seq<char>,
    write: AdmittedWriteView,
    list: ListMemoryRequestView,
    mode: MemoryListMode,
)
    requires
        admission(request, false) == Ok::<AdmittedWriteView, MemoryErrorView>(write),
        decision(tables, request.scope, write, MemoryWriteModeView::Explicit) is Ok,
        !has_entry(tables.entries, entry_id),
        !has_evidence(tables.evidence, evidence_id),
        list.kind is None && list.origin is None && list.text is None,
        list.state is None || (list.state == Some(MemoryState::Active) && mode
            == MemoryListMode::Recallable),
    ensures
        ({
            let after = remember_step(
                tables,
                request,
                MemoryWriteModeView::Explicit,
                false,
                now,
                entry_id,
                evidence_id,
            ).tables;
            exists|row: EntryRowView| #[trigger]
                listed_rows(after.entries, request.scope, write.scope_id, list, mode).contains(row)
                    && row.normalized_key == write.normalized_key && row.body == write.body
                    && row.updated_at == now.text()
        }),
{
    let after = remember_step(
        tables,
        request,
        MemoryWriteModeView::Explicit,
        false,
        now,
        entry_id,
        evidence_id,
    ).tables;
    let accepts = identity_is(scope_text(request.scope), write.scope_id, write.normalized_key);
    law_explicit_write_takes_effect(tables, request, now, entry_id, evidence_id, write);
    lemma_first_match(after.entries, accepts);
    let i = first_match(after.entries, accepts)->Some_0;
    let row = after.entries[i];
    law_lists_are_complete(after.entries, request.scope, write.scope_id, list, mode);
    assert(after.entries.contains(row));
    assert(listed_rows(after.entries, request.scope, write.scope_id, list, mode).contains(row));
}

/// What is forgotten is not recalled: after an entry was forgotten, no list of active
/// entries holds it.
pub proof fn law_forgotten_entry_is_not_recalled(
    tables: MemoryTablesView,
    request: PreparedMemoryForgetRequestView,
    forgotten: MemoryEntryView,
    now: Timestamp,
    revocation_id: Seq<char>,
    list: ListMemoryRequestView,
    mode: MemoryListMode,
    row: EntryRowView,
)
    requires
        tables.well_formed(),
        forget_step(tables, request, now, revocation_id).result matches Ok(outcome)
            && outcome.result.forgotten == Some(forgotten),
        list.state == Some(MemoryState::Active),
        listed_rows(
            forget_step(tables, request, now, revocation_id).tables.entries,
            request.scope,
            request.scope_id,
            list,
            mode,
        ).contains(row),
    ensures
        row.entry_id != forgotten.entry_id,
{
    let after = forget_step(tables, request, now, revocation_id).tables;
    let scope = scope_text(request.scope);
    let id = match request.target {
        PreparedMemoryForgetTargetView::Exact(entry) => entry.entry_id,
        PreparedMemoryForgetTargetView::Text(text) => matching_rows(
            tables.entries,
            scope,
            request.scope_id,
            text,
        )[0].entry_id,
    };
    let accepts = scoped_entry_is(id, scope, request.scope_id);
    lemma_first_match(tables.entries, accepts);
    lemma_first_match(after.entries, entry_is(id));
    law_forget_keeps_store_well_formed(tables, request, now, revocation_id);
    law_lists_are_complete(after.entries, request.scope, request.scope_id, list, mode);
    let i = first_match(tables.entries, accepts)->Some_0;
    let j = choose|j: int| 0 <= j < after.entries.len() && after.entries[j] == row;
    assert(forgotten.entry_id == id);
    assert(after.entries[i].state == state_text(MemoryState::Retired));
    reveal_strlit("active");
    reveal_strlit("restored");
    reveal_strlit("retired");
    assert("active"@.len() != "retired"@.len() && "restored"@.len() != "retired"@.len());
    if row.entry_id == id {
        assert(after.entries[i].entry_id == after.entries[j].entry_id);
        assert(i == j);
    }
}

} // verus!
