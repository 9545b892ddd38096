//! Laws of forgetting: what a text names, what is retired and what is left alone, and
//! whose word counts for a project.

use vstd::prelude::*;

use crate::claim_laws::{lemma_scope_name, revokes};
use crate::command_types::{
    MemoryForgetSelectorView, MemoryForgetSourceView, PreparedMemoryForgetRequestView,
    PreparedMemoryForgetTargetView, ProjectMemorySessionActivity, ProjectMemorySessionView,
};
use crate::core_ids::SessionId;
use crate::entries::index_row_of_other;
use crate::forget::{
    entry_matches, fitting_sessions, forget_source, forget_step, has_revocation, matching_rows,
    prepared_forget, project_source, retired, scoped_entry_is, selected_session, session_is,
    ForgottenEntryView, ResolvedProjectMemorySessionView,
};
use crate::memory_error::MemoryErrorView;
use crate::queries::lemma_entries_from_rows;
use crate::rows::{
    first_match, lemma_filter_holds, lemma_first_match, lemma_is_first_match, lemma_no_match,
    ordered,
};
use crate::rpc_memory::{
    MemoryEntryView, MemoryForgetResultView, MemoryKind, MemoryOrigin, MemoryScope, MemoryState,
};
use crate::search_laws::{law_entry_shows_its_row, law_stored_names};
use crate::store::{
    entry_from, entry_is, law_reading_orders, newer_first, revocation_is, stored_entry,
};
use crate::stored_values::{law_stored_names_read_back, scope_of, scope_text, state_text};
use crate::tables::{EntryRowView, MemoryTablesView};
use crate::text::collapsed;
use crate::text_laws::{law_lower_case_compares_letters, reads_in};
use crate::time::Timestamp;

verus! {

// ---------------------------------------------------------------------------
// What a text names.
// ---------------------------------------------------------------------------
/// Whether a text names an entry of a scope: it stands in the body or in the key, the
/// case of ASCII letters aside.
pub open spec fn names_row(
    row: EntryRowView,
    scope: MemoryScope,
    scope_id: Seq<char>,
    text: Seq<char>,
) -> bool {
    &&& scope_of(row.scope_type) == Ok::<MemoryScope, MemoryErrorView>(scope)
    &&& row.scope_id == scope_id
    &&& reads_in(row.body, text) || reads_in(row.normalized_key, text)
}

proof fn lemma_names_row(
    row: EntryRowView,
    scope: MemoryScope,
    scope_id: Seq<char>,
    text: Seq<char>,
)
    ensures
        entry_matches(scope_text(scope), scope_id, text)(row) <==> names_row(
            row,
            scope,
            scope_id,
            text,
        ),
{
    lemma_scope_name(row.scope_type, scope);
    law_lower_case_compares_letters(row.body, text);
    law_lower_case_compares_letters(row.normalized_key, text);
}

/// A forget by text matches an entry exactly if the entry is in the scope and its body
/// or its key holds the text, the case of ASCII letters aside. In particular every part
/// of the body of an entry matches that entry.
pub proof fn law_text_matches_body_and_key(
    entries: Seq<EntryRowView>,
    scope: MemoryScope,
    scope_id: Seq<char>,
    text: Seq<char>,
    row: EntryRowView,
)
    ensures
        matching_rows(entries, scope_text(scope), scope_id, text).contains(row)
            <==> entries.contains(row) && names_row(row, scope, scope_id, text),
        forall|before: Seq<char>, behind: Seq<char>|
            row.body == #[trigger] (before + text + behind) && entries.contains(row) && scope_of(
                row.scope_type,
            ) == Ok::<MemoryScope, MemoryErrorView>(scope) && row.scope_id == scope_id
                ==> matching_rows(entries, scope_text(scope), scope_id, text).contains(row),
{
    broadcast use vstd::seq_lib::group_to_multiset_ensures;

    let accepts = entry_matches(scope_text(scope), scope_id, text);
    let chosen = entries.filter(accepts);
    let rows = matching_rows(entries, scope_text(scope), scope_id, text);
    law_reading_orders(chosen, Seq::empty());
    lemma_filter_holds(entries, accepts);
    lemma_names_row(row, scope, scope_id, text);
    law_lower_case_compares_letters(row.body, text);
    assert(rows.contains(row) <==> rows.to_multiset().count(row) > 0);
    assert(chosen.contains(row) <==> chosen.to_multiset().count(row) > 0);
}

proof fn lemma_filter_single<V>(rows: Seq<V>, accepts: spec_fn(V) -> bool, k: int)
    requires
        0 <= k < rows.len(),
        accepts(rows[k]),
        forall|i: int| 0 <= i < rows.len() && i != k ==> !accepts(#[trigger] rows[i]),
    ensures
        rows.filter(accepts) == seq![rows[k]],
    decreases rows.len(),
{
    reveal(Seq::filter);
    let front = rows.drop_last();
    if k < front.len() {
        lemma_filter_single(front, accepts, k);
    } else {
        lemma_filter_none(front, accepts);
        assert(rows.filter(accepts) =~= seq![rows[k]]);
    }
}

proof fn lemma_filter_none<V>(rows: Seq<V>, accepts: spec_fn(V) -> bool)
    requires
        forall|i: int| 0 <= i < rows.len() ==> !accepts(#[trigger] rows[i]),
    ensures
        rows.filter(accepts) == Seq::<V>::empty(),
    decreases rows.len(),
{
    reveal(Seq::filter);
    if rows.len() > 0 {
        lemma_filter_none(rows.drop_last(), accepts);
    }
}

proof fn lemma_ordered_single<V>(row: V, before: spec_fn(V, V) -> bool)
    ensures
        ordered(seq![row], before) == seq![row],
{
    assert(seq![row].drop_last() =~= Seq::<V>::empty());
    reveal_with_fuel(ordered, 2);
    assert(ordered(seq![row], before) =~= seq![row]);
}

// ---------------------------------------------------------------------------
// What is retired.
// ---------------------------------------------------------------------------
/// Whether a store is what another becomes when one of its entries is retired at an
/// instant: the entry is kept, but retired; its identity is revoked from that instant
/// on and nothing restores it; it is searched no more; all else is as it was.
pub open spec fn is_retired_at(
    before: MemoryTablesView,
    after: MemoryTablesView,
    k: int,
    scope: MemoryScope,
    now: Seq<char>,
) -> bool {
    let row = before.entries[k];
    &&& after.entries.len() == before.entries.len()
    &&& after.entries[k] == (EntryRowView { state: "retired"@, updated_at: now, ..row })
    &&& forall|i: int|
        0 <= i < before.entries.len() && i != k ==> #[trigger] after.entries[i]
            == before.entries[i]
    &&& exists|i: int|
        {
            &&& 0 <= i < after.revocations.len()
            &&& revokes(
                #[trigger] after.revocations[i],
                scope,
                row.scope_id,
                row.normalized_key,
            )
            &&& after.revocations[i].revoked_at == now
            &&& after.revocations[i].restored_at is None
        }
    &&& before.revocations.len() <= after.revocations.len()
    &&& forall|i: int|
        0 <= i < before.revocations.len() ==> {
            &&& (#[trigger] after.revocations[i]).revocation_id
                == before.revocations[i].revocation_id
            &&& revokes(before.revocations[i], scope, row.scope_id, row.normalized_key)
                || after.revocations[i] == before.revocations[i]
        }
    &&& forall|i: int|
        0 <= i < after.index.len() ==> (#[trigger] after.index[i]).entry_id != row.entry_id
            && before.index.contains(after.index[i])
    &&& forall|i: int|
        0 <= i < before.index.len() && (#[trigger] before.index[i]).entry_id != row.entry_id
            ==> after.index.contains(before.index[i])
    &&& after.evidence == before.evidence
    &&& after.jobs == before.jobs
    &&& after.candidate_count == before.candidate_count
}

proof fn lemma_retired(
    tables: MemoryTablesView,
    scope: MemoryScope,
    k: int,
    now: Seq<char>,
    revocation_id: Seq<char>,
)
    requires
        tables.well_formed(),
        0 <= k < tables.entries.len(),
        scope_of(tables.entries[k].scope_type) == Ok::<MemoryScope, MemoryErrorView>(scope),
        !has_revocation(tables.revocations, revocation_id),
    ensures
        retired(
            tables,
            scope,
            tables.entries[k].scope_id,
            tables.entries[k].entry_id,
            tables.entries[k].normalized_key,
            now,
            revocation_id,
        ) matches Ok(after) && is_retired_at(tables, after, k, scope, now),
{
    let row = tables.entries[k];
    let accepts = scoped_entry_is(row.entry_id, scope_text(scope), row.scope_id);
    lemma_scope_name(row.scope_type, scope);
    assert forall|j: int| 0 <= j < k implies !accepts(#[trigger] tables.entries[j]) by {
        assert(tables.entries[j].entry_id != tables.entries[k].entry_id);
    }
    lemma_is_first_match(tables.entries, accepts, k);
    law_stored_names(state_text(MemoryState::Retired));
    law_stored_names_read_back(
        scope,
        MemoryKind::Fact,
        MemoryState::Retired,
        MemoryOrigin::ExplicitUser,
    );
    let after = retired(
        tables,
        scope,
        row.scope_id,
        row.entry_id,
        row.normalized_key,
        now,
        revocation_id,
    )->Ok_0;
    let revoked = revocation_is(scope_text(scope), row.scope_id, row.normalized_key);
    lemma_first_match(tables.revocations, revoked);
    lemma_scope_name(scope_text(scope), scope);
    let at = match first_match(tables.revocations, revoked) {
        Some(i) => i,
        None => tables.revocations.len() as int,
    };
    assert(revokes(after.revocations[at], scope, row.scope_id, row.normalized_key));
    assert forall|i: int| 0 <= i < tables.revocations.len() implies {
        &&& (#[trigger] after.revocations[i]).revocation_id == tables.revocations[i].revocation_id
        &&& revokes(tables.revocations[i], scope, row.scope_id, row.normalized_key)
            || after.revocations[i] == tables.revocations[i]
    } by {
        lemma_scope_name(tables.revocations[i].scope_type, scope);
    }
    lemma_filter_holds(tables.index, index_row_of_other(row.entry_id));
    assert forall|i: int| 0 <= i < after.index.len() implies (#[trigger] after.index[i]).entry_id
        != row.entry_id && tables.index.contains(after.index[i]) by {
        assert(after.index.contains(after.index[i]));
    }
    assert forall|i: int|
        0 <= i < tables.index.len() && (#[trigger] tables.index[i]).entry_id
            != row.entry_id implies after.index.contains(tables.index[i]) by {
        assert(tables.index.contains(tables.index[i]));
    }
}

/// Forgetting an entry by its ID retires it and gives it back as retired now, whether or
/// not the page could be written.
pub proof fn law_forgetting_by_id(
    tables: MemoryTablesView,
    request: PreparedMemoryForgetRequestView,
    now: Timestamp,
    revocation_id: Seq<char>,
    k: int,
)
    requires
        tables.well_formed(),
        0 <= k < tables.entries.len(),
        entry_from(tables.entries[k], tables.evidence) matches Ok(entry) && request.target
            == PreparedMemoryForgetTargetView::Exact(entry),
        scope_of(tables.entries[k].scope_type) == Ok::<MemoryScope, MemoryErrorView>(
            request.scope,
        ),
        request.scope_id == tables.entries[k].scope_id,
        !has_revocation(tables.revocations, revocation_id),
    ensures
        ({
            let step = forget_step(tables, request, now, revocation_id);
            let entry = entry_from(tables.entries[k], tables.evidence)->Ok_0;
            let result = MemoryForgetResultView {
                forgotten: Some(
                    MemoryEntryView { state: MemoryState::Retired, updated_at: now, ..entry },
                ),
                candidates: Seq::empty(),
            };
            &&& is_retired_at(tables, step.tables, k, request.scope, now.text())
            &&& match step.result {
                Ok(forgotten) => forgotten.result == result && forgotten.projection is Some,
                Err(error) => error matches MemoryErrorView::ForgetCommitted { result: told, .. }
                    && told == result,
            }
        }),
{
    lemma_retired(tables, request.scope, k, now.text(), revocation_id);
    law_entry_shows_its_row(tables.entries[k], tables.evidence);
}

/// A text that names one entry alone retires that entry and gives it back as retired,
/// whether or not the page could be written. An entry is named by every part of its
/// body.
pub proof fn law_forgetting_by_text(
    tables: MemoryTablesView,
    request: PreparedMemoryForgetRequestView,
    text: Seq<char>,
    now: Timestamp,
    revocation_id: Seq<char>,
    k: int,
)
    requires
        tables.well_formed(),
        request.target == PreparedMemoryForgetTargetView::Text(text),
        0 <= k < tables.entries.len(),
        names_row(tables.entries[k], request.scope, request.scope_id, text),
        forall|i: int|
            0 <= i < tables.entries.len() && i != k ==> !names_row(
                #[trigger] tables.entries[i],
                request.scope,
                request.scope_id,
                text,
            ),
        entry_from(
            EntryRowView {
                state: "retired"@,
                updated_at: now.text(),
                ..tables.entries[k]
            },
            tables.evidence,
        ) is Ok,
        !has_revocation(tables.revocations, revocation_id),
    ensures
        ({
            let step = forget_step(tables, request, now, revocation_id);
            let entry = entry_from(
                EntryRowView {
                    state: "retired"@,
                    updated_at: now.text(),
                    ..tables.entries[k]
                },
                tables.evidence,
            )->Ok_0;
            let result = MemoryForgetResultView {
                forgotten: Some(entry),
                candidates: Seq::empty(),
            };
            &&& is_retired_at(tables, step.tables, k, request.scope, now.text())
            &&& entry.state == MemoryState::Retired
            &&& entry.body == tables.entries[k].body
            &&& entry.entry_id == tables.entries[k].entry_id
            &&& match step.result {
                Ok(forgotten) => forgotten.result == result && forgotten.projection is Some,
                Err(error) => error matches MemoryErrorView::ForgetCommitted { result: told, .. }
                    && told == result,
            }
        }),
{
    let scope = request.scope;
    let scope_id = request.scope_id;
    let row = tables.entries[k];
    let accepts = entry_matches(scope_text(scope), scope_id, text);
    assert forall|i: int| 0 <= i < tables.entries.len() && i != k implies !accepts(
        #[trigger] tables.entries[i],
    ) by {
        lemma_names_row(tables.entries[i], scope, scope_id, text);
    }
    lemma_names_row(row, scope, scope_id, text);
    lemma_filter_single(tables.entries, accepts, k);
    lemma_ordered_single(row, newer_first());
    assert(matching_rows(tables.entries, scope_text(scope), scope_id, text) == seq![row]);
    lemma_retired(tables, scope, k, now.text(), revocation_id);
    let after = retired(
        tables,
        scope,
        scope_id,
        row.entry_id,
        row.normalized_key,
        now.text(),
        revocation_id,
    )->Ok_0;
    let gone = EntryRowView { state: "retired"@, updated_at: now.text(), ..row };
    assert(after.entries[k] == gone);
    assert forall|j: int| 0 <= j < k implies !entry_is(row.entry_id)(
        #[trigger] after.entries[j],
    ) by {
        assert(after.entries[j] == tables.entries[j]);
        assert(tables.entries[j].entry_id != tables.entries[k].entry_id);
    }
    lemma_is_first_match(after.entries, entry_is(row.entry_id), k);
    law_entry_shows_its_row(gone, tables.evidence);
    law_stored_names("retired"@);
}

/// A text that names no entry changes nothing and is told so; one that names two or more
/// changes nothing and is answered with every entry that it names, no others.
pub proof fn law_text_must_name_one_entry(
    tables: MemoryTablesView,
    request: PreparedMemoryForgetRequestView,
    text: Seq<char>,
    now: Timestamp,
    revocation_id: Seq<char>,
)
    requires
        tables.well_formed(),
        request.target == PreparedMemoryForgetTargetView::Text(text),
    ensures
        (forall|i: int|
            0 <= i < tables.entries.len() ==> !names_row(
                #[trigger] tables.entries[i],
                request.scope,
                request.scope_id,
                text,
            )) ==> forget_step(tables, request, now, revocation_id).tables == tables
            && forget_step(tables, request, now, revocation_id).result == Err::<
            ForgottenEntryView,
            MemoryErrorView,
        >(MemoryErrorView::InvalidRequest("memory entry not found"@)),
        forall|i: int, k: int|
            0 <= i < k < tables.entries.len() && names_row(
                #[trigger] tables.entries[i],
                request.scope,
                request.scope_id,
                text,
            ) && names_row(
                #[trigger] tables.entries[k],
                request.scope,
                request.scope_id,
                text,
            ) ==> {
                let step = forget_step(tables, request, now, revocation_id);
                &&& step.tables == tables
                &&& step.result matches Ok(found) ==> {
                    &&& found.result.forgotten is None
                    &&& found.projection is None
                    &&& entry_from(tables.entries[i], tables.evidence) matches Ok(entry)
                        && found.result.candidates.contains(entry)
                    &&& forall|c: int|
                        0 <= c < found.result.candidates.len() ==> is_told_of(
                            tables,
                            request.scope,
                            request.scope_id,
                            text,
                            #[trigger] found.result.candidates[c],
                        )
                }
            },
{
    let scope = request.scope;
    let scope_id = request.scope_id;
    let accepts = entry_matches(scope_text(scope), scope_id, text);
    let targets = matching_rows(tables.entries, scope_text(scope), scope_id, text);
    if forall|i: int|
        0 <= i < tables.entries.len() ==> !names_row(
            #[trigger] tables.entries[i],
            scope,
            scope_id,
            text,
        ) {
        assert forall|i: int| 0 <= i < tables.entries.len() implies !accepts(
            #[trigger] tables.entries[i],
        ) by {
            lemma_names_row(tables.entries[i], scope, scope_id, text);
        }
        lemma_filter_none(tables.entries, accepts);
    }
    assert forall|i: int, k: int|
        0 <= i < k < tables.entries.len() && names_row(
            #[trigger] tables.entries[i],
            scope,
            scope_id,
            text,
        ) && names_row(#[trigger] tables.entries[k], scope, scope_id, text) implies {
        let step = forget_step(tables, request, now, revocation_id);
        &&& step.tables == tables
        &&& step.result matches Ok(found) ==> {
            &&& found.result.forgotten is None
            &&& found.projection is None
            &&& entry_from(tables.entries[i], tables.evidence) matches Ok(entry)
                && found.result.candidates.contains(entry)
            &&& forall|c: int|
                0 <= c < found.result.candidates.len() ==> is_told_of(
                    tables,
                    scope,
                    scope_id,
                    text,
                    #[trigger] found.result.candidates[c],
                )
        }
    } by {
        let a = tables.entries[i];
        let b = tables.entries[k];
        assert(a.entry_id != b.entry_id);
        assert(tables.entries.contains(a) && tables.entries.contains(b));
        law_text_matches_body_and_key(tables.entries, scope, scope_id, text, a);
        law_text_matches_body_and_key(tables.entries, scope, scope_id, text, b);
        let x = targets.index_of(a);
        let y = targets.index_of(b);
        assert(targets[x] == a && targets[y] == b && x != y);
        let step = forget_step(tables, request, now, revocation_id);
        lemma_entries_from_rows(targets, tables.evidence);
        if let Ok(found) = step.result {
            assert(found.result.candidates[x] == entry_from(a, tables.evidence)->Ok_0);
            assert forall|c: int| 0 <= c < found.result.candidates.len() implies is_told_of(
                tables,
                scope,
                scope_id,
                text,
                #[trigger] found.result.candidates[c],
            ) by {
                let row = targets[c];
                assert(targets.contains(row));
                law_text_matches_body_and_key(tables.entries, scope, scope_id, text, row);
                let m = tables.entries.index_of(row);
                assert(tables.entries[m] == row);
            }
        }
    }
}

/// Whether an entry that is told of is a stored entry that a text names.
pub open spec fn is_told_of(
    tables: MemoryTablesView,
    scope: MemoryScope,
    scope_id: Seq<char>,
    text: Seq<char>,
    entry: MemoryEntryView,
) -> bool {
    exists|i: int|
        {
            &&& 0 <= i < tables.entries.len()
            &&& names_row(#[trigger] tables.entries[i], scope, scope_id, text)
            &&& entry_from(tables.entries[i], tables.evidence) == Ok::<
                MemoryEntryView,
                MemoryErrorView,
            >(entry)
        }
}

// ---------------------------------------------------------------------------
// Whose word counts.
// ---------------------------------------------------------------------------
/// Whether a session has a workspace of a project.
pub open spec fn works_on(session: ProjectMemorySessionView, project: Seq<char>) -> bool {
    session.workspace_root matches Some(root) && root.project_scope == Ok::<Seq<char>, Seq<char>>(
        project,
    )
}

/// Of the sessions of a project the first active one stands for it, or the first where
/// none is active: a further session is chosen only if it is active and none was. Two
/// projects cannot be told apart, and a session without a project stands for none.
pub proof fn law_active_session_stands_for_project(
    candidates: Seq<ProjectMemorySessionView>,
    next: ProjectMemorySessionView,
)
    ensures
        project_source(Seq::empty()) == Ok::<
            Option<ResolvedProjectMemorySessionView>,
            MemoryErrorView,
        >(None),
        project_source(candidates) is Err ==> project_source(candidates.push(next))
            == project_source(candidates),
        project_source(candidates) matches Ok(found) ==> {
            let after = project_source(candidates.push(next));
            match next.workspace_root {
                None => after == Err::<Option<ResolvedProjectMemorySessionView>, MemoryErrorView>(
                    MemoryErrorView::ProjectSessionUnavailable,
                ),
                Some(root) => match root.project_scope {
                    Err(message) => after == Err::<
                        Option<ResolvedProjectMemorySessionView>,
                        MemoryErrorView,
                    >(MemoryErrorView::ProjectIdentity(message)),
                    Ok(project) => match found {
                        Some(chosen) if chosen.scope_id != project => after == Err::<
                            Option<ResolvedProjectMemorySessionView>,
                            MemoryErrorView,
                        >(MemoryErrorView::AmbiguousProjectScope),
                        Some(chosen) if chosen.activity == ProjectMemorySessionActivity::Active
                            || next.activity == ProjectMemorySessionActivity::Inactive => after
                            == Ok::<Option<ResolvedProjectMemorySessionView>, MemoryErrorView>(
                            Some(chosen),
                        ),
                        _ => after matches Ok(Some(chosen)) && chosen.session_id
                            == next.session_id && chosen.scope_id == project && chosen.activity
                            == next.activity && chosen.workspace_root == root,
                    },
                },
            }
        },
{
    assert(candidates.push(next).drop_last() =~= candidates);
}

/// Of resolved sessions the choice is the same.
pub proof fn law_active_session_is_selected(
    sessions: Seq<ResolvedProjectMemorySessionView>,
    next: ResolvedProjectMemorySessionView,
)
    ensures
        selected_session(Seq::empty()) == Ok::<
            Option<ResolvedProjectMemorySessionView>,
            MemoryErrorView,
        >(None),
        selected_session(sessions) is Err ==> selected_session(sessions.push(next))
            == selected_session(sessions),
        selected_session(sessions) matches Ok(found) ==> {
            let after = selected_session(sessions.push(next));
            match found {
                Some(chosen) if chosen.scope_id != next.scope_id => after == Err::<
                    Option<ResolvedProjectMemorySessionView>,
                    MemoryErrorView,
                >(MemoryErrorView::AmbiguousProjectScope),
                Some(chosen) if chosen.activity == ProjectMemorySessionActivity::Active
                    || next.activity == ProjectMemorySessionActivity::Inactive => after == Ok::<
                    Option<ResolvedProjectMemorySessionView>,
                    MemoryErrorView,
                >(Some(chosen)),
                _ => after == Ok::<Option<ResolvedProjectMemorySessionView>, MemoryErrorView>(
                    Some(next),
                ),
            }
        },
{
    assert(sessions.push(next).drop_last() =~= sessions);
}

/// Whether a session may speak for a forget request on a project.
pub open spec fn may_speak(
    session: ProjectMemorySessionView,
    bound: Option<SessionId>,
    expected: Option<Seq<char>>,
    project: Seq<char>,
) -> bool {
    &&& works_on(session, project)
    &&& bound is Some ==> bound == Some(session.session_id)
    &&& expected is Some ==> expected == Some(project)
}

proof fn lemma_fitting(
    sessions: Seq<ProjectMemorySessionView>,
    bound: Option<SessionId>,
    expected: Option<Seq<char>>,
)
    ensures
        fitting_sessions(sessions, bound, expected) matches Ok(found) ==> {
            &&& forall|x: int|
                0 <= x < found.fitting.len() ==> {
                    let resolved = #[trigger] found.fitting[x];
                    exists|i: int|
                        0 <= i < sessions.len() && may_speak(
                            #[trigger] sessions[i],
                            bound,
                            expected,
                            resolved.scope_id,
                        ) && sessions[i].session_id == resolved.session_id && sessions[i].activity
                            == resolved.activity
                }
            &&& forall|i: int, project: Seq<char>|
                0 <= i < sessions.len() && #[trigger] may_speak(
                    sessions[i],
                    bound,
                    expected,
                    project,
                ) ==> exists|x: int|
                    0 <= x < found.fitting.len() && (#[trigger] found.fitting[x]).scope_id
                        == project && found.fitting[x].session_id == sessions[i].session_id
                        && found.fitting[x].activity == sessions[i].activity
        },
        expected is Some ==> fitting_sessions(sessions, bound, expected) is Ok,
    decreases sessions.len(),
{
    if sessions.len() > 0 {
        let front = sessions.drop_last();
        lemma_fitting(front, bound, expected);
        if let Ok(found) = fitting_sessions(sessions, bound, expected) {
            let before = fitting_sessions(front, bound, expected)->Ok_0;
            let last = sessions.last();
            assert forall|x: int| 0 <= x < found.fitting.len() implies {
                let resolved = #[trigger] found.fitting[x];
                exists|i: int|
                    0 <= i < sessions.len() && may_speak(
                        #[trigger] sessions[i],
                        bound,
                        expected,
                        resolved.scope_id,
                    ) && sessions[i].session_id == resolved.session_id && sessions[i].activity
                        == resolved.activity
            } by {
                let resolved = found.fitting[x];
                if x < before.fitting.len() {
                    assert(before.fitting[x] == resolved);
                    let i = choose|i: int|
                        0 <= i < front.len() && may_speak(
                            #[trigger] front[i],
                            bound,
                            expected,
                            resolved.scope_id,
                        ) && front[i].session_id == resolved.session_id && front[i].activity
                            == resolved.activity;
                    assert(sessions[i] == front[i]);
                } else {
                    assert(sessions[sessions.len() - 1] == last);
                }
            }
            assert forall|i: int, project: Seq<char>|
                0 <= i < sessions.len() && #[trigger] may_speak(
                    sessions[i],
                    bound,
                    expected,
                    project,
                ) implies exists|x: int|
                0 <= x < found.fitting.len() && (#[trigger] found.fitting[x]).scope_id == project
                    && found.fitting[x].session_id == sessions[i].session_id
                    && found.fitting[x].activity == sessions[i].activity by {
                if i < front.len() {
                    assert(front[i] == sessions[i]);
                    assert(may_speak(front[i], bound, expected, project));
                    let x = choose|x: int|
                        0 <= x < before.fitting.len() && (#[trigger] before.fitting[x]).scope_id
                            == project && before.fitting[x].session_id == front[i].session_id
                            && before.fitting[x].activity == front[i].activity;
                    assert(found.fitting[x] == before.fitting[x]);
                } else {
                    assert(found.fitting[before.fitting.len() as int].scope_id == project);
                }
            }
        }
    }
}

proof fn lemma_selected(sessions: Seq<ResolvedProjectMemorySessionView>)
    ensures
        selected_session(sessions) matches Ok(chosen) ==> {
            &&& chosen is None <==> sessions.len() == 0
            &&& chosen matches Some(chosen) ==> sessions.contains(chosen) && forall|x: int|
                0 <= x < sessions.len() ==> (#[trigger] sessions[x]).scope_id == chosen.scope_id
                    && (sessions[x].activity == ProjectMemorySessionActivity::Active
                    ==> chosen.activity == ProjectMemorySessionActivity::Active)
        },
        selected_session(sessions) matches Err(error) ==> error
            == MemoryErrorView::AmbiguousProjectScope && exists|x: int, y: int|
            0 <= x < y < sessions.len() && (#[trigger] sessions[x]).scope_id != (
            #[trigger] sessions[y]).scope_id,
    decreases sessions.len(),
{
    if sessions.len() > 0 {
        let front = sessions.drop_last();
        lemma_selected(front);
        let last = sessions.last();
        assert(sessions[sessions.len() - 1] == last);
        assert(forall|x: int| 0 <= x < front.len() ==> front[x] == #[trigger] sessions[x]);
        match selected_session(front) {
            Err(error) => {
                let (x, y) = choose|x: int, y: int|
                    0 <= x < y < front.len() && (#[trigger] front[x]).scope_id != (
                    #[trigger] front[y]).scope_id;
                assert(sessions[x].scope_id != sessions[y].scope_id);
            },
            Ok(Some(current)) => {
                let x = front.index_of(current);
                assert(sessions[x] == current);
                if current.scope_id != last.scope_id {
                    assert(sessions[x].scope_id != sessions[sessions.len() - 1].scope_id);
                }
            },
            Ok(None) => {},
        }
    }
}

/// A forget request on the user speaks for the session that the connection is bound to,
/// or else for the one that it names, which must have a workspace; it is about the user
/// and never about a project.
pub proof fn law_user_forgets_for_a_session(
    expected: Option<Seq<char>>,
    source: MemoryForgetSourceView,
    k: int,
)
    requires
        0 <= k < source.sessions.len(),
        forall|i: int|
            0 <= i < k ==> (#[trigger] source.sessions[i]).session_id
                != source.sessions[k].session_id,
        is_meant(source.sessions[k], source),
    ensures
        forget_source(MemoryScope::User, expected, source) == if source.sessions[k].workspace_root
            is Some {
            Ok::<(SessionId, Seq<char>), MemoryErrorView>(
                (source.sessions[k].session_id, "user"@),
            )
        } else {
            Err(
                MemoryErrorView::InvalidRequest(
                    "memory/forget requires a session with a workspace root"@,
                ),
            )
        },
{
    lemma_is_first_match(source.sessions, session_is(source.sessions[k].session_id), k);
}

/// Without any such session a forget request on the user is refused.
pub proof fn law_user_forgetting_needs_a_session(
    expected: Option<Seq<char>>,
    source: MemoryForgetSourceView,
)
    ensures
        source.bound_session_id is None && source.user_session_id is None ==> forget_source(
            MemoryScope::User,
            expected,
            source,
        ) == Err::<(SessionId, Seq<char>), MemoryErrorView>(
            MemoryErrorView::InvalidRequest("memory/forget requires a session-bound connection"@),
        ),
        (source.bound_session_id is Some || source.user_session_id is Some) && (forall|i: int|
            0 <= i < source.sessions.len() ==> !is_meant(#[trigger] source.sessions[i], source))
            ==> forget_source(MemoryScope::User, expected, source) == Err::<
            (SessionId, Seq<char>),
            MemoryErrorView,
        >(
            MemoryErrorView::InvalidRequest(
                "memory/forget requires a session with a workspace root"@,
            ),
        ),
{
    let session_id = match source.bound_session_id {
        Some(bound) => bound,
        None => source.user_session_id->Some_0,
    };
    if (source.bound_session_id is Some || source.user_session_id is Some) && (forall|i: int|
        0 <= i < source.sessions.len() ==> !is_meant(#[trigger] source.sessions[i], source)) {
        assert forall|i: int| 0 <= i < source.sessions.len() implies !session_is(session_id)(
            #[trigger] source.sessions[i],
        ) by {
            assert(!is_meant(source.sessions[i], source));
        }
        lemma_no_match(source.sessions, session_is(session_id));
    }
}

/// Whether a session is the one that a request on the user speaks for.
pub open spec fn is_meant(
    session: ProjectMemorySessionView,
    source: MemoryForgetSourceView,
) -> bool {
    match source.bound_session_id {
        Some(bound) => bound == session.session_id,
        None => source.user_session_id == Some(session.session_id),
    }
}

/// A forget request on a project speaks for a session of that project, the bound one if
/// the connection is bound. It is an active session if any could speak; and no session
/// that could speak works on another project.
pub proof fn law_project_forgets_for_its_sessions(
    expected: Option<Seq<char>>,
    source: MemoryForgetSourceView,
)
    ensures
        forget_source(MemoryScope::Project, expected, source) matches Ok((session_id, project))
            ==> {
            &&& exists|i: int|
                0 <= i < source.sessions.len() && may_speak(
                    #[trigger] source.sessions[i],
                    source.bound_session_id,
                    expected,
                    project,
                ) && source.sessions[i].session_id == session_id && (source.sessions[i].activity
                    == ProjectMemorySessionActivity::Inactive ==> forall|j: int, other: Seq<char>|
                    0 <= j < source.sessions.len() && #[trigger] may_speak(
                        source.sessions[j],
                        source.bound_session_id,
                        expected,
                        other,
                    ) ==> source.sessions[j].activity == ProjectMemorySessionActivity::Inactive)
            &&& forall|j: int, other: Seq<char>|
                0 <= j < source.sessions.len() && #[trigger] may_speak(
                    source.sessions[j],
                    source.bound_session_id,
                    expected,
                    other,
                ) ==> other == project
        },
        expected is Some ==> forall|i: int, project: Seq<char>|
            0 <= i < source.sessions.len() && #[trigger] may_speak(
                source.sessions[i],
                source.bound_session_id,
                expected,
                project,
            ) ==> (forget_source(MemoryScope::Project, expected, source) matches Ok(found)
                && found.1 == project),
{
    let bound = source.bound_session_id;
    lemma_fitting(source.sessions, bound, expected);
    if let Ok(found) = fitting_sessions(source.sessions, bound, expected) {
        lemma_selected(found.fitting);
        if let Ok((session_id, project)) = forget_source(MemoryScope::Project, expected, source) {
            let chosen = selected_session(found.fitting)->Ok_0->Some_0;
            let x = found.fitting.index_of(chosen);
            assert(found.fitting[x] == chosen);
            assert forall|j: int, other: Seq<char>|
                0 <= j < source.sessions.len() && #[trigger] may_speak(
                    source.sessions[j],
                    bound,
                    expected,
                    other,
                ) implies other == project && (source.sessions[j].activity
                == ProjectMemorySessionActivity::Active ==> chosen.activity
                == ProjectMemorySessionActivity::Active) by {
                let y = choose|y: int|
                    0 <= y < found.fitting.len() && (#[trigger] found.fitting[y]).scope_id == other
                        && found.fitting[y].session_id == source.sessions[j].session_id
                        && found.fitting[y].activity == source.sessions[j].activity;
                assert(found.fitting[y].scope_id == chosen.scope_id);
            }
            let i = choose|i: int|
                0 <= i < source.sessions.len() && may_speak(
                    #[trigger] source.sessions[i],
                    bound,
                    expected,
                    chosen.scope_id,
                ) && source.sessions[i].session_id == chosen.session_id
                    && source.sessions[i].activity == chosen.activity;
            assert(may_speak(source.sessions[i], bound, expected, project));
        }
        if expected is Some {
            assert forall|x: int| 0 <= x < found.fitting.len() implies (
            #[trigger] found.fitting[x]).scope_id == expected->Some_0 by {}
            assert forall|i: int, project: Seq<char>|
                0 <= i < source.sessions.len() && #[trigger] may_speak(
                    source.sessions[i],
                    bound,
                    expected,
                    project,
                ) implies (forget_source(MemoryScope::Project, expected, source) matches Ok(told)
                && told.1 == project) by {
                let y = choose|y: int|
                    0 <= y < found.fitting.len() && (#[trigger] found.fitting[y]).scope_id
                        == project && found.fitting[y].session_id == source.sessions[i].session_id
                        && found.fitting[y].activity == source.sessions[i].activity;
                assert(found.fitting[y].scope_id == project);
            }
        }
    }
}

/// A request by text is about the text with its whitespace collapsed, in the scope that
/// was asked for; one by ID is about the stored entry with that ID, in its own scope.
/// A blank text and an unknown ID are refused.
pub proof fn law_forget_request_is_prepared(
    tables: MemoryTablesView,
    selector: MemoryForgetSelectorView,
    scope: MemoryScope,
    source: MemoryForgetSourceView,
)
    ensures
        match selector {
            MemoryForgetSelectorView::Text(text) => {
                let told = forget_source(scope, None, source);
                let prepared = prepared_forget(tables, selector, scope, source);
                if collapsed(text).len() == 0 {
                    prepared == Err::<PreparedMemoryForgetRequestView, MemoryErrorView>(
                        MemoryErrorView::InvalidRequest("memory text must not be empty"@),
                    )
                } else {
                    match told {
                        Err(error) => prepared == Err::<
                            PreparedMemoryForgetRequestView,
                            MemoryErrorView,
                        >(error),
                        Ok(found) => prepared matches Ok(request) && request.target
                            == PreparedMemoryForgetTargetView::Text(collapsed(text))
                            && request.scope == scope && request.scope_id == found.1
                            && request.source_session_id == found.0,
                    }
                }
            },
            MemoryForgetSelectorView::EntryId(entry_id) => {
                let prepared = prepared_forget(tables, selector, scope, source);
                &&& stored_entry(tables, entry_id) matches Ok(None) ==> prepared == Err::<
                    PreparedMemoryForgetRequestView,
                    MemoryErrorView,
                >(MemoryErrorView::InvalidRequest("memory entry not found"@))
                &&& prepared matches Ok(request) ==> (stored_entry(tables, entry_id) matches Ok(
                    Some(entry),
                ) && request.target == PreparedMemoryForgetTargetView::Exact(entry)
                    && request.scope == entry.scope && request.scope_id == entry.scope_id
                    && entry.entry_id == entry_id)
            },
        },
{
    if let MemoryForgetSelectorView::EntryId(entry_id) = selector {
        lemma_first_match(tables.entries, entry_is(entry_id));
    }
}

} // verus!
