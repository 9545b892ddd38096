//! Laws of listing and searching: which entries a list holds and in which order, told
//! by the columns of the rows, and which of them a page shows.

use vstd::prelude::*;

use crate::command_types::ListMemoryRequestView;
use crate::entries::scope_id_of;
use crate::memory_error::MemoryErrorView;
use crate::queries::{
    before_nul, cursor_of, is_nul, law_lists_are_complete, lemma_entries_from_rows, lemma_rows_read,
    listed_page, listed_rows, page_limit, page_window, part_matches, part_pattern,
    pattern_is_refused, scope_asked, MemoryListMode,
};
use crate::rows::{
    lemma_filter_holds, lemma_first_match, lemma_is_first_match, lemma_no_match, ordered,
};
use crate::rpc_memory::{
    MemoryEntryView, MemoryKind, MemoryOrigin, MemoryProvenanceView, MemoryScope, MemoryState,
};
use crate::store::{
    entry_from, evidence_of, law_reading_orders, newer_first, observed_before, sources_of,
};
use crate::stored_values::{
    kind_of, law_stored_names_are_exact, law_stored_names_read_back, origin_of, scope_of,
    scope_text, state_of, state_text,
};
use crate::tables::{EntryRowView, EvidenceRowView, MemoryTablesView};
use crate::text::{decimal, is_digit, law_decimal_reads_back, text_less};
use crate::text_laws::{
    is_plain, law_lower_case_compares_letters, law_pattern_finds_a_part, reads_at, reads_in,
    same_letter,
};
use crate::time::parsed_timestamp;

verus! {

// ---------------------------------------------------------------------------
// Stored names.
// ---------------------------------------------------------------------------
/// Under which names scopes, kinds, states and origins are stored, and which names are
/// refused.
pub proof fn law_stored_names(text: Seq<char>)
    ensures
        scope_of(text) == Ok::<MemoryScope, MemoryErrorView>(MemoryScope::User) <==> text
            == "user"@,
        scope_of(text) == Ok::<MemoryScope, MemoryErrorView>(MemoryScope::Project) <==> text
            == "project"@,
        kind_of(text) == Ok::<MemoryKind, MemoryErrorView>(MemoryKind::Preference) <==> text
            == "preference"@,
        kind_of(text) == Ok::<MemoryKind, MemoryErrorView>(MemoryKind::Feedback) <==> text
            == "feedback"@,
        kind_of(text) == Ok::<MemoryKind, MemoryErrorView>(MemoryKind::Fact) <==> text == "fact"@,
        kind_of(text) == Ok::<MemoryKind, MemoryErrorView>(MemoryKind::Reference) <==> text
            == "reference"@,
        state_of(text) == Ok::<MemoryState, MemoryErrorView>(MemoryState::Active) <==> text
            == "active"@,
        state_of(text) == Ok::<MemoryState, MemoryErrorView>(MemoryState::Stale) <==> text
            == "stale"@,
        state_of(text) == Ok::<MemoryState, MemoryErrorView>(MemoryState::Conflicted) <==> text
            == "conflicted"@,
        state_of(text) == Ok::<MemoryState, MemoryErrorView>(MemoryState::Retired) <==> text
            == "retired"@,
        state_of(text) == Ok::<MemoryState, MemoryErrorView>(MemoryState::Restored) <==> text
            == "restored"@,
        origin_of(text) == Ok::<MemoryOrigin, MemoryErrorView>(MemoryOrigin::ExplicitUser) <==> text
            == "explicit_user"@,
        origin_of(text) == Ok::<MemoryOrigin, MemoryErrorView>(MemoryOrigin::InferredSession)
            <==> text == "inferred_session"@,
        scope_of(text) matches Err(error) ==> error == MemoryErrorView::InvalidStoredValue(text),
        kind_of(text) matches Err(error) ==> error == MemoryErrorView::InvalidStoredValue(text),
        state_of(text) matches Err(error) ==> error == MemoryErrorView::InvalidStoredValue(text),
        origin_of(text) matches Err(error) ==> error == MemoryErrorView::InvalidStoredValue(text),
{
    law_stored_names_are_exact(text);
    law_stored_names_read_back(
        MemoryScope::User,
        MemoryKind::Preference,
        MemoryState::Active,
        MemoryOrigin::ExplicitUser,
    );
    law_stored_names_read_back(
        MemoryScope::Project,
        MemoryKind::Feedback,
        MemoryState::Stale,
        MemoryOrigin::InferredSession,
    );
    law_stored_names_read_back(
        MemoryScope::User,
        MemoryKind::Fact,
        MemoryState::Conflicted,
        MemoryOrigin::ExplicitUser,
    );
    law_stored_names_read_back(
        MemoryScope::User,
        MemoryKind::Reference,
        MemoryState::Retired,
        MemoryOrigin::ExplicitUser,
    );
    law_stored_names_read_back(
        MemoryScope::User,
        MemoryKind::Reference,
        MemoryState::Restored,
        MemoryOrigin::ExplicitUser,
    );
}

/// An entry that is read of a row shows what the row stores: its texts as they are,
/// its names and instants as what they stand for.
pub proof fn law_entry_shows_its_row(row: EntryRowView, evidence: Seq<EvidenceRowView>)
    ensures
        entry_from(row, evidence) matches Ok(entry) ==> {
            &&& entry.entry_id == row.entry_id
            &&& entry.scope_id == row.scope_id
            &&& entry.normalized_key == row.normalized_key
            &&& entry.body == row.body
            &&& entry.replacement_entry_id == row.replacement_entry_id
            &&& entry.scope == MemoryScope::User <==> row.scope_type == "user"@
            &&& entry.scope == MemoryScope::Project <==> row.scope_type == "project"@
            &&& kind_of(row.kind) == Ok::<MemoryKind, MemoryErrorView>(entry.kind)
            &&& state_of(row.state) == Ok::<MemoryState, MemoryErrorView>(entry.state)
            &&& origin_of(row.origin) == Ok::<MemoryOrigin, MemoryErrorView>(entry.origin)
            &&& parsed_timestamp(row.created_at) == Some(entry.created_at)
            &&& parsed_timestamp(row.updated_at) == Some(entry.updated_at)
        },
        entry_from(row, evidence) is Ok <==> scope_of(row.scope_type) is Ok && kind_of(
            row.kind,
        ) is Ok && origin_of(row.origin) is Ok && state_of(row.state) is Ok && parsed_timestamp(
            row.created_at,
        ) is Some && parsed_timestamp(row.updated_at) is Some,
{
    law_stored_names(row.scope_type);
}

/// Whether a source is what a piece of evidence names.
pub open spec fn names_source(row: EvidenceRowView, source: MemoryProvenanceView) -> bool {
    &&& source.source_session_id == Some(row.session_id)
    &&& source.source_turn_id == row.turn_id
    &&& source.source_user_item_id == row.source_user_item_id
}

/// Evidence in the order in which sources are told: by the time of observation, and by
/// ID where that is the same.
pub open spec fn told_in_order(rows: Seq<EvidenceRowView>) -> bool {
    forall|i: int, j: int|
        0 <= i < j < rows.len() ==> {
            &&& !text_less((#[trigger] rows[j]).observed_at, (#[trigger] rows[i]).observed_at)
            &&& rows[i].observed_at == rows[j].observed_at ==> !text_less(
                rows[j].evidence_id,
                rows[i].evidence_id,
            )
        }
}

/// The sources of an entry are those of its evidence, one for each piece, in the order
/// of observation.
pub proof fn law_sources_are_those_of_the_evidence(
    evidence: Seq<EvidenceRowView>,
    entry_id: Seq<char>,
)
    ensures
        exists|rows: Seq<EvidenceRowView>|
            {
                &&& #[trigger] told_in_order(rows)
                &&& forall|row: EvidenceRowView| #[trigger]
                    rows.contains(row) <==> evidence.contains(row) && row.entry_id == entry_id
                &&& rows.to_multiset() == evidence.filter(
                    |row: EvidenceRowView| row.entry_id == entry_id,
                ).to_multiset()
                &&& sources_of(evidence, entry_id).len() == rows.len()
                &&& forall|i: int|
                    0 <= i < rows.len() ==> names_source(
                        rows[i],
                        #[trigger] sources_of(evidence, entry_id)[i],
                    )
            },
{
    broadcast use vstd::seq_lib::group_to_multiset_ensures;

    let accepts = |row: EvidenceRowView| row.entry_id == entry_id;
    assert(accepts =~= evidence_of(entry_id));
    let chosen = evidence.filter(accepts);
    let rows = ordered(chosen, observed_before());
    law_reading_orders(Seq::empty(), chosen);
    lemma_filter_holds(evidence, accepts);
    assert forall|row: EvidenceRowView| #[trigger]
        rows.contains(row) <==> evidence.contains(row) && row.entry_id == entry_id by {
        assert(rows.contains(row) <==> rows.to_multiset().count(row) > 0);
        assert(chosen.contains(row) <==> chosen.to_multiset().count(row) > 0);
        assert(chosen.contains(row) <==> evidence.contains(row) && accepts(row));
    }
    assert(told_in_order(rows)) by {
        assert forall|i: int, j: int| 0 <= i < j < rows.len() implies {
            &&& !text_less((#[trigger] rows[j]).observed_at, (#[trigger] rows[i]).observed_at)
            &&& rows[i].observed_at == rows[j].observed_at ==> !text_less(
                rows[j].evidence_id,
                rows[i].evidence_id,
            )
        } by {
            assert(!observed_before()(rows[j], rows[i]));
        }
    }
}

// ---------------------------------------------------------------------------
// Searching.
// ---------------------------------------------------------------------------
/// Whether a text holds no NUL.
pub open spec fn has_no_nul(text: Seq<char>) -> bool {
    forall|i: int| 0 <= i < text.len() ==> #[trigger] text[i] != '\0'
}

/// Whether a text can be searched for letter by letter: nothing in it stands for other
/// texts or ends it early.
pub open spec fn is_searchable(text: Seq<char>) -> bool {
    is_plain(text) && has_no_nul(text)
}

proof fn lemma_whole_before_nul(text: Seq<char>)
    requires
        has_no_nul(text),
    ensures
        before_nul(text) == text,
{
    assert forall|i: int| 0 <= i < text.len() implies !is_nul()(#[trigger] text[i]) by {}
    lemma_no_match(text, is_nul());
}

/// Searching finds parts: a text with no pattern characters is found in every text
/// that it stands in, wherever it stands there, and, the case of ASCII letters aside,
/// in no other.
pub proof fn law_search_finds_parts(part: Seq<char>, text: Seq<char>)
    requires
        is_searchable(part),
    ensures
        part_matches(part, text) ==> reads_in(text, part),
        has_no_nul(text) ==> (part_matches(part, text) <==> reads_in(text, part)),
        forall|before: Seq<char>, behind: Seq<char>|
            has_no_nul(text) && text == #[trigger] (before + part + behind) ==> part_matches(
                part,
                text,
            ),
        // What stands behind a NUL is not found.
        forall|seen: Seq<char>, unseen: Seq<char>|
            has_no_nul(seen) && text == #[trigger] (seen + seq!['\0'] + unseen) ==> (part_matches(
                part,
                text,
            ) <==> reads_in(seen, part)),
{
    let pattern = part_pattern(part);
    assert(has_no_nul(pattern)) by {
        assert forall|i: int| 0 <= i < pattern.len() implies #[trigger] pattern[i] != '\0' by {
            if 0 < i < pattern.len() - 1 {
                assert(pattern[i] == part[i - 1]);
            }
        }
    }
    lemma_whole_before_nul(pattern);
    let read = before_nul(text);
    assert(pattern == seq!['%'] + part + seq!['%']);
    law_pattern_finds_a_part(part, read);
    lemma_first_match(text, is_nul());
    if reads_in(read, part) {
        let at = choose|at: int| reads_at(read, part, at);
        assert forall|i: int| 0 <= i < part.len() implies same_letter(
            #[trigger] text[at + i],
            part[i],
        ) by {
            assert(same_letter(read[at + i], part[i]));
        }
        assert(reads_at(text, part, at));
    }
    if has_no_nul(text) {
        lemma_whole_before_nul(text);
    }
    law_lower_case_compares_letters(text, part);
    assert forall|seen: Seq<char>, unseen: Seq<char>|
        has_no_nul(seen) && text == #[trigger] (seen + seq!['\0'] + unseen) implies (part_matches(
        part,
        text,
    ) <==> reads_in(seen, part)) by {
        let n = seen.len() as int;
        assert(is_nul()(text[n]));
        assert forall|j: int| 0 <= j < n implies !is_nul()(#[trigger] text[j]) by {
            assert(text[j] == seen[j]);
        }
        lemma_is_first_match(text, is_nul(), n);
        assert(read =~= seen);
    }
}

// ---------------------------------------------------------------------------
// Lists.
// ---------------------------------------------------------------------------
/// Whether a row passes what a request asks of it besides its text.
pub open spec fn has_asked_columns(
    row: EntryRowView,
    scope: MemoryScope,
    scope_id: Seq<char>,
    request: ListMemoryRequestView,
    mode: MemoryListMode,
) -> bool {
    &&& scope_of(row.scope_type) == Ok::<MemoryScope, MemoryErrorView>(scope)
    &&& row.scope_id == scope_id
    &&& request.kind matches Some(kind) ==> kind_of(row.kind) == Ok::<MemoryKind, MemoryErrorView>(
        kind,
    )
    &&& request.origin matches Some(origin) ==> origin_of(row.origin) == Ok::<
        MemoryOrigin,
        MemoryErrorView,
    >(origin)
    &&& request.state matches Some(state) ==> {
        ||| state_of(row.state) == Ok::<MemoryState, MemoryErrorView>(state)
        ||| mode == MemoryListMode::Recallable && state == MemoryState::Active && row.state
            == "restored"@
    }
}

/// A list holds exactly the rows of the scope that have the kind, the origin and the
/// state that were asked for and, if a text was searched for, hold that text in their
/// body or key. A recall of active entries also holds the restored ones.
pub proof fn law_list_holds_what_matches(
    entries: Seq<EntryRowView>,
    scope: MemoryScope,
    scope_id: Seq<char>,
    request: ListMemoryRequestView,
    mode: MemoryListMode,
    row: EntryRowView,
)
    requires
        request.text matches Some(text) ==> is_searchable(text),
        has_no_nul(row.body),
        has_no_nul(row.normalized_key),
    ensures
        listed_rows(entries, scope, scope_id, request, mode).contains(row) <==> entries.contains(
            row,
        ) && has_asked_columns(row, scope, scope_id, request, mode) && (
        request.text matches Some(text) ==> reads_in(row.body, text) || reads_in(
            row.normalized_key,
            text,
        )),
{
    law_lists_are_complete(entries, scope, scope_id, request, mode);
    law_stored_names(row.scope_type);
    law_stored_names(row.kind);
    law_stored_names(row.state);
    law_stored_names(row.origin);
    law_stored_names(scope_text(scope));
    if let Some(kind) = request.kind {
        law_stored_names_read_back(
            scope,
            kind,
            MemoryState::Active,
            MemoryOrigin::ExplicitUser,
        );
        law_stored_names_are_exact(row.kind);
    }
    if let Some(state) = request.state {
        law_stored_names_read_back(
            scope,
            MemoryKind::Fact,
            state,
            MemoryOrigin::ExplicitUser,
        );
        law_stored_names_are_exact(row.state);
    }
    if let Some(origin) = request.origin {
        law_stored_names_read_back(scope, MemoryKind::Fact, MemoryState::Active, origin);
        law_stored_names_are_exact(row.origin);
    }
    law_stored_names_read_back(
        scope,
        MemoryKind::Fact,
        MemoryState::Restored,
        MemoryOrigin::ExplicitUser,
    );
    law_stored_names(state_text(MemoryState::Restored));
    law_stored_names_are_exact(row.scope_type);
    if let Some(text) = request.text {
        law_search_finds_parts(text, row.body);
        law_search_finds_parts(text, row.normalized_key);
    }
}

/// A list is newest first: the text of the last write falls, and where it is the same
/// the IDs rise. Every row occurs as often as it is stored.
pub proof fn law_list_is_newest_first(
    entries: Seq<EntryRowView>,
    scope: MemoryScope,
    scope_id: Seq<char>,
    request: ListMemoryRequestView,
    mode: MemoryListMode,
    i: int,
    j: int,
)
    requires
        0 <= i < j < listed_rows(entries, scope, scope_id, request, mode).len(),
    ensures
        ({
            let rows = listed_rows(entries, scope, scope_id, request, mode);
            &&& !text_less(rows[i].updated_at, rows[j].updated_at)
            &&& rows[i].updated_at == rows[j].updated_at ==> !text_less(
                rows[j].entry_id,
                rows[i].entry_id,
            )
        }),
{
    law_lists_are_complete(entries, scope, scope_id, request, mode);
    let rows = listed_rows(entries, scope, scope_id, request, mode);
    assert(!newer_first()(rows[j], rows[i]));
}

// ---------------------------------------------------------------------------
// Pages.
// ---------------------------------------------------------------------------
/// How many entries a page may hold: fifty if nothing is asked, else what is asked,
/// but at least one and at most a hundred.
pub proof fn law_page_sizes(limit: u32)
    ensures
        page_limit(None) == 50,
        limit == 0 ==> page_limit(Some(limit)) == 1,
        1 <= limit <= 100 ==> page_limit(Some(limit)) == limit,
        limit > 100 ==> page_limit(Some(limit)) == 100,
{
}

/// A page begins where its cursor says, at the first entry without one; cursors are
/// decimal numbers, and anything else is refused.
pub proof fn law_cursors_are_numbers(offset: nat, text: Seq<char>)
    ensures
        cursor_of(None) == Ok::<nat, MemoryErrorView>(0),
        offset <= usize::MAX ==> cursor_of(Some(decimal(offset))) == Ok::<nat, MemoryErrorView>(
            offset,
        ),
        (exists|i: int| 0 < i < text.len() && !is_digit(#[trigger] text[i])) || text.len() == 0
            ==> cursor_of(Some(text)) == Err::<nat, MemoryErrorView>(
            MemoryErrorView::InvalidRequest("memory cursor must be a number"@),
        ),
{
    law_decimal_reads_back(offset);
    if exists|i: int| 0 < i < text.len() && !is_digit(#[trigger] text[i]) {
        let i = choose|i: int| 0 < i < text.len() && !is_digit(#[trigger] text[i]);
        assert(text.skip(1)[i - 1] == text[i]);
    }
}

/// What a page shows: the entries of the list from the cursor on, as many as fit on a
/// page, and the cursor of the next page if the list goes on.
pub proof fn law_page_shows_the_list_from_its_cursor(
    tables: MemoryTablesView,
    request: ListMemoryRequestView,
    mode: MemoryListMode,
)
    ensures
        listed_page(tables, request, mode) matches Ok(page) ==> {
            let scope = match request.scope {
                Some(scope) => scope,
                None => MemoryScope::User,
            };
            let offset = cursor_of(request.cursor)->Ok_0;
            let rows = listed_rows(
                tables.entries,
                scope,
                scope_id_of(scope, request.workspace_root)->Ok_0,
                request,
                mode,
            );
            let limit = page_limit(request.limit);
            &&& cursor_of(request.cursor) is Ok
            &&& scope_id_of(scope, request.workspace_root) is Ok
            &&& page.data.len() == if rows.len() <= offset {
                0
            } else if rows.len() - offset <= limit {
                (rows.len() - offset) as nat
            } else {
                limit
            }
            &&& forall|i: int|
                0 <= i < page.data.len() ==> entry_from(rows[offset + i], tables.evidence) == Ok::<
                    MemoryEntryView,
                    MemoryErrorView,
                >(#[trigger] page.data[i])
            &&& page.next_cursor is Some <==> rows.len() > offset + limit
            &&& page.next_cursor matches Some(cursor) ==> cursor == decimal(offset + limit)
        },
{
    if let Ok(page) = listed_page(tables, request, mode) {
        let scope = scope_asked(request);
        let offset = cursor_of(request.cursor)->Ok_0;
        let rows = listed_rows(
            tables.entries,
            scope,
            scope_id_of(scope, request.workspace_root)->Ok_0,
            request,
            mode,
        );
        let limit = page_limit(request.limit);
        let window = page_window(rows, offset, limit);
        lemma_entries_from_rows(window, tables.evidence);
        assert forall|i: int| 0 <= i < page.data.len() implies entry_from(
            rows[offset + i],
            tables.evidence,
        ) == Ok::<MemoryEntryView, MemoryErrorView>(#[trigger] page.data[i]) by {
            assert(window[i] == rows[offset + i]);
        }
    }
}

/// A list succeeds: a readable store is listed for every request whose scope resolves,
/// whose cursor is a number and whose text is not too long to search for.
pub proof fn law_readable_store_is_listed(
    tables: MemoryTablesView,
    request: ListMemoryRequestView,
    mode: MemoryListMode,
)
    requires
        forall|i: int|
            0 <= i < tables.entries.len() ==> entry_from(
                #[trigger] tables.entries[i],
                tables.evidence,
            ) is Ok,
        request.scope == Some(MemoryScope::Project) ==> request.workspace_root.project_scope is Ok,
        cursor_of(request.cursor) matches Ok(offset) && offset <= i64::MAX,
        request.text matches Some(text) ==> vstd::utf8::encode_utf8(text).len() <= 49_998,
    ensures
        listed_page(tables, request, mode) is Ok,
{
    let scope = scope_asked(request);
    let scope_id = scope_id_of(scope, request.workspace_root)->Ok_0;
    let rows = listed_rows(tables.entries, scope, scope_id, request, mode);
    if let Some(text) = request.text {
        lemma_pattern_bytes(text);
    }
    assert(!pattern_is_refused(tables.entries, scope, scope_id, request, mode));
    law_lists_are_complete(tables.entries, scope, scope_id, request, mode);
    let window = page_window(rows, cursor_of(request.cursor)->Ok_0, page_limit(request.limit));
    assert forall|i: int| 0 <= i < window.len() implies entry_from(
        #[trigger] window[i],
        tables.evidence,
    ) is Ok by {
        assert(rows.contains(window[i]));
        assert(tables.entries.contains(window[i]));
        let k = choose|k: int|
            0 <= k < tables.entries.len() && tables.entries[k] == window[i];
        assert(entry_from(tables.entries[k], tables.evidence) is Ok);
    }
    lemma_rows_read(window, tables.evidence);
}

proof fn lemma_encoding_adds(left: Seq<char>, right: Seq<char>)
    ensures
        vstd::utf8::encode_utf8(left + right).len() == vstd::utf8::encode_utf8(left).len()
            + vstd::utf8::encode_utf8(right).len(),
    decreases left.len(),
{
    if left.len() == 0 {
        assert(left + right =~= right);
    } else {
        let rest = left.drop_first();
        lemma_encoding_adds(rest, right);
        assert((left + right).drop_first() =~= rest + right);
        assert((left + right)[0] == left[0]);
    }
}

proof fn lemma_pattern_bytes(text: Seq<char>)
    ensures
        vstd::utf8::encode_utf8(part_pattern(text)).len() == vstd::utf8::encode_utf8(text).len()
            + 2,
{
    let mark: Seq<char> = seq!['%'];
    lemma_encoding_adds(mark + text, mark);
    lemma_encoding_adds(mark, text);
    assert(mark.drop_first() =~= Seq::<char>::empty());
    reveal_with_fuel(vstd::utf8::encode_utf8, 2);
    assert(vstd::utf8::encode_utf8(mark).len() == 1);
}

/// A row that cannot be read is told by the first of its columns that has no meaning, in
/// their order: scope, kind, origin, state, the time it was made and the time it was
/// last written.
pub proof fn law_unreadable_row_is_told(row: EntryRowView, evidence: Seq<EvidenceRowView>)
    ensures
        entry_from(row, evidence) matches Err(error) ==> {
            let unread = scope_of(row.scope_type) is Err || kind_of(row.kind) is Err || origin_of(
                row.origin,
            ) is Err || state_of(row.state) is Err;
            &&& unread ==> error == MemoryErrorView::InvalidStoredValue(
                if scope_of(row.scope_type) is Err {
                    row.scope_type
                } else if kind_of(row.kind) is Err {
                    row.kind
                } else if origin_of(row.origin) is Err {
                    row.origin
                } else {
                    row.state
                },
            )
            &&& !unread ==> error == MemoryErrorView::InvalidTimestamp(
                if parsed_timestamp(row.created_at) is None {
                    row.created_at
                } else {
                    row.updated_at
                },
            )
        },
{
}

} // verus!
