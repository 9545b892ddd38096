//! Listing memory entries: filters, order and pages.

use vstd::prelude::*;
use vstd::string::StrSliceExecFns;
use vstd::utf8::encode_utf8;

use crate::command_types::{ListMemoryRequest, ListMemoryRequestView};
use crate::entries::{scope_id, scope_id_of};
use crate::memory_error::{MemoryError, MemoryErrorView};
use crate::rows::{
    first_match, is_ordered, lemma_filter_holds, lemma_filter_take, lemma_is_first_match,
    lemma_no_match, ordered,
};
use crate::rpc_memory::{
    MemoryEntryView, MemoryListResult, MemoryListResultView, MemoryScope, MemoryState,
};
use crate::store::{
    entries_from, entry_from, law_reading_orders, load_rows, newer_first, place_entry,
};
use crate::stored_values::{
    kind_name, kind_text, origin_name, origin_text, scope_name, scope_text, state_name, state_text,
};
use crate::tables::{EntryRow, EntryRowView, EvidenceRowView, MemoryTables, MemoryTablesView};
use crate::text::{
    chars_of, decimal, decimal_text, law_decimal_reads_back, like, matches_like, parse_unsigned,
    same_text, text_of, unsigned_value, views,
};

verus! {

/// How many entries a page holds if the request does not say.
pub const DEFAULT_LIST_LIMIT: u32 = 50;

/// How many entries a page holds at most.
pub const MAX_LIST_LIMIT: u32 = 100;

/// How many bytes a SQL pattern has at most.
pub const MAX_PATTERN_BYTES: usize = 50_000;

/// What a list is for.
#[derive(Debug, Clone, Copy, PartialEq, Eq, Structural)]
pub enum MemoryListMode {
    /// Inspection: a state stands for itself.
    Management,
    /// Recall: restored entries count as active ones.
    Recallable,
}

/// The offset that a cursor stands for.
pub open spec fn cursor_of(cursor: Option<Seq<char>>) -> Result<nat, MemoryErrorView> {
    let value = match cursor {
        None => Some(0nat),
        Some(cursor) => unsigned_value(cursor),
    };
    match value {
        Some(value) if value <= usize::MAX => Ok(value),
        _ => Err(MemoryErrorView::InvalidRequest("memory cursor must be a number"@)),
    }
}

pub fn parse_cursor(cursor: Option<&str>) -> (result: Result<usize, MemoryError>)
    ensures
        ({
            let text = match cursor {
                Some(cursor) => Some(cursor@),
                None => None,
            };
            match result {
                Ok(offset) => cursor_of(text) == Ok::<nat, MemoryErrorView>(offset as nat),
                Err(error) => cursor_of(text) == Err::<nat, MemoryErrorView>(error@),
            }
        }),
{
    match cursor {
        None => Ok(0),
        Some(cursor) => match parse_unsigned(cursor, usize::MAX as u64) {
            Some(offset) => Ok(offset as usize),
            None => Err(
                MemoryError::InvalidRequest("memory cursor must be a number".to_string()),
            ),
        },
    }
}

/// The number of entries on a page: at least one, at most the maximum.
pub open spec fn page_limit(limit: Option<u32>) -> nat {
    let asked = match limit {
        Some(limit) => limit,
        None => DEFAULT_LIST_LIMIT,
    };
    if asked < 1 {
        1
    } else if asked > MAX_LIST_LIMIT {
        MAX_LIST_LIMIT as nat
    } else {
        asked as nat
    }
}

fn clamped_limit(limit: Option<u32>) -> (result: usize)
    ensures
        result == page_limit(limit),
{
    let asked: u32 = match limit {
        Some(limit) => limit,
        None => DEFAULT_LIST_LIMIT,
    };
    if asked < 1 {
        1
    } else if asked > MAX_LIST_LIMIT {
        MAX_LIST_LIMIT as usize
    } else {
        asked as usize
    }
}

/// Whether an entry's state passes a filter.
pub open spec fn state_passes(
    state: Seq<char>,
    wanted: Option<MemoryState>,
    mode: MemoryListMode,
) -> bool {
    match wanted {
        None => true,
        Some(wanted) => state == state_text(wanted) || (mode == MemoryListMode::Recallable && wanted
            == MemoryState::Active && state == state_text(MemoryState::Restored)),
    }
}

/// A SQL pattern for texts that hold a part.
pub open spec fn part_pattern(part: Seq<char>) -> Seq<char> {
    seq!['%'] + part + seq!['%']
}

/// Accepts the character that ends a text for SQL patterns.
pub open spec fn is_nul() -> spec_fn(char) -> bool {
    |c: char| c == '\0'
}

/// What SQL patterns read of a text: what stands before its first NUL, if it has one.
pub open spec fn before_nul(text: Seq<char>) -> Seq<char> {
    match first_match(text, is_nul()) {
        Some(i) => text.take(i),
        None => text,
    }
}

/// Whether a text holds a part, as a SQL pattern decides it.
pub open spec fn part_matches(part: Seq<char>, text: Seq<char>) -> bool {
    like(before_nul(part_pattern(part)), before_nul(text))
}

/// Whether an entry passes the filters of a request.
pub open spec fn is_listed(
    row: EntryRowView,
    scope: MemoryScope,
    scope_id: Seq<char>,
    request: ListMemoryRequestView,
    mode: MemoryListMode,
) -> bool {
    &&& row.scope_type == scope_text(scope)
    &&& row.scope_id == scope_id
    &&& request.kind matches Some(kind) ==> row.kind == kind_text(kind)
    &&& state_passes(row.state, request.state, mode)
    &&& request.origin matches Some(origin) ==> row.origin == origin_text(origin)
    &&& request.text matches Some(text) ==> part_matches(text, row.body) || part_matches(
        text,
        row.normalized_key,
    )
}

/// Whether a request is refused for its text: the pattern is longer than patterns may
/// be, and there is an entry that it would have to be held against.
pub open spec fn pattern_is_refused(
    entries: Seq<EntryRowView>,
    scope: MemoryScope,
    scope_id: Seq<char>,
    request: ListMemoryRequestView,
    mode: MemoryListMode,
) -> bool {
    &&& request.text matches Some(text) && encode_utf8(part_pattern(text)).len()
        > MAX_PATTERN_BYTES
    &&& exists|i: int|
        0 <= i < entries.len() && is_listed(
            #[trigger] entries[i],
            scope,
            scope_id,
            ListMemoryRequestView { text: None, ..request },
            mode,
        )
}

/// Accepts the entries that pass the filters of a request.
pub open spec fn listed(
    scope: MemoryScope,
    scope_id: Seq<char>,
    request: ListMemoryRequestView,
    mode: MemoryListMode,
) -> spec_fn(EntryRowView) -> bool {
    |row: EntryRowView| is_listed(row, scope, scope_id, request, mode)
}

/// All entries that pass the filters of a request, newest first.
pub open spec fn listed_rows(
    entries: Seq<EntryRowView>,
    scope: MemoryScope,
    scope_id: Seq<char>,
    request: ListMemoryRequestView,
    mode: MemoryListMode,
) -> Seq<EntryRowView> {
    ordered(entries.filter(listed(scope, scope_id, request, mode)), newer_first())
}

/// The part of a list that a page shows.
pub open spec fn page_window<V>(rows: Seq<V>, offset: nat, limit: nat) -> Seq<V> {
    let from = if offset <= rows.len() {
        offset as int
    } else {
        rows.len() as int
    };
    let to = if offset + limit <= rows.len() {
        (offset + limit) as int
    } else {
        rows.len() as int
    };
    rows.subrange(from, to)
}

/// The scope that a list is asked of: that of the user, where none is named.
pub open spec fn scope_asked(request: ListMemoryRequestView) -> MemoryScope {
    match request.scope {
        Some(scope) => scope,
        None => MemoryScope::User,
    }
}

/// The page that a request asks for.
pub open spec fn listed_page(
    tables: MemoryTablesView,
    request: ListMemoryRequestView,
    mode: MemoryListMode,
) -> Result<MemoryListResultView, MemoryErrorView> {
    let scope = scope_asked(request);
    match scope_id_of(scope, request.workspace_root) {
        Err(error) => Err(error),
        Ok(scope_id) => match cursor_of(request.cursor) {
            Err(error) => Err(error),
            Ok(offset) => if offset > i64::MAX {
                Err(MemoryErrorView::InvalidRequest("memory cursor is too large"@))
            } else if pattern_is_refused(tables.entries, scope, scope_id, request, mode) {
                Err(MemoryErrorView::Database("LIKE or GLOB pattern too complex"@))
            } else {
                let rows = listed_rows(tables.entries, scope, scope_id, request, mode);
                let limit = page_limit(request.limit);
                match entries_from(page_window(rows, offset, limit), tables.evidence) {
                    Err(error) => Err(error),
                    Ok(data) => Ok(
                        MemoryListResultView {
                            data,
                            next_cursor: if rows.len() > offset + limit {
                                Some(decimal(offset + limit))
                            } else {
                                None
                            },
                        },
                    ),
                }
            },
        },
    }
}

fn pattern_of(text: &str) -> (result: Vec<char>)
    ensures
        result@ == part_pattern(text@),
{
    let chars = chars_of(text);
    let mut pattern: Vec<char> = Vec::new();
    pattern.push('%');
    let mut i: usize = 0;
    while i < chars.len()
        invariant
            i <= chars.len(),
            pattern@ == seq!['%'] + chars@.take(i as int),
        decreases chars.len() - i,
    {
        pattern.push(chars[i]);
        i = i + 1;
    }
    assert(chars@.take(chars.len() as int) =~= chars@);
    pattern.push('%');
    assert(pattern@ =~= part_pattern(text@));
    pattern
}

/// Cuts characters off at the first NUL.
fn cut_at_nul(chars: Vec<char>) -> (result: Vec<char>)
    ensures
        result@ == before_nul(chars@),
{
    let mut part: Vec<char> = Vec::new();
    let mut i: usize = 0;
    while i < chars.len()
        invariant
            i <= chars.len(),
            part@ == chars@.take(i as int),
            forall|j: int| 0 <= j < i ==> !is_nul()(#[trigger] chars@[j]),
        decreases chars.len() - i,
    {
        if chars[i] == '\0' {
            proof {
                lemma_is_first_match(chars@, is_nul(), i as int);
            }
            return part;
        }
        part.push(chars[i]);
        assert(part@ =~= chars@.take(i + 1));
        i = i + 1;
    }
    proof {
        lemma_no_match(chars@, is_nul());
    }
    assert(part@ =~= chars@);
    part
}

/// Tests whether an entry passes the filters of a request but for its text.
fn row_passes(
    row: &EntryRow,
    scope: MemoryScope,
    scope_id: &str,
    request: &ListMemoryRequest,
    mode: MemoryListMode,
) -> (result: bool)
    ensures
        result == is_listed(
            row@,
            scope,
            scope_id@,
            ListMemoryRequestView { text: None, ..request@ },
            mode,
        ),
{
    if !same_text(row.scope_type.as_str(), scope_name(scope)) || !same_text(
        row.scope_id.as_str(),
        scope_id,
    ) {
        return false;
    }
    if let Some(kind) = request.kind {
        if !same_text(row.kind.as_str(), kind_name(kind)) {
            return false;
        }
    }
    if let Some(state) = request.state {
        let restored = mode == MemoryListMode::Recallable && state == MemoryState::Active
            && same_text(row.state.as_str(), "restored");
        if !same_text(row.state.as_str(), state_name(state)) && !restored {
            return false;
        }
    }
    if let Some(origin) = request.origin {
        if !same_text(row.origin.as_str(), origin_name(origin)) {
            return false;
        }
    }
    true
}

fn row_is_listed(
    row: &EntryRow,
    scope: MemoryScope,
    scope_id: &str,
    request: &ListMemoryRequest,
    mode: MemoryListMode,
    pattern: &Option<Vec<char>>,
) -> (result: bool)
    requires
        match (request.text, pattern) {
            (Some(text), Some(pattern)) => pattern@ == before_nul(part_pattern(text@)),
            (None, None) => true,
            _ => false,
        },
    ensures
        result == is_listed(row@, scope, scope_id@, request@, mode),
{
    if !row_passes(row, scope, scope_id, request, mode) {
        return false;
    }
    if let Some(pattern) = pattern {
        let body = cut_at_nul(chars_of(row.body.as_str()));
        let key = cut_at_nul(chars_of(row.normalized_key.as_str()));
        if !matches_like(pattern, &body) && !matches_like(pattern, &key) {
            return false;
        }
    }
    true
}

fn refuses_pattern(
    entries: &Vec<EntryRow>,
    scope: MemoryScope,
    scope_id: &str,
    request: &ListMemoryRequest,
    mode: MemoryListMode,
) -> (result: bool)
    ensures
        result == pattern_is_refused(views(entries@), scope, scope_id@, request@, mode),
{
    let pattern = match &request.text {
        Some(text) => text_of(&pattern_of(text.as_str())),
        None => return false,
    };
    if pattern.as_str().as_bytes_vec().len() <= MAX_PATTERN_BYTES {
        return false;
    }
    let ghost rows = views(entries@);
    let ghost wanted = ListMemoryRequestView { text: None, ..request@ };
    let mut i: usize = 0;
    while i < entries.len()
        invariant
            i <= entries.len(),
            rows == views(entries@),
            wanted == (ListMemoryRequestView { text: None, ..request@ }),
            forall|j: int|
                0 <= j < i ==> !is_listed(#[trigger] rows[j], scope, scope_id@, wanted, mode),
            request@.text matches Some(text) && encode_utf8(part_pattern(text)).len()
                > MAX_PATTERN_BYTES,
        decreases entries.len() - i,
    {
        assert(rows[i as int] == entries@[i as int]@);
        if row_passes(&entries[i], scope, scope_id, request, mode) {
            return true;
        }
        i = i + 1;
    }
    false
}

fn select_listed(
    entries: &Vec<EntryRow>,
    scope: MemoryScope,
    scope_id: &str,
    request: &ListMemoryRequest,
    mode: MemoryListMode,
) -> (result: Vec<EntryRow>)
    ensures
        views(result@) == listed_rows(views(entries@), scope, scope_id@, request@, mode),
{
    let pattern: Option<Vec<char>> = match &request.text {
        Some(text) => Some(cut_at_nul(pattern_of(text.as_str()))),
        None => None,
    };
    let ghost rows = views(entries@);
    let ghost accepts = listed(scope, scope_id@, request@, mode);
    let mut result: Vec<EntryRow> = Vec::new();
    let mut i: usize = 0;
    assert(rows.take(0).filter(accepts) =~= Seq::<EntryRowView>::empty()) by {
        reveal(Seq::filter);
    }
    assert(views(result@) =~= Seq::<EntryRowView>::empty());
    while i < entries.len()
        invariant
            i <= entries.len(),
            rows == views(entries@),
            accepts == listed(scope, scope_id@, request@, mode),
            match (request.text, pattern) {
                (Some(text), Some(pattern)) => pattern@ == before_nul(part_pattern(text@)),
                (None, None) => true,
                _ => false,
            },
            views(result@) == ordered(rows.take(i as int).filter(accepts), newer_first()),
        decreases entries.len() - i,
    {
        assert(rows[i as int] == entries@[i as int]@);
        proof {
            lemma_filter_take(rows, i as int, accepts);
        }
        if row_is_listed(&entries[i], scope, scope_id, request, mode, &pattern) {
            let ghost chosen = rows.take(i as int).filter(accepts);
            assert(chosen.push(rows[i as int]).drop_last() =~= chosen);
            place_entry(&mut result, entries[i].clone());
        }
        i = i + 1;
    }
    assert(rows.take(entries.len() as int) =~= rows);
    result
}

/// Lists a page of entries.
pub fn list_with_mode(
    tables: &MemoryTables,
    request: &ListMemoryRequest,
    mode: MemoryListMode,
) -> (result:
    Result<MemoryListResult, MemoryError>)
    ensures
        match result {
            Ok(page) => listed_page(tables@, request@, mode) == Ok::<
                MemoryListResultView,
                MemoryErrorView,
            >(page@),
            Err(error) => listed_page(tables@, request@, mode) == Err::<
                MemoryListResultView,
                MemoryErrorView,
            >(error@),
        },
{
    let scope = match request.scope {
        Some(scope) => scope,
        None => MemoryScope::User,
    };
    let scope_id = match scope_id(scope, &request.workspace_root) {
        Ok(scope_id) => scope_id,
        Err(error) => return Err(error),
    };
    let limit = clamped_limit(request.limit);
    let cursor = match &request.cursor {
        Some(cursor) => Some(cursor.as_str()),
        None => None,
    };
    let offset = match parse_cursor(cursor) {
        Ok(offset) => offset,
        Err(error) => return Err(error),
    };
    if offset as u64 > 9_223_372_036_854_775_807 {
        return Err(MemoryError::InvalidRequest("memory cursor is too large".to_string()));
    }
    if refuses_pattern(&tables.entries, scope, scope_id.as_str(), request, mode) {
        return Err(MemoryError::Database("LIKE or GLOB pattern too complex".to_string()));
    }
    let rows = select_listed(&tables.entries, scope, scope_id.as_str(), request, mode);
    let ghost all = views(rows@);
    assert(all.len() == rows.len());
    let from: usize = if offset <= rows.len() {
        offset
    } else {
        rows.len()
    };
    let to: usize = if limit <= rows.len() - from {
        from + limit
    } else {
        rows.len()
    };
    let mut window: Vec<EntryRow> = Vec::new();
    let mut i: usize = from;
    assert(views(window@) =~= all.subrange(from as int, from as int));
    while i < to
        invariant
            from <= i <= to <= rows.len(),
            all == views(rows@),
            views(window@) == all.subrange(from as int, i as int),
        decreases to - i,
    {
        let ghost before = views(window@);
        window.push(rows[i].clone());
        assert(views(window@) =~= before.push(all[i as int]));
        assert(all.subrange(from as int, i + 1) =~= before.push(all[i as int]));
        i = i + 1;
    }
    assert(views(window@) == page_window(all, offset as nat, limit as nat));
    let data = match load_rows(&window, &tables.evidence) {
        Ok(data) => data,
        Err(error) => return Err(error),
    };
    let next_cursor = if offset < rows.len() && rows.len() - offset > limit {
        Some(decimal_text((offset + limit) as u64))
    } else {
        None
    };
    Ok(MemoryListResult { data, next_cursor })
}

/// Lists a page of entries for inspection.
pub fn list(tables: &MemoryTables, request: &ListMemoryRequest) -> (result: Result<
    MemoryListResult,
    MemoryError,
>)
    ensures
        match result {
            Ok(page) => listed_page(tables@, request@, MemoryListMode::Management) == Ok::<
                MemoryListResultView,
                MemoryErrorView,
            >(page@),
            Err(error) => listed_page(tables@, request@, MemoryListMode::Management) == Err::<
                MemoryListResultView,
                MemoryErrorView,
            >(error@),
        },
{
    list_with_mode(tables, request, MemoryListMode::Management)
}

/// Lists a page of entries for recall.
pub fn list_recallable(tables: &MemoryTables, request: &ListMemoryRequest) -> (result: Result<
    MemoryListResult,
    MemoryError,
>)
    ensures
        match result {
            Ok(page) => listed_page(tables@, request@, MemoryListMode::Recallable) == Ok::<
                MemoryListResultView,
                MemoryErrorView,
            >(page@),
            Err(error) => listed_page(tables@, request@, MemoryListMode::Recallable) == Err::<
                MemoryListResultView,
                MemoryErrorView,
            >(error@),
        },
{
    list_with_mode(tables, request, MemoryListMode::Recallable)
}

// ---------------------------------------------------------------------------
// Laws.
// ---------------------------------------------------------------------------
pub proof fn lemma_entries_from_rows(rows: Seq<EntryRowView>, evidence: Seq<EvidenceRowView>)
    ensures
        entries_from(rows, evidence) matches Ok(entries) ==> {
            &&& entries.len() == rows.len()
            &&& forall|i: int|
                0 <= i < rows.len() ==> entry_from(rows[i], evidence) == Ok::<
                    MemoryEntryView,
                    MemoryErrorView,
                >(#[trigger] entries[i])
        },
    decreases rows.len(),
{
    if rows.len() > 0 {
        lemma_entries_from_rows(rows.drop_last(), evidence);
    }
}

/// A page never holds more entries than its limit, and a limit is never above the
/// maximum.
pub proof fn law_pages_are_bounded(
    tables: MemoryTablesView,
    request: ListMemoryRequestView,
    mode: MemoryListMode,
)
    ensures
        1 <= page_limit(request.limit) <= MAX_LIST_LIMIT,
        listed_page(tables, request, mode) matches Ok(page) ==> page.data.len() <= page_limit(
            request.limit,
        ),
{
    let scope = match request.scope {
        Some(scope) => scope,
        None => MemoryScope::User,
    };
    if listed_page(tables, request, mode) is Ok {
        let scope_id = scope_id_of(scope, request.workspace_root)->Ok_0;
        let offset = cursor_of(request.cursor)->Ok_0;
        let rows = listed_rows(tables.entries, scope, scope_id, request, mode);
        lemma_entries_from_rows(
            page_window(rows, offset, page_limit(request.limit)),
            tables.evidence,
        );
    }
}

/// Pages join without gap or overlap: the next cursor reads back as the offset at
/// which a page ends, and two neighbouring windows make one larger window.
pub proof fn law_pages_join<V>(rows: Seq<V>, offset: nat, limit: nat)
    requires
        rows.len() > offset + limit,
        rows.len() <= usize::MAX,
    ensures
        cursor_of(Some(decimal(offset + limit))) == Ok::<nat, MemoryErrorView>(offset + limit),
        page_window(rows, offset, limit) + page_window(rows, offset + limit, limit) == page_window(
            rows,
            offset,
            2 * limit,
        ),
{
    law_decimal_reads_back(offset + limit);
    assert(page_window(rows, offset, limit) + page_window(rows, offset + limit, limit)
        =~= page_window(rows, offset, 2 * limit));
}

/// A list holds exactly the entries that pass its filters, no more often than the
/// store does, and the newest come first.
pub proof fn law_lists_are_complete(
    entries: Seq<EntryRowView>,
    scope: MemoryScope,
    scope_id: Seq<char>,
    request: ListMemoryRequestView,
    mode: MemoryListMode,
)
    ensures
        ({
            let rows = listed_rows(entries, scope, scope_id, request, mode);
            &&& rows.to_multiset() == entries.filter(
                listed(scope, scope_id, request, mode),
            ).to_multiset()
            &&& is_ordered(rows, newer_first())
            &&& forall|row: EntryRowView| #[trigger]
                rows.contains(row) <==> entries.contains(row) && is_listed(
                    row,
                    scope,
                    scope_id,
                    request,
                    mode,
                )
        }),
{
    broadcast use vstd::seq_lib::group_to_multiset_ensures;

    let accepts = listed(scope, scope_id, request, mode);
    let chosen = entries.filter(accepts);
    let rows = listed_rows(entries, scope, scope_id, request, mode);
    law_reading_orders(chosen, Seq::empty());
    lemma_filter_holds(entries, accepts);
    assert forall|row: EntryRowView| #[trigger]
        rows.contains(row) <==> entries.contains(row) && is_listed(
            row,
            scope,
            scope_id,
            request,
            mode,
        ) by {
        assert(rows.contains(row) <==> rows.to_multiset().count(row) > 0);
        assert(chosen.contains(row) <==> chosen.to_multiset().count(row) > 0);
        assert(accepts(row) == is_listed(row, scope, scope_id, request, mode));
    }
}

/// The entries of the pages that following the cursor gives, up to a number of pages.
pub open spec fn followed_pages(
    tables: MemoryTablesView,
    request: ListMemoryRequestView,
    mode: MemoryListMode,
    pages: nat,
) -> Seq<Seq<MemoryEntryView>>
    decreases pages,
{
    if pages == 0 {
        Seq::empty()
    } else {
        match listed_page(tables, request, mode) {
            Err(_) => Seq::empty(),
            Ok(page) => seq![page.data] + match page.next_cursor {
                None => Seq::empty(),
                Some(cursor) => followed_pages(
                    tables,
                    ListMemoryRequestView { cursor: Some(cursor), ..request },
                    mode,
                    (pages - 1) as nat,
                ),
            },
        }
    }
}

/// Where every row reads, the rows together do.
pub proof fn lemma_rows_read(rows: Seq<EntryRowView>, evidence: Seq<EvidenceRowView>)
    requires
        forall|i: int| 0 <= i < rows.len() ==> entry_from(#[trigger] rows[i], evidence) is Ok,
    ensures
        entries_from(rows, evidence) is Ok,
    decreases rows.len(),
{
    if rows.len() > 0 {
        let front = rows.drop_last();
        assert forall|i: int| 0 <= i < front.len() implies entry_from(
            #[trigger] front[i],
            evidence,
        ) is Ok by {
            assert(front[i] == rows[i]);
        }
        lemma_rows_read(front, evidence);
        assert(rows.last() == rows[rows.len() - 1]);
    }
}

/// The rows of a window read as the same window of the entries.
proof fn lemma_window_reads(
    rows: Seq<EntryRowView>,
    evidence: Seq<EvidenceRowView>,
    offset: nat,
    limit: nat,
)
    requires
        entries_from(rows, evidence) is Ok,
    ensures
        entries_from(page_window(rows, offset, limit), evidence) == Ok::<
            Seq<MemoryEntryView>,
            MemoryErrorView,
        >(page_window(entries_from(rows, evidence)->Ok_0, offset, limit)),
{
    let all = entries_from(rows, evidence)->Ok_0;
    let window = page_window(rows, offset, limit);
    lemma_entries_from_rows(rows, evidence);
    let from = if offset <= rows.len() {
        offset as int
    } else {
        rows.len() as int
    };
    assert forall|i: int| 0 <= i < window.len() implies entry_from(
        #[trigger] window[i],
        evidence,
    ) == Ok::<MemoryEntryView, MemoryErrorView>(all[from + i]) by {
        assert(window[i] == rows[from + i]);
    }
    lemma_rows_read(window, evidence);
    lemma_entries_from_rows(window, evidence);
    let read = entries_from(window, evidence)->Ok_0;
    assert forall|i: int| 0 <= i < window.len() implies #[trigger] read[i] == all[from + i] by {
        assert(entry_from(window[i], evidence) == Ok::<MemoryEntryView, MemoryErrorView>(read[i]));
    }
    assert(read =~= page_window(all, offset, limit));
}

/// From an offset on, the pages together are the entries from there on.
proof fn lemma_pages_from(
    tables: MemoryTablesView,
    request: ListMemoryRequestView,
    mode: MemoryListMode,
    scope_id: Seq<char>,
    offset: nat,
    pages: nat,
)
    requires
        scope_id_of(scope_asked(request), request.workspace_root) == Ok::<
            Seq<char>,
            MemoryErrorView,
        >(scope_id),
        cursor_of(request.cursor) == Ok::<nat, MemoryErrorView>(offset),
        !pattern_is_refused(tables.entries, scope_asked(request), scope_id, request, mode),
        ({
            let rows = listed_rows(tables.entries, scope_asked(request), scope_id, request, mode);
            &&& entries_from(rows, tables.evidence) is Ok
            &&& offset <= rows.len() <= usize::MAX
            &&& rows.len() <= i64::MAX
            &&& rows.len() - offset < pages
        }),
    ensures
        ({
            let rows = listed_rows(tables.entries, scope_asked(request), scope_id, request, mode);
            let found = followed_pages(tables, request, mode, pages);
            let limit = page_limit(request.limit);
            &&& found.flatten() == entries_from(rows, tables.evidence)->Ok_0.skip(offset as int)
            &&& found.len() > 0
            &&& found.last().len() <= limit
            &&& forall|k: int| 0 <= k < found.len() - 1 ==> (#[trigger] found[k]).len() == limit
        }),
    decreases pages,
{
    let scope = scope_asked(request);
    let rows = listed_rows(tables.entries, scope, scope_id, request, mode);
    let all = entries_from(rows, tables.evidence)->Ok_0;
    let limit = page_limit(request.limit);
    let found = followed_pages(tables, request, mode, pages);
    lemma_entries_from_rows(rows, tables.evidence);
    lemma_window_reads(rows, tables.evidence, offset, limit);
    let page = listed_page(tables, request, mode)->Ok_0;
    assert(page.data == page_window(all, offset, limit));
    if rows.len() > offset + limit {
        let next = ListMemoryRequestView { cursor: Some(decimal(offset + limit)), ..request };
        law_decimal_reads_back(offset + limit);
        assert(listed(scope, scope_id, next, mode) =~= listed(scope, scope_id, request, mode));
        assert(pattern_is_refused(tables.entries, scope, scope_id, next, mode)
            == pattern_is_refused(tables.entries, scope, scope_id, request, mode));
        lemma_pages_from(tables, next, mode, scope_id, offset + limit, (pages - 1) as nat);
        let rest = followed_pages(tables, next, mode, (pages - 1) as nat);
        assert(found == seq![page.data] + rest);
        assert(found.drop_first() =~= rest);
        assert(found.first() == page.data);
        assert(found.flatten() =~= all.skip(offset as int));
        assert forall|k: int| 0 <= k < found.len() - 1 implies (#[trigger] found[k]).len()
            == limit by {
            if k > 0 {
                assert(found[k] == rest[k - 1]);
            }
        }
        assert(found.last() == rest.last());
    } else {
        assert(found == seq![page.data] + Seq::<Seq<MemoryEntryView>>::empty());
        assert(found.drop_first() =~= Seq::<Seq<MemoryEntryView>>::empty());
        assert(found.first() == page.data);
        assert(found.drop_first().flatten() =~= Seq::<MemoryEntryView>::empty());
        assert(found.flatten() =~= all.skip(offset as int));
        assert(found.last() == page.data);
    }
}

/// Following the cursor from the first page to the last, as many times as there are
/// rows and once more, lists every entry that the request asks for once and in order:
/// the pages put together are the matching entries, newest first; every page but the
/// last is full, and the last is no longer than the others.
pub proof fn law_all_pages_are_the_list(
    tables: MemoryTablesView,
    request: ListMemoryRequestView,
    mode: MemoryListMode,
    scope_id: Seq<char>,
    pages: nat,
)
    requires
        request.cursor is None,
        scope_id_of(scope_asked(request), request.workspace_root) == Ok::<
            Seq<char>,
            MemoryErrorView,
        >(scope_id),
        !pattern_is_refused(tables.entries, scope_asked(request), scope_id, request, mode),
        tables.entries.len() <= usize::MAX,
        tables.entries.len() <= i64::MAX,
        tables.entries.len() < pages,
    ensures
        ({
            let scope = scope_asked(request);
            let rows = listed_rows(tables.entries, scope, scope_id, request, mode);
            let found = followed_pages(tables, request, mode, pages);
            let limit = page_limit(request.limit);
            &&& rows.to_multiset() == tables.entries.filter(
                listed(scope, scope_id, request, mode),
            ).to_multiset()
            &&& is_ordered(rows, newer_first())
            &&& entries_from(rows, tables.evidence) matches Ok(all) ==> {
                &&& found.flatten() == all
                &&& found.len() > 0
                &&& found.last().len() <= limit
                &&& forall|k: int|
                    0 <= k < found.len() - 1 ==> (#[trigger] found[k]).len() == limit
            }
        }),
{
    broadcast use vstd::seq_lib::group_to_multiset_ensures;

    let scope = scope_asked(request);
    let rows = listed_rows(tables.entries, scope, scope_id, request, mode);
    law_lists_are_complete(tables.entries, scope, scope_id, request, mode);
    let chosen = tables.entries.filter(listed(scope, scope_id, request, mode));
    tables.entries.lemma_filter_len(listed(scope, scope_id, request, mode));
    assert(rows.len() == rows.to_multiset().len());
    assert(chosen.len() == chosen.to_multiset().len());
    if entries_from(rows, tables.evidence) is Ok {
        lemma_pages_from(tables, request, mode, scope_id, 0, pages);
        let all = entries_from(rows, tables.evidence)->Ok_0;
        assert(all.skip(0) =~= all);
    }
}

/// For recall, a request for active entries finds the active and the restored
/// ones; for inspection it finds the active ones only.
pub proof fn law_recall_counts_restored_as_active(state: Seq<char>)
    ensures
        state_passes(state, Some(MemoryState::Active), MemoryListMode::Recallable) <==> (state
            == state_text(MemoryState::Active) || state == state_text(MemoryState::Restored)),
        state_passes(state, Some(MemoryState::Active), MemoryListMode::Management) <==> state
            == state_text(MemoryState::Active),
{
}

} // verus!
