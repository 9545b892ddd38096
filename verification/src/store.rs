//! Reading the memory store: lookups, orders, and entries out of their rows.

use vstd::prelude::*;

use crate::ids::{ItemId, MemoryEntryId};
use crate::memory_error::{MemoryError, MemoryErrorView};
use crate::rows::{
    first_match, first_row, insert_ordered, lemma_filter_take, lemma_insert_position, is_ordered,
    law_ordered, lemma_is_first_match, lemma_no_match, ordered,
};
use crate::rpc_memory::{
    MemoryEntry, MemoryEntryView, MemoryProvenance, MemoryProvenanceView, MemoryScope,
};
use crate::stored_values::{
    kind_of, origin_of, parse_kind, parse_origin, parse_scope, parse_state, parse_timestamp,
    scope_name, scope_of, scope_text, state_of, timestamp_of,
};
use crate::tables::{
    EntryRow, EntryRowView, EvidenceRow, EvidenceRowView, MemoryTables, MemoryTablesView,
    RevocationRow, RevocationRowView,
};
use crate::text::{law_text_order, less, opt_view, same_text, text_less, views};

verus! {

// ---------------------------------------------------------------------------
// Conditions on rows.
// ---------------------------------------------------------------------------
/// Accepts the entry with an ID.
pub open spec fn entry_is(entry_id: Seq<char>) -> spec_fn(EntryRowView) -> bool {
    |row: EntryRowView| row.entry_id == entry_id
}

/// Accepts the entry with an identity: a key within a scope.
pub open spec fn identity_is(
    scope: Seq<char>,
    scope_id: Seq<char>,
    key: Seq<char>,
) -> spec_fn(EntryRowView) -> bool {
    |row: EntryRowView|
        row.scope_type == scope && row.scope_id == scope_id && row.normalized_key == key
}

/// Accepts the entries of a scope.
pub open spec fn entry_in_scope(scope: Seq<char>, scope_id: Seq<char>) -> spec_fn(
    EntryRowView,
) -> bool {
    |row: EntryRowView| row.scope_type == scope && row.scope_id == scope_id
}

/// Accepts the evidence of an entry.
pub open spec fn evidence_of(entry_id: Seq<char>) -> spec_fn(EvidenceRowView) -> bool {
    |row: EvidenceRowView| row.entry_id == entry_id
}

/// Accepts the revocation of an identity.
pub open spec fn revocation_is(
    scope: Seq<char>,
    scope_id: Seq<char>,
    key: Seq<char>,
) -> spec_fn(RevocationRowView) -> bool {
    |row: RevocationRowView|
        row.scope_type == scope && row.scope_id == scope_id && row.normalized_key == key
}

/// Evidence is read in the order in which it was observed, then by its ID.
pub open spec fn observed_before() -> spec_fn(EvidenceRowView, EvidenceRowView) -> bool {
    |a: EvidenceRowView, b: EvidenceRowView|
        text_less(a.observed_at, b.observed_at) || (a.observed_at == b.observed_at && text_less(
            a.evidence_id,
            b.evidence_id,
        ))
}

/// Entries are read newest first, then by their ID.
pub open spec fn newer_first() -> spec_fn(EntryRowView, EntryRowView) -> bool {
    |a: EntryRowView, b: EntryRowView|
        text_less(b.updated_at, a.updated_at) || (a.updated_at == b.updated_at && text_less(
            a.entry_id,
            b.entry_id,
        ))
}

// ---------------------------------------------------------------------------
// The constraints of the store.
// ---------------------------------------------------------------------------
/// Whether no two entries share an ID.
pub open spec fn entry_ids_differ(entries: Seq<EntryRowView>) -> bool {
    forall|i: int, j: int|
        0 <= i < j < entries.len() ==> (#[trigger] entries[i]).entry_id != (
        #[trigger] entries[j]).entry_id
}

/// Whether two entries have the same identity.
pub open spec fn same_identity(a: EntryRowView, b: EntryRowView) -> bool {
    a.scope_type == b.scope_type && a.scope_id == b.scope_id && a.normalized_key
        == b.normalized_key
}

/// Whether no two entries share an identity.
pub open spec fn identities_differ(entries: Seq<EntryRowView>) -> bool {
    forall|i: int, j: int|
        0 <= i < j < entries.len() ==> !same_identity(#[trigger] entries[i], #[trigger] entries[j])
}

/// Whether two revocations speak of the same identity.
pub open spec fn same_revoked(a: RevocationRowView, b: RevocationRowView) -> bool {
    a.scope_type == b.scope_type && a.scope_id == b.scope_id && a.normalized_key
        == b.normalized_key
}

/// Whether no two revocations speak of the same identity.
pub open spec fn revocations_differ(revocations: Seq<RevocationRowView>) -> bool {
    forall|i: int, j: int|
        0 <= i < j < revocations.len() ==> !same_revoked(
            #[trigger] revocations[i],
            #[trigger] revocations[j],
        )
}

/// Whether no two revocations share an ID.
pub open spec fn revocation_ids_differ(rows: Seq<RevocationRowView>) -> bool {
    forall|i: int, j: int|
        0 <= i < j < rows.len() ==> (#[trigger] rows[i]).revocation_id != (
        #[trigger] rows[j]).revocation_id
}

/// Whether an entry with an ID is stored.
pub open spec fn has_entry(entries: Seq<EntryRowView>, entry_id: Seq<char>) -> bool {
    exists|i: int| 0 <= i < entries.len() && (#[trigger] entries[i]).entry_id == entry_id
}

/// Whether evidence with an ID is stored.
pub open spec fn has_evidence(evidence: Seq<EvidenceRowView>, evidence_id: Seq<char>) -> bool {
    exists|i: int| 0 <= i < evidence.len() && (#[trigger] evidence[i]).evidence_id == evidence_id
}

/// Whether every piece of evidence belongs to a stored entry.
pub open spec fn evidence_is_owned(
    evidence: Seq<EvidenceRowView>,
    entries: Seq<EntryRowView>,
) -> bool {
    forall|i: int|
        0 <= i < evidence.len() ==> has_entry(entries, (#[trigger] evidence[i]).entry_id)
}

/// Whether no two pieces of evidence share an ID.
pub open spec fn evidence_ids_differ(evidence: Seq<EvidenceRowView>) -> bool {
    forall|i: int, j: int|
        0 <= i < j < evidence.len() ==> (#[trigger] evidence[i]).evidence_id != (
        #[trigger] evidence[j]).evidence_id
}

impl MemoryTablesView {
    /// The constraints that the store keeps: the IDs of entries, evidence and
    /// revocations, identities and revoked identities are unique, and evidence
    /// belongs to an entry.
    pub open spec fn well_formed(self) -> bool {
        &&& entry_ids_differ(self.entries)
        &&& identities_differ(self.entries)
        &&& revocations_differ(self.revocations)
        &&& revocation_ids_differ(self.revocations)
        &&& evidence_ids_differ(self.evidence)
        &&& evidence_is_owned(self.evidence, self.entries)
    }
}

// ---------------------------------------------------------------------------
// Lookups.
// ---------------------------------------------------------------------------
/// Looks an entry up by its ID.
pub fn find_entry(entries: &Vec<EntryRow>, entry_id: &str) -> (result: Option<usize>)
    ensures
        match result {
            Some(i) => i < entries.len() && first_match(views(entries@), entry_is(entry_id@))
                == Some(i as int),
            None => first_match(views(entries@), entry_is(entry_id@)) is None,
        },
{
    let ghost rows = views(entries@);
    let ghost accepts = entry_is(entry_id@);
    let mut i: usize = 0;
    while i < entries.len()
        invariant
            i <= entries.len(),
            rows == views(entries@),
            accepts == entry_is(entry_id@),
            forall|j: int| 0 <= j < i ==> !accepts(#[trigger] rows[j]),
        decreases entries.len() - i,
    {
        assert(rows[i as int] == entries@[i as int]@);
        if same_text(entries[i].entry_id.as_str(), entry_id) {
            proof {
                lemma_is_first_match(rows, accepts, i as int);
            }
            return Some(i);
        }
        i = i + 1;
    }
    proof {
        lemma_no_match(rows, accepts);
    }
    None
}

/// Looks an entry up by its identity.
pub fn find_identity(
    entries: &Vec<EntryRow>,
    scope: &str,
    scope_id: &str,
    key: &str,
) -> (result: Option<usize>)
    ensures
        match result {
            Some(i) => i < entries.len() && first_match(
                views(entries@),
                identity_is(scope@, scope_id@, key@),
            ) == Some(i as int),
            None => first_match(views(entries@), identity_is(scope@, scope_id@, key@)) is None,
        },
{
    let ghost rows = views(entries@);
    let ghost accepts = identity_is(scope@, scope_id@, key@);
    let mut i: usize = 0;
    while i < entries.len()
        invariant
            i <= entries.len(),
            rows == views(entries@),
            accepts == identity_is(scope@, scope_id@, key@),
            forall|j: int| 0 <= j < i ==> !accepts(#[trigger] rows[j]),
        decreases entries.len() - i,
    {
        assert(rows[i as int] == entries@[i as int]@);
        if same_text(entries[i].scope_type.as_str(), scope) && same_text(
            entries[i].scope_id.as_str(),
            scope_id,
        ) && same_text(entries[i].normalized_key.as_str(), key) {
            proof {
                lemma_is_first_match(rows, accepts, i as int);
            }
            return Some(i);
        }
        i = i + 1;
    }
    proof {
        lemma_no_match(rows, accepts);
    }
    None
}

/// Looks the revocation of an identity up.
pub fn find_revocation(
    revocations: &Vec<RevocationRow>,
    scope: &str,
    scope_id: &str,
    key: &str,
) -> (result: Option<usize>)
    ensures
        match result {
            Some(i) => i < revocations.len() && first_match(
                views(revocations@),
                revocation_is(scope@, scope_id@, key@),
            ) == Some(i as int),
            None => first_match(
                views(revocations@),
                revocation_is(scope@, scope_id@, key@),
            ) is None,
        },
{
    let ghost rows = views(revocations@);
    let ghost accepts = revocation_is(scope@, scope_id@, key@);
    let mut i: usize = 0;
    while i < revocations.len()
        invariant
            i <= revocations.len(),
            rows == views(revocations@),
            accepts == revocation_is(scope@, scope_id@, key@),
            forall|j: int| 0 <= j < i ==> !accepts(#[trigger] rows[j]),
        decreases revocations.len() - i,
    {
        assert(rows[i as int] == revocations@[i as int]@);
        if same_text(revocations[i].scope_type.as_str(), scope) && same_text(
            revocations[i].scope_id.as_str(),
            scope_id,
        ) && same_text(revocations[i].normalized_key.as_str(), key) {
            proof {
                lemma_is_first_match(rows, accepts, i as int);
            }
            return Some(i);
        }
        i = i + 1;
    }
    proof {
        lemma_no_match(rows, accepts);
    }
    None
}

// ---------------------------------------------------------------------------
// Orders.
// ---------------------------------------------------------------------------
fn is_observed_before(a: &EvidenceRow, b: &EvidenceRow) -> (result: bool)
    ensures
        result == observed_before()(a@, b@),
{
    less(a.observed_at.as_str(), b.observed_at.as_str()) || (same_text(
        a.observed_at.as_str(),
        b.observed_at.as_str(),
    ) && less(a.evidence_id.as_str(), b.evidence_id.as_str()))
}

fn is_newer(a: &EntryRow, b: &EntryRow) -> (result: bool)
    ensures
        result == newer_first()(a@, b@),
{
    less(b.updated_at.as_str(), a.updated_at.as_str()) || (same_text(
        a.updated_at.as_str(),
        b.updated_at.as_str(),
    ) && less(a.entry_id.as_str(), b.entry_id.as_str()))
}

/// The evidence of an entry, in the order in which it was observed.
pub fn select_evidence(evidence: &Vec<EvidenceRow>, entry_id: &str) -> (result: Vec<EvidenceRow>)
    ensures
        views(result@) == ordered(
            views(evidence@).filter(evidence_of(entry_id@)),
            observed_before(),
        ),
{
    let ghost rows = views(evidence@);
    let ghost accepts = evidence_of(entry_id@);
    let mut result: Vec<EvidenceRow> = Vec::new();
    let mut i: usize = 0;
    assert(rows.take(0) =~= Seq::<EvidenceRowView>::empty());
    assert(rows.take(0).filter(accepts) =~= Seq::<EvidenceRowView>::empty()) by {
        reveal(Seq::filter);
    }
    assert(views(result@) =~= Seq::<EvidenceRowView>::empty());
    while i < evidence.len()
        invariant
            i <= evidence.len(),
            rows == views(evidence@),
            accepts == evidence_of(entry_id@),
            views(result@) == ordered(rows.take(i as int).filter(accepts), observed_before()),
        decreases evidence.len() - i,
    {
        assert(rows[i as int] == evidence@[i as int]@);
        proof {
            lemma_filter_take(rows, i as int, accepts);
        }
        if same_text(evidence[i].entry_id.as_str(), entry_id) {
            let ghost chosen = rows.take(i as int).filter(accepts);
            assert(chosen.push(rows[i as int]).drop_last() =~= chosen);
            place_evidence(&mut result, evidence[i].clone());
        }
        i = i + 1;
    }
    assert(rows.take(evidence.len() as int) =~= rows);
    result
}

fn place_evidence(rows: &mut Vec<EvidenceRow>, row: EvidenceRow)
    ensures
        views(final(rows)@) == insert_ordered(views(old(rows)@), row@, observed_before()),
{
    let ghost before = observed_before();
    let ghost placed = views(rows@);
    let mut at: usize = rows.len();
    while at > 0 && is_observed_before(&row, &rows[at - 1])
        invariant
            at <= rows.len(),
            placed == views(rows@),
            before == observed_before(),
            forall|k: int| at <= k < rows.len() ==> before(row@, #[trigger] placed[k]),
        decreases at,
    {
        assert(placed[at - 1] == rows@[at - 1]@);
        at = at - 1;
    }
    proof {
        if at > 0 {
            assert(placed[at - 1] == rows@[at - 1]@);
        }
        lemma_insert_position(placed, row@, before, at as int);
    }
    let ghost added = row@;
    rows.insert(at, row);
    assert(views(rows@) =~= placed.insert(at as int, added));
}

/// Adds an entry to entries that are read newest first.
pub fn place_entry(rows: &mut Vec<EntryRow>, row: EntryRow)
    ensures
        views(final(rows)@) == insert_ordered(views(old(rows)@), row@, newer_first()),
{
    let ghost before = newer_first();
    let ghost placed = views(rows@);
    let mut at: usize = rows.len();
    while at > 0 && is_newer(&row, &rows[at - 1])
        invariant
            at <= rows.len(),
            placed == views(rows@),
            before == newer_first(),
            forall|k: int| at <= k < rows.len() ==> before(row@, #[trigger] placed[k]),
        decreases at,
    {
        assert(placed[at - 1] == rows@[at - 1]@);
        at = at - 1;
    }
    proof {
        if at > 0 {
            assert(placed[at - 1] == rows@[at - 1]@);
        }
        lemma_insert_position(placed, row@, before, at as int);
    }
    let ghost added = row@;
    rows.insert(at, row);
    assert(views(rows@) =~= placed.insert(at as int, added));
}

/// The entries of a scope, newest first.
pub fn select_scope(entries: &Vec<EntryRow>, scope: &str, scope_id: &str) -> (result: Vec<EntryRow>)
    ensures
        views(result@) == ordered(
            views(entries@).filter(entry_in_scope(scope@, scope_id@)),
            newer_first(),
        ),
{
    let ghost rows = views(entries@);
    let ghost accepts = entry_in_scope(scope@, scope_id@);
    let mut result: Vec<EntryRow> = Vec::new();
    let mut i: usize = 0;
    assert(rows.take(0) =~= Seq::<EntryRowView>::empty());
    assert(rows.take(0).filter(accepts) =~= Seq::<EntryRowView>::empty()) by {
        reveal(Seq::filter);
    }
    assert(views(result@) =~= Seq::<EntryRowView>::empty());
    while i < entries.len()
        invariant
            i <= entries.len(),
            rows == views(entries@),
            accepts == entry_in_scope(scope@, scope_id@),
            views(result@) == ordered(rows.take(i as int).filter(accepts), newer_first()),
        decreases entries.len() - i,
    {
        assert(rows[i as int] == entries@[i as int]@);
        proof {
            lemma_filter_take(rows, i as int, accepts);
        }
        if same_text(entries[i].scope_type.as_str(), scope) && same_text(
            entries[i].scope_id.as_str(),
            scope_id,
        ) {
            let ghost chosen = rows.take(i as int).filter(accepts);
            assert(chosen.push(rows[i as int]).drop_last() =~= chosen);
            place_entry(&mut result, entries[i].clone());
        }
        i = i + 1;
    }
    assert(rows.take(entries.len() as int) =~= rows);
    result
}

// ---------------------------------------------------------------------------
// Entries out of rows.
// ---------------------------------------------------------------------------
/// What a piece of evidence says of an entry's source.
pub open spec fn provenance_of(row: EvidenceRowView) -> MemoryProvenanceView {
    MemoryProvenanceView {
        source_session_id: Some(row.session_id),
        source_turn_id: row.turn_id,
        source_user_item_id: row.source_user_item_id,
    }
}

/// The sources of an entry, in the order in which they were observed.
pub open spec fn sources_of(
    evidence: Seq<EvidenceRowView>,
    entry_id: Seq<char>,
) -> Seq<MemoryProvenanceView> {
    ordered(evidence.filter(evidence_of(entry_id)), observed_before()).map_values(
        |row: EvidenceRowView| provenance_of(row),
    )
}

/// The entry that a row and its evidence stand for, or the first column that has
/// no meaning.
pub open spec fn entry_from(row: EntryRowView, evidence: Seq<EvidenceRowView>) -> Result<
    MemoryEntryView,
    MemoryErrorView,
> {
    match scope_of(row.scope_type) {
        Err(error) => Err(error),
        Ok(scope) => match kind_of(row.kind) {
            Err(error) => Err(error),
            Ok(kind) => match origin_of(row.origin) {
                Err(error) => Err(error),
                Ok(origin) => match state_of(row.state) {
                    Err(error) => Err(error),
                    Ok(state) => match timestamp_of(row.created_at) {
                        Err(error) => Err(error),
                        Ok(created_at) => match timestamp_of(row.updated_at) {
                            Err(error) => Err(error),
                            Ok(updated_at) => Ok(
                                MemoryEntryView {
                                    entry_id: row.entry_id,
                                    scope,
                                    scope_id: row.scope_id,
                                    kind,
                                    normalized_key: row.normalized_key,
                                    body: row.body,
                                    origin,
                                    state,
                                    created_at,
                                    updated_at,
                                    replacement_entry_id: row.replacement_entry_id,
                                    provenance: sources_of(evidence, row.entry_id),
                                },
                            ),
                        },
                    },
                },
            },
        },
    }
}

/// The entries that rows stand for, or the first error among them.
pub open spec fn entries_from(
    rows: Seq<EntryRowView>,
    evidence: Seq<EvidenceRowView>,
) -> Result<Seq<MemoryEntryView>, MemoryErrorView>
    decreases rows.len(),
{
    if rows.len() == 0 {
        Ok(Seq::empty())
    } else {
        match entries_from(rows.drop_last(), evidence) {
            Err(error) => Err(error),
            Ok(front) => match entry_from(rows.last(), evidence) {
                Err(error) => Err(error),
                Ok(entry) => Ok(front.push(entry)),
            },
        }
    }
}

/// The entry with an ID, if it is stored.
pub open spec fn stored_entry(tables: MemoryTablesView, entry_id: Seq<char>) -> Result<
    Option<MemoryEntryView>,
    MemoryErrorView,
> {
    match first_row(tables.entries, entry_is(entry_id)) {
        None => Ok(None),
        Some(row) => match entry_from(row, tables.evidence) {
            Err(error) => Err(error),
            Ok(entry) => Ok(Some(entry)),
        },
    }
}

/// The entries of a scope, newest first.
pub open spec fn scope_entries(
    tables: MemoryTablesView,
    scope: MemoryScope,
    scope_id: Seq<char>,
) -> Result<Seq<MemoryEntryView>, MemoryErrorView> {
    entries_from(
        ordered(
            tables.entries.filter(entry_in_scope(scope_text(scope), scope_id)),
            newer_first(),
        ),
        tables.evidence,
    )
}

/// The view of a result that may hold a value.
pub open spec fn optional_result<T: View>(result: Result<Option<T>, MemoryError>) -> Result<
    Option<T::V>,
    MemoryErrorView,
> {
    match result {
        Ok(value) => Ok(opt_view(value)),
        Err(error) => Err(error@),
    }
}

/// The view of a result that holds a list.
pub open spec fn list_result<T: View>(result: Result<Vec<T>, MemoryError>) -> Result<
    Seq<T::V>,
    MemoryErrorView,
> {
    match result {
        Ok(values) => Ok(views(values@)),
        Err(error) => Err(error@),
    }
}

fn optional_item_id(text: &Option<String>) -> (result: Option<ItemId>)
    ensures
        opt_view(result) == opt_view(*text),
{
    match text {
        Some(text) => Some(ItemId::from_string(text.clone())),
        None => None,
    }
}

fn optional_entry_id(text: &Option<String>) -> (result: Option<MemoryEntryId>)
    ensures
        opt_view(result) == opt_view(*text),
{
    match text {
        Some(text) => Some(MemoryEntryId::from_string(text.clone())),
        None => None,
    }
}

/// Reads the sources of an entry.
pub fn load_provenance(evidence: &Vec<EvidenceRow>, entry_id: &str) -> (result: Vec<
    MemoryProvenance,
>)
    ensures
        views(result@) == sources_of(views(evidence@), entry_id@),
{
    let rows = select_evidence(evidence, entry_id);
    let mut result: Vec<MemoryProvenance> = Vec::new();
    let mut i: usize = 0;
    while i < rows.len()
        invariant
            i <= rows.len(),
            result.len() == i,
            forall|j: int| 0 <= j < i ==> (#[trigger] result@[j])@ == provenance_of(rows@[j]@),
        decreases rows.len() - i,
    {
        result.push(
            MemoryProvenance {
                source_session_id: Some(rows[i].session_id.clone()),
                source_turn_id: rows[i].turn_id.clone(),
                source_user_item_id: optional_item_id(&rows[i].source_user_item_id),
            },
        );
        i = i + 1;
    }
    assert(views(result@) =~= sources_of(views(evidence@), entry_id@));
    result
}

/// Reads the entry that a row stands for.
pub fn entry_from_row(row: &EntryRow, evidence: &Vec<EvidenceRow>) -> (result: Result<
    MemoryEntry,
    MemoryError,
>)
    ensures
        match result {
            Ok(entry) => entry_from(row@, views(evidence@)) == Ok::<
                MemoryEntryView,
                MemoryErrorView,
            >(entry@),
            Err(error) => entry_from(row@, views(evidence@)) == Err::<
                MemoryEntryView,
                MemoryErrorView,
            >(error@),
        },
{
    let provenance = load_provenance(evidence, row.entry_id.as_str());
    let scope = match parse_scope(row.scope_type.as_str()) {
        Ok(scope) => scope,
        Err(error) => return Err(error),
    };
    let kind = match parse_kind(row.kind.as_str()) {
        Ok(kind) => kind,
        Err(error) => return Err(error),
    };
    let origin = match parse_origin(row.origin.as_str()) {
        Ok(origin) => origin,
        Err(error) => return Err(error),
    };
    let state = match parse_state(row.state.as_str()) {
        Ok(state) => state,
        Err(error) => return Err(error),
    };
    let created_at = match parse_timestamp(row.created_at.as_str()) {
        Ok(created_at) => created_at,
        Err(error) => return Err(error),
    };
    let updated_at = match parse_timestamp(row.updated_at.as_str()) {
        Ok(updated_at) => updated_at,
        Err(error) => return Err(error),
    };
    Ok(
        MemoryEntry {
            entry_id: MemoryEntryId::from_string(row.entry_id.clone()),
            scope,
            scope_id: row.scope_id.clone(),
            kind,
            normalized_key: row.normalized_key.clone(),
            body: row.body.clone(),
            origin,
            state,
            created_at,
            updated_at,
            replacement_entry_id: optional_entry_id(&row.replacement_entry_id),
            provenance,
        },
    )
}

/// Reads the entry with an ID, if it is stored.
pub fn load_entry(tables: &MemoryTables, entry_id: &MemoryEntryId) -> (result: Result<
    Option<MemoryEntry>,
    MemoryError,
>)
    ensures
        optional_result(result) == stored_entry(tables@, entry_id@),
{
    match find_entry(&tables.entries, entry_id.as_str()) {
        None => Ok(None),
        Some(i) => {
            assert(views(tables.entries@)[i as int] == tables.entries@[i as int]@);
            match entry_from_row(&tables.entries[i], &tables.evidence) {
                Ok(entry) => Ok(Some(entry)),
                Err(error) => Err(error),
            }
        },
    }
}

/// Reads the entries that rows stand for.
pub fn load_rows(rows: &Vec<EntryRow>, evidence: &Vec<EvidenceRow>) -> (result: Result<
    Vec<MemoryEntry>,
    MemoryError,
>)
    ensures
        list_result(result) == entries_from(views(rows@), views(evidence@)),
{
    let mut entries: Vec<MemoryEntry> = Vec::new();
    let mut i: usize = 0;
    let ghost all = views(rows@);
    assert(views(entries@) =~= Seq::<MemoryEntryView>::empty());
    while i < rows.len()
        invariant
            i <= rows.len(),
            all == views(rows@),
            entries_from(all.take(i as int), views(evidence@)) == Ok::<
                Seq<MemoryEntryView>,
                MemoryErrorView,
            >(views(entries@)),
        decreases rows.len() - i,
    {
        let ghost next = all.take(i + 1);
        assert(next.drop_last() =~= all.take(i as int));
        assert(next.last() == rows@[i as int]@);
        match entry_from_row(&rows[i], evidence) {
            Ok(entry) => {
                let ghost before = views(entries@);
                let ghost added = entry@;
                entries.push(entry);
                assert(views(entries@) =~= before.push(added));
            },
            Err(error) => {
                proof {
                    lemma_entries_from_fails(all, views(evidence@), i + 1);
                }
                return Err(error);
            },
        }
        i = i + 1;
    }
    assert(all.take(rows.len() as int) =~= all);
    Ok(entries)
}

proof fn lemma_entries_from_fails(rows: Seq<EntryRowView>, evidence: Seq<EvidenceRowView>, at: int)
    requires
        0 <= at <= rows.len(),
        entries_from(rows.take(at), evidence) is Err,
    ensures
        entries_from(rows, evidence) == entries_from(rows.take(at), evidence),
    decreases rows.len(),
{
    if at == rows.len() {
        assert(rows.take(at) =~= rows);
    } else {
        let front = rows.drop_last();
        assert(front.take(at) =~= rows.take(at));
        lemma_entries_from_fails(front, evidence, at);
    }
}

/// Reads the entries of a scope, newest first.
pub fn load_scope_entries(tables: &MemoryTables, scope: MemoryScope, scope_id: &str) -> (result:
    Result<Vec<MemoryEntry>, MemoryError>)
    ensures
        list_result(result) == scope_entries(tables@, scope, scope_id@),
{
    let rows = select_scope(&tables.entries, scope_name(scope), scope_id);
    load_rows(&rows, &tables.evidence)
}

// ---------------------------------------------------------------------------
// Laws.
// ---------------------------------------------------------------------------
/// In a well-formed store a lookup by ID or by identity finds the one row that
/// there is.
pub proof fn law_lookups_are_exact(tables: MemoryTablesView, i: int)
    requires
        tables.well_formed(),
        0 <= i < tables.entries.len(),
    ensures
        first_row(tables.entries, entry_is(tables.entries[i].entry_id)) == Some(tables.entries[i]),
        first_row(
            tables.entries,
            identity_is(
                tables.entries[i].scope_type,
                tables.entries[i].scope_id,
                tables.entries[i].normalized_key,
            ),
        ) == Some(tables.entries[i]),
{
    let row = tables.entries[i];
    assert forall|j: int| 0 <= j < i implies !entry_is(row.entry_id)(
        #[trigger] tables.entries[j],
    ) by {}
    lemma_is_first_match(tables.entries, entry_is(row.entry_id), i);
    let accepts = identity_is(row.scope_type, row.scope_id, row.normalized_key);
    assert forall|j: int| 0 <= j < i implies !accepts(#[trigger] tables.entries[j]) by {
        assert(!same_identity(tables.entries[j], tables.entries[i]));
    }
    lemma_is_first_match(tables.entries, accepts, i);
}

/// Whether a key of two texts comes before another, by its first text and then
/// by its second.
spec fn pair_less(a: (Seq<char>, Seq<char>), b: (Seq<char>, Seq<char>)) -> bool {
    text_less(a.0, b.0) || (a.0 == b.0 && text_less(a.1, b.1))
}

proof fn lemma_pair_order(
    a: (Seq<char>, Seq<char>),
    b: (Seq<char>, Seq<char>),
    c: (Seq<char>, Seq<char>),
)
    ensures
        pair_less(a, b) ==> !pair_less(b, a),
        !pair_less(a, b) && !pair_less(b, c) ==> !pair_less(a, c),
{
    law_text_order(a.0, b.0, a.0);
    law_text_order(a.1, b.1, a.1);
    law_text_order(c.0, b.0, a.0);
    law_text_order(c.1, b.1, a.1);
    law_text_order(b.0, c.0, b.0);
    law_text_order(b.1, c.1, b.1);
    law_text_order(a.0, c.0, a.0);
    law_text_order(a.1, c.1, a.1);
}

/// Both reading orders are orders, so what is read in them is truly ordered.
pub proof fn law_reading_orders(entries: Seq<EntryRowView>, evidence: Seq<EvidenceRowView>)
    ensures
        is_ordered(ordered(entries, newer_first()), newer_first()),
        ordered(entries, newer_first()).to_multiset() == entries.to_multiset(),
        is_ordered(ordered(evidence, observed_before()), observed_before()),
        ordered(evidence, observed_before()).to_multiset() == evidence.to_multiset(),
{
    let newer = newer_first();
    assert forall|a: EntryRowView, b: EntryRowView| #[trigger] newer(a, b) implies !newer(b, a) by {
        law_text_order(a.updated_at, b.updated_at, a.updated_at);
        law_text_order(b.updated_at, a.updated_at, b.updated_at);
        law_text_order(a.entry_id, b.entry_id, a.entry_id);
    }
    assert forall|a: EntryRowView, b: EntryRowView, c: EntryRowView|
        !#[trigger] newer(a, b) && !#[trigger] newer(b, c) implies !newer(a, c) by {
        law_text_order(a.updated_at, b.updated_at, c.updated_at);
        law_text_order(c.updated_at, b.updated_at, a.updated_at);
        law_text_order(b.updated_at, c.updated_at, a.updated_at);
        law_text_order(a.updated_at, c.updated_at, b.updated_at);
        law_text_order(c.entry_id, b.entry_id, a.entry_id);
        law_text_order(a.entry_id, b.entry_id, c.entry_id);
        law_text_order(b.entry_id, c.entry_id, a.entry_id);
        law_text_order(a.entry_id, c.entry_id, b.entry_id);
    }
    law_ordered(entries, newer);
    let observed = observed_before();
    assert forall|a: EvidenceRowView, b: EvidenceRowView| #[trigger]
        observed(a, b) implies !observed(b, a) by {
        lemma_pair_order(
            (a.observed_at, a.evidence_id),
            (b.observed_at, b.evidence_id),
            (a.observed_at, a.evidence_id),
        );
    }
    assert forall|a: EvidenceRowView, b: EvidenceRowView, c: EvidenceRowView|
        !#[trigger] observed(a, b) && !#[trigger] observed(b, c) implies !observed(a, c) by {
        lemma_pair_order(
            (a.observed_at, a.evidence_id),
            (b.observed_at, b.evidence_id),
            (c.observed_at, c.evidence_id),
        );
    }
    law_ordered(evidence, observed);
}

} // verus!
