//! Entries that turn out to be the same: finding them and merging them.

use vstd::prelude::*;

use crate::entries::{drop_index_row, index_row_of_other, MemoryEntryIdentity};
use crate::memory_error::MemoryError;
use crate::rows::{
    all_pairs, insert_ordered, lemma_filter_holds, lemma_filter_keeps_pairs, lemma_filter_take,
    lemma_insert_position, ordered,
};
use crate::rpc_memory::{MemoryOrigin, MemoryScope};
use crate::store::{has_entry, same_identity};
use crate::stored_values::{origin_of, parse_origin, scope_name, scope_text};
use crate::tables::{
    EntryRow, EntryRowView, EvidenceRow, EvidenceRowView, MemoryTables, MemoryTablesView,
};
use crate::text::{less, same_optional_text, same_text, text_less, views};

verus! {

/// An entry that has an identity already.
#[derive(Debug, PartialEq, Eq)]
pub struct ExistingMemoryEntry {
    pub entry_id: String,
    pub origin: MemoryOrigin,
}

/// Whether an entry has one of two keys in a scope: the canonical one, or, if it
/// was inferred, the one of older stores.
pub open spec fn has_either_key(
    row: EntryRowView,
    scope: Seq<char>,
    scope_id: Seq<char>,
    canonical: Seq<char>,
    legacy: Seq<char>,
) -> bool {
    &&& row.scope_type == scope
    &&& row.scope_id == scope_id
    &&& row.normalized_key == canonical || (row.normalized_key == legacy && row.origin
        == "inferred_session"@)
}

/// Accepts the entries with one of two keys in a scope.
pub open spec fn either_key_is(
    scope: Seq<char>,
    scope_id: Seq<char>,
    canonical: Seq<char>,
    legacy: Seq<char>,
) -> spec_fn(EntryRowView) -> bool {
    |row: EntryRowView| has_either_key(row, scope, scope_id, canonical, legacy)
}

/// The canonical key comes first, then the IDs decide.
pub open spec fn canonical_first(canonical: Seq<char>) -> spec_fn(
    EntryRowView,
    EntryRowView,
) -> bool {
    |a: EntryRowView, b: EntryRowView|
        {
            ||| a.normalized_key == canonical && b.normalized_key != canonical
            ||| (a.normalized_key == canonical) == (b.normalized_key == canonical) && text_less(
                a.entry_id,
                b.entry_id,
            )
        }
}

/// The entries with one of two keys in a scope; the first is the one to keep.
pub open spec fn same_entries(
    entries: Seq<EntryRowView>,
    scope: Seq<char>,
    scope_id: Seq<char>,
    canonical: Seq<char>,
    legacy: Seq<char>,
) -> Seq<EntryRowView> {
    ordered(
        entries.filter(either_key_is(scope, scope_id, canonical, legacy)),
        canonical_first(canonical),
    )
}

/// Whether two pieces of evidence come from the same source.
pub open spec fn same_source(a: EvidenceRowView, b: EvidenceRowView) -> bool {
    a.session_id == b.session_id && a.turn_id == b.turn_id && a.source_user_item_id
        == b.source_user_item_id
}

/// Whether an entry has evidence from the source of a piece of evidence.
pub open spec fn source_is_known(
    evidence: Seq<EvidenceRowView>,
    entry_id: Seq<char>,
    row: EvidenceRowView,
) -> bool {
    exists|i: int|
        0 <= i < evidence.len() && (#[trigger] evidence[i]).entry_id == entry_id && same_source(
            evidence[i],
            row,
        )
}

/// Accepts the evidence that outlives a merge: all but the evidence of the
/// duplicate whose source the keeper knows already.
pub open spec fn outlives_merge(
    evidence: Seq<EvidenceRowView>,
    keeper: Seq<char>,
    duplicate: Seq<char>,
) -> spec_fn(EvidenceRowView) -> bool {
    |row: EvidenceRowView|
        !(row.entry_id == duplicate && source_is_known(evidence, keeper, row))
}

/// Evidence of the duplicate becomes evidence of the keeper.
pub open spec fn moved_evidence(
    row: EvidenceRowView,
    keeper: Seq<char>,
    duplicate: Seq<char>,
) -> EvidenceRowView {
    if row.entry_id == duplicate {
        EvidenceRowView { entry_id: keeper, ..row }
    } else {
        row
    }
}

/// An entry that the duplicate replaced is replaced by the keeper.
pub open spec fn redirected(
    row: EntryRowView,
    keeper: Seq<char>,
    duplicate: Seq<char>,
) -> EntryRowView {
    if row.replacement_entry_id == Some(duplicate) {
        EntryRowView { replacement_entry_id: Some(keeper), ..row }
    } else {
        row
    }
}

/// Accepts all entries but one.
pub open spec fn entry_is_other(entry_id: Seq<char>) -> spec_fn(EntryRowView) -> bool {
    |row: EntryRowView| row.entry_id != entry_id
}

/// The store once a duplicate is merged into its keeper.
pub open spec fn merged(
    tables: MemoryTablesView,
    keeper: Seq<char>,
    duplicate: Seq<char>,
) -> MemoryTablesView {
    MemoryTablesView {
        entries: tables.entries.map_values(
            |row: EntryRowView| redirected(row, keeper, duplicate),
        ).filter(entry_is_other(duplicate)),
        evidence: tables.evidence.filter(
            outlives_merge(tables.evidence, keeper, duplicate),
        ).map_values(|row: EvidenceRowView| moved_evidence(row, keeper, duplicate)),
        index: tables.index.filter(index_row_of_other(duplicate)),
        ..tables
    }
}

/// The store once all rows but the first are merged into the first.
pub open spec fn all_merged(
    tables: MemoryTablesView,
    rows: Seq<EntryRowView>,
) -> MemoryTablesView
    decreases rows.len(),
{
    if rows.len() <= 1 {
        tables
    } else {
        merged(all_merged(tables, rows.drop_last()), rows[0].entry_id, rows.last().entry_id)
    }
}

/// An entry that replaces itself is not replaced.
pub open spec fn without_self_replacement(row: EntryRowView) -> EntryRowView {
    if row.replacement_entry_id == Some(row.entry_id) {
        EntryRowView { replacement_entry_id: None, ..row }
    } else {
        row
    }
}

/// The store in which no entry replaces itself.
pub open spec fn without_self_replacements(tables: MemoryTablesView) -> MemoryTablesView {
    MemoryTablesView {
        entries: tables.entries.map_values(|row: EntryRowView| without_self_replacement(row)),
        ..tables
    }
}

// ---------------------------------------------------------------------------
// Merging.
// ---------------------------------------------------------------------------
fn redirect_replacements(entries: &mut Vec<EntryRow>, keeper: &str, duplicate: &str)
    ensures
        views(final(entries)@) == views(old(entries)@).map_values(
            |row: EntryRowView| redirected(row, keeper@, duplicate@),
        ),
{
    let ghost before = views(entries@);
    let mut i: usize = 0;
    while i < entries.len()
        invariant
            i <= entries.len(),
            entries.len() == before.len(),
            forall|j: int|
                0 <= j < i ==> (#[trigger] entries@[j])@ == redirected(
                    before[j],
                    keeper@,
                    duplicate@,
                ),
            forall|j: int| i <= j < entries.len() ==> (#[trigger] entries@[j])@ == before[j],
        decreases entries.len() - i,
    {
        assert(entries@[i as int]@ == before[i as int]);
        let hit = match &entries[i].replacement_entry_id {
            Some(replacement) => same_text(replacement.as_str(), duplicate),
            None => false,
        };
        if hit {
            let mut row = entries[i].clone();
            row.replacement_entry_id = Some(keeper.to_string());
            entries.set(i, row);
        }
        i = i + 1;
    }
    assert(views(entries@) =~= before.map_values(
        |row: EntryRowView| redirected(row, keeper@, duplicate@),
    ));
}

fn drop_entry(entries: &mut Vec<EntryRow>, entry_id: &str)
    ensures
        views(final(entries)@) == views(old(entries)@).filter(entry_is_other(entry_id@)),
{
    let ghost rows = views(entries@);
    let ghost accepts = entry_is_other(entry_id@);
    let mut kept: Vec<EntryRow> = Vec::new();
    let mut i: usize = 0;
    assert(rows.take(0).filter(accepts) =~= Seq::<EntryRowView>::empty()) by {
        reveal(Seq::filter);
    }
    assert(views(kept@) =~= Seq::<EntryRowView>::empty());
    while i < entries.len()
        invariant
            i <= entries.len(),
            rows == views(entries@),
            accepts == entry_is_other(entry_id@),
            views(kept@) == rows.take(i as int).filter(accepts),
        decreases entries.len() - i,
    {
        assert(rows[i as int] == entries@[i as int]@);
        proof {
            lemma_filter_take(rows, i as int, accepts);
        }
        if !same_text(entries[i].entry_id.as_str(), entry_id) {
            let ghost before = views(kept@);
            kept.push(entries[i].clone());
            assert(views(kept@) =~= before.push(rows[i as int]));
        }
        i = i + 1;
    }
    assert(rows.take(entries.len() as int) =~= rows);
    *entries = kept;
}

fn knows_source(evidence: &Vec<EvidenceRow>, entry_id: &str, row: &EvidenceRow) -> (result: bool)
    ensures
        result == source_is_known(views(evidence@), entry_id@, row@),
{
    let ghost rows = views(evidence@);
    let mut i: usize = 0;
    while i < evidence.len()
        invariant
            i <= evidence.len(),
            rows == views(evidence@),
            forall|j: int|
                0 <= j < i ==> !((#[trigger] rows[j]).entry_id == entry_id@ && same_source(
                    rows[j],
                    row@,
                )),
        decreases evidence.len() - i,
    {
        assert(rows[i as int] == evidence@[i as int]@);
        if same_text(evidence[i].entry_id.as_str(), entry_id) && same_text(
            evidence[i].session_id.as_str(),
            row.session_id.as_str(),
        ) && same_optional_text(&evidence[i].turn_id, &row.turn_id) && same_optional_text(
            &evidence[i].source_user_item_id,
            &row.source_user_item_id,
        ) {
            return true;
        }
        i = i + 1;
    }
    false
}

fn merge_evidence(evidence: &mut Vec<EvidenceRow>, keeper: &str, duplicate: &str)
    ensures
        views(final(evidence)@) == views(old(evidence)@).filter(
            outlives_merge(views(old(evidence)@), keeper@, duplicate@),
        ).map_values(|row: EvidenceRowView| moved_evidence(row, keeper@, duplicate@)),
{
    let ghost rows = views(evidence@);
    let ghost accepts = outlives_merge(rows, keeper@, duplicate@);
    let ghost mover = |row: EvidenceRowView| moved_evidence(row, keeper@, duplicate@);
    let mut kept: Vec<EvidenceRow> = Vec::new();
    let mut i: usize = 0;
    assert(rows.take(0).filter(accepts) =~= Seq::<EvidenceRowView>::empty()) by {
        reveal(Seq::filter);
    }
    assert(views(kept@) =~= rows.take(0).filter(accepts).map_values(mover));
    while i < evidence.len()
        invariant
            i <= evidence.len(),
            rows == views(evidence@),
            accepts == outlives_merge(rows, keeper@, duplicate@),
            mover == (|row: EvidenceRowView| moved_evidence(row, keeper@, duplicate@)),
            views(kept@) == rows.take(i as int).filter(accepts).map_values(mover),
        decreases evidence.len() - i,
    {
        assert(rows[i as int] == evidence@[i as int]@);
        proof {
            lemma_filter_take(rows, i as int, accepts);
        }
        let of_duplicate = same_text(evidence[i].entry_id.as_str(), duplicate);
        if !(of_duplicate && knows_source(evidence, keeper, &evidence[i])) {
            let ghost before = views(kept@);
            let ghost chosen = rows.take(i as int).filter(accepts);
            let mut row = evidence[i].clone();
            if of_duplicate {
                row.entry_id = keeper.to_string();
            }
            assert(row@ == moved_evidence(rows[i as int], keeper@, duplicate@));
            let ghost added = row@;
            kept.push(row);
            assert(views(kept@) =~= before.push(added));
            assert(chosen.push(rows[i as int]).map_values(mover) =~= before.push(added));
        }
        i = i + 1;
    }
    assert(rows.take(evidence.len() as int) =~= rows);
    *evidence = kept;
}

/// Merges a duplicate into its keeper.
pub fn merge_into(tables: &mut MemoryTables, keeper: &str, duplicate: &str)
    ensures
        final(tables)@ == merged(old(tables)@, keeper@, duplicate@),
{
    let ghost before = tables@;
    redirect_replacements(&mut tables.entries, keeper, duplicate);
    merge_evidence(&mut tables.evidence, keeper, duplicate);
    drop_index_row(&mut tables.index, duplicate);
    drop_entry(&mut tables.entries, duplicate);
    assert(tables@ == merged(before, keeper@, duplicate@));
}

/// Clears the replacement of entries that replace themselves.
pub fn clear_self_replacements(entries: &mut Vec<EntryRow>)
    ensures
        views(final(entries)@) == views(old(entries)@).map_values(
            |row: EntryRowView| without_self_replacement(row),
        ),
{
    let ghost before = views(entries@);
    let mut i: usize = 0;
    while i < entries.len()
        invariant
            i <= entries.len(),
            entries.len() == before.len(),
            forall|j: int|
                0 <= j < i ==> (#[trigger] entries@[j])@ == without_self_replacement(before[j]),
            forall|j: int| i <= j < entries.len() ==> (#[trigger] entries@[j])@ == before[j],
        decreases entries.len() - i,
    {
        assert(entries@[i as int]@ == before[i as int]);
        let itself = match &entries[i].replacement_entry_id {
            Some(replacement) => same_text(replacement.as_str(), entries[i].entry_id.as_str()),
            None => false,
        };
        if itself {
            let mut row = entries[i].clone();
            row.replacement_entry_id = None;
            entries.set(i, row);
        }
        i = i + 1;
    }
    assert(views(entries@) =~= before.map_values(
        |row: EntryRowView| without_self_replacement(row),
    ));
}

fn comes_first(a: &EntryRow, b: &EntryRow, canonical: &str) -> (result: bool)
    ensures
        result == canonical_first(canonical@)(a@, b@),
{
    let a_canonical = same_text(a.normalized_key.as_str(), canonical);
    let b_canonical = same_text(b.normalized_key.as_str(), canonical);
    (a_canonical && !b_canonical) || (a_canonical == b_canonical && less(
        a.entry_id.as_str(),
        b.entry_id.as_str(),
    ))
}

fn place_canonical(rows: &mut Vec<EntryRow>, row: EntryRow, canonical: &str)
    ensures
        views(final(rows)@) == insert_ordered(
            views(old(rows)@),
            row@,
            canonical_first(canonical@),
        ),
{
    let ghost before = canonical_first(canonical@);
    let ghost placed = views(rows@);
    let mut at: usize = rows.len();
    while at > 0 && comes_first(&row, &rows[at - 1], canonical)
        invariant
            at <= rows.len(),
            placed == views(rows@),
            before == canonical_first(canonical@),
            forall|k: int| at <= k < rows.len() ==> before(row@, #[trigger] placed[k]),
        decreases at,
    {
        assert(placed[at - 1] == rows@[at - 1]@);
        at = at - 1;
    }
    proof {
        if at > 0 {
            assert(placed[at - 1] == rows@[at - 1]@);
        }
        lemma_insert_position(placed, row@, before, at as int);
    }
    let ghost added = row@;
    rows.insert(at, row);
    assert(views(rows@) =~= placed.insert(at as int, added));
}

fn select_same(
    entries: &Vec<EntryRow>,
    scope: &str,
    scope_id: &str,
    canonical: &str,
    legacy: &str,
) -> (result: Vec<EntryRow>)
    ensures
        views(result@) == same_entries(views(entries@), scope@, scope_id@, canonical@, legacy@),
{
    let ghost rows = views(entries@);
    let ghost accepts = either_key_is(scope@, scope_id@, canonical@, legacy@);
    let mut result: Vec<EntryRow> = Vec::new();
    let mut i: usize = 0;
    assert(rows.take(0).filter(accepts) =~= Seq::<EntryRowView>::empty()) by {
        reveal(Seq::filter);
    }
    assert(views(result@) =~= Seq::<EntryRowView>::empty());
    while i < entries.len()
        invariant
            i <= entries.len(),
            rows == views(entries@),
            accepts == either_key_is(scope@, scope_id@, canonical@, legacy@),
            views(result@) == ordered(
                rows.take(i as int).filter(accepts),
                canonical_first(canonical@),
            ),
        decreases entries.len() - i,
    {
        assert(rows[i as int] == entries@[i as int]@);
        proof {
            lemma_filter_take(rows, i as int, accepts);
        }
        if same_text(entries[i].scope_type.as_str(), scope) && same_text(
            entries[i].scope_id.as_str(),
            scope_id,
        ) && (same_text(entries[i].normalized_key.as_str(), canonical) || (same_text(
            entries[i].normalized_key.as_str(),
            legacy,
        ) && same_text(entries[i].origin.as_str(), "inferred_session"))) {
            let ghost chosen = rows.take(i as int).filter(accepts);
            assert(chosen.push(rows[i as int]).drop_last() =~= chosen);
            place_canonical(&mut result, entries[i].clone(), canonical);
        }
        i = i + 1;
    }
    assert(rows.take(entries.len() as int) =~= rows);
    result
}

impl MemoryEntryIdentity {
    /// Finds the entry that has one of the keys in a scope. Where there are more,
    /// they are merged into the first. If the origin of the entry has no meaning,
    /// the store stays as it is.
    pub fn resolve_and_merge_existing(
        &self,
        tables: &mut MemoryTables,
        scope: MemoryScope,
        scope_id: &str,
    ) -> (result: Result<Option<ExistingMemoryEntry>, MemoryError>)
        ensures
            ({
                let rows = same_entries(
                    old(tables)@.entries,
                    scope_text(scope),
                    scope_id@,
                    self.canonical_key@,
                    self.legacy_inferred_key@,
                );
                if rows.len() == 0 {
                    &&& result matches Ok(found)
                    &&& found is None
                    &&& final(tables)@ == old(tables)@
                } else {
                    match origin_of(rows[0].origin) {
                        Ok(origin) => {
                            &&& result matches Ok(Some(existing))
                            &&& existing.entry_id@ == rows[0].entry_id
                            &&& existing.origin == origin
                            &&& final(tables)@ == without_self_replacements(
                                all_merged(old(tables)@, rows),
                            )
                        },
                        Err(refusal) => {
                            &&& result matches Err(error)
                            &&& error@ == refusal
                            &&& final(tables)@ == old(tables)@
                        },
                    }
                }
            }),
    {
        let rows = select_same(
            &tables.entries,
            scope_name(scope),
            scope_id,
            self.canonical_key.as_str(),
            self.legacy_inferred_key.as_str(),
        );
        let ghost all = views(rows@);
        let ghost before = tables@;
        assert(all.len() == rows.len());
        if rows.len() == 0 {
            return Ok(None);
        }
        assert(all[0] == rows@[0]@);
        let origin = match parse_origin(rows[0].origin.as_str()) {
            Ok(origin) => origin,
            Err(error) => return Err(error),
        };
        let mut i: usize = 1;
        while i < rows.len()
            invariant
                1 <= i <= rows.len(),
                all == views(rows@),
                tables@ == all_merged(before, all.take(i as int)),
            decreases rows.len() - i,
        {
            let ghost next = all.take(i + 1);
            assert(next.drop_last() =~= all.take(i as int));
            assert(next.last() == rows@[i as int]@);
            assert(next[0] == rows@[0]@);
            merge_into(tables, rows[0].entry_id.as_str(), rows[i].entry_id.as_str());
            i = i + 1;
        }
        assert(all.take(rows.len() as int) =~= all);
        clear_self_replacements(&mut tables.entries);
        assert(tables@ == without_self_replacements(all_merged(before, all)));
        Ok(Some(ExistingMemoryEntry { entry_id: rows[0].entry_id.clone(), origin }))
    }
}

/// Merging keeps the constraints of the store, takes exactly the duplicate out of
/// it, and loses no source: whatever had the keeper or the duplicate as witness
/// has the keeper as witness.
pub proof fn law_merging(
    tables: MemoryTablesView,
    keeper: Seq<char>,
    duplicate: Seq<char>,
    row: EvidenceRowView,
)
    requires
        tables.well_formed(),
        has_entry(tables.entries, keeper),
        keeper != duplicate,
    ensures
        merged(tables, keeper, duplicate).well_formed(),
        !has_entry(merged(tables, keeper, duplicate).entries, duplicate),
        forall|id: Seq<char>|
            id != duplicate && has_entry(tables.entries, id) ==> #[trigger] has_entry(
                merged(tables, keeper, duplicate).entries,
                id,
            ),
        tables.evidence.contains(row) && (row.entry_id == keeper || row.entry_id == duplicate)
            ==> source_is_known(merged(tables, keeper, duplicate).evidence, keeper, row),
{
    let after = merged(tables, keeper, duplicate);
    let redirect = |row: EntryRowView| redirected(row, keeper, duplicate);
    let rows = tables.entries.map_values(redirect);
    let differ = |a: EntryRowView, b: EntryRowView| a.entry_id != b.entry_id && !same_identity(a, b);
    assert(all_pairs(rows, differ)) by {
        assert forall|i: int, j: int| 0 <= i < j < rows.len() implies differ(
            #[trigger] rows[i],
            #[trigger] rows[j],
        ) by {
            assert(tables.entries[i].entry_id != tables.entries[j].entry_id);
            assert(!same_identity(tables.entries[i], tables.entries[j]));
        }
    }
    lemma_filter_keeps_pairs(rows, entry_is_other(duplicate), differ);
    assert forall|i: int, j: int| 0 <= i < j < after.entries.len() implies (
    #[trigger] after.entries[i]).entry_id != (#[trigger] after.entries[j]).entry_id
        && !same_identity(after.entries[i], after.entries[j]) by {
        assert(differ(after.entries[i], after.entries[j]));
    }
    lemma_filter_holds(rows, entry_is_other(duplicate));
    assert forall|id: Seq<char>|
        id != duplicate && has_entry(tables.entries, id) implies #[trigger] has_entry(
        after.entries,
        id,
    ) by {
        let i = choose|i: int|
            0 <= i < tables.entries.len() && (#[trigger] tables.entries[i]).entry_id == id;
        assert(rows[i].entry_id == id);
        assert(rows.contains(rows[i]));
        assert(after.entries.contains(rows[i]));
        let k = choose|k: int| 0 <= k < after.entries.len() && after.entries[k] == rows[i];
        assert(after.entries[k].entry_id == id);
    }
    assert(!has_entry(after.entries, duplicate)) by {
        if has_entry(after.entries, duplicate) {
            let k = choose|k: int|
                0 <= k < after.entries.len() && (#[trigger] after.entries[k]).entry_id
                    == duplicate;
            assert(after.entries.contains(after.entries[k]));
            assert(entry_is_other(duplicate)(after.entries[k]));
        }
    }
    let accepts = outlives_merge(tables.evidence, keeper, duplicate);
    let kept = tables.evidence.filter(accepts);
    let move_row = |row: EvidenceRowView| moved_evidence(row, keeper, duplicate);
    let ids_differ = |a: EvidenceRowView, b: EvidenceRowView| a.evidence_id != b.evidence_id;
    assert(all_pairs(tables.evidence, ids_differ));
    lemma_filter_keeps_pairs(tables.evidence, accepts, ids_differ);
    lemma_filter_holds(tables.evidence, accepts);
    assert forall|i: int, j: int| 0 <= i < j < after.evidence.len() implies (
    #[trigger] after.evidence[i]).evidence_id != (#[trigger] after.evidence[j]).evidence_id by {
        assert(ids_differ(kept[i], kept[j]));
    }
    assert forall|i: int| 0 <= i < after.evidence.len() implies has_entry(
        after.entries,
        (#[trigger] after.evidence[i]).entry_id,
    ) by {
        assert(kept.contains(kept[i]));
        assert(tables.evidence.contains(kept[i]));
        let k = choose|k: int| 0 <= k < tables.evidence.len() && tables.evidence[k] == kept[i];
        assert(has_entry(tables.entries, tables.evidence[k].entry_id));
        assert(after.evidence[i] == moved_evidence(kept[i], keeper, duplicate));
    }
    if tables.evidence.contains(row) && (row.entry_id == keeper || row.entry_id == duplicate) {
        let witness = if accepts(row) {
            row
        } else {
            let i = choose|i: int|
                0 <= i < tables.evidence.len() && (#[trigger] tables.evidence[i]).entry_id
                    == keeper && same_source(tables.evidence[i], row);
            tables.evidence[i]
        };
        assert(tables.evidence.contains(witness));
        assert(accepts(witness));
        assert(kept.contains(witness));
        let k = choose|k: int| 0 <= k < kept.len() && kept[k] == witness;
        assert(after.evidence[k] == moved_evidence(witness, keeper, duplicate));
        assert(after.evidence[k].entry_id == keeper && same_source(after.evidence[k], row));
    }
}

} // verus!
