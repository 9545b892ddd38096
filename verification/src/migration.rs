//! Re-keying the entries of an older store: explicit entries get the key of their
//! body, and entries that then share an identity become one.

use vstd::prelude::*;

use crate::entry_identity::{same_source, without_self_replacement};
use crate::equivalence::{explicit_memory_key, memory_key};
use crate::rows::{
    first_match, insert_ordered, lemma_filter_holds, lemma_filter_take, lemma_first_match,
    lemma_insert_position, ordered,
};
use crate::schema::{
    is_latest_restored, is_latest_revoked, law_united_revocation_is_latest,
    law_united_revocations_stay, law_uniting_revocations, restored_after_revoked, unite_revocations,
    united_rows,
};
use crate::store::{
    entry_ids_differ, entry_is, evidence_ids_differ, evidence_is_owned, find_entry, has_entry,
    identities_differ, revocation_ids_differ, revocation_is, revocations_differ, same_identity,
    same_revoked,
};
use crate::tables::{
    EntryRow, EntryRowView, EvidenceRow, EvidenceRowView, IndexRow, IndexRowView, MemoryTables,
    MemoryTablesView, RevocationRow, RevocationRowView,
};
use crate::text::{law_text_order, less, same_optional_text, same_text, text_less, views};

verus! {

// ---------------------------------------------------------------------------
// Groups.
// ---------------------------------------------------------------------------
/// The key that an entry has after the migration.
pub open spec fn new_key(row: EntryRowView) -> Seq<char> {
    if row.origin == "explicit_user"@ {
        memory_key(row.body)
    } else {
        row.normalized_key
    }
}

/// Whether two entries have the same identity after the migration.
pub open spec fn same_group(a: EntryRowView, b: EntryRowView) -> bool {
    a.scope_type == b.scope_type && a.scope_id == b.scope_id && new_key(a) == new_key(b)
}

/// Whether an entry was created before another; IDs decide between equals.
pub open spec fn older(a: EntryRowView, b: EntryRowView) -> bool {
    text_less(a.created_at, b.created_at) || (a.created_at == b.created_at && text_less(
        a.entry_id,
        b.entry_id,
    ))
}

/// Whether an entry was written after another; IDs decide between equals.
pub open spec fn fresher(a: EntryRowView, b: EntryRowView) -> bool {
    text_less(b.updated_at, a.updated_at) || (a.updated_at == b.updated_at && text_less(
        b.entry_id,
        a.entry_id,
    ))
}

/// The position of the oldest entry among an entry and those of its group that
/// stand among the first `n`.
pub open spec fn oldest_among(entries: Seq<EntryRowView>, i: int, n: nat) -> int
    decreases n,
{
    if n == 0 {
        i
    } else {
        let best = oldest_among(entries, i, (n - 1) as nat);
        if same_group(entries[n - 1], entries[i]) && older(entries[n - 1], entries[best]) {
            n - 1
        } else {
            best
        }
    }
}

/// The position of the entry that stays for the group of an entry: the oldest.
pub open spec fn keeper_of(entries: Seq<EntryRowView>, i: int) -> int {
    oldest_among(entries, i, entries.len())
}

/// The position of the entry written last among those of a group, or among those
/// of the group that the user wrote.
pub open spec fn freshest_among(
    entries: Seq<EntryRowView>,
    i: int,
    n: nat,
    explicit_only: bool,
) -> Option<int>
    decreases n,
{
    if n == 0 {
        None
    } else {
        let best = freshest_among(entries, i, (n - 1) as nat, explicit_only);
        let row = entries[n - 1];
        if same_group(row, entries[i]) && (explicit_only ==> row.origin == "explicit_user"@) {
            match best {
                Some(best) if fresher(entries[best], row) => Some(best),
                _ => Some(n - 1),
            }
        } else {
            best
        }
    }
}

/// The entry whose content stays for the group of an entry: the last that the user
/// wrote, or the last written at all.
pub open spec fn content_of(entries: Seq<EntryRowView>, i: int) -> EntryRowView {
    match freshest_among(entries, i, entries.len(), true) {
        Some(k) => entries[k],
        None => match freshest_among(entries, i, entries.len(), false) {
            Some(k) => entries[k],
            None => entries[i],
        },
    }
}

/// The ID of the entry that stays for the entry with an ID, if it is stored.
pub open spec fn kept_id(entries: Seq<EntryRowView>, entry_id: Seq<char>) -> Seq<char> {
    match first_match(entries, entry_is(entry_id)) {
        Some(i) => entries[keeper_of(entries, i)].entry_id,
        None => entry_id,
    }
}

/// What stays of a group: the identity and age of its oldest entry, the content of
/// its last.
pub open spec fn kept_row(entries: Seq<EntryRowView>, i: int) -> EntryRowView {
    let content = content_of(entries, i);
    without_self_replacement(
        EntryRowView {
            entry_id: entries[i].entry_id,
            scope_type: entries[i].scope_type,
            scope_id: entries[i].scope_id,
            kind: content.kind,
            normalized_key: new_key(entries[i]),
            body: content.body,
            origin: content.origin,
            state: content.state,
            created_at: entries[i].created_at,
            updated_at: content.updated_at,
            last_recalled_at: content.last_recalled_at,
            replacement_entry_id: match content.replacement_entry_id {
                Some(entry_id) => Some(kept_id(entries, entry_id)),
                None => None,
            },
            expires_at: content.expires_at,
        },
    )
}

/// The entries that stay of the first `n`.
pub open spec fn kept_rows(entries: Seq<EntryRowView>, n: nat) -> Seq<EntryRowView>
    decreases n,
{
    if n == 0 {
        Seq::empty()
    } else {
        let before = kept_rows(entries, (n - 1) as nat);
        if keeper_of(entries, n - 1) == n - 1 {
            before.push(kept_row(entries, n - 1))
        } else {
            before
        }
    }
}

// ---------------------------------------------------------------------------
// Evidence.
// ---------------------------------------------------------------------------
/// Where an entry stands when the evidence of its group is gathered: the entry
/// that stays first, then the others in their order.
pub open spec fn gathering_rank(entries: Seq<EntryRowView>, i: int) -> int {
    if keeper_of(entries, i) == i {
        -1
    } else {
        i
    }
}

/// Whether one piece of evidence makes another superfluous: both are about the
/// same group and from the same source, and it is gathered or observed first.
pub open spec fn supersedes(
    entries: Seq<EntryRowView>,
    a: EvidenceRowView,
    b: EvidenceRowView,
) -> bool {
    match (
        first_match(entries, entry_is(a.entry_id)),
        first_match(entries, entry_is(b.entry_id)),
    ) {
        (Some(i), Some(j)) => {
            let rank_a = gathering_rank(entries, i);
            let rank_b = gathering_rank(entries, j);
            &&& same_group(entries[i], entries[j])
            &&& same_source(a, b)
            &&& {
                ||| rank_a < rank_b
                ||| rank_a == rank_b && text_less(a.observed_at, b.observed_at)
                ||| rank_a == rank_b && a.observed_at == b.observed_at && text_less(
                    a.evidence_id,
                    b.evidence_id,
                )
            }
        },
        _ => false,
    }
}

/// Whether a piece of evidence is superfluous.
pub open spec fn is_superfluous(
    entries: Seq<EntryRowView>,
    evidence: Seq<EvidenceRowView>,
    row: EvidenceRowView,
) -> bool {
    exists|k: int| 0 <= k < evidence.len() && #[trigger] supersedes(entries, evidence[k], row)
}

/// The evidence that stays of the first `n` pieces.
pub open spec fn kept_evidence(
    entries: Seq<EntryRowView>,
    evidence: Seq<EvidenceRowView>,
    n: nat,
) -> Seq<EvidenceRowView>
    decreases n,
{
    if n == 0 {
        Seq::empty()
    } else {
        let before = kept_evidence(entries, evidence, (n - 1) as nat);
        let row = evidence[n - 1];
        if is_superfluous(entries, evidence, row) {
            before
        } else {
            before.push(EvidenceRowView { entry_id: kept_id(entries, row.entry_id), ..row })
        }
    }
}

// ---------------------------------------------------------------------------
// Revocations.
// ---------------------------------------------------------------------------
/// Accepts the entries whose key changes.
pub open spec fn key_changes() -> spec_fn(EntryRowView) -> bool {
    |row: EntryRowView| row.origin == "explicit_user"@ && row.normalized_key != new_key(row)
}

/// Identities are taken in the order of scope, scope ID and key.
pub open spec fn by_identity() -> spec_fn(EntryRowView, EntryRowView) -> bool {
    |a: EntryRowView, b: EntryRowView|
        {
            ||| text_less(a.scope_type, b.scope_type)
            ||| a.scope_type == b.scope_type && text_less(a.scope_id, b.scope_id)
            ||| a.scope_type == b.scope_type && a.scope_id == b.scope_id && text_less(
                a.normalized_key,
                b.normalized_key,
            )
        }
}

/// A revocation with the new key of its identity.
pub open spec fn rekeyed(row: RevocationRowView, entry: EntryRowView) -> RevocationRowView {
    if revocation_is(entry.scope_type, entry.scope_id, entry.normalized_key)(row) {
        RevocationRowView { normalized_key: new_key(entry), ..row }
    } else {
        row
    }
}

/// The revocations once identities got their new keys, one after the other.
pub open spec fn all_rekeyed(
    revocations: Seq<RevocationRowView>,
    changed: Seq<EntryRowView>,
) -> Seq<RevocationRowView>
    decreases changed.len(),
{
    if changed.len() == 0 {
        revocations
    } else {
        all_rekeyed(revocations, changed.drop_last()).map_values(
            |row: RevocationRowView| rekeyed(row, changed.last()),
        )
    }
}

/// The index of entries.
pub open spec fn index_of_entries(entries: Seq<EntryRowView>) -> Seq<IndexRowView> {
    entries.map_values(
        |row: EntryRowView|
            IndexRowView {
                entry_id: row.entry_id,
                normalized_key: row.normalized_key,
                body: row.body,
            },
    )
}

/// The store after the migration.
pub open spec fn migrated(tables: MemoryTablesView) -> MemoryTablesView {
    let entries = kept_rows(tables.entries, tables.entries.len());
    let rekeyed = all_rekeyed(
        tables.revocations,
        ordered(tables.entries.filter(key_changes()), by_identity()),
    );
    MemoryTablesView {
        entries,
        evidence: kept_evidence(tables.entries, tables.evidence, tables.evidence.len()),
        revocations: united_rows(rekeyed, rekeyed.len()),
        index: index_of_entries(entries),
        ..tables
    }
}

// ---------------------------------------------------------------------------
// Execution.
// ---------------------------------------------------------------------------
/// The new keys of entries, by their positions.
spec fn are_new_keys(keys: Seq<String>, entries: Seq<EntryRowView>) -> bool {
    &&& keys.len() == entries.len()
    &&& forall|i: int| 0 <= i < keys.len() ==> (#[trigger] keys[i])@ == new_key(entries[i])
}

fn compute_keys(entries: &Vec<EntryRow>) -> (result: Vec<String>)
    ensures
        are_new_keys(result@, views(entries@)),
{
    let ghost rows = views(entries@);
    let mut keys: Vec<String> = Vec::new();
    let mut i: usize = 0;
    while i < entries.len()
        invariant
            i <= entries.len(),
            rows == views(entries@),
            keys.len() == i,
            forall|j: int| 0 <= j < i ==> (#[trigger] keys@[j])@ == new_key(rows[j]),
        decreases entries.len() - i,
    {
        assert(rows[i as int] == entries@[i as int]@);
        let key = if same_text(entries[i].origin.as_str(), "explicit_user") {
            explicit_memory_key(entries[i].body.as_str())
        } else {
            entries[i].normalized_key.clone()
        };
        keys.push(key);
        i = i + 1;
    }
    keys
}

fn in_same_group(entries: &Vec<EntryRow>, keys: &Vec<String>, i: usize, j: usize) -> (result: bool)
    requires
        i < entries.len(),
        j < entries.len(),
        are_new_keys(keys@, views(entries@)),
    ensures
        result == same_group(views(entries@)[i as int], views(entries@)[j as int]),
{
    assert(views(entries@)[i as int] == entries@[i as int]@);
    assert(views(entries@)[j as int] == entries@[j as int]@);
    same_text(entries[i].scope_type.as_str(), entries[j].scope_type.as_str()) && same_text(
        entries[i].scope_id.as_str(),
        entries[j].scope_id.as_str(),
    ) && same_text(keys[i].as_str(), keys[j].as_str())
}

fn find_keeper(entries: &Vec<EntryRow>, keys: &Vec<String>, i: usize) -> (result: usize)
    requires
        i < entries.len(),
        are_new_keys(keys@, views(entries@)),
    ensures
        result < entries.len(),
        result == keeper_of(views(entries@), i as int),
{
    let ghost rows = views(entries@);
    let mut best: usize = i;
    let mut n: usize = 0;
    while n < entries.len()
        invariant
            i < entries.len(),
            n <= entries.len(),
            best < entries.len(),
            rows == views(entries@),
            are_new_keys(keys@, rows),
            best == oldest_among(rows, i as int, n as nat),
        decreases entries.len() - n,
    {
        assert(rows[n as int] == entries@[n as int]@);
        assert(rows[best as int] == entries@[best as int]@);
        if in_same_group(entries, keys, n, i) && (less(
            entries[n].created_at.as_str(),
            entries[best].created_at.as_str(),
        ) || (same_text(entries[n].created_at.as_str(), entries[best].created_at.as_str()) && less(
            entries[n].entry_id.as_str(),
            entries[best].entry_id.as_str(),
        ))) {
            best = n;
        }
        n = n + 1;
    }
    best
}

fn find_freshest(
    entries: &Vec<EntryRow>,
    keys: &Vec<String>,
    i: usize,
    explicit_only: bool,
) -> (result:
    Option<usize>)
    requires
        i < entries.len(),
        are_new_keys(keys@, views(entries@)),
    ensures
        match result {
            Some(k) => k < entries.len() && freshest_among(
                views(entries@),
                i as int,
                entries.len() as nat,
                explicit_only,
            ) == Some(k as int),
            None => freshest_among(
                views(entries@),
                i as int,
                entries.len() as nat,
                explicit_only,
            ) is None,
        },
{
    let ghost rows = views(entries@);
    let mut best: Option<usize> = None;
    let mut n: usize = 0;
    while n < entries.len()
        invariant
            i < entries.len(),
            n <= entries.len(),
            rows == views(entries@),
            are_new_keys(keys@, rows),
            match best {
                Some(k) => k < entries.len() && freshest_among(
                    rows,
                    i as int,
                    n as nat,
                    explicit_only,
                ) == Some(k as int),
                None => freshest_among(rows, i as int, n as nat, explicit_only) is None,
            },
        decreases entries.len() - n,
    {
        assert(rows[n as int] == entries@[n as int]@);
        if in_same_group(entries, keys, n, i) && (!explicit_only || same_text(
            entries[n].origin.as_str(),
            "explicit_user",
        )) {
            let replace = match best {
                Some(k) => {
                    assert(rows[k as int] == entries@[k as int]@);
                    !(less(entries[n].updated_at.as_str(), entries[k].updated_at.as_str()) || (
                    same_text(entries[k].updated_at.as_str(), entries[n].updated_at.as_str())
                        && less(entries[n].entry_id.as_str(), entries[k].entry_id.as_str())))
                },
                None => true,
            };
            if replace {
                best = Some(n);
            }
        }
        n = n + 1;
    }
    best
}

fn find_content(entries: &Vec<EntryRow>, keys: &Vec<String>, i: usize) -> (result: usize)
    requires
        i < entries.len(),
        are_new_keys(keys@, views(entries@)),
    ensures
        result < entries.len(),
        views(entries@)[result as int] == content_of(views(entries@), i as int),
{
    match find_freshest(entries, keys, i, true) {
        Some(k) => k,
        None => match find_freshest(entries, keys, i, false) {
            Some(k) => k,
            None => i,
        },
    }
}

fn find_kept_id(entries: &Vec<EntryRow>, keys: &Vec<String>, entry_id: &String) -> (result: String)
    requires
        are_new_keys(keys@, views(entries@)),
    ensures
        result@ == kept_id(views(entries@), entry_id@),
{
    match find_entry(entries, entry_id.as_str()) {
        Some(i) => {
            let k = find_keeper(entries, keys, i);
            assert(views(entries@)[k as int] == entries@[k as int]@);
            entries[k].entry_id.clone()
        },
        None => entry_id.clone(),
    }
}

fn merge_group(entries: &Vec<EntryRow>, keys: &Vec<String>, i: usize) -> (result: EntryRow)
    requires
        i < entries.len(),
        are_new_keys(keys@, views(entries@)),
    ensures
        result@ == kept_row(views(entries@), i as int),
{
    let c = find_content(entries, keys, i);
    assert(views(entries@)[i as int] == entries@[i as int]@);
    assert(views(entries@)[c as int] == entries@[c as int]@);
    let replacement_entry_id = match &entries[c].replacement_entry_id {
        Some(entry_id) => {
            let kept = find_kept_id(entries, keys, entry_id);
            if same_text(kept.as_str(), entries[i].entry_id.as_str()) {
                None
            } else {
                Some(kept)
            }
        },
        None => None,
    };
    EntryRow {
        entry_id: entries[i].entry_id.clone(),
        scope_type: entries[i].scope_type.clone(),
        scope_id: entries[i].scope_id.clone(),
        kind: entries[c].kind.clone(),
        normalized_key: keys[i].clone(),
        body: entries[c].body.clone(),
        origin: entries[c].origin.clone(),
        state: entries[c].state.clone(),
        created_at: entries[i].created_at.clone(),
        updated_at: entries[c].updated_at.clone(),
        last_recalled_at: entries[c].last_recalled_at.clone(),
        replacement_entry_id,
        expires_at: entries[c].expires_at.clone(),
    }
}

fn keep_rows(entries: &Vec<EntryRow>, keys: &Vec<String>) -> (result: Vec<EntryRow>)
    requires
        are_new_keys(keys@, views(entries@)),
    ensures
        views(result@) == kept_rows(views(entries@), entries.len() as nat),
{
    let ghost rows = views(entries@);
    let mut kept: Vec<EntryRow> = Vec::new();
    let mut n: usize = 0;
    assert(views(kept@) =~= kept_rows(rows, 0));
    while n < entries.len()
        invariant
            n <= entries.len(),
            rows == views(entries@),
            are_new_keys(keys@, rows),
            views(kept@) == kept_rows(rows, n as nat),
        decreases entries.len() - n,
    {
        if find_keeper(entries, keys, n) == n {
            let row = merge_group(entries, keys, n);
            let ghost before = views(kept@);
            let ghost added = row@;
            kept.push(row);
            assert(views(kept@) =~= before.push(added));
        }
        n = n + 1;
    }
    kept
}

fn makes_superfluous(
    entries: &Vec<EntryRow>,
    keys: &Vec<String>,
    a: &EvidenceRow,
    b: &EvidenceRow,
) -> (result: bool)
    requires
        are_new_keys(keys@, views(entries@)),
    ensures
        result == supersedes(views(entries@), a@, b@),
{
    let i = match find_entry(entries, a.entry_id.as_str()) {
        Some(i) => i,
        None => return false,
    };
    let j = match find_entry(entries, b.entry_id.as_str()) {
        Some(j) => j,
        None => return false,
    };
    if !in_same_group(entries, keys, i, j) || !same_text(
        a.session_id.as_str(),
        b.session_id.as_str(),
    ) || !same_optional_text(&a.turn_id, &b.turn_id) || !same_optional_text(
        &a.source_user_item_id,
        &b.source_user_item_id,
    ) {
        return false;
    }
    let a_stays = find_keeper(entries, keys, i) == i;
    let b_stays = find_keeper(entries, keys, j) == j;
    if a_stays != b_stays {
        return a_stays;
    }
    if !a_stays && i != j {
        return i < j;
    }
    less(a.observed_at.as_str(), b.observed_at.as_str()) || (same_text(
        a.observed_at.as_str(),
        b.observed_at.as_str(),
    ) && less(a.evidence_id.as_str(), b.evidence_id.as_str()))
}

fn superfluous(
    entries: &Vec<EntryRow>,
    keys: &Vec<String>,
    evidence: &Vec<EvidenceRow>,
    row: &EvidenceRow,
) -> (result: bool)
    requires
        are_new_keys(keys@, views(entries@)),
    ensures
        result == is_superfluous(views(entries@), views(evidence@), row@),
{
    let ghost all = views(evidence@);
    let ghost rows = views(entries@);
    let mut k: usize = 0;
    while k < evidence.len()
        invariant
            k <= evidence.len(),
            all == views(evidence@),
            rows == views(entries@),
            are_new_keys(keys@, rows),
            forall|m: int| 0 <= m < k ==> !#[trigger] supersedes(rows, all[m], row@),
        decreases evidence.len() - k,
    {
        assert(all[k as int] == evidence@[k as int]@);
        if makes_superfluous(entries, keys, &evidence[k], row) {
            assert(supersedes(rows, all[k as int], row@));
            return true;
        }
        k = k + 1;
    }
    false
}

fn deduplicate_evidence(
    entries: &Vec<EntryRow>,
    keys: &Vec<String>,
    evidence: &Vec<EvidenceRow>,
) -> (result: Vec<EvidenceRow>)
    requires
        are_new_keys(keys@, views(entries@)),
    ensures
        views(result@) == kept_evidence(
            views(entries@),
            views(evidence@),
            evidence.len() as nat,
        ),
{
    let ghost all = views(evidence@);
    let ghost rows = views(entries@);
    let mut kept: Vec<EvidenceRow> = Vec::new();
    let mut n: usize = 0;
    assert(views(kept@) =~= kept_evidence(rows, all, 0));
    while n < evidence.len()
        invariant
            n <= evidence.len(),
            all == views(evidence@),
            rows == views(entries@),
            are_new_keys(keys@, rows),
            views(kept@) == kept_evidence(rows, all, n as nat),
        decreases evidence.len() - n,
    {
        assert(all[n as int] == evidence@[n as int]@);
        if !superfluous(entries, keys, evidence, &evidence[n]) {
            let mut row = evidence[n].clone();
            row.entry_id = find_kept_id(entries, keys, &evidence[n].entry_id);
            let ghost before = views(kept@);
            let ghost added = row@;
            kept.push(row);
            assert(views(kept@) =~= before.push(added));
        }
        n = n + 1;
    }
    kept
}

fn identity_before(a: &EntryRow, b: &EntryRow) -> (result: bool)
    ensures
        result == by_identity()(a@, b@),
{
    if less(a.scope_type.as_str(), b.scope_type.as_str()) {
        return true;
    }
    if !same_text(a.scope_type.as_str(), b.scope_type.as_str()) {
        return false;
    }
    if less(a.scope_id.as_str(), b.scope_id.as_str()) {
        return true;
    }
    same_text(a.scope_id.as_str(), b.scope_id.as_str()) && less(
        a.normalized_key.as_str(),
        b.normalized_key.as_str(),
    )
}

fn place_identity(rows: &mut Vec<EntryRow>, row: EntryRow)
    ensures
        views(final(rows)@) == insert_ordered(views(old(rows)@), row@, by_identity()),
{
    let ghost before = by_identity();
    let ghost placed = views(rows@);
    let mut at: usize = rows.len();
    while at > 0 && identity_before(&row, &rows[at - 1])
        invariant
            at <= rows.len(),
            placed == views(rows@),
            before == by_identity(),
            forall|k: int| at <= k < rows.len() ==> before(row@, #[trigger] placed[k]),
        decreases at,
    {
        assert(placed[at - 1] == rows@[at - 1]@);
        at = at - 1;
    }
    proof {
        if at > 0 {
            assert(placed[at - 1] == rows@[at - 1]@);
        }
        lemma_insert_position(placed, row@, before, at as int);
    }
    let ghost added = row@;
    rows.insert(at, row);
    assert(views(rows@) =~= placed.insert(at as int, added));
}

fn select_changed(entries: &Vec<EntryRow>, keys: &Vec<String>) -> (result: Vec<EntryRow>)
    requires
        are_new_keys(keys@, views(entries@)),
    ensures
        views(result@) == ordered(views(entries@).filter(key_changes()), by_identity()),
{
    let ghost rows = views(entries@);
    let ghost accepts = key_changes();
    let mut result: Vec<EntryRow> = Vec::new();
    let mut i: usize = 0;
    assert(rows.take(0).filter(accepts) =~= Seq::<EntryRowView>::empty()) by {
        reveal(Seq::filter);
    }
    assert(views(result@) =~= Seq::<EntryRowView>::empty());
    while i < entries.len()
        invariant
            i <= entries.len(),
            rows == views(entries@),
            are_new_keys(keys@, rows),
            accepts == key_changes(),
            views(result@) == ordered(rows.take(i as int).filter(accepts), by_identity()),
        decreases entries.len() - i,
    {
        assert(rows[i as int] == entries@[i as int]@);
        proof {
            lemma_filter_take(rows, i as int, accepts);
        }
        if same_text(entries[i].origin.as_str(), "explicit_user") && !same_text(
            entries[i].normalized_key.as_str(),
            keys[i].as_str(),
        ) {
            let ghost chosen = rows.take(i as int).filter(accepts);
            assert(chosen.push(rows[i as int]).drop_last() =~= chosen);
            place_identity(&mut result, entries[i].clone());
        }
        i = i + 1;
    }
    assert(rows.take(entries.len() as int) =~= rows);
    result
}

fn rekey(revocations: &mut Vec<RevocationRow>, entry: &EntryRow)
    requires
        entry@.origin == "explicit_user"@,
    ensures
        views(final(revocations)@) == views(old(revocations)@).map_values(
            |row: RevocationRowView| rekeyed(row, entry@),
        ),
{
    let ghost before = views(revocations@);
    let key = explicit_memory_key(entry.body.as_str());
    let mut i: usize = 0;
    while i < revocations.len()
        invariant
            i <= revocations.len(),
            revocations.len() == before.len(),
            key@ == new_key(entry@),
            forall|j: int|
                0 <= j < i ==> (#[trigger] revocations@[j])@ == rekeyed(before[j], entry@),
            forall|j: int|
                i <= j < revocations.len() ==> (#[trigger] revocations@[j])@ == before[j],
        decreases revocations.len() - i,
    {
        assert(revocations@[i as int]@ == before[i as int]);
        if same_text(revocations[i].scope_type.as_str(), entry.scope_type.as_str()) && same_text(
            revocations[i].scope_id.as_str(),
            entry.scope_id.as_str(),
        ) && same_text(revocations[i].normalized_key.as_str(), entry.normalized_key.as_str()) {
            let mut row = revocations[i].clone();
            row.normalized_key = key.clone();
            revocations.set(i, row);
        }
        i = i + 1;
    }
    assert(views(revocations@) =~= before.map_values(
        |row: RevocationRowView| rekeyed(row, entry@),
    ));
}

fn rebuild_index(entries: &Vec<EntryRow>) -> (result: Vec<IndexRow>)
    ensures
        views(result@) == index_of_entries(views(entries@)),
{
    let mut index: Vec<IndexRow> = Vec::new();
    let mut i: usize = 0;
    while i < entries.len()
        invariant
            i <= entries.len(),
            index.len() == i,
            forall|j: int|
                0 <= j < i ==> (#[trigger] index@[j])@ == (IndexRowView {
                    entry_id: entries@[j]@.entry_id,
                    normalized_key: entries@[j]@.normalized_key,
                    body: entries@[j]@.body,
                }),
        decreases entries.len() - i,
    {
        index.push(
            IndexRow {
                entry_id: entries[i].entry_id.clone(),
                normalized_key: entries[i].normalized_key.clone(),
                body: entries[i].body.clone(),
            },
        );
        i = i + 1;
    }
    assert(views(index@) =~= index_of_entries(views(entries@)));
    index
}

proof fn lemma_changed_are_explicit(rows: Seq<EntryRowView>, k: int)
    requires
        0 <= k < ordered(rows.filter(key_changes()), by_identity()).len(),
    ensures
        ordered(rows.filter(key_changes()), by_identity())[k].origin == "explicit_user"@,
{
    let chosen = rows.filter(key_changes());
    let sorted = ordered(chosen, by_identity());
    lemma_ordered_holds(chosen, by_identity(), sorted[k]);
    assert(sorted.contains(sorted[k]));
    lemma_filter_holds(rows, key_changes());
    assert(key_changes()(sorted[k]));
}

proof fn lemma_inserted_holds<V>(rows: Seq<V>, row: V, before: spec_fn(V, V) -> bool, x: V)
    ensures
        insert_ordered(rows, row, before).contains(x) ==> rows.contains(x) || x == row,
    decreases rows.len(),
{
    let after = insert_ordered(rows, row, before);
    if rows.len() > 0 && before(row, rows.last()) {
        let front = rows.drop_last();
        let inner = insert_ordered(front, row, before);
        lemma_inserted_holds(front, row, before, x);
        if after.contains(x) {
            let k = choose|k: int| 0 <= k < after.len() && after[k] == x;
            if k < inner.len() {
                assert(inner[k] == x);
                assert(inner.contains(x));
                if front.contains(x) {
                    let m = choose|m: int| 0 <= m < front.len() && front[m] == x;
                    assert(rows[m] == x);
                }
            } else {
                assert(rows[rows.len() - 1] == x);
            }
        }
    } else if after.contains(x) {
        let k = choose|k: int| 0 <= k < after.len() && after[k] == x;
        if k < rows.len() {
            assert(rows[k] == x);
        }
    }
}

proof fn lemma_ordered_holds<V>(rows: Seq<V>, before: spec_fn(V, V) -> bool, x: V)
    ensures
        ordered(rows, before).contains(x) ==> rows.contains(x),
    decreases rows.len(),
{
    if rows.len() > 0 {
        let front = rows.drop_last();
        lemma_ordered_holds(front, before, x);
        lemma_inserted_holds(ordered(front, before), rows.last(), before, x);
        if ordered(rows, before).contains(x) {
            if front.contains(x) {
                let m = choose|m: int| 0 <= m < front.len() && front[m] == x;
                assert(rows[m] == x);
            } else {
                assert(rows[rows.len() - 1] == x);
            }
        }
    }
}

/// Re-keys the store: explicit entries get the key of their body, their revocations
/// follow, and entries that then share an identity become one, with the age of the
/// oldest and the content of the last.
pub fn migrate_explicit_equivalence(tables: &mut MemoryTables)
    ensures
        final(tables)@ == migrated(old(tables)@),
{
    let ghost before = tables@;
    let keys = compute_keys(&tables.entries);
    let changed = select_changed(&tables.entries, &keys);
    let ghost all = views(changed@);
    let mut i: usize = 0;
    while i < changed.len()
        invariant
            i <= changed.len(),
            all == views(changed@),
            all == ordered(before.entries.filter(key_changes()), by_identity()),
            views(tables.entries@) == before.entries,
            views(tables.evidence@) == before.evidence,
            views(tables.jobs@) == before.jobs,
            tables.candidate_count == before.candidate_count,
            views(tables.revocations@) == all_rekeyed(before.revocations, all.take(i as int)),
        decreases changed.len() - i,
    {
        let ghost next = all.take(i + 1);
        assert(next.drop_last() =~= all.take(i as int));
        assert(next.last() == changed@[i as int]@);
        proof {
            lemma_changed_are_explicit(before.entries, i as int);
        }
        rekey(&mut tables.revocations, &changed[i]);
        i = i + 1;
    }
    assert(all.take(changed.len() as int) =~= all);
    unite_revocations(&mut tables.revocations);
    let evidence = deduplicate_evidence(&tables.entries, &keys, &tables.evidence);
    let entries = keep_rows(&tables.entries, &keys);
    tables.index = rebuild_index(&entries);
    tables.evidence = evidence;
    tables.entries = entries;
    assert(tables@ == migrated(before));
}

// ---------------------------------------------------------------------------
// Laws.
// ---------------------------------------------------------------------------
proof fn lemma_older_orders(a: EntryRowView, b: EntryRowView, c: EntryRowView)
    ensures
        !older(a, a),
        older(a, b) && older(b, c) ==> older(a, c),
        a.entry_id != b.entry_id ==> older(a, b) || older(b, a),
{
    law_text_order(a.created_at, b.created_at, c.created_at);
    law_text_order(a.entry_id, b.entry_id, c.entry_id);
}

proof fn lemma_oldest(entries: Seq<EntryRowView>, i: int, n: nat)
    requires
        0 <= i < entries.len(),
        n <= entries.len(),
    ensures
        0 <= oldest_among(entries, i, n) < entries.len(),
        same_group(entries[oldest_among(entries, i, n)], entries[i]),
        forall|j: int|
            0 <= j < n && same_group(#[trigger] entries[j], entries[i]) ==> !older(
                entries[j],
                entries[oldest_among(entries, i, n)],
            ),
    decreases n,
{
    if n > 0 {
        let m = (n - 1) as nat;
        lemma_oldest(entries, i, m);
        let best = oldest_among(entries, i, m);
        let k = oldest_among(entries, i, n);
        assert forall|j: int|
            0 <= j < n && same_group(#[trigger] entries[j], entries[i]) implies !older(
            entries[j],
            entries[k],
        ) by {
            lemma_older_orders(entries[j], entries[n - 1], entries[best]);
        }
    }
}

proof fn lemma_keeper_is_kept(entries: Seq<EntryRowView>, i: int)
    requires
        entry_ids_differ(entries),
        0 <= i < entries.len(),
    ensures
        0 <= keeper_of(entries, i) < entries.len(),
        keeper_of(entries, keeper_of(entries, i)) == keeper_of(entries, i),
{
    lemma_oldest(entries, i, entries.len());
    let k = keeper_of(entries, i);
    lemma_oldest(entries, k, entries.len());
    let m = keeper_of(entries, k);
    assert(same_group(entries[m], entries[i]));
    assert(!older(entries[m], entries[k]));
    assert(same_group(entries[k], entries[k]));
    assert(!older(entries[k], entries[m]));
    lemma_older_orders(entries[k], entries[m], entries[k]);
    if k < m {
        assert(entries[k].entry_id != entries[m].entry_id);
    } else if m < k {
        assert(entries[m].entry_id != entries[k].entry_id);
    }
}

/// Whether a row stayed for one of the first entries.
spec fn stayed_for(entries: Seq<EntryRowView>, n: nat, row: EntryRowView, k: int) -> bool {
    0 <= k < n && keeper_of(entries, k) == k && row == kept_row(entries, k)
}

spec fn has_stayed(entries: Seq<EntryRowView>, n: nat, row: EntryRowView) -> bool {
    exists|k: int| stayed_for(entries, n, row, k)
}

proof fn lemma_kept_rows(entries: Seq<EntryRowView>, n: nat)
    requires
        entry_ids_differ(entries),
        n <= entries.len(),
    ensures
        forall|i: int|
            0 <= i < kept_rows(entries, n).len() ==> has_stayed(
                entries,
                n,
                #[trigger] kept_rows(entries, n)[i],
            ),
        entry_ids_differ(kept_rows(entries, n)),
        identities_differ(kept_rows(entries, n)),
        forall|k: int|
            0 <= k < n && keeper_of(entries, k) == k ==> has_entry(
                kept_rows(entries, n),
                (#[trigger] entries[k]).entry_id,
            ),
    decreases n,
{
    if n > 0 {
        let m = (n - 1) as nat;
        lemma_kept_rows(entries, m);
        let before = kept_rows(entries, m);
        let after = kept_rows(entries, n);
        assert forall|i: int| 0 <= i < after.len() implies has_stayed(
            entries,
            n,
            #[trigger] after[i],
        ) by {
            if i < before.len() {
                assert(after[i] == before[i]);
                assert(has_stayed(entries, m, before[i]));
                let k = choose|k: int| stayed_for(entries, m, before[i], k);
                assert(stayed_for(entries, n, after[i], k));
            } else {
                assert(stayed_for(entries, n, after[i], n - 1));
            }
        }
        assert forall|i: int, j: int| 0 <= i < j < after.len() implies (
        #[trigger] after[i]).entry_id != (#[trigger] after[j]).entry_id && !same_identity(
            after[i],
            after[j],
        ) by {
            if j < before.len() {
                assert(after[i] == before[i] && after[j] == before[j]);
                assert(before[i].entry_id != before[j].entry_id);
                assert(!same_identity(before[i], before[j]));
            } else {
                assert(after[i] == before[i]);
                assert(has_stayed(entries, m, before[i]));
                let k = choose|k: int| stayed_for(entries, m, before[i], k);
                assert(entries[k].entry_id != entries[n - 1].entry_id);
                if same_identity(after[i], after[j]) {
                    assert(same_group(entries[k], entries[n - 1]));
                    assert(same_group(entries[n - 1], entries[k]));
                    lemma_oldest(entries, k, entries.len());
                    lemma_oldest(entries, n - 1, entries.len());
                    assert(!older(entries[n - 1], entries[k]));
                    assert(!older(entries[k], entries[n - 1]));
                    lemma_older_orders(entries[k], entries[n - 1], entries[k]);
                }
            }
        }
        assert forall|k: int| 0 <= k < n && keeper_of(entries, k) == k implies has_entry(
            after,
            (#[trigger] entries[k]).entry_id,
        ) by {
            if k < m {
                assert(has_entry(before, entries[k].entry_id));
                let i = choose|i: int|
                    0 <= i < before.len() && (#[trigger] before[i]).entry_id
                        == entries[k].entry_id;
                assert(after[i] == before[i]);
            } else {
                assert(after[after.len() - 1].entry_id == entries[k].entry_id);
            }
        }
    }
}

proof fn lemma_kept_evidence(
    entries: Seq<EntryRowView>,
    evidence: Seq<EvidenceRowView>,
    n: nat,
)
    requires
        entry_ids_differ(entries),
        evidence_is_owned(evidence, entries),
        evidence_ids_differ(evidence),
        n <= evidence.len(),
    ensures
        evidence_is_owned(
            kept_evidence(entries, evidence, n),
            kept_rows(entries, entries.len()),
        ),
        evidence_ids_differ(kept_evidence(entries, evidence, n)),
        forall|i: int|
            0 <= i < kept_evidence(entries, evidence, n).len() ==> exists|k: int|
                0 <= k < n && (#[trigger] evidence[k]).evidence_id == (
                #[trigger] kept_evidence(entries, evidence, n)[i]).evidence_id,
    decreases n,
{
    if n > 0 {
        let m = (n - 1) as nat;
        lemma_kept_evidence(entries, evidence, m);
        let before = kept_evidence(entries, evidence, m);
        let after = kept_evidence(entries, evidence, n);
        let stay = kept_rows(entries, entries.len());
        let row = evidence[n - 1];
        assert(has_entry(entries, row.entry_id));
        lemma_first_match(entries, entry_is(row.entry_id));
        let at = choose|at: int|
            0 <= at < entries.len() && (#[trigger] entries[at]).entry_id == row.entry_id;
        assert(entry_is(row.entry_id)(entries[at]));
        let i = first_match(entries, entry_is(row.entry_id))->Some_0;
        lemma_keeper_is_kept(entries, i);
        lemma_kept_rows(entries, entries.len());
        assert(has_entry(stay, entries[keeper_of(entries, i)].entry_id));
        assert forall|a: int| 0 <= a < after.len() implies has_entry(
            stay,
            (#[trigger] after[a]).entry_id,
        ) && exists|k: int|
            0 <= k < n && (#[trigger] evidence[k]).evidence_id == after[a].evidence_id by {
            if a < before.len() {
                assert(after[a] == before[a]);
                let k = choose|k: int|
                    0 <= k < m && (#[trigger] evidence[k]).evidence_id == before[a].evidence_id;
                assert(evidence[k].evidence_id == after[a].evidence_id);
            } else {
                assert(evidence[n - 1].evidence_id == after[a].evidence_id);
            }
        }
        assert forall|a: int, b: int| 0 <= a < b < after.len() implies (
        #[trigger] after[a]).evidence_id != (#[trigger] after[b]).evidence_id by {
            assert(after[a] == before[a]);
            if b < before.len() {
                assert(after[b] == before[b]);
            } else {
                let k = choose|k: int|
                    0 <= k < m && (#[trigger] evidence[k]).evidence_id == before[a].evidence_id;
                assert(evidence[k].evidence_id != evidence[n - 1].evidence_id);
            }
        }
    }
}

proof fn lemma_rekeyed_ids(revocations: Seq<RevocationRowView>, changed: Seq<EntryRowView>)
    ensures
        all_rekeyed(revocations, changed).len() == revocations.len(),
        forall|i: int|
            0 <= i < revocations.len() ==> (#[trigger] all_rekeyed(
                revocations,
                changed,
            )[i]).revocation_id == revocations[i].revocation_id,
    decreases changed.len(),
{
    if changed.len() > 0 {
        lemma_rekeyed_ids(revocations, changed.drop_last());
        let before = all_rekeyed(revocations, changed.drop_last());
        let after = all_rekeyed(revocations, changed);
        assert forall|i: int| 0 <= i < revocations.len() implies (
        #[trigger] after[i]).revocation_id == revocations[i].revocation_id by {
            assert(after[i] == rekeyed(before[i], changed.last()));
            assert(before[i].revocation_id == revocations[i].revocation_id);
        }
    }
}

proof fn lemma_rekeyed_ids_differ(
    revocations: Seq<RevocationRowView>,
    changed: Seq<EntryRowView>,
)
    requires
        revocation_ids_differ(revocations),
    ensures
        revocation_ids_differ(all_rekeyed(revocations, changed)),
{
    let rows = all_rekeyed(revocations, changed);
    lemma_rekeyed_ids(revocations, changed);
    assert forall|i: int, j: int| 0 <= i < j < rows.len() implies (
    #[trigger] rows[i]).revocation_id != (#[trigger] rows[j]).revocation_id by {
        assert(revocations[i].revocation_id != revocations[j].revocation_id);
    }
}

/// The migration leaves a well-formed store: no identity occurs twice, whatever
/// entries came to share one, and no evidence is left without its entry.
pub proof fn law_migration_keeps_store_well_formed(tables: MemoryTablesView)
    requires
        tables.well_formed(),
    ensures
        migrated(tables).well_formed(),
{
    lemma_kept_rows(tables.entries, tables.entries.len());
    lemma_kept_evidence(tables.entries, tables.evidence, tables.evidence.len());
    let changed = ordered(tables.entries.filter(key_changes()), by_identity());
    let rows = all_rekeyed(tables.revocations, changed);
    lemma_rekeyed_ids_differ(tables.revocations, changed);
    if rows.len() > 0 {
        law_uniting_revocations(rows, 0);
    } else {
        assert(united_rows(rows, rows.len()) =~= Seq::<RevocationRowView>::empty());
    }
    assert(revocations_differ(migrated(tables).revocations));
}

proof fn lemma_keeper_stays(entries: Seq<EntryRowView>, k: int, n: nat)
    requires
        0 <= k < n <= entries.len(),
        keeper_of(entries, k) == k,
    ensures
        kept_rows(entries, n).contains(kept_row(entries, k)),
    decreases n,
{
    let before = kept_rows(entries, (n - 1) as nat);
    let after = kept_rows(entries, n);
    if k == n - 1 {
        assert(after[before.len() as int] == kept_row(entries, k));
    } else {
        lemma_keeper_stays(entries, k, (n - 1) as nat);
        let m = choose|m: int| 0 <= m < before.len() && before[m] == kept_row(entries, k);
        assert(after[m] == kept_row(entries, k));
    }
}

/// The migration loses no claim: every entry has one after it that stands for it, in
/// its scope, under the key that it has now.
pub proof fn law_migration_loses_no_claim(tables: MemoryTablesView, i: int)
    requires
        tables.well_formed(),
        0 <= i < tables.entries.len(),
    ensures
        exists|row: EntryRowView| #[trigger]
            migrated(tables).entries.contains(row) && row.scope_type
                == tables.entries[i].scope_type && row.scope_id == tables.entries[i].scope_id
                && row.normalized_key == new_key(tables.entries[i]),
{
    let entries = tables.entries;
    lemma_oldest(entries, i, entries.len());
    lemma_keeper_is_kept(entries, i);
    lemma_keeper_stays(entries, keeper_of(entries, i), entries.len());
    assert(migrated(tables).entries.contains(kept_row(entries, keeper_of(entries, i))));
}

// ---------------------------------------------------------------------------
// The migrated store.
// ---------------------------------------------------------------------------
/// Whether every entry has the key that the migration gives it: explicit ones that
/// of their body.
pub open spec fn keys_are_new(entries: Seq<EntryRowView>) -> bool {
    forall|i: int|
        0 <= i < entries.len() ==> (#[trigger] entries[i]).normalized_key == new_key(entries[i])
}

/// Whether no entry replaces itself.
pub open spec fn none_replaces_itself(entries: Seq<EntryRowView>) -> bool {
    forall|i: int|
        0 <= i < entries.len() ==> (#[trigger] entries[i]).replacement_entry_id != Some(
            entries[i].entry_id,
        )
}

/// Whether each source is evidence of an entry once.
pub open spec fn sources_differ(evidence: Seq<EvidenceRowView>) -> bool {
    forall|i: int, j: int|
        0 <= i < j < evidence.len() ==> !((#[trigger] evidence[i]).entry_id == (
        #[trigger] evidence[j]).entry_id && same_source(evidence[i], evidence[j]))
}

/// Whether a store is as the migration leaves it.
pub open spec fn is_migrated(tables: MemoryTablesView) -> bool {
    &&& tables.well_formed()
    &&& keys_are_new(tables.entries)
    &&& none_replaces_itself(tables.entries)
    &&& sources_differ(tables.evidence)
    &&& restored_after_revoked(tables.revocations)
    &&& tables.index == index_of_entries(tables.entries)
}

proof fn lemma_freshest(entries: Seq<EntryRowView>, i: int, n: nat, explicit_only: bool)
    requires
        0 <= i < entries.len(),
        n <= entries.len(),
    ensures
        freshest_among(entries, i, n, explicit_only) matches Some(k) ==> 0 <= k < n && same_group(
            entries[k],
            entries[i],
        ),
    decreases n,
{
    if n > 0 {
        lemma_freshest(entries, i, (n - 1) as nat, explicit_only);
    }
}

proof fn lemma_kept_row_is_settled(entries: Seq<EntryRowView>, i: int)
    requires
        0 <= i < entries.len(),
    ensures
        kept_row(entries, i).normalized_key == new_key(kept_row(entries, i)),
        kept_row(entries, i).replacement_entry_id != Some(kept_row(entries, i).entry_id),
{
    lemma_freshest(entries, i, entries.len(), true);
    lemma_freshest(entries, i, entries.len(), false);
    assert(same_group(content_of(entries, i), entries[i]));
}

/// Where a piece of evidence that stays comes from.
spec fn gathered_from(
    entries: Seq<EntryRowView>,
    evidence: Seq<EvidenceRowView>,
    n: nat,
    row: EvidenceRowView,
    k: int,
) -> bool {
    &&& 0 <= k < n
    &&& !is_superfluous(entries, evidence, evidence[k])
    &&& row == EvidenceRowView {
        entry_id: kept_id(entries, evidence[k].entry_id),
        ..evidence[k]
    }
}

spec fn is_gathered(
    entries: Seq<EntryRowView>,
    evidence: Seq<EvidenceRowView>,
    n: nat,
    row: EvidenceRowView,
) -> bool {
    exists|k: int| gathered_from(entries, evidence, n, row, k)
}

proof fn lemma_gathered(
    entries: Seq<EntryRowView>,
    evidence: Seq<EvidenceRowView>,
    n: nat,
)
    requires
        n <= evidence.len(),
    ensures
        forall|i: int|
            0 <= i < kept_evidence(entries, evidence, n).len() ==> is_gathered(
                entries,
                evidence,
                n,
                #[trigger] kept_evidence(entries, evidence, n)[i],
            ),
    decreases n,
{
    if n > 0 {
        let m = (n - 1) as nat;
        lemma_gathered(entries, evidence, m);
        let before = kept_evidence(entries, evidence, m);
        let after = kept_evidence(entries, evidence, n);
        assert forall|i: int| 0 <= i < after.len() implies is_gathered(
            entries,
            evidence,
            n,
            #[trigger] after[i],
        ) by {
            if i < before.len() {
                assert(after[i] == before[i]);
                assert(is_gathered(entries, evidence, m, before[i]));
                let k = choose|k: int| gathered_from(entries, evidence, m, before[i], k);
                assert(gathered_from(entries, evidence, n, after[i], k));
            } else {
                assert(gathered_from(entries, evidence, n, after[i], n - 1));
            }
        }
    }
}

/// Of two pieces of evidence from one source for one group, one makes the other
/// superfluous.
proof fn lemma_one_supersedes(
    entries: Seq<EntryRowView>,
    a: EvidenceRowView,
    b: EvidenceRowView,
)
    requires
        entry_ids_differ(entries),
        has_entry(entries, a.entry_id),
        has_entry(entries, b.entry_id),
        kept_id(entries, a.entry_id) == kept_id(entries, b.entry_id),
        same_source(a, b),
        a.evidence_id != b.evidence_id,
    ensures
        supersedes(entries, a, b) || supersedes(entries, b, a),
{
    lemma_first_match(entries, entry_is(a.entry_id));
    lemma_first_match(entries, entry_is(b.entry_id));
    let m = choose|m: int|
        0 <= m < entries.len() && (#[trigger] entries[m]).entry_id == a.entry_id;
    assert(entry_is(a.entry_id)(entries[m]));
    let w = choose|w: int|
        0 <= w < entries.len() && (#[trigger] entries[w]).entry_id == b.entry_id;
    assert(entry_is(b.entry_id)(entries[w]));
    let i = first_match(entries, entry_is(a.entry_id))->Some_0;
    let j = first_match(entries, entry_is(b.entry_id))->Some_0;
    lemma_oldest(entries, i, entries.len());
    lemma_oldest(entries, j, entries.len());
    let x = keeper_of(entries, i);
    let y = keeper_of(entries, j);
    if x < y {
        assert(entries[x].entry_id != entries[y].entry_id);
    } else if y < x {
        assert(entries[y].entry_id != entries[x].entry_id);
    }
    assert(same_group(entries[i], entries[j]));
    assert(same_group(entries[j], entries[i]));
    law_text_order(a.observed_at, b.observed_at, a.observed_at);
    law_text_order(a.evidence_id, b.evidence_id, a.evidence_id);
}

proof fn lemma_kept_sources_differ(entries: Seq<EntryRowView>, evidence: Seq<EvidenceRowView>)
    requires
        entry_ids_differ(entries),
        evidence_is_owned(evidence, entries),
        evidence_ids_differ(evidence),
    ensures
        sources_differ(kept_evidence(entries, evidence, evidence.len())),
{
    let n = evidence.len();
    let kept = kept_evidence(entries, evidence, n);
    lemma_gathered(entries, evidence, n);
    lemma_kept_evidence(entries, evidence, n);
    assert forall|i: int, j: int| 0 <= i < j < kept.len() implies !((
    #[trigger] kept[i]).entry_id == (#[trigger] kept[j]).entry_id && same_source(
        kept[i],
        kept[j],
    )) by {
        assert(is_gathered(entries, evidence, n, kept[i]));
        assert(is_gathered(entries, evidence, n, kept[j]));
        let a = choose|a: int| gathered_from(entries, evidence, n, kept[i], a);
        let b = choose|b: int| gathered_from(entries, evidence, n, kept[j], b);
        assert(kept[i].evidence_id != kept[j].evidence_id);
        if kept[i].entry_id == kept[j].entry_id && same_source(kept[i], kept[j]) {
            assert(has_entry(entries, evidence[a].entry_id));
            assert(has_entry(entries, evidence[b].entry_id));
            lemma_one_supersedes(entries, evidence[a], evidence[b]);
        }
    }
}

/// After the migration the store is well-formed, so that every identity occurs once;
/// explicit entries have the key of their body; no entry replaces itself; a source is
/// evidence of an entry once; an identity is restored only where that came no earlier
/// than its revocation; and the index is that of the entries.
pub proof fn law_migration_settles_the_store(tables: MemoryTablesView)
    requires
        tables.well_formed(),
    ensures
        is_migrated(migrated(tables)),
{
    let after = migrated(tables);
    let entries = tables.entries;
    law_migration_keeps_store_well_formed(tables);
    lemma_kept_rows(entries, entries.len());
    assert forall|i: int| 0 <= i < after.entries.len() implies (
    #[trigger] after.entries[i]).normalized_key == new_key(after.entries[i])
        && after.entries[i].replacement_entry_id != Some(after.entries[i].entry_id) by {
        let row = after.entries[i];
        assert(has_stayed(entries, entries.len(), row));
        let k = choose|k: int| stayed_for(entries, entries.len(), row, k);
        lemma_kept_row_is_settled(entries, k);
    }
    lemma_kept_sources_differ(entries, tables.evidence);
    let changed = ordered(entries.filter(key_changes()), by_identity());
    let rows = all_rekeyed(tables.revocations, changed);
    lemma_rekeyed_ids_differ(tables.revocations, changed);
    assert forall|i: int| 0 <= i < after.revocations.len() implies ((
    #[trigger] after.revocations[i]).restored_at matches Some(text) ==> !text_less(
        text,
        after.revocations[i].revoked_at,
    )) by {
        law_united_revocation_is_latest(rows, i);
    }
}

/// The revocations after the migration have the latest time at which their identity,
/// under its new key, was revoked, and a time of restoring only where the latest one
/// is not earlier than that.
pub proof fn law_migrated_revocation_is_latest(tables: MemoryTablesView, i: int)
    requires
        revocation_ids_differ(tables.revocations),
        0 <= i < migrated(tables).revocations.len(),
    ensures
        ({
            let rows = all_rekeyed(
                tables.revocations,
                ordered(tables.entries.filter(key_changes()), by_identity()),
            );
            let row = migrated(tables).revocations[i];
            &&& is_latest_revoked(rows, row, row.revoked_at)
            &&& match row.restored_at {
                Some(restored_at) => is_latest_restored(rows, row, restored_at) && !text_less(
                    restored_at,
                    row.revoked_at,
                ),
                None => forall|j: int|
                    0 <= j < rows.len() && same_revoked(#[trigger] rows[j], row) ==> (
                    rows[j].restored_at matches Some(text) ==> text_less(text, row.revoked_at)),
            }
        }),
{
    let changed = ordered(tables.entries.filter(key_changes()), by_identity());
    lemma_rekeyed_ids_differ(tables.revocations, changed);
    law_united_revocation_is_latest(all_rekeyed(tables.revocations, changed), i);
}

// ---------------------------------------------------------------------------
// Migrating again.
// ---------------------------------------------------------------------------
proof fn lemma_alone_in_group(entries: Seq<EntryRowView>, i: int, j: int)
    requires
        identities_differ(entries),
        keys_are_new(entries),
        0 <= i < entries.len(),
        0 <= j < entries.len(),
        same_group(entries[j], entries[i]),
    ensures
        i == j,
{
    assert(entries[i].normalized_key == new_key(entries[i]));
    assert(entries[j].normalized_key == new_key(entries[j]));
    if i < j {
        assert(!same_identity(entries[i], entries[j]));
    } else if j < i {
        assert(!same_identity(entries[j], entries[i]));
    }
}

proof fn lemma_settled_freshest(
    entries: Seq<EntryRowView>,
    i: int,
    n: nat,
    explicit_only: bool,
)
    requires
        identities_differ(entries),
        keys_are_new(entries),
        0 <= i < entries.len(),
        n <= entries.len(),
    ensures
        freshest_among(entries, i, n, explicit_only) == if i < n && (explicit_only
            ==> entries[i].origin == "explicit_user"@) {
            Some(i)
        } else {
            None
        },
    decreases n,
{
    if n > 0 {
        lemma_settled_freshest(entries, i, (n - 1) as nat, explicit_only);
        if same_group(entries[n - 1], entries[i]) {
            lemma_alone_in_group(entries, i, n - 1);
        }
        assert(same_group(entries[i], entries[i]));
    }
}

/// In a migrated store every entry stays as it is.
proof fn lemma_settled_row(entries: Seq<EntryRowView>, i: int)
    requires
        entry_ids_differ(entries),
        identities_differ(entries),
        keys_are_new(entries),
        none_replaces_itself(entries),
        0 <= i < entries.len(),
    ensures
        keeper_of(entries, i) == i,
        kept_row(entries, i) == entries[i],
{
    lemma_oldest(entries, i, entries.len());
    lemma_alone_in_group(entries, i, keeper_of(entries, i));
    lemma_settled_freshest(entries, i, entries.len(), true);
    lemma_settled_freshest(entries, i, entries.len(), false);
    assert(content_of(entries, i) == entries[i]);
    assert(entries[i].normalized_key == new_key(entries[i]));
    assert(entries[i].replacement_entry_id != Some(entries[i].entry_id));
    match entries[i].replacement_entry_id {
        Some(id) => {
            lemma_settled_id(entries, id);
        },
        None => {},
    }
}

proof fn lemma_settled_id(entries: Seq<EntryRowView>, entry_id: Seq<char>)
    requires
        identities_differ(entries),
        keys_are_new(entries),
    ensures
        kept_id(entries, entry_id) == entry_id,
{
    lemma_first_match(entries, entry_is(entry_id));
    match first_match(entries, entry_is(entry_id)) {
        Some(k) => {
            lemma_oldest(entries, k, entries.len());
            lemma_alone_in_group(entries, k, keeper_of(entries, k));
        },
        None => {},
    }
}

proof fn lemma_settled_rows(entries: Seq<EntryRowView>, n: nat)
    requires
        entry_ids_differ(entries),
        identities_differ(entries),
        keys_are_new(entries),
        none_replaces_itself(entries),
        n <= entries.len(),
    ensures
        kept_rows(entries, n) == entries.take(n as int),
    decreases n,
{
    if n > 0 {
        lemma_settled_rows(entries, (n - 1) as nat);
        lemma_settled_row(entries, n - 1);
        assert(entries.take(n as int) =~= entries.take(n - 1).push(entries[n - 1]));
    } else {
        assert(kept_rows(entries, n) =~= entries.take(0));
    }
}

proof fn lemma_settled_evidence(
    entries: Seq<EntryRowView>,
    evidence: Seq<EvidenceRowView>,
    n: nat,
)
    requires
        entry_ids_differ(entries),
        identities_differ(entries),
        keys_are_new(entries),
        sources_differ(evidence),
        n <= evidence.len(),
    ensures
        kept_evidence(entries, evidence, n) == evidence.take(n as int),
    decreases n,
{
    if n > 0 {
        lemma_settled_evidence(entries, evidence, (n - 1) as nat);
        let row = evidence[n - 1];
        assert forall|k: int| 0 <= k < evidence.len() implies !#[trigger] supersedes(
            entries,
            evidence[k],
            row,
        ) by {
            let other = evidence[k];
            lemma_first_match(entries, entry_is(other.entry_id));
            lemma_first_match(entries, entry_is(row.entry_id));
            if supersedes(entries, other, row) {
                let i = first_match(entries, entry_is(other.entry_id))->Some_0;
                let j = first_match(entries, entry_is(row.entry_id))->Some_0;
                lemma_alone_in_group(entries, j, i);
                if k < n - 1 {
                    assert(!(evidence[k].entry_id == evidence[n - 1].entry_id && same_source(
                        evidence[k],
                        evidence[n - 1],
                    )));
                } else if n - 1 < k {
                    assert(!(evidence[n - 1].entry_id == evidence[k].entry_id && same_source(
                        evidence[n - 1],
                        evidence[k],
                    )));
                } else {
                    law_text_order(row.observed_at, row.observed_at, row.observed_at);
                    law_text_order(row.evidence_id, row.evidence_id, row.evidence_id);
                }
            }
        }
        lemma_settled_id(entries, row.entry_id);
        assert(evidence.take(n as int) =~= evidence.take(n - 1).push(row));
    } else {
        assert(kept_evidence(entries, evidence, n) =~= evidence.take(0));
    }
}

/// A store that is migrated stays as it is when it is migrated again.
pub proof fn law_migrated_store_stays(tables: MemoryTablesView)
    requires
        is_migrated(tables),
    ensures
        migrated(tables) == tables,
{
    let entries = tables.entries;
    lemma_settled_rows(entries, entries.len());
    assert(entries.take(entries.len() as int) =~= entries);
    lemma_settled_evidence(entries, tables.evidence, tables.evidence.len());
    assert(tables.evidence.take(tables.evidence.len() as int) =~= tables.evidence);
    let chosen = entries.filter(key_changes());
    lemma_filter_holds(entries, key_changes());
    if chosen.len() > 0 {
        assert(chosen.contains(chosen[0]));
        assert(entries.contains(chosen[0]));
        let i = choose|i: int| 0 <= i < entries.len() && entries[i] == chosen[0];
        assert(entries[i].normalized_key == new_key(entries[i]));
        assert(key_changes()(chosen[0]));
    }
    let rows = all_rekeyed(tables.revocations, ordered(chosen, by_identity()));
    assert(rows == tables.revocations);
    law_united_revocations_stay(rows, rows.len());
    assert(rows.take(rows.len() as int) =~= rows);
}

/// A second run of the migration changes nothing.
pub proof fn law_migrating_twice_is_migrating_once(tables: MemoryTablesView)
    requires
        tables.well_formed(),
    ensures
        migrated(migrated(tables)) == migrated(tables),
{
    law_migration_settles_the_store(tables);
    law_migrated_store_stays(migrated(tables));
}

// ---------------------------------------------------------------------------
// What the migration keeps of entries that are one.
// ---------------------------------------------------------------------------
/// The key of the claim of an entry: that of its body, if the user made it, and else the
/// one that it has.
pub open spec fn claim_key(row: EntryRowView) -> Seq<char> {
    if row.origin == "explicit_user"@ {
        memory_key(row.body)
    } else {
        row.normalized_key
    }
}

/// Whether two entries make the same claim in the same scope.
pub open spec fn claim_the_same(a: EntryRowView, b: EntryRowView) -> bool {
    &&& a.scope_type == b.scope_type
    &&& a.scope_id == b.scope_id
    &&& claim_key(a) == claim_key(b)
}

/// Whether a row says what another one says.
pub open spec fn says_the_same(a: EntryRowView, b: EntryRowView) -> bool {
    &&& a.kind == b.kind
    &&& a.body == b.body
    &&& a.origin == b.origin
    &&& a.state == b.state
    &&& a.updated_at == b.updated_at
    &&& a.last_recalled_at == b.last_recalled_at
    &&& a.expires_at == b.expires_at
}

/// Whether an entry is the one whose words stand for all that make its claim: among
/// those of the user, if there are any, and else among all, none was written later.
pub open spec fn is_last_word(entries: Seq<EntryRowView>, m: int) -> bool {
    &&& 0 <= m < entries.len()
    &&& forall|j: int|
        0 <= j < entries.len() && claim_the_same(#[trigger] entries[j], entries[m])
            && entries[j].origin == "explicit_user"@ ==> entries[m].origin == "explicit_user"@
            && !text_less(entries[m].updated_at, entries[j].updated_at)
    &&& entries[m].origin != "explicit_user"@ ==> forall|j: int|
        0 <= j < entries.len() && claim_the_same(#[trigger] entries[j], entries[m]) ==> !text_less(
            entries[m].updated_at,
            entries[j].updated_at,
        )
}

proof fn lemma_fresher_orders(a: EntryRowView, b: EntryRowView, c: EntryRowView)
    ensures
        !fresher(b, a) ==> !text_less(a.updated_at, b.updated_at),
        fresher(c, a) && fresher(a, b) ==> fresher(c, b),
        !fresher(a, a),
        a.entry_id != b.entry_id && !fresher(a, b) ==> fresher(b, a),
{
    law_text_order(a.updated_at, b.updated_at, c.updated_at);
    law_text_order(b.updated_at, a.updated_at, c.updated_at);
    law_text_order(c.updated_at, b.updated_at, a.updated_at);
    law_text_order(c.updated_at, a.updated_at, b.updated_at);
    law_text_order(b.updated_at, c.updated_at, a.updated_at);
    law_text_order(a.updated_at, c.updated_at, b.updated_at);
    law_text_order(a.entry_id, b.entry_id, c.entry_id);
    law_text_order(b.entry_id, a.entry_id, c.entry_id);
    law_text_order(b.entry_id, c.entry_id, a.entry_id);
    law_text_order(c.entry_id, a.entry_id, b.entry_id);
    law_text_order(a.entry_id, c.entry_id, b.entry_id);
}

proof fn lemma_freshest_is_last(entries: Seq<EntryRowView>, i: int, n: nat, explicit_only: bool)
    requires
        entry_ids_differ(entries),
        0 <= i < entries.len(),
        n <= entries.len(),
    ensures
        match freshest_among(entries, i, n, explicit_only) {
            Some(k) => {
                &&& 0 <= k < n
                &&& same_group(entries[k], entries[i])
                &&& explicit_only ==> entries[k].origin == "explicit_user"@
                &&& forall|j: int|
                    0 <= j < n && same_group(#[trigger] entries[j], entries[i]) && (explicit_only
                        ==> entries[j].origin == "explicit_user"@) ==> !fresher(
                        entries[j],
                        entries[k],
                    )
            },
            None => forall|j: int|
                0 <= j < n && same_group(#[trigger] entries[j], entries[i]) ==> explicit_only
                    && entries[j].origin != "explicit_user"@,
        },
    decreases n,
{
    if n > 0 {
        let m = (n - 1) as nat;
        lemma_freshest_is_last(entries, i, m, explicit_only);
        let row = entries[m as int];
        let counts = same_group(row, entries[i]) && (explicit_only ==> row.origin
            == "explicit_user"@);
        lemma_fresher_orders(row, row, row);
        if let Some(best) = freshest_among(entries, i, m, explicit_only) {
            assert(entries[best].entry_id != entries[m as int].entry_id);
            lemma_fresher_orders(entries[best], row, row);
            lemma_fresher_orders(row, entries[best], row);
            if counts && !fresher(entries[best], row) {
                assert forall|j: int|
                    0 <= j < n && same_group(#[trigger] entries[j], entries[i]) && (explicit_only
                        ==> entries[j].origin == "explicit_user"@) implies !fresher(
                    entries[j],
                    row,
                ) by {
                    if j < m {
                        lemma_fresher_orders(row, entries[best], entries[j]);
                    }
                }
            }
        }
    }
}

proof fn lemma_content_is_last_word(entries: Seq<EntryRowView>, i: int) -> (m: int)
    requires
        entry_ids_differ(entries),
        0 <= i < entries.len(),
    ensures
        is_last_word(entries, m),
        same_group(entries[m], entries[i]),
        content_of(entries, i) == entries[m],
{
    lemma_freshest_is_last(entries, i, entries.len(), true);
    lemma_freshest_is_last(entries, i, entries.len(), false);
    let said = freshest_among(entries, i, entries.len(), true);
    let any = freshest_among(entries, i, entries.len(), false);
    assert(same_group(entries[i], entries[i]));
    let m = match said {
        Some(k) => k,
        None => any->Some_0,
    };
    assert forall|j: int|
        0 <= j < entries.len() && claim_the_same(#[trigger] entries[j], entries[m]) implies {
        &&& entries[j].origin == "explicit_user"@ ==> entries[m].origin == "explicit_user"@
        &&& (entries[j].origin == "explicit_user"@ || entries[m].origin != "explicit_user"@)
            ==> !text_less(entries[m].updated_at, entries[j].updated_at)
    } by {
        assert(same_group(entries[j], entries[i]));
        lemma_fresher_orders(entries[m], entries[j], entries[j]);
    }
    m
}

/// After the migration an entry stands for all entries that made its claim: it has the
/// ID and the age of the oldest of them, and says what the last of them says, the
/// user's words before any that were inferred.
pub proof fn law_migrated_entry_stands_for_its_claim(tables: MemoryTablesView, i: int)
    requires
        tables.well_formed(),
        0 <= i < migrated(tables).entries.len(),
    ensures
        exists|k: int, m: int|
            {
                &&& 0 <= k < tables.entries.len()
                &&& is_last_word(tables.entries, m)
                &&& claim_the_same(tables.entries[m], tables.entries[k])
                &&& #[trigger] stands_for(
                    migrated(tables).entries[i],
                    tables.entries[k],
                    tables.entries[m],
                )
                &&& forall|j: int|
                    0 <= j < tables.entries.len() && claim_the_same(
                        #[trigger] tables.entries[j],
                        tables.entries[k],
                    ) ==> !text_less(
                        tables.entries[j].created_at,
                        migrated(tables).entries[i].created_at,
                    )
            },
{
    let entries = tables.entries;
    let row = migrated(tables).entries[i];
    lemma_kept_rows(entries, entries.len());
    assert(has_stayed(entries, entries.len(), row));
    let k = choose|k: int| stayed_for(entries, entries.len(), row, k);
    let m = lemma_content_is_last_word(entries, k);
    lemma_oldest(entries, k, entries.len());
    assert(stands_for(row, entries[k], entries[m]));
    assert forall|j: int|
        0 <= j < entries.len() && claim_the_same(
            #[trigger] entries[j],
            entries[k],
        ) implies !text_less(entries[j].created_at, row.created_at) by {
        assert(same_group(entries[j], entries[k]));
        assert(!older(entries[j], entries[k]));
    }
}

/// Whether a row is that of one entry with what another one says.
pub open spec fn stands_for(row: EntryRowView, kept: EntryRowView, said: EntryRowView) -> bool {
    &&& row.entry_id == kept.entry_id
    &&& row.scope_type == kept.scope_type
    &&& row.scope_id == kept.scope_id
    &&& row.created_at == kept.created_at
    &&& row.normalized_key == claim_key(kept)
    &&& says_the_same(row, said)
}

proof fn lemma_supersedes_orders(
    entries: Seq<EntryRowView>,
    a: EvidenceRowView,
    b: EvidenceRowView,
    c: EvidenceRowView,
)
    ensures
        !supersedes(entries, a, a),
        supersedes(entries, a, b) && supersedes(entries, b, c) ==> supersedes(entries, a, c),
{
    law_text_order(a.observed_at, b.observed_at, c.observed_at);
    law_text_order(a.evidence_id, b.evidence_id, c.evidence_id);
}

proof fn lemma_best_source(
    entries: Seq<EntryRowView>,
    evidence: Seq<EvidenceRowView>,
    i: int,
    n: nat,
) -> (k: int)
    requires
        0 <= i < evidence.len(),
        n <= evidence.len(),
    ensures
        0 <= k < evidence.len(),
        k == i || supersedes(entries, evidence[k], evidence[i]),
        forall|j: int|
            0 <= j < n ==> !supersedes(entries, #[trigger] evidence[j], evidence[k]),
    decreases n,
{
    if n == 0 {
        i
    } else {
        let best = lemma_best_source(entries, evidence, i, (n - 1) as nat);
        let next = evidence[n - 1];
        lemma_supersedes_orders(entries, next, evidence[best], evidence[i]);
        if supersedes(entries, next, evidence[best]) {
            assert forall|j: int| 0 <= j < n implies !supersedes(
                entries,
                #[trigger] evidence[j],
                next,
            ) by {
                lemma_supersedes_orders(entries, evidence[j], next, evidence[best]);
                lemma_supersedes_orders(entries, next, next, next);
            }
            n - 1
        } else {
            best
        }
    }
}

proof fn lemma_kept_source(
    entries: Seq<EntryRowView>,
    evidence: Seq<EvidenceRowView>,
    k: int,
    n: nat,
)
    requires
        0 <= k < n <= evidence.len(),
        !is_superfluous(entries, evidence, evidence[k]),
    ensures
        kept_evidence(entries, evidence, n).contains(
            EvidenceRowView { entry_id: kept_id(entries, evidence[k].entry_id), ..evidence[k] },
        ),
    decreases n,
{
    let before = kept_evidence(entries, evidence, (n - 1) as nat);
    let after = kept_evidence(entries, evidence, n);
    let row = EvidenceRowView {
        entry_id: kept_id(entries, evidence[k].entry_id),
        ..evidence[k]
    };
    if k == n - 1 {
        assert(after[before.len() as int] == row);
    } else {
        lemma_kept_source(entries, evidence, k, (n - 1) as nat);
        let m = choose|m: int| 0 <= m < before.len() && before[m] == row;
        assert(after[m] == row);
    }
}

/// The migration loses no source: whatever was evidence of an entry, its session, turn
/// and message are evidence of the entry that stands for it.
pub proof fn law_migration_loses_no_source(tables: MemoryTablesView, e: int, i: int)
    requires
        tables.well_formed(),
        0 <= e < tables.evidence.len(),
        0 <= i < tables.entries.len(),
        tables.evidence[e].entry_id == tables.entries[i].entry_id,
    ensures
        exists|x: int, k: int|
            0 <= x < migrated(tables).evidence.len() && 0 <= k < migrated(tables).entries.len()
                && is_source_of_claim(
                #[trigger] migrated(tables).evidence[x],
                #[trigger] migrated(tables).entries[k],
                tables.evidence[e],
                tables.entries[i],
            ),
{
    let entries = tables.entries;
    let evidence = tables.evidence;
    let after = migrated(tables);
    let best = lemma_best_source(entries, evidence, e, evidence.len());
    assert(!is_superfluous(entries, evidence, evidence[best]));
    lemma_kept_source(entries, evidence, best, evidence.len());
    let row = EvidenceRowView {
        entry_id: kept_id(entries, evidence[best].entry_id),
        ..evidence[best]
    };
    let x = choose|x: int| 0 <= x < after.evidence.len() && after.evidence[x] == row;
    assert(after.evidence[x] == row);
    lemma_first_match(entries, entry_is(evidence[e].entry_id));
    lemma_first_match(entries, entry_is(evidence[best].entry_id));
    let at = first_match(entries, entry_is(evidence[e].entry_id));
    assert(entry_is(evidence[e].entry_id)(entries[i]));
    assert(at is Some);
    if at->Some_0 < i {
        assert(entries[at->Some_0].entry_id != entries[i].entry_id);
    } else if at->Some_0 > i {
        assert(entries[i].entry_id != entries[at->Some_0].entry_id);
    }
    assert(at == Some(i));
    let b = first_match(entries, entry_is(evidence[best].entry_id))->Some_0;
    assert(same_group(entries[b], entries[i]));
    let k0 = keeper_of(entries, b);
    lemma_oldest(entries, b, entries.len());
    lemma_keeper_is_kept(entries, b);
    lemma_keeper_stays(entries, k0, entries.len());
    assert(after.entries.contains(kept_row(entries, k0)));
    let k = choose|k: int|
        0 <= k < after.entries.len() && after.entries[k] == kept_row(entries, k0);
    assert(after.entries[k].entry_id == entries[k0].entry_id);
    assert(row.entry_id == entries[k0].entry_id);
    assert(is_source_of_claim(after.evidence[x], after.entries[k], evidence[e], entries[i]));
}

/// Whether a piece of evidence is that of an entry, from a source that another is from,
/// and the entry makes the claim of another.
pub open spec fn is_source_of_claim(
    row: EvidenceRowView,
    entry: EntryRowView,
    source: EvidenceRowView,
    claim: EntryRowView,
) -> bool {
    &&& row.entry_id == entry.entry_id
    &&& row.session_id == source.session_id
    &&& row.turn_id == source.turn_id
    &&& row.source_user_item_id == source.source_user_item_id
    &&& entry.scope_type == claim.scope_type
    &&& entry.scope_id == claim.scope_id
    &&& entry.normalized_key == claim_key(claim)
}

/// Whether an entry of the user gets another key, and a revocation is of it under the
/// key that it had.
pub open spec fn loses_key(row: RevocationRowView, entry: EntryRowView) -> bool {
    &&& entry.origin == "explicit_user"@
    &&& entry.normalized_key != memory_key(entry.body)
    &&& row.scope_type == entry.scope_type
    &&& row.scope_id == entry.scope_id
    &&& row.normalized_key == entry.normalized_key
}

proof fn lemma_untouched_revocation(
    revocations: Seq<RevocationRowView>,
    changed: Seq<EntryRowView>,
    r: int,
)
    requires
        0 <= r < revocations.len(),
        forall|k: int|
            0 <= k < changed.len() ==> (#[trigger] changed[k]).origin == "explicit_user"@
                && changed[k].normalized_key != memory_key(changed[k].body),
        forall|k: int| 0 <= k < changed.len() ==> !loses_key(revocations[r], #[trigger] changed[k]),
    ensures
        all_rekeyed(revocations, changed).len() == revocations.len(),
        all_rekeyed(revocations, changed)[r] == revocations[r],
    decreases changed.len(),
{
    if changed.len() > 0 {
        let front = changed.drop_last();
        assert(forall|k: int| 0 <= k < front.len() ==> #[trigger] front[k] == changed[k]);
        lemma_untouched_revocation(revocations, front, r);
        assert(!loses_key(revocations[r], changed[changed.len() - 1]));
    }
}

/// A revocation stays one of its identity, unless an entry of the user had that identity
/// and gets another key: the migration leaves a revocation of it.
pub proof fn law_migration_keeps_other_revocations(tables: MemoryTablesView, r: int)
    requires
        tables.well_formed(),
        0 <= r < tables.revocations.len(),
        forall|k: int|
            0 <= k < tables.entries.len() ==> !loses_key(
                tables.revocations[r],
                #[trigger] tables.entries[k],
            ),
    ensures
        exists|i: int|
            0 <= i < migrated(tables).revocations.len() && same_revoked(
                #[trigger] migrated(tables).revocations[i],
                tables.revocations[r],
            ) && !text_less(
                migrated(tables).revocations[i].revoked_at,
                tables.revocations[r].revoked_at,
            ),
{
    let chosen = tables.entries.filter(key_changes());
    let changed = ordered(chosen, by_identity());
    let rows = all_rekeyed(tables.revocations, changed);
    lemma_filter_holds(tables.entries, key_changes());
    assert forall|k: int| 0 <= k < changed.len() implies (#[trigger] changed[k]).origin
        == "explicit_user"@ && changed[k].normalized_key != memory_key(changed[k].body)
        && !loses_key(tables.revocations[r], changed[k]) by {
        assert(changed.contains(changed[k]));
        lemma_ordered_holds(chosen, by_identity(), changed[k]);
        assert(chosen.contains(changed[k]));
        assert(tables.entries.contains(changed[k]) && key_changes()(changed[k]));
        let m = choose|m: int| 0 <= m < tables.entries.len() && tables.entries[m] == changed[k];
        assert(!loses_key(tables.revocations[r], tables.entries[m]));
    }
    lemma_untouched_revocation(tables.revocations, changed, r);
    lemma_rekeyed_ids_differ(tables.revocations, changed);
    law_uniting_revocations(rows, r);
    let after = migrated(tables).revocations;
    let i = choose|i: int| 0 <= i < after.len() && same_revoked(#[trigger] after[i], rows[r]);
    law_migrated_revocation_is_latest(tables, i);
    assert(same_revoked(rows[r], after[i]));
}

proof fn lemma_inserted_keeps<V>(rows: Seq<V>, row: V, before: spec_fn(V, V) -> bool, x: V)
    ensures
        rows.contains(x) || x == row ==> insert_ordered(rows, row, before).contains(x),
    decreases rows.len(),
{
    let after = insert_ordered(rows, row, before);
    if rows.len() > 0 && before(row, rows.last()) {
        let front = rows.drop_last();
        let inner = insert_ordered(front, row, before);
        lemma_inserted_keeps(front, row, before, x);
        if rows.contains(x) || x == row {
            if x == rows.last() {
                assert(after[inner.len() as int] == x);
            } else {
                if rows.contains(x) {
                    let m = choose|m: int| 0 <= m < rows.len() && rows[m] == x;
                    assert(front[m] == x);
                }
                let k = choose|k: int| 0 <= k < inner.len() && inner[k] == x;
                assert(after[k] == x);
            }
        }
    } else if rows.contains(x) {
        let m = choose|m: int| 0 <= m < rows.len() && rows[m] == x;
        assert(after[m] == x);
    } else if x == row {
        assert(after[rows.len() as int] == x);
    }
}

proof fn lemma_ordered_keeps<V>(rows: Seq<V>, before: spec_fn(V, V) -> bool, x: V)
    ensures
        rows.contains(x) ==> ordered(rows, before).contains(x),
    decreases rows.len(),
{
    if rows.len() > 0 {
        let front = rows.drop_last();
        lemma_ordered_keeps(front, before, x);
        lemma_inserted_keeps(ordered(front, before), rows.last(), before, x);
        if rows.contains(x) && x != rows.last() {
            let m = choose|m: int| 0 <= m < rows.len() && rows[m] == x;
            assert(front[m] == x);
        }
    }
}

proof fn lemma_moved_revocation(
    entries: Seq<EntryRowView>,
    revocations: Seq<RevocationRowView>,
    changed: Seq<EntryRowView>,
    r: int,
    k: int,
)
    requires
        identities_differ(entries),
        0 <= r < revocations.len(),
        0 <= k < entries.len(),
        loses_key(revocations[r], entries[k]),
        forall|j: int|
            0 <= j < entries.len() ==> !loses_key(
                RevocationRowView {
                    normalized_key: memory_key(entries[k].body),
                    ..revocations[r]
                },
                #[trigger] entries[j],
            ),
        forall|c: int|
            0 <= c < changed.len() ==> entries.contains(#[trigger] changed[c])
                && changed[c].origin == "explicit_user"@ && changed[c].normalized_key != memory_key(
                changed[c].body,
            ),
    ensures
        all_rekeyed(revocations, changed).len() == revocations.len(),
        all_rekeyed(revocations, changed)[r] == if changed.contains(entries[k]) {
            RevocationRowView { normalized_key: memory_key(entries[k].body), ..revocations[r] }
        } else {
            revocations[r]
        },
    decreases changed.len(),
{
    let moved = RevocationRowView {
        normalized_key: memory_key(entries[k].body),
        ..revocations[r]
    };
    if changed.len() > 0 {
        let front = changed.drop_last();
        let last = changed.last();
        assert(forall|c: int| 0 <= c < front.len() ==> #[trigger] front[c] == changed[c]);
        lemma_moved_revocation(entries, revocations, front, r, k);
        assert(changed[changed.len() - 1] == last);
        assert(entries.contains(last));
        let j = choose|j: int| 0 <= j < entries.len() && entries[j] == last;
        assert(!loses_key(moved, entries[j]));
        if loses_key(revocations[r], last) && j != k {
            if j < k {
                assert(!same_identity(entries[j], entries[k]));
            } else {
                assert(!same_identity(entries[k], entries[j]));
            }
        }
        if front.contains(entries[k]) {
            let c = choose|c: int| 0 <= c < front.len() && front[c] == entries[k];
            assert(changed[c] == entries[k]);
        } else if changed.contains(entries[k]) {
            let c = choose|c: int| 0 <= c < changed.len() && changed[c] == entries[k];
            if c < front.len() {
                assert(front[c] == entries[k]);
            }
        }
    }
}

/// What revokes an entry of the user revokes it under its new key as well, unless that
/// key is one that another entry gives up.
pub proof fn law_migration_moves_the_revocation(tables: MemoryTablesView, r: int, k: int)
    requires
        tables.well_formed(),
        0 <= r < tables.revocations.len(),
        0 <= k < tables.entries.len(),
        loses_key(tables.revocations[r], tables.entries[k]),
        forall|j: int|
            0 <= j < tables.entries.len() ==> !loses_key(
                RevocationRowView {
                    normalized_key: memory_key(tables.entries[k].body),
                    ..tables.revocations[r]
                },
                #[trigger] tables.entries[j],
            ),
    ensures
        exists|i: int|
            {
                &&& 0 <= i < migrated(tables).revocations.len()
                &&& (#[trigger] migrated(tables).revocations[i]).scope_type
                    == tables.entries[k].scope_type
                &&& migrated(tables).revocations[i].scope_id == tables.entries[k].scope_id
                &&& migrated(tables).revocations[i].normalized_key == memory_key(
                    tables.entries[k].body,
                )
                &&& !text_less(
                    migrated(tables).revocations[i].revoked_at,
                    tables.revocations[r].revoked_at,
                )
            },
{
    let chosen = tables.entries.filter(key_changes());
    let changed = ordered(chosen, by_identity());
    let rows = all_rekeyed(tables.revocations, changed);
    lemma_filter_holds(tables.entries, key_changes());
    assert forall|c: int| 0 <= c < changed.len() implies tables.entries.contains(
        #[trigger] changed[c],
    ) && changed[c].origin == "explicit_user"@ && changed[c].normalized_key != memory_key(
        changed[c].body,
    ) by {
        assert(changed.contains(changed[c]));
        lemma_ordered_holds(chosen, by_identity(), changed[c]);
        assert(chosen.contains(changed[c]));
        assert(tables.entries.contains(changed[c]) && key_changes()(changed[c]));
    }
    assert(tables.entries.contains(tables.entries[k]));
    assert(key_changes()(tables.entries[k]));
    assert(chosen.contains(tables.entries[k]));
    lemma_ordered_keeps(chosen, by_identity(), tables.entries[k]);
    lemma_moved_revocation(tables.entries, tables.revocations, changed, r, k);
    lemma_rekeyed_ids_differ(tables.revocations, changed);
    law_uniting_revocations(rows, r);
    let after = migrated(tables).revocations;
    let i = choose|i: int| 0 <= i < after.len() && same_revoked(#[trigger] after[i], rows[r]);
    law_migrated_revocation_is_latest(tables, i);
    assert(same_revoked(rows[r], after[i]));
    assert(after[i].scope_type == tables.entries[k].scope_type);
}

// ---------------------------------------------------------------------------
// What the migration keeps of references and of sources.
// ---------------------------------------------------------------------------
proof fn lemma_kept_entry_is_keeper(tables: MemoryTablesView, i: int)
    requires
        tables.well_formed(),
        0 <= i < tables.entries.len(),
        has_entry(migrated(tables).entries, tables.entries[i].entry_id),
    ensures
        keeper_of(tables.entries, i) == i,
{
    let entries = tables.entries;
    let after = migrated(tables).entries;
    lemma_kept_rows(entries, entries.len());
    let x = choose|x: int|
        0 <= x < after.len() && (#[trigger] after[x]).entry_id == entries[i].entry_id;
    assert(has_stayed(entries, entries.len(), after[x]));
    let k = choose|k: int| stayed_for(entries, entries.len(), after[x], k);
    assert(entries[k].entry_id == entries[i].entry_id);
    if k < i {
        assert(entries[k].entry_id != entries[i].entry_id);
    } else if i < k {
        assert(entries[i].entry_id != entries[k].entry_id);
    }
}

/// Of two pieces of evidence from one source, that of the entry that is kept stays: what
/// another entry of the claim has from the same source goes.
pub proof fn law_migration_prefers_the_kept_entrys_source(
    tables: MemoryTablesView,
    own: int,
    other: int,
    i: int,
    j: int,
    x: int,
)
    requires
        tables.well_formed(),
        0 <= own < tables.evidence.len(),
        0 <= other < tables.evidence.len(),
        0 <= i < tables.entries.len(),
        0 <= j < tables.entries.len(),
        i != j,
        claim_the_same(tables.entries[i], tables.entries[j]),
        has_entry(migrated(tables).entries, tables.entries[i].entry_id),
        tables.evidence[own].entry_id == tables.entries[i].entry_id,
        tables.evidence[other].entry_id == tables.entries[j].entry_id,
        tables.evidence[own].session_id == tables.evidence[other].session_id,
        tables.evidence[own].turn_id == tables.evidence[other].turn_id,
        tables.evidence[own].source_user_item_id == tables.evidence[other].source_user_item_id,
        0 <= x < migrated(tables).evidence.len(),
    ensures
        migrated(tables).evidence[x].evidence_id != tables.evidence[other].evidence_id,
{
    let entries = tables.entries;
    let evidence = tables.evidence;
    lemma_kept_entry_is_keeper(tables, i);
    lemma_owner(entries, evidence[own].entry_id, i);
    lemma_owner(entries, evidence[other].entry_id, j);
    lemma_oldest(entries, i, entries.len());
    lemma_oldest(entries, j, entries.len());
    let kj = keeper_of(entries, j);
    if kj == j {
        assert(same_group(entries[i], entries[j]));
        assert(same_group(entries[j], entries[i]));
        assert(!older(entries[i], entries[j]));
        assert(!older(entries[j], entries[i]));
        lemma_older_orders(entries[i], entries[j], entries[i]);
        if i < j {
            assert(entries[i].entry_id != entries[j].entry_id);
        } else {
            assert(entries[j].entry_id != entries[i].entry_id);
        }
    }
    assert(supersedes(entries, evidence[own], evidence[other]));
    assert(is_superfluous(entries, evidence, evidence[other]));
    let row = migrated(tables).evidence[x];
    lemma_gathered(entries, evidence, evidence.len());
    assert(is_gathered(entries, evidence, evidence.len(), row));
    let k = choose|k: int| gathered_from(entries, evidence, evidence.len(), row, k);
    if row.evidence_id == evidence[other].evidence_id {
        if k < other {
            assert(evidence[k].evidence_id != evidence[other].evidence_id);
        } else if other < k {
            assert(evidence[other].evidence_id != evidence[k].evidence_id);
        }
    }
}

proof fn lemma_owner(entries: Seq<EntryRowView>, entry_id: Seq<char>, i: int)
    requires
        entry_ids_differ(entries),
        0 <= i < entries.len(),
        entries[i].entry_id == entry_id,
    ensures
        first_match(entries, entry_is(entry_id)) == Some(i),
{
    lemma_first_match(entries, entry_is(entry_id));
    assert(entry_is(entry_id)(entries[i]));
    let at = first_match(entries, entry_is(entry_id))->Some_0;
    if at < i {
        assert(entries[at].entry_id != entries[i].entry_id);
    } else if i < at {
        assert(entries[i].entry_id != entries[at].entry_id);
    }
}

/// Evidence that stays keeps what it says of its source, and when that was observed; it
/// only goes over to the entry that stands for its own.
pub proof fn law_migrated_evidence_is_as_it_was(tables: MemoryTablesView, x: int)
    requires
        tables.well_formed(),
        0 <= x < migrated(tables).evidence.len(),
    ensures
        exists|k: int|
            0 <= k < tables.evidence.len() && migrated(tables).evidence[x] == (EvidenceRowView {
                entry_id: migrated(tables).evidence[x].entry_id,
                ..#[trigger] tables.evidence[k]
            }),
        has_entry(migrated(tables).entries, migrated(tables).evidence[x].entry_id),
{
    let entries = tables.entries;
    let evidence = tables.evidence;
    let row = migrated(tables).evidence[x];
    lemma_gathered(entries, evidence, evidence.len());
    assert(is_gathered(entries, evidence, evidence.len(), row));
    let k = choose|k: int| gathered_from(entries, evidence, evidence.len(), row, k);
    assert(row == (EvidenceRowView { entry_id: row.entry_id, ..evidence[k] }));
    law_migration_keeps_store_well_formed(tables);
}

/// What replaces an entry is, after the migration, the entry that stands for it; an
/// entry that came to stand for both is replaced by nothing.
pub proof fn law_migrated_replacement_stands_for_the_old(
    tables: MemoryTablesView,
    i: int,
    m: int,
    j: int,
)
    requires
        tables.well_formed(),
        0 <= i < tables.entries.len(),
        has_entry(migrated(tables).entries, tables.entries[i].entry_id),
        is_last_word(tables.entries, m),
        claim_the_same(tables.entries[m], tables.entries[i]),
        forall|other: int|
            0 <= other < tables.entries.len() && other != m && claim_the_same(
                #[trigger] tables.entries[other],
                tables.entries[i],
            ) ==> !is_last_word(tables.entries, other),
        0 <= j < tables.entries.len(),
        tables.entries[m].replacement_entry_id == Some(tables.entries[j].entry_id),
    ensures
        exists|x: int, y: int|
            {
                &&& 0 <= x < migrated(tables).entries.len()
                &&& 0 <= y < migrated(tables).entries.len()
                &&& (#[trigger] migrated(tables).entries[x]).entry_id == tables.entries[i].entry_id
                &&& is_claim_of(#[trigger] migrated(tables).entries[y], tables.entries[j])
                &&& migrated(tables).entries[x].replacement_entry_id == if x == y {
                    None
                } else {
                    Some(migrated(tables).entries[y].entry_id)
                }
            },
{
    let entries = tables.entries;
    let after = migrated(tables).entries;
    lemma_kept_entry_is_keeper(tables, i);
    let said = lemma_content_is_last_word(entries, i);
    assert(claim_the_same(entries[said], entries[i]));
    assert(said == m);
    lemma_owner(entries, entries[j].entry_id, j);
    let kj = keeper_of(entries, j);
    lemma_oldest(entries, j, entries.len());
    lemma_keeper_is_kept(entries, j);
    lemma_keeper_stays(entries, i, entries.len());
    lemma_keeper_stays(entries, kj, entries.len());
    let x = choose|x: int| 0 <= x < after.len() && after[x] == kept_row(entries, i);
    let y = choose|y: int| 0 <= y < after.len() && after[y] == kept_row(entries, kj);
    assert(after[x].entry_id == entries[i].entry_id);
    assert(after[y].entry_id == entries[kj].entry_id);
    assert(is_claim_of(after[y], entries[j]));
    law_migration_keeps_store_well_formed(tables);
    if x != y {
        if x < y {
            assert(after[x].entry_id != after[y].entry_id);
        } else {
            assert(after[y].entry_id != after[x].entry_id);
        }
    }
}

/// Whether a row makes the claim of an entry, under its key.
pub open spec fn is_claim_of(row: EntryRowView, entry: EntryRowView) -> bool {
    &&& row.scope_type == entry.scope_type
    &&& row.scope_id == entry.scope_id
    &&& row.normalized_key == claim_key(entry)
}

/// After the migration every entry is searched by its key and its body, and nothing else
/// is searched.
pub proof fn law_migrated_index_is_of_the_entries(tables: MemoryTablesView, i: int)
    ensures
        migrated(tables).index.len() == migrated(tables).entries.len(),
        0 <= i < migrated(tables).entries.len() ==> {
            let row = migrated(tables).entries[i];
            let found = migrated(tables).index[i];
            found.entry_id == row.entry_id && found.normalized_key == row.normalized_key
                && found.body == row.body
        },
{
}

} // verus!
