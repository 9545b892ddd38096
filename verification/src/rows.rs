//! Selecting, filtering and ordering the rows of a table.

use vstd::prelude::*;

verus! {

/// The position of the first row that a condition accepts.
pub open spec fn first_match<V>(rows: Seq<V>, accepts: spec_fn(V) -> bool) -> Option<int>
    decreases rows.len(),
{
    if rows.len() == 0 {
        None
    } else if accepts(rows[0]) {
        Some(0)
    } else {
        match first_match(rows.skip(1), accepts) {
            Some(i) => Some(i + 1),
            None => None,
        }
    }
}

/// The first row that a condition accepts.
pub open spec fn first_row<V>(rows: Seq<V>, accepts: spec_fn(V) -> bool) -> Option<V> {
    match first_match(rows, accepts) {
        Some(i) => Some(rows[i]),
        None => None,
    }
}

/// The position found is in range, is accepted, and nothing before it is.
pub proof fn lemma_first_match<V>(rows: Seq<V>, accepts: spec_fn(V) -> bool)
    ensures
        match first_match(rows, accepts) {
            Some(i) => {
                &&& 0 <= i < rows.len()
                &&& accepts(rows[i])
                &&& forall|j: int| 0 <= j < i ==> !accepts(#[trigger] rows[j])
            },
            None => forall|j: int| 0 <= j < rows.len() ==> !accepts(#[trigger] rows[j]),
        },
    decreases rows.len(),
{
    if rows.len() > 0 && !accepts(rows[0]) {
        let rest = rows.skip(1);
        lemma_first_match(rest, accepts);
        assert forall|j: int| 0 < j < rows.len() implies #[trigger] rows[j] == rest[j - 1] by {}
        match first_match(rest, accepts) {
            Some(i) => {
                assert forall|j: int| 0 <= j < i + 1 implies !accepts(#[trigger] rows[j]) by {
                    if j > 0 {
                        assert(rows[j] == rest[j - 1]);
                    }
                }
            },
            None => {
                assert forall|j: int| 0 <= j < rows.len() implies !accepts(#[trigger] rows[j]) by {
                    if j > 0 {
                        assert(rows[j] == rest[j - 1]);
                    }
                }
            },
        }
    }
}

/// What is accepted at a position, with nothing accepted before it, is the first
/// match.
pub proof fn lemma_is_first_match<V>(rows: Seq<V>, accepts: spec_fn(V) -> bool, i: int)
    requires
        0 <= i < rows.len(),
        accepts(rows[i]),
        forall|j: int| 0 <= j < i ==> !accepts(#[trigger] rows[j]),
    ensures
        first_match(rows, accepts) == Some(i),
{
    lemma_first_match(rows, accepts);
    match first_match(rows, accepts) {
        Some(k) => {
            if k < i {
                assert(!accepts(rows[k]));
            }
            if i < k {
                assert(!accepts(rows[i]));
            }
        },
        None => {
            assert(!accepts(rows[i]));
        },
    }
}

/// Where nothing is accepted there is no first match.
pub proof fn lemma_no_match<V>(rows: Seq<V>, accepts: spec_fn(V) -> bool)
    requires
        forall|j: int| 0 <= j < rows.len() ==> !accepts(#[trigger] rows[j]),
    ensures
        first_match(rows, accepts) is None,
{
    lemma_first_match(rows, accepts);
}

/// Filtering one row more keeps that row exactly when it is accepted.
pub proof fn lemma_filter_take<V>(rows: Seq<V>, i: int, accepts: spec_fn(V) -> bool)
    requires
        0 <= i < rows.len(),
    ensures
        rows.take(i + 1).filter(accepts) == if accepts(rows[i]) {
            rows.take(i).filter(accepts).push(rows[i])
        } else {
            rows.take(i).filter(accepts)
        },
{
    let next = rows.take(i + 1);
    assert(next.drop_last() =~= rows.take(i));
    assert(next.last() == rows[i]);
    reveal(Seq::filter);
}

/// A row is in the filtered rows exactly when it is in the rows and accepted.
pub proof fn lemma_filter_holds<V>(rows: Seq<V>, accepts: spec_fn(V) -> bool)
    ensures
        forall|row: V|
            rows.filter(accepts).contains(row) <==> (rows.contains(row) && accepts(row)),
    decreases rows.len(),
{
    reveal(Seq::filter);
    if rows.len() > 0 {
        let front = rows.drop_last();
        lemma_filter_holds(front, accepts);
        assert forall|row: V|
            rows.filter(accepts).contains(row) <==> (rows.contains(row) && accepts(row)) by {
            let kept = front.filter(accepts);
            let whole = rows.filter(accepts);
            if rows.contains(row) && accepts(row) {
                let i = choose|i: int| 0 <= i < rows.len() && rows[i] == row;
                if i == rows.len() - 1 {
                    assert(whole[whole.len() - 1] == row);
                } else {
                    assert(front[i] == row);
                    assert(kept.contains(row));
                    let k = choose|k: int| 0 <= k < kept.len() && kept[k] == row;
                    assert(whole[k] == row);
                }
            }
            if whole.contains(row) {
                let k = choose|k: int| 0 <= k < whole.len() && whole[k] == row;
                if k < kept.len() {
                    assert(kept[k] == row);
                    assert(front.contains(row));
                    let i = choose|i: int| 0 <= i < front.len() && front[i] == row;
                    assert(rows[i] == row);
                } else {
                    assert(rows[rows.len() - 1] == row);
                }
            }
        }
    }
}

/// Whether every row relates to every row behind it.
pub open spec fn all_pairs<V>(rows: Seq<V>, related: spec_fn(V, V) -> bool) -> bool {
    forall|i: int, j: int| 0 <= i < j < rows.len() ==> related(#[trigger] rows[i], #[trigger] rows[j])
}

/// What holds of all pairs of rows holds of all pairs that a filter keeps.
pub proof fn lemma_filter_keeps_pairs<V>(
    rows: Seq<V>,
    accepts: spec_fn(V) -> bool,
    related: spec_fn(V, V) -> bool,
)
    requires
        all_pairs(rows, related),
    ensures
        all_pairs(rows.filter(accepts), related),
    decreases rows.len(),
{
    reveal(Seq::filter);
    if rows.len() > 0 {
        let front = rows.drop_last();
        assert(all_pairs(front, related)) by {
            assert forall|i: int, j: int| 0 <= i < j < front.len() implies related(
                #[trigger] front[i],
                #[trigger] front[j],
            ) by {
                assert(front[i] == rows[i] && front[j] == rows[j]);
            }
        }
        lemma_filter_keeps_pairs(front, accepts, related);
        let kept = front.filter(accepts);
        let whole = rows.filter(accepts);
        assert(whole == if accepts(rows.last()) {
            kept.push(rows.last())
        } else {
            kept
        });
        assert forall|i: int, j: int| 0 <= i < j < whole.len() implies related(
            #[trigger] whole[i],
            #[trigger] whole[j],
        ) by {
            assert(whole[i] == kept[i]);
            if j < kept.len() {
                assert(whole[j] == kept[j]);
            } else {
                lemma_filter_holds(front, accepts);
                assert(kept.contains(kept[i]));
                assert(front.contains(kept[i]));
                let k = choose|k: int| 0 <= k < front.len() && front[k] == kept[i];
                assert(related(rows[k], rows[rows.len() - 1]));
            }
        }
    }
}

// ---------------------------------------------------------------------------
// Order.
// ---------------------------------------------------------------------------
/// Ordered rows with one more row in its place, behind the rows that it does not
/// come before.
pub open spec fn insert_ordered<V>(
    ordered: Seq<V>,
    row: V,
    before: spec_fn(V, V) -> bool,
) -> Seq<V>
    decreases ordered.len(),
{
    if ordered.len() > 0 && before(row, ordered.last()) {
        insert_ordered(ordered.drop_last(), row, before).push(ordered.last())
    } else {
        ordered.push(row)
    }
}

/// The rows in order; rows that neither come before the other stay as they stood.
pub open spec fn ordered<V>(rows: Seq<V>, before: spec_fn(V, V) -> bool) -> Seq<V>
    decreases rows.len(),
{
    if rows.len() == 0 {
        Seq::empty()
    } else {
        insert_ordered(ordered(rows.drop_last(), before), rows.last(), before)
    }
}

/// Inserting a row is inserting it behind the last row that it does not come
/// before.
pub proof fn lemma_insert_position<V>(
    rows: Seq<V>,
    row: V,
    before: spec_fn(V, V) -> bool,
    at: int,
)
    requires
        0 <= at <= rows.len(),
        forall|k: int| at <= k < rows.len() ==> before(row, #[trigger] rows[k]),
        at > 0 ==> !before(row, rows[at - 1]),
    ensures
        insert_ordered(rows, row, before) == rows.insert(at, row),
    decreases rows.len(),
{
    if at == rows.len() {
        assert(rows.insert(at, row) =~= rows.push(row));
    } else {
        let front = rows.drop_last();
        assert(before(row, rows[rows.len() - 1]));
        assert forall|k: int| at <= k < front.len() implies before(row, #[trigger] front[k]) by {
            assert(front[k] == rows[k]);
        }
        lemma_insert_position(front, row, before, at);
        assert(front.insert(at, row).push(rows.last()) =~= rows.insert(at, row));
    }
}

/// Whether no row comes before one that stands ahead of it.
pub open spec fn is_ordered<V>(rows: Seq<V>, before: spec_fn(V, V) -> bool) -> bool {
    forall|i: int, j: int|
        0 <= i < j < rows.len() ==> !before(#[trigger] rows[j], #[trigger] rows[i])
}

/// Whether a relation orders rows: never a row before itself, and what comes
/// after a row comes after all that the row comes after.
pub open spec fn orders<V>(before: spec_fn(V, V) -> bool) -> bool {
    &&& forall|a: V, b: V| #[trigger] before(a, b) ==> !before(b, a)
    &&& forall|a: V, b: V, c: V|
        !#[trigger] before(a, b) && !#[trigger] before(b, c) ==> !before(a, c)
}

proof fn lemma_insert_keeps_rows<V>(rows: Seq<V>, row: V, before: spec_fn(V, V) -> bool)
    ensures
        insert_ordered(rows, row, before).to_multiset() == rows.to_multiset().insert(row),
        insert_ordered(rows, row, before).len() == rows.len() + 1,
    decreases rows.len(),
{
    broadcast use vstd::seq_lib::group_to_multiset_ensures;

    if rows.len() > 0 && before(row, rows.last()) {
        let front = rows.drop_last();
        lemma_insert_keeps_rows(front, row, before);
        assert(front.push(rows.last()) =~= rows);
        assert(insert_ordered(rows, row, before).to_multiset() =~= rows.to_multiset().insert(row));
    }
}

proof fn lemma_insert_stays_ordered<V>(rows: Seq<V>, row: V, before: spec_fn(V, V) -> bool)
    requires
        orders(before),
        is_ordered(rows, before),
    ensures
        is_ordered(insert_ordered(rows, row, before), before),
        forall|x: V|
            insert_ordered(rows, row, before).contains(x) ==> rows.contains(x) || x == row,
    decreases rows.len(),
{
    let result = insert_ordered(rows, row, before);
    if rows.len() > 0 && before(row, rows.last()) {
        let front = rows.drop_last();
        let last = rows.last();
        assert(is_ordered(front, before)) by {
            assert forall|i: int, j: int| 0 <= i < j < front.len() implies !before(
                #[trigger] front[j],
                #[trigger] front[i],
            ) by {
                assert(front[j] == rows[j] && front[i] == rows[i]);
            }
        }
        lemma_insert_stays_ordered(front, row, before);
        let inner = insert_ordered(front, row, before);
        assert forall|i: int, j: int| 0 <= i < j < result.len() implies !before(
            #[trigger] result[j],
            #[trigger] result[i],
        ) by {
            if j == result.len() - 1 {
                assert(result[i] == inner[i]);
                assert(inner.contains(inner[i]));
                if front.contains(inner[i]) {
                    let k = choose|k: int| 0 <= k < front.len() && front[k] == inner[i];
                    assert(!before(rows[rows.len() - 1], rows[k]));
                } else {
                    assert(inner[i] == row);
                    assert(!before(last, row));
                }
            } else {
                assert(result[i] == inner[i] && result[j] == inner[j]);
            }
        }
        assert forall|x: V| result.contains(x) implies rows.contains(x) || x == row by {
            let k = choose|k: int| 0 <= k < result.len() && result[k] == x;
            if k < inner.len() {
                assert(inner.contains(inner[k]));
                if front.contains(x) {
                    let m = choose|m: int| 0 <= m < front.len() && front[m] == x;
                    assert(rows[m] == x);
                }
            } else {
                assert(rows[rows.len() - 1] == x);
            }
        }
    } else {
        assert forall|i: int, j: int| 0 <= i < j < result.len() implies !before(
            #[trigger] result[j],
            #[trigger] result[i],
        ) by {
            if j == result.len() - 1 {
                assert(!before(row, rows.last()));
                if i < rows.len() - 1 {
                    assert(!before(rows[rows.len() - 1], rows[i]));
                }
            } else {
                assert(result[i] == rows[i] && result[j] == rows[j]);
            }
        }
        assert forall|x: V| result.contains(x) implies rows.contains(x) || x == row by {
            let k = choose|k: int| 0 <= k < result.len() && result[k] == x;
            if k < rows.len() {
                assert(rows[k] == x);
            }
        }
    }
}

/// Ordering rows loses none, adds none, and leaves no row behind one that it
/// comes before.
pub proof fn law_ordered<V>(rows: Seq<V>, before: spec_fn(V, V) -> bool)
    requires
        orders(before),
    ensures
        ordered(rows, before).to_multiset() == rows.to_multiset(),
        ordered(rows, before).len() == rows.len(),
        is_ordered(ordered(rows, before), before),
    decreases rows.len(),
{
    broadcast use vstd::seq_lib::group_to_multiset_ensures;

    if rows.len() > 0 {
        let front = rows.drop_last();
        law_ordered(front, before);
        lemma_insert_keeps_rows(ordered(front, before), rows.last(), before);
        lemma_insert_stays_ordered(ordered(front, before), rows.last(), before);
        assert(front.push(rows.last()) =~= rows);
    }
}

} // verus!
