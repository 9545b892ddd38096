//! Bringing the rows of an older store up to date.

use vstd::prelude::*;

use crate::memory_error::{MemoryError, MemoryErrorView};
use crate::store::{
    entry_ids_differ, evidence_ids_differ, evidence_is_owned, identities_differ,
    revocation_ids_differ, revocations_differ, same_revoked,
};
use crate::tables::{
    JobRow, JobRowView, MemoryTables, MemoryTablesView, RevocationRow, RevocationRowView,
};
use crate::text::{concat, law_text_order, less, opt_view, same_text, text_less, views};

verus! {

/// The version of the store that this library keeps.
pub const MEMORY_SCHEMA_VERSION: &'static str = "4";

// ---------------------------------------------------------------------------
// Jobs.
// ---------------------------------------------------------------------------
/// A job with a key: a job without one gets the key of its source.
pub open spec fn keyed_job(job: JobRowView) -> JobRowView {
    if job.job_key.len() == 0 {
        JobRowView { job_key: job.source_session_id + ":"@ + job.source_watermark, ..job }
    } else {
        job
    }
}

/// All jobs with keys.
pub open spec fn keyed_jobs(jobs: Seq<JobRowView>) -> Seq<JobRowView> {
    jobs.map_values(|job: JobRowView| keyed_job(job))
}

/// Whether no two jobs of a kind share a key.
pub open spec fn job_keys_differ(jobs: Seq<JobRowView>) -> bool {
    forall|i: int, j: int|
        0 <= i < j < jobs.len() ==> !((#[trigger] jobs[i]).job_kind == (
        #[trigger] jobs[j]).job_kind && jobs[i].job_key == jobs[j].job_key)
}

fn key_jobs(jobs: &Vec<JobRow>) -> (result: Vec<JobRow>)
    ensures
        views(result@) == keyed_jobs(views(jobs@)),
{
    let mut result: Vec<JobRow> = Vec::new();
    let mut i: usize = 0;
    while i < jobs.len()
        invariant
            i <= jobs.len(),
            result.len() == i,
            forall|j: int| 0 <= j < i ==> (#[trigger] result@[j])@ == keyed_job(jobs@[j]@),
        decreases jobs.len() - i,
    {
        let mut job = jobs[i].clone();
        if job.job_key.as_str().is_empty() {
            let source = concat(job.source_session_id.as_str(), ":");
            job.job_key = concat(source.as_str(), job.source_watermark.as_str());
        }
        result.push(job);
        i = i + 1;
    }
    assert(views(result@) =~= keyed_jobs(views(jobs@)));
    result
}

fn keys_differ(jobs: &Vec<JobRow>) -> (result: bool)
    ensures
        result == job_keys_differ(views(jobs@)),
{
    let ghost rows = views(jobs@);
    let mut i: usize = 0;
    while i < jobs.len()
        invariant
            i <= jobs.len(),
            rows == views(jobs@),
            forall|a: int, b: int|
                0 <= a < b < rows.len() && a < i ==> !((#[trigger] rows[a]).job_kind == (
                #[trigger] rows[b]).job_kind && rows[a].job_key == rows[b].job_key),
        decreases jobs.len() - i,
    {
        let mut j: usize = i + 1;
        while j < jobs.len()
            invariant
                i < j <= jobs.len(),
                rows == views(jobs@),
                forall|b: int|
                    i < b < j ==> !(rows[i as int].job_kind == (#[trigger] rows[b]).job_kind
                        && rows[i as int].job_key == rows[b].job_key),
            decreases jobs.len() - j,
        {
            assert(rows[i as int] == jobs@[i as int]@);
            assert(rows[j as int] == jobs@[j as int]@);
            if same_text(jobs[i].job_kind.as_str(), jobs[j].job_kind.as_str()) && same_text(
                jobs[i].job_key.as_str(),
                jobs[j].job_key.as_str(),
            ) {
                return false;
            }
            j = j + 1;
        }
        i = i + 1;
    }
    true
}

// ---------------------------------------------------------------------------
// Revocations.
// ---------------------------------------------------------------------------
/// The later of a text that may be missing and another.
pub open spec fn later_text(current: Option<Seq<char>>, next: Seq<char>) -> Option<Seq<char>> {
    match current {
        Some(current) if !text_less(current, next) => Some(current),
        _ => Some(next),
    }
}

/// The latest instant at which an identity was revoked, in the order of texts.
pub open spec fn latest_revoked(
    rows: Seq<RevocationRowView>,
    like: RevocationRowView,
) -> Option<Seq<char>>
    decreases rows.len(),
{
    if rows.len() == 0 {
        None
    } else {
        let before = latest_revoked(rows.drop_last(), like);
        if same_revoked(rows.last(), like) {
            later_text(before, rows.last().revoked_at)
        } else {
            before
        }
    }
}

/// The latest instant at which an identity was restored, in the order of texts.
pub open spec fn latest_restored(
    rows: Seq<RevocationRowView>,
    like: RevocationRowView,
) -> Option<Seq<char>>
    decreases rows.len(),
{
    if rows.len() == 0 {
        None
    } else {
        let before = latest_restored(rows.drop_last(), like);
        match rows.last().restored_at {
            Some(restored_at) if same_revoked(rows.last(), like) => later_text(
                before,
                restored_at,
            ),
            _ => before,
        }
    }
}

/// One revocation in place of all that speak of the same identity: revoked when
/// last revoked, and restored only if last restored no earlier than that.
pub open spec fn united(rows: Seq<RevocationRowView>, row: RevocationRowView) -> RevocationRowView {
    match latest_revoked(rows, row) {
        None => row,
        Some(revoked_at) => RevocationRowView {
            revoked_at,
            restored_at: match latest_restored(rows, row) {
                Some(restored_at) if !text_less(restored_at, revoked_at) => Some(restored_at),
                _ => None,
            },
            ..row
        },
    }
}

/// Whether a revocation has the last ID of all that speak of its identity.
pub open spec fn is_last_of_identity(rows: Seq<RevocationRowView>, row: RevocationRowView) -> bool {
    forall|j: int|
        0 <= j < rows.len() && same_revoked(#[trigger] rows[j], row) ==> !text_less(
            row.revocation_id,
            rows[j].revocation_id,
        )
}

/// The first rows with one revocation for each identity among all rows.
pub open spec fn united_rows(rows: Seq<RevocationRowView>, n: nat) -> Seq<RevocationRowView>
    decreases n,
{
    if n == 0 {
        Seq::empty()
    } else {
        let before = united_rows(rows, (n - 1) as nat);
        if is_last_of_identity(rows, rows[n - 1]) {
            before.push(united(rows, rows[n - 1]))
        } else {
            before
        }
    }
}

fn same_identity_revoked(a: &RevocationRow, b: &RevocationRow) -> (result: bool)
    ensures
        result == same_revoked(a@, b@),
{
    same_text(a.scope_type.as_str(), b.scope_type.as_str()) && same_text(
        a.scope_id.as_str(),
        b.scope_id.as_str(),
    ) && same_text(a.normalized_key.as_str(), b.normalized_key.as_str())
}

fn take_later(current: Option<String>, next: &String) -> (result: Option<String>)
    ensures
        opt_view(result) == later_text(opt_view(current), next@),
{
    match current {
        Some(current) => if less(current.as_str(), next.as_str()) {
            Some(next.clone())
        } else {
            Some(current)
        },
        None => Some(next.clone()),
    }
}

fn is_last(rows: &Vec<RevocationRow>, at: usize) -> (result: bool)
    requires
        at < rows.len(),
    ensures
        result == is_last_of_identity(views(rows@), views(rows@)[at as int]),
{
    let ghost all = views(rows@);
    assert(all[at as int] == rows@[at as int]@);
    let mut j: usize = 0;
    while j < rows.len()
        invariant
            at < rows.len(),
            j <= rows.len(),
            all == views(rows@),
            forall|k: int|
                0 <= k < j && same_revoked(#[trigger] all[k], all[at as int]) ==> !text_less(
                    all[at as int].revocation_id,
                    all[k].revocation_id,
                ),
        decreases rows.len() - j,
    {
        assert(all[j as int] == rows@[j as int]@);
        assert(all[at as int] == rows@[at as int]@);
        if same_identity_revoked(&rows[j], &rows[at]) && less(
            rows[at].revocation_id.as_str(),
            rows[j].revocation_id.as_str(),
        ) {
            return false;
        }
        j = j + 1;
    }
    true
}

fn unite(rows: &Vec<RevocationRow>, at: usize) -> (result: RevocationRow)
    requires
        at < rows.len(),
    ensures
        result@ == united(views(rows@), views(rows@)[at as int]),
{
    let ghost all = views(rows@);
    let ghost like = all[at as int];
    assert(like == rows@[at as int]@);
    let mut revoked_at: Option<String> = None;
    let mut restored_at: Option<String> = None;
    let mut j: usize = 0;
    while j < rows.len()
        invariant
            at < rows.len(),
            j <= rows.len(),
            all == views(rows@),
            like == rows@[at as int]@,
            opt_view(revoked_at) == latest_revoked(all.take(j as int), like),
            opt_view(restored_at) == latest_restored(all.take(j as int), like),
        decreases rows.len() - j,
    {
        let ghost next = all.take(j + 1);
        assert(next.drop_last() =~= all.take(j as int));
        assert(next.last() == rows@[j as int]@);
        if same_identity_revoked(&rows[j], &rows[at]) {
            revoked_at = take_later(revoked_at, &rows[j].revoked_at);
            if let Some(text) = &rows[j].restored_at {
                restored_at = take_later(restored_at, text);
            }
        }
        j = j + 1;
    }
    assert(all.take(rows.len() as int) =~= all);
    let mut row = rows[at].clone();
    match revoked_at {
        None => {},
        Some(revoked_at) => {
            row.restored_at = match restored_at {
                Some(restored_at) => if less(restored_at.as_str(), revoked_at.as_str()) {
                    None
                } else {
                    Some(restored_at)
                },
                None => None,
            };
            row.revoked_at = revoked_at;
        },
    }
    row
}

/// Unites the revocations that speak of the same identity.
pub fn unite_revocations(rows: &mut Vec<RevocationRow>)
    ensures
        views(final(rows)@) == united_rows(views(old(rows)@), views(old(rows)@).len()),
{
    let ghost all = views(rows@);
    let mut kept: Vec<RevocationRow> = Vec::new();
    let mut i: usize = 0;
    assert(views(kept@) =~= united_rows(all, 0));
    while i < rows.len()
        invariant
            i <= rows.len(),
            all == views(rows@),
            views(kept@) == united_rows(all, i as nat),
        decreases rows.len() - i,
    {
        if is_last(rows, i) {
            let row = unite(rows, i);
            let ghost before = views(kept@);
            let ghost added = row@;
            kept.push(row);
            assert(views(kept@) =~= before.push(added));
        }
        i = i + 1;
    }
    *rows = kept;
}

/// The store brought up to date, or why it cannot be.
pub open spec fn updated_schema(tables: MemoryTablesView) -> Result<
    MemoryTablesView,
    MemoryErrorView,
> {
    if !job_keys_differ(keyed_jobs(tables.jobs)) {
        Err(
            MemoryErrorView::Database(
                "UNIQUE constraint failed: memory_jobs.job_kind, memory_jobs.job_key"@,
            ),
        )
    } else {
        Ok(
            MemoryTablesView {
                jobs: keyed_jobs(tables.jobs),
                revocations: united_rows(tables.revocations, tables.revocations.len()),
                ..tables
            },
        )
    }
}

/// Brings the rows of an older store up to date: every job has a key, and every
/// revoked identity one revocation.
pub fn migrate_schema(tables: &mut MemoryTables) -> (result: Result<(), MemoryError>)
    ensures
        match (result, updated_schema(old(tables)@)) {
            (Ok(_), Ok(after)) => final(tables)@ == after,
            (Err(error), Err(refusal)) => final(tables)@ == old(tables)@ && error@ == refusal,
            _ => false,
        },
{
    let ghost before = tables@;
    let jobs = key_jobs(&tables.jobs);
    if !keys_differ(&jobs) {
        return Err(
            MemoryError::Database(
                "UNIQUE constraint failed: memory_jobs.job_kind, memory_jobs.job_key".to_string(),
            ),
        );
    }
    tables.jobs = jobs;
    unite_revocations(&mut tables.revocations);
    assert(Ok::<MemoryTablesView, MemoryErrorView>(tables@) == updated_schema(before));
    Ok(())
}

// ---------------------------------------------------------------------------
// Laws.
// ---------------------------------------------------------------------------
/// Whether a row came out of one of the first rows.
spec fn comes_from(rows: Seq<RevocationRowView>, n: nat, row: RevocationRowView, k: int) -> bool {
    &&& 0 <= k < n
    &&& is_last_of_identity(rows, rows[k])
    &&& row == united(rows, rows[k])
}

spec fn has_origin(rows: Seq<RevocationRowView>, n: nat, row: RevocationRowView) -> bool {
    exists|k: int| comes_from(rows, n, row, k)
}

proof fn lemma_united_rows(rows: Seq<RevocationRowView>, n: nat)
    requires
        n <= rows.len(),
        revocation_ids_differ(rows),
    ensures
        forall|i: int|
            0 <= i < united_rows(rows, n).len() ==> has_origin(
                rows,
                n,
                #[trigger] united_rows(rows, n)[i],
            ),
        revocations_differ(united_rows(rows, n)),
        revocation_ids_differ(united_rows(rows, n)),
        forall|k: int|
            0 <= k < n && is_last_of_identity(rows, #[trigger] rows[k]) ==> united_rows(
                rows,
                n,
            ).contains(united(rows, rows[k])),
    decreases n,
{
    if n > 0 {
        let m = (n - 1) as nat;
        lemma_united_rows(rows, m);
        let before = united_rows(rows, m);
        let after = united_rows(rows, n);
        assert forall|i: int| 0 <= i < after.len() implies has_origin(
            rows,
            n,
            #[trigger] after[i],
        ) by {
            if i < before.len() {
                assert(after[i] == before[i]);
                assert(has_origin(rows, m, before[i]));
                let k = choose|k: int| #[trigger] comes_from(rows, m, before[i], k);
                assert(comes_from(rows, n, after[i], k));
            } else {
                assert(comes_from(rows, n, after[i], n - 1));
            }
        }
        assert forall|i: int, j: int| 0 <= i < j < after.len() implies !same_revoked(
            #[trigger] after[i],
            #[trigger] after[j],
        ) && after[i].revocation_id != after[j].revocation_id by {
            if j < before.len() {
                assert(after[i] == before[i] && after[j] == before[j]);
                assert(before[i].revocation_id != before[j].revocation_id);
            } else {
                assert(after[i] == before[i]);
                assert(has_origin(rows, m, before[i]));
                let k = choose|k: int| #[trigger] comes_from(rows, m, before[i], k);
                assert(rows[k].revocation_id != rows[n - 1].revocation_id);
                if same_revoked(after[i], after[j]) {
                    assert(same_revoked(rows[k], rows[n - 1]));
                    assert(same_revoked(rows[n - 1], rows[k]));
                    law_text_order(rows[k].revocation_id, rows[n - 1].revocation_id, Seq::empty());
                }
            }
        }
        assert forall|k: int|
            0 <= k < n && is_last_of_identity(rows, #[trigger] rows[k]) implies after.contains(
            united(rows, rows[k]),
        ) by {
            if k < m {
                let x = united(rows, rows[k]);
                assert(before.contains(x));
                let i = choose|i: int| 0 <= i < before.len() && before[i] == x;
                assert(after[i] == x);
            } else {
                assert(after[after.len() - 1] == united(rows, rows[k]));
            }
        }
    }
}

proof fn lemma_identity_has_last(rows: Seq<RevocationRowView>, n: nat, at: int) -> (k: int)
    requires
        0 <= at < n <= rows.len(),
    ensures
        0 <= k < n,
        same_revoked(rows[k], rows[at]),
        forall|j: int|
            0 <= j < n && same_revoked(#[trigger] rows[j], rows[at]) ==> !text_less(
                rows[k].revocation_id,
                rows[j].revocation_id,
            ),
    decreases n,
{
    let m = (n - 1) as nat;
    let last = rows[n - 1];
    law_text_order(last.revocation_id, last.revocation_id, Seq::empty());
    if at == n - 1 {
        if exists|j: int| 0 <= j < m && same_revoked(#[trigger] rows[j], rows[at]) {
            let j = choose|j: int| 0 <= j < m && same_revoked(#[trigger] rows[j], rows[at]);
            let k = lemma_identity_has_last(rows, m, j);
            if text_less(rows[k].revocation_id, last.revocation_id) {
                assert forall|i: int|
                    0 <= i < n && same_revoked(#[trigger] rows[i], rows[at]) implies !text_less(
                    last.revocation_id,
                    rows[i].revocation_id,
                ) by {
                    if i < m {
                        law_text_order(
                            rows[k].revocation_id,
                            last.revocation_id,
                            rows[i].revocation_id,
                        );
                    }
                }
                n - 1
            } else {
                k
            }
        } else {
            n - 1
        }
    } else {
        let k = lemma_identity_has_last(rows, m, at);
        if same_revoked(last, rows[at]) && text_less(rows[k].revocation_id, last.revocation_id) {
            assert forall|i: int|
                0 <= i < n && same_revoked(#[trigger] rows[i], rows[at]) implies !text_less(
                last.revocation_id,
                rows[i].revocation_id,
            ) by {
                if i < m {
                    law_text_order(
                        rows[k].revocation_id,
                        last.revocation_id,
                        rows[i].revocation_id,
                    );
                }
            }
            n - 1
        } else {
            k
        }
    }
}

/// Uniting revocations leaves one for each identity: none twice, and none lost.
pub proof fn law_uniting_revocations(rows: Seq<RevocationRowView>, at: int)
    requires
        revocation_ids_differ(rows),
        0 <= at < rows.len(),
    ensures
        revocations_differ(united_rows(rows, rows.len())),
        revocation_ids_differ(united_rows(rows, rows.len())),
        exists|i: int|
            0 <= i < united_rows(rows, rows.len()).len() && same_revoked(
                #[trigger] united_rows(rows, rows.len())[i],
                rows[at],
            ),
{
    lemma_united_rows(rows, rows.len());
    let k = lemma_identity_has_last(rows, rows.len(), at);
    assert(is_last_of_identity(rows, rows[k]));
    let x = united(rows, rows[k]);
    let after = united_rows(rows, rows.len());
    assert(after.contains(x));
    let i = choose|i: int| 0 <= i < after.len() && after[i] == x;
    assert(same_revoked(after[i], rows[at]));
}

// ---------------------------------------------------------------------------
// What uniting leaves of an identity.
// ---------------------------------------------------------------------------
/// Whether a text is the latest time at which rows revoke the identity of a row.
pub open spec fn is_latest_revoked(
    rows: Seq<RevocationRowView>,
    like: RevocationRowView,
    revoked_at: Seq<char>,
) -> bool {
    &&& exists|j: int|
        0 <= j < rows.len() && same_revoked(#[trigger] rows[j], like) && rows[j].revoked_at
            == revoked_at
    &&& forall|j: int|
        0 <= j < rows.len() && same_revoked(#[trigger] rows[j], like) ==> !text_less(
            revoked_at,
            rows[j].revoked_at,
        )
}

/// Whether a text is the latest time at which rows restore the identity of a row.
pub open spec fn is_latest_restored(
    rows: Seq<RevocationRowView>,
    like: RevocationRowView,
    restored_at: Seq<char>,
) -> bool {
    &&& exists|j: int|
        0 <= j < rows.len() && same_revoked(#[trigger] rows[j], like) && rows[j].restored_at
            == Some(restored_at)
    &&& forall|j: int|
        0 <= j < rows.len() && same_revoked(#[trigger] rows[j], like) ==> (
        rows[j].restored_at matches Some(text) ==> !text_less(restored_at, text))
}

/// Whether no identity was restored before it was revoked.
pub open spec fn restored_after_revoked(rows: Seq<RevocationRowView>) -> bool {
    forall|i: int|
        0 <= i < rows.len() ==> ((#[trigger] rows[i]).restored_at matches Some(text)
            ==> !text_less(text, rows[i].revoked_at))
}

proof fn lemma_latest_revoked(rows: Seq<RevocationRowView>, like: RevocationRowView)
    ensures
        match latest_revoked(rows, like) {
            None => forall|j: int|
                0 <= j < rows.len() ==> !same_revoked(#[trigger] rows[j], like),
            Some(revoked_at) => is_latest_revoked(rows, like, revoked_at),
        },
    decreases rows.len(),
{
    if rows.len() > 0 {
        let front = rows.drop_last();
        let last = rows.last();
        lemma_latest_revoked(front, like);
        assert(last == rows[rows.len() - 1]);
        assert forall|j: int| 0 <= j < front.len() implies #[trigger] rows[j] == front[j] by {}
        match latest_revoked(rows, like) {
            None => {},
            Some(revoked_at) => {
                law_text_order(revoked_at, revoked_at, revoked_at);
                if latest_revoked(front, like) == Some(revoked_at) {
                    let j = choose|j: int|
                        0 <= j < front.len() && same_revoked(#[trigger] front[j], like)
                            && front[j].revoked_at == revoked_at;
                    assert(same_revoked(rows[j], like));
                } else {
                    assert(same_revoked(rows[rows.len() - 1], like));
                }
                assert forall|j: int|
                    0 <= j < rows.len() && same_revoked(
                        #[trigger] rows[j],
                        like,
                    ) implies !text_less(revoked_at, rows[j].revoked_at) by {
                    if j < front.len() {
                        assert(same_revoked(front[j], like));
                        let before = latest_revoked(front, like)->Some_0;
                        law_text_order(before, revoked_at, rows[j].revoked_at);
                    }
                }
            },
        }
    }
}

proof fn lemma_latest_restored(rows: Seq<RevocationRowView>, like: RevocationRowView)
    ensures
        match latest_restored(rows, like) {
            None => forall|j: int|
                0 <= j < rows.len() && same_revoked(#[trigger] rows[j], like)
                    ==> rows[j].restored_at is None,
            Some(restored_at) => is_latest_restored(rows, like, restored_at),
        },
    decreases rows.len(),
{
    if rows.len() > 0 {
        let front = rows.drop_last();
        let last = rows.last();
        lemma_latest_restored(front, like);
        assert(last == rows[rows.len() - 1]);
        assert forall|j: int| 0 <= j < front.len() implies #[trigger] rows[j] == front[j] by {}
        match latest_restored(rows, like) {
            None => {},
            Some(restored_at) => {
                law_text_order(restored_at, restored_at, restored_at);
                if latest_restored(front, like) == Some(restored_at) {
                    let j = choose|j: int|
                        0 <= j < front.len() && same_revoked(#[trigger] front[j], like)
                            && front[j].restored_at == Some(restored_at);
                    assert(same_revoked(rows[j], like));
                } else {
                    assert(same_revoked(rows[rows.len() - 1], like));
                }
                assert forall|j: int|
                    0 <= j < rows.len() && same_revoked(#[trigger] rows[j], like) implies (
                rows[j].restored_at matches Some(text) ==> !text_less(restored_at, text)) by {
                    if j < front.len() && rows[j].restored_at is Some {
                        assert(same_revoked(front[j], like));
                        let before = latest_restored(front, like)->Some_0;
                        law_text_order(before, restored_at, rows[j].restored_at->Some_0);
                    }
                }
            },
        }
    }
}

/// What stays of an identity has the latest time of revocation, and a time of
/// restoring only where the latest one is not earlier than that.
pub proof fn law_united_revocation_is_latest(rows: Seq<RevocationRowView>, i: int)
    requires
        revocation_ids_differ(rows),
        0 <= i < united_rows(rows, rows.len()).len(),
    ensures
        ({
            let row = united_rows(rows, rows.len())[i];
            &&& is_latest_revoked(rows, row, row.revoked_at)
            &&& match row.restored_at {
                Some(restored_at) => is_latest_restored(rows, row, restored_at) && !text_less(
                    restored_at,
                    row.revoked_at,
                ),
                None => forall|j: int|
                    0 <= j < rows.len() && same_revoked(#[trigger] rows[j], row) ==> (
                    rows[j].restored_at matches Some(text) ==> text_less(text, row.revoked_at)),
            }
        }),
{
    lemma_united_rows(rows, rows.len());
    let row = united_rows(rows, rows.len())[i];
    assert(has_origin(rows, rows.len(), row));
    let k = choose|k: int| #[trigger] comes_from(rows, rows.len(), row, k);
    lemma_latest_revoked(rows, rows[k]);
    lemma_latest_restored(rows, rows[k]);
    assert(same_revoked(rows[k], rows[k]));
    assert(row == united(rows, rows[k]));
    let revoked_at = row.revoked_at;
    let j = choose|j: int|
        0 <= j < rows.len() && same_revoked(#[trigger] rows[j], rows[k]) && rows[j].revoked_at
            == revoked_at;
    assert(same_revoked(rows[j], row));
    match row.restored_at {
        Some(restored_at) => {
            let m = choose|m: int|
                0 <= m < rows.len() && same_revoked(#[trigger] rows[m], rows[k])
                    && rows[m].restored_at == Some(restored_at);
            assert(same_revoked(rows[m], row));
            assert forall|a: int|
                0 <= a < rows.len() && same_revoked(#[trigger] rows[a], row) implies (
            rows[a].restored_at matches Some(text) ==> !text_less(restored_at, text)) by {
                assert(same_revoked(rows[a], rows[k]));
            }
        },
        None => {
            assert forall|a: int|
                0 <= a < rows.len() && same_revoked(#[trigger] rows[a], row) implies (
            rows[a].restored_at matches Some(text) ==> text_less(text, row.revoked_at)) by {
                assert(same_revoked(rows[a], rows[k]));
                if rows[a].restored_at is Some {
                    let text = rows[a].restored_at->Some_0;
                    let latest = latest_restored(rows, rows[k])->Some_0;
                    law_text_order(latest, text, row.revoked_at);
                    law_text_order(text, latest, row.revoked_at);
                }
            }
        },
    }
}

proof fn lemma_only_of_identity(rows: Seq<RevocationRowView>, i: int, n: nat)
    requires
        revocations_differ(rows),
        0 <= i < rows.len(),
        n <= rows.len(),
    ensures
        latest_revoked(rows.take(n as int), rows[i]) == if i < n {
            Some(rows[i].revoked_at)
        } else {
            None
        },
        latest_restored(rows.take(n as int), rows[i]) == if i < n {
            rows[i].restored_at
        } else {
            None
        },
    decreases n,
{
    if n > 0 {
        let m = (n - 1) as nat;
        lemma_only_of_identity(rows, i, m);
        assert(rows.take(n as int).drop_last() =~= rows.take(m as int));
        assert(rows.take(n as int).last() == rows[n - 1]);
        if n - 1 < i {
            assert(!same_revoked(rows[n - 1], rows[i]));
        } else if i < n - 1 {
            assert(!same_revoked(rows[i], rows[n - 1]));
        }
    }
}

/// Revocations of different identities, none restored before it was revoked, are
/// united already.
pub proof fn law_united_revocations_stay(rows: Seq<RevocationRowView>, n: nat)
    requires
        revocations_differ(rows),
        restored_after_revoked(rows),
        n <= rows.len(),
    ensures
        united_rows(rows, n) == rows.take(n as int),
    decreases n,
{
    if n > 0 {
        let m = (n - 1) as nat;
        law_united_revocations_stay(rows, m);
        let row = rows[n - 1];
        lemma_only_of_identity(rows, n - 1, rows.len());
        assert(rows.take(rows.len() as int) =~= rows);
        assert forall|j: int|
            0 <= j < rows.len() && same_revoked(#[trigger] rows[j], row) implies !text_less(
            row.revocation_id,
            rows[j].revocation_id,
        ) by {
            if j < n - 1 {
                assert(!same_revoked(rows[j], rows[n - 1]));
            } else if n - 1 < j {
                assert(!same_revoked(rows[n - 1], rows[j]));
            }
            law_text_order(row.revocation_id, row.revocation_id, row.revocation_id);
        }
        assert(is_last_of_identity(rows, row));
        assert(united(rows, row) == row);
        assert(rows.take(n as int) =~= rows.take(m as int).push(row));
    } else {
        assert(united_rows(rows, n) =~= rows.take(0));
    }
}

/// Bringing a store up to date makes it well-formed: it needs only that the keys of
/// its tables are unique and that evidence belongs to an entry, and what it revokes
/// occurs once afterwards.
pub proof fn law_updating_makes_store_well_formed(tables: MemoryTablesView)
    requires
        entry_ids_differ(tables.entries),
        identities_differ(tables.entries),
        evidence_ids_differ(tables.evidence),
        evidence_is_owned(tables.evidence, tables.entries),
        revocation_ids_differ(tables.revocations),
    ensures
        updated_schema(tables) matches Ok(updated) ==> updated.well_formed(),
{
    lemma_united_rows(tables.revocations, tables.revocations.len());
}

/// Bringing a store up to date once is enough: a second time changes nothing.
pub proof fn law_updating_twice_is_updating_once(tables: MemoryTablesView)
    requires
        revocation_ids_differ(tables.revocations),
    ensures
        updated_schema(tables) matches Ok(updated) ==> updated_schema(updated) == Ok::<
            MemoryTablesView,
            MemoryErrorView,
        >(updated),
{
    if updated_schema(tables) is Ok {
        let updated = updated_schema(tables)->Ok_0;
        let jobs = keyed_jobs(tables.jobs);
        reveal_strlit(":");
        assert(keyed_jobs(jobs) =~= jobs) by {
            assert forall|i: int| 0 <= i < jobs.len() implies keyed_job(#[trigger] jobs[i])
                == jobs[i] by {
                assert(jobs[i] == keyed_job(tables.jobs[i]));
            }
        }
        let rows = updated.revocations;
        lemma_united_rows(tables.revocations, tables.revocations.len());
        assert forall|i: int| 0 <= i < rows.len() implies ((
        #[trigger] rows[i]).restored_at matches Some(text) ==> !text_less(
            text,
            rows[i].revoked_at,
        )) by {
            law_united_revocation_is_latest(tables.revocations, i);
        }
        law_united_revocations_stay(rows, rows.len());
        assert(rows.take(rows.len() as int) =~= rows);
    }
}

} // verus!
