//! Aggregate health of the memory store.

use vstd::prelude::*;

use crate::memory_error::{MemoryError, MemoryErrorView};
use crate::rpc_memory::{MemoryStatus, MemoryStatusView};
use crate::stored_values::{parse_timestamp, timestamp_of};
use crate::tables::{JobRow, JobRowView, MemoryTables, MemoryTablesView};
use crate::text::{law_text_order, less, opt_view, same_text, text_less, views};
use crate::time::Timestamp;

verus! {

/// How many jobs are in a state.
pub open spec fn jobs_in(jobs: Seq<JobRowView>, state: Seq<char>) -> nat
    decreases jobs.len(),
{
    if jobs.len() == 0 {
        0
    } else {
        jobs_in(jobs.drop_last(), state) + if jobs.last().state == state {
            1nat
        } else {
            0nat
        }
    }
}

fn count_jobs(jobs: &Vec<JobRow>, state: &str) -> (result: u64)
    ensures
        result == jobs_in(views(jobs@), state@),
{
    let ghost rows = views(jobs@);
    let mut count: u64 = 0;
    let mut i: usize = 0;
    while i < jobs.len()
        invariant
            i <= jobs.len(),
            rows == views(jobs@),
            count == jobs_in(rows.take(i as int), state@),
            count <= i,
        decreases jobs.len() - i,
    {
        let ghost next = rows.take(i + 1);
        assert(next.drop_last() =~= rows.take(i as int));
        assert(next.last() == jobs@[i as int]@);
        if same_text(jobs[i].state.as_str(), state) {
            count = count + 1;
        }
        i = i + 1;
    }
    assert(rows.take(jobs.len() as int) =~= rows);
    count
}

/// Whether a job is a source scan that succeeded.
pub open spec fn is_completed_scan(job: JobRowView) -> bool {
    job.state == "completed"@ && job.job_kind == "source_scan"@
}

/// The latest text at which a source scan succeeded, in the order of texts.
pub open spec fn latest_scan_text(jobs: Seq<JobRowView>) -> Option<Seq<char>>
    decreases jobs.len(),
{
    if jobs.len() == 0 {
        None
    } else {
        let before = latest_scan_text(jobs.drop_last());
        let job = jobs.last();
        if !is_completed_scan(job) {
            before
        } else {
            match before {
                Some(latest) if !text_less(latest, job.updated_at) => Some(latest),
                _ => Some(job.updated_at),
            }
        }
    }
}

/// When a source scan last succeeded.
pub open spec fn last_scan(jobs: Seq<JobRowView>) -> Result<Option<Timestamp>, MemoryErrorView> {
    match latest_scan_text(jobs) {
        None => Ok(None),
        Some(text) => match timestamp_of(text) {
            Ok(timestamp) => Ok(Some(timestamp)),
            Err(error) => Err(error),
        },
    }
}

pub fn last_successful_scan_at(jobs: &Vec<JobRow>) -> (result: Result<
    Option<Timestamp>,
    MemoryError,
>)
    ensures
        match result {
            Ok(at) => last_scan(views(jobs@)) == Ok::<Option<Timestamp>, MemoryErrorView>(at),
            Err(error) => last_scan(views(jobs@)) == Err::<Option<Timestamp>, MemoryErrorView>(
                error@,
            ),
        },
{
    let ghost rows = views(jobs@);
    let mut latest: Option<String> = None;
    let mut i: usize = 0;
    while i < jobs.len()
        invariant
            i <= jobs.len(),
            rows == views(jobs@),
            opt_view(latest) == latest_scan_text(rows.take(i as int)),
        decreases jobs.len() - i,
    {
        let ghost next = rows.take(i + 1);
        assert(next.drop_last() =~= rows.take(i as int));
        assert(next.last() == jobs@[i as int]@);
        if same_text(jobs[i].state.as_str(), "completed") && same_text(
            jobs[i].job_kind.as_str(),
            "source_scan",
        ) {
            let later = match &latest {
                Some(latest) => less(latest.as_str(), jobs[i].updated_at.as_str()),
                None => true,
            };
            if later {
                latest = Some(jobs[i].updated_at.clone());
            }
        }
        i = i + 1;
    }
    assert(rows.take(jobs.len() as int) =~= rows);
    match latest {
        None => Ok(None),
        Some(text) => match parse_timestamp(text.as_str()) {
            Ok(timestamp) => Ok(Some(timestamp)),
            Err(error) => Err(error),
        },
    }
}

/// Whether a failure class is one of those that may be shown.
pub open spec fn is_public_class(class: Seq<char>) -> bool {
    ||| class == "credentials_unavailable"@
    ||| class == "invalid_structured_output"@
    ||| class == "permanent_provider_error"@
    ||| class == "provider_unavailable"@
    ||| class == "quota_unavailable"@
    ||| class == "transient_provider_error"@
}

/// A failure class as it is shown.
pub open spec fn redacted(class: Seq<char>) -> Seq<char> {
    if is_public_class(class) {
        class
    } else {
        "unknown"@
    }
}

pub fn redact_error_class(error_class: String) -> (result: String)
    ensures
        result@ == redacted(error_class@),
{
    let class = error_class.as_str();
    if same_text(class, "credentials_unavailable") || same_text(
        class,
        "invalid_structured_output",
    ) || same_text(class, "permanent_provider_error") || same_text(class, "provider_unavailable")
        || same_text(class, "quota_unavailable") || same_text(class, "transient_provider_error") {
        error_class
    } else {
        "unknown".to_string()
    }
}

/// Whether a job failed with a class that is shown as `class`.
pub open spec fn fails_with(job: JobRowView, class: Seq<char>) -> bool {
    job.state == "error"@ && (job.error_class matches Some(raw) && redacted(raw) == class)
}

/// Whether a list holds exactly the classes of failed jobs, each once, in order.
pub open spec fn are_error_classes(classes: Seq<Seq<char>>, jobs: Seq<JobRowView>) -> bool {
    &&& forall|i: int, j: int|
        0 <= i < j < classes.len() ==> text_less(#[trigger] classes[i], #[trigger] classes[j])
    &&& forall|class: Seq<char>|
        #[trigger] classes.contains(class) <==> exists|k: int|
            0 <= k < jobs.len() && fails_with(#[trigger] jobs[k], class)
}

fn add_class(classes: &mut Vec<String>, class: String)
    requires
        forall|i: int, j: int|
            0 <= i < j < old(classes).len() ==> text_less(
                #[trigger] views(old(classes)@)[i],
                #[trigger] views(old(classes)@)[j],
            ),
    ensures
        forall|i: int, j: int|
            0 <= i < j < final(classes).len() ==> text_less(
                #[trigger] views(final(classes)@)[i],
                #[trigger] views(final(classes)@)[j],
            ),
        forall|x: Seq<char>| #[trigger]
            views(final(classes)@).contains(x) <==> views(old(classes)@).contains(x) || x == class@,
{
    let ghost before = views(classes@);
    let ghost added = class@;
    let mut at: usize = 0;
    while at < classes.len() && less(classes[at].as_str(), class.as_str())
        invariant
            at <= classes.len(),
            before == views(classes@),
            added == class@,
            forall|i: int| 0 <= i < at ==> text_less(#[trigger] before[i], added),
        decreases classes.len() - at,
    {
        assert(before[at as int] == classes@[at as int]@);
        at = at + 1;
    }
    if at < classes.len() && same_text(classes[at].as_str(), class.as_str()) {
        assert(before[at as int] == added);
        assert(before.contains(added));
        return ;
    }
    proof {
        if at < classes.len() {
            assert(before[at as int] == classes@[at as int]@);
            law_text_order(added, before[at as int], added);
            assert forall|k: int| at <= k < before.len() implies text_less(
                added,
                #[trigger] before[k],
            ) by {
                if k > at {
                    assert(text_less(before[at as int], before[k]));
                    law_text_order(added, before[at as int], before[k]);
                }
            }
        }
    }
    classes.insert(at, class);
    let ghost after = views(classes@);
    assert(after =~= before.insert(at as int, added));
    assert forall|i: int, j: int| 0 <= i < j < after.len() implies text_less(
        #[trigger] after[i],
        #[trigger] after[j],
    ) by {
        let bi = if i < at {
            i
        } else {
            i - 1
        };
        let bj = if j < at {
            j
        } else {
            j - 1
        };
        if i == at {
            assert(after[j] == before[bj]);
        } else if j == at {
            assert(after[i] == before[bi]);
        } else {
            assert(after[i] == before[bi] && after[j] == before[bj]);
        }
    }
    assert forall|x: Seq<char>| #[trigger] after.contains(x) <==> before.contains(x) || x == added by {
        if before.contains(x) {
            let k = choose|k: int| 0 <= k < before.len() && before[k] == x;
            if k < at {
                assert(after[k] == x);
            } else {
                assert(after[k + 1] == x);
            }
        }
        if x == added {
            assert(after[at as int] == x);
        }
        if after.contains(x) {
            let k = choose|k: int| 0 <= k < after.len() && after[k] == x;
            if k < at {
                assert(before[k] == x);
            } else if k > at {
                assert(before[k - 1] == x);
            }
        }
    }
}

/// The distinct failure classes of error jobs, redacted and in order.
pub fn error_classes(jobs: &Vec<JobRow>) -> (result: Vec<String>)
    ensures
        are_error_classes(views(result@), views(jobs@)),
{
    let ghost rows = views(jobs@);
    let mut classes: Vec<String> = Vec::new();
    let mut i: usize = 0;
    while i < jobs.len()
        invariant
            i <= jobs.len(),
            rows == views(jobs@),
            are_error_classes(views(classes@), rows.take(i as int)),
        decreases jobs.len() - i,
    {
        let ghost seen = rows.take(i as int);
        let ghost next = rows.take(i + 1);
        let ghost before = views(classes@);
        assert(rows[i as int] == jobs@[i as int]@);
        if same_text(jobs[i].state.as_str(), "error") {
            if let Some(class) = &jobs[i].error_class {
                let shown = redact_error_class(class.clone());
                add_class(&mut classes, shown);
            }
        }
        assert forall|class: Seq<char>| #[trigger]
            views(classes@).contains(class) <==> exists|k: int|
                0 <= k < next.len() && fails_with(#[trigger] next[k], class) by {
            if views(classes@).contains(class) {
                if before.contains(class) {
                    let k = choose|k: int| 0 <= k < seen.len() && fails_with(#[trigger] seen[k], class);
                    assert(next[k] == seen[k]);
                } else {
                    assert(fails_with(next[i as int], class));
                }
            }
            if exists|k: int| 0 <= k < next.len() && fails_with(#[trigger] next[k], class) {
                let k = choose|k: int| 0 <= k < next.len() && fails_with(#[trigger] next[k], class);
                if k < i {
                    assert(seen[k] == next[k]);
                    assert(before.contains(class));
                }
            }
        }
        i = i + 1;
    }
    assert(rows.take(jobs.len() as int) =~= rows);
    classes
}

/// Whether a status tells the health of a store.
pub open spec fn is_status_of(
    status: MemoryStatus,
    enabled: bool,
    tables: MemoryTablesView,
) -> bool {
    &&& last_scan(tables.jobs) == Ok::<Option<Timestamp>, MemoryErrorView>(
        status.last_successful_scan_at,
    )
    &&& status.enabled == enabled
    &&& status.storage_health@ == "healthy"@
    &&& status.entry_count == tables.entries.len()
    &&& status.candidate_count == tables.candidate_count
    &&& status.pending_job_count == jobs_in(tables.jobs, "pending"@)
    &&& status.retrying_job_count == jobs_in(tables.jobs, "retrying"@)
    &&& status.error_job_count == jobs_in(tables.jobs, "error"@)
    &&& are_error_classes(views(status.error_classes@), tables.jobs)
}

/// Tells the aggregate health of a store.
pub fn status(enabled: bool, tables: &MemoryTables) -> (result: Result<MemoryStatus, MemoryError>)
    ensures
        match result {
            Ok(status) => is_status_of(status, enabled, tables@),
            Err(error) => last_scan(tables@.jobs) == Err::<Option<Timestamp>, MemoryErrorView>(
                error@,
            ),
        },
{
    let last_successful_scan_at = match last_successful_scan_at(&tables.jobs) {
        Ok(at) => at,
        Err(error) => return Err(error),
    };
    Ok(
        MemoryStatus {
            enabled,
            storage_health: "healthy".to_string(),
            entry_count: tables.entries.len() as u64,
            candidate_count: tables.candidate_count,
            pending_job_count: count_jobs(&tables.jobs, "pending"),
            retrying_job_count: count_jobs(&tables.jobs, "retrying"),
            error_job_count: count_jobs(&tables.jobs, "error"),
            last_successful_scan_at,
            error_classes: error_classes(&tables.jobs),
        },
    )
}

/// Whether a status is the one that is shown while memory cannot be reached.
pub open spec fn is_unavailable(status: MemoryStatus, enabled: bool) -> bool {
    status@ == (MemoryStatusView {
        enabled,
        storage_health: "unavailable"@,
        entry_count: 0,
        candidate_count: 0,
        pending_job_count: 0,
        retrying_job_count: 0,
        error_job_count: 0,
        last_successful_scan_at: None,
        error_classes: Seq::empty(),
    })
}

/// The status that is shown while memory cannot be reached.
pub fn unavailable_memory_status(enabled: bool) -> (result: MemoryStatus)
    ensures
        is_unavailable(result, enabled),
{
    let result = MemoryStatus {
        enabled,
        storage_health: "unavailable".to_string(),
        entry_count: 0,
        candidate_count: 0,
        pending_job_count: 0,
        retrying_job_count: 0,
        error_job_count: 0,
        last_successful_scan_at: None,
        error_classes: Vec::new(),
    };
    assert(result@.error_classes =~= Seq::<Seq<char>>::empty());
    result
}

/// Raw failure classes never show: what is shown is one of the public classes, or
/// `unknown`; and redacting twice changes nothing more.
pub proof fn law_redaction(class: Seq<char>)
    ensures
        is_public_class(redacted(class)) || redacted(class) == "unknown"@,
        redacted(redacted(class)) == redacted(class),
{
}

/// No count of jobs in a state exceeds the number of jobs.
pub proof fn law_job_counts_are_bounded(jobs: Seq<JobRowView>, state: Seq<char>)
    ensures
        jobs_in(jobs, state) <= jobs.len(),
    decreases jobs.len(),
{
    if jobs.len() > 0 {
        law_job_counts_are_bounded(jobs.drop_last(), state);
    }
}

} // verus!
