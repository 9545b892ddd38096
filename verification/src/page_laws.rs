//! Laws of what is shown of a store: the page of a scope, and the status.

use vstd::prelude::*;

use crate::claim_laws::lemma_scope_name;
use crate::entries::projection_from;
use crate::memory_error::MemoryErrorView;
use crate::projection::{
    all_entry_lines, all_source_lines, entry_lines, kind_is, kind_section,
    law_page_shows_every_entry, projection_heading, projection_of, shows,
};
use crate::queries::lemma_entries_from_rows;
use crate::rows::{lemma_filter_holds, ordered};
use crate::rpc_memory::{
    MemoryEntryView, MemoryKind, MemoryOrigin, MemoryProvenanceView, MemoryScope, MemoryState,
    MemoryStatus,
};
use crate::search_laws::law_stored_names;
use crate::status::{
    fails_with, is_completed_scan, is_status_of, is_unavailable, jobs_in, latest_scan_text,
    redacted,
};
use crate::store::{entry_from, entry_in_scope, law_reading_orders, newer_first, scope_entries};
use crate::stored_values::{
    kind_text, law_stored_names_read_back, origin_text, scope_of, scope_text, state_text,
};
use crate::tables::{JobRowView, MemoryTablesView};
use crate::text::{law_text_order, text_less, views};
use crate::time::{parsed_timestamp, Timestamp};

verus! {

// ---------------------------------------------------------------------------
// The page.
// ---------------------------------------------------------------------------
/// The name of a kind.
pub open spec fn kind_name(kind: MemoryKind) -> Seq<char> {
    match kind {
        MemoryKind::Fact => "fact"@,
        MemoryKind::Feedback => "feedback"@,
        MemoryKind::Preference => "preference"@,
        MemoryKind::Reference => "reference"@,
    }
}

/// The name of a state.
pub open spec fn state_name(state: MemoryState) -> Seq<char> {
    match state {
        MemoryState::Active => "active"@,
        MemoryState::Stale => "stale"@,
        MemoryState::Conflicted => "conflicted"@,
        MemoryState::Retired => "retired"@,
        MemoryState::Restored => "restored"@,
    }
}

/// The name of an origin.
pub open spec fn origin_name(origin: MemoryOrigin) -> Seq<char> {
    match origin {
        MemoryOrigin::ExplicitUser => "explicit_user"@,
        MemoryOrigin::InferredSession => "inferred_session"@,
    }
}

pub proof fn lemma_names(kind: MemoryKind, state: MemoryState, origin: MemoryOrigin)
    ensures
        kind_text(kind) == kind_name(kind),
        state_text(state) == state_name(state),
        origin_text(origin) == origin_name(origin),
{
    law_stored_names_read_back(MemoryScope::User, kind, state, origin);
    law_stored_names(kind_text(kind));
    law_stored_names(state_text(state));
    law_stored_names(origin_text(origin));
}

/// The heading of a page, which says whose memory it shows and that it is generated.
pub open spec fn heading_of(scope: MemoryScope) -> Seq<char> {
    (match scope {
        MemoryScope::User => "# User"@,
        MemoryScope::Project => "# Project"@,
    })
        + " Memory\n\n<!-- Generated from SQLite. Read-only; manual edits are not canonical. -->\n"@
}

proof fn lemma_heading(scope: MemoryScope)
    ensures
        projection_heading(scope) == heading_of(scope),
{
    reveal_strlit("# ");
    reveal_strlit("User");
    reveal_strlit("Project");
    reveal_strlit("# User");
    reveal_strlit("# Project");
    assert("# "@ + "User"@ =~= "# User"@);
    assert("# "@ + "Project"@ =~= "# Project"@);
}

/// A page without entries says so, below its heading.
pub proof fn law_empty_page_says_so(scope: MemoryScope)
    ensures
        projection_of(scope, Seq::empty()) == heading_of(scope) + "\n_No memory entries._\n"@,
{
    lemma_heading(scope);
}

/// The entries of a page as they stand below a name: those of a kind, in their order.
pub open spec fn section_of(kind: MemoryKind, entries: Seq<MemoryEntryView>) -> Seq<char> {
    if exists|i: int| 0 <= i < entries.len() && (#[trigger] entries[i]).kind == kind {
        "\n## "@ + kind_name(kind) + "\n"@ + all_entry_lines(entries.filter(kind_is(kind)))
    } else {
        Seq::empty()
    }
}

/// A page has its entries by kind: facts, feedback, preferences and references, each
/// below the name of the kind, and no name without an entry.
pub proof fn law_page_is_by_kind(scope: MemoryScope, entries: Seq<MemoryEntryView>)
    requires
        entries.len() > 0,
    ensures
        projection_of(scope, entries) == heading_of(scope) + section_of(MemoryKind::Fact, entries)
            + section_of(MemoryKind::Feedback, entries) + section_of(
            MemoryKind::Preference,
            entries,
        ) + section_of(MemoryKind::Reference, entries),
{
    lemma_heading(scope);
    lemma_section(MemoryKind::Fact, entries);
    lemma_section(MemoryKind::Feedback, entries);
    lemma_section(MemoryKind::Preference, entries);
    lemma_section(MemoryKind::Reference, entries);
}

proof fn lemma_section(kind: MemoryKind, entries: Seq<MemoryEntryView>)
    ensures
        kind_section(kind, entries) == section_of(kind, entries),
{
    lemma_names(kind, MemoryState::Active, MemoryOrigin::ExplicitUser);
    let own = entries.filter(kind_is(kind));
    lemma_filter_holds(entries, kind_is(kind));
    if own.len() > 0 {
        assert(own.contains(own[0]));
        assert(entries.contains(own[0]) && kind_is(kind)(own[0]));
        let i = choose|i: int| 0 <= i < entries.len() && entries[i] == own[0];
        assert(entries[i].kind == kind);
    } else if exists|i: int| 0 <= i < entries.len() && (#[trigger] entries[i]).kind == kind {
        let i = choose|i: int| 0 <= i < entries.len() && (#[trigger] entries[i]).kind == kind;
        assert(entries.contains(entries[i]));
        assert(own.contains(entries[i]));
    }
}

/// An entry stands on a page with its ID, its body, its state, its origin and its times,
/// and below them its sources, if it has any, in their order.
pub proof fn law_page_shows_an_entry_in_full(
    scope: MemoryScope,
    entries: Seq<MemoryEntryView>,
    i: int,
)
    requires
        0 <= i < entries.len(),
    ensures
        ({
            let entry = entries[i];
            let facts = "\n- `"@ + entry.entry_id + "` \u{2014} "@ + entry.body + "\n  - state: "@
                + state_name(entry.state) + "\n  - origin: "@ + origin_name(entry.origin)
                + "\n  - created_at: "@ + entry.created_at.text() + "\n  - updated_at: "@
                + entry.updated_at.text() + "\n"@;
            &&& entry.provenance.len() == 0 ==> shows(projection_of(scope, entries), facts)
            &&& entry.provenance.len() > 0 ==> shows(
                projection_of(scope, entries),
                facts + "  - sources:\n"@ + all_source_lines(entry.provenance),
            )
        }),
{
    lemma_names(entries[i].kind, entries[i].state, entries[i].origin);
    law_page_shows_every_entry(scope, entries, i);
}

/// Lines stand one behind the other: those of the first entries, then those of the next.
pub proof fn law_lines_stand_in_order(
    entries: Seq<MemoryEntryView>,
    entry: MemoryEntryView,
    sources: Seq<MemoryProvenanceView>,
    source: MemoryProvenanceView,
)
    ensures
        all_entry_lines(Seq::empty()).len() == 0,
        all_entry_lines(entries.push(entry)) == all_entry_lines(entries) + entry_lines(entry),
        all_source_lines(Seq::empty()).len() == 0,
        all_source_lines(sources.push(source)) == all_source_lines(sources)
            + "    - source_session_id: "@ + name_or_none(source.source_session_id)
            + "\n      source_turn_id: "@ + name_or_none(source.source_turn_id)
            + "\n      source_user_item_id: "@ + name_or_none(source.source_user_item_id) + "\n"@,
{
    assert(entries.push(entry).drop_last() =~= entries);
    assert(sources.push(source).drop_last() =~= sources);
    let front = all_source_lines(sources);
    let a = "    - source_session_id: "@;
    let b = name_or_none(source.source_session_id);
    let c = "\n      source_turn_id: "@;
    let d = name_or_none(source.source_turn_id);
    let e = "\n      source_user_item_id: "@;
    let f = name_or_none(source.source_user_item_id);
    let g = "\n"@;
    assert(front + (a + b + c + d + e + f + g) =~= front + a + b + c + d + e + f + g);
}

/// A name that may be missing.
pub open spec fn name_or_none(name: Option<Seq<char>>) -> Seq<char> {
    match name {
        Some(name) => name,
        None => "<none>"@,
    }
}

/// The page of a scope shows the entry of every row of the scope, whatever its state,
/// and is that of the scope.
pub proof fn law_page_is_of_the_scope(
    tables: MemoryTablesView,
    scope: MemoryScope,
    scope_id: Seq<char>,
    i: int,
)
    requires
        0 <= i < tables.entries.len(),
        scope_of(tables.entries[i].scope_type) == Ok::<MemoryScope, MemoryErrorView>(scope),
        tables.entries[i].scope_id == scope_id,
    ensures
        projection_from(tables, scope, scope_id) matches Ok(page) ==> {
            &&& page.scope == scope
            &&& page.scope_id == scope_id
            &&& entry_from(tables.entries[i], tables.evidence) matches Ok(entry) && shows(
                page.text,
                entry_lines(entry),
            )
        },
{
    broadcast use vstd::seq_lib::group_to_multiset_ensures;

    let row = tables.entries[i];
    lemma_scope_name(row.scope_type, scope);
    let accepts = entry_in_scope(scope_text(scope), scope_id);
    let chosen = tables.entries.filter(accepts);
    let rows = ordered(chosen, newer_first());
    law_reading_orders(chosen, Seq::empty());
    lemma_filter_holds(tables.entries, accepts);
    assert(tables.entries.contains(row));
    assert(chosen.contains(row));
    assert(chosen.to_multiset().count(row) > 0);
    assert(rows.contains(row));
    let k = rows.index_of(row);
    assert(rows[k] == row);
    lemma_entries_from_rows(rows, tables.evidence);
    if let Ok(entries) = scope_entries(tables, scope, scope_id) {
        law_page_shows_every_entry(scope, entries, k);
    }
}

// ---------------------------------------------------------------------------
// The status.
// ---------------------------------------------------------------------------
/// A count of jobs counts each job in the state once, and no other.
pub proof fn law_jobs_are_counted_once(jobs: Seq<JobRowView>, job: JobRowView, state: Seq<char>)
    ensures
        jobs_in(Seq::empty(), state) == 0,
        job.state == state ==> jobs_in(jobs.push(job), state) == jobs_in(jobs, state) + 1,
        job.state != state ==> jobs_in(jobs.push(job), state) == jobs_in(jobs, state),
{
    assert(jobs.push(job).drop_last() =~= jobs);
}

proof fn lemma_latest_scan(jobs: Seq<JobRowView>)
    ensures
        match latest_scan_text(jobs) {
            None => forall|i: int|
                0 <= i < jobs.len() ==> !is_completed_scan(#[trigger] jobs[i]),
            Some(latest) => (exists|i: int|
                0 <= i < jobs.len() && is_completed_scan(#[trigger] jobs[i]) && jobs[i].updated_at
                    == latest) && forall|i: int|
                0 <= i < jobs.len() && is_completed_scan(#[trigger] jobs[i]) ==> !text_less(
                    latest,
                    jobs[i].updated_at,
                ),
        },
    decreases jobs.len(),
{
    if jobs.len() > 0 {
        let front = jobs.drop_last();
        let last = jobs.last();
        lemma_latest_scan(front);
        assert(forall|i: int| 0 <= i < front.len() ==> #[trigger] jobs[i] == front[i]);
        assert(jobs[jobs.len() - 1] == last);
        law_text_order(last.updated_at, last.updated_at, last.updated_at);
        match latest_scan_text(front) {
            None => {},
            Some(latest) => {
                let k = choose|k: int|
                    0 <= k < front.len() && is_completed_scan(#[trigger] front[k])
                        && front[k].updated_at == latest;
                assert(jobs[k].updated_at == latest);
                assert forall|i: int|
                    0 <= i < jobs.len() && is_completed_scan(#[trigger] jobs[i]) implies !text_less(
                    latest_scan_text(jobs)->Some_0,
                    jobs[i].updated_at,
                ) by {
                    if i < front.len() {
                        assert(is_completed_scan(front[i]));
                        law_text_order(latest, last.updated_at, jobs[i].updated_at);
                        law_text_order(jobs[i].updated_at, latest, last.updated_at);
                        law_text_order(last.updated_at, jobs[i].updated_at, latest);
                    }
                }
            },
        }
    }
}

/// Whether a class of failures may be shown as it is.
pub open spec fn may_be_shown(class: Seq<char>) -> bool {
    class == "credentials_unavailable"@ || class == "invalid_structured_output"@ || class
        == "permanent_provider_error"@ || class == "provider_unavailable"@ || class
        == "quota_unavailable"@ || class == "transient_provider_error"@
}

/// A status tells what the store has: all entries, the candidates, the jobs that are
/// pending, that are retried and that failed, when a source scan was last completed, and
/// of each failure its class, if the class may be shown, and else that it is unknown.
pub proof fn law_status_tells_the_store(
    status: MemoryStatus,
    enabled: bool,
    tables: MemoryTablesView,
)
    requires
        is_status_of(status, enabled, tables),
    ensures
        status.enabled == enabled,
        status.storage_health@ == "healthy"@,
        status.entry_count == tables.entries.len(),
        status.candidate_count == tables.candidate_count,
        status.pending_job_count == jobs_in(tables.jobs, "pending"@),
        status.retrying_job_count == jobs_in(tables.jobs, "retrying"@),
        status.error_job_count == jobs_in(tables.jobs, "error"@),
        status.last_successful_scan_at is None ==> forall|i: int|
            0 <= i < tables.jobs.len() && (#[trigger] tables.jobs[i]).job_kind == "source_scan"@
                ==> tables.jobs[i].state != "completed"@,
        status.last_successful_scan_at matches Some(at) ==> exists|i: int|
            is_latest_scan(tables.jobs, i, at),
        forall|i: int|
            0 <= i < tables.jobs.len() && (#[trigger] tables.jobs[i]).state == "error"@ ==> (
            tables.jobs[i].error_class matches Some(class) ==> views(
                status.error_classes@,
            ).contains(
                if may_be_shown(class) {
                    class
                } else {
                    "unknown"@
                },
            )),
        forall|c: int|
            0 <= c < status.error_classes@.len() ==> may_be_shown(
                (#[trigger] status.error_classes@[c])@,
            ) || status.error_classes@[c]@ == "unknown"@,
{
    let jobs = tables.jobs;
    lemma_latest_scan(jobs);
    if let Some(at) = status.last_successful_scan_at {
        let latest = latest_scan_text(jobs)->Some_0;
        let i = choose|i: int|
            0 <= i < jobs.len() && is_completed_scan(#[trigger] jobs[i]) && jobs[i].updated_at
                == latest;
        assert(is_latest_scan(jobs, i, at));
    } else {
        assert forall|i: int|
            0 <= i < jobs.len() && (#[trigger] jobs[i]).job_kind
                == "source_scan"@ implies jobs[i].state != "completed"@ by {
            assert(!is_completed_scan(jobs[i]));
        }
    }
    let classes = views(status.error_classes@);
    assert forall|i: int|
        0 <= i < jobs.len() && (#[trigger] jobs[i]).state == "error"@ implies (
    jobs[i].error_class matches Some(class) ==> classes.contains(
        if may_be_shown(class) {
            class
        } else {
            "unknown"@
        },
    )) by {
        if let Some(class) = jobs[i].error_class {
            assert(fails_with(jobs[i], redacted(class)));
            assert(classes.contains(redacted(class)));
        }
    }
    assert forall|c: int| 0 <= c < status.error_classes@.len() implies may_be_shown(
        (#[trigger] status.error_classes@[c])@,
    ) || status.error_classes@[c]@ == "unknown"@ by {
        assert(classes[c] == status.error_classes@[c]@);
        assert(classes.contains(classes[c]));
        let k = choose|k: int|
            0 <= k < jobs.len() && fails_with(#[trigger] jobs[k], classes[c]);
        assert(jobs[k].error_class is Some);
    }
}

/// Whether a job is the source scan that was completed last, at an instant.
pub open spec fn is_latest_scan(jobs: Seq<JobRowView>, i: int, at: Timestamp) -> bool {
    &&& 0 <= i < jobs.len()
    &&& jobs[i].state == "completed"@
    &&& jobs[i].job_kind == "source_scan"@
    &&& parsed_timestamp(jobs[i].updated_at) == Some(at)
    &&& forall|j: int|
        0 <= j < jobs.len() && (#[trigger] jobs[j]).state == "completed"@ && jobs[j].job_kind
            == "source_scan"@ ==> !text_less(jobs[i].updated_at, jobs[j].updated_at)
}

/// Where there is no store, a status says so and counts nothing.
pub proof fn law_status_without_a_store(status: MemoryStatus, enabled: bool)
    requires
        is_unavailable(status, enabled),
    ensures
        status.enabled == enabled,
        status.storage_health@ == "unavailable"@,
        status.entry_count == 0,
        status.candidate_count == 0,
        status.pending_job_count == 0,
        status.retrying_job_count == 0,
        status.error_job_count == 0,
        status.last_successful_scan_at is None,
        status@.error_classes.len() == 0,
{
}

} // verus!
