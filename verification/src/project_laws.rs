//! Laws of projects and stores: where a project is found, what its identity is made of,
//! and what an older store becomes.

use vstd::prelude::*;

use crate::entry_identity::{
    canonical_first, either_key_is, redirected, same_entries, without_self_replacement,
};
use crate::identity::{
    common_directory, directory_above, folded_unit, hex, hex_digit, identity_bytes, is_at_or_above,
    project_directory, repository_root, shared_directory, AskedPathView, Files, NativePathView,
    ProjectIdentityErrorView, ProjectIdentitySource,
};
use crate::rows::{insert_ordered, law_ordered, lemma_filter_holds, ordered};
use crate::schema::{keyed_jobs, updated_schema};
use crate::tables::{EntryRowView, JobRowView, MemoryTablesView};
use crate::text::{has_prefix, law_text_order, text_less, trimmed};

verus! {

// ---------------------------------------------------------------------------
// Where a project is found.
// ---------------------------------------------------------------------------
/// The path of a name below a directory.
pub open spec fn below(directory: NativePathView, name: Seq<char>) -> AskedPathView {
    AskedPathView::Below { directory, name }
}

/// The path that a name leads to from a directory: the name itself, if it is absolute.
pub open spec fn leads_to(files: Files, from: NativePathView, name: Seq<char>) -> AskedPathView {
    if (files.is_absolute)(name) {
        AskedPathView::Named(name)
    } else {
        below(from, name)
    }
}

/// The root of a repository is the nearest directory, from a workspace upwards, that has
/// a `.git`; there is none if no directory has one.
pub proof fn law_repository_is_the_nearest(files: Files, directory: NativePathView)
    ensures
        (files.exists)(below(directory, ".git"@)) ==> repository_root(files, directory) == Some(
            directory,
        ),
        !(files.exists)(below(directory, ".git"@)) ==> match (files.parent)(directory) {
            Some(parent) if parent.len() < directory.len() => repository_root(files, directory)
                == repository_root(files, parent),
            _ => repository_root(files, directory) is None,
        },
        repository_root(files, directory) matches Some(root) ==> is_at_or_above(
            files,
            root,
            directory,
        ) && (files.exists)(below(root, ".git"@)),
    decreases directory.len(),
{
    if !(files.exists)(below(directory, ".git"@)) {
        if let Some(parent) = directory_above((files.parent)(directory), directory) {
            law_repository_is_the_nearest(files, parent);
        }
    }
}

/// A workspace belongs to the project of its repository, and is one of its own where
/// there is none.
pub proof fn law_workspace_belongs_to_its_repository(
    files: Files,
    workspace: NativePathView,
    canonical: NativePathView,
)
    requires
        (files.canonical)(AskedPathView::Native(workspace)) == Ok::<NativePathView, Seq<char>>(
            canonical,
        ),
    ensures
        repository_root(files, canonical) is None ==> project_directory(files, workspace) == Ok::<
            (NativePathView, ProjectIdentitySource),
            ProjectIdentityErrorView,
        >((canonical, ProjectIdentitySource::WorkspaceRoot)),
        repository_root(files, canonical) matches Some(root) ==> match common_directory(
            files,
            root,
        ) {
            Ok(path) => project_directory(files, workspace) == Ok::<
                (NativePathView, ProjectIdentitySource),
                ProjectIdentityErrorView,
            >((path, ProjectIdentitySource::GitCommonDirectory)),
            Err(error) => project_directory(files, workspace) == Err::<
                (NativePathView, ProjectIdentitySource),
                ProjectIdentityErrorView,
            >(error),
        },
{
}

/// A workspace that cannot be resolved has no project, and is told why.
pub proof fn law_unknown_workspace_has_no_project(
    files: Files,
    workspace: NativePathView,
    reason: Seq<char>,
)
    requires
        (files.canonical)(AskedPathView::Native(workspace)) == Err::<NativePathView, Seq<char>>(
            reason,
        ),
    ensures
        project_directory(files, workspace) == Err::<
            (NativePathView, ProjectIdentitySource),
            ProjectIdentityErrorView,
        >(
            ProjectIdentityErrorView::Io {
                path: AskedPathView::Native(workspace),
                reason,
            },
        ),
{
}

/// The directory of a repository is its `.git`, where that is a directory. Where it is a
/// file, it must say `gitdir:` and a path, from the root of the repository if it is
/// relative; and what `commondir` says there, from that directory if it is relative, is
/// the directory that all work trees share.
pub proof fn law_repository_directory(
    files: Files,
    root: NativePathView,
    text: Seq<char>,
    rest: Seq<char>,
    git_dir: NativePathView,
)
    ensures
        (files.is_directory)(below(root, ".git"@)) ==> match (files.canonical)(
            below(root, ".git"@),
        ) {
            Ok(path) => common_directory(files, root) == Ok::<
                NativePathView,
                ProjectIdentityErrorView,
            >(path),
            Err(reason) => common_directory(files, root) == Err::<
                NativePathView,
                ProjectIdentityErrorView,
            >(ProjectIdentityErrorView::Io { path: below(root, ".git"@), reason }),
        },
        !(files.is_directory)(below(root, ".git"@)) && (files.text)(below(root, ".git"@)) == Ok::<
            Seq<char>,
            Seq<char>,
        >(text) ==> {
            &&& trimmed(text) == "gitdir:"@ + rest && trimmed(rest).len() > 0 && (files.canonical)(
                leads_to(files, root, trimmed(rest)),
            ) == Ok::<NativePathView, Seq<char>>(git_dir) ==> common_directory(files, root)
                == shared_directory(files, git_dir)
            &&& (forall|behind: Seq<char>|
                trimmed(text) == #[trigger] ("gitdir:"@ + behind) ==> trimmed(behind).len() == 0)
                ==> common_directory(files, root) == Err::<
                NativePathView,
                ProjectIdentityErrorView,
            >(ProjectIdentityErrorView::InvalidGitFile(below(root, ".git"@)))
        },
{
    let mark = "gitdir:"@;
    let line = trimmed(text);
    if line == mark + rest {
        assert(line.subrange(0, mark.len() as int) =~= mark);
        assert(has_prefix(line, mark));
        assert(line.skip(mark.len() as int) =~= rest);
    }
    if has_prefix(line, mark) {
        let behind = line.skip(mark.len() as int);
        assert(line =~= mark + behind);
        assert(line == mark + behind);
    }
}

/// The directory that work trees share: the one that `commondir` names, or else the
/// directory itself. A `commondir` that names nothing is not valid.
pub proof fn law_shared_directory(
    files: Files,
    git_dir: NativePathView,
    text: Seq<char>,
)
    ensures
        !(files.exists)(below(git_dir, "commondir"@)) ==> shared_directory(files, git_dir) == Ok::<
            NativePathView,
            ProjectIdentityErrorView,
        >(git_dir),
        (files.exists)(below(git_dir, "commondir"@)) && (files.text)(below(git_dir, "commondir"@))
            == Ok::<Seq<char>, Seq<char>>(text) ==> {
            &&& trimmed(text).len() == 0 ==> shared_directory(files, git_dir) == Err::<
                NativePathView,
                ProjectIdentityErrorView,
            >(ProjectIdentityErrorView::InvalidGitFile(below(git_dir, "commondir"@)))
            &&& trimmed(text).len() > 0 ==> match (files.canonical)(
                leads_to(files, git_dir, trimmed(text)),
            ) {
                Ok(path) => shared_directory(files, git_dir) == Ok::<
                    NativePathView,
                    ProjectIdentityErrorView,
                >(path),
                Err(reason) => shared_directory(files, git_dir) == Err::<
                    NativePathView,
                    ProjectIdentityErrorView,
                >(
                    ProjectIdentityErrorView::Io {
                        path: leads_to(files, git_dir, trimmed(text)),
                        reason,
                    },
                ),
            }
        },
{
}

// ---------------------------------------------------------------------------
// What an identity is made of.
// ---------------------------------------------------------------------------
/// A byte is written as two digits of sixteen, the higher one first, byte after byte.
pub proof fn law_bytes_are_written_in_sixteens(bytes: Seq<u8>, byte: u8)
    ensures
        hex(Seq::empty()).len() == 0,
        hex(bytes.push(byte)) == hex(bytes).push("0123456789abcdef"@[byte as int / 16]).push(
            "0123456789abcdef"@[byte as int % 16],
        ),
{
    reveal_strlit("0123456789abcdef");
    assert(bytes.push(byte).drop_last() =~= bytes);
    let high = byte as int / 16;
    let low = byte as int % 16;
    assert(0 <= high < 16 && 0 <= low < 16);
    lemma_digit(high);
    lemma_digit(low);
}

proof fn lemma_digit(digit: int)
    requires
        0 <= digit < 16,
    ensures
        hex_digit(digit) == "0123456789abcdef"@[digit],
{
    reveal_strlit("0123456789abcdef");
}

/// A path of bytes is its bytes. In one of units, a slash is a backslash and a capital
/// ASCII letter its small one, all other units stay, and each is its lower byte and then
/// its higher one.
pub proof fn law_identity_is_made_of_the_path(bytes: Seq<u8>, units: Seq<u16>, unit: u16)
    ensures
        identity_bytes(NativePathView::Unix(bytes)) == bytes,
        identity_bytes(NativePathView::Windows(Seq::empty())).len() == 0,
        identity_bytes(NativePathView::Windows(units.push(unit))) == identity_bytes(
            NativePathView::Windows(units),
        ).push((folded_unit(unit) as int % 256) as u8).push(
            (folded_unit(unit) as int / 256) as u8,
        ),
        unit == '/' as u16 ==> folded_unit(unit) == '\\' as u16,
        'A' as u16 <= unit <= 'Z' as u16 ==> folded_unit(unit) - 'a' as u16 == unit - 'A' as u16,
        unit != '/' as u16 && !('A' as u16 <= unit <= 'Z' as u16) ==> folded_unit(unit) == unit,
{
    assert(units.push(unit).drop_last() =~= units);
}

// ---------------------------------------------------------------------------
// What an older store becomes.
// ---------------------------------------------------------------------------
/// A job without a key gets one of its source: the session and how far it was read. All
/// else of a job, and every entry and all evidence, stays.
pub proof fn law_jobs_get_keys(tables: MemoryTablesView, i: int)
    requires
        0 <= i < tables.jobs.len(),
    ensures
        updated_schema(tables) matches Ok(after) ==> {
            let before = tables.jobs[i];
            &&& after.jobs.len() == tables.jobs.len()
            &&& after.jobs[i].job_id == before.job_id
            &&& after.jobs[i].job_kind == before.job_kind
            &&& after.jobs[i].source_session_id == before.source_session_id
            &&& after.jobs[i].source_watermark == before.source_watermark
            &&& after.jobs[i].state == before.state
            &&& after.jobs[i].error_class == before.error_class
            &&& after.jobs[i].updated_at == before.updated_at
            &&& before.job_key.len() > 0 ==> after.jobs[i].job_key == before.job_key
            &&& before.job_key.len() == 0 ==> after.jobs[i].job_key == before.source_session_id
                + ":"@ + before.source_watermark
            &&& after.entries == tables.entries
            &&& after.evidence == tables.evidence
            &&& after.index == tables.index
            &&& after.candidate_count == tables.candidate_count
        },
{
}

/// Entries are the same as a claim that was inferred if they have its key, or have its
/// older key and were inferred themselves.
pub proof fn law_same_claims_by_either_key(
    entries: Seq<EntryRowView>,
    scope: Seq<char>,
    scope_id: Seq<char>,
    canonical: Seq<char>,
    legacy: Seq<char>,
    row: EntryRowView,
)
    ensures
        entries.filter(either_key_is(scope, scope_id, canonical, legacy)).contains(row)
            <==> entries.contains(row) && row.scope_type == scope && row.scope_id == scope_id && (
        row.normalized_key == canonical || (row.normalized_key == legacy && row.origin
            == "inferred_session"@)),
        same_entries(entries, scope, scope_id, canonical, legacy).len() > 0 ==> entries.contains(
            same_entries(entries, scope, scope_id, canonical, legacy)[0],
        ),
{
    let accepts = either_key_is(scope, scope_id, canonical, legacy);
    lemma_filter_holds(entries, accepts);
    assert(accepts(row) == (row.scope_type == scope && row.scope_id == scope_id && (
    row.normalized_key == canonical || (row.normalized_key == legacy && row.origin
        == "inferred_session"@))));
    let rows = same_entries(entries, scope, scope_id, canonical, legacy);
    if rows.len() > 0 {
        let chosen = entries.filter(accepts);
        lemma_ordered_from(chosen, canonical_first(canonical), 0);
        assert(chosen.contains(rows[0]));
    }
}

proof fn lemma_ordered_from<V>(rows: Seq<V>, before: spec_fn(V, V) -> bool, i: int)
    requires
        0 <= i < ordered(rows, before).len(),
    ensures
        rows.contains(ordered(rows, before)[i]),
    decreases rows.len(),
{
    let front = rows.drop_last();
    let x = ordered(rows, before)[i];
    lemma_inserted_from(ordered(front, before), rows.last(), before, i);
    if x == rows.last() {
        assert(rows[rows.len() - 1] == x);
    } else {
        let k = choose|k: int| 0 <= k < ordered(front, before).len() && ordered(front, before)[k]
            == x;
        lemma_ordered_from(front, before, k);
        let m = choose|m: int| 0 <= m < front.len() && front[m] == x;
        assert(rows[m] == x);
    }
}

proof fn lemma_inserted_from<V>(rows: Seq<V>, row: V, before: spec_fn(V, V) -> bool, i: int)
    requires
        0 <= i < insert_ordered(rows, row, before).len(),
    ensures
        insert_ordered(rows, row, before)[i] == row || rows.contains(
            insert_ordered(rows, row, before)[i],
        ),
    decreases rows.len(),
{
    if rows.len() > 0 && before(row, rows.last()) {
        let front = rows.drop_last();
        let inner = insert_ordered(front, row, before);
        if i < inner.len() {
            lemma_inserted_from(front, row, before, i);
            if inner[i] != row {
                let m = choose|m: int| 0 <= m < front.len() && front[m] == inner[i];
                assert(rows[m] == inner[i]);
            }
        } else {
            assert(rows[rows.len() - 1] == rows.last());
        }
    } else if i < rows.len() {
        assert(rows[i] == insert_ordered(rows, row, before)[i]);
    }
}

/// Merging sends what the duplicate replaced, or was replaced by, to the one that is
/// kept, and changes nothing else of an entry; nothing then replaces itself.
pub proof fn law_merging_redirects(
    row: EntryRowView,
    keeper: Seq<char>,
    duplicate: Seq<char>,
)
    ensures
        ({
            let after = redirected(row, keeper, duplicate);
            &&& row.replacement_entry_id == Some(duplicate) ==> after.replacement_entry_id == Some(
                keeper,
            )
            &&& row.replacement_entry_id != Some(duplicate) ==> after == row
            &&& after == (EntryRowView {
                replacement_entry_id: after.replacement_entry_id,
                ..row
            })
        }),
        row.replacement_entry_id == Some(row.entry_id) ==> without_self_replacement(row) == (
        EntryRowView { replacement_entry_id: None, ..row }),
        row.replacement_entry_id != Some(row.entry_id) ==> without_self_replacement(row) == row,
{
}

/// Whether two jobs are of one kind and have one key, each with the key of its source
/// where it has none.
pub open spec fn are_one_job(a: JobRowView, b: JobRowView) -> bool {
    a.job_kind == b.job_kind && source_key(a) == source_key(b)
}

/// The key of a job, or that of its source.
pub open spec fn source_key(job: JobRowView) -> Seq<char> {
    if job.job_key.len() == 0 {
        job.source_session_id + ":"@ + job.source_watermark
    } else {
        job.job_key
    }
}

/// An older store is taken over unless two of its jobs would be one.
pub proof fn law_jobs_must_stay_apart(tables: MemoryTablesView)
    ensures
        updated_schema(tables) is Err <==> exists|i: int, j: int|
            0 <= i < j < tables.jobs.len() && are_one_job(
                #[trigger] tables.jobs[i],
                #[trigger] tables.jobs[j],
            ),
{
    let keyed = keyed_jobs(tables.jobs);
    assert forall|i: int| 0 <= i < tables.jobs.len() implies (#[trigger] keyed[i]).job_key
        == source_key(tables.jobs[i]) && keyed[i].job_kind == tables.jobs[i].job_kind by {}
    if updated_schema(tables) is Err {
        let (i, j) = choose|i: int, j: int|
            0 <= i < j < keyed.len() && (#[trigger] keyed[i]).job_kind == (
            #[trigger] keyed[j]).job_kind && keyed[i].job_key == keyed[j].job_key;
        assert(are_one_job(tables.jobs[i], tables.jobs[j]));
    } else {
        assert forall|i: int, j: int| 0 <= i < j < tables.jobs.len() implies !are_one_job(
            #[trigger] tables.jobs[i],
            #[trigger] tables.jobs[j],
        ) by {
            assert(!(keyed[i].job_kind == keyed[j].job_kind && keyed[i].job_key
                == keyed[j].job_key));
        }
    }
}

/// Of entries that are the same claim the one that is kept has the claim's own key, if
/// any has it, and among those the least ID.
pub proof fn law_own_key_is_kept_first(
    entries: Seq<EntryRowView>,
    scope: Seq<char>,
    scope_id: Seq<char>,
    canonical: Seq<char>,
    legacy: Seq<char>,
    i: int,
)
    requires
        0 < i < same_entries(entries, scope, scope_id, canonical, legacy).len(),
    ensures
        ({
            let rows = same_entries(entries, scope, scope_id, canonical, legacy);
            &&& rows[i].normalized_key == canonical ==> rows[0].normalized_key == canonical
            &&& (rows[i].normalized_key == canonical <==> rows[0].normalized_key == canonical)
                ==> !text_less(rows[i].entry_id, rows[0].entry_id)
        }),
{
    let before = canonical_first(canonical);
    assert forall|a: EntryRowView, b: EntryRowView| #[trigger] before(a, b) implies !before(
        b,
        a,
    ) by {
        law_text_order(a.entry_id, b.entry_id, a.entry_id);
    }
    assert forall|a: EntryRowView, b: EntryRowView, c: EntryRowView|
        !#[trigger] before(a, b) && !#[trigger] before(b, c) implies !before(a, c) by {
        law_text_order(a.entry_id, b.entry_id, c.entry_id);
        law_text_order(c.entry_id, b.entry_id, a.entry_id);
        law_text_order(b.entry_id, c.entry_id, a.entry_id);
        law_text_order(a.entry_id, c.entry_id, b.entry_id);
    }
    let chosen = entries.filter(either_key_is(scope, scope_id, canonical, legacy));
    law_ordered(chosen, before);
    let rows = same_entries(entries, scope, scope_id, canonical, legacy);
    assert(!before(rows[i], rows[0]));
}

} // verus!
