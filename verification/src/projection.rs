//! The readable projection of a scope: a Markdown page of its entries.

use vstd::prelude::*;

use crate::rows::{lemma_filter_holds, lemma_filter_take};
use crate::rpc_memory::{
    MemoryEntry, MemoryEntryView, MemoryKind, MemoryProvenance, MemoryProvenanceView, MemoryScope,
};
use crate::stored_values::{kind_name, kind_text, origin_name, origin_text, state_name, state_text};
use crate::text::{opt_view, views};

verus! {

/// The heading of a projection.
pub open spec fn projection_heading(scope: MemoryScope) -> Seq<char> {
    let title = match scope {
        MemoryScope::User => "User"@,
        MemoryScope::Project => "Project"@,
    };
    "# "@ + title
        + " Memory\n\n<!-- Generated from SQLite. Read-only; manual edits are not canonical. -->\n"@
}

/// A source text, or a mark that there is none.
pub open spec fn text_or_none(text: Option<Seq<char>>) -> Seq<char> {
    match text {
        Some(text) => text,
        None => "<none>"@,
    }
}

/// The lines of one source.
pub open spec fn source_lines(source: MemoryProvenanceView) -> Seq<char> {
    "    - source_session_id: "@ + text_or_none(source.source_session_id)
        + "\n      source_turn_id: "@ + text_or_none(source.source_turn_id)
        + "\n      source_user_item_id: "@ + text_or_none(source.source_user_item_id) + "\n"@
}

/// The lines of all sources.
pub open spec fn all_source_lines(sources: Seq<MemoryProvenanceView>) -> Seq<char>
    decreases sources.len(),
{
    if sources.len() == 0 {
        Seq::empty()
    } else {
        all_source_lines(sources.drop_last()) + source_lines(sources.last())
    }
}

/// The lines of one entry.
pub open spec fn entry_lines(entry: MemoryEntryView) -> Seq<char> {
    let facts = "\n- `"@ + entry.entry_id + "` \u{2014} "@ + entry.body + "\n  - state: "@
        + state_text(entry.state) + "\n  - origin: "@ + origin_text(entry.origin)
        + "\n  - created_at: "@ + entry.created_at.text() + "\n  - updated_at: "@
        + entry.updated_at.text() + "\n"@;
    if entry.provenance.len() == 0 {
        facts
    } else {
        facts + "  - sources:\n"@ + all_source_lines(entry.provenance)
    }
}

/// The lines of all entries.
pub open spec fn all_entry_lines(entries: Seq<MemoryEntryView>) -> Seq<char>
    decreases entries.len(),
{
    if entries.len() == 0 {
        Seq::empty()
    } else {
        all_entry_lines(entries.drop_last()) + entry_lines(entries.last())
    }
}

/// Accepts the entries of a kind.
pub open spec fn kind_is(kind: MemoryKind) -> spec_fn(MemoryEntryView) -> bool {
    |entry: MemoryEntryView| entry.kind == kind
}

/// The section of a kind, if it has entries.
pub open spec fn kind_section(kind: MemoryKind, entries: Seq<MemoryEntryView>) -> Seq<char> {
    let own = entries.filter(kind_is(kind));
    if own.len() == 0 {
        Seq::empty()
    } else {
        "\n## "@ + kind_text(kind) + "\n"@ + all_entry_lines(own)
    }
}

/// The projection of a scope's entries: a heading, and one section for each kind
/// that occurs, by the name of the kind.
pub open spec fn projection_of(scope: MemoryScope, entries: Seq<MemoryEntryView>) -> Seq<char> {
    if entries.len() == 0 {
        projection_heading(scope) + "\n_No memory entries._\n"@
    } else {
        projection_heading(scope) + kind_section(MemoryKind::Fact, entries) + kind_section(
            MemoryKind::Feedback,
            entries,
        ) + kind_section(MemoryKind::Preference, entries) + kind_section(
            MemoryKind::Reference,
            entries,
        )
    }
}

fn push_optional(page: &mut String, text: &Option<String>)
    ensures
        final(page)@ == old(page)@ + text_or_none(opt_view(*text)),
{
    match text {
        Some(text) => page.append(text.as_str()),
        None => page.append("<none>"),
    }
}

fn push_source(page: &mut String, source: &MemoryProvenance)
    ensures
        final(page)@ == old(page)@ + source_lines(source@),
{
    page.append("    - source_session_id: ");
    push_optional(page, &source.source_session_id);
    page.append("\n      source_turn_id: ");
    push_optional(page, &source.source_turn_id);
    page.append("\n      source_user_item_id: ");
    match &source.source_user_item_id {
        Some(item_id) => page.append(item_id.as_str()),
        None => page.append("<none>"),
    }
    page.append("\n");
    assert(page@ =~= old(page)@ + source_lines(source@));
}

fn push_entry(page: &mut String, entry: &MemoryEntry)
    ensures
        final(page)@ == old(page)@ + entry_lines(entry@),
{
    page.append("\n- `");
    page.append(entry.entry_id.as_str());
    page.append("` \u{2014} ");
    page.append(entry.body.as_str());
    page.append("\n  - state: ");
    page.append(state_name(entry.state));
    page.append("\n  - origin: ");
    page.append(origin_name(entry.origin));
    page.append("\n  - created_at: ");
    let created_at = entry.created_at.to_rfc3339();
    page.append(created_at.as_str());
    page.append("\n  - updated_at: ");
    let updated_at = entry.updated_at.to_rfc3339();
    page.append(updated_at.as_str());
    page.append("\n");
    assert(entry@.provenance.len() == entry.provenance.len());
    if entry.provenance.len() == 0 {
        assert(page@ =~= old(page)@ + entry_lines(entry@));
        return ;
    }
    page.append("  - sources:\n");
    let ghost start = page@;
    let ghost sources = views(entry.provenance@);
    let mut i: usize = 0;
    assert(start + all_source_lines(sources.take(0)) =~= start);
    while i < entry.provenance.len()
        invariant
            i <= entry.provenance.len(),
            sources == views(entry.provenance@),
            page@ == start + all_source_lines(sources.take(i as int)),
        decreases entry.provenance.len() - i,
    {
        let ghost next = sources.take(i + 1);
        assert(next.drop_last() =~= sources.take(i as int));
        assert(next.last() == entry.provenance@[i as int]@);
        push_source(page, &entry.provenance[i]);
        assert(page@ =~= start + all_source_lines(next));
        i = i + 1;
    }
    assert(sources.take(entry.provenance.len() as int) =~= sources);
    assert(page@ =~= old(page)@ + entry_lines(entry@));
}

fn push_section(page: &mut String, kind: MemoryKind, entries: &Vec<MemoryEntry>)
    ensures
        final(page)@ == old(page)@ + kind_section(kind, views(entries@)),
{
    let ghost all = views(entries@);
    let ghost accepts = kind_is(kind);
    let ghost start = page@;
    let ghost heading = "\n## "@ + kind_text(kind) + "\n"@;
    let mut opened: bool = false;
    let mut i: usize = 0;
    assert(all.take(0).filter(accepts) =~= Seq::<MemoryEntryView>::empty()) by {
        reveal(Seq::filter);
    }
    while i < entries.len()
        invariant
            i <= entries.len(),
            all == views(entries@),
            accepts == kind_is(kind),
            heading == "\n## "@ + kind_text(kind) + "\n"@,
            opened == (all.take(i as int).filter(accepts).len() > 0),
            opened ==> page@ == start + heading + all_entry_lines(
                all.take(i as int).filter(accepts),
            ),
            !opened ==> page@ == start,
        decreases entries.len() - i,
    {
        let ghost own = all.take(i as int).filter(accepts);
        assert(all[i as int] == entries@[i as int]@);
        proof {
            lemma_filter_take(all, i as int, accepts);
        }
        if entries[i].kind == kind {
            let ghost grown = own.push(all[i as int]);
            assert(grown.drop_last() =~= own);
            if !opened {
                page.append("\n## ");
                page.append(kind_name(kind));
                page.append("\n");
                opened = true;
                assert(own =~= Seq::<MemoryEntryView>::empty());
                assert(page@ =~= start + heading + all_entry_lines(own));
            }
            push_entry(page, &entries[i]);
            assert(page@ =~= start + heading + all_entry_lines(grown));
        }
        i = i + 1;
    }
    assert(all.take(entries.len() as int) =~= all);
    assert(page@ =~= start + kind_section(kind, all));
}

/// Renders the projection of a scope's entries.
pub fn render_projection(scope: MemoryScope, entries: &Vec<MemoryEntry>) -> (result: String)
    ensures
        result@ == projection_of(scope, views(entries@)),
{
    let mut page: String = "# ".to_string();
    match scope {
        MemoryScope::User => page.append("User"),
        MemoryScope::Project => page.append("Project"),
    }
    page.append(
        " Memory\n\n<!-- Generated from SQLite. Read-only; manual edits are not canonical. -->\n",
    );
    assert(page@ =~= projection_heading(scope));
    assert(views(entries@).len() == entries.len());
    if entries.len() == 0 {
        page.append("\n_No memory entries._\n");
        return page;
    }
    push_section(&mut page, MemoryKind::Fact, entries);
    push_section(&mut page, MemoryKind::Feedback, entries);
    push_section(&mut page, MemoryKind::Preference, entries);
    push_section(&mut page, MemoryKind::Reference, entries);
    page
}

// ---------------------------------------------------------------------------
// Laws.
// ---------------------------------------------------------------------------
/// A part with what stands before and behind it.
pub open spec fn framed(before: Seq<char>, part: Seq<char>, behind: Seq<char>) -> Seq<char> {
    before + part + behind
}

/// Whether a page shows a part.
pub open spec fn shows(page: Seq<char>, part: Seq<char>) -> bool {
    exists|before: Seq<char>, behind: Seq<char>| page == #[trigger] framed(before, part, behind)
}

proof fn lemma_shown_inside(front: Seq<char>, page: Seq<char>, back: Seq<char>, part: Seq<char>)
    requires
        shows(page, part),
    ensures
        shows(front + page + back, part),
{
    let (before, behind) = choose|before: Seq<char>, behind: Seq<char>|
        page == #[trigger] framed(before, part, behind);
    assert(front + page + back =~= framed(front + before, part, behind + back));
}

proof fn lemma_lines_show_entry(entries: Seq<MemoryEntryView>, i: int)
    requires
        0 <= i < entries.len(),
    ensures
        shows(all_entry_lines(entries), entry_lines(entries[i])),
    decreases entries.len(),
{
    let front = all_entry_lines(entries.drop_last());
    let last = entry_lines(entries.last());
    if i == entries.len() - 1 {
        assert(front + last =~= framed(front, last, Seq::empty()));
    } else {
        lemma_lines_show_entry(entries.drop_last(), i);
        assert(entries.drop_last()[i] == entries[i]);
        lemma_shown_inside(Seq::empty(), front, last, entry_lines(entries[i]));
        assert(Seq::<char>::empty() + front + last =~= front + last);
    }
}

proof fn lemma_section_shows_entry(entries: Seq<MemoryEntryView>, i: int)
    requires
        0 <= i < entries.len(),
    ensures
        shows(kind_section(entries[i].kind, entries), entry_lines(entries[i])),
{
    let part = entry_lines(entries[i]);
    let kind = entries[i].kind;
    let own = entries.filter(kind_is(kind));
    lemma_filter_holds(entries, kind_is(kind));
    assert(entries.contains(entries[i]));
    assert(own.contains(entries[i]));
    let j = choose|j: int| 0 <= j < own.len() && own[j] == entries[i];
    lemma_lines_show_entry(own, j);
    let title = "\n## "@ + kind_text(kind) + "\n"@;
    lemma_shown_inside(title, all_entry_lines(own), Seq::empty(), part);
    assert(title + all_entry_lines(own) + Seq::<char>::empty() =~= kind_section(kind, entries));
}

proof fn lemma_joined_sections_show(
    heading: Seq<char>,
    a: Seq<char>,
    b: Seq<char>,
    c: Seq<char>,
    d: Seq<char>,
    part: Seq<char>,
)
    ensures
        shows(a, part) || shows(b, part) || shows(c, part) || shows(d, part) ==> shows(
            heading + a + b + c + d,
            part,
        ),
{
    let page = heading + a + b + c + d;
    if shows(a, part) {
        lemma_shown_inside(heading, a, b + c + d, part);
        assert(heading + a + (b + c + d) =~= page);
    } else if shows(b, part) {
        lemma_shown_inside(heading + a, b, c + d, part);
        assert(heading + a + b + (c + d) =~= page);
    } else if shows(c, part) {
        lemma_shown_inside(heading + a + b, c, d, part);
    } else if shows(d, part) {
        lemma_shown_inside(heading + a + b + c, d, Seq::empty(), part);
        assert(page + Seq::<char>::empty() =~= page);
    }
}

/// The page of a scope shows every entry of the scope, with its sources.
pub proof fn law_page_shows_every_entry(
    scope: MemoryScope,
    entries: Seq<MemoryEntryView>,
    i: int,
)
    requires
        0 <= i < entries.len(),
    ensures
        shows(projection_of(scope, entries), entry_lines(entries[i])),
{
    lemma_section_shows_entry(entries, i);
    lemma_joined_sections_show(
        projection_heading(scope),
        kind_section(MemoryKind::Fact, entries),
        kind_section(MemoryKind::Feedback, entries),
        kind_section(MemoryKind::Preference, entries),
        kind_section(MemoryKind::Reference, entries),
        entry_lines(entries[i]),
    );
}

} // verus!
