//! Laws of remembering: what the key of a claim keeps of it, which texts are refused,
//! and what a write leaves in the store, told by the columns of the rows.

use vstd::prelude::*;

use crate::command_types::{MemoryRememberRequestView, MemorySourceContextView};
use crate::entries::{
    admission, already_witnessed, counts_in_key, decision, has_secret_marker, is_witness,
    law_write_keeps_store_well_formed, loose_key, remember_step, suggested_kind, turn_text,
    written_id, AdmittedWriteView, MemoryWriteModeView, RememberedEntryView,
};
use crate::equivalence::law_collapse_idempotent;
use crate::ids::uuid_text;
use crate::memory_error::MemoryErrorView;
use crate::rows::{first_match, lemma_first_match, lemma_is_first_match, lemma_no_match};
use crate::rpc_memory::{MemoryEntryView, MemoryKind, MemoryOrigin, MemoryScope, MemoryState};
use crate::search_laws::{law_entry_shows_its_row, law_stored_names};
use crate::store::{entry_from, entry_is, identity_is, revocation_is, same_revoked};
use crate::stored_values::{
    law_stored_names_are_exact, law_stored_names_read_back, origin_of, scope_of, scope_text,
};
use crate::tables::{EntryRowView, EvidenceRowView, MemoryTablesView, RevocationRowView};
use crate::text::{
    alphanumeric, ascii_lower, collapsed, has_part, has_prefix, is_word, join_words,
    lemma_words_are_words, whitespace, words,
};
use crate::text_laws::{
    is_blank, law_collapsing_goes_word_by_word, law_lower_case_by_character,
    law_lower_case_compares_letters, law_lower_case_of_joined, lemma_lower_char, reads_as, reads_at,
    reads_in,
};
use crate::time::{parsed_timestamp, Timestamp};

verus! {

// ---------------------------------------------------------------------------
// Keys.
// ---------------------------------------------------------------------------
/// The letters and digits of a text, in order.
pub open spec fn letters_and_digits(text: Seq<char>) -> Seq<char> {
    text.filter(|c: char| alphanumeric(c) && !whitespace(c))
}

/// A text without its spaces.
pub open spec fn without_spaces(text: Seq<char>) -> Seq<char> {
    text.filter(|c: char| c != ' ')
}

proof fn lemma_words_hold_the_rest(text: Seq<char>)
    ensures
        words(text).flatten_alt() == text.filter(|c: char| !whitespace(c)),
    decreases text.len(),
{
    reveal(Seq::filter);
    let keeps = |c: char| !whitespace(c);
    if text.len() > 0 {
        let shorter = text.drop_last();
        let c = text.last();
        lemma_words_hold_the_rest(shorter);
        lemma_words_are_words(shorter);
        let before = words(shorter);
        if !whitespace(c) {
            if text.len() >= 2 && !whitespace(text[text.len() - 2]) {
                assert(shorter.last() == text[text.len() - 2]);
                let grown = before.drop_last().push(before.last().push(c));
                assert(grown.drop_last() =~= before.drop_last());
                assert(grown.flatten_alt() =~= before.flatten_alt().push(c));
            } else {
                let grown = before.push(seq![c]);
                assert(grown.drop_last() =~= before);
                assert(grown.flatten_alt() =~= before.flatten_alt().push(c));
            }
            assert(text.filter(keeps) =~= shorter.filter(keeps).push(c));
        } else {
            assert(text.filter(keeps) =~= shorter.filter(keeps));
        }
    } else {
        assert(text.filter(keeps) =~= Seq::empty());
        assert(words(text).flatten_alt() =~= Seq::empty());
    }
}

proof fn lemma_keeps_all(word: Seq<char>)
    requires
        forall|i: int| 0 <= i < word.len() ==> #[trigger] word[i] != ' ',
    ensures
        without_spaces(word) == word,
    decreases word.len(),
{
    reveal(Seq::filter);
    let keeps = |c: char| c != ' ';
    if word.len() > 0 {
        let shorter = word.drop_last();
        assert forall|i: int| 0 <= i < shorter.len() implies #[trigger] shorter[i] != ' ' by {
            assert(shorter[i] == word[i]);
        }
        lemma_keeps_all(shorter);
        assert(word[word.len() - 1] != ' ');
        assert(shorter.push(word.last()) =~= word);
    } else {
        assert(word.filter(keeps) =~= word);
    }
}

proof fn lemma_joined_without_spaces(parts: Seq<Seq<char>>)
    requires
        forall|i: int| 0 <= i < parts.len() ==> is_word(#[trigger] parts[i]),
    ensures
        without_spaces(join_words(parts)) == parts.flatten_alt(),
    decreases parts.len(),
{
    let keeps = |c: char| c != ' ';
    if parts.len() == 0 {
        reveal(Seq::filter);
        assert(join_words(parts).filter(keeps) =~= Seq::empty());
        assert(parts.flatten_alt() =~= Seq::empty());
    } else {
        let front = parts.drop_last();
        let last = parts.last();
        assert(is_word(parts[parts.len() - 1]));
        assert forall|i: int| 0 <= i < last.len() implies #[trigger] last[i] != ' ' by {
            assert(!whitespace(last[i]));
        }
        lemma_keeps_all(last);
        assert forall|i: int| 0 <= i < front.len() implies is_word(#[trigger] front[i]) by {
            assert(front[i] == parts[i]);
        }
        lemma_joined_without_spaces(front);
        if parts.len() == 1 {
            assert(front.flatten_alt() =~= Seq::empty());
            assert(parts.flatten_alt() =~= last);
            assert(parts[0] == last);
        } else {
            let gap: Seq<char> = seq![' '];
            let begun = join_words(front) + gap;
            Seq::filter_distributes_over_add(begun, last, keeps);
            Seq::filter_distributes_over_add(join_words(front), gap, keeps);
            assert(gap.filter(keeps) =~= Seq::<char>::empty()) by {
                reveal(Seq::filter);
                assert(gap.drop_last() =~= Seq::<char>::empty());
                assert(gap.drop_last().filter(keeps) =~= Seq::<char>::empty());
            }
            assert(join_words(parts) == begun + last);
            assert(begun.filter(keeps) =~= join_words(front).filter(keeps));
            assert(without_spaces(join_words(front)) == join_words(front).filter(keeps));
            assert(without_spaces(last) == last.filter(keeps));
            assert(without_spaces(join_words(parts)) =~= parts.flatten_alt());
        }
    }
}

proof fn lemma_filter_twice(text: Seq<char>)
    ensures
        text.filter(counts_in_key()).filter(|c: char| !whitespace(c)) == letters_and_digits(text),
    decreases text.len(),
{
    reveal(Seq::filter);
    if text.len() > 0 {
        lemma_filter_twice(text.drop_last());
        let kept = text.drop_last().filter(counts_in_key());
        assert(kept.push(text.last()).drop_last() =~= kept);
    }
}

proof fn lemma_lower_without_spaces(text: Seq<char>)
    ensures
        without_spaces(ascii_lower(text)) == ascii_lower(without_spaces(text)),
    decreases text.len(),
{
    reveal(Seq::filter);
    let keeps = |c: char| c != ' ';
    if text.len() > 0 {
        let shorter = text.drop_last();
        lemma_lower_without_spaces(shorter);
        lemma_lower_char(text.last());
        assert(ascii_lower(text).drop_last() =~= ascii_lower(shorter));
        assert(ascii_lower(without_spaces(shorter).push(text.last())) =~= ascii_lower(
            without_spaces(shorter),
        ).push(ascii_lower(text).last()));
    } else {
        assert(ascii_lower(text) =~= Seq::empty());
        assert(without_spaces(ascii_lower(text)) =~= ascii_lower(without_spaces(text)));
    }
}

/// The key of a claim keeps every letter and every digit of it, in order: but for its
/// spaces, the key is the letters and digits of the body with ASCII letters in lower
/// case. Its words stand one space apart.
pub proof fn law_key_keeps_letters_and_digits(body: Seq<char>)
    ensures
        without_spaces(loose_key(body)) == ascii_lower(letters_and_digits(body)),
        forall|i: int|
            0 <= i < loose_key(body).len() && #[trigger] loose_key(body)[i] == ' ' ==> 0 < i
                < loose_key(body).len() - 1 && loose_key(body)[i - 1] != ' ',
{
    let kept = body.filter(counts_in_key());
    let text = collapsed(kept);
    lemma_words_are_words(kept);
    lemma_joined_without_spaces(words(kept));
    lemma_words_hold_the_rest(kept);
    lemma_filter_twice(body);
    lemma_lower_without_spaces(text);
    law_collapse_idempotent(kept);
    assert forall|i: int|
        0 <= i < loose_key(body).len() && #[trigger] loose_key(body)[i] == ' ' implies 0 < i
        < loose_key(body).len() - 1 && loose_key(body)[i - 1] != ' ' by {
        lemma_lower_char(text[i]);
        assert(whitespace(text[i]));
        assert(!whitespace(text[i - 1]));
        lemma_lower_char(text[i - 1]);
    }
}

/// Claims that differ in a letter or a digit, beyond the case of ASCII letters, have
/// different keys.
pub proof fn law_different_claims_have_different_keys(left: Seq<char>, right: Seq<char>)
    requires
        !reads_as(letters_and_digits(left), letters_and_digits(right)),
    ensures
        loose_key(left) != loose_key(right),
{
    law_key_keeps_letters_and_digits(left);
    law_key_keeps_letters_and_digits(right);
    law_lower_case_compares_letters(letters_and_digits(left), letters_and_digits(right));
}

/// A key goes word by word: whitespace of any kind and length counts as one space
/// between what is keyed before it and behind it, a character that is neither letter
/// nor digit nor whitespace does not count, and the case of ASCII letters does not
/// count.
pub proof fn law_key_goes_word_by_word(left: Seq<char>, c: char, right: Seq<char>)
    ensures
        whitespace(c) ==> loose_key(left + seq![c] + right) == if loose_key(left).len() == 0 {
            loose_key(right)
        } else if loose_key(right).len() == 0 {
            loose_key(left)
        } else {
            loose_key(left) + seq![' '] + loose_key(right)
        },
        !whitespace(c) && !alphanumeric(c) ==> loose_key(left + seq![c] + right) == loose_key(
            left + right,
        ),
{
    let accepts = counts_in_key();
    let one: Seq<char> = seq![c];
    Seq::filter_distributes_over_add(left + one, right, accepts);
    Seq::filter_distributes_over_add(left, one, accepts);
    Seq::filter_distributes_over_add(left, right, accepts);
    reveal(Seq::filter);
    assert(one.drop_last() =~= Seq::<char>::empty());
    assert(one.drop_last().filter(accepts) =~= Seq::<char>::empty());
    let l = left.filter(accepts);
    let r = right.filter(accepts);
    if whitespace(c) {
        assert(one.filter(accepts) =~= one);
        law_collapsing_goes_word_by_word(l, c, r);
        law_lower_case_of_joined(collapsed(l) + seq![' '], collapsed(r));
        law_lower_case_of_joined(collapsed(l), seq![' ']);
        let gap: Seq<char> = seq![' '];
        lemma_lower_char(' ');
        assert(ascii_lower(gap) =~= gap);
    } else if !alphanumeric(c) {
        assert(one.filter(accepts) =~= Seq::<char>::empty());
        assert(l + Seq::<char>::empty() + r =~= l + r);
    }
}

// ---------------------------------------------------------------------------
// Admission.
// ---------------------------------------------------------------------------
/// Whether a body reads like a secret: it holds one of the marks of keys and tokens.
pub open spec fn reads_like_secret(body: Seq<char>) -> bool {
    ||| reads_in(body, "sk-"@)
    ||| reads_in(body, "ghp_"@)
    ||| reads_in(body, "github_pat_"@)
    ||| reads_in(body, "xoxb-"@)
    ||| reads_in(body, "xoxp-"@)
    ||| reads_in(body, "bearer "@)
    ||| reads_in(body, "api_key="@)
    ||| reads_in(body, "apikey="@)
    ||| reads_in(body, "aws_secret_access_key"@)
    ||| reads_in(body, "-----begin "@)
}

proof fn lemma_mark(body: Seq<char>, mark: Seq<char>)
    requires
        ascii_lower(mark) == mark,
    ensures
        has_part(ascii_lower(body), mark) <==> reads_in(body, mark),
        has_prefix(ascii_lower(body), mark) <==> reads_at(body, mark, 0),
{
    law_lower_case_compares_letters(body, mark);
}

pub proof fn lemma_is_lower(mark: Seq<char>)
    requires
        forall|i: int| 0 <= i < mark.len() ==> !('A' <= #[trigger] mark[i] <= 'Z'),
    ensures
        ascii_lower(mark) == mark,
{
    law_lower_case_by_character(mark);
    assert(ascii_lower(mark) =~= mark);
}

proof fn lemma_secret_marks(body: Seq<char>)
    ensures
        has_secret_marker(body) <==> reads_like_secret(body),
{
    reveal_strlit("sk-");
    reveal_strlit("ghp_");
    reveal_strlit("github_pat_");
    reveal_strlit("xoxb-");
    reveal_strlit("xoxp-");
    reveal_strlit("bearer ");
    reveal_strlit("api_key=");
    reveal_strlit("apikey=");
    reveal_strlit("aws_secret_access_key");
    reveal_strlit("-----begin ");
    lemma_is_lower("sk-"@);
    lemma_is_lower("ghp_"@);
    lemma_is_lower("github_pat_"@);
    lemma_is_lower("xoxb-"@);
    lemma_is_lower("xoxp-"@);
    lemma_is_lower("bearer "@);
    lemma_is_lower("api_key="@);
    lemma_is_lower("apikey="@);
    lemma_is_lower("aws_secret_access_key"@);
    lemma_is_lower("-----begin "@);
    lemma_mark(body, "sk-"@);
    lemma_mark(body, "ghp_"@);
    lemma_mark(body, "github_pat_"@);
    lemma_mark(body, "xoxb-"@);
    lemma_mark(body, "xoxp-"@);
    lemma_mark(body, "bearer "@);
    lemma_mark(body, "api_key="@);
    lemma_mark(body, "apikey="@);
    lemma_mark(body, "aws_secret_access_key"@);
    lemma_mark(body, "-----begin "@);
}

/// Which kind a body suggests: by how it begins, in either case.
pub proof fn law_kind_follows_the_beginning(body: Seq<char>)
    ensures
        suggested_kind(body) == MemoryKind::Preference <==> reads_at(body, "i prefer "@, 0)
            || reads_at(body, "i like "@, 0),
        suggested_kind(body) == MemoryKind::Feedback <==> reads_at(body, "feedback:"@, 0),
        suggested_kind(body) == MemoryKind::Reference <==> reads_at(body, "http://"@, 0)
            || reads_at(body, "https://"@, 0),
{
    reveal_strlit("i prefer ");
    reveal_strlit("i like ");
    reveal_strlit("feedback:");
    reveal_strlit("http://");
    reveal_strlit("https://");
    lemma_is_lower("i prefer "@);
    lemma_is_lower("i like "@);
    lemma_is_lower("feedback:"@);
    lemma_is_lower("http://"@);
    lemma_is_lower("https://"@);
    lemma_mark(body, "i prefer "@);
    lemma_mark(body, "i like "@);
    lemma_mark(body, "feedback:"@);
    lemma_mark(body, "http://"@);
    lemma_mark(body, "https://"@);
    // A body has one first character.
    if reads_at(body, "i prefer "@, 0) || reads_at(body, "i like "@, 0) {
        assert("i prefer "@[0] == 'i' && "i like "@[0] == 'i');
        assert(body[0int + 0] == 'i' || body[0int + 0] == 'I');
    }
    if reads_at(body, "feedback:"@, 0) {
        assert("feedback:"@[0] == 'f');
        assert(body[0int + 0] == 'f' || body[0int + 0] == 'F');
    }
    if reads_at(body, "http://"@, 0) || reads_at(body, "https://"@, 0) {
        assert("http://"@[0] == 'h' && "https://"@[0] == 'h');
        assert(body[0int + 0] == 'h' || body[0int + 0] == 'H');
    }
}

/// What is refused, and why: a blank text; a text that reads like a secret, or in which
/// a detector found one; and a project that cannot be told. Everything else is admitted
/// with its words as they were said, the kind that was asked for or else the one that
/// it suggests, and the scope that was asked for.
pub proof fn law_what_is_admitted(request: MemoryRememberRequestView, detected: bool)
    ensures
        admission(request, detected) == Err::<AdmittedWriteView, MemoryErrorView>(
            MemoryErrorView::InvalidRequest("memory text must not be empty"@),
        ) <==> is_blank(request.text),
        admission(request, detected) == Err::<AdmittedWriteView, MemoryErrorView>(
            MemoryErrorView::SecretContentRejected,
        ) <==> !is_blank(request.text) && (detected || reads_like_secret(collapsed(request.text))),
        admission(request, detected) is Ok <==> !is_blank(request.text) && !detected
            && !reads_like_secret(collapsed(request.text)) && (request.scope
            == MemoryScope::Project ==> request.source.workspace_root.project_scope is Ok),
        admission(request, detected) matches Ok(write) ==> {
            &&& write.body == collapsed(request.text)
            &&& write.body.len() > 0
            &&& request.kind matches Some(kind) ==> write.kind == kind
            &&& request.kind is None ==> write.kind == suggested_kind(write.body)
            &&& without_spaces(write.normalized_key) == ascii_lower(letters_and_digits(write.body))
            &&& request.scope == MemoryScope::User ==> write.scope_id == "user"@
            &&& request.scope == MemoryScope::Project
                ==> request.source.workspace_root.project_scope == Ok::<Seq<char>, Seq<char>>(
                write.scope_id,
            )
        },
        !is_blank(request.text) && !detected && !reads_like_secret(collapsed(request.text))
            && request.scope == MemoryScope::Project ==> (
        request.source.workspace_root.project_scope matches Err(message) ==> admission(
            request,
            detected,
        ) == Err::<AdmittedWriteView, MemoryErrorView>(MemoryErrorView::ProjectIdentity(message))),
{
    law_collapsing_goes_word_by_word(request.text, ' ', Seq::empty());
    lemma_secret_marks(collapsed(request.text));
    law_key_keeps_letters_and_digits(collapsed(request.text));
}

// ---------------------------------------------------------------------------
// Writes.
// ---------------------------------------------------------------------------
/// Whether a row is the entry of an identity.
pub open spec fn has_identity(
    row: EntryRowView,
    scope: MemoryScope,
    scope_id: Seq<char>,
    key: Seq<char>,
) -> bool {
    scope_of(row.scope_type) == Ok::<MemoryScope, MemoryErrorView>(scope) && row.scope_id
        == scope_id && row.normalized_key == key
}

/// Whether a row is the revocation of an identity.
pub open spec fn revokes(
    row: RevocationRowView,
    scope: MemoryScope,
    scope_id: Seq<char>,
    key: Seq<char>,
) -> bool {
    scope_of(row.scope_type) == Ok::<MemoryScope, MemoryErrorView>(scope) && row.scope_id
        == scope_id && row.normalized_key == key
}

pub proof fn lemma_scope_name(text: Seq<char>, scope: MemoryScope)
    ensures
        scope_of(text) == Ok::<MemoryScope, MemoryErrorView>(scope) <==> text == scope_text(scope),
{
    law_stored_names_are_exact(text);
    law_stored_names_read_back(
        scope,
        MemoryKind::Fact,
        MemoryState::Active,
        MemoryOrigin::ExplicitUser,
    );
}

proof fn lemma_identities(
    tables: MemoryTablesView,
    scope: MemoryScope,
    scope_id: Seq<char>,
    key: Seq<char>,
)
    ensures
        forall|row: EntryRowView|
            identity_is(scope_text(scope), scope_id, key)(row) <==> #[trigger] has_identity(
                row,
                scope,
                scope_id,
                key,
            ),
        forall|row: RevocationRowView|
            revocation_is(scope_text(scope), scope_id, key)(row) <==> #[trigger] revokes(
                row,
                scope,
                scope_id,
                key,
            ),
{
    assert forall|row: EntryRowView|
        identity_is(scope_text(scope), scope_id, key)(row) <==> #[trigger] has_identity(
            row,
            scope,
            scope_id,
            key,
        ) by {
        lemma_scope_name(row.scope_type, scope);
    }
    assert forall|row: RevocationRowView|
        revocation_is(scope_text(scope), scope_id, key)(row) <==> #[trigger] revokes(
            row,
            scope,
            scope_id,
            key,
        ) by {
        lemma_scope_name(row.scope_type, scope);
    }
}

/// Whether a piece of evidence says that a source stands behind an entry.
pub open spec fn is_evidence_of(
    row: EvidenceRowView,
    entry_id: Seq<char>,
    source: MemorySourceContextView,
) -> bool {
    &&& row.entry_id == entry_id
    &&& row.session_id == uuid_text(source.session_id.value)
    &&& row.source_user_item_id == source.user_item_id
    &&& source.turn_id matches Some(turn_id) ==> row.turn_id == Some(uuid_text(turn_id.value))
    &&& source.turn_id is None ==> row.turn_id is None
}

/// A write touches the entry of its identity and nothing else: every other entry, every
/// other revocation and all evidence stay; no entry ever changes its ID, its identity
/// or its age, and no revocation the time at which it was made. What is refused changes
/// nothing.
pub proof fn law_write_touches_one_identity(
    tables: MemoryTablesView,
    request: MemoryRememberRequestView,
    mode: MemoryWriteModeView,
    detected: bool,
    now: Timestamp,
    entry_id: Seq<char>,
    evidence_id: Seq<char>,
)
    ensures
        ({
            let step = remember_step(
                tables,
                request,
                mode,
                detected,
                now,
                entry_id,
                evidence_id,
            );
            let after = step.tables;
            match admission(request, detected) {
                Err(error) => after == tables && step.result is Err,
                Ok(write) => {
                    let scope = request.scope;
                    let n = tables.entries.len();
                    &&& n <= after.entries.len() <= n + 1
                    &&& forall|i: int|
                        0 <= i < n && !has_identity(
                            tables.entries[i],
                            scope,
                            write.scope_id,
                            write.normalized_key,
                        ) ==> #[trigger] after.entries[i] == tables.entries[i]
                    &&& forall|i: int|
                        0 <= i < n ==> {
                            let row = #[trigger] after.entries[i];
                            &&& row.entry_id == tables.entries[i].entry_id
                            &&& row.scope_type == tables.entries[i].scope_type
                            &&& row.scope_id == tables.entries[i].scope_id
                            &&& row.normalized_key == tables.entries[i].normalized_key
                            &&& row.created_at == tables.entries[i].created_at
                            &&& row.last_recalled_at == tables.entries[i].last_recalled_at
                            &&& row.expires_at == tables.entries[i].expires_at
                        }
                    &&& after.entries.len() == n + 1 ==> {
                        let row = after.entries[n as int];
                        &&& has_identity(row, scope, write.scope_id, write.normalized_key)
                        &&& row.entry_id == entry_id
                        &&& row.created_at == now.text()
                        &&& row.updated_at == now.text()
                        &&& forall|i: int|
                            0 <= i < n ==> !has_identity(
                                #[trigger] tables.entries[i],
                                scope,
                                write.scope_id,
                                write.normalized_key,
                            ) && tables.entries[i].entry_id != entry_id
                    }
                    &&& after.revocations.len() == tables.revocations.len()
                    &&& forall|i: int|
                        0 <= i < tables.revocations.len() ==> {
                            let row = #[trigger] after.revocations[i];
                            &&& row.revocation_id == tables.revocations[i].revocation_id
                            &&& row.scope_type == tables.revocations[i].scope_type
                            &&& row.scope_id == tables.revocations[i].scope_id
                            &&& row.normalized_key == tables.revocations[i].normalized_key
                            &&& row.revoked_at == tables.revocations[i].revoked_at
                            &&& row.restored_at != tables.revocations[i].restored_at
                                ==> mode is Explicit && row.restored_at == Some(now.text())
                                && revokes(row, scope, write.scope_id, write.normalized_key)
                        }
                    &&& tables.evidence.is_prefix_of(after.evidence)
                    &&& after.evidence.len() <= tables.evidence.len() + 1
                    &&& after.jobs == tables.jobs
                    &&& after.candidate_count == tables.candidate_count
                },
            }
        }),
{
    if let Ok(write) = admission(request, detected) {
        let scope = request.scope;
        lemma_identities(tables, scope, write.scope_id, write.normalized_key);
        let accepts = identity_is(scope_text(scope), write.scope_id, write.normalized_key);
        lemma_first_match(tables.entries, accepts);
        law_stored_names_read_back(
            scope,
            MemoryKind::Fact,
            MemoryState::Active,
            MemoryOrigin::ExplicitUser,
        );
        let after = remember_step(
            tables,
            request,
            mode,
            detected,
            now,
            entry_id,
            evidence_id,
        ).tables;
        assert forall|i: int| 0 <= i < tables.revocations.len() implies {
            let row = #[trigger] after.revocations[i];
            &&& row.revocation_id == tables.revocations[i].revocation_id
            &&& row.scope_type == tables.revocations[i].scope_type
            &&& row.scope_id == tables.revocations[i].scope_id
            &&& row.normalized_key == tables.revocations[i].normalized_key
            &&& row.revoked_at == tables.revocations[i].revoked_at
            &&& row.restored_at != tables.revocations[i].restored_at ==> mode is Explicit
                && row.restored_at == Some(now.text()) && revokes(
                row,
                scope,
                write.scope_id,
                write.normalized_key,
            )
        } by {
            lemma_scope_name(tables.revocations[i].scope_type, scope);
        }
        if after.entries.len() == tables.entries.len() + 1 {
            assert forall|i: int| 0 <= i < tables.entries.len() implies !has_identity(
                #[trigger] tables.entries[i],
                scope,
                write.scope_id,
                write.normalized_key,
            ) && tables.entries[i].entry_id != entry_id by {
                assert(!accepts(tables.entries[i]));
            }
        }
    }
}

/// An explicit write that succeeds gives back the entry of its identity as it was said:
/// its words, the kind that was asked for or suggested, the user as its origin, the time
/// of the write. It is active, or restored if its identity was ever revoked; it replaces
/// nothing any more. The store has exactly that entry under that identity, and evidence
/// that the source stands behind it.
pub proof fn law_explicit_write_is_kept_as_said(
    tables: MemoryTablesView,
    request: MemoryRememberRequestView,
    detected: bool,
    now: Timestamp,
    entry_id: Seq<char>,
    evidence_id: Seq<char>,
)
    requires
        tables.well_formed(),
    ensures
        ({
            let step = remember_step(
                tables,
                request,
                MemoryWriteModeView::Explicit,
                detected,
                now,
                entry_id,
                evidence_id,
            );
            step.result matches Ok(remembered) ==> {
                &&& admission(request, detected) is Ok
                &&& remembered matches Some(remembered) && {
                    let write = admission(request, detected)->Ok_0;
                    let entry = remembered.entry;
                    &&& entry.body == collapsed(request.text)
                    &&& entry.kind == write.kind
                    &&& entry.origin == MemoryOrigin::ExplicitUser
                    &&& entry.scope == request.scope
                    &&& entry.scope_id == write.scope_id
                    &&& entry.normalized_key == write.normalized_key
                    &&& entry.replacement_entry_id is None
                    &&& parsed_timestamp(now.text()) == Some(entry.updated_at)
                    &&& entry.state == MemoryState::Restored <==> exists|i: int|
                        0 <= i < tables.revocations.len() && revokes(
                            #[trigger] tables.revocations[i],
                            request.scope,
                            write.scope_id,
                            write.normalized_key,
                        )
                    &&& entry.state != MemoryState::Restored ==> entry.state == MemoryState::Active
                    &&& exists|k: int|
                        {
                            &&& 0 <= k < step.tables.entries.len()
                            &&& entry_from(
                                #[trigger] step.tables.entries[k],
                                step.tables.evidence,
                            ) == Ok::<MemoryEntryView, MemoryErrorView>(entry)
                            &&& step.tables.entries[k].updated_at == now.text()
                            &&& k < tables.entries.len() ==> has_identity(
                                tables.entries[k],
                                request.scope,
                                write.scope_id,
                                write.normalized_key,
                            )
                        }
                    &&& exists|k: int|
                        0 <= k < step.tables.evidence.len() && is_evidence_of(
                            #[trigger] step.tables.evidence[k],
                            entry.entry_id,
                            request.source,
                        )
                }
            }
        }),
{
    let mode = MemoryWriteModeView::Explicit;
    let step = remember_step(tables, request, mode, detected, now, entry_id, evidence_id);
    if step.result is Ok {
        let write = admission(request, detected)->Ok_0;
        let scope = request.scope;
        lemma_identities(tables, scope, write.scope_id, write.normalized_key);
        let accepts = identity_is(scope_text(scope), write.scope_id, write.normalized_key);
        lemma_first_match(tables.entries, accepts);
        let verdict = decision(tables, scope, write, mode)->Ok_0;
        let after = step.tables;
        let k = match verdict.existing {
            Some(i) => i,
            None => tables.entries.len() as int,
        };
        let id = written_id(tables, verdict, entry_id);
        law_write_keeps_store_well_formed(
            tables,
            request,
            mode,
            detected,
            now,
            entry_id,
            evidence_id,
        );
        let row = after.entries[k];
        assert(row.entry_id == id);
        assert forall|j: int| 0 <= j < k implies !entry_is(id)(#[trigger] after.entries[j]) by {
            assert(after.entries[j].entry_id != after.entries[k].entry_id);
        }
        lemma_is_first_match(after.entries, entry_is(id), k);
        let entry = step.result->Ok_0->Some_0.entry;
        assert(entry_from(row, after.evidence) == Ok::<MemoryEntryView, MemoryErrorView>(entry));
        law_entry_shows_its_row(row, after.evidence);
        law_stored_names_read_back(
            scope,
            write.kind,
            MemoryState::Active,
            MemoryOrigin::ExplicitUser,
        );
        law_stored_names_read_back(
            scope,
            write.kind,
            MemoryState::Restored,
            MemoryOrigin::ExplicitUser,
        );
        let revoked = revocation_is(scope_text(scope), write.scope_id, write.normalized_key);
        lemma_first_match(tables.revocations, revoked);
        match first_match(tables.revocations, revoked) {
            Some(i) => {
                assert(revokes(
                    tables.revocations[i],
                    scope,
                    write.scope_id,
                    write.normalized_key,
                ));
            },
            None => {
                assert forall|i: int| 0 <= i < tables.revocations.len() implies !revokes(
                    #[trigger] tables.revocations[i],
                    scope,
                    write.scope_id,
                    write.normalized_key,
                ) by {
                    assert(!revoked(tables.revocations[i]));
                }
            },
        }
        let session = uuid_text(request.source.session_id.value);
        let turn = turn_text(request.source);
        let item = request.source.user_item_id;
        if already_witnessed(tables, request.source, id) {
            let w = choose|w: int|
                0 <= w < tables.evidence.len() && #[trigger] is_witness(
                    tables.evidence[w],
                    id,
                    session,
                    turn,
                    item,
                );
            assert(is_evidence_of(after.evidence[w], id, request.source));
        } else {
            assert(is_evidence_of(
                after.evidence[tables.evidence.len() as int],
                id,
                request.source,
            ));
        }
    }
}

/// Inference is kept out by a revocation alone, and by every one that it does not come
/// after: what was observed no later than the revocation, and anything at all while
/// nothing has restored the identity since. It changes nothing.
pub proof fn law_what_keeps_inference_out(
    tables: MemoryTablesView,
    request: MemoryRememberRequestView,
    write: AdmittedWriteView,
    detected: bool,
    observed_at: Timestamp,
    watermark: Seq<char>,
    now: Timestamp,
    entry_id: Seq<char>,
    evidence_id: Seq<char>,
    k: int,
    revoked_at: Timestamp,
    restored_at: Option<Timestamp>,
)
    requires
        tables.well_formed(),
        admission(request, detected) == Ok::<AdmittedWriteView, MemoryErrorView>(write),
        forall|i: int|
            0 <= i < tables.entries.len() ==> origin_of(
                (#[trigger] tables.entries[i]).origin,
            ) is Ok,
        0 <= k < tables.revocations.len(),
        revokes(
            tables.revocations[k],
            request.scope,
            write.scope_id,
            write.normalized_key,
        ),
        parsed_timestamp(tables.revocations[k].revoked_at) == Some(revoked_at),
        match tables.revocations[k].restored_at {
            Some(text) => restored_at is Some && parsed_timestamp(text) == restored_at,
            None => restored_at is None,
        },
    ensures
        ({
            let mode = MemoryWriteModeView::Inferred {
                source_observed_at: observed_at,
                source_watermark: watermark,
            };
            let step = remember_step(
                tables,
                request,
                mode,
                detected,
                now,
                entry_id,
                evidence_id,
            );
            let outdated = !revoked_at.earlier(observed_at);
            let standing = match restored_at {
                Some(restored_at) => restored_at.earlier(revoked_at),
                None => true,
            };
            &&& step.result == Ok::<
                Option<RememberedEntryView>,
                MemoryErrorView,
            >(None) <==> outdated || standing
            &&& outdated || standing ==> step.tables == tables
        }),
{
    let scope = request.scope;
    lemma_identities(tables, scope, write.scope_id, write.normalized_key);
    let revoked = revocation_is(scope_text(scope), write.scope_id, write.normalized_key);
    assert forall|j: int| 0 <= j < k implies !revoked(#[trigger] tables.revocations[j]) by {
        assert(!same_revoked(tables.revocations[j], tables.revocations[k]));
    }
    lemma_is_first_match(tables.revocations, revoked, k);
    lemma_first_match(
        tables.entries,
        identity_is(scope_text(scope), write.scope_id, write.normalized_key),
    );
}

/// Without a revocation nothing is kept out, and an explicit write never is.
pub proof fn law_nothing_else_is_kept_out(
    tables: MemoryTablesView,
    request: MemoryRememberRequestView,
    mode: MemoryWriteModeView,
    detected: bool,
    now: Timestamp,
    entry_id: Seq<char>,
    evidence_id: Seq<char>,
)
    requires
        mode is Explicit || (admission(request, detected) matches Ok(write) && forall|i: int|
            0 <= i < tables.revocations.len() ==> !revokes(
                #[trigger] tables.revocations[i],
                request.scope,
                write.scope_id,
                write.normalized_key,
            )),
    ensures
        remember_step(
            tables,
            request,
            mode,
            detected,
            now,
            entry_id,
            evidence_id,
        ).result != Ok::<Option<RememberedEntryView>, MemoryErrorView>(None),
{
    if let Ok(write) = admission(request, detected) {
        lemma_identities(tables, request.scope, write.scope_id, write.normalized_key);
        let revoked = revocation_is(
            scope_text(request.scope),
            write.scope_id,
            write.normalized_key,
        );
        if !(mode is Explicit) {
            assert forall|i: int| 0 <= i < tables.revocations.len() implies !revoked(
                #[trigger] tables.revocations[i],
            ) by {
                assert(!revokes(
                    tables.revocations[i],
                    request.scope,
                    write.scope_id,
                    write.normalized_key,
                ));
            }
            lemma_no_match(tables.revocations, revoked);
        }
    }
}

/// Remembering one claim leaves another as it was, wherever the two differ in a letter
/// or a digit beyond the case of ASCII letters.
pub proof fn law_remembering_leaves_other_claims(
    tables: MemoryTablesView,
    request: MemoryRememberRequestView,
    mode: MemoryWriteModeView,
    detected: bool,
    now: Timestamp,
    entry_id: Seq<char>,
    evidence_id: Seq<char>,
    i: int,
    claim: Seq<char>,
)
    requires
        0 <= i < tables.entries.len(),
        without_spaces(tables.entries[i].normalized_key) == ascii_lower(letters_and_digits(claim)),
        !reads_as(letters_and_digits(claim), letters_and_digits(collapsed(request.text))),
    ensures
        ({
            let after = remember_step(
                tables,
                request,
                mode,
                detected,
                now,
                entry_id,
                evidence_id,
            ).tables;
            i < after.entries.len() && after.entries[i] == tables.entries[i]
        }),
{
    law_write_touches_one_identity(tables, request, mode, detected, now, entry_id, evidence_id);
    let body = collapsed(request.text);
    law_key_keeps_letters_and_digits(body);
    law_lower_case_compares_letters(letters_and_digits(claim), letters_and_digits(body));
    if let Ok(write) = admission(request, detected) {
        assert(write.normalized_key == loose_key(body));
        assert(!has_identity(
            tables.entries[i],
            request.scope,
            write.scope_id,
            write.normalized_key,
        ));
        let after = remember_step(
            tables,
            request,
            mode,
            detected,
            now,
            entry_id,
            evidence_id,
        ).tables;
        assert(after.entries[i] == tables.entries[i]);
    }
}

/// What an inferred write gives back: the entry of its identity, which still belongs to
/// the user with all it holds if the user wrote it, and else holds what was inferred.
pub proof fn law_inferred_write_is_kept(
    tables: MemoryTablesView,
    request: MemoryRememberRequestView,
    observed_at: Timestamp,
    watermark: Seq<char>,
    detected: bool,
    now: Timestamp,
    entry_id: Seq<char>,
    evidence_id: Seq<char>,
)
    requires
        tables.well_formed(),
    ensures
        ({
            let mode = MemoryWriteModeView::Inferred {
                source_observed_at: observed_at,
                source_watermark: watermark,
            };
            let step = remember_step(
                tables,
                request,
                mode,
                detected,
                now,
                entry_id,
                evidence_id,
            );
            step.result matches Ok(Some(remembered)) ==> {
                &&& admission(request, detected) is Ok
                &&& step.tables.revocations == tables.revocations
                &&& {
                    let write = admission(request, detected)->Ok_0;
                    exists|k: int|
                        {
                            &&& 0 <= k < step.tables.entries.len()
                            &&& entry_from(
                                #[trigger] step.tables.entries[k],
                                step.tables.evidence,
                            ) == Ok::<MemoryEntryView, MemoryErrorView>(remembered.entry)
                            &&& has_identity(
                                step.tables.entries[k],
                                request.scope,
                                write.scope_id,
                                write.normalized_key,
                            )
                            &&& step.tables.entries[k].updated_at == now.text()
                            &&& if k < tables.entries.len() && tables.entries[k].origin
                                == "explicit_user"@ {
                                step.tables.entries[k] == EntryRowView {
                                    updated_at: now.text(),
                                    ..tables.entries[k]
                                }
                            } else {
                                &&& remembered.entry.origin == MemoryOrigin::InferredSession
                                &&& remembered.entry.body == collapsed(request.text)
                                &&& remembered.entry.kind == write.kind
                            }
                        }
                }
                &&& exists|k: int|
                    0 <= k < step.tables.evidence.len() && is_evidence_of(
                        #[trigger] step.tables.evidence[k],
                        remembered.entry.entry_id,
                        request.source,
                    )
                &&& step.tables.evidence.len() > tables.evidence.len() ==> {
                    let row = step.tables.evidence[tables.evidence.len() as int];
                    row.evidence_id == evidence_id && row.observed_at == observed_at.text()
                        && row.source_watermark == watermark
                }
            }
        }),
{
    let mode = MemoryWriteModeView::Inferred {
        source_observed_at: observed_at,
        source_watermark: watermark,
    };
    let step = remember_step(tables, request, mode, detected, now, entry_id, evidence_id);
    if let Ok(Some(remembered)) = step.result {
        let write = admission(request, detected)->Ok_0;
        let scope = request.scope;
        lemma_identities(tables, scope, write.scope_id, write.normalized_key);
        let accepts = identity_is(scope_text(scope), write.scope_id, write.normalized_key);
        lemma_first_match(tables.entries, accepts);
        let verdict = decision(tables, scope, write, mode)->Ok_0;
        let after = step.tables;
        let k = match verdict.existing {
            Some(i) => i,
            None => tables.entries.len() as int,
        };
        let id = written_id(tables, verdict, entry_id);
        law_write_keeps_store_well_formed(
            tables,
            request,
            mode,
            detected,
            now,
            entry_id,
            evidence_id,
        );
        let row = after.entries[k];
        assert forall|j: int| 0 <= j < k implies !entry_is(id)(#[trigger] after.entries[j]) by {
            assert(after.entries[j].entry_id != after.entries[k].entry_id);
        }
        lemma_is_first_match(after.entries, entry_is(id), k);
        law_entry_shows_its_row(row, after.evidence);
        law_stored_names_read_back(
            scope,
            write.kind,
            MemoryState::Active,
            MemoryOrigin::InferredSession,
        );
        if k < tables.entries.len() {
            law_stored_names(tables.entries[k].origin);
        }
        assert(accepts(row));
        assert(has_identity(row, scope, write.scope_id, write.normalized_key));
        let session = uuid_text(request.source.session_id.value);
        let turn = turn_text(request.source);
        let item = request.source.user_item_id;
        if already_witnessed(tables, request.source, id) {
            let w = choose|w: int|
                0 <= w < tables.evidence.len() && #[trigger] is_witness(
                    tables.evidence[w],
                    id,
                    session,
                    turn,
                    item,
                );
            assert(is_evidence_of(after.evidence[w], id, request.source));
        } else {
            assert(is_evidence_of(
                after.evidence[tables.evidence.len() as int],
                id,
                request.source,
            ));
        }
    }
}

} // verus!
