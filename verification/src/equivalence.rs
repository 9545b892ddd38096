//! The identity key of an explicitly remembered claim.
//!
//! Two ways of writing the same plain sentence share a key: spacing, enclosing
//! quotes or brackets, a final stop and the capital of a few leading words do
//! not count. Everything else keeps its exact wording.

use vstd::prelude::*;

use crate::text::{
    chars_of, collapse_whitespace, collapsed, alphabetic, uppercase, whitespace, is_word,
    char_range, join_words, lemma_words_are_words, same_text, split_words, text_of, lowercase_of,
    trim, trim_end, trim_end_char, trim_end_matches, trim_start, trimmed, views, words,
};

verus! {

/// The character that closes what `opening` opens.
pub open spec fn closing_of(opening: char) -> Option<char> {
    if opening == '"' {
        Some('"')
    } else if opening == '\'' {
        Some('\'')
    } else if opening == '\u{201c}' {
        Some('\u{201d}')
    } else if opening == '\u{2018}' {
        Some('\u{2019}')
    } else if opening == '(' {
        Some(')')
    } else if opening == '[' {
        Some(']')
    } else if opening == '{' {
        Some('}')
    } else {
        None
    }
}

fn closing_char(opening: char) -> (result: Option<char>)
    ensures
        result == closing_of(opening),
{
    if opening == '"' {
        Some('"')
    } else if opening == '\'' {
        Some('\'')
    } else if opening == '\u{201c}' {
        Some('\u{201d}')
    } else if opening == '\u{2018}' {
        Some('\u{2019}')
    } else if opening == '(' {
        Some(')')
    } else if opening == '[' {
        Some(']')
    } else if opening == '{' {
        Some('}')
    } else {
        None
    }
}

/// What stands inside one enclosing pair, unless that is blank.
pub open spec fn unwrapped(claim: Seq<char>) -> Option<Seq<char>> {
    if claim.len() >= 2 && closing_of(claim[0]) == Some(claim.last()) {
        let inner = trimmed(claim.subrange(1, claim.len() - 1));
        if inner.len() > 0 {
            Some(inner)
        } else {
            None
        }
    } else {
        None
    }
}

/// Whether a character can end a sentence without changing its claim.
pub open spec fn is_stop(c: char) -> bool {
    c == '.' || c == '!' || c == '\u{3002}' || c == '\u{ff01}'
}

/// Whether a stop after this character ends a sentence.
pub open spec fn may_precede_stop(c: char) -> bool {
    alphabetic(c) || c == '"' || c == '\'' || c == '\u{201d}' || c == '\u{2019}' || c == ')' || c
        == ']' || c == '}'
}

/// Whether a claim ends in a stop that does not belong to its last word.
pub open spec fn ends_in_stop(claim: Seq<char>) -> bool {
    claim.len() >= 2 && is_stop(claim.last()) && may_precede_stop(claim[claim.len() - 2])
}

proof fn lemma_trimmed_len(text: Seq<char>)
    ensures
        trimmed(text).len() <= text.len(),
{
    lemma_trim_start_len(text);
    lemma_trim_end_len(trim_start(text));
}

proof fn lemma_trim_start_len(text: Seq<char>)
    ensures
        trim_start(text).len() <= text.len(),
    decreases text.len(),
{
    if text.len() > 0 && whitespace(text[0]) {
        lemma_trim_start_len(text.skip(1));
    }
}

proof fn lemma_trim_end_len(text: Seq<char>)
    ensures
        trim_end(text).len() <= text.len(),
    decreases text.len(),
{
    if text.len() > 0 && whitespace(text.last()) {
        lemma_trim_end_len(text.drop_last());
    }
}

/// The claim without enclosing pairs and final stops.
pub open spec fn bare_claim(claim: Seq<char>) -> Seq<char>
    decreases claim.len(),
    via bare_claim_shrinks
{
    match unwrapped(claim) {
        Some(inner) => bare_claim(inner),
        None => if ends_in_stop(claim) {
            bare_claim(claim.drop_last())
        } else {
            claim
        },
    }
}

#[via_fn]
proof fn bare_claim_shrinks(claim: Seq<char>) {
    if claim.len() >= 2 {
        lemma_trimmed_len(claim.subrange(1, claim.len() - 1));
    }
}

/// Whether a word holds an uppercase character.
pub open spec fn has_uppercase(word: Seq<char>) -> bool {
    exists|i: int| 0 <= i < word.len() && uppercase(#[trigger] word[i])
}

/// Whether the case of a word can carry meaning: it holds a capital, and is
/// not a leading `I`, `My` or `The`.
pub open spec fn word_case_matters(index: int, word: Seq<char>) -> bool {
    let token = trim_end_char(word, ',');
    &&& has_uppercase(token)
    &&& !(index == 0 && (token == "I"@ || token == "My"@ || token == "The"@))
}

/// Whether the case of any word of a claim can carry meaning.
pub open spec fn case_matters(claim: Seq<char>) -> bool {
    exists|i: int| 0 <= i < words(claim).len() && #[trigger] word_case_matters(i, words(claim)[i])
}

/// Whether a character belongs to plain prose: a letter, whitespace, or a comma
/// between a letter and whitespace.
pub open spec fn is_prose_at(claim: Seq<char>, i: int) -> bool {
    ||| alphabetic(claim[i])
    ||| whitespace(claim[i])
    ||| {
        &&& claim[i] == ','
        &&& i > 0
        &&& alphabetic(claim[i - 1])
        &&& i + 1 < claim.len()
        &&& whitespace(claim[i + 1])
    }
}

/// Whether a claim holds plain prose only.
pub open spec fn is_plain_prose(claim: Seq<char>) -> bool {
    forall|i: int| 0 <= i < claim.len() ==> #[trigger] is_prose_at(claim, i)
}

/// Whether the key of a body is its bare claim in lower case.
pub open spec fn folds(body: Seq<char>) -> bool {
    let claim = bare_claim(collapsed(body));
    is_plain_prose(claim) && words(claim).len() > 1 && !case_matters(claim)
}

/// The identity key of a body.
pub open spec fn memory_key(body: Seq<char>) -> Seq<char> {
    if folds(body) {
        lowercase_of(bare_claim(collapsed(body)))
    } else {
        collapsed(body)
    }
}

fn is_stop_char(c: char) -> (result: bool)
    ensures
        result == is_stop(c),
{
    c == '.' || c == '!' || c == '\u{3002}' || c == '\u{ff01}'
}

fn precedes_stop(c: char) -> (result: bool)
    ensures
        result == may_precede_stop(c),
{
    c.is_alphabetic() || c == '"' || c == '\'' || c == '\u{201d}' || c == '\u{2019}' || c == ')'
        || c == ']' || c == '}'
}

fn unwrap_claim(claim: &Vec<char>) -> (result: Option<Vec<char>>)
    ensures
        match result {
            Some(inner) => unwrapped(claim@) == Some(inner@) && inner.len() < claim.len(),
            None => unwrapped(claim@) is None,
        },
{
    let n: usize = claim.len();
    if n < 2 {
        return None;
    }
    match closing_char(claim[0]) {
        Some(closing) => {
            if claim[n - 1] != closing {
                return None;
            }
            let inside = char_range(claim, 1, n - 1);
            let inner = trim(&inside);
            if inner.len() > 0 {
                Some(inner)
            } else {
                None
            }
        },
        None => None,
    }
}

fn strip_claim(claim: &Vec<char>) -> (result: Vec<char>)
    ensures
        result@ == bare_claim(claim@),
    decreases claim.len(),
{
    match unwrap_claim(claim) {
        Some(inner) => strip_claim(&inner),
        None => {
            let n: usize = claim.len();
            if n >= 2 && is_stop_char(claim[n - 1]) && precedes_stop(claim[n - 2]) {
                let shorter = char_range(claim, 0, n - 1);
                assert(shorter@ =~= claim@.drop_last());
                strip_claim(&shorter)
            } else {
                let whole = char_range(claim, 0, n);
                assert(whole@ =~= claim@);
                whole
            }
        },
    }
}

fn any_uppercase(word: &Vec<char>) -> (result: bool)
    ensures
        result == has_uppercase(word@),
{
    let mut i: usize = 0;
    while i < word.len()
        invariant
            i <= word.len(),
            forall|j: int| 0 <= j < i ==> !uppercase(#[trigger] word@[j]),
        decreases word.len() - i,
    {
        if word[i].is_uppercase() {
            return true;
        }
        i = i + 1;
    }
    false
}

fn ambiguous_case(claim: &Vec<char>) -> (result: bool)
    ensures
        result == case_matters(claim@),
{
    let parts = split_words(claim);
    let mut i: usize = 0;
    while i < parts.len()
        invariant
            i <= parts.len(),
            views(parts@) == words(claim@),
            forall|j: int| 0 <= j < i ==> !#[trigger] word_case_matters(j, words(claim@)[j]),
        decreases parts.len() - i,
    {
        assert(words(claim@)[i as int] == parts@[i as int]@);
        let token = trim_end_matches(&parts[i], ',');
        let leading = text_of(&token);
        let ordinary = i == 0 && (same_text(leading.as_str(), "I") || same_text(
            leading.as_str(),
            "My",
        ) || same_text(leading.as_str(), "The"));
        if !ordinary && any_uppercase(&token) {
            assert(word_case_matters(i as int, words(claim@)[i as int]));
            return true;
        }
        i = i + 1;
    }
    false
}

fn plain_prose(claim: &Vec<char>) -> (result: bool)
    ensures
        result == is_plain_prose(claim@),
{
    let n: usize = claim.len();
    let mut i: usize = 0;
    while i < n
        invariant
            n == claim.len(),
            i <= n,
            forall|j: int| 0 <= j < i ==> #[trigger] is_prose_at(claim@, j),
        decreases n - i,
    {
        let c = claim[i];
        let prose = c.is_alphabetic() || c.is_whitespace() || (c == ',' && i > 0 && claim[i
            - 1].is_alphabetic() && i + 1 < n && claim[i + 1].is_whitespace());
        if !prose {
            assert(!is_prose_at(claim@, i as int));
            return false;
        }
        i = i + 1;
    }
    true
}

/// Computes the identity key of an explicitly remembered body.
pub fn explicit_memory_key(body: &str) -> (result: String)
    ensures
        result@ == memory_key(body@),
{
    let chars = chars_of(body);
    let collapsed_body = collapse_whitespace(&chars);
    let claim = strip_claim(&collapsed_body);
    let plain = plain_prose(&claim);
    let parts = split_words(&claim);
    let ambiguous = ambiguous_case(&claim);
    assert(views(parts@).len() == parts.len());
    if plain && parts.len() > 1 && !ambiguous {
        let text = text_of(&claim);
        text.as_str().to_lowercase()
    } else {
        text_of(&collapsed_body)
    }
}

// ---------------------------------------------------------------------------
// Laws.
// ---------------------------------------------------------------------------
/// Whether a text holds single spaces between words and no other whitespace,
/// but for one space that may end it.
pub open spec fn single_spaced(text: Seq<char>) -> bool {
    forall|i: int|
        0 <= i < text.len() && whitespace(#[trigger] text[i]) ==> {
            &&& text[i] == ' '
            &&& i > 0
            &&& !whitespace(text[i - 1])
        }
}

/// Whether a text is already in collapsed form.
pub open spec fn is_tidy(text: Seq<char>) -> bool {
    single_spaced(text) && (text.len() > 0 ==> !whitespace(text.last()))
}

proof fn lemma_join_extends_last(parts: Seq<Seq<char>>, c: char)
    requires
        parts.len() > 0,
    ensures
        join_words(parts.drop_last().push(parts.last().push(c))) == join_words(parts).push(c),
{
    let extended = parts.drop_last().push(parts.last().push(c));
    assert(extended.drop_last() =~= parts.drop_last());
    if parts.len() == 1 {
        assert(extended[0] == parts[0].push(c));
    } else {
        assert(join_words(extended) =~= join_words(parts).push(c));
    }
}

proof fn lemma_collapse_of_single_spaced(text: Seq<char>)
    requires
        single_spaced(text),
    ensures
        text.len() > 0 && whitespace(text.last()) ==> collapsed(text).push(' ') == text,
        !(text.len() > 0 && whitespace(text.last())) ==> collapsed(text) == text,
    decreases text.len(),
{
    if text.len() > 0 {
        let shorter = text.drop_last();
        let c = text.last();
        assert forall|i: int| 0 <= i < shorter.len() && whitespace(#[trigger] shorter[i]) implies {
            &&& shorter[i] == ' '
            &&& i > 0
            &&& !whitespace(shorter[i - 1])
        } by {
            assert(text[i] == shorter[i]);
        }
        lemma_collapse_of_single_spaced(shorter);
        lemma_words_are_words(shorter);
        let before = words(shorter);
        if whitespace(c) {
            assert(text[text.len() - 1] == c);
            assert(shorter.last() == text[text.len() - 2]);
            assert(collapsed(text).push(' ') =~= text);
        } else if text.len() >= 2 && !whitespace(text[text.len() - 2]) {
            assert(shorter.last() == text[text.len() - 2]);
            lemma_join_extends_last(before, c);
            assert(collapsed(text) =~= text);
        } else if text.len() >= 2 {
            assert(shorter.last() == text[text.len() - 2]);
            assert(whitespace(shorter[shorter.len() - 1]));
            let shortest = shorter.drop_last();
            lemma_words_are_words(shortest);
            assert(shortest.last() == shorter[shorter.len() - 2]);
            assert(before.len() > 0);
            let parts = before.push(seq![c]);
            assert(parts.drop_last() =~= before);
            assert(words(text) == parts);
            assert(join_words(parts) == join_words(before) + seq![' '] + seq![c]);
            assert(join_words(before) + seq![' '] =~= shorter);
            assert(shorter + seq![c] =~= text);
        } else {
            assert(words(shorter) =~= Seq::empty());
            assert(collapsed(text) =~= text);
        }
    } else {
        assert(collapsed(text) =~= text);
    }
}

proof fn lemma_join_is_tidy(parts: Seq<Seq<char>>)
    requires
        forall|i: int| 0 <= i < parts.len() ==> is_word(#[trigger] parts[i]),
    ensures
        is_tidy(join_words(parts)),
        parts.len() > 0 ==> join_words(parts).len() > 0,
    decreases parts.len(),
{
    if parts.len() == 1 {
        assert(is_word(parts[0]));
    } else if parts.len() > 1 {
        lemma_join_is_tidy(parts.drop_last());
        let front = join_words(parts.drop_last());
        let word = parts.last();
        assert(is_word(parts[parts.len() - 1]));
        let whole = front + seq![' '] + word;
        assert forall|i: int| 0 <= i < whole.len() && whitespace(#[trigger] whole[i]) implies {
            &&& whole[i] == ' '
            &&& i > 0
            &&& !whitespace(whole[i - 1])
        } by {
            if i < front.len() {
                assert(whole[i] == front[i]);
                assert(whole[i - 1] == front[i - 1]);
            } else if i == front.len() {
                assert(whole[i - 1] == front.last());
            } else {
                assert(whole[i] == word[i - front.len() - 1]);
            }
        }
        assert(whole.last() == word[word.len() - 1]);
    }
}

/// Collapsing whitespace is idempotent.
pub proof fn law_collapse_idempotent(text: Seq<char>)
    ensures
        is_tidy(collapsed(text)),
        collapsed(collapsed(text)) == collapsed(text),
{
    lemma_words_are_words(text);
    lemma_join_is_tidy(words(text));
    lemma_collapse_of_single_spaced(collapsed(text));
}

/// Spacing does not count: a body and its collapsed form share a key, and so do
/// any two bodies with the same words.
pub proof fn law_key_ignores_spacing(left: Seq<char>, right: Seq<char>)
    ensures
        memory_key(collapsed(left)) == memory_key(left),
        words(left) == words(right) ==> memory_key(left) == memory_key(right),
{
    law_collapse_idempotent(left);
}

proof fn lemma_trimmed_of_bare_ends(text: Seq<char>)
    requires
        text.len() > 0,
        !whitespace(text[0]),
        !whitespace(text.last()),
    ensures
        trimmed(text) == text,
{
}

/// An enclosing pair does not count: a plain claim and the same claim inside
/// quotes or brackets share a key.
pub proof fn law_key_ignores_enclosing_pair(claim: Seq<char>, opening: char, closing: char)
    requires
        is_tidy(claim),
        folds(claim),
        closing_of(opening) == Some(closing),
        !whitespace(opening),
        !whitespace(closing),
    ensures
        memory_key(seq![opening] + claim + seq![closing]) == memory_key(claim),
{
    lemma_collapse_of_single_spaced(claim);
    if claim.len() == 0 {
        assert(words(claim) =~= Seq::empty());
        assert(bare_claim(claim) == claim);
    }
    let wrapped = seq![opening] + claim + seq![closing];
    assert forall|i: int| 0 <= i < wrapped.len() && whitespace(#[trigger] wrapped[i]) implies {
        &&& wrapped[i] == ' '
        &&& i > 0
        &&& !whitespace(wrapped[i - 1])
    } by {
        assert(wrapped[i] == claim[i - 1]);
        if i > 1 {
            assert(wrapped[i - 1] == claim[i - 2]);
        }
    }
    assert(wrapped.last() == closing);
    lemma_collapse_of_single_spaced(wrapped);
    assert(wrapped.subrange(1, wrapped.len() - 1) =~= claim);
    assert(!whitespace(claim[0])) by {
        if whitespace(claim[0]) {
            assert(claim[0] == ' ');
        }
    }
    lemma_trimmed_of_bare_ends(claim);
    assert(unwrapped(wrapped) == Some(claim));
    assert(bare_claim(wrapped) == bare_claim(claim));
}

/// A final stop does not count: a plain claim that ends in a letter and the same
/// claim with a stop behind it share a key.
pub proof fn law_key_ignores_final_stop(claim: Seq<char>, stop: char)
    requires
        is_tidy(claim),
        folds(claim),
        claim.len() > 0,
        alphabetic(claim.last()),
        is_stop(stop),
        !whitespace(stop),
    ensures
        memory_key(claim.push(stop)) == memory_key(claim),
{
    lemma_collapse_of_single_spaced(claim);
    let stopped = claim.push(stop);
    assert forall|i: int| 0 <= i < stopped.len() && whitespace(#[trigger] stopped[i]) implies {
        &&& stopped[i] == ' '
        &&& i > 0
        &&& !whitespace(stopped[i - 1])
    } by {
        assert(stopped[i] == claim[i]);
        assert(stopped[i - 1] == claim[i - 1]);
    }
    lemma_collapse_of_single_spaced(stopped);
    assert(stopped.drop_last() =~= claim);
    assert(stopped[stopped.len() - 2] == claim.last());
    assert(unwrapped(stopped) is None);
    assert(bare_claim(stopped) == bare_claim(claim));
}

/// Wording counts wherever it could carry meaning: a body that is not plain
/// prose, is a single word or holds a telling capital keys as it is written, up
/// to spacing.
pub proof fn law_key_keeps_wording(body: Seq<char>)
    ensures
        !folds(body) ==> memory_key(body) == collapsed(body),
        case_matters(bare_claim(collapsed(body))) ==> memory_key(body) == collapsed(body),
        !is_plain_prose(bare_claim(collapsed(body))) ==> memory_key(body) == collapsed(body),
{
}

proof fn lemma_tidy_is_collapsed(text: Seq<char>)
    requires
        is_tidy(text),
    ensures
        collapsed(text) == text,
{
    lemma_collapse_of_single_spaced(text);
}

/// A key is its own key: always where the body keeps its wording, and for plain
/// prose wherever its lower case is tidy, bare and in lower case itself. That
/// `str::to_lowercase` leaves its own results alone is not known here, so it is
/// asked of the one text that matters.
pub proof fn law_key_of_key(body: Seq<char>)
    ensures
        ({
            let key = memory_key(body);
            (folds(body) ==> is_tidy(key) && bare_claim(key) == key && lowercase_of(key) == key)
                ==> memory_key(key) == key
        }),
{
    let key = memory_key(body);
    if folds(body) {
        if is_tidy(key) {
            lemma_tidy_is_collapsed(key);
        }
    } else {
        law_collapse_idempotent(body);
    }
}

} // verus!
