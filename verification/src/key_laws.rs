//! Laws of the keys of claims that the user made: what round a claim does not count,
//! what of its wording does, and when two claims are the same.

use vstd::prelude::*;

use crate::equivalence::{
    bare_claim, case_matters, ends_in_stop, folds, is_plain_prose, is_prose_at, is_tidy,
    law_key_ignores_enclosing_pair, law_key_ignores_final_stop, memory_key, unwrapped,
    word_case_matters,
};
use crate::text::{
    alphabetic, collapsed, lowercase_of, trim_end_char, trimmed, uppercase, whitespace, words,
};
use crate::text_laws::{is_blank, law_trimming_takes_the_ends};

verus! {

// ---------------------------------------------------------------------------
// What stands round a claim.
// ---------------------------------------------------------------------------
/// Whether two characters enclose what stands between them.
pub open spec fn is_pair(opening: char, closing: char) -> bool {
    ||| opening == '"' && closing == '"'
    ||| opening == '\'' && closing == '\''
    ||| opening == '\u{201c}' && closing == '\u{201d}'
    ||| opening == '\u{2018}' && closing == '\u{2019}'
    ||| opening == '(' && closing == ')'
    ||| opening == '[' && closing == ']'
    ||| opening == '{' && closing == '}'
}

/// Whether a character ends a sentence that says something.
pub open spec fn is_full_stop(c: char) -> bool {
    c == '.' || c == '!' || c == '\u{3002}' || c == '\u{ff01}'
}

/// Whether a character closes something.
pub open spec fn is_closing(c: char) -> bool {
    c == '"' || c == '\'' || c == '\u{201d}' || c == '\u{2019}' || c == ')' || c == ']' || c == '}'
}

/// Whether a character may stand round a claim without being part of it.
pub open spec fn is_wrapping(c: char) -> bool {
    is_closing(c) || c == '\u{201c}' || c == '\u{2018}' || c == '(' || c == '[' || c == '{'
        || is_full_stop(c) || whitespace(c)
}

/// Whether a claim stands within a text that has nothing but wrapping round it.
pub open spec fn stands_within(text: Seq<char>, claim: Seq<char>, from: int, to: int) -> bool {
    &&& 0 <= from <= to <= text.len()
    &&& claim == text.subrange(from, to)
    &&& forall|i: int| 0 <= i < from ==> is_wrapping(#[trigger] text[i])
    &&& forall|i: int| to <= i < text.len() ==> is_wrapping(#[trigger] text[i])
}

proof fn lemma_within_within(
    text: Seq<char>,
    inner: Seq<char>,
    start: int,
    end: int,
    claim: Seq<char>,
    from: int,
    to: int,
)
    requires
        stands_within(text, inner, start, end),
        stands_within(inner, claim, from, to),
    ensures
        stands_within(text, claim, start + from, start + to),
{
    assert(claim =~= text.subrange(start + from, start + to));
    assert forall|i: int| 0 <= i < start + from implies is_wrapping(#[trigger] text[i]) by {
        if i >= start {
            assert(inner[i - start] == text[i]);
        }
    }
    assert forall|i: int| start + to <= i < text.len() implies is_wrapping(#[trigger] text[i]) by {
        if i < end {
            assert(inner[i - start] == text[i]);
        }
    }
}

proof fn lemma_inner_stands_within(text: Seq<char>) -> (bounds: (int, int))
    requires
        unwrapped(text) is Some,
    ensures
        stands_within(text, unwrapped(text)->Some_0, bounds.0, bounds.1),
        unwrapped(text)->Some_0.len() < text.len(),
{
    let middle = text.subrange(1, text.len() - 1);
    let inner = trimmed(middle);
    law_trimming_takes_the_ends(middle);
    let (before, behind) = choose|before: Seq<char>, behind: Seq<char>|
        is_blank(before) && is_blank(behind) && middle == #[trigger] (before + inner + behind);
    let start = 1 + before.len() as int;
    let end = start + inner.len();
    assert(middle.len() == before.len() + inner.len() + behind.len());
    assert(inner =~= text.subrange(start, end)) by {
        assert forall|i: int| 0 <= i < inner.len() implies inner[i] == text.subrange(
            start,
            end,
        )[i] by {
            assert(middle[before.len() + i] == inner[i]);
        }
    }
    assert forall|i: int| 0 <= i < start implies is_wrapping(#[trigger] text[i]) by {
        if i > 0 {
            assert(middle[i - 1] == before[i - 1]);
            assert(whitespace(before[i - 1]));
        }
    }
    assert forall|i: int| end <= i < text.len() implies is_wrapping(#[trigger] text[i]) by {
        if i < text.len() - 1 {
            let at = i - end;
            assert(middle[i - 1] == behind[at]);
            assert(whitespace(behind[at]));
        }
    }
    (start, end)
}

proof fn lemma_bare_stands_within(text: Seq<char>) -> (bounds: (int, int))
    ensures
        stands_within(text, bare_claim(text), bounds.0, bounds.1),
    decreases text.len(),
{
    match unwrapped(text) {
        Some(inner) => {
            let (start, end) = lemma_inner_stands_within(text);
            let (from, to) = lemma_bare_stands_within(inner);
            lemma_within_within(text, inner, start, end, bare_claim(text), from, to);
            (start + from, start + to)
        },
        None => if ends_in_stop(text) {
            let front = text.drop_last();
            assert(stands_within(text, front, 0, text.len() - 1)) by {
                assert(front =~= text.subrange(0, text.len() - 1));
            }
            let (from, to) = lemma_bare_stands_within(front);
            lemma_within_within(text, front, 0, text.len() - 1, bare_claim(text), from, to);
            (from, to)
        } else {
            assert(text.subrange(0, text.len() as int) =~= text);
            (0int, text.len() as int)
        },
    }
}

/// A bare claim is part of the claim: round it there is nothing but quotes, brackets,
/// final stops and whitespace, so that no word, no number and no other sign is lost.
pub proof fn law_bare_claim_loses_wrapping_alone(claim: Seq<char>)
    ensures
        exists|from: int, to: int| #[trigger] stands_within(claim, bare_claim(claim), from, to),
{
    let bounds = lemma_bare_stands_within(claim);
    assert(stands_within(claim, bare_claim(claim), bounds.0, bounds.1));
}

proof fn lemma_bare_is_bare(claim: Seq<char>)
    ensures
        unwrapped(bare_claim(claim)) is None,
        !ends_in_stop(bare_claim(claim)),
    decreases claim.len(),
{
    match unwrapped(claim) {
        Some(inner) => {
            let bounds = lemma_inner_stands_within(claim);
            lemma_bare_is_bare(inner);
        },
        None => if ends_in_stop(claim) {
            lemma_bare_is_bare(claim.drop_last());
        },
    }
}

/// A bare claim is bare: no pair of quotes or brackets encloses it any more, unless
/// there is nothing between, and no stop ends it that follows a letter or the end of a
/// quote.
pub proof fn law_bare_claim_is_bare(claim: Seq<char>)
    ensures
        ({
            let bare = bare_claim(claim);
            bare.len() >= 2 ==> {
                &&& is_pair(bare[0], bare.last()) ==> trimmed(
                    bare.subrange(1, bare.len() - 1),
                ).len() == 0
                &&& is_full_stop(bare.last()) ==> !alphabetic(bare[bare.len() - 2]) && !is_closing(
                    bare[bare.len() - 2],
                )
            }
        }),
        claim.len() < 2 ==> bare_claim(claim) == claim,
        claim.len() >= 2 && !is_pair(claim[0], claim.last()) && !is_full_stop(claim.last())
            ==> bare_claim(claim) == claim,
{
    lemma_bare_is_bare(claim);
}

/// Quotes and brackets round a claim do not count for its key.
pub proof fn law_key_without_enclosing_pair(claim: Seq<char>, opening: char, closing: char)
    requires
        is_tidy(claim),
        folds(claim),
        is_pair(opening, closing),
        !whitespace(opening),
        !whitespace(closing),
    ensures
        memory_key(seq![opening] + claim + seq![closing]) == memory_key(claim),
{
    law_key_ignores_enclosing_pair(claim, opening, closing);
}

/// A stop behind the last letter of a claim does not count for its key.
pub proof fn law_key_without_final_stop(claim: Seq<char>, stop: char)
    requires
        is_tidy(claim),
        folds(claim),
        claim.len() > 0,
        alphabetic(claim.last()),
        is_full_stop(stop),
        !whitespace(stop),
    ensures
        memory_key(claim.push(stop)) == memory_key(claim),
{
    law_key_ignores_final_stop(claim, stop);
}

// ---------------------------------------------------------------------------
// What counts of the wording.
// ---------------------------------------------------------------------------
/// Whether a word is a token and the commas behind it.
pub open spec fn is_token_of(token: Seq<char>, word: Seq<char>) -> bool {
    &&& token.len() <= word.len()
    &&& token == word.take(token.len() as int)
    &&& token.len() > 0 ==> token.last() != ','
    &&& forall|i: int| token.len() <= i < word.len() ==> #[trigger] word[i] == ','
}

proof fn lemma_token(word: Seq<char>)
    ensures
        is_token_of(trim_end_char(word, ','), word),
    decreases word.len(),
{
    if word.len() > 0 && word.last() == ',' {
        let front = word.drop_last();
        lemma_token(front);
        let token = trim_end_char(word, ',');
        assert(front.take(token.len() as int) =~= word.take(token.len() as int));
        assert forall|i: int| token.len() <= i < word.len() implies #[trigger] word[i] == ',' by {
            if i < front.len() {
                assert(front[i] == word[i]);
            }
        }
    } else {
        assert(word.take(word.len() as int) =~= word);
    }
}

proof fn lemma_one_token(word: Seq<char>, a: Seq<char>, b: Seq<char>)
    requires
        is_token_of(a, word),
        is_token_of(b, word),
    ensures
        a == b,
{
    if a.len() < b.len() {
        assert(word[b.len() - 1] == ',');
        assert(b.last() == word[b.len() - 1]);
    } else if b.len() < a.len() {
        assert(word[a.len() - 1] == ',');
        assert(a.last() == word[a.len() - 1]);
    } else {
        assert(a =~= b);
    }
}

/// Whether a word of a claim has a capital that can carry meaning: any but that of
/// `I`, `My` or `The` at the beginning.
pub open spec fn has_telling_capital(claim: Seq<char>, i: int, token: Seq<char>) -> bool {
    &&& 0 <= i < words(claim).len()
    &&& is_token_of(token, words(claim)[i])
    &&& exists|j: int| 0 <= j < token.len() && uppercase(#[trigger] token[j])
    &&& i == 0 ==> token != "I"@ && token != "My"@ && token != "The"@
}

/// Whether a character of a claim is that of a plain sentence: a letter, whitespace, or
/// a comma with a letter before it and whitespace behind it.
pub open spec fn is_plain_at(claim: Seq<char>, i: int) -> bool {
    ||| alphabetic(claim[i])
    ||| whitespace(claim[i])
    ||| claim[i] == ',' && 0 < i < claim.len() - 1 && alphabetic(claim[i - 1]) && whitespace(
        claim[i + 1],
    )
}

/// The wording of a claim counts, up to spacing, where it could carry meaning: in a
/// number or a sign, in a comma within a word, in a single word, and in a capital.
pub proof fn law_key_keeps_what_could_matter(body: Seq<char>, i: int, token: Seq<char>)
    ensures
        ({
            let claim = bare_claim(collapsed(body));
            &&& 0 <= i < claim.len() && !is_plain_at(claim, i) ==> memory_key(body) == collapsed(
                body,
            )
            &&& words(claim).len() <= 1 ==> memory_key(body) == collapsed(body)
            &&& has_telling_capital(claim, i, token) ==> memory_key(body) == collapsed(body)
        }),
{
    let claim = bare_claim(collapsed(body));
    if 0 <= i < claim.len() && !is_plain_at(claim, i) {
        assert(!is_prose_at(claim, i));
        assert(!is_plain_prose(claim));
    }
    if has_telling_capital(claim, i, token) {
        let word = words(claim)[i];
        lemma_token(word);
        lemma_one_token(word, token, trim_end_char(word, ','));
        let j = choose|j: int| 0 <= j < token.len() && uppercase(#[trigger] token[j]);
        assert(uppercase(trim_end_char(word, ',')[j]));
        assert(word_case_matters(i, words(claim)[i]));
        assert(case_matters(claim));
    }
}

/// Any other claim, a plain sentence of two words or more without a telling capital,
/// keys in lower case and bare, so that neither case nor what stands round it counts.
pub proof fn law_plain_sentences_key_in_lower_case(body: Seq<char>)
    requires
        ({
            let claim = bare_claim(collapsed(body));
            &&& forall|i: int| 0 <= i < claim.len() ==> #[trigger] is_plain_at(claim, i)
            &&& words(claim).len() > 1
            &&& forall|i: int, token: Seq<char>| !#[trigger] has_telling_capital(claim, i, token)
        }),
    ensures
        memory_key(body) == lowercase_of(bare_claim(collapsed(body))),
{
    let claim = bare_claim(collapsed(body));
    assert forall|i: int| 0 <= i < claim.len() implies #[trigger] is_prose_at(claim, i) by {
        assert(is_plain_at(claim, i));
    }
    if case_matters(claim) {
        let i = choose|i: int|
            0 <= i < words(claim).len() && #[trigger] word_case_matters(i, words(claim)[i]);
        let token = trim_end_char(words(claim)[i], ',');
        lemma_token(words(claim)[i]);
        assert(has_telling_capital(claim, i, token));
    }
}

} // verus!
