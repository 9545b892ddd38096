//! Laws of texts: what words, parts, case, order and patterns come to, told by the
//! characters of a text.

use vstd::prelude::*;

use crate::text::{
    ascii_lower, ascii_lower_char, collapsed, decimal, has_part, has_prefix, is_word, join_words,
    lemma_words_are_words, like, stands_at, text_less, trim_end, trim_start, trimmed, whitespace,
    words,
};

verus! {

// ---------------------------------------------------------------------------
// Case.
// ---------------------------------------------------------------------------
/// Lower case changes the letters `A` to `Z`, each to the letter 32 places behind it,
/// and no other character; it keeps the length of a text.
pub proof fn law_lower_case_by_character(text: Seq<char>)
    ensures
        ascii_lower(text).len() == text.len(),
        forall|i: int|
            0 <= i < text.len() ==> {
                let c = text[i];
                let d = #[trigger] ascii_lower(text)[i];
                &&& 'A' <= c <= 'Z' ==> d as int == c as int + 32
                &&& !('A' <= c <= 'Z') ==> d == c
            },
{
    assert forall|i: int| 0 <= i < text.len() implies {
        let c = text[i];
        let d = #[trigger] ascii_lower(text)[i];
        &&& 'A' <= c <= 'Z' ==> d as int == c as int + 32
        &&& !('A' <= c <= 'Z') ==> d == c
    } by {
        lemma_lower_char(text[i]);
    }
}

pub proof fn lemma_lower_char(c: char)
    ensures
        'A' <= c <= 'Z' ==> ascii_lower_char(c) as int == c as int + 32,
        !('A' <= c <= 'Z') ==> ascii_lower_char(c) == c,
        ascii_lower_char(ascii_lower_char(c)) == ascii_lower_char(c),
        ascii_lower_char(c) == ' ' <==> c == ' ',
{
}

/// Lower case goes through a text piece by piece.
pub proof fn law_lower_case_of_joined(left: Seq<char>, right: Seq<char>)
    ensures
        ascii_lower(left + right) == ascii_lower(left) + ascii_lower(right),
        ascii_lower(ascii_lower(left)) == ascii_lower(left),
{
    assert(ascii_lower(left + right) =~= ascii_lower(left) + ascii_lower(right));
    assert forall|i: int| 0 <= i < left.len() implies #[trigger] ascii_lower(ascii_lower(left))[i]
        == ascii_lower(left)[i] by {
        lemma_lower_char(left[i]);
    }
    assert(ascii_lower(ascii_lower(left)) =~= ascii_lower(left));
}

// ---------------------------------------------------------------------------
// Parts.
// ---------------------------------------------------------------------------
/// A text holds a part exactly if it is something, the part, and something; it begins
/// with a prefix exactly if it is the prefix and something.
pub proof fn law_parts_stand_between(text: Seq<char>, part: Seq<char>)
    ensures
        has_part(text, part) <==> exists|before: Seq<char>, behind: Seq<char>|
            text == #[trigger] (before + part + behind),
        has_prefix(text, part) <==> exists|behind: Seq<char>| text == #[trigger] (part + behind),
{
    if has_part(text, part) {
        let at = choose|at: int| stands_at(text, part, at);
        let before = text.take(at);
        let behind = text.skip(at + part.len());
        assert(text =~= before + text.subrange(at, at + part.len()) + behind);
        assert(text == before + part + behind);
    }
    if exists|before: Seq<char>, behind: Seq<char>| text == #[trigger] (before + part + behind) {
        let (before, behind) = choose|before: Seq<char>, behind: Seq<char>|
            text == #[trigger] (before + part + behind);
        lemma_part_between(before, part, behind);
    }
    if has_prefix(text, part) {
        let behind = text.skip(part.len() as int);
        assert(text =~= text.subrange(0, part.len() as int) + behind);
        assert(text == part + behind);
    }
    if exists|behind: Seq<char>| text == #[trigger] (part + behind) {
        let behind = choose|behind: Seq<char>| text == #[trigger] (part + behind);
        assert(text.subrange(0, part.len() as int) =~= part);
    }
}

pub proof fn lemma_part_between(before: Seq<char>, part: Seq<char>, behind: Seq<char>)
    ensures
        has_part(before + part + behind, part),
{
    let text = before + part + behind;
    let at = before.len() as int;
    assert(text.subrange(at, at + part.len()) =~= part);
    assert(stands_at(text, part, at));
}

/// Whether a text holds a part at a position, the case of ASCII letters aside.
pub open spec fn reads_at(text: Seq<char>, part: Seq<char>, at: int) -> bool {
    &&& 0 <= at
    &&& at + part.len() <= text.len()
    &&& forall|i: int|
        0 <= i < part.len() ==> same_letter(#[trigger] text[at + i], part[i])
}

/// Whether two characters are the same, the case of ASCII letters aside.
pub open spec fn same_letter(a: char, b: char) -> bool {
    ||| a == b
    ||| 'A' <= a <= 'Z' && b as int == a as int + 32
    ||| 'A' <= b <= 'Z' && a as int == b as int + 32
}

/// Whether a text holds a part anywhere, the case of ASCII letters aside.
pub open spec fn reads_in(text: Seq<char>, part: Seq<char>) -> bool {
    exists|at: int| reads_at(text, part, at)
}

/// Whether two texts are the same, the case of ASCII letters aside.
pub open spec fn reads_as(text: Seq<char>, other: Seq<char>) -> bool {
    text.len() == other.len() && reads_at(text, other, 0)
}

pub proof fn lemma_same_letter(a: char, b: char)
    ensures
        same_letter(a, b) <==> ascii_lower_char(a) == ascii_lower_char(b),
{
    lemma_lower_char(a);
    lemma_lower_char(b);
}

proof fn lemma_reads_at(text: Seq<char>, part: Seq<char>, at: int)
    ensures
        reads_at(text, part, at) <==> stands_at(ascii_lower(text), ascii_lower(part), at),
{
    let lower = ascii_lower(text);
    let wanted = ascii_lower(part);
    if reads_at(text, part, at) {
        assert forall|i: int| 0 <= i < part.len() implies lower[at + i] == #[trigger] wanted[i] by {
            lemma_same_letter(text[at + i], part[i]);
            assert(same_letter(text[at + i], part[i]));
        }
        assert(lower.subrange(at, at + wanted.len()) =~= wanted);
    }
    if stands_at(lower, wanted, at) {
        assert forall|i: int| 0 <= i < part.len() implies same_letter(
            #[trigger] text[at + i],
            part[i],
        ) by {
            assert(lower.subrange(at, at + wanted.len())[i] == wanted[i]);
            lemma_same_letter(text[at + i], part[i]);
        }
    }
}

/// Two texts are the same in lower case exactly if they read as the same; one holds
/// the other in lower case exactly if it reads in it. A part reads in every text that
/// it stands in.
pub proof fn law_lower_case_compares_letters(text: Seq<char>, part: Seq<char>)
    ensures
        ascii_lower(text) == ascii_lower(part) <==> reads_as(text, part),
        has_part(ascii_lower(text), ascii_lower(part)) <==> reads_in(text, part),
        has_prefix(ascii_lower(text), ascii_lower(part)) <==> reads_at(text, part, 0),
        forall|before: Seq<char>, behind: Seq<char>|
            text == #[trigger] (before + part + behind) ==> reads_in(text, part),
{
    lemma_reads_at(text, part, 0);
    if ascii_lower(text) == ascii_lower(part) {
        assert(text.len() == ascii_lower(part).len());
        assert(ascii_lower(text).subrange(0, part.len() as int) =~= ascii_lower(part));
    }
    if reads_as(text, part) {
        assert(ascii_lower(text).subrange(0, part.len() as int) =~= ascii_lower(text));
    }
    if has_part(ascii_lower(text), ascii_lower(part)) {
        let at = choose|at: int| stands_at(ascii_lower(text), ascii_lower(part), at);
        lemma_reads_at(text, part, at);
    }
    if reads_in(text, part) {
        let at = choose|at: int| reads_at(text, part, at);
        lemma_reads_at(text, part, at);
    }
    assert forall|before: Seq<char>, behind: Seq<char>|
        text == #[trigger] (before + part + behind) implies reads_in(text, part) by {
        assert forall|i: int| 0 <= i < part.len() implies same_letter(
            #[trigger] text[before.len() + i],
            part[i],
        ) by {}
        assert(reads_at(text, part, before.len() as int));
    }
}

// ---------------------------------------------------------------------------
// Order.
// ---------------------------------------------------------------------------
/// Of two texts that begin alike, the one whose next character is smaller comes first,
/// and a text comes before every longer one that begins with it.
pub proof fn law_order_is_by_first_difference(
    common: Seq<char>,
    a: char,
    left: Seq<char>,
    b: char,
    right: Seq<char>,
)
    requires
        (a as int) < (b as int),
    ensures
        text_less(common + seq![a] + left, common + seq![b] + right),
        !text_less(common + seq![b] + right, common + seq![a] + left),
        text_less(common, common + seq![a] + left),
        !text_less(common + seq![a] + left, common),
    decreases common.len(),
{
    let l = common + seq![a] + left;
    let r = common + seq![b] + right;
    if common.len() > 0 {
        let rest = common.skip(1);
        law_order_is_by_first_difference(rest, a, left, b, right);
        assert(l.skip(1) =~= rest + seq![a] + left);
        assert(r.skip(1) =~= rest + seq![b] + right);
        assert(l[0] == common[0] && r[0] == common[0]);
    } else {
        assert(l[0] == a && r[0] == b);
    }
}

// ---------------------------------------------------------------------------
// Words.
// ---------------------------------------------------------------------------
/// Whether a text is whitespace alone.
pub open spec fn is_blank(text: Seq<char>) -> bool {
    forall|i: int| 0 <= i < text.len() ==> whitespace(#[trigger] text[i])
}

/// Whitespace separates words, a run of other characters is one word, and whitespace
/// alone is none.
pub proof fn law_words_are_separated_by_whitespace(left: Seq<char>, gap: char, right: Seq<char>)
    requires
        whitespace(gap),
    ensures
        words(left + seq![gap] + right) == words(left) + words(right),
        is_word(left) ==> words(left) == seq![left],
        is_blank(left) ==> words(left) == Seq::<Seq<char>>::empty(),
    decreases right.len(),
{
    let whole = left + seq![gap] + right;
    if right.len() == 0 {
        assert(whole.drop_last() =~= left);
        assert(whole.last() == gap);
        assert(words(left) + words(right) =~= words(left));
    } else {
        let shorter = right.drop_last();
        law_words_are_separated_by_whitespace(left, gap, shorter);
        assert(whole.drop_last() =~= left + seq![gap] + shorter);
        assert(whole.last() == right.last());
        lemma_words_are_words(shorter);
        let c = right.last();
        if !whitespace(c) {
            if right.len() >= 2 {
                assert(whole[whole.len() - 2] == right[right.len() - 2]);
                assert(shorter.last() == right[right.len() - 2]);
                if !whitespace(right[right.len() - 2]) {
                    let before = words(shorter);
                    let all = words(left) + before;
                    assert(all.last() == before.last());
                    assert(all.drop_last().push(all.last().push(c)) =~= words(left)
                        + before.drop_last().push(before.last().push(c)));
                } else {
                    assert((words(left) + words(shorter)).push(seq![c]) =~= words(left) + words(
                        shorter,
                    ).push(seq![c]));
                }
            } else {
                assert(whole[whole.len() - 2] == gap);
                assert((words(left) + words(shorter)).push(seq![c]) =~= words(left) + words(
                    shorter,
                ).push(seq![c]));
            }
        }
    }
    if is_word(left) {
        lemma_one_word(left);
    }
    if is_blank(left) {
        lemma_no_words(left);
    }
}

proof fn lemma_one_word(word: Seq<char>)
    requires
        is_word(word),
    ensures
        words(word) == seq![word],
    decreases word.len(),
{
    let shorter = word.drop_last();
    assert(!whitespace(word[word.len() - 1]));
    if shorter.len() > 0 {
        assert forall|i: int| 0 <= i < shorter.len() implies !whitespace(#[trigger] shorter[i]) by {
            assert(shorter[i] == word[i]);
        }
        lemma_one_word(shorter);
        assert(!whitespace(word[word.len() - 2]));
        assert(shorter.push(word.last()) =~= word);
        assert(words(word) =~= seq![word]);
    } else {
        assert(words(shorter) =~= Seq::empty());
        assert(seq![word.last()] =~= word);
        assert(words(word) =~= seq![word]);
    }
}

proof fn lemma_no_words(text: Seq<char>)
    requires
        is_blank(text),
    ensures
        words(text) == Seq::<Seq<char>>::empty(),
    decreases text.len(),
{
    if text.len() > 0 {
        let shorter = text.drop_last();
        assert forall|i: int| 0 <= i < shorter.len() implies whitespace(#[trigger] shorter[i]) by {
            assert(shorter[i] == text[i]);
        }
        lemma_no_words(shorter);
        assert(whitespace(text[text.len() - 1]));
    }
}

proof fn lemma_join(left: Seq<Seq<char>>, right: Seq<Seq<char>>)
    ensures
        left.len() > 0 && right.len() > 0 ==> join_words(left + right) == join_words(left) + seq![
            ' ',
        ] + join_words(right),
        left.len() == 0 ==> join_words(left + right) == join_words(right),
        right.len() == 0 ==> join_words(left + right) == join_words(left),
    decreases right.len(),
{
    if right.len() == 0 {
        assert(left + right =~= left);
    } else if left.len() == 0 {
        assert(left + right =~= right);
    } else {
        let all = left + right;
        let shorter = right.drop_last();
        lemma_join(left, shorter);
        assert(all.drop_last() =~= left + shorter);
        assert(all.last() == right.last());
        if shorter.len() > 0 {
            assert(join_words(all) =~= join_words(left) + seq![' '] + join_words(right));
        } else {
            assert(left + shorter =~= left);
            assert(right[0] == right.last());
            assert(join_words(all) =~= join_words(left) + seq![' '] + join_words(right));
        }
    }
}

proof fn lemma_join_is_empty(parts: Seq<Seq<char>>)
    requires
        forall|i: int| 0 <= i < parts.len() ==> is_word(#[trigger] parts[i]),
    ensures
        join_words(parts).len() == 0 <==> parts.len() == 0,
{
    if parts.len() == 1 {
        assert(is_word(parts[0]));
    }
}

/// Collapsing leaves one space where whitespace separates words, and none elsewhere:
/// what stands before a gap and what stands behind it are collapsed by themselves, a
/// word stays as it is, and whitespace alone goes.
pub proof fn law_collapsing_goes_word_by_word(left: Seq<char>, gap: char, right: Seq<char>)
    requires
        whitespace(gap),
    ensures
        collapsed(left + seq![gap] + right) == if collapsed(left).len() == 0 {
            collapsed(right)
        } else if collapsed(right).len() == 0 {
            collapsed(left)
        } else {
            collapsed(left) + seq![' '] + collapsed(right)
        },
        is_word(left) ==> collapsed(left) == left,
        collapsed(left).len() == 0 <==> is_blank(left),
{
    law_words_are_separated_by_whitespace(left, gap, right);
    lemma_words_are_words(left);
    lemma_words_are_words(right);
    lemma_join(words(left), words(right));
    lemma_join_is_empty(words(left));
    lemma_join_is_empty(words(right));
    lemma_blank(left);
}

proof fn lemma_blank(text: Seq<char>)
    ensures
        words(text).len() == 0 <==> is_blank(text),
    decreases text.len(),
{
    if is_blank(text) {
        lemma_no_words(text);
    } else {
        let shorter = text.drop_last();
        lemma_blank(shorter);
        lemma_words_are_words(text);
        if whitespace(text.last()) {
            if is_blank(shorter) {
                assert forall|i: int| 0 <= i < text.len() implies whitespace(
                    #[trigger] text[i],
                ) by {
                    if i < shorter.len() {
                        assert(shorter[i] == text[i]);
                    }
                }
            }
        }
    }
}

/// Trimming takes whitespace from both ends and nothing else: what stays neither
/// begins nor ends with whitespace.
pub proof fn law_trimming_takes_the_ends(text: Seq<char>)
    ensures
        exists|before: Seq<char>, behind: Seq<char>|
            is_blank(before) && is_blank(behind) && text == #[trigger] (before + trimmed(text)
                + behind),
        trimmed(text).len() > 0 ==> !whitespace(trimmed(text)[0]) && !whitespace(
            trimmed(text).last(),
        ),
{
    let before = lemma_trim_start(text);
    let rest = trim_start(text);
    let behind = lemma_trim_end(rest);
    assert(text =~= before + trimmed(text) + behind);
    if trimmed(text).len() > 0 {
        assert(rest[0] == trimmed(text)[0]);
    }
}

proof fn lemma_trim_start(text: Seq<char>) -> (before: Seq<char>)
    ensures
        is_blank(before),
        text == before + trim_start(text),
        trim_start(text).len() > 0 ==> !whitespace(trim_start(text)[0]),
    decreases text.len(),
{
    if text.len() > 0 && whitespace(text[0]) {
        let inner = lemma_trim_start(text.skip(1));
        let before = seq![text[0]] + inner;
        assert(text =~= seq![text[0]] + text.skip(1));
        assert(text =~= before + trim_start(text));
        before
    } else {
        assert(text =~= Seq::<char>::empty() + text);
        Seq::empty()
    }
}

proof fn lemma_trim_end(text: Seq<char>) -> (behind: Seq<char>)
    ensures
        is_blank(behind),
        text == trim_end(text) + behind,
        trim_end(text).len() > 0 ==> !whitespace(trim_end(text).last()),
    decreases text.len(),
{
    if text.len() > 0 && whitespace(text.last()) {
        let inner = lemma_trim_end(text.drop_last());
        let behind = inner.push(text.last());
        assert(text =~= text.drop_last().push(text.last()));
        assert(text =~= trim_end(text) + behind);
        behind
    } else {
        assert(text =~= text + Seq::<char>::empty());
        Seq::empty()
    }
}

// ---------------------------------------------------------------------------
// Numbers.
// ---------------------------------------------------------------------------
/// A number is written in tens: a number below ten is one of the digits, and each
/// further digit stands behind what the tens are written as.
pub proof fn law_numbers_are_written_in_tens(tens: nat, ones: nat)
    requires
        ones < 10,
    ensures
        decimal(ones) == seq!["0123456789"@[ones as int]],
        tens > 0 ==> decimal(tens * 10 + ones) == decimal(tens) + decimal(ones),
{
    reveal_strlit("0123456789");
    assert(decimal(ones) =~= seq!["0123456789"@[ones as int]]);
    if tens > 0 {
        let value = tens * 10 + ones;
        assert(value / 10 == tens && value % 10 == ones);
        assert(decimal(value) =~= decimal(tens) + decimal(ones));
    }
}

// ---------------------------------------------------------------------------
// Patterns.
// ---------------------------------------------------------------------------
/// Whether a text holds nothing that has a meaning of its own in a pattern.
pub open spec fn is_plain(text: Seq<char>) -> bool {
    forall|i: int| 0 <= i < text.len() ==> #[trigger] text[i] != '%' && text[i] != '_'
}

/// A pattern that begins with `%` matches what ends in a match of the rest; one that
/// begins with `_` matches any character before a match of the rest; any other
/// character matches itself in either case.
pub proof fn law_patterns_read_from_the_front(pattern: Seq<char>, c: char, text: Seq<char>)
    ensures
        like(seq!['%'] + pattern, text) <==> exists|k: int|
            0 <= k <= text.len() && like(pattern, #[trigger] text.skip(k)),
        like(seq!['_'] + pattern, text) <==> text.len() > 0 && like(pattern, text.skip(1)),
        c != '%' && c != '_' ==> (like(seq![c] + pattern, text) <==> text.len() > 0
            && same_letter(text[0], c) && like(pattern, text.skip(1))),
        like(Seq::empty(), text) <==> text.len() == 0,
{
    lemma_any_run(pattern, text);
    assert((seq!['_'] + pattern).skip(1) =~= pattern);
    assert((seq![c] + pattern).skip(1) =~= pattern);
    if text.len() > 0 {
        lemma_same_letter(text[0], c);
        lemma_same_letter(c, text[0]);
    }
}

proof fn lemma_any_run(pattern: Seq<char>, text: Seq<char>)
    ensures
        like(seq!['%'] + pattern, text) <==> exists|k: int|
            0 <= k <= text.len() && like(pattern, #[trigger] text.skip(k)),
    decreases text.len(),
{
    let whole = seq!['%'] + pattern;
    assert(whole.skip(1) =~= pattern);
    assert(text.skip(0) =~= text);
    if text.len() > 0 {
        let rest = text.skip(1);
        lemma_any_run(pattern, rest);
        if like(whole, rest) {
            let k = choose|k: int| 0 <= k <= rest.len() && like(pattern, #[trigger] rest.skip(k));
            assert(rest.skip(k) =~= text.skip(k + 1));
        }
        if exists|k: int| 0 <= k <= text.len() && like(pattern, #[trigger] text.skip(k)) {
            let k = choose|k: int| 0 <= k <= text.len() && like(pattern, #[trigger] text.skip(k));
            if k > 0 {
                assert(rest.skip(k - 1) =~= text.skip(k));
                assert(0 <= k - 1 <= rest.len() && like(pattern, rest.skip(k - 1)));
            }
        }
    }
}

proof fn lemma_anything(text: Seq<char>)
    ensures
        like(seq!['%'], text),
    decreases text.len(),
{
    let any: Seq<char> = seq!['%'];
    assert(any.skip(1) =~= Seq::<char>::empty());
    assert(like(Seq::empty(), Seq::empty()));
    if text.len() > 0 {
        lemma_anything(text.skip(1));
    } else {
        assert(text =~= Seq::empty());
    }
}

proof fn lemma_plain_then_anything(part: Seq<char>, text: Seq<char>)
    requires
        is_plain(part),
    ensures
        like(part + seq!['%'], text) <==> reads_at(text, part, 0),
    decreases part.len(),
{
    let pattern = part + seq!['%'];
    if part.len() == 0 {
        assert(pattern =~= seq!['%']);
        lemma_anything(text);
    } else {
        let rest = part.skip(1);
        assert(part[0] != '%' && part[0] != '_');
        assert forall|i: int| 0 <= i < rest.len() implies #[trigger] rest[i] != '%' && rest[i]
            != '_' by {
            assert(rest[i] == part[i + 1]);
        }
        assert(pattern.skip(1) =~= rest + seq!['%']);
        assert(pattern[0] == part[0]);
        if text.len() > 0 {
            lemma_plain_then_anything(rest, text.skip(1));
            lemma_same_letter(text[0], part[0]);
            let tail = text.skip(1);
            if reads_at(tail, rest, 0) && same_letter(text[0], part[0]) {
                assert forall|i: int| 0 <= i < part.len() implies same_letter(
                    #[trigger] text[0 + i],
                    part[i],
                ) by {
                    if i > 0 {
                        assert(same_letter(tail[0 + (i - 1)], rest[i - 1]));
                    }
                }
                assert(reads_at(text, part, 0));
            }
            if reads_at(text, part, 0) {
                assert(same_letter(text[0int + 0], part[0]));
                assert forall|i: int| 0 <= i < rest.len() implies same_letter(
                    #[trigger] tail[0 + i],
                    rest[i],
                ) by {
                    assert(same_letter(text[0 + (i + 1)], part[i + 1]));
                }
                assert(reads_at(tail, rest, 0));
            }
        }
    }
}

/// A plain text between two `%` matches exactly the texts that it reads in.
pub proof fn law_pattern_finds_a_part(part: Seq<char>, text: Seq<char>)
    requires
        is_plain(part),
    ensures
        like(seq!['%'] + part + seq!['%'], text) <==> reads_in(text, part),
{
    let rest = part + seq!['%'];
    assert(seq!['%'] + part + seq!['%'] =~= seq!['%'] + rest);
    lemma_any_run(rest, text);
    if like(seq!['%'] + rest, text) {
        let k = choose|k: int| 0 <= k <= text.len() && like(rest, #[trigger] text.skip(k));
        lemma_plain_then_anything(part, text.skip(k));
        assert forall|i: int| 0 <= i < part.len() implies same_letter(
            #[trigger] text[k + i],
            part[i],
        ) by {
            assert(same_letter(text.skip(k)[0 + i], part[i]));
        }
        assert(reads_at(text, part, k));
    }
    if reads_in(text, part) {
        let k = choose|k: int| reads_at(text, part, k);
        let tail = text.skip(k);
        assert forall|i: int| 0 <= i < part.len() implies same_letter(
            #[trigger] tail[0 + i],
            part[i],
        ) by {
            assert(same_letter(text[k + i], part[i]));
        }
        assert(reads_at(tail, part, 0));
        lemma_plain_then_anything(part, tail);
        assert(0 <= k <= text.len() && like(rest, text.skip(k)));
    }
}

} // verus!
