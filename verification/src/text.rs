//! Text as sequences of characters: words, trimming, ASCII case, ordering and
//! pattern matching, each with an executable counterpart.

use vstd::prelude::*;

verus! {

// ---------------------------------------------------------------------------
// Unicode facts that the standard library decides.
// ---------------------------------------------------------------------------
/// Whether `char::is_alphabetic` accepts a character.
pub uninterp spec fn alphabetic(c: char) -> bool;

/// Whether `char::is_alphanumeric` accepts a character.
pub uninterp spec fn alphanumeric(c: char) -> bool;

/// Whether `char::is_whitespace` accepts a character.
pub uninterp spec fn unicode_whitespace(c: char) -> bool;

/// Whether `char::is_uppercase` accepts a character.
pub uninterp spec fn uppercase(c: char) -> bool;

/// The lowercase equivalent that `str::to_lowercase` gives for a text.
pub uninterp spec fn lowercase_of(text: Seq<char>) -> Seq<char>;

/// `char::is_alphabetic` is a function of the character alone.
pub assume_specification[ char::is_alphabetic ](c: char) -> (result: bool)
    ensures
        result == alphabetic(c),
;

/// `char::is_alphanumeric` is a function of the character alone.
pub assume_specification[ char::is_alphanumeric ](c: char) -> (result: bool)
    ensures
        result == alphanumeric(c),
;

/// `char::is_whitespace` is a function of the character alone, and accepts the
/// space character.
pub assume_specification[ char::is_whitespace ](c: char) -> (result: bool)
    ensures
        result == unicode_whitespace(c),
        c == ' ' ==> result,
;

/// `char::is_uppercase` is a function of the character alone.
pub assume_specification[ char::is_uppercase ](c: char) -> (result: bool)
    ensures
        result == uppercase(c),
;

/// `str::to_lowercase` is a function of the text alone.
pub assume_specification[ str::to_lowercase ](text: &str) -> (result: String)
    ensures
        result@ == lowercase_of(text@),
;

/// `String::push` appends one character.
pub assume_specification[ String::push ](text: &mut String, c: char)
    ensures
        final(text)@ == old(text)@.push(c),
;

/// `==` on `str` holds exactly when both sides hold the same characters.
#[verifier::external_body]
pub(crate) fn same_text(left: &str, right: &str) -> (result: bool)
    ensures
        result == (left@ == right@),
{
    left == right
}

/// Whether a character is whitespace: the space character is, whatever else is.
pub open spec fn whitespace(c: char) -> bool {
    c == ' ' || unicode_whitespace(c)
}

// ---------------------------------------------------------------------------
// Views of what holds texts.
// ---------------------------------------------------------------------------
/// The view of an optional value.
pub open spec fn opt_view<T: View>(value: Option<T>) -> Option<T::V> {
    match value {
        Some(value) => Some(value@),
        None => None,
    }
}

/// The view of each value in a sequence.
pub open spec fn views<T: View>(values: Seq<T>) -> Seq<T::V> {
    values.map_values(|value: T| value@)
}

/// Compares two optional texts; two missing texts are the same.
pub fn same_optional_text(left: &Option<String>, right: &Option<String>) -> (result: bool)
    ensures
        result == (opt_view(*left) == opt_view(*right)),
{
    match (left, right) {
        (Some(left), Some(right)) => same_text(left.as_str(), right.as_str()),
        (None, None) => true,
        _ => false,
    }
}

// ---------------------------------------------------------------------------
// Between texts and characters.
// ---------------------------------------------------------------------------
/// The characters of a text.
pub fn chars_of(text: &str) -> (result: Vec<char>)
    ensures
        result@ == text@,
{
    let mut result: Vec<char> = Vec::new();
    for c in it: text.chars()
        invariant
            result@ == it.seq().take(it.index()),
            it.seq() == text@,
    {
        result.push(c);
    }
    result
}

/// The text that holds the given characters.
pub fn text_of(chars: &Vec<char>) -> (result: String)
    ensures
        result@ == chars@,
{
    let mut result: String = String::new();
    let mut i: usize = 0;
    while i < chars.len()
        invariant
            i <= chars.len(),
            result@ == chars@.take(i as int),
        decreases chars.len() - i,
    {
        result.push(chars[i]);
        i = i + 1;
    }
    result
}

/// A copy of the characters from `from` up to `to`.
pub fn char_range(chars: &Vec<char>, from: usize, to: usize) -> (result: Vec<char>)
    requires
        from <= to <= chars.len(),
    ensures
        result@ == chars@.subrange(from as int, to as int),
{
    let mut result: Vec<char> = Vec::new();
    let mut i: usize = from;
    while i < to
        invariant
            from <= i <= to <= chars.len(),
            result@ == chars@.subrange(from as int, i as int),
        decreases to - i,
    {
        result.push(chars[i]);
        i = i + 1;
    }
    result
}

/// Two texts written one after the other.
pub fn concat(left: &str, right: &str) -> (result: String)
    ensures
        result@ == left@ + right@,
{
    let mut result: String = left.to_string();
    result.append(right);
    result
}

// ---------------------------------------------------------------------------
// Words.
// ---------------------------------------------------------------------------
/// The maximal runs of characters that are not whitespace, in order.
pub open spec fn words(text: Seq<char>) -> Seq<Seq<char>>
    decreases text.len(),
{
    if text.len() == 0 {
        Seq::empty()
    } else {
        let before = words(text.drop_last());
        let c = text.last();
        if whitespace(c) {
            before
        } else if text.len() >= 2 && !whitespace(text[text.len() - 2]) {
            before.drop_last().push(before.last().push(c))
        } else {
            before.push(seq![c])
        }
    }
}

/// The words with one space between neighbours.
pub open spec fn join_words(parts: Seq<Seq<char>>) -> Seq<char>
    decreases parts.len(),
{
    if parts.len() == 0 {
        Seq::empty()
    } else if parts.len() == 1 {
        parts[0]
    } else {
        join_words(parts.drop_last()) + seq![' '] + parts.last()
    }
}

/// The text with every run of whitespace replaced by one space, and none at
/// either end.
pub open spec fn collapsed(text: Seq<char>) -> Seq<char> {
    join_words(words(text))
}

/// Whether a sequence of characters can stand as a single word.
pub open spec fn is_word(part: Seq<char>) -> bool {
    &&& part.len() > 0
    &&& forall|i: int| 0 <= i < part.len() ==> !whitespace(#[trigger] part[i])
}

/// Every word of a text holds at least one character, and none that is
/// whitespace; a text that does not end in whitespace ends in its last word.
pub proof fn lemma_words_are_words(text: Seq<char>)
    ensures
        forall|i: int| 0 <= i < words(text).len() ==> is_word(#[trigger] words(text)[i]),
        text.len() > 0 && !whitespace(text.last()) ==> words(text).len() > 0,
    decreases text.len(),
{
    if text.len() > 0 {
        lemma_words_are_words(text.drop_last());
        let before = words(text.drop_last());
        let c = text.last();
        if !whitespace(c) {
            if text.len() >= 2 && !whitespace(text[text.len() - 2]) {
                assert(text.drop_last().last() == text[text.len() - 2]);
                assert(is_word(before[before.len() - 1]));
                assert(is_word(before.last().push(c))) by {
                    let extended = before.last().push(c);
                    assert forall|i: int| 0 <= i < extended.len() implies !whitespace(
                        #[trigger] extended[i],
                    ) by {
                        if i < before.last().len() {
                            assert(extended[i] == before.last()[i]);
                        }
                    }
                }
            } else {
                assert(is_word(seq![c]));
            }
        }
    }
}

/// Splits a text at its whitespace.
pub fn split_words(text: &Vec<char>) -> (result: Vec<Vec<char>>)
    ensures
        views(result@) == words(text@),
{
    let mut result: Vec<Vec<char>> = Vec::new();
    let mut inside: bool = false;
    let mut i: usize = 0;
    while i < text.len()
        invariant
            i <= text.len(),
            views(result@) == words(text@.take(i as int)),
            inside == (i > 0 && !whitespace(text@[i - 1])),
            inside ==> result.len() > 0,
        decreases text.len() - i,
    {
        let c = text[i];
        let ghost seen = text@.take(i as int);
        let ghost next = text@.take(i + 1);
        assert(next.drop_last() =~= seen);
        assert(next.last() == c);
        if c.is_whitespace() {
            inside = false;
        } else if inside {
            let ghost parts = result@;
            assert(next[next.len() - 2] == text@[i - 1]);
            assert(views(parts)[parts.len() - 1] == parts[parts.len() - 1]@);
            let last = result.pop();
            if let Some(mut last) = last {
                last.push(c);
                result.push(last);
            }
            assert(views(result@) =~= words(next));
        } else {
            proof {
                if i > 0 {
                    assert(next[next.len() - 2] == text@[i - 1]);
                }
            }
            let mut part: Vec<char> = Vec::new();
            part.push(c);
            result.push(part);
            assert(part@ =~= seq![c]);
            assert(views(result@) =~= words(next));
            inside = true;
        }
        i = i + 1;
    }
    assert(text@.take(text.len() as int) =~= text@);
    result
}

/// Writes words one after the other, with one space between neighbours.
pub fn join(parts: &Vec<Vec<char>>) -> (result: Vec<char>)
    ensures
        result@ == join_words(views(parts@)),
{
    let mut result: Vec<char> = Vec::new();
    let mut i: usize = 0;
    while i < parts.len()
        invariant
            i <= parts.len(),
            result@ == join_words(views(parts@).take(i as int)),
        decreases parts.len() - i,
    {
        let ghost views = views(parts@);
        let ghost next = views.take(i + 1);
        assert(next.drop_last() =~= views.take(i as int));
        assert(next.last() == parts@[i as int]@);
        if i > 0 {
            result.push(' ');
        }
        let mut j: usize = 0;
        let ghost start = result@;
        while j < parts[i].len()
            invariant
                i < parts.len(),
                j <= parts[i as int].len(),
                result@ == start + parts[i as int]@.take(j as int),
            decreases parts[i as int].len() - j,
        {
            result.push(parts[i][j]);
            j = j + 1;
        }
        assert(parts[i as int]@.take(j as int) =~= parts[i as int]@);
        proof {
            if i == 0 {
                assert(start =~= Seq::<char>::empty());
                assert(result@ =~= next[0]);
            } else {
                assert(result@ =~= join_words(next));
            }
        }
        i = i + 1;
    }
    assert(views(parts@).take(parts.len() as int) =~= views(parts@));
    result
}

/// Replaces every run of whitespace by one space, and drops it at both ends.
pub fn collapse_whitespace(text: &Vec<char>) -> (result: Vec<char>)
    ensures
        result@ == collapsed(text@),
{
    let parts = split_words(text);
    join(&parts)
}

// ---------------------------------------------------------------------------
// Trimming, prefixes and substrings.
// ---------------------------------------------------------------------------
/// The text without the whitespace it begins with.
pub open spec fn trim_start(text: Seq<char>) -> Seq<char>
    decreases text.len(),
{
    if text.len() > 0 && whitespace(text[0]) {
        trim_start(text.skip(1))
    } else {
        text
    }
}

/// The text without the whitespace it ends with.
pub open spec fn trim_end(text: Seq<char>) -> Seq<char>
    decreases text.len(),
{
    if text.len() > 0 && whitespace(text.last()) {
        trim_end(text.drop_last())
    } else {
        text
    }
}

/// The text without whitespace at either end.
pub open spec fn trimmed(text: Seq<char>) -> Seq<char> {
    trim_end(trim_start(text))
}

/// The text without the characters equal to `c` that it ends with.
pub open spec fn trim_end_char(text: Seq<char>, c: char) -> Seq<char>
    decreases text.len(),
{
    if text.len() > 0 && text.last() == c {
        trim_end_char(text.drop_last(), c)
    } else {
        text
    }
}

/// Drops the whitespace at both ends.
pub fn trim(text: &Vec<char>) -> (result: Vec<char>)
    ensures
        result@ == trimmed(text@),
        result@.len() <= text@.len(),
{
    let mut from: usize = 0;
    assert(text@.skip(0) =~= text@);
    while from < text.len() && text[from].is_whitespace()
        invariant
            from <= text.len(),
            trim_start(text@) == trim_start(text@.skip(from as int)),
        decreases text.len() - from,
    {
        assert(text@.skip(from as int).skip(1) =~= text@.skip(from + 1));
        from = from + 1;
    }
    let ghost rest = text@.skip(from as int);
    assert(trim_start(text@) == rest);
    let mut to: usize = text.len();
    assert(text@.subrange(from as int, to as int) =~= rest);
    while from < to && text[to - 1].is_whitespace()
        invariant
            from <= to <= text.len(),
            rest == text@.skip(from as int),
            trim_end(rest) == trim_end(text@.subrange(from as int, to as int)),
        decreases to - from,
    {
        assert(text@.subrange(from as int, to as int).drop_last() =~= text@.subrange(
            from as int,
            to - 1,
        ));
        to = to - 1;
    }
    char_range(text, from, to)
}

/// Drops the characters equal to `c` that the text ends with.
pub fn trim_end_matches(text: &Vec<char>, c: char) -> (result: Vec<char>)
    ensures
        result@ == trim_end_char(text@, c),
{
    let mut to: usize = text.len();
    assert(text@.take(to as int) =~= text@);
    while to > 0 && text[to - 1] == c
        invariant
            to <= text.len(),
            trim_end_char(text@, c) == trim_end_char(text@.take(to as int), c),
        decreases to,
    {
        assert(text@.take(to as int).drop_last() =~= text@.take(to - 1));
        to = to - 1;
    }
    assert(text@.subrange(0, to as int) =~= text@.take(to as int));
    char_range(text, 0, to)
}

/// Whether `part` stands in `text` at position `at`.
pub open spec fn stands_at(text: Seq<char>, part: Seq<char>, at: int) -> bool {
    &&& 0 <= at
    &&& at + part.len() <= text.len()
    &&& text.subrange(at, at + part.len()) == part
}

/// Whether `text` begins with `prefix`.
pub open spec fn has_prefix(text: Seq<char>, prefix: Seq<char>) -> bool {
    stands_at(text, prefix, 0)
}

/// Whether `part` stands anywhere in `text`.
pub open spec fn has_part(text: Seq<char>, part: Seq<char>) -> bool {
    exists|at: int| stands_at(text, part, at)
}

fn part_stands_at(text: &Vec<char>, part: &Vec<char>, at: usize) -> (result: bool)
    requires
        at <= text.len(),
    ensures
        result == stands_at(text@, part@, at as int),
{
    if part.len() > text.len() - at {
        return false;
    }
    let mut i: usize = 0;
    while i < part.len()
        invariant
            i <= part.len(),
            at + part.len() <= text.len(),
            forall|j: int| 0 <= j < i ==> text@[at + j] == part@[j],
        decreases part.len() - i,
    {
        if text[at + i] != part[i] {
            assert(text@.subrange(at as int, at + part@.len())[i as int] != part@[i as int]);
            return false;
        }
        i = i + 1;
    }
    assert(text@.subrange(at as int, at + part@.len()) =~= part@);
    true
}

/// Tests whether a text begins with a prefix.
pub fn starts_with(text: &Vec<char>, prefix: &str) -> (result: bool)
    ensures
        result == has_prefix(text@, prefix@),
{
    let prefix = chars_of(prefix);
    part_stands_at(text, &prefix, 0)
}

/// Tests whether a text holds a part.
pub fn contains_part(text: &Vec<char>, part: &Vec<char>) -> (result: bool)
    ensures
        result == has_part(text@, part@),
{
    let mut at: usize = 0;
    while at < text.len()
        invariant
            at <= text.len(),
            forall|i: int| 0 <= i < at ==> !stands_at(text@, part@, i),
        decreases text.len() - at,
    {
        if part_stands_at(text, part, at) {
            return true;
        }
        at = at + 1;
    }
    let at_end = part_stands_at(text, part, at);
    assert(at_end == has_part(text@, part@));
    at_end
}

// ---------------------------------------------------------------------------
// ASCII case.
// ---------------------------------------------------------------------------
/// The character with `A` to `Z` replaced by `a` to `z`.
pub open spec fn ascii_lower_char(c: char) -> char {
    if 'A' <= c && c <= 'Z' {
        ((c as u8) + 32) as char
    } else {
        c
    }
}

/// The text with `A` to `Z` replaced by `a` to `z`.
pub open spec fn ascii_lower(text: Seq<char>) -> Seq<char> {
    text.map_values(|c: char| ascii_lower_char(c))
}

pub fn lower_char(c: char) -> (result: char)
    ensures
        result == ascii_lower_char(c),
{
    if 'A' <= c && c <= 'Z' {
        ((c as u8) + 32) as char
    } else {
        c
    }
}

/// Replaces `A` to `Z` by `a` to `z`.
pub fn to_ascii_lower(text: &Vec<char>) -> (result: Vec<char>)
    ensures
        result@ == ascii_lower(text@),
{
    let mut result: Vec<char> = Vec::new();
    let mut i: usize = 0;
    while i < text.len()
        invariant
            i <= text.len(),
            result@ == ascii_lower(text@.take(i as int)),
        decreases text.len() - i,
    {
        result.push(lower_char(text[i]));
        assert(ascii_lower(text@.take(i + 1)) =~= ascii_lower(text@.take(i as int)).push(
            ascii_lower_char(text@[i as int]),
        ));
        i = i + 1;
    }
    assert(text@.take(text.len() as int) =~= text@);
    result
}

// ---------------------------------------------------------------------------
// Order.
// ---------------------------------------------------------------------------
/// Lexicographic order by character.
pub open spec fn text_less(left: Seq<char>, right: Seq<char>) -> bool
    decreases left.len(),
{
    if right.len() == 0 {
        false
    } else if left.len() == 0 {
        true
    } else if left[0] != right[0] {
        left[0] < right[0]
    } else {
        text_less(left.skip(1), right.skip(1))
    }
}

/// Tests whether one text comes before another.
pub fn less(left: &str, right: &str) -> (result: bool)
    ensures
        result == text_less(left@, right@),
{
    let a = chars_of(left);
    let b = chars_of(right);
    let mut i: usize = 0;
    assert(a@.skip(0) =~= a@);
    assert(b@.skip(0) =~= b@);
    while i < a.len() && i < b.len()
        invariant
            i <= a.len(),
            i <= b.len(),
            text_less(left@, right@) == text_less(a@.skip(i as int), b@.skip(i as int)),
        decreases a.len() - i,
    {
        assert(a@.skip(i as int)[0] == a@[i as int]);
        assert(b@.skip(i as int)[0] == b@[i as int]);
        if a[i] != b[i] {
            return a[i] < b[i];
        }
        assert(a@.skip(i as int).skip(1) =~= a@.skip(i + 1));
        assert(b@.skip(i as int).skip(1) =~= b@.skip(i + 1));
        i = i + 1;
    }
    i < b.len()
}

proof fn lemma_text_less_irreflexive(text: Seq<char>)
    ensures
        !text_less(text, text),
    decreases text.len(),
{
    if text.len() > 0 {
        lemma_text_less_irreflexive(text.skip(1));
    }
}

/// The order on texts is irreflexive, transitive and total: of two texts that
/// differ exactly one comes before the other.
pub proof fn law_text_order(a: Seq<char>, b: Seq<char>, c: Seq<char>)
    ensures
        !text_less(a, a),
        text_less(a, b) && text_less(b, c) ==> text_less(a, c),
        a != b ==> (text_less(a, b) != text_less(b, a)),
    decreases a.len() + b.len() + c.len(),
{
    lemma_text_less_irreflexive(a);
    if a.len() > 0 && b.len() > 0 {
        let cs = if c.len() > 0 { c.skip(1) } else { c };
        law_text_order(a.skip(1), b.skip(1), cs);
        if a[0] == b[0] && a.skip(1) == b.skip(1) {
            assert(a =~= seq![a[0]] + a.skip(1));
            assert(b =~= seq![b[0]] + b.skip(1));
        }
    } else if a.len() == 0 && b.len() == 0 {
        assert(a =~= b);
    }
}

// ---------------------------------------------------------------------------
// Decimal numbers.
// ---------------------------------------------------------------------------
/// The decimal digit with the given value.
pub open spec fn digit_char(value: nat) -> char {
    (('0' as nat) + value) as char
}

/// The decimal digits of a number, without leading zeros.
pub open spec fn decimal(value: nat) -> Seq<char>
    decreases value,
{
    if value < 10 {
        seq![digit_char(value)]
    } else {
        decimal(value / 10).push(digit_char(value % 10))
    }
}

fn digit_of(value: u64) -> (result: char)
    requires
        value < 10,
    ensures
        result == digit_char(value as nat),
{
    ((value as u8) + 48) as char
}

/// Writes a number in decimal.
pub fn decimal_text(value: u64) -> (result: String)
    ensures
        result@ == decimal(value as nat),
    decreases value,
{
    if value < 10 {
        let mut result: String = String::new();
        result.push(digit_of(value));
        assert(result@ =~= seq![digit_char(value as nat)]);
        result
    } else {
        let mut result: String = decimal_text(value / 10);
        result.push(digit_of(value % 10));
        result
    }
}

/// Whether a character is a decimal digit.
pub open spec fn is_digit(c: char) -> bool {
    '0' <= c && c <= '9'
}

/// The number that a run of decimal digits stands for.
pub open spec fn decimal_value(digits: Seq<char>) -> nat
    decreases digits.len(),
{
    if digits.len() == 0 {
        0
    } else {
        decimal_value(digits.drop_last()) * 10 + (digits.last() as nat - '0' as nat) as nat
    }
}

/// Whether a text holds at least one decimal digit and nothing else.
pub open spec fn is_digits(text: Seq<char>) -> bool {
    text.len() > 0 && forall|i: int| 0 <= i < text.len() ==> is_digit(#[trigger] text[i])
}

/// The unsigned number that a text stands for: digits behind an optional `+`.
pub open spec fn unsigned_value(text: Seq<char>) -> Option<nat> {
    let digits = if text.len() > 0 && text[0] == '+' {
        text.skip(1)
    } else {
        text
    };
    if is_digits(digits) {
        Some(decimal_value(digits))
    } else {
        None
    }
}

proof fn lemma_decimal_digits(value: nat)
    ensures
        is_digits(decimal(value)),
        decimal_value(decimal(value)) == value,
    decreases value,
{
    let digits = decimal(value);
    let last = digit_char(value % 10);
    assert(last as nat == '0' as nat + value % 10);
    if value < 10 {
        assert(digits.drop_last() =~= Seq::<char>::empty());
        assert(decimal_value(digits.drop_last()) == 0);
        assert forall|i: int| 0 <= i < digits.len() implies is_digit(#[trigger] digits[i]) by {
            assert(digits[i] == last);
        }
    } else {
        let front = decimal(value / 10);
        lemma_decimal_digits(value / 10);
        assert(digits.drop_last() =~= front);
        assert(digits.last() == last);
        assert forall|i: int| 0 <= i < digits.len() implies is_digit(#[trigger] digits[i]) by {
            if i < front.len() {
                assert(digits[i] == front[i]);
            } else {
                assert(digits[i] == last);
            }
        }
    }
}

/// A number reads back from its decimal form.
pub proof fn law_decimal_reads_back(value: nat)
    ensures
        unsigned_value(decimal(value)) == Some(value),
{
    lemma_decimal_digits(value);
    assert(is_digit(decimal(value)[0]));
}

proof fn lemma_decimal_value_grows(digits: Seq<char>, shorter: int)
    requires
        0 <= shorter <= digits.len(),
        forall|i: int| 0 <= i < digits.len() ==> is_digit(#[trigger] digits[i]),
    ensures
        decimal_value(digits.take(shorter)) <= decimal_value(digits),
    decreases digits.len(),
{
    if shorter == digits.len() {
        assert(digits.take(shorter) =~= digits);
    } else {
        let front = digits.drop_last();
        assert(front.take(shorter) =~= digits.take(shorter));
        assert forall|i: int| 0 <= i < front.len() implies is_digit(#[trigger] front[i]) by {
            assert(front[i] == digits[i]);
        }
        lemma_decimal_value_grows(front, shorter);
    }
}

/// Reads an unsigned number: digits behind an optional `+`, within `limit`.
pub fn parse_unsigned(text: &str, limit: u64) -> (result: Option<u64>)
    ensures
        match (result, unsigned_value(text@)) {
            (Some(number), Some(value)) => number == value && value <= limit,
            (None, Some(value)) => value > limit,
            (None, None) => true,
            (Some(_), None) => false,
        },
{
    let chars = chars_of(text);
    let from: usize = if chars.len() > 0 && chars[0] == '+' {
        1
    } else {
        0
    };
    let ghost digits = chars@.skip(from as int);
    proof {
        if from == 0 {
            assert(digits =~= text@);
        }
    }
    if chars.len() == from {
        return None;
    }
    let mut i: usize = from;
    while i < chars.len()
        invariant
            from <= i <= chars.len(),
            digits == chars@.skip(from as int),
            forall|j: int| 0 <= j < i - from ==> is_digit(#[trigger] digits[j]),
            unsigned_value(text@) == if is_digits(digits) {
                Some(decimal_value(digits))
            } else {
                None
            },
        decreases chars.len() - i,
    {
        if chars[i] < '0' || chars[i] > '9' {
            assert(!is_digit(digits[i - from]));
            return None;
        }
        i = i + 1;
    }
    let mut value: u64 = 0;
    i = from;
    assert(digits.take(0) =~= Seq::<char>::empty());
    while i < chars.len()
        invariant
            from <= i <= chars.len(),
            digits == chars@.skip(from as int),
            forall|j: int| 0 <= j < digits.len() ==> is_digit(#[trigger] digits[j]),
            value == decimal_value(digits.take(i - from)),
            value <= limit,
            unsigned_value(text@) == Some(decimal_value(digits)),
        decreases chars.len() - i,
    {
        let ghost seen = digits.take(i - from);
        let ghost next = digits.take(i + 1 - from);
        assert(next.drop_last() =~= seen);
        assert(next.last() == chars@[i as int]);
        assert(is_digit(digits[i - from]));
        let digit: u64 = chars[i] as u64 - 48;
        proof {
            lemma_decimal_value_grows(digits, i + 1 - from);
        }
        let scaled = value.checked_mul(10);
        match scaled {
            None => {
                return None;
            },
            Some(scaled) => match scaled.checked_add(digit) {
                None => {
                    return None;
                },
                Some(sum) => {
                    if sum > limit {
                        return None;
                    }
                    value = sum;
                },
            },
        }
        i = i + 1;
    }
    assert(digits.take(digits.len() as int) =~= digits);
    Some(value)
}

// ---------------------------------------------------------------------------
// SQL patterns.
// ---------------------------------------------------------------------------
/// SQL `LIKE`: `%` stands for any run of characters and `_` for any one; the
/// case of ASCII letters does not matter.
pub open spec fn like(pattern: Seq<char>, text: Seq<char>) -> bool
    decreases pattern.len() + text.len(),
{
    if pattern.len() == 0 {
        text.len() == 0
    } else if pattern[0] == '%' {
        like(pattern.skip(1), text) || (text.len() > 0 && like(pattern, text.skip(1)))
    } else {
        &&& text.len() > 0
        &&& pattern[0] == '_' || ascii_lower_char(pattern[0]) == ascii_lower_char(text[0])
        &&& like(pattern.skip(1), text.skip(1))
    }
}

/// Tests whether a text matches a SQL `LIKE` pattern.
pub fn matches_like(pattern: &Vec<char>, text: &Vec<char>) -> (result: bool)
    ensures
        result == like(pattern@, text@),
{
    let n: usize = text.len();
    let mut row: Vec<bool> = Vec::new();
    let mut j: usize = 0;
    while j < n
        invariant
            j <= n,
            row.len() == j,
            forall|k: int| 0 <= k < j ==> row@[k] == false,
        decreases n - j,
    {
        row.push(false);
        j = j + 1;
    }
    row.push(true);
    let mut i: usize = pattern.len();
    assert forall|k: int| 0 <= k <= n implies #[trigger] row@[k] == like(
        pattern@.skip(i as int),
        text@.skip(k),
    ) by {}
    while i > 0
        invariant
            n == text.len(),
            i <= pattern.len(),
            row.len() == n + 1,
            forall|k: int|
                0 <= k <= n ==> #[trigger] row@[k] == like(pattern@.skip(i as int), text@.skip(k)),
        decreases i,
    {
        let ghost below = row@;
        let c = pattern[i - 1];
        let ghost rest = pattern@.skip(i as int);
        let ghost here = pattern@.skip(i - 1);
        assert(here[0] == c);
        assert(here.skip(1) =~= rest);
        if c == '%' {
            let mut k: usize = n;
            assert(text@.skip(n as int).len() == 0);
            assert(row@[n as int] == like(here, text@.skip(n as int)));
            while k > 0
                invariant
                    n == text.len(),
                    k <= n,
                    row.len() == n + 1,
                    here.len() > 0,
                    here[0] == '%',
                    here.skip(1) == rest,
                    forall|m: int| 0 <= m < k ==> #[trigger] row@[m] == like(rest, text@.skip(m)),
                    forall|m: int| k <= m <= n ==> #[trigger] row@[m] == like(here, text@.skip(m)),
                decreases k,
            {
                let value = row[k - 1] || row[k];
                assert(text@.skip(k - 1).skip(1) =~= text@.skip(k as int));
                row.set(k - 1, value);
                k = k - 1;
            }
        } else {
            let mut k: usize = 0;
            while k < n
                invariant
                    n == text.len(),
                    k <= n,
                    row.len() == n + 1,
                    here.len() > 0,
                    here[0] == c,
                    c != '%',
                    here.skip(1) == rest,
                    forall|m: int| k <= m <= n ==> #[trigger] row@[m] == like(rest, text@.skip(m)),
                    forall|m: int| 0 <= m < k ==> #[trigger] row@[m] == like(here, text@.skip(m)),
                decreases n - k,
            {
                let value = (c == '_' || lower_char(c) == lower_char(text[k])) && row[k + 1];
                assert(text@.skip(k as int)[0] == text@[k as int]);
                assert(text@.skip(k as int).skip(1) =~= text@.skip(k + 1));
                row.set(k, value);
                k = k + 1;
            }
            assert(text@.skip(n as int).len() == 0);
            row.set(n, false);
        }
        i = i - 1;
    }
    assert(pattern@.skip(0) =~= pattern@);
    assert(text@.skip(0) =~= text@);
    row[0]
}

} // verus!
