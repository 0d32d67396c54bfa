//! Text primitives: comparison, trimming, searching, joining and decimal
//! numbers, stated over sequences of characters.

use vstd::prelude::*;
use vstd::utf8::encode_utf8;

verus! {

broadcast use vstd::string::group_string_axioms;

/// Whether two strings hold the same characters.
pub fn str_eq(a: &str, b: &str) -> (same: bool)
    ensures
        same == (a@ == b@),
{
    let left = a.as_bytes();
    let right = b.as_bytes();
    proof {
        vstd::utf8::encode_utf8_decode_utf8(a@);
        vstd::utf8::encode_utf8_decode_utf8(b@);
    }
    if left.len() != right.len() {
        return false;
    }
    let mut i: usize = 0;
    while i < left.len()
        invariant
            i <= left@.len(),
            left@.len() == right@.len(),
            left@ == encode_utf8(a@),
            right@ == encode_utf8(b@),
            forall|j: int| 0 <= j < i ==> left@[j] == right@[j],
        decreases left@.len() - i,
    {
        if left[i] != right[i] {
            return false;
        }
        i = i + 1;
    }
    assert(left@ =~= right@);
    true
}

/// Whether an optional string holds exactly `expected`.
pub fn opt_str_is(value: Option<&str>, expected: &str) -> (same: bool)
    ensures
        same == (value.deep_view() == Some(expected@)),
{
    match value {
        Some(text) => str_eq(text, expected),
        None => false,
    }
}

/// The characters of `text`, one by one.
pub fn chars_of(text: &str) -> (chars: Vec<char>)
    ensures
        chars@ == text@,
{
    let mut chars: Vec<char> = Vec::new();
    for c in iter: text.chars()
        invariant
            iter.seq() == text@,
            chars@ == text@.take(iter.index() as int),
    {
        assert(text@.take(iter.index() as int + 1) =~= text@.take(iter.index() as int).push(c));
        chars.push(c);
    }
    assert(text@.take(text@.len() as int) =~= text@);
    chars
}

/// Whether `c` is one of the code points with the Unicode `White_Space`
/// property.
pub open spec fn white_space(c: char) -> bool {
    ||| '\u{9}' <= c <= '\u{d}'
    ||| c == '\u{20}'
    ||| c == '\u{85}'
    ||| c == '\u{a0}'
    ||| c == '\u{1680}'
    ||| '\u{2000}' <= c <= '\u{200a}'
    ||| c == '\u{2028}'
    ||| c == '\u{2029}'
    ||| c == '\u{202f}'
    ||| c == '\u{205f}'
    ||| c == '\u{3000}'
}

/// Whether `c` has the Unicode `White_Space` property.
pub fn is_white_space(c: char) -> (white: bool)
    ensures
        white == white_space(c),
{
    ('\u{9}' <= c && c <= '\u{d}') || c == '\u{20}' || c == '\u{85}' || c == '\u{a0}' || c
        == '\u{1680}' || ('\u{2000}' <= c && c <= '\u{200a}') || c == '\u{2028}' || c == '\u{2029}'
        || c == '\u{202f}' || c == '\u{205f}' || c == '\u{3000}'
}

/// `text` without its leading white space.
pub open spec fn trimmed_start(text: Seq<char>) -> Seq<char>
    decreases text.len(),
{
    if text.len() > 0 && white_space(text[0]) {
        trimmed_start(text.subrange(1, text.len() as int))
    } else {
        text
    }
}

/// `text` without its trailing white space.
pub open spec fn trimmed_end(text: Seq<char>) -> Seq<char>
    decreases text.len(),
{
    if text.len() > 0 && white_space(text[text.len() - 1]) {
        trimmed_end(text.subrange(0, text.len() - 1))
    } else {
        text
    }
}

/// `text` without leading and trailing white space.
pub open spec fn trimmed(text: Seq<char>) -> Seq<char> {
    trimmed_end(trimmed_start(text))
}

/// Whether `text` holds nothing but white space.
pub open spec fn blank(text: Seq<char>) -> bool {
    trimmed(text).len() == 0
}

/// The part of `text` that begins at its first character that is not white
/// space, with the position of that character.
pub fn trim_start(text: &str) -> (kept: (usize, &str))
    ensures
        kept.1@ == trimmed_start(text@),
        kept.0 <= text@.len(),
        kept.1@ == text@.subrange(kept.0 as int, text@.len() as int),
        forall|j: int| 0 <= j < kept.0 ==> white_space(#[trigger] text@[j]),
{
    let chars = chars_of(text);
    let mut from: usize = 0;
    assert(text@.subrange(0, text@.len() as int) =~= text@);
    while from < chars.len() && is_white_space(chars[from])
        invariant
            chars@ == text@,
            from <= chars@.len(),
            trimmed_start(text@) == trimmed_start(text@.subrange(from as int, text@.len() as int)),
            forall|j: int| 0 <= j < from ==> white_space(#[trigger] text@[j]),
        decreases chars@.len() - from,
    {
        assert(text@.subrange(from as int, text@.len() as int).subrange(
            1,
            text@.len() - from,
        ) =~= text@.subrange(from + 1, text@.len() as int));
        from = from + 1;
    }
    assert(from < text@.len() ==> text@.subrange(from as int, text@.len() as int)[0] == text@[
        from as int
    ]);
    (from, text.substring_char(from, chars.len()))
}

/// The part of `text` that ends with its last character that is not white
/// space.
pub fn trim_end(text: &str) -> (kept: &str)
    ensures
        kept@ == trimmed_end(text@),
{
    let chars = chars_of(text);
    let mut to: usize = chars.len();
    assert(text@.subrange(0, text@.len() as int) =~= text@);
    while to > 0 && is_white_space(chars[to - 1])
        invariant
            chars@ == text@,
            to <= chars@.len(),
            trimmed_end(text@) == trimmed_end(text@.subrange(0, to as int)),
        decreases to,
    {
        assert(text@.subrange(0, to as int).subrange(0, to - 1) =~= text@.subrange(0, to - 1));
        to = to - 1;
    }
    text.substring_char(0, to)
}

/// The part of `text` between its first and its last character that is not
/// white space.
pub fn trim(text: &str) -> (kept: &str)
    ensures
        kept@ == trimmed(text@),
{
    let (_, rest) = trim_start(text);
    trim_end(rest)
}

/// Whether `text` holds nothing but white space.
pub fn is_blank(text: &str) -> (empty: bool)
    ensures
        empty == blank(text@),
{
    trim(text).is_empty()
}

/// Whether an optional setting, white space around it aside, holds exactly
/// `expected`.
pub open spec fn setting_is(value: Option<Seq<char>>, expected: Seq<char>) -> bool {
    match value {
        Some(text) => trimmed(text) == expected,
        None => false,
    }
}

/// Whether an optional setting holds `expected`, white space around it aside.
pub fn is_setting(value: Option<&str>, expected: &str) -> (same: bool)
    ensures
        same == setting_is(value.deep_view(), expected@),
{
    match value {
        Some(text) => str_eq(trim(text), expected),
        None => false,
    }
}

/// Whether an optional setting is one of the values that switch a feature on.
pub open spec fn switched_on(value: Option<Seq<char>>) -> bool {
    setting_is(value, "1"@) || setting_is(value, "true"@) || setting_is(value, "yes"@)
}

/// Whether an optional setting switches a feature on: `1`, `true` or `yes`,
/// white space around it aside.
pub fn is_switched_on(value: Option<&str>) -> (on: bool)
    ensures
        on == switched_on(value.deep_view()),
{
    is_setting(value, "1") || is_setting(value, "true") || is_setting(value, "yes")
}

/// The first `count` characters of `text`, or all of it when it is shorter.
pub open spec fn first_chars(text: Seq<char>, count: nat) -> Seq<char> {
    if text.len() <= count {
        text
    } else {
        text.take(count as int)
    }
}

/// The first `count` characters of `text`, or all of it when it is shorter.
pub fn take_chars(text: &str, count: usize) -> (kept: String)
    ensures
        kept@ == first_chars(text@, count as nat),
{
    let len: usize = text.unicode_len();
    if len <= count {
        text.to_owned()
    } else {
        text.substring_char(0, count).to_owned()
    }
}

/// `text` cut to `max` characters, with an ellipsis where something was cut.
pub open spec fn truncated(text: Seq<char>, max: nat) -> Seq<char> {
    if text.len() <= max {
        text
    } else {
        text.take(max as int) + "\u{2026}"@
    }
}

/// `text` cut to `max_chars` characters, with an ellipsis where something was
/// cut.
pub fn truncate_chars(text: &str, max_chars: usize) -> (kept: String)
    ensures
        kept@ == truncated(text@, max_chars as nat),
{
    let len: usize = text.unicode_len();
    if len <= max_chars {
        return text.to_owned();
    }
    text.substring_char(0, max_chars).to_owned().concat("\u{2026}")
}

/// Whether `part` stands in `text` at position `at`.
pub open spec fn occurs_at(text: Seq<char>, part: Seq<char>, at: int) -> bool {
    0 <= at && at + part.len() <= text.len() && text.subrange(at, at + part.len()) == part
}

/// The first position at or after `from` where `part` stands in `text`.
pub open spec fn first_index_from(text: Seq<char>, part: Seq<char>, from: int) -> Option<int>
    decreases text.len() - from + 1,
{
    if from < 0 || from + part.len() > text.len() {
        None
    } else if occurs_at(text, part, from) {
        Some(from)
    } else {
        first_index_from(text, part, from + 1)
    }
}

/// The first position where `part` stands in `text`.
pub open spec fn first_index(text: Seq<char>, part: Seq<char>) -> Option<int> {
    first_index_from(text, part, 0)
}

/// The last position at or before `from` where `part` stands in `text`.
pub open spec fn last_index_to(text: Seq<char>, part: Seq<char>, from: int) -> Option<int>
    decreases from + 1,
{
    if from < 0 {
        None
    } else if occurs_at(text, part, from) {
        Some(from)
    } else {
        last_index_to(text, part, from - 1)
    }
}

/// The last position where `part` stands in `text`.
pub open spec fn last_index(text: Seq<char>, part: Seq<char>) -> Option<int> {
    last_index_to(text, part, text.len() - part.len())
}

fn stands_at(text: &Vec<char>, part: &Vec<char>, at: usize) -> (here: bool)
    requires
        at + part@.len() <= text@.len(),
    ensures
        here == occurs_at(text@, part@, at as int),
{
    let end: usize = text.len();
    let mut i: usize = 0;
    while i < part.len()
        invariant
            end == text@.len(),
            at + part@.len() <= end,
            i <= part@.len(),
            forall|j: int| 0 <= j < i ==> text@[at + j] == part@[j],
        decreases part@.len() - i,
    {
        if text[at + i] != part[i] {
            assert(text@.subrange(at as int, at + part@.len())[i as int] != part@[i as int]);
            return false;
        }
        i = i + 1;
    }
    assert(text@.subrange(at as int, at + part@.len()) =~= part@);
    true
}

/// The first position, counted in characters, where `part` stands in `text`.
pub fn find(text: &str, part: &str) -> (at: Option<usize>)
    ensures
        at is Some <==> first_index(text@, part@) is Some,
        at matches Some(i) ==> first_index(text@, part@) == Some(i as int),
{
    let chars = chars_of(text);
    let wanted = chars_of(part);
    if wanted.len() > chars.len() {
        return None;
    }
    let last: usize = chars.len() - wanted.len();
    let mut at: usize = 0;
    loop
        invariant
            chars@ == text@,
            wanted@ == part@,
            last == chars@.len() - wanted@.len(),
            at <= last,
            first_index(text@, part@) == first_index_from(text@, part@, at as int),
        decreases last - at,
    {
        if stands_at(&chars, &wanted, at) {
            return Some(at);
        }
        if at == last {
            assert(first_index_from(text@, part@, at + 1) is None);
            return None;
        }
        at = at + 1;
    }
}

/// The last position, counted in characters, where `part` stands in `text`.
pub fn rfind(text: &str, part: &str) -> (at: Option<usize>)
    ensures
        at is Some <==> last_index(text@, part@) is Some,
        at matches Some(i) ==> last_index(text@, part@) == Some(i as int),
{
    let chars = chars_of(text);
    let wanted = chars_of(part);
    if wanted.len() > chars.len() {
        return None;
    }
    let mut at: usize = chars.len() - wanted.len();
    loop
        invariant
            chars@ == text@,
            wanted@ == part@,
            at + wanted@.len() <= chars@.len(),
            last_index(text@, part@) == last_index_to(text@, part@, at as int),
        decreases at,
    {
        if stands_at(&chars, &wanted, at) {
            return Some(at);
        }
        if at == 0 {
            assert(last_index_to(text@, part@, -1) is None);
            return None;
        }
        at = at - 1;
    }
}

/// Whether `part` stands somewhere in `text`.
pub fn contains(text: &str, part: &str) -> (found: bool)
    ensures
        found == (first_index(text@, part@) is Some),
{
    find(text, part).is_some()
}

/// `parts` one after the other, with `separator` between neighbours.
pub open spec fn joined(parts: Seq<Seq<char>>, separator: Seq<char>) -> Seq<char>
    decreases parts.len(),
{
    if parts.len() == 0 {
        Seq::empty()
    } else if parts.len() == 1 {
        parts[0]
    } else {
        joined(parts.drop_last(), separator) + separator + parts.last()
    }
}

/// `parts` one after the other, with `separator` between neighbours.
pub fn join(parts: &Vec<String>, separator: &str) -> (text: String)
    ensures
        text@ == joined(parts.deep_view(), separator@),
{
    let mut text = String::new();
    let mut i: usize = 0;
    let ghost all = parts.deep_view();
    while i < parts.len()
        invariant
            i <= parts@.len(),
            all == parts.deep_view(),
            text@ == joined(all.take(i as int), separator@),
        decreases parts@.len() - i,
    {
        let ghost next = all.take(i + 1);
        assert(next.drop_last() =~= all.take(i as int));
        assert(next.last() == parts@[i as int]@);
        if i > 0 {
            text.append(separator);
        } else {
            assert(Seq::<char>::empty() + parts@[0]@ =~= parts@[0]@);
        }
        text.append(parts[i].as_str());
        i = i + 1;
    }
    assert(all.take(all.len() as int) =~= all);
    text
}

/// Whether `c` is a decimal digit.
pub open spec fn digit(c: char) -> bool {
    '0' <= c <= '9'
}

/// `n` in decimal, without leading zeros.
pub open spec fn decimal_text(n: nat) -> Seq<char>
    decreases n,
{
    if n < 10 {
        seq![('0' as u32 + n) as char]
    } else {
        decimal_text(n / 10).push(('0' as u32 + n % 10) as char)
    }
}

fn digit_text(d: u64) -> (text: &'static str)
    requires
        d < 10,
    ensures
        text@ == seq![('0' as u32 + d) as char],
{
    proof {
        reveal_strlit("0");
        reveal_strlit("1");
        reveal_strlit("2");
        reveal_strlit("3");
        reveal_strlit("4");
        reveal_strlit("5");
        reveal_strlit("6");
        reveal_strlit("7");
        reveal_strlit("8");
        reveal_strlit("9");
    }
    if d == 0 {
        "0"
    } else if d == 1 {
        "1"
    } else if d == 2 {
        "2"
    } else if d == 3 {
        "3"
    } else if d == 4 {
        "4"
    } else if d == 5 {
        "5"
    } else if d == 6 {
        "6"
    } else if d == 7 {
        "7"
    } else if d == 8 {
        "8"
    } else {
        "9"
    }
}

/// `n` in decimal, without leading zeros.
pub fn decimal(n: u64) -> (text: String)
    ensures
        text@ == decimal_text(n as nat),
    decreases n,
{
    if n < 10 {
        return digit_text(n).to_owned();
    }
    let text = decimal(n / 10).concat(digit_text(n % 10));
    assert(text@ =~= decimal_text(n as nat));
    text
}

/// The number that a sequence of decimal digits stands for.
pub open spec fn decimal_value(digits: Seq<char>) -> nat
    decreases digits.len(),
{
    if digits.len() == 0 {
        0
    } else {
        decimal_value(digits.drop_last()) * 10 + (digits.last() as u32 - '0' as u32) as nat
    }
}

/// Whether `text` is one or more decimal digits.
pub open spec fn all_digits(text: Seq<char>) -> bool {
    text.len() > 0 && forall|i: int| 0 <= i < text.len() ==> digit(#[trigger] text[i])
}

/// `text` without the plus sign it may start with.
pub open spec fn without_plus(text: Seq<char>) -> Seq<char> {
    if text.len() > 0 && text[0] == '+' {
        text.subrange(1, text.len() as int)
    } else {
        text
    }
}

/// The unsigned 64-bit number that `text` spells: one or more decimal digits,
/// optionally behind a plus sign, of a value that fits.
pub open spec fn unsigned_number(text: Seq<char>) -> Option<u64> {
    let digits = without_plus(text);
    if all_digits(digits) && decimal_value(digits) <= u64::MAX {
        Some(decimal_value(digits) as u64)
    } else {
        None
    }
}

proof fn lemma_prefix_is_no_larger(digits: Seq<char>, len: int)
    requires
        0 <= len <= digits.len(),
    ensures
        decimal_value(digits.take(len)) <= decimal_value(digits),
    decreases digits.len(),
{
    if len == digits.len() {
        assert(digits.take(len) =~= digits);
    } else {
        lemma_prefix_is_no_larger(digits.drop_last(), len);
        assert(digits.drop_last().take(len) =~= digits.take(len));
    }
}

/// The unsigned 64-bit number that `text` spells, if it spells one.
pub fn parse_unsigned(text: &str) -> (number: Option<u64>)
    ensures
        number == unsigned_number(text@),
{
    let chars = chars_of(text);
    let from: usize = if chars.len() > 0 && chars[0] == '+' {
        1
    } else {
        0
    };
    let ghost digits = text@.subrange(from as int, text@.len() as int);
    proof {
        if from == 0 {
            assert(digits =~= text@);
        }
    }
    if from == chars.len() {
        return None;
    }
    let mut value: u64 = 0;
    let mut i: usize = from;
    while i < chars.len()
        invariant
            chars@ == text@,
            from <= i <= chars@.len(),
            from < chars@.len(),
            digits == text@.subrange(from as int, text@.len() as int),
            digits == without_plus(text@),
            forall|j: int| 0 <= j < i - from ==> digit(#[trigger] digits[j]),
            value == decimal_value(digits.take(i - from)),
        decreases chars@.len() - i,
    {
        let c = chars[i];
        assert(digits[i - from] == c);
        if !('0' <= c && c <= '9') {
            return None;
        }
        let d: u64 = (c as u32 - '0' as u32) as u64;
        proof {
            let next = digits.take(i - from + 1);
            assert(next.drop_last() =~= digits.take(i - from));
            assert(next.last() == c);
            assert(decimal_value(next) == value * 10 + d);
            lemma_prefix_is_no_larger(digits, i - from + 1);
        }
        if value > (u64::MAX - d) / 10 {
            assert(value * 10 + d > u64::MAX);
            return None;
        }
        value = value * 10 + d;
        i = i + 1;
    }
    assert(digits.take(digits.len() as int) =~= digits);
    Some(value)
}

/// A truncated text is at most one character, the ellipsis, longer than its
/// bound, and a text within the bound is not touched.
pub proof fn law_truncation_is_bounded(text: Seq<char>, max: nat)
    ensures
        truncated(text, max).len() <= max + 1,
        text.len() <= max ==> truncated(text, max) == text,
        truncated(text, max).take(first_chars(text, max).len() as int) == first_chars(text, max),
{
    reveal_strlit("\u{2026}");
    assert(truncated(text, max).take(first_chars(text, max).len() as int) =~= first_chars(
        text,
        max,
    ));
}

/// Reading the decimal form of a number gives the number back.
pub proof fn law_decimal_reads_back(n: u64)
    ensures
        unsigned_number(decimal_text(n as nat)) == Some(n),
{
    lemma_decimal_digits(n as nat);
}

proof fn lemma_decimal_digits(n: nat)
    ensures
        all_digits(decimal_text(n)),
        decimal_value(decimal_text(n)) == n,
        decimal_text(n)[0] != '+',
    decreases n,
{
    reveal_with_fuel(decimal_value, 2);
    if n < 10 {
        assert(decimal_text(n).drop_last() =~= Seq::<char>::empty());
    } else {
        lemma_decimal_digits(n / 10);
        let text = decimal_text(n);
        assert(text.drop_last() =~= decimal_text(n / 10));
        assert(text.last() == ('0' as u32 + n % 10) as char);
        assert(text[0] == decimal_text(n / 10)[0]);
        assert forall|i: int| 0 <= i < text.len() implies digit(#[trigger] text[i]) by {
            if i < text.len() - 1 {
                assert(text[i] == decimal_text(n / 10)[i]);
            }
        }
    }
}

/// Leaving off leading white space leaves what begins at the first character
/// that is none: `from` is its place, or the end of a text without one.
pub proof fn law_leading_white_space_is_left_off(text: Seq<char>, from: int)
    requires
        0 <= from <= text.len(),
        forall|i: int| 0 <= i < from ==> white_space(#[trigger] text[i]),
        from < text.len() ==> !white_space(text[from]),
    ensures
        trimmed_start(text) == text.subrange(from, text.len() as int),
    decreases text.len(),
{
    if from == 0 {
        assert(text.subrange(0, text.len() as int) =~= text);
    } else {
        let rest = text.subrange(1, text.len() as int);
        assert forall|i: int| 0 <= i < from - 1 implies white_space(#[trigger] rest[i]) by {
            assert(rest[i] == text[i + 1]);
        }
        assert(white_space(text[0]));
        law_leading_white_space_is_left_off(rest, from - 1);
        assert(rest.subrange(from - 1, rest.len() as int) =~= text.subrange(
            from,
            text.len() as int,
        ));
    }
}

/// Leaving off trailing white space leaves what ends with the last character
/// that is none: `to` is the place behind it, or the start of a text without
/// one.
pub proof fn law_trailing_white_space_is_left_off(text: Seq<char>, to: int)
    requires
        0 <= to <= text.len(),
        forall|i: int| to <= i < text.len() ==> white_space(#[trigger] text[i]),
        to > 0 ==> !white_space(text[to - 1]),
    ensures
        trimmed_end(text) == text.subrange(0, to),
    decreases text.len(),
{
    if to == text.len() {
        assert(text.subrange(0, text.len() as int) =~= text);
    } else {
        let rest = text.subrange(0, text.len() - 1);
        assert forall|i: int| to <= i < rest.len() implies white_space(#[trigger] rest[i]) by {
            assert(rest[i] == text[i]);
        }
        assert(white_space(text[text.len() - 1]));
        law_trailing_white_space_is_left_off(rest, to);
        assert(rest.subrange(0, to) =~= text.subrange(0, to));
    }
}

/// Trimming takes exactly the white space around a text: what stands between
/// is kept character for character, white space inside it too.
pub proof fn law_trimming_keeps_what_is_between(
    before: Seq<char>,
    kept: Seq<char>,
    after: Seq<char>,
)
    requires
        forall|i: int| 0 <= i < before.len() ==> white_space(#[trigger] before[i]),
        forall|i: int| 0 <= i < after.len() ==> white_space(#[trigger] after[i]),
        kept.len() > 0 ==> !white_space(kept[0]) && !white_space(kept.last()),
    ensures
        trimmed(before + kept + after) == kept,
{
    let text = before + kept + after;
    if kept.len() == 0 {
        assert forall|i: int| 0 <= i < text.len() implies white_space(#[trigger] text[i]) by {
            if i < before.len() {
                assert(text[i] == before[i]);
            } else {
                assert(text[i] == after[i - before.len()]);
            }
        }
        law_leading_white_space_is_left_off(text, text.len() as int);
        assert(trimmed_start(text) =~= Seq::<char>::empty());
        assert(trimmed(text) =~= kept);
    } else {
        assert forall|i: int| 0 <= i < before.len() implies white_space(#[trigger] text[i]) by {
            assert(text[i] == before[i]);
        }
        assert(text[before.len() as int] == kept[0]);
        law_leading_white_space_is_left_off(text, before.len() as int);
        let rest = kept + after;
        assert(trimmed_start(text) =~= rest);
        assert forall|i: int| kept.len() <= i < rest.len() implies white_space(
            #[trigger] rest[i],
        ) by {
            assert(rest[i] == after[i - kept.len()]);
        }
        assert(rest[kept.len() - 1] == kept.last());
        law_trailing_white_space_is_left_off(rest, kept.len() as int);
        assert(rest.subrange(0, kept.len() as int) =~= kept);
    }
}

proof fn lemma_start_of_text(text: Seq<char>) -> (from: int)
    ensures
        0 <= from <= text.len(),
        forall|i: int| 0 <= i < from ==> white_space(#[trigger] text[i]),
        from < text.len() ==> !white_space(text[from]),
    decreases text.len(),
{
    if text.len() > 0 && white_space(text[0]) {
        let rest = text.subrange(1, text.len() as int);
        let from = lemma_start_of_text(rest);
        assert forall|i: int| 0 <= i < from + 1 implies white_space(#[trigger] text[i]) by {
            if i > 0 {
                assert(text[i] == rest[i - 1]);
            }
        }
        if from < rest.len() {
            assert(text[from + 1] == rest[from]);
        }
        from + 1
    } else {
        0
    }
}

/// A text is blank exactly when every character of it is white space.
pub proof fn law_blank_text_is_all_white_space(text: Seq<char>)
    ensures
        blank(text) <==> forall|i: int| 0 <= i < text.len() ==> white_space(#[trigger] text[i]),
{
    let from = lemma_start_of_text(text);
    law_leading_white_space_is_left_off(text, from);
    let rest = trimmed_start(text);
    if from < text.len() {
        assert(rest[0] == text[from]);
        lemma_end_keeps_first(rest);
    } else {
        assert(rest =~= Seq::<char>::empty());
    }
}

proof fn lemma_end_keeps_first(text: Seq<char>)
    requires
        text.len() > 0,
        !white_space(text[0]),
    ensures
        trimmed_end(text).len() > 0,
    decreases text.len(),
{
    if white_space(text[text.len() - 1]) {
        lemma_end_keeps_first(text.subrange(0, text.len() - 1));
    }
}

/// A setting is recognized with any white space around it, and only a text that
/// trims to the value is recognized; a missing setting is none.
pub proof fn law_settings_are_read_without_white_space(
    before: Seq<char>,
    value: Seq<char>,
    after: Seq<char>,
    expected: Seq<char>,
)
    requires
        forall|i: int| 0 <= i < before.len() ==> white_space(#[trigger] before[i]),
        forall|i: int| 0 <= i < after.len() ==> white_space(#[trigger] after[i]),
        value.len() > 0 ==> !white_space(value[0]) && !white_space(value.last()),
    ensures
        setting_is(Some(before + value + after), expected) <==> value == expected,
        !setting_is(None, expected),
        switched_on(Some(before + value + after)) <==> (value == "1"@ || value == "true"@ || value
            == "yes"@),
        !switched_on(None),
{
    law_trimming_keeps_what_is_between(before, value, after);
}

/// The first characters of a text are its start, as many as asked for or as
/// there are.
pub proof fn law_first_chars_are_the_start(text: Seq<char>, count: nat)
    ensures
        first_chars(text, count).len() == if text.len() <= count {
            text.len()
        } else {
            count
        },
        forall|i: int|
            0 <= i < first_chars(text, count).len() ==> #[trigger] first_chars(text, count)[i]
                == text[i],
{
}

/// A text that is cut keeps its first characters, up to the bound, and then
/// shows the ellipsis.
pub proof fn law_cut_text_shows_the_ellipsis(text: Seq<char>, max: nat)
    requires
        text.len() > max,
    ensures
        truncated(text, max).len() == max + 1,
        truncated(text, max).last() == '\u{2026}',
        forall|i: int| 0 <= i < max ==> #[trigger] truncated(text, max)[i] == text[i],
{
    reveal_strlit("\u{2026}");
}

proof fn lemma_first_index_from(text: Seq<char>, part: Seq<char>, from: int)
    requires
        0 <= from,
    ensures
        match first_index_from(text, part, from) {
            Some(at) => {
                &&& from <= at && at + part.len() <= text.len()
                &&& text.subrange(at, at + part.len()) == part
                &&& forall|i: int|
                    from <= i < at ==> #[trigger] text.subrange(i, i + part.len()) != part
            },
            None => forall|i: int|
                from <= i && i + part.len() <= text.len() ==> #[trigger] text.subrange(
                    i,
                    i + part.len(),
                ) != part,
        },
    decreases text.len() - from + 1,
{
    if from + part.len() <= text.len() && !occurs_at(text, part, from) {
        lemma_first_index_from(text, part, from + 1);
    }
}

/// Searching finds the first place where a part stands, and finds nothing only
/// where it stands nowhere.
pub proof fn law_search_finds_the_first_place(text: Seq<char>, part: Seq<char>)
    ensures
        match first_index(text, part) {
            Some(at) => {
                &&& 0 <= at && at + part.len() <= text.len()
                &&& text.subrange(at, at + part.len()) == part
                &&& forall|i: int|
                    0 <= i < at ==> #[trigger] text.subrange(i, i + part.len()) != part
            },
            None => forall|i: int|
                0 <= i && i + part.len() <= text.len() ==> #[trigger] text.subrange(
                    i,
                    i + part.len(),
                ) != part,
        },
{
    lemma_first_index_from(text, part, 0);
}

proof fn lemma_last_index_to(text: Seq<char>, part: Seq<char>, from: int)
    requires
        from + part.len() <= text.len(),
    ensures
        match last_index_to(text, part, from) {
            Some(at) => {
                &&& 0 <= at <= from
                &&& text.subrange(at, at + part.len()) == part
                &&& forall|i: int|
                    at < i <= from ==> #[trigger] text.subrange(i, i + part.len()) != part
            },
            None => forall|i: int|
                0 <= i <= from ==> #[trigger] text.subrange(i, i + part.len()) != part,
        },
    decreases from + 1,
{
    if from >= 0 && !occurs_at(text, part, from) {
        lemma_last_index_to(text, part, from - 1);
    }
}

/// Searching from the end finds the last place where a part stands, and finds
/// nothing only where it stands nowhere.
pub proof fn law_backward_search_finds_the_last_place(text: Seq<char>, part: Seq<char>)
    ensures
        match last_index(text, part) {
            Some(at) => {
                &&& 0 <= at && at + part.len() <= text.len()
                &&& text.subrange(at, at + part.len()) == part
                &&& forall|i: int|
                    at < i && i + part.len() <= text.len() ==> #[trigger] text.subrange(
                        i,
                        i + part.len(),
                    ) != part
            },
            None => forall|i: int|
                0 <= i && i + part.len() <= text.len() ==> #[trigger] text.subrange(
                    i,
                    i + part.len(),
                ) != part,
        },
{
    lemma_last_index_to(text, part, text.len() - part.len());
}

/// Joining puts every part, unchanged and in order, behind the ones before it,
/// with the separator between neighbours and nowhere else.
pub proof fn law_joining_keeps_every_part(
    parts: Seq<Seq<char>>,
    more: Seq<Seq<char>>,
    part: Seq<char>,
    separator: Seq<char>,
)
    ensures
        joined(Seq::empty(), separator) == Seq::<char>::empty(),
        joined(seq![part], separator) == part,
        parts.len() > 0 && more.len() > 0 ==> joined(parts + more, separator) == joined(
            parts,
            separator,
        ) + separator + joined(more, separator),
    decreases more.len(),
{
    if parts.len() > 0 && more.len() > 0 {
        let all = parts + more;
        assert(all.drop_last() =~= parts + more.drop_last());
        assert(all.last() == more.last());
        if more.len() == 1 {
            assert(parts + more.drop_last() =~= parts);
            assert(joined(all, separator) =~= joined(parts, separator) + separator + joined(
                more,
                separator,
            ));
        } else {
            law_joining_keeps_every_part(parts, more.drop_last(), part, separator);
            assert(joined(all, separator) =~= joined(parts, separator) + separator + joined(
                more,
                separator,
            ));
        }
    }
}

/// The decimal form of a number writes its digits from the highest to the
/// lowest, and starts with a zero only for zero itself.
pub proof fn law_decimal_form_is_positional(n: nat, digit: nat)
    requires
        digit < 10,
    ensures
        decimal_text(digit) == seq![('0' as u32 + digit) as char],
        n > 0 ==> decimal_text(n * 10 + digit) == decimal_text(n).push(
            ('0' as u32 + digit) as char,
        ),
        decimal_text(n).len() > 0,
        decimal_text(n)[0] == '0' ==> n == 0,
    decreases n,
{
    if n > 0 {
        assert((n * 10 + digit) / 10 == n);
        assert((n * 10 + digit) % 10 == digit);
        if n >= 10 {
            law_decimal_form_is_positional(n / 10, digit);
        }
    }
}

/// Reading a number digit by digit: one more digit makes it ten times as large
/// and adds the digit, as long as it fits; a plus sign in front changes
/// nothing; anything else, an empty text too, is no number.
pub proof fn law_numbers_are_read_digit_by_digit(digits: Seq<char>, c: char)
    requires
        digits.len() > 0,
        forall|i: int| 0 <= i < digits.len() ==> '0' <= #[trigger] digits[i] <= '9',
    ensures
        '0' <= c <= '9' ==> unsigned_number(seq![c]) == Some((c as u32 - '0' as u32) as u64),
        !('0' <= c <= '9') ==> unsigned_number(seq![c]) is None,
        !('0' <= c <= '9') ==> unsigned_number(digits.push(c)) is None,
        '0' <= c <= '9' ==> unsigned_number(digits.push(c)) == (match unsigned_number(digits) {
            Some(value) => if value * 10 + (c as u32 - '0' as u32) <= u64::MAX {
                Some((value * 10 + (c as u32 - '0' as u32)) as u64)
            } else {
                None
            },
            None => None,
        }),
        unsigned_number(seq!['+'] + digits) == unsigned_number(digits),
        unsigned_number(Seq::empty()) is None,
        unsigned_number(seq!['+']) is None,
{
    reveal_with_fuel(decimal_value, 2);
    assert(without_plus(seq!['+']) =~= Seq::<char>::empty());
    assert(without_plus(seq!['+'] + digits) =~= digits);
    let one = seq![c];
    assert(one.drop_last() =~= Seq::<char>::empty());
    if '0' <= c <= '9' {
        assert(all_digits(one));
    } else {
        assert(!digit(one[0]));
        if c == '+' {
            assert(without_plus(one) =~= Seq::<char>::empty());
        }
        assert(digits.push(c)[digits.len() as int] == c);
    }
    let longer = digits.push(c);
    assert(longer.drop_last() =~= digits);
    assert(longer[0] == digits[0]);
    assert(all_digits(digits)) by {
        assert forall|i: int| 0 <= i < digits.len() implies digit(#[trigger] digits[i]) by {}
    }
    if '0' <= c <= '9' {
        assert forall|i: int| 0 <= i < longer.len() implies digit(#[trigger] longer[i]) by {
            if i < digits.len() {
                assert(longer[i] == digits[i]);
            }
        }
    }
}

/// White space is the code points with the Unicode property, and no other.
pub proof fn law_these_code_points_are_white_space(c: char)
    ensures
        white_space(c) <==> {
            let n = c as u32;
            ||| 9 <= n <= 13
            ||| n == 32
            ||| n == 133
            ||| n == 160
            ||| n == 5760
            ||| 8192 <= n <= 8202
            ||| n == 8232
            ||| n == 8233
            ||| n == 8239
            ||| n == 8287
            ||| n == 12288
        },
{
}

/// Only digits, behind at most one plus sign, are read as a number: any other
/// character, a minus sign too, makes the text none.
pub proof fn law_only_digits_are_a_number(text: Seq<char>, i: int)
    requires
        0 <= i < text.len(),
        !('0' <= text[i] <= '9'),
        i > 0 || text[i] != '+',
    ensures
        unsigned_number(text) is None,
{
    let digits = without_plus(text);
    if text[0] == '+' {
        assert(digits[i - 1] == text[i]);
    } else {
        assert(digits[i] == text[i]);
    }
}

} // verus!
