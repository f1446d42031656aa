//! Reading text: white space, words and hexadecimal numbers.

use vstd::prelude::*;

verus! {

/// Whether a character is white space: a tab, a line feed, a vertical tab,
/// a form feed, a carriage return, a space, or one of the other characters
/// with the Unicode property `White_Space`.
pub open spec fn is_space(ch: char) -> bool {
    let code = ch as u32;
    ||| 0x09 <= code <= 0x0D
    ||| code == 0x20
    ||| code == 0x85
    ||| code == 0xA0
    ||| code == 0x1680
    ||| 0x2000 <= code <= 0x200A
    ||| code == 0x2028
    ||| code == 0x2029
    ||| code == 0x202F
    ||| code == 0x205F
    ||| code == 0x3000
}

/// The value of a hexadecimal digit in either case, if the character is
/// one.
pub open spec fn digit_value(ch: char) -> Option<nat> {
    if '0' <= ch <= '9' {
        Some((ch as u32 - '0' as u32) as nat)
    } else if 'a' <= ch <= 'f' {
        Some((ch as u32 - 'a' as u32 + 10) as nat)
    } else if 'A' <= ch <= 'F' {
        Some((ch as u32 - 'A' as u32 + 10) as nat)
    } else {
        None
    }
}

/// Every character is a hexadecimal digit.
pub open spec fn all_digits(digits: Seq<char>) -> bool {
    forall|i: int| 0 <= i < digits.len() ==> (#[trigger] digit_value(digits[i])) is Some
}

/// The number that a sequence of hexadecimal digits writes, the most
/// significant digit first.
pub open spec fn number(digits: Seq<char>) -> nat
    decreases digits.len(),
{
    if digits.len() == 0 {
        0
    } else {
        number(digits.drop_last()) * 16 + digit_value(digits.last()).unwrap()
    }
}

/// A word without the plus sign that may stand before its digits.
pub open spec fn unsigned(word: Seq<char>) -> Seq<char> {
    if word.len() > 0 && word[0] == '+' {
        word.subrange(1, word.len() as int)
    } else {
        word
    }
}

/// The value of a word read as a hexadecimal number: an optional plus sign
/// and then one or more digits, whose number is at most `max`. Any other
/// word has no value.
pub open spec fn hex_value(word: Seq<char>, max: nat) -> Option<nat> {
    let digits = unsigned(word);
    if digits.len() > 0 && all_digits(digits) && number(digits) <= max {
        Some(number(digits))
    } else {
        None
    }
}

/// How far `at` lies below `end`; zero where it does not.
pub open spec fn remaining(at: int, end: int) -> nat {
    if at < end {
        (end - at) as nat
    } else {
        0
    }
}

/// The first position from `at` on, below `end`, that holds no white space;
/// `end` if there is none.
pub open spec fn word_start(text: Seq<char>, at: int, end: int) -> int
    decreases remaining(at, end),
{
    if at < end && is_space(text[at]) {
        word_start(text, at + 1, end)
    } else {
        at
    }
}

/// The first position from `at` on, below `end`, that holds white space;
/// `end` if there is none.
pub open spec fn word_end(text: Seq<char>, at: int, end: int) -> int
    decreases remaining(at, end),
{
    if at < end && !is_space(text[at]) {
        word_end(text, at + 1, end)
    } else {
        at
    }
}

/// The first position from `at` on that holds a line feed; the length of
/// the text if there is none.
pub open spec fn line_end(text: Seq<char>, at: int) -> int
    decreases remaining(at, text.len() as int),
{
    if at < text.len() && text[at] != '\n' {
        line_end(text, at + 1)
    } else {
        at
    }
}

/// Whether a character is white space.
pub fn is_whitespace(ch: char) -> (space: bool)
    ensures
        space == is_space(ch),
{
    let code: u32 = ch as u32;
    (0x09 <= code && code <= 0x0D) || code == 0x20 || code == 0x85 || code == 0xA0 || code
        == 0x1680 || (0x2000 <= code && code <= 0x200A) || code == 0x2028 || code == 0x2029
        || code == 0x202F || code == 0x205F || code == 0x3000
}

/// The value of a hexadecimal digit.
pub fn to_digit(ch: char) -> (value: Option<u8>)
    ensures
        match value {
            Some(value) => digit_value(ch) == Some(value as nat) && value < 16,
            None => digit_value(ch) is None,
        },
{
    if '0' <= ch && ch <= '9' {
        Some((ch as u32 - '0' as u32) as u8)
    } else if 'a' <= ch && ch <= 'f' {
        Some((ch as u32 - 'a' as u32 + 10) as u8)
    } else if 'A' <= ch && ch <= 'F' {
        Some((ch as u32 - 'A' as u32 + 10) as u8)
    } else {
        None
    }
}

/// Skips white space: returns where the next word starts.
pub fn skip_spaces(text: &[char], at: usize, end: usize) -> (start: usize)
    requires
        at <= end <= text.len(),
    ensures
        start == word_start(text@, at as int, end as int),
        at <= start <= end,
{
    let mut start: usize = at;
    while start < end && is_whitespace(text[start])
        invariant
            at <= start <= end <= text.len(),
            word_start(text@, at as int, end as int) == word_start(
                text@,
                start as int,
                end as int,
            ),
        decreases end - start,
    {
        start += 1;
    }
    start
}

/// Skips a word: returns where the white space behind it starts.
pub fn skip_word(text: &[char], at: usize, end: usize) -> (stop: usize)
    requires
        at <= end <= text.len(),
    ensures
        stop == word_end(text@, at as int, end as int),
        at <= stop <= end,
{
    let mut stop: usize = at;
    while stop < end && !is_whitespace(text[stop])
        invariant
            at <= stop <= end <= text.len(),
            word_end(text@, at as int, end as int) == word_end(text@, stop as int, end as int),
        decreases end - stop,
    {
        stop += 1;
    }
    stop
}

/// Finds the end of the line that `at` lies in.
pub fn find_line_end(text: &[char], at: usize) -> (end: usize)
    requires
        at <= text.len(),
    ensures
        end == line_end(text@, at as int),
        at <= end <= text.len(),
{
    let mut end: usize = at;
    while end < text.len() && text[end] != '\n'
        invariant
            at <= end <= text.len(),
            line_end(text@, at as int) == line_end(text@, end as int),
        decreases text.len() - end,
    {
        end += 1;
    }
    end
}

/// A sequence of digits writes a number that is at least the number that
/// any of its beginnings writes.
pub proof fn lemma_number_grows(digits: Seq<char>, shorter: int)
    requires
        0 <= shorter <= digits.len(),
    ensures
        number(digits.subrange(0, shorter)) <= number(digits),
    decreases digits.len(),
{
    if shorter < digits.len() {
        lemma_number_grows(digits.drop_last(), shorter);
        assert(digits.drop_last().subrange(0, shorter) =~= digits.subrange(0, shorter));
    } else {
        assert(digits.subrange(0, shorter) =~= digits);
    }
}

/// Reads the word between `start` and `end` as a hexadecimal number of at
/// most `max`.
pub fn parse_hex(text: &[char], start: usize, end: usize, max: usize) -> (value: Option<usize>)
    requires
        start <= end <= text.len(),
    ensures
        match value {
            Some(value) => hex_value(text@.subrange(start as int, end as int), max as nat)
                == Some(value as nat),
            None => hex_value(text@.subrange(start as int, end as int), max as nat) is None,
        },
{
    let ghost word = text@.subrange(start as int, end as int);
    let first: usize = if start < end && text[start] == '+' {
        start + 1
    } else {
        start
    };
    let ghost digits = text@.subrange(first as int, end as int);
    assert(digits =~= unsigned(word));
    if first == end {
        return None;
    }
    let mut value: usize = 0;
    let mut at: usize = first;
    while at < end
        invariant
            start <= first <= at <= end <= text.len(),
            first < end,
            digits == text@.subrange(first as int, end as int),
            digits == unsigned(text@.subrange(start as int, end as int)),
            all_digits(digits.subrange(0, at - first)),
            value == number(digits.subrange(0, at - first)),
            value <= max,
        decreases end - at,
    {
        let ghost read = digits.subrange(0, at - first);
        let ghost longer = digits.subrange(0, at - first + 1);
        assert(longer.drop_last() =~= read);
        assert(longer.last() == text@[at as int]);
        match to_digit(text[at]) {
            None => {
                assert(digit_value(digits[at - first]) is None);
                return None;
            },
            Some(digit) => {
                if digit as usize > max || value > (max - digit as usize) / 16 {
                    proof {
                        assert(number(longer) == value * 16 + digit);
                        assert(number(longer) > max);
                        lemma_number_grows(digits, at - first + 1);
                    }
                    return None;
                }
                value = value * 16 + digit as usize;
                assert(all_digits(longer)) by {
                    assert forall|i: int| 0 <= i < longer.len() implies (#[trigger] digit_value(
                        longer[i],
                    )) is Some by {
                        if i < read.len() {
                            assert(longer[i] == read[i]);
                        }
                    }
                }
            },
        }
        at += 1;
    }
    assert(digits.subrange(0, end - first) =~= digits);
    Some(value)
}

/// Where the next word starts: not before `at`, not behind `end`, and at a
/// character that is no white space unless it is `end`.
pub proof fn lemma_word_start(text: Seq<char>, at: int, end: int)
    requires
        at <= end,
    ensures
        at <= word_start(text, at, end) <= end,
        word_start(text, at, end) < end ==> !is_space(text[word_start(text, at, end)]),
    decreases remaining(at, end),
{
    if at < end && is_space(text[at]) {
        lemma_word_start(text, at + 1, end);
    }
}

/// Where a word ends: not before `at`, not behind `end`, and behind `at`
/// where a word starts at `at`.
pub proof fn lemma_word_end(text: Seq<char>, at: int, end: int)
    requires
        at <= end,
    ensures
        at <= word_end(text, at, end) <= end,
        at < end && !is_space(text[at]) ==> at < word_end(text, at, end),
    decreases remaining(at, end),
{
    if at < end && !is_space(text[at]) {
        lemma_word_end(text, at + 1, end);
    }
}

/// Where a line ends: not before `at` and not behind the text.
pub proof fn lemma_line_end(text: Seq<char>, at: int)
    requires
        at <= text.len(),
    ensures
        at <= line_end(text, at) <= text.len(),
    decreases remaining(at, text.len() as int),
{
    if at < text.len() && text[at] != '\n' {
        lemma_line_end(text, at + 1);
    }
}

/// Whether the characters between `start` and `end` are the given word.
pub fn word_is(text: &[char], start: usize, end: usize, word: &str) -> (same: bool)
    requires
        start <= end <= text.len(),
    ensures
        same == (text@.subrange(start as int, end as int) == word@),
{
    let ghost found = text@.subrange(start as int, end as int);
    let length: usize = word.unicode_len();
    if end - start != length {
        return false;
    }
    let mut at: usize = 0;
    while at < length
        invariant
            at <= length,
            length == word@.len(),
            start + length == end,
            end <= text.len(),
            found == text@.subrange(start as int, end as int),
            found.subrange(0, at as int) == word@.subrange(0, at as int),
        decreases length - at,
    {
        if text[start + at] != word.get_char(at) {
            assert(found[at as int] != word@[at as int]);
            return false;
        }
        at += 1;
        assert(found.subrange(0, at as int) =~= found.subrange(0, at - 1).push(found[at - 1]));
        assert(word@.subrange(0, at as int) =~= word@.subrange(0, at - 1).push(word@[at - 1]));
    }
    assert(found =~= found.subrange(0, length as int));
    assert(word@ =~= word@.subrange(0, length as int));
    true
}

} // verus!
