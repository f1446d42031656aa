//! The program loader: turns the text of a hex dump into the bytes of a
//! program.
//!
//! A hex dump is a text of lines. Each line holds words separated by white
//! space, and each word is one byte in hexadecimal notation. Where the dump
//! carries addresses, the first word of each line is an address and is left
//! out.

use vstd::prelude::*;
use crate::scan::{
    find_line_end, hex_value, lemma_line_end, lemma_word_end, lemma_word_start, line_end,
    parse_hex, remaining, skip_spaces, skip_word, word_end, word_start,
};

verus! {

/// Why a hex dump could not be loaded.
#[derive(Clone, Copy, Debug, PartialEq, Eq, Structural)]
pub enum LoadError {
    /// A word of the dump is not a byte in hexadecimal notation.
    MalformedToken,
}

/// Puts a byte before the bytes that follow it, if there are any to follow.
pub open spec fn prepend(first: Seq<u8>, rest: Option<Seq<u8>>) -> Option<Seq<u8>> {
    match rest {
        Some(rest) => Some(first + rest),
        None => None,
    }
}

/// The bytes that the words between `at` and `end` stand for, in order, the
/// first word left out if `skip_word` says so. There are none if a word that
/// counts is not a byte in hexadecimal notation.
pub open spec fn line_values(text: Seq<char>, at: int, end: int, skip_word: bool) -> Option<
    Seq<u8>,
>
    decreases remaining(at, end),
{
    let start = word_start(text, at, end);
    if at > end || start >= end {
        Some(Seq::empty())
    } else {
        let stop = word_end(text, start, end);
        proof {
            lemma_word_start(text, at, end);
            lemma_word_end(text, start, end);
        }
        if skip_word {
            line_values(text, stop, end, false)
        } else {
            match hex_value(text.subrange(start, stop), 0xFF) {
                Some(value) => prepend(seq![value as u8], line_values(text, stop, end, false)),
                None => None,
            }
        }
    }
}

/// The bytes of the lines from `at` on.
pub open spec fn program_values(text: Seq<char>, at: int, ignore_first_column: bool) -> Option<
    Seq<u8>,
>
    decreases remaining(at, text.len() as int),
{
    if at >= text.len() {
        Some(Seq::empty())
    } else {
        let end = line_end(text, at);
        proof {
            lemma_line_end(text, at);
        }
        match line_values(text, at, end, ignore_first_column) {
            Some(line) => prepend(line, program_values(text, end + 1, ignore_first_column)),
            None => None,
        }
    }
}

/// The program that a hex dump holds.
pub open spec fn parsed_program(text: Seq<char>, ignore_first_column: bool) -> Option<Seq<u8>> {
    program_values(text, 0, ignore_first_column)
}

/// Reads the words of one line and appends their bytes to the buffer. Tells
/// whether every word that counts was a byte.
fn parse_line(text: &[char], from: usize, end: usize, skip_first: bool, buffer: &mut Vec<u8>) -> (ok:
    bool)
    requires
        from <= end <= text.len(),
    ensures
        match line_values(text@, from as int, end as int, skip_first) {
            Some(values) => ok && final(buffer)@ == old(buffer)@ + values,
            None => !ok,
        },
{
    let mut at: usize = from;
    let mut skip: bool = skip_first;
    let ghost whole = line_values(text@, from as int, end as int, skip_first);
    loop
        invariant
            at <= end <= text.len(),
            whole == line_values(text@, from as int, end as int, skip_first),
            whole == prepend(
                buffer@.subrange(old(buffer)@.len() as int, buffer@.len() as int),
                line_values(text@, at as int, end as int, skip),
            ),
            old(buffer)@.len() <= buffer@.len(),
            buffer@.subrange(0, old(buffer)@.len() as int) == old(buffer)@,
        ensures
            match whole {
                Some(values) => buffer@ == old(buffer)@ + values,
                None => false,
            },
        decreases end - at,
    {
        let ghost added = buffer@.subrange(old(buffer)@.len() as int, buffer@.len() as int);
        let start: usize = skip_spaces(text, at, end);
        if start >= end {
            assert(buffer@ =~= old(buffer)@ + (added + Seq::<u8>::empty()));
            break ;
        }
        let stop: usize = skip_word(text, start, end);
        proof {
            lemma_word_start(text@, at as int, end as int);
            lemma_word_end(text@, start as int, end as int);
        }
        if skip {
            skip = false;
        } else {
            match parse_hex(text, start, stop, 0xFF) {
                Some(value) => {
                    buffer.push(value as u8);
                    proof {
                        let rest = line_values(text@, stop as int, end as int, false);
                        let now = buffer@.subrange(
                            old(buffer)@.len() as int,
                            buffer@.len() as int,
                        );
                        assert(now =~= added + seq![value as u8]);
                        if rest is Some {
                            assert(added + (seq![value as u8] + rest.unwrap()) =~= now
                                + rest.unwrap());
                        }
                        assert(buffer@.subrange(0, old(buffer)@.len() as int) =~= old(buffer)@);
                    }
                },
                None => {
                    assert(line_values(text@, at as int, end as int, false) is None);
                    assert(whole is None);
                    return false;
                },
            }
        }
        at = stop;
    }
    true
}

/// Reads a program written in a hex-dump format. With `ignore_first_column`
/// the first word of each line is taken for an address and left out.
pub fn parse_program(text: &[char], ignore_first_column: bool) -> (program: Result<
    Vec<u8>,
    LoadError,
>)
    ensures
        match program {
            Ok(bytes) => parsed_program(text@, ignore_first_column) == Some(bytes@),
            Err(error) => parsed_program(text@, ignore_first_column) is None && error
                == LoadError::MalformedToken,
        },
{
    let mut buffer: Vec<u8> = Vec::new();
    let mut at: usize = 0;
    while at < text.len()
        invariant
            at <= text.len(),
            parsed_program(text@, ignore_first_column) == prepend(
                buffer@,
                program_values(text@, at as int, ignore_first_column),
            ),
        decreases text.len() - at,
    {
        let end: usize = find_line_end(text, at);
        let ghost before = buffer@;
        let ghost line = line_values(text@, at as int, end as int, ignore_first_column);
        if !parse_line(text, at, end, ignore_first_column, &mut buffer) {
            return Err(LoadError::MalformedToken);
        }
        proof {
            let rest = program_values(text@, end + 1, ignore_first_column);
            if rest is Some {
                assert(before + (line.unwrap() + rest.unwrap()) =~= buffer@ + rest.unwrap());
            }
        }
        if end < text.len() {
            at = end + 1;
        } else {
            at = end;
        }
    }
    assert(buffer@ + Seq::<u8>::empty() =~= buffer@);
    Ok(buffer)
}

} // verus!
