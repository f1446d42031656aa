//! Text for the monitor: numbers in hexadecimal and binary notation, the
//! register snapshot and the memory dump.

use vstd::prelude::*;
use crate::memory::{Memory, MAX_SIZE};
use crate::state::{high_byte, CpuState};

verus! {

/// `String::push` of the standard library appends the given character to the
/// end of the string and leaves the characters before it as they were.
pub assume_specification[ String::push ](text: &mut String, ch: char)
    ensures
        final(text)@ == old(text)@.push(ch),
;

/// The sixteen hexadecimal digits, in lower case.
pub open spec fn hex_digits() -> Seq<char> {
    seq!['0', '1', '2', '3', '4', '5', '6', '7', '8', '9', 'a', 'b', 'c', 'd', 'e', 'f']
}

/// The hexadecimal digit for a value below sixteen.
pub open spec fn hex_digit(value: int) -> char {
    hex_digits()[value]
}

/// A byte as two hexadecimal digits.
pub open spec fn hex_byte(value: u8) -> Seq<char> {
    seq![hex_digit(value as int / 16), hex_digit(value as int % 16)]
}

/// A word as four hexadecimal digits.
pub open spec fn hex_word(value: u16) -> Seq<char> {
    hex_byte(high_byte(value)) + hex_byte((value % 0x100) as u8)
}

/// The binary digit for a bit.
pub open spec fn binary_digit(bit: int) -> char {
    if bit % 2 == 1 {
        '1'
    } else {
        '0'
    }
}

/// A byte as eight binary digits, the highest bit first.
pub open spec fn binary_byte(value: u8) -> Seq<char> {
    seq![
        binary_digit(value as int / 0x80),
        binary_digit(value as int / 0x40),
        binary_digit(value as int / 0x20),
        binary_digit(value as int / 0x10),
        binary_digit(value as int / 0x08),
        binary_digit(value as int / 0x04),
        binary_digit(value as int / 0x02),
        binary_digit(value as int),
    ]
}

/// The register snapshot: program counter and stack pointer, the three
/// registers, and the packed flags in binary, on three lines.
pub open spec fn status_text(state: CpuState) -> Seq<char> {
    "PC=$"@ + hex_word(state.pc) + ", SP=$"@ + hex_byte(state.sp) + "\nA=$"@ + hex_byte(state.a)
        + ", X=$"@ + hex_byte(state.x) + ", Y=$"@ + hex_byte(state.y) + "\nFlags="@ + binary_byte(
        state.flags.packed(),
    ) + "\n"@
}

/// The hexadecimal digit for a value below sixteen.
pub fn to_hex_digit(value: u8) -> (digit: char)
    requires
        value < 16,
    ensures
        digit == hex_digit(value as int),
{
    match value {
        0 => '0',
        1 => '1',
        2 => '2',
        3 => '3',
        4 => '4',
        5 => '5',
        6 => '6',
        7 => '7',
        8 => '8',
        9 => '9',
        10 => 'a',
        11 => 'b',
        12 => 'c',
        13 => 'd',
        14 => 'e',
        _ => 'f',
    }
}

/// Appends a byte as two hexadecimal digits.
pub fn push_hex_byte(text: &mut String, value: u8)
    ensures
        final(text)@ == old(text)@ + hex_byte(value),
{
    text.push(to_hex_digit(value / 16));
    text.push(to_hex_digit(value % 16));
    assert(text@ =~= old(text)@ + hex_byte(value));
}

/// Appends a word as four hexadecimal digits.
pub fn push_hex_word(text: &mut String, value: u16)
    ensures
        final(text)@ == old(text)@ + hex_word(value),
{
    push_hex_byte(text, (value / 0x100) as u8);
    push_hex_byte(text, (value % 0x100) as u8);
    assert(text@ =~= old(text)@ + hex_word(value));
}

/// The binary digit for the lowest bit of a value.
pub fn to_binary_digit(value: u8) -> (digit: char)
    ensures
        digit == binary_digit(value as int),
{
    if value % 2 == 1 {
        '1'
    } else {
        '0'
    }
}

/// Appends a byte as eight binary digits, the highest bit first.
pub fn push_binary_byte(text: &mut String, value: u8)
    ensures
        final(text)@ == old(text)@ + binary_byte(value),
{
    text.push(to_binary_digit(value / 0x80));
    text.push(to_binary_digit(value / 0x40));
    text.push(to_binary_digit(value / 0x20));
    text.push(to_binary_digit(value / 0x10));
    text.push(to_binary_digit(value / 0x08));
    text.push(to_binary_digit(value / 0x04));
    text.push(to_binary_digit(value / 0x02));
    text.push(to_binary_digit(value));
    assert(text@ =~= old(text)@ + binary_byte(value));
}

/// The number of bytes in a row of the memory dump.
pub const ROW_LENGTH: usize = 16;

/// The first `count` bytes of the row that starts at address `at`, each as
/// two hexadecimal digits and a space.
pub open spec fn row_bytes(contents: Seq<u8>, at: int, count: nat) -> Seq<char>
    decreases count,
{
    if count == 0 {
        Seq::empty()
    } else {
        row_bytes(contents, at, (count - 1) as nat) + hex_byte(contents[at + count - 1]) + seq![
            ' ',
        ]
    }
}

/// How far `start` lies below `end`; zero where it does not.
pub open spec fn distance(start: int, end: int) -> nat {
    if start < end {
        (end - start) as nat
    } else {
        0
    }
}

/// One row of the memory dump: the address of the row's first byte and the
/// sixteen bytes from there on.
pub open spec fn row_text(contents: Seq<u8>, at: int) -> Seq<char> {
    seq!['$'] + hex_word(at as u16) + ": "@ + row_bytes(contents, at, ROW_LENGTH as nat)
}

/// The rows that start at `start`, `start + 16` and so on below `end`, each
/// with a line break behind it.
pub open spec fn rows_text(contents: Seq<u8>, start: int, end: int) -> Seq<char>
    decreases distance(start, end),
{
    if start >= end {
        Seq::empty()
    } else {
        row_text(contents, start) + seq!['\n'] + rows_text(contents, start + 16, end)
    }
}

/// Every row that starts at `start`, `start + 16` and so on below `end`
/// lies wholly inside the address space.
pub open spec fn rows_fit(start: int, end: int) -> bool
    decreases distance(start, end),
{
    start >= end || (start + 16 <= MAX_SIZE && rows_fit(start + 16, end))
}

/// The memory dump for a range. With `end` zero it is the one row at
/// `start`; otherwise the rows from `start` on that begin below `end`. A line
/// break ends the dump. There is no dump where a row would leave the address
/// space.
pub open spec fn monitor_text(contents: Seq<u8>, start: int, end: int) -> Option<Seq<char>> {
    if end == 0 {
        if start + ROW_LENGTH <= MAX_SIZE {
            Some(row_text(contents, start) + seq!['\n'])
        } else {
            None
        }
    } else if rows_fit(start, end) {
        Some(rows_text(contents, start, end) + seq!['\n'])
    } else {
        None
    }
}

/// Appends one row of the memory dump.
fn push_row(text: &mut String, memory: &Memory, at: usize)
    requires
        at + ROW_LENGTH <= MAX_SIZE,
    ensures
        final(text)@ == old(text)@ + row_text(memory@, at as int),
{
    text.push('$');
    push_hex_word(text, at as u16);
    text.append(": ");
    let ghost head = text@;
    assert(head =~= old(text)@ + (seq!['$'] + hex_word(at as u16) + ": "@));
    let mut column: usize = 0;
    while column < ROW_LENGTH
        invariant
            column <= ROW_LENGTH,
            at + ROW_LENGTH <= MAX_SIZE,
            text@ == head + row_bytes(memory@, at as int, column as nat),
        decreases ROW_LENGTH - column,
    {
        push_hex_byte(text, memory.read(at + column));
        text.push(' ');
        column += 1;
        assert(text@ =~= head + row_bytes(memory@, at as int, column as nat));
    }
    assert(text@ =~= old(text)@ + row_text(memory@, at as int));
}

impl Memory {
    /// Returns the contents of a memory area as text in hexadecimal
    /// notation, sixteen bytes to a row. With `end` zero the text is the one
    /// row at `start`. Returns `None` where a row would leave the address
    /// space.
    pub fn monitor(&self, start: usize, end: usize) -> (text: Option<String>)
        ensures
            match text {
                Some(text) => monitor_text(self@, start as int, end as int) == Some(text@),
                None => monitor_text(self@, start as int, end as int) is None,
            },
    {
        let mut text: String = String::new();
        if end == 0 {
            if start > MAX_SIZE - ROW_LENGTH {
                return None;
            }
            push_row(&mut text, self, start);
        } else {
            let mut at: usize = start;
            while at < end
                invariant
                    rows_fit(start as int, end as int) == rows_fit(at as int, end as int),
                    rows_text(self@, start as int, end as int) == text@ + rows_text(
                        self@,
                        at as int,
                        end as int,
                    ),
                decreases distance(at as int, end as int),
            {
                if at > MAX_SIZE - ROW_LENGTH {
                    return None;
                }
                let ghost before = text@;
                push_row(&mut text, self, at);
                text.push('\n');
                assert(text@ + rows_text(self@, at + ROW_LENGTH, end as int) =~= before + rows_text(
                    self@,
                    at as int,
                    end as int,
                ));
                at += ROW_LENGTH;
            }
            assert(text@ =~= rows_text(self@, start as int, end as int));
        }
        text.push('\n');
        Some(text)
    }
}

} // verus!
