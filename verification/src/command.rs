//! The commands of the interactive monitor.

use vstd::prelude::*;
use crate::scan::{
    hex_value, parse_hex, skip_spaces, skip_word, word_end, word_is, word_start,
};

verus! {

/// What a line typed at the monitor's prompt asks for.
#[derive(Clone, Copy, Debug, PartialEq, Eq, Structural)]
pub enum Command {
    /// An empty line, or a word that is no command: nothing is done.
    Nothing,
    /// `mem` or `memory`: list the memory from `start` to `end`.
    Memory { start: usize, end: usize },
    /// `clear`: clear the screen.
    Clear,
    /// `help`: show the list of commands.
    Help,
    /// `status` or `stat`: show the registers.
    Status,
    /// `exit` or `quit`: leave the monitor.
    Quit,
    /// `mem` or `memory` with an address that is no hexadecimal number.
    BadAddress,
}

/// The address that a word of a memory command stands for. A word that is
/// missing stands for zero.
pub open spec fn address(word: Seq<char>) -> Option<nat> {
    if word.len() == 0 {
        Some(0)
    } else {
        hex_value(word, usize::MAX as nat)
    }
}

/// The word that starts at or behind `at`, and the position behind it. The
/// word is empty if only white space is left.
pub open spec fn next_word(line: Seq<char>, at: int) -> (Seq<char>, int) {
    let start = word_start(line, at, line.len() as int);
    let stop = word_end(line, start, line.len() as int);
    (line.subrange(start, stop), stop)
}

/// The memory command with the addresses that the two words behind `at`
/// stand for.
pub open spec fn memory_command(line: Seq<char>, at: int) -> Command {
    let (first, behind_first) = next_word(line, at);
    let (second, _) = next_word(line, behind_first);
    match (address(first), address(second)) {
        (Some(start), Some(end)) => Command::Memory { start: start as usize, end: end as usize },
        _ => Command::BadAddress,
    }
}

/// The command that a line stands for. The first word names it; the words
/// behind the addresses of a memory command, and behind the name of any
/// other, are not looked at.
pub open spec fn command(line: Seq<char>) -> Command {
    let (name, behind) = next_word(line, 0);
    if name == "mem"@ || name == "memory"@ {
        memory_command(line, behind)
    } else if name == "clear"@ {
        Command::Clear
    } else if name == "help"@ {
        Command::Help
    } else if name == "status"@ || name == "stat"@ {
        Command::Status
    } else if name == "exit"@ || name == "quit"@ {
        Command::Quit
    } else {
        Command::Nothing
    }
}

/// Reads the address word at or behind `at`. Returns the address, if the
/// word stands for one, and the position behind the word.
fn parse_address(line: &[char], at: usize) -> (found: (Option<usize>, usize))
    requires
        at <= line.len(),
    ensures
        found.1 == next_word(line@, at as int).1,
        found.1 <= line.len(),
        match found.0 {
            Some(value) => address(next_word(line@, at as int).0) == Some(value as nat),
            None => address(next_word(line@, at as int).0) is None,
        },
{
    let start: usize = skip_spaces(line, at, line.len());
    let stop: usize = skip_word(line, start, line.len());
    if start == stop {
        (Some(0), stop)
    } else {
        (parse_hex(line, start, stop, usize::MAX), stop)
    }
}

/// Reads a line typed at the monitor's prompt.
pub fn parse_command(line: &[char]) -> (parsed: Command)
    ensures
        parsed == command(line@),
{
    let start: usize = skip_spaces(line, 0, line.len());
    let stop: usize = skip_word(line, start, line.len());
    if word_is(line, start, stop, "mem") || word_is(line, start, stop, "memory") {
        let (first, behind_first) = parse_address(line, stop);
        let (second, _) = parse_address(line, behind_first);
        match (first, second) {
            (Some(start), Some(end)) => Command::Memory { start, end },
            _ => Command::BadAddress,
        }
    } else if word_is(line, start, stop, "clear") {
        Command::Clear
    } else if word_is(line, start, stop, "help") {
        Command::Help
    } else if word_is(line, start, stop, "status") || word_is(line, start, stop, "stat") {
        Command::Status
    } else if word_is(line, start, stop, "exit") || word_is(line, start, stop, "quit") {
        Command::Quit
    } else {
        Command::Nothing
    }
}

} // verus!
