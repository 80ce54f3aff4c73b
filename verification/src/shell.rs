//! The commands of the interactive shell: what a line that was typed asks for.
//!
//! A line holds a command, which is one letter, and for some commands an
//! argument. The two are separated by a single space; white space around
//! each of them does not count.

use vstd::prelude::*;

verus! {

/// Why the argument of a step command is no count.
#[derive(Clone, Copy, Debug, PartialEq, Eq)]
pub enum CountError {
    /// The argument is empty.
    Empty,
    /// The argument holds something else than decimal digits behind an
    /// optional plus sign, or no digit at all.
    InvalidDigit,
    /// The number does not fit in 64 bits.
    Overflow,
}

impl CountError {
    /// The text of `message`.
    pub open spec fn message_spec(&self) -> Seq<char> {
        match self {
            CountError::Empty => "cannot parse integer from empty string"@,
            CountError::InvalidDigit => "invalid digit found in string"@,
            CountError::Overflow => "number too large to fit in target type"@,
        }
    }

    /// A line of text that says what is wrong.
    pub fn message(&self) -> (text: &'static str)
        ensures
            text@ == self.message_spec(),
    {
        match self {
            CountError::Empty => "cannot parse integer from empty string",
            CountError::InvalidDigit => "invalid digit found in string",
            CountError::Overflow => "number too large to fit in target type",
        }
    }
}

/// What a line asks for.
#[derive(Clone, Copy, Debug, PartialEq, Eq)]
pub enum Command {
    /// `s [n]`: execute `n` instructions, one where no count is given.
    Step(u64),
    /// `s` with an argument that is no count.
    BadCount(CountError),
    /// `c`: run until the program halts.
    Continue,
    /// `r`: show the registers.
    Registers,
    /// `d <path>`: write the DRAM to the file whose name is the bytes of
    /// the line from `start` up to `end`.
    Dump { start: usize, end: usize },
    /// `d` without a path.
    MissingFile,
    /// `q`: leave the shell.
    Quit,
    /// `h`: show the commands.
    Help,
    /// Anything else.
    Unknown,
}

/// Whether a byte is white space: a blank, or one of the control
/// characters from tab to carriage return.
pub open spec fn is_space(b: u8) -> bool {
    b == 0x20 || (0x09 <= b && b <= 0x0d)
}

/// Whether a byte is a decimal digit.
pub open spec fn is_digit(b: u8) -> bool {
    0x30 <= b && b <= 0x39
}

/// The index of the first blank of `line` at or behind `from`, or the
/// length of the line where there is none: the end of the token that
/// starts at `from`.
pub open spec fn token_end(line: Seq<u8>, from: int) -> int
    decreases line.len() - from,
{
    if from >= line.len() {
        line.len() as int
    } else if line[from] == 0x20 {
        from
    } else {
        token_end(line, from + 1)
    }
}

/// The index of the first byte in `lo..hi` that is no white space, or `hi`.
pub open spec fn trim_start(line: Seq<u8>, lo: int, hi: int) -> int
    decreases hi - lo,
{
    if lo >= hi {
        hi
    } else if is_space(line[lo]) {
        trim_start(line, lo + 1, hi)
    } else {
        lo
    }
}

/// The index behind the last byte in `lo..hi` that is no white space, or `lo`.
pub open spec fn trim_end(line: Seq<u8>, lo: int, hi: int) -> int
    decreases hi - lo,
{
    if lo >= hi {
        lo
    } else if is_space(line[hi - 1]) {
        trim_end(line, lo, hi - 1)
    } else {
        hi
    }
}

/// The outcome of reading the first `n` bytes of `digits` as a decimal
/// number, from left to right: the number, or the first thing that went
/// wrong.
pub open spec fn scan_digits(digits: Seq<u8>, n: nat) -> Result<nat, CountError>
    decreases n,
{
    if n == 0 {
        Ok(0)
    } else {
        match scan_digits(digits, (n - 1) as nat) {
            Err(error) => Err(error),
            Ok(value) => {
                let c = digits[n - 1];
                if !is_digit(c) {
                    Err(CountError::InvalidDigit)
                } else if 10 * value + (c - 0x30) > u64::MAX {
                    Err(CountError::Overflow)
                } else {
                    Ok((10 * value + (c - 0x30)) as nat)
                }
            },
        }
    }
}

/// The count that `text` spells: decimal digits, behind a plus sign or not.
pub open spec fn count_of(text: Seq<u8>) -> Result<u64, CountError> {
    if text.len() == 0 {
        Err(CountError::Empty)
    } else {
        let digits = if text[0] == 0x2b {
            text.subrange(1, text.len() as int)
        } else {
            text
        };
        if digits.len() == 0 {
            Err(CountError::InvalidDigit)
        } else {
            match scan_digits(digits, digits.len()) {
                Ok(value) => Ok(value as u64),
                Err(error) => Err(error),
            }
        }
    }
}

/// What `line` asks for.
///
/// The command is the first token of the line, up to the first blank, and
/// the argument the token behind that blank; white space around each is
/// dropped. A line without a blank has no argument.
pub open spec fn command_of(line: Seq<u8>) -> Command {
    let first_end = token_end(line, 0);
    let name_start = trim_start(line, 0, first_end);
    let name = line.subrange(name_start, trim_end(line, name_start, first_end));
    let has_argument = first_end < line.len();
    let second_end = token_end(line, first_end + 1);
    let start = trim_start(line, first_end + 1, second_end);
    let end = trim_end(line, start, second_end);
    if name == seq![0x73u8] {
        if has_argument {
            match count_of(line.subrange(start, end)) {
                Ok(count) => Command::Step(count),
                Err(error) => Command::BadCount(error),
            }
        } else {
            Command::Step(1)
        }
    } else if name == seq![0x72u8] {
        Command::Registers
    } else if name == seq![0x63u8] {
        Command::Continue
    } else if name == seq![0x64u8] {
        if has_argument {
            Command::Dump { start: start as usize, end: end as usize }
        } else {
            Command::MissingFile
        }
    } else if name == seq![0x71u8] {
        Command::Quit
    } else if name == seq![0x68u8] {
        Command::Help
    } else {
        Command::Unknown
    }
}

fn byte_is_space(b: u8) -> (r: bool)
    ensures
        r == is_space(b),
{
    b == 0x20 || (0x09 <= b && b <= 0x0d)
}

/// The end of the token of `line` that starts at `from`.
fn find_token_end(line: &[u8], from: usize) -> (end: usize)
    requires
        from <= line@.len(),
    ensures
        end == token_end(line@, from as int),
        from <= end <= line@.len(),
{
    let mut i: usize = from;
    while i < line.len() && line[i] != 0x20
        invariant
            from <= i <= line@.len(),
            token_end(line@, from as int) == token_end(line@, i as int),
        decreases line@.len() - i,
    {
        i += 1;
    }
    i
}

/// The bounds of what is left of `lo..hi` after white space was dropped at
/// both ends.
fn trim(line: &[u8], lo: usize, hi: usize) -> (bounds: (usize, usize))
    requires
        lo <= hi <= line@.len(),
    ensures
        bounds.0 == trim_start(line@, lo as int, hi as int),
        bounds.1 == trim_end(line@, bounds.0 as int, hi as int),
        lo <= bounds.0 <= bounds.1 <= hi,
{
    let mut start: usize = lo;
    while start < hi && byte_is_space(line[start])
        invariant
            lo <= start <= hi <= line@.len(),
            trim_start(line@, lo as int, hi as int) == trim_start(line@, start as int, hi as int),
        decreases hi - start,
    {
        start += 1;
    }
    let mut end: usize = hi;
    while start < end && byte_is_space(line[end - 1])
        invariant
            start <= end <= hi <= line@.len(),
            trim_end(line@, start as int, hi as int) == trim_end(line@, start as int, end as int),
        decreases end - start,
    {
        end -= 1;
    }
    (start, end)
}

/// Reads `text` as a count: decimal digits, behind a plus sign or not.
pub fn parse_count(text: &[u8]) -> (res: Result<u64, CountError>)
    ensures
        res == count_of(text@),
{
    if text.len() == 0 {
        return Err(CountError::Empty);
    }
    let first: usize = if text[0] == 0x2b {
        1
    } else {
        0
    };
    if first == text.len() {
        return Err(CountError::InvalidDigit);
    }
    let ghost digits = if first == 1 {
        text@.subrange(1, text@.len() as int)
    } else {
        text@
    };
    let mut value: u64 = 0;
    let mut i: usize = first;
    while i < text.len()
        invariant
            first <= i <= text@.len(),
            text@.len() > first,
            first == (if text@[0] == 0x2b {
                1usize
            } else {
                0usize
            }),
            digits == (if first == 1 {
                text@.subrange(1, text@.len() as int)
            } else {
                text@
            }),
            scan_digits(digits, (i - first) as nat) == Ok::<nat, CountError>(value as nat),
        decreases text@.len() - i,
    {
        let c: u8 = text[i];
        assert(digits[i - first] == c);
        if c < 0x30 || c > 0x39 {
            proof {
                assert(scan_digits(digits, (i - first + 1) as nat) == Err::<nat, CountError>(
                    CountError::InvalidDigit,
                ));
                lemma_scan_fails(digits, (i - first + 1) as nat, digits.len());
            }
            return Err(CountError::InvalidDigit);
        }
        let digit: u64 = (c - 0x30) as u64;
        if value > (u64::MAX - digit) / 10 {
            proof {
                assert(scan_digits(digits, (i - first + 1) as nat) == Err::<nat, CountError>(
                    CountError::Overflow,
                ));
                lemma_scan_fails(digits, (i - first + 1) as nat, digits.len());
            }
            return Err(CountError::Overflow);
        }
        value = 10 * value + digit;
        i += 1;
    }
    Ok(value)
}

/// Once reading has gone wrong it stays wrong: the outcome of a longer
/// prefix is the first failure.
proof fn lemma_scan_fails(digits: Seq<u8>, n: nat, m: nat)
    requires
        n <= m,
        scan_digits(digits, n) is Err,
    ensures
        scan_digits(digits, m) == scan_digits(digits, n),
    decreases m,
{
    if n < m {
        lemma_scan_fails(digits, n, (m - 1) as nat);
    }
}

/// Reads a line that was typed at the prompt. The name of a file to dump
/// to lies inside the line.
pub fn parse_command(line: &[u8]) -> (command: Command)
    ensures
        command == command_of(line@),
        command matches Command::Dump { start, end } ==> start <= end <= line@.len(),
{
    let first_end: usize = find_token_end(line, 0);
    let (name_start, name_end) = trim(line, 0, first_end);
    let has_argument: bool = first_end < line.len();
    let (start, end) = if has_argument {
        let second_end: usize = find_token_end(line, first_end + 1);
        trim(line, first_end + 1, second_end)
    } else {
        (first_end, first_end)
    };
    let ghost name = line@.subrange(name_start as int, name_end as int);
    if name_end - name_start != 1 {
        assert(name.len() != 1);
        return Command::Unknown;
    }
    let letter: u8 = line[name_start];
    assert(name =~= seq![letter]);
    assert(forall|b: u8| (seq![b] == seq![letter]) ==> b == letter) by {
        assert forall|b: u8| seq![b] == seq![letter] implies b == letter by {
            assert(seq![b][0] == seq![letter][0]);
        }
    }
    if letter == 0x73 {
        if has_argument {
            let argument = vstd::slice::slice_subrange(line, start, end);
            match parse_count(argument) {
                Ok(count) => Command::Step(count),
                Err(error) => Command::BadCount(error),
            }
        } else {
            Command::Step(1)
        }
    } else if letter == 0x72 {
        Command::Registers
    } else if letter == 0x63 {
        Command::Continue
    } else if letter == 0x64 {
        if has_argument {
            Command::Dump { start, end }
        } else {
            Command::MissingFile
        }
    } else if letter == 0x71 {
        Command::Quit
    } else if letter == 0x68 {
        Command::Help
    } else {
        Command::Unknown
    }
}

} // verus!
