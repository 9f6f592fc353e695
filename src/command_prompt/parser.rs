//! The command language: `ws* name ws* digits ws* EOF`, where a name is one of
//! `o`/`offset`, `w`/`width`, `x`/`scrollx`, `y`/`scrolly` and whitespace is
//! space, tab, CR or LF.

use vstd::prelude::*;
use vstd::utf8::encode_utf8;

verus! {

#[derive(Clone, Copy, Debug, PartialEq, Eq, Structural)]
pub enum CommandName {
    Offset,
    ScrollX,
    ScrollY,
    Width,
}

/// The single, undifferentiated failure of the command parser.
#[derive(Debug, PartialEq, Eq, Structural)]
pub struct CommandParseError;

#[derive(Clone, Copy, Debug, PartialEq, Eq, Structural)]
pub enum Command {
    ScrollX(usize),
    ScrollY(usize),
    SetOffset(usize),
    SetWidth(usize),
}

/// The kinds of byte runs the grammar is made of.
#[derive(Clone, Copy, Debug, PartialEq, Eq, Structural)]
pub enum ByteClass {
    Whitespace,
    Letter,
    Digit,
}

pub open spec fn in_class(c: ByteClass, b: u8) -> bool {
    match c {
        ByteClass::Whitespace => {
            b == ' ' as u8 || b == '\t' as u8 || b == '\r' as u8 || b == '\n' as u8
        },
        ByteClass::Letter => {
            ('a' as u8 <= b && b <= 'z' as u8) || ('A' as u8 <= b && b <= 'Z' as u8)
        },
        ByteClass::Digit => '0' as u8 <= b && b <= '9' as u8,
    }
}

/// End of the longest run of bytes of class `c` that starts at `i`.
pub open spec fn run_end(s: Seq<u8>, i: int, c: ByteClass) -> int
    decreases s.len() - i,
{
    if 0 <= i < s.len() && in_class(c, s[i]) {
        run_end(s, i + 1, c)
    } else {
        i
    }
}

/// The bytes of an ASCII word.
pub open spec fn ascii(cs: Seq<char>) -> Seq<u8> {
    Seq::new(cs.len(), |i: int| cs[i] as u8)
}

/// The command name a word stands for; names are case-sensitive.
pub open spec fn name_of_word(w: Seq<u8>) -> Option<CommandName> {
    if w == ascii(seq!['o']) || w == ascii(seq!['o', 'f', 'f', 's', 'e', 't']) {
        Some(CommandName::Offset)
    } else if w == ascii(seq!['w']) || w == ascii(seq!['w', 'i', 'd', 't', 'h']) {
        Some(CommandName::Width)
    } else if w == ascii(seq!['x']) || w == ascii(seq!['s', 'c', 'r', 'o', 'l', 'l', 'x']) {
        Some(CommandName::ScrollX)
    } else if w == ascii(seq!['y']) || w == ascii(seq!['s', 'c', 'r', 'o', 'l', 'l', 'y']) {
        Some(CommandName::ScrollY)
    } else {
        None
    }
}

/// The value of a run of decimal digits, most significant first.
pub open spec fn decimal_value(d: Seq<u8>) -> nat
    decreases d.len(),
{
    if d.len() == 0 {
        0
    } else {
        decimal_value(d.drop_last()) * 10 + (d.last() - '0' as u8) as nat
    }
}

/// Leading whitespace, then a command name (a maximal run of letters).
/// Gives the name and the index just after it.
pub open spec fn spec_command_name(s: Seq<u8>) -> Option<(CommandName, int)> {
    let a = run_end(s, 0, ByteClass::Whitespace);
    let b = run_end(s, a, ByteClass::Letter);
    match name_of_word(s.subrange(a, b)) {
        Some(n) => Some((n, b)),
        None => None,
    }
}

/// A non-empty run of digits starting exactly at `i` whose value fits a `usize`.
/// Gives the value and the index just after the digits.
pub open spec fn spec_number_at(s: Seq<u8>, i: int) -> Option<(usize, int)> {
    let j = run_end(s, i, ByteClass::Digit);
    if j > i && decimal_value(s.subrange(i, j)) <= usize::MAX {
        Some((decimal_value(s.subrange(i, j)) as usize, j))
    } else {
        None
    }
}

pub open spec fn command_of(n: CommandName, v: usize) -> Command {
    match n {
        CommandName::Offset => Command::SetOffset(v),
        CommandName::Width => Command::SetWidth(v),
        CommandName::ScrollX => Command::ScrollX(v),
        CommandName::ScrollY => Command::ScrollY(v),
    }
}

/// The command that the whole input `s` spells, if any.
pub open spec fn spec_command(s: Seq<u8>) -> Option<Command> {
    match spec_command_name(s) {
        None => None,
        Some((n, b)) => match spec_number_at(s, run_end(s, b, ByteClass::Whitespace)) {
            None => None,
            Some((v, j)) => if run_end(s, j, ByteClass::Whitespace) == s.len() {
                Some(command_of(n, v))
            } else {
                None
            },
        },
    }
}

/// A run stays within the input, holds only bytes of its class, and stops
/// before a byte of another class.
pub proof fn lemma_run_end(s: Seq<u8>, i: int, c: ByteClass)
    requires
        0 <= i <= s.len(),
    ensures
        i <= run_end(s, i, c) <= s.len(),
        forall|k: int| i <= k < run_end(s, i, c) ==> in_class(c, #[trigger] s[k]),
        run_end(s, i, c) < s.len() ==> !in_class(c, s[run_end(s, i, c)]),
    decreases s.len() - i,
{
    if i < s.len() && in_class(c, s[i]) {
        lemma_run_end(s, i + 1, c);
    }
}

/// Appending digits never makes a number smaller.
pub proof fn lemma_decimal_value_grows(d: Seq<u8>, k: int)
    requires
        0 <= k <= d.len(),
        forall|m: int| 0 <= m < d.len() ==> in_class(ByteClass::Digit, #[trigger] d[m]),
    ensures
        decimal_value(d.subrange(0, k)) <= decimal_value(d),
    decreases d.len() - k,
{
    if k < d.len() {
        let e = d.subrange(0, k + 1);
        assert(e.drop_last() =~= d.subrange(0, k));
        lemma_decimal_value_grows(d, k + 1);
    } else {
        assert(d.subrange(0, k) =~= d);
    }
}

fn class_contains(c: ByteClass, b: u8) -> (r: bool)
    ensures
        r == in_class(c, b),
{
    match c {
        ByteClass::Whitespace => {
            b == ' ' as u8 || b == '\t' as u8 || b == '\r' as u8 || b == '\n' as u8
        },
        ByteClass::Letter => {
            ('a' as u8 <= b && b <= 'z' as u8) || ('A' as u8 <= b && b <= 'Z' as u8)
        },
        ByteClass::Digit => '0' as u8 <= b && b <= '9' as u8,
    }
}

fn skip_class(s: &[u8], i: usize, c: ByteClass) -> (j: usize)
    requires
        i <= s@.len(),
    ensures
        j == run_end(s@, i as int, c),
{
    let mut j = i;
    while j < s.len() && class_contains(c, s[j])
        invariant
            i <= j <= s@.len(),
            run_end(s@, j as int, c) == run_end(s@, i as int, c),
        decreases s@.len() - j,
    {
        j = j + 1;
    }
    j
}

/// Whether `s[start..end]` equals `word`.
fn word_is(s: &[u8], start: usize, end: usize, word: &[u8]) -> (r: bool)
    requires
        start <= end <= s@.len(),
    ensures
        r == (s@.subrange(start as int, end as int) == word@),
{
    if end - start != word.len() {
        return false;
    }
    let mut k: usize = 0;
    while k < word.len()
        invariant
            start <= end <= s@.len(),
            end - start == word@.len(),
            k <= word@.len(),
            forall|m: int| 0 <= m < k ==> s@[start + m] == word@[m],
        decreases word@.len() - k,
    {
        if s[start + k] != word[k] {
            assert(s@.subrange(start as int, end as int)[k as int] != word@[k as int]);
            return false;
        }
        k = k + 1;
    }
    assert(s@.subrange(start as int, end as int) =~= word@);
    true
}

fn name_of_range(s: &[u8], start: usize, end: usize) -> (r: Option<CommandName>)
    requires
        start <= end <= s@.len(),
    ensures
        r == name_of_word(s@.subrange(start as int, end as int)),
{
    let o = ['o' as u8];
    let offset = ['o' as u8, 'f' as u8, 'f' as u8, 's' as u8, 'e' as u8, 't' as u8];
    let w = ['w' as u8];
    let width = ['w' as u8, 'i' as u8, 'd' as u8, 't' as u8, 'h' as u8];
    let x = ['x' as u8];
    let scrollx = ['s' as u8, 'c' as u8, 'r' as u8, 'o' as u8, 'l' as u8, 'l' as u8, 'x' as u8];
    let y = ['y' as u8];
    let scrolly = ['s' as u8, 'c' as u8, 'r' as u8, 'o' as u8, 'l' as u8, 'l' as u8, 'y' as u8];
    assert(o@ =~= ascii(seq!['o']));
    assert(offset@ =~= ascii(seq!['o', 'f', 'f', 's', 'e', 't']));
    assert(w@ =~= ascii(seq!['w']));
    assert(width@ =~= ascii(seq!['w', 'i', 'd', 't', 'h']));
    assert(x@ =~= ascii(seq!['x']));
    assert(scrollx@ =~= ascii(seq!['s', 'c', 'r', 'o', 'l', 'l', 'x']));
    assert(y@ =~= ascii(seq!['y']));
    assert(scrolly@ =~= ascii(seq!['s', 'c', 'r', 'o', 'l', 'l', 'y']));
    if word_is(s, start, end, &o) || word_is(s, start, end, &offset) {
        Some(CommandName::Offset)
    } else if word_is(s, start, end, &w) || word_is(s, start, end, &width) {
        Some(CommandName::Width)
    } else if word_is(s, start, end, &x) || word_is(s, start, end, &scrollx) {
        Some(CommandName::ScrollX)
    } else if word_is(s, start, end, &y) || word_is(s, start, end, &scrolly) {
        Some(CommandName::ScrollY)
    } else {
        None
    }
}

/// Reads a run of digits starting exactly at `start`.
/// Gives the value and the index just after the digits.
fn number_at(s: &[u8], start: usize) -> (r: Result<(usize, usize), CommandParseError>)
    requires
        start <= s@.len(),
    ensures
        match spec_number_at(s@, start as int) {
            Some((v, j)) => r == Ok::<(usize, usize), CommandParseError>((v, j as usize)),
            None => r == Err::<(usize, usize), CommandParseError>(CommandParseError),
        },
{
    let end = skip_class(s, start, ByteClass::Digit);
    proof {
        lemma_run_end(s@, start as int, ByteClass::Digit);
    }
    if end == start {
        return Err(CommandParseError);
    }
    let ghost digits = s@.subrange(start as int, end as int);
    let mut value: usize = 0;
    let mut k = start;
    while k < end
        invariant
            start <= k <= end <= s@.len(),
            digits == s@.subrange(start as int, end as int),
            forall|m: int| start <= m < end ==> in_class(ByteClass::Digit, #[trigger] s@[m]),
            end == run_end(s@, start as int, ByteClass::Digit),
            value == decimal_value(s@.subrange(start as int, k as int)),
        decreases end - k,
    {
        let d = (s[k] - 48) as usize;
        let ghost next = s@.subrange(start as int, k + 1);
        assert(next.drop_last() =~= s@.subrange(start as int, k as int));
        assert(next =~= digits.subrange(0, k + 1 - start));
        if value > (usize::MAX - d) / 10 {
            proof {
                assert(decimal_value(next) > usize::MAX) by (nonlinear_arith)
                    requires
                        decimal_value(next) == value * 10 + d,
                        value > (usize::MAX - d) / 10,
                        d <= 9,
                ;
                lemma_decimal_value_grows(digits, k + 1 - start);
            }
            return Err(CommandParseError);
        }
        assert(value * 10 + d <= usize::MAX) by (nonlinear_arith)
            requires
                value <= (usize::MAX - d) / 10,
                d <= 9,
        ;
        value = value * 10 + d;
        k = k + 1;
    }
    Ok((value, end))
}

/// Reads a decimal number at the start of `input`.
/// Gives the value and the number of bytes read.
pub fn usize_digit(input: &[u8]) -> (r: Result<(usize, usize), CommandParseError>)
    ensures
        match spec_number_at(input@, 0) {
            Some((v, j)) => r == Ok::<(usize, usize), CommandParseError>((v, j as usize)),
            None => r == Err::<(usize, usize), CommandParseError>(CommandParseError),
        },
{
    number_at(input, 0)
}

/// Reads the command name at the start of `input`, after any whitespace.
/// Gives the name and the number of bytes read.
pub fn command_name(input: &[u8]) -> (r: Result<(CommandName, usize), CommandParseError>)
    ensures
        match spec_command_name(input@) {
            Some((n, b)) => r == Ok::<(CommandName, usize), CommandParseError>((n, b as usize)),
            None => r == Err::<(CommandName, usize), CommandParseError>(CommandParseError),
        },
{
    let a = skip_class(input, 0, ByteClass::Whitespace);
    proof {
        lemma_run_end(input@, 0, ByteClass::Whitespace);
        lemma_run_end(input@, a as int, ByteClass::Letter);
    }
    let b = skip_class(input, a, ByteClass::Letter);
    match name_of_range(input, a, b) {
        Some(n) => Ok((n, b)),
        None => Err(CommandParseError),
    }
}

fn command_for(n: CommandName, v: usize) -> (c: Command)
    ensures
        c == command_of(n, v),
{
    match n {
        CommandName::Offset => Command::SetOffset(v),
        CommandName::Width => Command::SetWidth(v),
        CommandName::ScrollX => Command::ScrollX(v),
        CommandName::ScrollY => Command::ScrollY(v),
    }
}

/// Parses a whole command line given as bytes.
pub fn command(input: &[u8]) -> (r: Result<Command, CommandParseError>)
    ensures
        match spec_command(input@) {
            Some(c) => r == Ok::<Command, CommandParseError>(c),
            None => r == Err::<Command, CommandParseError>(CommandParseError),
        },
{
    let len = input.len();
    let (n, b) = match command_name(input) {
        Ok(found) => found,
        Err(e) => return Err(e),
    };
    proof {
        lemma_run_end(input@, 0, ByteClass::Whitespace);
        lemma_run_end(input@, run_end(input@, 0, ByteClass::Whitespace), ByteClass::Letter);
        lemma_run_end(input@, b as int, ByteClass::Whitespace);
    }
    let k = skip_class(input, b, ByteClass::Whitespace);
    let (v, j) = match number_at(input, k) {
        Ok(found) => found,
        Err(e) => return Err(e),
    };
    proof {
        lemma_run_end(input@, k as int, ByteClass::Digit);
        lemma_run_end(input@, j as int, ByteClass::Whitespace);
    }
    let end = skip_class(input, j, ByteClass::Whitespace);
    if end == len {
        Ok(command_for(n, v))
    } else {
        Err(CommandParseError)
    }
}

/// Parses a command line.
pub fn parse_command(s: &str) -> (r: Result<Command, CommandParseError>)
    ensures
        match spec_command(encode_utf8(s@)) {
            Some(c) => r == Ok::<Command, CommandParseError>(c),
            None => r == Err::<Command, CommandParseError>(CommandParseError),
        },
{
    command(s.as_bytes())
}

} // verus!
