//! The line-oriented command protocol of the debug controller.
use vstd::prelude::*;

use vstd::string::StrSliceExecFns;

verus! {

/// A line of the debugger's command protocol, parsed.
#[derive(Clone, Copy, Debug, PartialEq, Eq, Structural)]
pub enum Command {
    /// `s [n]`: run `n` instructions (1 when `n` is missing or malformed).
    Step(u32),
    /// `c`: run until a breakpoint is reached.
    Continue,
    /// `b <hex-addr>`: add a breakpoint.
    AddBreakpoint(u16),
    /// `d <hex-addr>`: delete a breakpoint.
    DeleteBreakpoint(u16),
    /// `l`: list the breakpoints.
    ListBreakpoints,
    /// `p`: print the program counter, index, registers and stack.
    Print,
    /// `x <hex-addr>`: disassemble the instruction at an address.
    Examine(u16),
    /// `h`: show the help text.
    Help,
    /// `q`: stop the session.
    Quit,
    /// A line with nothing but white space.
    Empty,
    /// A line whose first character names no command.
    Unknown,
    /// `b`, `d` or `x` with an argument that is not a 16-bit hexadecimal number.
    InvalidAddress,
}

/// Whether `c` has the Unicode White_Space property.
pub open spec fn is_white(c: char) -> bool {
    let u = c as u32;
    (0x9 <= u <= 0xD) || u == 0x20 || u == 0x85 || u == 0xA0 || u == 0x1680 || (0x2000 <= u
        <= 0x200A) || u == 0x2028 || u == 0x2029 || u == 0x202F || u == 0x205F || u == 0x3000
}

/// `s` without its leading white space.
pub open spec fn trim_start(s: Seq<char>) -> Seq<char>
    decreases s.len(),
{
    if s.len() > 0 && is_white(s[0]) {
        trim_start(s.drop_first())
    } else {
        s
    }
}

/// `s` without its trailing white space.
pub open spec fn trim_end(s: Seq<char>) -> Seq<char>
    decreases s.len(),
{
    if s.len() > 0 && is_white(s.last()) {
        trim_end(s.drop_last())
    } else {
        s
    }
}

/// `s` without leading and trailing white space.
pub open spec fn trim(s: Seq<char>) -> Seq<char> {
    trim_end(trim_start(s))
}

/// Value of `c` as a digit in bases up to 36 (36 where it is none).
pub open spec fn digit_value(c: char) -> int {
    let u = c as u32;
    if '0' as u32 <= u <= '9' as u32 {
        u - '0' as u32
    } else if 'a' as u32 <= u <= 'z' as u32 {
        u - 'a' as u32 + 10
    } else if 'A' as u32 <= u <= 'Z' as u32 {
        u - 'A' as u32 + 10
    } else {
        36
    }
}

/// Value of the digit string `s` in base `radix`.
pub open spec fn digits_value(s: Seq<char>, radix: int) -> int
    decreases s.len(),
{
    if s.len() == 0 {
        0
    } else {
        digits_value(s.drop_last(), radix) * radix + digit_value(s.last())
    }
}

/// `s` without one leading `+`, if it has one.
pub open spec fn unsigned_digits(s: Seq<char>) -> Seq<char> {
    if s.len() > 0 && s[0] == '+' {
        s.drop_first()
    } else {
        s
    }
}

/// Whether every character of `d` is a digit in base `radix`.
pub open spec fn all_digits(d: Seq<char>, radix: int) -> bool {
    forall|i: int| 0 <= i < d.len() ==> digit_value(#[trigger] d[i]) < radix
}

/// The number that `s` writes in base `radix`, optionally after a `+`, if
/// it has at least one digit, only digits, and is at most `max`.
pub open spec fn parse_number(s: Seq<char>, radix: int, max: int) -> Option<u32> {
    let d = unsigned_digits(s);
    if d.len() == 0 || !all_digits(d, radix) || digits_value(d, radix) > max {
        None
    } else {
        Some(digits_value(d, radix) as u32)
    }
}

/// The command that `line` holds: its first character after trimming picks
/// the command, the trimmed rest is its argument.
pub open spec fn command_of(line: Seq<char>) -> Command {
    let t = trim(line);
    if t.len() == 0 {
        Command::Empty
    } else {
        let rest = trim(t.drop_first());
        let addr = parse_number(rest, 16, 0xFFFF);
        let c = t[0];
        if c == 's' {
            Command::Step(
                match parse_number(rest, 10, 0xFFFF_FFFF) {
                    Some(n) => n,
                    None => 1,
                },
            )
        } else if c == 'c' {
            Command::Continue
        } else if c == 'b' {
            match addr {
                Some(a) => Command::AddBreakpoint(a as u16),
                None => Command::InvalidAddress,
            }
        } else if c == 'd' {
            match addr {
                Some(a) => Command::DeleteBreakpoint(a as u16),
                None => Command::InvalidAddress,
            }
        } else if c == 'l' {
            Command::ListBreakpoints
        } else if c == 'p' {
            Command::Print
        } else if c == 'x' {
            match addr {
                Some(a) => Command::Examine(a as u16),
                None => Command::InvalidAddress,
            }
        } else if c == 'h' {
            Command::Help
        } else if c == 'q' {
            Command::Quit
        } else {
            Command::Unknown
        }
    }
}

/// Whether `c` has the Unicode White_Space property.
pub fn white(c: char) -> (r: bool)
    ensures
        r == is_white(c),
{
    let u = c as u32;
    (0x9 <= u && u <= 0xD) || u == 0x20 || u == 0x85 || u == 0xA0 || u == 0x1680 || (0x2000 <= u
        && u <= 0x200A) || u == 0x2028 || u == 0x2029 || u == 0x202F || u == 0x205F || u == 0x3000
}

/// Bounds of the trimmed part of `s[lo..hi]`.
fn trim_bounds(s: &Vec<char>, lo: usize, hi: usize) -> (r: (usize, usize))
    requires
        lo <= hi <= s@.len(),
    ensures
        lo <= r.0 <= r.1 <= hi,
        s@.subrange(r.0 as int, r.1 as int) == trim(s@.subrange(lo as int, hi as int)),
{
    let mut a = lo;
    while a < hi && white(s[a])
        invariant
            lo <= a <= hi <= s@.len(),
            trim_start(s@.subrange(lo as int, hi as int)) == trim_start(
                s@.subrange(a as int, hi as int),
            ),
        decreases hi - a,
    {
        assert(s@.subrange(a as int, hi as int).drop_first() =~= s@.subrange(
            a + 1,
            hi as int,
        ));
        a = a + 1;
    }
    assert(trim_start(s@.subrange(a as int, hi as int)) == s@.subrange(a as int, hi as int));
    let mut b = hi;
    while b > a && white(s[b - 1])
        invariant
            lo <= a <= b <= hi <= s@.len(),
            trim(s@.subrange(lo as int, hi as int)) == trim_end(s@.subrange(a as int, b as int)),
        decreases b - a,
    {
        assert(s@.subrange(a as int, b as int).drop_last() =~= s@.subrange(
            a as int,
            b - 1,
        ));
        b = b - 1;
    }
    (a, b)
}

/// The digit value of `c`, as `digit_value` gives it.
fn digit(c: char) -> (r: u32)
    ensures
        r == digit_value(c),
{
    let u = c as u32;
    if '0' as u32 <= u && u <= '9' as u32 {
        u - '0' as u32
    } else if 'a' as u32 <= u && u <= 'z' as u32 {
        u - 'a' as u32 + 10
    } else if 'A' as u32 <= u && u <= 'Z' as u32 {
        u - 'A' as u32 + 10
    } else {
        36
    }
}

/// Parses `s[lo..hi]` as `parse_number` says.
fn parse_range(s: &Vec<char>, lo: usize, hi: usize, radix: u32, max: u32) -> (r: Option<u32>)
    requires
        lo <= hi <= s@.len(),
        2 <= radix <= 16,
    ensures
        r == parse_number(s@.subrange(lo as int, hi as int), radix as int, max as int),
{
    let ghost full = s@.subrange(lo as int, hi as int);
    let mut start = lo;
    if lo < hi && s[lo] == '+' {
        start = lo + 1;
    }
    let ghost d = s@.subrange(start as int, hi as int);
    assert(d =~= unsigned_digits(full));
    if start == hi {
        return None;
    }
    let mut acc: u64 = 0;
    let mut over = false;
    let mut i = start;
    while i < hi
        invariant
            lo <= start <= i <= hi <= s@.len(),
            2 <= radix <= 16,
            d == s@.subrange(start as int, hi as int),
            full == s@.subrange(lo as int, hi as int),
            d == unsigned_digits(full),
            forall|j: int| start <= j < i ==> digit_value(#[trigger] s@[j]) < radix,
            !over ==> acc == digits_value(s@.subrange(start as int, i as int), radix as int),
            !over ==> acc <= max,
            over ==> digits_value(s@.subrange(start as int, i as int), radix as int) > max,
        decreases hi - i,
    {
        let v = digit(s[i]);
        if v >= radix {
            assert(d[i - start] == s@[i as int]);
            assert(digit_value(d[i - start]) >= radix);
            assert(!all_digits(d, radix as int));
            return None;
        }
        let ghost prev = digits_value(s@.subrange(start as int, i as int), radix as int);
        assert(s@.subrange(start as int, i + 1).drop_last() =~= s@.subrange(
            start as int,
            i as int,
        ));
        assert(digits_value(s@.subrange(start as int, i + 1), radix as int) == prev * radix
            + v);
        if !over {
            assert(acc * radix + v <= 0xFFFF_FFFFu64 * 16 + 15) by (nonlinear_arith)
                requires
                    acc <= 0xFFFF_FFFFu64,
                    radix <= 16,
                    v < 16,
            ;
            let next = acc * (radix as u64) + v as u64;
            if next > max as u64 {
                over = true;
            } else {
                acc = next;
            }
        } else {
            assert(prev * radix + v >= prev) by (nonlinear_arith)
                requires
                    prev >= 0,
                    radix >= 2,
                    v >= 0,
            ;
        }
        i = i + 1;
    }
    assert(s@.subrange(start as int, hi as int) == d);
    assert forall|j: int| 0 <= j < d.len() implies digit_value(#[trigger] d[j]) < radix by {
        assert(d[j] == s@[start + j]);
    }
    assert(all_digits(d, radix as int));
    if over {
        None
    } else {
        Some(acc as u32)
    }
}

/// Parses one line of the debugger's command protocol.
pub fn parse_command(line: &str) -> (r: Command)
    ensures
        r == command_of(line@),
{
    let len = line.unicode_len();
    let mut chars: Vec<char> = Vec::new();
    let mut i: usize = 0;
    while i < len
        invariant
            i <= len == line@.len(),
            chars@ == line@.subrange(0, i as int),
        decreases len - i,
    {
        chars.push(line.get_char(i));
        i = i + 1;
        assert(chars@ =~= line@.subrange(0, i as int));
    }
    assert(chars@ =~= line@.subrange(0, len as int));
    assert(line@ =~= line@.subrange(0, len as int));
    let (lo, hi) = trim_bounds(&chars, 0, len);
    if lo == hi {
        return Command::Empty;
    }
    assert(trim(line@).drop_first() =~= chars@.subrange(lo + 1, hi as int));
    let (alo, ahi) = trim_bounds(&chars, lo + 1, hi);
    let c = chars[lo];
    if c == 's' {
        let n = match parse_range(&chars, alo, ahi, 10, 0xFFFF_FFFF) {
            Some(n) => n,
            None => 1,
        };
        Command::Step(n)
    } else if c == 'c' {
        Command::Continue
    } else if c == 'b' {
        match parse_range(&chars, alo, ahi, 16, 0xFFFF) {
            Some(a) => Command::AddBreakpoint(a as u16),
            None => Command::InvalidAddress,
        }
    } else if c == 'd' {
        match parse_range(&chars, alo, ahi, 16, 0xFFFF) {
            Some(a) => Command::DeleteBreakpoint(a as u16),
            None => Command::InvalidAddress,
        }
    } else if c == 'l' {
        Command::ListBreakpoints
    } else if c == 'p' {
        Command::Print
    } else if c == 'x' {
        match parse_range(&chars, alo, ahi, 16, 0xFFFF) {
            Some(a) => Command::Examine(a as u16),
            None => Command::InvalidAddress,
        }
    } else if c == 'h' {
        Command::Help
    } else if c == 'q' {
        Command::Quit
    } else {
        Command::Unknown
    }
}

} // verus!
