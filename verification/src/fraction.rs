//! A bound on the fractions that a text may hold and still be parsed.
//!
//! The JSON parser keeps the exponent of a number in 16 bits.  While it
//! reads a fraction it lowers the exponent by one for each zero that comes
//! before the first digit it keeps, and by one for each digit it keeps, and
//! it does not test for overflow.  It keeps no more than
//! [`MAX_MANTISSA_DIGITS`] digits, so only a number whose integer part is
//! `0` and whose fraction begins with a very long run of zeros can take the
//! exponent out of its range.  A text is handed to the parser only where no
//! number in it can do so.
//!
//! Digits inside a JSON string are no number, and do not count.

use vstd::prelude::*;
use vstd::string::StrSliceExecFns;

verus! {

/// How often a 16-bit exponent can be lowered by one, starting from 0.
pub const MAX_EXPONENT_STEPS: usize = 32768;

/// The most digits that a 64-bit mantissa can hold.
pub const MAX_MANTISSA_DIGITS: usize = 20;

/// Where a prefix of a text leaves a reader of JSON strings.
#[derive(Clone, Copy, Debug, PartialEq, Eq)]
pub enum Lex {
    /// Outside of any string.
    Outside,
    /// Inside a string.
    Inside,
    /// Inside a string, just after a backslash.
    Escaped,
}

/// Where the first `n` characters of `text` leave a reader of JSON strings:
/// a `"` opens a string, the next `"` that no backslash stands before
/// closes it.
pub open spec fn lex_after(text: Seq<char>, n: int) -> Lex
    decreases n,
{
    if 0 < n <= text.len() {
        match lex_after(text, n - 1) {
            Lex::Outside => if text[n - 1] == '"' {
                Lex::Inside
            } else {
                Lex::Outside
            },
            Lex::Inside => if text[n - 1] == '"' {
                Lex::Outside
            } else if text[n - 1] == '\\' {
                Lex::Escaped
            } else {
                Lex::Inside
            },
            Lex::Escaped => Lex::Inside,
        }
    } else {
        Lex::Outside
    }
}

/// Whether `c` is one of the ten ASCII digits.
pub open spec fn is_digit(c: char) -> bool {
    '0' <= c && c <= '9'
}

/// The length of the run of digits that ends just before position `end`.
pub open spec fn digit_run(text: Seq<char>, end: int) -> nat
    decreases end,
{
    if 0 < end <= text.len() && is_digit(text[end - 1]) {
        1 + digit_run(text, end - 1)
    } else {
        0
    }
}

/// The number of zeros with which the run of digits that ends just before
/// position `end` begins.
pub open spec fn zero_run(text: Seq<char>, end: int) -> nat
    decreases end,
{
    if 0 < end <= text.len() && is_digit(text[end - 1]) {
        if text[end - 1] == '0' && zero_run(text, end - 1) == digit_run(text, end - 1) {
            1 + zero_run(text, end - 1)
        } else {
            zero_run(text, end - 1)
        }
    } else {
        0
    }
}

/// Whether the character just before position `pos` is a `0` that stands
/// outside of any string and has no digit before it: the whole integer part
/// of a number, if it is part of a number at all.
pub open spec fn lone_zero_before(text: Seq<char>, pos: int) -> bool {
    &&& 1 <= pos <= text.len()
    &&& text[pos - 1] == '0'
    &&& digit_run(text, pos - 1) == 0
    &&& lex_after(text, pos - 1) is Outside
}

/// Whether the digits from position `start` on are the fraction of a number
/// whose integer part is `0`: whether `0.` stands just before them, outside
/// of any string.
pub open spec fn fraction_of_zero(text: Seq<char>, start: int) -> bool {
    &&& 2 <= start <= text.len()
    &&& text[start - 1] == '.'
    &&& lone_zero_before(text, start - 1)
}

/// How often, at most, the exponent has been lowered when the digits of a
/// fraction have been read up to position `end`: once for each digit, but
/// for no more digits than the mantissa holds after the zeros that the
/// fraction begins with.
pub open spec fn exponent_steps(text: Seq<char>, end: int) -> int {
    if digit_run(text, end) <= zero_run(text, end) + MAX_MANTISSA_DIGITS {
        digit_run(text, end) as int
    } else {
        zero_run(text, end) + MAX_MANTISSA_DIGITS
    }
}

/// Whether the digits that end just before position `end` are those of a
/// fraction that may take the exponent out of its range.
pub open spec fn overflows_at(text: Seq<char>, end: int) -> bool {
    &&& fraction_of_zero(text, end - digit_run(text, end))
    &&& exponent_steps(text, end) > MAX_EXPONENT_STEPS
}

/// Whether no fraction in `text` may take the exponent out of its range.
pub open spec fn fractions_bounded(text: Seq<char>) -> bool {
    forall|end: int| 0 <= end <= text.len() ==> !#[trigger] overflows_at(text, end)
}

/// Where a reader of JSON strings stands after `c`, when it stood at `lex`
/// before.
fn lex_step(lex: Lex, c: char) -> (next: Lex)
    ensures
        next == match lex {
            Lex::Outside => if c == '"' {
                Lex::Inside
            } else {
                Lex::Outside
            },
            Lex::Inside => if c == '"' {
                Lex::Outside
            } else if c == '\\' {
                Lex::Escaped
            } else {
                Lex::Inside
            },
            Lex::Escaped => Lex::Inside,
        },
{
    match lex {
        Lex::Outside => if c == '"' {
            Lex::Inside
        } else {
            Lex::Outside
        },
        Lex::Inside => if c == '"' {
            Lex::Outside
        } else if c == '\\' {
            Lex::Escaped
        } else {
            Lex::Inside
        },
        Lex::Escaped => Lex::Inside,
    }
}

/// Tests in one pass whether no fraction in `text` may take the exponent
/// out of its range.
pub fn has_bounded_fractions(text: &str) -> (bounded: bool)
    ensures
        bounded == fractions_bounded(text@),
{
    let total: usize = text.unicode_len();
    let mut lex = Lex::Outside;
    let mut run: usize = 0;
    let mut zeros: usize = 0;
    let mut lone_zero = false;
    let mut fraction = false;
    for c in it: text.chars()
        invariant
            it.seq() == text@,
            total == text@.len(),
            0 <= it.index() <= total,
            lex == lex_after(text@, it.index()),
            run == digit_run(text@, it.index()),
            zeros == zero_run(text@, it.index()),
            zeros <= run <= it.index(),
            lone_zero == lone_zero_before(text@, it.index()),
            fraction == fraction_of_zero(text@, it.index() - run),
            forall|end: int| 0 <= end <= it.index() ==> !#[trigger] overflows_at(text@, end),
    {
        let outside = match lex {
            Lex::Outside => true,
            _ => false,
        };
        let next_lone_zero = c == '0' && run == 0 && outside;
        if '0' <= c && c <= '9' {
            if c == '0' && zeros == run {
                zeros = zeros + 1;
            }
            run = run + 1;
            if fraction && run > MAX_EXPONENT_STEPS && zeros > MAX_EXPONENT_STEPS
                - MAX_MANTISSA_DIGITS {
                assert(overflows_at(text@, it.index() + 1));
                return false;
            }
        } else {
            fraction = c == '.' && lone_zero;
            run = 0;
            zeros = 0;
        }
        lone_zero = next_lone_zero;
        lex = lex_step(lex, c);
    }
    true
}

} // verus!
