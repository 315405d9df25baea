//! Symbolic positions within a file and the direction of traversal, together
//! with the total conversions that canonicalize raw caller input.
//!
//! A position is the first line (`Start`), a 1-indexed line number
//! (`Middle`), or the last line (`End`). Conversions never fail: text that
//! parses as a non-negative integer becomes `Middle`, the token `end` becomes
//! `End`, and anything else (absent input included) falls back to the default.

use vstd::prelude::*;
use vstd::string::{StrSliceExecFns, StringExecFns};

verus! {

/// Where extraction starts (or stops, when used as a bound).
#[derive(Debug, Clone, Copy, PartialEq, Eq, Structural)]
pub enum Position {
    Start,
    Middle(usize),
    End,
}

/// Which way the file is traversed from the starting position.
#[derive(Debug, Clone, Copy, PartialEq, Eq, Structural)]
pub enum Direction {
    Forward,
    Backward,
}

/// A decimal digit, `'0'` through `'9'`.
pub open spec fn is_digit(c: char) -> bool {
    '0' as u32 <= c as u32 && c as u32 <= '9' as u32
}

/// The numeric value of a decimal digit.
pub open spec fn digit_value(c: char) -> int {
    c as u32 - '0' as u32
}

/// Every character of the sequence is a decimal digit.
pub open spec fn digit_seq(s: Seq<char>) -> bool {
    forall|i: int| 0 <= i < s.len() ==> is_digit(#[trigger] s[i])
}

/// The value of a sequence of decimal digits, most significant first.
pub open spec fn digits_value(s: Seq<char>) -> int
    decreases s.len(),
{
    if s.len() == 0 {
        0
    } else {
        digits_value(s.drop_last()) * 10 + digit_value(s.last())
    }
}

/// The digits of a numeral: the text with one optional leading plus sign
/// removed.
pub open spec fn numeral_part(s: Seq<char>) -> Seq<char> {
    if s.len() > 0 && s[0] == '+' {
        s.subrange(1, s.len() as int)
    } else {
        s
    }
}

/// The text denotes a non-negative integer that fits in `usize`: at least
/// one digit after the optional sign, digits only, value within range.
pub open spec fn is_usize_numeral(s: Seq<char>) -> bool {
    let d = numeral_part(s);
    d.len() > 0 && digit_seq(d) && digits_value(d) <= usize::MAX
}

/// The canonical position a piece of raw text denotes.
pub open spec fn position_of_text(s: Seq<char>) -> Position {
    if is_usize_numeral(s) {
        Position::Middle(digits_value(numeral_part(s)) as usize)
    } else if s == "end"@ {
        Position::End
    } else {
        Position::Start
    }
}

/// The canonical direction a piece of raw text denotes.
pub open spec fn direction_of_text(s: Seq<char>) -> Direction {
    if s == "backward"@ {
        Direction::Backward
    } else {
        Direction::Forward
    }
}

/// The value of a digit sequence is never negative.
pub proof fn lemma_digits_value_nonneg(d: Seq<char>)
    requires
        digit_seq(d),
    ensures
        digits_value(d) >= 0,
    decreases d.len(),
{
    if d.len() > 0 {
        assert(digit_seq(d.drop_last())) by {
            assert(forall|i: int|
                0 <= i < d.len() - 1 ==> #[trigger] d.drop_last()[i] == d[i]);
        }
        lemma_digits_value_nonneg(d.drop_last());
    }
}

/// Extending a digit sequence on the right never lowers its value: the value
/// of any prefix is at most the value of the whole.
pub proof fn lemma_digits_value_prefix_le(d: Seq<char>, i: int)
    requires
        digit_seq(d),
        0 <= i <= d.len(),
    ensures
        digits_value(d.subrange(0, i)) <= digits_value(d),
    decreases d.len() - i,
{
    if i == d.len() {
        assert(d.subrange(0, i) =~= d);
    } else {
        let shorter = d.subrange(0, i);
        let longer = d.subrange(0, i + 1);
        assert(longer.drop_last() =~= shorter);
        assert(digit_seq(shorter)) by {
            assert(forall|j: int| 0 <= j < i ==> #[trigger] shorter[j] == d[j]);
        }
        lemma_digits_value_nonneg(shorter);
        assert(digits_value(longer) == digits_value(shorter) * 10 + digit_value(d[i]));
        lemma_digits_value_prefix_le(d, i + 1);
    }
}

/// Parses a non-negative decimal integer, exactly when the text is a numeral
/// whose value fits in `usize`; overflow and any stray character reject the
/// whole text.
pub fn parse_usize(s: &str) -> (r: Option<usize>)
    ensures
        is_usize_numeral(s@) ==> r == Some(digits_value(numeral_part(s@)) as usize),
        !is_usize_numeral(s@) ==> r is None,
{
    let n: usize = s.unicode_len();
    let mut start: usize = 0;
    if n > 0 && s.get_char(0) == '+' {
        start = 1;
    }
    let ghost d = s@.subrange(start as int, n as int);
    proof {
        assert(numeral_part(s@) =~= d);
    }
    if start == n {
        return None;
    }
    let zero: u32 = '0' as u32;
    let nine: u32 = '9' as u32;
    let mut acc: usize = 0;
    let mut i: usize = start;
    while i < n
        invariant
            start <= i <= n,
            n == s@.len(),
            d == s@.subrange(start as int, n as int),
            numeral_part(s@) == d,
            digit_seq(d.subrange(0, i - start)),
            acc == digits_value(d.subrange(0, i - start)),
            zero == '0' as u32,
            nine == '9' as u32,
        decreases n - i,
    {
        let c = s.get_char(i);
        let v: u32 = c as u32;
        proof {
            assert(d[i - start] == s@[i as int]);
        }
        if v < zero || v > nine {
            proof {
                assert(!is_digit(d[i - start]));
            }
            return None;
        }
        let digit: usize = (v - zero) as usize;
        let ghost next_prefix = d.subrange(0, i + 1 - start);
        proof {
            assert(next_prefix.drop_last() =~= d.subrange(0, i - start));
            assert(next_prefix.last() == d[i - start]);
            assert(digits_value(next_prefix) == acc * 10 + digit);
        }
        let stepped = match acc.checked_mul(10) {
            Some(m) => m.checked_add(digit),
            None => None,
        };
        match stepped {
            Some(a) => {
                acc = a;
                i = i + 1;
            },
            None => {
                proof {
                    assert(digits_value(next_prefix) > usize::MAX);
                    if is_usize_numeral(s@) {
                        lemma_digits_value_prefix_le(d, i + 1 - start);
                    }
                }
                return None;
            },
        }
    }
    proof {
        assert(d.subrange(0, n - start) =~= d);
        lemma_digits_value_nonneg(d);
    }
    Some(acc)
}

impl Position {
    /// The position a line number denotes.
    pub open spec fn spec_from_number(n: usize) -> Position {
        Position::Middle(n)
    }
}

impl From<usize> for Position {
    fn from(value: usize) -> Self {
        Position::Middle(value)
    }
}

impl vstd::std_specs::convert::FromSpecImpl<usize> for Position {
    open spec fn obeys_from_spec() -> bool {
        true
    }

    open spec fn from_spec(v: usize) -> Position {
        Position::Middle(v)
    }
}

impl From<String> for Position {
    fn from(value: String) -> Self {
        match parse_usize(value.as_str()) {
            Some(num) => Position::Middle(num),
            None => {
                if value == String::from_str("end") {
                    Position::End
                } else {
                    Position::Start
                }
            },
        }
    }
}

impl vstd::std_specs::convert::FromSpecImpl<String> for Position {
    open spec fn obeys_from_spec() -> bool {
        true
    }

    open spec fn from_spec(v: String) -> Position {
        position_of_text(v@)
    }
}

impl From<&str> for Position {
    fn from(value: &str) -> Self {
        Position::from(value.to_owned())
    }
}

impl vstd::std_specs::convert::FromSpecImpl<&str> for Position {
    open spec fn obeys_from_spec() -> bool {
        true
    }

    open spec fn from_spec(v: &str) -> Position {
        position_of_text(v@)
    }
}

impl From<Option<String>> for Position {
    fn from(value: Option<String>) -> Self {
        match value {
            Some(pos) => Position::from(pos),
            None => Position::Start,
        }
    }
}

impl vstd::std_specs::convert::FromSpecImpl<Option<String>> for Position {
    open spec fn obeys_from_spec() -> bool {
        true
    }

    open spec fn from_spec(v: Option<String>) -> Position {
        match v {
            Some(pos) => position_of_text(pos@),
            None => Position::Start,
        }
    }
}

impl Default for Position {
    /// Absent or unrecognized input stands for the first line.
    fn default() -> (r: Self)
        ensures
            r == Position::Start,
    {
        Position::Start
    }
}

impl From<String> for Direction {
    fn from(value: String) -> Self {
        if value == String::from_str("backward") {
            Direction::Backward
        } else {
            Direction::Forward
        }
    }
}

impl vstd::std_specs::convert::FromSpecImpl<String> for Direction {
    open spec fn obeys_from_spec() -> bool {
        true
    }

    open spec fn from_spec(v: String) -> Direction {
        direction_of_text(v@)
    }
}

impl From<&str> for Direction {
    fn from(value: &str) -> Self {
        Direction::from(value.to_owned())
    }
}

impl vstd::std_specs::convert::FromSpecImpl<&str> for Direction {
    open spec fn obeys_from_spec() -> bool {
        true
    }

    open spec fn from_spec(v: &str) -> Direction {
        direction_of_text(v@)
    }
}

impl From<Option<String>> for Direction {
    fn from(value: Option<String>) -> Self {
        match value {
            Some(dir) => Direction::from(dir),
            None => Direction::Forward,
        }
    }
}

impl vstd::std_specs::convert::FromSpecImpl<Option<String>> for Direction {
    open spec fn obeys_from_spec() -> bool {
        true
    }

    open spec fn from_spec(v: Option<String>) -> Direction {
        match v {
            Some(dir) => direction_of_text(dir@),
            None => Direction::Forward,
        }
    }
}

impl Default for Direction {
    /// Absent or unrecognized input stands for forward traversal.
    fn default() -> (r: Self)
        ensures
            r == Direction::Forward,
    {
        Direction::Forward
    }
}

} // verus!
