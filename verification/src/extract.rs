//! The core of the library: resolving a position to a line number and a byte
//! offset, validating the position/direction combination, and extracting the
//! matched run of lines in traversal order.

use vstd::math::{max, min};
use vstd::prelude::*;
use vstd::string::StringExecFns;
use vstd::utf8::encode_utf8;

use crate::error::Error;
use crate::position::{Direction, Position};

verus! {

/// The 1-indexed line number a starting position resolves to: the first line
/// for `Start`, the line itself for `Middle`, the last line for `End`.
pub open spec fn start_line(p: Position, total: int) -> int {
    match p {
        Position::Start => 1,
        Position::Middle(n) => n as int,
        Position::End => total,
    }
}

/// The line number a bounding position resolves to. `Start` resolves to 0
/// here, so a backward traversal bounded at `Start` runs to the first line.
pub open spec fn bound_line(p: Position, total: int) -> int {
    match p {
        Position::Start => 0,
        Position::Middle(n) => n as int,
        Position::End => total,
    }
}

/// The starting position and direction are logically incompatible: nothing
/// lies behind the first line or ahead of the last.
pub open spec fn invalid_direction(pos: Position, dir: Direction) -> bool {
    ||| (pos is Start && dir is Backward)
    ||| (pos is End && dir is Forward)
}

/// A supplied bound lies on the wrong side of the starting line for the
/// direction of travel.
pub open spec fn bound_out_of_reach(
    pos: Position,
    dir: Direction,
    max_position: Option<Position>,
    total: int,
) -> bool {
    match max_position {
        Some(m) => {
            let s = start_line(pos, total);
            let b = bound_line(m, total);
            (dir is Forward && b < s) || (dir is Backward && b > s)
        },
        None => false,
    }
}

/// The run of lines a valid configuration extracts, in traversal order:
/// ascending line numbers from the start for `Forward`, descending for
/// `Backward`, clipped to the file and to the bound. A start outside the
/// file yields nothing.
pub open spec fn extract_spec(
    lines: Seq<String>,
    pos: Position,
    dir: Direction,
    max_position: Option<Position>,
) -> Seq<String> {
    let total = lines.len() as int;
    let s = start_line(pos, total);
    match dir {
        Direction::Forward => {
            let hi = match max_position {
                Some(m) => min(total, bound_line(m, total)),
                None => total,
            };
            if 1 <= s && s <= hi {
                lines.subrange(s - 1, hi)
            } else {
                Seq::empty()
            }
        },
        Direction::Backward => {
            let lo = match max_position {
                Some(m) => max(1, bound_line(m, total)),
                None => 1,
            };
            if lo <= s && s <= total {
                lines.subrange(lo - 1, s).reverse()
            } else {
                Seq::empty()
            }
        },
    }
}

/// The error reporting an impossible starting position for the direction,
/// with the words the rendered message carries.
pub open spec fn is_invalid_direction_error(e: Error, pos: Position) -> bool {
    &&& e matches Error::InvalidDirection { pos: p, dir: d }
    &&& (pos is Start ==> p@ == "start"@ && d@ == "backwards"@)
    &&& (pos is End ==> p@ == "end"@ && d@ == "forwards"@)
}

/// The error reporting a bound on the wrong side of the start, with the
/// comparison sense the rendered message carries.
pub open spec fn is_max_position_error(e: Error, dir: Direction) -> bool {
    &&& e matches Error::MaxLinePosition { cmp, dir: d }
    &&& (dir is Forward ==> cmp@ == "less"@ && d@ == "forward"@)
    &&& (dir is Backward ==> cmp@ == "greater"@ && d@ == "backward"@)
}

/// Everything extraction promises: an invalid-direction failure for an
/// impossible start/direction pair, a max-position failure for a bound out
/// of reach (checked second), and otherwise exactly the extracted run.
pub open spec fn open_result_matches(
    r: Result<Vec<String>, Error>,
    lines: Seq<String>,
    pos: Position,
    dir: Direction,
    max_position: Option<Position>,
) -> bool {
    if invalid_direction(pos, dir) {
        r matches Err(e) && is_invalid_direction_error(e, pos)
    } else if bound_out_of_reach(pos, dir, max_position, lines.len() as int) {
        r matches Err(e) && is_max_position_error(e, dir)
    } else {
        r matches Ok(out) && out@ == extract_spec(lines, pos, dir, max_position)
    }
}

/// Rejects configurations that are logically impossible, before any line is
/// touched: first the start/direction pair, then the bound.
pub fn validate(
    position: Position,
    direction: Direction,
    max_position: Option<Position>,
    total_lines: usize,
) -> (r: Result<(), Error>)
    ensures
        invalid_direction(position, direction) ==> (r matches Err(e)
            && is_invalid_direction_error(e, position)),
        !invalid_direction(position, direction) && bound_out_of_reach(
            position,
            direction,
            max_position,
            total_lines as int,
        ) ==> (r matches Err(e) && is_max_position_error(e, direction)),
        !invalid_direction(position, direction) && !bound_out_of_reach(
            position,
            direction,
            max_position,
            total_lines as int,
        ) ==> r is Ok,
{
    if matches!(direction, Direction::Backward) && matches!(position, Position::Start) {
        return Err(
            Error::InvalidDirection {
                pos: String::from_str("start"),
                dir: String::from_str("backwards"),
            },
        );
    }
    if matches!(direction, Direction::Forward) && matches!(position, Position::End) {
        return Err(
            Error::InvalidDirection {
                pos: String::from_str("end"),
                dir: String::from_str("forwards"),
            },
        );
    }
    let position_number: usize = match position {
        Position::Start => 1,
        Position::Middle(n) => n,
        Position::End => total_lines,
    };
    if let Some(pos) = max_position {
        let max_position_number: usize = match pos {
            Position::Start => 0,
            Position::Middle(n) => n,
            Position::End => total_lines,
        };
        if matches!(direction, Direction::Forward) && max_position_number < position_number {
            return Err(
                Error::MaxLinePosition {
                    cmp: String::from_str("less"),
                    dir: String::from_str("forward"),
                },
            );
        }
        if matches!(direction, Direction::Backward) && max_position_number > position_number {
            return Err(
                Error::MaxLinePosition {
                    cmp: String::from_str("greater"),
                    dir: String::from_str("backward"),
                },
            );
        }
    }
    Ok(())
}

/// Extracts the run of lines the configuration selects from the file's
/// content, handed over as its newline-stripped lines in file order.
pub fn open_file(
    lines: &Vec<String>,
    position: Position,
    direction: Direction,
    max_position: Option<Position>,
) -> (r: Result<Vec<String>, Error>)
    ensures
        open_result_matches(r, lines@, position, direction, max_position),
{
    let total = lines.len();
    if let Err(e) = validate(position, direction, max_position, total) {
        return Err(e);
    }
    let start: usize = match position {
        Position::Start => 1,
        Position::Middle(n) => n,
        Position::End => total,
    };
    let bound: Option<usize> = match max_position {
        Some(p) => Some(
            match p {
                Position::Start => 0,
                Position::Middle(n) => n,
                Position::End => total,
            },
        ),
        None => None,
    };
    let mut out: Vec<String> = Vec::new();
    match direction {
        Direction::Forward => {
            let hi: usize = match bound {
                Some(b) => if b < total {
                    b
                } else {
                    total
                },
                None => total,
            };
            if 1 <= start && start <= hi {
                let mut i: usize = start - 1;
                while i < hi
                    invariant
                        1 <= start,
                        start - 1 <= i <= hi,
                        hi <= total,
                        total == lines@.len(),
                        out@.len() == i - (start - 1),
                        forall|j: int| 0 <= j < out@.len() ==> out@[j] == lines@[start - 1 + j],
                    decreases hi - i,
                {
                    out.push(lines[i].clone());
                    i = i + 1;
                }
                proof {
                    assert(out@ =~= lines@.subrange(start - 1, hi as int));
                }
            }
        },
        Direction::Backward => {
            let lo: usize = match bound {
                Some(b) => if b > 1 {
                    b
                } else {
                    1
                },
                None => 1,
            };
            if lo <= start && start <= total {
                let count: usize = start - lo + 1;
                let mut k: usize = 0;
                while k < count
                    invariant
                        1 <= lo <= start <= total,
                        total == lines@.len(),
                        count == start - lo + 1,
                        0 <= k <= count,
                        out@.len() == k,
                        forall|j: int| 0 <= j < out@.len() ==> out@[j] == lines@[start - 1 - j],
                    decreases count - k,
                {
                    out.push(lines[start - 1 - k].clone());
                    k = k + 1;
                }
                proof {
                    assert(out@ =~= lines@.subrange(lo - 1, start as int).reverse());
                }
            }
        },
    }
    Ok(out)
}

/// The byte length of one line's content under UTF-8, as `str::len` reports
/// it.
pub open spec fn line_byte_len(s: String) -> int {
    (encode_utf8(s@).len() as usize) as int
}

/// The byte offset at which line `k + 1` begins: the lengths of the first
/// `k` lines, plus one newline delimiter after each.
pub open spec fn offset_of_line(lines: Seq<String>, k: int) -> int
    decreases k,
{
    if k <= 0 {
        0
    } else {
        offset_of_line(lines, k - 1) + line_byte_len(lines[k - 1]) + 1
    }
}

/// Byte offsets never shrink as the line number grows.
pub proof fn lemma_offset_monotone(lines: Seq<String>, i: int, j: int)
    requires
        0 <= i <= j,
    ensures
        offset_of_line(lines, i) <= offset_of_line(lines, j),
    decreases j - i,
{
    if i < j {
        lemma_offset_monotone(lines, i, j - 1);
    }
}

/// Resolves a position to the byte offset at which its line begins, by one
/// linear pass that accumulates each preceding line's byte length plus its
/// newline. Only `Middle` needs the scan: `Start` begins at offset 0, and a
/// caller reaches `End` by seeking to the end of the file, so both report 0
/// with no arithmetic. Returns `None` exactly when the offset would not fit
/// in `usize`.
pub fn compute_offset(lines: &Vec<String>, position: Position) -> (r: Option<usize>)
    requires
        position matches Position::Middle(n) ==> 1 <= n <= lines@.len() + 1,
    ensures
        match position {
            Position::Middle(n) => (r matches Some(off) ==> off == offset_of_line(
                lines@,
                n - 1,
            )) && (r is None <==> offset_of_line(lines@, n - 1) > usize::MAX),
            _ => r == Some(0usize),
        },
{
    match position {
        Position::Middle(line) => {
            let k: usize = line - 1;
            let mut acc: usize = 0;
            let mut i: usize = 0;
            while i < k
                invariant
                    0 <= i <= k,
                    k <= lines@.len(),
                    position == Position::Middle(line),
                    1 <= line,
                    k == line - 1,
                    acc == offset_of_line(lines@, i as int),
                decreases k - i,
            {
                let len_i: usize = lines[i].as_str().len();
                let stepped = match acc.checked_add(len_i) {
                    Some(a) => a.checked_add(1),
                    None => None,
                };
                match stepped {
                    Some(a) => {
                        acc = a;
                        i = i + 1;
                    },
                    None => {
                        proof {
                            assert(offset_of_line(lines@, i + 1) > usize::MAX);
                            lemma_offset_monotone(lines@, i + 1, k as int);
                        }
                        return None;
                    },
                }
            }
            Some(acc)
        },
        _ => Some(0),
    }
}

} // verus!
