//! The laws extraction obeys, stated against `open_result_matches` — the
//! whole contract of `open_file` — so each one holds of any result the entry
//! point can return, and proved once for all inputs.

use vstd::prelude::*;

use crate::error::Error;
use crate::extract::{
    bound_out_of_reach, extract_spec, invalid_direction, is_invalid_direction_error,
    is_max_position_error, open_result_matches,
};
use crate::position::{Direction, Position};

verus! {

/// With every argument left at its default — start of the file, forward, no
/// bound — extraction succeeds and yields the whole file, one entry per
/// line, in file order.
pub proof fn lemma_defaults_read_whole_file(r: Result<Vec<String>, Error>, lines: Seq<String>)
    requires
        open_result_matches(r, lines, Position::Start, Direction::Forward, None),
    ensures
        r matches Ok(out) && out@ == lines,
{
    assert(extract_spec(lines, Position::Start, Direction::Forward, None) =~= lines);
}

/// Symmetry: on a file with at least one line, reading forward from the
/// start and then reversing gives exactly what reading backward from the end
/// gives; both reads succeed.
pub proof fn lemma_forward_backward_symmetry(
    forward: Result<Vec<String>, Error>,
    backward: Result<Vec<String>, Error>,
    lines: Seq<String>,
)
    requires
        lines.len() >= 1,
        open_result_matches(forward, lines, Position::Start, Direction::Forward, None),
        open_result_matches(backward, lines, Position::End, Direction::Backward, None),
    ensures
        forward matches Ok(f) && backward matches Ok(b) && b@ == f@.reverse(),
{
    lemma_defaults_read_whole_file(forward, lines);
    assert(extract_spec(lines, Position::End, Direction::Backward, None) =~= lines.reverse());
}

/// On a single-line file, forward from the start, backward from the end
/// bounded at the end, and forward from line 1 all succeed with the same
/// one-element run: the one line.
pub proof fn lemma_single_line_agreement(
    from_start: Result<Vec<String>, Error>,
    from_end_bounded: Result<Vec<String>, Error>,
    from_line_one: Result<Vec<String>, Error>,
    lines: Seq<String>,
)
    requires
        lines.len() == 1,
        open_result_matches(from_start, lines, Position::Start, Direction::Forward, None),
        open_result_matches(
            from_end_bounded,
            lines,
            Position::End,
            Direction::Backward,
            Some(Position::End),
        ),
        open_result_matches(from_line_one, lines, Position::Middle(1), Direction::Forward, None),
    ensures
        from_start matches Ok(a) && a@ == seq![lines[0]],
        from_end_bounded matches Ok(b) && b@ == seq![lines[0]],
        from_line_one matches Ok(c) && c@ == seq![lines[0]],
{
    assert(extract_spec(lines, Position::Start, Direction::Forward, None) =~= seq![lines[0]]);
    assert(extract_spec(lines, Position::End, Direction::Backward, Some(Position::End))
        =~= seq![lines[0]]);
    assert(extract_spec(lines, Position::Middle(1), Direction::Forward, None) =~= seq![lines[0]]);
}

/// On an empty file, every position/direction/bound combination that passes
/// validation succeeds with the empty run. (Validation is blind to the
/// file's length for the start/direction pair: backward from `Start` and
/// forward from `End` are rejected even on an empty file, and so is a bound
/// that resolves below a forward start, as `Start` and `End` bounds do
/// there.)
pub proof fn lemma_empty_file_yields_empty(
    r: Result<Vec<String>, Error>,
    lines: Seq<String>,
    pos: Position,
    dir: Direction,
    max_position: Option<Position>,
)
    requires
        lines.len() == 0,
        !invalid_direction(pos, dir),
        !bound_out_of_reach(pos, dir, max_position, 0),
        open_result_matches(r, lines, pos, dir, max_position),
    ensures
        r matches Ok(out) && out@ == Seq::<String>::empty(),
{
    assert(extract_spec(lines, pos, dir, max_position) =~= Seq::<String>::empty());
}

/// Starting at `Start` and moving backward always fails with the
/// invalid-direction kind, whatever the bound and whatever the file holds.
pub proof fn lemma_backward_from_start_rejected(
    r: Result<Vec<String>, Error>,
    lines: Seq<String>,
    max_position: Option<Position>,
)
    requires
        open_result_matches(r, lines, Position::Start, Direction::Backward, max_position),
    ensures
        r matches Err(e) && is_invalid_direction_error(e, Position::Start),
{
}

/// Starting at `End` and moving forward always fails with the
/// invalid-direction kind, whatever the bound and whatever the file holds.
pub proof fn lemma_forward_from_end_rejected(
    r: Result<Vec<String>, Error>,
    lines: Seq<String>,
    max_position: Option<Position>,
)
    requires
        open_result_matches(r, lines, Position::End, Direction::Forward, max_position),
    ensures
        r matches Err(e) && is_invalid_direction_error(e, Position::End),
{
}

/// A forward traversal from line 3 bounded at line 2 always fails with the
/// max-position kind (bound less than current, forward), whatever the file
/// holds.
pub proof fn lemma_forward_bound_below_start_rejected(
    r: Result<Vec<String>, Error>,
    lines: Seq<String>,
)
    requires
        open_result_matches(
            r,
            lines,
            Position::Middle(3),
            Direction::Forward,
            Some(Position::Middle(2)),
        ),
    ensures
        r matches Err(e) && is_max_position_error(e, Direction::Forward),
{
}

/// A backward traversal from line 2 bounded at line 3 always fails with the
/// max-position kind (bound greater than current, backward), whatever the
/// file holds.
pub proof fn lemma_backward_bound_above_start_rejected(
    r: Result<Vec<String>, Error>,
    lines: Seq<String>,
)
    requires
        open_result_matches(
            r,
            lines,
            Position::Middle(2),
            Direction::Backward,
            Some(Position::Middle(3)),
        ),
    ensures
        r matches Err(e) && is_max_position_error(e, Direction::Backward),
{
}

/// Round trip over a file of N lines: forward from the start with no bound
/// succeeds with exactly N entries in file order, backward from the end with
/// no bound succeeds with exactly N entries in reverse order, and the two
/// runs hold the same multiset of lines.
pub proof fn lemma_round_trip(
    forward: Result<Vec<String>, Error>,
    backward: Result<Vec<String>, Error>,
    lines: Seq<String>,
)
    requires
        open_result_matches(forward, lines, Position::Start, Direction::Forward, None),
        open_result_matches(backward, lines, Position::End, Direction::Backward, None),
    ensures
        forward matches Ok(f) && f@.len() == lines.len() && f@ == lines,
        backward matches Ok(b) && b@.len() == lines.len() && b@ == lines.reverse(),
        (forward->Ok_0)@.to_multiset() == (backward->Ok_0)@.to_multiset(),
{
    assert(extract_spec(lines, Position::Start, Direction::Forward, None) =~= lines);
    assert(extract_spec(lines, Position::End, Direction::Backward, None) =~= lines.reverse());
    lines.lemma_reverse_to_multiset();
    assert(lines.reverse().to_multiset() =~= lines.to_multiset());
}

} // verus!
