//! A reusable configuration around the extraction entry point, and a
//! builder that assembles one field by field with documented defaults.

use vstd::prelude::*;

use crate::error::Error;
use crate::extract::{open_file, open_result_matches};
use crate::position::{direction_of_text, position_of_text, Direction, Position};

verus! {

/// A resolved configuration: the file's path, the starting position, the
/// direction of travel, and the optional bound. Absent fields stand for the
/// defaults (`Start`, `Forward`, no bound).
#[derive(Debug)]
pub struct Opener {
    pub path: String,
    pub position: Option<Position>,
    pub direction: Option<Direction>,
    pub max_position: Option<Position>,
}

/// The starting position a configuration resolves to when the field is
/// absent.
pub open spec fn position_or_default(p: Option<Position>) -> Position {
    match p {
        Some(x) => x,
        None => Position::Start,
    }
}

/// The direction a configuration resolves to when the field is absent.
pub open spec fn direction_or_default(d: Option<Direction>) -> Direction {
    match d {
        Some(x) => x,
        None => Direction::Forward,
    }
}

impl Opener {
    /// Extracts from the given file content (its newline-stripped lines, in
    /// file order) according to this configuration, with absent fields
    /// replaced by their defaults.
    pub fn open(&self, lines: &Vec<String>) -> (r: Result<Vec<String>, Error>)
        ensures
            open_result_matches(
                r,
                lines@,
                position_or_default(self.position),
                direction_or_default(self.direction),
                self.max_position,
            ),
    {
        let position = match self.position {
            Some(p) => p,
            None => Position::Start,
        };
        let direction = match self.direction {
            Some(d) => d,
            None => Direction::Forward,
        };
        open_file(lines, position, direction, self.max_position)
    }
}

/// Why a builder could not produce a configuration.
#[derive(Debug, Clone, Copy, PartialEq, Eq, Structural)]
pub enum BuildError {
    /// The one required field, the path, was never set.
    MissingPath,
}

/// Assembles an `Opener` one field at a time. Only the path is required;
/// position, direction and bound may be given as raw text, canonicalized the
/// same way the conversions on `Position` and `Direction` do it.
pub struct OpenerBuilder {
    pub path: Option<String>,
    pub position: Option<Position>,
    pub direction: Option<Direction>,
    pub max_position: Option<Position>,
}

impl Default for OpenerBuilder {
    /// A builder with nothing set.
    fn default() -> (r: Self)
        ensures
            r.path is None,
            r.position is None,
            r.direction is None,
            r.max_position is None,
    {
        OpenerBuilder { path: None, position: None, direction: None, max_position: None }
    }
}

impl OpenerBuilder {
    /// Sets the path of the file to extract from.
    pub fn path(self, value: String) -> (r: Self)
        ensures
            r.path == Some(value),
            r.position == self.position,
            r.direction == self.direction,
            r.max_position == self.max_position,
    {
        OpenerBuilder { path: Some(value), ..self }
    }

    /// Sets the starting position from raw text.
    pub fn position(self, value: &str) -> (r: Self)
        ensures
            r.position == Some(position_of_text(value@)),
            r.path == self.path,
            r.direction == self.direction,
            r.max_position == self.max_position,
    {
        OpenerBuilder { position: Some(Position::from(value)), ..self }
    }

    /// Sets the direction of travel from raw text.
    pub fn direction(self, value: &str) -> (r: Self)
        ensures
            r.direction == Some(direction_of_text(value@)),
            r.path == self.path,
            r.position == self.position,
            r.max_position == self.max_position,
    {
        OpenerBuilder { direction: Some(Direction::from(value)), ..self }
    }

    /// Sets the bounding position from raw text.
    pub fn max_position(self, value: &str) -> (r: Self)
        ensures
            r.max_position == Some(position_of_text(value@)),
            r.path == self.path,
            r.position == self.position,
            r.direction == self.direction,
    {
        OpenerBuilder { max_position: Some(Position::from(value)), ..self }
    }

    /// Produces the configuration; fails exactly when no path was set.
    pub fn build(self) -> (r: Result<Opener, BuildError>)
        ensures
            self.path matches Some(p) ==> (r matches Ok(o) && o.path == p && o.position
                == self.position && o.direction == self.direction && o.max_position
                == self.max_position),
            self.path is None ==> r == Err::<Opener, BuildError>(BuildError::MissingPath),
    {
        match self.path {
            Some(p) => Ok(
                Opener {
                    path: p,
                    position: self.position,
                    direction: self.direction,
                    max_position: self.max_position,
                },
            ),
            None => Err(BuildError::MissingPath),
        }
    }
}

} // verus!
