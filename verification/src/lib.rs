//! Extraction of a contiguous run of lines out of newline-delimited text.
//!
//! The caller names a starting position (the first line, a 1-indexed line
//! number, or the last line), a direction of travel, and an optional bounding
//! position; the library validates the combination, resolves byte offsets,
//! and returns the matched lines in traversal order.

mod error;
mod extract;
mod laws;
mod opener;
mod position;

pub use error::{error_message, Error};
pub use extract::{
    bound_line, bound_out_of_reach, compute_offset, extract_spec, invalid_direction,
    is_invalid_direction_error, is_max_position_error, lemma_offset_monotone, line_byte_len,
    offset_of_line, open_file, open_result_matches, start_line, validate,
};
pub use laws::{
    lemma_backward_bound_above_start_rejected, lemma_backward_from_start_rejected,
    lemma_defaults_read_whole_file, lemma_empty_file_yields_empty,
    lemma_forward_backward_symmetry, lemma_forward_bound_below_start_rejected,
    lemma_forward_from_end_rejected, lemma_round_trip, lemma_single_line_agreement,
};
pub use opener::{direction_or_default, position_or_default, BuildError, Opener, OpenerBuilder};
pub use position::{
    digit_seq, digit_value, digits_value, direction_of_text, is_digit, is_usize_numeral,
    numeral_part, parse_usize, position_of_text, Direction, Position,
};
