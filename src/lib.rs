//! The command vocabulary of an N-dimensional twisty-puzzle simulator: the
//! intents that menus, key bindings and configuration files produce, their
//! labels, and their encoded form; and the metadata of a puzzle's shape.
use vstd::prelude::*;

pub mod command;
pub mod puzzle;
pub mod puzzle_command;
pub mod shape;
pub mod text;
pub mod value;

pub use command::{clamp_scramble_move_count, Command, PARTIAL_SCRAMBLE_MOVE_COUNT_MAX, PARTIAL_SCRAMBLE_MOVE_COUNT_MIN};
pub use puzzle::{LayerMask, PuzzleTypeEnum};
pub use puzzle_command::PuzzleCommand;
pub use shape::{FacetInfo, OutOfRange, PuzzleShape};
pub use value::{DecodeError, Value};

verus! {

} // verus!
