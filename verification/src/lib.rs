//! An execution engine for a two-dimensional, stack-based language of the
//! Befunge family.
//!
//! A program is a grid of characters. An instruction pointer walks the grid,
//! and each cell it visits is interpreted as an instruction that works on a
//! stack of bytes, turns the pointer, reads or writes cells, or produces
//! output. The engine performs one transition per call of [`Board::step`];
//! the host drives the run, supplies a line of input when
//! [`Board::needs_input`] asks for one, and displays what the engine
//! renders.
//!
//! Every executable function is verified against a mathematical model of the
//! machine: [`machine::State`] and the spec functions defined on it.

pub mod board;
pub mod cursor;
pub mod direction;
pub mod instruction;
pub mod machine;
pub mod render;
pub mod space;
pub mod text;

pub use board::Board;
pub use cursor::{Cursor, Position};
pub use direction::Direction;
pub use instruction::Instruction;
pub use machine::Fault;
pub use space::ProgramSpace;
