//! The binary life automaton.

pub mod automata;
pub mod color;
pub mod constants;
pub mod draw;
pub mod input;
pub mod pipeline;
pub mod setup;
pub mod utils;
