//! Rules engine for tracking a game of chickenfoot dominoes.
//!
//! The library models a fixed universe of 91 dominoes (unordered pip pairs
//! `(min, max)` with `min <= max <= 12`) as a dense bitset, a state machine
//! that validates plays against open endpoints and in-progress double
//! branches, and a snapshot stack for undo. The host (rendering, input
//! parsing, windowing) lives outside the library and hands it plain values.

pub mod commands;
pub mod dominoes;
pub mod game;
pub mod history;

pub use commands::Command;
pub use dominoes::DominoSet;
pub use game::DoubleDomino;
pub use game::GameState;
pub use game::PlayError;
pub use history::HistoryStack;
