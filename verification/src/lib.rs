//! Chess opening trainer: game rules on top of `shakmaty`, opening-book
//! parsing, explorer move selection and the decisions behind the setup screen
//! and the board.

pub mod text;
pub mod pieces;
pub mod engine;
pub mod game;
pub mod openings;
pub mod explorer;
pub mod setup;
pub mod board;
pub mod session;
