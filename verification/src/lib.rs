//! Core logic of a terminal word-guessing game: a player has a bounded
//! number of attempts to guess a fixed-length hidden word, and after each
//! submitted guess every letter is judged correct, present elsewhere, or
//! absent.
//!
//! This crate holds the verified core: guess validation, guess scoring,
//! the round state machine that sequences submissions, and the menu state
//! machine that routes input events. Terminal rendering and raw keyboard
//! capture live outside the crate and talk to the core through plain
//! values and abstract input events.

pub mod events;
pub mod game;
pub mod laws;
pub mod menu;
pub mod round;
