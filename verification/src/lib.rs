//! Core of a terminal reaction-time test.
//!
//! A round starts on the user's first activation, waits a random delay, flips
//! to a "go" signal and measures how long the user takes to respond. Responding
//! before the signal is a false start. This crate holds the round state
//! machine, the delay scheduler's bookkeeping, the classification of raw input
//! and the projection of a round state onto a display payload. Reading the
//! terminal, sleeping and painting are left to the program around it.

pub mod clock;
pub mod input;
pub mod laws;
pub mod machine;
pub mod render;
pub mod scheduler;
pub mod state;
