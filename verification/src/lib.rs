//! Verified building blocks for two small console programs: a number-guessing
//! game and a rectangle-area calculator.
//!
//! The crate holds the decisions of both programs; reading and printing lines
//! is left to the caller.

pub mod input;
pub mod laws;
mod random;
pub mod rectangle;
pub mod session;
