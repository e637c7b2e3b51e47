//! A number-guessing game as a verified library.
//!
//! The player picks two difficulty levels, the game draws a secret number in a
//! range, and the player guesses until the number is found or the guesses run
//! out. Every decision of the game lives here as a function from state and
//! input line to next state and reply; reading and printing are left to the
//! program around the library.

pub mod difficulty;
pub mod input;
pub mod score;
pub mod session;
pub mod settings;
pub mod play;
pub mod game;
