//! The error taxonomy of the engine. Every error is a local, recoverable,
//! caller-correctable condition; no verified function of this crate panics.

use vstd::prelude::*;

verus! {

/// Everything that can go wrong when driving the engine with caller-supplied
/// values.
#[derive(Clone, Copy, Debug, PartialEq, Eq, Structural)]
pub enum GameError {
    /// A reroll named a die position outside 0..=4.
    InvalidDieIndex,
    /// A category selection was not in the current offer list, or an input
    /// arrived in a state that cannot accept it.
    InvalidSelection,
    /// A commit named a category that the player has already claimed.
    CategoryAlreadyClaimed,
    /// The end-of-game bonus evaluation was requested a second time.
    AlreadyFinalized,
}

impl GameError {
    /// A short description of the error, for callers that display it.
    pub fn describe(&self) -> (s: &'static str)
    {
        match self {
            GameError::InvalidDieIndex => "die position out of range",
            GameError::InvalidSelection => "selection is not currently offered",
            GameError::CategoryAlreadyClaimed => "category already claimed",
            GameError::AlreadyFinalized => "bonus already evaluated",
        }
    }
}

} // verus!
