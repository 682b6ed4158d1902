//! A turn-based dice scoring engine for the standard 13-category dice game:
//! category award rules, per-turn roll/reroll state, and a per-player ledger
//! with cross-round bonus accounting.

pub mod dice;
pub mod errors;
pub mod player;
pub mod score;
pub mod turn;
