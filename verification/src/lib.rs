//! A two-player turn-based board game with a reward-claim authorization
//! step: a 3x3 board, validated move application, win/draw detection, and
//! a state-gated claim protocol that authorizes minting a reward exactly
//! once per finished game.

pub mod claim;
pub mod game;
pub mod laws;
pub mod status;
