//! The reward-claim authorization layered on top of the game's terminal
//! status: it decides whether a claimant may receive the one reward of a
//! finished game, and marks the game claimed in the same operation.

use vstd::prelude::*;

verus! {

use crate::game::{Game, GameView, Player};
use crate::status::Status;

/// Rejections of a claim request. Every failure aborts the operation
/// with no state mutated.
#[derive(Clone, Copy, PartialEq, Eq, Structural, Debug)]
pub enum ClaimError {
    WrongStatus,
    NoWinner,
    WrongClaimant,
}

/// Verdict of `authorize`, with the checks in the order the operation
/// makes them: a game that is not exactly `FinishedNotClaimed` is the
/// wrong status (still running, never started, or already claimed); a
/// drawn game has no winner and can never be claimed; and only the
/// winner may claim.
pub open spec fn claim_verdict(game: GameView, claimant: Player) -> Result<(), ClaimError> {
    if game.status != Status::FinishedNotClaimed {
        Err(ClaimError::WrongStatus)
    } else if game.winner is None {
        Err(ClaimError::NoWinner)
    } else if game.winner != Some(claimant) {
        Err(ClaimError::WrongClaimant)
    } else {
        Ok(())
    }
}

/// Decides whether `claimant` may receive the reward of `game`, and on
/// success moves the game to `FinishedAndClaimed` as one atomic step, so
/// that a second claim always finds the wrong status. Succeeds if and
/// only if the game is `FinishedNotClaimed` and `claimant` is its
/// winner; on failure nothing changes.
pub fn authorize(game: &mut Game, claimant: Player) -> (r: Result<(), ClaimError>)
    ensures
        r == claim_verdict(old(game)@, claimant),
        r is Ok <==> old(game)@.status == Status::FinishedNotClaimed
            && old(game)@.winner == Some(claimant),
        r is Ok ==> final(game)@ == old(game)@.set_claimed_next(),
        r is Err ==> final(game)@ == old(game)@,
{
    if game.get_status() != Status::FinishedNotClaimed {
        return Err(ClaimError::WrongStatus);
    }
    match game.get_winner() {
        None => Err(ClaimError::NoWinner),
        Some(winner) => {
            if winner != claimant {
                return Err(ClaimError::WrongClaimant);
            }
            game.set_claimed();
            Ok(())
        },
    }
}

} // verus!
