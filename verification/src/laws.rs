//! Laws of the state machine, stated over the mathematical values and
//! transition functions that the contracts of [`crate::game`] and
//! [`crate::claim`] speak of, and proved once for every instance and
//! every sequence of requests.

use vstd::prelude::*;

verus! {

use crate::claim::{claim_verdict, ClaimError};
use crate::game::{board_full, wins, GameError, GameView, Player};
use crate::status::Status;

/// One request against a game instance, in the order the host
/// serializes them.
pub enum Op {
    Start(Player, Player, u16),
    Play(Player, u8, u8),
    Claim(Player),
}

/// The state after one request. A request whose verdict is a failure
/// leaves the game exactly as it was, which is what the contracts of
/// `Game::start`, `Game::play` and `claim::authorize` guarantee.
pub open spec fn apply_op(game: GameView, op: Op) -> GameView {
    match op {
        Op::Start(player_one, player_two, sequence) => if game.start_verdict() is Ok {
            game.start_next(player_one, player_two, sequence)
        } else {
            game
        },
        Op::Play(player, row, col) => if game.play_verdict(player, row, col) is Ok {
            game.play_next(player, row, col)
        } else {
            game
        },
        Op::Claim(claimant) => if claim_verdict(game, claimant) is Ok {
            game.set_claimed_next()
        } else {
            game
        },
    }
}

/// The state after a sequence of requests, applied in order.
pub open spec fn apply_ops(game: GameView, ops: Seq<Op>) -> GameView
    decreases ops.len(),
{
    if ops.len() == 0 {
        game
    } else {
        apply_ops(apply_op(game, ops[0]), ops.drop_first())
    }
}

/// One request keeps the board's shape, never clears or overwrites a
/// set cell, and never brings the status back to `NotStarted`.
proof fn lemma_op_preserves(game: GameView, op: Op)
    requires
        game.wf(),
    ensures
        apply_op(game, op).wf(),
        forall|i: int|
            0 <= i < 9 && game.board[i] is Some ==> #[trigger] apply_op(game, op).board[i]
                == game.board[i],
        game.status != Status::NotStarted ==> apply_op(game, op).status != Status::NotStarted,
{
}

/// Once a cell is set it never changes: whatever valid requests follow,
/// a cell that carries a sign still carries that sign.
pub proof fn lemma_board_monotonic(game: GameView, ops: Seq<Op>, i: int)
    requires
        game.wf(),
        0 <= i < 9,
        game.board[i] is Some,
    ensures
        apply_ops(game, ops).board[i] == game.board[i],
    decreases ops.len(),
{
    if ops.len() > 0 {
        lemma_op_preserves(game, ops[0]);
        lemma_board_monotonic(apply_op(game, ops[0]), ops.drop_first(), i);
    }
}

/// No sequence of requests brings a game back to `NotStarted`.
proof fn lemma_no_reset(game: GameView, ops: Seq<Op>)
    requires
        game.wf(),
        game.status != Status::NotStarted,
    ensures
        apply_ops(game, ops).status != Status::NotStarted,
    decreases ops.len(),
{
    if ops.len() > 0 {
        lemma_op_preserves(game, ops[0]);
        lemma_no_reset(apply_op(game, ops[0]), ops.drop_first());
    }
}

/// `start` succeeds at most once per instance: there is no reset, so
/// after a successful `start` every further `start`, whatever requests
/// came between, fails with `AlreadyActive`.
pub proof fn lemma_start_only_once(
    game: GameView,
    player_one: Player,
    player_two: Player,
    sequence: u16,
    ops: Seq<Op>,
)
    requires
        game.wf(),
        game.start_verdict() is Ok,
    ensures
        apply_ops(game.start_next(player_one, player_two, sequence), ops).start_verdict()
            == Err::<(), GameError>(GameError::AlreadyActive),
{
    lemma_no_reset(game.start_next(player_one, player_two, sequence), ops);
}

/// Turn alternation: when a successful move leaves the game running,
/// the mover was the expected player, the turn flag flips, and the next
/// accepted caller is the other slot.
pub proof fn lemma_turn_alternation(
    game: GameView,
    first: Player,
    row_a: u8,
    col_a: u8,
    second: Player,
    row_b: u8,
    col_b: u8,
)
    requires
        game.wf(),
        game.play_verdict(first, row_a, col_a) is Ok,
        game.play_next(first, row_a, col_a).status == Status::Started,
        game.play_next(first, row_a, col_a).play_verdict(second, row_b, col_b) is Ok,
    ensures
        first == game.expected_player(),
        second == game.play_next(first, row_a, col_a).expected_player(),
        game.play_next(first, row_a, col_a).turn == !game.turn,
        !game.turn ==> first == game.player_one && second == game.player_two,
        game.turn ==> first == game.player_two && second == game.player_one,
{
}

/// Win detection decides the outcome of a move: completing one of the 8
/// lines ends the game with the mover as winner; filling the board
/// without a line ends it with no winner; any other move keeps the game
/// running with the winner unset and flips the turn. A terminal move
/// leaves the turn unchanged.
pub proof fn lemma_move_outcome(game: GameView, player: Player, row: u8, col: u8)
    requires
        game.wf(),
        game.winner is None,
        game.play_verdict(player, row, col) is Ok,
    ensures
        ({
            let sign = game.sign_of(player);
            let board = game.board.update(3 * row + col, Some(sign));
            let next = game.play_next(player, row, col);
            &&& next.board == board
            &&& wins(board, sign) ==> next.status == Status::FinishedNotClaimed && next.winner
                == Some(player) && next.turn == game.turn
            &&& !wins(board, sign) && board_full(board) ==> next.status
                == Status::FinishedNotClaimed && next.winner is None && next.turn == game.turn
            &&& !wins(board, sign) && !board_full(board) ==> next.status == Status::Started
                && next.winner is None && next.turn == !game.turn
        }),
{
}

/// A reward is claimable at most once: after a successful claim the
/// game is `FinishedAndClaimed`, so a second claim by anybody fails
/// with `WrongStatus`.
pub proof fn lemma_claim_only_once(game: GameView, winner: Player, claimant: Player)
    requires
        claim_verdict(game, winner) is Ok,
    ensures
        game.set_claimed_next().status == Status::FinishedAndClaimed,
        claim_verdict(game.set_claimed_next(), claimant)
            == Err::<(), ClaimError>(ClaimError::WrongStatus),
{
}

} // verus!
