//! The game state machine: board, players, turn order and lifecycle.

use vstd::prelude::*;

verus! {

use crate::status::Status;

/// A marker placed on a cell; immutable once assigned.
#[derive(Clone, Copy, PartialEq, Eq, Structural, Debug)]
pub enum Sign {
    X,
    O,
}

/// An opaque, comparable player identity. The host authenticates the
/// caller before the core is invoked; the core trusts the value it gets.
#[derive(Clone, Copy, PartialEq, Eq, Structural, Debug)]
pub struct Player {
    pub id: u64,
}

/// Validation failures of the game state machine. Every failure aborts
/// the whole operation with no state mutated.
#[derive(Clone, Copy, PartialEq, Eq, Structural, Debug)]
pub enum GameError {
    InvalidRow,
    InvalidColumn,
    TileTaken,
    NotYourTurn,
    Inactive,
    AlreadyActive,
}

/// The mathematical value of a [`Game`]: the board is a row-major
/// sequence of 9 optional signs (cell `(row, col)` is index
/// `3 * row + col`).
#[verifier::ext_equal]
pub ghost struct GameView {
    pub player_one: Player,
    pub player_two: Player,
    pub turn: bool,
    pub board: Seq<Option<Sign>>,
    pub status: Status,
    pub winner: Option<Player>,
    pub sequence: u16,
}

/// Three given cells all carry the given sign.
pub open spec fn line_wins(board: Seq<Option<Sign>>, sign: Sign, i: int, j: int, k: int) -> bool {
    board[i] == Some(sign) && board[j] == Some(sign) && board[k] == Some(sign)
}

/// The sign owns one of the exactly 8 winning lines of the 3x3 board:
/// 3 rows, 3 columns and the 2 diagonals.
pub open spec fn wins(board: Seq<Option<Sign>>, sign: Sign) -> bool {
    ||| line_wins(board, sign, 0, 1, 2)
    ||| line_wins(board, sign, 3, 4, 5)
    ||| line_wins(board, sign, 6, 7, 8)
    ||| line_wins(board, sign, 0, 3, 6)
    ||| line_wins(board, sign, 1, 4, 7)
    ||| line_wins(board, sign, 2, 5, 8)
    ||| line_wins(board, sign, 0, 4, 8)
    ||| line_wins(board, sign, 2, 4, 6)
}

/// All 9 cells are occupied.
pub open spec fn board_full(board: Seq<Option<Sign>>) -> bool {
    forall|i: int| 0 <= i < 9 ==> board[i] is Some
}

impl GameView {
    /// A board of the right shape; holds of every reachable game value.
    pub open spec fn wf(self) -> bool {
        self.board.len() == 9
    }

    /// The freshly created, not yet started game.
    pub open spec fn init() -> GameView {
        GameView {
            player_one: Player { id: 0 },
            player_two: Player { id: 0 },
            turn: false,
            board: Seq::new(9, |i: int| None),
            status: Status::NotStarted,
            winner: None,
            sequence: 0,
        }
    }

    /// The cell at `(row, col)`, row-major.
    pub open spec fn cell(self, row: int, col: int) -> Option<Sign> {
        self.board[3 * row + col]
    }

    /// The player whose move is accepted next: `player_one` while `turn`
    /// is false, `player_two` while it is true.
    pub open spec fn expected_player(self) -> Player {
        if self.turn {
            self.player_two
        } else {
            self.player_one
        }
    }

    /// The sign a mover places: `X` for `player_one`, `O` otherwise.
    pub open spec fn sign_of(self, player: Player) -> Sign {
        if player == self.player_one {
            Sign::X
        } else {
            Sign::O
        }
    }

    /// Verdict of `start`: only a game that was never started may start.
    pub open spec fn start_verdict(self) -> Result<(), GameError> {
        if self.status == Status::NotStarted {
            Ok(())
        } else {
            Err(GameError::AlreadyActive)
        }
    }

    /// Successor state of a successful `start`: identities and sequence
    /// are fixed, the game becomes `Started`, the first move belongs to
    /// `player_one`; the board is untouched.
    pub open spec fn start_next(self, player_one: Player, player_two: Player, sequence: u16) -> GameView {
        GameView {
            player_one: player_one,
            player_two: player_two,
            turn: false,
            status: Status::Started,
            sequence: sequence,
            ..self
        }
    }

    /// Verdict of `play`, with the checks in the order the operation
    /// makes them; each failure is a distinct error.
    pub open spec fn play_verdict(self, player: Player, row: u8, col: u8) -> Result<(), GameError> {
        if self.status != Status::Started {
            Err(GameError::Inactive)
        } else if row > 2 {
            Err(GameError::InvalidRow)
        } else if col > 2 {
            Err(GameError::InvalidColumn)
        } else if self.cell(row as int, col as int) is Some {
            Err(GameError::TileTaken)
        } else if player != self.expected_player() {
            Err(GameError::NotYourTurn)
        } else {
            Ok(())
        }
    }

    /// Successor state of a successful `play`: the mover's sign fills the
    /// one chosen cell; a completed line ends the game with the mover as
    /// winner, a full board without one ends it in a draw, and otherwise
    /// the turn flips. On a terminal move the turn is left unchanged.
    pub open spec fn play_next(self, player: Player, row: u8, col: u8) -> GameView {
        let sign = self.sign_of(player);
        let board = self.board.update(3 * row + col, Some(sign));
        if wins(board, sign) {
            GameView { board: board, status: Status::FinishedNotClaimed, winner: Some(player), ..self }
        } else if board_full(board) {
            GameView { board: board, status: Status::FinishedNotClaimed, ..self }
        } else {
            GameView { board: board, turn: !self.turn, ..self }
        }
    }

    /// Successor state of `set_claimed`: the status becomes terminal and
    /// nothing else moves.
    pub open spec fn set_claimed_next(self) -> GameView {
        GameView { status: Status::FinishedAndClaimed, ..self }
    }
}

/// One game instance. All mutation goes through `start`, `play` and
/// `set_claimed`; every failed operation leaves the value untouched.
pub struct Game {
    player_one: Player,
    player_two: Player,
    turn: bool,
    board: [Option<Sign>; 9],
    status: Status,
    winner: Option<Player>,
    sequence: u16,
}

impl View for Game {
    type V = GameView;

    closed spec fn view(&self) -> GameView {
        GameView {
            player_one: self.player_one,
            player_two: self.player_two,
            turn: self.turn,
            board: self.board@,
            status: self.status,
            winner: self.winner,
            sequence: self.sequence,
        }
    }
}

impl Game {
    /// A fresh instance in `NotStarted` with an empty board.
    pub fn new() -> (game: Game)
        ensures
            game@ == GameView::init(),
    {
        Game {
            player_one: Player { id: 0 },
            player_two: Player { id: 0 },
            turn: false,
            board: [None; 9],
            status: Status::NotStarted,
            winner: None,
            sequence: 0,
        }
    }

    /// The only transition out of `NotStarted`: fixes the two identities
    /// and the sequence and hands the first move to `player_one`. A
    /// second call on the same instance fails with `AlreadyActive`.
    pub fn start(&mut self, player_one: Player, player_two: Player, sequence: u16) -> (r: Result<(), GameError>)
        ensures
            r == old(self)@.start_verdict(),
            r is Ok ==> final(self)@ == old(self)@.start_next(player_one, player_two, sequence),
            r is Err ==> final(self)@ == old(self)@,
    {
        if self.status != Status::NotStarted {
            return Err(GameError::AlreadyActive);
        }
        self.status = Status::Started;
        self.player_one = player_one;
        self.player_two = player_two;
        self.turn = false;
        self.sequence = sequence;
        Ok(())
    }

    /// The only transition while `Started`. On success exactly one empty
    /// cell is filled with the caller's sign; the game either ends
    /// (completed line, or full board) or the turn flips. `play` never
    /// succeeds when the status is not `Started`, and a failed call
    /// mutates nothing.
    pub fn play(&mut self, player: Player, row: u8, col: u8) -> (r: Result<(), GameError>)
        ensures
            r == old(self)@.play_verdict(player, row, col),
            r is Ok ==> old(self)@.status == Status::Started,
            r is Ok ==> final(self)@ == old(self)@.play_next(player, row, col),
            r is Err ==> final(self)@ == old(self)@,
    {
        if self.status != Status::Started {
            return Err(GameError::Inactive);
        }
        if row > 2 {
            return Err(GameError::InvalidRow);
        }
        if col > 2 {
            return Err(GameError::InvalidColumn);
        }
        let idx: usize = 3 * (row as usize) + (col as usize);
        if self.board[idx].is_some() {
            return Err(GameError::TileTaken);
        }
        let expected = if self.turn {
            self.player_two
        } else {
            self.player_one
        };
        if player != expected {
            return Err(GameError::NotYourTurn);
        }
        let sign = if player == self.player_one {
            Sign::X
        } else {
            Sign::O
        };
        self.board[idx] = Some(sign);
        if self.has_won(sign) {
            self.status = Status::FinishedNotClaimed;
            self.winner = Some(player);
        } else if self.is_full() {
            self.status = Status::FinishedNotClaimed;
        } else {
            self.turn = !self.turn;
        }
        Ok(())
    }

    /// The winner of a finished game, `None` while none is decided or on
    /// a draw.
    pub fn get_winner(&mut self) -> (winner: Option<Player>)
        ensures
            winner == old(self)@.winner,
            final(self)@ == old(self)@,
    {
        self.winner
    }

    /// The current lifecycle status.
    pub fn get_status(&mut self) -> (status: Status)
        ensures
            status == old(self)@.status,
            final(self)@ == old(self)@,
    {
        self.status
    }

    /// Records that the reward of this game was claimed. The caller is
    /// expected to have authorized the claim first; this raw transition
    /// touches nothing but the status.
    pub fn set_claimed(&mut self)
        ensures
            final(self)@ == old(self)@.set_claimed_next(),
    {
        self.status = Status::FinishedAndClaimed;
    }

    /// The given cell carries the given sign.
    fn cell_has(&self, idx: usize, sign: Sign) -> (r: bool)
        requires
            idx < 9,
        ensures
            r == (self@.board[idx as int] == Some(sign)),
    {
        match self.board[idx] {
            Some(s) => s == sign,
            None => false,
        }
    }

    /// Whether the given sign owns one of the 8 winning lines.
    fn has_won(&self, sign: Sign) -> (r: bool)
        ensures
            r == wins(self@.board, sign),
    {
        (self.cell_has(0, sign) && self.cell_has(1, sign) && self.cell_has(2, sign))
            || (self.cell_has(3, sign) && self.cell_has(4, sign) && self.cell_has(5, sign))
            || (self.cell_has(6, sign) && self.cell_has(7, sign) && self.cell_has(8, sign))
            || (self.cell_has(0, sign) && self.cell_has(3, sign) && self.cell_has(6, sign))
            || (self.cell_has(1, sign) && self.cell_has(4, sign) && self.cell_has(7, sign))
            || (self.cell_has(2, sign) && self.cell_has(5, sign) && self.cell_has(8, sign))
            || (self.cell_has(0, sign) && self.cell_has(4, sign) && self.cell_has(8, sign))
            || (self.cell_has(2, sign) && self.cell_has(4, sign) && self.cell_has(6, sign))
    }

    /// Whether every cell is occupied.
    fn is_full(&self) -> (r: bool)
        ensures
            r == board_full(self@.board),
    {
        let mut i: usize = 0;
        while i < 9
            invariant
                i <= 9,
                forall|j: int| 0 <= j < i ==> self@.board[j] is Some,
            decreases 9 - i,
        {
            if self.board[i].is_none() {
                return false;
            }
            i += 1;
        }
        true
    }
}

} // verus!
