use tic_tac_toe::game::{Game, GameError, Player};
use tic_tac_toe::status::Status;

fn player(id: u64) -> Player {
    Player { id }
}

/// A game between players 1 and 2, started with sequence 1.
fn create_game(player_one: Player, player_two: Player) -> Game {
    let mut game = Game::new();
    game.start(player_one, player_two, 1).unwrap();
    game
}

/// Plays `tiles` in order, the two players alternating, and checks that
/// the game ends with the given winner.
fn run_play(tiles: &[[u8; 2]], expected_winner: Option<Player>) {
    let player_one = player(1); // X
    let player_two = player(2); // O
    let mut game = create_game(player_one, player_two);
    let mut current_player = player_one;
    for tile in tiles {
        game.play(current_player, tile[0], tile[1]).unwrap();
        current_player = if current_player == player_one {
            player_two
        } else {
            player_one
        };
    }
    assert_eq!(game.get_status(), Status::FinishedNotClaimed);
    assert_eq!(game.get_winner(), expected_winner);
}

#[test]
fn test_winning_combinations() {
    let player_one = player(1); // X
    let player_two = player(2); // O

    // [X][O][O]
    // [ ][X][ ]
    // [ ][ ][X]
    run_play(&[[0, 0], [0, 1], [1, 1], [0, 2], [2, 2]], Some(player_one));

    // [O][O][X]
    // [ ][X][ ]
    // [X][ ][ ]
    run_play(&[[0, 2], [0, 1], [1, 1], [0, 0], [2, 0]], Some(player_one));

    // [O][O][ ]
    // [ ][ ][ ]
    // [X][X][X]
    run_play(&[[2, 0], [0, 0], [2, 1], [0, 1], [2, 2]], Some(player_one));

    // [O][O][X]
    // [ ][ ][X]
    // [ ][ ][X]
    run_play(&[[0, 2], [0, 0], [1, 2], [0, 1], [2, 2]], Some(player_one));

    // [X][O][O]
    // [O][X][X]
    // [X][X][O]
    run_play(
        &[
            [0, 0],
            [0, 1],
            [1, 1],
            [2, 2],
            [1, 2],
            [1, 0],
            [2, 0],
            [0, 2],
            [2, 1],
        ],
        None,
    );

    // [ ][ ][O]
    // [ ][X][O]
    // [X][X][O]
    run_play(
        &[[1, 1], [0, 2], [2, 0], [1, 2], [2, 1], [2, 2]],
        Some(player_two),
    );
}

#[test]
#[should_panic(expected = "NotYourTurn")]
fn test_invalid_turn() {
    let player_one = player(1); // X
    let player_two = player(2); // O

    let mut game = create_game(player_one, player_two);
    game.play(player_two, 0, 0).unwrap();
}

#[test]
#[should_panic(expected = "TileTaken")]
fn test_tile_already_taken() {
    let player_one = player(1); // X
    let player_two = player(2); // O

    let mut game = create_game(player_one, player_two);
    game.play(player_one, 0, 0).unwrap();
    game.play(player_two, 0, 0).unwrap();
}

#[test]
#[should_panic(expected = "InvalidRow")]
fn test_row_out_of_bounds() {
    let player_one = player(1); // X
    let player_two = player(2); // O

    let mut game = create_game(player_one, player_two);
    game.play(player_one, 3, 0).unwrap();
}

#[test]
#[should_panic(expected = "InvalidColumn")]
fn test_column_out_of_bounds() {
    let player_one = player(1); // X
    let player_two = player(2); // O

    let mut game = create_game(player_one, player_two);
    game.play(player_one, 0, 3).unwrap();
}

#[test]
#[should_panic(expected = "AlreadyActive")]
fn test_cant_start_active_game() {
    let player_one = player(1); // X
    let player_two = player(2); // O

    let mut game = create_game(player_one, player_two);
    game.start(player_one, player_two, 1).unwrap();
}

#[test]
#[should_panic(expected = "Inactive")]
fn test_cant_play_inactive_game() {
    let player_one = player(1); // X

    let mut game = Game::new();
    game.play(player_one, 0, 0).unwrap();
}

#[test]
fn test_new_game_not_started() {
    let mut game = Game::new();
    assert_eq!(game.get_status(), Status::NotStarted);
    assert_eq!(game.get_winner(), None);
}

#[test]
fn test_start_only_once() {
    let mut game = Game::new();
    assert_eq!(game.start(player(1), player(2), 1), Ok(()));
    assert_eq!(game.get_status(), Status::Started);
    assert_eq!(
        game.start(player(1), player(2), 2),
        Err(GameError::AlreadyActive)
    );
    assert_eq!(
        game.start(player(3), player(4), 1),
        Err(GameError::AlreadyActive)
    );
}

#[test]
fn test_diagonal_win_scenario() {
    let player_one = player(1);
    let player_two = player(2);
    let mut game = Game::new();
    game.start(player_one, player_two, 1).unwrap();
    game.play(player_one, 0, 0).unwrap();
    game.play(player_two, 0, 1).unwrap();
    game.play(player_one, 1, 1).unwrap();
    game.play(player_two, 0, 2).unwrap();
    game.play(player_one, 2, 2).unwrap();
    assert_eq!(game.get_status(), Status::FinishedNotClaimed);
    assert_eq!(game.get_winner(), Some(player_one));
}

#[test]
fn test_turn_alternation() {
    let player_one = player(1);
    let player_two = player(2);
    let mut game = create_game(player_one, player_two);
    game.play(player_one, 0, 0).unwrap();
    // The mover who just played is not accepted again.
    assert_eq!(game.play(player_one, 0, 1), Err(GameError::NotYourTurn));
    game.play(player_two, 0, 1).unwrap();
    assert_eq!(game.play(player_two, 0, 2), Err(GameError::NotYourTurn));
    game.play(player_one, 1, 1).unwrap();
}

#[test]
fn test_wrong_turn_changes_nothing() {
    let player_one = player(1);
    let player_two = player(2);
    let mut game = create_game(player_one, player_two);
    // The rejected call left turn and board alone: player one may still
    // take the very cell the out-of-turn call aimed at.
    assert_eq!(game.play(player_two, 0, 0), Err(GameError::NotYourTurn));
    assert_eq!(game.play(player_one, 0, 0), Ok(()));
    assert_eq!(game.get_status(), Status::Started);
}

#[test]
fn test_invalid_row_changes_nothing() {
    let player_one = player(1);
    let player_two = player(2);
    let mut game = create_game(player_one, player_two);
    assert_eq!(game.play(player_one, 3, 0), Err(GameError::InvalidRow));
    // Still player one's move; the game went on as if nothing happened.
    assert_eq!(game.play(player_one, 0, 0), Ok(()));
}

#[test]
fn test_set_cell_never_changes() {
    let player_one = player(1);
    let player_two = player(2);
    let mut game = create_game(player_one, player_two);
    game.play(player_one, 1, 1).unwrap();
    // The cell stays taken for the rest of the game, for both players.
    assert_eq!(game.play(player_two, 1, 1), Err(GameError::TileTaken));
    game.play(player_two, 0, 0).unwrap();
    game.play(player_one, 2, 2).unwrap();
    assert_eq!(game.play(player_two, 1, 1), Err(GameError::TileTaken));
}

#[test]
fn test_middle_row_and_column_wins() {
    let player_one = player(1);
    // [O][O][ ]
    // [X][X][X]
    // [ ][ ][ ]
    run_play(&[[1, 0], [0, 0], [1, 1], [0, 1], [1, 2]], Some(player_one));
    // [O][X][O]
    // [ ][X][ ]
    // [ ][X][ ]
    run_play(&[[0, 1], [0, 0], [1, 1], [0, 2], [2, 1]], Some(player_one));
}

#[test]
fn test_same_identity_in_both_slots() {
    // Nothing rejects one identity in both slots; such a caller plays
    // both sides and every move is marked X, so three moves in a line
    // win for that identity.
    let only = player(7);
    let mut game = Game::new();
    game.start(only, only, 1).unwrap();
    game.play(only, 0, 0).unwrap();
    game.play(only, 0, 1).unwrap();
    game.play(only, 0, 2).unwrap();
    assert_eq!(game.get_status(), Status::FinishedNotClaimed);
    assert_eq!(game.get_winner(), Some(only));
}

#[test]
fn test_finished_game_rejects_play() {
    let player_one = player(1);
    let player_two = player(2);
    let mut game = create_game(player_one, player_two);
    game.play(player_one, 0, 0).unwrap();
    game.play(player_two, 1, 0).unwrap();
    game.play(player_one, 0, 1).unwrap();
    game.play(player_two, 1, 1).unwrap();
    game.play(player_one, 0, 2).unwrap();
    assert_eq!(game.get_status(), Status::FinishedNotClaimed);
    assert_eq!(game.play(player_two, 2, 2), Err(GameError::Inactive));
}
