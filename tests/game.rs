use tictactoe::game::Game;
use tictactoe::identity::Identity;
use tictactoe::model::GameState;

#[test]
pub fn column_1_x_wins() {
    /*
        X|O|
        -+-+-
        X|O|
        -+-+-
        X| |
    */

    let player_x = Identity::new([1; 32]);
    let player_o = Identity::new([2; 32]);

    let mut g = Game::new(player_x, player_o);
    assert_eq!(g.game_state, GameState::XMove);

    g.next_move(player_x, 0, 0).unwrap();
    assert_eq!(g.game_state, GameState::OMove);
    g.next_move(player_o, 1, 0).unwrap();
    assert_eq!(g.game_state, GameState::XMove);
    g.next_move(player_x, 0, 1).unwrap();
    assert_eq!(g.game_state, GameState::OMove);
    g.next_move(player_o, 1, 1).unwrap();
    assert_eq!(g.game_state, GameState::XMove);
    g.next_move(player_x, 0, 2).unwrap();
    assert_eq!(g.game_state, GameState::XWon);
}

#[test]
pub fn right_diagonal_x_wins() {
    /*
        X|O|X
        -+-+-
        O|X|O
        -+-+-
        X| |
    */

    let player_x = Identity::new([1; 32]);
    let player_o = Identity::new([2; 32]);
    let mut g = Game::new(player_x, player_o);

    g.next_move(player_x, 0, 0).unwrap();
    g.next_move(player_o, 1, 0).unwrap();
    g.next_move(player_x, 2, 0).unwrap();
    g.next_move(player_o, 0, 1).unwrap();
    g.next_move(player_x, 1, 1).unwrap();
    g.next_move(player_o, 2, 1).unwrap();
    g.next_move(player_x, 0, 2).unwrap();
    assert_eq!(g.game_state, GameState::XWon);

    assert!(g.next_move(player_o, 1, 2).is_err());
}

#[test]
pub fn bottom_row_o_wins() {
    /*
        X|X|
        -+-+-
        X| |
        -+-+-
        O|O|O
    */

    let player_x = Identity::new([1; 32]);
    let player_o = Identity::new([2; 32]);
    let mut g = Game::new(player_x, player_o);

    g.next_move(player_x, 0, 0).unwrap();
    g.next_move(player_o, 0, 2).unwrap();
    g.next_move(player_x, 1, 0).unwrap();
    g.next_move(player_o, 1, 2).unwrap();
    g.next_move(player_x, 0, 1).unwrap();
    g.next_move(player_o, 2, 2).unwrap();
    assert_eq!(g.game_state, GameState::OWon);

    assert!(g.next_move(player_x, 1, 2).is_err());
}

#[test]
pub fn left_diagonal_x_wins() {
    /*
        X|O|X
        -+-+-
        O|X|O
        -+-+-
        O|X|X
    */

    let player_x = Identity::new([1; 32]);
    let player_o = Identity::new([2; 32]);
    let mut g = Game::new(player_x, player_o);

    g.next_move(player_x, 0, 0).unwrap();
    g.next_move(player_o, 1, 0).unwrap();
    g.next_move(player_x, 2, 0).unwrap();
    g.next_move(player_o, 0, 1).unwrap();
    g.next_move(player_x, 1, 1).unwrap();
    g.next_move(player_o, 2, 1).unwrap();
    g.next_move(player_x, 1, 2).unwrap();
    g.next_move(player_o, 0, 2).unwrap();
    g.next_move(player_x, 2, 2).unwrap();
    assert_eq!(g.game_state, GameState::XWon);
}

#[test]
pub fn draw() {
    /*
        X|O|O
        -+-+-
        O|O|X
        -+-+-
        X|X|O
    */

    let player_x = Identity::new([1; 32]);
    let player_o = Identity::new([2; 32]);
    let mut g = Game::new(player_x, player_o);

    g.next_move(player_x, 0, 0).unwrap();
    g.next_move(player_o, 1, 1).unwrap();
    g.next_move(player_x, 0, 2).unwrap();
    g.next_move(player_o, 0, 1).unwrap();
    g.next_move(player_x, 2, 1).unwrap();
    g.next_move(player_o, 1, 0).unwrap();
    g.next_move(player_x, 1, 2).unwrap();
    g.next_move(player_o, 2, 2).unwrap();
    g.next_move(player_x, 2, 0).unwrap();

    assert_eq!(g.game_state, GameState::Draw);
}

#[test]
pub fn solo() {
    /*
        X|O|
        -+-+-
         | |
        -+-+-
         | |
    */

    let player_x = Identity::new([1; 32]);

    let mut g = Game::new(player_x, player_x);
    assert_eq!(g.game_state, GameState::XMove);
    g.next_move(player_x, 0, 0).unwrap();
    assert_eq!(g.game_state, GameState::OMove);
    g.next_move(player_x, 1, 0).unwrap();
    assert_eq!(g.game_state, GameState::XMove);
}
