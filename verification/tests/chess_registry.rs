use doodle_game::chess::{ChessState, Color, GameState, GameStatus, JoinError};

fn ids(games: &[GameState]) -> Vec<u64> {
    games.iter().map(|g| g.game_id).collect()
}

#[test]
fn games_are_numbered_from_one() {
    let mut registry = ChessState::create_empty();
    assert_eq!(registry.game_counter, 0);
    assert_eq!(registry.create_game("ann".to_string(), 10), 1);
    assert_eq!(registry.create_game("bob".to_string(), 20), 2);
    assert_eq!(registry.create_game("ann".to_string(), 30), 3);
    assert_eq!(registry.game_counter, 3);
    let game = registry.get_game(2).unwrap();
    assert_eq!(
        game,
        GameState {
            game_id: 2,
            white_player: "bob".to_string(),
            black_player: None,
            current_turn: Color::White,
            status: GameStatus::WaitingForPlayer,
            board: "rnbqkbnr/pppppppp/8/8/8/8/PPPPPPPP/RNBQKBNR w KQkq - 0 1".to_string(),
            move_history: vec![],
            created_at: 20,
            last_move_at: 20,
        }
    );
    assert_eq!(registry.get_game(4), None);
    assert_eq!(ids(&registry.get_player_games(&"ann".to_string())), vec![1, 3]);
    assert_eq!(ids(&registry.get_player_games(&"bob".to_string())), vec![2]);
    assert!(registry.get_player_games(&"cy".to_string()).is_empty());
}

#[test]
fn joining_a_game() {
    let mut registry = ChessState::create_empty();
    registry.create_game("ann".to_string(), 10);
    let before = registry.clone();
    assert_eq!(registry.join_game(7, "bob".to_string()), Err(JoinError::GameNotFound));
    assert_eq!(registry.join_game(1, "ann".to_string()), Err(JoinError::OwnGame));
    assert_eq!(registry, before);
    assert_eq!(registry.join_game(1, "bob".to_string()), Ok(()));
    let game = registry.get_game(1).unwrap();
    assert_eq!(game.black_player, Some("bob".to_string()));
    assert_eq!(game.status, GameStatus::InProgress);
    assert_eq!(ids(&registry.get_player_games(&"bob".to_string())), vec![1]);
    let before = registry.clone();
    assert_eq!(registry.join_game(1, "cy".to_string()), Err(JoinError::GameFull));
    assert_eq!(registry.join_game(1, "ann".to_string()), Err(JoinError::GameFull));
    assert_eq!(registry, before);
}

#[test]
fn available_games_are_the_waiting_ones_newest_first() {
    let mut registry = ChessState::create_empty();
    registry.create_game("ann".to_string(), 10);
    registry.create_game("bob".to_string(), 30);
    registry.create_game("cy".to_string(), 20);
    registry.create_game("dee".to_string(), 30);
    registry.create_game("eve".to_string(), 5);
    registry.join_game(3, "ann".to_string()).unwrap();
    assert_eq!(ids(&registry.get_available_games()), vec![2, 4, 1, 5]);
    assert!(ChessState::create_empty().get_available_games().is_empty());
}

#[test]
fn updating_a_game_and_the_owner() {
    let mut registry = ChessState::create_empty();
    registry.create_game("ann".to_string(), 10);
    let mut game = registry.get_game(1).unwrap();
    game.status = GameStatus::Finished;
    game.board = "8/8/8/8/8/8/8/8 w - - 0 1".to_string();
    registry.update_game(1, game.clone());
    assert_eq!(registry.get_game(1), Some(game.clone()));
    assert_eq!(registry.games.len(), 1);
    registry.update_game(9, game.clone());
    assert_eq!(registry.get_game(9), Some(game));
    assert_eq!(registry.games.len(), 2);
    assert!(registry.get_available_games().is_empty());
    registry.set_owner("ann".to_string());
    assert_eq!(registry.owner, Some("ann".to_string()));
}
