use doodle_game::queries::GameProgress;
use doodle_game::{DoodleGameState, GameRoom, GameState, Player, PlayerStatus};

fn player(id: &str, name: &str, score: u32) -> Player {
    Player {
        chain_id: id.to_string(),
        name: name.to_string(),
        avatar_json: String::new(),
        score,
        has_guessed: false,
        status: PlayerStatus::Active,
    }
}

fn in_room() -> DoodleGameState {
    let mut room = GameRoom::new("a".to_string(), "A".to_string(), String::new(), "1000".to_string(), None);
    room.add_player(player("b", "B", 0));
    room.add_player(player("c", "C", 0));
    room.add_player(player("d", "B", 0));
    room.start_game(3, 60, "t".to_string());
    room.players[0].score = 20;
    room.players[1].score = 90;
    room.players[2].score = 20;
    room.players[3].score = 100;
    room.players[1].has_guessed = true;
    room.choose_word("w".to_string());
    room.current_drawer_index = Some(2);
    let mut state = DoodleGameState::new();
    state.room = Some(room);
    state
}

#[test]
fn queries_without_a_room() {
    let state = DoodleGameState::new();
    assert!(state.players().is_empty());
    assert!(state.leaderboard().is_empty());
    assert!(state.chat_messages().is_empty());
    assert_eq!(state.game_state(), None);
    assert_eq!(state.current_drawer(), None);
    assert_eq!(state.game_progress(), None);
    assert_eq!(state.drawer_name(), None);
    assert_eq!(state.player_score(&"B".to_string()), 0);
    assert!(!state.player_has_guessed(&"B".to_string()));
    assert!(!state.is_player_drawer(&"B".to_string()));
}

#[test]
fn standings_are_sorted_by_score() {
    let state = in_room();
    let ids: Vec<String> = state.leaderboard().into_iter().map(|p| p.chain_id).collect();
    assert_eq!(ids, vec!["d", "b", "a", "c"]);
    assert_eq!(state.players().len(), 4);
    assert_eq!(state.players()[0].chain_id, "a");
}

#[test]
fn queries_about_players() {
    let state = in_room();
    assert_eq!(state.player_score(&"B".to_string()), 90);
    assert_eq!(state.player_score(&"C".to_string()), 20);
    assert_eq!(state.player_score(&"Z".to_string()), 0);
    assert!(state.player_has_guessed(&"B".to_string()));
    assert!(!state.player_has_guessed(&"C".to_string()));
    assert!(state.is_player_drawer(&"C".to_string()));
    assert!(!state.is_player_drawer(&"A".to_string()));
    assert_eq!(state.drawer_name(), Some("C".to_string()));
    assert_eq!(state.current_drawer().map(|p| p.chain_id), Some("c".to_string()));
    assert_eq!(state.game_state(), Some(GameState::Drawing));
    assert_eq!(
        state.game_progress(),
        Some(GameProgress {
            current_round: 1,
            total_rounds: 3,
            seconds_per_round: 60,
            word_chosen_at: Some("w".to_string()),
        })
    );
}
