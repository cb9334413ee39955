use doodle_game::{ChatMessage, GameRoom, GameState, Player, PlayerStatus};

fn player(id: &str, name: &str) -> Player {
    Player {
        chain_id: id.to_string(),
        name: name.to_string(),
        avatar_json: String::new(),
        score: 0,
        has_guessed: false,
        status: PlayerStatus::Active,
    }
}

fn room_of_three() -> GameRoom {
    let mut room = GameRoom::new("a".to_string(), "A".to_string(), "{}".to_string(), "1000".to_string(), None);
    room.add_player(player("b", "B"));
    room.add_player(player("c", "C"));
    room
}

fn line(name: &str, text: &str) -> ChatMessage {
    ChatMessage {
        player_name: name.to_string(),
        message: text.to_string(),
        is_correct_guess: false,
        points_awarded: 0,
    }
}

#[test]
fn add_player_appends_new_players() {
    let room = room_of_three();
    assert_eq!(room.players.len(), 3);
    assert_eq!(room.players[1].chain_id, "b");
    assert_eq!(room.players[2].name, "C");
}

#[test]
fn add_player_twice_keeps_one_entry() {
    let mut room = room_of_three();
    room.players[1].score = 70;
    room.players[1].has_guessed = true;
    room.players[1].status = PlayerStatus::Left;
    let mut again = player("b", "Bee");
    again.avatar_json = "{\"hat\":1}".to_string();
    again.score = 5;
    room.add_player(again);
    assert_eq!(room.players.len(), 3);
    assert_eq!(room.players[1].name, "Bee");
    assert_eq!(room.players[1].avatar_json, "{\"hat\":1}");
    assert_eq!(room.players[1].status, PlayerStatus::Active);
    assert_eq!(room.players[1].score, 70);
    assert!(room.players[1].has_guessed);
}

#[test]
fn start_game_resets_scores_and_counters() {
    let mut room = room_of_three();
    room.players[0].score = 40;
    room.players[2].has_guessed = true;
    room.start_game(2, 60, "t".to_string());
    assert_eq!(room.total_rounds, 2);
    assert_eq!(room.seconds_per_round, 60);
    assert_eq!(room.current_round, 1);
    assert_eq!(room.game_state, GameState::ChoosingDrawer);
    assert!(room.players.iter().all(|p| p.score == 0 && !p.has_guessed));
}

#[test]
fn choose_drawer_clears_guess_flags_and_word_timer() {
    let mut room = room_of_three();
    room.start_game(2, 60, "t".to_string());
    room.players[1].has_guessed = true;
    room.word_chosen_at = Some("old".to_string());
    assert_eq!(room.choose_drawer("d1".to_string()), Some(0));
    assert_eq!(room.current_drawer_index, Some(0));
    assert_eq!(room.word_chosen_at, None);
    assert_eq!(room.drawer_chosen_at, Some("d1".to_string()));
    assert!(room.players.iter().all(|p| !p.has_guessed));
}

#[test]
fn choose_word_starts_drawing() {
    let mut room = room_of_three();
    room.start_game(2, 60, "t".to_string());
    room.choose_drawer("d".to_string());
    room.choose_word("w".to_string());
    assert_eq!(room.word_chosen_at, Some("w".to_string()));
    assert_eq!(room.game_state, GameState::Drawing);
}

#[test]
fn all_players_drawn_after_one_turn_each() {
    let mut room = room_of_three();
    room.start_game(2, 60, "t".to_string());
    assert!(!room.has_all_players_drawn_in_round());
    room.choose_drawer("1".to_string());
    assert!(!room.has_all_players_drawn_in_round());
    room.choose_drawer("2".to_string());
    assert!(!room.has_all_players_drawn_in_round());
    room.choose_drawer("3".to_string());
    assert!(room.has_all_players_drawn_in_round());
}

#[test]
fn all_players_drawn_skips_players_who_left() {
    let mut room = room_of_three();
    room.players[2].status = PlayerStatus::Left;
    room.start_game(2, 60, "t".to_string());
    room.choose_drawer("1".to_string());
    assert!(!room.has_all_players_drawn_in_round());
    room.choose_drawer("2".to_string());
    assert_eq!(room.current_drawer_index, Some(1));
    assert!(room.has_all_players_drawn_in_round());
}

#[test]
fn two_rounds_then_game_ends() {
    let mut room = room_of_three();
    room.start_game(2, 60, "t".to_string());
    assert_eq!(room.game_state, GameState::ChoosingDrawer);
    room.choose_drawer("d".to_string());
    room.add_chat_message(line("B", "cat"));
    room.advance_to_next_round("r".to_string());
    assert_eq!(room.current_round, 2);
    assert_eq!(room.game_state, GameState::ChoosingDrawer);
    assert_eq!(room.current_drawer_index, None);
    assert!(room.chat_messages.is_empty());
    room.add_chat_message(line("C", "dog"));
    room.advance_to_next_round("r".to_string());
    assert_eq!(room.current_round, 2);
    assert_eq!(room.game_state, GameState::GameEnded);
    assert_eq!(room.chat_messages.len(), 1);
}

#[test]
fn award_points_marks_first_player_of_that_name() {
    let mut room = room_of_three();
    room.add_player(player("d", "B"));
    room.award_points("B", 90);
    assert_eq!(room.players[1].score, 90);
    assert!(room.players[1].has_guessed);
    assert_eq!(room.players[3].score, 0);
    assert!(!room.players[3].has_guessed);
    room.award_points("B", 10);
    assert_eq!(room.players[1].score, 100);
    room.award_points("nobody", 10);
    assert_eq!(room.players.iter().map(|p| p.score).sum::<u32>(), 100);
}

#[test]
fn current_drawer_follows_the_pointer() {
    let mut room = room_of_three();
    assert!(room.get_current_drawer().is_none());
    room.current_drawer_index = Some(2);
    assert_eq!(room.get_current_drawer().map(|p| p.name.clone()), Some("C".to_string()));
    room.current_drawer_index = Some(3);
    assert!(room.get_current_drawer().is_none());
}

#[test]
fn first_and_next_active_index() {
    let mut room = room_of_three();
    room.players[0].status = PlayerStatus::Left;
    assert_eq!(room.first_active_index(), Some(1));
    assert_eq!(room.next_active_index_after(1), Some(2));
    assert_eq!(room.next_active_index_after(2), Some(1));
    assert_eq!(room.next_active_index_after(0), Some(1));
    assert_eq!(room.next_active_index_after(usize::MAX), Some(1));
    room.players[2].status = PlayerStatus::Left;
    assert_eq!(room.next_active_index_after(1), Some(1));
    room.players[1].status = PlayerStatus::Left;
    assert_eq!(room.first_active_index(), None);
    assert_eq!(room.next_active_index_after(1), None);
}

#[test]
fn host_leaves_and_the_turn_moves_on() {
    let mut room = room_of_three();
    room.start_game(2, 60, "t".to_string());
    assert_eq!(room.current_round, 1);
    assert_eq!(room.game_state, GameState::ChoosingDrawer);
    assert_eq!(room.choose_drawer("d1".to_string()), Some(0));
    room.mark_player_left(&"a".to_string());
    assert_eq!(room.players.len(), 3);
    assert_eq!(room.players[0].status, PlayerStatus::Left);
    assert_eq!(room.current_drawer_index, None);
    assert_eq!(room.game_state, GameState::ChoosingDrawer);
    assert_eq!(room.drawer_chosen_at, None);
    assert_eq!(room.choose_drawer("d2".to_string()), Some(1));
}

#[test]
fn guest_leaves_and_the_drawer_stays() {
    let mut room = room_of_three();
    room.start_game(2, 60, "t".to_string());
    room.choose_drawer("d1".to_string());
    room.players[2].has_guessed = true;
    room.mark_player_left(&"c".to_string());
    assert_eq!(room.players[2].status, PlayerStatus::Left);
    assert!(!room.players[2].has_guessed);
    assert_eq!(room.current_drawer_index, Some(0));
    assert_eq!(room.game_state, GameState::WaitingForWord);
    room.mark_player_left(&"zzz".to_string());
    assert_eq!(room.players.iter().filter(|p| p.status == PlayerStatus::Left).count(), 1);
}

#[test]
fn end_match_leaves_the_room_alone() {
    let mut room = room_of_three();
    let before = room.clone();
    room.end_match("t".to_string());
    assert_eq!(room, before);
}

#[test]
fn default_status_is_active() {
    assert_eq!(PlayerStatus::default(), PlayerStatus::Active);
}

#[test]
fn the_chat_gives_up_its_oldest_line_for_the_eleventh() {
    let mut room = room_of_three();
    for k in 0..10 {
        room.add_chat_message(line("B", &format!("{}", k)));
    }
    assert_eq!(room.chat_messages.len(), 10);
    assert_eq!(room.chat_messages[0].message, "0");
    room.add_chat_message(line("C", "10"));
    assert_eq!(room.chat_messages.len(), 10);
    assert_eq!(room.chat_messages[0].message, "1");
    assert_eq!(room.chat_messages[9].message, "10");
    assert_eq!(room.chat_messages[9].player_name, "C");
}

#[test]
fn a_roster_never_holds_a_replica_twice() {
    let mut room = room_of_three();
    for _ in 0..3 {
        room.add_player(player("a", "A2"));
        room.add_player(player("d", "D"));
        room.add_player(player("b", "B2"));
    }
    let ids: Vec<&str> = room.players.iter().map(|p| p.chain_id.as_str()).collect();
    assert_eq!(ids, vec!["a", "b", "c", "d"]);
    assert_eq!(room.players[0].name, "A2");
}
