use doodle_game::{
    Action, Context, CrossChainMessage, DoodleEvent, DoodleGameContract, GameState, Operation, Player,
    PlayerStatus, Rejection,
};

fn chain(n: u8) -> String {
    format!("{:064x}", n)
}

fn ctx(n: u8, now: u64) -> Context {
    Context { chain_id: chain(n), now_micros: now }
}

fn guest(n: u8, name: &str) -> Player {
    Player {
        chain_id: chain(n),
        name: name.to_string(),
        avatar_json: String::new(),
        score: 0,
        has_guessed: false,
        status: PlayerStatus::Active,
    }
}

fn hosted(players: &[(u8, &str)]) -> DoodleGameContract {
    let mut replica = DoodleGameContract::new();
    let made = replica.execute_operation(
        &ctx(1, 1000),
        Operation::CreateRoom { host_name: "A".to_string(), avatar_json: "{}".to_string() },
    );
    assert!(made.is_ok());
    for (n, name) in players {
        replica.state.room.as_mut().unwrap().add_player(guest(*n, name));
    }
    replica
}

#[test]
fn create_room_names_the_room_by_the_clock() {
    let mut replica = DoodleGameContract::new();
    let actions = replica
        .execute_operation(
            &ctx(1, 1234567),
            Operation::CreateRoom { host_name: "A".to_string(), avatar_json: "{}".to_string() },
        )
        .unwrap();
    let room = replica.state.room.as_ref().unwrap();
    assert_eq!(room.room_id, "1234567");
    assert_eq!(room.host_chain_id, chain(1));
    assert_eq!(room.players.len(), 1);
    assert_eq!(room.leaderboard_chain_id, None);
    assert_eq!(
        actions,
        vec![Action::Subscribe { chain_id: chain(1), stream: "game_events_1234567".to_string() }]
    );
}

#[test]
fn create_room_at_time_zero_and_at_the_end_of_time() {
    let mut replica = DoodleGameContract::new();
    replica
        .execute_operation(
            &ctx(1, 0),
            Operation::CreateRoom { host_name: "A".to_string(), avatar_json: String::new() },
        )
        .unwrap();
    assert_eq!(replica.state.room.as_ref().unwrap().room_id, "0");
    replica
        .execute_operation(
            &ctx(1, u64::MAX),
            Operation::CreateRoom { host_name: "A".to_string(), avatar_json: String::new() },
        )
        .unwrap();
    assert_eq!(replica.state.room.as_ref().unwrap().room_id, "18446744073709551615");
}

#[test]
fn join_room_addresses_the_host_in_lower_case() {
    let mut replica = DoodleGameContract::new();
    let host = "AB".repeat(32);
    let actions = replica
        .execute_operation(
            &ctx(2, 5),
            Operation::JoinRoom { host_chain_id: host, player_name: "B".to_string(), avatar_json: "x".to_string() },
        )
        .unwrap();
    assert_eq!(
        actions,
        vec![Action::SendMessage {
            target: "ab".repeat(32),
            message: CrossChainMessage::JoinRequest {
                player_chain_id: chain(2),
                player_name: "B".to_string(),
                avatar_json: "x".to_string(),
            },
        }]
    );
    assert_eq!(replica.state, DoodleGameContract::new().state);
}

#[test]
fn join_room_refuses_a_text_that_is_no_identifier() {
    let mut replica = DoodleGameContract::new();
    for bad in ["", "abc", &"g".repeat(64), &"a".repeat(63), &"a".repeat(65), &"a".repeat(66), &"é".repeat(32)] {
        let r = replica.execute_operation(
            &ctx(2, 5),
            Operation::JoinRoom {
                host_chain_id: bad.to_string(),
                player_name: "B".to_string(),
                avatar_json: String::new(),
            },
        );
        assert_eq!(r, Err(Rejection::InvalidChainId));
    }
}

#[test]
fn start_game_needs_a_room() {
    let mut replica = DoodleGameContract::new();
    let r = replica.execute_operation(&ctx(1, 5), Operation::StartGame { rounds: 2, seconds_per_round: 60 });
    assert_eq!(r, Err(Rejection::NoActiveRoom));
    assert_eq!(replica.execute_operation(&ctx(1, 5), Operation::ChooseDrawer), Err(Rejection::NoActiveRoom));
    assert_eq!(
        replica.execute_operation(&ctx(1, 5), Operation::ChooseWord { word: "cat".to_string() }),
        Err(Rejection::NoActiveRoom)
    );
    assert_eq!(
        replica.execute_operation(&ctx(1, 5), Operation::GuessWord { guess: "cat".to_string() }),
        Err(Rejection::NoActiveRoom)
    );
    assert_eq!(replica.execute_operation(&ctx(1, 5), Operation::EndMatch), Err(Rejection::NoActiveRoom));
    assert_eq!(
        replica.execute_operation(&ctx(1, 5), Operation::LeaveRoom { blob_hashes: None }),
        Err(Rejection::NoActiveRoom)
    );
}

#[test]
fn start_game_announces_the_first_drawer_and_cancels_invitations() {
    let mut replica = hosted(&[(2, "B"), (3, "C")]);
    replica.state.sent_invitations = vec![chain(7), "junk".to_string(), chain(8)];
    let actions = replica
        .execute_operation(&ctx(1, 2000), Operation::StartGame { rounds: 2, seconds_per_round: 60 })
        .unwrap();
    let cancel = |n: u8| Action::SendMessage {
        target: chain(n),
        message: CrossChainMessage::RoomInvitationCancelled { host_chain_id: chain(1) },
    };
    assert_eq!(
        actions,
        vec![
            cancel(7),
            cancel(8),
            Action::Emit {
                stream: "game_events_1000".to_string(),
                event: DoodleEvent::GameStarted {
                    rounds: 2,
                    seconds_per_round: 60,
                    drawer_index: 0,
                    drawer_name: "A".to_string(),
                    timestamp: "2000".to_string(),
                },
            },
        ]
    );
    assert!(replica.state.sent_invitations.is_empty());
    let room = replica.state.room.as_ref().unwrap();
    assert_eq!(room.current_round, 1);
    assert_eq!(room.total_rounds, 2);
    assert_eq!(room.game_state, GameState::WaitingForWord);
    assert_eq!(room.current_drawer_index, Some(0));
    assert_eq!(room.drawer_chosen_at, Some("2000".to_string()));
}

#[test]
fn start_game_without_active_players_keeps_the_room() {
    let mut replica = hosted(&[]);
    replica.state.room.as_mut().unwrap().players[0].status = PlayerStatus::Left;
    replica.state.sent_invitations = vec![chain(7)];
    let before = replica.state.room.clone();
    let actions = replica
        .execute_operation(&ctx(1, 2000), Operation::StartGame { rounds: 2, seconds_per_round: 60 })
        .unwrap();
    assert_eq!(actions.len(), 1);
    assert_eq!(replica.state.room, before);
    assert!(replica.state.sent_invitations.is_empty());
}

#[test]
fn choose_drawer_is_for_the_host_only() {
    let mut replica = hosted(&[(2, "B")]);
    let before = replica.state.clone();
    assert_eq!(replica.execute_operation(&ctx(2, 5), Operation::ChooseDrawer), Err(Rejection::NotHost));
    assert_eq!(replica.state, before);
    replica.state.room.as_mut().unwrap().host_chain_id = "nobody".to_string();
    assert_eq!(replica.execute_operation(&ctx(1, 5), Operation::ChooseDrawer), Err(Rejection::InvalidChainId));
}

#[test]
fn choose_drawer_without_active_players_is_refused() {
    let mut replica = hosted(&[]);
    replica.state.room.as_mut().unwrap().players[0].status = PlayerStatus::Left;
    let before = replica.state.clone();
    assert_eq!(replica.execute_operation(&ctx(1, 5), Operation::ChooseDrawer), Err(Rejection::NoActivePlayer));
    assert_eq!(replica.state, before);
}

#[test]
fn choose_drawer_walks_the_roster_and_ends_rounds() {
    let mut replica = hosted(&[(2, "B")]);
    replica.execute_operation(&ctx(1, 10), Operation::StartGame { rounds: 2, seconds_per_round: 60 }).unwrap();
    replica.state.room.as_mut().unwrap().players[0].score = 100;
    let chosen = |index: usize, name: &str, at: &str| Action::Emit {
        stream: "game_events_1000".to_string(),
        event: DoodleEvent::DrawerChosen {
            drawer_index: index,
            drawer_name: name.to_string(),
            timestamp: at.to_string(),
            previous_blob_hash: None,
        },
    };
    let second = replica.execute_operation(&ctx(1, 20), Operation::ChooseDrawer).unwrap();
    assert_eq!(second, vec![chosen(1, "B", "20")]);
    let next_round = replica.execute_operation(&ctx(1, 30), Operation::ChooseDrawer).unwrap();
    assert_eq!(
        next_round,
        vec![
            Action::Emit {
                stream: "game_events_1000".to_string(),
                event: DoodleEvent::RoundEnded {
                    scores: vec![("A".to_string(), 100), ("B".to_string(), 0)],
                    timestamp: "30".to_string(),
                },
            },
            chosen(0, "A", "30"),
        ]
    );
    assert_eq!(replica.state.room.as_ref().unwrap().current_round, 2);
    replica.execute_operation(&ctx(1, 40), Operation::ChooseDrawer).unwrap();
    let ended = replica.execute_operation(&ctx(1, 50), Operation::ChooseDrawer).unwrap();
    assert_eq!(
        ended,
        vec![Action::Emit {
            stream: "game_events_1000".to_string(),
            event: DoodleEvent::GameEnded {
                final_scores: vec![("A".to_string(), 100), ("B".to_string(), 0)],
                timestamp: "50".to_string(),
            },
        }]
    );
    let room = replica.state.room.as_ref().unwrap();
    assert_eq!(room.game_state, GameState::GameEnded);
    assert_eq!(room.current_round, 2);
}

#[test]
fn choose_word_is_for_the_drawer_only() {
    let mut replica = hosted(&[(2, "B")]);
    assert_eq!(
        replica.execute_operation(&ctx(1, 5), Operation::ChooseWord { word: "cat".to_string() }),
        Err(Rejection::NotDrawer)
    );
    replica.execute_operation(&ctx(1, 10), Operation::StartGame { rounds: 2, seconds_per_round: 60 }).unwrap();
    let before = replica.state.clone();
    assert_eq!(
        replica.execute_operation(&ctx(2, 20), Operation::ChooseWord { word: "cat".to_string() }),
        Err(Rejection::NotDrawer)
    );
    assert_eq!(replica.state, before);
    let actions = replica.execute_operation(&ctx(1, 30), Operation::ChooseWord { word: "cat".to_string() }).unwrap();
    assert_eq!(
        actions,
        vec![Action::Emit {
            stream: "game_events_1000".to_string(),
            event: DoodleEvent::WordChosen { timestamp: "30".to_string() },
        }]
    );
    assert_eq!(replica.state.current_word, Some("cat".to_string()));
    let room = replica.state.room.as_ref().unwrap();
    assert_eq!(room.game_state, GameState::Drawing);
    assert_eq!(room.word_chosen_at, Some("30".to_string()));
}

#[test]
fn guess_word_goes_to_the_drawer() {
    let mut replica = hosted(&[(2, "B")]);
    assert_eq!(
        replica.execute_operation(&ctx(2, 5), Operation::GuessWord { guess: "cat".to_string() }),
        Err(Rejection::NoDrawer)
    );
    replica.execute_operation(&ctx(1, 10), Operation::StartGame { rounds: 2, seconds_per_round: 60 }).unwrap();
    let before = replica.state.clone();
    let actions = replica.execute_operation(&ctx(2, 20), Operation::GuessWord { guess: "cat".to_string() }).unwrap();
    assert_eq!(
        actions,
        vec![Action::SendMessage {
            target: chain(1),
            message: CrossChainMessage::GuessSubmission {
                guesser_chain_id: chain(2),
                guess: "cat".to_string(),
                round: 1,
            },
        }]
    );
    assert_eq!(replica.state, before);
    replica.state.room.as_mut().unwrap().players[0].chain_id = "???".to_string();
    assert_eq!(
        replica.execute_operation(&ctx(2, 20), Operation::GuessWord { guess: "cat".to_string() }),
        Err(Rejection::InvalidChainId)
    );
}

#[test]
fn read_data_blob_needs_a_hash() {
    let mut replica = DoodleGameContract::new();
    assert_eq!(
        replica.execute_operation(&ctx(1, 5), Operation::ReadDataBlob { hash: "CD".repeat(32) }),
        Ok(vec![Action::ReadDataBlob { hash: "cd".repeat(32) }])
    );
    assert_eq!(
        replica.execute_operation(&ctx(1, 5), Operation::ReadDataBlob { hash: "xyz".to_string() }),
        Err(Rejection::InvalidBlobHash)
    );
}

#[test]
fn instantiate_clears_the_replica() {
    let mut replica = hosted(&[(2, "B")]);
    replica.state.friends = vec![chain(3)];
    replica.state.current_word = Some("cat".to_string());
    replica.state.last_notification = Some("hello".to_string());
    replica.state.matchmaking_queue_size = 3;
    replica.instantiate();
    assert_eq!(replica.state.room, None);
    assert_eq!(replica.state.current_word, None);
    assert!(replica.state.friends.is_empty());
    assert_eq!(replica.state.last_notification, None);
    assert_eq!(replica.state.matchmaking_queue_size, 3);
}
