use doodle_game::{
    Action, ArchivedRoom, Context, CrossChainMessage, DoodleEvent, DoodleGameContract, LeaderboardEntry, Operation,
    Player, PlayerStatus, Rejection,
};

fn chain(n: u8) -> String {
    format!("{:064x}", n)
}

fn ctx(n: u8, now: u64) -> Context {
    Context { chain_id: chain(n), now_micros: now }
}

fn guest(n: u8, name: &str) -> Player {
    Player {
        chain_id: chain(n),
        name: name.to_string(),
        avatar_json: String::new(),
        score: 0,
        has_guessed: false,
        status: PlayerStatus::Active,
    }
}

fn hosted() -> DoodleGameContract {
    let mut replica = DoodleGameContract::new();
    replica
        .execute_operation(
            &ctx(1, 1000),
            Operation::CreateRoom { host_name: "A".to_string(), avatar_json: "{}".to_string() },
        )
        .unwrap();
    let room = replica.state.room.as_mut().unwrap();
    room.add_player(guest(2, "B"));
    let mut odd = guest(3, "C");
    odd.chain_id = "not a chain".to_string();
    room.add_player(odd);
    room.players[0].score = 30;
    room.players[1].score = 120;
    room.blob_hashes = vec!["h1".to_string(), "h2".to_string()];
    replica
}

fn lines() -> Vec<LeaderboardEntry> {
    vec![
        LeaderboardEntry { player_name: "A".to_string(), chain_id: chain(1), score: 30 },
        LeaderboardEntry { player_name: "B".to_string(), chain_id: chain(2), score: 120 },
        LeaderboardEntry { player_name: "C".to_string(), chain_id: "not a chain".to_string(), score: 0 },
    ]
}

#[test]
fn end_match_is_for_the_host_only() {
    let mut replica = hosted();
    let before = replica.state.clone();
    assert_eq!(replica.execute_operation(&ctx(2, 5), Operation::EndMatch), Err(Rejection::NotHost));
    assert_eq!(replica.state, before);
}

#[test]
fn end_match_archives_tells_everyone_and_clears_the_room_last() {
    let mut replica = hosted();
    replica.state.current_word = Some("cat".to_string());
    replica.state.room.as_mut().unwrap().leaderboard_chain_id = Some(chain(9));
    let actions = replica.execute_operation(&ctx(1, 5000), Operation::EndMatch).unwrap();
    let archive = ArchivedRoom {
        room_id: "1000#1".to_string(),
        blob_hashes: vec!["h1".to_string(), "h2".to_string()],
        timestamp: "5000".to_string(),
    };
    let deleted = |n: u8| Action::SendMessage {
        target: chain(n),
        message: CrossChainMessage::RoomDeleted {
            timestamp: "5000".to_string(),
            archived_room: Some(archive.clone()),
        },
    };
    let stream = "game_events_1000".to_string();
    assert_eq!(
        actions,
        vec![
            deleted(1),
            deleted(2),
            Action::SendMessage {
                target: chain(9),
                message: CrossChainMessage::UpdateLeaderboard { entries: lines() },
            },
            Action::Emit { stream: stream.clone(), event: DoodleEvent::MatchEnded { timestamp: "5000".to_string() } },
            Action::Unsubscribe { chain_id: chain(1), stream: stream.clone() },
            Action::Unsubscribe { chain_id: chain(2), stream: stream.clone() },
        ]
    );
    assert_eq!(replica.state.room, None);
    assert_eq!(replica.state.current_word, None);
    assert_eq!(replica.state.archived_rooms, vec![archive]);
}

#[test]
fn archives_are_numbered_per_replica() {
    let mut replica = hosted();
    replica.state.archived_rooms = vec![
        ArchivedRoom { room_id: "5#1".to_string(), blob_hashes: vec![], timestamp: "6".to_string() },
        ArchivedRoom { room_id: "7#2".to_string(), blob_hashes: vec![], timestamp: "8".to_string() },
    ];
    replica.execute_operation(&ctx(1, 5000), Operation::EndMatch).unwrap();
    assert_eq!(replica.state.archived_rooms.len(), 3);
    assert_eq!(replica.state.archived_rooms[2].room_id, "1000#3");
}

#[test]
fn host_leaving_terminates_the_room_with_the_given_hashes() {
    let mut replica = hosted();
    let actions = replica
        .execute_operation(&ctx(1, 5000), Operation::LeaveRoom { blob_hashes: Some(vec!["x".to_string()]) })
        .unwrap();
    let archive = ArchivedRoom {
        room_id: "1000#1".to_string(),
        blob_hashes: vec!["x".to_string()],
        timestamp: "5000".to_string(),
    };
    let deleted = |n: u8| Action::SendMessage {
        target: chain(n),
        message: CrossChainMessage::RoomDeleted {
            timestamp: "5000".to_string(),
            archived_room: Some(archive.clone()),
        },
    };
    let stream = "game_events_1000".to_string();
    assert_eq!(
        actions,
        vec![
            deleted(1),
            deleted(2),
            Action::Emit { stream: stream.clone(), event: DoodleEvent::MatchEnded { timestamp: "5000".to_string() } },
            Action::Unsubscribe { chain_id: chain(1), stream: stream.clone() },
            Action::Unsubscribe { chain_id: chain(2), stream },
        ]
    );
    assert_eq!(replica.state.room, None);
    assert_eq!(replica.state.archived_rooms, vec![archive]);
}

#[test]
fn host_leaving_without_hashes_archives_those_of_the_room() {
    for given in [None, Some(vec![])] {
        let mut replica = hosted();
        replica.state.room.as_mut().unwrap().leaderboard_chain_id = Some(chain(9));
        let actions = replica.execute_operation(&ctx(1, 5000), Operation::LeaveRoom { blob_hashes: given }).unwrap();
        assert_eq!(replica.state.archived_rooms[0].blob_hashes, vec!["h1".to_string(), "h2".to_string()]);
        assert_eq!(actions.len(), 6);
        assert_eq!(
            actions[2],
            Action::SendMessage {
                target: chain(9),
                message: CrossChainMessage::UpdateLeaderboard { entries: lines() },
            }
        );
    }
}

#[test]
fn ending_the_match_and_leaving_as_host_do_the_same() {
    let mut ended = hosted();
    let mut left = hosted();
    let first = ended.execute_operation(&ctx(1, 5000), Operation::EndMatch).unwrap();
    let second = left.execute_operation(&ctx(1, 5000), Operation::LeaveRoom { blob_hashes: None }).unwrap();
    assert_eq!(first, second);
    assert_eq!(ended.state, left.state);
}

#[test]
fn guest_leaving_tells_the_host_and_forgets_the_room() {
    let mut replica = hosted();
    replica.state.subscribed_to_host = Some(chain(1));
    replica.state.current_word = Some("cat".to_string());
    let actions = replica.execute_operation(&ctx(2, 5000), Operation::LeaveRoom { blob_hashes: None }).unwrap();
    assert_eq!(
        actions,
        vec![
            Action::SendMessage {
                target: chain(1),
                message: CrossChainMessage::PlayerLeft {
                    player_chain_id: chain(2),
                    player_name: Some("B".to_string()),
                    timestamp: "5000".to_string(),
                },
            },
            Action::Unsubscribe { chain_id: chain(1), stream: "game_events_1000".to_string() },
        ]
    );
    assert_eq!(replica.state.room, None);
    assert_eq!(replica.state.current_word, None);
    assert_eq!(replica.state.subscribed_to_host, None);
    assert!(replica.state.archived_rooms.is_empty());
}

#[test]
fn stranger_leaving_has_no_name() {
    let mut replica = hosted();
    let actions = replica.execute_operation(&ctx(8, 5000), Operation::LeaveRoom { blob_hashes: None }).unwrap();
    match &actions[0] {
        Action::SendMessage { message: CrossChainMessage::PlayerLeft { player_name, .. }, .. } => {
            assert_eq!(*player_name, None)
        }
        other => panic!("unexpected action {:?}", other),
    }
}

#[test]
fn leaving_a_room_with_an_unreadable_host_is_refused() {
    let mut replica = hosted();
    replica.state.room.as_mut().unwrap().host_chain_id = "nobody".to_string();
    let before = replica.state.clone();
    assert_eq!(
        replica.execute_operation(&ctx(2, 5), Operation::LeaveRoom { blob_hashes: None }),
        Err(Rejection::InvalidChainId)
    );
    assert_eq!(replica.state, before);
}
