use doodle_game::{
    Action, ArchivedRoom, Context, CrossChainMessage, DoodleEvent, DoodleGameContract, GameRoom, GameState,
    Operation, Player, PlayerStatus, Rejection,
};

fn chain(n: u8) -> String {
    format!("{:064x}", n)
}

fn ctx(n: u8, now: u64) -> Context {
    Context { chain_id: chain(n), now_micros: now }
}

fn hosted() -> DoodleGameContract {
    let mut replica = DoodleGameContract::new();
    replica
        .execute_operation(
            &ctx(1, 1000),
            Operation::CreateRoom { host_name: "A".to_string(), avatar_json: "{}".to_string() },
        )
        .unwrap();
    replica
}

fn join(n: u8, name: &str) -> CrossChainMessage {
    CrossChainMessage::JoinRequest {
        player_chain_id: chain(n),
        player_name: name.to_string(),
        avatar_json: "av".to_string(),
    }
}

#[test]
fn join_request_adds_the_player_and_sends_a_snapshot() {
    let mut replica = hosted();
    let actions = replica.execute_message(&ctx(1, 2000), join(2, "B")).unwrap();
    let room = replica.state.room.clone().unwrap();
    assert_eq!(room.players.len(), 2);
    let player = Player {
        chain_id: chain(2),
        name: "B".to_string(),
        avatar_json: "av".to_string(),
        score: 0,
        has_guessed: false,
        status: PlayerStatus::Active,
    };
    assert_eq!(room.players[1], player);
    let stream = "game_events_1000".to_string();
    assert_eq!(
        actions,
        vec![
            Action::Subscribe { chain_id: chain(2), stream: stream.clone() },
            Action::SendMessage {
                target: chain(2),
                message: CrossChainMessage::InitialStateSync { room_data: room },
            },
            Action::Emit { stream, event: DoodleEvent::PlayerJoined { player, timestamp: "2000".to_string() } },
        ]
    );
}

#[test]
fn join_request_twice_keeps_one_entry() {
    let mut replica = hosted();
    replica.execute_message(&ctx(1, 2000), join(2, "B")).unwrap();
    replica.state.room.as_mut().unwrap().players[1].score = 50;
    replica.state.room.as_mut().unwrap().players[1].status = PlayerStatus::Left;
    replica.execute_message(&ctx(1, 2001), join(2, "Bee")).unwrap();
    let room = replica.state.room.as_ref().unwrap();
    assert_eq!(room.players.len(), 2);
    assert_eq!(room.players[1].name, "Bee");
    assert_eq!(room.players[1].score, 50);
    assert_eq!(room.players[1].status, PlayerStatus::Active);
}

#[test]
fn join_request_on_a_guest_replica_does_not_subscribe() {
    let mut replica = hosted();
    let actions = replica.execute_message(&ctx(5, 2000), join(2, "B")).unwrap();
    assert_eq!(actions.len(), 2);
    assert!(matches!(actions[0], Action::SendMessage { .. }));
    assert!(matches!(actions[1], Action::Emit { .. }));
}

#[test]
fn join_request_without_a_room_is_ignored() {
    let mut replica = DoodleGameContract::new();
    assert_eq!(replica.execute_message(&ctx(1, 2000), join(2, "B")), Ok(vec![]));
    assert_eq!(replica.state, DoodleGameContract::new().state);
}

#[test]
fn join_request_of_an_unreadable_replica_is_refused() {
    let mut replica = hosted();
    let before = replica.state.clone();
    let r = replica.execute_message(
        &ctx(1, 2000),
        CrossChainMessage::JoinRequest {
            player_chain_id: "me".to_string(),
            player_name: "B".to_string(),
            avatar_json: String::new(),
        },
    );
    assert_eq!(r, Err(Rejection::InvalidChainId));
    assert_eq!(replica.state, before);
}

fn snapshot() -> GameRoom {
    let mut room = GameRoom::new(chain(1), "A".to_string(), String::new(), "1000".to_string(), None);
    room.start_game(3, 80, "t".to_string());
    room
}

#[test]
fn snapshot_replaces_the_room_and_subscribes_once() {
    let mut replica = DoodleGameContract::new();
    let first = replica
        .execute_message(&ctx(2, 2000), CrossChainMessage::InitialStateSync { room_data: snapshot() })
        .unwrap();
    assert_eq!(first, vec![Action::Subscribe { chain_id: chain(1), stream: "game_events_1000".to_string() }]);
    assert_eq!(replica.state.room, Some(snapshot()));
    assert_eq!(replica.state.subscribed_to_host, Some(chain(1)));
    let mut later = snapshot();
    later.current_round = 2;
    let second = replica
        .execute_message(&ctx(2, 2001), CrossChainMessage::InitialStateSync { room_data: later.clone() })
        .unwrap();
    assert_eq!(second, vec![]);
    assert_eq!(replica.state.room, Some(later));
}

#[test]
fn snapshot_of_an_unreadable_host_is_kept_without_subscription() {
    let mut replica = DoodleGameContract::new();
    let mut room = snapshot();
    room.host_chain_id = "nobody".to_string();
    let actions = replica
        .execute_message(&ctx(2, 2000), CrossChainMessage::InitialStateSync { room_data: room.clone() })
        .unwrap();
    assert_eq!(actions, vec![]);
    assert_eq!(replica.state.room, Some(room));
    assert_eq!(replica.state.subscribed_to_host, None);
}

fn record(name: &str) -> ArchivedRoom {
    ArchivedRoom { room_id: name.to_string(), blob_hashes: vec!["h".to_string()], timestamp: "9".to_string() }
}

#[test]
fn room_deleted_archives_once_and_forgets_the_room() {
    let mut replica = DoodleGameContract::new();
    replica.execute_message(&ctx(2, 2000), CrossChainMessage::InitialStateSync { room_data: snapshot() }).unwrap();
    replica.state.current_word = Some("cat".to_string());
    let deleted = |name: &str| CrossChainMessage::RoomDeleted {
        timestamp: "9".to_string(),
        archived_room: Some(record(name)),
    };
    let actions = replica.execute_message(&ctx(2, 3000), deleted("1000#1")).unwrap();
    assert_eq!(actions, vec![Action::Unsubscribe { chain_id: chain(1), stream: "game_events_1000".to_string() }]);
    assert_eq!(replica.state.room, None);
    assert_eq!(replica.state.current_word, None);
    assert_eq!(replica.state.subscribed_to_host, None);
    assert_eq!(replica.state.archived_rooms, vec![record("1000#1")]);
    let again = replica.execute_message(&ctx(2, 3001), deleted("1000#1")).unwrap();
    assert_eq!(again, vec![]);
    assert_eq!(replica.state.archived_rooms.len(), 1);
    replica.execute_message(&ctx(2, 3002), deleted("1000#2")).unwrap();
    assert_eq!(replica.state.archived_rooms.len(), 2);
    replica
        .execute_message(
            &ctx(2, 3003),
            CrossChainMessage::RoomDeleted { timestamp: "9".to_string(), archived_room: None },
        )
        .unwrap();
    assert_eq!(replica.state.archived_rooms.len(), 2);
}

#[test]
fn player_left_marks_the_player_and_tells_the_others() {
    let mut replica = hosted();
    replica.execute_message(&ctx(1, 2000), join(2, "B")).unwrap();
    replica.execute_operation(&ctx(1, 2001), Operation::StartGame { rounds: 2, seconds_per_round: 60 }).unwrap();
    replica.execute_operation(&ctx(1, 2002), Operation::ChooseDrawer).unwrap();
    assert_eq!(replica.state.room.as_ref().unwrap().current_drawer_index, Some(1));
    let left = CrossChainMessage::PlayerLeft {
        player_chain_id: chain(2),
        player_name: Some("B".to_string()),
        timestamp: "77".to_string(),
    };
    let actions = replica.execute_message(&ctx(1, 3000), left).unwrap();
    let stream = "game_events_1000".to_string();
    assert_eq!(
        actions,
        vec![
            Action::Unsubscribe { chain_id: chain(2), stream: stream.clone() },
            Action::Emit {
                stream,
                event: DoodleEvent::PlayerLeft { player_chain_id: chain(2), timestamp: "77".to_string() },
            },
        ]
    );
    let room = replica.state.room.as_ref().unwrap();
    assert_eq!(room.players[1].status, PlayerStatus::Left);
    assert_eq!(room.current_drawer_index, None);
    assert_eq!(room.game_state, GameState::ChoosingDrawer);
}

#[test]
fn player_left_without_a_room_is_ignored() {
    let mut replica = DoodleGameContract::new();
    let left = CrossChainMessage::PlayerLeft {
        player_chain_id: chain(2),
        player_name: None,
        timestamp: "77".to_string(),
    };
    assert_eq!(replica.execute_message(&ctx(1, 3000), left), Ok(vec![]));
}
