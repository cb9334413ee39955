use doodle_game::{Action, Context, DoodleGameContract, GameState, Operation, Rejection, StreamUpdate};

fn chain(n: u8) -> String {
    format!("{:064x}", n)
}

/// Three replicas and the messages and log entries on their way.
struct Network {
    replicas: Vec<DoodleGameContract>,
    clock: u64,
}

impl Network {
    fn new() -> Network {
        Network { replicas: (0..3).map(|_| DoodleGameContract::new()).collect(), clock: 1000 }
    }

    fn ctx(&mut self, n: usize) -> Context {
        self.clock += 1;
        Context { chain_id: chain(n as u8 + 1), now_micros: self.clock }
    }

    fn index_of(&self, id: &str) -> usize {
        (0..3).find(|n| chain(*n as u8 + 1) == id).unwrap()
    }

    /// Runs an operation on replica `n` and delivers whatever follows from it.
    fn operate(&mut self, n: usize, operation: Operation) -> Result<(), Rejection> {
        let ctx = self.ctx(n);
        let actions = self.replicas[n].execute_operation(&ctx, operation)?;
        self.deliver(n, actions);
        Ok(())
    }

    /// Delivers messages to their targets and events to every other replica
    /// that holds the room, as a runtime with one log per replica would.
    fn deliver(&mut self, from: usize, actions: Vec<Action>) {
        for action in actions {
            match action {
                Action::SendMessage { target, message } => {
                    let to = self.index_of(&target);
                    let ctx = self.ctx(to);
                    let next = self.replicas[to].execute_message(&ctx, message).unwrap();
                    self.deliver(to, next);
                }
                Action::Emit { event, .. } => {
                    for to in 0..3 {
                        let follows = to != from && (from == 0 || to == 0);
                        if follows && self.replicas[to].state.room.is_some() {
                            let ctx = self.ctx(to);
                            let update = StreamUpdate { chain_id: chain(from as u8 + 1), events: vec![event.clone()] };
                            let next = self.replicas[to].process_streams(&ctx, vec![update]).unwrap();
                            self.deliver(to, next);
                        }
                    }
                }
                _ => {}
            }
        }
    }

    fn room(&self, n: usize) -> &doodle_game::GameRoom {
        self.replicas[n].state.room.as_ref().unwrap()
    }
}

fn joined() -> Network {
    let mut net = Network::new();
    net.operate(0, Operation::CreateRoom { host_name: "A".to_string(), avatar_json: String::new() }).unwrap();
    for (n, name) in [(1, "B"), (2, "C")] {
        net.operate(
            n,
            Operation::JoinRoom { host_chain_id: chain(1), player_name: name.to_string(), avatar_json: String::new() },
        )
        .unwrap();
    }
    net
}

#[test]
fn guests_hold_the_host_s_room_after_joining() {
    let net = joined();
    assert_eq!(net.room(0).players.len(), 3);
    assert_eq!(net.room(1), net.room(0));
    assert_eq!(net.room(2), net.room(0));
    assert_eq!(net.replicas[1].state.subscribed_to_host, Some(chain(1)));
}

#[test]
fn guests_follow_the_host_through_the_game() {
    let mut net = joined();
    net.operate(0, Operation::StartGame { rounds: 2, seconds_per_round: 60 }).unwrap();
    assert_eq!(net.room(0).current_drawer_index, Some(0));
    assert_eq!(net.room(1), net.room(0));
    assert_eq!(net.room(2), net.room(0));
    for expected in [Some(1), Some(2)] {
        net.operate(0, Operation::ChooseDrawer).unwrap();
        assert_eq!(net.room(0).current_drawer_index, expected);
        assert_eq!(net.room(1), net.room(0));
        assert_eq!(net.room(2), net.room(0));
    }
    net.operate(0, Operation::ChooseDrawer).unwrap();
    assert_eq!(net.room(0).current_round, 2);
    assert_eq!(net.room(0).current_drawer_index, Some(0));
    assert_eq!(net.room(1), net.room(0));
    for _ in 0..2 {
        net.operate(0, Operation::ChooseDrawer).unwrap();
    }
    net.operate(0, Operation::ChooseDrawer).unwrap();
    assert_eq!(net.room(0).game_state, GameState::GameEnded);
    assert_eq!(net.room(1), net.room(0));
    assert_eq!(net.room(2), net.room(0));
}

#[test]
fn only_the_host_chooses_the_drawer_and_only_the_drawer_the_word() {
    let mut net = joined();
    net.operate(0, Operation::StartGame { rounds: 2, seconds_per_round: 60 }).unwrap();
    assert_eq!(net.operate(1, Operation::ChooseDrawer), Err(Rejection::NotHost));
    assert_eq!(net.operate(1, Operation::ChooseWord { word: "cat".to_string() }), Err(Rejection::NotDrawer));
    net.operate(0, Operation::ChooseDrawer).unwrap();
    assert_eq!(net.operate(0, Operation::ChooseWord { word: "cat".to_string() }), Err(Rejection::NotDrawer));
    net.operate(1, Operation::ChooseWord { word: "cat".to_string() }).unwrap();
    assert_eq!(net.replicas[1].state.current_word, Some("cat".to_string()));
    assert_eq!(net.replicas[0].state.current_word, None);
    assert_eq!(net.replicas[2].state.current_word, None);
    assert_eq!(net.room(0).game_state, GameState::Drawing);
    assert_eq!(net.room(0), net.room(1));
    assert_eq!(net.room(2), net.room(1));
}

#[test]
fn a_guess_is_scored_by_the_drawer_and_taken_over_by_the_host() {
    let mut net = joined();
    net.operate(0, Operation::StartGame { rounds: 2, seconds_per_round: 60 }).unwrap();
    net.operate(0, Operation::ChooseDrawer).unwrap();
    net.operate(1, Operation::ChooseWord { word: "Cat".to_string() }).unwrap();
    net.operate(2, Operation::GuessWord { guess: "dog".to_string() }).unwrap();
    net.operate(2, Operation::GuessWord { guess: "CAT".to_string() }).unwrap();
    net.operate(0, Operation::GuessWord { guess: "cat".to_string() }).unwrap();
    net.operate(2, Operation::GuessWord { guess: "cat".to_string() }).unwrap();
    for n in [0, 1, 2] {
        let room = net.room(n);
        assert_eq!(room.players[2].score, 100);
        assert_eq!(room.players[0].score, 90);
        assert_eq!(room.players[1].score, 0);
        assert!(room.players[2].has_guessed && room.players[0].has_guessed);
        let texts: Vec<&str> = room.chat_messages.iter().map(|m| m.message.as_str()).collect();
        assert_eq!(texts, vec!["dog", "[Correct! +100 points]", "[Correct! +90 points]"]);
    }
    assert_eq!(net.room(0), net.room(1));
    assert_eq!(net.room(2), net.room(1));
}

#[test]
fn a_leaving_drawer_is_marked_on_every_replica() {
    let mut net = joined();
    net.operate(0, Operation::StartGame { rounds: 2, seconds_per_round: 60 }).unwrap();
    net.operate(0, Operation::ChooseDrawer).unwrap();
    net.operate(1, Operation::LeaveRoom { blob_hashes: None }).unwrap();
    assert_eq!(net.replicas[1].state.room, None);
    assert_eq!(net.room(0).current_drawer_index, None);
    assert_eq!(net.room(0).game_state, GameState::ChoosingDrawer);
    assert_eq!(net.room(2), net.room(0));
    net.operate(0, Operation::ChooseDrawer).unwrap();
    assert_eq!(net.room(0).current_drawer_index, Some(0));
    assert_eq!(net.room(2), net.room(0));
    net.operate(0, Operation::ChooseDrawer).unwrap();
    assert_eq!(net.room(0).current_drawer_index, Some(2));
    assert_eq!(net.room(2), net.room(0));
}

#[test]
fn ending_the_match_archives_the_room_on_every_replica() {
    let mut net = joined();
    net.operate(0, Operation::StartGame { rounds: 2, seconds_per_round: 60 }).unwrap();
    net.operate(0, Operation::EndMatch).unwrap();
    for n in 0..3 {
        assert_eq!(net.replicas[n].state.room, None);
        assert_eq!(net.replicas[n].state.archived_rooms.len(), 1);
        assert_eq!(net.replicas[n].state.archived_rooms[0], net.replicas[0].state.archived_rooms[0]);
    }
    assert!(net.replicas[0].state.archived_rooms[0].room_id.ends_with("#1"));
}
