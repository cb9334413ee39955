use doodle_game::chess::rules::{
    detect_game_end, match_move, play_move, reconstruct_position_from_moves, LegalMove, MoveError, Standing,
};
use doodle_game::chess::{
    ChessContract, ChessMove, ChessRejection, Color, CrossChainMessage, Game, MatchStatus, Operation, Outgoing,
    PlayerInfo, Square,
};
use doodle_game::Context;

fn chain(n: u8) -> String {
    format!("{:064x}", n)
}

fn ctx(n: u8, now: u64) -> Context {
    Context { chain_id: chain(n), now_micros: now }
}

fn mv(text: &str) -> ChessMove {
    ChessMove::from_uci(text).unwrap()
}

/// The replicas of host 1 and guest 2 with a match under way.
fn two_players() -> (ChessContract, ChessContract) {
    let mut host = ChessContract::new();
    host.execute_operation(&ctx(1, 1000), Operation::CreateMatch { host_name: "A".to_string() }).unwrap();
    let mut guest = ChessContract::new();
    let asked = guest
        .execute_operation(
            &ctx(2, 1001),
            Operation::JoinMatch { host_chain_id: chain(1), player_name: "B".to_string() },
        )
        .unwrap();
    assert_eq!(
        asked,
        vec![Outgoing {
            target: chain(1),
            message: CrossChainMessage::JoinRequest { player_chain_id: chain(2), player_name: "B".to_string() },
        }]
    );
    let synced = host.execute_message(&ctx(1, 1002), asked[0].message.clone()).unwrap();
    assert_eq!(synced.len(), 1);
    assert_eq!(synced[0].target, chain(2));
    guest.execute_message(&ctx(2, 1003), synced[0].message.clone()).unwrap();
    (host, guest)
}

/// Plays `text` on the replica of `mover` and delivers it to `other`.
fn play(mover: &mut ChessContract, n: u8, other: &mut ChessContract, m: u8, text: &str, now: u64) {
    let sent = mover.execute_operation(&ctx(n, now), Operation::MakeMove { chess_move: mv(text) }).unwrap();
    assert_eq!(sent.len(), 1);
    assert_eq!(sent[0].target, chain(m));
    let received = other.execute_message(&ctx(m, now), sent[0].message.clone()).unwrap();
    assert!(received.is_empty());
}

#[test]
fn create_match_sets_up_the_board() {
    let mut host = ChessContract::new();
    host.my_ready = true;
    host.last_notification = Some("old".to_string());
    let sent = host.execute_operation(&ctx(1, 1000), Operation::CreateMatch { host_name: "A".to_string() }).unwrap();
    assert!(sent.is_empty());
    assert_eq!(
        host.game,
        Some(Game {
            match_id: "1000".to_string(),
            host_chain_id: chain(1),
            status: MatchStatus::WaitingForPlayer,
            players: vec![PlayerInfo { chain_id: chain(1), name: "A".to_string() }],
            current_turn: Color::White,
            board: "rnbqkbnr/pppppppp/8/8/8/8/PPPPPPPP/RNBQKBNR w KQkq - 0 1".to_string(),
            move_history: vec![],
            created_at: "1000".to_string(),
            last_move_at: None,
            winner_chain_id: None,
        })
    );
    assert!(!host.my_ready);
    assert_eq!(host.last_notification, None);
}

#[test]
fn joining_starts_the_match_on_both_replicas() {
    let (host, guest) = two_players();
    let game = host.game.as_ref().unwrap();
    assert_eq!(game.status, MatchStatus::Active);
    assert_eq!(game.players.len(), 2);
    assert_eq!(game.players[1], PlayerInfo { chain_id: chain(2), name: "B".to_string() });
    assert_eq!(host.last_notification, Some("Player joined".to_string()));
    assert_eq!(guest.game, host.game);
    assert_eq!(guest.last_notification, Some("Match ready".to_string()));
}

#[test]
fn join_requests_are_refused_for_their_reasons() {
    let request = |n: u8| CrossChainMessage::JoinRequest { player_chain_id: chain(n), player_name: "X".to_string() };
    let mut none = ChessContract::new();
    assert_eq!(none.execute_message(&ctx(1, 5), request(2)), Err(ChessRejection::MatchNotFound));
    let (mut host, _) = two_players();
    let before = host.clone();
    assert_eq!(host.execute_message(&ctx(3, 5), request(3)), Err(ChessRejection::NotHost));
    assert_eq!(host.execute_message(&ctx(1, 5), request(3)), Err(ChessRejection::NotJoinable));
    host.game.as_mut().unwrap().status = MatchStatus::WaitingForPlayer;
    assert_eq!(host.execute_message(&ctx(1, 5), request(3)), Err(ChessRejection::MatchFull));
    host.game.as_mut().unwrap().status = MatchStatus::Active;
    assert_eq!(host, before);
    let mut fresh = ChessContract::new();
    fresh.execute_operation(&ctx(1, 1000), Operation::CreateMatch { host_name: "A".to_string() }).unwrap();
    let bad = CrossChainMessage::JoinRequest { player_chain_id: "x".to_string(), player_name: "X".to_string() };
    assert_eq!(fresh.execute_message(&ctx(1, 5), bad), Err(ChessRejection::InvalidChainId));
    let mut joiner = ChessContract::new();
    assert_eq!(
        joiner.execute_operation(
            &ctx(2, 5),
            Operation::JoinMatch { host_chain_id: "x".to_string(), player_name: "B".to_string() }
        ),
        Err(ChessRejection::InvalidChainId)
    );
}

#[test]
fn a_move_is_recorded_on_both_replicas() {
    let (mut host, mut guest) = two_players();
    play(&mut host, 1, &mut guest, 2, "e2e4", 2000);
    for replica in [&host, &guest] {
        let game = replica.game.as_ref().unwrap();
        assert_eq!(game.move_history.len(), 1);
        let record = &game.move_history[0];
        assert_eq!(record.move_number, 1);
        assert_eq!(record.chess_move, mv("e2e4"));
        assert_eq!(record.player_color, Color::White);
        assert_eq!(record.timestamp, "2000");
        assert_eq!(record.fen_after, "rnbqkbnr/pppppppp/8/8/4P3/8/PPPP1PPP/RNBQKBNR b KQkq e3 0 1");
        assert_eq!(game.board, record.fen_after);
        assert_eq!(game.current_turn, Color::Black);
        assert_eq!(game.last_move_at, Some("2000".to_string()));
        assert_eq!(game.status, MatchStatus::Active);
        assert_eq!(game.winner_chain_id, None);
    }
}

#[test]
fn moves_are_refused_for_their_reasons() {
    let mut none = ChessContract::new();
    let e2e4 = Operation::MakeMove { chess_move: mv("e2e4") };
    assert_eq!(none.execute_operation(&ctx(1, 5), e2e4.clone()), Err(ChessRejection::MatchNotFound));
    none.execute_operation(&ctx(1, 1000), Operation::CreateMatch { host_name: "A".to_string() }).unwrap();
    assert_eq!(none.execute_operation(&ctx(1, 5), e2e4.clone()), Err(ChessRejection::MatchNotReady));
    let (mut host, mut guest) = two_players();
    let before = guest.clone();
    assert_eq!(
        guest.execute_operation(&ctx(2, 5), Operation::MakeMove { chess_move: mv("e7e5") }),
        Err(ChessRejection::NotYourTurn)
    );
    assert_eq!(guest, before);
    let before = host.clone();
    for illegal in ["e2e5", "e7e5", "a1a8", "e1g1"] {
        assert_eq!(
            host.execute_operation(&ctx(1, 5), Operation::MakeMove { chess_move: mv(illegal) }),
            Err(ChessRejection::InvalidMove),
            "{}",
            illegal
        );
    }
    let off_board = ChessMove { from: Square::new(4, 1), to: Square::new(4, 8), promotion: None };
    assert_eq!(
        host.execute_operation(&ctx(1, 5), Operation::MakeMove { chess_move: off_board }),
        Err(ChessRejection::InvalidMove)
    );
    assert_eq!(host, before);
    host.game.as_mut().unwrap().move_history.push(doodle_game::chess::MoveRecord {
        move_number: 1,
        chess_move: mv("e2e5"),
        player_color: Color::White,
        timestamp: "1".to_string(),
        fen_after: String::new(),
    });
    assert_eq!(host.execute_operation(&ctx(1, 5), e2e4), Err(ChessRejection::BrokenHistory));
}

#[test]
fn a_move_that_does_not_fit_is_skipped_by_the_receiver() {
    let (_, mut guest) = two_players();
    let before = guest.clone();
    for text in ["e2e5", "e7e5"] {
        let sync = CrossChainMessage::MoveSync { chess_move: mv(text), player_chain_id: chain(1) };
        if text == "e7e5" {
            guest.game.as_mut().unwrap().current_turn = Color::Black;
        }
        assert_eq!(guest.execute_message(&ctx(2, 5), sync), Ok(vec![]));
    }
    guest.game.as_mut().unwrap().current_turn = Color::White;
    assert_eq!(guest, before);
    let mut none = ChessContract::new();
    let sync = CrossChainMessage::MoveSync { chess_move: mv("e2e4"), player_chain_id: chain(1) };
    assert_eq!(none.execute_message(&ctx(2, 5), sync), Ok(vec![]));
    assert_eq!(none, ChessContract::new());
}

#[test]
fn checkmate_ends_the_match_for_the_side_that_moved() {
    let (mut host, mut guest) = two_players();
    play(&mut host, 1, &mut guest, 2, "f2f3", 2000);
    play(&mut guest, 2, &mut host, 1, "e7e5", 2001);
    play(&mut host, 1, &mut guest, 2, "g2g4", 2002);
    play(&mut guest, 2, &mut host, 1, "d8h4", 2003);
    let game = guest.game.as_ref().unwrap();
    assert_eq!(game.status, MatchStatus::Ended);
    assert_eq!(game.move_history.len(), 4);
    assert_eq!(game.move_history[3].player_color, Color::Black);
    assert_eq!(game.move_history[3].move_number, 4);
    assert_eq!(game.board, "rnb1kbnr/pppp1ppp/8/4p3/6Pq/5P2/PPPPP2P/RNBQKBNR w KQkq - 1 3");
    assert_eq!(game.winner_chain_id, Some(chain(1)));
    assert_eq!(host.game.as_ref().unwrap().status, MatchStatus::Ended);
    assert_eq!(host.game.as_ref().unwrap().winner_chain_id, Some(chain(2)));
    assert_eq!(
        host.execute_operation(&ctx(1, 2004), Operation::MakeMove { chess_move: mv("a2a3") }),
        Err(ChessRejection::MatchNotReady)
    );
}

#[test]
fn resigning_ends_the_match() {
    let (mut host, mut guest) = two_players();
    let sent = guest.execute_operation(&ctx(2, 5), Operation::ResignMatch).unwrap();
    assert_eq!(
        sent,
        vec![Outgoing { target: chain(1), message: CrossChainMessage::ResignNotice { player_chain_id: chain(2) } }]
    );
    assert_eq!(guest.game.as_ref().unwrap().status, MatchStatus::Ended);
    assert_eq!(guest.game.as_ref().unwrap().winner_chain_id, Some(chain(1)));
    host.execute_message(&ctx(1, 6), sent[0].message.clone()).unwrap();
    assert_eq!(host.game.as_ref().unwrap().status, MatchStatus::Ended);
    assert_eq!(host.game.as_ref().unwrap().winner_chain_id, Some(chain(1)));
    assert_eq!(host.last_notification, Some("Opponent resigned".to_string()));
    let (mut host, _) = two_players();
    host.execute_operation(&ctx(1, 5), Operation::ResignMatch).unwrap();
    assert_eq!(host.game.as_ref().unwrap().winner_chain_id, Some(chain(2)));
    let mut alone = ChessContract::new();
    assert_eq!(alone.execute_operation(&ctx(1, 5), Operation::ResignMatch), Err(ChessRejection::MatchNotFound));
    alone.execute_operation(&ctx(1, 1000), Operation::CreateMatch { host_name: "A".to_string() }).unwrap();
    assert_eq!(alone.execute_operation(&ctx(1, 5), Operation::ResignMatch), Ok(vec![]));
    assert_eq!(alone.game.as_ref().unwrap().status, MatchStatus::Ended);
    assert_eq!(alone.game.as_ref().unwrap().winner_chain_id, None);
}

#[test]
fn ending_the_game_tells_the_opponent() {
    let (mut host, mut guest) = two_players();
    let sent = host.execute_operation(&ctx(1, 5), Operation::EndGame { status: MatchStatus::Ended }).unwrap();
    assert_eq!(
        sent,
        vec![Outgoing {
            target: chain(2),
            message: CrossChainMessage::GameEndNotice { player_chain_id: chain(1), status: MatchStatus::Ended },
        }]
    );
    assert_eq!(host.game.as_ref().unwrap().status, MatchStatus::Ended);
    guest.execute_message(&ctx(2, 6), sent[0].message.clone()).unwrap();
    assert_eq!(guest.game.as_ref().unwrap().status, MatchStatus::Ended);
    assert_eq!(guest.last_notification, Some("Game ended".to_string()));
    let mut none = ChessContract::new();
    assert_eq!(
        none.execute_operation(&ctx(1, 5), Operation::EndGame { status: MatchStatus::Ended }),
        Err(ChessRejection::MatchNotFound)
    );
    assert_eq!(none.execute_message(&ctx(2, 6), sent[0].message.clone()), Ok(vec![]));
    assert_eq!(none, ChessContract::new());
}

#[test]
fn game_sync_replaces_the_match() {
    let (host, _) = two_players();
    let mut other = ChessContract::new();
    other.my_ready = true;
    other.opponent_ready = true;
    other.last_notification = Some("kept".to_string());
    other
        .execute_message(&ctx(3, 5), CrossChainMessage::GameSync { game: host.game.clone().unwrap() })
        .unwrap();
    assert_eq!(other.game, host.game);
    assert!(!other.my_ready && !other.opponent_ready);
    assert_eq!(other.last_notification, Some("kept".to_string()));
    other.instantiate();
    assert_eq!(other, ChessContract::new());
}

#[test]
fn legal_move_for_a_player_s_move() {
    let e2 = Square::new(4, 1);
    let legal = vec![
        LegalMove { from: None, to: Square::new(4, 3) },
        LegalMove { from: Some(e2), to: Square::new(4, 2) },
        LegalMove { from: Some(e2), to: Square::new(4, 3) },
        LegalMove { from: Some(e2), to: Square::new(4, 3) },
        LegalMove { from: Some(Square::new(4, 6)), to: Square::new(4, 7) },
    ];
    assert_eq!(match_move(&legal, &mv("e2e4")), Some(2));
    assert_eq!(match_move(&legal, &mv("e2e3")), Some(1));
    assert_eq!(match_move(&legal, &mv("d2d4")), None);
    assert_eq!(match_move(&legal, &mv("e2e4q")), None);
    assert_eq!(match_move(&legal, &mv("e7e8")), None);
    assert_eq!(match_move(&legal, &mv("e7e8n")), Some(4));
    assert_eq!(match_move(&vec![], &mv("e2e4")), None);
}

#[test]
fn how_a_match_ends() {
    let players = vec![
        PlayerInfo { chain_id: chain(1), name: "A".to_string() },
        PlayerInfo { chain_id: chain(2), name: "B".to_string() },
    ];
    let standing = |checkmate, stalemate, insufficient_material| Standing { checkmate, stalemate, insufficient_material };
    let me = chain(1);
    assert_eq!(detect_game_end(standing(false, false, false), Color::White, &players, &me), None);
    assert_eq!(
        detect_game_end(standing(true, false, false), Color::White, &players, &me),
        Some((MatchStatus::Ended, Some(chain(2))))
    );
    assert_eq!(
        detect_game_end(standing(true, true, true), Color::Black, &players, &chain(2)),
        Some((MatchStatus::Ended, Some(chain(1))))
    );
    assert_eq!(
        detect_game_end(standing(false, true, false), Color::White, &players, &me),
        Some((MatchStatus::Ended, None))
    );
    assert_eq!(
        detect_game_end(standing(false, false, true), Color::White, &players, &me),
        Some((MatchStatus::Ended, None))
    );
    assert_eq!(
        detect_game_end(standing(true, false, false), Color::White, &players[..1].to_vec(), &me),
        Some((MatchStatus::Ended, None))
    );
}

#[test]
fn stalemate_ends_the_match_without_a_winner() {
    let (mut host, mut guest) = two_players();
    let moves = [
        ("e2e3", "a7a5"),
        ("d1h5", "a8a6"),
        ("h5a5", "h7h5"),
        ("h2h4", "a6h6"),
        ("a5c7", "f7f6"),
        ("c7d7", "e8f7"),
        ("d7b7", "d8d3"),
        ("b7b8q", "d3h7"),
        ("b8c8q", "f7g6"),
    ];
    let mut now = 2000;
    for (white, black) in moves {
        play(&mut host, 1, &mut guest, 2, white, now);
        play(&mut guest, 2, &mut host, 1, black, now + 1);
        now += 2;
        assert_eq!(host.game.as_ref().unwrap().status, MatchStatus::Active);
    }
    play(&mut host, 1, &mut guest, 2, "c8e6", now);
    for replica in [&host, &guest] {
        let game = replica.game.as_ref().unwrap();
        assert_eq!(game.status, MatchStatus::Ended);
        assert_eq!(game.winner_chain_id, None);
        assert_eq!(game.move_history.len(), 19);
        assert_eq!(game.board, "5bnr/4p1pq/4Qpkr/7p/7P/4P3/PPPP1PP1/RNB1KBNR b KQ - 2 10");
    }
}

#[test]
fn a_move_to_the_last_rank_has_to_name_a_promotion() {
    let (mut host, mut guest) = two_players();
    for (white, black) in [("e2e3", "a7a5"), ("d1h5", "a8a6"), ("h5a5", "h7h5"), ("h2h4", "a6h6")] {
        play(&mut host, 1, &mut guest, 2, white, 2000);
        play(&mut guest, 2, &mut host, 1, black, 2001);
    }
    play(&mut host, 1, &mut guest, 2, "a5c7", 2002);
    play(&mut guest, 2, &mut host, 1, "f7f6", 2003);
    let before = host.clone();
    assert_eq!(
        host.execute_operation(&ctx(1, 2004), Operation::MakeMove { chess_move: mv("c7d8") }),
        Err(ChessRejection::InvalidMove)
    );
    assert_eq!(host, before);
    play(&mut host, 1, &mut guest, 2, "c7d8n", 2004);
    assert_eq!(
        host.game.as_ref().unwrap().board,
        "1nbQkbnr/1p1pp1p1/5p1r/7p/7P/4P3/PPPP1PP1/RNB1KBNR b KQk - 0 6"
    );
}

fn record(text: &str) -> doodle_game::chess::MoveRecord {
    doodle_game::chess::MoveRecord {
        move_number: 0,
        chess_move: mv(text),
        player_color: Color::White,
        timestamp: String::new(),
        fen_after: String::new(),
    }
}

#[test]
fn playing_a_move_in_a_position() {
    let start = || reconstruct_position_from_moves(&vec![]).unwrap();
    let next = play_move(start(), &mv("g1f3")).unwrap();
    assert!(play_move(next, &mv("g8f6")).is_ok());
    assert!(matches!(play_move(start(), &mv("g1g3")), Err(MoveError::IllegalMove)));
    assert!(matches!(play_move(start(), &mv("e2e4q")), Err(MoveError::IllegalMove)));
    for (from, to) in [((8, 1), (4, 3)), ((4, 8), (4, 3)), ((4, 1), (8, 3)), ((4, 1), (4, 8))] {
        let off = ChessMove { from: Square::new(from.0, from.1), to: Square::new(to.0, to.1), promotion: None };
        assert!(matches!(play_move(start(), &off), Err(MoveError::InvalidSquare)));
    }
}

#[test]
fn replaying_the_moves_of_a_match() {
    let history = vec![record("f2f3"), record("e7e5"), record("g2g4"), record("d8h4")];
    let mated = reconstruct_position_from_moves(&history).unwrap();
    assert!(matches!(play_move(mated, &mv("a2a3")), Err(MoveError::IllegalMove)));
    assert!(matches!(
        reconstruct_position_from_moves(&vec![record("e2e4"), record("e2e4")]),
        Err(MoveError::IllegalMove)
    ));
    let mut broken = record("e2e4");
    broken.chess_move.from.file = 9;
    assert!(matches!(reconstruct_position_from_moves(&vec![broken]), Err(MoveError::InvalidSquare)));
}

#[test]
fn a_received_move_that_cannot_be_looked_up_changes_nothing() {
    let (_, mut guest) = two_players();
    let before = guest.clone();
    let off_board = ChessMove { from: Square::new(9, 1), to: Square::new(4, 3), promotion: None };
    let misfit = mv("e2e4q");
    for chess_move in [off_board, misfit] {
        let sync = CrossChainMessage::MoveSync { chess_move, player_chain_id: chain(1) };
        assert_eq!(guest.execute_message(&ctx(2, 5), sync), Ok(vec![]));
        assert_eq!(guest, before);
    }
    guest.game.as_mut().unwrap().move_history.push(record("e2e4q"));
    let broken = guest.clone();
    let sync = CrossChainMessage::MoveSync { chess_move: mv("e2e4"), player_chain_id: chain(1) };
    assert_eq!(guest.execute_message(&ctx(2, 5), sync), Ok(vec![]));
    assert_eq!(guest, broken);
}

#[test]
fn a_received_move_is_recorded_for_the_other_side() {
    let (_, mut guest) = two_players();
    let sync = CrossChainMessage::MoveSync { chess_move: mv("d2d4"), player_chain_id: chain(1) };
    assert_eq!(guest.execute_message(&ctx(2, 7000), sync), Ok(vec![]));
    let game = guest.game.as_ref().unwrap();
    assert_eq!(game.move_history.len(), 1);
    assert_eq!(game.move_history[0].player_color, Color::White);
    assert_eq!(game.move_history[0].timestamp, "7000");
    assert_eq!(game.board, "rnbqkbnr/pppppppp/8/8/3P4/8/PPP1PPPP/RNBQKBNR b KQkq d3 0 1");
    assert_eq!(game.current_turn, Color::Black);
}
