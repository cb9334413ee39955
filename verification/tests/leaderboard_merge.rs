use doodle_game::leaderboard::{merge_entry, rank};
use doodle_game::{Context, CrossChainMessage, DoodleGameContract, LeaderboardEntry, Rejection};

fn chain(n: u8) -> String {
    format!("{:064x}", n)
}

fn ctx(n: u8, now: u64) -> Context {
    Context { chain_id: chain(n), now_micros: now }
}

fn entry(n: u8, name: &str, score: u32) -> LeaderboardEntry {
    LeaderboardEntry { player_name: name.to_string(), chain_id: chain(n), score }
}

fn update(entries: Vec<LeaderboardEntry>) -> CrossChainMessage {
    CrossChainMessage::UpdateLeaderboard { entries }
}

#[test]
fn scores_add_up_and_names_are_refreshed() {
    let mut board = DoodleGameContract::new();
    board.execute_message(&ctx(9, 1), update(vec![entry(1, "A", 30), entry(2, "B", 120)])).unwrap();
    assert_eq!(board.state.leaderboard, vec![entry(2, "B", 120), entry(1, "A", 30)]);
    board.execute_message(&ctx(9, 2), update(vec![entry(1, "Ace", 100), entry(3, "C", 5)])).unwrap();
    assert_eq!(board.state.leaderboard, vec![entry(1, "Ace", 130), entry(2, "B", 120), entry(3, "C", 5)]);
}

#[test]
fn equal_scores_keep_their_order() {
    let board = vec![entry(1, "A", 5), entry(2, "B", 9), entry(3, "C", 5), entry(4, "D", 9), entry(5, "E", 1)];
    let ranked = rank(&board);
    let names: Vec<&str> = ranked.iter().map(|e| e.player_name.as_str()).collect();
    assert_eq!(names, vec!["B", "D", "A", "C", "E"]);
}

#[test]
fn the_board_keeps_its_best_fifty() {
    let mut board = DoodleGameContract::new();
    let entries: Vec<LeaderboardEntry> = (0..60u8).map(|n| entry(n, "Guest", n as u32)).collect();
    board.execute_message(&ctx(9, 1), update(entries)).unwrap();
    assert_eq!(board.state.leaderboard.len(), 50);
    assert_eq!(board.state.leaderboard[0].score, 59);
    assert_eq!(board.state.leaderboard[49].score, 10);
}

#[test]
fn an_entry_repeated_in_one_update_counts_twice() {
    let mut board = DoodleGameContract::new();
    board.execute_message(&ctx(9, 1), update(vec![entry(1, "A", 30), entry(1, "A", 30)])).unwrap();
    assert_eq!(board.state.leaderboard, vec![entry(1, "A", 60)]);
}

#[test]
fn a_score_that_would_not_fit_refuses_the_update() {
    let mut board = DoodleGameContract::new();
    board.execute_message(&ctx(9, 1), update(vec![entry(1, "A", u32::MAX - 1)])).unwrap();
    let before = board.state.clone();
    assert_eq!(
        board.execute_message(&ctx(9, 2), update(vec![entry(2, "B", 7), entry(1, "A", 2)])),
        Err(Rejection::ScoreOverflow)
    );
    assert_eq!(board.state, before);
    board.execute_message(&ctx(9, 3), update(vec![entry(1, "A", 1)])).unwrap();
    assert_eq!(board.state.leaderboard[0].score, u32::MAX);
}

#[test]
fn merge_entry_reports_whether_the_score_fits() {
    let mut board = vec![entry(1, "A", u32::MAX)];
    assert!(!merge_entry(&mut board, entry(1, "B", 1)));
    assert_eq!(board, vec![entry(1, "A", u32::MAX)]);
    assert!(merge_entry(&mut board, entry(1, "B", 0)));
    assert_eq!(board, vec![entry(1, "B", u32::MAX)]);
    assert!(merge_entry(&mut board, entry(2, "C", 4)));
    assert_eq!(board.len(), 2);
}
