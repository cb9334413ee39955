//! The all-time leaderboard: scores of finished matches are added up per
//! replica, the list is kept in descending order of score and cut to its
//! best fifty lines.

use vstd::prelude::*;
use crate::model::{LeaderboardEntry, LeaderboardEntryView};
use crate::protocol::{clone_entries, Action, Rejection};
use crate::ranking::{is_permutation, law_rank_order, rank_indices, rank_order, ranked_by};
use crate::state::{accept, handled, no_actions, DoodleGameState, DoodleGameStateView, Step};
use crate::text::{index_of, lemma_index_from_found, lemma_index_from_none, lemma_views_push, views_of};

verus! {

/// Number of lines the leaderboard keeps.
pub const LEADERBOARD_SIZE: usize = 50;

/// The replica identifiers of a leaderboard, in order.
pub open spec fn entry_ids(board: Seq<LeaderboardEntryView>) -> Seq<Seq<char>> {
    board.map_values(|e: LeaderboardEntryView| e.chain_id)
}

/// Whether the score of `entry` can be added to the board without leaving
/// the range of a score.
pub open spec fn can_merge_entry(board: Seq<LeaderboardEntryView>, entry: LeaderboardEntryView) -> bool {
    match index_of(entry_ids(board), entry.chain_id) {
        Some(i) => board[i].score + entry.score <= u32::MAX,
        None => true,
    }
}

/// The board with `entry` merged in: the score is added to the line of the
/// same replica, which takes the new name; a new replica gets a new line at
/// the end.
pub open spec fn merged_entry(board: Seq<LeaderboardEntryView>, entry: LeaderboardEntryView) -> Seq<
    LeaderboardEntryView,
> {
    match index_of(entry_ids(board), entry.chain_id) {
        Some(i) => board.update(
            i,
            LeaderboardEntryView {
                score: (board[i].score + entry.score) as u32,
                player_name: entry.player_name,
                ..board[i]
            },
        ),
        None => board.push(entry),
    }
}

/// Whether all of `entries` can be merged in, one after the other.
pub open spec fn can_merge(board: Seq<LeaderboardEntryView>, entries: Seq<LeaderboardEntryView>) -> bool
    decreases entries.len(),
{
    if entries.len() == 0 {
        true
    } else {
        can_merge(board, entries.drop_last()) && can_merge_entry(
            merged(board, entries.drop_last()),
            entries.last(),
        )
    }
}

/// The board with all of `entries` merged in, one after the other.
pub open spec fn merged(board: Seq<LeaderboardEntryView>, entries: Seq<LeaderboardEntryView>) -> Seq<
    LeaderboardEntryView,
>
    decreases entries.len(),
{
    if entries.len() == 0 {
        board
    } else {
        merged_entry(merged(board, entries.drop_last()), entries.last())
    }
}

/// The scores of a leaderboard, in order.
pub open spec fn entry_scores(board: Seq<LeaderboardEntryView>) -> Seq<u64> {
    board.map_values(|e: LeaderboardEntryView| e.score as u64)
}

/// The board in descending order of score; lines of equal score keep
/// their order.
pub open spec fn ranked(board: Seq<LeaderboardEntryView>) -> Seq<LeaderboardEntryView> {
    ranked_by(board, entry_scores(board))
}

/// The first `limit` lines of a board.
pub open spec fn top(board: Seq<LeaderboardEntryView>, limit: int) -> Seq<LeaderboardEntryView> {
    if board.len() > limit {
        board.take(limit)
    } else {
        board
    }
}

/// Whether the scores of a board never rise from one line to the next.
pub open spec fn is_descending(board: Seq<LeaderboardEntryView>) -> bool {
    forall|i: int, j: int| 0 <= i < j < board.len() ==> board[i].score >= board[j].score
}

/// Ranking keeps the lines of a board, each at one place of the ranked
/// board, and puts them in descending order of score.
pub proof fn law_ranked_is_sorted_permutation(board: Seq<LeaderboardEntryView>)
    ensures
        ranked(board).len() == board.len(),
        is_permutation(rank_order(entry_scores(board)), board.len() as int),
        forall|k: int| 0 <= k < board.len() ==> #[trigger] ranked(board)[k] == board[rank_order(entry_scores(board))[k]],
        is_descending(ranked(board)),
{
    let scores = entry_scores(board);
    let order = rank_order(scores);
    law_rank_order(scores);
    assert forall|i: int, j: int| 0 <= i < j < ranked(board).len() implies ranked(board)[i].score >= ranked(
        board,
    )[j].score by {
        assert(scores[order[i]] == board[order[i]].score);
        assert(scores[order[j]] == board[order[j]].score);
    }
}

/// What can be merged as a whole can be merged up to any point.
proof fn lemma_can_merge_prefix(board: Seq<LeaderboardEntryView>, entries: Seq<LeaderboardEntryView>, n: int)
    requires
        0 <= n <= entries.len(),
        can_merge(board, entries),
    ensures
        can_merge(board, entries.take(n)),
    decreases entries.len(),
{
    if n == entries.len() {
        assert(entries.take(n) =~= entries);
    } else {
        lemma_can_merge_prefix(board, entries.drop_last(), n);
        assert(entries.drop_last().take(n) =~= entries.take(n));
    }
}

/// Index of the first line of the replica `chain_id`.
fn position_of_entry(board: &Vec<LeaderboardEntry>, chain_id: &String) -> (r: Option<usize>)
    ensures
        match r {
            Some(i) => i < board@.len() && index_of(entry_ids(views_of(board@)), chain_id@) == Some(i as int),
            None => index_of(entry_ids(views_of(board@)), chain_id@) is None,
        },
{
    let ghost keys = entry_ids(views_of(board@));
    let mut i: usize = 0;
    while i < board.len()
        invariant
            keys == entry_ids(views_of(board@)),
            forall|j: int| 0 <= j < i && j < board.len() ==> #[trigger] keys[j] != chain_id@,
        decreases board.len() - i,
    {
        assert(keys[i as int] == board@[i as int].chain_id@);
        if board[i].chain_id == *chain_id {
            proof {
                lemma_index_from_found(keys, chain_id@, 0, i as int);
            }
            return Some(i);
        }
        i += 1;
    }
    proof {
        lemma_index_from_none(keys, chain_id@, 0);
    }
    None
}

/// Merges one line into the board; returns whether the score fitted. A
/// score that does not fit leaves the board as it was.
pub fn merge_entry(board: &mut Vec<LeaderboardEntry>, entry: LeaderboardEntry) -> (fits: bool)
    ensures
        fits == can_merge_entry(views_of(old(board)@), entry@),
        fits ==> views_of(final(board)@) == merged_entry(views_of(old(board)@), entry@),
        !fits ==> final(board)@ == old(board)@,
{
    match position_of_entry(board, &entry.chain_id) {
        Some(i) => {
            let score = board[i].score;
            if score > u32::MAX - entry.score {
                return false;
            }
            board[i].score = score + entry.score;
            board[i].player_name = entry.player_name;
            assert(views_of(board@) =~= merged_entry(views_of(old(board)@), entry@));
            true
        },
        None => {
            proof {
                lemma_views_push(board@, entry);
            }
            board.push(entry);
            true
        },
    }
}

/// The lines of a board in descending order of score; lines of equal score
/// keep their order.
pub fn rank(board: &Vec<LeaderboardEntry>) -> (r: Vec<LeaderboardEntry>)
    ensures
        views_of(r@) == ranked(views_of(board@)),
{
    let mut scores: Vec<u64> = Vec::new();
    let mut i: usize = 0;
    while i < board.len()
        invariant
            i <= board.len(),
            scores@.len() == i,
            forall|j: int| 0 <= j < i ==> #[trigger] scores@[j] == board@[j].score,
        decreases board.len() - i,
    {
        scores.push(board[i].score as u64);
        i += 1;
    }
    assert(scores@ =~= entry_scores(views_of(board@)));
    let order = rank_indices(&scores);
    let ghost goal = ranked(views_of(board@));
    let mut out: Vec<LeaderboardEntry> = Vec::new();
    let mut k: usize = 0;
    while k < order.len()
        invariant
            k <= order.len(),
            order@.len() == board@.len(),
            order@.map_values(|i: usize| i as int) == rank_order(entry_scores(views_of(board@))),
            forall|j: int| 0 <= j < order@.len() ==> #[trigger] order@[j] < board@.len(),
            goal == ranked(views_of(board@)),
            out@.len() == k,
            forall|j: int| 0 <= j < k ==> #[trigger] out@[j]@ == goal[j],
        decreases order.len() - k,
    {
        assert(order@.map_values(|i: usize| i as int)[k as int] == order@[k as int] as int);
        out.push(board[order[k]].clone());
        k += 1;
    }
    assert(views_of(out@) =~= goal);
    out
}

/// Scores of a finished match arrive: they are merged into the board,
/// which is then ranked and cut to its best lines. Where a score would not
/// fit, the whole update is refused.
pub open spec fn update_leaderboard_step(s: DoodleGameStateView, entries: Seq<LeaderboardEntryView>) -> Step {
    if can_merge(s.leaderboard, entries) {
        accept(
            DoodleGameStateView {
                leaderboard: top(ranked(merged(s.leaderboard, entries)), LEADERBOARD_SIZE as int),
                ..s
            },
            Seq::empty(),
        )
    } else {
        Err(Rejection::ScoreOverflow)
    }
}

/// Handles the scores of a finished match.
pub fn receive_update_leaderboard(state: &mut DoodleGameState, entries: Vec<LeaderboardEntry>) -> (r: Result<
    Vec<Action>,
    Rejection,
>)
    ensures
        handled(old(state)@, final(state)@, r, update_leaderboard_step(old(state)@, views_of(entries@))),
{
    let ghost all = views_of(entries@);
    let ghost start = state@.leaderboard;
    let mut board = clone_entries(&state.leaderboard);
    let mut i: usize = 0;
    assert(all.take(0) =~= Seq::empty());
    while i < entries.len()
        invariant
            i <= entries.len(),
            all == views_of(entries@),
            start == state@.leaderboard,
            *state == *old(state),
            can_merge(start, all.take(i as int)),
            views_of(board@) == merged(start, all.take(i as int)),
        decreases entries.len() - i,
    {
        proof {
            assert(all.take(i as int + 1).drop_last() =~= all.take(i as int));
            assert(all.take(i as int + 1).last() == entries@[i as int]@);
        }
        let fits = merge_entry(&mut board, entries[i].clone());
        if !fits {
            proof {
                if can_merge(start, all) {
                    lemma_can_merge_prefix(start, all, i as int + 1);
                }
            }
            return Err(Rejection::ScoreOverflow);
        }
        i += 1;
    }
    assert(all.take(entries.len() as int) =~= all);
    let mut sorted = rank(&board);
    sorted.truncate(LEADERBOARD_SIZE);
    assert(views_of(sorted@) =~= top(ranked(merged(start, all)), LEADERBOARD_SIZE as int));
    state.leaderboard = sorted;
    Ok(no_actions())
}

} // verus!
