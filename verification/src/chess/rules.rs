//! The rules of chess, as far as a match needs them: which moves are legal
//! in a position, what a move leads to, and when the game is over. The rules
//! themselves are those of the `shakmaty` crate; this module finds the legal
//! move that a player's move stands for and replays the moves of a match.

use vstd::prelude::*;
use crate::chess::board::{ChessMove, Color, Square};
use crate::chess::game::{MatchStatus, MoveRecord, MoveRecordView, PlayerInfo, PlayerInfoView};
use crate::text::{index_from, lemma_index_from_found, lemma_index_from_none, views_of};
use shakmaty::{Chess, EnPassantMode, Move, Position};
use shakmaty::fen::Fen;

verus! {

/// A position of a chess game.
#[verifier::external_type_specification]
#[verifier::external_body]
pub struct ExChess(Chess);

/// A move of a chess game, as the rules know it.
#[verifier::external_type_specification]
#[verifier::external_body]
pub struct ExMove(Move);

/// Where a legal move starts, if it starts on the board, and where it ends.
/// A castling move ends on the rook's square.
#[derive(Debug, Clone, Copy, PartialEq, Eq)]
pub struct LegalMove {
    pub from: Option<Square>,
    pub to: Square,
}

/// Why a move could not be played.
#[derive(Debug, Clone, Copy, PartialEq, Eq, Structural)]
pub enum MoveError {
    /// A square of the move lies outside the board.
    InvalidSquare,
    /// No legal move of the position goes with the move.
    IllegalMove,
}

/// The position at the start of a game, from `Chess::default`.
#[verifier::external_body]
fn starting_position() -> (r: Chess) {
    Chess::default()
}

/// The legal moves of a position, from `Position::legal_moves`, in the
/// order in which that function lists them.
#[verifier::external_body]
fn legal_moves(position: &Chess) -> (r: Vec<Move>) {
    position.legal_moves().into_iter().collect()
}

/// The square a move starts from, from `Move::from`: the king's square for
/// castling, nothing for a piece that is dropped onto the board. Squares of
/// the rules lie on the board.
#[verifier::external_body]
fn move_from(m: &Move) -> (r: Option<Square>)
    ensures
        r is Some ==> r.unwrap().on_board(),
{
    m.from().map(|s| Square { file: s.file().to_u32() as u8, rank: s.rank().to_u32() as u8 })
}

/// The square a move ends on, from `Move::to`: the rook's square for
/// castling. Squares of the rules lie on the board.
#[verifier::external_body]
fn move_to(m: &Move) -> (r: Square)
    ensures
        r.on_board(),
{
    let s = m.to();
    Square { file: s.file().to_u32() as u8, rank: s.rank().to_u32() as u8 }
}

/// The position after a move, from `Position::play`, which refuses a move
/// that is not legal in the position.
#[verifier::external_body]
fn play(position: Chess, m: &Move) -> (r: Option<Chess>) {
    position.play(*m).ok()
}

/// The FEN text of a position, from `Fen::from_position`, with the en
/// passant square named whenever a pawn has just advanced two squares.
#[verifier::external_body]
fn fen_text(position: &Chess) -> (r: String) {
    Fen::from_position(position, EnPassantMode::Always).to_string()
}

/// Whether the side to move is checkmated, from `Position::is_checkmate`.
#[verifier::external_body]
fn is_checkmate(position: &Chess) -> (r: bool) {
    position.is_checkmate()
}

/// Whether the side to move is stalemated, from `Position::is_stalemate`.
#[verifier::external_body]
fn is_stalemate(position: &Chess) -> (r: bool) {
    position.is_stalemate()
}

/// Whether neither side has the material to win, from
/// `Position::is_insufficient_material`.
#[verifier::external_body]
fn is_insufficient_material(position: &Chess) -> (r: bool) {
    position.is_insufficient_material()
}

/// Whether a rank is the first or the last of the board.
pub open spec fn is_back_rank(rank: u8) -> bool {
    rank == 0 || rank == 7
}

/// Whether a move names a promotion exactly if it ends on the first or
/// last rank.
pub open spec fn promotion_fits(m: ChessMove) -> bool {
    m.promotion is Some <==> is_back_rank(m.to.rank)
}

/// Whether a player's move can go with a legal move at all: both squares
/// lie on the board and the promotion fits the rank the move ends on.
pub open spec fn can_match(m: ChessMove) -> bool {
    m.from.on_board() && m.to.on_board() && promotion_fits(m)
}

/// Whether every move of a history can go with a legal move.
pub open spec fn replayable(history: Seq<MoveRecordView>) -> bool {
    forall|i: int| 0 <= i < history.len() ==> can_match((#[trigger] history[i]).chess_move)
}

/// Whether a legal move goes with a player's move: same squares, and a
/// promotion that fits the rank the move ends on.
pub open spec fn goes_with(legal: LegalMove, m: ChessMove) -> bool {
    legal.from == Some(m.from) && legal.to == m.to && promotion_fits(m)
}

/// For each legal move, whether it goes with `m`.
pub open spec fn matches(legal: Seq<LegalMove>, m: ChessMove) -> Seq<bool> {
    legal.map_values(|l: LegalMove| goes_with(l, m))
}

/// Index of the first legal move that goes with `m`.
pub open spec fn matching_move(legal: Seq<LegalMove>, m: ChessMove) -> Option<int> {
    index_from(matches(legal, m), true, 0)
}

/// Finds the first legal move that goes with a player's move.
pub fn match_move(legal: &Vec<LegalMove>, chess_move: &ChessMove) -> (r: Option<usize>)
    ensures
        match r {
            Some(i) => i < legal@.len() && matching_move(legal@, *chess_move) == Some(i as int),
            None => matching_move(legal@, *chess_move) is None,
        },
{
    let ghost keys = matches(legal@, *chess_move);
    let mut i: usize = 0;
    while i < legal.len()
        invariant
            keys == matches(legal@, *chess_move),
            forall|j: int| 0 <= j < i && j < legal.len() ==> #[trigger] keys[j] != true,
        decreases legal.len() - i,
    {
        assert(keys[i as int] == goes_with(legal@[i as int], *chess_move));
        let same_from = match legal[i].from {
            Some(from) => from == chess_move.from,
            None => false,
        };
        let back_rank = chess_move.to.rank == 0 || chess_move.to.rank == 7;
        if same_from && legal[i].to == chess_move.to && chess_move.promotion.is_some() == back_rank {
            proof {
                lemma_index_from_found(keys, true, 0, i as int);
            }
            return Some(i);
        }
        i += 1;
    }
    proof {
        lemma_index_from_none(keys, true, 0);
    }
    None
}

/// The squares of a list of moves of the rules, in order.
fn squares_of(moves: &Vec<Move>) -> (r: Vec<LegalMove>)
    ensures
        r@.len() == moves@.len(),
        forall|i: int| 0 <= i < r@.len() ==> (#[trigger] r@[i]).to.on_board(),
{
    let mut out: Vec<LegalMove> = Vec::new();
    let mut i: usize = 0;
    while i < moves.len()
        invariant
            i <= moves.len(),
            out@.len() == i,
            forall|j: int| 0 <= j < out@.len() ==> (#[trigger] out@[j]).to.on_board(),
        decreases moves.len() - i,
    {
        out.push(LegalMove { from: move_from(&moves[i]), to: move_to(&moves[i]) });
        i += 1;
    }
    out
}

/// Plays a player's move in a position: the first legal move that goes
/// with it. A move with a square outside the board is refused before the
/// rules are asked.
pub fn play_move(position: Chess, chess_move: &ChessMove) -> (r: Result<Chess, MoveError>)
    ensures
        !chess_move.from.on_board() || !chess_move.to.on_board() ==> r == Err::<Chess, MoveError>(
            MoveError::InvalidSquare,
        ),
        chess_move.from.on_board() && chess_move.to.on_board() && !promotion_fits(*chess_move) ==> r == Err::<
            Chess,
            MoveError,
        >(MoveError::IllegalMove),
        r is Err && chess_move.from.on_board() && chess_move.to.on_board() ==> r == Err::<Chess, MoveError>(
            MoveError::IllegalMove,
        ),
{
    if chess_move.from.file > 7 || chess_move.from.rank > 7 || chess_move.to.file > 7 || chess_move.to.rank > 7 {
        return Err(MoveError::InvalidSquare);
    }
    let moves = legal_moves(&position);
    let legal = squares_of(&moves);
    proof {
        crate::text::lemma_index_from(matches(legal@, *chess_move), true, 0);
    }
    match match_move(&legal, chess_move) {
        Some(i) => {
            match play(position, &moves[i]) {
                Some(next) => Ok(next),
                None => Err(MoveError::IllegalMove),
            }
        },
        None => {
            Err(MoveError::IllegalMove)
        },
    }
}

/// The position that the moves of a match lead to from the start of a
/// game. A match without moves is at the start; a history with a move that
/// can go with no legal move cannot be replayed.
pub fn reconstruct_position_from_moves(move_history: &Vec<MoveRecord>) -> (r: Result<Chess, MoveError>)
    ensures
        move_history@.len() == 0 ==> r is Ok,
        !replayable(views_of(move_history@)) ==> r is Err,
{
    let mut position = starting_position();
    let mut i: usize = 0;
    while i < move_history.len()
        invariant
            i <= move_history.len(),
            forall|j: int| 0 <= j < i ==> can_match((#[trigger] move_history@[j]).chess_move),
        decreases move_history.len() - i,
    {
        match play_move(position, &move_history[i].chess_move) {
            Ok(next) => {
                position = next;
            },
            Err(e) => {
                return Err(e);
            },
        }
        i += 1;
    }
    proof {
        assert forall|j: int| 0 <= j < views_of(move_history@).len() implies can_match(
            (#[trigger] views_of(move_history@)[j]).chess_move,
        ) by {
            assert(views_of(move_history@)[j].chess_move == move_history@[j].chess_move);
        }
    }
    Ok(position)
}

/// How a position stands for the side to move.
#[derive(Debug, Clone, Copy, PartialEq, Eq)]
pub struct Standing {
    pub checkmate: bool,
    pub stalemate: bool,
    pub insufficient_material: bool,
}

/// The FEN text of a position and how it stands.
pub(crate) fn describe(position: &Chess) -> (r: (String, Standing)) {
    (
        fen_text(position),
        Standing {
            checkmate: is_checkmate(position),
            stalemate: is_stalemate(position),
            insufficient_material: is_insufficient_material(position),
        },
    )
}

/// Index of the first player at or after `from` who is not `self_chain`.
pub open spec fn opponent_from(players: Seq<PlayerInfoView>, self_chain: Seq<char>, from: int) -> Option<int>
    decreases players.len() - from,
{
    if from < 0 || from >= players.len() {
        None
    } else if players[from].chain_id != self_chain {
        Some(from)
    } else {
        opponent_from(players, self_chain, from + 1)
    }
}

/// The replica of the first player who is not `self_chain`.
pub open spec fn opponent_of(players: Seq<PlayerInfoView>, self_chain: Seq<char>) -> Option<Seq<char>> {
    match opponent_from(players, self_chain, 0) {
        Some(i) => Some(players[i].chain_id),
        None => None,
    }
}

/// The replica of the first player who is not `self_chain`.
pub fn find_opponent(players: &Vec<PlayerInfo>, self_chain: &String) -> (r: Option<String>)
    ensures
        crate::text::opt_view(r) == opponent_of(views_of(players@), self_chain@),
{
    let ghost all = views_of(players@);
    let mut i: usize = 0;
    while i < players.len()
        invariant
            i <= players.len(),
            all == views_of(players@),
            opponent_from(all, self_chain@, 0) == opponent_from(all, self_chain@, i as int),
        decreases players.len() - i,
    {
        assert(all[i as int] == players@[i as int]@);
        if players[i].chain_id != *self_chain {
            return Some(players[i].chain_id.clone());
        }
        i += 1;
    }
    None
}

/// How a match ends in a position: a checkmate of the side to move names
/// as winner the first player who is not `self_chain`; a stalemate and a
/// lack of material are draws, without a winner. Nothing where the game
/// goes on.
pub open spec fn game_end(standing: Standing, players: Seq<PlayerInfoView>, self_chain: Seq<char>) -> Option<
    (MatchStatus, Option<Seq<char>>),
> {
    if standing.checkmate {
        Some((MatchStatus::Ended, opponent_of(players, self_chain)))
    } else if standing.stalemate || standing.insufficient_material {
        Some((MatchStatus::Ended, None))
    } else {
        None
    }
}

/// Decides whether and how a match ends in a position that stands as
/// `standing`.
pub fn detect_game_end(standing: Standing, _player_color: Color, players: &Vec<PlayerInfo>, self_chain: &String) -> (r:
    Option<(MatchStatus, Option<String>)>)
    ensures
        match r {
            Some((status, winner)) => game_end(standing, views_of(players@), self_chain@) == Some(
                (status, crate::text::opt_view(winner)),
            ),
            None => game_end(standing, views_of(players@), self_chain@) is None,
        },
{
    if standing.checkmate {
        return Some((MatchStatus::Ended, find_opponent(players, self_chain)));
    }
    if standing.stalemate {
        return Some((MatchStatus::Ended, None));
    }
    if standing.insufficient_material {
        return Some((MatchStatus::Ended, None));
    }
    None
}

} // verus!
