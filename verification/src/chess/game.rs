//! The record of a chess match, and what two replicas tell each other
//! about it.

use vstd::prelude::*;
use crate::chess::board::{ChessMove, Color};
use crate::text::{clone_opt_string, opt_view, views_of};

verus! {

/// Marker of the chess application's interface.
#[derive(Debug, Clone, Copy, PartialEq, Eq)]
pub struct ChessAbi;

/// Parameters of the chess application: it has none.
#[derive(Debug, Clone, Copy, PartialEq, Eq)]
pub struct ChessParameters;

impl Default for ChessParameters {
    fn default() -> (r: Self) {
        ChessParameters
    }
}

/// What the chess application is started with: nothing.
#[derive(Debug, Clone, Copy, PartialEq, Eq)]
pub struct InstantiationArgument;

/// The phases of a match.
#[derive(Debug, Clone, Copy, PartialEq, Eq, Structural)]
pub enum MatchStatus {
    WaitingForPlayer,
    Active,
    Ended,
}

/// A player of a match.
#[derive(Debug, PartialEq, Eq)]
pub struct PlayerInfo {
    pub chain_id: String,
    pub name: String,
}

/// Mathematical value of a [`PlayerInfo`].
pub struct PlayerInfoView {
    pub chain_id: Seq<char>,
    pub name: Seq<char>,
}

impl View for PlayerInfo {
    type V = PlayerInfoView;

    open spec fn view(&self) -> PlayerInfoView {
        PlayerInfoView { chain_id: self.chain_id@, name: self.name@ }
    }
}

impl Clone for PlayerInfo {
    fn clone(&self) -> (r: Self)
        ensures
            r == *self,
    {
        PlayerInfo { chain_id: self.chain_id.clone(), name: self.name.clone() }
    }
}

/// A move that was played, with the position it led to.
#[derive(Debug, PartialEq, Eq)]
pub struct MoveRecord {
    pub move_number: u32,
    pub chess_move: ChessMove,
    pub player_color: Color,
    pub timestamp: String,
    pub fen_after: String,
}

/// Mathematical value of a [`MoveRecord`].
pub struct MoveRecordView {
    pub move_number: u32,
    pub chess_move: ChessMove,
    pub player_color: Color,
    pub timestamp: Seq<char>,
    pub fen_after: Seq<char>,
}

impl View for MoveRecord {
    type V = MoveRecordView;

    open spec fn view(&self) -> MoveRecordView {
        MoveRecordView {
            move_number: self.move_number,
            chess_move: self.chess_move,
            player_color: self.player_color,
            timestamp: self.timestamp@,
            fen_after: self.fen_after@,
        }
    }
}

impl Clone for MoveRecord {
    fn clone(&self) -> (r: Self)
        ensures
            r == *self,
    {
        MoveRecord {
            move_number: self.move_number,
            chess_move: self.chess_move,
            player_color: self.player_color,
            timestamp: self.timestamp.clone(),
            fen_after: self.fen_after.clone(),
        }
    }
}

/// A match: its players, whose turn it is, the board in FEN notation and
/// the moves played so far.
#[derive(Debug, PartialEq, Eq)]
pub struct Game {
    pub match_id: String,
    pub host_chain_id: String,
    pub status: MatchStatus,
    pub players: Vec<PlayerInfo>,
    pub current_turn: Color,
    pub board: String,
    pub move_history: Vec<MoveRecord>,
    pub created_at: String,
    pub last_move_at: Option<String>,
    pub winner_chain_id: Option<String>,
}

/// Mathematical value of a [`Game`].
pub struct GameView {
    pub match_id: Seq<char>,
    pub host_chain_id: Seq<char>,
    pub status: MatchStatus,
    pub players: Seq<PlayerInfoView>,
    pub current_turn: Color,
    pub board: Seq<char>,
    pub move_history: Seq<MoveRecordView>,
    pub created_at: Seq<char>,
    pub last_move_at: Option<Seq<char>>,
    pub winner_chain_id: Option<Seq<char>>,
}

impl View for Game {
    type V = GameView;

    open spec fn view(&self) -> GameView {
        GameView {
            match_id: self.match_id@,
            host_chain_id: self.host_chain_id@,
            status: self.status,
            players: views_of(self.players@),
            current_turn: self.current_turn,
            board: self.board@,
            move_history: views_of(self.move_history@),
            created_at: self.created_at@,
            last_move_at: opt_view(self.last_move_at),
            winner_chain_id: opt_view(self.winner_chain_id),
        }
    }
}

impl Clone for Game {
    fn clone(&self) -> (r: Self)
        ensures
            r@ == self@,
    {
        let players = self.players.clone();
        let move_history = self.move_history.clone();
        assert(players@ =~= self.players@);
        assert(move_history@ =~= self.move_history@);
        Game {
            match_id: self.match_id.clone(),
            host_chain_id: self.host_chain_id.clone(),
            status: self.status,
            players,
            current_turn: self.current_turn,
            board: self.board.clone(),
            move_history,
            created_at: self.created_at.clone(),
            last_move_at: clone_opt_string(&self.last_move_at),
            winner_chain_id: clone_opt_string(&self.winner_chain_id),
        }
    }
}

/// An operation that the user of a replica asks for.
#[derive(Debug, Clone, PartialEq, Eq)]
pub enum Operation {
    CreateMatch { host_name: String },
    JoinMatch { host_chain_id: String, player_name: String },
    MakeMove { chess_move: ChessMove },
    ResignMatch,
    EndGame { status: MatchStatus },
}

/// Mathematical value of an [`Operation`].
pub enum OperationView {
    CreateMatch { host_name: Seq<char> },
    JoinMatch { host_chain_id: Seq<char>, player_name: Seq<char> },
    MakeMove { chess_move: ChessMove },
    ResignMatch,
    EndGame { status: MatchStatus },
}

impl View for Operation {
    type V = OperationView;

    open spec fn view(&self) -> OperationView {
        match *self {
            Operation::CreateMatch { host_name } => OperationView::CreateMatch { host_name: host_name@ },
            Operation::JoinMatch { host_chain_id, player_name } => OperationView::JoinMatch {
                host_chain_id: host_chain_id@,
                player_name: player_name@,
            },
            Operation::MakeMove { chess_move } => OperationView::MakeMove { chess_move },
            Operation::ResignMatch => OperationView::ResignMatch,
            Operation::EndGame { status } => OperationView::EndGame { status },
        }
    }
}

/// A direct message from one replica to another. Replicas are named by the
/// canonical text of their identifier.
#[allow(inconsistent_fields)]
#[derive(Debug, Clone, PartialEq, Eq)]
pub enum CrossChainMessage {
    JoinRequest { player_chain_id: String, player_name: String },
    InitialStateSync { game: Game },
    GameSync { game: Game },
    MoveSync { chess_move: ChessMove, player_chain_id: String },
    ResignNotice { player_chain_id: String },
    GameEndNotice { player_chain_id: String, status: MatchStatus },
}

/// Mathematical value of a [`CrossChainMessage`].
#[allow(inconsistent_fields)]
pub enum CrossChainMessageView {
    JoinRequest { player_chain_id: Seq<char>, player_name: Seq<char> },
    InitialStateSync { game: GameView },
    GameSync { game: GameView },
    MoveSync { chess_move: ChessMove, player_chain_id: Seq<char> },
    ResignNotice { player_chain_id: Seq<char> },
    GameEndNotice { player_chain_id: Seq<char>, status: MatchStatus },
}

impl View for CrossChainMessage {
    type V = CrossChainMessageView;

    open spec fn view(&self) -> CrossChainMessageView {
        match *self {
            CrossChainMessage::JoinRequest { player_chain_id, player_name } => CrossChainMessageView::JoinRequest {
                player_chain_id: player_chain_id@,
                player_name: player_name@,
            },
            CrossChainMessage::InitialStateSync { game } => CrossChainMessageView::InitialStateSync { game: game@ },
            CrossChainMessage::GameSync { game } => CrossChainMessageView::GameSync { game: game@ },
            CrossChainMessage::MoveSync { chess_move, player_chain_id } => CrossChainMessageView::MoveSync {
                chess_move,
                player_chain_id: player_chain_id@,
            },
            CrossChainMessage::ResignNotice { player_chain_id } => CrossChainMessageView::ResignNotice {
                player_chain_id: player_chain_id@,
            },
            CrossChainMessage::GameEndNotice { player_chain_id, status } => CrossChainMessageView::GameEndNotice {
                player_chain_id: player_chain_id@,
                status,
            },
        }
    }
}

/// The board at the start of a game, in FEN notation.
pub open spec fn initial_board() -> Seq<char> {
    "rnbqkbnr/pppppppp/8/8/8/8/PPPPPPPP/RNBQKBNR w KQkq - 0 1"@
}

/// The board at the start of a game, in FEN notation.
pub fn initial_board_text() -> (r: String)
    ensures
        r@ == initial_board(),
{
    String::from_str("rnbqkbnr/pppppppp/8/8/8/8/PPPPPPPP/RNBQKBNR w KQkq - 0 1")
}

} // verus!
