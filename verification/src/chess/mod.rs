//! A chess match between two replicas: the board's coordinates, the record
//! of a match and the rules that decide what a move does to it.

pub mod board;
pub mod game;
pub mod rules;
pub mod contract;
pub mod state;

pub use self::board::{ChessMove, Color, PieceType, Square};
pub use self::contract::{ChessContract, ChessRejection, Outgoing};
pub use self::game::{
    ChessAbi, ChessParameters, CrossChainMessage, Game, InstantiationArgument, MatchStatus, MoveRecord, Operation,
    PlayerInfo,
};
pub use self::state::{ChessState, GameState, GameStatus, JoinError};
