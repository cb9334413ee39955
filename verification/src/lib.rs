//! Replicated session engine of a multiplayer drawing-and-guessing game,
//! together with a chess match between two replicas.
//!
//! Every replica owns one [`DoodleGameState`]. Three reducers of
//! [`DoodleGameContract`] turn what a replica receives (an operation of its
//! user, a direct message, entries of the broadcast logs it follows) into a
//! new state and a list of [`Action`]s that the surrounding runtime performs
//! afterwards. A reducer never waits for another replica; what makes this
//! safe under repeated and reordered delivery is stated and proved beside
//! the reducers.

pub mod text;
pub mod chain;
pub mod model;
pub mod room;
pub mod rotation;
pub mod protocol;
pub mod state;
pub mod social;
pub mod ranking;
pub mod leaderboard;
pub mod matchmaking;
pub mod session;
pub mod inbox;
pub mod guessing;
pub mod streams;
pub mod queries;
pub mod contract;
pub mod agreement;
pub mod chess;

pub use crate::contract::DoodleGameContract;
pub use crate::model::{
    ArchivedRoom, ChatMessage, DataBlobInfo, DoodleGameAbi, DrawPoint, DrawPointOutput, GameEvent, GameRoom,
    GameState, Invitation, LeaderboardEntry, MatchmakingPlayer, Player, PlayerStatus,
};
pub use crate::protocol::{Action, Context, CrossChainMessage, DoodleEvent, Operation, Rejection, StreamUpdate};
pub use crate::state::DoodleGameState;
