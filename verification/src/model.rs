//! The data of a game room and of the records kept beside it.

use vstd::prelude::*;
use crate::text::{clone_opt_string, clone_strings, opt_view, strings_view, views_of};

verus! {

/// Marker of the game application's interface.
#[derive(Debug, Clone, Copy, PartialEq, Eq)]
pub struct DoodleGameAbi;

/// Whether a player still takes part. A player who leaves stays in the
/// roster with status `Left`.
#[derive(Debug, Clone, Copy, PartialEq, Eq, Structural)]
pub enum PlayerStatus {
    Active,
    Left,
}

impl Default for PlayerStatus {
    fn default() -> (r: Self)
        ensures
            r == PlayerStatus::Active,
    {
        PlayerStatus::Active
    }
}

/// The phases of a game.
#[derive(Debug, Clone, Copy, PartialEq, Eq, Structural)]
pub enum GameState {
    WaitingForPlayers,
    GameStarted,
    ChoosingDrawer,
    WaitingForWord,
    Drawing,
    RoundEnded,
    GameEnded,
}

/// A member of a room's roster.
#[derive(Debug, PartialEq, Eq)]
pub struct Player {
    pub chain_id: String,
    pub name: String,
    pub avatar_json: String,
    pub score: u32,
    pub has_guessed: bool,
    pub status: PlayerStatus,
}

/// Mathematical value of a [`Player`].
pub struct PlayerView {
    pub chain_id: Seq<char>,
    pub name: Seq<char>,
    pub avatar_json: Seq<char>,
    pub score: u32,
    pub has_guessed: bool,
    pub status: PlayerStatus,
}

impl View for Player {
    type V = PlayerView;

    open spec fn view(&self) -> PlayerView {
        PlayerView {
            chain_id: self.chain_id@,
            name: self.name@,
            avatar_json: self.avatar_json@,
            score: self.score,
            has_guessed: self.has_guessed,
            status: self.status,
        }
    }
}

impl Clone for Player {
    fn clone(&self) -> (r: Self)
        ensures
            r == *self,
    {
        Player {
            chain_id: self.chain_id.clone(),
            name: self.name.clone(),
            avatar_json: self.avatar_json.clone(),
            score: self.score,
            has_guessed: self.has_guessed,
            status: self.status,
        }
    }
}

/// A player waiting in the matchmaking queue.
#[derive(Debug, PartialEq, Eq)]
pub struct MatchmakingPlayer {
    pub chain_id: String,
    pub player_name: String,
    pub avatar_json: String,
    pub leaderboard_chain_id: Option<String>,
}

/// Mathematical value of a [`MatchmakingPlayer`].
pub struct MatchmakingPlayerView {
    pub chain_id: Seq<char>,
    pub player_name: Seq<char>,
    pub avatar_json: Seq<char>,
    pub leaderboard_chain_id: Option<Seq<char>>,
}

impl View for MatchmakingPlayer {
    type V = MatchmakingPlayerView;

    open spec fn view(&self) -> MatchmakingPlayerView {
        MatchmakingPlayerView {
            chain_id: self.chain_id@,
            player_name: self.player_name@,
            avatar_json: self.avatar_json@,
            leaderboard_chain_id: opt_view(self.leaderboard_chain_id),
        }
    }
}

impl Clone for MatchmakingPlayer {
    fn clone(&self) -> (r: Self)
        ensures
            r == *self,
    {
        MatchmakingPlayer {
            chain_id: self.chain_id.clone(),
            player_name: self.player_name.clone(),
            avatar_json: self.avatar_json.clone(),
            leaderboard_chain_id: clone_opt_string(&self.leaderboard_chain_id),
        }
    }
}

/// A line of the all-time leaderboard.
#[derive(Debug, PartialEq, Eq)]
pub struct LeaderboardEntry {
    pub player_name: String,
    pub chain_id: String,
    pub score: u32,
}

/// Mathematical value of a [`LeaderboardEntry`].
pub struct LeaderboardEntryView {
    pub player_name: Seq<char>,
    pub chain_id: Seq<char>,
    pub score: u32,
}

impl View for LeaderboardEntry {
    type V = LeaderboardEntryView;

    open spec fn view(&self) -> LeaderboardEntryView {
        LeaderboardEntryView { player_name: self.player_name@, chain_id: self.chain_id@, score: self.score }
    }
}

impl Clone for LeaderboardEntry {
    fn clone(&self) -> (r: Self)
        ensures
            r == *self,
    {
        LeaderboardEntry {
            player_name: self.player_name.clone(),
            chain_id: self.chain_id.clone(),
            score: self.score,
        }
    }
}

/// A point of a stroke as a client sends it.
#[derive(Debug, Clone, Copy, PartialEq, Eq)]
pub struct DrawPoint {
    pub x: i32,
    pub y: i32,
}

/// A point of a stroke as it is handed out.
#[derive(Debug, Clone, Copy, PartialEq, Eq)]
pub struct DrawPointOutput {
    pub x: i32,
    pub y: i32,
}

/// A line of a room's chat: a guess, or the notice of a correct guess.
#[derive(Debug, PartialEq, Eq)]
pub struct ChatMessage {
    pub player_name: String,
    pub message: String,
    pub is_correct_guess: bool,
    pub points_awarded: u32,
}

/// Mathematical value of a [`ChatMessage`].
pub struct ChatMessageView {
    pub player_name: Seq<char>,
    pub message: Seq<char>,
    pub is_correct_guess: bool,
    pub points_awarded: u32,
}

impl View for ChatMessage {
    type V = ChatMessageView;

    open spec fn view(&self) -> ChatMessageView {
        ChatMessageView {
            player_name: self.player_name@,
            message: self.message@,
            is_correct_guess: self.is_correct_guess,
            points_awarded: self.points_awarded,
        }
    }
}

impl Clone for ChatMessage {
    fn clone(&self) -> (r: Self)
        ensures
            r == *self,
    {
        ChatMessage {
            player_name: self.player_name.clone(),
            message: self.message.clone(),
            is_correct_guess: self.is_correct_guess,
            points_awarded: self.points_awarded,
        }
    }
}

/// An entry of a room's history.
#[derive(Debug, PartialEq, Eq)]
pub struct GameEvent {
    pub event_type: String,
    pub description: String,
    pub timestamp: String,
    pub player_name: Option<String>,
    pub round: Option<u32>,
}

/// Mathematical value of a [`GameEvent`].
pub struct GameEventView {
    pub event_type: Seq<char>,
    pub description: Seq<char>,
    pub timestamp: Seq<char>,
    pub player_name: Option<Seq<char>>,
    pub round: Option<u32>,
}

impl View for GameEvent {
    type V = GameEventView;

    open spec fn view(&self) -> GameEventView {
        GameEventView {
            event_type: self.event_type@,
            description: self.description@,
            timestamp: self.timestamp@,
            player_name: opt_view(self.player_name),
            round: self.round,
        }
    }
}

impl Clone for GameEvent {
    fn clone(&self) -> (r: Self)
        ensures
            r == *self,
    {
        GameEvent {
            event_type: self.event_type.clone(),
            description: self.description.clone(),
            timestamp: self.timestamp.clone(),
            player_name: clone_opt_string(&self.player_name),
            round: self.round,
        }
    }
}

/// Hash and size of a stored blob.
#[derive(Debug, PartialEq, Eq)]
pub struct DataBlobInfo {
    pub hash: String,
    pub size: u32,
}

/// Mathematical value of a [`DataBlobInfo`].
pub struct DataBlobInfoView {
    pub hash: Seq<char>,
    pub size: u32,
}

impl View for DataBlobInfo {
    type V = DataBlobInfoView;

    open spec fn view(&self) -> DataBlobInfoView {
        DataBlobInfoView { hash: self.hash@, size: self.size }
    }
}

impl Clone for DataBlobInfo {
    fn clone(&self) -> (r: Self)
        ensures
            r == *self,
    {
        DataBlobInfo { hash: self.hash.clone(), size: self.size }
    }
}

/// An invitation into a host's room, with the time it was made at in
/// microseconds, written in decimal.
#[derive(Debug, PartialEq, Eq)]
pub struct Invitation {
    pub host_chain_id: String,
    pub timestamp: String,
}

/// Mathematical value of an [`Invitation`].
pub struct InvitationView {
    pub host_chain_id: Seq<char>,
    pub timestamp: Seq<char>,
}

impl View for Invitation {
    type V = InvitationView;

    open spec fn view(&self) -> InvitationView {
        InvitationView { host_chain_id: self.host_chain_id@, timestamp: self.timestamp@ }
    }
}

impl Clone for Invitation {
    fn clone(&self) -> (r: Self)
        ensures
            r == *self,
    {
        Invitation { host_chain_id: self.host_chain_id.clone(), timestamp: self.timestamp.clone() }
    }
}

/// What is kept of a room after its end.
#[derive(Debug, PartialEq, Eq)]
pub struct ArchivedRoom {
    pub room_id: String,
    pub blob_hashes: Vec<String>,
    pub timestamp: String,
}

/// Mathematical value of an [`ArchivedRoom`].
pub struct ArchivedRoomView {
    pub room_id: Seq<char>,
    pub blob_hashes: Seq<Seq<char>>,
    pub timestamp: Seq<char>,
}

impl View for ArchivedRoom {
    type V = ArchivedRoomView;

    open spec fn view(&self) -> ArchivedRoomView {
        ArchivedRoomView {
            room_id: self.room_id@,
            blob_hashes: strings_view(self.blob_hashes@),
            timestamp: self.timestamp@,
        }
    }
}

impl Clone for ArchivedRoom {
    fn clone(&self) -> (r: Self)
        ensures
            r@ == self@,
    {
        ArchivedRoom {
            room_id: self.room_id.clone(),
            blob_hashes: clone_strings(&self.blob_hashes),
            timestamp: self.timestamp.clone(),
        }
    }
}

/// A game room: the roster, the phase of the game and its counters.
#[derive(Debug, PartialEq, Eq)]
pub struct GameRoom {
    pub room_id: String,
    pub host_chain_id: String,
    pub players: Vec<Player>,
    pub game_state: GameState,
    pub current_round: u32,
    pub total_rounds: u32,
    pub seconds_per_round: u32,
    pub current_drawer_index: Option<usize>,
    pub word_chosen_at: Option<String>,
    pub chat_messages: Vec<ChatMessage>,
    pub drawer_chosen_at: Option<String>,
    pub blob_hashes: Vec<String>,
    pub leaderboard_chain_id: Option<String>,
}

/// Mathematical value of a [`GameRoom`].
pub struct GameRoomView {
    pub room_id: Seq<char>,
    pub host_chain_id: Seq<char>,
    pub players: Seq<PlayerView>,
    pub game_state: GameState,
    pub current_round: u32,
    pub total_rounds: u32,
    pub seconds_per_round: u32,
    pub current_drawer_index: Option<usize>,
    pub word_chosen_at: Option<Seq<char>>,
    pub chat_messages: Seq<ChatMessageView>,
    pub drawer_chosen_at: Option<Seq<char>>,
    pub blob_hashes: Seq<Seq<char>>,
    pub leaderboard_chain_id: Option<Seq<char>>,
}

impl View for GameRoom {
    type V = GameRoomView;

    open spec fn view(&self) -> GameRoomView {
        GameRoomView {
            room_id: self.room_id@,
            host_chain_id: self.host_chain_id@,
            players: views_of(self.players@),
            game_state: self.game_state,
            current_round: self.current_round,
            total_rounds: self.total_rounds,
            seconds_per_round: self.seconds_per_round,
            current_drawer_index: self.current_drawer_index,
            word_chosen_at: opt_view(self.word_chosen_at),
            chat_messages: views_of(self.chat_messages@),
            drawer_chosen_at: opt_view(self.drawer_chosen_at),
            blob_hashes: strings_view(self.blob_hashes@),
            leaderboard_chain_id: opt_view(self.leaderboard_chain_id),
        }
    }
}

impl Clone for GameRoom {
    fn clone(&self) -> (r: Self)
        ensures
            r@ == self@,
    {
        let players = self.players.clone();
        let chat_messages = self.chat_messages.clone();
        assert(players@ =~= self.players@);
        assert(chat_messages@ =~= self.chat_messages@);
        GameRoom {
            room_id: self.room_id.clone(),
            host_chain_id: self.host_chain_id.clone(),
            players,
            game_state: self.game_state,
            current_round: self.current_round,
            total_rounds: self.total_rounds,
            seconds_per_round: self.seconds_per_round,
            current_drawer_index: self.current_drawer_index,
            word_chosen_at: clone_opt_string(&self.word_chosen_at),
            chat_messages,
            drawer_chosen_at: clone_opt_string(&self.drawer_chosen_at),
            blob_hashes: clone_strings(&self.blob_hashes),
            leaderboard_chain_id: clone_opt_string(&self.leaderboard_chain_id),
        }
    }
}

} // verus!
