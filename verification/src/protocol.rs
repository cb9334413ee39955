//! What replicas exchange: local operations, direct messages, entries of the
//! broadcast log, and the actions a reducer asks its runtime to perform.

use vstd::prelude::*;
use crate::model::{
    ArchivedRoom, ArchivedRoomView, ChatMessage, ChatMessageView, GameRoom, GameRoomView, LeaderboardEntry,
    LeaderboardEntryView, MatchmakingPlayer, MatchmakingPlayerView, Player, PlayerView,
};
use crate::text::{opt_view, strings_view, views_of};

verus! {

/// The replica a reducer runs on, and its clock in microseconds.
#[derive(Debug, PartialEq, Eq)]
pub struct Context {
    pub chain_id: String,
    pub now_micros: u64,
}

/// Mathematical value of a [`Context`].
pub struct ContextView {
    pub chain_id: Seq<char>,
    pub now_micros: u64,
}

impl View for Context {
    type V = ContextView;

    open spec fn view(&self) -> ContextView {
        ContextView { chain_id: self.chain_id@, now_micros: self.now_micros }
    }
}

/// Why a reducer refused its input. A refused input leaves the state as it
/// was.
#[derive(Debug, Clone, Copy, PartialEq, Eq, Structural)]
pub enum Rejection {
    /// The replica holds no room.
    NoActiveRoom,
    /// Only the host of the room may do this.
    NotHost,
    /// Only the current drawer may do this.
    NotDrawer,
    /// The room has no drawer at the moment.
    NoDrawer,
    /// No player of the room is `Active`.
    NoActivePlayer,
    /// A text that has to address a replica denotes none.
    InvalidChainId,
    /// A text that has to name a blob denotes no hash.
    InvalidBlobHash,
    /// A score would leave the range of 32 bits.
    ScoreOverflow,
}

/// Pairs of a name and a score.
pub open spec fn scores_view(v: Seq<(String, u32)>) -> Seq<(Seq<char>, u32)> {
    v.map_values(|e: (String, u32)| (e.0@, e.1))
}

/// Copies a list of names and scores.
pub fn clone_scores(v: &Vec<(String, u32)>) -> (r: Vec<(String, u32)>)
    ensures
        scores_view(r@) == scores_view(v@),
{
    let mut out: Vec<(String, u32)> = Vec::new();
    let mut i: usize = 0;
    while i < v.len()
        invariant
            i <= v.len(),
            out@.len() == i,
            forall|j: int| 0 <= j < i ==> #[trigger] out@[j] == v@[j],
        decreases v.len() - i,
    {
        out.push((v[i].0.clone(), v[i].1));
        i += 1;
    }
    assert(out@ =~= v@);
    out
}

/// Copies a list of queued players.
pub fn clone_queue(v: &Vec<MatchmakingPlayer>) -> (r: Vec<MatchmakingPlayer>)
    ensures
        r@ == v@,
{
    let r = v.clone();
    assert(r@ =~= v@);
    r
}

/// Copies a list of leaderboard lines.
pub fn clone_entries(v: &Vec<LeaderboardEntry>) -> (r: Vec<LeaderboardEntry>)
    ensures
        r@ == v@,
{
    let r = v.clone();
    assert(r@ =~= v@);
    r
}

/// An operation that the user of a replica asks for.
#[derive(Debug, Clone, PartialEq, Eq)]
pub enum Operation {
    CreateRoom { host_name: String, avatar_json: String },
    JoinRoom { host_chain_id: String, player_name: String, avatar_json: String },
    StartGame { rounds: u32, seconds_per_round: u32 },
    ChooseDrawer,
    ChooseWord { word: String },
    GuessWord { guess: String },
    EndMatch,
    LeaveRoom { blob_hashes: Option<Vec<String>> },
    ReadDataBlob { hash: String },
    JoinMatchmaking {
        matchmaking_chain_id: String,
        leaderboard_chain_id: String,
        player_name: String,
        avatar_json: String,
    },
    LeaveMatchmaking { matchmaking_chain_id: String },
    RequestFriend { target_chain_id: String },
    AcceptFriend { requester_chain_id: String },
    DeclineFriend { requester_chain_id: String },
    InviteFriend { friend_chain_id: String },
    AcceptInvite { host_chain_id: String, player_name: String, avatar_json: String },
    DeclineInvite { host_chain_id: String },
}

/// Mathematical value of an [`Operation`].
pub enum OperationView {
    CreateRoom { host_name: Seq<char>, avatar_json: Seq<char> },
    JoinRoom { host_chain_id: Seq<char>, player_name: Seq<char>, avatar_json: Seq<char> },
    StartGame { rounds: u32, seconds_per_round: u32 },
    ChooseDrawer,
    ChooseWord { word: Seq<char> },
    GuessWord { guess: Seq<char> },
    EndMatch,
    LeaveRoom { blob_hashes: Option<Seq<Seq<char>>> },
    ReadDataBlob { hash: Seq<char> },
    JoinMatchmaking {
        matchmaking_chain_id: Seq<char>,
        leaderboard_chain_id: Seq<char>,
        player_name: Seq<char>,
        avatar_json: Seq<char>,
    },
    LeaveMatchmaking { matchmaking_chain_id: Seq<char> },
    RequestFriend { target_chain_id: Seq<char> },
    AcceptFriend { requester_chain_id: Seq<char> },
    DeclineFriend { requester_chain_id: Seq<char> },
    InviteFriend { friend_chain_id: Seq<char> },
    AcceptInvite { host_chain_id: Seq<char>, player_name: Seq<char>, avatar_json: Seq<char> },
    DeclineInvite { host_chain_id: Seq<char> },
}

impl View for Operation {
    type V = OperationView;

    open spec fn view(&self) -> OperationView {
        match *self {
            Operation::CreateRoom { host_name, avatar_json } => OperationView::CreateRoom {
                host_name: host_name@,
                avatar_json: avatar_json@,
            },
            Operation::JoinRoom { host_chain_id, player_name, avatar_json } => OperationView::JoinRoom {
                host_chain_id: host_chain_id@,
                player_name: player_name@,
                avatar_json: avatar_json@,
            },
            Operation::StartGame { rounds, seconds_per_round } => OperationView::StartGame {
                rounds,
                seconds_per_round,
            },
            Operation::ChooseDrawer => OperationView::ChooseDrawer,
            Operation::ChooseWord { word } => OperationView::ChooseWord { word: word@ },
            Operation::GuessWord { guess } => OperationView::GuessWord { guess: guess@ },
            Operation::EndMatch => OperationView::EndMatch,
            Operation::LeaveRoom { blob_hashes } => OperationView::LeaveRoom {
                blob_hashes: match blob_hashes {
                    Some(h) => Some(strings_view(h@)),
                    None => None,
                },
            },
            Operation::ReadDataBlob { hash } => OperationView::ReadDataBlob { hash: hash@ },
            Operation::JoinMatchmaking {
                matchmaking_chain_id,
                leaderboard_chain_id,
                player_name,
                avatar_json,
            } => OperationView::JoinMatchmaking {
                matchmaking_chain_id: matchmaking_chain_id@,
                leaderboard_chain_id: leaderboard_chain_id@,
                player_name: player_name@,
                avatar_json: avatar_json@,
            },
            Operation::LeaveMatchmaking { matchmaking_chain_id } => OperationView::LeaveMatchmaking {
                matchmaking_chain_id: matchmaking_chain_id@,
            },
            Operation::RequestFriend { target_chain_id } => OperationView::RequestFriend {
                target_chain_id: target_chain_id@,
            },
            Operation::AcceptFriend { requester_chain_id } => OperationView::AcceptFriend {
                requester_chain_id: requester_chain_id@,
            },
            Operation::DeclineFriend { requester_chain_id } => OperationView::DeclineFriend {
                requester_chain_id: requester_chain_id@,
            },
            Operation::InviteFriend { friend_chain_id } => OperationView::InviteFriend {
                friend_chain_id: friend_chain_id@,
            },
            Operation::AcceptInvite { host_chain_id, player_name, avatar_json } => OperationView::AcceptInvite {
                host_chain_id: host_chain_id@,
                player_name: player_name@,
                avatar_json: avatar_json@,
            },
            Operation::DeclineInvite { host_chain_id } => OperationView::DeclineInvite {
                host_chain_id: host_chain_id@,
            },
        }
    }
}

/// An entry of a room's broadcast log.
#[derive(Debug, PartialEq, Eq)]
pub enum DoodleEvent {
    PlayerJoined { player: Player, timestamp: String },
    PlayerLeft { player_chain_id: String, timestamp: String },
    GameStarted { rounds: u32, seconds_per_round: u32, drawer_index: usize, drawer_name: String, timestamp: String },
    DrawerChosen { drawer_index: usize, drawer_name: String, timestamp: String, previous_blob_hash: Option<String> },
    WordChosen { timestamp: String },
    ChatMessage { message: ChatMessage },
    RoundEnded { scores: Vec<(String, u32)>, timestamp: String },
    GameEnded { final_scores: Vec<(String, u32)>, timestamp: String },
    MatchEnded { timestamp: String },
}

/// Mathematical value of a [`DoodleEvent`].
pub enum DoodleEventView {
    PlayerJoined { player: PlayerView, timestamp: Seq<char> },
    PlayerLeft { player_chain_id: Seq<char>, timestamp: Seq<char> },
    GameStarted {
        rounds: u32,
        seconds_per_round: u32,
        drawer_index: usize,
        drawer_name: Seq<char>,
        timestamp: Seq<char>,
    },
    DrawerChosen {
        drawer_index: usize,
        drawer_name: Seq<char>,
        timestamp: Seq<char>,
        previous_blob_hash: Option<Seq<char>>,
    },
    WordChosen { timestamp: Seq<char> },
    ChatMessage { message: ChatMessageView },
    RoundEnded { scores: Seq<(Seq<char>, u32)>, timestamp: Seq<char> },
    GameEnded { final_scores: Seq<(Seq<char>, u32)>, timestamp: Seq<char> },
    MatchEnded { timestamp: Seq<char> },
}

impl View for DoodleEvent {
    type V = DoodleEventView;

    open spec fn view(&self) -> DoodleEventView {
        match *self {
            DoodleEvent::PlayerJoined { player, timestamp } => DoodleEventView::PlayerJoined {
                player: player@,
                timestamp: timestamp@,
            },
            DoodleEvent::PlayerLeft { player_chain_id, timestamp } => DoodleEventView::PlayerLeft {
                player_chain_id: player_chain_id@,
                timestamp: timestamp@,
            },
            DoodleEvent::GameStarted { rounds, seconds_per_round, drawer_index, drawer_name, timestamp } =>
                DoodleEventView::GameStarted {
                    rounds,
                    seconds_per_round,
                    drawer_index,
                    drawer_name: drawer_name@,
                    timestamp: timestamp@,
                },
            DoodleEvent::DrawerChosen { drawer_index, drawer_name, timestamp, previous_blob_hash } =>
                DoodleEventView::DrawerChosen {
                    drawer_index,
                    drawer_name: drawer_name@,
                    timestamp: timestamp@,
                    previous_blob_hash: opt_view(previous_blob_hash),
                },
            DoodleEvent::WordChosen { timestamp } => DoodleEventView::WordChosen { timestamp: timestamp@ },
            DoodleEvent::ChatMessage { message } => DoodleEventView::ChatMessage { message: message@ },
            DoodleEvent::RoundEnded { scores, timestamp } => DoodleEventView::RoundEnded {
                scores: scores_view(scores@),
                timestamp: timestamp@,
            },
            DoodleEvent::GameEnded { final_scores, timestamp } => DoodleEventView::GameEnded {
                final_scores: scores_view(final_scores@),
                timestamp: timestamp@,
            },
            DoodleEvent::MatchEnded { timestamp } => DoodleEventView::MatchEnded { timestamp: timestamp@ },
        }
    }
}

impl Clone for DoodleEvent {
    fn clone(&self) -> (r: Self)
        ensures
            r@ == self@,
    {
        match self {
            DoodleEvent::PlayerJoined { player, timestamp } => DoodleEvent::PlayerJoined {
                player: player.clone(),
                timestamp: timestamp.clone(),
            },
            DoodleEvent::PlayerLeft { player_chain_id, timestamp } => DoodleEvent::PlayerLeft {
                player_chain_id: player_chain_id.clone(),
                timestamp: timestamp.clone(),
            },
            DoodleEvent::GameStarted { rounds, seconds_per_round, drawer_index, drawer_name, timestamp } =>
                DoodleEvent::GameStarted {
                    rounds: *rounds,
                    seconds_per_round: *seconds_per_round,
                    drawer_index: *drawer_index,
                    drawer_name: drawer_name.clone(),
                    timestamp: timestamp.clone(),
                },
            DoodleEvent::DrawerChosen { drawer_index, drawer_name, timestamp, previous_blob_hash } =>
                DoodleEvent::DrawerChosen {
                    drawer_index: *drawer_index,
                    drawer_name: drawer_name.clone(),
                    timestamp: timestamp.clone(),
                    previous_blob_hash: crate::text::clone_opt_string(previous_blob_hash),
                },
            DoodleEvent::WordChosen { timestamp } => DoodleEvent::WordChosen { timestamp: timestamp.clone() },
            DoodleEvent::ChatMessage { message } => DoodleEvent::ChatMessage { message: message.clone() },
            DoodleEvent::RoundEnded { scores, timestamp } => DoodleEvent::RoundEnded {
                scores: clone_scores(scores),
                timestamp: timestamp.clone(),
            },
            DoodleEvent::GameEnded { final_scores, timestamp } => DoodleEvent::GameEnded {
                final_scores: clone_scores(final_scores),
                timestamp: timestamp.clone(),
            },
            DoodleEvent::MatchEnded { timestamp } => DoodleEvent::MatchEnded { timestamp: timestamp.clone() },
        }
    }
}

/// A direct message from one replica to another. Replicas are named by the
/// canonical text of their identifier.
#[allow(inconsistent_fields)]
#[derive(Debug, PartialEq, Eq)]
pub enum CrossChainMessage {
    JoinRequest { player_chain_id: String, player_name: String, avatar_json: String },
    GuessSubmission { guesser_chain_id: String, guess: String, round: u32 },
    InitialStateSync { room_data: GameRoom },
    RoomDeleted { timestamp: String, archived_room: Option<ArchivedRoom> },
    PlayerLeft { player_chain_id: String, player_name: Option<String>, timestamp: String },
    MatchmakingEnqueue {
        player_chain_id: String,
        player_name: String,
        avatar_json: String,
        leaderboard_chain_id: String,
    },
    MatchmakingStart {
        host_name: String,
        host_avatar_json: String,
        players: Vec<MatchmakingPlayer>,
        leaderboard_chain_id: String,
    },
    MatchmakingFound { host_chain_id: String },
    MatchmakingLeave { player_chain_id: String },
    MatchmakingStatusUpdate { players_in_queue: u32 },
    UpdateLeaderboard { entries: Vec<LeaderboardEntry> },
    FriendRequest { requester_chain_id: String },
    FriendAccepted { target_chain_id: String },
    RoomInvitation { host_chain_id: String, timestamp: String },
    RoomInvitationCancelled { host_chain_id: String },
}

/// Mathematical value of a [`CrossChainMessage`].
#[allow(inconsistent_fields)]
pub enum CrossChainMessageView {
    JoinRequest { player_chain_id: Seq<char>, player_name: Seq<char>, avatar_json: Seq<char> },
    GuessSubmission { guesser_chain_id: Seq<char>, guess: Seq<char>, round: u32 },
    InitialStateSync { room_data: GameRoomView },
    RoomDeleted { timestamp: Seq<char>, archived_room: Option<ArchivedRoomView> },
    PlayerLeft { player_chain_id: Seq<char>, player_name: Option<Seq<char>>, timestamp: Seq<char> },
    MatchmakingEnqueue {
        player_chain_id: Seq<char>,
        player_name: Seq<char>,
        avatar_json: Seq<char>,
        leaderboard_chain_id: Seq<char>,
    },
    MatchmakingStart {
        host_name: Seq<char>,
        host_avatar_json: Seq<char>,
        players: Seq<MatchmakingPlayerView>,
        leaderboard_chain_id: Seq<char>,
    },
    MatchmakingFound { host_chain_id: Seq<char> },
    MatchmakingLeave { player_chain_id: Seq<char> },
    MatchmakingStatusUpdate { players_in_queue: u32 },
    UpdateLeaderboard { entries: Seq<LeaderboardEntryView> },
    FriendRequest { requester_chain_id: Seq<char> },
    FriendAccepted { target_chain_id: Seq<char> },
    RoomInvitation { host_chain_id: Seq<char>, timestamp: Seq<char> },
    RoomInvitationCancelled { host_chain_id: Seq<char> },
}

impl View for CrossChainMessage {
    type V = CrossChainMessageView;

    open spec fn view(&self) -> CrossChainMessageView {
        match *self {
            CrossChainMessage::JoinRequest { player_chain_id, player_name, avatar_json } =>
                CrossChainMessageView::JoinRequest {
                    player_chain_id: player_chain_id@,
                    player_name: player_name@,
                    avatar_json: avatar_json@,
                },
            CrossChainMessage::GuessSubmission { guesser_chain_id, guess, round } =>
                CrossChainMessageView::GuessSubmission {
                    guesser_chain_id: guesser_chain_id@,
                    guess: guess@,
                    round,
                },
            CrossChainMessage::InitialStateSync { room_data } => CrossChainMessageView::InitialStateSync {
                room_data: room_data@,
            },
            CrossChainMessage::RoomDeleted { timestamp, archived_room } => CrossChainMessageView::RoomDeleted {
                timestamp: timestamp@,
                archived_room: opt_view(archived_room),
            },
            CrossChainMessage::PlayerLeft { player_chain_id, player_name, timestamp } =>
                CrossChainMessageView::PlayerLeft {
                    player_chain_id: player_chain_id@,
                    player_name: opt_view(player_name),
                    timestamp: timestamp@,
                },
            CrossChainMessage::MatchmakingEnqueue {
                player_chain_id,
                player_name,
                avatar_json,
                leaderboard_chain_id,
            } => CrossChainMessageView::MatchmakingEnqueue {
                player_chain_id: player_chain_id@,
                player_name: player_name@,
                avatar_json: avatar_json@,
                leaderboard_chain_id: leaderboard_chain_id@,
            },
            CrossChainMessage::MatchmakingStart { host_name, host_avatar_json, players, leaderboard_chain_id } =>
                CrossChainMessageView::MatchmakingStart {
                    host_name: host_name@,
                    host_avatar_json: host_avatar_json@,
                    players: views_of(players@),
                    leaderboard_chain_id: leaderboard_chain_id@,
                },
            CrossChainMessage::MatchmakingFound { host_chain_id } => CrossChainMessageView::MatchmakingFound {
                host_chain_id: host_chain_id@,
            },
            CrossChainMessage::MatchmakingLeave { player_chain_id } => CrossChainMessageView::MatchmakingLeave {
                player_chain_id: player_chain_id@,
            },
            CrossChainMessage::MatchmakingStatusUpdate { players_in_queue } =>
                CrossChainMessageView::MatchmakingStatusUpdate { players_in_queue },
            CrossChainMessage::UpdateLeaderboard { entries } => CrossChainMessageView::UpdateLeaderboard {
                entries: views_of(entries@),
            },
            CrossChainMessage::FriendRequest { requester_chain_id } => CrossChainMessageView::FriendRequest {
                requester_chain_id: requester_chain_id@,
            },
            CrossChainMessage::FriendAccepted { target_chain_id } => CrossChainMessageView::FriendAccepted {
                target_chain_id: target_chain_id@,
            },
            CrossChainMessage::RoomInvitation { host_chain_id, timestamp } => CrossChainMessageView::RoomInvitation {
                host_chain_id: host_chain_id@,
                timestamp: timestamp@,
            },
            CrossChainMessage::RoomInvitationCancelled { host_chain_id } =>
                CrossChainMessageView::RoomInvitationCancelled { host_chain_id: host_chain_id@ },
        }
    }
}

impl Clone for CrossChainMessage {
    fn clone(&self) -> (r: Self)
        ensures
            r@ == self@,
    {
        match self {
            CrossChainMessage::JoinRequest { player_chain_id, player_name, avatar_json } =>
                CrossChainMessage::JoinRequest {
                    player_chain_id: player_chain_id.clone(),
                    player_name: player_name.clone(),
                    avatar_json: avatar_json.clone(),
                },
            CrossChainMessage::GuessSubmission { guesser_chain_id, guess, round } =>
                CrossChainMessage::GuessSubmission {
                    guesser_chain_id: guesser_chain_id.clone(),
                    guess: guess.clone(),
                    round: *round,
                },
            CrossChainMessage::InitialStateSync { room_data } => CrossChainMessage::InitialStateSync {
                room_data: room_data.clone(),
            },
            CrossChainMessage::RoomDeleted { timestamp, archived_room } => CrossChainMessage::RoomDeleted {
                timestamp: timestamp.clone(),
                archived_room: match archived_room {
                    Some(a) => Some(a.clone()),
                    None => None,
                },
            },
            CrossChainMessage::PlayerLeft { player_chain_id, player_name, timestamp } =>
                CrossChainMessage::PlayerLeft {
                    player_chain_id: player_chain_id.clone(),
                    player_name: crate::text::clone_opt_string(player_name),
                    timestamp: timestamp.clone(),
                },
            CrossChainMessage::MatchmakingEnqueue {
                player_chain_id,
                player_name,
                avatar_json,
                leaderboard_chain_id,
            } => CrossChainMessage::MatchmakingEnqueue {
                player_chain_id: player_chain_id.clone(),
                player_name: player_name.clone(),
                avatar_json: avatar_json.clone(),
                leaderboard_chain_id: leaderboard_chain_id.clone(),
            },
            CrossChainMessage::MatchmakingStart { host_name, host_avatar_json, players, leaderboard_chain_id } =>
                CrossChainMessage::MatchmakingStart {
                    host_name: host_name.clone(),
                    host_avatar_json: host_avatar_json.clone(),
                    players: clone_queue(players),
                    leaderboard_chain_id: leaderboard_chain_id.clone(),
                },
            CrossChainMessage::MatchmakingFound { host_chain_id } => CrossChainMessage::MatchmakingFound {
                host_chain_id: host_chain_id.clone(),
            },
            CrossChainMessage::MatchmakingLeave { player_chain_id } => CrossChainMessage::MatchmakingLeave {
                player_chain_id: player_chain_id.clone(),
            },
            CrossChainMessage::MatchmakingStatusUpdate { players_in_queue } =>
                CrossChainMessage::MatchmakingStatusUpdate { players_in_queue: *players_in_queue },
            CrossChainMessage::UpdateLeaderboard { entries } => CrossChainMessage::UpdateLeaderboard {
                entries: clone_entries(entries),
            },
            CrossChainMessage::FriendRequest { requester_chain_id } => CrossChainMessage::FriendRequest {
                requester_chain_id: requester_chain_id.clone(),
            },
            CrossChainMessage::FriendAccepted { target_chain_id } => CrossChainMessage::FriendAccepted {
                target_chain_id: target_chain_id.clone(),
            },
            CrossChainMessage::RoomInvitation { host_chain_id, timestamp } => CrossChainMessage::RoomInvitation {
                host_chain_id: host_chain_id.clone(),
                timestamp: timestamp.clone(),
            },
            CrossChainMessage::RoomInvitationCancelled { host_chain_id } =>
                CrossChainMessage::RoomInvitationCancelled { host_chain_id: host_chain_id.clone() },
        }
    }
}

/// Something a reducer asks the runtime of its replica to do, in the same
/// unit of work as the change of state. The runtime performs the actions of
/// a reducer in the order in which the reducer lists them.
#[derive(Debug, Clone, PartialEq, Eq)]
pub enum Action {
    /// Send a direct message to the replica `target`.
    SendMessage { target: String, message: CrossChainMessage },
    /// Append an event to this replica's broadcast log `stream`.
    Emit { stream: String, event: DoodleEvent },
    /// Follow the broadcast log `stream` of replica `chain_id`.
    Subscribe { chain_id: String, stream: String },
    /// Stop following the broadcast log `stream` of replica `chain_id`.
    Unsubscribe { chain_id: String, stream: String },
    /// Read the blob with this hash.
    ReadDataBlob { hash: String },
}

/// Mathematical value of an [`Action`].
pub enum ActionView {
    SendMessage { target: Seq<char>, message: CrossChainMessageView },
    Emit { stream: Seq<char>, event: DoodleEventView },
    Subscribe { chain_id: Seq<char>, stream: Seq<char> },
    Unsubscribe { chain_id: Seq<char>, stream: Seq<char> },
    ReadDataBlob { hash: Seq<char> },
}

impl View for Action {
    type V = ActionView;

    open spec fn view(&self) -> ActionView {
        match *self {
            Action::SendMessage { target, message } => ActionView::SendMessage {
                target: target@,
                message: message@,
            },
            Action::Emit { stream, event } => ActionView::Emit { stream: stream@, event: event@ },
            Action::Subscribe { chain_id, stream } => ActionView::Subscribe {
                chain_id: chain_id@,
                stream: stream@,
            },
            Action::Unsubscribe { chain_id, stream } => ActionView::Unsubscribe {
                chain_id: chain_id@,
                stream: stream@,
            },
            Action::ReadDataBlob { hash } => ActionView::ReadDataBlob { hash: hash@ },
        }
    }
}

/// The entries of one broadcast log that a replica has to catch up with,
/// in the order in which they were published.
#[derive(Debug, Clone, PartialEq, Eq)]
pub struct StreamUpdate {
    /// The replica that published the entries.
    pub chain_id: String,
    pub events: Vec<DoodleEvent>,
}

/// Mathematical value of a [`StreamUpdate`].
pub struct StreamUpdateView {
    pub chain_id: Seq<char>,
    pub events: Seq<DoodleEventView>,
}

impl View for StreamUpdate {
    type V = StreamUpdateView;

    open spec fn view(&self) -> StreamUpdateView {
        StreamUpdateView { chain_id: self.chain_id@, events: views_of(self.events@) }
    }
}

} // verus!
