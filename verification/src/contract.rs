//! The three reducers of a replica: one for the operations of its user, one
//! for direct messages, one for the logs it follows.

use vstd::prelude::*;
use crate::guessing::{guess_submission_step, receive_guess_submission};
use crate::inbox::{
    initial_state_sync_step, join_request_step, player_left_step, receive_initial_state_sync,
    receive_join_request, receive_player_left, receive_room_deleted, room_deleted_step,
};
use crate::leaderboard::{receive_update_leaderboard, update_leaderboard_step};
use crate::matchmaking::{
    dequeue_step, enqueue_step, join_matchmaking, join_matchmaking_step, leave_matchmaking,
    leave_matchmaking_step, match_found_step, match_start_step, receive_dequeue, receive_enqueue,
    receive_match_found, receive_match_start, receive_status_update, status_update_step,
};
use crate::protocol::{
    Action, ActionView, Context, ContextView, CrossChainMessage, CrossChainMessageView, DoodleEventView,
    Operation, OperationView, Rejection, StreamUpdate,
};
use crate::session::{
    choose_drawer, choose_drawer_step, choose_word, choose_word_step, create_room, create_room_step,
    end_match, end_match_step, guess_word, guess_word_step, join_room, join_room_step, leave_room,
    leave_room_step, read_data_blob, read_data_blob_step, start_game, start_game_step,
};
use crate::social::{
    accept_friend, accept_friend_step, accept_invite, accept_invite_step, decline_friend,
    decline_friend_step, decline_invite, decline_invite_step, friend_accepted_step, friend_request_step,
    invitation_cancelled_step, invite_friend, invite_friend_step, receive_friend_accepted,
    receive_friend_request, receive_invitation_cancelled, receive_room_invitation, request_friend,
    request_friend_step, room_invitation_step,
};
use crate::chain::canonical_id;
use crate::guessing::guesser_name;
use crate::matchmaking::{with_guests, MATCH_ROUNDS, MATCH_SECONDS_PER_ROUND};
use crate::model::{GameRoomView, MatchmakingPlayerView, PlayerStatus};
use crate::room::{chain_ids, names, statuses};
use crate::state::{follows_no_log, handled, DoodleGameState, DoodleGameStateView, Step};
use crate::text::{decimal_text, lemma_index_from};
use crate::streams::{process_streams, streams_step};
use crate::text::views_of;

verus! {

/// What a replica makes of an operation of its user.
pub open spec fn operation_step(s: DoodleGameStateView, ctx: ContextView, operation: OperationView) -> Step {
    match operation {
        OperationView::CreateRoom { host_name, avatar_json } => create_room_step(s, ctx, host_name, avatar_json),
        OperationView::JoinRoom { host_chain_id, player_name, avatar_json } => join_room_step(
            s,
            ctx,
            host_chain_id,
            player_name,
            avatar_json,
        ),
        OperationView::StartGame { rounds, seconds_per_round } => start_game_step(s, ctx, rounds, seconds_per_round),
        OperationView::ChooseDrawer => choose_drawer_step(s, ctx),
        OperationView::ChooseWord { word } => choose_word_step(s, ctx, word),
        OperationView::GuessWord { guess } => guess_word_step(s, ctx, guess),
        OperationView::EndMatch => end_match_step(s, ctx),
        OperationView::LeaveRoom { blob_hashes } => leave_room_step(s, ctx, blob_hashes),
        OperationView::ReadDataBlob { hash } => read_data_blob_step(s, hash),
        OperationView::JoinMatchmaking {
            matchmaking_chain_id,
            leaderboard_chain_id,
            player_name,
            avatar_json,
        } => join_matchmaking_step(s, ctx, matchmaking_chain_id, leaderboard_chain_id, player_name, avatar_json),
        OperationView::LeaveMatchmaking { matchmaking_chain_id } => leave_matchmaking_step(
            s,
            ctx,
            matchmaking_chain_id,
        ),
        OperationView::RequestFriend { target_chain_id } => request_friend_step(s, ctx, target_chain_id),
        OperationView::AcceptFriend { requester_chain_id } => accept_friend_step(s, ctx, requester_chain_id),
        OperationView::DeclineFriend { requester_chain_id } => decline_friend_step(s, requester_chain_id),
        OperationView::InviteFriend { friend_chain_id } => invite_friend_step(s, ctx, friend_chain_id),
        OperationView::AcceptInvite { host_chain_id, player_name, avatar_json } => accept_invite_step(
            s,
            ctx,
            host_chain_id,
            player_name,
            avatar_json,
        ),
        OperationView::DeclineInvite { host_chain_id } => decline_invite_step(s, host_chain_id),
    }
}

/// What a replica makes of a direct message.
pub open spec fn message_step(s: DoodleGameStateView, ctx: ContextView, message: CrossChainMessageView) -> Step {
    match message {
        CrossChainMessageView::JoinRequest { player_chain_id, player_name, avatar_json } => join_request_step(
            s,
            ctx,
            player_chain_id,
            player_name,
            avatar_json,
        ),
        CrossChainMessageView::GuessSubmission { guesser_chain_id, guess, round } => guess_submission_step(
            s,
            guesser_chain_id,
            guess,
            round,
        ),
        CrossChainMessageView::InitialStateSync { room_data } => initial_state_sync_step(s, room_data),
        CrossChainMessageView::RoomDeleted { timestamp, archived_room } => room_deleted_step(s, archived_room),
        CrossChainMessageView::PlayerLeft { player_chain_id, player_name, timestamp } => player_left_step(
            s,
            player_chain_id,
            timestamp,
        ),
        CrossChainMessageView::MatchmakingEnqueue {
            player_chain_id,
            player_name,
            avatar_json,
            leaderboard_chain_id,
        } => enqueue_step(s, player_chain_id, player_name, avatar_json, leaderboard_chain_id),
        CrossChainMessageView::MatchmakingStart {
            host_name,
            host_avatar_json,
            players,
            leaderboard_chain_id,
        } => match_start_step(
            s,
            ctx,
            host_name,
            host_avatar_json,
            players,
            leaderboard_chain_id,
        ),
        CrossChainMessageView::MatchmakingFound { host_chain_id } => match_found_step(s, host_chain_id),
        CrossChainMessageView::MatchmakingLeave { player_chain_id } => dequeue_step(s, player_chain_id),
        CrossChainMessageView::MatchmakingStatusUpdate { players_in_queue } => status_update_step(
            s,
            players_in_queue,
        ),
        CrossChainMessageView::UpdateLeaderboard { entries } => update_leaderboard_step(s, entries),
        CrossChainMessageView::FriendRequest { requester_chain_id } => friend_request_step(s, requester_chain_id),
        CrossChainMessageView::FriendAccepted { target_chain_id } => friend_accepted_step(s, target_chain_id),
        CrossChainMessageView::RoomInvitation { host_chain_id, timestamp } => room_invitation_step(
            s,
            host_chain_id,
            timestamp,
        ),
        CrossChainMessageView::RoomInvitationCancelled { host_chain_id } => invitation_cancelled_step(
            s,
            host_chain_id,
        ),
    }
}

/// The state that a replica starts from: whatever was there of rooms,
/// words, friends, invitations, queue and notification is gone.
pub open spec fn instantiated(s: DoodleGameStateView) -> DoodleGameStateView {
    DoodleGameStateView {
        room: None,
        current_word: None,
        friends: Seq::empty(),
        friend_requests_received: Seq::empty(),
        friend_requests_sent: Seq::empty(),
        room_invitations: Seq::empty(),
        sent_invitations: Seq::empty(),
        matchmaking_queue: Seq::empty(),
        last_notification: None,
        ..s
    }
}

/// The game logic of one replica, around the state it keeps.
#[derive(Debug, Clone, PartialEq, Eq)]
pub struct DoodleGameContract {
    pub state: DoodleGameState,
}

impl DoodleGameContract {
    /// The game logic of a replica that has received nothing yet.
    pub fn new() -> (r: Self)
        ensures
            r.state@ == DoodleGameStateView::initial(),
    {
        DoodleGameContract { state: DoodleGameState::new() }
    }

    /// Puts the replica into its starting state.
    pub fn instantiate(&mut self)
        ensures
            final(self).state@ == instantiated(old(self).state@),
    {
        self.state.room = None;
        self.state.current_word = None;
        self.state.friends = Vec::new();
        self.state.friend_requests_received = Vec::new();
        self.state.friend_requests_sent = Vec::new();
        self.state.room_invitations = Vec::new();
        self.state.sent_invitations = Vec::new();
        self.state.matchmaking_queue = Vec::new();
        self.state.last_notification = None;
        assert(self.state@.friends =~= Seq::empty());
        assert(self.state@.friend_requests_received =~= Seq::empty());
        assert(self.state@.friend_requests_sent =~= Seq::empty());
        assert(self.state@.room_invitations =~= Seq::empty());
        assert(self.state@.sent_invitations =~= Seq::empty());
        assert(self.state@.matchmaking_queue =~= Seq::empty());
    }

    /// Applies an operation of the replica's user. A refused operation
    /// leaves the state as it was.
    pub fn execute_operation(&mut self, ctx: &Context, operation: Operation) -> (r: Result<Vec<Action>, Rejection>)
        ensures
            handled(old(self).state@, final(self).state@, r, operation_step(old(self).state@, ctx@, operation@)),
    {
        match operation {
            Operation::CreateRoom { host_name, avatar_json } => create_room(
                &mut self.state,
                ctx,
                host_name,
                avatar_json,
            ),
            Operation::JoinRoom { host_chain_id, player_name, avatar_json } => join_room(
                &mut self.state,
                ctx,
                host_chain_id,
                player_name,
                avatar_json,
            ),
            Operation::StartGame { rounds, seconds_per_round } => start_game(
                &mut self.state,
                ctx,
                rounds,
                seconds_per_round,
            ),
            Operation::ChooseDrawer => choose_drawer(&mut self.state, ctx),
            Operation::ChooseWord { word } => choose_word(&mut self.state, ctx, word),
            Operation::GuessWord { guess } => guess_word(&mut self.state, ctx, guess),
            Operation::EndMatch => end_match(&mut self.state, ctx),
            Operation::LeaveRoom { blob_hashes } => leave_room(&mut self.state, ctx, blob_hashes),
            Operation::ReadDataBlob { hash } => read_data_blob(&mut self.state, hash),
            Operation::JoinMatchmaking {
                matchmaking_chain_id,
                leaderboard_chain_id,
                player_name,
                avatar_json,
            } => join_matchmaking(
                &mut self.state,
                ctx,
                matchmaking_chain_id,
                leaderboard_chain_id,
                player_name,
                avatar_json,
            ),
            Operation::LeaveMatchmaking { matchmaking_chain_id } => leave_matchmaking(
                &mut self.state,
                ctx,
                matchmaking_chain_id,
            ),
            Operation::RequestFriend { target_chain_id } => request_friend(&mut self.state, ctx, target_chain_id),
            Operation::AcceptFriend { requester_chain_id } => accept_friend(
                &mut self.state,
                ctx,
                requester_chain_id,
            ),
            Operation::DeclineFriend { requester_chain_id } => decline_friend(&mut self.state, requester_chain_id),
            Operation::InviteFriend { friend_chain_id } => invite_friend(&mut self.state, ctx, friend_chain_id),
            Operation::AcceptInvite { host_chain_id, player_name, avatar_json } => accept_invite(
                &mut self.state,
                ctx,
                host_chain_id,
                player_name,
                avatar_json,
            ),
            Operation::DeclineInvite { host_chain_id } => decline_invite(&mut self.state, host_chain_id),
        }
    }

    /// Applies a direct message. A refused message leaves the state as it
    /// was.
    pub fn execute_message(&mut self, ctx: &Context, message: CrossChainMessage) -> (r: Result<
        Vec<Action>,
        Rejection,
    >)
        ensures
            handled(old(self).state@, final(self).state@, r, message_step(old(self).state@, ctx@, message@)),
    {
        match message {
            CrossChainMessage::JoinRequest { player_chain_id, player_name, avatar_json } => receive_join_request(
                &mut self.state,
                ctx,
                player_chain_id,
                player_name,
                avatar_json,
            ),
            CrossChainMessage::GuessSubmission { guesser_chain_id, guess, round } => receive_guess_submission(
                &mut self.state,
                guesser_chain_id,
                guess,
                round,
            ),
            CrossChainMessage::InitialStateSync { room_data } => receive_initial_state_sync(
                &mut self.state,
                room_data,
            ),
            CrossChainMessage::RoomDeleted { timestamp, archived_room } => receive_room_deleted(
                &mut self.state,
                timestamp,
                archived_room,
            ),
            CrossChainMessage::PlayerLeft { player_chain_id, player_name, timestamp } => receive_player_left(
                &mut self.state,
                player_chain_id,
                player_name,
                timestamp,
            ),
            CrossChainMessage::MatchmakingEnqueue {
                player_chain_id,
                player_name,
                avatar_json,
                leaderboard_chain_id,
            } => receive_enqueue(&mut self.state, player_chain_id, player_name, avatar_json, leaderboard_chain_id),
            CrossChainMessage::MatchmakingStart {
                host_name,
                host_avatar_json,
                players,
                leaderboard_chain_id,
            } => receive_match_start(
                &mut self.state,
                ctx,
                host_name,
                host_avatar_json,
                players,
                leaderboard_chain_id,
            ),
            CrossChainMessage::MatchmakingFound { host_chain_id } => receive_match_found(
                &mut self.state,
                host_chain_id,
            ),
            CrossChainMessage::MatchmakingLeave { player_chain_id } => receive_dequeue(
                &mut self.state,
                player_chain_id,
            ),
            CrossChainMessage::MatchmakingStatusUpdate { players_in_queue } => receive_status_update(
                &mut self.state,
                players_in_queue,
            ),
            CrossChainMessage::UpdateLeaderboard { entries } => receive_update_leaderboard(&mut self.state, entries),
            CrossChainMessage::FriendRequest { requester_chain_id } => receive_friend_request(
                &mut self.state,
                requester_chain_id,
            ),
            CrossChainMessage::FriendAccepted { target_chain_id } => receive_friend_accepted(
                &mut self.state,
                target_chain_id,
            ),
            CrossChainMessage::RoomInvitation { host_chain_id, timestamp } => receive_room_invitation(
                &mut self.state,
                host_chain_id,
                timestamp,
            ),
            CrossChainMessage::RoomInvitationCancelled { host_chain_id } => receive_invitation_cancelled(
                &mut self.state,
                host_chain_id,
            ),
        }
    }

    /// Applies the new entries of the logs that the replica follows. A
    /// refused entry leaves the state as it was before the first entry.
    pub fn process_streams(&mut self, ctx: &Context, updates: Vec<StreamUpdate>) -> (r: Result<
        Vec<Action>,
        Rejection,
    >)
        ensures
            handled(old(self).state@, final(self).state@, r, streams_step(old(self).state@, ctx@, views_of(updates@))),
    {
        process_streams(&mut self.state, ctx, updates)
    }
}

/// Whether the room of a replica, if it has one, points at an `Active`
/// player as its drawer or at nobody.
pub open spec fn drawer_is_active(room: Option<GameRoomView>) -> bool {
    match room {
        Some(r) => r.players.len() <= usize::MAX && r.drawer_valid(),
        None => true,
    }
}

proof fn lemma_next_drawer_is_active(room: GameRoomView)
    requires
        room.players.len() <= usize::MAX,
    ensures
        match room.next_drawer() {
            Some(i) => 0 <= i < room.players.len() && room.players[i].status == PlayerStatus::Active,
            None => true,
        },
{
    let s = statuses(room.players);
    lemma_index_from(s, PlayerStatus::Active, 0);
    if room.current_drawer_index is Some && s.len() > 0 {
        let c = room.current_drawer_index.unwrap() as int;
        lemma_index_from(s, PlayerStatus::Active, c % (s.len() as int) + 1);
    }
    match room.next_drawer() {
        Some(i) => {
            assert(s[i] == room.players[i].status);
        },
        None => {},
    }
}

/// The drawer stays valid. If the room of a replica points at an `Active`
/// player as its drawer, or at nobody, then so does the room after any
/// operation of the replica's user.
pub proof fn law_operations_keep_the_drawer_active(s: DoodleGameStateView, ctx: ContextView, operation: OperationView)
    requires
        drawer_is_active(s.room),
    ensures
        match operation_step(s, ctx, operation) {
            Ok(o) => drawer_is_active(o.state.room),
            Err(_) => true,
        },
{
    match operation {
        OperationView::StartGame { rounds, seconds_per_round } => {
            if s.room is Some {
                let started = s.room.unwrap().started(rounds, seconds_per_round);
                lemma_next_drawer_is_active(started);
            }
        },
        OperationView::ChooseDrawer => {
            if s.room is Some {
                let room = s.room.unwrap();
                lemma_next_drawer_is_active(room);
                lemma_next_drawer_is_active(room.advanced());
            }
        },
        _ => {},
    }
}

/// The drawer stays valid under direct messages as well, where a snapshot
/// that arrives is valid itself.
pub proof fn law_messages_keep_the_drawer_active(
    s: DoodleGameStateView,
    ctx: ContextView,
    message: CrossChainMessageView,
)
    requires
        drawer_is_active(s.room),
        match message {
            CrossChainMessageView::InitialStateSync { room_data } => drawer_is_active(Some(room_data)),
            CrossChainMessageView::MatchmakingStart { players, .. } => players.len() < usize::MAX,
            _ => s.room is Some ==> s.room.unwrap().players.len() < usize::MAX,
        },
    ensures
        match message_step(s, ctx, message) {
            Ok(o) => drawer_is_active(o.state.room),
            Err(_) => true,
        },
{
    match message {
        CrossChainMessageView::JoinRequest { player_chain_id, player_name, avatar_json } => {
            if s.room is Some && canonical_id(player_chain_id) is Some {
                lemma_index_from(chain_ids(s.room.unwrap().players), canonical_id(player_chain_id).unwrap(), 0);
            }
        },
        CrossChainMessageView::GuessSubmission { guesser_chain_id, guess, round } => {
            if s.room is Some && canonical_id(guesser_chain_id) is Some {
                let room = s.room.unwrap();
                let name = guesser_name(room.players, canonical_id(guesser_chain_id).unwrap());
                lemma_index_from(names(room.players), name, 0);
            }
        },
        CrossChainMessageView::PlayerLeft { player_chain_id, player_name, timestamp } => {
            if s.room is Some && canonical_id(player_chain_id) is Some {
                lemma_index_from(chain_ids(s.room.unwrap().players), canonical_id(player_chain_id).unwrap(), 0);
            }
        },
        CrossChainMessageView::MatchmakingStart { host_name, host_avatar_json, players, leaderboard_chain_id } => {
            let timestamp = decimal_text(ctx.now_micros as nat);
            let fresh = GameRoomView::created(
                ctx.chain_id,
                host_name,
                host_avatar_json,
                timestamp,
                if leaderboard_chain_id.len() == 0 {
                    None
                } else {
                    Some(leaderboard_chain_id)
                },
            );
            let guests = with_guests(fresh, players);
            lemma_guests_bound(fresh, players);
            lemma_next_drawer_is_active(guests.started(MATCH_ROUNDS, MATCH_SECONDS_PER_ROUND));
        },
        _ => {},
    }
}

proof fn lemma_guests_bound(room: GameRoomView, guests: Seq<MatchmakingPlayerView>)
    ensures
        with_guests(room, guests).players.len() <= room.players.len() + guests.len(),
        with_guests(room, guests).current_drawer_index == room.current_drawer_index,
    decreases guests.len(),
{
    if guests.len() > 0 {
        lemma_guests_bound(room, guests.drop_last());
        let before = with_guests(room, guests.drop_last());
        lemma_index_from(chain_ids(before.players), guests.last().chain_id, 0);
    }
}

/// A guest follows one log only. On a replica that is not the host of its
/// room, no operation but the creation of a room of its own, and no message
/// but the host's snapshot and the start of a match, starts to follow a
/// log; the snapshot makes it follow the room log of the snapshot's host
/// and nothing else.
pub proof fn law_guests_follow_one_log(s: DoodleGameStateView, ctx: ContextView, message: CrossChainMessageView)
    requires
        match s.room {
            Some(room) => room.host_chain_id != ctx.chain_id,
            None => true,
        },
        !(message is MatchmakingStart),
        message_step(s, ctx, message) is Ok,
    ensures
        match message {
            CrossChainMessageView::InitialStateSync { room_data } => {
                let actions = message_step(s, ctx, message)->Ok_0.actions;
                actions.len() <= 1 && (actions.len() == 1 ==> canonical_id(room_data.host_chain_id) is Some
                    && actions[0] == (ActionView::Subscribe {
                    chain_id: canonical_id(room_data.host_chain_id).unwrap(),
                    stream: crate::state::stream_name(room_data.room_id),
                }))
            },
            _ => follows_no_log(message_step(s, ctx, message)->Ok_0.actions),
        },
{
}

/// No operation but the creation of a room starts to follow a log.
pub proof fn law_operations_follow_no_log(s: DoodleGameStateView, ctx: ContextView, operation: OperationView)
    requires
        !(operation is CreateRoom),
        operation_step(s, ctx, operation) is Ok,
    ensures
        follows_no_log(operation_step(s, ctx, operation)->Ok_0.actions),
{
}

/// Whether the room of a replica, if it has one, holds no replica twice in
/// its roster.
pub open spec fn players_are_unique(room: Option<GameRoomView>) -> bool {
    match room {
        Some(r) => r.players_unique(),
        None => true,
    }
}

proof fn lemma_guests_stay_unique(room: GameRoomView, guests: Seq<MatchmakingPlayerView>)
    requires
        room.players_unique(),
    ensures
        with_guests(room, guests).players_unique(),
    decreases guests.len(),
{
    if guests.len() > 0 {
        lemma_guests_stay_unique(room, guests.drop_last());
        crate::room::law_join_keeps_players_unique(
            with_guests(room, guests.drop_last()),
            crate::matchmaking::guest_player(guests.last()),
        );
    }
}

/// Players stay unique by replica under operations. If the room of a
/// replica holds no replica twice, neither does the room after any
/// operation of the replica's user.
pub proof fn law_operations_keep_players_unique(s: DoodleGameStateView, ctx: ContextView, operation: OperationView)
    requires
        players_are_unique(s.room),
    ensures
        match operation_step(s, ctx, operation) {
            Ok(o) => players_are_unique(o.state.room),
            Err(_) => true,
        },
{
    let ts = crate::session::timestamp_text(ctx);
    match operation {
        OperationView::CreateRoom { host_name, avatar_json } => {
            let room = GameRoomView::created(ctx.chain_id, host_name, avatar_json, ts, None);
            assert(chain_ids(room.players) =~= seq![ctx.chain_id]);
        },
        OperationView::StartGame { rounds, seconds_per_round } => {
            if s.room is Some {
                let room = s.room.unwrap();
                let started = room.started(rounds, seconds_per_round);
                crate::room::lemma_roster_keeps_its_replicas(room, rounds, seconds_per_round, 0, ts, ts, 0, ts);
                crate::room::lemma_roster_keeps_its_replicas(started, 0, 0, 0, ts, ts, 0, ts);
                if started.next_drawer() is Some {
                    crate::room::lemma_roster_keeps_its_replicas(
                        started,
                        0,
                        0,
                        started.next_drawer().unwrap() as usize,
                        ts,
                        ts,
                        0,
                        ts,
                    );
                }
            }
        },
        OperationView::ChooseDrawer => {
            if s.room is Some {
                let room = s.room.unwrap();
                let next = room.advanced();
                assert(next.players == room.players);
                if room.next_drawer() is Some {
                    crate::room::lemma_roster_keeps_its_replicas(
                        room,
                        0,
                        0,
                        room.next_drawer().unwrap() as usize,
                        ts,
                        ts,
                        0,
                        ts,
                    );
                }
                if next.next_drawer() is Some {
                    crate::room::lemma_roster_keeps_its_replicas(
                        next,
                        0,
                        0,
                        next.next_drawer().unwrap() as usize,
                        ts,
                        ts,
                        0,
                        ts,
                    );
                }
            }
        },
        _ => {},
    }
}

/// Players stay unique by replica under direct messages, where a snapshot
/// that arrives holds no replica twice itself.
pub proof fn law_messages_keep_players_unique(
    s: DoodleGameStateView,
    ctx: ContextView,
    message: CrossChainMessageView,
)
    requires
        players_are_unique(s.room),
        match message {
            CrossChainMessageView::InitialStateSync { room_data } => room_data.players_unique(),
            _ => true,
        },
    ensures
        match message_step(s, ctx, message) {
            Ok(o) => players_are_unique(o.state.room),
            Err(_) => true,
        },
{
    let ts = crate::session::timestamp_text(ctx);
    match message {
        CrossChainMessageView::JoinRequest { player_chain_id, player_name, avatar_json } => {
            if s.room is Some && canonical_id(player_chain_id) is Some {
                crate::room::law_join_keeps_players_unique(
                    s.room.unwrap(),
                    crate::inbox::joining_player(canonical_id(player_chain_id).unwrap(), player_name, avatar_json),
                );
            }
        },
        CrossChainMessageView::GuessSubmission { guesser_chain_id, guess, round } => {
            if s.room is Some && canonical_id(guesser_chain_id) is Some {
                let room = s.room.unwrap();
                let name = guesser_name(room.players, canonical_id(guesser_chain_id).unwrap());
                let points = crate::guessing::guess_points(crate::guessing::guessed_count(room.players));
                let line = crate::guessing::chat_line(name, guess, true, points);
                crate::room::lemma_roster_keeps_its_replicas(room.with_chat(line), 0, 0, 0, ts, name, points, ts);
            }
        },
        CrossChainMessageView::PlayerLeft { player_chain_id, player_name, timestamp } => {
            if s.room is Some && canonical_id(player_chain_id) is Some {
                crate::room::lemma_roster_keeps_its_replicas(
                    s.room.unwrap(),
                    0,
                    0,
                    0,
                    ts,
                    ts,
                    0,
                    canonical_id(player_chain_id).unwrap(),
                );
            }
        },
        CrossChainMessageView::MatchmakingStart { host_name, host_avatar_json, players, leaderboard_chain_id } => {
            let fresh = GameRoomView::created(
                ctx.chain_id,
                host_name,
                host_avatar_json,
                ts,
                if leaderboard_chain_id.len() == 0 {
                    None
                } else {
                    Some(leaderboard_chain_id)
                },
            );
            assert(chain_ids(fresh.players) =~= seq![ctx.chain_id]);
            lemma_guests_stay_unique(fresh, players);
            let joined = with_guests(fresh, players);
            let started = joined.started(MATCH_ROUNDS, MATCH_SECONDS_PER_ROUND);
            crate::room::lemma_roster_keeps_its_replicas(joined, MATCH_ROUNDS, MATCH_SECONDS_PER_ROUND, 0, ts, ts, 0, ts);
            crate::room::lemma_roster_keeps_its_replicas(started, 0, 0, 0, ts, ts, 0, ts);
        },
        _ => {},
    }
}

/// Players stay unique by replica under the events of the logs.
pub proof fn law_events_keep_players_unique(
    s: DoodleGameStateView,
    ctx: ContextView,
    origin: Seq<char>,
    event: DoodleEventView,
)
    requires
        players_are_unique(s.room),
    ensures
        match crate::streams::event_step(s, ctx, origin, event) {
            Ok(o) => players_are_unique(o.state.room),
            Err(_) => true,
        },
{
    if s.room is Some {
        let room = s.room.unwrap();
        let ts = crate::session::timestamp_text(ctx);
        match event {
            DoodleEventView::PlayerJoined { player, timestamp } => {
                crate::room::law_join_keeps_players_unique(room, player);
            },
            DoodleEventView::PlayerLeft { player_chain_id, timestamp } => {
                crate::room::lemma_roster_keeps_its_replicas(room, 0, 0, 0, ts, ts, 0, player_chain_id);
            },
            DoodleEventView::GameStarted { rounds, seconds_per_round, drawer_index, drawer_name, timestamp } => {
                crate::room::lemma_roster_keeps_its_replicas(room, rounds, seconds_per_round, 0, ts, ts, 0, ts);
                crate::room::lemma_roster_keeps_its_replicas(
                    room.started(rounds, seconds_per_round),
                    0,
                    0,
                    drawer_index,
                    timestamp,
                    ts,
                    0,
                    ts,
                );
            },
            DoodleEventView::DrawerChosen { drawer_index, drawer_name, timestamp, previous_blob_hash } => {
                crate::room::lemma_roster_keeps_its_replicas(room, 0, 0, drawer_index, timestamp, ts, 0, ts);
            },
            DoodleEventView::ChatMessage { message } => {
                crate::room::lemma_roster_keeps_its_replicas(
                    room.with_chat(message),
                    0,
                    0,
                    0,
                    ts,
                    message.player_name,
                    message.points_awarded,
                    ts,
                );
            },
            _ => {},
        }
    }
}

} // verus!
