//! What one replica stores, and the shape of a reducer's result.

use vstd::prelude::*;
use crate::model::{
    ArchivedRoom, ArchivedRoomView, GameRoom, GameRoomView, Invitation, InvitationView, LeaderboardEntry,
    LeaderboardEntryView, MatchmakingPlayer, MatchmakingPlayerView,
};
use crate::protocol::{Action, ActionView, CrossChainMessage, CrossChainMessageView, Rejection};
use crate::text::{clone_opt_string, clone_strings, lemma_views_push, opt_view, strings_view, views_of};

verus! {

/// Everything a replica keeps between two inputs.
#[derive(Debug, PartialEq, Eq)]
pub struct DoodleGameState {
    /// The room this replica is in, if any.
    pub room: Option<GameRoom>,
    /// The word to guess; only the drawer's replica holds it.
    pub current_word: Option<String>,
    /// The host whose room log this replica follows.
    pub subscribed_to_host: Option<String>,
    /// Records of the rooms that ended.
    pub archived_rooms: Vec<ArchivedRoom>,
    pub friends: Vec<String>,
    pub friend_requests_received: Vec<String>,
    pub friend_requests_sent: Vec<String>,
    /// Invitations received and not yet answered.
    pub room_invitations: Vec<Invitation>,
    /// The replicas this one has invited.
    pub sent_invitations: Vec<String>,
    /// The players waiting for a match; used on the coordinator only.
    pub matchmaking_queue: Vec<MatchmakingPlayer>,
    pub last_notification: Option<String>,
    /// The queue length that the coordinator reported last.
    pub matchmaking_queue_size: u32,
    /// The all-time leaderboard; used on the leaderboard replica only.
    pub leaderboard: Vec<LeaderboardEntry>,
}

/// Mathematical value of a [`DoodleGameState`].
pub struct DoodleGameStateView {
    pub room: Option<GameRoomView>,
    pub current_word: Option<Seq<char>>,
    pub subscribed_to_host: Option<Seq<char>>,
    pub archived_rooms: Seq<ArchivedRoomView>,
    pub friends: Seq<Seq<char>>,
    pub friend_requests_received: Seq<Seq<char>>,
    pub friend_requests_sent: Seq<Seq<char>>,
    pub room_invitations: Seq<InvitationView>,
    pub sent_invitations: Seq<Seq<char>>,
    pub matchmaking_queue: Seq<MatchmakingPlayerView>,
    pub last_notification: Option<Seq<char>>,
    pub matchmaking_queue_size: u32,
    pub leaderboard: Seq<LeaderboardEntryView>,
}

impl View for DoodleGameState {
    type V = DoodleGameStateView;

    open spec fn view(&self) -> DoodleGameStateView {
        DoodleGameStateView {
            room: opt_view(self.room),
            current_word: opt_view(self.current_word),
            subscribed_to_host: opt_view(self.subscribed_to_host),
            archived_rooms: views_of(self.archived_rooms@),
            friends: strings_view(self.friends@),
            friend_requests_received: strings_view(self.friend_requests_received@),
            friend_requests_sent: strings_view(self.friend_requests_sent@),
            room_invitations: views_of(self.room_invitations@),
            sent_invitations: strings_view(self.sent_invitations@),
            matchmaking_queue: views_of(self.matchmaking_queue@),
            last_notification: opt_view(self.last_notification),
            matchmaking_queue_size: self.matchmaking_queue_size,
            leaderboard: views_of(self.leaderboard@),
        }
    }
}

impl DoodleGameStateView {
    /// The state of a replica that has received nothing yet.
    pub open spec fn initial() -> DoodleGameStateView {
        DoodleGameStateView {
            room: None,
            current_word: None,
            subscribed_to_host: None,
            archived_rooms: Seq::empty(),
            friends: Seq::empty(),
            friend_requests_received: Seq::empty(),
            friend_requests_sent: Seq::empty(),
            room_invitations: Seq::empty(),
            sent_invitations: Seq::empty(),
            matchmaking_queue: Seq::empty(),
            last_notification: None,
            matchmaking_queue_size: 0,
            leaderboard: Seq::empty(),
        }
    }
}

/// Copies a list of archive records.
pub fn clone_archives(v: &Vec<ArchivedRoom>) -> (r: Vec<ArchivedRoom>)
    ensures
        views_of(r@) == views_of(v@),
{
    let mut out: Vec<ArchivedRoom> = Vec::new();
    let mut i: usize = 0;
    while i < v.len()
        invariant
            i <= v.len(),
            out@.len() == i,
            forall|j: int| 0 <= j < i ==> #[trigger] out@[j]@ == v@[j]@,
        decreases v.len() - i,
    {
        out.push(v[i].clone());
        i += 1;
    }
    assert(views_of(out@) =~= views_of(v@));
    out
}

impl DoodleGameState {
    /// The state of a replica that has received nothing yet.
    pub fn new() -> (r: Self)
        ensures
            r@ == DoodleGameStateView::initial(),
    {
        let r = DoodleGameState {
            room: None,
            current_word: None,
            subscribed_to_host: None,
            archived_rooms: Vec::new(),
            friends: Vec::new(),
            friend_requests_received: Vec::new(),
            friend_requests_sent: Vec::new(),
            room_invitations: Vec::new(),
            sent_invitations: Vec::new(),
            matchmaking_queue: Vec::new(),
            last_notification: None,
            matchmaking_queue_size: 0,
            leaderboard: Vec::new(),
        };
        assert(r@.archived_rooms =~= Seq::empty());
        assert(r@.friends =~= Seq::empty());
        assert(r@.friend_requests_received =~= Seq::empty());
        assert(r@.friend_requests_sent =~= Seq::empty());
        assert(r@.room_invitations =~= Seq::empty());
        assert(r@.sent_invitations =~= Seq::empty());
        assert(r@.matchmaking_queue =~= Seq::empty());
        assert(r@.leaderboard =~= Seq::empty());
        r
    }
}

impl Clone for DoodleGameState {
    fn clone(&self) -> (r: Self)
        ensures
            r@ == self@,
    {
        let room_invitations = self.room_invitations.clone();
        let matchmaking_queue = self.matchmaking_queue.clone();
        let leaderboard = self.leaderboard.clone();
        assert(room_invitations@ =~= self.room_invitations@);
        assert(matchmaking_queue@ =~= self.matchmaking_queue@);
        assert(leaderboard@ =~= self.leaderboard@);
        DoodleGameState {
            room: match &self.room {
                Some(room) => Some(room.clone()),
                None => None,
            },
            current_word: clone_opt_string(&self.current_word),
            subscribed_to_host: clone_opt_string(&self.subscribed_to_host),
            archived_rooms: clone_archives(&self.archived_rooms),
            friends: clone_strings(&self.friends),
            friend_requests_received: clone_strings(&self.friend_requests_received),
            friend_requests_sent: clone_strings(&self.friend_requests_sent),
            room_invitations,
            sent_invitations: clone_strings(&self.sent_invitations),
            matchmaking_queue,
            last_notification: clone_opt_string(&self.last_notification),
            matchmaking_queue_size: self.matchmaking_queue_size,
            leaderboard,
        }
    }
}

/// What a reducer makes of an accepted input: the new state and the
/// actions to perform, in order.
pub struct Outcome {
    pub state: DoodleGameStateView,
    pub actions: Seq<ActionView>,
}

/// What a reducer makes of an input: an outcome, or the reason why the
/// input was refused.
pub type Step = Result<Outcome, Rejection>;

/// An accepted input.
pub open spec fn accept(state: DoodleGameStateView, actions: Seq<ActionView>) -> Step {
    Ok(Outcome { state, actions })
}

/// An accepted input that changes nothing and asks for nothing.
pub open spec fn ignore(state: DoodleGameStateView) -> Step {
    Ok(Outcome { state, actions: Seq::empty() })
}

/// Whether a reducer that went from `pre` to `post` and returned `r` did
/// what `expected` says: on an outcome, the state and the actions are those
/// of the outcome; on a rejection, the same rejection is returned and the
/// state is as before.
pub open spec fn handled(
    pre: DoodleGameStateView,
    post: DoodleGameStateView,
    r: Result<Vec<Action>, Rejection>,
    expected: Step,
) -> bool {
    match expected {
        Ok(o) => r is Ok && post == o.state && views_of(r->Ok_0@) == o.actions,
        Err(e) => r == Err::<Vec<Action>, Rejection>(e) && post == pre,
    }
}

/// Name of the broadcast log of the room `room_id`.
pub open spec fn stream_name(room_id: Seq<char>) -> Seq<char> {
    "game_events_"@ + room_id
}

/// Name of the broadcast log of the room `room_id`.
pub fn stream_of(room_id: &String) -> (r: String)
    ensures
        r@ == stream_name(room_id@),
{
    String::from_str("game_events_").concat(room_id.as_str())
}

/// One message for each of `targets`, in order.
pub open spec fn send_each(targets: Seq<Seq<char>>, message: CrossChainMessageView) -> Seq<ActionView> {
    targets.map_values(|t: Seq<char>| ActionView::SendMessage { target: t, message: message })
}

/// One subscription to `stream` for each of `targets`, in order.
pub open spec fn subscribe_each(targets: Seq<Seq<char>>, stream: Seq<char>) -> Seq<ActionView> {
    targets.map_values(|t: Seq<char>| ActionView::Subscribe { chain_id: t, stream: stream })
}

/// One cancelled subscription to `stream` for each of `targets`, in order.
pub open spec fn unsubscribe_each(targets: Seq<Seq<char>>, stream: Seq<char>) -> Seq<ActionView> {
    targets.map_values(|t: Seq<char>| ActionView::Unsubscribe { chain_id: t, stream: stream })
}

/// Whether no action of a list starts to follow a log.
pub open spec fn follows_no_log(actions: Seq<ActionView>) -> bool {
    forall|i: int| 0 <= i < actions.len() ==> !(#[trigger] actions[i] is Subscribe)
}

/// No actions.
pub fn no_actions() -> (r: Vec<Action>)
    ensures
        views_of(r@) == Seq::<ActionView>::empty(),
{
    let r: Vec<Action> = Vec::new();
    assert(views_of(r@) =~= Seq::<ActionView>::empty());
    r
}

/// A single action.
pub fn one_action(action: Action) -> (r: Vec<Action>)
    ensures
        views_of(r@) == seq![action@],
{
    let mut r: Vec<Action> = Vec::new();
    r.push(action);
    assert(views_of(r@) =~= seq![action@]);
    r
}

/// Appends one action.
pub fn push_action(out: &mut Vec<Action>, action: Action)
    ensures
        views_of(final(out)@) == views_of(old(out)@).push(action@),
{
    proof {
        lemma_views_push(out@, action);
    }
    out.push(action);
}

/// Appends a copy of `message` for each of `targets`.
pub fn push_send_each(out: &mut Vec<Action>, targets: &Vec<String>, message: &CrossChainMessage)
    ensures
        views_of(final(out)@) == views_of(old(out)@) + send_each(strings_view(targets@), message@),
{
    let ghost goal = send_each(strings_view(targets@), message@);
    let mut i: usize = 0;
    while i < targets.len()
        invariant
            i <= targets.len(),
            goal == send_each(strings_view(targets@), message@),
            views_of(out@) == views_of(old(out)@) + goal.take(i as int),
        decreases targets.len() - i,
    {
        let action = Action::SendMessage { target: targets[i].clone(), message: message.clone() };
        proof {
            assert(goal[i as int] == action@);
            assert(goal.take(i as int + 1) =~= goal.take(i as int).push(action@));
            assert((views_of(old(out)@) + goal.take(i as int)).push(action@) =~= views_of(old(out)@) + goal.take(
                i as int + 1,
            ));
        }
        push_action(out, action);
        i += 1;
    }
    assert(goal.take(targets.len() as int) =~= goal);
}

/// Appends a subscription to `stream` for each of `targets`.
pub fn push_subscribe_each(out: &mut Vec<Action>, targets: &Vec<String>, stream: &String)
    ensures
        views_of(final(out)@) == views_of(old(out)@) + subscribe_each(strings_view(targets@), stream@),
{
    let ghost goal = subscribe_each(strings_view(targets@), stream@);
    let mut i: usize = 0;
    while i < targets.len()
        invariant
            i <= targets.len(),
            goal == subscribe_each(strings_view(targets@), stream@),
            views_of(out@) == views_of(old(out)@) + goal.take(i as int),
        decreases targets.len() - i,
    {
        let action = Action::Subscribe { chain_id: targets[i].clone(), stream: stream.clone() };
        proof {
            assert(goal[i as int] == action@);
            assert(goal.take(i as int + 1) =~= goal.take(i as int).push(action@));
            assert((views_of(old(out)@) + goal.take(i as int)).push(action@) =~= views_of(old(out)@) + goal.take(
                i as int + 1,
            ));
        }
        push_action(out, action);
        i += 1;
    }
    assert(goal.take(targets.len() as int) =~= goal);
}

/// Appends a cancelled subscription to `stream` for each of `targets`.
pub fn push_unsubscribe_each(out: &mut Vec<Action>, targets: &Vec<String>, stream: &String)
    ensures
        views_of(final(out)@) == views_of(old(out)@) + unsubscribe_each(strings_view(targets@), stream@),
{
    let ghost goal = unsubscribe_each(strings_view(targets@), stream@);
    let mut i: usize = 0;
    while i < targets.len()
        invariant
            i <= targets.len(),
            goal == unsubscribe_each(strings_view(targets@), stream@),
            views_of(out@) == views_of(old(out)@) + goal.take(i as int),
        decreases targets.len() - i,
    {
        let action = Action::Unsubscribe { chain_id: targets[i].clone(), stream: stream.clone() };
        proof {
            assert(goal[i as int] == action@);
            assert(goal.take(i as int + 1) =~= goal.take(i as int).push(action@));
            assert((views_of(old(out)@) + goal.take(i as int)).push(action@) =~= views_of(old(out)@) + goal.take(
                i as int + 1,
            ));
        }
        push_action(out, action);
        i += 1;
    }
    assert(goal.take(targets.len() as int) =~= goal);
}

} // verus!
