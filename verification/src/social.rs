//! Friends and room invitations: small list changes guarded by membership
//! checks, with a notice to the other replica where one is due.

use vstd::prelude::*;
use crate::chain::{canonical_id, parse_chain_id};
use crate::model::{Invitation, InvitationView};
use crate::protocol::{
    Action, ActionView, Context, ContextView, CrossChainMessage, CrossChainMessageView, Rejection,
};
use crate::state::{
    accept, handled, ignore, no_actions, one_action, DoodleGameState, DoodleGameStateView, Step,
};
use crate::text::{
    contains_string, decimal_string, decimal_text, index_of, lemma_index_from_found, lemma_index_from_none,
    lemma_index_of_contains, parse_decimal, parsed_decimal, position_of_string, push_viewed, remove_viewed,
    strings_view, views_of,
};

verus! {

/// How long an invitation can be accepted, in microseconds: five minutes.
pub const INVITATION_WINDOW_MICROS: u64 = 300_000_000;

/// A list without the first occurrence of `key`.
pub open spec fn without_first(list: Seq<Seq<char>>, key: Seq<char>) -> Seq<Seq<char>> {
    match index_of(list, key) {
        Some(i) => list.remove(i),
        None => list,
    }
}

/// The hosts of a list of invitations, in order.
pub open spec fn invitation_hosts(invitations: Seq<InvitationView>) -> Seq<Seq<char>> {
    invitations.map_values(|i: InvitationView| i.host_chain_id)
}

/// A list of invitations without the first one from `host`.
pub open spec fn without_invitation(invitations: Seq<InvitationView>, host: Seq<char>) -> Seq<InvitationView> {
    match index_of(invitation_hosts(invitations), host) {
        Some(i) => invitations.remove(i),
        None => invitations,
    }
}

/// The time an invitation was made at: the number its timestamp denotes,
/// and 0 where it denotes none.
pub open spec fn invitation_time(timestamp: Seq<char>) -> u64 {
    match parsed_decimal(timestamp) {
        Some(t) => t,
        None => 0,
    }
}

/// Whether an invitation made at `created` can still be accepted at `now`:
/// no more than five minutes have passed.
pub open spec fn invitation_valid(created: u64, now: u64) -> bool {
    now - created <= INVITATION_WINDOW_MICROS
}

/// Removes the first occurrence of `key` from `list`.
pub fn remove_first_string(list: &mut Vec<String>, key: &String)
    ensures
        strings_view(final(list)@) == without_first(strings_view(old(list)@), key@),
{
    match position_of_string(list, key) {
        Some(i) => {
            remove_viewed(list, i);
        },
        None => {},
    }
}

/// Index of the first invitation from `host`.
pub fn position_of_invitation(invitations: &Vec<Invitation>, host: &String) -> (r: Option<usize>)
    ensures
        match r {
            Some(i) => i < invitations@.len() && index_of(invitation_hosts(views_of(invitations@)), host@) == Some(
                i as int,
            ),
            None => index_of(invitation_hosts(views_of(invitations@)), host@) is None,
        },
{
    let ghost keys = invitation_hosts(views_of(invitations@));
    let mut i: usize = 0;
    while i < invitations.len()
        invariant
            keys == invitation_hosts(views_of(invitations@)),
            forall|j: int| 0 <= j < i && j < invitations.len() ==> #[trigger] keys[j] != host@,
        decreases invitations.len() - i,
    {
        assert(keys[i as int] == invitations@[i as int].host_chain_id@);
        if invitations[i].host_chain_id == *host {
            proof {
                lemma_index_from_found(keys, host@, 0, i as int);
            }
            return Some(i);
        }
        i += 1;
    }
    proof {
        lemma_index_from_none(keys, host@, 0);
    }
    None
}

/// Removes the first invitation from `host`.
pub fn remove_invitation(invitations: &mut Vec<Invitation>, host: &String)
    ensures
        views_of(final(invitations)@) == without_invitation(views_of(old(invitations)@), host@),
{
    match position_of_invitation(invitations, host) {
        Some(i) => {
            remove_viewed(invitations, i);
        },
        None => {},
    }
}

/// Asking `target` to become a friend: the request is noted and sent,
/// unless one is pending already.
pub open spec fn request_friend_step(s: DoodleGameStateView, ctx: ContextView, target: Seq<char>) -> Step {
    match canonical_id(target) {
        None => Err(Rejection::InvalidChainId),
        Some(t) => if s.friend_requests_sent.contains(target) {
            ignore(s)
        } else {
            accept(
                DoodleGameStateView { friend_requests_sent: s.friend_requests_sent.push(target), ..s },
                seq![
                    ActionView::SendMessage {
                        target: t,
                        message: CrossChainMessageView::FriendRequest { requester_chain_id: ctx.chain_id },
                    },
                ],
            )
        },
    }
}

/// Asks the replica `target_chain_id` to become a friend.
pub fn request_friend(state: &mut DoodleGameState, ctx: &Context, target_chain_id: String) -> (r: Result<
    Vec<Action>,
    Rejection,
>)
    ensures
        handled(old(state)@, final(state)@, r, request_friend_step(old(state)@, ctx@, target_chain_id@)),
{
    match parse_chain_id(target_chain_id.as_str()) {
        None => Err(Rejection::InvalidChainId),
        Some(target) => {
            if contains_string(&state.friend_requests_sent, &target_chain_id) {
                Ok(no_actions())
            } else {
                push_viewed(&mut state.friend_requests_sent, target_chain_id);
                Ok(
                    one_action(
                        Action::SendMessage {
                            target,
                            message: CrossChainMessage::FriendRequest { requester_chain_id: ctx.chain_id.clone() },
                        },
                    ),
                )
            }
        },
    }
}

/// Accepting the request of `requester`: the request is removed; unless the
/// two are friends already, the requester becomes a friend and is told so.
pub open spec fn accept_friend_step(s: DoodleGameStateView, ctx: ContextView, requester: Seq<char>) -> Step {
    match index_of(s.friend_requests_received, requester) {
        None => ignore(s),
        Some(i) => {
            let received = s.friend_requests_received.remove(i);
            if s.friends.contains(requester) {
                accept(DoodleGameStateView { friend_requests_received: received, ..s }, Seq::empty())
            } else {
                match canonical_id(requester) {
                    None => Err(Rejection::InvalidChainId),
                    Some(t) => accept(
                        DoodleGameStateView {
                            friend_requests_received: received,
                            friends: s.friends.push(requester),
                            ..s
                        },
                        seq![
                            ActionView::SendMessage {
                                target: t,
                                message: CrossChainMessageView::FriendAccepted { target_chain_id: ctx.chain_id },
                            },
                        ],
                    ),
                }
            }
        },
    }
}

/// Accepts the friend request of the replica `requester_chain_id`.
pub fn accept_friend(state: &mut DoodleGameState, ctx: &Context, requester_chain_id: String) -> (r: Result<
    Vec<Action>,
    Rejection,
>)
    ensures
        handled(old(state)@, final(state)@, r, accept_friend_step(old(state)@, ctx@, requester_chain_id@)),
{
    match position_of_string(&state.friend_requests_received, &requester_chain_id) {
        None => Ok(no_actions()),
        Some(i) => {
            if contains_string(&state.friends, &requester_chain_id) {
                remove_viewed(&mut state.friend_requests_received, i);
                Ok(no_actions())
            } else {
                match parse_chain_id(requester_chain_id.as_str()) {
                    None => Err(Rejection::InvalidChainId),
                    Some(target) => {
                        remove_viewed(&mut state.friend_requests_received, i);
                        push_viewed(&mut state.friends, requester_chain_id);
                        Ok(
                            one_action(
                                Action::SendMessage {
                                    target,
                                    message: CrossChainMessage::FriendAccepted {
                                        target_chain_id: ctx.chain_id.clone(),
                                    },
                                },
                            ),
                        )
                    },
                }
            }
        },
    }
}

/// Declining the request of `requester`: the request is removed.
pub open spec fn decline_friend_step(s: DoodleGameStateView, requester: Seq<char>) -> Step {
    accept(
        DoodleGameStateView {
            friend_requests_received: without_first(s.friend_requests_received, requester),
            ..s
        },
        Seq::empty(),
    )
}

/// Declines the friend request of the replica `requester_chain_id`.
pub fn decline_friend(state: &mut DoodleGameState, requester_chain_id: String) -> (r: Result<
    Vec<Action>,
    Rejection,
>)
    ensures
        handled(old(state)@, final(state)@, r, decline_friend_step(old(state)@, requester_chain_id@)),
{
    remove_first_string(&mut state.friend_requests_received, &requester_chain_id);
    Ok(no_actions())
}

/// Inviting `friend` into the room: only a friend is invited, and only
/// once; the invitation carries the time it is made at.
pub open spec fn invite_friend_step(s: DoodleGameStateView, ctx: ContextView, friend: Seq<char>) -> Step {
    if !s.friends.contains(friend) {
        ignore(s)
    } else {
        match canonical_id(friend) {
            None => Err(Rejection::InvalidChainId),
            Some(t) => if s.sent_invitations.contains(friend) {
                ignore(s)
            } else {
                accept(
                    DoodleGameStateView { sent_invitations: s.sent_invitations.push(friend), ..s },
                    seq![
                        ActionView::SendMessage {
                            target: t,
                            message: CrossChainMessageView::RoomInvitation {
                                host_chain_id: ctx.chain_id,
                                timestamp: decimal_text(ctx.now_micros as nat),
                            },
                        },
                    ],
                )
            },
        }
    }
}

/// Invites the friend `friend_chain_id` into this replica's room.
pub fn invite_friend(state: &mut DoodleGameState, ctx: &Context, friend_chain_id: String) -> (r: Result<
    Vec<Action>,
    Rejection,
>)
    ensures
        handled(old(state)@, final(state)@, r, invite_friend_step(old(state)@, ctx@, friend_chain_id@)),
{
    if !contains_string(&state.friends, &friend_chain_id) {
        return Ok(no_actions());
    }
    match parse_chain_id(friend_chain_id.as_str()) {
        None => Err(Rejection::InvalidChainId),
        Some(target) => {
            if contains_string(&state.sent_invitations, &friend_chain_id) {
                Ok(no_actions())
            } else {
                push_viewed(&mut state.sent_invitations, friend_chain_id);
                Ok(
                    one_action(
                        Action::SendMessage {
                            target,
                            message: CrossChainMessage::RoomInvitation {
                                host_chain_id: ctx.chain_id.clone(),
                                timestamp: decimal_string(ctx.now_micros as u128),
                            },
                        },
                    ),
                )
            }
        },
    }
}

/// Accepting the invitation of `host`: the invitation is removed; if it is
/// no older than five minutes, a request to join goes to the host. An
/// expired invitation is dropped without a word.
pub open spec fn accept_invite_step(
    s: DoodleGameStateView,
    ctx: ContextView,
    host: Seq<char>,
    player_name: Seq<char>,
    avatar_json: Seq<char>,
) -> Step {
    match index_of(invitation_hosts(s.room_invitations), host) {
        None => ignore(s),
        Some(i) => {
            let rest = DoodleGameStateView { room_invitations: s.room_invitations.remove(i), ..s };
            if invitation_valid(invitation_time(s.room_invitations[i].timestamp), ctx.now_micros) {
                match canonical_id(host) {
                    None => Err(Rejection::InvalidChainId),
                    Some(t) => accept(
                        rest,
                        seq![
                            ActionView::SendMessage {
                                target: t,
                                message: CrossChainMessageView::JoinRequest {
                                    player_chain_id: ctx.chain_id,
                                    player_name: player_name,
                                    avatar_json: avatar_json,
                                },
                            },
                        ],
                    ),
                }
            } else {
                accept(rest, Seq::empty())
            }
        },
    }
}

/// Accepts the invitation into the room of `host_chain_id`.
pub fn accept_invite(
    state: &mut DoodleGameState,
    ctx: &Context,
    host_chain_id: String,
    player_name: String,
    avatar_json: String,
) -> (r: Result<Vec<Action>, Rejection>)
    ensures
        handled(
            old(state)@,
            final(state)@,
            r,
            accept_invite_step(old(state)@, ctx@, host_chain_id@, player_name@, avatar_json@),
        ),
{
    match position_of_invitation(&state.room_invitations, &host_chain_id) {
        None => Ok(no_actions()),
        Some(i) => {
            let created = match parse_decimal(state.room_invitations[i].timestamp.as_str()) {
                Some(t) => t,
                None => 0,
            };
            let valid = ctx.now_micros <= created || ctx.now_micros - created <= INVITATION_WINDOW_MICROS;
            if valid {
                match parse_chain_id(host_chain_id.as_str()) {
                    None => Err(Rejection::InvalidChainId),
                    Some(target) => {
                        remove_viewed(&mut state.room_invitations, i);
                        Ok(
                            one_action(
                                Action::SendMessage {
                                    target,
                                    message: CrossChainMessage::JoinRequest {
                                        player_chain_id: ctx.chain_id.clone(),
                                        player_name,
                                        avatar_json,
                                    },
                                },
                            ),
                        )
                    },
                }
            } else {
                remove_viewed(&mut state.room_invitations, i);
                Ok(no_actions())
            }
        },
    }
}

/// Declining the invitation of `host`: the invitation is removed.
pub open spec fn decline_invite_step(s: DoodleGameStateView, host: Seq<char>) -> Step {
    accept(
        DoodleGameStateView { room_invitations: without_invitation(s.room_invitations, host), ..s },
        Seq::empty(),
    )
}

/// Declines the invitation into the room of `host_chain_id`.
pub fn decline_invite(state: &mut DoodleGameState, host_chain_id: String) -> (r: Result<Vec<Action>, Rejection>)
    ensures
        handled(old(state)@, final(state)@, r, decline_invite_step(old(state)@, host_chain_id@)),
{
    remove_invitation(&mut state.room_invitations, &host_chain_id);
    Ok(no_actions())
}

/// A friend request arrived from `requester`: it is noted once.
pub open spec fn friend_request_step(s: DoodleGameStateView, requester: Seq<char>) -> Step {
    match canonical_id(requester) {
        None => Err(Rejection::InvalidChainId),
        Some(c) => if s.friend_requests_received.contains(c) {
            ignore(s)
        } else {
            accept(
                DoodleGameStateView { friend_requests_received: s.friend_requests_received.push(c), ..s },
                Seq::empty(),
            )
        },
    }
}

/// Handles the friend request of the replica `requester_chain_id`.
pub fn receive_friend_request(state: &mut DoodleGameState, requester_chain_id: String) -> (r: Result<
    Vec<Action>,
    Rejection,
>)
    ensures
        handled(old(state)@, final(state)@, r, friend_request_step(old(state)@, requester_chain_id@)),
{
    match parse_chain_id(requester_chain_id.as_str()) {
        None => Err(Rejection::InvalidChainId),
        Some(requester) => {
            if !contains_string(&state.friend_requests_received, &requester) {
                push_viewed(&mut state.friend_requests_received, requester);
            }
            Ok(no_actions())
        },
    }
}

/// `target` accepted a friend request: it becomes a friend, once, and the
/// pending request to it is removed.
pub open spec fn friend_accepted_step(s: DoodleGameStateView, target: Seq<char>) -> Step {
    match canonical_id(target) {
        None => Err(Rejection::InvalidChainId),
        Some(c) => accept(
            DoodleGameStateView {
                friends: if s.friends.contains(c) {
                    s.friends
                } else {
                    s.friends.push(c)
                },
                friend_requests_sent: without_first(s.friend_requests_sent, c),
                ..s
            },
            Seq::empty(),
        ),
    }
}

/// Handles the notice that the replica `target_chain_id` accepted a friend
/// request.
pub fn receive_friend_accepted(state: &mut DoodleGameState, target_chain_id: String) -> (r: Result<
    Vec<Action>,
    Rejection,
>)
    ensures
        handled(old(state)@, final(state)@, r, friend_accepted_step(old(state)@, target_chain_id@)),
{
    match parse_chain_id(target_chain_id.as_str()) {
        None => Err(Rejection::InvalidChainId),
        Some(target) => {
            remove_first_string(&mut state.friend_requests_sent, &target);
            if !contains_string(&state.friends, &target) {
                push_viewed(&mut state.friends, target);
            }
            Ok(no_actions())
        },
    }
}

/// An invitation arrived from `host`: it is kept unless one from the same
/// host is there already.
pub open spec fn room_invitation_step(s: DoodleGameStateView, host: Seq<char>, timestamp: Seq<char>) -> Step {
    match canonical_id(host) {
        None => Err(Rejection::InvalidChainId),
        Some(c) => if invitation_hosts(s.room_invitations).contains(c) {
            ignore(s)
        } else {
            accept(
                DoodleGameStateView {
                    room_invitations: s.room_invitations.push(
                        InvitationView { host_chain_id: c, timestamp: timestamp },
                    ),
                    ..s
                },
                Seq::empty(),
            )
        },
    }
}

/// Handles an invitation into the room of `host_chain_id`.
pub fn receive_room_invitation(state: &mut DoodleGameState, host_chain_id: String, timestamp: String) -> (r:
    Result<Vec<Action>, Rejection>)
    ensures
        handled(old(state)@, final(state)@, r, room_invitation_step(old(state)@, host_chain_id@, timestamp@)),
{
    match parse_chain_id(host_chain_id.as_str()) {
        None => Err(Rejection::InvalidChainId),
        Some(host) => {
            let found = position_of_invitation(&state.room_invitations, &host);
            proof {
                lemma_index_of_contains(invitation_hosts(state@.room_invitations), host@);
            }
            if found.is_none() {
                push_viewed(&mut state.room_invitations, Invitation { host_chain_id: host, timestamp });
            }
            Ok(no_actions())
        },
    }
}

/// `host` took an invitation back: it is removed.
pub open spec fn invitation_cancelled_step(s: DoodleGameStateView, host: Seq<char>) -> Step {
    match canonical_id(host) {
        None => Err(Rejection::InvalidChainId),
        Some(c) => accept(
            DoodleGameStateView { room_invitations: without_invitation(s.room_invitations, c), ..s },
            Seq::empty(),
        ),
    }
}

/// Handles the notice that `host_chain_id` took its invitation back.
pub fn receive_invitation_cancelled(state: &mut DoodleGameState, host_chain_id: String) -> (r: Result<
    Vec<Action>,
    Rejection,
>)
    ensures
        handled(old(state)@, final(state)@, r, invitation_cancelled_step(old(state)@, host_chain_id@)),
{
    match parse_chain_id(host_chain_id.as_str()) {
        None => Err(Rejection::InvalidChainId),
        Some(host) => {
            remove_invitation(&mut state.room_invitations, &host);
            Ok(no_actions())
        },
    }
}

/// Invitation expiry. An invitation can be accepted up to five minutes
/// after it was made, to the microsecond, and not a microsecond later.
pub proof fn law_invitation_window(created: u64, now: u64)
    ensures
        invitation_valid(created, now) <==> now <= created + 300_000_000,
        created + 300_000_000 <= u64::MAX ==> invitation_valid(created, (created + 300_000_000) as u64),
        created + 300_000_001 <= u64::MAX ==> !invitation_valid(created, (created + 300_000_001) as u64),
{
}

/// An invitation that has expired is removed on acceptance, and nothing is
/// sent to its host.
pub proof fn law_expired_invitation_is_dropped(
    s: DoodleGameStateView,
    ctx: ContextView,
    host: Seq<char>,
    player_name: Seq<char>,
    avatar_json: Seq<char>,
)
    requires
        index_of(invitation_hosts(s.room_invitations), host) is Some,
        !invitation_valid(
            invitation_time(s.room_invitations[index_of(invitation_hosts(s.room_invitations), host).unwrap()].timestamp),
            ctx.now_micros,
        ),
    ensures
        accept_invite_step(s, ctx, host, player_name, avatar_json) == accept(
            DoodleGameStateView { room_invitations: without_invitation(s.room_invitations, host), ..s },
            Seq::empty(),
        ),
{
}

} // verus!
