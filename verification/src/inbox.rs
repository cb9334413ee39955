//! Direct messages about the room of a replica: a player asks to join, the
//! host's snapshot arrives, a room is deleted, a player leaves.

use vstd::prelude::*;
use crate::chain::{canonical_id, parse_chain_id};
use crate::model::{ArchivedRoom, ArchivedRoomView, GameRoom, GameRoomView, Player, PlayerStatus, PlayerView};
use crate::protocol::{
    Action, ActionView, Context, ContextView, CrossChainMessage, CrossChainMessageView, DoodleEvent,
    DoodleEventView, Rejection,
};
use crate::session::{timestamp_of, timestamp_text};
use crate::state::{
    accept, handled, ignore, no_actions, one_action, push_action, stream_name, stream_of, DoodleGameState,
    DoodleGameStateView, Step,
};
use crate::text::{opt_view, push_viewed, views_of};

verus! {

/// The roster entry of a player who joins.
pub open spec fn joining_player(chain_id: Seq<char>, name: Seq<char>, avatar_json: Seq<char>) -> PlayerView {
    PlayerView {
        chain_id: chain_id,
        name: name,
        avatar_json: avatar_json,
        score: 0,
        has_guessed: false,
        status: PlayerStatus::Active,
    }
}

/// A player asks to join. The player is added to the roster, or made
/// `Active` again if already there; the host follows the player's log; the
/// player gets a snapshot of the room and the log tells the others.
pub open spec fn join_request_step(
    s: DoodleGameStateView,
    ctx: ContextView,
    player_chain_id: Seq<char>,
    player_name: Seq<char>,
    avatar_json: Seq<char>,
) -> Step {
    match s.room {
        None => ignore(s),
        Some(room) => match canonical_id(player_chain_id) {
            None => Err(Rejection::InvalidChainId),
            Some(c) => {
                let player = joining_player(c, player_name, avatar_json);
                let joined = room.with_player(player);
                let stream = stream_name(room.room_id);
                let tail = seq![
                    ActionView::SendMessage {
                        target: c,
                        message: CrossChainMessageView::InitialStateSync { room_data: joined },
                    },
                    ActionView::Emit {
                        stream: stream,
                        event: DoodleEventView::PlayerJoined { player: player, timestamp: timestamp_text(ctx) },
                    },
                ];
                accept(
                    DoodleGameStateView { room: Some(joined), ..s },
                    if room.host_chain_id == ctx.chain_id {
                        seq![ActionView::Subscribe { chain_id: c, stream: stream }] + tail
                    } else {
                        tail
                    },
                )
            },
        },
    }
}

/// Handles a player's request to join this replica's room.
pub fn receive_join_request(
    state: &mut DoodleGameState,
    ctx: &Context,
    player_chain_id: String,
    player_name: String,
    avatar_json: String,
) -> (r: Result<Vec<Action>, Rejection>)
    ensures
        handled(
            old(state)@,
            final(state)@,
            r,
            join_request_step(old(state)@, ctx@, player_chain_id@, player_name@, avatar_json@),
        ),
{
    let mut room = match &state.room {
        None => {
            return Ok(no_actions());
        },
        Some(room) => room.clone(),
    };
    let id = match parse_chain_id(player_chain_id.as_str()) {
        None => {
            return Err(Rejection::InvalidChainId);
        },
        Some(c) => c,
    };
    let player = Player {
        chain_id: id.clone(),
        name: player_name,
        avatar_json,
        score: 0,
        has_guessed: false,
        status: PlayerStatus::Active,
    };
    room.add_player(player.clone());
    let stream = stream_of(&room.room_id);
    let mut out = no_actions();
    let ghost mut head = Seq::<ActionView>::empty();
    if room.host_chain_id == ctx.chain_id {
        let subscribe = Action::Subscribe { chain_id: id.clone(), stream: stream.clone() };
        proof {
            head = seq![subscribe@];
            assert(Seq::<ActionView>::empty().push(subscribe@) =~= head);
        }
        push_action(&mut out, subscribe);
    }
    let sync = Action::SendMessage {
        target: id,
        message: CrossChainMessage::InitialStateSync { room_data: room.clone() },
    };
    let joined = Action::Emit {
        stream,
        event: DoodleEvent::PlayerJoined { player, timestamp: timestamp_of(ctx) },
    };
    assert(head.push(sync@).push(joined@) =~= head + seq![sync@, joined@]);
    assert(Seq::<ActionView>::empty() + seq![sync@, joined@] =~= seq![sync@, joined@]);
    push_action(&mut out, sync);
    push_action(&mut out, joined);
    state.room = Some(room);
    Ok(out)
}

/// The host's snapshot arrives: it replaces the room. A replica that does
/// not follow this host yet starts to follow the host's room log, the only
/// log a guest follows.
pub open spec fn initial_state_sync_step(s: DoodleGameStateView, room_data: GameRoomView) -> Step {
    if s.subscribed_to_host == Some(room_data.host_chain_id) {
        accept(DoodleGameStateView { room: Some(room_data), ..s }, Seq::empty())
    } else {
        match canonical_id(room_data.host_chain_id) {
            Some(h) => accept(
                DoodleGameStateView {
                    room: Some(room_data),
                    subscribed_to_host: Some(room_data.host_chain_id),
                    ..s
                },
                seq![ActionView::Subscribe { chain_id: h, stream: stream_name(room_data.room_id) }],
            ),
            None => accept(DoodleGameStateView { room: Some(room_data), ..s }, Seq::empty()),
        }
    }
}

/// Handles the snapshot of a room that this replica has joined.
pub fn receive_initial_state_sync(state: &mut DoodleGameState, room_data: GameRoom) -> (r: Result<
    Vec<Action>,
    Rejection,
>)
    ensures
        handled(old(state)@, final(state)@, r, initial_state_sync_step(old(state)@, room_data@)),
{
    let already = match &state.subscribed_to_host {
        Some(h) => *h == room_data.host_chain_id,
        None => false,
    };
    let mut out = no_actions();
    if !already {
        match parse_chain_id(room_data.host_chain_id.as_str()) {
            Some(h) => {
                out = one_action(Action::Subscribe { chain_id: h, stream: stream_of(&room_data.room_id) });
                state.subscribed_to_host = Some(room_data.host_chain_id.clone());
            },
            None => {},
        }
    }
    state.room = Some(room_data);
    Ok(out)
}

/// The names of a list of archive records, in order.
pub open spec fn archive_ids(archives: Seq<ArchivedRoomView>) -> Seq<Seq<char>> {
    archives.map_values(|a: ArchivedRoomView| a.room_id)
}

/// The archive with `record` appended, unless it holds a record of that
/// name already.
pub open spec fn archived(archives: Seq<ArchivedRoomView>, record: Option<ArchivedRoomView>) -> Seq<
    ArchivedRoomView,
> {
    match record {
        Some(a) => if archive_ids(archives).contains(a.room_id) {
            archives
        } else {
            archives.push(a)
        },
        None => archives,
    }
}

/// Whether a record named `room_id` is in the archive.
pub fn has_archive(archives: &Vec<ArchivedRoom>, room_id: &String) -> (r: bool)
    ensures
        r == archive_ids(views_of(archives@)).contains(room_id@),
{
    let ghost keys = archive_ids(views_of(archives@));
    let mut i: usize = 0;
    while i < archives.len()
        invariant
            keys == archive_ids(views_of(archives@)),
            forall|j: int| 0 <= j < i && j < archives.len() ==> #[trigger] keys[j] != room_id@,
        decreases archives.len() - i,
    {
        assert(keys[i as int] == archives@[i as int].room_id@);
        if archives[i].room_id == *room_id {
            return true;
        }
        i += 1;
    }
    false
}

/// The host deleted the room: the record is archived once, the replica
/// stops following the host and forgets the room.
pub open spec fn room_deleted_step(s: DoodleGameStateView, record: Option<ArchivedRoomView>) -> Step {
    accept(
        DoodleGameStateView {
            archived_rooms: archived(s.archived_rooms, record),
            room: None,
            current_word: None,
            subscribed_to_host: None,
            ..s
        },
        match s.room {
            Some(room) => match canonical_id(room.host_chain_id) {
                Some(h) => seq![ActionView::Unsubscribe { chain_id: h, stream: stream_name(room.room_id) }],
                None => Seq::empty(),
            },
            None => Seq::empty(),
        },
    )
}

/// Handles the notice that the host deleted the room.
pub fn receive_room_deleted(state: &mut DoodleGameState, timestamp: String, archived_room: Option<ArchivedRoom>) -> (r:
    Result<Vec<Action>, Rejection>)
    ensures
        handled(old(state)@, final(state)@, r, room_deleted_step(old(state)@, opt_view(archived_room))),
{
    match archived_room {
        Some(record) => {
            if !has_archive(&state.archived_rooms, &record.room_id) {
                push_viewed(&mut state.archived_rooms, record);
            }
        },
        None => {},
    }
    let out = match &state.room {
        Some(room) => match parse_chain_id(room.host_chain_id.as_str()) {
            Some(h) => one_action(Action::Unsubscribe { chain_id: h, stream: stream_of(&room.room_id) }),
            None => no_actions(),
        },
        None => no_actions(),
    };
    state.room = None;
    state.current_word = None;
    state.subscribed_to_host = None;
    Ok(out)
}

/// A player left: the host stops following the player's log, marks the
/// player as `Left`, with a new choice of drawer where the drawer has left,
/// and tells the others through the log.
pub open spec fn player_left_step(s: DoodleGameStateView, player_chain_id: Seq<char>, timestamp: Seq<char>) -> Step {
    match s.room {
        None => ignore(s),
        Some(room) => match canonical_id(player_chain_id) {
            None => Err(Rejection::InvalidChainId),
            Some(c) => accept(
                DoodleGameStateView { room: Some(room.player_left(c)), ..s },
                seq![
                    ActionView::Unsubscribe { chain_id: c, stream: stream_name(room.room_id) },
                    ActionView::Emit {
                        stream: stream_name(room.room_id),
                        event: DoodleEventView::PlayerLeft { player_chain_id: c, timestamp: timestamp },
                    },
                ],
            ),
        },
    }
}

/// Handles a player's notice of leaving, on the host.
pub fn receive_player_left(
    state: &mut DoodleGameState,
    player_chain_id: String,
    player_name: Option<String>,
    timestamp: String,
) -> (r: Result<Vec<Action>, Rejection>)
    ensures
        handled(old(state)@, final(state)@, r, player_left_step(old(state)@, player_chain_id@, timestamp@)),
{
    let mut room = match &state.room {
        None => {
            return Ok(no_actions());
        },
        Some(room) => room.clone(),
    };
    let id = match parse_chain_id(player_chain_id.as_str()) {
        None => {
            return Err(Rejection::InvalidChainId);
        },
        Some(c) => c,
    };
    let stream = stream_of(&room.room_id);
    room.mark_player_left(&id);
    let mut out = one_action(Action::Unsubscribe { chain_id: id.clone(), stream: stream.clone() });
    let left = Action::Emit { stream, event: DoodleEvent::PlayerLeft { player_chain_id: id, timestamp } };
    assert(forall|a: ActionView| seq![a].push(left@) =~= seq![a, left@]);
    push_action(&mut out, left);
    state.room = Some(room);
    Ok(out)
}

} // verus!
