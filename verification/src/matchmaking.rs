//! Matchmaking: the coordinator's queue of waiting players, the batches it
//! forms, and what the players' replicas make of its messages.

use vstd::prelude::*;
use crate::chain::{canonical_id, parse_chain_id, reachable, reachable_ids};
use crate::model::{
    GameRoom, GameRoomView, MatchmakingPlayer, MatchmakingPlayerView, Player, PlayerStatus, PlayerView,
};
use crate::protocol::{
    clone_queue, Action, ActionView, Context, ContextView, CrossChainMessage, CrossChainMessageView,
    Rejection,
};
use crate::state::{
    accept, handled, ignore, no_actions, one_action, push_send_each, push_subscribe_each, send_each,
    stream_name, stream_of, subscribe_each, DoodleGameState, DoodleGameStateView, Step,
};
use crate::text::{
    decimal_string, decimal_text, index_of, lemma_index_from_found, lemma_index_from_none,
    lemma_index_of_contains, push_viewed, remove_viewed, strings_view, views_of,
};

verus! {

/// Number of players in a match.
pub const MATCH_SIZE: usize = 5;

/// Rounds of a game that matchmaking starts.
pub const MATCH_ROUNDS: u32 = 3;

/// Seconds per round of a game that matchmaking starts.
pub const MATCH_SECONDS_PER_ROUND: u32 = 80;

/// The replica identifiers of a queue, in order.
pub open spec fn queue_ids(queue: Seq<MatchmakingPlayerView>) -> Seq<Seq<char>> {
    queue.map_values(|p: MatchmakingPlayerView| p.chain_id)
}

/// The length of a queue as it is reported to players.
pub open spec fn queue_size(len: nat) -> u32 {
    if len > u32::MAX {
        u32::MAX
    } else {
        len as u32
    }
}

/// The roster entry of a player who comes from the queue.
pub open spec fn guest_player(p: MatchmakingPlayerView) -> PlayerView {
    PlayerView {
        chain_id: p.chain_id,
        name: p.player_name,
        avatar_json: p.avatar_json,
        score: 0,
        has_guessed: false,
        status: PlayerStatus::Active,
    }
}

/// The room with all of `guests` joined, in order.
pub open spec fn with_guests(room: GameRoomView, guests: Seq<MatchmakingPlayerView>) -> GameRoomView
    decreases guests.len(),
{
    if guests.len() == 0 {
        room
    } else {
        with_guests(room, guests.drop_last()).with_player(guest_player(guests.last()))
    }
}

/// The replica identifiers of the players of `queue` from index `from` on.
pub fn ids_of_queue(queue: &Vec<MatchmakingPlayer>, from: usize) -> (r: Vec<String>)
    requires
        from <= queue@.len(),
    ensures
        strings_view(r@) == queue_ids(views_of(queue@)).skip(from as int),
{
    let ghost goal = queue_ids(views_of(queue@)).skip(from as int);
    let mut out: Vec<String> = Vec::new();
    let mut i: usize = from;
    while i < queue.len()
        invariant
            from <= i <= queue.len(),
            goal == queue_ids(views_of(queue@)).skip(from as int),
            out@.len() == i - from,
            forall|j: int| 0 <= j < i - from ==> #[trigger] out@[j]@ == goal[j],
        decreases queue.len() - i,
    {
        out.push(queue[i].chain_id.clone());
        i += 1;
    }
    assert(strings_view(out@) =~= goal);
    out
}

/// Index of the first queued player with identifier `chain_id`.
pub fn position_in_queue(queue: &Vec<MatchmakingPlayer>, chain_id: &String) -> (r: Option<usize>)
    ensures
        match r {
            Some(i) => i < queue@.len() && index_of(queue_ids(views_of(queue@)), chain_id@) == Some(i as int),
            None => index_of(queue_ids(views_of(queue@)), chain_id@) is None,
        },
{
    let ghost keys = queue_ids(views_of(queue@));
    let mut i: usize = 0;
    while i < queue.len()
        invariant
            keys == queue_ids(views_of(queue@)),
            forall|j: int| 0 <= j < i && j < queue.len() ==> #[trigger] keys[j] != chain_id@,
        decreases queue.len() - i,
    {
        assert(keys[i as int] == queue@[i as int].chain_id@);
        if queue[i].chain_id == *chain_id {
            proof {
                lemma_index_from_found(keys, chain_id@, 0, i as int);
            }
            return Some(i);
        }
        i += 1;
    }
    proof {
        lemma_index_from_none(keys, chain_id@, 0);
    }
    None
}

/// The length of a queue as it is reported to players.
pub fn reported_size(len: usize) -> (r: u32)
    ensures
        r == queue_size(len as nat),
{
    if len > u32::MAX as usize {
        u32::MAX
    } else {
        len as u32
    }
}

/// Asking the coordinator for a match.
pub open spec fn join_matchmaking_step(
    s: DoodleGameStateView,
    ctx: ContextView,
    coordinator: Seq<char>,
    leaderboard_chain_id: Seq<char>,
    player_name: Seq<char>,
    avatar_json: Seq<char>,
) -> Step {
    match canonical_id(coordinator) {
        None => Err(Rejection::InvalidChainId),
        Some(t) => accept(
            DoodleGameStateView { last_notification: Some("Searching for match..."@), ..s },
            seq![
                ActionView::SendMessage {
                    target: t,
                    message: CrossChainMessageView::MatchmakingEnqueue {
                        player_chain_id: ctx.chain_id,
                        player_name: player_name,
                        avatar_json: avatar_json,
                        leaderboard_chain_id: leaderboard_chain_id,
                    },
                },
            ],
        ),
    }
}

/// Asks the coordinator `matchmaking_chain_id` for a match.
pub fn join_matchmaking(
    state: &mut DoodleGameState,
    ctx: &Context,
    matchmaking_chain_id: String,
    leaderboard_chain_id: String,
    player_name: String,
    avatar_json: String,
) -> (r: Result<Vec<Action>, Rejection>)
    ensures
        handled(
            old(state)@,
            final(state)@,
            r,
            join_matchmaking_step(
                old(state)@,
                ctx@,
                matchmaking_chain_id@,
                leaderboard_chain_id@,
                player_name@,
                avatar_json@,
            ),
        ),
{
    match parse_chain_id(matchmaking_chain_id.as_str()) {
        None => Err(Rejection::InvalidChainId),
        Some(target) => {
            state.last_notification = Some(String::from_str("Searching for match..."));
            Ok(
                one_action(
                    Action::SendMessage {
                        target,
                        message: CrossChainMessage::MatchmakingEnqueue {
                            player_chain_id: ctx.chain_id.clone(),
                            player_name,
                            avatar_json,
                            leaderboard_chain_id,
                        },
                    },
                ),
            )
        },
    }
}

/// Leaving the coordinator's queue.
pub open spec fn leave_matchmaking_step(s: DoodleGameStateView, ctx: ContextView, coordinator: Seq<char>) -> Step {
    match canonical_id(coordinator) {
        None => Err(Rejection::InvalidChainId),
        Some(t) => accept(
            DoodleGameStateView {
                last_notification: Some("Leaving matchmaking implementation_queue..."@),
                matchmaking_queue_size: 0,
                ..s
            },
            seq![
                ActionView::SendMessage {
                    target: t,
                    message: CrossChainMessageView::MatchmakingLeave { player_chain_id: ctx.chain_id },
                },
            ],
        ),
    }
}

/// Leaves the queue of the coordinator `matchmaking_chain_id`.
pub fn leave_matchmaking(state: &mut DoodleGameState, ctx: &Context, matchmaking_chain_id: String) -> (r: Result<
    Vec<Action>,
    Rejection,
>)
    ensures
        handled(old(state)@, final(state)@, r, leave_matchmaking_step(old(state)@, ctx@, matchmaking_chain_id@)),
{
    match parse_chain_id(matchmaking_chain_id.as_str()) {
        None => Err(Rejection::InvalidChainId),
        Some(target) => {
            state.last_notification = Some(String::from_str("Leaving matchmaking implementation_queue..."));
            state.matchmaking_queue_size = 0;
            Ok(
                one_action(
                    Action::SendMessage {
                        target,
                        message: CrossChainMessage::MatchmakingLeave { player_chain_id: ctx.chain_id.clone() },
                    },
                ),
            )
        },
    }
}

/// The queue after `player` asked for a match: a player who is waiting
/// already is not queued twice.
pub open spec fn enqueued(queue: Seq<MatchmakingPlayerView>, player: MatchmakingPlayerView) -> Seq<
    MatchmakingPlayerView,
> {
    if queue_ids(queue).contains(player.chain_id) {
        queue
    } else {
        queue.push(player)
    }
}

/// The messages that start a match of `batch`: its first player is the
/// host and gets the other players of the batch, every other player learns
/// who the host is.
pub open spec fn match_messages(batch: Seq<MatchmakingPlayerView>, host: Seq<char>) -> Seq<ActionView> {
    let others = batch.skip(1);
    seq![
        ActionView::SendMessage {
            target: host,
            message: CrossChainMessageView::MatchmakingStart {
                host_name: batch[0].player_name,
                host_avatar_json: batch[0].avatar_json,
                players: others,
                leaderboard_chain_id: match batch[0].leaderboard_chain_id {
                    Some(l) => l,
                    None => Seq::empty(),
                },
            },
        },
    ] + send_each(reachable(queue_ids(others)), CrossChainMessageView::MatchmakingFound { host_chain_id: host })
}

/// A player asks the coordinator for a match. While fewer than five
/// players wait, every waiting player is told the new length of the queue.
/// With five players the first five leave the queue as one match.
pub open spec fn enqueue_step(
    s: DoodleGameStateView,
    player_chain_id: Seq<char>,
    player_name: Seq<char>,
    avatar_json: Seq<char>,
    leaderboard_chain_id: Seq<char>,
) -> Step {
    match canonical_id(player_chain_id) {
        None => Err(Rejection::InvalidChainId),
        Some(c) => {
            let player = MatchmakingPlayerView {
                chain_id: c,
                player_name: player_name,
                avatar_json: avatar_json,
                leaderboard_chain_id: Some(leaderboard_chain_id),
            };
            let queue = enqueued(s.matchmaking_queue, player);
            if queue.len() >= MATCH_SIZE {
                let batch = queue.take(MATCH_SIZE as int);
                match canonical_id(batch[0].chain_id) {
                    None => Err(Rejection::InvalidChainId),
                    Some(host) => accept(
                        DoodleGameStateView { matchmaking_queue: queue.skip(MATCH_SIZE as int), ..s },
                        match_messages(batch, host),
                    ),
                }
            } else if queue_ids(s.matchmaking_queue).contains(c) {
                ignore(s)
            } else {
                accept(
                    DoodleGameStateView { matchmaking_queue: queue, ..s },
                    send_each(
                        reachable(queue_ids(queue)),
                        CrossChainMessageView::MatchmakingStatusUpdate { players_in_queue: queue_size(queue.len()) },
                    ),
                )
            }
        },
    }
}

/// Handles a player's request for a match, on the coordinator.
pub fn receive_enqueue(
    state: &mut DoodleGameState,
    player_chain_id: String,
    player_name: String,
    avatar_json: String,
    leaderboard_chain_id: String,
) -> (r: Result<Vec<Action>, Rejection>)
    ensures
        handled(
            old(state)@,
            final(state)@,
            r,
            enqueue_step(old(state)@, player_chain_id@, player_name@, avatar_json@, leaderboard_chain_id@),
        ),
{
    let id = match parse_chain_id(player_chain_id.as_str()) {
        None => {
            return Err(Rejection::InvalidChainId);
        },
        Some(c) => c,
    };
    let found = position_in_queue(&state.matchmaking_queue, &id);
    proof {
        lemma_index_of_contains(queue_ids(state@.matchmaking_queue), id@);
    }
    let mut queue = clone_queue(&state.matchmaking_queue);
    if found.is_none() {
        push_viewed(
            &mut queue,
            MatchmakingPlayer {
                chain_id: id,
                player_name,
                avatar_json,
                leaderboard_chain_id: Some(leaderboard_chain_id),
            },
        );
    }
    let ghost whole = views_of(queue@);
    if queue.len() >= MATCH_SIZE {
        let host = match parse_chain_id(queue[0].chain_id.as_str()) {
            None => {
                assert(whole.take(MATCH_SIZE as int)[0] == whole[0]);
                return Err(Rejection::InvalidChainId);
            },
            Some(h) => h,
        };
        let rest = queue.split_off(MATCH_SIZE);
        let ghost batch = views_of(queue@);
        proof {
            assert(batch =~= whole.take(MATCH_SIZE as int));
            assert(views_of(rest@) =~= whole.skip(MATCH_SIZE as int));
        }
        let others = queue.split_off(1);
        proof {
            assert(views_of(others@) =~= batch.skip(1));
            assert(views_of(queue@)[0] == batch[0]);
            assert(queue_ids(views_of(others@)).skip(0) =~= queue_ids(views_of(others@)));
        }
        let guests = reachable_ids(&ids_of_queue(&others, 0));
        let host_name = queue[0].player_name.clone();
        let host_avatar_json = queue[0].avatar_json.clone();
        let leaderboard = match &queue[0].leaderboard_chain_id {
            Some(l) => l.clone(),
            None => String::new(),
        };
        let mut out = one_action(
            Action::SendMessage {
                target: host.clone(),
                message: CrossChainMessage::MatchmakingStart {
                    host_name,
                    host_avatar_json,
                    players: others,
                    leaderboard_chain_id: leaderboard,
                },
            },
        );
        push_send_each(&mut out, &guests, &CrossChainMessage::MatchmakingFound { host_chain_id: host });
        state.matchmaking_queue = rest;
        Ok(out)
    } else if found.is_some() {
        Ok(no_actions())
    } else {
        let targets = reachable_ids(&ids_of_queue(&queue, 0));
        assert(queue_ids(whole).skip(0) =~= queue_ids(whole));
        let mut out = no_actions();
        push_send_each(
            &mut out,
            &targets,
            &CrossChainMessage::MatchmakingStatusUpdate { players_in_queue: reported_size(queue.len()) },
        );
        state.matchmaking_queue = queue;
        Ok(out)
    }
}

/// A player leaves the coordinator's queue: every player still waiting is
/// told the new length.
pub open spec fn dequeue_step(s: DoodleGameStateView, player_chain_id: Seq<char>) -> Step {
    match canonical_id(player_chain_id) {
        None => Err(Rejection::InvalidChainId),
        Some(c) => match index_of(queue_ids(s.matchmaking_queue), c) {
            None => ignore(s),
            Some(i) => {
                let queue = s.matchmaking_queue.remove(i);
                accept(
                    DoodleGameStateView { matchmaking_queue: queue, ..s },
                    send_each(
                        reachable(queue_ids(queue)),
                        CrossChainMessageView::MatchmakingStatusUpdate { players_in_queue: queue_size(queue.len()) },
                    ),
                )
            },
        },
    }
}

/// Handles a player's leaving the queue, on the coordinator.
pub fn receive_dequeue(state: &mut DoodleGameState, player_chain_id: String) -> (r: Result<Vec<Action>, Rejection>)
    ensures
        handled(old(state)@, final(state)@, r, dequeue_step(old(state)@, player_chain_id@)),
{
    let id = match parse_chain_id(player_chain_id.as_str()) {
        None => {
            return Err(Rejection::InvalidChainId);
        },
        Some(c) => c,
    };
    match position_in_queue(&state.matchmaking_queue, &id) {
        None => Ok(no_actions()),
        Some(i) => {
            remove_viewed(&mut state.matchmaking_queue, i);
            let targets = reachable_ids(&ids_of_queue(&state.matchmaking_queue, 0));
            assert(queue_ids(state@.matchmaking_queue).skip(0) =~= queue_ids(state@.matchmaking_queue));
            let mut out = no_actions();
            push_send_each(
                &mut out,
                &targets,
                &CrossChainMessage::MatchmakingStatusUpdate {
                    players_in_queue: reported_size(state.matchmaking_queue.len()),
                },
            );
            Ok(out)
        },
    }
}

/// The coordinator reports the length of its queue.
pub open spec fn status_update_step(s: DoodleGameStateView, players_in_queue: u32) -> Step {
    accept(DoodleGameStateView { matchmaking_queue_size: players_in_queue, ..s }, Seq::empty())
}

/// Handles the coordinator's report of the length of its queue.
pub fn receive_status_update(state: &mut DoodleGameState, players_in_queue: u32) -> (r: Result<
    Vec<Action>,
    Rejection,
>)
    ensures
        handled(old(state)@, final(state)@, r, status_update_step(old(state)@, players_in_queue)),
{
    state.matchmaking_queue_size = players_in_queue;
    Ok(no_actions())
}

/// The coordinator found a match with `host` as its host.
pub open spec fn match_found_step(s: DoodleGameStateView, host: Seq<char>) -> Step {
    match canonical_id(host) {
        None => Err(Rejection::InvalidChainId),
        Some(c) => accept(
            DoodleGameStateView { last_notification: Some("Match found! Joining host "@ + c), ..s },
            Seq::empty(),
        ),
    }
}

/// Handles the notice that a match was found; the room itself arrives with
/// the host's snapshot.
pub fn receive_match_found(state: &mut DoodleGameState, host_chain_id: String) -> (r: Result<Vec<Action>, Rejection>)
    ensures
        handled(old(state)@, final(state)@, r, match_found_step(old(state)@, host_chain_id@)),
{
    match parse_chain_id(host_chain_id.as_str()) {
        None => Err(Rejection::InvalidChainId),
        Some(host) => {
            state.last_notification = Some(String::from_str("Match found! Joining host ").concat(host.as_str()));
            Ok(no_actions())
        },
    }
}

/// The room of a match: the host, then the other players of the match, in
/// a game of three rounds of eighty seconds with its first drawer chosen.
pub open spec fn match_room(
    ctx: ContextView,
    host_name: Seq<char>,
    host_avatar_json: Seq<char>,
    players: Seq<MatchmakingPlayerView>,
    leaderboard_chain_id: Seq<char>,
) -> GameRoomView {
    let timestamp = decimal_text(ctx.now_micros as nat);
    with_guests(
        GameRoomView::created(
            ctx.chain_id,
            host_name,
            host_avatar_json,
            timestamp,
            if leaderboard_chain_id.len() == 0 {
                None
            } else {
                Some(leaderboard_chain_id)
            },
        ),
        players,
    ).started(MATCH_ROUNDS, MATCH_SECONDS_PER_ROUND).drawer_chosen(timestamp)
}

/// The coordinator made this replica the host of a match with the other
/// players `players`: it builds the room with itself and all of them,
/// follows the log of each of them and sends each of them a snapshot of the
/// room.
pub open spec fn match_start_step(
    s: DoodleGameStateView,
    ctx: ContextView,
    host_name: Seq<char>,
    host_avatar_json: Seq<char>,
    players: Seq<MatchmakingPlayerView>,
    leaderboard_chain_id: Seq<char>,
) -> Step {
    let room = match_room(ctx, host_name, host_avatar_json, players, leaderboard_chain_id);
    let guests = reachable(queue_ids(players));
    accept(
        DoodleGameStateView { room: Some(room), ..s },
        subscribe_each(guests, stream_name(room.room_id)) + send_each(
            guests,
            CrossChainMessageView::InitialStateSync { room_data: room },
        ),
    )
}

/// Handles the start of a match on the replica chosen as its host.
pub fn receive_match_start(
    state: &mut DoodleGameState,
    ctx: &Context,
    host_name: String,
    host_avatar_json: String,
    players: Vec<MatchmakingPlayer>,
    leaderboard_chain_id: String,
) -> (r: Result<Vec<Action>, Rejection>)
    ensures
        handled(
            old(state)@,
            final(state)@,
            r,
            match_start_step(
                old(state)@,
                ctx@,
                host_name@,
                host_avatar_json@,
                views_of(players@),
                leaderboard_chain_id@,
            ),
        ),
{
    let ghost all = views_of(players@);
    let timestamp = decimal_string(ctx.now_micros as u128);
    let leaderboard = if leaderboard_chain_id.as_str().is_empty() {
        None
    } else {
        Some(leaderboard_chain_id)
    };
    let mut room = GameRoom::new(ctx.chain_id.clone(), host_name, host_avatar_json, timestamp.clone(), leaderboard);
    let ghost fresh = room@;
    let mut i: usize = 0;
    assert(all.take(0) =~= Seq::empty());
    while i < players.len()
        invariant
            i <= players.len(),
            all == views_of(players@),
            room@ == with_guests(fresh, all.take(i as int)),
        decreases players.len() - i,
    {
        proof {
            assert(all.take(i as int + 1).drop_last() =~= all.take(i as int));
            assert(all.take(i as int + 1).last() == players@[i as int]@);
        }
        room.add_player(
            Player {
                chain_id: players[i].chain_id.clone(),
                name: players[i].player_name.clone(),
                avatar_json: players[i].avatar_json.clone(),
                score: 0,
                has_guessed: false,
                status: PlayerStatus::Active,
            },
        );
        i += 1;
    }
    assert(all.take(players.len() as int) =~= all);
    room.start_game(MATCH_ROUNDS, MATCH_SECONDS_PER_ROUND, timestamp.clone());
    let _ = room.choose_drawer(timestamp.clone());
    let guests = reachable_ids(&ids_of_queue(&players, 0));
    assert(queue_ids(all).skip(0) =~= queue_ids(all));
    let stream = stream_of(&room.room_id);
    let mut out = no_actions();
    push_subscribe_each(&mut out, &guests, &stream);
    push_send_each(&mut out, &guests, &CrossChainMessage::InitialStateSync { room_data: room.clone() });
    state.room = Some(room);
    Ok(out)
}

/// Matchmaking. When a request fills the queue to five players or more,
/// exactly the first five leave it as one match: the first of them is
/// told to host the match and gets the entries of the other four, each of
/// the other four is told who the host is, and whoever stood behind them
/// stays queued for the next match.
pub proof fn law_match_takes_the_first_five(
    s: DoodleGameStateView,
    player_chain_id: Seq<char>,
    player_name: Seq<char>,
    avatar_json: Seq<char>,
    leaderboard_chain_id: Seq<char>,
)
    requires
        canonical_id(player_chain_id) is Some,
        enqueue_step(s, player_chain_id, player_name, avatar_json, leaderboard_chain_id) is Ok,
    ensures
        ({
            let queue = enqueued(
                s.matchmaking_queue,
                MatchmakingPlayerView {
                    chain_id: canonical_id(player_chain_id).unwrap(),
                    player_name: player_name,
                    avatar_json: avatar_json,
                    leaderboard_chain_id: Some(leaderboard_chain_id),
                },
            );
            let after = enqueue_step(s, player_chain_id, player_name, avatar_json, leaderboard_chain_id)->Ok_0;
            &&& queue.len() < MATCH_SIZE ==> after.state.matchmaking_queue == queue
            &&& queue.len() >= MATCH_SIZE ==> {
                &&& after.state.matchmaking_queue == queue.skip(5)
                &&& after.state.matchmaking_queue.len() == queue.len() - 5
                &&& canonical_id(queue[0].chain_id) is Some
                &&& after.actions.len() >= 1
                &&& after.actions[0] == (ActionView::SendMessage {
                    target: canonical_id(queue[0].chain_id).unwrap(),
                    message: CrossChainMessageView::MatchmakingStart {
                        host_name: queue[0].player_name,
                        host_avatar_json: queue[0].avatar_json,
                        players: queue.subrange(1, 5),
                        leaderboard_chain_id: match queue[0].leaderboard_chain_id {
                            Some(l) => l,
                            None => Seq::empty(),
                        },
                    },
                })
                &&& after.actions.skip(1) == send_each(
                    reachable(queue_ids(queue.subrange(1, 5))),
                    CrossChainMessageView::MatchmakingFound {
                        host_chain_id: canonical_id(queue[0].chain_id).unwrap(),
                    },
                )
            }
        }),
{
    let player = MatchmakingPlayerView {
        chain_id: canonical_id(player_chain_id).unwrap(),
        player_name: player_name,
        avatar_json: avatar_json,
        leaderboard_chain_id: Some(leaderboard_chain_id),
    };
    let queue = enqueued(s.matchmaking_queue, player);
    let after = enqueue_step(s, player_chain_id, player_name, avatar_json, leaderboard_chain_id)->Ok_0;
    if queue.len() >= MATCH_SIZE {
        let batch = queue.take(5);
        let host = canonical_id(batch[0].chain_id).unwrap();
        assert(batch[0] == queue[0]);
        assert(batch.skip(1) =~= queue.subrange(1, 5));
        assert(after.actions == match_messages(batch, host));
        assert(after.actions.skip(1) =~= send_each(
            reachable(queue_ids(batch.skip(1))),
            CrossChainMessageView::MatchmakingFound { host_chain_id: host },
        ));
    }
}

} // verus!
