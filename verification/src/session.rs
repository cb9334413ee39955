//! Operations on the room of a replica: creating, joining and leaving it,
//! running the game, and ending the match.

use vstd::prelude::*;
use crate::chain::{canonical_id, parse_blob_hash, parse_chain_id, reachable, reachable_ids};
use crate::model::{
    ArchivedRoom, ArchivedRoomView, GameRoom, GameRoomView, GameState, LeaderboardEntry,
    LeaderboardEntryView, Player, PlayerView,
};
use crate::protocol::{
    Action, ActionView, Context, ContextView, CrossChainMessage, CrossChainMessageView, DoodleEvent,
    DoodleEventView, Rejection,
};
use crate::room::{chain_ids, position_by_chain_id};
use crate::state::{
    accept, handled, no_actions, one_action, Outcome, push_action, push_send_each, push_unsubscribe_each, send_each,
    stream_name, stream_of, unsubscribe_each, DoodleGameState, DoodleGameStateView, Step,
};
use crate::text::{clone_strings, decimal_string, decimal_text, index_of, push_viewed, strings_view, views_of};

verus! {

/// The time of the replica's clock as it is written into records.
pub open spec fn timestamp_text(ctx: ContextView) -> Seq<char> {
    decimal_text(ctx.now_micros as nat)
}

/// Names and scores of a roster, in order.
pub open spec fn score_list(players: Seq<PlayerView>) -> Seq<(Seq<char>, u32)> {
    players.map_values(|p: PlayerView| (p.name, p.score))
}

/// The leaderboard lines of a roster, in order.
pub open spec fn leaderboard_lines(players: Seq<PlayerView>) -> Seq<LeaderboardEntryView> {
    players.map_values(
        |p: PlayerView| LeaderboardEntryView { player_name: p.name, chain_id: p.chain_id, score: p.score },
    )
}

/// The record of a room that ends at `timestamp` on a replica that holds
/// `count` records already: it is named by the room and the record's number.
pub open spec fn archive_of(
    room_id: Seq<char>,
    blob_hashes: Seq<Seq<char>>,
    count: nat,
    timestamp: Seq<char>,
) -> ArchivedRoomView {
    ArchivedRoomView {
        room_id: room_id + "#"@ + decimal_text(count + 1),
        blob_hashes: blob_hashes,
        timestamp: timestamp,
    }
}

/// The scores of a room on their way to the leaderboard replica, where the
/// room names one that can be addressed.
pub open spec fn leaderboard_notice(room: GameRoomView) -> Seq<ActionView> {
    match room.leaderboard_chain_id {
        Some(l) => match canonical_id(l) {
            Some(t) => seq![
                ActionView::SendMessage {
                    target: t,
                    message: CrossChainMessageView::UpdateLeaderboard { entries: leaderboard_lines(room.players) },
                },
            ],
            None => Seq::empty(),
        },
        None => Seq::empty(),
    }
}

/// The time of the replica's clock as it is written into records.
pub fn timestamp_of(ctx: &Context) -> (r: String)
    ensures
        r@ == timestamp_text(ctx@),
{
    decimal_string(ctx.now_micros as u128)
}

/// The replica identifiers of a roster, in order.
pub fn player_ids(players: &Vec<Player>) -> (r: Vec<String>)
    ensures
        strings_view(r@) == chain_ids(views_of(players@)),
{
    let mut out: Vec<String> = Vec::new();
    let mut i: usize = 0;
    while i < players.len()
        invariant
            i <= players.len(),
            out@.len() == i,
            forall|j: int| 0 <= j < i ==> #[trigger] out@[j]@ == players@[j].chain_id@,
        decreases players.len() - i,
    {
        out.push(players[i].chain_id.clone());
        i += 1;
    }
    assert(strings_view(out@) =~= chain_ids(views_of(players@)));
    out
}

/// Names and scores of a roster, in order.
pub fn scores_of(players: &Vec<Player>) -> (r: Vec<(String, u32)>)
    ensures
        crate::protocol::scores_view(r@) == score_list(views_of(players@)),
{
    let mut out: Vec<(String, u32)> = Vec::new();
    let mut i: usize = 0;
    while i < players.len()
        invariant
            i <= players.len(),
            out@.len() == i,
            forall|j: int| 0 <= j < i ==> (#[trigger] out@[j]).0@ == players@[j].name@ && out@[j].1 == players@[j].score,
        decreases players.len() - i,
    {
        out.push((players[i].name.clone(), players[i].score));
        i += 1;
    }
    assert(crate::protocol::scores_view(out@) =~= score_list(views_of(players@)));
    out
}

/// The leaderboard lines of a roster, in order.
pub fn lines_of(players: &Vec<Player>) -> (r: Vec<LeaderboardEntry>)
    ensures
        views_of(r@) == leaderboard_lines(views_of(players@)),
{
    let mut out: Vec<LeaderboardEntry> = Vec::new();
    let mut i: usize = 0;
    while i < players.len()
        invariant
            i <= players.len(),
            out@.len() == i,
            forall|j: int|
                0 <= j < i ==> (#[trigger] out@[j])@ == (LeaderboardEntryView {
                    player_name: players@[j].name@,
                    chain_id: players@[j].chain_id@,
                    score: players@[j].score,
                }),
        decreases players.len() - i,
    {
        out.push(
            LeaderboardEntry {
                player_name: players[i].name.clone(),
                chain_id: players[i].chain_id.clone(),
                score: players[i].score,
            },
        );
        i += 1;
    }
    assert(views_of(out@) =~= leaderboard_lines(views_of(players@)));
    out
}

/// Appends the scores of `room` on their way to the leaderboard replica.
pub fn push_leaderboard_notice(out: &mut Vec<Action>, room: &GameRoom)
    ensures
        views_of(final(out)@) == views_of(old(out)@) + leaderboard_notice(room@),
{
    match &room.leaderboard_chain_id {
        Some(l) => {
            match parse_chain_id(l.as_str()) {
                Some(target) => {
                    let action = Action::SendMessage {
                        target,
                        message: CrossChainMessage::UpdateLeaderboard { entries: lines_of(&room.players) },
                    };
                    assert(views_of(out@).push(action@) =~= views_of(out@) + seq![action@]);
                    push_action(out, action);
                },
                None => {
                    assert(views_of(out@) + Seq::<ActionView>::empty() =~= views_of(out@));
                },
            }
        },
        None => {
            assert(views_of(out@) + Seq::<ActionView>::empty() =~= views_of(out@));
        },
    }
}

/// The record of `room`, holding `blob_hashes`, on a replica with `count`
/// records.
pub fn make_archive(room_id: &String, blob_hashes: Vec<String>, count: usize, timestamp: String) -> (r:
    ArchivedRoom)
    ensures
        r@ == archive_of(room_id@, strings_view(blob_hashes@), count as nat, timestamp@),
{
    let number = decimal_string(count as u128 + 1);
    ArchivedRoom {
        room_id: room_id.clone().concat("#").concat(number.as_str()),
        blob_hashes,
        timestamp,
    }
}

/// Creating a room: the replica becomes the host of a fresh room and
/// follows its own log.
pub open spec fn create_room_step(
    s: DoodleGameStateView,
    ctx: ContextView,
    host_name: Seq<char>,
    avatar_json: Seq<char>,
) -> Step {
    let room = GameRoomView::created(ctx.chain_id, host_name, avatar_json, timestamp_text(ctx), None);
    accept(
        DoodleGameStateView { room: Some(room), ..s },
        match canonical_id(ctx.chain_id) {
            Some(c) => seq![ActionView::Subscribe { chain_id: c, stream: stream_name(room.room_id) }],
            None => Seq::empty(),
        },
    )
}

/// Creates a room with this replica as its host.
pub fn create_room(state: &mut DoodleGameState, ctx: &Context, host_name: String, avatar_json: String) -> (r:
    Result<Vec<Action>, Rejection>)
    ensures
        handled(old(state)@, final(state)@, r, create_room_step(old(state)@, ctx@, host_name@, avatar_json@)),
{
    let room = GameRoom::new(ctx.chain_id.clone(), host_name, avatar_json, timestamp_of(ctx), None);
    let out = match parse_chain_id(ctx.chain_id.as_str()) {
        Some(c) => one_action(Action::Subscribe { chain_id: c, stream: stream_of(&room.room_id) }),
        None => no_actions(),
    };
    state.room = Some(room);
    Ok(out)
}

/// Asking `host` for a place in its room.
pub open spec fn join_room_step(
    s: DoodleGameStateView,
    ctx: ContextView,
    host: Seq<char>,
    player_name: Seq<char>,
    avatar_json: Seq<char>,
) -> Step {
    match canonical_id(host) {
        None => Err(Rejection::InvalidChainId),
        Some(t) => accept(
            s,
            seq![
                ActionView::SendMessage {
                    target: t,
                    message: CrossChainMessageView::JoinRequest {
                        player_chain_id: ctx.chain_id,
                        player_name: player_name,
                        avatar_json: avatar_json,
                    },
                },
            ],
        ),
    }
}

/// Asks the host `host_chain_id` for a place in its room.
pub fn join_room(
    state: &mut DoodleGameState,
    ctx: &Context,
    host_chain_id: String,
    player_name: String,
    avatar_json: String,
) -> (r: Result<Vec<Action>, Rejection>)
    ensures
        handled(
            old(state)@,
            final(state)@,
            r,
            join_room_step(old(state)@, ctx@, host_chain_id@, player_name@, avatar_json@),
        ),
{
    match parse_chain_id(host_chain_id.as_str()) {
        None => Err(Rejection::InvalidChainId),
        Some(target) => Ok(
            one_action(
                Action::SendMessage {
                    target,
                    message: CrossChainMessage::JoinRequest {
                        player_chain_id: ctx.chain_id.clone(),
                        player_name,
                        avatar_json,
                    },
                },
            ),
        ),
    }
}

/// Starting the game: every invitation still out is taken back; then the
/// game starts and its first drawer is chosen and announced. Without an
/// `Active` player the room stays as it is.
pub open spec fn start_game_step(s: DoodleGameStateView, ctx: ContextView, rounds: u32, seconds_per_round: u32) -> Step {
    match s.room {
        None => Err(Rejection::NoActiveRoom),
        Some(room) => {
            let cancels = send_each(
                reachable(s.sent_invitations),
                CrossChainMessageView::RoomInvitationCancelled { host_chain_id: ctx.chain_id },
            );
            let started = room.started(rounds, seconds_per_round);
            match started.next_drawer() {
                Some(i) => accept(
                    DoodleGameStateView {
                        room: Some(started.with_drawer(i as usize, timestamp_text(ctx))),
                        sent_invitations: Seq::empty(),
                        ..s
                    },
                    cancels.push(
                        ActionView::Emit {
                            stream: stream_name(room.room_id),
                            event: DoodleEventView::GameStarted {
                                rounds: rounds,
                                seconds_per_round: seconds_per_round,
                                drawer_index: i as usize,
                                drawer_name: room.players[i].name,
                                timestamp: timestamp_text(ctx),
                            },
                        },
                    ),
                ),
                None => accept(DoodleGameStateView { sent_invitations: Seq::empty(), ..s }, cancels),
            }
        },
    }
}

/// Starts a game of `rounds` rounds in this replica's room.
pub fn start_game(state: &mut DoodleGameState, ctx: &Context, rounds: u32, seconds_per_round: u32) -> (r: Result<
    Vec<Action>,
    Rejection,
>)
    ensures
        handled(old(state)@, final(state)@, r, start_game_step(old(state)@, ctx@, rounds, seconds_per_round)),
{
    let mut room = match &state.room {
        None => {
            return Err(Rejection::NoActiveRoom);
        },
        Some(room) => room.clone(),
    };
    let timestamp = timestamp_of(ctx);
    let targets = reachable_ids(&state.sent_invitations);
    let mut out = no_actions();
    push_send_each(
        &mut out,
        &targets,
        &CrossChainMessage::RoomInvitationCancelled { host_chain_id: ctx.chain_id.clone() },
    );
    assert(Seq::<ActionView>::empty() + send_each(
        reachable(old(state)@.sent_invitations),
        CrossChainMessageView::RoomInvitationCancelled { host_chain_id: ctx.chain_id@ },
    ) =~= send_each(
        reachable(old(state)@.sent_invitations),
        CrossChainMessageView::RoomInvitationCancelled { host_chain_id: ctx.chain_id@ },
    ));
    state.sent_invitations = Vec::new();
    assert(strings_view(state.sent_invitations@) =~= Seq::empty());
    let ghost before = room@;
    room.start_game(rounds, seconds_per_round, timestamp.clone());
    match room.choose_drawer(timestamp.clone()) {
        Some(i) => {
            let drawer_name = room.players[i].name.clone();
            assert(drawer_name@ == before.players[i as int].name);
            assert(room@ == before.started(rounds, seconds_per_round).with_drawer(i, timestamp@));
            push_action(
                &mut out,
                Action::Emit {
                    stream: stream_of(&room.room_id),
                    event: DoodleEvent::GameStarted {
                        rounds,
                        seconds_per_round,
                        drawer_index: i,
                        drawer_name,
                        timestamp,
                    },
                },
            );
            state.room = Some(room);
        },
        None => {},
    }
    Ok(out)
}

/// The announcement of the drawer at index `i` of `room`.
pub open spec fn drawer_announcement(room: GameRoomView, i: int, timestamp: Seq<char>) -> ActionView {
    ActionView::Emit {
        stream: stream_name(room.room_id),
        event: DoodleEventView::DrawerChosen {
            drawer_index: i as usize,
            drawer_name: room.players[i].name,
            timestamp: timestamp,
            previous_blob_hash: None,
        },
    }
}

/// Choosing the next drawer, which only the host does. When every
/// `Active` player has drawn, the round ends first: after the last round
/// the game ends with the final scores, otherwise the scores of the round
/// are announced and the first drawer of the next round is chosen.
pub open spec fn choose_drawer_step(s: DoodleGameStateView, ctx: ContextView) -> Step {
    match s.room {
        None => Err(Rejection::NoActiveRoom),
        Some(room) => match canonical_id(room.host_chain_id) {
            None => Err(Rejection::InvalidChainId),
            Some(h) => if h != ctx.chain_id {
                Err(Rejection::NotHost)
            } else {
                let ts = timestamp_text(ctx);
                let stream = stream_name(room.room_id);
                if room.all_drawn() {
                    let next = room.advanced();
                    if next.game_state == GameState::GameEnded {
                        accept(
                            DoodleGameStateView { room: Some(next), ..s },
                            seq![
                                ActionView::Emit {
                                    stream: stream,
                                    event: DoodleEventView::GameEnded {
                                        final_scores: score_list(room.players),
                                        timestamp: ts,
                                    },
                                },
                            ],
                        )
                    } else {
                        match next.next_drawer() {
                            Some(i) => accept(
                                DoodleGameStateView { room: Some(next.with_drawer(i as usize, ts)), ..s },
                                seq![
                                    ActionView::Emit {
                                        stream: stream,
                                        event: DoodleEventView::RoundEnded {
                                            scores: score_list(room.players),
                                            timestamp: ts,
                                        },
                                    },
                                    drawer_announcement(room, i, ts),
                                ],
                            ),
                            None => Err(Rejection::NoActivePlayer),
                        }
                    }
                } else {
                    match room.next_drawer() {
                        Some(i) => accept(
                            DoodleGameStateView { room: Some(room.with_drawer(i as usize, ts)), ..s },
                            seq![drawer_announcement(room, i, ts)],
                        ),
                        None => Err(Rejection::NoActivePlayer),
                    }
                }
            },
        },
    }
}

/// Chooses the next drawer of this replica's room.
pub fn choose_drawer(state: &mut DoodleGameState, ctx: &Context) -> (r: Result<Vec<Action>, Rejection>)
    ensures
        handled(old(state)@, final(state)@, r, choose_drawer_step(old(state)@, ctx@)),
{
    let mut room = match &state.room {
        None => {
            return Err(Rejection::NoActiveRoom);
        },
        Some(room) => room.clone(),
    };
    match parse_chain_id(room.host_chain_id.as_str()) {
        None => {
            return Err(Rejection::InvalidChainId);
        },
        Some(h) => {
            if h != ctx.chain_id {
                return Err(Rejection::NotHost);
            }
        },
    }
    let ghost before = room@;
    let timestamp = timestamp_of(ctx);
    let stream = stream_of(&room.room_id);
    let mut out = no_actions();
    if room.has_all_players_drawn_in_round() {
        let scores = scores_of(&room.players);
        room.advance_to_next_round(timestamp.clone());
        if room.game_state == GameState::GameEnded {
            let action = Action::Emit { stream, event: DoodleEvent::GameEnded { final_scores: scores, timestamp } };
            state.room = Some(room);
            return Ok(one_action(action));
        }
        push_action(
            &mut out,
            Action::Emit {
                stream: stream.clone(),
                event: DoodleEvent::RoundEnded { scores, timestamp: timestamp.clone() },
            },
        );
    }
    let ghost middle = room@;
    match room.choose_drawer(timestamp.clone()) {
        Some(i) => {
            let drawer_name = room.players[i].name.clone();
            assert(drawer_name@ == before.players[i as int].name);
            assert(room@ == middle.with_drawer(i, timestamp@));
            let action = Action::Emit {
                stream,
                event: DoodleEvent::DrawerChosen {
                    drawer_index: i,
                    drawer_name,
                    timestamp,
                    previous_blob_hash: None,
                },
            };
            assert(action@ == drawer_announcement(before, i as int, timestamp_text(ctx@)));
            assert(Seq::<ActionView>::empty().push(action@) =~= seq![action@]);
            assert(forall|a: ActionView| Seq::<ActionView>::empty().push(a).push(action@) =~= seq![a, action@]);
            push_action(&mut out, action);
            state.room = Some(room);
            Ok(out)
        },
        None => Err(Rejection::NoActivePlayer),
    }
}

/// Choosing the word, which only the current drawer does: the room notes
/// the time, the word stays on this replica, and the log tells the time only.
pub open spec fn choose_word_step(s: DoodleGameStateView, ctx: ContextView, word: Seq<char>) -> Step {
    match s.room {
        None => Err(Rejection::NoActiveRoom),
        Some(room) => match room.current_drawer() {
            None => Err(Rejection::NotDrawer),
            Some(drawer) => if drawer.chain_id != ctx.chain_id {
                Err(Rejection::NotDrawer)
            } else {
                accept(
                    DoodleGameStateView {
                        room: Some(room.word_chosen(timestamp_text(ctx))),
                        current_word: Some(word),
                        ..s
                    },
                    seq![
                        ActionView::Emit {
                            stream: stream_name(room.room_id),
                            event: DoodleEventView::WordChosen { timestamp: timestamp_text(ctx) },
                        },
                    ],
                )
            },
        },
    }
}

/// Chooses the word that the other players have to guess.
pub fn choose_word(state: &mut DoodleGameState, ctx: &Context, word: String) -> (r: Result<Vec<Action>, Rejection>)
    ensures
        handled(old(state)@, final(state)@, r, choose_word_step(old(state)@, ctx@, word@)),
{
    let mut room = match &state.room {
        None => {
            return Err(Rejection::NoActiveRoom);
        },
        Some(room) => room.clone(),
    };
    let is_drawer = match room.get_current_drawer() {
        Some(drawer) => drawer.chain_id == ctx.chain_id,
        None => false,
    };
    if !is_drawer {
        return Err(Rejection::NotDrawer);
    }
    let timestamp = timestamp_of(ctx);
    room.choose_word(timestamp.clone());
    let action = Action::Emit { stream: stream_of(&room.room_id), event: DoodleEvent::WordChosen { timestamp } };
    state.room = Some(room);
    state.current_word = Some(word);
    Ok(one_action(action))
}

/// Guessing the word: the guess goes to the drawer's replica, which holds
/// the word.
pub open spec fn guess_word_step(s: DoodleGameStateView, ctx: ContextView, guess: Seq<char>) -> Step {
    match s.room {
        None => Err(Rejection::NoActiveRoom),
        Some(room) => match room.current_drawer() {
            None => Err(Rejection::NoDrawer),
            Some(drawer) => match canonical_id(drawer.chain_id) {
                None => Err(Rejection::InvalidChainId),
                Some(t) => accept(
                    s,
                    seq![
                        ActionView::SendMessage {
                            target: t,
                            message: CrossChainMessageView::GuessSubmission {
                                guesser_chain_id: ctx.chain_id,
                                guess: guess,
                                round: room.current_round,
                            },
                        },
                    ],
                ),
            },
        },
    }
}

/// Submits a guess of the word.
pub fn guess_word(state: &mut DoodleGameState, ctx: &Context, guess: String) -> (r: Result<Vec<Action>, Rejection>)
    ensures
        handled(old(state)@, final(state)@, r, guess_word_step(old(state)@, ctx@, guess@)),
{
    match &state.room {
        None => Err(Rejection::NoActiveRoom),
        Some(room) => match room.get_current_drawer() {
            None => Err(Rejection::NoDrawer),
            Some(drawer) => match parse_chain_id(drawer.chain_id.as_str()) {
                None => Err(Rejection::InvalidChainId),
                Some(target) => Ok(
                    one_action(
                        Action::SendMessage {
                            target,
                            message: CrossChainMessage::GuessSubmission {
                                guesser_chain_id: ctx.chain_id.clone(),
                                guess,
                                round: room.current_round,
                            },
                        },
                    ),
                ),
            },
        },
    }
}

/// Termination of the room `room`, whose host this replica is: the room is
/// archived with `blob_hashes`, every player is told so with the record, the
/// scores go to the leaderboard, the log says that the match has ended, the
/// host stops following its players, and at last the room is gone from the
/// host as well.
pub open spec fn termination(
    s: DoodleGameStateView,
    ctx: ContextView,
    room: GameRoomView,
    blob_hashes: Seq<Seq<char>>,
) -> Outcome {
    let ts = timestamp_text(ctx);
    let archive = archive_of(room.room_id, blob_hashes, s.archived_rooms.len(), ts);
    let targets = reachable(chain_ids(room.players));
    let stream = stream_name(room.room_id);
    Outcome {
        state: DoodleGameStateView {
            room: None,
            current_word: None,
            archived_rooms: s.archived_rooms.push(archive),
            ..s
        },
        actions: send_each(
            targets,
            CrossChainMessageView::RoomDeleted { timestamp: ts, archived_room: Some(archive) },
        ) + leaderboard_notice(room) + seq![
            ActionView::Emit { stream: stream, event: DoodleEventView::MatchEnded { timestamp: ts } },
        ] + unsubscribe_each(targets, stream),
    }
}

/// Terminates the room `room` of this replica and archives it with
/// `blob_hashes`.
pub fn terminate(state: &mut DoodleGameState, ctx: &Context, room: &GameRoom, blob_hashes: Vec<String>) -> (r: Vec<
    Action,
>)
    ensures
        final(state)@ == termination(old(state)@, ctx@, room@, strings_view(blob_hashes@)).state,
        views_of(r@) == termination(old(state)@, ctx@, room@, strings_view(blob_hashes@)).actions,
{
    let timestamp = timestamp_of(ctx);
    let archive = make_archive(&room.room_id, blob_hashes, state.archived_rooms.len(), timestamp.clone());
    let targets = reachable_ids(&player_ids(&room.players));
    let stream = stream_of(&room.room_id);
    let mut out = no_actions();
    push_send_each(
        &mut out,
        &targets,
        &CrossChainMessage::RoomDeleted { timestamp: timestamp.clone(), archived_room: Some(archive.clone()) },
    );
    push_leaderboard_notice(&mut out, room);
    let ended = Action::Emit { stream: stream.clone(), event: DoodleEvent::MatchEnded { timestamp } };
    assert(views_of(out@).push(ended@) =~= views_of(out@) + seq![ended@]);
    push_action(&mut out, ended);
    push_unsubscribe_each(&mut out, &targets, &stream);
    assert(Seq::<ActionView>::empty() + send_each(
        strings_view(targets@),
        CrossChainMessageView::RoomDeleted { timestamp: timestamp_text(ctx@), archived_room: Some(archive@) },
    ) =~= send_each(
        strings_view(targets@),
        CrossChainMessageView::RoomDeleted { timestamp: timestamp_text(ctx@), archived_room: Some(archive@) },
    ));
    push_viewed(&mut state.archived_rooms, archive);
    state.room = None;
    state.current_word = None;
    out
}

/// Ending the match, which only the host does: the room is terminated and
/// archived with the hashes it holds.
pub open spec fn end_match_step(s: DoodleGameStateView, ctx: ContextView) -> Step {
    match s.room {
        None => Err(Rejection::NoActiveRoom),
        Some(room) => if room.host_chain_id != ctx.chain_id {
            Err(Rejection::NotHost)
        } else {
            Ok(termination(s, ctx, room, room.blob_hashes))
        },
    }
}

/// Ends the match and removes the room.
pub fn end_match(state: &mut DoodleGameState, ctx: &Context) -> (r: Result<Vec<Action>, Rejection>)
    ensures
        handled(old(state)@, final(state)@, r, end_match_step(old(state)@, ctx@)),
{
    let room = match &state.room {
        None => {
            return Err(Rejection::NoActiveRoom);
        },
        Some(room) => room.clone(),
    };
    if room.host_chain_id != ctx.chain_id {
        return Err(Rejection::NotHost);
    }
    let hashes = clone_strings(&room.blob_hashes);
    Ok(terminate(state, ctx, &room, hashes))
}

/// The name under which the replica `chain_id` plays in a roster.
pub open spec fn name_of(players: Seq<PlayerView>, chain_id: Seq<char>) -> Option<Seq<char>> {
    match index_of(chain_ids(players), chain_id) {
        Some(i) => Some(players[i].name),
        None => None,
    }
}

/// Leaving the room. The host's leaving terminates the room, which is
/// archived with the hashes given, or with its own where none are given.
/// A guest tells the host, stops following the host's log and forgets the
/// room.
pub open spec fn leave_room_step(s: DoodleGameStateView, ctx: ContextView, blob_hashes: Option<Seq<Seq<char>>>) -> Step {
    match s.room {
        None => Err(Rejection::NoActiveRoom),
        Some(room) => match canonical_id(room.host_chain_id) {
            None => Err(Rejection::InvalidChainId),
            Some(h) => {
                let ts = timestamp_text(ctx);
                if h == ctx.chain_id {
                    let given = match blob_hashes {
                        Some(hashes) => hashes,
                        None => Seq::empty(),
                    };
                    Ok(
                        termination(
                            s,
                            ctx,
                            room,
                            if given.len() == 0 {
                                room.blob_hashes
                            } else {
                                given
                            },
                        ),
                    )
                } else {
                    accept(
                        DoodleGameStateView { room: None, current_word: None, subscribed_to_host: None, ..s },
                        seq![
                            ActionView::SendMessage {
                                target: h,
                                message: CrossChainMessageView::PlayerLeft {
                                    player_chain_id: ctx.chain_id,
                                    player_name: name_of(room.players, ctx.chain_id),
                                    timestamp: ts,
                                },
                            },
                            ActionView::Unsubscribe { chain_id: h, stream: stream_name(room.room_id) },
                        ],
                    )
                }
            },
        },
    }
}

/// Leaves the room.
pub fn leave_room(state: &mut DoodleGameState, ctx: &Context, blob_hashes: Option<Vec<String>>) -> (r: Result<
    Vec<Action>,
    Rejection,
>)
    ensures
        handled(
            old(state)@,
            final(state)@,
            r,
            leave_room_step(
                old(state)@,
                ctx@,
                match blob_hashes {
                    Some(h) => Some(strings_view(h@)),
                    None => None,
                },
            ),
        ),
{
    let room = match &state.room {
        None => {
            return Err(Rejection::NoActiveRoom);
        },
        Some(room) => room.clone(),
    };
    let host = match parse_chain_id(room.host_chain_id.as_str()) {
        None => {
            return Err(Rejection::InvalidChainId);
        },
        Some(h) => h,
    };
    if host == ctx.chain_id {
        let given = match blob_hashes {
            Some(h) => h,
            None => Vec::new(),
        };
        let hashes = if given.len() == 0 {
            clone_strings(&room.blob_hashes)
        } else {
            given
        };
        Ok(terminate(state, ctx, &room, hashes))
    } else {
        let player_name = match position_by_chain_id(&room.players, &ctx.chain_id) {
            Some(i) => Some(room.players[i].name.clone()),
            None => None,
        };
        let mut out = one_action(
            Action::SendMessage {
                target: host.clone(),
                message: CrossChainMessage::PlayerLeft {
                    player_chain_id: ctx.chain_id.clone(),
                    player_name,
                    timestamp: timestamp_of(ctx),
                },
            },
        );
        let second = Action::Unsubscribe { chain_id: host, stream: stream_of(&room.room_id) };
        assert(forall|a: ActionView| seq![a].push(second@) =~= seq![a, second@]);
        push_action(&mut out, second);
        state.room = None;
        state.current_word = None;
        state.subscribed_to_host = None;
        Ok(out)
    }
}

/// Reading a blob: its hash has to be one.
pub open spec fn read_data_blob_step(s: DoodleGameStateView, hash: Seq<char>) -> Step {
    match canonical_id(hash) {
        None => Err(Rejection::InvalidBlobHash),
        Some(h) => accept(s, seq![ActionView::ReadDataBlob { hash: h }]),
    }
}

/// Asks the runtime to read the blob with hash `hash`.
pub fn read_data_blob(state: &mut DoodleGameState, hash: String) -> (r: Result<Vec<Action>, Rejection>)
    ensures
        handled(old(state)@, final(state)@, r, read_data_blob_step(old(state)@, hash@)),
{
    match parse_blob_hash(hash.as_str()) {
        None => Err(Rejection::InvalidBlobHash),
        Some(h) => Ok(one_action(Action::ReadDataBlob { hash: h })),
    }
}

/// The word stays with the drawer. Whatever word is chosen, the room and the
/// actions are the same: the log tells that a word was chosen and when, and
/// nothing else. Only the drawer's own state holds the word.
pub proof fn law_word_stays_private(s: DoodleGameStateView, ctx: ContextView, word: Seq<char>, other: Seq<char>)
    ensures
        match (choose_word_step(s, ctx, word), choose_word_step(s, ctx, other)) {
            (Ok(a), Ok(b)) => a.actions == b.actions && a.state.room == b.state.room && a.state.current_word == Some(
                word,
            ) && a.state == (DoodleGameStateView { current_word: Some(word), ..b.state }),
            (Err(a), Err(b)) => a == b,
            _ => false,
        },
{
}

} // verus!
