//! Catching up with broadcast logs: how a replica applies the events that
//! other replicas have published.

use vstd::prelude::*;
use crate::model::{ChatMessage, ChatMessageView, GameRoom, GameRoomView, GameState, Player, PlayerView};
use crate::protocol::{
    Action, ActionView, Context, ContextView, DoodleEvent, DoodleEventView, Rejection, StreamUpdate,
    StreamUpdateView,
};
use crate::room::{chain_ids, last_lines, names, position_by_chain_id, position_by_name, CHAT_LIMIT};
use crate::state::{
    accept, handled, ignore, no_actions, one_action, stream_name, stream_of, DoodleGameState,
    DoodleGameStateView, Step,
};
use crate::text::{lemma_index_from, lemma_index_of_contains, views_of};

verus! {

/// Player name and text of each chat line, in order.
pub open spec fn chat_keys(chat: Seq<ChatMessageView>) -> Seq<(Seq<char>, Seq<char>)> {
    chat.map_values(|m: ChatMessageView| (m.player_name, m.message))
}

/// Whether an event published by `origin` comes from the drawer that the
/// room records at the moment.
pub open spec fn from_current_drawer(room: GameRoomView, origin: Seq<char>) -> bool {
    match room.current_drawer() {
        Some(drawer) => drawer.chain_id == origin,
        None => false,
    }
}

/// Whether a replica takes up an event of the word or the chat that it
/// reads on the log of `origin`. The host takes it from the log of the
/// current drawer and from no other. Every other replica takes it from the
/// log of the host, which passes on what the drawer has published; the
/// drawer itself has applied its own events when it published them and
/// does not take them up again.
pub open spec fn takes_drawer_event(room: GameRoomView, ctx: ContextView, origin: Seq<char>) -> bool {
    if room.host_chain_id == ctx.chain_id {
        from_current_drawer(room, origin)
    } else {
        origin == room.host_chain_id && !from_current_drawer(room, ctx.chain_id)
    }
}

/// What the host adds to its own log when it has applied an event of the
/// drawer: the same event again, for the guests. Other replicas add nothing.
pub open spec fn relayed(room: GameRoomView, ctx: ContextView, event: DoodleEventView) -> Seq<ActionView> {
    if room.host_chain_id == ctx.chain_id {
        seq![ActionView::Emit { stream: stream_name(room.room_id), event: event }]
    } else {
        Seq::empty()
    }
}

/// What a replica with the room `room` makes of one event that `origin`
/// published, as far as the room goes.
pub open spec fn room_after_event(
    room: GameRoomView,
    ctx: ContextView,
    origin: Seq<char>,
    event: DoodleEventView,
) -> Result<GameRoomView, Rejection> {
    match event {
        DoodleEventView::PlayerJoined { player, timestamp } => if chain_ids(room.players).contains(
            player.chain_id,
        ) {
            Ok(room)
        } else {
            Ok(room.with_player(player))
        },
        DoodleEventView::PlayerLeft { player_chain_id, timestamp } => Ok(room.player_left(player_chain_id)),
        DoodleEventView::GameStarted { rounds, seconds_per_round, drawer_index, drawer_name, timestamp } => Ok(
            room.started(rounds, seconds_per_round).with_drawer(drawer_index, timestamp),
        ),
        DoodleEventView::DrawerChosen { drawer_index, drawer_name, timestamp, previous_blob_hash } => Ok(
            room.with_drawer(drawer_index, timestamp),
        ),
        DoodleEventView::WordChosen { timestamp } => if takes_drawer_event(room, ctx, origin) {
            Ok(room.word_chosen(timestamp))
        } else {
            Ok(room)
        },
        DoodleEventView::ChatMessage { message } => if !takes_drawer_event(room, ctx, origin) || chat_keys(
            room.chat_messages,
        ).contains((message.player_name, message.message)) {
            Ok(room)
        } else if !message.is_correct_guess {
            Ok(room.with_chat(message))
        } else if room.can_award(message.player_name, message.points_awarded) {
            Ok(room.with_chat(message).awarded(message.player_name, message.points_awarded))
        } else {
            Err(Rejection::ScoreOverflow)
        },
        DoodleEventView::RoundEnded { scores, timestamp } => Ok(room.advanced()),
        DoodleEventView::GameEnded { final_scores, timestamp } => Ok(
            GameRoomView { game_state: GameState::GameEnded, ..room },
        ),
        DoodleEventView::MatchEnded { timestamp } => Ok(room),
    }
}

/// What a replica makes of one event that it reads on the log of `origin`.
/// A replica without a room ignores it. The host takes up an event of the
/// word or the chat only from the log of the current drawer, and then
/// passes it on through its own log; the guests take it up from there.
pub open spec fn event_step(
    s: DoodleGameStateView,
    ctx: ContextView,
    origin: Seq<char>,
    event: DoodleEventView,
) -> Step {
    match s.room {
        None => ignore(s),
        Some(room) => match room_after_event(room, ctx, origin, event) {
            Err(e) => Err(e),
            Ok(after) => accept(
                DoodleGameStateView { room: Some(after), ..s },
                match event {
                    DoodleEventView::WordChosen { .. } => if takes_drawer_event(room, ctx, origin) {
                        relayed(room, ctx, event)
                    } else {
                        Seq::empty()
                    },
                    DoodleEventView::ChatMessage { .. } => if takes_drawer_event(room, ctx, origin) {
                        relayed(room, ctx, event)
                    } else {
                        Seq::empty()
                    },
                    _ => Seq::empty(),
                },
            ),
        },
    }
}

/// Whether `room` records `origin` as its drawer.
pub fn is_from_current_drawer(room: &GameRoom, origin: &String) -> (r: bool)
    ensures
        r == from_current_drawer(room@, origin@),
{
    match room.get_current_drawer() {
        Some(drawer) => drawer.chain_id == *origin,
        None => false,
    }
}

/// Whether this replica takes up an event of the word or the chat that it
/// reads on the log of `origin`.
pub fn takes_event_of_drawer(room: &GameRoom, ctx: &Context, origin: &String) -> (r: bool)
    ensures
        r == takes_drawer_event(room@, ctx@, origin@),
{
    if room.host_chain_id == ctx.chain_id {
        is_from_current_drawer(room, origin)
    } else {
        *origin == room.host_chain_id && !is_from_current_drawer(room, &ctx.chain_id)
    }
}

/// Whether the chat holds a line of `player_name` with the text `text`.
pub fn has_chat_line(chat: &Vec<ChatMessage>, player_name: &String, text: &String) -> (r: bool)
    ensures
        r == chat_keys(views_of(chat@)).contains((player_name@, text@)),
{
    let ghost keys = chat_keys(views_of(chat@));
    let mut i: usize = 0;
    while i < chat.len()
        invariant
            keys == chat_keys(views_of(chat@)),
            forall|j: int| 0 <= j < i && j < chat.len() ==> #[trigger] keys[j] != (player_name@, text@),
        decreases chat.len() - i,
    {
        assert(keys[i as int] == (chat@[i as int].player_name@, chat@[i as int].message@));
        if chat[i].player_name == *player_name && chat[i].message == *text {
            return true;
        }
        i += 1;
    }
    false
}

/// The event again on the log of the room, if this replica is its host.
pub fn relay(room: &GameRoom, ctx: &Context, event: DoodleEvent) -> (r: Vec<Action>)
    ensures
        views_of(r@) == relayed(room@, ctx@, event@),
{
    if room.host_chain_id == ctx.chain_id {
        one_action(Action::Emit { stream: stream_of(&room.room_id), event })
    } else {
        no_actions()
    }
}

/// Applies one event that the replica `origin` published.
pub fn apply_event(state: &mut DoodleGameState, ctx: &Context, origin: &String, event: DoodleEvent) -> (r: Result<
    Vec<Action>,
    Rejection,
>)
    ensures
        handled(old(state)@, final(state)@, r, event_step(old(state)@, ctx@, origin@, event@)),
{
    let mut room = match &state.room {
        None => {
            return Ok(no_actions());
        },
        Some(room) => room.clone(),
    };
    let ghost before = room@;
    let mut out = no_actions();
    match event {
        DoodleEvent::PlayerJoined { player, timestamp } => {
            let found = position_by_chain_id(&room.players, &player.chain_id);
            proof {
                lemma_index_of_contains(chain_ids(before.players), player.chain_id@);
            }
            if found.is_none() {
                room.add_player(player);
            }
        },
        DoodleEvent::PlayerLeft { player_chain_id, timestamp } => {
            room.mark_player_left(&player_chain_id);
        },
        DoodleEvent::GameStarted { rounds, seconds_per_round, drawer_index, drawer_name, timestamp } => {
            room.start_game(rounds, seconds_per_round, timestamp.clone());
            room.current_drawer_index = Some(drawer_index);
            room.game_state = GameState::WaitingForWord;
            room.drawer_chosen_at = Some(timestamp);
            room.word_chosen_at = None;
            crate::room::clear_guesses(&mut room.players);
        },
        DoodleEvent::DrawerChosen { drawer_index, drawer_name, timestamp, previous_blob_hash } => {
            room.current_drawer_index = Some(drawer_index);
            room.game_state = GameState::WaitingForWord;
            room.drawer_chosen_at = Some(timestamp);
            room.word_chosen_at = None;
            crate::room::clear_guesses(&mut room.players);
        },
        DoodleEvent::WordChosen { timestamp } => {
            if takes_event_of_drawer(&room, ctx, origin) {
                out = relay(&room, ctx, DoodleEvent::WordChosen { timestamp: timestamp.clone() });
                room.choose_word(timestamp);
            }
        },
        DoodleEvent::ChatMessage { message } => {
            if takes_event_of_drawer(&room, ctx, origin) {
                out = relay(&room, ctx, DoodleEvent::ChatMessage { message: message.clone() });
                if !has_chat_line(&room.chat_messages, &message.player_name, &message.message) {
                    if message.is_correct_guess {
                        match position_by_name(&room.players, &message.player_name) {
                            Some(i) => {
                                if room.players[i].score > u32::MAX - message.points_awarded {
                                    return Err(Rejection::ScoreOverflow);
                                }
                            },
                            None => {},
                        }
                        let name = message.player_name.clone();
                        let points = message.points_awarded;
                        room.add_chat_message(message);
                        room.award_points(name.as_str(), points);
                    } else {
                        room.add_chat_message(message);
                    }
                }
            }
        },
        DoodleEvent::RoundEnded { scores, timestamp } => {
            room.advance_to_next_round(timestamp);
        },
        DoodleEvent::GameEnded { final_scores, timestamp } => {
            room.game_state = GameState::GameEnded;
        },
        DoodleEvent::MatchEnded { timestamp } => {},
    }
    state.room = Some(room);
    Ok(out)
}

/// What a replica makes of a run of events of `origin`, one after the
/// other. A refused event refuses the whole run.
pub open spec fn events_step(
    s: DoodleGameStateView,
    ctx: ContextView,
    origin: Seq<char>,
    events: Seq<DoodleEventView>,
) -> Step
    decreases events.len(),
{
    if events.len() == 0 {
        ignore(s)
    } else {
        match events_step(s, ctx, origin, events.drop_last()) {
            Err(e) => Err(e),
            Ok(first) => match event_step(first.state, ctx, origin, events.last()) {
                Err(e) => Err(e),
                Ok(second) => accept(second.state, first.actions + second.actions),
            },
        }
    }
}

/// What a replica makes of the new entries of one log. It skips its own
/// log: what it published there it has applied already.
pub open spec fn update_step(s: DoodleGameStateView, ctx: ContextView, update: StreamUpdateView) -> Step {
    if update.chain_id == ctx.chain_id {
        ignore(s)
    } else {
        events_step(s, ctx, update.chain_id, update.events)
    }
}

/// What a replica makes of the new entries of several logs, one log after
/// the other.
pub open spec fn streams_step(s: DoodleGameStateView, ctx: ContextView, updates: Seq<StreamUpdateView>) -> Step
    decreases updates.len(),
{
    if updates.len() == 0 {
        ignore(s)
    } else {
        match streams_step(s, ctx, updates.drop_last()) {
            Err(e) => Err(e),
            Ok(first) => match update_step(first.state, ctx, updates.last()) {
                Err(e) => Err(e),
                Ok(second) => accept(second.state, first.actions + second.actions),
            },
        }
    }
}

/// Appends the actions of `more` to `out`.
pub fn append_actions(out: &mut Vec<Action>, more: Vec<Action>)
    ensures
        views_of(final(out)@) == views_of(old(out)@) + views_of(more@),
{
    let mut more = more;
    let ghost added = more@;
    out.append(&mut more);
    assert(views_of(out@) =~= views_of(old(out)@) + views_of(added));
}

/// Applies the new entries of one log.
pub fn process_update(state: &mut DoodleGameState, ctx: &Context, update: StreamUpdate) -> (r: Result<
    Vec<Action>,
    Rejection,
>)
    ensures
        handled(old(state)@, final(state)@, r, update_step(old(state)@, ctx@, update@)),
{
    if update.chain_id == ctx.chain_id {
        return Ok(no_actions());
    }
    let saved = state.clone();
    let ghost start = state@;
    let ghost all = views_of(update.events@);
    let mut out = no_actions();
    let mut i: usize = 0;
    assert(all.take(0) =~= Seq::empty());
    while i < update.events.len()
        invariant
            i <= update.events.len(),
            all == views_of(update.events@),
            update.chain_id@ != ctx.chain_id@,
            start == saved@,
            start == old(state)@,
            events_step(start, ctx@, update.chain_id@, all.take(i as int)) == accept(state@, views_of(out@)),
        decreases update.events.len() - i,
    {
        proof {
            assert(all.take(i as int + 1).drop_last() =~= all.take(i as int));
            assert(all.take(i as int + 1).last() == update.events@[i as int]@);
        }
        match apply_event(state, ctx, &update.chain_id, update.events[i].clone()) {
            Ok(more) => {
                append_actions(&mut out, more);
            },
            Err(e) => {
                proof {
                    lemma_events_refused(start, ctx@, update.chain_id@, all, i as int + 1);
                }
                *state = saved;
                return Err(e);
            },
        }
        i += 1;
    }
    assert(all.take(update.events.len() as int) =~= all);
    Ok(out)
}

/// A run of events that is refused up to some point is refused as a whole,
/// for the same reason.
pub proof fn lemma_events_refused(
    s: DoodleGameStateView,
    ctx: ContextView,
    origin: Seq<char>,
    events: Seq<DoodleEventView>,
    n: int,
)
    requires
        0 <= n <= events.len(),
        events_step(s, ctx, origin, events.take(n)) is Err,
    ensures
        events_step(s, ctx, origin, events) == events_step(s, ctx, origin, events.take(n)),
    decreases events.len() - n,
{
    if n == events.len() {
        assert(events.take(n) =~= events);
    } else {
        assert(events.take(n + 1).drop_last() =~= events.take(n));
        lemma_events_refused(s, ctx, origin, events, n + 1);
    }
}

/// Logs that are refused up to some point are refused as a whole, for the
/// same reason.
pub proof fn lemma_streams_refused(
    s: DoodleGameStateView,
    ctx: ContextView,
    updates: Seq<StreamUpdateView>,
    n: int,
)
    requires
        0 <= n <= updates.len(),
        streams_step(s, ctx, updates.take(n)) is Err,
    ensures
        streams_step(s, ctx, updates) == streams_step(s, ctx, updates.take(n)),
    decreases updates.len() - n,
{
    if n == updates.len() {
        assert(updates.take(n) =~= updates);
    } else {
        assert(updates.take(n + 1).drop_last() =~= updates.take(n));
        lemma_streams_refused(s, ctx, updates, n + 1);
    }
}

/// Applies the new entries of the logs that this replica follows, log by
/// log and entry by entry.
pub fn process_streams(state: &mut DoodleGameState, ctx: &Context, updates: Vec<StreamUpdate>) -> (r: Result<
    Vec<Action>,
    Rejection,
>)
    ensures
        handled(old(state)@, final(state)@, r, streams_step(old(state)@, ctx@, views_of(updates@))),
{
    let saved = state.clone();
    let ghost start = state@;
    let ghost all = views_of(updates@);
    let mut out = no_actions();
    let mut i: usize = 0;
    assert(all.take(0) =~= Seq::empty());
    while i < updates.len()
        invariant
            i <= updates.len(),
            all == views_of(updates@),
            start == saved@,
            start == old(state)@,
            streams_step(start, ctx@, all.take(i as int)) == accept(state@, views_of(out@)),
        decreases updates.len() - i,
    {
        proof {
            assert(all.take(i as int + 1).drop_last() =~= all.take(i as int));
            assert(all.take(i as int + 1).last() == updates@[i as int]@);
        }
        match process_update(state, ctx, clone_update(&updates[i])) {
            Ok(more) => {
                append_actions(&mut out, more);
            },
            Err(e) => {
                proof {
                    lemma_streams_refused(start, ctx@, all, i as int + 1);
                }
                *state = saved;
                return Err(e);
            },
        }
        i += 1;
    }
    assert(all.take(updates.len() as int) =~= all);
    Ok(out)
}

/// Copies the entries of one log.
pub fn clone_update(update: &StreamUpdate) -> (r: StreamUpdate)
    ensures
        r@ == update@,
{
    let mut events: Vec<DoodleEvent> = Vec::new();
    let mut i: usize = 0;
    while i < update.events.len()
        invariant
            i <= update.events.len(),
            events@.len() == i,
            forall|j: int| 0 <= j < i ==> #[trigger] events@[j]@ == update.events@[j]@,
        decreases update.events.len() - i,
    {
        events.push(update.events[i].clone());
        i += 1;
    }
    assert(views_of(events@) =~= views_of(update.events@));
    StreamUpdate { chain_id: update.chain_id.clone(), events }
}

/// Self-echo. A replica that meets its own log among the logs to catch up
/// with changes nothing and does nothing: what it published there it has
/// applied when it published it.
pub proof fn law_self_echo(s: DoodleGameStateView, ctx: ContextView, update: StreamUpdateView)
    requires
        update.chain_id == ctx.chain_id,
    ensures
        update_step(s, ctx, update) == ignore(s),
{
}

/// Idempotence of joining. After the event that a player joined has been
/// applied, the roster holds an entry for that player, and applying the
/// same event again changes nothing; a roster without an entry for the
/// player gains exactly one.
pub proof fn law_player_joined_once(
    s: DoodleGameStateView,
    ctx: ContextView,
    origin: Seq<char>,
    player: PlayerView,
    timestamp: Seq<char>,
)
    requires
        s.room is Some,
    ensures
        event_step(s, ctx, origin, DoodleEventView::PlayerJoined { player, timestamp }) is Ok,
        ({
            let once = event_step(s, ctx, origin, DoodleEventView::PlayerJoined { player, timestamp })->Ok_0.state;
            &&& once.room is Some
            &&& chain_ids(once.room.unwrap().players).contains(player.chain_id)
            &&& !chain_ids(s.room.unwrap().players).contains(player.chain_id) ==> once.room.unwrap().players
                == s.room.unwrap().players.push(player)
            &&& chain_ids(s.room.unwrap().players).contains(player.chain_id) ==> once == s
            &&& event_step(once, ctx, origin, DoodleEventView::PlayerJoined { player, timestamp }) == ignore(once)
        }),
{
    let event = DoodleEventView::PlayerJoined { player, timestamp };
    let room = s.room.unwrap();
    let once = event_step(s, ctx, origin, event)->Ok_0.state;
    lemma_index_of_contains(chain_ids(room.players), player.chain_id);
    if !chain_ids(room.players).contains(player.chain_id) {
        let joined = room.players.push(player);
        assert(chain_ids(joined)[room.players.len() as int] == player.chain_id);
    } else {
        assert(once.room == s.room);
        assert(once == s);
    }
}

/// Idempotence of chat. After a chat event has been applied, applying the
/// same event again leaves the state as it is: the chat holds the line
/// once, and its points were awarded once.
pub proof fn law_chat_applied_once(
    s: DoodleGameStateView,
    ctx: ContextView,
    origin: Seq<char>,
    message: ChatMessageView,
)
    requires
        event_step(s, ctx, origin, DoodleEventView::ChatMessage { message }) is Ok,
    ensures
        ({
            let once = event_step(s, ctx, origin, DoodleEventView::ChatMessage { message })->Ok_0.state;
            &&& event_step(once, ctx, origin, DoodleEventView::ChatMessage { message }) is Ok
            &&& event_step(once, ctx, origin, DoodleEventView::ChatMessage { message })->Ok_0.state == once
        }),
{
    let event = DoodleEventView::ChatMessage { message };
    let once = event_step(s, ctx, origin, event)->Ok_0.state;
    if s.room is Some {
        let room = s.room.unwrap();
        let after = once.room.unwrap();
        let key = (message.player_name, message.message);
        if takes_drawer_event(room, ctx, origin) {
            if !chat_keys(room.chat_messages).contains(key) {
                let chat = last_lines(room.chat_messages.push(message), CHAT_LIMIT as int);
                assert(after.chat_messages == chat);
                assert(chat[chat.len() - 1] == message);
                assert(chat_keys(chat)[chat.len() - 1] == key);
                assert(after.current_drawer_index == room.current_drawer_index);
                lemma_index_from(names(room.players), message.player_name, 0);
                assert(after.players.len() == room.players.len());
                assert(chain_ids(after.players) =~= chain_ids(room.players));
                assert(after.current_drawer() is Some ==> after.current_drawer().unwrap().chain_id
                    == room.current_drawer().unwrap().chain_id);
                assert(takes_drawer_event(after, ctx, origin));
            }
        } else {
            assert(after == room);
        }
        assert(room_after_event(after, ctx, origin, event) == Ok::<GameRoomView, Rejection>(after));
        assert(once.room == Some(after));
    }
}

/// No event makes a replica follow a log.
pub proof fn law_events_follow_no_log(
    s: DoodleGameStateView,
    ctx: ContextView,
    origin: Seq<char>,
    event: DoodleEventView,
)
    requires
        event_step(s, ctx, origin, event) is Ok,
    ensures
        crate::state::follows_no_log(event_step(s, ctx, origin, event)->Ok_0.actions),
{
}

} // verus!
