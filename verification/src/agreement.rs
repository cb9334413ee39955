//! Agreement between replicas: what the host does to its room, the guests
//! do to theirs when they apply the events that the host has published, and
//! what the drawer does reaches the host and, through the host, the guests.

use vstd::prelude::*;
use crate::chain::canonical_id;
use crate::contract::{message_step, operation_step};
use crate::protocol::{ActionView, ContextView, CrossChainMessageView, DoodleEventView, OperationView};
use crate::room::chain_ids;
use crate::session::choose_word_step;
use crate::state::{send_each, DoodleGameStateView};
use crate::guessing::{chat_line, guess_points, guess_step, guessed_count, guesser_name};
use crate::streams::{chat_keys, event_step, events_step, from_current_drawer};
use crate::text::{lemma_index_from, lemma_index_of_contains};

verus! {

/// The events that a list of actions publishes, in order.
pub open spec fn published(actions: Seq<ActionView>) -> Seq<DoodleEventView>
    decreases actions.len(),
{
    if actions.len() == 0 {
        Seq::empty()
    } else {
        match actions.last() {
            ActionView::Emit { stream, event } => published(actions.drop_last()).push(event),
            _ => published(actions.drop_last()),
        }
    }
}

proof fn lemma_messages_publish_nothing(targets: Seq<Seq<char>>, message: CrossChainMessageView)
    ensures
        published(send_each(targets, message)) == Seq::<DoodleEventView>::empty(),
    decreases targets.len(),
{
    let actions = send_each(targets, message);
    if targets.len() > 0 {
        assert(actions.drop_last() =~= send_each(targets.drop_last(), message));
        lemma_messages_publish_nothing(targets.drop_last(), message);
    }
}

proof fn lemma_published_push(actions: Seq<ActionView>, action: ActionView)
    ensures
        published(actions.push(action)) == match action {
            ActionView::Emit { stream, event } => published(actions).push(event),
            _ => published(actions),
        },
{
    assert(actions.push(action).drop_last() =~= actions);
}

proof fn lemma_published_one(action: ActionView)
    ensures
        published(seq![action]) == match action {
            ActionView::Emit { stream, event } => seq![event],
            _ => Seq::<DoodleEventView>::empty(),
        },
{
    assert(seq![action] =~= Seq::<ActionView>::empty().push(action));
    lemma_published_push(Seq::empty(), action);
    assert(Seq::<DoodleEventView>::empty().push(action->Emit_event) =~= seq![action->Emit_event]);
}

proof fn lemma_published_two(first: ActionView, second: ActionView)
    ensures
        published(seq![first, second]) == match second {
            ActionView::Emit { stream, event } => published(seq![first]).push(event),
            _ => published(seq![first]),
        },
{
    assert(seq![first, second] =~= seq![first].push(second));
    lemma_published_push(seq![first], second);
}

proof fn lemma_events_one(s: DoodleGameStateView, ctx: ContextView, origin: Seq<char>, event: DoodleEventView)
    ensures
        events_step(s, ctx, origin, seq![event]) == match event_step(s, ctx, origin, event) {
            Ok(o) => crate::state::accept(o.state, Seq::empty() + o.actions),
            Err(e) => Err(e),
        },
{
    let events = seq![event];
    assert(events.drop_last() =~= Seq::<DoodleEventView>::empty());
    assert(events_step(s, ctx, origin, events.drop_last()) == crate::state::ignore(s));
}

/// Guests follow the host through a game. A guest that holds the same room
/// as the host, and applies the events that the host publishes when it
/// starts the game or chooses a drawer, holds the same room as the host
/// afterwards: the same drawer, round, phase and scores.
pub proof fn law_guests_follow_the_game(
    host: DoodleGameStateView,
    host_ctx: ContextView,
    guest: DoodleGameStateView,
    guest_ctx: ContextView,
    operation: OperationView,
)
    requires
        host.room is Some,
        host.room.unwrap().players.len() <= usize::MAX,
        guest.room == host.room,
        operation is StartGame || operation is ChooseDrawer,
        operation_step(host, host_ctx, operation) is Ok,
    ensures
        events_step(
            guest,
            guest_ctx,
            host_ctx.chain_id,
            published(operation_step(host, host_ctx, operation)->Ok_0.actions),
        ) is Ok,
        events_step(
            guest,
            guest_ctx,
            host_ctx.chain_id,
            published(operation_step(host, host_ctx, operation)->Ok_0.actions),
        )->Ok_0.state.room == operation_step(host, host_ctx, operation)->Ok_0.state.room,
{
    let room = host.room.unwrap();
    let after = operation_step(host, host_ctx, operation)->Ok_0;
    let origin = host_ctx.chain_id;
    let stream = crate::state::stream_name(room.room_id);
    let ts = crate::session::timestamp_text(host_ctx);
    match operation {
        OperationView::StartGame { rounds, seconds_per_round } => {
            let cancels = send_each(
                crate::chain::reachable(host.sent_invitations),
                CrossChainMessageView::RoomInvitationCancelled { host_chain_id: host_ctx.chain_id },
            );
            lemma_messages_publish_nothing(
                crate::chain::reachable(host.sent_invitations),
                CrossChainMessageView::RoomInvitationCancelled { host_chain_id: host_ctx.chain_id },
            );
            let started = room.started(rounds, seconds_per_round);
            match started.next_drawer() {
                Some(i) => {
                    lemma_index_from(crate::room::statuses(started.players), crate::model::PlayerStatus::Active, 0);
                    let event = DoodleEventView::GameStarted {
                        rounds: rounds,
                        seconds_per_round: seconds_per_round,
                        drawer_index: i as usize,
                        drawer_name: room.players[i].name,
                        timestamp: ts,
                    };
                    let last = ActionView::Emit { stream: stream, event: event };
                    assert(after.actions == cancels.push(last));
                    lemma_published_push(cancels, last);
                    assert(Seq::<DoodleEventView>::empty().push(event) =~= seq![event]);
                    lemma_events_one(guest, guest_ctx, origin, event);
                },
                None => {
                    assert(published(after.actions) =~= Seq::<DoodleEventView>::empty());
                },
            }
        },
        OperationView::ChooseDrawer => {
            let scores = crate::session::score_list(room.players);
            if room.all_drawn() {
                let next = room.advanced();
                if next.game_state == crate::model::GameState::GameEnded {
                    let event = DoodleEventView::GameEnded { final_scores: scores, timestamp: ts };
                    lemma_published_one(ActionView::Emit { stream: stream, event: event });
                    lemma_events_one(guest, guest_ctx, origin, event);
                } else {
                    let i = next.next_drawer().unwrap();
                    let first = DoodleEventView::RoundEnded { scores: scores, timestamp: ts };
                    let second = DoodleEventView::DrawerChosen {
                        drawer_index: i as usize,
                        drawer_name: room.players[i].name,
                        timestamp: ts,
                        previous_blob_hash: None,
                    };
                    lemma_published_one(ActionView::Emit { stream: stream, event: first });
                    lemma_published_two(
                        ActionView::Emit { stream: stream, event: first },
                        ActionView::Emit { stream: stream, event: second },
                    );
                    assert(seq![first].push(second) =~= seq![first, second]);
                    let events = seq![first, second];
                    assert(events.drop_last() =~= seq![first]);
                    lemma_events_one(guest, guest_ctx, origin, first);
                }
            } else {
                let i = room.next_drawer().unwrap();
                let event = DoodleEventView::DrawerChosen {
                    drawer_index: i as usize,
                    drawer_name: room.players[i].name,
                    timestamp: ts,
                    previous_blob_hash: None,
                };
                lemma_published_one(ActionView::Emit { stream: stream, event: event });
                lemma_events_one(guest, guest_ctx, origin, event);
            }
        },
        _ => {},
    }
}

/// Guests follow the host through departures and arrivals. A guest that
/// holds the same room as the host, and applies the event that the host
/// publishes when a player has left, or when a player has joined whom the
/// room did not know, holds the same room as the host afterwards.
pub proof fn law_guests_follow_the_roster(
    host: DoodleGameStateView,
    host_ctx: ContextView,
    guest: DoodleGameStateView,
    guest_ctx: ContextView,
    message: CrossChainMessageView,
)
    requires
        host.room is Some,
        guest.room == host.room,
        match message {
            CrossChainMessageView::PlayerLeft { .. } => true,
            CrossChainMessageView::JoinRequest { player_chain_id, .. } => canonical_id(player_chain_id) is Some
                && !chain_ids(host.room.unwrap().players).contains(canonical_id(player_chain_id).unwrap()),
            _ => false,
        },
        message_step(host, host_ctx, message) is Ok,
    ensures
        events_step(
            guest,
            guest_ctx,
            host_ctx.chain_id,
            published(message_step(host, host_ctx, message)->Ok_0.actions),
        ) is Ok,
        events_step(
            guest,
            guest_ctx,
            host_ctx.chain_id,
            published(message_step(host, host_ctx, message)->Ok_0.actions),
        )->Ok_0.state.room == message_step(host, host_ctx, message)->Ok_0.state.room,
{
    let room = host.room.unwrap();
    let after = message_step(host, host_ctx, message)->Ok_0;
    let origin = host_ctx.chain_id;
    let stream = crate::state::stream_name(room.room_id);
    match message {
        CrossChainMessageView::PlayerLeft { player_chain_id, player_name, timestamp } => {
            let c = canonical_id(player_chain_id).unwrap();
            let event = DoodleEventView::PlayerLeft { player_chain_id: c, timestamp: timestamp };
            let actions = seq![
                ActionView::Unsubscribe { chain_id: c, stream: stream },
                ActionView::Emit { stream: stream, event: event },
            ];
            assert(after.actions == actions);
            lemma_published_one(ActionView::Unsubscribe { chain_id: c, stream: stream });
            lemma_published_two(
                ActionView::Unsubscribe { chain_id: c, stream: stream },
                ActionView::Emit { stream: stream, event: event },
            );
            assert(Seq::<DoodleEventView>::empty().push(event) =~= seq![event]);
            lemma_events_one(guest, guest_ctx, origin, event);
        },
        CrossChainMessageView::JoinRequest { player_chain_id, player_name, avatar_json } => {
            let c = canonical_id(player_chain_id).unwrap();
            let player = crate::inbox::joining_player(c, player_name, avatar_json);
            let joined = room.with_player(player);
            let event = DoodleEventView::PlayerJoined {
                player: player,
                timestamp: crate::session::timestamp_text(host_ctx),
            };
            let sync = ActionView::SendMessage {
                target: c,
                message: CrossChainMessageView::InitialStateSync { room_data: joined },
            };
            let emit = ActionView::Emit { stream: stream, event: event };
            let tail = seq![sync, emit];
            lemma_published_one(sync);
            lemma_published_two(sync, emit);
            assert(Seq::<DoodleEventView>::empty().push(event) =~= seq![event]);
            if room.host_chain_id == host_ctx.chain_id {
                let subscribe = ActionView::Subscribe { chain_id: c, stream: stream };
                let all = seq![subscribe] + tail;
                assert(all =~= seq![subscribe, sync].push(emit));
                lemma_published_one(subscribe);
                lemma_published_two(subscribe, sync);
                lemma_published_push(seq![subscribe, sync], emit);
            }
            lemma_index_of_contains(chain_ids(room.players), c);
            lemma_events_one(guest, guest_ctx, origin, event);
        },
        _ => {},
    }
}

/// The host follows the drawer. A host that holds the same room as the
/// drawer, and applies the event that the drawer publishes when it chooses
/// a word, holds the same room as the drawer afterwards, and publishes the
/// event again for the guests. The word itself does not reach the host.
pub proof fn law_host_follows_the_drawer(
    drawer: DoodleGameStateView,
    drawer_ctx: ContextView,
    host: DoodleGameStateView,
    host_ctx: ContextView,
    word: Seq<char>,
)
    requires
        drawer.room is Some,
        host.room == drawer.room,
        host.room.unwrap().host_chain_id == host_ctx.chain_id,
        choose_word_step(drawer, drawer_ctx, word) is Ok,
    ensures
        published(choose_word_step(drawer, drawer_ctx, word)->Ok_0.actions).len() == 1,
        event_step(
            host,
            host_ctx,
            drawer_ctx.chain_id,
            published(choose_word_step(drawer, drawer_ctx, word)->Ok_0.actions)[0],
        ) is Ok,
        ({
            let event = published(choose_word_step(drawer, drawer_ctx, word)->Ok_0.actions)[0];
            let after = event_step(host, host_ctx, drawer_ctx.chain_id, event)->Ok_0;
            &&& after.state.room == choose_word_step(drawer, drawer_ctx, word)->Ok_0.state.room
            &&& after.state.current_word == host.current_word
            &&& published(after.actions) == seq![event]
        }),
{
    let room = drawer.room.unwrap();
    let stream = crate::state::stream_name(room.room_id);
    let event = DoodleEventView::WordChosen { timestamp: crate::session::timestamp_text(drawer_ctx) };
    lemma_published_one(ActionView::Emit { stream: stream, event: event });
    lemma_published_one(ActionView::Emit { stream: crate::state::stream_name(host.room.unwrap().room_id), event: event });
}

/// Guests follow the drawer through the host. When the drawer has chosen a
/// word, the host, which holds the same room, takes the event from the
/// drawer's log and publishes it again; a guest that holds the same room
/// and is neither the host nor the drawer takes it from the host's log and
/// holds the same room as the drawer afterwards.
pub proof fn law_guests_follow_the_drawer(
    drawer: DoodleGameStateView,
    drawer_ctx: ContextView,
    host: DoodleGameStateView,
    host_ctx: ContextView,
    guest: DoodleGameStateView,
    guest_ctx: ContextView,
    word: Seq<char>,
)
    requires
        drawer.room is Some,
        host.room == drawer.room,
        guest.room == drawer.room,
        drawer.room.unwrap().host_chain_id == host_ctx.chain_id,
        guest_ctx.chain_id != host_ctx.chain_id,
        guest_ctx.chain_id != drawer_ctx.chain_id,
        choose_word_step(drawer, drawer_ctx, word) is Ok,
    ensures
        ({
            let event = DoodleEventView::WordChosen { timestamp: crate::session::timestamp_text(drawer_ctx) };
            let relay = event_step(host, host_ctx, drawer_ctx.chain_id, event);
            let taken = event_step(guest, guest_ctx, host_ctx.chain_id, event);
            &&& published(choose_word_step(drawer, drawer_ctx, word)->Ok_0.actions) == seq![event]
            &&& relay is Ok
            &&& published(relay->Ok_0.actions) == seq![event]
            &&& taken is Ok
            &&& taken->Ok_0.state.room == choose_word_step(drawer, drawer_ctx, word)->Ok_0.state.room
            &&& taken->Ok_0.actions == Seq::<ActionView>::empty()
        }),
{
    let room = drawer.room.unwrap();
    let stream = crate::state::stream_name(room.room_id);
    let event = DoodleEventView::WordChosen { timestamp: crate::session::timestamp_text(drawer_ctx) };
    lemma_published_one(ActionView::Emit { stream: stream, event: event });
}

/// Replicas follow a guess. When the drawer's replica has made a chat line
/// of a guess, the host, which holds the same room, takes the line from the
/// drawer's log, applies it and publishes it again; a guest that holds the
/// same room and is neither the host nor the drawer takes it from the
/// host's log. Afterwards all three hold the same room: the same chat, the
/// same scores and guess flags. This is stated for a line that the chat
/// does not hold yet: a replica takes a line of the same player and text
/// once only.
pub proof fn law_replicas_follow_a_guess(
    drawer: DoodleGameStateView,
    drawer_ctx: ContextView,
    host: DoodleGameStateView,
    host_ctx: ContextView,
    guest: DoodleGameStateView,
    guest_ctx: ContextView,
    guesser_chain_id: Seq<char>,
    guess: Seq<char>,
    round: u32,
    is_correct: bool,
)
    requires
        drawer.room is Some,
        host.room == drawer.room,
        guest.room == drawer.room,
        drawer.room.unwrap().host_chain_id == host_ctx.chain_id,
        from_current_drawer(drawer.room.unwrap(), drawer_ctx.chain_id),
        guest_ctx.chain_id != host_ctx.chain_id,
        guest_ctx.chain_id != drawer_ctx.chain_id,
        guess_step(drawer, guesser_chain_id, guess, round, is_correct) is Ok,
        guess_step(drawer, guesser_chain_id, guess, round, is_correct)->Ok_0.actions.len() == 1,
        !chat_keys(drawer.room.unwrap().chat_messages).contains(
            (
                guesser_name(drawer.room.unwrap().players, canonical_id(guesser_chain_id).unwrap()),
                chat_line(
                    guesser_name(drawer.room.unwrap().players, canonical_id(guesser_chain_id).unwrap()),
                    guess,
                    is_correct,
                    if is_correct {
                        guess_points(guessed_count(drawer.room.unwrap().players))
                    } else {
                        0
                    },
                ).message,
            ),
        ),
    ensures
        ({
            let after = guess_step(drawer, guesser_chain_id, guess, round, is_correct)->Ok_0;
            &&& published(after.actions).len() == 1
            &&& ({
                let event = published(after.actions)[0];
                let relay = event_step(host, host_ctx, drawer_ctx.chain_id, event);
                let taken = event_step(guest, guest_ctx, host_ctx.chain_id, event);
                &&& relay is Ok
                &&& relay->Ok_0.state.room == after.state.room
                &&& published(relay->Ok_0.actions) == seq![event]
                &&& taken is Ok
                &&& taken->Ok_0.state.room == after.state.room
            })
        }),
{
    let room = drawer.room.unwrap();
    let stream = crate::state::stream_name(room.room_id);
    let name = guesser_name(room.players, canonical_id(guesser_chain_id).unwrap());
    let points = if is_correct {
        guess_points(guessed_count(room.players))
    } else {
        0
    };
    let line = chat_line(name, guess, is_correct, points);
    let event = DoodleEventView::ChatMessage { message: line };
    lemma_published_one(ActionView::Emit { stream: stream, event: event });
}

/// The drawer does not take up its own events again. On a replica that is
/// the current drawer and not the host, an event of the word or the chat
/// that comes back on the host's log changes nothing and sends nothing.
pub proof fn law_drawer_skips_its_own_events(
    s: DoodleGameStateView,
    ctx: ContextView,
    origin: Seq<char>,
    event: DoodleEventView,
)
    requires
        s.room is Some,
        s.room.unwrap().host_chain_id != ctx.chain_id,
        from_current_drawer(s.room.unwrap(), ctx.chain_id),
        event is WordChosen || event is ChatMessage,
    ensures
        event_step(s, ctx, origin, event) == crate::state::ignore(s),
{
}

} // verus!
