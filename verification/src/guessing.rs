//! Guesses and their scores, on the replica of the drawer, which holds the
//! word.

use vstd::prelude::*;
use crate::chain::{canonical_id, parse_chain_id};
use crate::model::{ChatMessage, ChatMessageView, Player, PlayerView};
use crate::protocol::{Action, ActionView, DoodleEvent, DoodleEventView, Rejection};
use crate::room::{chain_ids, names, position_by_chain_id, position_by_name};
use crate::state::{
    accept, handled, ignore, no_actions, one_action, stream_name, stream_of, DoodleGameState,
    DoodleGameStateView, Step,
};
use crate::text::{
    decimal_string, decimal_text, index_of, lemma_index_from, lemma_index_of_contains, lowercase_string,
    lowercase_text, views_of,
};

verus! {

/// Points for a correct guess when `already` players have guessed the
/// word before: 100 for the first, 10 less for each one before, never less
/// than 10.
pub open spec fn guess_points(already: nat) -> u32 {
    if already >= 9 {
        10
    } else {
        (100 - 10 * already) as u32
    }
}

/// Number of players who have guessed the word.
pub open spec fn guessed_count(players: Seq<PlayerView>) -> nat
    decreases players.len(),
{
    if players.len() == 0 {
        0
    } else {
        guessed_count(players.drop_last()) + if players.last().has_guessed {
            1nat
        } else {
            0nat
        }
    }
}

/// Name and guess flag of each player, in roster order.
pub open spec fn guess_flags(players: Seq<PlayerView>) -> Seq<(Seq<char>, bool)> {
    players.map_values(|p: PlayerView| (p.name, p.has_guessed))
}

/// Whether a player named `name` has guessed the word.
pub open spec fn already_guessed(players: Seq<PlayerView>, name: Seq<char>) -> bool {
    guess_flags(players).contains((name, true))
}

/// The name under which a guess of the replica `chain_id` is shown: the
/// player's name, or a name made from the identifier for a replica that is
/// not in the roster.
pub open spec fn guesser_name(players: Seq<PlayerView>, chain_id: Seq<char>) -> Seq<char> {
    match index_of(chain_ids(players), chain_id) {
        Some(i) => players[i].name,
        None => "Player_"@ + chain_id,
    }
}

/// The chat text that stands for a correct guess; the guess itself is not
/// shown.
pub open spec fn correct_notice(points: u32) -> Seq<char> {
    "[Correct! +"@ + decimal_text(points as nat) + " points]"@
}

/// The chat line of a guess.
pub open spec fn chat_line(name: Seq<char>, guess: Seq<char>, is_correct: bool, points: u32) -> ChatMessageView {
    ChatMessageView {
        player_name: name,
        message: if is_correct {
            correct_notice(points)
        } else {
            guess
        },
        is_correct_guess: is_correct,
        points_awarded: points,
    }
}

/// What the drawer's replica makes of a guess that is known to be correct
/// or not. A guess for another round, or from a player who has guessed the
/// word already, changes nothing. Otherwise the guess becomes a chat line,
/// a correct guess earns its points and marks the player, and the line goes
/// out on the log.
pub open spec fn guess_step(
    s: DoodleGameStateView,
    guesser_chain_id: Seq<char>,
    guess: Seq<char>,
    round: u32,
    is_correct: bool,
) -> Step {
    match s.room {
        None => ignore(s),
        Some(room) => if s.current_word is None || room.current_round != round {
            ignore(s)
        } else {
            match canonical_id(guesser_chain_id) {
                None => Err(Rejection::InvalidChainId),
                Some(c) => {
                    let name = guesser_name(room.players, c);
                    if already_guessed(room.players, name) {
                        ignore(s)
                    } else {
                        let points = if is_correct {
                            guess_points(guessed_count(room.players))
                        } else {
                            0
                        };
                        let line = chat_line(name, guess, is_correct, points);
                        let chatted = room.with_chat(line);
                        if is_correct && !chatted.can_award(name, points) {
                            Err(Rejection::ScoreOverflow)
                        } else {
                            accept(
                                DoodleGameStateView {
                                    room: Some(
                                        if is_correct {
                                            chatted.awarded(name, points)
                                        } else {
                                            chatted
                                        },
                                    ),
                                    ..s
                                },
                                seq![
                                    ActionView::Emit {
                                        stream: stream_name(room.room_id),
                                        event: DoodleEventView::ChatMessage { message: line },
                                    },
                                ],
                            )
                        }
                    }
                },
            }
        },
    }
}

/// Whether a guess is the word. Case does not matter.
pub open spec fn guess_matches(word: Option<Seq<char>>, guess: Seq<char>) -> bool {
    match word {
        Some(w) => lowercase_text(w) == lowercase_text(guess),
        None => false,
    }
}

/// What the drawer's replica makes of a guess.
pub open spec fn guess_submission_step(
    s: DoodleGameStateView,
    guesser_chain_id: Seq<char>,
    guess: Seq<char>,
    round: u32,
) -> Step {
    guess_step(s, guesser_chain_id, guess, round, guess_matches(s.current_word, guess))
}

/// Points for a correct guess when `already` players have guessed before.
pub fn points_for_guess(already: usize) -> (r: u32)
    ensures
        r == guess_points(already as nat),
{
    if already >= 9 {
        10
    } else {
        100 - 10 * (already as u32)
    }
}

/// Number of players who have guessed the word.
pub fn count_guessed(players: &Vec<Player>) -> (r: usize)
    ensures
        r == guessed_count(views_of(players@)),
{
    let ghost all = views_of(players@);
    let mut count: usize = 0;
    let mut i: usize = 0;
    assert(all.take(0) =~= Seq::empty());
    while i < players.len()
        invariant
            i <= players.len(),
            count <= i,
            all == views_of(players@),
            count == guessed_count(all.take(i as int)),
        decreases players.len() - i,
    {
        proof {
            assert(all.take(i as int + 1).drop_last() =~= all.take(i as int));
            assert(all.take(i as int + 1).last() == players@[i as int]@);
        }
        if players[i].has_guessed {
            count += 1;
        }
        i += 1;
    }
    assert(all.take(players.len() as int) =~= all);
    count
}

/// Whether a player named `name` has guessed the word.
pub fn has_guessed_named(players: &Vec<Player>, name: &String) -> (r: bool)
    ensures
        r == already_guessed(views_of(players@), name@),
{
    let ghost keys = guess_flags(views_of(players@));
    let mut i: usize = 0;
    while i < players.len()
        invariant
            keys == guess_flags(views_of(players@)),
            forall|j: int| 0 <= j < i && j < players.len() ==> #[trigger] keys[j] != (name@, true),
        decreases players.len() - i,
    {
        assert(keys[i as int] == (players@[i as int].name@, players@[i as int].has_guessed));
        if players[i].name == *name && players[i].has_guessed {
            return true;
        }
        i += 1;
    }
    false
}

/// Applies a guess that is known to be correct or not.
pub fn apply_guess(
    state: &mut DoodleGameState,
    guesser_chain_id: String,
    guess: String,
    round: u32,
    is_correct: bool,
) -> (r: Result<Vec<Action>, Rejection>)
    ensures
        handled(old(state)@, final(state)@, r, guess_step(old(state)@, guesser_chain_id@, guess@, round, is_correct)),
{
    let mut room = match &state.room {
        None => {
            return Ok(no_actions());
        },
        Some(room) => room.clone(),
    };
    if state.current_word.is_none() || room.current_round != round {
        return Ok(no_actions());
    }
    let id = match parse_chain_id(guesser_chain_id.as_str()) {
        None => {
            return Err(Rejection::InvalidChainId);
        },
        Some(c) => c,
    };
    let name = match position_by_chain_id(&room.players, &id) {
        Some(i) => room.players[i].name.clone(),
        None => String::from_str("Player_").concat(id.as_str()),
    };
    if has_guessed_named(&room.players, &name) {
        return Ok(no_actions());
    }
    let points = if is_correct {
        points_for_guess(count_guessed(&room.players))
    } else {
        0
    };
    let line = ChatMessage {
        player_name: name.clone(),
        message: if is_correct {
            String::from_str("[Correct! +").concat(decimal_string(points as u128).as_str()).concat(" points]")
        } else {
            guess
        },
        is_correct_guess: is_correct,
        points_awarded: points,
    };
    room.add_chat_message(line.clone());
    if is_correct {
        match position_by_name(&room.players, &name) {
            Some(i) => {
                if room.players[i].score > u32::MAX - points {
                    return Err(Rejection::ScoreOverflow);
                }
            },
            None => {},
        }
        room.award_points(name.as_str(), points);
    }
    let action = Action::Emit { stream: stream_of(&room.room_id), event: DoodleEvent::ChatMessage { message: line } };
    state.room = Some(room);
    Ok(one_action(action))
}

/// Handles a guess on the replica of the drawer: compares it with the word,
/// whatever the case of the letters, and applies it.
pub fn receive_guess_submission(state: &mut DoodleGameState, guesser_chain_id: String, guess: String, round: u32) -> (r:
    Result<Vec<Action>, Rejection>)
    ensures
        handled(old(state)@, final(state)@, r, guess_submission_step(old(state)@, guesser_chain_id@, guess@, round)),
{
    let is_correct = match &state.current_word {
        Some(word) => lowercase_string(word.as_str()) == lowercase_string(guess.as_str()),
        None => false,
    };
    apply_guess(state, guesser_chain_id, guess, round, is_correct)
}

/// Scoring. The first correct guess of a turn earns 100 points, each later
/// one 10 points less than the one before, and none less than 10.
pub proof fn law_guess_points(already: nat)
    ensures
        guess_points(0) == 100,
        guess_points(already) >= 10,
        already < 9 ==> guess_points(already) == guess_points(already + 1) + 10,
        already >= 9 ==> guess_points(already) == 10,
        guess_points(already) == if 100 - 10 * already > 10 {
            100 - 10 * already
        } else {
            10
        },
{
}

/// A wrong guess earns nothing: the chat line carries no points, and the
/// roster, with its scores and guess flags, stays as it was.
pub proof fn law_wrong_guess_scores_nothing(
    s: DoodleGameStateView,
    guesser_chain_id: Seq<char>,
    guess: Seq<char>,
    round: u32,
)
    requires
        s.room is Some,
    ensures
        match guess_step(s, guesser_chain_id, guess, round, false) {
            Ok(o) => o.state.room is Some && o.state.room.unwrap().players == s.room.unwrap().players && forall|
                i: int,
            |
                0 <= i < o.actions.len() ==> match #[trigger] o.actions[i] {
                    ActionView::Emit { event: DoodleEventView::ChatMessage { message }, .. } => message.points_awarded
                        == 0 && !message.is_correct_guess,
                    _ => true,
                },
            Err(e) => e == Rejection::InvalidChainId,
        },
{
}

/// No player scores twice in one turn: once a correct guess of a player of
/// the roster has been applied, any further guess of that player for the
/// same round changes nothing and sends nothing.
pub proof fn law_no_second_score(
    s: DoodleGameStateView,
    guesser_chain_id: Seq<char>,
    first_guess: Seq<char>,
    second_guess: Seq<char>,
    round: u32,
    second_is_correct: bool,
)
    requires
        s.room is Some,
        s.current_word is Some,
        s.room.unwrap().current_round == round,
        canonical_id(guesser_chain_id) is Some,
        index_of(chain_ids(s.room.unwrap().players), canonical_id(guesser_chain_id).unwrap()) is Some,
        !already_guessed(
            s.room.unwrap().players,
            guesser_name(s.room.unwrap().players, canonical_id(guesser_chain_id).unwrap()),
        ),
        guess_step(s, guesser_chain_id, first_guess, round, true) is Ok,
    ensures
        guess_step(
            guess_step(s, guesser_chain_id, first_guess, round, true)->Ok_0.state,
            guesser_chain_id,
            second_guess,
            round,
            second_is_correct,
        ) == ignore(guess_step(s, guesser_chain_id, first_guess, round, true)->Ok_0.state),
{
    let room = s.room.unwrap();
    let c = canonical_id(guesser_chain_id).unwrap();
    let name = guesser_name(room.players, c);
    let after = guess_step(s, guesser_chain_id, first_guess, round, true)->Ok_0.state;
    let room2 = after.room.unwrap();
    lemma_index_from(chain_ids(room.players), c, 0);
    let who = index_of(chain_ids(room.players), c).unwrap();
    assert(names(room.players)[who] == name);
    lemma_index_of_contains(names(room.players), name);
    lemma_index_from(names(room.players), name, 0);
    let i = index_of(names(room.players), name).unwrap();
    assert(chain_ids(room2.players) =~= chain_ids(room.players));
    assert(room2.players[i].name == name);
    assert(guess_flags(room2.players)[i] == (name, true));
}

/// A correct guess is not shown. The chat line of a correct guess, and with
/// it everything that leaves the drawer's replica, is the same whatever the
/// text of the guess was; what the drawer's replica makes of a guess
/// depends on the word only through the verdict.
pub proof fn law_correct_guess_is_not_shown(
    s: DoodleGameStateView,
    guesser_chain_id: Seq<char>,
    guess: Seq<char>,
    other: Seq<char>,
    round: u32,
)
    ensures
        guess_step(s, guesser_chain_id, guess, round, true) == guess_step(s, guesser_chain_id, other, round, true),
{
}

} // verus!
