//! Drawer rotation over the statuses of a roster, and what holds of it.
//!
//! The turn to draw walks the roster in its order and skips players who
//! left. The rank of a player is the number of `Active` players before it;
//! each choice of a drawer moves the rank on by one, modulo the number of
//! `Active` players.

use vstd::prelude::*;
use crate::model::{GameRoomView, PlayerStatus, PlayerView};
use crate::room::{statuses, without_guesses};
use crate::text::{index_from, index_of, lemma_index_from};

verus! {

/// Index of the first `Active` status.
pub open spec fn first_active_in(s: Seq<PlayerStatus>) -> Option<int> {
    index_of(s, PlayerStatus::Active)
}

/// Index of the next `Active` status strictly after `current`, wrapping
/// round at the end.
pub open spec fn next_active_in(s: Seq<PlayerStatus>, current: int) -> Option<int> {
    let n = s.len() as int;
    if n == 0 {
        None
    } else {
        match index_from(s, PlayerStatus::Active, current % n + 1) {
            Some(i) => Some(i),
            None => first_active_in(s),
        }
    }
}

/// Number of `Active` statuses before index `upto`.
pub open spec fn active_before(s: Seq<PlayerStatus>, upto: int) -> nat
    decreases upto,
{
    if upto <= 0 {
        0
    } else if upto <= s.len() && s[upto - 1] == PlayerStatus::Active {
        active_before(s, upto - 1) + 1
    } else {
        active_before(s, upto - 1)
    }
}

/// Number of `Active` statuses.
pub open spec fn active_count(s: Seq<PlayerStatus>) -> nat {
    active_before(s, s.len() as int)
}

/// The room after one choice of a drawer for each of `timestamps`, in order.
pub open spec fn after_choices(room: GameRoomView, timestamps: Seq<Seq<char>>) -> GameRoomView
    decreases timestamps.len(),
{
    if timestamps.len() == 0 {
        room
    } else {
        after_choices(room, timestamps.drop_last()).drawer_chosen(timestamps.last())
    }
}

proof fn lemma_active_before_monotone(s: Seq<PlayerStatus>, a: int, b: int)
    requires
        a <= b,
    ensures
        active_before(s, a) <= active_before(s, b),
    decreases b - a,
{
    if a < b {
        lemma_active_before_monotone(s, a, b - 1);
    }
}

proof fn lemma_no_active_between(s: Seq<PlayerStatus>, a: int, b: int)
    requires
        0 <= a <= b <= s.len(),
        forall|j: int| a <= j < b ==> #[trigger] s[j] != PlayerStatus::Active,
    ensures
        active_before(s, a) == active_before(s, b),
    decreases b - a,
{
    if a < b {
        lemma_no_active_between(s, a, b - 1);
    }
}

proof fn lemma_rank_below_count(s: Seq<PlayerStatus>, i: int)
    requires
        0 <= i < s.len(),
        s[i] == PlayerStatus::Active,
    ensures
        active_before(s, i) < active_count(s),
{
    lemma_active_before_monotone(s, i + 1, s.len() as int);
}

/// Two `Active` players with the same rank are the same player.
pub proof fn law_rank_names_one_player(s: Seq<PlayerStatus>, i: int, j: int)
    requires
        0 <= i < s.len(),
        0 <= j < s.len(),
        s[i] == PlayerStatus::Active,
        s[j] == PlayerStatus::Active,
        active_before(s, i) == active_before(s, j),
    ensures
        i == j,
{
    if i < j {
        lemma_active_before_monotone(s, i + 1, j);
    } else if j < i {
        lemma_active_before_monotone(s, j + 1, i);
    }
}

/// With an `Active` player in the roster, the first drawer of a rotation is
/// the `Active` player of rank 0.
pub proof fn law_first_drawer(s: Seq<PlayerStatus>)
    requires
        active_count(s) >= 1,
    ensures
        first_active_in(s) is Some,
        0 <= first_active_in(s).unwrap() < s.len(),
        s[first_active_in(s).unwrap()] == PlayerStatus::Active,
        active_before(s, first_active_in(s).unwrap()) == 0,
{
    lemma_index_from(s, PlayerStatus::Active, 0);
    match first_active_in(s) {
        Some(i) => {
            lemma_no_active_between(s, 0, i);
        },
        None => {
            lemma_no_active_between(s, 0, s.len() as int);
        },
    }
}

/// After an `Active` drawer the turn goes to the `Active` player whose rank
/// is one higher, and from the last rank back to rank 0.
pub proof fn law_next_drawer(s: Seq<PlayerStatus>, current: int)
    requires
        0 <= current < s.len(),
        s[current] == PlayerStatus::Active,
    ensures
        next_active_in(s, current) is Some,
        0 <= next_active_in(s, current).unwrap() < s.len(),
        s[next_active_in(s, current).unwrap()] == PlayerStatus::Active,
        active_before(s, next_active_in(s, current).unwrap()) == (active_before(s, current) + 1) % active_count(s),
{
    let n = s.len() as int;
    let k = active_count(s) as int;
    let rank = active_before(s, current) as int;
    assert(current % n == current) by (nonlinear_arith)
        requires
            0 <= current < n,
    ;
    lemma_rank_below_count(s, current);
    lemma_index_from(s, PlayerStatus::Active, current + 1);
    match index_from(s, PlayerStatus::Active, current + 1) {
        Some(i) => {
            lemma_no_active_between(s, current + 1, i);
            lemma_rank_below_count(s, i);
            assert((rank + 1) % k == rank + 1) by (nonlinear_arith)
                requires
                    0 <= rank + 1 < k,
            ;
        },
        None => {
            lemma_no_active_between(s, current + 1, n);
            assert(rank + 1 == k);
            assert(k % k == 0) by (nonlinear_arith)
                requires
                    k > 0,
            ;
            law_first_drawer(s);
        },
    }
}

proof fn lemma_statuses_without_guesses(players: Seq<PlayerView>)
    ensures
        statuses(without_guesses(players)) == statuses(players),
{
    assert(statuses(without_guesses(players)) =~= statuses(players));
}

proof fn lemma_mod_step(a: int, k: int)
    requires
        0 <= a,
        0 < k,
    ensures
        (a % k + 1) % k == (a + 1) % k,
{
    vstd::arithmetic::div_mod::lemma_add_mod_noop(a, 1, k);
    vstd::arithmetic::div_mod::lemma_small_mod(1, 2);
    if k == 1 {
        assert(a % k == 0) by (nonlinear_arith)
            requires
                k == 1,
        ;
        assert((a + 1) % k == 0) by (nonlinear_arith)
            requires
                k == 1,
        ;
        assert(1int % k == 0) by (nonlinear_arith)
            requires
                k == 1,
        ;
    } else {
        assert(1int % k == 1) by (nonlinear_arith)
            requires
                k > 1,
        ;
    }
}

/// Rotation. In a room with an `Active` player and no drawer yet,
/// consecutive choices of a drawer leave the statuses alone and make the
/// `m`-th choice fall on the `Active` player of rank `(m - 1) mod k`, where
/// `k` is the number of `Active` players. So the turn visits the `Active`
/// players in roster order, each once in `k` choices, whichever players in
/// between have left.
pub proof fn law_rotation(room: GameRoomView, timestamps: Seq<Seq<char>>)
    requires
        room.players.len() <= usize::MAX,
        room.current_drawer_index is None,
        active_count(statuses(room.players)) >= 1,
        timestamps.len() >= 1,
    ensures
        statuses(after_choices(room, timestamps).players) == statuses(room.players),
        after_choices(room, timestamps).current_drawer_index is Some,
        after_choices(room, timestamps).current_drawer_index.unwrap() < room.players.len(),
        room.players[after_choices(room, timestamps).current_drawer_index.unwrap() as int].status
            == PlayerStatus::Active,
        active_before(
            statuses(room.players),
            after_choices(room, timestamps).current_drawer_index.unwrap() as int,
        ) == (timestamps.len() - 1) % (active_count(statuses(room.players)) as int),
    decreases timestamps.len(),
{
    let s = statuses(room.players);
    let k = active_count(s) as int;
    let before = after_choices(room, timestamps.drop_last());
    if timestamps.len() == 1 {
        assert(timestamps.drop_last().len() == 0);
        assert(before == room);
        law_first_drawer(s);
        lemma_statuses_without_guesses(room.players);
        assert(0int % k == 0) by (nonlinear_arith)
            requires
                k > 0,
        ;
    } else {
        law_rotation(room, timestamps.drop_last());
        let c = before.current_drawer_index.unwrap() as int;
        assert(s[c] == room.players[c].status);
        law_next_drawer(s, c);
        lemma_statuses_without_guesses(before.players);
        lemma_mod_step(timestamps.len() - 2, k);
    }
}

/// A round is complete exactly when every `Active` player has drawn once.
/// In a room with an `Active` player and no drawer yet, after `m` choices of
/// a drawer the room reports that all players have drawn if and only if `m`
/// is a multiple of the number of `Active` players: for the first time
/// after each of them has had one turn.
pub proof fn law_round_complete(room: GameRoomView, timestamps: Seq<Seq<char>>)
    requires
        room.players.len() <= usize::MAX,
        room.current_drawer_index is None,
        active_count(statuses(room.players)) >= 1,
        timestamps.len() >= 1,
    ensures
        after_choices(room, timestamps).all_drawn() <==> timestamps.len() % active_count(
            statuses(room.players),
        ) == 0,
{
    let s = statuses(room.players);
    let k = active_count(s) as int;
    let m = timestamps.len() as int;
    let after = after_choices(room, timestamps);
    law_rotation(room, timestamps);
    let c = after.current_drawer_index.unwrap() as int;
    assert(s[c] == room.players[c].status);
    law_next_drawer(s, c);
    law_first_drawer(s);
    lemma_mod_step(m - 1, k);
    let next = next_active_in(s, c).unwrap();
    let first = first_active_in(s).unwrap();
    if active_before(s, next) == 0 {
        law_rank_names_one_player(s, next, first);
    }
}

/// A room without an `Active` player never reports a complete round.
pub proof fn law_empty_room_never_complete(room: GameRoomView)
    requires
        active_count(statuses(room.players)) == 0,
    ensures
        !room.all_drawn(),
{
    let s = statuses(room.players);
    lemma_index_from(s, PlayerStatus::Active, 0);
    if first_active_in(s) is Some {
        lemma_rank_below_count(s, first_active_in(s).unwrap());
    }
}

} // verus!
