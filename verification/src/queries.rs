//! Read-only projections of a replica's state, as a client asks for them.

use vstd::prelude::*;
use crate::guessing::{already_guessed, has_guessed_named};
use crate::model::{ChatMessage, ChatMessageView, GameState, Player, PlayerView};
use crate::ranking::{rank_indices, rank_order, ranked_by};
use crate::room::{names, position_by_name};
use crate::state::{DoodleGameState, DoodleGameStateView};
use crate::text::{clone_opt_string, index_of, opt_view, views_of};

verus! {

/// How far a game has come.
#[derive(Debug, Clone, PartialEq, Eq)]
pub struct GameProgress {
    pub current_round: u32,
    pub total_rounds: u32,
    pub seconds_per_round: u32,
    pub word_chosen_at: Option<String>,
}

/// Mathematical value of a [`GameProgress`].
pub struct GameProgressView {
    pub current_round: u32,
    pub total_rounds: u32,
    pub seconds_per_round: u32,
    pub word_chosen_at: Option<Seq<char>>,
}

impl View for GameProgress {
    type V = GameProgressView;

    open spec fn view(&self) -> GameProgressView {
        GameProgressView {
            current_round: self.current_round,
            total_rounds: self.total_rounds,
            seconds_per_round: self.seconds_per_round,
            word_chosen_at: opt_view(self.word_chosen_at),
        }
    }
}

/// The scores of a roster, in order.
pub open spec fn player_scores(players: Seq<PlayerView>) -> Seq<u64> {
    players.map_values(|p: PlayerView| p.score as u64)
}

impl DoodleGameStateView {
    /// The roster of the room; empty without a room.
    pub open spec fn players(self) -> Seq<PlayerView> {
        match self.room {
            Some(room) => room.players,
            None => Seq::empty(),
        }
    }

    /// The roster in descending order of score; players of equal score keep
    /// their roster order.
    pub open spec fn standings(self) -> Seq<PlayerView> {
        ranked_by(self.players(), player_scores(self.players()))
    }

    /// The current drawer of the room.
    pub open spec fn drawer(self) -> Option<PlayerView> {
        match self.room {
            Some(room) => room.current_drawer(),
            None => None,
        }
    }

    /// The score of the first player named `name`; 0 where nobody has that
    /// name.
    pub open spec fn score_of(self, name: Seq<char>) -> u32 {
        match index_of(names(self.players()), name) {
            Some(i) => self.players()[i].score,
            None => 0,
        }
    }
}

impl DoodleGameState {
    /// The players of the room; none without a room.
    pub fn players(&self) -> (r: Vec<Player>)
        ensures
            views_of(r@) == self@.players(),
    {
        match &self.room {
            Some(room) => {
                let r = room.players.clone();
                assert(r@ =~= room.players@);
                r
            },
            None => {
                let r: Vec<Player> = Vec::new();
                assert(views_of(r@) =~= Seq::<PlayerView>::empty());
                r
            },
        }
    }

    /// The phase of the game.
    pub fn game_state(&self) -> (r: Option<GameState>)
        ensures
            r == match self@.room {
                Some(room) => Some(room.game_state),
                None => None,
            },
    {
        match &self.room {
            Some(room) => Some(room.game_state),
            None => None,
        }
    }

    /// The player whose turn it is to draw.
    pub fn current_drawer(&self) -> (r: Option<Player>)
        ensures
            opt_view(r) == self@.drawer(),
    {
        match &self.room {
            Some(room) => match room.get_current_drawer() {
                Some(drawer) => Some(drawer.clone()),
                None => None,
            },
            None => None,
        }
    }

    /// The players of the room in descending order of score.
    pub fn leaderboard(&self) -> (r: Vec<Player>)
        ensures
            views_of(r@) == self@.standings(),
    {
        let players = self.players();
        let mut scores: Vec<u64> = Vec::new();
        let mut i: usize = 0;
        while i < players.len()
            invariant
                i <= players.len(),
                scores@.len() == i,
                forall|j: int| 0 <= j < i ==> #[trigger] scores@[j] == players@[j].score,
            decreases players.len() - i,
        {
            scores.push(players[i].score as u64);
            i += 1;
        }
        assert(scores@ =~= player_scores(views_of(players@)));
        let order = rank_indices(&scores);
        let ghost goal = self@.standings();
        let mut out: Vec<Player> = Vec::new();
        let mut k: usize = 0;
        while k < order.len()
            invariant
                k <= order.len(),
                order@.len() == players@.len(),
                views_of(players@) == self@.players(),
                order@.map_values(|i: usize| i as int) == rank_order(player_scores(views_of(players@))),
                forall|j: int| 0 <= j < order@.len() ==> #[trigger] order@[j] < players@.len(),
                goal == self@.standings(),
                out@.len() == k,
                forall|j: int| 0 <= j < k ==> #[trigger] out@[j]@ == goal[j],
            decreases order.len() - k,
        {
            assert(order@.map_values(|i: usize| i as int)[k as int] == order@[k as int] as int);
            out.push(players[order[k]].clone());
            k += 1;
        }
        assert(views_of(out@) =~= goal);
        out
    }

    /// The chat of the room; empty without a room.
    pub fn chat_messages(&self) -> (r: Vec<ChatMessage>)
        ensures
            views_of(r@) == match self@.room {
                Some(room) => room.chat_messages,
                None => Seq::<ChatMessageView>::empty(),
            },
    {
        match &self.room {
            Some(room) => {
                let r = room.chat_messages.clone();
                assert(r@ =~= room.chat_messages@);
                r
            },
            None => {
                let r: Vec<ChatMessage> = Vec::new();
                assert(views_of(r@) =~= Seq::<ChatMessageView>::empty());
                r
            },
        }
    }

    /// The rounds of the game and the time the word was chosen at.
    pub fn game_progress(&self) -> (r: Option<GameProgress>)
        ensures
            opt_view(r) == match self@.room {
                Some(room) => Some(
                    GameProgressView {
                        current_round: room.current_round,
                        total_rounds: room.total_rounds,
                        seconds_per_round: room.seconds_per_round,
                        word_chosen_at: room.word_chosen_at,
                    },
                ),
                None => None,
            },
    {
        match &self.room {
            Some(room) => Some(
                GameProgress {
                    current_round: room.current_round,
                    total_rounds: room.total_rounds,
                    seconds_per_round: room.seconds_per_round,
                    word_chosen_at: clone_opt_string(&room.word_chosen_at),
                },
            ),
            None => None,
        }
    }

    /// Whether a player named `player_name` has guessed the word.
    pub fn player_has_guessed(&self, player_name: &String) -> (r: bool)
        ensures
            r == already_guessed(self@.players(), player_name@),
    {
        match &self.room {
            Some(room) => has_guessed_named(&room.players, player_name),
            None => {
                assert(crate::guessing::guess_flags(Seq::<PlayerView>::empty()) =~= Seq::empty());
                false
            },
        }
    }

    /// The score of the first player named `player_name`; 0 where nobody
    /// has that name.
    pub fn player_score(&self, player_name: &String) -> (r: u32)
        ensures
            r == self@.score_of(player_name@),
    {
        match &self.room {
            Some(room) => match position_by_name(&room.players, player_name) {
                Some(i) => room.players[i].score,
                None => 0,
            },
            None => 0,
        }
    }

    /// Whether the current drawer is named `player_name`.
    pub fn is_player_drawer(&self, player_name: &String) -> (r: bool)
        ensures
            r == match self@.drawer() {
                Some(drawer) => drawer.name == player_name@,
                None => false,
            },
    {
        match &self.room {
            Some(room) => match room.get_current_drawer() {
                Some(drawer) => drawer.name == *player_name,
                None => false,
            },
            None => false,
        }
    }

    /// The name of the current drawer.
    pub fn drawer_name(&self) -> (r: Option<String>)
        ensures
            opt_view(r) == match self@.drawer() {
                Some(drawer) => Some(drawer.name),
                None => None,
            },
    {
        match &self.room {
            Some(room) => match room.get_current_drawer() {
                Some(drawer) => Some(drawer.name.clone()),
                None => None,
            },
            None => None,
        }
    }
}

} // verus!
