//! The room aggregate: roster changes, drawer rotation, round progression
//! and scoring.

use vstd::prelude::*;
use crate::model::{
    ChatMessage, ChatMessageView, GameRoom, GameRoomView, GameState, Player, PlayerStatus, PlayerView,
};
use crate::rotation::{first_active_in, next_active_in};
use crate::text::{
    index_from, index_of, lemma_index_from, lemma_index_from_found, lemma_index_from_none, lemma_views_push,
    opt_view, views_of,
};

verus! {

/// Number of chat lines a room keeps.
pub const CHAT_LIMIT: usize = 10;

/// The last `limit` lines of a chat.
pub open spec fn last_lines(chat: Seq<ChatMessageView>, limit: int) -> Seq<ChatMessageView> {
    if chat.len() > limit {
        chat.skip(chat.len() - limit)
    } else {
        chat
    }
}

/// The statuses of a roster, in roster order.
pub open spec fn statuses(players: Seq<PlayerView>) -> Seq<PlayerStatus> {
    players.map_values(|p: PlayerView| p.status)
}

/// The replica identifiers of a roster, in roster order.
pub open spec fn chain_ids(players: Seq<PlayerView>) -> Seq<Seq<char>> {
    players.map_values(|p: PlayerView| p.chain_id)
}

/// The display names of a roster, in roster order.
pub open spec fn names(players: Seq<PlayerView>) -> Seq<Seq<char>> {
    players.map_values(|p: PlayerView| p.name)
}

/// The roster with every player's guess flag cleared.
pub open spec fn without_guesses(players: Seq<PlayerView>) -> Seq<PlayerView> {
    players.map_values(|p: PlayerView| PlayerView { has_guessed: false, ..p })
}

/// The roster with every player's score and guess flag cleared.
pub open spec fn without_scores(players: Seq<PlayerView>) -> Seq<PlayerView> {
    players.map_values(|p: PlayerView| PlayerView { score: 0, has_guessed: false, ..p })
}

impl GameRoomView {
    /// A fresh room with its host as the only player.
    pub open spec fn created(
        host_chain_id: Seq<char>,
        host_name: Seq<char>,
        avatar_json: Seq<char>,
        timestamp: Seq<char>,
        leaderboard_chain_id: Option<Seq<char>>,
    ) -> GameRoomView {
        GameRoomView {
            room_id: timestamp,
            host_chain_id: host_chain_id,
            players: seq![
                PlayerView {
                    chain_id: host_chain_id,
                    name: host_name,
                    avatar_json: avatar_json,
                    score: 0,
                    has_guessed: false,
                    status: PlayerStatus::Active,
                },
            ],
            game_state: GameState::WaitingForPlayers,
            current_round: 0,
            total_rounds: 0,
            seconds_per_round: 0,
            current_drawer_index: None,
            word_chosen_at: None,
            chat_messages: Seq::empty(),
            drawer_chosen_at: None,
            blob_hashes: Seq::empty(),
            leaderboard_chain_id: leaderboard_chain_id,
        }
    }

    /// The drawer pointer, when present, indexes an `Active` player.
    pub open spec fn drawer_valid(self) -> bool {
        match self.current_drawer_index {
            Some(c) => c < self.players.len() && self.players[c as int].status == PlayerStatus::Active,
            None => true,
        }
    }

    /// No two entries of the roster have the same replica identifier.
    pub open spec fn players_unique(self) -> bool {
        chain_ids(self.players).no_duplicates()
    }

    /// The chat holds no more than its ten lines.
    pub open spec fn chat_bounded(self) -> bool {
        self.chat_messages.len() <= CHAT_LIMIT
    }

    /// The invariant of a room: the round counter does not exceed the
    /// number of rounds, the drawer pointer, when present, indexes an
    /// `Active` player, no replica is in the roster twice, and the chat is
    /// within its bound.
    pub open spec fn wf(self) -> bool {
        &&& self.current_round <= self.total_rounds
        &&& self.drawer_valid()
        &&& self.players_unique()
        &&& self.chat_bounded()
    }

    /// Index of the first `Active` player.
    pub open spec fn first_active(self) -> Option<int> {
        first_active_in(statuses(self.players))
    }

    /// Index of the next `Active` player strictly after `current` in roster
    /// order, wrapping round at the end of the roster.
    pub open spec fn next_active_after(self, current: int) -> Option<int> {
        next_active_in(statuses(self.players), current)
    }

    /// The player whose turn to draw comes next.
    pub open spec fn next_drawer(self) -> Option<int> {
        match self.current_drawer_index {
            None => self.first_active(),
            Some(c) => self.next_active_after(c as int),
        }
    }

    /// The room with the player at `index` as its drawer, chosen at
    /// `timestamp`, and with all guess flags cleared.
    pub open spec fn with_drawer(self, index: usize, timestamp: Seq<char>) -> GameRoomView {
        GameRoomView {
            players: without_guesses(self.players),
            current_drawer_index: Some(index),
            game_state: GameState::WaitingForWord,
            word_chosen_at: None,
            drawer_chosen_at: Some(timestamp),
            ..self
        }
    }

    /// The room after the next drawer was chosen; unchanged without an
    /// `Active` player.
    pub open spec fn drawer_chosen(self, timestamp: Seq<char>) -> GameRoomView {
        match self.next_drawer() {
            Some(i) => self.with_drawer(i as usize, timestamp),
            None => self,
        }
    }

    /// The room with `player` joined: an entry with the same replica
    /// identifier gets the new name and avatar and becomes `Active`,
    /// otherwise the player is appended.
    pub open spec fn with_player(self, player: PlayerView) -> GameRoomView {
        match index_of(chain_ids(self.players), player.chain_id) {
            Some(i) => GameRoomView {
                players: self.players.update(
                    i,
                    PlayerView {
                        name: player.name,
                        avatar_json: player.avatar_json,
                        status: PlayerStatus::Active,
                        ..self.players[i]
                    },
                ),
                ..self
            },
            None => GameRoomView { players: self.players.push(player), ..self },
        }
    }

    /// The room at the start of a game of `rounds` rounds.
    pub open spec fn started(self, rounds: u32, seconds_per_round: u32) -> GameRoomView {
        GameRoomView {
            total_rounds: rounds,
            seconds_per_round: seconds_per_round,
            current_round: 1,
            game_state: GameState::ChoosingDrawer,
            players: without_scores(self.players),
            ..self
        }
    }

    /// The room after the drawer chose a word at `timestamp`.
    pub open spec fn word_chosen(self, timestamp: Seq<char>) -> GameRoomView {
        GameRoomView { word_chosen_at: Some(timestamp), game_state: GameState::Drawing, ..self }
    }

    /// The room with `message` appended to its chat, which keeps its last
    /// ten lines: the oldest line gives way.
    pub open spec fn with_chat(self, message: ChatMessageView) -> GameRoomView {
        GameRoomView { chat_messages: last_lines(self.chat_messages.push(message), CHAT_LIMIT as int), ..self }
    }

    /// The room after a round boundary: the next round with no drawer and an
    /// empty chat, or the end of the game after the last round.
    pub open spec fn advanced(self) -> GameRoomView {
        if self.current_round < self.total_rounds {
            GameRoomView {
                current_round: (self.current_round + 1) as u32,
                game_state: GameState::ChoosingDrawer,
                current_drawer_index: None,
                word_chosen_at: None,
                chat_messages: Seq::empty(),
                ..self
            }
        } else {
            GameRoomView { game_state: GameState::GameEnded, ..self }
        }
    }

    /// Whether the rotation has come back to its start: there is a drawer,
    /// and the next `Active` player after the drawer is the first one.
    pub open spec fn all_drawn(self) -> bool {
        match self.current_drawer_index {
            None => false,
            Some(c) => self.first_active() is Some && self.next_active_after(c as int) == self.first_active(),
        }
    }

    /// The player the drawer pointer refers to.
    pub open spec fn current_drawer(self) -> Option<PlayerView> {
        match self.current_drawer_index {
            Some(c) => if c < self.players.len() {
                Some(self.players[c as int])
            } else {
                None
            },
            None => None,
        }
    }

    /// Whether `points` can be added to the score of the first player
    /// named `name` without leaving the range of a score.
    pub open spec fn can_award(self, name: Seq<char>, points: u32) -> bool {
        match index_of(names(self.players), name) {
            Some(i) => self.players[i].score + points <= u32::MAX,
            None => true,
        }
    }

    /// The room after the first player named `name` got `points` for a
    /// correct guess; unchanged where nobody has that name.
    pub open spec fn awarded(self, name: Seq<char>, points: u32) -> GameRoomView {
        match index_of(names(self.players), name) {
            Some(i) => GameRoomView {
                players: self.players.update(
                    i,
                    PlayerView {
                        score: (self.players[i].score + points) as u32,
                        has_guessed: true,
                        ..self.players[i]
                    },
                ),
                ..self
            },
            None => self,
        }
    }

    /// The room after the player with identifier `chain_id` left: the entry
    /// stays with status `Left`; where that player was the drawer, the
    /// drawer pointer and both timers are cleared and a new drawer has to be
    /// chosen.
    pub open spec fn player_left(self, chain_id: Seq<char>) -> GameRoomView {
        match index_of(chain_ids(self.players), chain_id) {
            Some(i) => {
                let players = self.players.update(
                    i,
                    PlayerView { status: PlayerStatus::Left, has_guessed: false, ..self.players[i] },
                );
                if self.current_drawer_index == Some(i as usize) {
                    GameRoomView {
                        players: players,
                        current_drawer_index: None,
                        game_state: GameState::ChoosingDrawer,
                        word_chosen_at: None,
                        drawer_chosen_at: None,
                        ..self
                    }
                } else {
                    GameRoomView { players: players, ..self }
                }
            },
            None => self,
        }
    }
}

/// Index of the first player at or after `from` whose status is `Active`.
pub fn first_active_from(players: &Vec<Player>, from: usize) -> (r: Option<usize>)
    ensures
        match r {
            Some(i) => i < players@.len() && index_from(
                statuses(views_of(players@)),
                PlayerStatus::Active,
                from as int,
            ) == Some(i as int),
            None => index_from(statuses(views_of(players@)), PlayerStatus::Active, from as int) is None,
        },
{
    let ghost keys = statuses(views_of(players@));
    let mut i: usize = from;
    while i < players.len()
        invariant
            from <= i,
            keys == statuses(views_of(players@)),
            forall|j: int| from <= j < i && j < players.len() ==> #[trigger] keys[j] != PlayerStatus::Active,
        decreases players.len() - i,
    {
        assert(keys[i as int] == players@[i as int].status);
        if players[i].status == PlayerStatus::Active {
            proof {
                lemma_index_from_found(keys, PlayerStatus::Active, from as int, i as int);
            }
            return Some(i);
        }
        i += 1;
    }
    proof {
        lemma_index_from_none(keys, PlayerStatus::Active, from as int);
    }
    None
}

/// Index of the first player whose replica identifier is `chain_id`.
pub fn position_by_chain_id(players: &Vec<Player>, chain_id: &String) -> (r: Option<usize>)
    ensures
        match r {
            Some(i) => i < players@.len() && index_of(chain_ids(views_of(players@)), chain_id@) == Some(i as int),
            None => index_of(chain_ids(views_of(players@)), chain_id@) is None,
        },
{
    let ghost keys = chain_ids(views_of(players@));
    let mut i: usize = 0;
    while i < players.len()
        invariant
            keys == chain_ids(views_of(players@)),
            forall|j: int| 0 <= j < i && j < players.len() ==> #[trigger] keys[j] != chain_id@,
        decreases players.len() - i,
    {
        assert(keys[i as int] == players@[i as int].chain_id@);
        if players[i].chain_id == *chain_id {
            proof {
                lemma_index_from_found(keys, chain_id@, 0, i as int);
            }
            return Some(i);
        }
        i += 1;
    }
    proof {
        lemma_index_from_none(keys, chain_id@, 0);
    }
    None
}

/// Index of the first player whose display name is `name`.
pub fn position_by_name(players: &Vec<Player>, name: &String) -> (r: Option<usize>)
    ensures
        match r {
            Some(i) => i < players@.len() && index_of(names(views_of(players@)), name@) == Some(i as int),
            None => index_of(names(views_of(players@)), name@) is None,
        },
{
    let ghost keys = names(views_of(players@));
    let mut i: usize = 0;
    while i < players.len()
        invariant
            keys == names(views_of(players@)),
            forall|j: int| 0 <= j < i && j < players.len() ==> #[trigger] keys[j] != name@,
        decreases players.len() - i,
    {
        assert(keys[i as int] == players@[i as int].name@);
        if players[i].name == *name {
            proof {
                lemma_index_from_found(keys, name@, 0, i as int);
            }
            return Some(i);
        }
        i += 1;
    }
    proof {
        lemma_index_from_none(keys, name@, 0);
    }
    None
}

/// Clears the guess flag of every player.
pub fn clear_guesses(players: &mut Vec<Player>)
    ensures
        final(players)@.len() == old(players)@.len(),
        views_of(final(players)@) == without_guesses(views_of(old(players)@)),
{
    let n = players.len();
    let mut i: usize = 0;
    while i < n
        invariant
            i <= n,
            n == players@.len(),
            players@.len() == old(players)@.len(),
            forall|j: int|
                0 <= j < i ==> #[trigger] players@[j]@ == (PlayerView { has_guessed: false, ..old(players)@[j]@ }),
            forall|j: int| i <= j < n ==> #[trigger] players@[j] == old(players)@[j],
        decreases n - i,
    {
        players[i].has_guessed = false;
        i += 1;
    }
    assert(views_of(players@) =~= without_guesses(views_of(old(players)@)));
}

/// Clears the score and the guess flag of every player.
pub fn clear_scores(players: &mut Vec<Player>)
    ensures
        final(players)@.len() == old(players)@.len(),
        views_of(final(players)@) == without_scores(views_of(old(players)@)),
{
    let n = players.len();
    let mut i: usize = 0;
    while i < n
        invariant
            i <= n,
            n == players@.len(),
            players@.len() == old(players)@.len(),
            forall|j: int|
                0 <= j < i ==> #[trigger] players@[j]@ == (PlayerView {
                    score: 0,
                    has_guessed: false,
                    ..old(players)@[j]@
                }),
            forall|j: int| i <= j < n ==> #[trigger] players@[j] == old(players)@[j],
        decreases n - i,
    {
        players[i].score = 0;
        players[i].has_guessed = false;
        i += 1;
    }
    assert(views_of(players@) =~= without_scores(views_of(old(players)@)));
}

impl GameRoom {
    /// Creates a room whose only player is its host. The room is named by
    /// the time of its creation.
    pub fn new(
        host_chain_id: String,
        host_name: String,
        avatar_json: String,
        _timestamp: String,
        leaderboard_chain_id: Option<String>,
    ) -> (r: Self)
        ensures
            r@ == GameRoomView::created(
                host_chain_id@,
                host_name@,
                avatar_json@,
                _timestamp@,
                opt_view(leaderboard_chain_id),
            ),
            r@.wf(),
    {
        let host_player = Player {
            chain_id: host_chain_id.clone(),
            name: host_name,
            avatar_json,
            score: 0,
            has_guessed: false,
            status: PlayerStatus::Active,
        };
        let mut players: Vec<Player> = Vec::new();
        players.push(host_player);
        let room = GameRoom {
            room_id: _timestamp,
            host_chain_id,
            players,
            game_state: GameState::WaitingForPlayers,
            current_round: 0,
            total_rounds: 0,
            seconds_per_round: 0,
            current_drawer_index: None,
            word_chosen_at: None,
            chat_messages: Vec::new(),
            drawer_chosen_at: None,
            blob_hashes: Vec::new(),
            leaderboard_chain_id,
        };
        assert(room@.players =~= seq![host_player@]);
        assert(room@.chat_messages =~= Seq::empty());
        assert(room@.blob_hashes =~= Seq::empty());
        room
    }

    /// Adds a player, or refreshes the entry that has the same replica
    /// identifier and makes it `Active` again.
    pub fn add_player(&mut self, player: Player)
        ensures
            final(self)@ == old(self)@.with_player(player@),
            old(self)@.wf() ==> final(self)@.wf(),
    {
        proof {
            if old(self)@.players_unique() {
                law_join_keeps_players_unique(old(self)@, player@);
            }
        }
        match position_by_chain_id(&self.players, &player.chain_id) {
            Some(i) => {
                self.players[i].name = player.name;
                self.players[i].avatar_json = player.avatar_json;
                self.players[i].status = PlayerStatus::Active;
                assert(views_of(self.players@) =~= old(self)@.with_player(player@).players);
            },
            None => {
                proof {
                    lemma_views_push(self.players@, player);
                }
                self.players.push(player);
            },
        }
    }

    /// Starts a game: round 1 of `rounds`, all scores and guess flags
    /// cleared, a drawer still to be chosen.
    pub fn start_game(&mut self, rounds: u32, seconds_per_round: u32, _timestamp: String)
        ensures
            final(self)@ == old(self)@.started(rounds, seconds_per_round),
            final(self).players@.len() == old(self).players@.len(),
            old(self)@.wf() && rounds >= 1 ==> final(self)@.wf(),
    {
        proof {
            lemma_roster_keeps_its_replicas(
                old(self)@,
                rounds,
                seconds_per_round,
                0,
                Seq::empty(),
                Seq::empty(),
                0,
                Seq::empty(),
            );
        }
        self.total_rounds = rounds;
        self.seconds_per_round = seconds_per_round;
        self.current_round = 1;
        self.game_state = GameState::ChoosingDrawer;
        clear_scores(&mut self.players);
    }

    /// Index of the first `Active` player.
    pub fn first_active_index(&self) -> (r: Option<usize>)
        ensures
            match r {
                Some(i) => i < self.players@.len() && self@.first_active() == Some(i as int),
                None => self@.first_active() is None,
            },
    {
        first_active_from(&self.players, 0)
    }

    /// Index of the next `Active` player strictly after `current_index`,
    /// wrapping round at the end of the roster.
    pub fn next_active_index_after(&self, current_index: usize) -> (r: Option<usize>)
        ensures
            match r {
                Some(i) => i < self.players@.len() && self@.next_active_after(current_index as int) == Some(i as int),
                None => self@.next_active_after(current_index as int) is None,
            },
    {
        let n = self.players.len();
        if n == 0 {
            return None;
        }
        let start = current_index % n + 1;
        match first_active_from(&self.players, start) {
            Some(i) => Some(i),
            None => first_active_from(&self.players, 0),
        }
    }

    /// Hands the turn to the next `Active` player in roster order and
    /// returns that player's index. Without an `Active` player nothing
    /// changes and nothing is returned.
    pub fn choose_drawer(&mut self, timestamp: String) -> (r: Option<usize>)
        ensures
            final(self)@ == old(self)@.drawer_chosen(timestamp@),
            final(self).players@.len() == old(self).players@.len(),
            match r {
                Some(i) => i < old(self).players@.len() && old(self)@.next_drawer() == Some(i as int),
                None => old(self)@.next_drawer() is None,
            },
            r is Some ==> final(self)@.drawer_valid(),
            old(self)@.wf() ==> final(self)@.wf(),
    {
        proof {
            lemma_roster_keeps_its_replicas(old(self)@, 0, 0, 0, timestamp@, Seq::empty(), 0, Seq::empty());
        }
        let next = match self.current_drawer_index {
            None => self.first_active_index(),
            Some(current) => self.next_active_index_after(current),
        };
        match next {
            Some(i) => {
                proof {
                    lemma_index_from(statuses(self@.players), PlayerStatus::Active, 0);
                    if self.current_drawer_index is Some {
                        let n = self.players@.len() as int;
                        let c = self.current_drawer_index.unwrap() as int;
                        lemma_index_from(statuses(self@.players), PlayerStatus::Active, c % n + 1);
                    }
                }
                self.current_drawer_index = Some(i);
                self.game_state = GameState::WaitingForWord;
                self.word_chosen_at = None;
                self.drawer_chosen_at = Some(timestamp);
                clear_guesses(&mut self.players);
                Some(i)
            },
            None => None,
        }
    }

    /// Records that the drawer chose a word at `timestamp`. The word itself
    /// is no part of the room.
    pub fn choose_word(&mut self, timestamp: String)
        ensures
            final(self)@ == old(self)@.word_chosen(timestamp@),
            old(self)@.wf() ==> final(self)@.wf(),
    {
        self.word_chosen_at = Some(timestamp);
        self.game_state = GameState::Drawing;
    }

    /// Appends a message to the chat and keeps the last ten lines of it.
    pub fn add_chat_message(&mut self, message: ChatMessage)
        ensures
            final(self)@ == old(self)@.with_chat(message@),
            old(self)@.wf() ==> final(self)@.wf(),
    {
        proof {
            lemma_views_push(self.chat_messages@, message);
        }
        self.chat_messages.push(message);
        let len = self.chat_messages.len();
        if len > CHAT_LIMIT {
            let kept = self.chat_messages.split_off(len - CHAT_LIMIT);
            assert(views_of(kept@) =~= last_lines(old(self)@.chat_messages.push(message@), CHAT_LIMIT as int));
            self.chat_messages = kept;
        }
    }

    /// Moves to the next round, with no drawer and an empty chat, or ends
    /// the game after the last round.
    pub fn advance_to_next_round(&mut self, _timestamp: String)
        ensures
            final(self)@ == old(self)@.advanced(),
            old(self)@.wf() ==> final(self)@.wf(),
    {
        if self.current_round < self.total_rounds {
            self.current_round += 1;
            self.game_state = GameState::ChoosingDrawer;
            self.current_drawer_index = None;
            self.word_chosen_at = None;
            self.chat_messages.clear();
            assert(views_of(self.chat_messages@) =~= Seq::empty());
        } else {
            self.game_state = GameState::GameEnded;
        }
    }

    /// Whether every `Active` player has had a turn in this round: the
    /// rotation after the current drawer is back at the first `Active` player.
    pub fn has_all_players_drawn_in_round(&self) -> (r: bool)
        ensures
            r == self@.all_drawn(),
    {
        match self.current_drawer_index {
            None => false,
            Some(current) => {
                let next = self.next_active_index_after(current);
                let first = self.first_active_index();
                match (next, first) {
                    (Some(a), Some(b)) => a == b,
                    _ => false,
                }
            },
        }
    }

    /// The player whose turn it is to draw.
    pub fn get_current_drawer(&self) -> (r: Option<&Player>)
        ensures
            match r {
                Some(p) => self@.current_drawer() == Some(p@),
                None => self@.current_drawer() is None,
            },
            r is Some ==> self.current_drawer_index is Some && self.current_drawer_index.unwrap() < self.players@.len()
                && *r.unwrap() == self.players@[self.current_drawer_index.unwrap() as int],
    {
        match self.current_drawer_index {
            Some(index) => {
                if index < self.players.len() {
                    Some(&self.players[index])
                } else {
                    None
                }
            },
            None => None,
        }
    }

    /// Adds `points` to the score of the first player named `player_name`
    /// and marks that player as having guessed.
    pub fn award_points(&mut self, player_name: &str, points: u32)
        requires
            old(self)@.can_award(player_name@, points),
        ensures
            final(self)@ == old(self)@.awarded(player_name@, points),
            old(self)@.wf() ==> final(self)@.wf(),
    {
        proof {
            lemma_roster_keeps_its_replicas(old(self)@, 0, 0, 0, Seq::empty(), player_name@, points, Seq::empty());
        }
        let name = player_name.to_owned();
        match position_by_name(&self.players, &name) {
            Some(i) => {
                let score = self.players[i].score;
                self.players[i].score = score + points;
                self.players[i].has_guessed = true;
                assert(views_of(self.players@) =~= old(self)@.awarded(player_name@, points).players);
            },
            None => {},
        }
    }

    /// Marks the player with identifier `chain_id` as `Left`. Where that
    /// player was the drawer, a new drawer has to be chosen.
    pub fn mark_player_left(&mut self, chain_id: &String)
        ensures
            final(self)@ == old(self)@.player_left(chain_id@),
            old(self)@.wf() ==> final(self)@.wf(),
    {
        proof {
            lemma_roster_keeps_its_replicas(old(self)@, 0, 0, 0, Seq::empty(), Seq::empty(), 0, chain_id@);
        }
        match position_by_chain_id(&self.players, chain_id) {
            Some(i) => {
                self.players[i].status = PlayerStatus::Left;
                self.players[i].has_guessed = false;
                assert(views_of(self.players@) =~= old(self)@.players.update(
                    i as int,
                    PlayerView { status: PlayerStatus::Left, has_guessed: false, ..old(self)@.players[i as int] },
                ));
                let was_drawer = match self.current_drawer_index {
                    Some(c) => c == i,
                    None => false,
                };
                if was_drawer {
                    self.current_drawer_index = None;
                    self.game_state = GameState::ChoosingDrawer;
                    self.word_chosen_at = None;
                    self.drawer_chosen_at = None;
                }
            },
            None => {},
        }
    }

    /// Ending a match removes the whole room from its replica, so the room
    /// itself stays as it is.
    pub fn end_match(&mut self, _timestamp: String)
        ensures
            *final(self) == *old(self),
    {
    }
}

/// The room after `count` round boundaries, one after the other.
pub open spec fn after_advances(room: GameRoomView, count: nat) -> GameRoomView
    decreases count,
{
    if count == 0 {
        room
    } else {
        after_advances(room, (count - 1) as nat).advanced()
    }
}

/// Joining is idempotent: an `Active` player who joins a second time, with
/// the same name and avatar, leaves the room as it was after the first
/// time, and the roster holds an entry for that player.
pub proof fn law_join_is_idempotent(room: GameRoomView, player: PlayerView)
    requires
        player.status == PlayerStatus::Active,
    ensures
        room.with_player(player).with_player(player) == room.with_player(player),
        chain_ids(room.with_player(player).players).contains(player.chain_id),
        !chain_ids(room.players).contains(player.chain_id) ==> room.with_player(player).players.len()
            == room.players.len() + 1,
        chain_ids(room.players).contains(player.chain_id) ==> room.with_player(player).players.len()
            == room.players.len(),
{
    let ids = chain_ids(room.players);
    let once = room.with_player(player);
    lemma_index_from(ids, player.chain_id, 0);
    crate::text::lemma_index_of_contains(ids, player.chain_id);
    match index_of(ids, player.chain_id) {
        Some(i) => {
            assert(chain_ids(once.players) =~= ids);
            assert(once.players.update(
                i,
                PlayerView {
                    name: player.name,
                    avatar_json: player.avatar_json,
                    status: PlayerStatus::Active,
                    ..once.players[i]
                },
            ) =~= once.players);
        },
        None => {
            let n = room.players.len() as int;
            assert(chain_ids(once.players) =~= ids.push(player.chain_id));
            assert(chain_ids(once.players)[n] == player.chain_id);
            lemma_index_from_found(chain_ids(once.players), player.chain_id, 0, n);
            assert(once.players.update(
                n,
                PlayerView {
                    name: player.name,
                    avatar_json: player.avatar_json,
                    status: PlayerStatus::Active,
                    ..once.players[n]
                },
            ) =~= once.players);
        },
    }
}

/// Round progression. A round boundary before the last round leads to the
/// next round, which waits for a drawer with an empty chat; a round
/// boundary in the last round ends the game and changes nothing else.
pub proof fn law_round_boundary(room: GameRoomView)
    ensures
        room.current_round < room.total_rounds ==> room.advanced().current_round == room.current_round + 1
            && room.advanced().game_state == GameState::ChoosingDrawer && room.advanced().current_drawer_index
            is None && room.advanced().chat_messages.len() == 0,
        room.current_round >= room.total_rounds ==> room.advanced() == (GameRoomView {
            game_state: GameState::GameEnded,
            ..room
        }),
{
}

/// A game of `total_rounds` rounds that stands in round 1 is in round
/// `1 + count` and waits for a drawer after fewer than `total_rounds` round
/// boundaries, and has ended, in its last round, after `total_rounds` of them.
pub proof fn law_game_ends_after_its_rounds(room: GameRoomView, count: nat)
    requires
        room.current_round == 1,
        room.total_rounds >= 1,
        count <= room.total_rounds,
    ensures
        after_advances(room, count).total_rounds == room.total_rounds,
        0 < count < room.total_rounds ==> after_advances(room, count).current_round == 1 + count && after_advances(
            room,
            count,
        ).game_state == GameState::ChoosingDrawer && after_advances(room, count).chat_messages.len() == 0,
        count == room.total_rounds ==> after_advances(room, count).current_round == room.total_rounds
            && after_advances(room, count).game_state == GameState::GameEnded,
    decreases count,
{
    if count > 0 {
        law_game_ends_after_its_rounds(room, (count - 1) as nat);
        if count == 1 {
            assert(after_advances(room, 0) == room);
        }
    }
}

/// Only a player's joining changes which replicas are in the roster: the
/// start of a game, a choice of drawer, an award and a player's leaving
/// leave the replica identifiers of the roster as they are, in their order.
pub proof fn lemma_roster_keeps_its_replicas(
    room: GameRoomView,
    rounds: u32,
    seconds_per_round: u32,
    index: usize,
    timestamp: Seq<char>,
    name: Seq<char>,
    points: u32,
    chain_id: Seq<char>,
)
    ensures
        chain_ids(room.started(rounds, seconds_per_round).players) == chain_ids(room.players),
        chain_ids(room.with_drawer(index, timestamp).players) == chain_ids(room.players),
        chain_ids(room.drawer_chosen(timestamp).players) == chain_ids(room.players),
        chain_ids(room.awarded(name, points).players) == chain_ids(room.players),
        chain_ids(room.player_left(chain_id).players) == chain_ids(room.players),
{
    assert(chain_ids(room.started(rounds, seconds_per_round).players) =~= chain_ids(room.players));
    assert(chain_ids(room.with_drawer(index, timestamp).players) =~= chain_ids(room.players));
    assert(chain_ids(room.drawer_chosen(timestamp).players) =~= chain_ids(room.players));
    lemma_index_from(names(room.players), name, 0);
    assert(chain_ids(room.awarded(name, points).players) =~= chain_ids(room.players));
    lemma_index_from(chain_ids(room.players), chain_id, 0);
    assert(chain_ids(room.player_left(chain_id).players) =~= chain_ids(room.players));
}

/// Players stay unique by replica. In a roster that holds no replica
/// twice, a player's joining leaves it so: afterwards the roster holds
/// exactly one entry for the player's replica.
pub proof fn law_join_keeps_players_unique(room: GameRoomView, player: PlayerView)
    requires
        room.players_unique(),
    ensures
        room.with_player(player).players_unique(),
        index_of(chain_ids(room.with_player(player).players), player.chain_id) is Some,
        forall|j: int|
            0 <= j < room.with_player(player).players.len() && #[trigger] room.with_player(player).players[j].chain_id
                == player.chain_id ==> j == index_of(
                chain_ids(room.with_player(player).players),
                player.chain_id,
            ).unwrap(),
{
    let ids = chain_ids(room.players);
    let after = room.with_player(player);
    let after_ids = chain_ids(after.players);
    lemma_index_from(ids, player.chain_id, 0);
    match index_of(ids, player.chain_id) {
        Some(i) => {
            assert(after_ids =~= ids);
        },
        None => {
            assert(after_ids =~= ids.push(player.chain_id));
            assert(after_ids[ids.len() as int] == player.chain_id);
        },
    }
    crate::text::lemma_index_of_contains(after_ids, player.chain_id);
    lemma_index_from(after_ids, player.chain_id, 0);
    let at = index_of(after_ids, player.chain_id).unwrap();
    assert forall|j: int|
        0 <= j < after.players.len() && #[trigger] after.players[j].chain_id == player.chain_id implies j == at by {
        assert(after_ids[j] == player.chain_id);
        assert(after_ids[at] == player.chain_id);
    }
}

/// A player who joins twice is in the roster once. In a roster that holds
/// no replica twice, after the same player has joined two times over the
/// roster still holds no replica twice, and exactly one entry for the
/// player's replica.
pub proof fn law_join_twice_gives_one_entry(room: GameRoomView, player: PlayerView)
    requires
        room.players_unique(),
    ensures
        room.with_player(player).with_player(player).players_unique(),
        room.with_player(player).with_player(player).players.len() == room.with_player(player).players.len(),
        index_of(chain_ids(room.with_player(player).with_player(player).players), player.chain_id) is Some,
        forall|j: int|
            0 <= j < room.with_player(player).with_player(player).players.len() && #[trigger] room.with_player(
                player,
            ).with_player(player).players[j].chain_id == player.chain_id ==> j == index_of(
                chain_ids(room.with_player(player).with_player(player).players),
                player.chain_id,
            ).unwrap(),
{
    law_join_keeps_players_unique(room, player);
    law_join_keeps_players_unique(room.with_player(player), player);
    lemma_index_from(chain_ids(room.with_player(player).players), player.chain_id, 0);
}

} // verus!
