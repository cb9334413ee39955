//! The registry of chess games of a replica: every game under its number,
//! and for every player the games that the player takes part in.

use vstd::prelude::*;
use crate::chess::board::{ChessMove, Color};
use crate::chess::game::{initial_board, initial_board_text};
use crate::ranking::{rank_indices, rank_order, ranked_by};
use crate::text::{
    clone_opt_string, index_of, lemma_index_from_found, lemma_index_from_none, lemma_views_push, opt_view,
    views_of,
};

verus! {

/// The phases of a registered game.
#[derive(Debug, Clone, Copy, PartialEq, Eq, Structural)]
pub enum GameStatus {
    WaitingForPlayer,
    InProgress,
    Finished,
}

/// Why the registry refused a player.
#[derive(Debug, Clone, Copy, PartialEq, Eq, Structural)]
pub enum JoinError {
    /// No game has that number.
    GameNotFound,
    /// The game has its two players.
    GameFull,
    /// The player is the one who created the game.
    OwnGame,
}

/// A registered game.
#[derive(Debug, PartialEq, Eq)]
pub struct GameState {
    pub game_id: u64,
    pub white_player: String,
    pub black_player: Option<String>,
    pub current_turn: Color,
    pub status: GameStatus,
    pub board: String,
    pub move_history: Vec<ChessMove>,
    pub created_at: u64,
    pub last_move_at: u64,
}

/// Mathematical value of a [`GameState`].
pub struct GameStateView {
    pub game_id: u64,
    pub white_player: Seq<char>,
    pub black_player: Option<Seq<char>>,
    pub current_turn: Color,
    pub status: GameStatus,
    pub board: Seq<char>,
    pub move_history: Seq<ChessMove>,
    pub created_at: u64,
    pub last_move_at: u64,
}

impl View for GameState {
    type V = GameStateView;

    open spec fn view(&self) -> GameStateView {
        GameStateView {
            game_id: self.game_id,
            white_player: self.white_player@,
            black_player: opt_view(self.black_player),
            current_turn: self.current_turn,
            status: self.status,
            board: self.board@,
            move_history: self.move_history@,
            created_at: self.created_at,
            last_move_at: self.last_move_at,
        }
    }
}

impl Clone for GameState {
    fn clone(&self) -> (r: Self)
        ensures
            r@ == self@,
    {
        let move_history = self.move_history.clone();
        assert(move_history@ =~= self.move_history@);
        GameState {
            game_id: self.game_id,
            white_player: self.white_player.clone(),
            black_player: clone_opt_string(&self.black_player),
            current_turn: self.current_turn,
            status: self.status,
            board: self.board.clone(),
            move_history,
            created_at: self.created_at,
            last_move_at: self.last_move_at,
        }
    }
}

/// A game stored under a number.
#[derive(Debug, Clone, PartialEq, Eq)]
pub struct StoredGame {
    pub id: u64,
    pub game: GameState,
}

/// Mathematical value of a [`StoredGame`].
pub struct StoredGameView {
    pub id: u64,
    pub game: GameStateView,
}

impl View for StoredGame {
    type V = StoredGameView;

    open spec fn view(&self) -> StoredGameView {
        StoredGameView { id: self.id, game: self.game@ }
    }
}

/// The games that a player takes part in, by number.
#[derive(Debug, Clone, PartialEq, Eq)]
pub struct PlayerGames {
    pub player: String,
    pub games: Vec<u64>,
}

/// Mathematical value of a [`PlayerGames`].
pub struct PlayerGamesView {
    pub player: Seq<char>,
    pub games: Seq<u64>,
}

impl View for PlayerGames {
    type V = PlayerGamesView;

    open spec fn view(&self) -> PlayerGamesView {
        PlayerGamesView { player: self.player@, games: self.games@ }
    }
}

/// The registry of a replica.
#[derive(Debug, Clone, PartialEq, Eq)]
pub struct ChessState {
    pub owner: Option<String>,
    pub games: Vec<StoredGame>,
    pub game_counter: u64,
    pub player_games: Vec<PlayerGames>,
}

/// Mathematical value of a [`ChessState`].
pub struct ChessStateView {
    pub owner: Option<Seq<char>>,
    pub games: Seq<StoredGameView>,
    pub game_counter: u64,
    pub player_games: Seq<PlayerGamesView>,
}

impl View for ChessState {
    type V = ChessStateView;

    open spec fn view(&self) -> ChessStateView {
        ChessStateView {
            owner: opt_view(self.owner),
            games: views_of(self.games@),
            game_counter: self.game_counter,
            player_games: views_of(self.player_games@),
        }
    }
}

/// The numbers under which games are stored, in order.
pub open spec fn stored_ids(games: Seq<StoredGameView>) -> Seq<u64> {
    games.map_values(|g: StoredGameView| g.id)
}

/// The players who have a list of games, in order.
pub open spec fn listed_players(lists: Seq<PlayerGamesView>) -> Seq<Seq<char>> {
    lists.map_values(|l: PlayerGamesView| l.player)
}

/// The times at which games were created, in order.
pub open spec fn creation_times(games: Seq<GameStateView>) -> Seq<u64> {
    games.map_values(|g: GameStateView| g.created_at)
}

/// The game stored under `id`.
pub open spec fn game_at(games: Seq<StoredGameView>, id: u64) -> Option<GameStateView> {
    match index_of(stored_ids(games), id) {
        Some(i) => Some(games[i].game),
        None => None,
    }
}

/// The games with `game` stored under `id`, in place of what was stored
/// there before.
pub open spec fn with_game(games: Seq<StoredGameView>, id: u64, game: GameStateView) -> Seq<StoredGameView> {
    match index_of(stored_ids(games), id) {
        Some(i) => games.update(i, StoredGameView { id: id, game: game }),
        None => games.push(StoredGameView { id: id, game: game }),
    }
}

/// The numbers of the games of `player`.
pub open spec fn games_of(lists: Seq<PlayerGamesView>, player: Seq<char>) -> Seq<u64> {
    match index_of(listed_players(lists), player) {
        Some(i) => lists[i].games,
        None => Seq::empty(),
    }
}

/// The lists with `games` as the games of `player`.
pub open spec fn with_games_of(lists: Seq<PlayerGamesView>, player: Seq<char>, games: Seq<u64>) -> Seq<
    PlayerGamesView,
> {
    match index_of(listed_players(lists), player) {
        Some(i) => lists.update(i, PlayerGamesView { player: player, games: games }),
        None => lists.push(PlayerGamesView { player: player, games: games }),
    }
}

/// A game that `creator` has just created at `timestamp`.
pub open spec fn new_game(game_id: u64, creator: Seq<char>, timestamp: u64) -> GameStateView {
    GameStateView {
        game_id: game_id,
        white_player: creator,
        black_player: None,
        current_turn: Color::White,
        status: GameStatus::WaitingForPlayer,
        board: initial_board(),
        move_history: Seq::empty(),
        created_at: timestamp,
        last_move_at: timestamp,
    }
}

/// The games stored under the numbers of `ids`, in the order of `ids`;
/// numbers without a game are passed over.
pub open spec fn games_at(games: Seq<StoredGameView>, ids: Seq<u64>) -> Seq<GameStateView>
    decreases ids.len(),
{
    if ids.len() == 0 {
        Seq::empty()
    } else {
        match game_at(games, ids.last()) {
            Some(g) => games_at(games, ids.drop_last()).push(g),
            None => games_at(games, ids.drop_last()),
        }
    }
}

/// The games under the numbers 1 to `upto` that wait for a player, in
/// ascending order of their numbers.
pub open spec fn waiting_up_to(games: Seq<StoredGameView>, upto: nat) -> Seq<GameStateView>
    decreases upto,
{
    if upto == 0 {
        Seq::empty()
    } else {
        let before = waiting_up_to(games, (upto - 1) as nat);
        match game_at(games, upto as u64) {
            Some(g) => if g.status == GameStatus::WaitingForPlayer {
                before.push(g)
            } else {
                before
            },
            None => before,
        }
    }
}

impl ChessStateView {
    /// The registry after `creator` created a game at `timestamp`.
    pub open spec fn created(self, creator: Seq<char>, timestamp: u64) -> ChessStateView {
        let id = (self.game_counter + 1) as u64;
        ChessStateView {
            game_counter: id,
            games: with_game(self.games, id, new_game(id, creator, timestamp)),
            player_games: with_games_of(self.player_games, creator, games_of(self.player_games, creator).push(id)),
            ..self
        }
    }

    /// Whether `player` may join the game `game_id`, or why not.
    pub open spec fn join_check(self, game_id: u64, player: Seq<char>) -> Result<GameStateView, JoinError> {
        match game_at(self.games, game_id) {
            None => Err(JoinError::GameNotFound),
            Some(game) => if game.black_player is Some {
                Err(JoinError::GameFull)
            } else if game.white_player == player {
                Err(JoinError::OwnGame)
            } else {
                Ok(game)
            },
        }
    }

    /// The registry after `player` joined `game` as black.
    pub open spec fn joined(self, game_id: u64, game: GameStateView, player: Seq<char>) -> ChessStateView {
        let mine = games_of(self.player_games, player);
        ChessStateView {
            games: with_game(
                self.games,
                game_id,
                GameStateView { black_player: Some(player), status: GameStatus::InProgress, ..game },
            ),
            player_games: if mine.contains(game_id) {
                self.player_games
            } else {
                with_games_of(self.player_games, player, mine.push(game_id))
            },
            ..self
        }
    }

    /// The games that wait for a player, the newest first.
    pub open spec fn available(self) -> Seq<GameStateView> {
        let waiting = waiting_up_to(self.games, self.game_counter as nat);
        ranked_by(waiting, creation_times(waiting))
    }
}

/// Index of the game stored under `id`.
fn position_of_game(games: &Vec<StoredGame>, id: u64) -> (r: Option<usize>)
    ensures
        match r {
            Some(i) => i < games@.len() && games@[i as int].id == id && index_of(stored_ids(views_of(games@)), id)
                == Some(i as int),
            None => index_of(stored_ids(views_of(games@)), id) is None,
        },
{
    let ghost keys = stored_ids(views_of(games@));
    let mut i: usize = 0;
    while i < games.len()
        invariant
            keys == stored_ids(views_of(games@)),
            forall|j: int| 0 <= j < i && j < games.len() ==> #[trigger] keys[j] != id,
        decreases games.len() - i,
    {
        assert(keys[i as int] == games@[i as int].id);
        if games[i].id == id {
            proof {
                lemma_index_from_found(keys, id, 0, i as int);
            }
            return Some(i);
        }
        i += 1;
    }
    proof {
        lemma_index_from_none(keys, id, 0);
    }
    None
}

/// Index of the list of games of `player`.
fn position_of_player(lists: &Vec<PlayerGames>, player: &String) -> (r: Option<usize>)
    ensures
        match r {
            Some(i) => i < lists@.len() && lists@[i as int].player@ == player@ && index_of(
                listed_players(views_of(lists@)),
                player@,
            ) == Some(i as int),
            None => index_of(listed_players(views_of(lists@)), player@) is None,
        },
{
    let ghost keys = listed_players(views_of(lists@));
    let mut i: usize = 0;
    while i < lists.len()
        invariant
            keys == listed_players(views_of(lists@)),
            forall|j: int| 0 <= j < i && j < lists.len() ==> #[trigger] keys[j] != player@,
        decreases lists.len() - i,
    {
        assert(keys[i as int] == lists@[i as int].player@);
        if lists[i].player == *player {
            proof {
                lemma_index_from_found(keys, player@, 0, i as int);
            }
            return Some(i);
        }
        i += 1;
    }
    proof {
        lemma_index_from_none(keys, player@, 0);
    }
    None
}

/// The game stored under `id`.
fn find_game(games: &Vec<StoredGame>, id: u64) -> (r: Option<GameState>)
    ensures
        opt_view(r) == game_at(views_of(games@), id),
{
    match position_of_game(games, id) {
        Some(i) => Some(games[i].game.clone()),
        None => None,
    }
}

/// Stores `game` under `id`.
fn store_game(games: &mut Vec<StoredGame>, id: u64, game: GameState)
    ensures
        views_of(final(games)@) == with_game(views_of(old(games)@), id, game@),
{
    match position_of_game(games, id) {
        Some(i) => {
            games[i].game = game;
            assert(views_of(games@) =~= with_game(views_of(old(games)@), id, game@));
        },
        None => {
            let stored = StoredGame { id, game };
            proof {
                lemma_views_push(games@, stored);
            }
            games.push(stored);
        },
    }
}

/// The numbers of the games of `player`.
fn list_of(lists: &Vec<PlayerGames>, player: &String) -> (r: Vec<u64>)
    ensures
        r@ == games_of(views_of(lists@), player@),
{
    match position_of_player(lists, player) {
        Some(i) => {
            let r = lists[i].games.clone();
            assert(r@ =~= lists@[i as int].games@);
            r
        },
        None => Vec::new(),
    }
}

/// Makes `games` the games of `player`.
fn store_list(lists: &mut Vec<PlayerGames>, player: String, games: Vec<u64>)
    ensures
        views_of(final(lists)@) == with_games_of(views_of(old(lists)@), player@, games@),
{
    match position_of_player(lists, &player) {
        Some(i) => {
            lists[i].games = games;
            assert(views_of(lists@) =~= with_games_of(views_of(old(lists)@), player@, games@));
        },
        None => {
            let list = PlayerGames { player, games };
            proof {
                lemma_views_push(lists@, list);
            }
            lists.push(list);
        },
    }
}

/// Whether `id` is among `ids`.
fn contains_id(ids: &Vec<u64>, id: u64) -> (r: bool)
    ensures
        r == ids@.contains(id),
{
    let mut i: usize = 0;
    while i < ids.len()
        invariant
            forall|j: int| 0 <= j < i && j < ids.len() ==> #[trigger] ids@[j] != id,
        decreases ids.len() - i,
    {
        if ids[i] == id {
            return true;
        }
        i += 1;
    }
    false
}

impl ChessState {
    /// A registry without games.
    pub fn create_empty() -> (r: Self)
        ensures
            r@ == (ChessStateView {
                owner: None,
                games: Seq::empty(),
                game_counter: 0,
                player_games: Seq::empty(),
            }),
    {
        let r = ChessState { owner: None, games: Vec::new(), game_counter: 0, player_games: Vec::new() };
        assert(r@.games =~= Seq::empty());
        assert(r@.player_games =~= Seq::empty());
        r
    }

    /// Names the owner of the registry.
    pub fn set_owner(&mut self, owner: String)
        ensures
            final(self)@ == (ChessStateView { owner: Some(owner@), ..old(self)@ }),
    {
        self.owner = Some(owner);
    }

    /// Registers a new game of `creator`, who plays white, and returns its
    /// number, the next after the last one given.
    pub fn create_game(&mut self, creator: String, timestamp: u64) -> (r: u64)
        requires
            old(self).game_counter < u64::MAX,
        ensures
            r == old(self).game_counter + 1,
            final(self)@ == old(self)@.created(creator@, timestamp),
    {
        let game_id = self.game_counter + 1;
        self.game_counter = game_id;
        let game = GameState {
            game_id,
            white_player: creator.clone(),
            black_player: None,
            current_turn: Color::White,
            status: GameStatus::WaitingForPlayer,
            board: initial_board_text(),
            move_history: Vec::new(),
            created_at: timestamp,
            last_move_at: timestamp,
        };
        store_game(&mut self.games, game_id, game);
        let mut mine = list_of(&self.player_games, &creator);
        mine.push(game_id);
        store_list(&mut self.player_games, creator, mine);
        game_id
    }

    /// Lets `player` join the game `game_id` as black. A game that is not
    /// there, has two players or was created by `player` is left alone.
    pub fn join_game(&mut self, game_id: u64, player: String) -> (r: Result<(), JoinError>)
        ensures
            match old(self)@.join_check(game_id, player@) {
                Ok(game) => r is Ok && final(self)@ == old(self)@.joined(game_id, game, player@),
                Err(e) => r == Err::<(), JoinError>(e) && final(self)@ == old(self)@,
            },
    {
        let mut game = match find_game(&self.games, game_id) {
            None => {
                return Err(JoinError::GameNotFound);
            },
            Some(g) => g,
        };
        if game.black_player.is_some() {
            return Err(JoinError::GameFull);
        }
        if game.white_player == player {
            return Err(JoinError::OwnGame);
        }
        game.black_player = Some(player.clone());
        game.status = GameStatus::InProgress;
        store_game(&mut self.games, game_id, game);
        let mut mine = list_of(&self.player_games, &player);
        if !contains_id(&mine, game_id) {
            mine.push(game_id);
            store_list(&mut self.player_games, player, mine);
        }
        Ok(())
    }

    /// The game with the number `game_id`.
    pub fn get_game(&self, game_id: u64) -> (r: Option<GameState>)
        ensures
            opt_view(r) == game_at(self@.games, game_id),
    {
        find_game(&self.games, game_id)
    }

    /// The games of `player`, in the order in which the player came to them.
    pub fn get_player_games(&self, player: &String) -> (r: Vec<GameState>)
        ensures
            views_of(r@) == games_at(self@.games, games_of(self@.player_games, player@)),
    {
        let ids = list_of(&self.player_games, player);
        let mut out: Vec<GameState> = Vec::new();
        let mut i: usize = 0;
        assert(ids@.take(0) =~= Seq::empty());
        assert(views_of(out@) =~= Seq::empty());
        while i < ids.len()
            invariant
                i <= ids.len(),
                views_of(out@) == games_at(self@.games, ids@.take(i as int)),
            decreases ids.len() - i,
        {
            proof {
                assert(ids@.take(i as int + 1).drop_last() =~= ids@.take(i as int));
            }
            match find_game(&self.games, ids[i]) {
                Some(game) => {
                    proof {
                        lemma_views_push(out@, game);
                    }
                    out.push(game);
                },
                None => {},
            }
            i += 1;
        }
        assert(ids@.take(ids.len() as int) =~= ids@);
        out
    }

    /// The games that wait for a second player, the newest first.
    pub fn get_available_games(&self) -> (r: Vec<GameState>)
        ensures
            views_of(r@) == self@.available(),
    {
        let mut waiting: Vec<GameState> = Vec::new();
        let mut times: Vec<u64> = Vec::new();
        let mut id: u64 = 0;
        assert(views_of(waiting@) =~= Seq::empty());
        while id < self.game_counter
            invariant
                id <= self.game_counter,
                views_of(waiting@) == waiting_up_to(self@.games, id as nat),
                times@ == creation_times(views_of(waiting@)),
            decreases self.game_counter - id,
        {
            id += 1;
            match find_game(&self.games, id) {
                Some(game) => {
                    if game.status == GameStatus::WaitingForPlayer {
                        proof {
                            lemma_views_push(waiting@, game);
                            assert(creation_times(views_of(waiting@).push(game@)) =~= creation_times(
                                views_of(waiting@),
                            ).push(game.created_at));
                        }
                        times.push(game.created_at);
                        waiting.push(game);
                    }
                },
                None => {},
            }
        }
        let order = rank_indices(&times);
        let ghost goal = self@.available();
        let mut out: Vec<GameState> = Vec::new();
        let mut k: usize = 0;
        while k < order.len()
            invariant
                k <= order.len(),
                order@.len() == waiting@.len(),
                order@.map_values(|i: usize| i as int) == rank_order(times@),
                forall|j: int| 0 <= j < order@.len() ==> #[trigger] order@[j] < waiting@.len(),
                goal == ranked_by(views_of(waiting@), times@),
                out@.len() == k,
                forall|j: int| 0 <= j < k ==> #[trigger] out@[j]@ == goal[j],
            decreases order.len() - k,
        {
            assert(order@.map_values(|i: usize| i as int)[k as int] == order@[k as int] as int);
            out.push(waiting[order[k]].clone());
            k += 1;
        }
        assert(views_of(out@) =~= goal);
        out
    }

    /// Stores `game` under the number `game_id`.
    pub fn update_game(&mut self, game_id: u64, game: GameState)
        ensures
            final(self)@ == (ChessStateView { games: with_game(old(self)@.games, game_id, game@), ..old(self)@ }),
    {
        store_game(&mut self.games, game_id, game);
    }
}

} // verus!
