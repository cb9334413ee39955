//! The reducers of a chess replica: what the operations of its user and
//! the messages of its opponent do to the match it holds.

use vstd::prelude::*;
use crate::chain::{canonical_id, parse_chain_id};
use crate::chess::board::{ChessMove, Color};
use crate::chess::game::{
    initial_board, initial_board_text, CrossChainMessage, CrossChainMessageView, Game, GameView, MatchStatus,
    MoveRecord, MoveRecordView, Operation, OperationView, PlayerInfo, PlayerInfoView,
};
use crate::chess::rules::{
    can_match, describe, detect_game_end, find_opponent, game_end, opponent_of, play_move, replayable,
    reconstruct_position_from_moves, Standing,
};
use crate::protocol::{Context, ContextView};
use crate::text::{decimal_string, decimal_text, lemma_views_push, opt_view, views_of};

verus! {

/// Why a chess replica refused its input. A refused input leaves the
/// replica as it was.
#[derive(Debug, Clone, Copy, PartialEq, Eq, Structural)]
pub enum ChessRejection {
    /// The replica holds no match.
    MatchNotFound,
    /// The match is not under way with two players.
    MatchNotReady,
    /// It is the other side's turn.
    NotYourTurn,
    /// The moves of the match cannot be replayed.
    BrokenHistory,
    /// The move is not legal in the position of the match.
    InvalidMove,
    /// A text that has to address a replica denotes none.
    InvalidChainId,
    /// Only the host accepts players.
    NotHost,
    /// The match does not wait for a player.
    NotJoinable,
    /// The match has its two players.
    MatchFull,
}

/// A direct message on its way to the replica `target`.
#[derive(Debug, Clone, PartialEq, Eq)]
pub struct Outgoing {
    pub target: String,
    pub message: CrossChainMessage,
}

/// Mathematical value of an [`Outgoing`].
pub struct OutgoingView {
    pub target: Seq<char>,
    pub message: CrossChainMessageView,
}

impl View for Outgoing {
    type V = OutgoingView;

    open spec fn view(&self) -> OutgoingView {
        OutgoingView { target: self.target@, message: self.message@ }
    }
}

/// What a chess replica keeps: the match, two readiness flags and the last
/// notice for its user.
#[derive(Debug, Clone, PartialEq, Eq)]
pub struct ChessContract {
    pub game: Option<Game>,
    pub my_ready: bool,
    pub opponent_ready: bool,
    pub last_notification: Option<String>,
}

/// Mathematical value of a [`ChessContract`].
pub struct ChessContractView {
    pub game: Option<GameView>,
    pub my_ready: bool,
    pub opponent_ready: bool,
    pub last_notification: Option<Seq<char>>,
}

impl View for ChessContract {
    type V = ChessContractView;

    open spec fn view(&self) -> ChessContractView {
        ChessContractView {
            game: opt_view(self.game),
            my_ready: self.my_ready,
            opponent_ready: self.opponent_ready,
            last_notification: opt_view(self.last_notification),
        }
    }
}

/// What a chess reducer makes of an accepted input.
pub struct ChessOutcome {
    pub state: ChessContractView,
    pub messages: Seq<OutgoingView>,
}

/// What a chess reducer makes of an input.
pub type ChessStep = Result<ChessOutcome, ChessRejection>;

/// An accepted input.
pub open spec fn done(state: ChessContractView, messages: Seq<OutgoingView>) -> ChessStep {
    Ok(ChessOutcome { state, messages })
}

/// Whether a reducer that went from `pre` to `post` and returned `r` did
/// what `expected` says.
pub open spec fn performed(
    pre: ChessContractView,
    post: ChessContractView,
    r: Result<Vec<Outgoing>, ChessRejection>,
    expected: ChessStep,
) -> bool {
    match expected {
        Ok(o) => r is Ok && post == o.state && views_of(r->Ok_0@) == o.messages,
        Err(e) => r == Err::<Vec<Outgoing>, ChessRejection>(e) && post == pre,
    }
}

/// The other side.
pub open spec fn other_side(color: Color) -> Color {
    match color {
        Color::White => Color::Black,
        Color::Black => Color::White,
    }
}

/// The side that the replica `chain_id` plays in `game`: the host plays
/// white, the guest black.
pub open spec fn side_of(game: GameView, chain_id: Seq<char>) -> Color {
    if game.host_chain_id == chain_id {
        Color::White
    } else {
        Color::Black
    }
}

/// The number of the move that comes after `played` moves.
pub open spec fn next_move_number(played: nat) -> u32 {
    if played >= u32::MAX {
        u32::MAX
    } else {
        (played + 1) as u32
    }
}

/// The match after `side` has played `chess_move` at `timestamp`, which led
/// to the board `fen_after` and, where `end` is there, to the end of the
/// match.
pub open spec fn recorded(
    game: GameView,
    chess_move: ChessMove,
    side: Color,
    timestamp: Seq<char>,
    fen_after: Seq<char>,
    end: Option<(MatchStatus, Option<Seq<char>>)>,
) -> GameView {
    GameView {
        status: match end {
            Some(e) => e.0,
            None => game.status,
        },
        winner_chain_id: match end {
            Some(e) => e.1,
            None => game.winner_chain_id,
        },
        move_history: game.move_history.push(
            MoveRecordView {
                move_number: next_move_number(game.move_history.len()),
                chess_move: chess_move,
                player_color: side,
                timestamp: timestamp,
                fen_after: fen_after,
            },
        ),
        current_turn: other_side(game.current_turn),
        last_move_at: Some(timestamp),
        board: fen_after,
        ..game
    }
}

/// Whether `side` may move in `game`: the match is under way with two
/// players and it is that side's turn.
pub open spec fn turn_check(game: Option<GameView>, side_is_host: bool, chain_id: Seq<char>) -> Result<
    Color,
    ChessRejection,
> {
    match game {
        None => Err(ChessRejection::MatchNotFound),
        Some(g) => if g.status != MatchStatus::Active || g.players.len() != 2 {
            Err(ChessRejection::MatchNotReady)
        } else {
            let mine = side_of(g, chain_id);
            let side = if side_is_host {
                mine
            } else {
                other_side(mine)
            };
            if g.current_turn != side {
                Err(ChessRejection::NotYourTurn)
            } else {
                Ok(side)
            }
        },
    }
}

/// The message for the opponent of `chain_id`, where the match has one
/// that can be addressed.
pub open spec fn to_opponent(game: GameView, chain_id: Seq<char>, message: CrossChainMessageView) -> Seq<
    OutgoingView,
> {
    match opponent_of(game.players, chain_id) {
        Some(o) => match canonical_id(o) {
            Some(t) => seq![OutgoingView { target: t, message: message }],
            None => Seq::empty(),
        },
        None => Seq::empty(),
    }
}

/// No messages.
pub fn no_messages() -> (r: Vec<Outgoing>)
    ensures
        views_of(r@) == Seq::<OutgoingView>::empty(),
{
    let r: Vec<Outgoing> = Vec::new();
    assert(views_of(r@) =~= Seq::<OutgoingView>::empty());
    r
}

/// The message for the opponent of `chain_id`.
pub fn message_to_opponent(game: &Game, chain_id: &String, message: CrossChainMessage) -> (r: Vec<Outgoing>)
    ensures
        views_of(r@) == to_opponent(game@, chain_id@, message@),
{
    let mut out: Vec<Outgoing> = Vec::new();
    match find_opponent(&game.players, chain_id) {
        Some(o) => match parse_chain_id(o.as_str()) {
            Some(target) => {
                out.push(Outgoing { target, message });
            },
            None => {},
        },
        None => {},
    }
    assert(views_of(out@) =~= to_opponent(game@, chain_id@, message@));
    out
}

/// Writes a move into the match: the record of the move, the new board,
/// the turn of the other side and, where the position ends the match, the
/// end and its winner.
pub fn record_move(
    game: &mut Game,
    chess_move: ChessMove,
    side: Color,
    timestamp: String,
    fen_after: String,
    standing: Standing,
    self_chain: &String,
)
    ensures
        final(game)@ == recorded(
            old(game)@,
            chess_move,
            side,
            timestamp@,
            fen_after@,
            game_end(standing, old(game)@.players, self_chain@),
        ),
{
    match detect_game_end(standing, side, &game.players, self_chain) {
        Some((status, winner)) => {
            game.status = status;
            game.winner_chain_id = winner;
        },
        None => {},
    }
    let played = game.move_history.len();
    let move_number = if played >= u32::MAX as usize {
        u32::MAX
    } else {
        (played + 1) as u32
    };
    let record = MoveRecord {
        move_number,
        chess_move,
        player_color: side,
        timestamp: timestamp.clone(),
        fen_after: fen_after.clone(),
    };
    proof {
        lemma_views_push(game.move_history@, record);
    }
    game.move_history.push(record);
    game.current_turn = match game.current_turn {
        Color::White => Color::Black,
        Color::Black => Color::White,
    };
    game.last_move_at = Some(timestamp);
    game.board = fen_after;
}

/// Checks that the side of this replica, or the other side, may move.
pub fn check_turn(game: &Option<Game>, side_is_host: bool, chain_id: &String) -> (r: Result<Color, ChessRejection>)
    ensures
        r == turn_check(opt_view(*game), side_is_host, chain_id@),
{
    match game {
        None => Err(ChessRejection::MatchNotFound),
        Some(g) => {
            if g.status != MatchStatus::Active || g.players.len() != 2 {
                return Err(ChessRejection::MatchNotReady);
            }
            let is_host = g.host_chain_id == *chain_id;
            let white = is_host == side_is_host;
            let side = if white {
                Color::White
            } else {
                Color::Black
            };
            if g.current_turn != side {
                Err(ChessRejection::NotYourTurn)
            } else {
                Ok(side)
            }
        },
    }
}

/// A fresh match with this replica as its host, who plays white.
pub open spec fn created_match(ctx: ContextView, host_name: Seq<char>) -> GameView {
    GameView {
        match_id: decimal_text(ctx.now_micros as nat),
        host_chain_id: ctx.chain_id,
        status: MatchStatus::WaitingForPlayer,
        players: seq![PlayerInfoView { chain_id: ctx.chain_id, name: host_name }],
        current_turn: Color::White,
        board: initial_board(),
        move_history: Seq::empty(),
        created_at: decimal_text(ctx.now_micros as nat),
        last_move_at: None,
        winner_chain_id: None,
    }
}

/// The match after `chain_id` resigned: it has ended, won by the other
/// player. A host without an opponent leaves the winner as it was.
pub open spec fn resigned(game: GameView, chain_id: Seq<char>) -> GameView {
    GameView {
        status: MatchStatus::Ended,
        winner_chain_id: if game.host_chain_id == chain_id {
            match opponent_of(game.players, chain_id) {
                Some(o) => Some(o),
                None => game.winner_chain_id,
            }
        } else {
            Some(game.host_chain_id)
        },
        ..game
    }
}

/// What a chess replica makes of an operation that needs no look at the
/// board.
pub open spec fn plain_operation_step(s: ChessContractView, ctx: ContextView, operation: OperationView) -> ChessStep {
    match operation {
        OperationView::CreateMatch { host_name } => done(
            ChessContractView {
                game: Some(created_match(ctx, host_name)),
                my_ready: false,
                opponent_ready: false,
                last_notification: None,
            },
            Seq::empty(),
        ),
        OperationView::JoinMatch { host_chain_id, player_name } => match canonical_id(host_chain_id) {
            None => Err(ChessRejection::InvalidChainId),
            Some(t) => done(
                s,
                seq![
                    OutgoingView {
                        target: t,
                        message: CrossChainMessageView::JoinRequest {
                            player_chain_id: ctx.chain_id,
                            player_name: player_name,
                        },
                    },
                ],
            ),
        },
        OperationView::ResignMatch => match s.game {
            None => Err(ChessRejection::MatchNotFound),
            Some(game) => done(
                ChessContractView { game: Some(resigned(game, ctx.chain_id)), ..s },
                to_opponent(game, ctx.chain_id, CrossChainMessageView::ResignNotice { player_chain_id: ctx.chain_id }),
            ),
        },
        OperationView::EndGame { status } => match s.game {
            None => Err(ChessRejection::MatchNotFound),
            Some(game) => done(
                ChessContractView { game: Some(GameView { status: status, ..game }), ..s },
                to_opponent(
                    game,
                    ctx.chain_id,
                    CrossChainMessageView::GameEndNotice { player_chain_id: ctx.chain_id, status: status },
                ),
            ),
        },
        OperationView::MakeMove { chess_move } => done(s, Seq::empty()),
    }
}

/// What holds after a move of this replica's user, whatever the rules of
/// chess made of it. A match that is not ready for the move refuses it for
/// that reason. An accepted move is recorded for the side of this replica
/// with some board and some standing, and goes to the opponent.
pub open spec fn move_made(
    pre: ChessContractView,
    post: ChessContractView,
    r: Result<Vec<Outgoing>, ChessRejection>,
    ctx: ContextView,
    chess_move: ChessMove,
) -> bool {
    match r {
        Err(e) => post == pre && match turn_check(pre.game, true, ctx.chain_id) {
            Err(reason) => e == reason,
            Ok(_) => e == ChessRejection::BrokenHistory || e == ChessRejection::InvalidMove,
        },
        Ok(messages) => turn_check(pre.game, true, ctx.chain_id) is Ok && (exists|
            fen_after: Seq<char>,
            standing: Standing,
        |
            post == (ChessContractView {
                game: Some(
                    #[trigger] recorded(
                        pre.game.unwrap(),
                        chess_move,
                        turn_check(pre.game, true, ctx.chain_id).unwrap(),
                        decimal_text(ctx.now_micros as nat),
                        fen_after,
                        game_end(standing, pre.game.unwrap().players, ctx.chain_id),
                    ),
                ),
                ..pre
            })) && views_of(messages@) == to_opponent(
            pre.game.unwrap(),
            ctx.chain_id,
            CrossChainMessageView::MoveSync { chess_move: chess_move, player_chain_id: ctx.chain_id },
        ),
    }
}

/// Whether a move of the opponent is dropped before the rules of chess are
/// asked about it: the match is not ready for it, the moves played so far
/// cannot be replayed, or the move can go with no legal move.
pub open spec fn move_dropped(pre: ChessContractView, ctx: ContextView, chess_move: ChessMove) -> bool {
    turn_check(pre.game, false, ctx.chain_id) is Err || !replayable(pre.game.unwrap().move_history) || !can_match(
        chess_move,
    )
}

/// What holds after a move of the opponent has arrived. A move that is
/// dropped before the rules of chess are asked changes nothing. For any
/// other move it is up to the rules: either nothing has changed, or the
/// move is recorded for the opponent's side with some board and some
/// standing. Nothing is sent.
pub open spec fn move_received(
    pre: ChessContractView,
    post: ChessContractView,
    ctx: ContextView,
    chess_move: ChessMove,
    timestamp: Seq<char>,
) -> bool {
    if move_dropped(pre, ctx, chess_move) {
        post == pre
    } else {
        ||| post == pre
        ||| exists|fen_after: Seq<char>, standing: Standing|
            post == (ChessContractView {
                game: Some(
                    #[trigger] recorded(
                        pre.game.unwrap(),
                        chess_move,
                        turn_check(pre.game, false, ctx.chain_id).unwrap(),
                        timestamp,
                        fen_after,
                        game_end(standing, pre.game.unwrap().players, ctx.chain_id),
                    ),
                ),
                ..pre
            })
    }
}

/// What a chess replica makes of a message that needs no look at the
/// board.
pub open spec fn plain_message_step(s: ChessContractView, ctx: ContextView, message: CrossChainMessageView) -> ChessStep {
    match message {
        CrossChainMessageView::JoinRequest { player_chain_id, player_name } => match s.game {
            None => Err(ChessRejection::MatchNotFound),
            Some(game) => if game.host_chain_id != ctx.chain_id {
                Err(ChessRejection::NotHost)
            } else if game.status != MatchStatus::WaitingForPlayer {
                Err(ChessRejection::NotJoinable)
            } else if game.players.len() >= 2 {
                Err(ChessRejection::MatchFull)
            } else {
                match canonical_id(player_chain_id) {
                    None => Err(ChessRejection::InvalidChainId),
                    Some(c) => {
                        let joined = GameView {
                            players: game.players.push(PlayerInfoView { chain_id: c, name: player_name }),
                            status: MatchStatus::Active,
                            ..game
                        };
                        done(
                            ChessContractView {
                                game: Some(joined),
                                my_ready: false,
                                opponent_ready: false,
                                last_notification: Some("Player joined"@),
                            },
                            seq![
                                OutgoingView {
                                    target: c,
                                    message: CrossChainMessageView::InitialStateSync { game: joined },
                                },
                            ],
                        )
                    },
                }
            },
        },
        CrossChainMessageView::InitialStateSync { game } => done(
            ChessContractView {
                game: Some(game),
                my_ready: false,
                opponent_ready: false,
                last_notification: Some("Match ready"@),
            },
            Seq::empty(),
        ),
        CrossChainMessageView::GameSync { game } => done(
            ChessContractView { game: Some(game), my_ready: false, opponent_ready: false, ..s },
            Seq::empty(),
        ),
        CrossChainMessageView::ResignNotice { player_chain_id } => match s.game {
            None => done(s, Seq::empty()),
            Some(game) => done(
                ChessContractView {
                    game: Some(
                        GameView { status: MatchStatus::Ended, winner_chain_id: Some(ctx.chain_id), ..game },
                    ),
                    last_notification: Some("Opponent resigned"@),
                    ..s
                },
                Seq::empty(),
            ),
        },
        CrossChainMessageView::GameEndNotice { player_chain_id, status } => match s.game {
            None => done(s, Seq::empty()),
            Some(game) => done(
                ChessContractView {
                    game: Some(GameView { status: status, ..game }),
                    last_notification: Some("Game ended"@),
                    ..s
                },
                Seq::empty(),
            ),
        },
        CrossChainMessageView::MoveSync { chess_move, player_chain_id } => done(s, Seq::empty()),
    }
}

impl ChessContract {
    /// A replica without a match.
    pub fn new() -> (r: Self)
        ensures
            r@ == (ChessContractView { game: None, my_ready: false, opponent_ready: false, last_notification: None }),
    {
        ChessContract { game: None, my_ready: false, opponent_ready: false, last_notification: None }
    }

    /// Puts the replica into its starting state, without a match.
    pub fn instantiate(&mut self)
        ensures
            final(self)@ == (ChessContractView {
                game: None,
                my_ready: false,
                opponent_ready: false,
                last_notification: None,
            }),
    {
        self.game = None;
        self.reset_local_state();
        self.last_notification = None;
    }

    /// Clears both readiness flags.
    pub fn reset_local_state(&mut self)
        ensures
            final(self)@ == (ChessContractView { my_ready: false, opponent_ready: false, ..old(self)@ }),
    {
        self.my_ready = false;
        self.opponent_ready = false;
    }

    /// Plays a move of this replica's user and tells the opponent.
    pub fn make_move(&mut self, ctx: &Context, chess_move: ChessMove) -> (r: Result<Vec<Outgoing>, ChessRejection>)
        ensures
            move_made(old(self)@, final(self)@, r, ctx@, chess_move),
    {
        let side = match check_turn(&self.game, true, &ctx.chain_id) {
            Err(e) => {
                return Err(e);
            },
            Ok(side) => side,
        };
        let mut game = match &self.game {
            None => {
                return Err(ChessRejection::MatchNotFound);
            },
            Some(g) => g.clone(),
        };
        let position = match reconstruct_position_from_moves(&game.move_history) {
            Err(_) => {
                return Err(ChessRejection::BrokenHistory);
            },
            Ok(p) => p,
        };
        let position = match play_move(position, &chess_move) {
            Err(_) => {
                return Err(ChessRejection::InvalidMove);
            },
            Ok(p) => p,
        };
        let (fen_after, standing) = describe(&position);
        let out = message_to_opponent(
            &game,
            &ctx.chain_id,
            CrossChainMessage::MoveSync { chess_move, player_chain_id: ctx.chain_id.clone() },
        );
        let ghost before = game@;
        let ghost fen = fen_after@;
        record_move(
            &mut game,
            chess_move,
            side,
            decimal_string(ctx.now_micros as u128),
            fen_after,
            standing,
            &ctx.chain_id,
        );
        assert(game@ == recorded(
            before,
            chess_move,
            side,
            decimal_text(ctx.now_micros as nat),
            fen,
            game_end(standing, before.players, ctx.chain_id@),
        ));
        self.game = Some(game);
        Ok(out)
    }

    /// Applies a move of the opponent: replays the match, plays the move
    /// and records it with the board and the standing it leads to. A move
    /// that does not fit the match changes nothing.
    pub fn receive_move(&mut self, ctx: &Context, chess_move: ChessMove)
        ensures
            move_received(old(self)@, final(self)@, ctx@, chess_move, decimal_text(ctx.now_micros as nat)),
    {
        let side = match check_turn(&self.game, false, &ctx.chain_id) {
            Err(_) => {
                return ;
            },
            Ok(side) => side,
        };
        let mut game = match &self.game {
            None => {
                return ;
            },
            Some(g) => g.clone(),
        };
        let position = match reconstruct_position_from_moves(&game.move_history) {
            Err(_) => {
                return ;
            },
            Ok(p) => p,
        };
        let position = match play_move(position, &chess_move) {
            Err(_) => {
                return ;
            },
            Ok(p) => p,
        };
        let (fen_after, standing) = describe(&position);
        let ghost before = game@;
        let ghost fen = fen_after@;
        record_move(
            &mut game,
            chess_move,
            side,
            decimal_string(ctx.now_micros as u128),
            fen_after,
            standing,
            &ctx.chain_id,
        );
        assert(game@ == recorded(
            before,
            chess_move,
            side,
            decimal_text(ctx.now_micros as nat),
            fen,
            game_end(standing, before.players, ctx.chain_id@),
        ));
        self.game = Some(game);
    }

    /// Applies an operation of the replica's user. A refused operation
    /// leaves the replica as it was.
    pub fn execute_operation(&mut self, ctx: &Context, operation: Operation) -> (r: Result<
        Vec<Outgoing>,
        ChessRejection,
    >)
        ensures
            match operation@ {
                OperationView::MakeMove { chess_move } => move_made(old(self)@, final(self)@, r, ctx@, chess_move),
                _ => performed(old(self)@, final(self)@, r, plain_operation_step(old(self)@, ctx@, operation@)),
            },
    {
        match operation {
            Operation::CreateMatch { host_name } => {
                let timestamp = decimal_string(ctx.now_micros as u128);
                let mut players: Vec<PlayerInfo> = Vec::new();
                players.push(PlayerInfo { chain_id: ctx.chain_id.clone(), name: host_name });
                let game = Game {
                    match_id: timestamp.clone(),
                    host_chain_id: ctx.chain_id.clone(),
                    status: MatchStatus::WaitingForPlayer,
                    players,
                    current_turn: Color::White,
                    board: initial_board_text(),
                    move_history: Vec::new(),
                    created_at: timestamp,
                    last_move_at: None,
                    winner_chain_id: None,
                };
                assert(game@.players =~= created_match(ctx@, host_name@).players);
                assert(game@.move_history =~= Seq::empty());
                self.game = Some(game);
                self.reset_local_state();
                self.last_notification = None;
                Ok(no_messages())
            },
            Operation::JoinMatch { host_chain_id, player_name } => {
                match parse_chain_id(host_chain_id.as_str()) {
                    None => Err(ChessRejection::InvalidChainId),
                    Some(target) => {
                        let mut out: Vec<Outgoing> = Vec::new();
                        out.push(
                            Outgoing {
                                target,
                                message: CrossChainMessage::JoinRequest {
                                    player_chain_id: ctx.chain_id.clone(),
                                    player_name,
                                },
                            },
                        );
                        assert(views_of(out@) =~= seq![out@[0]@]);
                        Ok(out)
                    },
                }
            },
            Operation::MakeMove { chess_move } => self.make_move(ctx, chess_move),
            Operation::ResignMatch => {
                let mut game = match &self.game {
                    None => {
                        return Err(ChessRejection::MatchNotFound);
                    },
                    Some(g) => g.clone(),
                };
                let out = message_to_opponent(
                    &game,
                    &ctx.chain_id,
                    CrossChainMessage::ResignNotice { player_chain_id: ctx.chain_id.clone() },
                );
                game.status = MatchStatus::Ended;
                if game.host_chain_id == ctx.chain_id {
                    match find_opponent(&game.players, &ctx.chain_id) {
                        Some(guest) => {
                            game.winner_chain_id = Some(guest);
                        },
                        None => {},
                    }
                } else {
                    game.winner_chain_id = Some(game.host_chain_id.clone());
                }
                self.game = Some(game);
                Ok(out)
            },
            Operation::EndGame { status } => {
                let mut game = match &self.game {
                    None => {
                        return Err(ChessRejection::MatchNotFound);
                    },
                    Some(g) => g.clone(),
                };
                let out = message_to_opponent(
                    &game,
                    &ctx.chain_id,
                    CrossChainMessage::GameEndNotice { player_chain_id: ctx.chain_id.clone(), status },
                );
                game.status = status;
                self.game = Some(game);
                Ok(out)
            },
        }
    }

    /// Applies a direct message. A refused message leaves the replica as it
    /// was.
    pub fn execute_message(&mut self, ctx: &Context, message: CrossChainMessage) -> (r: Result<
        Vec<Outgoing>,
        ChessRejection,
    >)
        ensures
            match message@ {
                CrossChainMessageView::MoveSync { chess_move, player_chain_id } => r is Ok && views_of(
                    r.unwrap()@,
                ) == Seq::<OutgoingView>::empty() && move_received(
                    old(self)@,
                    final(self)@,
                    ctx@,
                    chess_move,
                    decimal_text(ctx.now_micros as nat),
                ),
                _ => performed(old(self)@, final(self)@, r, plain_message_step(old(self)@, ctx@, message@)),
            },
    {
        match message {
            CrossChainMessage::JoinRequest { player_chain_id, player_name } => {
                let mut game = match &self.game {
                    None => {
                        return Err(ChessRejection::MatchNotFound);
                    },
                    Some(g) => g.clone(),
                };
                if game.host_chain_id != ctx.chain_id {
                    return Err(ChessRejection::NotHost);
                }
                if game.status != MatchStatus::WaitingForPlayer {
                    return Err(ChessRejection::NotJoinable);
                }
                if game.players.len() >= 2 {
                    return Err(ChessRejection::MatchFull);
                }
                let id = match parse_chain_id(player_chain_id.as_str()) {
                    None => {
                        return Err(ChessRejection::InvalidChainId);
                    },
                    Some(c) => c,
                };
                let player = PlayerInfo { chain_id: id.clone(), name: player_name };
                proof {
                    lemma_views_push(game.players@, player);
                }
                game.players.push(player);
                game.status = MatchStatus::Active;
                let mut out: Vec<Outgoing> = Vec::new();
                out.push(Outgoing { target: id, message: CrossChainMessage::InitialStateSync { game: game.clone() } });
                assert(views_of(out@) =~= seq![out@[0]@]);
                self.game = Some(game);
                self.my_ready = false;
                self.opponent_ready = false;
                self.last_notification = Some(String::from_str("Player joined"));
                Ok(out)
            },
            CrossChainMessage::InitialStateSync { game } => {
                self.game = Some(game);
                self.reset_local_state();
                self.last_notification = Some(String::from_str("Match ready"));
                Ok(no_messages())
            },
            CrossChainMessage::GameSync { game } => {
                self.game = Some(game);
                self.reset_local_state();
                Ok(no_messages())
            },
            CrossChainMessage::MoveSync { chess_move, player_chain_id } => {
                self.receive_move(ctx, chess_move);
                Ok(no_messages())
            },
            CrossChainMessage::ResignNotice { player_chain_id } => {
                let mut game = match &self.game {
                    None => {
                        return Ok(no_messages());
                    },
                    Some(g) => g.clone(),
                };
                game.status = MatchStatus::Ended;
                game.winner_chain_id = Some(ctx.chain_id.clone());
                self.game = Some(game);
                self.last_notification = Some(String::from_str("Opponent resigned"));
                Ok(no_messages())
            },
            CrossChainMessage::GameEndNotice { player_chain_id, status } => {
                let mut game = match &self.game {
                    None => {
                        return Ok(no_messages());
                    },
                    Some(g) => g.clone(),
                };
                game.status = status;
                self.game = Some(game);
                self.last_notification = Some(String::from_str("Game ended"));
                Ok(no_messages())
            },
        }
    }
}

} // verus!
