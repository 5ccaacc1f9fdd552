use vstd::prelude::*;

use crate::board::Mark;
use crate::board::board_empty;
use crate::board::board_full;
use crate::board::has_winner;

verus! {

/// Static configuration: the owner identity, fixed at instantiation.
#[derive(Clone, Debug, PartialEq, Eq)]
pub struct Config {
    pub owner: String,
}

/// The allocator counter: the next game id to hand out. It starts at 0,
/// advances by exactly 1 on every successful creation, and never goes
/// back, so ids are unique and monotonically increasing.
#[derive(Clone, Copy, Debug, PartialEq, Eq, Structural)]
pub struct State {
    pub latest_game_id: u64,
}

/// The lifecycle of a game only ever moves forward:
/// `Open` -> `InProgress` -> `Completed`, with resignation allowed to end
/// an `InProgress` game directly.
#[derive(Clone, Copy, Debug, PartialEq, Eq, Structural)]
pub enum GameStatus {
    /// Awaiting a second participant.
    Open,
    /// Accepting moves.
    InProgress,
    /// Terminal; no further mutation is accepted.
    Completed,
}

/// The central entity: one hosted game.
#[derive(Clone, Debug, PartialEq, Eq)]
pub struct Game {
    /// Unique id, assigned once at creation and immutable afterwards.
    pub id: u64,
    /// Participant identities. While `Open` it holds the creator alone;
    /// from `InProgress` on, index 0 is the participant who holds mark
    /// "X" and moves first, index 1 holds "O".
    pub players: Vec<String>,
    pub status: GameStatus,
    /// The nine cells in row-major order (cell 0 is position 1, top
    /// left; cell 8 is position 9, bottom right).
    pub moves: Vec<Mark>,
    /// The participant allowed to submit the next move; meaningful only
    /// while `InProgress`.
    pub next_turn: Option<String>,
    /// The winning participant; set only once `Completed`, absent for a
    /// draw.
    pub winner: Option<String>,
}

/// The mathematical model of a `Game`: identities as character
/// sequences, the board as a sequence of marks.
#[verifier::ext_equal]
pub ghost struct GameView {
    pub id: u64,
    pub players: Seq<Seq<char>>,
    pub status: GameStatus,
    pub moves: Seq<Mark>,
    pub next_turn: Option<Seq<char>>,
    pub winner: Option<Seq<char>>,
}

impl View for Game {
    type V = GameView;

    open spec fn view(&self) -> GameView {
        GameView {
            id: self.id,
            players: self.players.deep_view(),
            status: self.status,
            moves: self.moves@,
            next_turn: self.next_turn.deep_view(),
            winner: self.winner.deep_view(),
        }
    }
}

/// The structural invariant every stored game satisfies: a board of nine
/// cells, still untouched while `Open`; one player while `Open` and two
/// distinct players afterwards; while `InProgress` the turn belongs to
/// one of the two players and the board is neither won nor full (a won
/// or full board completes the game at once); a winner exists only in a
/// `Completed` game and is one of the players.
pub open spec fn game_wf(g: GameView) -> bool {
    &&& g.moves.len() == 9
    &&& (g.status == GameStatus::Open ==> g.players.len() == 1 && g.next_turn is None
        && board_empty(g.moves))
    &&& (g.status != GameStatus::Open ==> g.players.len() == 2 && g.players[0] != g.players[1])
    &&& (g.status == GameStatus::InProgress ==> (g.next_turn matches Some(t) && (t == g.players[0]
        || t == g.players[1])) && !has_winner(g.moves) && !board_full(g.moves))
    &&& (g.winner matches Some(w) ==> g.status == GameStatus::Completed && (w == g.players[0]
        || w == g.players[1]))
}

#[derive(Clone, Debug, PartialEq, Eq)]
pub struct InstantiateMsg {
    /// The owner to record; the caller's own identity when absent.
    pub owner: Option<String>,
}

/// The four externally exposed operations, each carrying its payload.
#[derive(Clone, Copy, Debug, PartialEq, Eq, Structural)]
pub enum ExecuteMsg {
    CreateGame(CreateGameMsg),
    JoinGame(JoinGameMsg),
    SubmitMove(SubmitMoveMsg),
    Resign(ResignMsg),
}

#[derive(Clone, Copy, Debug, PartialEq, Eq, Structural)]
pub struct CreateGameMsg {
}

#[derive(Clone, Copy, Debug, PartialEq, Eq, Structural)]
pub struct JoinGameMsg {
    pub game_id: u64,
}

#[derive(Clone, Copy, Debug, PartialEq, Eq, Structural)]
pub struct SubmitMoveMsg {
    pub game_id: u64,
    /// Position 1 (top left) through 9 (bottom right).
    pub position: u8,
}

#[derive(Clone, Copy, Debug, PartialEq, Eq, Structural)]
pub struct ResignMsg {
    pub game_id: u64,
}

/// The success descriptor an accepted operation returns: the operation,
/// the game acted on, and the operation-specific outcome.
#[derive(Clone, Debug, PartialEq, Eq)]
pub enum Reply {
    Created { game_id: u64, player: String },
    /// `first_mover` is the participant assigned mark "X".
    Joined { game_id: u64, first_mover: String },
    /// `role` is the mark written at `position`.
    Moved { game_id: u64, position: u8, role: Mark },
    /// `winner` is the opponent of the resigner.
    Resigned { game_id: u64, winner: String },
}

} // verus!
