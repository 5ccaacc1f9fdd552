use vstd::prelude::*;

use crate::board::Mark;
use crate::board::board_full;
use crate::board::board_is_empty;
use crate::board::board_is_full;
use crate::board::check_winner;
use crate::board::has_winner;
use crate::board::lemma_empty_board_open;
use crate::board::lemma_no_win_for_opponent;
use crate::board::lemma_unique_winner;
use crate::board::wins;
use crate::error::ContractError;
use crate::fairness::assign_first_mover;
use crate::fairness::creator_first;
use crate::msg::Config;
use crate::msg::CreateGameMsg;
use crate::msg::ExecuteMsg;
use crate::msg::Game;
use crate::msg::GameStatus;
use crate::msg::GameView;
use crate::msg::InstantiateMsg;
use crate::msg::JoinGameMsg;
use crate::msg::Reply;
use crate::msg::ResignMsg;
use crate::msg::State;
use crate::msg::SubmitMoveMsg;
use crate::msg::game_wf;

verus! {

/// The game a creation produces: open, one player, an untouched board,
/// no turn assigned yet.
pub open spec fn spec_create(id: u64, creator: Seq<char>) -> GameView {
    GameView {
        id: id,
        players: seq![creator],
        status: GameStatus::Open,
        moves: Seq::new(9, |i: int| Mark::Empty),
        next_turn: None,
        winner: None,
    }
}

/// A join is accepted exactly when the game still awaits a second
/// participant and the joiner is not the creator.
pub open spec fn join_ok(g: GameView, joiner: Seq<char>) -> bool {
    g.status == GameStatus::Open && g.players[0] != joiner
}

/// The rejection a refused join reports.
pub open spec fn join_error(g: GameView, joiner: Seq<char>) -> ContractError {
    if g.status != GameStatus::Open {
        ContractError::CantJoinGame {}
    } else {
        ContractError::Unauthorized {}
    }
}

/// The game an accepted join produces: both participants stored with the
/// first mover at index 0, the turn handed to the first mover, and the
/// game in progress. Who moves first is FairnessAssigner's decision over
/// the ordered pair (creator, joiner).
pub open spec fn spec_join(g: GameView, joiner: Seq<char>) -> GameView {
    let creator = g.players[0];
    if creator_first(creator, joiner) {
        GameView {
            players: seq![creator, joiner],
            status: GameStatus::InProgress,
            next_turn: Some(creator),
            ..g
        }
    } else {
        GameView {
            players: seq![joiner, creator],
            status: GameStatus::InProgress,
            next_turn: Some(joiner),
            ..g
        }
    }
}

/// The mark a mover writes: "X" for the first mover, "O" for the second.
pub open spec fn mark_of(g: GameView, mover: Seq<char>) -> Mark {
    if g.players[0] == mover {
        Mark::X
    } else {
        Mark::O
    }
}

/// The participant other than `mover`.
pub open spec fn other_player(g: GameView, mover: Seq<char>) -> Seq<char> {
    if g.players[0] == mover {
        g.players[1]
    } else {
        g.players[0]
    }
}

/// A move is accepted exactly when the game is accepting moves, the
/// position lies in the 1..=9 range, the addressed cell is free, and the
/// turn belongs to the mover.
pub open spec fn move_ok(g: GameView, mover: Seq<char>, position: u8) -> bool {
    &&& g.status == GameStatus::InProgress
    &&& 1 <= position <= 9
    &&& g.moves[position - 1] == Mark::Empty
    &&& g.next_turn == Some(mover)
}

/// The rejection a refused move reports; the checks run in a fixed order
/// so error reporting is reproducible.
pub open spec fn move_error(g: GameView, mover: Seq<char>, position: u8) -> ContractError {
    if g.status != GameStatus::InProgress {
        ContractError::GameNotInProgress {}
    } else if !(1 <= position <= 9) {
        ContractError::InvalidPosition { position }
    } else if g.moves[position - 1] != Mark::Empty {
        ContractError::PositionTaken {}
    } else {
        ContractError::NotYourTurn {}
    }
}

/// The game an accepted move produces: the mover's mark lands in the
/// addressed cell; a completed line makes the mover the winner and
/// completes the game; a full board without a line completes it as a
/// draw; otherwise the turn flips to the other participant.
pub open spec fn spec_apply_move(g: GameView, mover: Seq<char>, position: u8) -> GameView {
    let mk = mark_of(g, mover);
    let nb = g.moves.update(position - 1, mk);
    GameView {
        moves: nb,
        status: if board_full(nb) || wins(nb, mk) {
            GameStatus::Completed
        } else {
            GameStatus::InProgress
        },
        winner: if wins(nb, mk) {
            Some(mover)
        } else {
            None
        },
        next_turn: Some(other_player(g, mover)),
        ..g
    }
}

/// The game a resignation produces: completed, with the resigner's
/// opponent recorded as the winner.
pub open spec fn spec_resign(g: GameView, resigner: Seq<char>) -> GameView {
    GameView {
        status: GameStatus::Completed,
        winner: Some(other_player(g, resigner)),
        ..g
    }
}

/// Records the configuration and starts the id counter at zero. The
/// owner defaults to the caller when the message names none.
pub fn instantiate(sender: String, msg: InstantiateMsg) -> (r: (Config, State))
    ensures
        r.0.owner@ == (match msg.owner {
            Some(o) => o@,
            None => sender@,
        }),
        r.1.latest_game_id == 0,
{
    let owner: String = match msg.owner {
        Some(o) => o,
        None => sender,
    };
    (Config { owner }, State { latest_game_id: 0 })
}

/// SequenceAllocator: hands out the current counter value as the new
/// game's id and advances the counter by exactly one, so ids are unique
/// and never reused.
pub fn allocate_id(state: &mut State) -> (id: u64)
    requires
        old(state).latest_game_id < u64::MAX,
    ensures
        id == old(state).latest_game_id,
        final(state).latest_game_id == id + 1,
{
    let id: u64 = state.latest_game_id;
    state.latest_game_id = id + 1;
    id
}

/// Builds the open game a creation stores.
pub fn new_open_game(id: u64, creator: String) -> (g: Game)
    ensures
        g@ == spec_create(id, creator@),
        game_wf(g@),
{
    let ghost c: Seq<char> = creator@;
    let mut players: Vec<String> = Vec::new();
    players.push(creator);
    let g = Game {
        id,
        players,
        status: GameStatus::Open,
        moves: vec![Mark::Empty; 9],
        next_turn: None,
        winner: None,
    };
    proof {
        assert(g@.players =~= seq![c]);
        assert(g@.moves =~= Seq::new(9, |i: int| Mark::Empty));
        assert(g@ =~= spec_create(id, c));
    }
    g
}

/// Evaluates the structural game invariant on a concrete value, so an
/// unverified caller can reject a record that does not satisfy it before
/// handing it to the transition functions.
pub fn check_wf(game: &Game) -> (b: bool)
    ensures
        b == game_wf(game@),
{
    if game.moves.len() != 9 {
        return false;
    }
    if game.status == GameStatus::Open {
        if game.players.len() != 1 {
            return false;
        }
        if !game.next_turn.is_none() {
            return false;
        }
        if !board_is_empty(&game.moves) {
            return false;
        }
    } else {
        if game.players.len() != 2 {
            return false;
        }
        let p0: &String = &game.players[0];
        let p1: &String = &game.players[1];
        if *p0 == *p1 {
            return false;
        }
    }
    if game.status == GameStatus::InProgress {
        match &game.next_turn {
            None => {
                return false;
            },
            Some(t) => {
                if !(*t == game.players[0] || *t == game.players[1]) {
                    return false;
                }
            },
        }
        if check_winner(&game.moves).is_some() {
            return false;
        }
        if board_is_full(&game.moves) {
            return false;
        }
    }
    match &game.winner {
        None => true,
        Some(w) => game.status == GameStatus::Completed && (*w == game.players[0] || *w
            == game.players[1]),
    }
}

/// Pairs the second participant with an open game: appends the joiner,
/// fixes the mover order by FairnessAssigner's decision, hands the turn
/// to the first mover and flips the game to `InProgress`. Returns the
/// first mover's identity. Joining a game that is not open, or one's own
/// game, is rejected with the stored game untouched.
pub fn join_open_game(game: &mut Game, joiner: String) -> (r: Result<String, ContractError>)
    requires
        game_wf(old(game)@),
    ensures
        game_wf(final(game)@),
        r is Ok <==> join_ok(old(game)@, joiner@),
        r matches Err(e) ==> *final(game) == *old(game) && e == join_error(old(game)@, joiner@),
        r matches Ok(first) ==> final(game)@ == spec_join(old(game)@, joiner@)
            && first@ == spec_join(old(game)@, joiner@).players[0],
{
    if game.status != GameStatus::Open {
        return Err(ContractError::CantJoinGame {});
    }
    let creator: String = game.players[0].clone();
    if creator == joiner {
        return Err(ContractError::Unauthorized {});
    }
    let ghost c: Seq<char> = creator@;
    let ghost j: Seq<char> = joiner@;
    let first_mover: String;
    let mut players: Vec<String> = Vec::new();
    if assign_first_mover(&creator, &joiner) {
        first_mover = creator.clone();
        players.push(creator);
        players.push(joiner);
    } else {
        first_mover = joiner.clone();
        players.push(joiner);
        players.push(creator);
    }
    game.players = players;
    game.next_turn = Some(first_mover.clone());
    game.status = GameStatus::InProgress;
    proof {
        lemma_empty_board_open(game@.moves);
        if creator_first(c, j) {
            assert(game@.players =~= seq![c, j]);
        } else {
            assert(game@.players =~= seq![j, c]);
        }
        assert(game@ =~= spec_join(old(game)@, j));
    }
    Ok(first_mover)
}

/// BoardValidator: the pure move check. Accepts exactly the moves
/// `move_ok` allows and reports the specific rejection otherwise, in the
/// fixed order: game not active, position out of range, cell taken, not
/// the caller's turn.
pub fn validate_move(game: &Game, mover: &String, position: u8) -> (r: Result<(), ContractError>)
    requires
        game@.moves.len() == 9,
    ensures
        r is Ok <==> move_ok(game@, mover@, position),
        r matches Err(e) ==> e == move_error(game@, mover@, position),
{
    if game.status != GameStatus::InProgress {
        return Err(ContractError::GameNotInProgress {});
    }
    if position < 1 || position > 9 {
        return Err(ContractError::InvalidPosition { position });
    }
    let idx: usize = (position - 1) as usize;
    if game.moves[idx] != Mark::Empty {
        return Err(ContractError::PositionTaken {});
    }
    let turn_ok: bool = match &game.next_turn {
        Some(t) => *t == *mover,
        None => false,
    };
    if !turn_ok {
        return Err(ContractError::NotYourTurn {});
    }
    Ok(())
}

/// Writes the mover's mark and settles the outcome: win, draw, or the
/// turn passed to the opponent. Validation runs first; a rejected move
/// leaves the game untouched. Returns the mark written.
pub fn apply_move(game: &mut Game, mover: &String, position: u8) -> (r: Result<
    Mark,
    ContractError,
>)
    requires
        game_wf(old(game)@),
    ensures
        game_wf(final(game)@),
        r is Ok <==> move_ok(old(game)@, mover@, position),
        r matches Err(e) ==> *final(game) == *old(game) && e == move_error(
            old(game)@,
            mover@,
            position,
        ),
        r matches Ok(mk) ==> mk == mark_of(old(game)@, mover@) && final(game)@ == spec_apply_move(
            old(game)@,
            mover@,
            position,
        ),
{
    match validate_move(game, mover, position) {
        Err(e) => {
            return Err(e);
        },
        Ok(()) => {},
    }
    let ghost g0: GameView = game@;
    let p0_is_mover: bool = game.players[0] == *mover;
    let mk: Mark = if p0_is_mover {
        Mark::X
    } else {
        Mark::O
    };
    let opponent: String = if p0_is_mover {
        game.players[1].clone()
    } else {
        game.players[0].clone()
    };
    let idx: usize = (position - 1) as usize;
    game.moves[idx] = mk;
    proof {
        assert(game@.moves == g0.moves.update(position - 1, mk));
        lemma_no_win_for_opponent(g0.moves, position - 1, mk);
    }
    let full: bool = board_is_full(&game.moves);
    let won: bool = match check_winner(&game.moves) {
        Some(w) => {
            proof {
                lemma_unique_winner(game@.moves, mk);
            }
            w == mk
        },
        None => false,
    };
    if won {
        game.status = GameStatus::Completed;
        game.winner = Some(mover.clone());
    } else if full {
        game.status = GameStatus::Completed;
    }
    game.next_turn = Some(opponent);
    proof {
        assert(game@ =~= spec_apply_move(g0, mover@, position));
    }
    Ok(mk)
}

/// Resigns an `InProgress` game: completes it at once and records the
/// resigner's opponent as the winner. Returns the winner's identity. Any
/// other lifecycle state is rejected with the stored game untouched, so
/// a second resignation or move after completion fails.
pub fn resign_game(game: &mut Game, resigner: &String) -> (r: Result<String, ContractError>)
    requires
        game_wf(old(game)@),
    ensures
        game_wf(final(game)@),
        r is Ok <==> old(game)@.status == GameStatus::InProgress,
        r matches Err(e) ==> *final(game) == *old(game) && e == (ContractError::GameNotInProgress {
        }),
        r matches Ok(w) ==> final(game)@ == spec_resign(old(game)@, resigner@) && w@
            == other_player(old(game)@, resigner@),
{
    if game.status != GameStatus::InProgress {
        return Err(ContractError::GameNotInProgress {});
    }
    let winner: String = if game.players[0] == *resigner {
        game.players[1].clone()
    } else {
        game.players[0].clone()
    };
    game.status = GameStatus::Completed;
    game.winner = Some(winner.clone());
    proof {
        assert(game@ =~= spec_resign(old(game)@, resigner@));
    }
    Ok(winner)
}

/// The lifecycle order of the statuses: `Open`, then `InProgress`, then
/// `Completed`.
pub open spec fn status_rank(s: GameStatus) -> int {
    match s {
        GameStatus::Open => 0,
        GameStatus::InProgress => 1,
        GameStatus::Completed => 2,
    }
}

/// The status only ever moves forward: an accepted join advances it, an
/// accepted move never lowers it, and a resignation of a game in
/// progress advances it to the terminal state.
pub proof fn lemma_status_forward(g: GameView, actor: Seq<char>, position: u8)
    ensures
        join_ok(g, actor) ==> status_rank(spec_join(g, actor).status) > status_rank(g.status),
        move_ok(g, actor, position) ==> status_rank(spec_apply_move(g, actor, position).status)
            >= status_rank(g.status),
        g.status == GameStatus::InProgress ==> status_rank(spec_resign(g, actor).status)
            > status_rank(g.status),
{
}

/// A cell once set is never reset: an accepted move writes the mover's
/// mark into the one empty cell it addresses and leaves every occupied
/// cell as it was.
pub proof fn lemma_cells_preserved(g: GameView, mover: Seq<char>, position: u8)
    requires
        game_wf(g),
        move_ok(g, mover, position),
    ensures
        spec_apply_move(g, mover, position).moves[position - 1] == mark_of(g, mover),
        forall|j: int|
            0 <= j < 9 && g.moves[j] != Mark::Empty ==> spec_apply_move(
                g,
                mover,
                position,
            ).moves[j] == g.moves[j],
{
}

/// Turn alternation: after an accepted move the turn belongs to the
/// participant who did not just move — a real other participant, never
/// the mover again.
pub proof fn lemma_turn_alternation(g: GameView, mover: Seq<char>, position: u8)
    requires
        game_wf(g),
        move_ok(g, mover, position),
    ensures
        spec_apply_move(g, mover, position).next_turn == Some(other_player(g, mover)),
        other_player(g, mover) != mover,
        other_player(g, mover) == g.players[0] || other_player(g, mover) == g.players[1],
{
}

/// A win always belongs to the mover: when an accepted move leaves a
/// completed line on the board, the line is the mover's own, and the
/// game completes at once with the mover recorded as the winner.
pub proof fn lemma_win_completes_for_mover(g: GameView, mover: Seq<char>, position: u8)
    requires
        game_wf(g),
        move_ok(g, mover, position),
        has_winner(spec_apply_move(g, mover, position).moves),
    ensures
        wins(spec_apply_move(g, mover, position).moves, mark_of(g, mover)),
        spec_apply_move(g, mover, position).status == GameStatus::Completed,
        spec_apply_move(g, mover, position).winner == Some(mover),
{
    let mk = mark_of(g, mover);
    lemma_no_win_for_opponent(g.moves, position - 1, mk);
}

/// Draw: when an accepted move fills the board without completing a
/// line, the game completes at once with no winner.
pub proof fn lemma_draw_completes_without_winner(g: GameView, mover: Seq<char>, position: u8)
    requires
        game_wf(g),
        move_ok(g, mover, position),
        board_full(spec_apply_move(g, mover, position).moves),
        !has_winner(spec_apply_move(g, mover, position).moves),
    ensures
        spec_apply_move(g, mover, position).status == GameStatus::Completed,
        spec_apply_move(g, mover, position).winner is None,
{
}

/// Every stored game is well formed and sits at the index equal to its
/// id: the registry is an arena of records addressed by integer key.
pub open spec fn games_wf(games: Seq<Game>) -> bool {
    forall|i: int| 0 <= i < games.len() ==> (#[trigger] games[i])@.id == i && game_wf(games[i]@)
}

/// The registry invariant: well-formed games plus the allocator counter
/// agreeing with the number of games created so far, so the next id is
/// always fresh.
pub open spec fn registry_wf(games: Seq<Game>, state: State) -> bool {
    games_wf(games) && state.latest_game_id == games.len()
}

/// `gs1` is `gs0` with at most the record at `i` changed.
pub open spec fn updated_at(gs0: Seq<Game>, gs1: Seq<Game>, i: int) -> bool {
    gs1.len() == gs0.len() && (forall|j: int| 0 <= j < gs0.len() && j != i ==> gs1[j] == gs0[j])
}

/// What a creation does to the registry: one new open game appended
/// under the old counter value, the counter advanced by one, everything
/// else untouched, and the reply naming the new id and the creator.
pub open spec fn create_outcome(
    gs0: Seq<Game>,
    s0: State,
    gs1: Seq<Game>,
    s1: State,
    sender: Seq<char>,
    r: Result<Reply, ContractError>,
) -> bool {
    &&& s1.latest_game_id == s0.latest_game_id + 1
    &&& gs1.len() == gs0.len() + 1
    &&& (forall|j: int| 0 <= j < gs0.len() ==> gs1[j] == gs0[j])
    &&& gs1.last()@ == spec_create(s0.latest_game_id, sender)
    &&& (match r {
        Ok(Reply::Created { game_id, player }) => game_id == s0.latest_game_id && player@
            == sender,
        _ => false,
    })
}

/// What a join does to the registry: an unknown id is rejected as not
/// found; a refused join leaves everything untouched; an accepted one
/// rewrites exactly the addressed game as `spec_join` says and reports
/// the first mover.
pub open spec fn join_outcome(
    gs0: Seq<Game>,
    gs1: Seq<Game>,
    sender: Seq<char>,
    m: JoinGameMsg,
    r: Result<Reply, ContractError>,
) -> bool {
    if m.game_id >= gs0.len() {
        gs1 == gs0 && r == Err::<Reply, ContractError>(ContractError::NotFound {})
    } else {
        let g0 = gs0[m.game_id as int]@;
        &&& (r is Ok <==> join_ok(g0, sender))
        &&& (r matches Err(e) ==> gs1 == gs0 && e == join_error(g0, sender))
        &&& (r matches Ok(rep) ==> {
            &&& updated_at(gs0, gs1, m.game_id as int)
            &&& gs1[m.game_id as int]@ == spec_join(g0, sender)
            &&& (rep matches Reply::Joined { game_id, first_mover } && game_id == m.game_id
                && first_mover@ == spec_join(g0, sender).players[0])
        })
    }
}

/// What a move submission does to the registry: an unknown id is
/// rejected as not found; a refused move leaves everything untouched; an
/// accepted one rewrites exactly the addressed game as `spec_apply_move`
/// says and reports the position and the mark written.
pub open spec fn move_outcome(
    gs0: Seq<Game>,
    gs1: Seq<Game>,
    sender: Seq<char>,
    m: SubmitMoveMsg,
    r: Result<Reply, ContractError>,
) -> bool {
    if m.game_id >= gs0.len() {
        gs1 == gs0 && r == Err::<Reply, ContractError>(ContractError::NotFound {})
    } else {
        let g0 = gs0[m.game_id as int]@;
        &&& (r is Ok <==> move_ok(g0, sender, m.position))
        &&& (r matches Err(e) ==> gs1 == gs0 && e == move_error(g0, sender, m.position))
        &&& (r matches Ok(rep) ==> {
            &&& updated_at(gs0, gs1, m.game_id as int)
            &&& gs1[m.game_id as int]@ == spec_apply_move(g0, sender, m.position)
            &&& (rep matches Reply::Moved { game_id, position, role } && game_id == m.game_id
                && position == m.position && role == mark_of(g0, sender))
        })
    }
}

/// What a resignation does to the registry: an unknown id is rejected as
/// not found; resigning a game that is not in progress leaves everything
/// untouched; otherwise exactly the addressed game completes as
/// `spec_resign` says and the reply names the winner.
pub open spec fn resign_outcome(
    gs0: Seq<Game>,
    gs1: Seq<Game>,
    sender: Seq<char>,
    m: ResignMsg,
    r: Result<Reply, ContractError>,
) -> bool {
    if m.game_id >= gs0.len() {
        gs1 == gs0 && r == Err::<Reply, ContractError>(ContractError::NotFound {})
    } else {
        let g0 = gs0[m.game_id as int]@;
        &&& (r is Ok <==> g0.status == GameStatus::InProgress)
        &&& (r matches Err(e) ==> gs1 == gs0 && e == (ContractError::GameNotInProgress {}))
        &&& (r matches Ok(rep) ==> {
            &&& updated_at(gs0, gs1, m.game_id as int)
            &&& gs1[m.game_id as int]@ == spec_resign(g0, sender)
            &&& (rep matches Reply::Resigned { game_id, winner } && game_id == m.game_id
                && winner@ == other_player(g0, sender))
        })
    }
}

/// Creates a game for the caller: allocates the next id and stores a
/// fresh open game under it. Both happen together; a creation never
/// fails.
pub fn create_game(
    games: &mut Vec<Game>,
    state: &mut State,
    sender: String,
    _msg: CreateGameMsg,
) -> (r: Result<Reply, ContractError>)
    requires
        registry_wf(old(games)@, *old(state)),
        old(state).latest_game_id < u64::MAX,
    ensures
        registry_wf(final(games)@, *final(state)),
        create_outcome(old(games)@, *old(state), final(games)@, *final(state), sender@, r),
        r is Ok,
{
    let id: u64 = allocate_id(state);
    let game: Game = new_open_game(id, sender.clone());
    games.push(game);
    Ok(Reply::Created { game_id: id, player: sender })
}

/// Looks the game up by id and joins the caller to it.
pub fn join_game(games: &mut Vec<Game>, sender: String, msg: JoinGameMsg) -> (r: Result<
    Reply,
    ContractError,
>)
    requires
        games_wf(old(games)@),
    ensures
        games_wf(final(games)@),
        final(games)@.len() == old(games)@.len(),
        join_outcome(old(games)@, final(games)@, sender@, msg, r),
{
    if msg.game_id >= games.len() as u64 {
        return Err(ContractError::NotFound {});
    }
    let idx: usize = msg.game_id as usize;
    let game = &mut games[idx];
    let res = join_open_game(game, sender);
    match res {
        Ok(first) => Ok(Reply::Joined { game_id: msg.game_id, first_mover: first }),
        Err(e) => {
            proof {
                assert(games@ =~= old(games)@);
            }
            Err(e)
        },
    }
}

/// Looks the game up by id and submits the caller's move.
pub fn submit_move(games: &mut Vec<Game>, sender: String, msg: SubmitMoveMsg) -> (r: Result<
    Reply,
    ContractError,
>)
    requires
        games_wf(old(games)@),
    ensures
        games_wf(final(games)@),
        final(games)@.len() == old(games)@.len(),
        move_outcome(old(games)@, final(games)@, sender@, msg, r),
{
    if msg.game_id >= games.len() as u64 {
        return Err(ContractError::NotFound {});
    }
    let idx: usize = msg.game_id as usize;
    let game = &mut games[idx];
    let res = apply_move(game, &sender, msg.position);
    match res {
        Ok(mk) => Ok(Reply::Moved { game_id: msg.game_id, position: msg.position, role: mk }),
        Err(e) => {
            proof {
                assert(games@ =~= old(games)@);
            }
            Err(e)
        },
    }
}

/// Looks the game up by id and resigns it on the caller's behalf.
pub fn resign(games: &mut Vec<Game>, sender: String, msg: ResignMsg) -> (r: Result<
    Reply,
    ContractError,
>)
    requires
        games_wf(old(games)@),
    ensures
        games_wf(final(games)@),
        final(games)@.len() == old(games)@.len(),
        resign_outcome(old(games)@, final(games)@, sender@, msg, r),
{
    if msg.game_id >= games.len() as u64 {
        return Err(ContractError::NotFound {});
    }
    let idx: usize = msg.game_id as usize;
    let game = &mut games[idx];
    let res = resign_game(game, &sender);
    match res {
        Ok(winner) => Ok(Reply::Resigned { game_id: msg.game_id, winner }),
        Err(e) => {
            proof {
                assert(games@ =~= old(games)@);
            }
            Err(e)
        },
    }
}

/// GameLifecycle's entry point: dispatches one transaction from the
/// authenticated caller to the operation it names. Every rejection
/// leaves the registry and the counter exactly as they were.
pub fn execute(games: &mut Vec<Game>, state: &mut State, sender: String, msg: ExecuteMsg) -> (r:
    Result<Reply, ContractError>)
    requires
        registry_wf(old(games)@, *old(state)),
        msg matches ExecuteMsg::CreateGame(_) ==> old(state).latest_game_id < u64::MAX,
    ensures
        registry_wf(final(games)@, *final(state)),
        match msg {
            ExecuteMsg::CreateGame(_) => create_outcome(
                old(games)@,
                *old(state),
                final(games)@,
                *final(state),
                sender@,
                r,
            ),
            ExecuteMsg::JoinGame(m) => *final(state) == *old(state) && join_outcome(
                old(games)@,
                final(games)@,
                sender@,
                m,
                r,
            ),
            ExecuteMsg::SubmitMove(m) => *final(state) == *old(state) && move_outcome(
                old(games)@,
                final(games)@,
                sender@,
                m,
                r,
            ),
            ExecuteMsg::Resign(m) => *final(state) == *old(state) && resign_outcome(
                old(games)@,
                final(games)@,
                sender@,
                m,
                r,
            ),
        },
{
    match msg {
        ExecuteMsg::CreateGame(m) => create_game(games, state, sender, m),
        ExecuteMsg::JoinGame(m) => join_game(games, sender, m),
        ExecuteMsg::SubmitMove(m) => submit_move(games, sender, m),
        ExecuteMsg::Resign(m) => resign(games, sender, m),
    }
}

} // verus!
