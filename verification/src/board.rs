use vstd::prelude::*;

verus! {

/// One cell of the 3x3 board: empty, or held by the first mover's mark
/// ("X") or the second mover's ("O"). Cells are indexed 0..9 in row-major
/// order; the public move interface addresses them as positions 1..=9.
#[derive(Clone, Copy, Debug, PartialEq, Eq, Structural)]
pub enum Mark {
    Empty,
    X,
    O,
}

/// `mk` occupies all three cells of the line `(a, b, c)`.
pub open spec fn line_filled(board: Seq<Mark>, a: int, b: int, c: int, mk: Mark) -> bool {
    board[a] == mk && board[b] == mk && board[c] == mk
}

/// `mk` is a real mark and has completed one of the eight winning lines:
/// three rows, three columns, two diagonals.
pub open spec fn wins(board: Seq<Mark>, mk: Mark) -> bool {
    mk != Mark::Empty && {
        ||| line_filled(board, 0, 1, 2, mk)
        ||| line_filled(board, 3, 4, 5, mk)
        ||| line_filled(board, 6, 7, 8, mk)
        ||| line_filled(board, 0, 3, 6, mk)
        ||| line_filled(board, 1, 4, 7, mk)
        ||| line_filled(board, 2, 5, 8, mk)
        ||| line_filled(board, 0, 4, 8, mk)
        ||| line_filled(board, 2, 4, 6, mk)
    }
}

/// Some mark has completed a line.
pub open spec fn has_winner(board: Seq<Mark>) -> bool {
    wins(board, Mark::X) || wins(board, Mark::O)
}

/// Every cell holds a mark. A full board with no winner is a draw; the
/// caller makes that distinction, not the win detector.
pub open spec fn board_full(board: Seq<Mark>) -> bool {
    forall|i: int| 0 <= i < board.len() ==> board[i] != Mark::Empty
}

/// No cell holds a mark yet.
pub open spec fn board_empty(board: Seq<Mark>) -> bool {
    forall|i: int| 0 <= i < board.len() ==> board[i] == Mark::Empty
}

/// The mark played by the other side.
pub open spec fn opposite(mk: Mark) -> Mark {
    match mk {
        Mark::Empty => Mark::Empty,
        Mark::X => Mark::O,
        Mark::O => Mark::X,
    }
}

/// A board with no marks has no winner and is not full.
pub proof fn lemma_empty_board_open(board: Seq<Mark>)
    requires
        board.len() == 9,
        board_empty(board),
    ensures
        !has_winner(board),
        !board_full(board),
{
    assert(board[0] == Mark::Empty);
}

/// Writing a mark into a cell cannot complete a line for the opposing
/// mark: a move can only ever win the game for the mover.
pub proof fn lemma_no_win_for_opponent(board: Seq<Mark>, i: int, mk: Mark)
    requires
        board.len() == 9,
        0 <= i < 9,
        mk == Mark::X || mk == Mark::O,
        !wins(board, opposite(mk)),
    ensures
        !wins(board.update(i, mk), opposite(mk)),
{
}

/// When a mark holds a completed line and the opposing mark holds none,
/// it is the only winner, so the mark reported by `check_winner` is
/// uniquely determined.
pub proof fn lemma_unique_winner(board: Seq<Mark>, mk: Mark)
    requires
        wins(board, mk),
        !wins(board, opposite(mk)),
    ensures
        forall|m: Mark| wins(board, m) ==> m == mk,
{
}

/// Reads one candidate line: the mark occupying all of cells `a`, `b`,
/// `c`, if they agree and are not empty.
fn line_of(moves: &Vec<Mark>, a: usize, b: usize, c: usize) -> (r: Option<Mark>)
    requires
        moves@.len() == 9,
        a < 9,
        b < 9,
        c < 9,
    ensures
        r matches Some(mk) ==> mk != Mark::Empty && line_filled(
            moves@,
            a as int,
            b as int,
            c as int,
            mk,
        ),
        r is None ==> forall|mk: Mark|
            mk != Mark::Empty ==> !line_filled(moves@, a as int, b as int, c as int, mk),
{
    if moves[a] != Mark::Empty && moves[a] == moves[b] && moves[a] == moves[c] {
        Some(moves[a])
    } else {
        None
    }
}

/// WinDetector: inspects exactly the eight winning lines and returns the
/// mark occupying a completed one, or `None` when no line is complete.
/// The result is `Some` if and only if some mark has won.
pub fn check_winner(moves: &Vec<Mark>) -> (r: Option<Mark>)
    requires
        moves@.len() == 9,
    ensures
        r is Some <==> has_winner(moves@),
        r matches Some(mk) ==> wins(moves@, mk),
{
    if let Some(mk) = line_of(moves, 0, 1, 2) {
        return Some(mk);
    }
    if let Some(mk) = line_of(moves, 3, 4, 5) {
        return Some(mk);
    }
    if let Some(mk) = line_of(moves, 6, 7, 8) {
        return Some(mk);
    }
    if let Some(mk) = line_of(moves, 0, 3, 6) {
        return Some(mk);
    }
    if let Some(mk) = line_of(moves, 1, 4, 7) {
        return Some(mk);
    }
    if let Some(mk) = line_of(moves, 2, 5, 8) {
        return Some(mk);
    }
    if let Some(mk) = line_of(moves, 0, 4, 8) {
        return Some(mk);
    }
    if let Some(mk) = line_of(moves, 2, 4, 6) {
        return Some(mk);
    }
    None
}

/// Whether every cell already holds a mark.
pub fn board_is_full(moves: &Vec<Mark>) -> (b: bool)
    requires
        moves@.len() == 9,
    ensures
        b == board_full(moves@),
{
    let mut i: usize = 0;
    while i < 9
        invariant
            moves@.len() == 9,
            i <= 9,
            forall|j: int| 0 <= j < i ==> moves@[j] != Mark::Empty,
        decreases 9 - i,
    {
        if moves[i] == Mark::Empty {
            return false;
        }
        i += 1;
    }
    true
}

/// Whether no cell holds a mark yet.
pub fn board_is_empty(moves: &Vec<Mark>) -> (b: bool)
    requires
        moves@.len() == 9,
    ensures
        b == board_empty(moves@),
{
    let mut i: usize = 0;
    while i < 9
        invariant
            moves@.len() == 9,
            i <= 9,
            forall|j: int| 0 <= j < i ==> moves@[j] == Mark::Empty,
        decreases 9 - i,
    {
        if moves[i] != Mark::Empty {
            return false;
        }
        i += 1;
    }
    true
}

} // verus!
