use vstd::prelude::*;

verus! {

/// The kinds of rejection an operation can report. Every rejection is
/// local and synchronous: the caller's stored state is unchanged.
#[derive(Clone, Copy, Debug, PartialEq, Eq, Structural)]
pub enum ContractError {
    /// The referenced game id has never been allocated.
    NotFound {},
    /// Reserved for access control; returned when a participant attempts
    /// to join their own open game.
    Unauthorized {},
    /// The caller is not the participant whose turn it is.
    NotYourTurn {},
    /// The target cell already holds a mark.
    PositionTaken {},
    /// The operation needs a game that is accepting moves.
    GameNotInProgress {},
    /// Joining needs a game that is still awaiting its second participant.
    CantJoinGame {},
    /// The submitted position lies outside the 1..=9 range.
    InvalidPosition { position: u8 },
}

} // verus!
