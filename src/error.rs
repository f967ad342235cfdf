use vstd::prelude::*;

verus! {

/// Why an operation on a match was rejected.
#[derive(Clone, Copy, Debug, PartialEq, Eq, Structural)]
pub enum ProgramError {
    /// The addressed cell is off the board or already taken.
    InvalidMove,
    /// A second player tried to join a match that is not waiting.
    GameInProgress,
    /// The acting identity is not the one expected.
    PlayerNotFound,
    /// A move was attempted while no side is to move.
    NotYourTurn,
    /// A liveness timestamp did not strictly exceed the stored one.
    InvalidTimestamp,
}

} // verus!
