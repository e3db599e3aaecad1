//! The error kinds of every operation.
use vstd::prelude::*;

verus! {

/// Every way an operation of the library can fail. Each public operation
/// reports exactly one of these, the first check that did not hold.
#[derive(Clone, Copy, PartialEq, Eq, Debug, Structural)]
pub enum Error {
    // board access
    OutOfBounds,
    // move validation
    OutOfBoardFrom,
    OutOfBoardTo,
    NoPieceAtSource,
    PieceNotOwned,
    DestinationOccupiedBySelf,
    IllegalMove,
    MoveExposesCheck,
    // turn and authorization
    NotInSession,
    NotYourTurn,
    AlreadyInSession,
    AlreadyOpponent,
    SessionFull,
    SecondPlayerRequired,
    SessionOver,
    NotAuthorized,
    // invariant violation
    KingNotFound,
    // persistence
    SessionNotFound,
    DBInsertError,
    DBFetchError,
    DBUpdateError,
    ConflictingUpdate,
    StoreUnavailable,
}

pub type Result<T> = core::result::Result<T, Error>;

} // verus!
