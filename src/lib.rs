//! The rules engine and session lifecycle of two-player chess sessions whose
//! state lives in an outside document store: move legality per piece, check
//! and checkmate detection, the turn and status state machine, and who may
//! start, join and act on a session. Reading and writing the store is left to
//! the caller, which hands the library the fetched session and stores what it
//! returns.
use vstd::prelude::*;

pub mod board;
pub mod check;
pub mod error;
pub mod identity;
pub mod index;
pub mod laws;
pub mod rules;
pub mod service;
pub mod session;

pub use board::{cell_at, in_bounds, initial_board, Board, ChessCell, ChessMove, Direction, Piece, Player};
pub use error::{Error, Result};
pub use index::{SessionIndex, SESSION_INDEX_CAPACITY};
pub use service::OhMyChess;
pub use session::{same_identity, GameState, GameStateLobby, GameStatus, PlayersAddresses, PlayersAddressesLobby};

verus! {

} // verus!
