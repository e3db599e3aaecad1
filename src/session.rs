//! Sessions: seats, status, the turn and status state machine, and the
//! lifecycle decisions of starting, joining and moving.
use vstd::prelude::*;

use crate::board::{
    initial_board, is_initial_board, move_in_board, moved_board, opponent_of, owned_by,
    Board, ChessMove, Player,
};
use crate::check::{checkmate_result, exposure_result};
use crate::error::{Error, Result};
use crate::rules::{boundary_result, piece_rule};
use crate::service::OhMyChess;

verus! {

/// `Ongoing` is the only state in which moves are accepted; every other one
/// is final.
#[derive(Clone, Copy, PartialEq, Eq, Debug, Structural)]
pub enum GameStatus {
    Ongoing,
    WonByWhite,
    WonByBlack,
    Stalemate,
    Draw,
}

/// Both seats of a session, each bound to an identity.
#[derive(Clone, Copy, Debug)]
pub struct PlayersAddresses {
    pub black: [u8; 32],
    pub white: [u8; 32],
}

/// The seats of a session that may still wait for a player.
#[derive(Clone, Copy, Debug)]
pub struct PlayersAddressesLobby {
    pub black: Option<[u8; 32]>,
    pub white: Option<[u8; 32]>,
}

/// A session whose two seats are taken: the only shape moves are made on.
#[derive(Clone, Copy, Debug)]
pub struct GameState {
    pub board: Board,
    pub turn: Player,
    pub players: PlayersAddresses,
    pub status: GameStatus,
}

/// A session as it is created and stored, with seats that may be open.
#[derive(Clone, Copy, Debug)]
pub struct GameStateLobby {
    pub board: Board,
    pub turn: Player,
    pub players: PlayersAddressesLobby,
    pub status: GameStatus,
}

/// The identity seated as `p`.
pub open spec fn seat_of(players: PlayersAddresses, p: Player) -> [u8; 32] {
    match p {
        Player::Black => players.black,
        Player::White => players.white,
    }
}

pub open spec fn won_by(p: Player) -> GameStatus {
    match p {
        Player::Black => GameStatus::WonByBlack,
        Player::White => GameStatus::WonByWhite,
    }
}

pub open spec fn status_result(gs: GameState) -> Result<()> {
    if gs.status == GameStatus::Ongoing { Ok(()) } else { Err(Error::SessionOver) }
}

/// The caller must hold the seat whose turn it is.
pub open spec fn caller_turn_result(gs: GameState, caller: [u8; 32]) -> Result<()> {
    if caller != gs.players.black && caller != gs.players.white {
        Err(Error::NotInSession)
    } else if caller != seat_of(gs.players, gs.turn) {
        Err(Error::NotYourTurn)
    } else {
        Ok(())
    }
}

/// The piece on the origin belongs to the player to move, and the
/// destination holds none of that player's pieces.
pub open spec fn ownership_result(gs: GameState, m: ChessMove) -> Result<()> {
    match gs.board[m.from.0 as int][m.from.1 as int] {
        None => Err(Error::NoPieceAtSource),
        Some(c) => if c.player != gs.turn {
            Err(Error::PieceNotOwned)
        } else if owned_by(gs.board, m.to.0 as int, m.to.1 as int, c.player) {
            Err(Error::DestinationOccupiedBySelf)
        } else {
            Ok(())
        },
    }
}

/// One step of the state machine after the board was updated: the mover wins
/// if the opponent is mated, otherwise the turn passes.
pub open spec fn transition(gs: GameState) -> Result<GameState> {
    let opp = opponent_of(gs.turn);
    match checkmate_result(gs.board, opp) {
        Err(e) => Err(e),
        Ok(true) => Ok(GameState { status: won_by(gs.turn), ..gs }),
        Ok(false) => Ok(GameState { turn: opp, ..gs }),
    }
}

/// The session after `caller` submits `m`, or the first check that fails:
/// status, bounds, turn, ownership, the piece's rule, self-check.
pub open spec fn move_outcome(gs: GameState, caller: [u8; 32], m: ChessMove) -> Result<GameState> {
    let fr = m.from.0 as int;
    let ff = m.from.1 as int;
    let tr = m.to.0 as int;
    let tf = m.to.1 as int;
    if status_result(gs) is Err {
        Err(Error::SessionOver)
    } else if boundary_result(m) is Err {
        Err(boundary_result(m)->Err_0)
    } else if caller_turn_result(gs, caller) is Err {
        Err(caller_turn_result(gs, caller)->Err_0)
    } else if ownership_result(gs, m) is Err {
        Err(ownership_result(gs, m)->Err_0)
    } else if piece_rule(gs.board, gs.turn, fr, ff, tr, tf) is Err {
        Err(piece_rule(gs.board, gs.turn, fr, ff, tr, tf)->Err_0)
    } else if exposure_result(gs.board, gs.turn, m) is Err {
        Err(exposure_result(gs.board, gs.turn, m)->Err_0)
    } else {
        transition(GameState { board: moved_board(gs.board, m, gs.turn), ..gs })
    }
}

/// The bound session, when both seats are taken.
pub open spec fn bound_result(lobby: GameStateLobby) -> Result<GameState> {
    match (lobby.players.white, lobby.players.black) {
        (Some(white), Some(black)) => Ok(
            GameState {
                board: lobby.board,
                turn: lobby.turn,
                players: PlayersAddresses { black, white },
                status: lobby.status,
            },
        ),
        _ => Err(Error::SecondPlayerRequired),
    }
}

/// What joining a lobby gives: the caller takes the one free seat.
pub open spec fn join_result(lobby: GameStateLobby, caller: [u8; 32]) -> Result<GameState> {
    let seats = lobby.players;
    if seats.white == Some(caller) || seats.black == Some(caller) {
        Err(Error::AlreadyInSession)
    } else {
        match (seats.white, seats.black) {
            (None, Some(black)) => Ok(
                GameState {
                    board: lobby.board,
                    turn: lobby.turn,
                    players: PlayersAddresses { black, white: caller },
                    status: lobby.status,
                },
            ),
            (Some(white), None) => Ok(
                GameState {
                    board: lobby.board,
                    turn: lobby.turn,
                    players: PlayersAddresses { black: caller, white },
                    status: lobby.status,
                },
            ),
            _ => Err(Error::SessionFull),
        }
    }
}

/// The seats of a new session: the caller on the requested seat (White when
/// none is asked for), the opponent, if named, on the other.
pub open spec fn new_seats(caller: [u8; 32], player: Option<Player>, opponent: Option<[u8; 32]>) -> PlayersAddressesLobby {
    match player {
        Some(Player::Black) => PlayersAddressesLobby { black: Some(caller), white: opponent },
        _ => PlayersAddressesLobby { black: opponent, white: Some(caller) },
    }
}

/// The identities on the seats of a lobby, Black's first.
pub open spec fn seated(players: PlayersAddressesLobby) -> Seq<[u8; 32]> {
    let black = match players.black {
        Some(id) => seq![id],
        None => Seq::empty(),
    };
    let white = match players.white {
        Some(id) => seq![id],
        None => Seq::empty(),
    };
    black + white
}

/// Whether two identities are the same.
pub fn same_identity(a: &[u8; 32], b: &[u8; 32]) -> (r: bool)
    ensures
        r == (*a == *b),
{
    let mut i: usize = 0;
    while i < 32
        invariant
            i <= 32,
            forall|j: int| 0 <= j < i ==> a[j] == b[j],
        decreases 32 - i,
    {
        if a[i] != b[i] {
            return false;
        }
        i += 1;
    }
    assert(*a =~= *b);
    true
}

fn holds_seat(seat: &Option<[u8; 32]>, caller: &[u8; 32]) -> (r: bool)
    ensures
        r == (*seat == Some(*caller)),
{
    match seat {
        Some(id) => same_identity(id, caller),
        None => false,
    }
}

impl GameStateLobby {
    /// The identities seated in the session, Black's first: those whose
    /// session index records it.
    pub fn seated_identities(&self) -> (r: Vec<[u8; 32]>)
        ensures
            r@ == seated(self.players),
    {
        let mut ids: Vec<[u8; 32]> = Vec::new();
        if let Some(black) = self.players.black {
            ids.push(black);
        }
        if let Some(white) = self.players.white {
            ids.push(white);
        }
        ids
    }

    /// The session with both seats bound, or `SecondPlayerRequired` while one
    /// is open.
    pub fn to_bound(&self) -> (r: Result<GameState>)
        ensures
            r == bound_result(*self),
    {
        match (self.players.white, self.players.black) {
            (Some(white), Some(black)) => Ok(
                GameState {
                    board: self.board,
                    turn: self.turn,
                    players: PlayersAddresses { black, white },
                    status: self.status,
                },
            ),
            _ => Err(Error::SecondPlayerRequired),
        }
    }
}

impl OhMyChess {
    fn check_for_game_state(&self, game_state: &GameState) -> (r: Result<()>)
        ensures
            r == status_result(*game_state),
    {
        if game_state.status == GameStatus::Ongoing {
            Ok(())
        } else {
            Err(Error::SessionOver)
        }
    }

    /// `caller` must hold one of the seats, and the one whose turn it is.
    pub fn check_caller_turn(&self, caller: &[u8; 32], game_state: &GameState) -> (r: Result<()>)
        ensures
            r == caller_turn_result(*game_state, *caller),
    {
        let is_black = same_identity(caller, &game_state.players.black);
        let is_white = same_identity(caller, &game_state.players.white);
        if !is_black && !is_white {
            return Err(Error::NotInSession);
        }
        let on_turn = match game_state.turn {
            Player::Black => is_black,
            Player::White => is_white,
        };
        if !on_turn {
            return Err(Error::NotYourTurn);
        }
        Ok(())
    }

    /// The piece on the origin is the mover's and the destination holds none
    /// of the mover's pieces.
    pub fn check_caller_owns_piece(&self, game_state: &GameState, chess_move: &ChessMove) -> (r: Result<()>)
        requires
            move_in_board(*chess_move),
        ensures
            r == ownership_result(*game_state, *chess_move),
    {
        let moved = match game_state.board[chess_move.from.0 as usize][chess_move.from.1 as usize] {
            Some(cell) => cell,
            None => return Err(Error::NoPieceAtSource),
        };
        if moved.player != game_state.turn {
            return Err(Error::PieceNotOwned);
        }
        match game_state.board[chess_move.to.0 as usize][chess_move.to.1 as usize] {
            Some(target) => if target.player == moved.player {
                Err(Error::DestinationOccupiedBySelf)
            } else {
                Ok(())
            },
            None => Ok(()),
        }
    }

    /// After the board was updated: ends the game if the opponent is mated,
    /// otherwise hands the turn over. Nothing changes on failure.
    fn update_turn_and_status(game_state: &mut GameState) -> (r: Result<()>)
        ensures
            match transition(*old(game_state)) {
                Ok(next) => r is Ok && *final(game_state) == next,
                Err(e) => r == Err::<(), Error>(e) && *final(game_state) == *old(game_state),
            },
    {
        let current = game_state.turn;
        let opposing = current.opponent();
        if Self::is_check_mate(&game_state.board, &opposing)? {
            game_state.status = match current {
                Player::Black => GameStatus::WonByBlack,
                Player::White => GameStatus::WonByWhite,
            };
        } else {
            game_state.turn = opposing;
        }
        Ok(())
    }

    /// Validates `chess_move` submitted by `caller` and returns the session
    /// after it; the given session is left as it was. The checks run in
    /// order and the first that fails is reported: the session is ongoing,
    /// the move is on the board, the caller holds the seat to move, the
    /// origin holds the mover's piece and the destination none of them, the
    /// piece may move so, and the move does not leave the mover in check.
    pub fn make_move(&self, caller: &[u8; 32], game_state: &GameState, chess_move: &ChessMove) -> (r: Result<GameState>)
        ensures
            r == move_outcome(*game_state, *caller, *chess_move),
    {
        let player = game_state.turn;
        self.check_for_game_state(game_state)?;
        Self::check_move_boundaries(chess_move)?;
        self.check_caller_turn(caller, game_state)?;
        self.check_caller_owns_piece(game_state, chess_move)?;
        Self::check_move_validity_for_piece(&game_state.board, &player, chess_move)?;
        Self::check_if_move_puts_in_check(&game_state.board, &player, chess_move)?;
        let mut next = *game_state;
        Self::update_board_from_move(&mut next.board, &player, chess_move);
        Self::update_turn_and_status(&mut next)?;
        Ok(next)
    }

    /// The caller takes the free seat of a lobby, which gives the bound
    /// session to store. Fails with `AlreadyInSession` when the caller holds
    /// a seat already and with `SessionFull` when no seat is free (or no
    /// seat was ever taken).
    pub fn join_session(&self, caller: &[u8; 32], lobby: &GameStateLobby) -> (r: Result<GameState>)
        ensures
            r == join_result(*lobby, *caller),
    {
        if holds_seat(&lobby.players.white, caller) || holds_seat(&lobby.players.black, caller) {
            return Err(Error::AlreadyInSession);
        }
        match (lobby.players.white, lobby.players.black) {
            (None, Some(black)) => Ok(
                GameState {
                    board: lobby.board,
                    turn: lobby.turn,
                    players: PlayersAddresses { black, white: *caller },
                    status: lobby.status,
                },
            ),
            (Some(white), None) => Ok(
                GameState {
                    board: lobby.board,
                    turn: lobby.turn,
                    players: PlayersAddresses { black: *caller, white },
                    status: lobby.status,
                },
            ),
            _ => Err(Error::SessionFull),
        }
    }

    /// The session to create for `caller`: ongoing, the standard layout,
    /// White to move, the caller on the requested seat (White by default)
    /// and `second_player_address`, if given, on the other.
    pub fn start_new_game_session(
        &self,
        caller: &[u8; 32],
        player: Option<Player>,
        second_player_address: Option<[u8; 32]>,
    ) -> (r: GameStateLobby)
        ensures
            is_initial_board(r.board),
            r.turn == Player::White,
            r.status == GameStatus::Ongoing,
            r.players == new_seats(*caller, player, second_player_address),
    {
        let seat = match player {
            Some(p) => p,
            None => Player::White,
        };
        let players = match seat {
            Player::White => PlayersAddressesLobby { black: second_player_address, white: Some(*caller) },
            Player::Black => PlayersAddressesLobby { black: Some(*caller), white: second_player_address },
        };
        GameStateLobby { board: initial_board(), turn: Player::White, players, status: GameStatus::Ongoing }
    }
}

} // verus!
