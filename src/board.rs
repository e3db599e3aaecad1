//! The board model: pieces, players, cells, the 8x8 grid, moves, the
//! standard opening layout, and relocation of a piece with pawn promotion.
use vstd::prelude::*;

use crate::error::{Error, Result};
use crate::service::OhMyChess;

verus! {

#[derive(Clone, Copy, PartialEq, Eq, Debug, Structural)]
pub enum Piece {
    Pawn,
    Knight,
    Bishop,
    Rook,
    Queen,
    King,
}

#[derive(Clone, Copy, PartialEq, Eq, Debug, Structural)]
pub enum Player {
    Black,
    White,
}

#[derive(Clone, Copy, PartialEq, Eq, Debug, Structural)]
pub struct ChessCell {
    pub piece: Piece,
    pub player: Player,
}

/// The 8x8 grid, indexed `[rank][file]`.
pub type Board = [[Option<ChessCell>; 8]; 8];

/// A candidate move, as `(rank, file)` pairs. Nothing about it is validated
/// until it is checked against a board and a player.
#[derive(Clone, Copy, PartialEq, Eq, Debug)]
pub struct ChessMove {
    pub from: (u8, u8),
    pub to: (u8, u8),
}

/// The line along which a sliding piece moves.
#[derive(Clone, Copy, PartialEq, Eq, Debug, Structural)]
pub enum Direction {
    Horizontal,
    Vertical,
    Diagonal,
}

pub open spec fn opponent_of(p: Player) -> Player {
    match p {
        Player::Black => Player::White,
        Player::White => Player::Black,
    }
}

impl Player {
    pub fn opponent(self) -> (r: Player)
        ensures
            r == opponent_of(self),
    {
        match self {
            Player::Black => Player::White,
            Player::White => Player::Black,
        }
    }
}

/// `+1` for White, `-1` for Black.
pub open spec fn forward(p: Player) -> int {
    match p {
        Player::White => 1,
        Player::Black => -1,
    }
}

/// The rank on which a player's pawns start.
pub open spec fn pawn_start_rank(p: Player) -> int {
    match p {
        Player::White => 1,
        Player::Black => 6,
    }
}

pub open spec fn in_board(r: int, f: int) -> bool {
    0 <= r < 8 && 0 <= f < 8
}

pub open spec fn move_in_board(m: ChessMove) -> bool {
    in_board(m.from.0 as int, m.from.1 as int) && in_board(m.to.0 as int, m.to.1 as int)
}

pub open spec fn is_empty(b: Board, r: int, f: int) -> bool {
    b[r][f] is None
}

/// The square holds a piece of `p`.
pub open spec fn owned_by(b: Board, r: int, f: int, p: Player) -> bool {
    match b[r][f] {
        Some(c) => c.player == p,
        None => false,
    }
}

pub open spec fn set_cell(b: Board, r: int, f: int, c: Option<ChessCell>) -> Board {
    vstd::array::spec_array_update(b, r, vstd::array::spec_array_update(b[r], f, c))
}

/// What lands on the destination of a relocation: the moved cell, or a Queen
/// of the mover where a Pawn reaches rank 0 or 7.
pub open spec fn landed(moved: Option<ChessCell>, tr: int, mover: Player) -> Option<ChessCell> {
    match moved {
        Some(c) => if c.piece == Piece::Pawn && (tr == 0 || tr == 7) {
            Some(ChessCell { piece: Piece::Queen, player: mover })
        } else {
            moved
        },
        None => None,
    }
}

/// The board after whatever stands on `(fr, ff)` moves to `(tr, tf)`,
/// capturing what was there, with pawn promotion.
pub open spec fn relocated(b: Board, fr: int, ff: int, tr: int, tf: int, mover: Player) -> Board {
    set_cell(set_cell(b, tr, tf, landed(b[fr][ff], tr, mover)), fr, ff, None)
}

pub open spec fn moved_board(b: Board, m: ChessMove, mover: Player) -> Board {
    relocated(b, m.from.0 as int, m.from.1 as int, m.to.0 as int, m.to.1 as int, mover)
}

/// Whether `(rank, file)` lies on the board.
pub fn in_bounds(rank: u8, file: u8) -> (r: bool)
    ensures
        r == in_board(rank as int, file as int),
{
    rank < 8 && file < 8
}

/// The cell at `(rank, file)`, or `OutOfBounds` off the board.
pub fn cell_at(board: &Board, rank: u8, file: u8) -> (r: Result<Option<ChessCell>>)
    ensures
        r == if in_board(rank as int, file as int) {
            Ok(board[rank as int][file as int])
        } else {
            Err::<Option<ChessCell>, Error>(Error::OutOfBounds)
        },
{
    if in_bounds(rank, file) {
        Ok(board[rank as usize][file as usize])
    } else {
        Err(Error::OutOfBounds)
    }
}

pub open spec fn back_rank_piece(f: int) -> Piece {
    if f == 0 || f == 7 {
        Piece::Rook
    } else if f == 1 || f == 6 {
        Piece::Knight
    } else if f == 2 || f == 5 {
        Piece::Bishop
    } else if f == 3 {
        Piece::Queen
    } else {
        Piece::King
    }
}

/// The standard opening arrangement: White on ranks 0 and 1, Black mirrored on
/// ranks 7 and 6.
pub open spec fn initial_cell(r: int, f: int) -> Option<ChessCell> {
    if r == 0 {
        Some(ChessCell { piece: back_rank_piece(f), player: Player::White })
    } else if r == 1 {
        Some(ChessCell { piece: Piece::Pawn, player: Player::White })
    } else if r == 6 {
        Some(ChessCell { piece: Piece::Pawn, player: Player::Black })
    } else if r == 7 {
        Some(ChessCell { piece: back_rank_piece(f), player: Player::Black })
    } else {
        None
    }
}

pub open spec fn is_initial_board(b: Board) -> bool {
    forall|r: int, f: int| in_board(r, f) ==> #[trigger] b[r][f] == initial_cell(r, f)
}

fn back_rank(player: Player) -> (row: [Option<ChessCell>; 8])
    ensures
        forall|f: int| 0 <= f < 8 ==> #[trigger] row[f] == Some(
            ChessCell { piece: back_rank_piece(f), player },
        ),
{
    [
        Some(ChessCell { piece: Piece::Rook, player }),
        Some(ChessCell { piece: Piece::Knight, player }),
        Some(ChessCell { piece: Piece::Bishop, player }),
        Some(ChessCell { piece: Piece::Queen, player }),
        Some(ChessCell { piece: Piece::King, player }),
        Some(ChessCell { piece: Piece::Bishop, player }),
        Some(ChessCell { piece: Piece::Knight, player }),
        Some(ChessCell { piece: Piece::Rook, player }),
    ]
}

/// The board every new session starts from.
pub fn initial_board() -> (b: Board)
    ensures
        is_initial_board(b),
{
    let white_pawn = Some(ChessCell { piece: Piece::Pawn, player: Player::White });
    let black_pawn = Some(ChessCell { piece: Piece::Pawn, player: Player::Black });
    let b: Board = [
        back_rank(Player::White),
        [white_pawn; 8],
        [None; 8],
        [None; 8],
        [None; 8],
        [None; 8],
        [black_pawn; 8],
        back_rank(Player::Black),
    ];
    b
}

impl OhMyChess {
    /// Moves whatever occupies `from` to `to`, capturing any occupant there, and
    /// clears `from`. A Pawn that lands on rank 0 or 7 becomes a Queen of `player`.
    /// No legality is checked here.
    pub fn update_board_from_move(board: &mut Board, player: &Player, chess_move: &ChessMove)
        requires
            move_in_board(*chess_move),
        ensures
            *final(board) == moved_board(*old(board), *chess_move, *player),
    {
        let fx = chess_move.from.0 as usize;
        let fy = chess_move.from.1 as usize;
        let tx = chess_move.to.0 as usize;
        let ty = chess_move.to.1 as usize;
        let moved = board[fx][fy];
        let placed = match moved {
            Some(c) => if c.piece == Piece::Pawn && (tx == 7 || tx == 0) {
                Some(ChessCell { piece: Piece::Queen, player: *player })
            } else {
                moved
            },
            None => None,
        };
        board[tx][ty] = placed;
        board[fx][fy] = None;
    }
}

} // verus!
