//! Move legality, ignoring check: board bounds, source and ownership,
//! friendly fire, and each piece's shape and path rule.
use vstd::prelude::*;

use crate::board::{
    forward, in_board, in_bounds, is_empty, move_in_board, opponent_of, owned_by, pawn_start_rank, Board, ChessMove,
    Piece, Player,
};
use crate::error::{Error, Result};
use crate::service::OhMyChess;

verus! {

pub open spec fn abs(x: int) -> int {
    if x < 0 { -x } else { x }
}

pub open spec fn sign(x: int) -> int {
    if x > 0 { 1 } else if x < 0 { -1 } else { 0 }
}

/// The coordinate `k` steps from `a` in the direction `s` (one of -1, 0, 1).
pub open spec fn along(a: int, s: int, k: int) -> int {
    if s > 0 { a + k } else if s < 0 { a - k } else { a }
}

/// The number of unit steps from one square to another on a line.
pub open spec fn line_len(fr: int, ff: int, tr: int, tf: int) -> int {
    if abs(tr - fr) >= abs(tf - ff) { abs(tr - fr) } else { abs(tf - ff) }
}

/// The square `k` steps from `(fr, ff)` toward `(tr, tf)` is empty.
pub open spec fn step_empty(b: Board, fr: int, ff: int, tr: int, tf: int, k: int) -> bool {
    is_empty(b, along(fr, sign(tr - fr), k), along(ff, sign(tf - ff), k))
}

/// Every square strictly between origin and destination is empty.
pub open spec fn path_clear(b: Board, fr: int, ff: int, tr: int, tf: int) -> bool {
    forall|k: int| 1 <= k < line_len(fr, ff, tr, tf) ==> #[trigger] step_empty(b, fr, ff, tr, tf, k)
}

/// Same rank, same file, or a diagonal.
pub open spec fn on_line(fr: int, ff: int, tr: int, tf: int) -> bool {
    fr == tr || ff == tf || abs(tr - fr) == abs(tf - ff)
}

pub open spec fn pawn_ok(b: Board, p: Player, fr: int, ff: int, tr: int, tf: int) -> bool {
    let fwd = forward(p);
    ||| (tr == fr + fwd && tf == ff && is_empty(b, tr, tf))
    ||| (fr == pawn_start_rank(p) && tr == fr + 2 * fwd && tf == ff && is_empty(b, tr, tf)
        && is_empty(b, fr + fwd, ff))
    ||| (tr == fr + fwd && (tf == ff - 1 || tf == ff + 1) && owned_by(b, tr, tf, opponent_of(p)))
}

pub open spec fn knight_ok(fr: int, ff: int, tr: int, tf: int) -> bool {
    (abs(tr - fr) == 2 && abs(tf - ff) == 1) || (abs(tr - fr) == 1 && abs(tf - ff) == 2)
}

pub open spec fn bishop_ok(b: Board, fr: int, ff: int, tr: int, tf: int) -> bool {
    abs(tr - fr) == abs(tf - ff) && tr != fr && path_clear(b, fr, ff, tr, tf)
}

pub open spec fn rook_ok(b: Board, fr: int, ff: int, tr: int, tf: int) -> bool {
    (fr == tr) != (ff == tf) && path_clear(b, fr, ff, tr, tf)
}

pub open spec fn queen_ok(b: Board, fr: int, ff: int, tr: int, tf: int) -> bool {
    on_line(fr, ff, tr, tf) && path_clear(b, fr, ff, tr, tf)
}

pub open spec fn king_ok(fr: int, ff: int, tr: int, tf: int) -> bool {
    abs(tr - fr) <= 1 && abs(tf - ff) <= 1
}

/// The shape and path rule of `piece`, moved by `p`.
pub open spec fn piece_ok(b: Board, piece: Piece, p: Player, fr: int, ff: int, tr: int, tf: int) -> bool {
    match piece {
        Piece::Pawn => pawn_ok(b, p, fr, ff, tr, tf),
        Piece::Knight => knight_ok(fr, ff, tr, tf),
        Piece::Bishop => bishop_ok(b, fr, ff, tr, tf),
        Piece::Rook => rook_ok(b, fr, ff, tr, tf),
        Piece::Queen => queen_ok(b, fr, ff, tr, tf),
        Piece::King => king_ok(fr, ff, tr, tf),
    }
}

pub open spec fn shape_result(ok: bool) -> Result<()> {
    if ok { Ok(()) } else { Err(Error::IllegalMove) }
}

/// The per-piece rule for whatever stands on the origin square.
pub open spec fn piece_rule(b: Board, p: Player, fr: int, ff: int, tr: int, tf: int) -> Result<()> {
    match b[fr][ff] {
        None => Err(Error::NoPieceAtSource),
        Some(c) => shape_result(piece_ok(b, c.piece, p, fr, ff, tr, tf)),
    }
}

/// The full legality check of a move of `p`, ignoring what it does to check:
/// bounds, source, ownership, friendly fire, then the piece's own rule, each
/// failure ending the check.
pub open spec fn legality(b: Board, p: Player, fr: int, ff: int, tr: int, tf: int) -> Result<()> {
    if !in_board(fr, ff) {
        Err(Error::OutOfBoardFrom)
    } else if !in_board(tr, tf) {
        Err(Error::OutOfBoardTo)
    } else {
        match b[fr][ff] {
            None => Err(Error::NoPieceAtSource),
            Some(c) => if c.player != p {
                Err(Error::PieceNotOwned)
            } else if owned_by(b, tr, tf, p) {
                Err(Error::DestinationOccupiedBySelf)
            } else {
                shape_result(piece_ok(b, c.piece, p, fr, ff, tr, tf))
            },
        }
    }
}

pub open spec fn legal(b: Board, p: Player, fr: int, ff: int, tr: int, tf: int) -> bool {
    legality(b, p, fr, ff, tr, tf) is Ok
}

pub open spec fn boundary_result(m: ChessMove) -> Result<()> {
    if !in_board(m.from.0 as int, m.from.1 as int) {
        Err(Error::OutOfBoardFrom)
    } else if !in_board(m.to.0 as int, m.to.1 as int) {
        Err(Error::OutOfBoardTo)
    } else {
        Ok(())
    }
}

pub open spec fn move_legality(b: Board, p: Player, m: ChessMove) -> Result<()> {
    legality(b, p, m.from.0 as int, m.from.1 as int, m.to.0 as int, m.to.1 as int)
}

fn abs_diff(a: u8, b: u8) -> (r: u8)
    ensures
        r as int == abs(a - b),
{
    if a >= b { a - b } else { b - a }
}

fn step_toward(from: u8, to: u8) -> (r: i8)
    ensures
        r as int == sign(to - from),
{
    if to > from { 1 } else if to < from { -1 } else { 0 }
}

impl OhMyChess {
    pub fn check_move_boundaries(chess_move: &ChessMove) -> (r: Result<()>)
        ensures
            r == boundary_result(*chess_move),
    {
        if !in_bounds(chess_move.from.0, chess_move.from.1) {
            return Err(Error::OutOfBoardFrom);
        }
        if !in_bounds(chess_move.to.0, chess_move.to.1) {
            return Err(Error::OutOfBoardTo);
        }
        Ok(())
    }

    /// Whether every square strictly between the move's origin and its
    /// destination is empty, stepping one square at a time along the line.
    fn is_path_clear(board: &Board, chess_move: &ChessMove) -> (r: bool)
        requires
            move_in_board(*chess_move),
            on_line(
                chess_move.from.0 as int,
                chess_move.from.1 as int,
                chess_move.to.0 as int,
                chess_move.to.1 as int,
            ),
        ensures
            r == path_clear(
                *board,
                chess_move.from.0 as int,
                chess_move.from.1 as int,
                chess_move.to.0 as int,
                chess_move.to.1 as int,
            ),
    {
        let (fx, fy) = chess_move.from;
        let (tx, ty) = chess_move.to;
        let step_x = step_toward(fx, tx);
        let step_y = step_toward(fy, ty);
        let dx = abs_diff(fx, tx);
        let dy = abs_diff(fy, ty);
        let n: i16 = if dx >= dy { dx as i16 } else { dy as i16 };
        let mut k: i16 = 1;
        let mut x: i16 = fx as i16 + step_x as i16;
        let mut y: i16 = fy as i16 + step_y as i16;
        while k < n
            invariant
                1 <= k,
                n == line_len(fx as int, fy as int, tx as int, ty as int),
                n <= 7,
                k <= n || n == 0,
                x == along(fx as int, step_x as int, k as int),
                y == along(fy as int, step_y as int, k as int),
                step_x == sign(tx - fx),
                step_y == sign(ty - fy),
                on_line(fx as int, fy as int, tx as int, ty as int),
                move_in_board(*chess_move),
                chess_move.from == (fx, fy),
                chess_move.to == (tx, ty),
                forall|j: int|
                    1 <= j < k ==> #[trigger] step_empty(
                        *board,
                        fx as int,
                        fy as int,
                        tx as int,
                        ty as int,
                        j,
                    ),
            decreases n - k,
        {
            if board[x as usize][y as usize].is_some() {
                assert(!step_empty(*board, fx as int, fy as int, tx as int, ty as int, k as int));
                return false;
            }
            x = x + step_x as i16;
            y = y + step_y as i16;
            k = k + 1;
        }
        true
    }

    pub fn check_move_validity_pawn(board: &Board, player: &Player, chess_move: &ChessMove) -> (r: Result<()>)
        requires
            move_in_board(*chess_move),
        ensures
            r == shape_result(
                pawn_ok(
                    *board,
                    *player,
                    chess_move.from.0 as int,
                    chess_move.from.1 as int,
                    chess_move.to.0 as int,
                    chess_move.to.1 as int,
                ),
            ),
    {
        let fx = chess_move.from.0 as i32;
        let fy = chess_move.from.1 as i32;
        let tx = chess_move.to.0 as i32;
        let ty = chess_move.to.1 as i32;
        let forward: i32 = match player {
            Player::White => 1,
            Player::Black => -1,
        };
        let start_rank: i32 = match player {
            Player::White => 1,
            Player::Black => 6,
        };
        // one step forward
        if fx + forward == tx && fy == ty && board[tx as usize][ty as usize].is_none() {
            return Ok(());
        }
        // two steps forward from the starting rank
        if fx == start_rank && tx == fx + 2 * forward && fy == ty && board[tx as usize][ty as usize].is_none()
            && board[(fx + forward) as usize][fy as usize].is_none() {
            return Ok(());
        }
        // diagonal capture
        if fx + forward == tx && (fy - 1 == ty || fy + 1 == ty) {
            if let Some(target) = board[tx as usize][ty as usize] {
                if target.player != *player {
                    return Ok(());
                }
            }
        }
        Err(Error::IllegalMove)
    }

    pub fn check_move_validity_knight(chess_move: &ChessMove) -> (r: Result<()>)
        ensures
            r == shape_result(
                knight_ok(
                    chess_move.from.0 as int,
                    chess_move.from.1 as int,
                    chess_move.to.0 as int,
                    chess_move.to.1 as int,
                ),
            ),
    {
        let dx = abs_diff(chess_move.from.0, chess_move.to.0);
        let dy = abs_diff(chess_move.from.1, chess_move.to.1);
        if (dx == 2 && dy == 1) || (dx == 1 && dy == 2) {
            Ok(())
        } else {
            Err(Error::IllegalMove)
        }
    }

    pub fn check_move_validity_bishop(board: &Board, chess_move: &ChessMove) -> (r: Result<()>)
        requires
            move_in_board(*chess_move),
        ensures
            r == shape_result(
                bishop_ok(
                    *board,
                    chess_move.from.0 as int,
                    chess_move.from.1 as int,
                    chess_move.to.0 as int,
                    chess_move.to.1 as int,
                ),
            ),
    {
        let dx = abs_diff(chess_move.from.0, chess_move.to.0);
        let dy = abs_diff(chess_move.from.1, chess_move.to.1);
        if dx == dy && dx != 0 && Self::is_path_clear(board, chess_move) {
            Ok(())
        } else {
            Err(Error::IllegalMove)
        }
    }

    pub fn check_move_validity_rook(board: &Board, chess_move: &ChessMove) -> (r: Result<()>)
        requires
            move_in_board(*chess_move),
        ensures
            r == shape_result(
                rook_ok(
                    *board,
                    chess_move.from.0 as int,
                    chess_move.from.1 as int,
                    chess_move.to.0 as int,
                    chess_move.to.1 as int,
                ),
            ),
    {
        let same_rank = chess_move.from.0 == chess_move.to.0;
        let same_file = chess_move.from.1 == chess_move.to.1;
        if same_rank != same_file && Self::is_path_clear(board, chess_move) {
            Ok(())
        } else {
            Err(Error::IllegalMove)
        }
    }

    pub fn check_move_validity_king(chess_move: &ChessMove) -> (r: Result<()>)
        ensures
            r == shape_result(
                king_ok(
                    chess_move.from.0 as int,
                    chess_move.from.1 as int,
                    chess_move.to.0 as int,
                    chess_move.to.1 as int,
                ),
            ),
    {
        let dx = abs_diff(chess_move.from.0, chess_move.to.0);
        let dy = abs_diff(chess_move.from.1, chess_move.to.1);
        if dx <= 1 && dy <= 1 {
            Ok(())
        } else {
            Err(Error::IllegalMove)
        }
    }

    pub fn check_move_validity_queen(board: &Board, chess_move: &ChessMove) -> (r: Result<()>)
        requires
            move_in_board(*chess_move),
        ensures
            r == shape_result(
                queen_ok(
                    *board,
                    chess_move.from.0 as int,
                    chess_move.from.1 as int,
                    chess_move.to.0 as int,
                    chess_move.to.1 as int,
                ),
            ),
    {
        let same_rank = chess_move.from.0 == chess_move.to.0;
        let same_file = chess_move.from.1 == chess_move.to.1;
        let diagonal = abs_diff(chess_move.from.0, chess_move.to.0) == abs_diff(
            chess_move.from.1,
            chess_move.to.1,
        );
        if (same_rank || same_file || diagonal) && Self::is_path_clear(board, chess_move) {
            Ok(())
        } else {
            Err(Error::IllegalMove)
        }
    }

    /// The per-piece shape and path rule for the piece on the origin square.
    pub fn check_move_validity_for_piece(board: &Board, player: &Player, chess_move: &ChessMove) -> (r: Result<()>)
        requires
            move_in_board(*chess_move),
        ensures
            r == piece_rule(
                *board,
                *player,
                chess_move.from.0 as int,
                chess_move.from.1 as int,
                chess_move.to.0 as int,
                chess_move.to.1 as int,
            ),
    {
        match board[chess_move.from.0 as usize][chess_move.from.1 as usize] {
            None => Err(Error::NoPieceAtSource),
            Some(cell) => match cell.piece {
                Piece::Pawn => Self::check_move_validity_pawn(board, player, chess_move),
                Piece::Knight => Self::check_move_validity_knight(chess_move),
                Piece::Bishop => Self::check_move_validity_bishop(board, chess_move),
                Piece::Rook => Self::check_move_validity_rook(board, chess_move),
                Piece::Queen => Self::check_move_validity_queen(board, chess_move),
                Piece::King => Self::check_move_validity_king(chess_move),
            },
        }
    }

    /// The complete legality check of a move by `player`, ignoring its effect
    /// on check: bounds, a piece at the origin, owned by `player`, no piece of
    /// `player` at the destination, then the piece's own rule.
    pub fn check_move_legality(board: &Board, player: &Player, chess_move: &ChessMove) -> (r: Result<()>)
        ensures
            r == move_legality(*board, *player, *chess_move),
    {
        Self::check_move_boundaries(chess_move)?;
        let from = board[chess_move.from.0 as usize][chess_move.from.1 as usize];
        let mover = match from {
            None => return Err(Error::NoPieceAtSource),
            Some(cell) => cell.player,
        };
        if mover != *player {
            return Err(Error::PieceNotOwned);
        }
        if let Some(target) = board[chess_move.to.0 as usize][chess_move.to.1 as usize] {
            if target.player == *player {
                return Err(Error::DestinationOccupiedBySelf);
            }
        }
        Self::check_move_validity_for_piece(board, player, chess_move)
    }
}

} // verus!
