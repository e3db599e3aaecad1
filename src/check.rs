//! Check and checkmate detection. Checkmate follows a deliberately partial
//! rule: only blocking moves on the walk from an attacker toward the King
//! count as a response.
use vstd::prelude::*;

use crate::board::{
    in_board, move_in_board, moved_board, opponent_of, owned_by, relocated, Board,
    ChessCell, ChessMove, Piece, Player,
};
use crate::error::{Error, Result};
use crate::rules::{along, legal, on_line, sign};
use crate::service::OhMyChess;

verus! {

pub open spec fn is_king_of(b: Board, r: int, f: int, p: Player) -> bool {
    b[r][f] == Some(ChessCell { piece: Piece::King, player: p })
}

/// The first King of `p` on rank `r`, scanning files from `f` upward.
pub open spec fn king_in_rank_from(b: Board, p: Player, r: int, f: int) -> Option<(int, int)>
    decreases 8 - f,
{
    if f < 0 || f >= 8 {
        None
    } else if is_king_of(b, r, f, p) {
        Some((r, f))
    } else {
        king_in_rank_from(b, p, r, f + 1)
    }
}

/// The first King of `p` scanning ranks from `r` upward, each rank by file.
pub open spec fn king_from_rank(b: Board, p: Player, r: int) -> Option<(int, int)>
    decreases 8 - r,
{
    if r < 0 || r >= 8 {
        None
    } else {
        match king_in_rank_from(b, p, r, 0) {
            Some(s) => Some(s),
            None => king_from_rank(b, p, r + 1),
        }
    }
}

/// Where `p`'s King stands: the first one in rank-major order, if any.
pub open spec fn king_square(b: Board, p: Player) -> Option<(int, int)> {
    king_from_rank(b, p, 0)
}

/// Some piece of the opponent of `p` has a legal move onto `(kr, kf)`.
pub open spec fn attacked(b: Board, p: Player, kr: int, kf: int) -> bool {
    exists|r: int, f: int| in_board(r, f) && #[trigger] legal(b, opponent_of(p), r, f, kr, kf)
}

/// `p` has a King and it is attacked.
pub open spec fn in_check(b: Board, p: Player) -> bool {
    match king_square(b, p) {
        Some(k) => attacked(b, p, k.0, k.1),
        None => false,
    }
}

pub open spec fn check_result(b: Board, p: Player) -> Result<bool> {
    match king_square(b, p) {
        Some(k) => Ok(attacked(b, p, k.0, k.1)),
        None => Err(Error::KingNotFound),
    }
}

/// `p` has a legal move onto `(r, f)` after which `p` is not in check.
pub open spec fn blocks(b: Board, p: Player, r: int, f: int) -> bool {
    exists|sr: int, sf: int|
        in_board(sr, sf) && #[trigger] legal(b, p, sr, sf, r, f) && !in_check(
            relocated(b, sr, sf, r, f, p),
            p,
        )
}

/// The square `j` steps from the attacker at `(tr, tf)` toward the King at
/// `(kr, kf)` is on the board and is not the King's square.
pub open spec fn on_threat_path(tr: int, tf: int, kr: int, kf: int, j: int) -> bool {
    let r = along(tr, sign(kr - tr), j);
    let f = along(tf, sign(kf - tf), j);
    in_board(r, f) && !(r == kr && f == kf)
}

/// The attacker at `(tr, tf)` shares a rank, file or diagonal with the King
/// at `(kr, kf)`, and some square strictly between them can be occupied by
/// `p` in a way that ends the check. Only those squares are considered:
/// neither capturing the attacker nor other King moves. An attacker off
/// every line with the King, such as a Knight, has no square between and so
/// no response.
pub open spec fn response(b: Board, p: Player, tr: int, tf: int, kr: int, kf: int) -> bool {
    on_line(tr, tf, kr, kf) && exists|j: int|
        1 <= j < 8 && (forall|i: int| 1 <= i <= j ==> #[trigger] on_threat_path(tr, tf, kr, kf, i))
            && #[trigger] blocks(b, p, along(tr, sign(kr - tr), j), along(tf, sign(kf - tf), j))
}

/// Some attacker of `p`'s King leaves `p` no blocking response.
pub open spec fn checkmate(b: Board, p: Player, kr: int, kf: int) -> bool {
    exists|r: int, f: int|
        in_board(r, f) && #[trigger] legal(b, opponent_of(p), r, f, kr, kf) && !response(
            b,
            p,
            r,
            f,
            kr,
            kf,
        )
}

pub open spec fn checkmate_result(b: Board, p: Player) -> Result<bool> {
    match king_square(b, p) {
        Some(k) => Ok(checkmate(b, p, k.0, k.1)),
        None => Err(Error::KingNotFound),
    }
}

/// What the self-check guard reports for a move of `p`.
pub open spec fn exposure_result(b: Board, p: Player, m: ChessMove) -> Result<()> {
    match check_result(moved_board(b, m, p), p) {
        Err(e) => Err(e),
        Ok(true) => Err(Error::MoveExposesCheck),
        Ok(false) => Ok(()),
    }
}

proof fn lemma_rank_scan_sound(b: Board, p: Player, r: int, f: int)
    ensures
        king_in_rank_from(b, p, r, f) matches Some(s) ==> s.0 == r && 0 <= s.1 < 8 && is_king_of(
            b,
            s.0,
            s.1,
            p,
        ),
    decreases 8 - f,
{
    if 0 <= f < 8 {
        lemma_rank_scan_sound(b, p, r, f + 1);
    }
}

proof fn lemma_scan_sound(b: Board, p: Player, r: int)
    ensures
        king_from_rank(b, p, r) matches Some(s) ==> in_board(s.0, s.1) && is_king_of(b, s.0, s.1, p),
    decreases 8 - r,
{
    if 0 <= r < 8 {
        lemma_rank_scan_sound(b, p, r, 0);
        lemma_scan_sound(b, p, r + 1);
    }
}

proof fn lemma_rank_scan_complete(b: Board, p: Player, r: int, f: int, g: int)
    requires
        0 <= f <= g < 8,
        is_king_of(b, r, g, p),
    ensures
        king_in_rank_from(b, p, r, f) is Some,
    decreases g - f,
{
    if f < g {
        lemma_rank_scan_complete(b, p, r, f + 1, g);
    }
}

proof fn lemma_scan_complete(b: Board, p: Player, r: int, kr: int, kf: int)
    requires
        0 <= r <= kr,
        in_board(kr, kf),
        is_king_of(b, kr, kf, p),
    ensures
        king_from_rank(b, p, r) is Some,
    decreases kr - r,
{
    if r < kr {
        lemma_scan_complete(b, p, r + 1, kr, kf);
    } else {
        lemma_rank_scan_complete(b, p, r, 0, kf);
    }
}

/// A legal move of `p` never removes `p`'s King: it either moves the King or
/// lands somewhere `p` has no piece.
proof fn lemma_king_survives_move(b: Board, p: Player, fr: int, ff: int, tr: int, tf: int)
    requires
        king_square(b, p) is Some,
        legal(b, p, fr, ff, tr, tf),
    ensures
        king_square(relocated(b, fr, ff, tr, tf, p), p) is Some,
{
    let nb = relocated(b, fr, ff, tr, tf, p);
    lemma_scan_sound(b, p, 0);
    let k = king_square(b, p)->Some_0;
    assert(owned_by(b, k.0, k.1, p));
    if k.0 == fr && k.1 == ff {
        assert(is_king_of(nb, tr, tf, p));
        lemma_scan_complete(nb, p, 0, tr, tf);
    } else {
        assert(!(k.0 == tr && k.1 == tf));
        assert(is_king_of(nb, k.0, k.1, p));
        lemma_scan_complete(nb, p, 0, k.0, k.1);
    }
}

impl OhMyChess {
    /// Where `player`'s King stands, scanning ranks, then files, from 0.
    pub fn find_king_position(board: &Board, player: &Player) -> (r: Result<(u8, u8)>)
        ensures
            match r {
                Ok(k) => k.0 < 8 && k.1 < 8 && king_square(*board, *player) == Some((k.0 as int, k.1 as int)),
                Err(e) => e == Error::KingNotFound && king_square(*board, *player) is None,
            },
    {
        let mut x: usize = 0;
        while x < 8
            invariant
                x <= 8,
                king_square(*board, *player) == king_from_rank(*board, *player, x as int),
            decreases 8 - x,
        {
            let mut y: usize = 0;
            while y < 8
                invariant
                    x < 8,
                    y <= 8,
                    king_square(*board, *player) == match king_in_rank_from(*board, *player, x as int, y as int) {
                        Some(s) => Some(s),
                        None => king_from_rank(*board, *player, x as int + 1),
                    },
                decreases 8 - y,
            {
                if let Some(cell) = board[x][y] {
                    if cell.piece == Piece::King && cell.player == *player {
                        return Ok((x as u8, y as u8));
                    }
                }
                y += 1;
            }
            x += 1;
        }
        Err(Error::KingNotFound)
    }

    /// Whether `player`'s King is attacked by some opposing piece.
    pub fn is_in_check(board: &Board, player: &Player) -> (r: Result<bool>)
        ensures
            r == check_result(*board, *player),
    {
        let king = Self::find_king_position(board, player)?;
        let attacker = player.opponent();
        let mut x: u8 = 0;
        while x < 8
            invariant
                x <= 8,
                king_square(*board, *player) == Some((king.0 as int, king.1 as int)),
                attacker == opponent_of(*player),
                forall|r: int, f: int|
                    0 <= r < x && 0 <= f < 8 ==> !#[trigger] legal(
                        *board,
                        attacker,
                        r,
                        f,
                        king.0 as int,
                        king.1 as int,
                    ),
            decreases 8 - x,
        {
            let mut y: u8 = 0;
            while y < 8
                invariant
                    x < 8,
                    y <= 8,
                    king_square(*board, *player) == Some((king.0 as int, king.1 as int)),
                    attacker == opponent_of(*player),
                    forall|r: int, f: int|
                        (0 <= r < x && 0 <= f < 8) || (r == x && 0 <= f < y) ==> !#[trigger] legal(
                            *board,
                            attacker,
                            r,
                            f,
                            king.0 as int,
                            king.1 as int,
                        ),
                decreases 8 - y,
            {
                let threat = ChessMove { from: (x, y), to: king };
                if Self::check_move_legality(board, &attacker, &threat).is_ok() {
                    assert(legal(*board, attacker, x as int, y as int, king.0 as int, king.1 as int));
                    return Ok(true);
                }
                y += 1;
            }
            x += 1;
        }
        Ok(false)
    }

    /// Rejects a move of `player` that would leave `player`'s own King
    /// attacked. The move is tried on a scratch copy of the board.
    pub fn check_if_move_puts_in_check(board: &Board, player: &Player, chess_move: &ChessMove) -> (r: Result<()>)
        requires
            move_in_board(*chess_move),
        ensures
            r == exposure_result(*board, *player, *chess_move),
    {
        let mut scratch = *board;
        Self::update_board_from_move(&mut scratch, player, chess_move);
        if Self::is_in_check(&scratch, player)? {
            return Err(Error::MoveExposesCheck);
        }
        Ok(())
    }

    /// Whether `player` has a legal move onto `(r, f)` after which it is not
    /// in check, trying each origin square on a scratch board.
    fn can_block_at(board: &Board, player: &Player, r: u8, f: u8) -> (res: bool)
        requires
            king_square(*board, *player) is Some,
            in_board(r as int, f as int),
        ensures
            res == blocks(*board, *player, r as int, f as int),
    {
        let mut x: u8 = 0;
        while x < 8
            invariant
                x <= 8,
                king_square(*board, *player) is Some,
                in_board(r as int, f as int),
                forall|sr: int, sf: int|
                    0 <= sr < x && 0 <= sf < 8 && #[trigger] legal(*board, *player, sr, sf, r as int, f as int)
                        ==> in_check(relocated(*board, sr, sf, r as int, f as int, *player), *player),
            decreases 8 - x,
        {
            let mut y: u8 = 0;
            while y < 8
                invariant
                    x < 8,
                    y <= 8,
                    king_square(*board, *player) is Some,
                    in_board(r as int, f as int),
                    forall|sr: int, sf: int|
                        ((0 <= sr < x && 0 <= sf < 8) || (sr == x && 0 <= sf < y)) && #[trigger] legal(
                            *board,
                            *player,
                            sr,
                            sf,
                            r as int,
                            f as int,
                        ) ==> in_check(relocated(*board, sr, sf, r as int, f as int, *player), *player),
                decreases 8 - y,
            {
                let candidate = ChessMove { from: (x, y), to: (r, f) };
                if Self::check_move_legality(board, player, &candidate).is_ok() {
                    let mut scratch = *board;
                    Self::update_board_from_move(&mut scratch, player, &candidate);
                    proof {
                        lemma_king_survives_move(*board, *player, x as int, y as int, r as int, f as int);
                    }
                    let still_in_check = Self::is_in_check(&scratch, player);
                    if let Ok(false) = still_in_check {
                        assert(legal(*board, *player, x as int, y as int, r as int, f as int));
                        return true;
                    }
                }
                y += 1;
            }
            x += 1;
        }
        false
    }

    /// Whether `player` can answer the attacker at `threat_position` by
    /// moving a piece onto a square strictly between the attacker and the
    /// King on their common line, so that the King is no longer in check
    /// afterwards. An attacker on no line with the King has no answer.
    fn has_response_to_threat(board: &Board, player: &Player, threat_position: (usize, usize)) -> (r: Result<bool>)
        requires
            in_board(threat_position.0 as int, threat_position.1 as int),
        ensures
            r == match king_square(*board, *player) {
                Some(k) => Ok(
                    response(*board, *player, threat_position.0 as int, threat_position.1 as int, k.0, k.1),
                ),
                None => Err(Error::KingNotFound),
            },
    {
        let (king_x, king_y) = Self::find_king_position(board, player)?;
        let ghost tr = threat_position.0 as int;
        let ghost tf = threat_position.1 as int;
        let kx = king_x as i8;
        let ky = king_y as i8;
        let tx = threat_position.0 as i8;
        let ty = threat_position.1 as i8;
        let rank_gap = if kx > tx { kx - tx } else { tx - kx };
        let file_gap = if ky > ty { ky - ty } else { ty - ky };
        if !(kx == tx || ky == ty || rank_gap == file_gap) {
            return Ok(false);
        }
        let dx: i8 = if kx > tx { 1 } else if kx < tx { -1 } else { 0 };
        let dy: i8 = if ky > ty { 1 } else if ky < ty { -1 } else { 0 };
        let mut cx: i8 = tx + dx;
        let mut cy: i8 = ty + dy;
        let mut j: i8 = 1;
        while j < 8 && 0 <= cx && cx < 8 && 0 <= cy && cy < 8 && !(cx == kx && cy == ky)
            invariant
                1 <= j <= 8,
                tr == tx,
                tf == ty,
                tr == threat_position.0 as int,
                tf == threat_position.1 as int,
                on_line(tr, tf, kx as int, ky as int),
                0 <= tx < 8,
                0 <= ty < 8,
                0 <= kx < 8,
                0 <= ky < 8,
                king_square(*board, *player) == Some((kx as int, ky as int)),
                dx == sign(kx - tx),
                dy == sign(ky - ty),
                cx == along(tx as int, dx as int, j as int),
                cy == along(ty as int, dy as int, j as int),
                forall|i: int| 1 <= i < j ==> #[trigger] on_threat_path(tr, tf, kx as int, ky as int, i),
                forall|i: int|
                    1 <= i < j ==> !#[trigger] blocks(
                        *board,
                        *player,
                        along(tr, dx as int, i),
                        along(tf, dy as int, i),
                    ),
            decreases 8 - j,
        {
            assert(on_threat_path(tr, tf, kx as int, ky as int, j as int));
            if Self::can_block_at(board, player, cx as u8, cy as u8) {
                assert(forall|i: int|
                    1 <= i <= j ==> #[trigger] on_threat_path(tr, tf, kx as int, ky as int, i));
                assert(blocks(
                    *board,
                    *player,
                    along(tr, sign(kx - tr), j as int),
                    along(tf, sign(ky - tf), j as int),
                ));
                assert(response(*board, *player, tr, tf, kx as int, ky as int));
                return Ok(true);
            }
            cx = cx + dx;
            cy = cy + dy;
            j = j + 1;
        }
        assert(!response(*board, *player, tr, tf, kx as int, ky as int)) by {
            if response(*board, *player, tr, tf, kx as int, ky as int) {
                let w = choose|w: int|
                    1 <= w < 8 && (forall|i: int|
                        1 <= i <= w ==> #[trigger] on_threat_path(tr, tf, kx as int, ky as int, i))
                        && #[trigger] blocks(
                        *board,
                        *player,
                        along(tr, sign(kx - tr), w),
                        along(tf, sign(ky - tf), w),
                    );
                if w >= j {
                    assert(on_threat_path(tr, tf, kx as int, ky as int, j as int));
                }
            }
        }
        Ok(false)
    }

    /// Whether some piece attacking `player`'s King leaves `player` no
    /// blocking response; a King that is not attacked is not mated.
    pub fn is_check_mate(board: &Board, player: &Player) -> (r: Result<bool>)
        ensures
            r == checkmate_result(*board, *player),
    {
        let king = Self::find_king_position(board, player)?;
        let attacker = player.opponent();
        let mut x: u8 = 0;
        while x < 8
            invariant
                x <= 8,
                king_square(*board, *player) == Some((king.0 as int, king.1 as int)),
                attacker == opponent_of(*player),
                forall|r: int, f: int|
                    0 <= r < x && 0 <= f < 8 && #[trigger] legal(
                        *board,
                        attacker,
                        r,
                        f,
                        king.0 as int,
                        king.1 as int,
                    ) ==> response(*board, *player, r, f, king.0 as int, king.1 as int),
            decreases 8 - x,
        {
            let mut y: u8 = 0;
            while y < 8
                invariant
                    x < 8,
                    y <= 8,
                    king_square(*board, *player) == Some((king.0 as int, king.1 as int)),
                    attacker == opponent_of(*player),
                    forall|r: int, f: int|
                        ((0 <= r < x && 0 <= f < 8) || (r == x && 0 <= f < y)) && #[trigger] legal(
                            *board,
                            attacker,
                            r,
                            f,
                            king.0 as int,
                            king.1 as int,
                        ) ==> response(*board, *player, r, f, king.0 as int, king.1 as int),
                decreases 8 - y,
            {
                let threat = ChessMove { from: (x, y), to: king };
                if Self::check_move_legality(board, &attacker, &threat).is_ok() {
                    let answered = Self::has_response_to_threat(board, player, (x as usize, y as usize));
                    match answered {
                        Ok(true) => {},
                        Ok(false) => {
                            assert(legal(*board, attacker, x as int, y as int, king.0 as int, king.1 as int));
                            return Ok(true);
                        },
                        Err(e) => {
                            return Err(e);
                        },
                    }
                }
                y += 1;
            }
            x += 1;
        }
        Ok(false)
    }
}

} // verus!
