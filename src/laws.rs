//! Properties that relate the operations, proved over their specifications.
use vstd::prelude::*;

use crate::board::{in_board, is_empty, move_in_board, moved_board, relocated, Board, ChessCell, ChessMove, Piece, Player};
use crate::check::{
    checkmate, checkmate_result, exposure_result, in_check, king_square, on_threat_path, response,
};
use crate::error::Error;
use crate::rules::{abs, legal, on_line, piece_rule};
use crate::session::{
    caller_turn_result, join_result, move_outcome, ownership_result, GameState, GameStatus,
};

verus! {

/// A White pawn on (1,4) may advance to (3,4) exactly when (2,4) and (3,4)
/// are both empty; otherwise the move is illegal.
pub proof fn lemma_pawn_double_step(b: Board)
    requires
        b[1][4] == Some(ChessCell { piece: Piece::Pawn, player: Player::White }),
    ensures
        piece_rule(b, Player::White, 1, 4, 3, 4) == if is_empty(b, 2, 4) && is_empty(b, 3, 4) {
            Ok(())
        } else {
            Err::<(), Error>(Error::IllegalMove)
        },
{
}

/// A Rook on (0,0) cannot reach (0,7) when a piece stands on (0,3), and
/// reaches it when every square between is empty.
pub proof fn lemma_rook_path(b: Board, p: Player)
    requires
        b[0][0] matches Some(c) && c.piece == Piece::Rook,
    ensures
        !is_empty(b, 0, 3) ==> piece_rule(b, p, 0, 0, 0, 7) == Err::<(), Error>(Error::IllegalMove),
        (forall|f: int| 1 <= f < 7 ==> is_empty(b, 0, f)) ==> piece_rule(b, p, 0, 0, 0, 7) == Ok::<
            (),
            Error,
        >(()),
{
    if !is_empty(b, 0, 3) {
        assert(!crate::rules::step_empty(b, 0, 0, 0, 7, 3));
    }
    if forall|f: int| 1 <= f < 7 ==> is_empty(b, 0, f) {
        assert forall|k: int| 1 <= k < 7 implies #[trigger] crate::rules::step_empty(b, 0, 0, 0, 7, k) by {
            assert(is_empty(b, 0, k));
        }
    }
}

/// A pawn that reaches rank 0 or 7 becomes a Queen of the mover, and its
/// origin is left empty.
pub proof fn lemma_promotion(b: Board, fr: int, ff: int, tr: int, tf: int, p: Player)
    requires
        in_board(fr, ff),
        in_board(tr, tf),
        !(fr == tr && ff == tf),
        b[fr][ff] matches Some(c) && c.piece == Piece::Pawn,
        tr == 0 || tr == 7,
    ensures
        relocated(b, fr, ff, tr, tf, p)[tr][tf] == Some(ChessCell { piece: Piece::Queen, player: p }),
        relocated(b, fr, ff, tr, tf, p)[fr][ff] is None,
{
}

/// An accepted move never leaves the mover's own King attacked.
pub proof fn lemma_accepted_move_is_safe(gs: GameState, caller: [u8; 32], m: ChessMove)
    requires
        move_outcome(gs, caller, m) is Ok,
    ensures
        !in_check(move_outcome(gs, caller, m)->Ok_0.board, gs.turn),
        king_square(move_outcome(gs, caller, m)->Ok_0.board, gs.turn) is Some,
{
}

/// A move that passes every other check but would leave the mover's King
/// attacked is refused with `MoveExposesCheck`.
pub proof fn lemma_exposing_move_refused(gs: GameState, caller: [u8; 32], m: ChessMove)
    requires
        gs.status == GameStatus::Ongoing,
        move_in_board(m),
        caller_turn_result(gs, caller) is Ok,
        ownership_result(gs, m) is Ok,
        piece_rule(gs.board, gs.turn, m.from.0 as int, m.from.1 as int, m.to.0 as int, m.to.1 as int) is Ok,
        in_check(moved_board(gs.board, m, gs.turn), gs.turn),
    ensures
        move_outcome(gs, caller, m) == Err::<GameState, Error>(Error::MoveExposesCheck),
{
    assert(exposure_result(gs.board, gs.turn, m) == Err::<(), Error>(Error::MoveExposesCheck));
}

/// After White moves and the game goes on, it is Black's turn, and White's
/// next submission is refused with `NotYourTurn` (when the two seats hold
/// different identities).
pub proof fn lemma_turn_passes(gs: GameState, caller: [u8; 32], m: ChessMove, next_move: ChessMove)
    requires
        gs.turn == Player::White,
        gs.players.white != gs.players.black,
        move_outcome(gs, caller, m) is Ok,
        move_outcome(gs, caller, m)->Ok_0.status == GameStatus::Ongoing,
        move_in_board(next_move),
    ensures
        move_outcome(gs, caller, m)->Ok_0.turn == Player::Black,
        move_outcome(move_outcome(gs, caller, m)->Ok_0, caller, next_move) == Err::<GameState, Error>(
            Error::NotYourTurn,
        ),
{
}

/// A move that mates the opponent ends the game in the mover's favour.
pub proof fn lemma_mate_ends_game(gs: GameState, caller: [u8; 32], m: ChessMove)
    requires
        gs.turn == Player::White,
        move_outcome(gs, caller, m) is Ok,
        checkmate_result(moved_board(gs.board, m, gs.turn), Player::Black) == Ok::<bool, Error>(true),
    ensures
        move_outcome(gs, caller, m)->Ok_0.status == GameStatus::WonByWhite,
        move_outcome(gs, caller, m)->Ok_0.turn == Player::White,
{
}

/// An attacker next to the King leaves no square to block on, so it mates.
pub proof fn lemma_adjacent_attacker_mates(b: Board, p: Player, r: int, f: int)
    requires
        king_square(b, p) matches Some(k) && abs(k.0 - r) <= 1 && abs(k.1 - f) <= 1 && legal(
            b,
            crate::board::opponent_of(p),
            r,
            f,
            k.0,
            k.1,
        ),
        in_board(r, f),
    ensures
        checkmate_result(b, p) == Ok::<bool, Error>(true),
{
    let k = king_square(b, p)->Some_0;
    assert(!on_threat_path(r, f, k.0, k.1, 1));
    assert(!response(b, p, r, f, k.0, k.1));
    assert(checkmate(b, p, k.0, k.1));
}

/// An attacker on no rank, file or diagonal with the King, such as a
/// Knight, leaves no square between to block on, so it mates.
pub proof fn lemma_off_line_attacker_mates(b: Board, p: Player, r: int, f: int)
    requires
        king_square(b, p) matches Some(k) && !on_line(r, f, k.0, k.1) && legal(
            b,
            crate::board::opponent_of(p),
            r,
            f,
            k.0,
            k.1,
        ),
        in_board(r, f),
    ensures
        checkmate_result(b, p) == Ok::<bool, Error>(true),
{
    let k = king_square(b, p)->Some_0;
    assert(!response(b, p, r, f, k.0, k.1));
    assert(checkmate(b, p, k.0, k.1));
}

/// A session that is no longer ongoing accepts no move.
pub proof fn lemma_finished_session_is_final(gs: GameState, caller: [u8; 32], m: ChessMove)
    requires
        gs.status != GameStatus::Ongoing,
    ensures
        move_outcome(gs, caller, m) == Err::<GameState, Error>(Error::SessionOver),
{
}

/// Joining fails with `AlreadyInSession` for a caller who holds a seat, and
/// with `SessionFull` for anyone else when both seats are taken.
pub proof fn lemma_join_semantics(lobby: crate::session::GameStateLobby, caller: [u8; 32])
    ensures
        (lobby.players.white == Some(caller) || lobby.players.black == Some(caller)) ==> join_result(
            lobby,
            caller,
        ) == Err::<GameState, Error>(Error::AlreadyInSession),
        (lobby.players.white is Some && lobby.players.black is Some && lobby.players.white != Some(caller)
            && lobby.players.black != Some(caller)) ==> join_result(lobby, caller) == Err::<
            GameState,
            Error,
        >(Error::SessionFull),
{
}

} // verus!
