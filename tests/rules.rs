use oh_my_chess::{initial_board, Board, ChessCell, ChessMove, Error, OhMyChess, Piece, Player};

fn empty() -> Board {
    [[None; 8]; 8]
}

fn put(b: &mut Board, r: usize, f: usize, piece: Piece, player: Player) {
    b[r][f] = Some(ChessCell { piece, player });
}

fn mv(fr: u8, ff: u8, tr: u8, tf: u8) -> ChessMove {
    ChessMove { from: (fr, ff), to: (tr, tf) }
}

#[test]
fn initial_board_has_standard_layout() {
    let b = initial_board();
    let back = [
        Piece::Rook,
        Piece::Knight,
        Piece::Bishop,
        Piece::Queen,
        Piece::King,
        Piece::Bishop,
        Piece::Knight,
        Piece::Rook,
    ];
    for f in 0..8 {
        assert_eq!(b[0][f], Some(ChessCell { piece: back[f], player: Player::White }));
        assert_eq!(b[1][f], Some(ChessCell { piece: Piece::Pawn, player: Player::White }));
        assert_eq!(b[6][f], Some(ChessCell { piece: Piece::Pawn, player: Player::Black }));
        assert_eq!(b[7][f], Some(ChessCell { piece: back[f], player: Player::Black }));
        for r in 2..6 {
            assert_eq!(b[r][f], None);
        }
    }
}

#[test]
fn boundaries_are_checked_origin_first() {
    assert_eq!(OhMyChess::check_move_boundaries(&mv(8, 0, 9, 0)), Err(Error::OutOfBoardFrom));
    assert_eq!(OhMyChess::check_move_boundaries(&mv(0, 8, 0, 0)), Err(Error::OutOfBoardFrom));
    assert_eq!(OhMyChess::check_move_boundaries(&mv(0, 0, 0, 8)), Err(Error::OutOfBoardTo));
    assert_eq!(OhMyChess::check_move_boundaries(&mv(7, 7, 0, 0)), Ok(()));
}

#[test]
fn pawn_double_step_needs_both_squares_empty() {
    let mut b = empty();
    put(&mut b, 1, 4, Piece::Pawn, Player::White);
    assert_eq!(OhMyChess::check_move_validity_pawn(&b, &Player::White, &mv(1, 4, 3, 4)), Ok(()));
    let mut blocked_middle = b;
    put(&mut blocked_middle, 2, 4, Piece::Knight, Player::Black);
    assert_eq!(
        OhMyChess::check_move_validity_pawn(&blocked_middle, &Player::White, &mv(1, 4, 3, 4)),
        Err(Error::IllegalMove)
    );
    let mut blocked_end = b;
    put(&mut blocked_end, 3, 4, Piece::Knight, Player::Black);
    assert_eq!(
        OhMyChess::check_move_validity_for_piece(&blocked_end, &Player::White, &mv(1, 4, 3, 4)),
        Err(Error::IllegalMove)
    );
}

#[test]
fn pawn_moves_forward_and_captures_diagonally() {
    let mut b = empty();
    put(&mut b, 6, 3, Piece::Pawn, Player::Black);
    put(&mut b, 5, 4, Piece::Rook, Player::White);
    put(&mut b, 5, 2, Piece::Rook, Player::Black);
    assert_eq!(OhMyChess::check_move_validity_pawn(&b, &Player::Black, &mv(6, 3, 5, 3)), Ok(()));
    assert_eq!(OhMyChess::check_move_validity_pawn(&b, &Player::Black, &mv(6, 3, 4, 3)), Ok(()));
    assert_eq!(OhMyChess::check_move_validity_pawn(&b, &Player::Black, &mv(6, 3, 5, 4)), Ok(()));
    // no capture of an own piece, no diagonal step onto an empty square, no backward step
    assert_eq!(OhMyChess::check_move_validity_pawn(&b, &Player::Black, &mv(6, 3, 5, 2)), Err(Error::IllegalMove));
    assert_eq!(OhMyChess::check_move_validity_pawn(&b, &Player::Black, &mv(6, 3, 7, 3)), Err(Error::IllegalMove));
    let mut w = empty();
    put(&mut w, 2, 0, Piece::Pawn, Player::White);
    // the double step only from the starting rank
    assert_eq!(OhMyChess::check_move_validity_pawn(&w, &Player::White, &mv(2, 0, 4, 0)), Err(Error::IllegalMove));
    assert_eq!(OhMyChess::check_move_validity_pawn(&w, &Player::White, &mv(2, 0, 3, 1)), Err(Error::IllegalMove));
}

#[test]
fn rook_path_blocked_or_clear() {
    let mut b = empty();
    put(&mut b, 0, 0, Piece::Rook, Player::White);
    assert_eq!(OhMyChess::check_move_validity_rook(&b, &mv(0, 0, 0, 7)), Ok(()));
    assert_eq!(OhMyChess::check_move_legality(&b, &Player::White, &mv(0, 0, 0, 7)), Ok(()));
    put(&mut b, 0, 3, Piece::Pawn, Player::Black);
    assert_eq!(OhMyChess::check_move_validity_rook(&b, &mv(0, 0, 0, 7)), Err(Error::IllegalMove));
    assert_eq!(OhMyChess::check_move_legality(&b, &Player::White, &mv(0, 0, 0, 7)), Err(Error::IllegalMove));
    // capturing the blocker itself is fine
    assert_eq!(OhMyChess::check_move_validity_rook(&b, &mv(0, 0, 0, 3)), Ok(()));
    // neither a diagonal nor staying put
    assert_eq!(OhMyChess::check_move_validity_rook(&b, &mv(0, 0, 2, 2)), Err(Error::IllegalMove));
    assert_eq!(OhMyChess::check_move_validity_rook(&b, &mv(0, 0, 0, 0)), Err(Error::IllegalMove));
}

#[test]
fn knight_king_bishop_queen_shapes() {
    let mut b = empty();
    put(&mut b, 3, 3, Piece::Queen, Player::White);
    put(&mut b, 5, 5, Piece::Pawn, Player::Black);
    assert_eq!(OhMyChess::check_move_validity_knight(&mv(3, 3, 5, 4)), Ok(()));
    assert_eq!(OhMyChess::check_move_validity_knight(&mv(3, 3, 1, 2)), Ok(()));
    assert_eq!(OhMyChess::check_move_validity_knight(&mv(3, 3, 5, 5)), Err(Error::IllegalMove));
    assert_eq!(OhMyChess::check_move_validity_king(&mv(3, 3, 4, 4)), Ok(()));
    assert_eq!(OhMyChess::check_move_validity_king(&mv(3, 3, 5, 3)), Err(Error::IllegalMove));
    assert_eq!(OhMyChess::check_move_validity_bishop(&b, &mv(3, 3, 5, 5)), Ok(()));
    assert_eq!(OhMyChess::check_move_validity_bishop(&b, &mv(3, 3, 6, 6)), Err(Error::IllegalMove));
    assert_eq!(OhMyChess::check_move_validity_bishop(&b, &mv(3, 3, 0, 0)), Ok(()));
    assert_eq!(OhMyChess::check_move_validity_bishop(&b, &mv(3, 3, 3, 6)), Err(Error::IllegalMove));
    assert_eq!(OhMyChess::check_move_validity_queen(&b, &mv(3, 3, 3, 7)), Ok(()));
    assert_eq!(OhMyChess::check_move_validity_queen(&b, &mv(3, 3, 7, 3)), Ok(()));
    assert_eq!(OhMyChess::check_move_validity_queen(&b, &mv(3, 3, 6, 6)), Err(Error::IllegalMove));
    assert_eq!(OhMyChess::check_move_validity_queen(&b, &mv(3, 3, 5, 4)), Err(Error::IllegalMove));
}

#[test]
fn legality_errors_in_order() {
    let b = initial_board();
    assert_eq!(OhMyChess::check_move_legality(&b, &Player::White, &mv(9, 0, 0, 0)), Err(Error::OutOfBoardFrom));
    assert_eq!(OhMyChess::check_move_legality(&b, &Player::White, &mv(0, 0, 0, 9)), Err(Error::OutOfBoardTo));
    assert_eq!(OhMyChess::check_move_legality(&b, &Player::White, &mv(3, 3, 4, 3)), Err(Error::NoPieceAtSource));
    assert_eq!(OhMyChess::check_move_legality(&b, &Player::White, &mv(6, 0, 5, 0)), Err(Error::PieceNotOwned));
    assert_eq!(
        OhMyChess::check_move_legality(&b, &Player::White, &mv(0, 0, 1, 0)),
        Err(Error::DestinationOccupiedBySelf)
    );
    assert_eq!(OhMyChess::check_move_legality(&b, &Player::White, &mv(0, 2, 2, 4)), Err(Error::IllegalMove));
    assert_eq!(OhMyChess::check_move_legality(&b, &Player::White, &mv(0, 1, 2, 2)), Ok(()));
    assert_eq!(
        OhMyChess::check_move_validity_for_piece(&b, &Player::White, &mv(3, 3, 4, 3)),
        Err(Error::NoPieceAtSource)
    );
}

#[test]
fn relocation_captures_and_promotes() {
    let mut b = empty();
    put(&mut b, 6, 0, Piece::Pawn, Player::White);
    OhMyChess::update_board_from_move(&mut b, &Player::White, &mv(6, 0, 7, 0));
    assert_eq!(b[7][0], Some(ChessCell { piece: Piece::Queen, player: Player::White }));
    assert_eq!(b[6][0], None);

    let mut c = empty();
    put(&mut c, 4, 4, Piece::Rook, Player::Black);
    put(&mut c, 4, 0, Piece::Knight, Player::White);
    OhMyChess::update_board_from_move(&mut c, &Player::Black, &mv(4, 4, 4, 0));
    assert_eq!(c[4][0], Some(ChessCell { piece: Piece::Rook, player: Player::Black }));
    assert_eq!(c[4][4], None);

    let mut d = empty();
    put(&mut d, 1, 5, Piece::Pawn, Player::Black);
    OhMyChess::update_board_from_move(&mut d, &Player::Black, &mv(1, 5, 0, 5));
    assert_eq!(d[0][5], Some(ChessCell { piece: Piece::Queen, player: Player::Black }));
}

#[test]
fn king_is_found_in_scan_order() {
    let b = initial_board();
    assert_eq!(OhMyChess::find_king_position(&b, &Player::White), Ok((0, 4)));
    assert_eq!(OhMyChess::find_king_position(&b, &Player::Black), Ok((7, 4)));
    let mut two = empty();
    put(&mut two, 5, 1, Piece::King, Player::White);
    put(&mut two, 2, 6, Piece::King, Player::White);
    assert_eq!(OhMyChess::find_king_position(&two, &Player::White), Ok((2, 6)));
    assert_eq!(OhMyChess::find_king_position(&two, &Player::Black), Err(Error::KingNotFound));
    assert_eq!(OhMyChess::is_in_check(&two, &Player::Black), Err(Error::KingNotFound));
    assert_eq!(OhMyChess::is_check_mate(&two, &Player::Black), Err(Error::KingNotFound));
}

#[test]
fn check_is_detected_with_the_attackers_direction() {
    let mut b = empty();
    put(&mut b, 4, 4, Piece::King, Player::White);
    put(&mut b, 0, 0, Piece::King, Player::Black);
    assert_eq!(OhMyChess::is_in_check(&b, &Player::White), Ok(false));
    // a Black pawn attacks downward
    put(&mut b, 5, 3, Piece::Pawn, Player::Black);
    assert_eq!(OhMyChess::is_in_check(&b, &Player::White), Ok(true));
    b[5][3] = None;
    put(&mut b, 3, 3, Piece::Pawn, Player::Black);
    assert_eq!(OhMyChess::is_in_check(&b, &Player::White), Ok(false));
    put(&mut b, 4, 7, Piece::Rook, Player::Black);
    assert_eq!(OhMyChess::is_in_check(&b, &Player::White), Ok(true));
    put(&mut b, 4, 6, Piece::Bishop, Player::White);
    assert_eq!(OhMyChess::is_in_check(&b, &Player::White), Ok(false));
}

#[test]
fn adjacent_queen_mates() {
    let mut b = empty();
    put(&mut b, 7, 4, Piece::King, Player::Black);
    put(&mut b, 6, 4, Piece::Queen, Player::White);
    put(&mut b, 0, 4, Piece::King, Player::White);
    assert_eq!(OhMyChess::is_in_check(&b, &Player::Black), Ok(true));
    assert_eq!(OhMyChess::is_check_mate(&b, &Player::Black), Ok(true));
}

#[test]
fn blockable_attack_is_not_mate() {
    let mut b = empty();
    put(&mut b, 7, 4, Piece::King, Player::Black);
    put(&mut b, 0, 0, Piece::King, Player::White);
    put(&mut b, 1, 4, Piece::Rook, Player::White);
    put(&mut b, 5, 0, Piece::Rook, Player::Black);
    assert_eq!(OhMyChess::is_in_check(&b, &Player::Black), Ok(true));
    assert_eq!(OhMyChess::is_check_mate(&b, &Player::Black), Ok(false));
    // without the blocker the same attack mates
    b[5][0] = None;
    assert_eq!(OhMyChess::is_check_mate(&b, &Player::Black), Ok(true));
}

#[test]
fn unattacked_king_is_not_mated() {
    let b = initial_board();
    assert_eq!(OhMyChess::is_in_check(&b, &Player::White), Ok(false));
    assert_eq!(OhMyChess::is_check_mate(&b, &Player::White), Ok(false));
    assert_eq!(OhMyChess::is_check_mate(&b, &Player::Black), Ok(false));
}

#[test]
fn self_check_guard() {
    let mut b = empty();
    put(&mut b, 0, 4, Piece::King, Player::White);
    put(&mut b, 1, 4, Piece::Bishop, Player::White);
    put(&mut b, 7, 4, Piece::Rook, Player::Black);
    put(&mut b, 7, 0, Piece::King, Player::Black);
    assert_eq!(
        OhMyChess::check_if_move_puts_in_check(&b, &Player::White, &mv(1, 4, 2, 5)),
        Err(Error::MoveExposesCheck)
    );
    assert_eq!(OhMyChess::check_if_move_puts_in_check(&b, &Player::White, &mv(0, 4, 0, 3)), Ok(()));
}

#[test]
fn identity_key_is_dashed_hex() {
    let mut id = [0u8; 32];
    id[0] = 0xab;
    id[1] = 0x05;
    id[31] = 0xff;
    let s = OhMyChess::bytes_to_hex_string(id);
    assert_eq!(s.len(), 95);
    assert!(s.starts_with("ab-05-00-"));
    assert!(s.ends_with("-00-ff"));
}

#[test]
fn board_access_is_bounds_checked() {
    let b = initial_board();
    assert!(oh_my_chess::in_bounds(7, 0));
    assert!(!oh_my_chess::in_bounds(8, 0));
    assert!(!oh_my_chess::in_bounds(0, 8));
    assert_eq!(
        oh_my_chess::cell_at(&b, 0, 4),
        Ok(Some(ChessCell { piece: Piece::King, player: Player::White }))
    );
    assert_eq!(oh_my_chess::cell_at(&b, 4, 4), Ok(None));
    assert_eq!(oh_my_chess::cell_at(&b, 4, 9), Err(Error::OutOfBounds));
}

#[test]
fn knight_check_is_mate() {
    let mut b = empty();
    put(&mut b, 7, 4, Piece::King, Player::Black);
    put(&mut b, 5, 3, Piece::Knight, Player::White);
    put(&mut b, 0, 4, Piece::King, Player::White);
    assert_eq!(OhMyChess::is_in_check(&b, &Player::Black), Ok(true));
    assert_eq!(OhMyChess::is_check_mate(&b, &Player::Black), Ok(true));
    // a Black piece able to capture the Knight changes nothing: capture is no response
    put(&mut b, 5, 0, Piece::Rook, Player::Black);
    assert_eq!(OhMyChess::is_check_mate(&b, &Player::Black), Ok(true));
}

#[test]
fn diagonal_attack_can_be_blocked() {
    let mut b = empty();
    put(&mut b, 7, 4, Piece::King, Player::Black);
    put(&mut b, 4, 1, Piece::Bishop, Player::White);
    put(&mut b, 0, 0, Piece::King, Player::White);
    assert_eq!(OhMyChess::is_check_mate(&b, &Player::Black), Ok(true));
    // a Black Rook that can reach (5,2), between the Bishop and the King
    put(&mut b, 5, 7, Piece::Rook, Player::Black);
    assert_eq!(OhMyChess::is_check_mate(&b, &Player::Black), Ok(false));
}
