use robochess::{CastleSide, ChessMove, Color, Command, Piece, PieceType, RoboChess, Speed, Square};

fn mv(x: i32, y: i32, speed: Speed) -> Command {
    Command::MoveTo { x, y, speed }
}

fn quiet(origin: Square, target: Square, side: Color, piece: PieceType) -> ChessMove {
    ChessMove {
        origin,
        target,
        side,
        piece,
        capture: false,
        en_passant: false,
        captured: Piece::Empty,
        castle: None,
        promotion: None,
    }
}

#[test]
fn pawn_push_e2_e4() {
    let mut rc = RoboChess::new();
    let m = quiet(Square::new(4, 1), Square::new(4, 3), Color::White, PieceType::Pawn);
    let plan = rc.make_move(m);
    assert_eq!(
        plan,
        vec![
            mv(1024, 396, Speed::Fast),
            Command::Engage,
            Command::Settle,
            mv(1024, 974, Speed::Slow),
            Command::Disengage,
            Command::Settle,
        ]
    );
    assert!(rc.captured_pieces_white.is_empty());
    assert!(rc.captured_pieces_black.is_empty());
}

#[test]
fn knight_g1_f3() {
    let mut rc = RoboChess::new();
    let m = quiet(Square::new(6, 0), Square::new(5, 2), Color::White, PieceType::Knight);
    let plan = rc.make_move(m);
    assert_eq!(
        plan,
        vec![
            mv(496, 132, Speed::Fast),
            Command::Engage,
            Command::Settle,
            mv(628, 132, Speed::Slow),
            Command::Settle,
            mv(628, 660, Speed::Slow),
            Command::Settle,
            mv(760, 660, Speed::Slow),
            Command::Settle,
            Command::Disengage,
            Command::Settle,
        ]
    );
}

#[test]
fn knight_b1_c3_long_axis_is_y() {
    let mut rc = RoboChess::new();
    let m = quiet(Square::new(1, 0), Square::new(2, 2), Color::White, PieceType::Knight);
    let plan = rc.make_move(m);
    // b1 = (1816, 132), c3 = (1552, 660)
    assert_eq!(plan[3], mv(1684, 132, Speed::Slow));
    assert_eq!(plan[5], mv(1684, 660, Speed::Slow));
    assert_eq!(plan[7], mv(1552, 660, Speed::Slow));
}

#[test]
fn knight_long_axis_x_uses_rank_corridor() {
    // both waypoints lie on y = 264, the grid line between ranks 1 and 2
    let mut rc = RoboChess::new();
    // g1 -> e2: two files, one rank
    let m = quiet(Square::new(6, 0), Square::new(4, 1), Color::White, PieceType::Knight);
    let plan = rc.make_move(m);
    assert_eq!(
        plan,
        vec![
            mv(496, 132, Speed::Fast),
            Command::Engage,
            Command::Settle,
            mv(496, 264, Speed::Slow),
            mv(1024, 264, Speed::Slow),
            mv(1024, 396, Speed::Slow),
            Command::Disengage,
            Command::Settle,
        ]
    );
}

#[test]
fn capture_exd5_by_white_pawn() {
    let mut rc = RoboChess::new();
    let m = ChessMove {
        origin: Square::new(4, 3),
        target: Square::new(3, 4),
        side: Color::White,
        piece: PieceType::Pawn,
        capture: true,
        en_passant: false,
        captured: Piece::Occupied(Color::Black, PieceType::Pawn),
        castle: None,
        promotion: None,
    };
    let plan = rc.make_move(m);
    assert_eq!(
        plan,
        vec![
            mv(1288, 1188, Speed::Fast),
            Command::Engage,
            Command::Settle,
            mv(1288, 1056, Speed::Slow),
            mv(2278, 1056, Speed::Slow),
            mv(2278, 2178, Speed::Slow),
            Command::Disengage,
            Command::Settle,
            mv(1024, 924, Speed::Fast),
            Command::Engage,
            Command::Settle,
            mv(1288, 1238, Speed::Slow),
            Command::Disengage,
            Command::Settle,
        ]
    );
    assert_eq!(rc.captured_pieces_black, vec![Piece::Occupied(Color::Black, PieceType::Pawn)]);
    assert!(rc.captured_pieces_white.is_empty());
}

#[test]
fn en_passant_removes_pawn_behind_target() {
    let mut rc = RoboChess::new();
    // black pawn d4 takes e3 en passant; the white pawn stands on e4
    let m = ChessMove {
        origin: Square::new(3, 3),
        target: Square::new(4, 2),
        side: Color::Black,
        piece: PieceType::Pawn,
        capture: true,
        en_passant: true,
        captured: Piece::Occupied(Color::White, PieceType::Pawn),
        castle: None,
        promotion: None,
    };
    let plan = rc.make_move(m);
    // e4 = (1024, 924); white bin corridor above, bin column x = 34, slot 0 y = 66
    assert_eq!(plan[0], mv(1024, 924, Speed::Fast));
    assert_eq!(plan[3], mv(1024, 1056, Speed::Slow));
    assert_eq!(plan[4], mv(34, 1056, Speed::Slow));
    assert_eq!(plan[5], mv(34, 66, Speed::Slow));
    assert_eq!(rc.captured_pieces_white, vec![Piece::Occupied(Color::White, PieceType::Pawn)]);
    assert!(rc.captured_pieces_black.is_empty());
}

#[test]
fn white_king_side_castling() {
    let mut rc = RoboChess::new();
    let mut m = quiet(Square::new(4, 0), Square::new(6, 0), Color::White, PieceType::King);
    m.castle = Some(CastleSide::KingSide);
    let plan = rc.make_move(m);
    assert_eq!(
        plan,
        vec![
            mv(1024, 132, Speed::Fast),
            Command::Engage,
            Command::Settle,
            mv(1024, 0, Speed::Slow),
            mv(496, 0, Speed::Slow),
            Command::Disengage,
            mv(232, 132, Speed::Fast),
            Command::Engage,
            mv(760, 132, Speed::Slow),
            Command::Disengage,
            mv(496, 0, Speed::Fast),
            Command::Engage,
            mv(496, 182, Speed::Slow),
            Command::Disengage,
        ]
    );
}

#[test]
fn black_queen_side_castling_uses_top_corridor() {
    let mut rc = RoboChess::new();
    let mut m = quiet(Square::new(4, 7), Square::new(2, 7), Color::Black, PieceType::King);
    m.castle = Some(CastleSide::QueenSide);
    let plan = rc.make_move(m);
    // e8 = (1024, 1980), c8 = (1552, 1980), a8 = (2080, 1980), d8 = (1288, 1980)
    assert_eq!(plan[3], mv(1024, 2112, Speed::Slow));
    assert_eq!(plan[4], mv(1552, 2112, Speed::Slow));
    assert_eq!(plan[6], mv(2080, 1980, Speed::Fast));
    assert_eq!(plan[8], mv(1288, 1980, Speed::Slow));
    assert_eq!(plan[12], mv(1552, 2030, Speed::Slow));
}

#[test]
fn promotion_e7_e8_queen_by_white() {
    let mut rc = RoboChess::new();
    rc.captured_pieces_white.push(Piece::Occupied(Color::White, PieceType::Queen));
    let mut m = quiet(Square::new(4, 6), Square::new(4, 7), Color::White, PieceType::Pawn);
    m.promotion = Some(PieceType::Queen);
    let plan = rc.make_move(m);
    assert_eq!(
        plan,
        vec![
            mv(34, 66, Speed::Fast),
            Command::Engage,
            mv(0, 66, Speed::Slow),
            mv(0, 2200, Speed::Slow),
            mv(1024, 2200, Speed::Slow),
            mv(1024, 2030, Speed::Slow),
            Command::Disengage,
            mv(1024, 1716, Speed::Fast),
            Command::Engage,
            Command::Settle,
            mv(1024, 1584, Speed::Slow),
            mv(2278, 1584, Speed::Slow),
            mv(2278, 2178, Speed::Slow),
            Command::Disengage,
            Command::Settle,
        ]
    );
    assert_eq!(rc.captured_pieces_white, vec![Piece::Empty]);
    assert_eq!(rc.captured_pieces_black, vec![Piece::Occupied(Color::White, PieceType::Pawn)]);
}

#[test]
fn promotion_by_black_uses_own_bin_and_far_column() {
    let mut rc = RoboChess::new();
    rc.captured_pieces_white.push(Piece::Occupied(Color::White, PieceType::Rook));
    rc.captured_pieces_white.push(Piece::Occupied(Color::White, PieceType::Rook));
    rc.captured_pieces_black.push(Piece::Occupied(Color::Black, PieceType::Pawn));
    rc.captured_pieces_black.push(Piece::Occupied(Color::Black, PieceType::Knight));
    let mut m = quiet(Square::new(0, 1), Square::new(0, 0), Color::Black, PieceType::Pawn);
    m.promotion = Some(PieceType::Knight);
    let plan = rc.make_move(m);
    // black slot 1 at (2278, 2178 - 132); a1 = (2080, 132)
    assert_eq!(plan[0], mv(2278, 2046, Speed::Fast));
    assert_eq!(plan[2], mv(2400, 2046, Speed::Slow));
    assert_eq!(plan[3], mv(2400, 0, Speed::Slow));
    assert_eq!(plan[4], mv(2080, 0, Speed::Slow));
    assert_eq!(plan[5], mv(2080, 182, Speed::Slow));
    // the pawn goes to the white bin, slot 2
    assert_eq!(plan[12], mv(34, 2 * 132 + 66, Speed::Slow));
    assert_eq!(
        rc.captured_pieces_black,
        vec![Piece::Occupied(Color::Black, PieceType::Pawn), Piece::Empty]
    );
    assert_eq!(rc.captured_pieces_white.len(), 3);
    assert_eq!(rc.captured_pieces_white[2], Piece::Occupied(Color::Black, PieceType::Pawn));
}

#[test]
fn promotion_without_piece_in_bin_only_removes_pawn() {
    let mut rc = RoboChess::new();
    let mut m = quiet(Square::new(4, 6), Square::new(4, 7), Color::White, PieceType::Pawn);
    m.promotion = Some(PieceType::Queen);
    let plan = rc.make_move(m);
    assert_eq!(plan.len(), 8);
    assert_eq!(plan[0], mv(1024, 1716, Speed::Fast));
    assert!(rc.captured_pieces_white.is_empty());
    assert_eq!(rc.captured_pieces_black.len(), 1);
}

#[test]
fn capture_promotion_order() {
    let mut rc = RoboChess::new();
    rc.captured_pieces_white.push(Piece::Empty);
    rc.captured_pieces_white.push(Piece::Occupied(Color::White, PieceType::Queen));
    let m = ChessMove {
        origin: Square::new(4, 6),
        target: Square::new(3, 7),
        side: Color::White,
        piece: PieceType::Pawn,
        capture: true,
        en_passant: false,
        captured: Piece::Occupied(Color::Black, PieceType::Rook),
        castle: None,
        promotion: Some(PieceType::Queen),
    };
    let plan = rc.make_move(m);
    // first the rook on d8 into black slot 0, then the queen from white slot 1,
    // then the pawn into black slot 1
    assert_eq!(plan[0], mv(1288, 1980, Speed::Fast));
    assert_eq!(plan[5], mv(2278, 2178, Speed::Slow));
    assert_eq!(plan[8], mv(34, 198, Speed::Fast));
    assert_eq!(plan[20], mv(2278, 2046, Speed::Slow));
    assert_eq!(rc.captured_pieces_white, vec![Piece::Empty, Piece::Empty]);
    assert_eq!(
        rc.captured_pieces_black,
        vec![
            Piece::Occupied(Color::Black, PieceType::Rook),
            Piece::Occupied(Color::White, PieceType::Pawn)
        ]
    );
}

#[test]
fn capture_piece_grows_one_bin() {
    let mut rc = RoboChess::new();
    let plan = rc.capture_piece(Square::new(0, 7), Color::White, Piece::Occupied(Color::Black, PieceType::Rook));
    assert_eq!(plan.len(), 8);
    assert_eq!(plan[5], mv(2278, 2178, Speed::Slow));
    let plan = rc.capture_piece(Square::new(0, 6), Color::White, Piece::Occupied(Color::Black, PieceType::Pawn));
    assert_eq!(plan[5], mv(2278, 2046, Speed::Slow));
    assert_eq!(rc.captured_pieces_black.len(), 2);
    assert!(rc.captured_pieces_white.is_empty());
    let plan = rc.capture_piece(Square::new(7, 0), Color::Black, Piece::Occupied(Color::White, PieceType::Rook));
    // h1 = (232, 132): corridor above, then the white column
    assert_eq!(plan[3], mv(232, 264, Speed::Slow));
    assert_eq!(plan[4], mv(34, 264, Speed::Slow));
    assert_eq!(plan[5], mv(34, 66, Speed::Slow));
    assert_eq!(rc.captured_pieces_white.len(), 1);
    assert_eq!(rc.captured_pieces_black.len(), 2);
}

#[test]
fn last_bin_slot_stays_in_envelope() {
    let mut rc = RoboChess::new();
    for _ in 0..16 {
        rc.capture_piece(Square::new(0, 0), Color::Black, Piece::Occupied(Color::White, PieceType::Pawn));
    }
    let plan = rc.capture_piece(Square::new(0, 0), Color::Black, Piece::Occupied(Color::White, PieceType::Pawn));
    assert_eq!(plan[5], mv(34, 16 * 132 + 66, Speed::Slow));
    assert_eq!(rc.captured_pieces_white.len(), 17);
}

#[test]
fn clear_captures_empties_bins() {
    let mut rc = RoboChess::new();
    rc.capture_piece(Square::new(0, 0), Color::Black, Piece::Occupied(Color::White, PieceType::Pawn));
    rc.capture_piece(Square::new(0, 7), Color::White, Piece::Occupied(Color::Black, PieceType::Pawn));
    rc.clear_captures();
    assert!(rc.captured_pieces_white.is_empty());
    assert!(rc.captured_pieces_black.is_empty());
}

#[test]
fn square_travel_commands() {
    assert_eq!(RoboChess::move_to_square_fast(Square::new(0, 0)), mv(2080, 132, Speed::Fast));
    assert_eq!(RoboChess::move_to_square_slow(Square::new(7, 7)), mv(232, 1980, Speed::Slow));
}

#[test]
fn every_travel_of_a_plan_is_in_envelope() {
    let mut rc = RoboChess::new();
    let mut m = quiet(Square::new(7, 6), Square::new(7, 7), Color::White, PieceType::Pawn);
    m.promotion = Some(PieceType::Queen);
    rc.captured_pieces_white.push(Piece::Occupied(Color::White, PieceType::Queen));
    for c in rc.make_move(m) {
        if let Command::MoveTo { x, y, .. } = c {
            assert!((0..=2400).contains(&x) && (0..=2200).contains(&y));
        }
    }
}

#[test]
fn knight_waypoints_lie_on_grid_lines() {
    let jumps = [(1u8, 2u8), (2, 1)];
    for of in 0..8u8 {
        for or in 0..8u8 {
            for &(a, b) in jumps.iter() {
                for &(sf, sr) in [(1i8, 1i8), (1, -1), (-1, 1), (-1, -1)].iter() {
                    let tf = of as i8 + sf * a as i8;
                    let tr = or as i8 + sr * b as i8;
                    if !(0..8).contains(&tf) || !(0..8).contains(&tr) {
                        continue;
                    }
                    let mut rc = RoboChess::new();
                    let m = quiet(
                        Square::new(of, or),
                        Square::new(tf as u8, tr as u8),
                        Color::White,
                        PieceType::Knight,
                    );
                    let plan = rc.make_move(m);
                    let (tx, ty) = robochess::get_square_coordinates(Square::new(tf as u8, tr as u8));
                    for c in &plan[3..plan.len() - 2] {
                        if let Command::MoveTo { x, y, .. } = *c {
                            let on_grid = (x - 100) % 264 == 0 || y % 264 == 0;
                            assert!(on_grid || (x, y) == (tx, ty));
                        }
                    }
                }
            }
        }
    }
}
