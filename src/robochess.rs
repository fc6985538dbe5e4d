use vstd::prelude::*;
use crate::geometry::{
    Square, in_envelope, lemma_square_bounds, SIZE_OFF_SQUARE, X_OFFSET, Y_PLACEMENT_OFFSET,
    MAX_X, MAX_Y,
};
use crate::kinematics::Speed;
use crate::pieces::{Color, PieceType, Piece, CastleSide, ChessMove, opposite};
use crate::planner::{
    Command, BIN_SLOTS, mv, all_in_envelope, bin_x, bin_slot_y, edge_x, sx, sy, capture_plan,
    simple_plan, knight_legs, knight_plan, castle_plan, promotion_plan, find_kind_from,
    find_kind, bin_of, bin_additions, move_plan, own_bin_after, opponent_bin_after, push_move,
    push_cmd, push_square, move_to_square, lemma_half, lemma_find_kind_range,
};

verus! {

/// The move compiler: it keeps the two capture bins and turns chess moves
/// into plans for the carriage.
pub struct RoboChess {
    /// White pieces taken off the board, by slot.
    pub captured_pieces_white: Vec<Piece>,
    /// Black pieces taken off the board, by slot.
    pub captured_pieces_black: Vec<Piece>,
}

proof fn lemma_bin_slot_bounds(c: Color, i: int)
    requires
        0 <= i < BIN_SLOTS,
    ensures
        in_envelope(bin_x(c), bin_slot_y(c, i)),
        in_envelope(edge_x(c), bin_slot_y(c, i)),
{
}

impl RoboChess {
    /// The bin that holds pieces of color `c`.
    pub open spec fn bin(self, c: Color) -> Seq<Piece> {
        bin_of(c, self.captured_pieces_white@, self.captured_pieces_black@)
    }

    /// Both bins empty.
    pub fn new() -> (r: RoboChess)
        ensures
            r.captured_pieces_white@ == Seq::<Piece>::empty(),
            r.captured_pieces_black@ == Seq::<Piece>::empty(),
    {
        RoboChess { captured_pieces_white: Vec::new(), captured_pieces_black: Vec::new() }
    }

    /// Empties both bins, as when a new position is set up.
    pub fn clear_captures(&mut self)
        ensures
            final(self).captured_pieces_white@ == Seq::<Piece>::empty(),
            final(self).captured_pieces_black@ == Seq::<Piece>::empty(),
    {
        self.captured_pieces_white.clear();
        self.captured_pieces_black.clear();
    }

    fn bin_len(&self, c: Color) -> (r: usize)
        ensures
            r == self.bin(c).len(),
    {
        match c {
            Color::White => self.captured_pieces_white.len(),
            Color::Black => self.captured_pieces_black.len(),
        }
    }

    fn bin_push(&mut self, c: Color, p: Piece)
        ensures
            final(self).bin(c) == old(self).bin(c).push(p),
            final(self).bin(opposite(c)) == old(self).bin(opposite(c)),
    {
        match c {
            Color::White => self.captured_pieces_white.push(p),
            Color::Black => self.captured_pieces_black.push(p),
        }
    }

    /// Index of the first piece of type `kind` in the bin of color `c`.
    fn bin_find(&self, c: Color, kind: PieceType) -> (r: Option<usize>)
        ensures
            match r {
                Some(i) => find_kind(self.bin(c), kind) == i,
                None => find_kind(self.bin(c), kind) == -1,
            },
    {
        let bin = match c {
            Color::White => &self.captured_pieces_white,
            Color::Black => &self.captured_pieces_black,
        };
        let mut i: usize = 0;
        while i < bin.len()
            invariant
                i <= bin.len(),
                bin@ == self.bin(c),
                find_kind_from(bin@, kind, i as int) == find_kind(bin@, kind),
            decreases bin.len() - i,
        {
            if bin[i].is_kind(kind) {
                return Some(i);
            }
            i = i + 1;
        }
        None
    }

    fn bin_take(&mut self, c: Color, i: usize)
        requires
            i < old(self).bin(c).len(),
        ensures
            final(self).bin(c) == old(self).bin(c).update(i as int, Piece::Empty),
            final(self).bin(opposite(c)) == old(self).bin(opposite(c)),
    {
        match c {
            Color::White => self.captured_pieces_white.set(i, Piece::Empty),
            Color::Black => self.captured_pieces_black.set(i, Piece::Empty),
        }
    }

    /// Appends to `out` the plan that carries the piece on `sq` into the next
    /// free slot of the bin of color `bin`, and records `piece` there.
    fn append_capture(&mut self, out: &mut Vec<Command>, sq: Square, bin: Color, piece: Piece)
        requires
            sq.wf(),
            all_in_envelope(old(out)@),
            old(self).bin(bin).len() < BIN_SLOTS,
        ensures
            final(out)@ == old(out)@ + capture_plan(sq, bin, old(self).bin(bin).len() as int),
            all_in_envelope(final(out)@),
            final(self).bin(bin) == old(self).bin(bin).push(piece),
            final(self).bin(opposite(bin)) == old(self).bin(opposite(bin)),
    {
        let ghost start = out@;
        let slot = self.bin_len(bin);
        proof {
            lemma_square_bounds(sq.file as int, sq.rank as int);
            lemma_bin_slot_bounds(bin, slot as int);
        }
        push_square(out, sq, Speed::Fast);
        push_cmd(out, Command::Engage);
        push_cmd(out, Command::Settle);
        let x = sq_x(sq);
        let y = sq_y(sq);
        let (bx, cy, sy_) = match bin {
            Color::White => (
                X_OFFSET - SIZE_OFF_SQUARE / 4,
                y + SIZE_OFF_SQUARE / 2,
                slot as i32 * SIZE_OFF_SQUARE / 2 + SIZE_OFF_SQUARE / 4,
            ),
            Color::Black => (
                X_OFFSET + 33 * SIZE_OFF_SQUARE / 4,
                y - SIZE_OFF_SQUARE / 2,
                8 * SIZE_OFF_SQUARE - slot as i32 * SIZE_OFF_SQUARE / 2 + SIZE_OFF_SQUARE / 4,
            ),
        };
        push_move(out, x, cy, Speed::Slow);
        push_move(out, bx, cy, Speed::Slow);
        push_move(out, bx, sy_, Speed::Slow);
        push_cmd(out, Command::Disengage);
        push_cmd(out, Command::Settle);
        self.bin_push(bin, piece);
        assert(out@ =~= start + capture_plan(sq, bin, slot as int));
    }

    /// Both bins fit the slots inside the work envelope.
    pub open spec fn wf(self) -> bool {
        &&& self.captured_pieces_white.len() <= BIN_SLOTS
        &&& self.captured_pieces_black.len() <= BIN_SLOTS
    }

    /// Appends to `out` the plan that brings the first piece of type `kind`
    /// from the bin of color `c` onto `t`, and leaves `Empty` in its slot.
    /// Nothing happens where the bin holds no such piece.
    fn append_promotion(&mut self, out: &mut Vec<Command>, c: Color, kind: PieceType, t: Square)
        requires
            t.wf(),
            old(self).bin(c).len() <= BIN_SLOTS,
            all_in_envelope(old(out)@),
        ensures
            final(out)@ == old(out)@ + (if find_kind(old(self).bin(c), kind) >= 0 {
                promotion_plan(c, find_kind(old(self).bin(c), kind), t)
            } else {
                seq![]
            }),
            all_in_envelope(final(out)@),
            final(self).bin(c) == own_slot_taken(old(self).bin(c), kind),
            final(self).bin(opposite(c)) == old(self).bin(opposite(c)),
    {
        let ghost start = out@;
        match self.bin_find(c, kind) {
            None => {
                assert(out@ =~= start + Seq::<Command>::empty());
            },
            Some(pos) => {
                proof {
                    lemma_find_kind_range(self.bin(c), kind, 0);
                    lemma_bin_slot_bounds(c, pos as int);
                    lemma_square_bounds(t.file as int, t.rank as int);
                }
                let (bx, by, ex, fy) = match c {
                    Color::White => (
                        X_OFFSET - SIZE_OFF_SQUARE / 4,
                        pos as i32 * SIZE_OFF_SQUARE / 2 + SIZE_OFF_SQUARE / 4,
                        0,
                        MAX_Y,
                    ),
                    Color::Black => (
                        X_OFFSET + 33 * SIZE_OFF_SQUARE / 4,
                        8 * SIZE_OFF_SQUARE - pos as i32 * SIZE_OFF_SQUARE / 2 + SIZE_OFF_SQUARE
                            / 4,
                        MAX_X,
                        0,
                    ),
                };
                let tx = sq_x(t);
                let ty = sq_y(t);
                push_move(out, bx, by, Speed::Fast);
                push_cmd(out, Command::Engage);
                push_move(out, ex, by, Speed::Slow);
                push_move(out, ex, fy, Speed::Slow);
                push_move(out, tx, fy, Speed::Slow);
                push_move(out, tx, ty + Y_PLACEMENT_OFFSET, Speed::Slow);
                push_cmd(out, Command::Disengage);
                self.bin_take(c, pos);
                assert(out@ =~= start + promotion_plan(c, pos as int, t));
            },
        }
    }

    /// Appends to `out` the plan of a knight's move along the corridors.
    fn append_knight(out: &mut Vec<Command>, o: Square, t: Square)
        requires
            o.wf(),
            t.wf(),
            all_in_envelope(old(out)@),
        ensures
            final(out)@ == old(out)@ + knight_plan(o, t),
            all_in_envelope(final(out)@),
    {
        let ghost start = out@;
        proof {
            lemma_square_bounds(o.file as int, o.rank as int);
            lemma_square_bounds(t.file as int, t.rank as int);
        }
        let ox = sq_x(o);
        let oy = sq_y(o);
        let tx = sq_x(t);
        let ty = sq_y(t);
        let dx = tx - ox;
        let dy = ty - oy;
        let half_dx = (o.file as i32 - t.file as i32) * (SIZE_OFF_SQUARE / 2);
        let half_dy = (t.rank as i32 - o.rank as i32) * (SIZE_OFF_SQUARE / 2);
        proof {
            lemma_half(o.file as int - t.file as int, dx as int);
            lemma_half(t.rank as int - o.rank as int, dy as int);
        }
        let adx = if dx < 0 { -dx } else { dx };
        let ady = if dy < 0 { -dy } else { dy };
        push_square(out, o, Speed::Fast);
        push_cmd(out, Command::Engage);
        push_cmd(out, Command::Settle);
        let ghost mid = out@;
        if adx < ady {
            push_move(out, ox + half_dx, oy, Speed::Slow);
            push_cmd(out, Command::Settle);
            push_move(out, ox + half_dx, oy + dy, Speed::Slow);
            push_cmd(out, Command::Settle);
            push_move(out, ox + dx, oy + dy, Speed::Slow);
            push_cmd(out, Command::Settle);
        } else {
            push_move(out, ox, oy + half_dy, Speed::Slow);
            push_move(out, ox + dx, oy + half_dy, Speed::Slow);
            push_move(out, ox + dx, oy + dy, Speed::Slow);
        }
        assert(out@ =~= mid + knight_legs(o, t));
        push_cmd(out, Command::Disengage);
        push_cmd(out, Command::Settle);
        assert(out@ =~= start + knight_plan(o, t));
    }

    /// Appends to `out` the plan of a plain move from `o` to `t`.
    fn append_simple(out: &mut Vec<Command>, o: Square, t: Square)
        requires
            o.wf(),
            t.wf(),
            all_in_envelope(old(out)@),
        ensures
            final(out)@ == old(out)@ + simple_plan(o, t),
            all_in_envelope(final(out)@),
    {
        let ghost start = out@;
        proof {
            lemma_square_bounds(t.file as int, t.rank as int);
        }
        push_square(out, o, Speed::Fast);
        push_cmd(out, Command::Engage);
        push_cmd(out, Command::Settle);
        let x = sq_x(t);
        let y = sq_y(t);
        push_move(out, x, y + Y_PLACEMENT_OFFSET, Speed::Slow);
        push_cmd(out, Command::Disengage);
        push_cmd(out, Command::Settle);
        assert(out@ =~= start + simple_plan(o, t));
    }

    /// Appends to `out` the plan of castling on side `cs` for color `c`.
    fn append_castle(out: &mut Vec<Command>, c: Color, cs: CastleSide)
        requires
            all_in_envelope(old(out)@),
        ensures
            final(out)@ == old(out)@ + castle_plan(c, cs),
            all_in_envelope(final(out)@),
    {
        let ghost start = out@;
        let (r, by): (u8, i32) = match c {
            Color::White => (0, 0),
            Color::Black => (7, 8 * SIZE_OFF_SQUARE),
        };
        let (kf, rf, rt): (u8, u8, u8) = match cs {
            CastleSide::KingSide => (6, 7, 5),
            CastleSide::QueenSide => (2, 0, 3),
        };
        let e = Square::new(4, r);
        let k = Square::new(kf, r);
        let ro = Square::new(rf, r);
        let rd = Square::new(rt, r);
        proof {
            lemma_square_bounds(4, r as int);
            lemma_square_bounds(kf as int, r as int);
        }
        let ex = sq_x(e);
        let kx = sq_x(k);
        let ky = sq_y(k);
        push_square(out, e, Speed::Fast);
        push_cmd(out, Command::Engage);
        push_cmd(out, Command::Settle);
        push_move(out, ex, by, Speed::Slow);
        push_move(out, kx, by, Speed::Slow);
        push_cmd(out, Command::Disengage);
        push_square(out, ro, Speed::Fast);
        push_cmd(out, Command::Engage);
        push_square(out, rd, Speed::Slow);
        push_cmd(out, Command::Disengage);
        push_move(out, kx, by, Speed::Fast);
        push_cmd(out, Command::Engage);
        push_move(out, kx, ky + Y_PLACEMENT_OFFSET, Speed::Slow);
        push_cmd(out, Command::Disengage);
        assert(out@ =~= start + castle_plan(c, cs));
    }

    /// Whether `make_move` may be called with `m`: the move is well-formed and
    /// the bin it fills has room inside the envelope for what it receives.
    pub fn fits_move(&self, m: &ChessMove) -> (r: bool)
        ensures
            r == (m.wf() && self.wf() && self.bin(opposite(m.side)).len() + bin_additions(*m)
                <= BIN_SLOTS),
    {
        let squares = m.origin.file < 8 && m.origin.rank < 8 && m.target.file < 8
            && m.target.rank < 8;
        let behind = !m.en_passant || match m.side {
            Color::White => m.target.rank >= 1,
            Color::Black => m.target.rank <= 6,
        };
        let sizes = self.captured_pieces_white.len() <= BIN_SLOTS
            && self.captured_pieces_black.len() <= BIN_SLOTS;
        if !(squares && behind && sizes) {
            return false;
        }
        let mut additions: usize = 0;
        if m.capture {
            additions = additions + 1;
        }
        if m.promotion.is_some() {
            additions = additions + 1;
        }
        self.bin_len(m.side.opponent()) + additions <= BIN_SLOTS
    }

    /// Compiles the legal move `m` into a plan for the carriage and updates the
    /// bins. A captured piece goes first into the bin of the side not to move;
    /// on a promotion the promoted piece comes from the mover's own bin, whose
    /// slot then holds `Empty`, and the pawn goes into the other bin.
    pub fn make_move(&mut self, m: ChessMove) -> (r: Vec<Command>)
        requires
            m.wf(),
            old(self).wf(),
            old(self).bin(opposite(m.side)).len() + bin_additions(m) <= BIN_SLOTS,
        ensures
            r@ == move_plan(m, old(self).captured_pieces_white@, old(self).captured_pieces_black@),
            all_in_envelope(r@),
            final(self).wf(),
            final(self).bin(m.side) == own_bin_after(m, old(self).bin(m.side)),
            final(self).bin(opposite(m.side)) == opponent_bin_after(
                m,
                old(self).bin(opposite(m.side)),
            ),
    {
        let mut out: Vec<Command> = Vec::new();
        let other = m.side.opponent();
        if m.capture {
            let sq = if m.en_passant {
                match m.side {
                    Color::White => Square::new(m.target.file, m.target.rank - 1),
                    Color::Black => Square::new(m.target.file, m.target.rank + 1),
                }
            } else {
                m.target
            };
            self.append_capture(&mut out, sq, other, m.captured);
        }
        assert(opposite(other) == m.side);
        assert(self.bin(m.side) == old(self).bin(m.side));
        match m.promotion {
            Some(kind) => {
                proof {
                    lemma_find_kind_range(self.bin(m.side), kind, 0);
                }
                self.append_promotion(&mut out, m.side, kind, m.target);
                assert(self.bin(m.side).len() == old(self).bin(m.side).len());
                self.append_capture(
                    &mut out,
                    m.origin,
                    other,
                    Piece::Occupied(m.side, m.piece),
                );
            },
            None => match m.castle {
                Some(cs) => RoboChess::append_castle(&mut out, m.side, cs),
                None => match m.piece {
                    PieceType::Knight => RoboChess::append_knight(&mut out, m.origin, m.target),
                    _ => RoboChess::append_simple(&mut out, m.origin, m.target),
                },
            },
        }
        proof {
            assert(self.bin(m.side).len() == old(self).bin(m.side).len());
            assert(self.bin(other).len() == old(self).bin(other).len() + bin_additions(m));
            match m.side {
                Color::White => {},
                Color::Black => {},
            }
        }
        assert(out@ =~= move_plan(
            m,
            old(self).captured_pieces_white@,
            old(self).captured_pieces_black@,
        ));
        out
    }

    /// Removes the piece on `sq`, which `color` (the side to move) captures:
    /// carries it into the next slot of the other color's bin and records
    /// `piece` there. Returns the plan.
    pub fn capture_piece(&mut self, sq: Square, color: Color, piece: Piece) -> (r: Vec<Command>)
        requires
            sq.wf(),
            old(self).bin(opposite(color)).len() < BIN_SLOTS,
        ensures
            r@ == capture_plan(sq, opposite(color), old(self).bin(opposite(color)).len() as int),
            all_in_envelope(r@),
            final(self).bin(opposite(color)) == old(self).bin(opposite(color)).push(piece),
            final(self).bin(color) == old(self).bin(color),
    {
        let mut out: Vec<Command> = Vec::new();
        self.append_capture(&mut out, sq, color.opponent(), piece);
        assert(out@ =~= capture_plan(sq, opposite(color), old(self).bin(opposite(color)).len() as int));
        out
    }

    /// The fast travel to the centre of `sq`.
    pub fn move_to_square_fast(sq: Square) -> (r: Command)
        requires
            sq.wf(),
        ensures
            r == mv(sx(sq), sy(sq), Speed::Fast),
            in_envelope(sx(sq), sy(sq)),
    {
        move_to_square(sq, Speed::Fast)
    }

    /// The slow travel to the centre of `sq`.
    pub fn move_to_square_slow(sq: Square) -> (r: Command)
        requires
            sq.wf(),
        ensures
            r == mv(sx(sq), sy(sq), Speed::Slow),
            in_envelope(sx(sq), sy(sq)),
    {
        move_to_square(sq, Speed::Slow)
    }
}

/// The promoted piece's slot, emptied where the bin holds one of its type.
pub open spec fn own_slot_taken(bin: Seq<Piece>, kind: PieceType) -> Seq<Piece> {
    if find_kind(bin, kind) >= 0 {
        bin.update(find_kind(bin, kind), Piece::Empty)
    } else {
        bin
    }
}

fn sq_x(sq: Square) -> (r: i32)
    requires
        sq.wf(),
    ensures
        r == sx(sq),
{
    crate::geometry::get_square_coordinates(sq).0
}

fn sq_y(sq: Square) -> (r: i32)
    requires
        sq.wf(),
    ensures
        r == sy(sq),
{
    crate::geometry::get_square_coordinates(sq).1
}

} // verus!
