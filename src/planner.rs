use vstd::prelude::*;
use crate::geometry::{
    Square, in_envelope, square_x, square_y, get_square_coordinates, lemma_square_bounds,
    corridor_x, corridor_y,
    X_OFFSET, Y_PLACEMENT_OFFSET, SIZE_OFF_SQUARE, MAX_X, MAX_Y,
};
use crate::kinematics::Speed;
use crate::pieces::{Color, PieceType, Piece, CastleSide, ChessMove, opposite};

verus! {

/// Number of slots of a capture bin that lie inside the work envelope.
pub const BIN_SLOTS: usize = 17;

/// One step of a plan for the carriage.
#[derive(Clone, Copy, Debug, PartialEq, Eq, Structural)]
pub enum Command {
    /// Travel in a straight line to `(x, y)`.
    MoveTo { x: i32, y: i32, speed: Speed },
    /// Lift the magnet so that it holds the piece above it, and let it settle.
    Engage,
    /// Lower the magnet to release the piece, and let it settle.
    Disengage,
    /// The fixed settle delay.
    Settle,
}

pub open spec fn mv(x: int, y: int, speed: Speed) -> Command {
    Command::MoveTo { x: x as i32, y: y as i32, speed }
}

/// Every travel of `s` stays inside the work envelope.
pub open spec fn all_in_envelope(s: Seq<Command>) -> bool {
    forall|i: int|
        0 <= i < s.len() ==> match #[trigger] s[i] {
            Command::MoveTo { x, y, .. } => in_envelope(x as int, y as int),
            _ => true,
        }
}

/// `x` of the bin column that holds pieces of color `c`.
pub open spec fn bin_x(c: Color) -> int {
    match c {
        Color::White => X_OFFSET - SIZE_OFF_SQUARE / 4,
        Color::Black => X_OFFSET + 33 * SIZE_OFF_SQUARE / 4,
    }
}

/// `y` of slot `i` of the bin of color `c`.
pub open spec fn bin_slot_y(c: Color, i: int) -> int {
    match c {
        Color::White => i * SIZE_OFF_SQUARE / 2 + SIZE_OFF_SQUARE / 4,
        Color::Black => 8 * SIZE_OFF_SQUARE - i * SIZE_OFF_SQUARE / 2 + SIZE_OFF_SQUARE / 4,
    }
}

/// The corridor next to a square that leads to the bin of color `c`.
pub open spec fn bin_corridor_y(c: Color, sq: Square) -> int {
    match c {
        Color::White => square_y(sq.rank as int) + SIZE_OFF_SQUARE / 2,
        Color::Black => square_y(sq.rank as int) - SIZE_OFF_SQUARE / 2,
    }
}

pub open spec fn sx(sq: Square) -> int {
    square_x(sq.file as int)
}

pub open spec fn sy(sq: Square) -> int {
    square_y(sq.rank as int)
}

/// Carries the piece on `sq` into slot `slot` of the bin of color `bin`: along
/// the rank corridor to the bin column, then along it to the slot.
pub open spec fn capture_plan(sq: Square, bin: Color, slot: int) -> Seq<Command> {
    seq![
        mv(sx(sq), sy(sq), Speed::Fast),
        Command::Engage,
        Command::Settle,
        mv(sx(sq), bin_corridor_y(bin, sq), Speed::Slow),
        mv(bin_x(bin), bin_corridor_y(bin, sq), Speed::Slow),
        mv(bin_x(bin), bin_slot_y(bin, slot), Speed::Slow),
        Command::Disengage,
        Command::Settle,
    ]
}

/// A plain move: fetch the piece, carry it straight to the target.
pub open spec fn simple_plan(o: Square, t: Square) -> Seq<Command> {
    seq![
        mv(sx(o), sy(o), Speed::Fast),
        Command::Engage,
        Command::Settle,
        mv(sx(t), sy(t) + Y_PLACEMENT_OFFSET, Speed::Slow),
        Command::Disengage,
        Command::Settle,
    ]
}

/// The three legs of a knight's L, along the corridors: first half the shorter
/// displacement, then the longer one, then the rest of the shorter one.
pub open spec fn knight_legs(o: Square, t: Square) -> Seq<Command> {
    let (ox, oy) = (sx(o), sy(o));
    let dx = sx(t) - ox;
    let dy = sy(t) - oy;
    if abs_int(dx) < abs_int(dy) {
        seq![
            mv(ox + dx / 2, oy, Speed::Slow),
            Command::Settle,
            mv(ox + dx / 2, oy + dy, Speed::Slow),
            Command::Settle,
            mv(ox + dx, oy + dy, Speed::Slow),
            Command::Settle,
        ]
    } else {
        seq![
            mv(ox, oy + dy / 2, Speed::Slow),
            mv(ox + dx, oy + dy / 2, Speed::Slow),
            mv(ox + dx, oy + dy, Speed::Slow),
        ]
    }
}

pub open spec fn knight_plan(o: Square, t: Square) -> Seq<Command> {
    seq![mv(sx(o), sy(o), Speed::Fast), Command::Engage, Command::Settle] + knight_legs(o, t)
        + seq![Command::Disengage, Command::Settle]
}

pub open spec fn abs_int(a: int) -> int {
    if a < 0 { -a } else { a }
}

/// The back-rank corridor of color `c`.
pub open spec fn back_corridor_y(c: Color) -> int {
    match c {
        Color::White => 0,
        Color::Black => 8 * SIZE_OFF_SQUARE,
    }
}

pub open spec fn back_rank(c: Color) -> u8 {
    match c {
        Color::White => 0,
        Color::Black => 7,
    }
}

/// Files of the king's and the rook's destination, and of the rook's origin.
pub open spec fn castle_files(cs: CastleSide) -> (u8, u8, u8) {
    match cs {
        CastleSide::KingSide => (6, 7, 5),
        CastleSide::QueenSide => (2, 0, 3),
    }
}

/// Castling: the king travels along the back-rank corridor, the rook moves
/// over, then the king is pushed onto its square.
pub open spec fn castle_plan(c: Color, cs: CastleSide) -> Seq<Command> {
    let r = back_rank(c);
    let (kf, rf, rt) = castle_files(cs);
    let e = Square { file: 4, rank: r };
    let k = Square { file: kf, rank: r };
    let ro = Square { file: rf, rank: r };
    let rd = Square { file: rt, rank: r };
    let by = back_corridor_y(c);
    seq![
        mv(sx(e), sy(e), Speed::Fast),
        Command::Engage,
        Command::Settle,
        mv(sx(e), by, Speed::Slow),
        mv(sx(k), by, Speed::Slow),
        Command::Disengage,
        mv(sx(ro), sy(ro), Speed::Fast),
        Command::Engage,
        mv(sx(rd), sy(rd), Speed::Slow),
        Command::Disengage,
        mv(sx(k), by, Speed::Fast),
        Command::Engage,
        mv(sx(k), sy(k) + Y_PLACEMENT_OFFSET, Speed::Slow),
        Command::Disengage,
    ]
}

/// `x` of the edge column that a promoted piece of color `c` travels along.
pub open spec fn edge_x(c: Color) -> int {
    match c {
        Color::White => 0,
        Color::Black => MAX_X as int,
    }
}

/// `y` of the far rank that a promoted piece of color `c` travels along.
pub open spec fn far_y(c: Color) -> int {
    match c {
        Color::White => MAX_Y as int,
        Color::Black => 0,
    }
}

/// Brings the piece in slot `slot` of the bin of color `c` onto `t`: along the
/// edge column to the far rank, along it to the file, then in.
pub open spec fn promotion_plan(c: Color, slot: int, t: Square) -> Seq<Command> {
    seq![
        mv(bin_x(c), bin_slot_y(c, slot), Speed::Fast),
        Command::Engage,
        mv(edge_x(c), bin_slot_y(c, slot), Speed::Slow),
        mv(edge_x(c), far_y(c), Speed::Slow),
        mv(sx(t), far_y(c), Speed::Slow),
        mv(sx(t), sy(t) + Y_PLACEMENT_OFFSET, Speed::Slow),
        Command::Disengage,
    ]
}

/// Index of the first piece of type `kind` in `bin` from index `i` on, or -1.
pub open spec fn find_kind_from(bin: Seq<Piece>, kind: PieceType, i: int) -> int
    decreases bin.len() - i,
{
    if i < 0 || i >= bin.len() {
        -1
    } else if bin[i].has_kind(kind) {
        i
    } else {
        find_kind_from(bin, kind, i + 1)
    }
}

/// Index of the first piece of type `kind` in `bin`, or -1.
pub open spec fn find_kind(bin: Seq<Piece>, kind: PieceType) -> int {
    find_kind_from(bin, kind, 0)
}

/// The square of the piece that `m` captures.
pub open spec fn capture_square(m: ChessMove) -> Square {
    if m.en_passant {
        match m.side {
            Color::White => Square { file: m.target.file, rank: (m.target.rank - 1) as u8 },
            Color::Black => Square { file: m.target.file, rank: (m.target.rank + 1) as u8 },
        }
    } else {
        m.target
    }
}

pub open spec fn bin_of(c: Color, white: Seq<Piece>, black: Seq<Piece>) -> Seq<Piece> {
    match c {
        Color::White => white,
        Color::Black => black,
    }
}

/// Number of pieces that `m` puts into the bin of the side not to move: the
/// captured piece and a promoting pawn.
pub open spec fn bin_additions(m: ChessMove) -> int {
    (if m.capture { 1int } else { 0 }) + (if m.promotion is Some { 1int } else { 0 })
}

/// The whole plan for `m`, given the bins before the move.
pub open spec fn move_plan(m: ChessMove, white: Seq<Piece>, black: Seq<Piece>) -> Seq<Command> {
    let own = bin_of(m.side, white, black);
    let opp = bin_of(opposite(m.side), white, black);
    let cap = if m.capture {
        capture_plan(capture_square(m), opposite(m.side), opp.len() as int)
    } else {
        seq![]
    };
    let opp_len = opp.len() + if m.capture { 1int } else { 0 };
    let rest = match m.promotion {
        Some(kind) => {
            let slot = find_kind(own, kind);
            (if slot >= 0 { promotion_plan(m.side, slot, m.target) } else { seq![] })
                + capture_plan(m.origin, opposite(m.side), opp_len)
        },
        None => match m.castle {
            Some(cs) => castle_plan(m.side, cs),
            None => if m.piece == PieceType::Knight {
                knight_plan(m.origin, m.target)
            } else {
                simple_plan(m.origin, m.target)
            },
        },
    };
    cap + rest
}

/// The bin of the side to move after `m`: a slot used for the promotion holds
/// the `Empty` sentinel.
pub open spec fn own_bin_after(m: ChessMove, own: Seq<Piece>) -> Seq<Piece> {
    match m.promotion {
        Some(kind) => if find_kind(own, kind) >= 0 {
            own.update(find_kind(own, kind), Piece::Empty)
        } else {
            own
        },
        None => own,
    }
}

/// The bin of the side not to move after `m`: the captured piece, then the
/// promoting pawn, are appended.
pub open spec fn opponent_bin_after(m: ChessMove, opp: Seq<Piece>) -> Seq<Piece> {
    let a = if m.capture { opp.push(m.captured) } else { opp };
    match m.promotion {
        Some(_) => a.push(Piece::Occupied(m.side, m.piece)),
        None => a,
    }
}

pub(crate) proof fn lemma_half(k: int, d: int)
    requires
        d == k * SIZE_OFF_SQUARE,
    ensures
        d / 2 == k * (SIZE_OFF_SQUARE / 2),
{
    assert(d == 2 * (k * 132)) by (nonlinear_arith)
        requires d == k * SIZE_OFF_SQUARE;
    vstd::arithmetic::div_mod::lemma_div_multiples_vanish(k * 132, 2);
}

/// The displacement from `o` to `t` is a knight's jump.
pub open spec fn is_knight_jump(o: Square, t: Square) -> bool {
    let df = abs_int(t.file - o.file);
    let dr = abs_int(t.rank - o.rank);
    (df == 1 && dr == 2) || (df == 2 && dr == 1)
}

/// Knight paths keep to the corridors: every point a knight's plan travels to,
/// but the target's centre, lies on a grid line between squares, so no leg
/// cuts through a neighbouring square.
pub proof fn lemma_knight_corridors(o: Square, t: Square)
    requires
        o.wf(),
        t.wf(),
        is_knight_jump(o, t),
    ensures
        forall|i: int|
            0 <= i < knight_legs(o, t).len() ==> match #[trigger] knight_legs(o, t)[i] {
                Command::MoveTo { x, y, .. } => (x == sx(t) && y == sy(t)) || corridor_x(x as int)
                    || corridor_y(y as int),
                _ => true,
            },
{
    lemma_square_bounds(o.file as int, o.rank as int);
    lemma_square_bounds(t.file as int, t.rank as int);
    let df = o.file - t.file;
    let dr = t.rank - o.rank;
    let dx = sx(t) - sx(o);
    let dy = sy(t) - sy(o);
    lemma_half(df, dx);
    lemma_half(dr, dy);
    let legs = knight_legs(o, t);
    let hx = sx(o) + dx / 2;
    let hy = sy(o) + dy / 2;
    // half a jump of one square lands on the grid line between two squares
    assert(abs_int(df) == 1 ==> corridor_x(hx)) by {
        if df == 1 {
            vstd::arithmetic::div_mod::lemma_mod_multiples_basic(8 - o.file, 264);
            assert(hx - X_OFFSET == (8 - o.file) * 264);
        } else if df == -1 {
            vstd::arithmetic::div_mod::lemma_mod_multiples_basic(7 - o.file, 264);
            assert(hx - X_OFFSET == (7 - o.file) * 264);
        }
    }
    assert(abs_int(dr) == 1 ==> corridor_y(hy)) by {
        if dr == 1 {
            vstd::arithmetic::div_mod::lemma_mod_multiples_basic(o.rank + 1, 264);
            assert(hy == (o.rank + 1) * 264);
        } else if dr == -1 {
            vstd::arithmetic::div_mod::lemma_mod_multiples_basic(o.rank as int, 264);
            assert(hy == o.rank * 264);
        }
    }
    assert forall|i: int| 0 <= i < legs.len() implies match #[trigger] legs[i] {
        Command::MoveTo { x, y, .. } => (x == sx(t) && y == sy(t)) || corridor_x(x as int)
            || corridor_y(y as int),
        _ => true,
    } by {
        if abs_int(dx) < abs_int(dy) {
            assert(abs_int(df) == 1);
        } else {
            assert(abs_int(dr) == 1);
        }
    }
}

pub(crate) proof fn lemma_find_kind_range(bin: Seq<Piece>, kind: PieceType, i: int)
    requires
        0 <= i,
    ensures
        find_kind_from(bin, kind, i) == -1 || (i <= find_kind_from(bin, kind, i) < bin.len()
            && bin[find_kind_from(bin, kind, i)].has_kind(kind)),
    decreases bin.len() - i,
{
    if i < bin.len() && !bin[i].has_kind(kind) {
        lemma_find_kind_range(bin, kind, i + 1);
    }
}

/// Bin growth: a move that captures without promoting grows the bin of the
/// side not to move by the captured piece and leaves the mover's bin alone; a
/// promotion whose piece is in the mover's bin replaces exactly one entry of
/// that bin, one of the promoted type, by `Empty`.
pub proof fn lemma_bin_growth(m: ChessMove, own: Seq<Piece>, opp: Seq<Piece>)
    ensures
        m.capture && m.promotion is None ==> opponent_bin_after(m, opp) == opp.push(m.captured)
            && own_bin_after(m, own) == own,
        !m.capture && m.promotion is None ==> opponent_bin_after(m, opp) == opp
            && own_bin_after(m, own) == own,
        m.promotion is Some ==> opponent_bin_after(m, opp).len() == opp.len() + bin_additions(m),
        m.promotion is Some && find_kind(own, m.promotion->0) >= 0 ==> {
            let i = find_kind(own, m.promotion->0);
            let after = own_bin_after(m, own);
            &&& after.len() == own.len()
            &&& 0 <= i < own.len()
            &&& own[i].has_kind(m.promotion->0)
            &&& after[i] == Piece::Empty
            &&& forall|j: int| 0 <= j < own.len() && j != i ==> after[j] == own[j]
        },
{
    match m.promotion {
        Some(kind) => {
            lemma_find_kind_range(own, kind, 0);
        },
        None => {},
    }
}

/// Appends a travel that stays inside the envelope.
pub(crate) fn push_move(out: &mut Vec<Command>, x: i32, y: i32, speed: Speed)
    requires
        all_in_envelope(old(out)@),
        in_envelope(x as int, y as int),
    ensures
        final(out)@ == old(out)@.push(Command::MoveTo { x, y, speed }),
        all_in_envelope(final(out)@),
{
    out.push(Command::MoveTo { x, y, speed });
}

pub(crate) fn push_cmd(out: &mut Vec<Command>, c: Command)
    requires
        all_in_envelope(old(out)@),
        !(c is MoveTo),
    ensures
        final(out)@ == old(out)@.push(c),
        all_in_envelope(final(out)@),
{
    out.push(c);
}

/// The travel to the centre of `sq` at `speed`.
pub(crate) fn move_to_square(sq: Square, speed: Speed) -> (r: Command)
    requires
        sq.wf(),
    ensures
        r == mv(sx(sq), sy(sq), speed),
        in_envelope(sx(sq), sy(sq)),
{
    let (x, y) = get_square_coordinates(sq);
    Command::MoveTo { x, y, speed }
}

pub(crate) fn push_square(out: &mut Vec<Command>, sq: Square, speed: Speed)
    requires
        all_in_envelope(old(out)@),
        sq.wf(),
    ensures
        final(out)@ == old(out)@.push(mv(sx(sq), sy(sq), speed)),
        all_in_envelope(final(out)@),
{
    let c = move_to_square(sq, speed);
    out.push(c);
}

} // verus!
