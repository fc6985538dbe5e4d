use vstd::prelude::*;

verus! {

/// Horizontal distance from the homed corner to the board's edge, in steps.
pub const X_OFFSET: i32 = 100;

/// Vertical distance from the homed corner to the board's edge, in steps.
pub const Y_OFFSET: i32 = 0;

/// Bias added to `y` when a piece is set down, so it rests centred once released.
pub const Y_PLACEMENT_OFFSET: i32 = 50;

/// Side length of one square, in steps.
pub const SIZE_OFF_SQUARE: i32 = 264;

/// Work envelope of the carriage, in steps.
pub const MIN_X: i32 = 0;
pub const MAX_X: i32 = 2400;
pub const MIN_Y: i32 = 0;
pub const MAX_Y: i32 = 2200;

/// True when `(x, y)` lies inside the carriage's work envelope.
pub open spec fn in_envelope(x: int, y: int) -> bool {
    MIN_X <= x <= MAX_X && MIN_Y <= y <= MAX_Y
}

/// Whether `(x, y)` lies inside the carriage's work envelope.
pub fn within_envelope(x: i32, y: i32) -> (r: bool)
    ensures
        r == in_envelope(x as int, y as int),
{
    MIN_X <= x && x <= MAX_X && MIN_Y <= y && y <= MAX_Y
}

/// A square of the board: `file` 0 is the a-file, `rank` 0 is the first rank.
#[derive(Clone, Copy, Debug, PartialEq, Eq, Structural)]
pub struct Square {
    pub file: u8,
    pub rank: u8,
}

impl Square {
    pub open spec fn wf(self) -> bool {
        self.file < 8 && self.rank < 8
    }

    pub fn new(file: u8, rank: u8) -> (r: Square)
        requires
            file < 8,
            rank < 8,
        ensures
            r.file == file,
            r.rank == rank,
            r.wf(),
    {
        Square { file, rank }
    }
}

/// `x` of the centre of a square on file `file`; files are mirrored, the a-file
/// lies at high `x`.
pub open spec fn square_x(file: int) -> int {
    X_OFFSET + (7 - file) * SIZE_OFF_SQUARE + SIZE_OFF_SQUARE / 2
}

/// `y` of the centre of a square on rank `rank`.
pub open spec fn square_y(rank: int) -> int {
    Y_OFFSET + rank * SIZE_OFF_SQUARE + SIZE_OFF_SQUARE / 2
}

/// A vertical corridor: the grid line between two files (or a board edge).
pub open spec fn corridor_x(x: int) -> bool {
    (x - X_OFFSET) % (SIZE_OFF_SQUARE as int) == 0
}

/// A horizontal corridor: the grid line between two ranks (or a board edge).
pub open spec fn corridor_y(y: int) -> bool {
    (y - Y_OFFSET) % (SIZE_OFF_SQUARE as int) == 0
}

/// Centres of the board's squares, and the squares' corridors, lie well inside
/// the envelope.
pub proof fn lemma_square_bounds(file: int, rank: int)
    requires
        0 <= file < 8,
        0 <= rank < 8,
    ensures
        232 <= square_x(file) <= 2080,
        132 <= square_y(rank) <= 1980,
        square_x(file) == 2080 - 264 * file,
        square_y(rank) == 132 + 264 * rank,
{
}

/// Centre of the square `sq`, in steps.
pub fn get_square_coordinates(sq: Square) -> (r: (i32, i32))
    requires
        sq.wf(),
    ensures
        r.0 == square_x(sq.file as int),
        r.1 == square_y(sq.rank as int),
        in_envelope(r.0 as int, r.1 as int),
{
    let file = sq.file as i32;
    let rank = sq.rank as i32;
    let x = X_OFFSET + (7 - file) * SIZE_OFF_SQUARE + SIZE_OFF_SQUARE / 2;
    let y = Y_OFFSET + rank * SIZE_OFF_SQUARE + SIZE_OFF_SQUARE / 2;
    (x, y)
}

} // verus!
