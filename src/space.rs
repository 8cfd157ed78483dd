use vstd::prelude::*;

verus! {

/// Number of columns of the playfield.
pub const COLUMNS: usize = 10;

/// Number of rows of the playfield; row 0 is the bottom.
pub const ROWS: usize = 22;

/// The fixed colours of the game: one per piece kind, and the ambient colour
/// of the playfield.
#[derive(Clone, Copy, Debug, PartialEq, Eq, Structural)]
pub enum Color {
    White,
    Cyan,
    Yellow,
    Purple,
    Green,
    Red,
    Blue,
    Orange,
}

/// What a cell of the playfield holds.
#[derive(Clone, Copy, Debug, PartialEq, Eq, Structural)]
pub enum SpaceState {
    Empty,
    FallingTetromino,
    SettledTetromino(Color),
}

/// A playfield: ten columns of twenty-two cells, indexed `[column][row]`.
pub type Space = [[SpaceState; 22]; 10];

/// The input handed to one step of the simulation.
#[derive(Clone, Copy, Debug, PartialEq, Eq, Structural)]
pub enum Action {
    Idle,
    MoveLeft,
    MoveRight,
    RotateClockwise,
    RotateCounterClockwise,
}

/// A position on the playfield.
pub open spec fn in_grid(column: int, row: int) -> bool {
    0 <= column < COLUMNS && 0 <= row < ROWS
}

/// A playfield whose every cell is empty.
pub open spec fn all_empty(space: Space) -> bool {
    forall|c: int, r: int| in_grid(c, r) ==> #[trigger] space[c][r] == SpaceState::Empty
}

/// A playfield that stores no falling cell: each cell is empty or settled.
pub open spec fn holds_no_falling(space: Space) -> bool {
    forall|c: int, r: int|
        in_grid(c, r) ==> !(#[trigger] space[c][r] is FallingTetromino)
}

/// A playfield of empty cells only.
pub fn empty_space() -> (r: Space)
    ensures
        all_empty(r),
        holds_no_falling(r),
{
    [[SpaceState::Empty; 22]; 10]
}

} // verus!
