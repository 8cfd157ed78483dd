use vstd::prelude::*;

use crate::space::{all_empty, empty_space, holds_no_falling, in_grid, Action, Color, Space, SpaceState, COLUMNS, ROWS};
use crate::tetromino::{lemma_cells_in_local_grid, shape_cells, shape_color, Tetromino};

verus! {

/// Anchor column of every newly spawned piece.
pub const SPAWN_COLUMN: i32 = 4;

/// Anchor row of every newly spawned piece.
pub const SPAWN_ROW: usize = 21;

/// Gravity applies on a step that finds the timer above this value.
pub const GRAVITY_DELAY: i32 = 10;

/// Playfield column of the local cell `cell` of a piece anchored at `column`:
/// the local column is added to the anchor's.
pub open spec fn cell_column(cell: (usize, usize), column: int) -> int {
    column + cell.1
}

/// Playfield row of the local cell `cell` of a piece anchored at `row`: the
/// local row counts downwards from the anchor.
pub open spec fn cell_row(cell: (usize, usize), row: int) -> int {
    row - cell.0
}

/// The cell holds a settled block.
pub open spec fn is_settled(s: SpaceState) -> bool {
    s is SettledTetromino
}

/// Every cell lies on the playfield.
pub open spec fn cells_in_grid(cells: Seq<(usize, usize)>, column: int, row: int) -> bool {
    forall|k: int|
        0 <= k < cells.len() ==> in_grid(
            cell_column(#[trigger] cells[k], column),
            cell_row(cells[k], row),
        )
}

/// Every cell lies on the playfield, on a cell that is not settled.
pub open spec fn fits(space: Space, cells: Seq<(usize, usize)>, column: int, row: int) -> bool {
    forall|k: int|
        0 <= k < cells.len() ==> {
            &&& in_grid(cell_column(#[trigger] cells[k], column), cell_row(cells[k], row))
            &&& !is_settled(space[cell_column(cells[k], column)][cell_row(cells[k], row)])
        }
}

/// No cell stands in column 0, and no cell has a settled cell to its left.
pub open spec fn left_clear(space: Space, cells: Seq<(usize, usize)>, column: int, row: int) -> bool {
    forall|k: int|
        0 <= k < cells.len() ==> {
            &&& cell_column(#[trigger] cells[k], column) > 0
            &&& !is_settled(space[cell_column(cells[k], column) - 1][cell_row(cells[k], row)])
        }
}

/// No cell stands in the last column, and no cell has a settled cell to its
/// right.
pub open spec fn right_clear(space: Space, cells: Seq<(usize, usize)>, column: int, row: int) -> bool {
    forall|k: int|
        0 <= k < cells.len() ==> {
            &&& cell_column(#[trigger] cells[k], column) < COLUMNS - 1
            &&& !is_settled(space[cell_column(cells[k], column) + 1][cell_row(cells[k], row)])
        }
}

/// Cell `k` is the lowest occupied cell of its local column.
pub open spec fn lowest_in_column(cells: Seq<(usize, usize)>, k: int) -> bool {
    forall|m: int| 0 <= m < cells.len() && cells[m].1 == cells[k].1 ==> cells[m].0 <= cells[k].0
}

/// Below the lowest cell of each occupied column lies an empty cell of the
/// playfield.
pub open spec fn below_clear(space: Space, cells: Seq<(usize, usize)>, column: int, row: int) -> bool {
    forall|k: int|
        0 <= k < cells.len() && #[trigger] lowest_in_column(cells, k) ==> {
            &&& cell_row(cells[k], row) > 0
            &&& space[cell_column(cells[k], column)][cell_row(cells[k], row) - 1]
                == SpaceState::Empty
        }
}

/// One of the cells stands at playfield position `(c, r)`.
pub open spec fn covers(cells: Seq<(usize, usize)>, column: int, row: int, c: int, r: int) -> bool {
    exists|k: int|
        0 <= k < cells.len() && cell_column(#[trigger] cells[k], column) == c && cell_row(
            cells[k],
            row,
        ) == r
}

/// `result` is `space` with each of the cells written as settled in `color`.
pub open spec fn merges_into(
    space: Space,
    cells: Seq<(usize, usize)>,
    column: int,
    row: int,
    color: Color,
    result: Space,
) -> bool {
    forall|c: int, r: int|
        in_grid(c, r) ==> #[trigger] result[c][r] == if covers(cells, column, row, c, r) {
            SpaceState::SettledTetromino(color)
        } else {
            space[c][r]
        }
}

/// The cell of greatest local row among four.
proof fn deepest_cell(cells: Seq<(usize, usize)>) -> (g: int)
    requires
        cells.len() == 4,
    ensures
        0 <= g < 4,
        forall|k: int| 0 <= k < 4 ==> cells[k].0 <= cells[g].0,
{
    let a: int = if cells[0].0 >= cells[1].0 { 0 } else { 1 };
    let b: int = if cells[2].0 >= cells[3].0 { 2 } else { 3 };
    if cells[a].0 >= cells[b].0 { a } else { b }
}

/// The playfield, its falling piece and the gravity timer.
pub struct PlaySpace {
    space: Space,
    score: i32,
    lines_cleared: i32,
    color: Color,
    current_tetromino: Tetromino,
    current_tetromino_rotation: usize,
    falling_position: (i32, usize),
    time_since_movement: i32,
}

impl PlaySpace {
    /// The settled playfield, without the falling piece.
    pub closed spec fn grid(&self) -> Space {
        self.space
    }

    /// The falling piece.
    pub closed spec fn piece(&self) -> Tetromino {
        self.current_tetromino
    }

    /// The falling piece's rotation.
    pub closed spec fn rotation(&self) -> int {
        self.current_tetromino_rotation as int
    }

    /// Playfield column of the falling piece's local origin.
    pub closed spec fn anchor_column(&self) -> int {
        self.falling_position.0 as int
    }

    /// Playfield row of the falling piece's local origin.
    pub closed spec fn anchor_row(&self) -> int {
        self.falling_position.1 as int
    }

    /// Steps counted since gravity last applied.
    pub closed spec fn timer(&self) -> int {
        self.time_since_movement as int
    }

    /// The score; no rule of this core changes it.
    pub closed spec fn points(&self) -> int {
        self.score as int
    }

    /// The count of cleared lines; no rule of this core changes it.
    pub closed spec fn lines(&self) -> int {
        self.lines_cleared as int
    }

    /// The ambient colour of the playfield.
    pub closed spec fn ambient(&self) -> Color {
        self.color
    }

    /// The local cells of the falling piece in its rotation.
    pub open spec fn cells(&self) -> Seq<(usize, usize)> {
        shape_cells(self.piece().shape(), self.rotation())
    }

    /// The falling piece lies on the playfield, the playfield stores no
    /// falling cell, and the timer stays in its range.
    pub closed spec fn wf(&self) -> bool {
        &&& self.current_tetromino.wf()
        &&& self.current_tetromino_rotation < 4
        &&& holds_no_falling(self.space)
        &&& cells_in_grid(self.cells(), self.anchor_column(), self.anchor_row())
        &&& -4 < self.falling_position.0 < 10
        &&& self.falling_position.1 < 25
        &&& 0 <= self.time_since_movement <= GRAVITY_DELAY + 1
        &&& self.color == Color::White
    }

    /// A fresh game whose falling piece is `t`.
    pub open spec fn is_fresh_with(&self, t: Tetromino) -> bool {
        &&& all_empty(self.grid())
        &&& self.piece() == t
        &&& self.rotation() == 0
        &&& self.anchor_column() == SPAWN_COLUMN
        &&& self.anchor_row() == SPAWN_ROW
        &&& self.timer() == 0
        &&& self.points() == 0
        &&& self.lines() == 0
        &&& self.ambient() == Color::White
    }

    /// The falling piece can move one column left.
    pub open spec fn left_is_clear(&self) -> bool {
        left_clear(self.grid(), self.cells(), self.anchor_column(), self.anchor_row())
    }

    /// The falling piece can move one column right.
    pub open spec fn right_is_clear(&self) -> bool {
        right_clear(self.grid(), self.cells(), self.anchor_column(), self.anchor_row())
    }

    /// The next rotation clockwise.
    pub open spec fn next_rotation(&self) -> int {
        (self.rotation() + 1) % 4
    }

    /// The piece turned clockwise would lie on the playfield, on no settled
    /// cell.
    pub open spec fn rotation_fits(&self) -> bool {
        fits(
            self.grid(),
            shape_cells(self.piece().shape(), self.next_rotation()),
            self.anchor_column(),
            self.anchor_row(),
        )
    }

    /// The falling piece can move one row down.
    pub open spec fn below_is_clear(&self) -> bool {
        below_clear(self.grid(), self.cells(), self.anchor_column(), self.anchor_row())
    }

    /// `view` is the playfield with the falling piece written into it as
    /// settled in the piece's colour.
    pub open spec fn shows(&self, view: Space) -> bool {
        merges_into(
            self.grid(),
            self.cells(),
            self.anchor_column(),
            self.anchor_row(),
            shape_color(self.piece().shape()),
            view,
        )
    }

    /// `action` moves the piece sideways.
    pub open spec fn moved_by(&self, action: Action) -> bool {
        ||| action is MoveLeft && self.left_is_clear()
        ||| action is MoveRight && self.right_is_clear()
    }

    /// The anchor column once `action` is applied.
    pub open spec fn column_after(&self, action: Action) -> int {
        if action is MoveLeft && self.left_is_clear() {
            self.anchor_column() - 1
        } else if action is MoveRight && self.right_is_clear() {
            self.anchor_column() + 1
        } else {
            self.anchor_column()
        }
    }

    /// The rotation once `action` is applied: a clockwise turn is taken only
    /// where the turned piece fits.
    pub open spec fn rotation_after(&self, action: Action) -> int {
        if action is RotateClockwise && self.rotation_fits() {
            self.next_rotation()
        } else {
            self.rotation()
        }
    }

    /// One step of the simulation, from `self` to `post`, with `action` and
    /// with `next` as the piece that spawns if the falling one settles.
    /// First the action moves or turns the piece where the move is legal.
    /// Then, if the piece was moved sideways and cannot fall, the timer is set
    /// to -1, which defers gravity: it counts up to 0 on this step. On a
    /// step that finds the timer above the delay, gravity applies: the piece
    /// falls one row where the cells below it are clear, and otherwise
    /// settles into the playfield and `next` spawns; the timer restarts. On
    /// the other steps the timer counts up.
    pub open spec fn steps_to(&self, action: Action, next: Tetromino, post: PlaySpace) -> bool {
        let rotation = self.rotation_after(action);
        let column = self.column_after(action);
        let row = self.anchor_row();
        let cells = shape_cells(self.piece().shape(), rotation);
        let falls = below_clear(self.grid(), cells, column, row);
        let timer = if !falls && self.moved_by(action) {
            -1
        } else {
            self.timer()
        };
        &&& post.points() == self.points()
        &&& post.lines() == self.lines()
        &&& post.ambient() == self.ambient()
        &&& if timer > GRAVITY_DELAY && falls {
            &&& post.grid() == self.grid()
            &&& post.piece() == self.piece()
            &&& post.rotation() == rotation
            &&& post.anchor_column() == column
            &&& post.anchor_row() == row - 1
            &&& post.timer() == 0
        } else if timer > GRAVITY_DELAY {
            &&& merges_into(
                self.grid(),
                cells,
                column,
                row,
                shape_color(self.piece().shape()),
                post.grid(),
            )
            &&& post.piece() == next
            &&& post.rotation() == 0
            &&& post.anchor_column() == SPAWN_COLUMN
            &&& post.anchor_row() == SPAWN_ROW
            &&& post.timer() == 0
        } else {
            &&& post.grid() == self.grid()
            &&& post.piece() == self.piece()
            &&& post.rotation() == rotation
            &&& post.anchor_column() == column
            &&& post.anchor_row() == row
            &&& post.timer() == timer + 1
        }
    }

    /// The falling piece can move down one row: below the lowest cell of each
    /// of its occupied columns lies an empty cell of the playfield.
    pub fn can_fall(&self) -> (r: bool)
        requires
            self.wf(),
        ensures
            r == self.below_is_clear(),
    {
        let rotation = self.current_tetromino_rotation;
        let ghost cells = self.cells();
        proof {
            lemma_cells_in_local_grid(self.piece().shape());
        }
        let mut k: usize = 0;
        while k < 4
            invariant
                self.wf(),
                rotation == self.rotation(),
                cells == self.cells(),
                cells.len() == 4,
                k <= 4,
                forall|m: int|
                    0 <= m < k && #[trigger] lowest_in_column(cells, m) ==> {
                        &&& cell_row(cells[m], self.anchor_row()) > 0
                        &&& self.space[cell_column(cells[m], self.anchor_column())][cell_row(
                            cells[m],
                            self.anchor_row(),
                        ) - 1] == SpaceState::Empty
                    },
            decreases 4 - k,
        {
            let cell = self.current_tetromino.cell(rotation, k);
            let mut lowest = true;
            let mut m: usize = 0;
            while m < 4
                invariant
                    self.wf(),
                    rotation == self.rotation(),
                    cells == self.cells(),
                    cells.len() == 4,
                    k < 4,
                    m <= 4,
                    cell == cells[k as int],
                    lowest == forall|q: int|
                        0 <= q < m && cells[q].1 == cell.1 ==> cells[q].0 <= cell.0,
                decreases 4 - m,
            {
                let other = self.current_tetromino.cell(rotation, m);
                if other.1 == cell.1 && other.0 > cell.0 {
                    lowest = false;
                }
                m += 1;
            }
            if lowest {
                assert(cells_in_grid(cells, self.anchor_column(), self.anchor_row())
                    ==> in_grid(
                    cell_column(cells[k as int], self.anchor_column()),
                    cell_row(cells[k as int], self.anchor_row()),
                ));
                assert(lowest_in_column(cells, k as int));
                if self.falling_position.1 - cell.0 == 0 {
                    return false;
                }
                let column = (self.falling_position.0 + cell.1 as i32) as usize;
                let below = self.falling_position.1 - cell.0 - 1;
                if !matches!(self.space[column][below], SpaceState::Empty) {
                    return false;
                }
            }
            k += 1;
        }
        true
    }

    /// The falling piece can move one column left: no cell stands in column
    /// 0, and none has a settled cell to its left.
    pub fn can_move_left(&self) -> (r: bool)
        requires
            self.wf(),
        ensures
            r == self.left_is_clear(),
    {
        let rotation = self.current_tetromino_rotation;
        let ghost cells = self.cells();
        proof {
            lemma_cells_in_local_grid(self.piece().shape());
        }
        let mut k: usize = 0;
        while k < 4
            invariant
                self.wf(),
                rotation == self.rotation(),
                cells == self.cells(),
                cells.len() == 4,
                k <= 4,
                forall|m: int|
                    0 <= m < k ==> {
                        &&& cell_column(#[trigger] cells[m], self.anchor_column()) > 0
                        &&& !is_settled(
                            self.space[cell_column(cells[m], self.anchor_column()) - 1][cell_row(
                                cells[m],
                                self.anchor_row(),
                            )],
                        )
                    },
            decreases 4 - k,
        {
            let cell = self.current_tetromino.cell(rotation, k);
            assert(in_grid(
                cell_column(cells[k as int], self.anchor_column()),
                cell_row(cells[k as int], self.anchor_row()),
            ));
            let column = self.falling_position.0 + cell.1 as i32;
            if column == 0 {
                return false;
            }
            let row = self.falling_position.1 - cell.0;
            if matches!(self.space[(column - 1) as usize][row], SpaceState::SettledTetromino(_)) {
                return false;
            }
            k += 1;
        }
        true
    }

    /// The falling piece can move one column right: no cell stands in the
    /// last column, and none has a settled cell to its right.
    pub fn can_move_right(&self) -> (r: bool)
        requires
            self.wf(),
        ensures
            r == self.right_is_clear(),
    {
        let rotation = self.current_tetromino_rotation;
        let ghost cells = self.cells();
        proof {
            lemma_cells_in_local_grid(self.piece().shape());
        }
        let mut k: usize = 0;
        while k < 4
            invariant
                self.wf(),
                rotation == self.rotation(),
                cells == self.cells(),
                cells.len() == 4,
                k <= 4,
                forall|m: int|
                    0 <= m < k ==> {
                        &&& cell_column(#[trigger] cells[m], self.anchor_column()) < COLUMNS - 1
                        &&& !is_settled(
                            self.space[cell_column(cells[m], self.anchor_column()) + 1][cell_row(
                                cells[m],
                                self.anchor_row(),
                            )],
                        )
                    },
            decreases 4 - k,
        {
            let cell = self.current_tetromino.cell(rotation, k);
            assert(in_grid(
                cell_column(cells[k as int], self.anchor_column()),
                cell_row(cells[k as int], self.anchor_row()),
            ));
            let column = self.falling_position.0 + cell.1 as i32;
            if column == (COLUMNS - 1) as i32 {
                return false;
            }
            let row = self.falling_position.1 - cell.0;
            if matches!(self.space[(column + 1) as usize][row], SpaceState::SettledTetromino(_)) {
                return false;
            }
            k += 1;
        }
        true
    }

    /// The falling piece turned clockwise would lie on the playfield, on no
    /// settled cell.
    pub fn can_rotate_clockwise(&self) -> (r: bool)
        requires
            self.wf(),
        ensures
            r == self.rotation_fits(),
    {
        let rotation = (self.current_tetromino_rotation + 1) % 4;
        let ghost cells = shape_cells(self.piece().shape(), self.next_rotation());
        proof {
            lemma_cells_in_local_grid(self.piece().shape());
        }
        let mut k: usize = 0;
        while k < 4
            invariant
                self.wf(),
                rotation == self.next_rotation(),
                cells == shape_cells(self.piece().shape(), self.next_rotation()),
                cells.len() == 4,
                k <= 4,
                forall|m: int|
                    0 <= m < k ==> {
                        &&& in_grid(
                            cell_column(#[trigger] cells[m], self.anchor_column()),
                            cell_row(cells[m], self.anchor_row()),
                        )
                        &&& !is_settled(
                            self.space[cell_column(cells[m], self.anchor_column())][cell_row(
                                cells[m],
                                self.anchor_row(),
                            )],
                        )
                    },
            decreases 4 - k,
        {
            let cell = self.current_tetromino.cell(rotation, k);
            let column = self.falling_position.0 + cell.1 as i32;
            if column < 0 || column >= COLUMNS as i32 {
                return false;
            }
            if cell.0 > self.falling_position.1 || self.falling_position.1 - cell.0 >= ROWS {
                return false;
            }
            let row = self.falling_position.1 - cell.0;
            if matches!(self.space[column as usize][row], SpaceState::SettledTetromino(_)) {
                return false;
            }
            k += 1;
        }
        true
    }


    /// The playfield with the falling piece written into it as settled in
    /// the piece's colour: the composite view that a renderer draws.
    pub fn space_with_falling_as_settled(&self) -> (r: Space)
        requires
            self.wf(),
        ensures
            self.shows(r),
            holds_no_falling(r),
    {
        let rotation = self.current_tetromino_rotation;
        let color = self.current_tetromino.color();
        let ghost cells = self.cells();
        let ghost column = self.anchor_column();
        let ghost row = self.anchor_row();
        let mut new_space = self.space;
        let mut k: usize = 0;
        while k < 4
            invariant
                self.wf(),
                rotation == self.rotation(),
                cells == self.cells(),
                column == self.anchor_column(),
                row == self.anchor_row(),
                color == shape_color(self.piece().shape()),
                cells.len() == 4,
                k <= 4,
                forall|c: int, r: int|
                    in_grid(c, r) ==> #[trigger] new_space[c][r] == if covers(
                        cells.take(k as int),
                        column,
                        row,
                        c,
                        r,
                    ) {
                        SpaceState::SettledTetromino(color)
                    } else {
                        self.space[c][r]
                    },
            decreases 4 - k,
        {
            let cell = self.current_tetromino.cell(rotation, k);
            assert(in_grid(cell_column(cells[k as int], column), cell_row(cells[k as int], row)));
            let c = (self.falling_position.0 + cell.1 as i32) as usize;
            let r = self.falling_position.1 - cell.0;
            new_space[c][r] = SpaceState::SettledTetromino(color);
            proof {
                let before = cells.take(k as int);
                let after = cells.take(k as int + 1);
                assert forall|x: int, y: int| in_grid(x, y) implies covers(after, column, row, x, y)
                    == (covers(before, column, row, x, y) || (x == c && y == r)) by {
                    if covers(after, column, row, x, y) {
                        let m = choose|m: int|
                            0 <= m < after.len() && cell_column(#[trigger] after[m], column) == x
                                && cell_row(after[m], row) == y;
                        if m < k {
                            assert(before[m] == after[m]);
                        }
                    }
                    if covers(before, column, row, x, y) {
                        let m = choose|m: int|
                            0 <= m < before.len() && cell_column(#[trigger] before[m], column)
                                == x && cell_row(before[m], row) == y;
                        assert(before[m] == after[m]);
                    }
                    if x == c && y == r {
                        assert(after[k as int] == cells[k as int]);
                    }
                }
            }
            k += 1;
        }
        assert(cells.take(4) =~= cells);
        new_space
    }


    /// The anchor of a well-formed state lies near the playfield.
    proof fn lemma_anchor_bounds(&self)
        requires
            self.current_tetromino.wf(),
            self.current_tetromino_rotation < 4,
            cells_in_grid(self.cells(), self.anchor_column(), self.anchor_row()),
        ensures
            -4 < self.falling_position.0 < 10,
            self.falling_position.1 < 25,
    {
        lemma_cells_in_local_grid(self.piece().shape());
        let cells = self.cells();
        assert(in_grid(
            cell_column(cells[0], self.anchor_column()),
            cell_row(cells[0], self.anchor_row()),
        ));
    }

    /// After a legal move or turn, the piece still lies on the playfield.
    proof fn lemma_action_keeps_piece_in_grid(&self, action: Action)
        requires
            self.wf(),
        ensures
            cells_in_grid(
                shape_cells(self.piece().shape(), self.rotation_after(action)),
                self.column_after(action),
                self.anchor_row(),
            ),
    {
        let cells = self.cells();
        let column = self.anchor_column();
        let row = self.anchor_row();
        if action is MoveLeft && self.left_is_clear() {
            assert forall|k: int| 0 <= k < cells.len() implies in_grid(
                cell_column(#[trigger] cells[k], column - 1),
                cell_row(cells[k], row),
            ) by {
                assert(in_grid(cell_column(cells[k], column), cell_row(cells[k], row)));
            }
        } else if action is MoveRight && self.right_is_clear() {
            assert forall|k: int| 0 <= k < cells.len() implies in_grid(
                cell_column(#[trigger] cells[k], column + 1),
                cell_row(cells[k], row),
            ) by {
                assert(in_grid(cell_column(cells[k], column), cell_row(cells[k], row)));
            }
        }
    }

    /// Where the cells below a piece are clear, the piece one row lower still
    /// lies on the playfield.
    proof fn lemma_fall_keeps_piece_in_grid(
        space: Space,
        cells: Seq<(usize, usize)>,
        column: int,
        row: int,
    )
        requires
            cells.len() == 4,
            cells_in_grid(cells, column, row),
            below_clear(space, cells, column, row),
        ensures
            cells_in_grid(cells, column, row - 1),
    {
        let g = deepest_cell(cells);
        assert(lowest_in_column(cells, g));
        assert forall|k: int| 0 <= k < cells.len() implies in_grid(
            cell_column(#[trigger] cells[k], column),
            cell_row(cells[k], row - 1),
        ) by {
            assert(in_grid(cell_column(cells[k], column), cell_row(cells[k], row)));
        }
    }

    /// A step from a well-formed state, with a well-formed next piece, ends in
    /// a well-formed state.
    proof fn lemma_step_preserves_wf(&self, action: Action, next: Tetromino, post: PlaySpace)
        requires
            self.wf(),
            next.wf(),
            self.steps_to(action, next, post),
        ensures
            post.wf(),
    {
        lemma_cells_in_local_grid(self.piece().shape());
        lemma_cells_in_local_grid(next.shape());
        self.lemma_action_keeps_piece_in_grid(action);
        let rotation = self.rotation_after(action);
        let column = self.column_after(action);
        let row = self.anchor_row();
        let cells = shape_cells(self.piece().shape(), rotation);
        let falls = below_clear(self.grid(), cells, column, row);
        let timer = if !falls && self.moved_by(action) {
            -1
        } else {
            self.timer()
        };
        if timer > GRAVITY_DELAY && falls {
            PlaySpace::lemma_fall_keeps_piece_in_grid(self.grid(), cells, column, row);
        } else if timer > GRAVITY_DELAY {
            assert forall|c: int, r: int| in_grid(c, r) implies !(
            #[trigger] post.space[c][r] is FallingTetromino) by {
                assert(post.grid()[c][r] == if covers(cells, column, row, c, r) {
                    SpaceState::SettledTetromino(shape_color(self.piece().shape()))
                } else {
                    self.grid()[c][r]
                });
            }
            let spawned = post.cells();
            assert forall|k: int| 0 <= k < spawned.len() implies in_grid(
                cell_column(#[trigger] spawned[k], SPAWN_COLUMN as int),
                cell_row(spawned[k], SPAWN_ROW as int),
            ) by {}
        }
        post.lemma_anchor_bounds();
    }

    /// Advances the simulation by one step with `action`; `next` is the piece
    /// that spawns if the falling one settles on this step.
    pub fn step(&mut self, action: Action, next: Tetromino)
        requires
            old(self).wf(),
            next.wf(),
        ensures
            final(self).wf(),
            old(self).steps_to(action, next, *final(self)),
    {
        let ghost pre = *self;
        proof {
            pre.lemma_action_keeps_piece_in_grid(action);
        }
        let mut moved = false;
        match action {
            Action::MoveLeft => {
                if self.can_move_left() {
                    self.falling_position.0 = self.falling_position.0 - 1;
                    moved = true;
                }
            },
            Action::MoveRight => {
                if self.can_move_right() {
                    self.falling_position.0 = self.falling_position.0 + 1;
                    moved = true;
                }
            },
            Action::RotateClockwise => {
                if self.can_rotate_clockwise() {
                    self.current_tetromino_rotation = (self.current_tetromino_rotation + 1) % 4;
                }
            },
            _ => {},
        }
        proof {
            self.lemma_anchor_bounds();
        }
        let can_fall = self.can_fall();
        if !can_fall && moved {
            self.time_since_movement = -1;
        }
        if self.time_since_movement > GRAVITY_DELAY {
            if can_fall {
                self.falling_position.1 = self.falling_position.1 - 1;
            } else {
                self.space = self.space_with_falling_as_settled();
                self.current_tetromino = next;
                self.current_tetromino_rotation = 0;
                self.falling_position = (SPAWN_COLUMN, SPAWN_ROW);
            }
            self.time_since_movement = 0;
        } else {
            self.time_since_movement = self.time_since_movement + 1;
        }
        proof {
            pre.lemma_step_preserves_wf(action, next, *self);
        }
    }

    /// A fresh game: an empty playfield, `t` at the spawn anchor in rotation
    /// 0, the counters at zero.
    pub fn with_tetromino(t: Tetromino) -> (r: PlaySpace)
        requires
            t.wf(),
        ensures
            r.wf(),
            r.is_fresh_with(t),
    {
        let r = PlaySpace {
            space: empty_space(),
            score: 0,
            lines_cleared: 0,
            color: Color::White,
            current_tetromino: t,
            current_tetromino_rotation: 0,
            falling_position: (SPAWN_COLUMN, SPAWN_ROW),
            time_since_movement: 0,
        };
        proof {
            lemma_fresh_is_valid(r, t);
        }
        r
    }

    /// A fresh game with a falling piece of a kind drawn at random.
    pub fn initialize() -> (r: PlaySpace)
        ensures
            r.wf(),
            exists|t: Tetromino| t.wf() && r.is_fresh_with(t),
    {
        let t = Tetromino::random();
        PlaySpace::with_tetromino(t)
    }

    /// Advances the simulation by one step with `action`; a piece that
    /// settles on this step is followed by one of a kind drawn at random.
    pub fn tick(&mut self, action: Action)
        requires
            old(self).wf(),
        ensures
            final(self).wf(),
            exists|next: Tetromino| next.wf() && old(self).steps_to(action, next, *final(self)),
    {
        let next = Tetromino::random();
        self.step(action, next);
    }

    /// The settled playfield, without the falling piece.
    pub fn space(&self) -> (r: Space)
        ensures
            r == self.grid(),
    {
        self.space
    }

    /// The falling piece.
    pub fn current_tetromino(&self) -> (r: Tetromino)
        ensures
            r == self.piece(),
    {
        self.current_tetromino
    }

    /// The falling piece's rotation.
    pub fn current_rotation(&self) -> (r: usize)
        ensures
            r == self.rotation(),
    {
        self.current_tetromino_rotation
    }

    /// Playfield column and row of the falling piece's local origin.
    pub fn falling_position(&self) -> (r: (i32, usize))
        ensures
            r.0 == self.anchor_column(),
            r.1 == self.anchor_row(),
    {
        self.falling_position
    }

    /// Steps counted since gravity last applied.
    pub fn time_since_movement(&self) -> (r: i32)
        ensures
            r == self.timer(),
    {
        self.time_since_movement
    }

    /// The score.
    pub fn score(&self) -> (r: i32)
        ensures
            r == self.points(),
    {
        self.score
    }

    /// The count of cleared lines.
    pub fn lines_cleared(&self) -> (r: i32)
        ensures
            r == self.lines(),
    {
        self.lines_cleared
    }

    /// The ambient colour of the playfield.
    pub fn color(&self) -> (r: Color)
        ensures
            r == self.ambient(),
    {
        self.color
    }
}

/// A fresh game with a well-formed piece is a well-formed state.
pub proof fn lemma_fresh_is_valid(p: PlaySpace, t: Tetromino)
    requires
        t.wf(),
        p.is_fresh_with(t),
    ensures
        p.wf(),
{
    lemma_cells_in_local_grid(t.shape());
    let cells = p.cells();
    assert forall|k: int| 0 <= k < cells.len() implies in_grid(
        cell_column(#[trigger] cells[k], SPAWN_COLUMN as int),
        cell_row(cells[k], SPAWN_ROW as int),
    ) by {}
}

/// A step from a well-formed state, with a well-formed next piece, ends in a
/// well-formed state; so every state that a fresh game reaches is one.
pub proof fn lemma_step_is_valid(p: PlaySpace, action: Action, next: Tetromino, post: PlaySpace)
    requires
        p.wf(),
        next.wf(),
        p.steps_to(action, next, post),
    ensures
        post.wf(),
{
    p.lemma_step_preserves_wf(action, next, post);
}

/// The playfield of a well-formed state stores no falling cell: each cell is
/// empty or settled.
pub proof fn lemma_grid_holds_no_falling(p: PlaySpace)
    requires
        p.wf(),
    ensures
        holds_no_falling(p.grid()),
{
}

/// Each cell of the falling piece of a well-formed state lies on the
/// playfield.
pub proof fn lemma_piece_in_grid(p: PlaySpace)
    requires
        p.wf(),
    ensures
        cells_in_grid(p.cells(), p.anchor_column(), p.anchor_row()),
{
}

/// The composite view is a function of the state: two views of one state
/// are equal.
pub proof fn lemma_view_is_determined(p: PlaySpace, a: Space, b: Space)
    requires
        p.shows(a),
        p.shows(b),
    ensures
        a == b,
{
    assert forall|c: int| 0 <= c < COLUMNS implies #[trigger] a[c] == b[c] by {
        assert forall|r: int| 0 <= r < ROWS implies a[c][r] == b[c][r] by {
            assert(in_grid(c, r));
        }
        assert(a[c] =~= b[c]);
    }
    assert(a =~= b);
}

/// A piece with a cell in column 0 cannot move left, and one with a cell in
/// the last column cannot move right: the anchor keeps its column.
pub proof fn lemma_walls_block_moves(p: PlaySpace, k: int)
    requires
        p.wf(),
        0 <= k < 4,
    ensures
        cell_column(p.cells()[k], p.anchor_column()) == 0 ==> {
            &&& !p.left_is_clear()
            &&& p.column_after(Action::MoveLeft) == p.anchor_column()
        },
        cell_column(p.cells()[k], p.anchor_column()) == COLUMNS - 1 ==> {
            &&& !p.right_is_clear()
            &&& p.column_after(Action::MoveRight) == p.anchor_column()
        },
{
    lemma_cells_in_local_grid(p.piece().shape());
    let cells = p.cells();
    assert(cell_column(cells[k], p.anchor_column()) == p.anchor_column() + cells[k].1);
}

/// A piece that cannot fall, on a step where gravity applies, settles: each
/// of its cells becomes settled in its kind's colour, every other cell keeps
/// its state, and `next` appears at the spawn anchor in rotation 0.
pub proof fn lemma_settle_writes_piece(p: PlaySpace, next: Tetromino, post: PlaySpace)
    requires
        p.wf(),
        next.wf(),
        !p.below_is_clear(),
        p.timer() > GRAVITY_DELAY,
        p.steps_to(Action::Idle, next, post),
    ensures
        forall|k: int|
            0 <= k < 4 ==> post.grid()[cell_column(#[trigger] p.cells()[k], p.anchor_column())][cell_row(
                p.cells()[k],
                p.anchor_row(),
            )] == SpaceState::SettledTetromino(shape_color(p.piece().shape())),
        forall|c: int, r: int|
            in_grid(c, r) && !covers(p.cells(), p.anchor_column(), p.anchor_row(), c, r)
                ==> #[trigger] post.grid()[c][r] == p.grid()[c][r],
        post.piece() == next,
        post.rotation() == 0,
        post.anchor_column() == SPAWN_COLUMN,
        post.anchor_row() == SPAWN_ROW,
{
    lemma_cells_in_local_grid(p.piece().shape());
    let cells = p.cells();
    assert forall|k: int| 0 <= k < 4 implies post.grid()[cell_column(
        #[trigger] cells[k],
        p.anchor_column(),
    )][cell_row(cells[k], p.anchor_row())] == SpaceState::SettledTetromino(
        shape_color(p.piece().shape()),
    ) by {
        let c = cell_column(cells[k], p.anchor_column());
        let r = cell_row(cells[k], p.anchor_row());
        assert(in_grid(c, r));
        assert(covers(cells, p.anchor_column(), p.anchor_row(), c, r));
    }
}

} // verus!
