use vstd::prelude::*;

use crate::space::Color;

verus! {

/// The seven kinds of tetromino, in the order in which a draw picks them.
#[derive(Clone, Copy, Debug, PartialEq, Eq, Structural)]
pub enum Shape {
    I,
    O,
    T,
    S,
    Z,
    J,
    L,
}

/// The kind that the draw `n` (one of `0..7`) stands for.
pub open spec fn shape_of_index(n: int) -> Shape {
    if n == 0 {
        Shape::I
    } else if n == 1 {
        Shape::O
    } else if n == 2 {
        Shape::T
    } else if n == 3 {
        Shape::S
    } else if n == 4 {
        Shape::Z
    } else if n == 5 {
        Shape::J
    } else {
        Shape::L
    }
}

/// The colour of each kind.
pub open spec fn shape_color(kind: Shape) -> Color {
    match kind {
        Shape::I => Color::Cyan,
        Shape::O => Color::Yellow,
        Shape::T => Color::Purple,
        Shape::S => Color::Green,
        Shape::Z => Color::Red,
        Shape::J => Color::Blue,
        Shape::L => Color::Orange,
    }
}

/// The four occupied cells of a kind in a rotation (`0..4`, clockwise), as
/// `(i, j)` on the piece's 4x4 local grid: `i` counts rows downwards from the
/// top of the grid, `j` counts columns rightwards.
pub open spec fn shape_cells(kind: Shape, rotation: int) -> Seq<(usize, usize)> {
    match kind {
        Shape::I => {
            if rotation == 0 {
                seq![(2usize, 0usize), (2, 1), (2, 2), (2, 3)]
            } else if rotation == 1 {
                seq![(0usize, 2usize), (1, 2), (2, 2), (3, 2)]
            } else if rotation == 2 {
                seq![(1usize, 0usize), (1, 1), (1, 2), (1, 3)]
            } else {
                seq![(0usize, 1usize), (1, 1), (2, 1), (3, 1)]
            }
        },
        Shape::O => seq![(1usize, 1usize), (1, 2), (2, 1), (2, 2)],
        Shape::T => {
            if rotation == 0 {
                seq![(1usize, 1usize), (2, 0), (2, 1), (2, 2)]
            } else if rotation == 1 {
                seq![(1usize, 1usize), (2, 1), (2, 2), (3, 1)]
            } else if rotation == 2 {
                seq![(2usize, 0usize), (2, 1), (2, 2), (3, 1)]
            } else {
                seq![(1usize, 1usize), (2, 0), (2, 1), (3, 1)]
            }
        },
        Shape::S => {
            if rotation == 0 {
                seq![(1usize, 1usize), (1, 2), (2, 0), (2, 1)]
            } else if rotation == 1 {
                seq![(1usize, 1usize), (2, 1), (2, 2), (3, 2)]
            } else if rotation == 2 {
                seq![(2usize, 1usize), (2, 2), (3, 0), (3, 1)]
            } else {
                seq![(1usize, 0usize), (2, 0), (2, 1), (3, 1)]
            }
        },
        Shape::Z => {
            if rotation == 0 {
                seq![(1usize, 0usize), (1, 1), (2, 1), (2, 2)]
            } else if rotation == 1 {
                seq![(1usize, 2usize), (2, 1), (2, 2), (3, 1)]
            } else if rotation == 2 {
                seq![(2usize, 0usize), (2, 1), (3, 1), (3, 2)]
            } else {
                seq![(1usize, 1usize), (2, 0), (2, 1), (3, 0)]
            }
        },
        Shape::J => {
            if rotation == 0 {
                seq![(1usize, 0usize), (2, 0), (2, 1), (2, 2)]
            } else if rotation == 1 {
                seq![(1usize, 1usize), (1, 2), (2, 1), (3, 1)]
            } else if rotation == 2 {
                seq![(2usize, 0usize), (2, 1), (2, 2), (3, 2)]
            } else {
                seq![(1usize, 1usize), (2, 1), (3, 0), (3, 1)]
            }
        },
        Shape::L => {
            if rotation == 0 {
                seq![(1usize, 2usize), (2, 0), (2, 1), (2, 2)]
            } else if rotation == 1 {
                seq![(1usize, 1usize), (2, 1), (3, 1), (3, 2)]
            } else if rotation == 2 {
                seq![(2usize, 0usize), (2, 1), (2, 2), (3, 0)]
            } else {
                seq![(1usize, 0usize), (1, 1), (2, 1), (3, 1)]
            }
        },
    }
}

/// A falling piece: its kind, its colour, and its occupied cells in each of
/// its four rotations.
#[derive(Clone, Copy)]
pub struct Tetromino {
    kind: Shape,
    color: Color,
    map: [[(usize, usize); 4]; 4],
}

/// Relies on rand::thread_rng and rand::Rng::gen_range: a draw from the range
/// `0..7`, which is not empty.
#[verifier::external_body]
fn draw_index() -> (r: u8)
    ensures
        r < 7,
{
    rand::Rng::gen_range(&mut rand::thread_rng(), 0..7u8)
}

/// The stored cells of `t` are those of the table for its kind.
proof fn lemma_literal_matches_table(t: Tetromino)
    requires
        t.map[0]@ =~= shape_cells(t.kind, 0),
        t.map[1]@ =~= shape_cells(t.kind, 1),
        t.map[2]@ =~= shape_cells(t.kind, 2),
        t.map[3]@ =~= shape_cells(t.kind, 3),
        t.color == shape_color(t.kind),
    ensures
        t.wf(),
{
    lemma_cells_in_local_grid(t.kind);
}

/// Every cell of the table lies on the 4x4 local grid.
pub proof fn lemma_cells_in_local_grid(kind: Shape)
    ensures
        forall|rotation: int, k: int|
            0 <= rotation < 4 && 0 <= k < 4 ==> {
                &&& shape_cells(kind, rotation).len() == 4
                &&& #[trigger] shape_cells(kind, rotation)[k].0 < 4
                &&& shape_cells(kind, rotation)[k].1 < 4
            },
{
}

impl Tetromino {
    /// The kind of the piece.
    pub closed spec fn shape(&self) -> Shape {
        self.kind
    }

    /// The piece holds the table's cells for its kind, and its kind's colour.
    pub closed spec fn wf(&self) -> bool {
        &&& self.color == shape_color(self.kind)
        &&& forall|rotation: int|
            0 <= rotation < 4 ==> #[trigger] self.map[rotation]@ == shape_cells(self.kind, rotation)
    }

    /// The piece of kind `n` in the order `I, O, T, S, Z, J, L`.
    pub fn from_index(n: u8) -> (r: Tetromino)
        requires
            n < 7,
        ensures
            r.wf(),
            r.shape() == shape_of_index(n as int),
    {
        if n == 0 {
            Tetromino::i()
        } else if n == 1 {
            Tetromino::o()
        } else if n == 2 {
            Tetromino::t()
        } else if n == 3 {
            Tetromino::s()
        } else if n == 4 {
            Tetromino::z()
        } else if n == 5 {
            Tetromino::j()
        } else {
            Tetromino::l()
        }
    }

    /// The piece of the given kind.
    pub fn of_shape(kind: Shape) -> (r: Tetromino)
        ensures
            r.wf(),
            r.shape() == kind,
    {
        match kind {
            Shape::I => Tetromino::i(),
            Shape::O => Tetromino::o(),
            Shape::T => Tetromino::t(),
            Shape::S => Tetromino::s(),
            Shape::Z => Tetromino::z(),
            Shape::J => Tetromino::j(),
            Shape::L => Tetromino::l(),
        }
    }

    /// A piece of a kind drawn uniformly from the seven.
    pub fn random() -> (r: Tetromino)
        ensures
            r.wf(),
    {
        let n = draw_index();
        Tetromino::from_index(n)
    }

    /// The kind of the piece.
    pub fn kind(&self) -> (r: Shape)
        ensures
            r == self.shape(),
    {
        self.kind
    }

    /// The colour of the piece's kind.
    pub fn color(&self) -> (r: Color)
        requires
            self.wf(),
        ensures
            r == shape_color(self.shape()),
    {
        self.color
    }

    /// The `k`-th occupied cell of the piece in `rotation`, as `(i, j)`.
    pub fn cell(&self, rotation: usize, k: usize) -> (r: (usize, usize))
        requires
            self.wf(),
            rotation < 4,
            k < 4,
        ensures
            r == shape_cells(self.shape(), rotation as int)[k as int],
            r.0 < 4,
            r.1 < 4,
    {
        proof {
            lemma_cells_in_local_grid(self.kind);
        }
        self.map[rotation][k]
    }

    fn i() -> (r: Tetromino)
        ensures
            r.wf(),
            r.shape() == Shape::I,
    {
        let r = Tetromino {
            kind: Shape::I,
            color: Color::Cyan,
            map: [
                [(2, 0), (2, 1), (2, 2), (2, 3)],
                [(0, 2), (1, 2), (2, 2), (3, 2)],
                [(1, 0), (1, 1), (1, 2), (1, 3)],
                [(0, 1), (1, 1), (2, 1), (3, 1)],
            ],
        };
        proof {
            lemma_literal_matches_table(r);
        }
        r
    }

    fn o() -> (r: Tetromino)
        ensures
            r.wf(),
            r.shape() == Shape::O,
    {
        let r = Tetromino {
            kind: Shape::O,
            color: Color::Yellow,
            map: [
                [(1, 1), (1, 2), (2, 1), (2, 2)],
                [(1, 1), (1, 2), (2, 1), (2, 2)],
                [(1, 1), (1, 2), (2, 1), (2, 2)],
                [(1, 1), (1, 2), (2, 1), (2, 2)],
            ],
        };
        proof {
            lemma_literal_matches_table(r);
        }
        r
    }

    fn t() -> (r: Tetromino)
        ensures
            r.wf(),
            r.shape() == Shape::T,
    {
        let r = Tetromino {
            kind: Shape::T,
            color: Color::Purple,
            map: [
                [(1, 1), (2, 0), (2, 1), (2, 2)],
                [(1, 1), (2, 1), (2, 2), (3, 1)],
                [(2, 0), (2, 1), (2, 2), (3, 1)],
                [(1, 1), (2, 0), (2, 1), (3, 1)],
            ],
        };
        proof {
            lemma_literal_matches_table(r);
        }
        r
    }

    fn s() -> (r: Tetromino)
        ensures
            r.wf(),
            r.shape() == Shape::S,
    {
        let r = Tetromino {
            kind: Shape::S,
            color: Color::Green,
            map: [
                [(1, 1), (1, 2), (2, 0), (2, 1)],
                [(1, 1), (2, 1), (2, 2), (3, 2)],
                [(2, 1), (2, 2), (3, 0), (3, 1)],
                [(1, 0), (2, 0), (2, 1), (3, 1)],
            ],
        };
        proof {
            lemma_literal_matches_table(r);
        }
        r
    }

    fn z() -> (r: Tetromino)
        ensures
            r.wf(),
            r.shape() == Shape::Z,
    {
        let r = Tetromino {
            kind: Shape::Z,
            color: Color::Red,
            map: [
                [(1, 0), (1, 1), (2, 1), (2, 2)],
                [(1, 2), (2, 1), (2, 2), (3, 1)],
                [(2, 0), (2, 1), (3, 1), (3, 2)],
                [(1, 1), (2, 0), (2, 1), (3, 0)],
            ],
        };
        proof {
            lemma_literal_matches_table(r);
        }
        r
    }

    fn j() -> (r: Tetromino)
        ensures
            r.wf(),
            r.shape() == Shape::J,
    {
        let r = Tetromino {
            kind: Shape::J,
            color: Color::Blue,
            map: [
                [(1, 0), (2, 0), (2, 1), (2, 2)],
                [(1, 1), (1, 2), (2, 1), (3, 1)],
                [(2, 0), (2, 1), (2, 2), (3, 2)],
                [(1, 1), (2, 1), (3, 0), (3, 1)],
            ],
        };
        proof {
            lemma_literal_matches_table(r);
        }
        r
    }

    fn l() -> (r: Tetromino)
        ensures
            r.wf(),
            r.shape() == Shape::L,
    {
        let r = Tetromino {
            kind: Shape::L,
            color: Color::Orange,
            map: [
                [(1, 2), (2, 0), (2, 1), (2, 2)],
                [(1, 1), (2, 1), (3, 1), (3, 2)],
                [(2, 0), (2, 1), (2, 2), (3, 0)],
                [(1, 0), (1, 1), (2, 1), (3, 1)],
            ],
        };
        proof {
            lemma_literal_matches_table(r);
        }
        r
    }


    /// The 4x4 occupancy mask of the piece in `rotation` (taken modulo 4),
    /// indexed `[i][j]`.
    pub fn shape_mask(&self, rotation: usize) -> (r: [[bool; 4]; 4])
        requires
            self.wf(),
        ensures
            forall|i: int, j: int|
                0 <= i < 4 && 0 <= j < 4 ==> #[trigger] r[i][j] == shape_cells(
                    self.shape(),
                    rotation as int % 4,
                ).contains((i as usize, j as usize)),
    {
        let turn = rotation % 4;
        let ghost cells = shape_cells(self.shape(), turn as int);
        proof {
            lemma_cells_in_local_grid(self.kind);
        }
        let mut mask = [[false; 4]; 4];
        let mut k: usize = 0;
        while k < 4
            invariant
                self.wf(),
                turn < 4,
                cells == shape_cells(self.shape(), turn as int),
                cells.len() == 4,
                k <= 4,
                forall|i: int, j: int|
                    0 <= i < 4 && 0 <= j < 4 ==> #[trigger] mask[i][j] == cells.take(
                        k as int,
                    ).contains((i as usize, j as usize)),
            decreases 4 - k,
        {
            let cell = self.cell(turn, k);
            mask[cell.0][cell.1] = true;
            proof {
                assert forall|i: int, j: int| 0 <= i < 4 && 0 <= j < 4 implies #[trigger] cells.take(
                    k as int + 1,
                ).contains((i as usize, j as usize)) == (cells.take(k as int).contains(
                    (i as usize, j as usize),
                ) || (i == cell.0 && j == cell.1)) by {
                    let before = cells.take(k as int);
                    let after = cells.take(k as int + 1);
                    assert(after =~= before.push(cell));
                    vstd::seq_lib::lemma_seq_contains_after_push(before, cell, (i as usize, j as usize));
                }
            }
            k += 1;
        }
        assert(cells.take(4) =~= cells);
        mask
    }
}

} // verus!
