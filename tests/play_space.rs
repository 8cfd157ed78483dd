use tetris_core::{Action, Color, PlaySpace, Shape, SpaceState, Tetromino};

fn fresh(kind: Shape) -> PlaySpace {
    PlaySpace::with_tetromino(Tetromino::of_shape(kind))
}

fn occupied_cells(p: &PlaySpace) -> Vec<(usize, usize)> {
    let t = p.current_tetromino();
    let (column, row) = p.falling_position();
    let mut cells = Vec::new();
    for k in 0..4 {
        let (i, j) = t.cell(p.current_rotation(), k);
        cells.push(((column + j as i32) as usize, row - i));
    }
    cells
}

/// Steps with `action` until the piece has settled; returns the number of steps.
fn step_until_settled(p: &mut PlaySpace, action: Action, next: Shape) -> usize {
    let mut n = 0;
    let mut left_spawn = false;
    loop {
        p.step(action, Tetromino::of_shape(next));
        n += 1;
        assert!(n < 2000, "piece never settled");
        if p.falling_position().1 < 21 {
            left_spawn = true;
        } else if left_spawn && p.falling_position() == (4, 21) {
            return n;
        }
    }
}

#[test]
fn fresh_game_is_empty_with_piece_at_spawn() {
    let p = fresh(Shape::T);
    for c in 0..10 {
        for r in 0..22 {
            assert_eq!(p.space()[c][r], SpaceState::Empty);
        }
    }
    assert_eq!(p.falling_position(), (4, 21));
    assert_eq!(p.current_rotation(), 0);
    assert_eq!(p.current_tetromino().kind(), Shape::T);
    assert_eq!(p.time_since_movement(), 0);
    assert_eq!(p.score(), 0);
    assert_eq!(p.lines_cleared(), 0);
    assert_eq!(p.color(), Color::White);
}

#[test]
fn initialize_spawns_a_piece_on_an_empty_playfield() {
    let p = PlaySpace::initialize();
    assert_eq!(p.falling_position(), (4, 21));
    assert_eq!(p.current_rotation(), 0);
    assert!(p.space().iter().all(|col| col.iter().all(|s| *s == SpaceState::Empty)));
    for (c, r) in occupied_cells(&p) {
        assert!(c < 10 && r < 22);
    }
}

#[test]
fn gravity_applies_on_the_twelfth_step() {
    let mut p = fresh(Shape::I);
    for n in 1..=11 {
        p.step(Action::Idle, Tetromino::of_shape(Shape::O));
        assert_eq!(p.time_since_movement(), n);
        assert_eq!(p.falling_position(), (4, 21));
    }
    p.step(Action::Idle, Tetromino::of_shape(Shape::O));
    assert_eq!(p.falling_position(), (4, 20));
    assert_eq!(p.time_since_movement(), 0);
}

#[test]
fn view_shows_falling_piece_as_settled() {
    let p = fresh(Shape::I);
    let view = p.space_with_falling_as_settled();
    for c in 0..10 {
        for r in 0..22 {
            let expected = if r == 19 && (4..8).contains(&c) {
                SpaceState::SettledTetromino(Color::Cyan)
            } else {
                SpaceState::Empty
            };
            assert_eq!(view[c][r], expected);
        }
    }
    // the stored playfield is untouched
    assert_eq!(p.space()[4][19], SpaceState::Empty);
}

#[test]
fn view_twice_gives_the_same_playfield() {
    let mut p = fresh(Shape::L);
    for _ in 0..40 {
        p.step(Action::MoveRight, Tetromino::of_shape(Shape::L));
    }
    let a = p.space_with_falling_as_settled();
    let b = p.space_with_falling_as_settled();
    assert!(a == b);
}

#[test]
fn piece_at_column_zero_cannot_move_left() {
    let mut p = fresh(Shape::I);
    for _ in 0..4 {
        p.step(Action::MoveLeft, Tetromino::of_shape(Shape::I));
    }
    assert_eq!(p.falling_position().0, 0);
    assert!(!p.can_move_left());
    p.step(Action::MoveLeft, Tetromino::of_shape(Shape::I));
    assert_eq!(p.falling_position().0, 0);
}

#[test]
fn piece_at_last_column_cannot_move_right() {
    let mut p = fresh(Shape::I);
    for _ in 0..2 {
        p.step(Action::MoveRight, Tetromino::of_shape(Shape::I));
    }
    // the bar covers columns 6..=9
    assert_eq!(p.falling_position().0, 6);
    assert!(!p.can_move_right());
    p.step(Action::MoveRight, Tetromino::of_shape(Shape::I));
    assert_eq!(p.falling_position().0, 6);
    assert!(occupied_cells(&p).iter().any(|&(c, _)| c == 9));
}

#[test]
fn vertical_i_in_column_zero_rejects_move_left() {
    let mut p = fresh(Shape::I);
    p.step(Action::RotateClockwise, Tetromino::of_shape(Shape::I));
    assert_eq!(p.current_rotation(), 1);
    for _ in 0..10 {
        p.step(Action::MoveLeft, Tetromino::of_shape(Shape::I));
    }
    assert!(occupied_cells(&p).iter().all(|&(c, _)| c == 0));
    let before = p.falling_position();
    assert!(!p.can_move_left());
    p.step(Action::MoveLeft, Tetromino::of_shape(Shape::I));
    assert_eq!(p.falling_position().0, before.0);
}

#[test]
fn settled_neighbour_blocks_sideways_moves() {
    let mut p = fresh(Shape::O);
    // settle an O on the floor at columns 5..=6
    step_until_settled(&mut p, Action::Idle, Shape::I);
    assert_eq!(p.space()[5][0], SpaceState::SettledTetromino(Color::Yellow));
    // bring a vertical I down beside it, at column 4
    p.step(Action::RotateClockwise, Tetromino::of_shape(Shape::I));
    p.step(Action::MoveLeft, Tetromino::of_shape(Shape::I));
    p.step(Action::MoveLeft, Tetromino::of_shape(Shape::I));
    while occupied_cells(&p).iter().map(|&(_, r)| r).min().unwrap() > 0 {
        p.step(Action::Idle, Tetromino::of_shape(Shape::I));
    }
    assert!(occupied_cells(&p).iter().all(|&(c, _)| c == 4));
    assert!(!p.can_move_right());
    assert!(p.can_move_left());
}

#[test]
fn turn_that_would_leave_the_playfield_is_refused() {
    let mut p = fresh(Shape::I);
    p.step(Action::RotateClockwise, Tetromino::of_shape(Shape::I));
    for _ in 0..10 {
        p.step(Action::MoveRight, Tetromino::of_shape(Shape::I));
    }
    // vertical bar in column 9; rotation 2 would put cells in columns 7..=10
    assert!(occupied_cells(&p).iter().all(|&(c, _)| c == 9));
    assert!(!p.can_rotate_clockwise());
    p.step(Action::RotateClockwise, Tetromino::of_shape(Shape::I));
    assert_eq!(p.current_rotation(), 1);
}

#[test]
fn rotate_clockwise_cycles_through_four_rotations() {
    let mut p = fresh(Shape::T);
    for expected in [1usize, 2, 3, 0] {
        p.step(Action::RotateClockwise, Tetromino::of_shape(Shape::T));
        assert_eq!(p.current_rotation(), expected);
    }
}

#[test]
fn rotate_counter_clockwise_does_nothing() {
    let mut p = fresh(Shape::T);
    p.step(Action::RotateCounterClockwise, Tetromino::of_shape(Shape::T));
    assert_eq!(p.current_rotation(), 0);
    assert_eq!(p.falling_position(), (4, 21));
    assert_eq!(p.time_since_movement(), 1);
}

#[test]
fn settling_writes_piece_colour_and_spawns_next() {
    let mut p = fresh(Shape::T);
    let last;
    let mut left_spawn = false;
    loop {
        let cells = occupied_cells(&p);
        p.step(Action::Idle, Tetromino::of_shape(Shape::Z));
        if p.falling_position().1 < 21 {
            left_spawn = true;
        } else if left_spawn && p.falling_position() == (4, 21) {
            last = cells;
            break;
        }
    }
    for &(c, r) in &last {
        assert_eq!(p.space()[c][r], SpaceState::SettledTetromino(Color::Purple));
    }
    let settled = p
        .space()
        .iter()
        .flat_map(|col| col.iter())
        .filter(|s| **s != SpaceState::Empty)
        .count();
    assert_eq!(settled, 4);
    assert_eq!(p.current_tetromino().kind(), Shape::Z);
    assert_eq!(p.current_rotation(), 0);
    assert_eq!(p.time_since_movement(), 0);
}

#[test]
fn horizontal_i_falls_to_the_floor_and_settles() {
    let mut p = PlaySpace::with_tetromino(Tetromino::of_shape(Shape::I));
    let mut lowest_anchor = 21;
    let mut steps = 0;
    while p.space()[4][0] == SpaceState::Empty {
        lowest_anchor = lowest_anchor.min(p.falling_position().1);
        p.tick(Action::Idle);
        steps += 1;
        assert!(steps < 1000);
    }
    // the anchor stops at row 2; the bar, two rows below it, lies on row 0
    assert_eq!(lowest_anchor, 2);
    for c in 4..8 {
        assert_eq!(p.space()[c][0], SpaceState::SettledTetromino(Color::Cyan));
    }
    assert_eq!(p.space()[3][0], SpaceState::Empty);
    assert_eq!(p.space()[8][0], SpaceState::Empty);
    assert_eq!(p.falling_position(), (4, 21));
    assert_eq!(p.current_rotation(), 0);
}

#[test]
fn second_o_stops_directly_on_the_first() {
    let mut p = fresh(Shape::O);
    p.step(Action::MoveLeft, Tetromino::of_shape(Shape::O));
    step_until_settled(&mut p, Action::Idle, Shape::O);
    for c in 4..6 {
        for r in 0..2 {
            assert_eq!(p.space()[c][r], SpaceState::SettledTetromino(Color::Yellow));
        }
    }
    assert_eq!(p.current_tetromino().kind(), Shape::O);
    assert_eq!(p.falling_position(), (4, 21));
    p.step(Action::MoveLeft, Tetromino::of_shape(Shape::O));
    loop {
        let bottom = occupied_cells(&p).iter().map(|&(_, r)| r).min().unwrap();
        assert!(bottom >= 2);
        if bottom == 2 {
            assert!(!p.can_fall());
            break;
        }
        assert!(p.can_fall());
        p.step(Action::Idle, Tetromino::of_shape(Shape::O));
    }
    step_until_settled(&mut p, Action::Idle, Shape::O);
    for c in 4..6 {
        for r in 2..4 {
            assert_eq!(p.space()[c][r], SpaceState::SettledTetromino(Color::Yellow));
        }
    }
}

#[test]
fn move_onto_a_support_restarts_the_timer() {
    let mut p = fresh(Shape::O);
    step_until_settled(&mut p, Action::Idle, Shape::O);
    // second O one column right of the first, falling to row 0
    p.step(Action::MoveRight, Tetromino::of_shape(Shape::O));
    p.step(Action::MoveRight, Tetromino::of_shape(Shape::O));
    while occupied_cells(&p).iter().map(|&(_, r)| r).min().unwrap() > 0 {
        p.step(Action::Idle, Tetromino::of_shape(Shape::O));
    }
    // now at columns 7..=8, rows 0..=1, beside the first; the timer counts on
    for _ in 0..3 {
        p.step(Action::Idle, Tetromino::of_shape(Shape::O));
    }
    let before = p.time_since_movement();
    assert!(before > 0);
    p.step(Action::MoveRight, Tetromino::of_shape(Shape::O));
    assert_eq!(p.falling_position().0, 7);
    // moved, and still resting on the floor: the timer starts again
    assert_eq!(p.time_since_movement(), 0);
}
