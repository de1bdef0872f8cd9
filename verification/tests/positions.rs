use flank_chess::{cursor_movement, Movement, OutOfRange, Position};

fn at(x: i32, y: i32) -> Position {
    Position::new(x, y).unwrap()
}

#[test]
fn every_cell_of_the_grid_is_a_position() {
    for x in 0..4 {
        for y in 0..4 {
            let p = Position::new(x, y).unwrap();
            assert_eq!(p.tuple(), (x, y));
            assert_eq!(p.x(), x);
            assert_eq!(p.y(), y);
        }
    }
}

#[test]
fn boundary_adjacent_coordinates_are_out_of_range() {
    assert_eq!(Position::new(-1, 0), Err(OutOfRange));
    assert_eq!(Position::new(-1, 3), Err(OutOfRange));
    assert_eq!(Position::new(4, 0), Err(OutOfRange));
    assert_eq!(Position::new(4, 3), Err(OutOfRange));
    assert_eq!(Position::new(0, -1), Err(OutOfRange));
    assert_eq!(Position::new(3, -1), Err(OutOfRange));
    assert_eq!(Position::new(0, 4), Err(OutOfRange));
    assert_eq!(Position::new(3, 4), Err(OutOfRange));
}

#[test]
fn far_and_doubly_wrong_coordinates_are_out_of_range() {
    assert_eq!(Position::new(4, -1), Err(OutOfRange));
    assert_eq!(Position::new(-1, -1), Err(OutOfRange));
    assert_eq!(Position::new(4, 4), Err(OutOfRange));
    assert_eq!(Position::new(i32::MIN, 0), Err(OutOfRange));
    assert_eq!(Position::new(0, i32::MAX), Err(OutOfRange));
}

#[test]
fn construction_succeeds_exactly_in_range() {
    for x in -3..8 {
        for y in -3..8 {
            let inside = (0..=3).contains(&x) && (0..=3).contains(&y);
            assert_eq!(Position::new(x, y).is_ok(), inside, "({}, {})", x, y);
        }
    }
}

#[test]
fn out_of_range_has_its_text() {
    assert_eq!(OutOfRange.message(), "out of range");
}

#[test]
fn positions_are_equal_iff_both_coordinates_match() {
    assert_eq!(at(1, 2), at(1, 2));
    assert_ne!(at(1, 2), at(2, 1));
    assert_ne!(at(1, 2), at(1, 3));
    assert_ne!(at(1, 2), at(0, 2));
}

#[test]
fn distance_is_the_sum_of_the_two_differences() {
    assert_eq!(at(0, 0).distance(&at(0, 0)), 0);
    assert_eq!(at(0, 0).distance(&at(0, 1)), 1);
    assert_eq!(at(2, 1).distance(&at(1, 1)), 1);
    assert_eq!(at(0, 0).distance(&at(1, 1)), 2);
    assert_eq!(at(3, 0).distance(&at(0, 3)), 6);
    assert_eq!(at(1, 3).distance(&at(2, 0)), 4);
    for a in 0..16 {
        for b in 0..16 {
            let (p, q) = (at(a / 4, a % 4), at(b / 4, b % 4));
            assert_eq!(p.distance(&q), q.distance(&p));
            assert_eq!(p.distance(&q), (a / 4 - b / 4).abs() + (a % 4 - b % 4).abs());
        }
    }
}

#[test]
fn single_steps_move_one_coordinate_by_one() {
    let mut p = at(1, 1);
    p.move_up();
    assert_eq!(p.tuple(), (1, 2));
    p.move_right();
    assert_eq!(p.tuple(), (2, 2));
    p.move_down();
    assert_eq!(p.tuple(), (2, 1));
    p.move_left();
    assert_eq!(p.tuple(), (1, 1));
}

#[test]
fn steps_stop_at_the_edges() {
    let mut p = at(0, 0);
    p.move_left();
    assert_eq!(p.tuple(), (0, 0));
    p.move_down();
    assert_eq!(p.tuple(), (0, 0));
    let mut q = at(3, 3);
    q.move_right();
    assert_eq!(q.tuple(), (3, 3));
    q.move_up();
    assert_eq!(q.tuple(), (3, 3));
    for _ in 0..10 {
        p.move_up();
        p.move_right();
    }
    assert_eq!(p.tuple(), (3, 3));
}

#[test]
fn movement_numbers() {
    assert_eq!(Movement::Left.number(), (-1, 0));
    assert_eq!(Movement::Right.number(), (1, 0));
    assert_eq!(Movement::Up.number(), (0, 1));
    assert_eq!(Movement::Down.number(), (0, -1));
}

#[test]
fn movement_opposites() {
    assert_eq!(Movement::Left.opposite(), Movement::Right);
    assert_eq!(Movement::Right.opposite(), Movement::Left);
    assert_eq!(Movement::Up.opposite(), Movement::Down);
    assert_eq!(Movement::Down.opposite(), Movement::Up);
    for m in [Movement::Left, Movement::Right, Movement::Up, Movement::Down] {
        assert_eq!(m.opposite().opposite(), m);
        let (dx, dy) = m.number();
        assert_eq!(m.opposite().number(), (-dx, -dy));
    }
}

#[test]
fn steps_agree_with_movement_numbers() {
    for m in [Movement::Left, Movement::Right, Movement::Up, Movement::Down] {
        let (dx, dy) = m.number();
        let mut p = at(1, 2);
        match m {
            Movement::Left => p.move_left(),
            Movement::Right => p.move_right(),
            Movement::Up => p.move_up(),
            Movement::Down => p.move_down(),
        }
        assert_eq!(p.tuple(), (1 + dx as i32, 2 + dy as i32));
    }
}

#[test]
fn cursor_follows_the_keys() {
    let mut c = at(0, 0);
    cursor_movement(&mut c, false, false, false, false);
    assert_eq!(c.tuple(), (0, 0));
    cursor_movement(&mut c, false, true, false, false);
    assert_eq!(c.tuple(), (1, 0));
    cursor_movement(&mut c, false, false, false, true);
    assert_eq!(c.tuple(), (1, 1));
    cursor_movement(&mut c, true, false, true, false);
    assert_eq!(c.tuple(), (0, 0));
    cursor_movement(&mut c, false, true, false, true);
    assert_eq!(c.tuple(), (1, 1));
}

#[test]
fn opposite_keys_are_taken_in_order() {
    // In the middle, left then right cancel.
    let mut c = at(1, 1);
    cursor_movement(&mut c, true, true, true, true);
    assert_eq!(c.tuple(), (1, 1));
    // At the low edge the first step is not taken, so the second one shows.
    let mut d = at(0, 0);
    cursor_movement(&mut d, true, true, true, true);
    assert_eq!(d.tuple(), (1, 1));
    // At the high edge the first step is taken and the second undoes it.
    let mut e = at(3, 3);
    cursor_movement(&mut e, true, true, true, true);
    assert_eq!(e.tuple(), (3, 3));
}
