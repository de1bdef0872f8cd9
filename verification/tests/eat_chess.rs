use flank_chess::{Board, Cell, PieceColor};

fn cell_of(x: i32) -> Cell {
    match x {
        0 => None,
        1 => Some(PieceColor::Black),
        2 => Some(PieceColor::White),
        _ => panic!("unknown num"),
    }
}

fn apply_can_eat(x1: i32, x2: i32, x3: i32, x4: i32) -> Option<i32> {
    Board::new().can_eat(cell_of(x1), cell_of(x2), cell_of(x3), cell_of(x4))
}

/// The flanking rule, written a second time from its description: the
/// victim, its two flankers on the side away from the nearer end, and a
/// fourth cell that is not the victim's colour.
fn reference_capture(line: [i32; 4]) -> Option<i32> {
    let mut found: Option<i32> = None;
    for victim in 1..=2 {
        let foe = 3 - victim;
        for index in 0..4usize {
            let (a, b, rest) = match index {
                0 => (1, 2, 3),
                1 => (2, 3, 0),
                2 => (0, 1, 3),
                _ => (1, 2, 0),
            };
            if line[index] == victim && line[a] == foe && line[b] == foe && line[rest] != victim {
                assert!(found.is_none(), "two captures on one line {:?}", line);
                found = Some(index as i32);
            }
        }
    }
    found
}

#[test]
fn board_test_eat_chess() {
    assert_eq!(apply_can_eat(0, 1, 2, 2), Some(1));
    assert_eq!(apply_can_eat(1, 2, 2, 2), Some(0));
    assert_eq!(apply_can_eat(0, 2, 2, 1), Some(3));
    assert_eq!(apply_can_eat(1, 1, 2, 2), None);
    assert_eq!(apply_can_eat(1, 0, 2, 2), None);
    assert_eq!(apply_can_eat(1, 1, 2, 2), None);
    assert_eq!(apply_can_eat(1, 2, 2, 1), None);
    assert_eq!(apply_can_eat(1, 2, 2, 0), Some(0));
    assert_eq!(apply_can_eat(1, 1, 2, 0), Some(2));
}

#[test]
fn game_test_eat_chess() {
    assert_eq!(
        Board::new().can_eat(
            Some(PieceColor::Black),
            Some(PieceColor::Black),
            Some(PieceColor::White),
            Some(PieceColor::Black),
        ),
        Some(2)
    );
    assert_eq!(
        Board::new().can_eat(
            Some(PieceColor::Black),
            Some(PieceColor::White),
            Some(PieceColor::White),
            None,
        ),
        Some(0)
    );
}

#[test]
fn pattern_black_at_0() {
    assert_eq!(apply_can_eat(1, 2, 2, 0), Some(0));
    assert_eq!(apply_can_eat(1, 2, 2, 2), Some(0));
}

#[test]
fn pattern_white_at_0() {
    assert_eq!(apply_can_eat(2, 1, 1, 0), Some(0));
    assert_eq!(apply_can_eat(2, 1, 1, 1), Some(0));
}

#[test]
fn pattern_black_at_1() {
    assert_eq!(apply_can_eat(0, 1, 2, 2), Some(1));
    assert_eq!(apply_can_eat(2, 1, 2, 2), Some(1));
}

#[test]
fn pattern_white_at_1() {
    assert_eq!(apply_can_eat(0, 2, 1, 1), Some(1));
    assert_eq!(apply_can_eat(1, 2, 1, 1), Some(1));
}

#[test]
fn pattern_white_at_2() {
    assert_eq!(apply_can_eat(1, 1, 2, 0), Some(2));
    assert_eq!(apply_can_eat(1, 1, 2, 1), Some(2));
}

#[test]
fn pattern_black_at_2() {
    assert_eq!(apply_can_eat(2, 2, 1, 0), Some(2));
    assert_eq!(apply_can_eat(2, 2, 1, 2), Some(2));
}

#[test]
fn pattern_black_at_3() {
    assert_eq!(apply_can_eat(0, 2, 2, 1), Some(3));
    assert_eq!(apply_can_eat(2, 2, 2, 1), Some(3));
}

#[test]
fn pattern_white_at_3() {
    assert_eq!(apply_can_eat(0, 1, 1, 2), Some(3));
    assert_eq!(apply_can_eat(1, 1, 1, 2), Some(3));
}

#[test]
fn near_misses_capture_nothing() {
    // Each line is one cell away from a capturing line.
    assert_eq!(apply_can_eat(1, 2, 2, 1), None); // ally at the far end
    assert_eq!(apply_can_eat(2, 1, 1, 2), None); // the same, colours exchanged
    assert_eq!(apply_can_eat(1, 0, 2, 2), None); // a flanker missing
    assert_eq!(apply_can_eat(1, 2, 0, 0), None); // the second flanker missing
    assert_eq!(apply_can_eat(0, 2, 2, 0), None); // no piece at the end
    assert_eq!(apply_can_eat(1, 1, 2, 2), None); // ally at the near end
    assert_eq!(apply_can_eat(2, 2, 1, 1), None); // the same, colours exchanged
    assert_eq!(apply_can_eat(0, 1, 0, 2), None); // gap between victim and flanker
    assert_eq!(apply_can_eat(1, 1, 0, 0), None); // flanker missing at index 2
    assert_eq!(apply_can_eat(0, 0, 2, 1), None); // one flanker only, from the far end
    assert_eq!(apply_can_eat(1, 1, 1, 0), None); // no other colour at all
    assert_eq!(apply_can_eat(2, 2, 2, 2), None);
}

#[test]
fn empty_and_starting_lines_capture_nothing() {
    assert_eq!(apply_can_eat(0, 0, 0, 0), None);
    assert_eq!(apply_can_eat(1, 0, 0, 2), None);
    assert_eq!(apply_can_eat(1, 1, 1, 1), None);
    assert_eq!(apply_can_eat(0, 1, 0, 2), None);
    assert_eq!(apply_can_eat(1, 1, 0, 2), None);
}

#[test]
fn every_line_agrees_with_the_rule() {
    let mut captures = 0;
    for a in 0..3 {
        for b in 0..3 {
            for c in 0..3 {
                for d in 0..3 {
                    let got = apply_can_eat(a, b, c, d);
                    assert_eq!(got, reference_capture([a, b, c, d]), "line {:?}", [a, b, c, d]);
                    if got.is_some() {
                        captures += 1;
                    }
                }
            }
        }
    }
    // Eight rows, each with two fillings of its open cell.
    assert_eq!(captures, 16);
}

#[test]
fn mirrored_line_captures_mirrored_index() {
    for a in 0..3 {
        for b in 0..3 {
            for c in 0..3 {
                for d in 0..3 {
                    let forward = apply_can_eat(a, b, c, d);
                    let backward = apply_can_eat(d, c, b, a);
                    assert_eq!(backward, forward.map(|i| 3 - i));
                }
            }
        }
    }
}

#[test]
fn exchanging_colours_keeps_the_index() {
    let swap = |x: i32| if x == 0 { 0 } else { 3 - x };
    for a in 0..3 {
        for b in 0..3 {
            for c in 0..3 {
                for d in 0..3 {
                    assert_eq!(
                        apply_can_eat(swap(a), swap(b), swap(c), swap(d)),
                        apply_can_eat(a, b, c, d)
                    );
                }
            }
        }
    }
}

#[test]
fn the_line_alone_decides() {
    let mut board = Board::new();
    let before = board.can_eat(cell_of(1), cell_of(2), cell_of(2), cell_of(0));
    let from = flank_chess::Position::new(0, 0).unwrap();
    let to = flank_chess::Position::new(0, 1).unwrap();
    board.move_chess(from, to).unwrap();
    assert_eq!(board.can_eat(cell_of(1), cell_of(2), cell_of(2), cell_of(0)), before);
}
