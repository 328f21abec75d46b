use befunge_engine::{Board, Cursor, Direction, Position};

fn board_heading(width: i32, height: i32, heading: char) -> Board {
    let mut board = Board::new(width, height);
    board.set(0, 0, heading);
    assert_eq!(board.step(None), Ok(false));
    board
}

#[test]
fn new_board_starts_at_origin_heading_right() {
    let board = Board::new(10, 10);
    assert_eq!(board.position(), Position { x: 0, y: 0 });
    assert_eq!(board.starting_position(), Position { x: 0, y: 0 });
    assert_eq!(board.direction(), Direction::Right);
    assert_eq!(board.width(), 10);
    assert_eq!(board.height(), 10);
    assert!(!board.in_string_mode());
    assert!(board.stack().is_empty());
    assert_eq!(board.get_output(), "");
}

#[test]
fn move_by_within_the_grid() {
    let mut board = Board::new(10, 10);
    board.move_by(3, 4);
    assert_eq!(board.position(), Position { x: 3, y: 4 });
    board.move_by(-1, -2);
    assert_eq!(board.position(), Position { x: 2, y: 2 });
}

#[test]
fn move_by_past_the_right_edge_resets_to_zero() {
    let mut board = Board::new(10, 10);
    board.move_by(9, 0);
    assert_eq!(board.position(), Position { x: 9, y: 0 });
    board.move_by(1, 0);
    assert_eq!(board.position(), Position { x: 0, y: 0 });
}

#[test]
fn move_by_past_the_left_edge_resets_to_last_column() {
    let mut board = Board::new(10, 10);
    board.move_by(-1, 0);
    assert_eq!(board.position(), Position { x: 9, y: 0 });
}

#[test]
fn move_by_past_the_bottom_edge_resets_to_zero() {
    let mut board = Board::new(10, 7);
    board.move_by(0, 6);
    board.move_by(0, 1);
    assert_eq!(board.position(), Position { x: 0, y: 0 });
}

#[test]
fn move_by_past_the_top_edge_resets_to_last_row() {
    let mut board = Board::new(10, 7);
    board.move_by(0, -1);
    assert_eq!(board.position(), Position { x: 0, y: 6 });
}

#[test]
fn move_by_wraps_both_axes_at_a_corner() {
    let mut board = Board::new(4, 3);
    board.move_by(-1, -1);
    assert_eq!(board.position(), Position { x: 3, y: 2 });
    board.move_by(1, 1);
    assert_eq!(board.position(), Position { x: 0, y: 0 });
}

#[test]
fn move_by_a_long_way_resets_and_does_not_take_the_remainder() {
    let mut board = Board::new(10, 10);
    board.move_by(25, -25);
    assert_eq!(board.position(), Position { x: 0, y: 9 });
    board.move_by(i32::MAX, i32::MIN);
    assert_eq!(board.position(), Position { x: 0, y: 9 });
    board.move_by(i32::MIN, i32::MAX);
    assert_eq!(board.position(), Position { x: 9, y: 0 });
}

#[test]
fn position_stays_on_the_grid_from_every_edge_in_every_direction() {
    let deltas = [(1, 0), (-1, 0), (0, 1), (0, -1)];
    let (width, height) = (5, 4);
    for x in 0..width {
        for y in 0..height {
            for (dx, dy) in deltas {
                let mut board = Board::new(width, height);
                board.move_by(x, y);
                assert_eq!(board.position(), Position { x, y });
                board.move_by(dx, dy);
                let at = board.position();
                assert!(0 <= at.x && at.x < width);
                assert!(0 <= at.y && at.y < height);
            }
        }
    }
}

#[test]
fn one_by_one_grid_never_leaves_its_cell() {
    let mut board = Board::new(1, 1);
    board.move_by(1, 1);
    assert_eq!(board.position(), Position { x: 0, y: 0 });
    board.move_by(-1, -1);
    assert_eq!(board.position(), Position { x: 0, y: 0 });
}

#[test]
fn grid_without_cells_keeps_the_wrapping_rule() {
    let mut board = Board::new(0, 0);
    board.move_by(1, 1);
    assert_eq!(board.position(), Position { x: 0, y: 0 });
    board.move_by(-1, -1);
    assert_eq!(board.position(), Position { x: -1, y: -1 });
    board.move_by(1, 1);
    assert_eq!(board.position(), Position { x: 0, y: 0 });
}

#[test]
fn move_forward_follows_each_heading() {
    let board = board_heading(5, 5, '>');
    assert_eq!(board.position(), Position { x: 1, y: 0 });
    let board = board_heading(5, 5, '<');
    assert_eq!(board.position(), Position { x: 4, y: 0 });
    let board = board_heading(5, 5, 'v');
    assert_eq!(board.position(), Position { x: 0, y: 1 });
    let board = board_heading(5, 5, '^');
    assert_eq!(board.position(), Position { x: 0, y: 4 });
}

#[test]
fn move_forward_alone_moves_one_cell() {
    let mut board = Board::new(3, 3);
    board.move_forward();
    assert_eq!(board.position(), Position { x: 1, y: 0 });
    board.move_forward();
    board.move_forward();
    assert_eq!(board.position(), Position { x: 0, y: 0 });
}

#[test]
fn cursor_moves_and_wraps() {
    let mut cursor = Cursor::new(3, 2);
    assert_eq!(cursor.position(), Position { x: 0, y: 0 });
    assert_eq!(cursor.width(), 3);
    assert_eq!(cursor.height(), 2);
    cursor.move_by(2, 1);
    assert_eq!(cursor.position(), Position { x: 2, y: 1 });
    cursor.move_by(1, 1);
    assert_eq!(cursor.position(), Position { x: 0, y: 0 });
    cursor.move_by(-1, -1);
    assert_eq!(cursor.position(), Position { x: 2, y: 1 });
}

#[test]
fn choice_selects_heading() {
    assert_eq!(Direction::from_choice(0), Direction::Right);
    assert_eq!(Direction::from_choice(1), Direction::Left);
    assert_eq!(Direction::from_choice(2), Direction::Up);
    assert_eq!(Direction::from_choice(3), Direction::Down);
    assert_eq!(Direction::from_choice(4), Direction::Down);
    assert_eq!(Direction::from_choice(-1), Direction::Down);
}

#[test]
fn random_direction_selects_each_heading_about_equally_often() {
    let trials = 4000;
    let mut counts = [0u32; 4];
    for _ in 0..trials {
        match Direction::random() {
            Direction::Right => counts[0] += 1,
            Direction::Left => counts[1] += 1,
            Direction::Up => counts[2] += 1,
            Direction::Down => counts[3] += 1,
        }
    }
    for count in counts {
        assert!(count > 800 && count < 1200);
    }
}

#[test]
fn random_turn_instruction_selects_each_heading_about_equally_often() {
    let trials = 4000;
    let mut counts = [0u32; 4];
    for _ in 0..trials {
        let mut board = Board::new(3, 3);
        board.set(0, 0, '?');
        assert!(board.draws_direction());
        assert_eq!(board.step(None), Ok(false));
        let at = board.position();
        match board.direction() {
            Direction::Right => {
                counts[0] += 1;
                assert_eq!(at, Position { x: 1, y: 0 });
            }
            Direction::Left => {
                counts[1] += 1;
                assert_eq!(at, Position { x: 2, y: 0 });
            }
            Direction::Up => {
                counts[2] += 1;
                assert_eq!(at, Position { x: 0, y: 2 });
            }
            Direction::Down => {
                counts[3] += 1;
                assert_eq!(at, Position { x: 0, y: 1 });
            }
        }
    }
    for count in counts {
        assert!(count > 800 && count < 1200);
    }
}
