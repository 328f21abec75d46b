use befunge_engine::{Board, ProgramSpace};

#[test]
fn unwritten_cell_reads_as_null() {
    let board = Board::new(10, 10);
    assert_eq!(board.get(0, 0), '\0');
    assert_eq!(board.get(7, 3), '\0');
    assert_eq!(board.get(-5, 1000), '\0');
    assert_eq!(board.get_byte(2, 2), 0);
    assert_eq!(board.get_current_cell(), '\0');
}

#[test]
fn write_then_read_returns_what_was_written() {
    let mut board = Board::new(10, 10);
    board.set(3, 4, 'x');
    assert_eq!(board.get(3, 4), 'x');
    board.set(3, 4, '\u{e9}');
    assert_eq!(board.get(3, 4), '\u{e9}');
    board.set(-1, -1, 'q');
    assert_eq!(board.get(-1, -1), 'q');
    board.set(i32::MAX, i32::MIN, 'z');
    assert_eq!(board.get(i32::MAX, i32::MIN), 'z');
    board.set(i32::MIN, i32::MAX, 'w');
    assert_eq!(board.get(i32::MIN, i32::MAX), 'w');
    assert_eq!(board.get(i32::MAX, i32::MIN), 'z');
}

#[test]
fn write_is_not_bounded_by_the_grid() {
    let mut board = Board::new(2, 2);
    board.set(100, 200, 'a');
    assert_eq!(board.get(100, 200), 'a');
    assert_eq!(board.get(0, 0), '\0');
}

#[test]
fn write_leaves_other_cells_alone() {
    let mut board = Board::new(10, 10);
    board.set(1, 2, 'a');
    board.set(2, 1, 'b');
    board.set(0, 0, 'c');
    board.set(-1, 0, 'd');
    board.set(0, -1, 'e');
    assert_eq!(board.get(1, 2), 'a');
    assert_eq!(board.get(2, 1), 'b');
    assert_eq!(board.get(0, 0), 'c');
    assert_eq!(board.get(-1, 0), 'd');
    assert_eq!(board.get(0, -1), 'e');
    assert_eq!(board.get(1, 1), '\0');
}

#[test]
fn read_twice_returns_the_same_value() {
    let mut board = Board::new(10, 10);
    board.set(5, 5, 'k');
    let first = board.get(5, 5);
    let second = board.get(5, 5);
    assert_eq!(first, 'k');
    assert_eq!(first, second);
    assert_eq!(board.get(6, 6), board.get(6, 6));
}

#[test]
fn get_byte_is_the_code_of_the_character() {
    let mut board = Board::new(10, 10);
    board.set(0, 0, 'A');
    board.set(1, 0, '\u{ff}');
    board.set(2, 0, '\u{100}');
    board.set(3, 0, '\u{1f600}');
    assert_eq!(board.get_byte(0, 0), 65);
    assert_eq!(board.get_byte(1, 0), 255);
    assert_eq!(board.get_byte(2, 0), 0);
    assert_eq!(board.get_byte(3, 0), 0);
}

#[test]
fn get_current_cell_follows_the_pointer() {
    let mut board = Board::new(3, 3);
    board.set(0, 0, 'a');
    board.set(1, 0, 'b');
    assert_eq!(board.get_current_cell(), 'a');
    board.move_by(1, 0);
    assert_eq!(board.get_current_cell(), 'b');
    board.move_by(1, 0);
    assert_eq!(board.get_current_cell(), '\0');
}

#[test]
fn program_space_reads_and_writes() {
    let mut space = ProgramSpace::new();
    assert_eq!(space.read(0, 0), '\0');
    space.write(0, 0, '7');
    space.write(0, 1, '8');
    assert_eq!(space.read(0, 0), '7');
    assert_eq!(space.read(0, 1), '8');
    assert_eq!(space.read(1, 0), '\0');
    assert_eq!(space.read_numeric(0, 0), 55);
    space.write(0, 0, '9');
    assert_eq!(space.read(0, 0), '9');
}
