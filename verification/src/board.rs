//! The engine: program space and execution state in one value, and the
//! operations that the host drives it with.

use crate::cursor::{Cursor, Position};
use crate::direction::Direction;
use crate::instruction::Instruction;
use crate::machine::{below_top, Fault, State};
use crate::render::{
    board_text, cell_text, row_cells_text, row_text, rows_text, stack_items_text, stack_text,
};
use crate::space::ProgramSpace;
use crate::text::{
    char_to_byte, decimal_text, low_byte, parse_u8, printable, printable_char, push_decimal,
};
use vstd::prelude::*;

verus! {

/// The line that the host offers to a step, as the machine sees it.
pub open spec fn line_of(input: Option<&[u8]>) -> Option<Seq<u8>> {
    match input {
        Some(line) => Some(line@),
        None => None,
    }
}

/// A program on its grid together with the state of its run.
#[derive(Debug)]
pub struct Board {
    grid: ProgramSpace,
    starting_pos: Position,
    cursor: Cursor,
    direction: Direction,
    stack: Vec<u8>,
    output: String,
    in_string_mode: bool,
}

impl View for Board {
    type V = State;

    closed spec fn view(&self) -> State {
        State {
            cells: self.grid@,
            width: self.cursor.cols(),
            height: self.cursor.rows(),
            start: (self.starting_pos.x as int, self.starting_pos.y as int),
            x: self.cursor.col(),
            y: self.cursor.row(),
            direction: self.direction,
            stack: self.stack@,
            output: self.output@,
            string_mode: self.in_string_mode,
        }
    }
}

impl Board {
    /// An empty board of the given bounds, ready to run.
    pub fn new(width: i32, height: i32) -> (board: Board)
        ensures
            board@ == State::initial(width as int, height as int),
    {
        Board {
            grid: ProgramSpace::new(),
            starting_pos: Position { x: 0, y: 0 },
            cursor: Cursor::new(width, height),
            direction: Direction::Right,
            stack: Vec::new(),
            output: String::new(),
            in_string_mode: false,
        }
    }

    /// Removes the top of the stack and returns it. An empty stack gives
    /// `0` and stays empty.
    pub fn pop(&mut self) -> (val: u8)
        ensures
            val == old(self)@.top(),
            final(self)@ == old(self)@.pop(),
            old(self)@.stack.len() == 0 ==> val == 0 && final(self)@ == old(self)@,
    {
        let val = match self.stack.pop() {
            Some(val) => val,
            None => 0,
        };
        assert(self.stack@ =~= below_top(old(self).stack@));
        val
    }

    /// The top of the stack, which stays where it is. An empty stack gives
    /// `0`.
    pub fn peek(&self) -> (val: u8)
        ensures
            val == self@.top(),
            self@.stack.len() == 0 ==> val == 0,
    {
        let len = self.stack.len();
        if len == 0 {
            0
        } else {
            self.stack[len - 1]
        }
    }

    /// Puts `val` on top of the stack.
    pub fn push(&mut self, val: u8)
        ensures
            final(self)@ == old(self)@.push(val),
    {
        self.stack.push(val);
    }

    /// Stores `val` at `(x, y)`, replacing what was there.
    pub fn set(&mut self, x: i32, y: i32, val: char)
        ensures
            final(self)@ == old(self)@.write(x as int, y as int, val),
            final(self)@.cell(x as int, y as int) == val,
    {
        self.grid.write(x, y, val);
    }

    /// The character at `(x, y)` as a byte.
    pub fn get_byte(&self, x: i32, y: i32) -> (byte: u8)
        ensures
            byte == low_byte(self@.cell(x as int, y as int)),
    {
        self.grid.read_numeric(x, y)
    }

    /// The character at `(x, y)`: what was stored there last, or the null
    /// character if nothing was.
    pub fn get(&self, x: i32, y: i32) -> (ch: char)
        ensures
            ch == self@.cell(x as int, y as int),
    {
        self.grid.read(x, y)
    }

    /// The character under the pointer.
    pub fn get_current_cell(&self) -> (ch: char)
        ensures
            ch == self@.current_cell(),
    {
        let at = self.cursor.position();
        self.get(at.x, at.y)
    }

    /// Moves the pointer one cell along its heading, wrapping at the
    /// edges.
    pub fn move_forward(&mut self)
        ensures
            final(self)@ == old(self)@.move_forward(),
    {
        match self.direction {
            Direction::Right => self.move_by(1, 0),
            Direction::Left => self.move_by(-1, 0),
            Direction::Down => self.move_by(0, 1),
            Direction::Up => self.move_by(0, -1),
        }
    }

    /// Adds `(x_mod, y_mod)` to the pointer's position and wraps each axis
    /// on its own. On a grid of positive width the new column lies on the
    /// grid, and likewise for the height and the row.
    pub fn move_by(&mut self, x_mod: i32, y_mod: i32)
        ensures
            final(self)@ == old(self)@.move_by(x_mod as int, y_mod as int),
            final(self)@.width > 0 ==> 0 <= final(self)@.x < final(self)@.width,
            final(self)@.height > 0 ==> 0 <= final(self)@.y < final(self)@.height,
    {
        self.cursor.move_by(x_mod, y_mod);
    }

    /// What to show for the cell at `(x, y)`: its character, or a space
    /// if a terminal has no glyph for it.
    pub fn get_printable_character(&self, x: i32, y: i32) -> (ch: char)
        ensures
            ch == printable(self@.cell(x as int, y as int)),
    {
        printable_char(self.get(x, y))
    }

    /// The grid as text for a terminal, one line per row: each cell after
    /// a bar, the cell under the pointer highlighted, and a bar at the end
    /// of the row.
    pub fn get_board_text(&self) -> (text: String)
        ensures
            text@ == board_text(self@),
    {
        let mut result = String::new();
        let width = self.cursor.width();
        let height = self.cursor.height();
        let at = self.cursor.position();
        let mut y: i32 = 0;
        while y < height
            invariant
                0 <= y,
                height > 0 ==> y <= height,
                height <= 0 ==> y == 0,
                width == self@.width,
                height == self@.height,
                at.x == self@.x,
                at.y == self@.y,
                result@ == rows_text(self@, y as int),
            decreases height - y,
        {
            let mut x: i32 = 0;
            assert(result@ =~= rows_text(self@, y as int) + row_cells_text(self@, y as int, 0));
            while x < width
                invariant
                    0 <= x,
                    width > 0 ==> x <= width,
                    width <= 0 ==> x == 0,
                    width == self@.width,
                    at.x == self@.x,
                    at.y == self@.y,
                    result@ == rows_text(self@, y as int) + row_cells_text(
                        self@,
                        y as int,
                        x as int,
                    ),
                decreases width - x,
            {
                let at_pos = at.x == x && at.y == y;
                let ghost before = result@;
                result.push('|');
                if at_pos {
                    result.push('\x1b');
                    result.push('[');
                    result.push('4');
                    result.push('7');
                    result.push('m');
                }
                result.push(self.get_printable_character(x, y));
                if at_pos {
                    result.push('\x1b');
                    result.push('[');
                    result.push('0');
                    result.push('m');
                }
                assert(result@ =~= before + cell_text(self@, x as int, y as int));
                x = x + 1;
            }
            let ghost before = result@;
            result.push('|');
            result.push('\n');
            assert(result@ =~= before + seq!['|', '\n']);
            assert(result@ =~= rows_text(self@, y as int) + row_text(self@, y as int));
            y = y + 1;
        }
        result
    }

    /// The stack as text for a terminal: its values in decimal from the
    /// top down, each after a space, in square brackets.
    pub fn get_stack_text(&self) -> (text: String)
        ensures
            text@ == stack_text(self@.stack),
    {
        let mut result = String::new();
        result.push('[');
        let mut i: usize = self.stack.len();
        assert(self.stack@.take(i as int) =~= self.stack@);
        while i > 0
            invariant
                i <= self.stack@.len(),
                result@ + stack_items_text(self.stack@.take(i as int)) == seq!['[']
                    + stack_items_text(self.stack@),
            decreases i,
        {
            let ghost before = result@;
            let ghost shown = self.stack@.take(i as int);
            i = i - 1;
            result.push(' ');
            push_decimal(&mut result, self.stack[i]);
            proof {
                assert(shown.drop_last() =~= self.stack@.take(i as int));
                assert(shown.last() == self.stack@[i as int]);
                assert(result@ =~= before + (seq![' '] + decimal_text(shown.last() as nat)));
                assert(result@ + stack_items_text(self.stack@.take(i as int)) =~= before
                    + stack_items_text(shown));
            }
        }
        let ghost before = result@;
        result.push(']');
        assert(self.stack@.take(0) =~= Seq::<u8>::empty());
        assert(before =~= seq!['['] + stack_items_text(self.stack@));
        result
    }

    /// Whether the next step consumes a line of input: the pointer is on
    /// `&` or `~` outside string mode. The host reads a line exactly when
    /// this holds and hands it to the step.
    pub fn needs_input(&self) -> (b: bool)
        ensures
            b == self@.awaits_input(),
    {
        if self.in_string_mode {
            false
        } else {
            match Instruction::decode(self.get_current_cell()) {
                Instruction::InputNumber => true,
                Instruction::InputChars => true,
                _ => false,
            }
        }
    }

    /// Performs one transition and returns whether it ended the run by
    /// reaching `@`, or the fault that it ran into.
    ///
    /// `input` is the line of input that the host has for this step, if it
    /// has one; it is looked at only by `&` and `~`. A random turn draws
    /// its heading from the random number generator, so for `?` the
    /// contract says only that the step is the one for some heading.
    pub fn step(&mut self, input: Option<&[u8]>) -> (r: Result<bool, Fault>)
        ensures
            r == old(self)@.outcome(line_of(input)),
            exists|turn: Direction| final(self)@ == old(self)@.step(line_of(input), turn),
            forall|turn: Direction|
                !old(self)@.draws_direction() ==> final(self)@ == old(self)@.step(
                    line_of(input),
                    turn,
                ),
    {
        let turn = if self.draws_direction() {
            Direction::random()
        } else {
            Direction::Right
        };
        self.step_with(input, turn)
    }

    /// Whether the next step turns the pointer at random: the pointer is
    /// on `?` outside string mode.
    pub fn draws_direction(&self) -> (b: bool)
        ensures
            b == self@.draws_direction(),
    {
        if self.in_string_mode {
            false
        } else {
            match Instruction::decode(self.get_current_cell()) {
                Instruction::GoRandom => true,
                _ => false,
            }
        }
    }

    /// Performs one transition in which a random turn, if the step makes
    /// one, takes the heading `turn`.
    ///
    /// A step that faults or that ends the run changes nothing. Any other
    /// step has the effect of the cell under the pointer and then moves
    /// the pointer one cell along its heading.
    pub fn step_with(&mut self, input: Option<&[u8]>, turn: Direction) -> (r: Result<bool, Fault>)
        ensures
            r == old(self)@.outcome(line_of(input)),
            final(self)@ == old(self)@.step(line_of(input), turn),
    {
        let character = self.get_current_cell();

        if self.in_string_mode {
            if character == '"' {
                self.in_string_mode = false;
            } else {
                self.push(char_to_byte(character));
            }
            self.move_forward();
            return Ok(false);
        }
        match Instruction::decode(character) {
            Instruction::GoRight => self.direction = Direction::Right,
            Instruction::GoLeft => self.direction = Direction::Left,
            Instruction::GoUp => self.direction = Direction::Up,
            Instruction::GoDown => self.direction = Direction::Down,
            Instruction::GoRandom => self.direction = turn,
            Instruction::BranchHorizontal => {
                if self.pop() == 0 {
                    self.direction = Direction::Right;
                } else {
                    self.direction = Direction::Left;
                }
            },
            Instruction::BranchVertical => {
                if self.pop() == 0 {
                    self.direction = Direction::Down;
                } else {
                    self.direction = Direction::Up;
                }
            },
            Instruction::Skip => self.move_forward(),
            Instruction::Digit(digit) => self.push(digit),
            Instruction::Add => {
                let num1 = self.pop();
                let num2 = self.pop();
                self.push(num1.wrapping_add(num2));
            },
            Instruction::Subtract => {
                let num1 = self.pop();
                let num2 = self.pop();
                self.push(num2.wrapping_sub(num1));
            },
            Instruction::Multiply => {
                let num1 = self.pop();
                let num2 = self.pop();
                self.push(num1.wrapping_mul(num2));
            },
            Instruction::Divide => {
                if self.peek() == 0 {
                    return Err(Fault::DivisionByZero);
                }
                let num1 = self.pop();
                let num2 = self.pop();
                self.push(num2 / num1);
            },
            Instruction::Modulo => {
                if self.peek() == 0 {
                    return Err(Fault::DivisionByZero);
                }
                let num1 = self.pop();
                let num2 = self.pop();
                self.push(num2 % num1);
            },
            Instruction::Not => {
                if self.pop() == 0 {
                    self.push(1);
                } else {
                    self.push(0);
                }
            },
            Instruction::Greater => {
                let num1 = self.pop();
                let num2 = self.pop();
                if num2 > num1 {
                    self.push(1);
                } else {
                    self.push(0);
                }
            },
            Instruction::Duplicate => {
                let val = self.peek();
                self.push(val);
            },
            Instruction::Swap => {
                let val1 = self.pop();
                let val2 = self.pop();
                self.push(val1);
                self.push(val2);
            },
            Instruction::Discard => {
                self.pop();
            },
            Instruction::Quote => self.in_string_mode = true,
            Instruction::End => {
                return Ok(true);
            },
            Instruction::OutputNumber => {
                let num = self.pop();
                push_decimal(&mut self.output, num);
                self.output.push(' ');
                assert(self.output@ =~= old(self).output@ + decimal_text(num as nat) + seq![' ']);
            },
            Instruction::OutputChar => {
                let chr = self.pop() as char;
                self.output.push(chr);
            },
            Instruction::Put => {
                let val = self.pop();
                let x = self.pop();
                let y = self.pop();
                self.set(x as i32, y as i32, val as char);
            },
            Instruction::Get => {
                let x = self.pop();
                let y = self.pop();
                let val = self.get_byte(x as i32, y as i32);
                self.push(val);
            },
            Instruction::InputNumber => {
                match input {
                    None => {
                        return Err(Fault::MissingInput);
                    },
                    Some(line) => {
                        let num: u8 = match parse_u8(line) {
                            Some(v) => v,
                            None => 0,
                        };
                        self.push(num);
                    },
                }
            },
            Instruction::InputChars => {
                match input {
                    None => {
                        return Err(Fault::MissingInput);
                    },
                    Some(line) => {
                        let mut i: usize = 0;
                        assert(line@.take(0) =~= Seq::<u8>::empty());
                        assert(self.stack@ =~= old(self).stack@ + line@.take(0));
                        while i < line.len()
                            invariant
                                i <= line@.len(),
                                self@ == (State {
                                    stack: old(self)@.stack + line@.take(i as int),
                                    ..old(self)@
                                }),
                            decreases line@.len() - i,
                        {
                            self.push(line[i]);
                            i = i + 1;
                            assert(self@.stack =~= old(self)@.stack + line@.take(i as int));
                        }
                        assert(line@.take(line@.len() as int) =~= line@);
                    },
                }
            },
            Instruction::Nothing => {},
        }
        self.move_forward();
        Ok(false)
    }

    /// The heading of the pointer.
    pub fn direction(&self) -> (d: Direction)
        ensures
            d == self@.direction,
    {
        self.direction
    }

    /// The position of the pointer.
    pub fn position(&self) -> (p: Position)
        ensures
            p.x == self@.x,
            p.y == self@.y,
    {
        self.cursor.position()
    }

    /// The position at which the run began.
    pub fn starting_position(&self) -> (p: Position)
        ensures
            (p.x as int, p.y as int) == self@.start,
    {
        self.starting_pos
    }

    /// The width of the grid.
    pub fn width(&self) -> (w: i32)
        ensures
            w == self@.width,
    {
        self.cursor.width()
    }

    /// The height of the grid.
    pub fn height(&self) -> (h: i32)
        ensures
            h == self@.height,
    {
        self.cursor.height()
    }

    /// Whether the engine is in string mode.
    pub fn in_string_mode(&self) -> (b: bool)
        ensures
            b == self@.string_mode,
    {
        self.in_string_mode
    }

    /// The stack, top last.
    pub fn stack(&self) -> (s: &Vec<u8>)
        ensures
            s@ == self@.stack,
    {
        &self.stack
    }

    /// Everything that the output instructions have written so far.
    pub fn get_output(&self) -> (s: &str)
        ensures
            s@ == self@.output,
    {
        self.output.as_str()
    }
}

} // verus!
