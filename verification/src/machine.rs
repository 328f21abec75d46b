//! The machine as mathematics: its state and the transition that one step
//! makes. The executable engine is verified against these definitions.

use crate::cursor::wrap;
use crate::direction::Direction;
use crate::instruction::Instruction;
use crate::space::cell_at;
use crate::text::{decimal_text, low_byte, parsed_u8};
use vstd::prelude::*;

verus! {

/// A condition that ends a run abnormally. The running program cannot
/// observe or handle it.
#[derive(Clone, Copy, Debug, PartialEq, Eq)]
pub enum Fault {
    /// `/` or `%` found zero as the divisor.
    DivisionByZero,
    /// `&` or `~` was reached and the host had no line of input to give.
    MissingInput,
}

/// The value on top of a stack; an empty stack reads as `0`.
pub open spec fn top_of(stack: Seq<u8>) -> u8 {
    if stack.len() == 0 {
        0
    } else {
        stack.last()
    }
}

/// A stack without its top value; an empty stack stays empty.
pub open spec fn below_top(stack: Seq<u8>) -> Seq<u8> {
    if stack.len() == 0 {
        stack
    } else {
        stack.drop_last()
    }
}

/// The byte that an arithmetic result is stored as: the result modulo 256.
pub open spec fn wrapping(v: int) -> u8 {
    (v % 256) as u8
}

/// The line that an instruction works on when it takes input.
pub open spec fn line_or_empty(input: Option<Seq<u8>>) -> Seq<u8> {
    match input {
        Some(line) => line,
        None => Seq::empty(),
    }
}

/// Everything that a step can read or change.
pub struct State {
    /// The cells that were written, by `(x, y)`.
    pub cells: Map<(int, int), char>,
    /// The length of a row, at which the pointer wraps.
    pub width: int,
    /// The length of a column, at which the pointer wraps.
    pub height: int,
    /// Where the pointer was when the run began.
    pub start: (int, int),
    /// The pointer's column.
    pub x: int,
    /// The pointer's row.
    pub y: int,
    /// The pointer's heading.
    pub direction: Direction,
    /// The operand stack, top last.
    pub stack: Seq<u8>,
    /// What the output instructions have written so far.
    pub output: Seq<char>,
    /// Whether cells are pushed as bytes instead of being executed.
    pub string_mode: bool,
}

impl State {
    /// The state in which a run begins: nothing written, the pointer at
    /// `(0, 0)` heading right, an empty stack, no output, outside string
    /// mode.
    pub open spec fn initial(width: int, height: int) -> State {
        State {
            cells: Map::empty(),
            width,
            height,
            start: (0, 0),
            x: 0,
            y: 0,
            direction: Direction::Right,
            stack: Seq::empty(),
            output: Seq::empty(),
            string_mode: false,
        }
    }

    /// The character at `(x, y)`.
    pub open spec fn cell(self, x: int, y: int) -> char {
        cell_at(self.cells, x, y)
    }

    /// The character under the pointer.
    pub open spec fn current_cell(self) -> char {
        self.cell(self.x, self.y)
    }

    /// The instruction under the pointer.
    pub open spec fn instruction(self) -> Instruction {
        Instruction::of_char(self.current_cell())
    }

    /// Whether the pointer lies on the grid.
    pub open spec fn on_grid(self) -> bool {
        0 <= self.x < self.width && 0 <= self.y < self.height
    }

    /// The value on top of the stack, `0` if the stack is empty.
    pub open spec fn top(self) -> u8 {
        top_of(self.stack)
    }

    /// The state with the top of the stack removed.
    pub open spec fn pop(self) -> State {
        State { stack: below_top(self.stack), ..self }
    }

    /// The state with `v` on top of the stack.
    pub open spec fn push(self, v: u8) -> State {
        State { stack: self.stack.push(v), ..self }
    }

    /// The state with `ch` stored at `(x, y)`.
    pub open spec fn write(self, x: int, y: int, ch: char) -> State {
        State { cells: self.cells.insert((x, y), ch), ..self }
    }

    /// The state with the pointer moved by `(dx, dy)` and wrapped.
    pub open spec fn move_by(self, dx: int, dy: int) -> State {
        State { x: wrap(self.x + dx, self.width), y: wrap(self.y + dy, self.height), ..self }
    }

    /// The state with the pointer moved one cell along its heading.
    pub open spec fn move_forward(self) -> State {
        self.move_by(self.direction.dx(), self.direction.dy())
    }

    /// Whether the next step consumes a line of input.
    pub open spec fn awaits_input(self) -> bool {
        !self.string_mode && self.instruction().takes_input()
    }

    /// Whether the next step turns the pointer at random.
    pub open spec fn draws_direction(self) -> bool {
        !self.string_mode && self.instruction() == Instruction::GoRandom
    }

    /// The fault that the next step runs into, if any, given the input
    /// that the host has to offer.
    ///
    /// A remainder by zero is a fault just as a division by zero is.
    pub open spec fn fault(self, input: Option<Seq<u8>>) -> Option<Fault> {
        if self.string_mode {
            None
        } else {
            match self.instruction() {
                Instruction::Divide | Instruction::Modulo => if self.top() == 0 {
                    Some(Fault::DivisionByZero)
                } else {
                    None
                },
                Instruction::InputNumber | Instruction::InputChars => if input is None {
                    Some(Fault::MissingInput)
                } else {
                    None
                },
                _ => None,
            }
        }
    }

    /// The effect of one instruction outside string mode, before the
    /// pointer moves on. `line` is the input for the instructions that
    /// take one, `turn` the heading for a random turn. Values are popped
    /// in the order `a`, `b`, `c`.
    pub open spec fn execute(self, instr: Instruction, line: Seq<u8>, turn: Direction) -> State {
        let a = self.top();
        let s1 = self.pop();
        let b = s1.top();
        let s2 = s1.pop();
        let c = s2.top();
        let s3 = s2.pop();
        match instr {
            Instruction::GoRight => State { direction: Direction::Right, ..self },
            Instruction::GoLeft => State { direction: Direction::Left, ..self },
            Instruction::GoUp => State { direction: Direction::Up, ..self },
            Instruction::GoDown => State { direction: Direction::Down, ..self },
            Instruction::GoRandom => State { direction: turn, ..self },
            Instruction::BranchHorizontal => State {
                direction: if a == 0 {
                    Direction::Right
                } else {
                    Direction::Left
                },
                ..s1
            },
            Instruction::BranchVertical => State {
                direction: if a == 0 {
                    Direction::Down
                } else {
                    Direction::Up
                },
                ..s1
            },
            Instruction::Skip => self.move_forward(),
            Instruction::Digit(d) => self.push(d),
            Instruction::Add => s2.push(wrapping(a + b)),
            Instruction::Subtract => s2.push(wrapping(b - a)),
            Instruction::Multiply => s2.push(wrapping(a * b)),
            Instruction::Divide => s2.push(b / a),
            Instruction::Modulo => s2.push(b % a),
            Instruction::Not => s1.push(
                if a == 0 {
                    1
                } else {
                    0
                },
            ),
            Instruction::Greater => s2.push(
                if b > a {
                    1
                } else {
                    0
                },
            ),
            Instruction::Duplicate => self.push(a),
            Instruction::Swap => s2.push(a).push(b),
            Instruction::Discard => s1,
            Instruction::Quote => State { string_mode: true, ..self },
            Instruction::End => self,
            Instruction::OutputNumber => State {
                output: self.output + decimal_text(a as nat) + seq![' '],
                ..s1
            },
            Instruction::OutputChar => State { output: self.output.push(a as char), ..s1 },
            Instruction::Put => s3.write(b as int, c as int, a as char),
            Instruction::Get => s2.push(low_byte(self.cell(a as int, b as int))),
            Instruction::InputNumber => self.push(
                match parsed_u8(line) {
                    Some(v) => v,
                    None => 0,
                },
            ),
            Instruction::InputChars => State { stack: self.stack + line, ..self },
            Instruction::Nothing => self,
        }
    }

    /// The effect of one cell in string mode, before the pointer moves on:
    /// the quote leaves string mode, any other character is pushed as a
    /// byte.
    pub open spec fn collect(self) -> State {
        if self.current_cell() == '"' {
            State { string_mode: false, ..self }
        } else {
            self.push(low_byte(self.current_cell()))
        }
    }

    /// Whether the next step ends the run by reaching `@`.
    pub open spec fn halts(self) -> bool {
        !self.string_mode && self.instruction() == Instruction::End
    }

    /// The state after one step. A step that faults or that ends the run
    /// leaves the state as it was; any other step has the effect of the
    /// cell under the pointer and then moves the pointer one cell along
    /// its heading.
    pub open spec fn step(self, input: Option<Seq<u8>>, turn: Direction) -> State {
        if self.fault(input) is Some || self.halts() {
            self
        } else if self.string_mode {
            self.collect().move_forward()
        } else {
            self.execute(self.instruction(), line_or_empty(input), turn).move_forward()
        }
    }

    /// What one step returns: the fault it ran into, or else whether it
    /// ended the run.
    pub open spec fn outcome(self, input: Option<Seq<u8>>) -> Result<bool, Fault> {
        match self.fault(input) {
            Some(fault) => Err(fault),
            None => Ok(self.halts()),
        }
    }
}

/// An empty stack reads as `0`, and popping it leaves it empty.
pub proof fn lemma_empty_stack_reads_zero(s: State)
    requires
        s.stack.len() == 0,
    ensures
        s.top() == 0,
        s.pop() == s,
        s.pop().stack.len() == 0,
{
}

/// Popping removes exactly the value that was pushed last.
pub proof fn lemma_pop_after_push(s: State, v: u8)
    ensures
        s.push(v).top() == v,
        s.push(v).pop() == s,
{
    assert(s.stack.push(v).drop_last() =~= s.stack);
}

/// On a grid with at least one cell, any movement leaves the pointer on
/// the grid, wherever it was before.
pub proof fn lemma_move_stays_on_grid(s: State, dx: int, dy: int)
    requires
        s.width > 0,
        s.height > 0,
    ensures
        s.move_by(dx, dy).on_grid(),
{
}

/// On a grid with at least one cell, a pointer that is on the grid is
/// still on it after any step.
pub proof fn lemma_step_stays_on_grid(s: State, input: Option<Seq<u8>>, turn: Direction)
    requires
        s.width > 0,
        s.height > 0,
        s.on_grid(),
    ensures
        s.step(input, turn).on_grid(),
{
}

/// A cell that was just written reads back as what was written, and every
/// other cell reads as before.
pub proof fn lemma_write_then_read(s: State, x: int, y: int, ch: char, ox: int, oy: int)
    ensures
        s.write(x, y, ch).cell(x, y) == ch,
        (ox, oy) != (x, y) ==> s.write(x, y, ch).cell(ox, oy) == s.cell(ox, oy),
{
}

/// Only `p` writes: a step of any other kind leaves every cell as it was,
/// so reading a cell before and after the step gives the same character.
pub proof fn lemma_cells_change_only_by_put(
    s: State,
    input: Option<Seq<u8>>,
    turn: Direction,
    x: int,
    y: int,
)
    requires
        s.string_mode || s.instruction() != Instruction::Put,
    ensures
        s.step(input, turn).cells == s.cells,
        s.step(input, turn).cell(x, y) == s.cell(x, y),
{
}

/// Output is only ever appended to: what was written before a step is
/// still there after it, at the front.
pub proof fn lemma_output_only_grows(s: State, input: Option<Seq<u8>>, turn: Direction)
    ensures
        s.output.is_prefix_of(s.step(input, turn).output),
{
    let after = s.step(input, turn).output;
    assert(s.output =~= after.subrange(0, s.output.len() as int));
}

/// A step changes neither the bounds of the grid nor the recorded
/// starting position.
pub proof fn lemma_step_keeps_frame(s: State, input: Option<Seq<u8>>, turn: Direction)
    ensures
        s.step(input, turn).width == s.width,
        s.step(input, turn).height == s.height,
        s.step(input, turn).start == s.start,
{
}

/// With `a` on top of the stack and `b` below it, `-` leaves `b - a`
/// (modulo 256) in their place, not `a - b`.
pub proof fn lemma_subtract_operand_order(
    s: State,
    rest: Seq<u8>,
    b: u8,
    a: u8,
    input: Option<Seq<u8>>,
    turn: Direction,
)
    requires
        !s.string_mode,
        s.instruction() == Instruction::Subtract,
        s.stack == rest.push(b).push(a),
    ensures
        s.step(input, turn).stack == rest.push(wrapping(b - a)),
        s.outcome(input) == Ok::<bool, Fault>(false),
{
    assert(rest.push(b).push(a).drop_last() =~= rest.push(b));
    assert(rest.push(b).drop_last() =~= rest);
}

/// With `a` on top of the stack and `b` below it, and `a` not zero, `/`
/// leaves the quotient `b / a` in their place, not `a / b`.
pub proof fn lemma_divide_operand_order(
    s: State,
    rest: Seq<u8>,
    b: u8,
    a: u8,
    input: Option<Seq<u8>>,
    turn: Direction,
)
    requires
        !s.string_mode,
        s.instruction() == Instruction::Divide,
        s.stack == rest.push(b).push(a),
        a != 0,
    ensures
        s.step(input, turn).stack == rest.push(b / a),
        s.outcome(input) == Ok::<bool, Fault>(false),
{
    assert(rest.push(b).push(a).drop_last() =~= rest.push(b));
    assert(rest.push(b).drop_last() =~= rest);
}

/// Dividing by a zero on top of the stack, or by the zero that an empty
/// stack reads as, is a fault whatever lies below, and nothing is pushed
/// or popped.
pub proof fn lemma_division_by_zero_is_fatal(
    s: State,
    input: Option<Seq<u8>>,
    turn: Direction,
)
    requires
        !s.string_mode,
        s.instruction() == Instruction::Divide,
        s.top() == 0,
    ensures
        s.outcome(input) == Err::<bool, Fault>(Fault::DivisionByZero),
        s.step(input, turn) == s,
{
}

/// The heading that is passed for a random turn matters only when the
/// step makes one.
pub proof fn lemma_turn_only_matters_at_random(
    s: State,
    input: Option<Seq<u8>>,
    turn1: Direction,
    turn2: Direction,
)
    requires
        !s.draws_direction(),
    ensures
        s.step(input, turn1) == s.step(input, turn2),
{
}

/// The input that is offered matters only when the step consumes a line.
pub proof fn lemma_input_only_matters_when_awaited(
    s: State,
    input1: Option<Seq<u8>>,
    input2: Option<Seq<u8>>,
    turn: Direction,
)
    requires
        !s.awaits_input(),
    ensures
        s.step(input1, turn) == s.step(input2, turn),
        s.outcome(input1) == s.outcome(input2),
{
}

} // verus!
