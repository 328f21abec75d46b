//! The instruction set: what each character of a program means.

use vstd::prelude::*;

verus! {

/// What a cell asks the machine to do when the pointer visits it outside
/// string mode.
#[derive(Clone, Copy, Debug, PartialEq, Eq)]
pub enum Instruction {
    /// `>`: head right.
    GoRight,
    /// `<`: head left.
    GoLeft,
    /// `^`: head up.
    GoUp,
    /// `v`: head down.
    GoDown,
    /// `?`: head in a direction chosen at random.
    GoRandom,
    /// `_`: pop; head right if the value is zero, left otherwise.
    BranchHorizontal,
    /// `|`: pop; head down if the value is zero, up otherwise.
    BranchVertical,
    /// `#`: pass over the next cell.
    Skip,
    /// `0` to `9`: push the digit's value.
    Digit(u8),
    /// `+`: pop two values and push their sum.
    Add,
    /// `-`: pop `a`, pop `b`, push `b - a`.
    Subtract,
    /// `*`: pop two values and push their product.
    Multiply,
    /// `/`: pop `a`, pop `b`, push `b / a`. A zero `a` is a fault.
    Divide,
    /// `%`: pop `a`, pop `b`, push the remainder of `b / a`. A zero `a` is
    /// a fault, as it is for `/`.
    Modulo,
    /// `!`: pop; push `1` if the value is zero, `0` otherwise.
    Not,
    /// `` ` ``: pop `a`, pop `b`, push `1` if `b > a`, `0` otherwise.
    Greater,
    /// `:`: push a copy of the top value.
    Duplicate,
    /// `\`: exchange the two top values.
    Swap,
    /// `$`: pop a value and drop it.
    Discard,
    /// `"`: enter string mode.
    Quote,
    /// `@`: end the run.
    End,
    /// `.`: pop a value and write it as a decimal number and a space.
    OutputNumber,
    /// `,`: pop a value and write the character with that code.
    OutputChar,
    /// `p`: pop `v`, `x`, `y` and store the character with code `v` at
    /// `(x, y)`.
    Put,
    /// `g`: pop `x`, `y` and push the byte stored at `(x, y)`.
    Get,
    /// `&`: take a line of input and push the number it denotes.
    InputNumber,
    /// `~`: take a line of input and push its bytes.
    InputChars,
    /// Any other character: do nothing.
    Nothing,
}

impl Instruction {
    /// The instruction that the character `c` stands for.
    pub open spec fn of_char(c: char) -> Instruction {
        if '0' <= c && c <= '9' {
            Instruction::Digit((c as int - 48) as u8)
        } else {
            match c {
                '>' => Instruction::GoRight,
                '<' => Instruction::GoLeft,
                '^' => Instruction::GoUp,
                'v' => Instruction::GoDown,
                '?' => Instruction::GoRandom,
                '_' => Instruction::BranchHorizontal,
                '|' => Instruction::BranchVertical,
                '#' => Instruction::Skip,
                '+' => Instruction::Add,
                '-' => Instruction::Subtract,
                '*' => Instruction::Multiply,
                '/' => Instruction::Divide,
                '%' => Instruction::Modulo,
                '!' => Instruction::Not,
                '`' => Instruction::Greater,
                ':' => Instruction::Duplicate,
                '\\' => Instruction::Swap,
                '$' => Instruction::Discard,
                '"' => Instruction::Quote,
                '@' => Instruction::End,
                '.' => Instruction::OutputNumber,
                ',' => Instruction::OutputChar,
                'p' => Instruction::Put,
                'g' => Instruction::Get,
                '&' => Instruction::InputNumber,
                '~' => Instruction::InputChars,
                _ => Instruction::Nothing,
            }
        }
    }

    /// Whether the instruction consumes a line of input.
    pub open spec fn takes_input(self) -> bool {
        self == Instruction::InputNumber || self == Instruction::InputChars
    }

    /// Decodes a character of the program.
    pub fn decode(c: char) -> (i: Instruction)
        ensures
            i == Instruction::of_char(c),
    {
        let code: u32 = c as u32;
        if 48 <= code && code <= 57 {
            Instruction::Digit((code - 48) as u8)
        } else {
            match c {
                '>' => Instruction::GoRight,
                '<' => Instruction::GoLeft,
                '^' => Instruction::GoUp,
                'v' => Instruction::GoDown,
                '?' => Instruction::GoRandom,
                '_' => Instruction::BranchHorizontal,
                '|' => Instruction::BranchVertical,
                '#' => Instruction::Skip,
                '+' => Instruction::Add,
                '-' => Instruction::Subtract,
                '*' => Instruction::Multiply,
                '/' => Instruction::Divide,
                '%' => Instruction::Modulo,
                '!' => Instruction::Not,
                '`' => Instruction::Greater,
                ':' => Instruction::Duplicate,
                '\\' => Instruction::Swap,
                '$' => Instruction::Discard,
                '"' => Instruction::Quote,
                '@' => Instruction::End,
                '.' => Instruction::OutputNumber,
                ',' => Instruction::OutputChar,
                'p' => Instruction::Put,
                'g' => Instruction::Get,
                '&' => Instruction::InputNumber,
                '~' => Instruction::InputChars,
                _ => Instruction::Nothing,
            }
        }
    }
}

} // verus!
