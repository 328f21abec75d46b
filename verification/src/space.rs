//! Program space: sparse storage of characters by grid coordinates.

use crate::text::{char_to_byte, low_byte};
use std::collections::HashMap;
use vstd::prelude::*;

verus! {

broadcast use vstd::std_specs::hash::group_hash_axioms;

/// The character that a map of cells holds at `(x, y)`: the one written
/// there last, or the null character where nothing was written.
pub open spec fn cell_at(cells: Map<(int, int), char>, x: int, y: int) -> char {
    if cells.contains_key((x, y)) {
        cells[(x, y)]
    } else {
        '\0'
    }
}

/// The key under which the cell `(x, y)` is stored: the two coordinates,
/// each shifted into the unsigned range, side by side in one number.
pub open spec fn cell_key(x: int, y: int) -> int {
    (x + 0x8000_0000) * 0x1_0000_0000 + (y + 0x8000_0000)
}

/// Whether `v` is a coordinate that the storage can hold.
pub open spec fn is_coordinate(v: int) -> bool {
    i32::MIN <= v <= i32::MAX
}

/// Different cells have different keys.
pub proof fn lemma_cell_key_is_one_to_one(x1: int, y1: int, x2: int, y2: int)
    requires
        is_coordinate(x1),
        is_coordinate(y1),
        is_coordinate(x2),
        is_coordinate(y2),
        cell_key(x1, y1) == cell_key(x2, y2),
    ensures
        x1 == x2,
        y1 == y2,
{
}

fn key_of(x: i32, y: i32) -> (k: u64)
    ensures
        k == cell_key(x as int, y as int),
{
    let hi: u64 = (x as i64 + 0x8000_0000) as u64;
    let lo: u64 = (y as i64 + 0x8000_0000) as u64;
    hi * 0x1_0000_0000 + lo
}

/// A sparse grid of characters. It has no bounds of its own: any pair of
/// coordinates names a cell, and a cell that was never written holds the
/// null character.
#[derive(Debug)]
pub struct ProgramSpace {
    cells: HashMap<u64, char>,
}

impl View for ProgramSpace {
    type V = Map<(int, int), char>;

    /// The cells that were written, with what they hold.
    closed spec fn view(&self) -> Map<(int, int), char> {
        Map::new(
            |p: (int, int)|
                is_coordinate(p.0) && is_coordinate(p.1) && self.cells@.contains_key(
                    cell_key(p.0, p.1) as u64,
                ),
            |p: (int, int)| self.cells@[cell_key(p.0, p.1) as u64],
        )
    }
}

impl ProgramSpace {
    /// A space in which nothing is written.
    pub fn new() -> (s: ProgramSpace)
        ensures
            s@ == Map::<(int, int), char>::empty(),
    {
        let s = ProgramSpace { cells: HashMap::new() };
        assert(s@ =~= Map::<(int, int), char>::empty());
        s
    }

    /// Stores `ch` at `(x, y)`, replacing what was there.
    pub fn write(&mut self, x: i32, y: i32, ch: char)
        ensures
            final(self)@ == old(self)@.insert((x as int, y as int), ch),
    {
        let k = key_of(x, y);
        self.cells.insert(k, ch);
        proof {
            assert forall|p: (int, int)|
                is_coordinate(p.0) && is_coordinate(p.1) && p != (
                    x as int,
                    y as int,
                ) implies cell_key(p.0, p.1) as u64 != k by {
                if cell_key(p.0, p.1) as u64 == k {
                    lemma_cell_key_is_one_to_one(p.0, p.1, x as int, y as int);
                }
            }
            assert(self@ =~= old(self)@.insert((x as int, y as int), ch));
        }
    }

    /// The character at `(x, y)`.
    pub fn read(&self, x: i32, y: i32) -> (ch: char)
        ensures
            ch == cell_at(self@, x as int, y as int),
    {
        let k = key_of(x, y);
        match self.cells.get(&k) {
            Some(val) => *val,
            None => '\0',
        }
    }

    /// The character at `(x, y)` as a byte.
    pub fn read_numeric(&self, x: i32, y: i32) -> (b: u8)
        ensures
            b == low_byte(cell_at(self@, x as int, y as int)),
    {
        char_to_byte(self.read(x, y))
    }
}

/// A cell that was just written reads back as what was written, and every
/// other cell reads as it did before.
pub proof fn lemma_read_after_write(
    cells: Map<(int, int), char>,
    x: int,
    y: int,
    ch: char,
    ox: int,
    oy: int,
)
    ensures
        cell_at(cells.insert((x, y), ch), x, y) == ch,
        (ox, oy) != (x, y) ==> cell_at(cells.insert((x, y), ch), ox, oy) == cell_at(cells, ox, oy),
{
}

} // verus!
