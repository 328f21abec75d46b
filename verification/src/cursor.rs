//! The movement model: a position on a grid whose edges wrap around.

use vstd::prelude::*;

verus! {

/// A pair of grid coordinates. Columns grow to the right, rows downwards.
#[derive(Clone, Copy, Debug, PartialEq, Eq)]
pub struct Position {
    pub x: i32,
    pub y: i32,
}

/// Where a coordinate comes to rest on an axis of length `bound`: at `0`
/// when it has run past the far edge, at `bound - 1` when it has run below
/// zero, and where it is otherwise.
pub open spec fn wrap(v: int, bound: int) -> int {
    if v >= bound {
        0
    } else if v < 0 {
        bound - 1
    } else {
        v
    }
}

/// On an axis with at least one cell, wrapping always lands on a cell of
/// the axis.
pub proof fn lemma_wrap_in_bounds(v: int, bound: int)
    requires
        bound > 0,
    ensures
        0 <= wrap(v, bound) < bound,
{
}

/// Wrapping a coordinate that was wrapped already changes nothing.
pub proof fn lemma_wrap_settles(v: int, bound: int)
    ensures
        wrap(wrap(v, bound), bound) == wrap(v, bound),
{
}

/// A position together with the bounds of the grid it moves on.
///
/// The position is always one that wrapping leaves alone. On a grid with
/// positive width and height this means that it lies on the grid.
#[derive(Debug)]
pub struct Cursor {
    x: i32,
    y: i32,
    width: i32,
    height: i32,
}

impl Cursor {
    #[verifier::type_invariant]
    spec fn settled(self) -> bool {
        &&& wrap(self.x as int, self.width as int) == self.x
        &&& wrap(self.y as int, self.height as int) == self.y
    }

    /// The column.
    pub closed spec fn col(&self) -> int {
        self.x as int
    }

    /// The row.
    pub closed spec fn row(&self) -> int {
        self.y as int
    }

    /// The width of the grid.
    pub closed spec fn cols(&self) -> int {
        self.width as int
    }

    /// The height of the grid.
    pub closed spec fn rows(&self) -> int {
        self.height as int
    }

    /// A cursor at `(0, 0)` on a grid of the given bounds.
    pub fn new(width: i32, height: i32) -> (c: Cursor)
        ensures
            c.col() == 0,
            c.row() == 0,
            c.cols() == width,
            c.rows() == height,
    {
        Cursor { x: 0, y: 0, width, height }
    }

    /// The current position.
    pub fn position(&self) -> (p: Position)
        ensures
            p.x == self.col(),
            p.y == self.row(),
    {
        Position { x: self.x, y: self.y }
    }

    /// The width of the grid.
    pub fn width(&self) -> (w: i32)
        ensures
            w == self.cols(),
    {
        self.width
    }

    /// The height of the grid.
    pub fn height(&self) -> (h: i32)
        ensures
            h == self.rows(),
    {
        self.height
    }

    /// Adds `(dx, dy)` to the position and wraps each axis on its own.
    pub fn move_by(&mut self, dx: i32, dy: i32)
        ensures
            final(self).col() == wrap(old(self).col() + dx, old(self).cols()),
            final(self).row() == wrap(old(self).row() + dy, old(self).rows()),
            final(self).cols() == old(self).cols(),
            final(self).rows() == old(self).rows(),
            final(self).cols() > 0 ==> 0 <= final(self).col() < final(self).cols(),
            final(self).rows() > 0 ==> 0 <= final(self).row() < final(self).rows(),
    {
        proof {
            use_type_invariant(&*self);
        }
        let nx = wrap_coordinate(self.x, dx, self.width);
        let ny = wrap_coordinate(self.y, dy, self.height);
        self.x = nx;
        self.y = ny;
    }
}

/// Adds `delta` to a coordinate that rests on an axis of length `bound`
/// and wraps the sum.
fn wrap_coordinate(at: i32, delta: i32, bound: i32) -> (r: i32)
    requires
        wrap(at as int, bound as int) == at,
    ensures
        r == wrap(at + delta, bound as int),
{
    let v: i64 = at as i64 + delta as i64;
    if v >= bound as i64 {
        0
    } else if v < 0 {
        bound - 1
    } else {
        v as i32
    }
}

} // verus!
