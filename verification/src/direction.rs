//! The four headings of the instruction pointer.

use rand::Rng;
use vstd::prelude::*;

verus! {

/// The heading of the instruction pointer. Changing it affects only
/// future movement.
#[derive(Clone, Copy, Debug, PartialEq, Eq)]
pub enum Direction {
    Down,
    Up,
    Left,
    Right,
}

impl Direction {
    /// The change of the column made by one cell of movement.
    pub open spec fn dx(self) -> int {
        match self {
            Direction::Right => 1,
            Direction::Left => -1,
            Direction::Down => 0,
            Direction::Up => 0,
        }
    }

    /// The change of the row made by one cell of movement. Rows grow
    /// downwards.
    pub open spec fn dy(self) -> int {
        match self {
            Direction::Right => 0,
            Direction::Left => 0,
            Direction::Down => 1,
            Direction::Up => -1,
        }
    }

    /// The heading that a drawn number selects.
    pub open spec fn of_choice(n: int) -> Direction {
        if n == 0 {
            Direction::Right
        } else if n == 1 {
            Direction::Left
        } else if n == 2 {
            Direction::Up
        } else {
            Direction::Down
        }
    }

    /// Maps a drawn number to a heading: `0` is right, `1` is left, `2` is
    /// up, and every other number is down.
    pub fn from_choice(n: i32) -> (d: Direction)
        ensures
            d == Direction::of_choice(n as int),
    {
        match n {
            0 => Direction::Right,
            1 => Direction::Left,
            2 => Direction::Up,
            _ => Direction::Down,
        }
    }

    /// Picks one of the four headings at random.
    ///
    /// The number is drawn from `0..4`; which one comes back is up to the
    /// generator, so the contract only says that the heading is the one
    /// that some number of that range selects.
    pub fn random() -> (d: Direction)
        ensures
            exists|n: int| 0 <= n < 4 && d == Direction::of_choice(n),
    {
        let n = random_in_range(0, 4);
        Direction::from_choice(n)
    }
}

/// Each heading is selected by exactly one number of `0..4`, so a uniform
/// draw from that range selects each heading with the same probability.
pub proof fn lemma_choice_is_one_to_one(d: Direction)
    ensures
        exists|n: int| 0 <= n < 4 && Direction::of_choice(n) == d,
        forall|n: int, m: int|
            0 <= n < 4 && 0 <= m < 4 && Direction::of_choice(n) == d && Direction::of_choice(m)
                == d ==> n == m,
{
    match d {
        Direction::Right => assert(Direction::of_choice(0) == d),
        Direction::Left => assert(Direction::of_choice(1) == d),
        Direction::Up => assert(Direction::of_choice(2) == d),
        Direction::Down => assert(Direction::of_choice(3) == d),
    }
}

/// Calls `rand::Rng::gen_range` on the generator that `rand::thread_rng`
/// returns.
///
/// Trusted: the number that comes back is at least `low` and less than
/// `high`. The call panics unless `low < high`, hence the precondition.
/// Nothing is claimed about which number of the range is drawn. The
/// generator seeds itself from the operating system on first use and
/// panics if that fails; no argument decides this.
#[verifier::external_body]
fn random_in_range(low: i32, high: i32) -> (n: i32)
    requires
        low < high,
    ensures
        low <= n < high,
{
    rand::thread_rng().gen_range(low, high)
}

} // verus!
