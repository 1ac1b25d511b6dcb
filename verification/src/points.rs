use vstd::prelude::*;

use crate::direction::Direction;

verus! {

/// A cell of the grid: non-negative coordinates, x growing rightwards and
/// y growing downwards.
#[derive(Debug, Copy, Clone, Hash, Eq, PartialEq, Structural)]
pub struct Point {
    pub x: u16,
    pub y: u16,
}

/// Whether shifting `p` by `times` cells along `d` keeps both coordinates
/// inside the non-negative range of `u16`. Moving up or left must not pass
/// zero; moving down or right must not pass `u16::MAX`.
pub open spec fn translate_defined(p: Point, d: Direction, times: int) -> bool {
    match d {
        Direction::Up => times <= p.y,
        Direction::Right => p.x + times <= u16::MAX,
        Direction::Down => p.y + times <= u16::MAX,
        Direction::Left => times <= p.x,
    }
}

/// The cell `times` steps along `d` from `p`: Up decreases y, Down increases
/// y, Right increases x, Left decreases x. Meaningful where
/// `translate_defined` holds.
pub open spec fn translated(p: Point, d: Direction, times: int) -> Point {
    match d {
        Direction::Up => (Point { x: p.x, y: (p.y - times) as u16 }),
        Direction::Right => (Point { x: (p.x + times) as u16, y: p.y }),
        Direction::Down => (Point { x: p.x, y: (p.y + times) as u16 }),
        Direction::Left => (Point { x: (p.x - times) as u16, y: p.y }),
    }
}

impl Point {
    /// Builds the point (x, y).
    pub fn new(x: u16, y: u16) -> (r: Self)
        ensures
            r == (Point { x, y }),
    {
        Self { x, y }
    }

    /// Moves the point `times` cells along `direction`. The shift must stay
    /// in range: a move that would drive a coordinate negative is a logic
    /// bug and is ruled out here, as is one past `u16::MAX`.
    pub fn transform(&self, direction: Direction, times: u16) -> (r: Self)
        requires
            translate_defined(*self, direction, times as int),
        ensures
            r == translated(*self, direction, times as int),
    {
        match direction {
            Direction::Up => Self::new(self.x, self.y - times),
            Direction::Right => Self::new(self.x + times, self.y),
            Direction::Down => Self::new(self.x, self.y + times),
            Direction::Left => Self::new(self.x - times, self.y),
        }
    }

    /// Like `transform`, but reports an out-of-range shift as `None`
    /// instead of demanding that the caller rule it out.
    pub fn checked_transform(&self, direction: Direction, times: u16) -> (r: Option<Point>)
        ensures
            translate_defined(*self, direction, times as int) ==> r == Some(
                translated(*self, direction, times as int),
            ),
            !translate_defined(*self, direction, times as int) ==> r == None::<Point>,
    {
        match direction {
            Direction::Up => if times <= self.y {
                Some(Self::new(self.x, self.y - times))
            } else {
                None
            },
            Direction::Right => if times <= u16::MAX - self.x {
                Some(Self::new(self.x + times, self.y))
            } else {
                None
            },
            Direction::Down => if times <= u16::MAX - self.y {
                Some(Self::new(self.x, self.y + times))
            } else {
                None
            },
            Direction::Left => if times <= self.x {
                Some(Self::new(self.x - times, self.y))
            } else {
                None
            },
        }
    }
}

/// Law: a shift that is defined for `n` steps is defined for any shorter
/// shift along the same heading.
pub proof fn lemma_translate_defined_mono(p: Point, d: Direction, m: int, n: int)
    requires
        0 <= m <= n,
        translate_defined(p, d, n),
    ensures
        translate_defined(p, d, m),
{
}

/// Law: one more unit step along `d` extends a translation by one cell, so
/// a shift of n cells equals n unit steps taken one after another.
pub proof fn lemma_translate_step(p: Point, d: Direction, k: int)
    requires
        0 <= k,
        translate_defined(p, d, k + 1),
    ensures
        translate_defined(p, d, k),
        translate_defined(translated(p, d, k), d, 1),
        translated(translated(p, d, k), d, 1) == translated(p, d, k + 1),
{
}

/// Law: moving n cells along `d` and then n cells back along the opposite
/// heading returns the starting point, whenever the outward shift stays in
/// range (the way back then does too).
pub proof fn lemma_translate_round_trip(p: Point, d: Direction, n: int)
    requires
        0 <= n,
        translate_defined(p, d, n),
    ensures
        translate_defined(translated(p, d, n), d.spec_opposite(), n),
        translated(translated(p, d, n), d.spec_opposite(), n) == p,
{
}

/// `p` moved along `d` one cell at a time, `n` times over.
pub open spec fn translated_steps(p: Point, d: Direction, n: nat) -> Point
    decreases n,
{
    if n == 0 {
        p
    } else {
        translated(translated_steps(p, d, (n - 1) as nat), d, 1)
    }
}

/// Law: n unit steps along `d` amount to one shift of n cells, whenever
/// that shift stays in range.
pub proof fn lemma_steps_equal_shift(p: Point, d: Direction, n: nat)
    requires
        translate_defined(p, d, n as int),
    ensures
        translated_steps(p, d, n) == translated(p, d, n as int),
    decreases n,
{
    if n > 0 {
        lemma_translate_defined_mono(p, d, n - 1, n as int);
        lemma_steps_equal_shift(p, d, (n - 1) as nat);
        lemma_translate_step(p, d, n - 1);
    }
}

/// Law: n unit steps along `d` followed by n unit steps back along the
/// opposite heading return the starting point, whenever the outward shift
/// stays in range (no intermediate step goes out of range either way).
pub proof fn lemma_steps_round_trip(p: Point, d: Direction, n: nat)
    requires
        translate_defined(p, d, n as int),
    ensures
        translated_steps(translated_steps(p, d, n), d.spec_opposite(), n) == p,
{
    lemma_steps_equal_shift(p, d, n);
    lemma_translate_round_trip(p, d, n as int);
    lemma_steps_equal_shift(translated(p, d, n as int), d.spec_opposite(), n);
}

/// Law: a shift whose magnitude exceeds the coordinate it decreases is
/// never defined: moving up past y == 0 or left past x == 0 has no result.
pub proof fn lemma_translate_negative_rejected(p: Point, d: Direction, n: int)
    requires
        (d == Direction::Up && n > p.y) || (d == Direction::Left && n > p.x),
    ensures
        !translate_defined(p, d, n),
{
}

} // verus!
