use vstd::prelude::*;

use crate::direction::Direction;
use crate::points::{lemma_translate_defined_mono, lemma_translate_step, translate_defined,
    translated, Point};

verus! {

/// The mathematical content of a snake: the body cells head first, the
/// heading, and whether a growth is pending from eaten food.
pub struct SnakeModel {
    pub body: Seq<Point>,
    pub direction: Direction,
    pub digesting: bool,
}

impl SnakeModel {
    /// A snake always has at least its head.
    pub open spec fn wf(self) -> bool {
        self.body.len() >= 1
    }

    /// The head cell: the first of the body.
    pub open spec fn head(self) -> Point {
        self.body[0]
    }
}

/// The body `Snake::new` lays out: cell i sits i steps behind `start`,
/// along the opposite of the heading, so the tail trails the direction of
/// travel.
pub open spec fn initial_body(start: Point, length: int, direction: Direction) -> Seq<Point> {
    Seq::new(length as nat, |i: int| translated(start, direction.spec_opposite(), i))
}

/// One advance of a snake: a new head one cell along the heading is put in
/// front; the tail cell is kept when a growth was pending and dropped
/// otherwise; a pending growth is consumed either way.
pub open spec fn slither_model(m: SnakeModel) -> SnakeModel {
    SnakeModel {
        body: seq![translated(m.head(), m.direction, 1)] + (if m.digesting {
            m.body
        } else {
            m.body.drop_last()
        }),
        direction: m.direction,
        digesting: false,
    }
}

/// Marking for growth: only the pending flag changes.
pub open spec fn grow_model(m: SnakeModel) -> SnakeModel {
    SnakeModel { body: m.body, direction: m.direction, digesting: true }
}

/// The player's snake: an ordered list of body cells (head first), the
/// current heading, and a one-shot pending-growth flag.
#[derive(Debug)]
pub struct Snake {
    body: Vec<Point>,
    direction: Direction,
    digesting: bool,
}

impl View for Snake {
    type V = SnakeModel;

    closed spec fn view(&self) -> SnakeModel {
        SnakeModel { body: self.body@, direction: self.direction, digesting: self.digesting }
    }
}

impl Snake {
    /// Builds a snake of `length` cells whose head is `start`, laid out
    /// behind the head along the opposite of `direction`. The whole body
    /// must fit in the non-negative coordinate range.
    pub fn new(start: Point, length: u16, direction: Direction) -> (r: Snake)
        requires
            length >= 1,
            translate_defined(start, direction.spec_opposite(), length - 1),
        ensures
            r@.body == initial_body(start, length as int, direction),
            r@.body.len() == length,
            r@.head() == start,
            r@.direction == direction,
            !r@.digesting,
            r@.wf(),
    {
        let opposite = direction.opposite();
        let mut body: Vec<Point> = Vec::new();
        let mut i: u16 = 0;
        while i < length
            invariant
                i <= length,
                length >= 1,
                translate_defined(start, direction.spec_opposite(), length - 1),
                opposite == direction.spec_opposite(),
                body@.len() == i,
                forall|j: int| 0 <= j < i ==> body@[j] == translated(
                    start,
                    direction.spec_opposite(),
                    j,
                ),
            decreases length - i,
        {
            proof {
                lemma_translate_defined_mono(start, direction.spec_opposite(), i as int,
                    length - 1);
            }
            body.push(start.transform(opposite, i));
            i = i + 1;
        }
        proof {
            assert(body@ =~= initial_body(start, length as int, direction));
            assert(translated(start, direction.spec_opposite(), 0) == start);
        }
        Snake { body, direction, digesting: false }
    }

    /// The cell the head occupies.
    pub fn get_head_point(&self) -> (r: Point)
        requires
            self@.wf(),
        ensures
            r == self@.head(),
    {
        self.body[0]
    }

    /// A snapshot of the body, head first; the caller owns the copy.
    pub fn get_body_points(&self) -> (r: Vec<Point>)
        ensures
            r@ == self@.body,
    {
        let mut r: Vec<Point> = Vec::new();
        let mut i: usize = 0;
        while i < self.body.len()
            invariant
                i <= self.body@.len(),
                r@ == self.body@.subrange(0, i as int),
            decreases self.body@.len() - i,
        {
            r.push(self.body[i]);
            proof {
                assert(r@ =~= self.body@.subrange(0, i + 1));
            }
            i = i + 1;
        }
        proof {
            assert(r@ =~= self.body@);
        }
        r
    }

    /// The heading the snake currently travels along.
    pub fn get_direction(&self) -> (r: Direction)
        ensures
            r == self@.direction,
    {
        self.direction
    }

    /// Whether some body cell is exactly `point`.
    pub fn contains_point(&self, point: &Point) -> (r: bool)
        ensures
            r == self@.body.contains(*point),
    {
        let mut i: usize = 0;
        while i < self.body.len()
            invariant
                i <= self.body@.len(),
                forall|j: int| 0 <= j < i ==> self.body@[j] != *point,
            decreases self.body@.len() - i,
        {
            if self.body[i].x == point.x && self.body[i].y == point.y {
                return true;
            }
            i = i + 1;
        }
        false
    }

    /// Advances the snake one cell along its heading: the new head is put
    /// in front, and the tail is dropped unless a growth was pending. The
    /// new head must stay in the coordinate range; the game checks walls
    /// before it advances, which keeps this in bounds.
    pub fn slither(&mut self)
        requires
            old(self)@.wf(),
            translate_defined(old(self)@.head(), old(self)@.direction, 1),
        ensures
            final(self)@ == slither_model(old(self)@),
            final(self)@.wf(),
    {
        let new_head = self.body[0].transform(self.direction, 1);
        self.body.insert(0, new_head);

        if !self.digesting {
            self.body.remove(self.body.len() - 1);
            proof {
                assert(self@.body =~= seq![translated(old(self)@.head(), old(self)@.direction, 1)]
                    + old(self)@.body.drop_last());
            }
        } else {
            self.digesting = false;
            proof {
                assert(self@.body =~= seq![translated(old(self)@.head(), old(self)@.direction, 1)]
                    + old(self)@.body);
            }
        }
    }

    /// Overwrites the heading. Rejecting an illegal reversal is the game's
    /// concern, settled before this is called.
    pub fn set_direction(&mut self, direction: Direction)
        ensures
            final(self)@ == (SnakeModel {
                body: old(self)@.body,
                direction,
                digesting: old(self)@.digesting,
            }),
    {
        self.direction = direction;
    }

    /// Marks the snake to keep its tail on the next advance. Idempotent;
    /// consumed by the next `slither`.
    pub fn grow(&mut self)
        ensures
            final(self)@ == grow_model(old(self)@),
    {
        self.digesting = true;
    }
}

/// Whether `b` lies exactly one cell from `a`, along some heading.
pub open spec fn adjacent(a: Point, b: Point) -> bool {
    exists|d: Direction| translate_defined(a, d, 1) && b == #[trigger] translated(a, d, 1)
}

/// Whether consecutive body cells touch: each cell after the first lies
/// exactly one cell from its predecessor.
pub open spec fn contiguous(body: Seq<Point>) -> bool {
    forall|i: int| 0 <= i < body.len() - 1 ==> adjacent(#[trigger] body[i], body[i + 1])
}

/// Law: a freshly laid-out body has the requested length, starts at the
/// head cell, and each consecutive pair of cells is exactly one step apart
/// along the opposite of the heading.
pub proof fn lemma_new_body_contiguous(start: Point, length: int, direction: Direction)
    requires
        1 <= length,
        translate_defined(start, direction.spec_opposite(), length - 1),
    ensures
        initial_body(start, length, direction).len() == length,
        initial_body(start, length, direction)[0] == start,
        forall|i: int| 0 <= i < length - 1 ==> initial_body(start, length, direction)[i + 1]
            == translated(initial_body(start, length, direction)[i], direction.spec_opposite(), 1),
{
    assert(translated(start, direction.spec_opposite(), 0) == start);
    assert forall|i: int| 0 <= i < length - 1 implies initial_body(start, length, direction)[i + 1]
        == translated(initial_body(start, length, direction)[i], direction.spec_opposite(), 1) by {
        lemma_translate_defined_mono(start, direction.spec_opposite(), i + 1, length - 1);
        lemma_translate_step(start, direction.spec_opposite(), i);
    }
}

/// Law: a freshly laid-out body is contiguous.
pub proof fn lemma_new_body_is_contiguous(start: Point, length: int, direction: Direction)
    requires
        1 <= length,
        translate_defined(start, direction.spec_opposite(), length - 1),
    ensures
        contiguous(initial_body(start, length, direction)),
{
    lemma_new_body_contiguous(start, length, direction);
    let body = initial_body(start, length, direction);
    assert forall|i: int| 0 <= i < body.len() - 1 implies adjacent(#[trigger] body[i], body[i + 1]) by {
        assert(translate_defined(body[i], direction.spec_opposite(), 1) && body[i + 1] == translated(
            body[i],
            direction.spec_opposite(),
            1,
        ));
    }
}

/// Law: an advance keeps the body contiguous: the old head lies one step
/// back from the new head, and every older pair of cells stays as it was.
pub proof fn lemma_slither_preserves_contiguity(m: SnakeModel)
    requires
        m.wf(),
        contiguous(m.body),
        translate_defined(m.head(), m.direction, 1),
    ensures
        contiguous(slither_model(m).body),
{
    let nb = slither_model(m).body;
    let back = m.direction.spec_opposite();
    crate::points::lemma_translate_round_trip(m.head(), m.direction, 1);
    assert forall|i: int| 0 <= i < nb.len() - 1 implies adjacent(#[trigger] nb[i], nb[i + 1]) by {
        if i == 0 {
            assert(translate_defined(nb[0], back, 1) && nb[1] == translated(nb[0], back, 1));
        } else {
            assert(nb[i] == m.body[i - 1] && nb[i + 1] == m.body[i]);
            assert(adjacent(m.body[i - 1], m.body[i]));
        }
    }
}

/// Law: an advance without a pending growth keeps the length, moves the
/// head one cell along the heading, and removes the old tail cell, so the
/// new body is the new head followed by all old cells but the last.
pub proof fn lemma_slither_keeps_length(m: SnakeModel)
    requires
        m.wf(),
        !m.digesting,
    ensures
        slither_model(m).body.len() == m.body.len(),
        slither_model(m).head() == translated(m.head(), m.direction, 1),
        slither_model(m).body == seq![translated(m.head(), m.direction, 1)] + m.body.drop_last(),
        !slither_model(m).digesting,
{
}

/// Law: marking for growth and then advancing once grows the body by
/// exactly one cell, keeps the old tail cell in place, and consumes the
/// pending flag, so a second advance without re-marking drops a cell again.
pub proof fn lemma_grow_then_slither(m: SnakeModel)
    requires
        m.wf(),
    ensures
        slither_model(grow_model(m)).body.len() == m.body.len() + 1,
        slither_model(grow_model(m)).body.last() == m.body.last(),
        slither_model(grow_model(m)).head() == translated(m.head(), m.direction, 1),
        !slither_model(grow_model(m)).digesting,
        slither_model(slither_model(grow_model(m))).body.len() == m.body.len() + 1,
{
    assert(slither_model(grow_model(m)).body.last() == m.body.last());
}

} // verus!
