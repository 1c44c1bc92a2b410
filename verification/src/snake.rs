//! The snake: an ordered body of cells, head first, and a heading.

use vstd::prelude::*;
use crate::direction::Direction;
use crate::point::Point;

verus! {

/// Whether the segments at `i` and `i + 1` of `body` share an edge.
pub open spec fn linked(body: Seq<Point>, i: int) -> bool {
    body[i].touches(body[i + 1])
}

/// Whether every segment of `body` shares an edge with the one behind it.
pub open spec fn connected(body: Seq<Point>) -> bool {
    forall|i: int| 0 <= i < body.len() - 1 ==> #[trigger] linked(body, i)
}

/// The body of `length` cells that starts at `head` and runs in a straight
/// line away from `heading`.
pub open spec fn straight(head: Point, length: nat, heading: Direction) -> Seq<Point> {
    Seq::new(length, |i: int| head.translated(heading.opposite(), i))
}

/// The body after one step ahead that keeps the tail: the new head in front
/// of every old segment.
pub open spec fn grown(body: Seq<Point>, heading: Direction) -> Seq<Point> {
    seq![body[0].translated(heading, 1)] + body
}

/// The body after one step ahead that gives up the tail.
pub open spec fn slithered(body: Seq<Point>, heading: Direction) -> Seq<Point> {
    seq![body[0].translated(heading, 1)] + body.drop_last()
}

/// A snake. Its view is the body, head first and tail last.
#[derive(Debug)]
pub struct Snake {
    body: Vec<Point>,
    direction: Direction,
}

impl View for Snake {
    type V = Seq<Point>;

    closed spec fn view(&self) -> Seq<Point> {
        self.body@
    }
}

impl Snake {
    /// The direction in which the next step goes.
    pub closed spec fn heading(&self) -> Direction {
        self.direction
    }

    /// The body is never empty, and each segment shares an edge with the
    /// next.
    pub open spec fn wf(&self) -> bool {
        &&& self@.len() >= 1
        &&& connected(self@)
    }

    /// Whether the cell ahead of the head has coordinates that a `Point` can
    /// hold, so that the snake can step onto it.
    pub open spec fn can_step(&self) -> bool {
        self@[0].can_translate(self.heading(), 1)
    }

    /// A body is held in memory, so its length is one that `usize` can hold.
    pub proof fn length_is_bounded(&self)
        ensures
            self@.len() <= usize::MAX,
    {
        assert(self.body@.len() == self.body.len());
    }

    /// Builds a straight snake of `length` cells whose head is `initial_head`
    /// and whose body trails away from `initial_heading`, as if it had been
    /// moving that way. Whether the cells lie on a board is left to the
    /// caller.
    pub fn new(initial_head: Point, length: u16, initial_heading: Direction) -> (snake: Snake)
        requires
            length >= 1,
            initial_head.can_translate(initial_heading.opposite(), length - 1),
        ensures
            snake.wf(),
            snake@ == straight(initial_head, length as nat, initial_heading),
            snake.heading() == initial_heading,
    {
        let backwards = initial_heading.opposite();
        let mut body: Vec<Point> = Vec::new();
        let mut i: u16 = 0;
        while i < length
            invariant
                i <= length,
                backwards == initial_heading.opposite(),
                initial_head.can_translate(backwards, length - 1),
                body@ == straight(initial_head, i as nat, initial_heading),
            decreases length - i,
        {
            body.push(initial_head.translate(backwards, i));
            i += 1;
        }
        proof {
            assert forall|k: int| 0 <= k < body@.len() - 1 implies #[trigger] linked(body@, k) by {
                assert(initial_head.can_translate(backwards, k));
                assert(initial_head.can_translate(backwards, k + 1));
            }
        }
        Snake { body, direction: initial_heading }
    }

    /// Returns the heading.
    pub fn direction(&self) -> (heading: Direction)
        ensures
            heading == self.heading(),
    {
        self.direction
    }

    /// Overwrites the heading with `direction`, whatever it is. A caller that
    /// wants no reversal has to refuse it beforehand.
    pub fn set_direction(&mut self, direction: Direction)
        ensures
            final(self).heading() == direction,
            final(self)@ == old(self)@,
    {
        self.direction = direction;
    }

    /// Returns the head.
    pub fn head_point(&self) -> (head: Point)
        requires
            self.wf(),
        ensures
            head == self@[0],
    {
        self.body[0]
    }

    /// Returns the body, head first.
    pub fn body_points(&self) -> (body: &Vec<Point>)
        ensures
            body@ == self@,
    {
        &self.body
    }

    /// Tells whether some segment lies on `point`.
    pub fn contains_point(&self, point: &Point) -> (found: bool)
        ensures
            found == self@.contains(*point),
    {
        let mut i: usize = 0;
        while i < self.body.len()
            invariant
                i <= self.body@.len(),
                forall|k: int| 0 <= k < i ==> self.body@[k] != *point,
            decreases self.body@.len() - i,
        {
            if self.body[i] == *point {
                return true;
            }
            i += 1;
        }
        false
    }

    /// Moves one cell ahead: the new head is the cell in front of the old
    /// one, and the tail cell is given up. The length stays.
    pub fn slither(&mut self)
        requires
            old(self).wf(),
            old(self).can_step(),
        ensures
            final(self).wf(),
            final(self)@ == slithered(old(self)@, old(self).heading()),
            final(self)@.len() == old(self)@.len(),
            final(self)@[0] == old(self)@[0].translated(old(self).heading(), 1),
            final(self).heading() == old(self).heading(),
    {
        let next = self.body[0].translate(self.direction, 1);
        self.body.insert(0, next);
        self.body.pop();
        proof {
            let before = old(self)@;
            assert(self.body@ =~= slithered(before, self.direction));
            assert forall|k: int| 0 <= k < self.body@.len() - 1 implies #[trigger] linked(
                self.body@,
                k,
            ) by {
                if k > 0 {
                    assert(linked(before, k - 1));
                }
            }
        }
    }

    /// Moves one cell ahead and keeps the tail: the new head is the cell in
    /// front of the old one, and every old segment follows it in its old
    /// order. The length rises by one.
    pub fn grow(&mut self)
        requires
            old(self).wf(),
            old(self).can_step(),
        ensures
            final(self).wf(),
            final(self)@ == grown(old(self)@, old(self).heading()),
            final(self)@.len() == old(self)@.len() + 1,
            final(self)@[0] == old(self)@[0].translated(old(self).heading(), 1),
            final(self)@.subrange(1, final(self)@.len() as int) == old(self)@,
            final(self).heading() == old(self).heading(),
    {
        let next = self.body[0].translate(self.direction, 1);
        self.body.insert(0, next);
        proof {
            let before = old(self)@;
            assert(self.body@ =~= grown(before, self.direction));
            assert(self.body@.subrange(1, self.body@.len() as int) =~= before);
            assert forall|k: int| 0 <= k < self.body@.len() - 1 implies #[trigger] linked(
                self.body@,
                k,
            ) by {
                if k > 0 {
                    assert(linked(before, k - 1));
                }
            }
        }
    }
}

} // verus!
