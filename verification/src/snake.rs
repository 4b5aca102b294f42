//! The actor: a current head position, a heading, a body size, and the
//! occupancy tracker of the cells its body covers. Its per-tick contract
//! records the old head, steps one cell with toroidal wrap, and detects
//! self-collision against the tracker.

use vstd::prelude::*;
use crate::geometry::Direction;
use crate::geometry::Vector2D;
use crate::geometry::advance_position;
use crate::geometry::step;
use crate::history::History;
use crate::history::eviction_of_push;
use crate::history::index_after_push;
use crate::history::order_after_push;

verus! {

/// The growing actor of the game.
#[derive(Debug)]
pub struct Snake {
    /// How many cells the body should occupy; starts at 1, only grows.
    pub size: u16,
    /// The head's current cell.
    pub position: Vector2D,
    /// The current heading.
    pub direction: Direction,
    /// The occupancy tracker of the body's cells.
    pub history: History,
}

/// What one tick of movement came to.
#[derive(Debug, Clone, Copy, PartialEq, Eq)]
pub enum AdvanceOutcome {
    /// The head moved onto a free cell; `evicted` is the trailing cell
    /// that slid out of the body's window, if any, for the display to
    /// erase.
    Moved { evicted: Option<Vector2D> },
    /// The head landed on a cell its own body occupies; the head is
    /// left frozen on the fatal cell and the game is over.
    Collision,
}

impl Snake {
    /// The actor's invariant: a positive size whose tracker window is
    /// kept exactly as large as the body.
    pub open spec fn well_formed(self) -> bool {
        &&& self.size >= 1
        &&& self.history.well_formed()
        &&& self.history.capacity() == self.size as nat
    }

    /// Grows the body by one cell: the size rises and the tracker's
    /// window widens to match, before the next push could have evicted.
    pub fn grow(&mut self)
        requires
            old(self).well_formed(),
            old(self).size < 0xFFFFu16,
        ensures
            final(self).well_formed(),
            final(self).size == old(self).size + 1,
            final(self).position == old(self).position,
            final(self).direction == old(self).direction,
            final(self).history.order() == old(self).history.order(),
            final(self).history.index() == old(self).history.index(),
            final(self).history.capacity() == old(self).size + 1,
    {
        self.size = self.size + 1;
        self.history.increase_capacity(self.size as usize);
    }

    /// One tick of movement: the old head is pushed into the tracker
    /// first (possibly evicting the trailing cell), then the head steps
    /// one cell along the heading with toroidal wrap, and the new head
    /// is tested against the tracker as it stands after that push. On a
    /// hit the outcome is `Collision` and the head stays frozen on the
    /// fatal cell; otherwise the move is committed and the evicted
    /// trailing cell, if any, is handed back.
    pub fn advance(&mut self, width: u16, height: u16) -> (outcome: AdvanceOutcome)
        requires
            old(self).well_formed(),
            width > 0,
            height > 0,
            old(self).position.in_bounds(width, height),
        ensures
            final(self).well_formed(),
            final(self).size == old(self).size,
            final(self).direction == old(self).direction,
            final(self).history.capacity() == old(self).history.capacity(),
            final(self).history.order() == order_after_push(
                old(self).history.order(),
                old(self).history.capacity(),
                old(self).position,
            ),
            final(self).history.index() == index_after_push(
                old(self).history.index(),
                old(self).history.order(),
                old(self).history.capacity(),
                old(self).position,
            ),
            final(self).position == step(old(self).position, old(self).direction, width, height),
            final(self).position.in_bounds(width, height),
            outcome == (if final(self).history.index().contains(
                step(old(self).position, old(self).direction, width, height),
            ) {
                AdvanceOutcome::Collision
            } else {
                (AdvanceOutcome::Moved {
                    evicted: eviction_of_push(old(self).history.order(), old(self).history.capacity()),
                })
            }),
    {
        let evicted = self.history.push(self.position);
        self.position = advance_position(self.position, self.direction, width, height);
        if self.history.contains(&self.position) {
            AdvanceOutcome::Collision
        } else {
            AdvanceOutcome::Moved { evicted }
        }
    }
}

impl Default for Snake {
    /// A newborn actor: one cell at the grid's origin, heading East,
    /// with a fresh tracker of capacity one.
    fn default() -> (s: Snake)
        ensures
            s.well_formed(),
            s.size == 1,
            s.position == (Vector2D { x: 0, y: 0 }),
            s.direction == Direction::East,
            s.history.order() == Seq::<Vector2D>::empty(),
            s.history.index() == Set::<Vector2D>::empty(),
            s.history.capacity() == 1,
    {
        Snake {
            size: 1,
            position: Vector2D { x: 0, y: 0 },
            direction: Direction::East,
            history: History::new(1),
        }
    }
}

} // verus!
