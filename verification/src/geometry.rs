//! Value types for the grid: a cell position and a cardinal heading,
//! with one step of toroidal (wrap-around) movement.

use vstd::prelude::*;

verus! {

/// A cell of the grid, with coordinates in `[0, width)` x `[0, height)`.
#[derive(Clone, Copy, PartialEq, Eq, Structural, Debug, Hash)]
pub struct Vector2D {
    pub x: u16,
    pub y: u16,
}

/// One of the four cardinal headings; no diagonals exist.
#[derive(Clone, Copy, PartialEq, Eq, Structural, Debug)]
pub enum Direction {
    North,
    East,
    South,
    West,
}

impl Vector2D {
    /// Whether the cell lies on a `width` x `height` grid.
    pub open spec fn in_bounds(self, width: u16, height: u16) -> bool {
        self.x < width && self.y < height
    }
}

impl Direction {
    /// Whether `self` and `other` point in exactly opposite directions.
    pub open spec fn spec_is_opposite(self, other: Direction) -> bool {
        ||| (self is North && other is South)
        ||| (self is South && other is North)
        ||| (self is East && other is West)
        ||| (self is West && other is East)
    }

    /// Decides whether `other` is the reverse of `self`; this is what
    /// forbids steering the actor straight into its own neck.
    pub fn is_opposite(self, other: Direction) -> (r: bool)
        ensures
            r == self.spec_is_opposite(other),
    {
        match (self, other) {
            (Direction::North, Direction::South) => true,
            (Direction::South, Direction::North) => true,
            (Direction::East, Direction::West) => true,
            (Direction::West, Direction::East) => true,
            _ => false,
        }
    }
}

/// The cell one step along `heading` from `from`, wrapping modulo the
/// bounds on every axis: leaving an edge re-enters on the opposite edge.
pub open spec fn step(from: Vector2D, heading: Direction, width: u16, height: u16) -> Vector2D
    recommends
        width > 0,
        height > 0,
{
    match heading {
        Direction::North => (Vector2D {
            x: from.x,
            y: if from.y == 0 {
                (height - 1) as u16
            } else {
                (from.y - 1) as u16
            },
        }),
        Direction::East => (Vector2D { x: ((from.x + 1) % (width as int)) as u16, y: from.y }),
        Direction::South => (Vector2D { x: from.x, y: ((from.y + 1) % (height as int)) as u16 }),
        Direction::West => (Vector2D {
            x: if from.x == 0 {
                (width - 1) as u16
            } else {
                (from.x - 1) as u16
            },
            y: from.y,
        }),
    }
}

/// Moves one cell along `heading`, wrapping at the grid's edges.
pub fn advance_position(from: Vector2D, heading: Direction, width: u16, height: u16) -> (r:
    Vector2D)
    requires
        width > 0,
        height > 0,
        from.in_bounds(width, height),
    ensures
        r == step(from, heading, width, height),
        r.in_bounds(width, height),
{
    match heading {
        Direction::North => {
            if from.y == 0 {
                Vector2D { x: from.x, y: height - 1 }
            } else {
                Vector2D { x: from.x, y: from.y - 1 }
            }
        },
        Direction::East => Vector2D { x: (from.x + 1) % width, y: from.y },
        Direction::South => Vector2D { x: from.x, y: (from.y + 1) % height },
        Direction::West => {
            if from.x == 0 {
                Vector2D { x: width - 1, y: from.y }
            } else {
                Vector2D { x: from.x - 1, y: from.y }
            }
        },
    }
}

/// The grid is a torus: a step off any edge lands on the opposite edge,
/// and a step from anywhere stays on the grid.
pub proof fn lemma_toroidal_wrap(x: u16, y: u16, width: u16, height: u16)
    requires
        x < width,
        y < height,
    ensures
        step((Vector2D { x, y: 0 }), Direction::North, width, height) == (Vector2D {
            x,
            y: (height - 1) as u16,
        }),
        step((Vector2D { x: (width - 1) as u16, y }), Direction::East, width, height) == (Vector2D {
            x: 0,
            y,
        }),
        step((Vector2D { x, y: (height - 1) as u16 }), Direction::South, width, height)
            == (Vector2D { x, y: 0 }),
        step((Vector2D { x: 0, y }), Direction::West, width, height) == (Vector2D {
            x: (width - 1) as u16,
            y,
        }),
        step((Vector2D { x, y }), Direction::North, width, height).in_bounds(width, height),
        step((Vector2D { x, y }), Direction::East, width, height).in_bounds(width, height),
        step((Vector2D { x, y }), Direction::South, width, height).in_bounds(width, height),
        step((Vector2D { x, y }), Direction::West, width, height).in_bounds(width, height),
{
    assert((width as int) % (width as int) == 0) by (nonlinear_arith)
        requires
            width > 0,
    ;
    assert((height as int) % (height as int) == 0) by (nonlinear_arith)
        requires
            height > 0,
    ;
    assert((x + 1) % (width as int) < width) by (nonlinear_arith)
        requires
            width > 0,
    ;
    assert((y + 1) % (height as int) < height) by (nonlinear_arith)
        requires
            height > 0,
    ;
}

} // verus!
