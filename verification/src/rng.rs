//! The random source collaborator: uniform sampling of an in-bounds
//! grid cell, used for initial and post-consumption food placement.

use vstd::prelude::*;
use crate::geometry::Vector2D;

verus! {

/// Relies on rand's thread-local generator and `RngExt::random_range`:
/// a uniform value in `0..bound`, which panics only on an empty range,
/// ruled out here by `bound > 0`.
#[verifier::external_body]
fn sample_below(bound: u16) -> (r: u16)
    requires
        bound > 0,
    ensures
        r < bound,
{
    rand::RngExt::random_range(&mut rand::rng(), 0..bound)
}

/// A uniformly random cell of the `width` x `height` grid.
pub fn random_position(width: u16, height: u16) -> (p: Vector2D)
    requires
        width > 0,
        height > 0,
    ensures
        p.in_bounds(width, height),
{
    Vector2D { x: sample_below(width), y: sample_below(height) }
}

} // verus!
