//! The bounded occupancy tracker: a sliding window over the cells the
//! actor's body occupies. It pairs an ordered buffer (oldest cell first,
//! so the display knows what to erase) with a membership index (so
//! self-collision is an O(1) lookup), and keeps the two in lock-step on
//! every push.

use std::collections::HashMap;
use std::collections::VecDeque;
use vstd::prelude::*;
use crate::geometry::Vector2D;

verus! {

broadcast use vstd::std_specs::hash::group_hash_axioms;

/// The key under which a cell is filed in the membership index: both
/// coordinates packed into one integer, injectively.
pub open spec fn spec_cell_key(p: Vector2D) -> u64 {
    ((p.x as int) * 0x10000 + (p.y as int)) as u64
}

/// Packing two 16-bit coordinates into one 64-bit key loses nothing.
pub proof fn lemma_cell_key_injective(p: Vector2D, q: Vector2D)
    requires
        spec_cell_key(p) == spec_cell_key(q),
    ensures
        p == q,
{
    assert((p.x as int) * 0x10000 + (p.y as int) == (q.x as int) * 0x10000 + (q.y as int));
}

/// Computes the index key of a cell.
fn cell_key(p: Vector2D) -> (k: u64)
    ensures
        k == spec_cell_key(p),
{
    (p.x as u64) * 0x10000 + (p.y as u64)
}

/// The tracked cells after a push: the new cell is appended, and when
/// the window is full the oldest cell leaves first.
pub open spec fn order_after_push(order: Seq<Vector2D>, capacity: nat, value: Vector2D) -> Seq<
    Vector2D,
> {
    if order.len() < capacity {
        order.push(value)
    } else {
        order.drop_first().push(value)
    }
}

/// The membership index after a push: the new cell is inserted, and when
/// the window is full the evicted cell is removed first.
pub open spec fn index_after_push(
    index: Set<Vector2D>,
    order: Seq<Vector2D>,
    capacity: nat,
    value: Vector2D,
) -> Set<Vector2D> {
    if order.len() < capacity {
        index.insert(value)
    } else {
        index.remove(order[0]).insert(value)
    }
}

/// What a push gives back: the evicted oldest cell when the window was
/// full, nothing otherwise.
pub open spec fn eviction_of_push(order: Seq<Vector2D>, capacity: nat) -> Option<Vector2D> {
    if order.len() < capacity {
        None
    } else {
        Some(order[0])
    }
}

/// The sliding-window membership tracker: an ordered buffer of the
/// occupied cells (oldest first) beside an index for O(1) lookup, and
/// the bound on how many cells the window holds.
#[derive(Debug)]
pub struct History {
    ordered_buffer: VecDeque<Vector2D>,
    unordered_buffer: HashMap<u64, bool>,
    capacity: usize,
}

impl History {
    /// The tracked cells, oldest first.
    pub closed spec fn order(self) -> Seq<Vector2D> {
        self.ordered_buffer@
    }

    /// The cells the membership index currently answers `true` for.
    pub closed spec fn index(self) -> Set<Vector2D> {
        Set::new(|p: Vector2D| self.unordered_buffer@.dom().contains(spec_cell_key(p)))
    }

    /// The bound on how many cells the window holds.
    pub closed spec fn capacity(self) -> nat {
        self.capacity as nat
    }

    /// The tracker's invariant: the window never outgrows its bound,
    /// and the bound is positive.
    pub closed spec fn well_formed(self) -> bool {
        self.capacity >= 1 && self.ordered_buffer@.len() <= self.capacity
    }

    /// An empty tracker with the given positive capacity.
    pub fn new(capacity: usize) -> (h: History)
        requires
            capacity >= 1,
        ensures
            h.well_formed(),
            h.order() == Seq::<Vector2D>::empty(),
            h.index() == Set::<Vector2D>::empty(),
            h.capacity() == capacity,
    {
        let h = History {
            ordered_buffer: VecDeque::with_capacity(capacity),
            unordered_buffer: HashMap::with_capacity(capacity),
            capacity,
        };
        proof {
            assert(h.index() =~= Set::<Vector2D>::empty());
        }
        h
    }

    /// Records `value` as the newest occupied cell. When the window is
    /// already full, the oldest cell leaves both the order and the index
    /// and is returned, so the caller can erase it from the display.
    /// A duplicate of a cell still present is appended to the order all
    /// the same while the index keeps a single entry for it.
    pub fn push(&mut self, value: Vector2D) -> (evicted: Option<Vector2D>)
        requires
            old(self).well_formed(),
        ensures
            final(self).well_formed(),
            final(self).capacity() == old(self).capacity(),
            final(self).order() == order_after_push(
                old(self).order(),
                old(self).capacity(),
                value,
            ),
            final(self).index() == index_after_push(
                old(self).index(),
                old(self).order(),
                old(self).capacity(),
                value,
            ),
            evicted == eviction_of_push(old(self).order(), old(self).capacity()),
    {
        let ghost pre = *self;
        if self.ordered_buffer.len() >= self.capacity {
            let maybe_discarded_value = self.ordered_buffer.pop_front();
            if let Some(discarded_value) = maybe_discarded_value {
                let dk = cell_key(discarded_value);
                self.unordered_buffer.remove(&dk);
            }
            self.ordered_buffer.push_back(value);
            let vk = cell_key(value);
            self.unordered_buffer.insert(vk, true);
            proof {
                let d = pre.order()[0];
                assert forall|p: Vector2D| self.index().contains(p) <==> index_after_push(
                    pre.index(),
                    pre.order(),
                    pre.capacity(),
                    value,
                ).contains(p) by {
                    if spec_cell_key(p) == spec_cell_key(value) {
                        lemma_cell_key_injective(p, value);
                    }
                    if spec_cell_key(p) == spec_cell_key(d) {
                        lemma_cell_key_injective(p, d);
                    }
                }
                assert(self.index() =~= index_after_push(
                    pre.index(),
                    pre.order(),
                    pre.capacity(),
                    value,
                ));
                assert(self.order() =~= order_after_push(pre.order(), pre.capacity(), value));
            }
            maybe_discarded_value
        } else {
            self.ordered_buffer.push_back(value);
            let vk = cell_key(value);
            self.unordered_buffer.insert(vk, true);
            proof {
                assert forall|p: Vector2D| self.index().contains(p) <==> index_after_push(
                    pre.index(),
                    pre.order(),
                    pre.capacity(),
                    value,
                ).contains(p) by {
                    if spec_cell_key(p) == spec_cell_key(value) {
                        lemma_cell_key_injective(p, value);
                    }
                }
                assert(self.index() =~= index_after_push(
                    pre.index(),
                    pre.order(),
                    pre.capacity(),
                    value,
                ));
            }
            None
        }
    }

    /// Raises the window's bound to `new_capacity`; smaller or equal
    /// values change nothing. The tracked cells and the index are left
    /// exactly as they were: capacity never decreases and growth never
    /// evicts or reorders.
    pub fn increase_capacity(&mut self, new_capacity: usize)
        requires
            old(self).well_formed(),
        ensures
            final(self).well_formed(),
            final(self).order() == old(self).order(),
            final(self).index() == old(self).index(),
            new_capacity > old(self).capacity() ==> final(self).capacity() == new_capacity,
            new_capacity <= old(self).capacity() ==> final(self).capacity() == old(
                self,
            ).capacity(),
    {
        let ghost pre = *self;
        if new_capacity > self.capacity {
            self.ordered_buffer.reserve(new_capacity);
            self.capacity = new_capacity;
        }
        proof {
            assert(self.index() =~= pre.index());
        }
    }

    /// Answers whether `value` is a currently occupied cell, by the
    /// index alone: one lookup, never a scan of the order buffer.
    pub fn contains(&self, value: &Vector2D) -> (r: bool)
        ensures
            r == self.index().contains(*value),
    {
        let k = cell_key(*value);
        self.unordered_buffer.contains_key(&k)
    }
}

/// The index answers membership exactly as the order sequence does.
pub open spec fn index_matches_order(index: Set<Vector2D>, order: Seq<Vector2D>) -> bool {
    forall|p: Vector2D| index.contains(p) <==> order.contains(p)
}

/// As long as no pushed value duplicates a cell still in the window, the
/// index keeps answering membership exactly for the cells of the order
/// sequence — the most recent `min(count, capacity)` pushed values — the
/// window stays free of duplicates, and the push that runs at capacity
/// evicts exactly the earliest-pushed cell not yet evicted.
pub proof fn lemma_push_keeps_index_matching_order(
    index: Set<Vector2D>,
    order: Seq<Vector2D>,
    capacity: nat,
    value: Vector2D,
)
    requires
        capacity >= 1,
        index_matches_order(index, order),
        order.no_duplicates(),
        !order.contains(value),
    ensures
        index_matches_order(
            index_after_push(index, order, capacity, value),
            order_after_push(order, capacity, value),
        ),
        order_after_push(order, capacity, value).no_duplicates(),
        order.len() >= capacity ==> eviction_of_push(order, capacity) == Some(order[0]),
{
    if order.len() < capacity {
        let order2 = order.push(value);
        assert forall|p: Vector2D| index.insert(value).contains(p) <==> order2.contains(p) by {
            if order.contains(p) {
                let i = choose|i: int| 0 <= i < order.len() && order[i] == p;
                assert(order2[i] == p);
            }
            if order2.contains(p) && p != value {
                let i = choose|i: int| 0 <= i < order2.len() && order2[i] == p;
                assert(order[i] == p);
            }
            assert(order2[order.len() as int] == value);
        }
        assert(order2.drop_last() =~= order);
    } else {
        let d = order[0];
        let rest = order.drop_first();
        let order2 = rest.push(value);
        assert forall|p: Vector2D| rest.contains(p) <==> (order.contains(p) && p != d) by {
            if rest.contains(p) {
                let i = choose|i: int| 0 <= i < rest.len() && rest[i] == p;
                assert(order[i + 1] == p);
                if p == d {
                    assert(order[0] == order[i + 1]);
                }
            }
            if order.contains(p) && p != d {
                let i = choose|i: int| 0 <= i < order.len() && order[i] == p;
                assert(i >= 1);
                assert(rest[i - 1] == p);
            }
        }
        assert forall|p: Vector2D|
            index.remove(d).insert(value).contains(p) <==> order2.contains(p) by {
            if rest.contains(p) {
                let i = choose|i: int| 0 <= i < rest.len() && rest[i] == p;
                assert(order2[i] == p);
            }
            if order2.contains(p) && p != value {
                let i = choose|i: int| 0 <= i < order2.len() && order2[i] == p;
                assert(rest[i] == p);
            }
            assert(order2[rest.len() as int] == value);
        }
        assert(rest.no_duplicates());
        assert(!rest.contains(value));
        assert(order2.drop_last() =~= rest);
    }
}

/// A larger capacity never evicts on a push where a smaller one would
/// not have: growing the window can only delay evictions.
pub proof fn lemma_larger_capacity_evicts_no_earlier(
    order: Seq<Vector2D>,
    small: nat,
    large: nat,
)
    requires
        small <= large,
    ensures
        eviction_of_push(order, large) is Some ==> eviction_of_push(order, small) is Some,
{
}

} // verus!
