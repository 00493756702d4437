//! Device-identifier allocation.
//!
//! Each pool owns one allocator that issues the 32-bit identifiers
//! distinguishing volumes and snapshots inside that pool's control
//! namespace. Identifiers come from a monotonically increasing counter,
//! so an identifier, once released, is never handed out again within
//! the allocator's lifetime: a delayed or failed release of the
//! underlying resource can never alias a newer device.

use vstd::prelude::*;

verus! {

/// Issues identifiers unique within one pool's namespace.
#[derive(Debug)]
pub struct DeviceIdAllocator {
    next_id: u32,
    live: Vec<u32>,
}

impl DeviceIdAllocator {
    /// The counter value: the identifier the next allocation returns.
    pub closed spec fn spec_next(&self) -> u32 {
        self.next_id
    }

    /// Whether `id` is currently live.
    pub closed spec fn is_live(&self, id: u32) -> bool {
        self.live@.contains(id)
    }

    /// Every live identifier was already handed out, and none is listed twice.
    pub closed spec fn wf(&self) -> bool {
        &&& forall|i: int| 0 <= i < self.live@.len() ==> #[trigger] self.live@[i] < self.next_id
        &&& forall|i: int, j: int|
            0 <= i < j < self.live@.len() ==> self.live@[i] != self.live@[j]
    }

    /// A fresh allocator: no identifier live, counter at zero.
    pub fn new() -> (a: Self)
        ensures
            a.wf(),
            a.spec_next() == 0,
            forall|id: u32| !a.is_live(id),
    {
        DeviceIdAllocator { next_id: 0, live: Vec::new() }
    }

    /// Returns an identifier not currently live, and marks it live.
    ///
    /// The result is fresh in a strong sense: it differs from every
    /// identifier this allocator ever handed out before.
    pub fn allocate(&mut self) -> (id: u32)
        requires
            old(self).wf(),
            old(self).spec_next() < u32::MAX,
        ensures
            final(self).wf(),
            id == old(self).spec_next(),
            !old(self).is_live(id),
            final(self).is_live(id),
            final(self).spec_next() == id + 1,
            forall|j: u32| final(self).is_live(j) <==> (old(self).is_live(j) || j == id),
    {
        let id = self.next_id;
        self.next_id = self.next_id + 1;
        self.live.push(id);
        proof {
            let l1 = old(self).live@;
            let l2 = self.live@;
            assert(l2 == l1.push(id));
            assert(!l1.contains(id));
            assert forall|j: u32| l2.contains(j) <==> (l1.contains(j) || j == id) by {
                if l1.contains(j) {
                    let k = choose|k: int| 0 <= k < l1.len() && l1[k] == j;
                    assert(l2[k] == j);
                }
                if j == id {
                    assert(l2[l1.len() as int] == id);
                }
                if l2.contains(j) {
                    let k = choose|k: int| 0 <= k < l2.len() && l2[k] == j;
                    if k < l1.len() {
                        assert(l1[k] == j);
                    }
                }
            }
        }
        id
    }

    /// Whether `id` is currently live.
    pub fn contains(&self, id: u32) -> (r: bool)
        ensures
            r == self.is_live(id),
    {
        let n = self.live.len();
        let mut i: usize = 0;
        while i < n
            invariant
                n == self.live@.len(),
                0 <= i <= n,
                forall|k: int| 0 <= k < i ==> self.live@[k] != id,
            decreases n - i,
        {
            if self.live[i] == id {
                return true;
            }
            i = i + 1;
        }
        false
    }

    /// Marks `id` no longer live. Releasing an identifier that is not
    /// live is a no-op, so teardown code may safely run twice.
    pub fn release(&mut self, id: u32)
        requires
            old(self).wf(),
        ensures
            final(self).wf(),
            final(self).spec_next() == old(self).spec_next(),
            !final(self).is_live(id),
            forall|j: u32| j != id ==> (final(self).is_live(j) <==> old(self).is_live(j)),
    {
        let n = self.live.len();
        let mut i: usize = 0;
        while i < n
            invariant
                n == self.live@.len(),
                0 <= i <= n,
                *self == *old(self),
                old(self).wf(),
                forall|k: int| 0 <= k < i ==> self.live@[k] != id,
            decreases n - i,
        {
            if self.live[i] == id {
                let ghost l1 = self.live@;
                self.live.remove(i);
                proof {
                    let l2 = self.live@;
                    assert(l2 == l1.remove(i as int));
                    assert forall|k: int| 0 <= k < l2.len() implies l2[k] != id by {
                        if k < i {
                            assert(l2[k] == l1[k]);
                        } else {
                            assert(l2[k] == l1[k + 1]);
                        }
                    }
                    assert(!l2.contains(id));
                    assert forall|j: u32| j != id implies (l2.contains(j) <==> l1.contains(
                        j,
                    )) by {
                        if l1.contains(j) {
                            let k = choose|k: int| 0 <= k < l1.len() && l1[k] == j;
                            if k < i {
                                assert(l2[k] == j);
                            } else {
                                assert(l1[i as int] == id);
                                assert(k != i);
                                assert(l2[k - 1] == j);
                            }
                        }
                        if l2.contains(j) {
                            let k = choose|k: int| 0 <= k < l2.len() && l2[k] == j;
                            if k < i {
                                assert(l1[k] == j);
                            } else {
                                assert(l1[k + 1] == j);
                            }
                        }
                    }
                }
                return ;
            }
            i = i + 1;
        }
    }
}

/// One recorded step of an allocator's history.
pub enum AllocatorOp {
    Allocate,
    Release { id: u32 },
}

/// The identifiers a run of operations hands out, given the counter
/// value the allocator starts from. An `Allocate` issues the counter
/// and advances it; a `Release` issues nothing and leaves the counter
/// alone — exactly what the contracts of [`DeviceIdAllocator::allocate`]
/// and [`DeviceIdAllocator::release`] say of `spec_next`.
pub open spec fn issued_ids(next: int, ops: Seq<AllocatorOp>) -> Seq<int>
    decreases ops.len(),
{
    if ops.len() == 0 {
        Seq::empty()
    } else {
        match ops.first() {
            AllocatorOp::Allocate => seq![next] + issued_ids(next + 1, ops.drop_first()),
            AllocatorOp::Release { .. } => issued_ids(next, ops.drop_first()),
        }
    }
}

/// Every identifier a run issues is at least the starting counter value.
proof fn lemma_issued_ids_lower_bound(next: int, ops: Seq<AllocatorOp>)
    ensures
        forall|k: int|
            0 <= k < issued_ids(next, ops).len() ==> #[trigger] issued_ids(next, ops)[k] >= next,
    decreases ops.len(),
{
    if ops.len() > 0 {
        match ops.first() {
            AllocatorOp::Allocate => {
                let tail = issued_ids(next + 1, ops.drop_first());
                assert(issued_ids(next, ops) == seq![next] + tail);
                lemma_issued_ids_lower_bound(next + 1, ops.drop_first());
                assert forall|k: int| 0 <= k < issued_ids(next, ops).len() implies #[trigger]
                issued_ids(next, ops)[k] >= next by {
                    if k > 0 {
                        assert(issued_ids(next, ops)[k] == tail[k - 1]);
                        assert(tail[k - 1] >= next + 1);
                    } else {
                        assert(issued_ids(next, ops)[0] == next);
                    }
                }
            },
            AllocatorOp::Release { .. } => {
                assert(issued_ids(next, ops) == issued_ids(next, ops.drop_first()));
                lemma_issued_ids_lower_bound(next, ops.drop_first());
            },
        }
    }
}

/// Identifiers issued within one pool are pairwise distinct over the
/// pool's whole history, whatever releases happen in between: the run
/// of issued identifiers is strictly increasing, so no identifier is
/// ever reassigned while — or even after — the original holder lives.
pub proof fn lemma_issued_ids_distinct(next: int, ops: Seq<AllocatorOp>)
    ensures
        forall|i: int, j: int|
            0 <= i < j < issued_ids(next, ops).len() ==> issued_ids(next, ops)[i] < issued_ids(
                next,
                ops,
            )[j],
    decreases ops.len(),
{
    if ops.len() > 0 {
        match ops.first() {
            AllocatorOp::Allocate => {
                let tail = issued_ids(next + 1, ops.drop_first());
                assert(issued_ids(next, ops) == seq![next] + tail);
                lemma_issued_ids_distinct(next + 1, ops.drop_first());
                lemma_issued_ids_lower_bound(next + 1, ops.drop_first());
                assert forall|i: int, j: int|
                    0 <= i < j < issued_ids(next, ops).len() implies issued_ids(next, ops)[i]
                    < issued_ids(next, ops)[j] by {
                    assert(issued_ids(next, ops)[j] == tail[j - 1]);
                    if i == 0 {
                        assert(issued_ids(next, ops)[0] == next);
                        assert(tail[j - 1] >= next + 1);
                    } else {
                        assert(issued_ids(next, ops)[i] == tail[i - 1]);
                    }
                }
            },
            AllocatorOp::Release { .. } => {
                assert(issued_ids(next, ops) == issued_ids(next, ops.drop_first()));
                lemma_issued_ids_distinct(next, ops.drop_first());
            },
        }
    }
}

} // verus!
