//! Lifecycle coordination.
//!
//! Construction runs backing devices first, then the pool, then
//! volumes and snapshots; teardown must run in exactly the reverse
//! order, or dependent resources are torn from under their dependents.
//! The coordinator is an explicit, ordered cleanup stack: every
//! successfully acquired resource registers its teardown step, and on
//! any exit path — success, error or early abort — the steps run
//! newest-first. Keeping the order explicit, instead of leaning on
//! implicit destructor ordering, makes it checkable.

use vstd::prelude::*;

verus! {

/// One teardown step registered with the coordinator.
#[derive(Clone, Debug, PartialEq, Eq)]
pub enum CleanupStep {
    /// Remove the volume or snapshot device node `name`, then send the
    /// `delete` message for `device_id` to the pool `pool_name`.
    RemoveVolume { name: String, pool_name: String, device_id: u32 },
    /// Tear down the pool device `name`.
    RemovePool { name: String },
    /// Unbind the backing device at `device`.
    ReleaseDevice { device: String },
}

/// The ordered cleanup stack.
pub struct LifecycleCoordinator {
    stack: Vec<CleanupStep>,
}

impl LifecycleCoordinator {
    /// The registered steps, oldest first.
    pub closed spec fn spec_steps(&self) -> Seq<CleanupStep> {
        self.stack@
    }

    /// A coordinator with nothing to clean up.
    pub fn new() -> (c: Self)
        ensures
            c.spec_steps().len() == 0,
    {
        LifecycleCoordinator { stack: Vec::new() }
    }

    /// Registers the teardown step for a resource that was just
    /// acquired. Later-acquired resources are cleaned up earlier.
    pub fn register(&mut self, step: CleanupStep)
        ensures
            final(self).spec_steps() == old(self).spec_steps().push(step),
    {
        self.stack.push(step);
    }

    /// How many steps are still owed.
    pub fn pending(&self) -> (n: usize)
        ensures
            n == self.spec_steps().len(),
    {
        self.stack.len()
    }

    /// Hands out the next teardown step: the most recently registered
    /// one that has not run yet.
    pub fn next_cleanup(&mut self) -> (s: Option<CleanupStep>)
        ensures
            old(self).spec_steps().len() == 0 ==> s is None
                && final(self).spec_steps() == old(self).spec_steps(),
            old(self).spec_steps().len() > 0 ==> s == Some(old(self).spec_steps().last())
                && final(self).spec_steps() == old(self).spec_steps().drop_last(),
    {
        self.stack.pop()
    }

    /// Hands out every owed teardown step at once, newest first: the
    /// exact reverse of the order in which the resources were acquired.
    pub fn drain(&mut self) -> (v: Vec<CleanupStep>)
        ensures
            v@ == old(self).spec_steps().reverse(),
            final(self).spec_steps().len() == 0,
    {
        let ghost orig = self.spec_steps();
        let ghost n: int = orig.len() as int;
        let mut v: Vec<CleanupStep> = Vec::new();
        proof {
            assert(orig.subrange(0, n) =~= orig);
        }
        while self.pending() > 0
            invariant
                n == orig.len(),
                v@.len() + self.spec_steps().len() == n,
                self.spec_steps() == orig.subrange(0, n - v@.len()),
                forall|i: int| 0 <= i < v@.len() ==> #[trigger] v@[i] == orig[n - 1 - i],
            decreases self.spec_steps().len(),
        {
            let ghost pre = self.spec_steps();
            let ghost v0: int = v@.len() as int;
            match self.next_cleanup() {
                Some(step) => {
                    proof {
                        assert(pre.last() == orig[n - 1 - v0]);
                        assert(pre.drop_last() =~= orig.subrange(0, n - v0 - 1));
                    }
                    v.push(step);
                },
                None => {
                    proof {
                        assert(false);
                    }
                },
            }
        }
        proof {
            assert(v@ =~= orig.reverse());
        }
        v
    }
}

} // verus!
