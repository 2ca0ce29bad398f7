//! A reuse pool for particle-burst instances.  Spawning a visual effect
//! checks an instance out of a free list; at the end of each tick the
//! dispatched instances merge back into the pool.  Instances are opaque
//! handles — what they render stays with the host.

use vstd::prelude::*;

verus! {

/// The free list of effect instances.  `pool` holds idle handles, and
/// `dispatched` the handles checked out since the last reset.
#[derive(Clone, Debug)]
pub struct EffectInstanceManager {
    pub pool: Vec<u64>,
    pub dispatched: Vec<u64>,
}

impl EffectInstanceManager {
    pub fn new() -> (manager: Self)
        ensures
            manager.pool@ == Seq::<u64>::empty(),
            manager.dispatched@ == Seq::<u64>::empty(),
    {
        Self { pool: Vec::new(), dispatched: Vec::new() }
    }

    /// Registers a freshly allocated instance as dispatched, so it returns
    /// to the pool at the next reset.
    pub fn add(&mut self, entity: u64)
        ensures
            final(self).pool@ == old(self).pool@,
            final(self).dispatched@ == old(self).dispatched@.push(entity),
    {
        self.dispatched.push(entity);
    }

    /// Checks an idle instance out of the pool, or reports that a new one
    /// must be allocated.
    pub fn get(&mut self) -> (entity: Option<u64>)
        ensures
            old(self).pool@.len() == 0 ==> {
                &&& entity is None
                &&& final(self).pool@ == old(self).pool@
                &&& final(self).dispatched@ == old(self).dispatched@
            },
            old(self).pool@.len() > 0 ==> {
                &&& entity == Some(old(self).pool@.last())
                &&& final(self).pool@ == old(self).pool@.drop_last()
                &&& final(self).dispatched@ == old(self).dispatched@.push(old(self).pool@.last())
            },
    {
        if let Some(entity) = self.pool.pop() {
            self.dispatched.push(entity);
            Some(entity)
        } else {
            None
        }
    }

    /// Returns every dispatched instance to the pool; runs at the end of
    /// each tick.
    pub fn reset(&mut self)
        ensures
            final(self).pool@ == old(self).pool@ + old(self).dispatched@,
            final(self).dispatched@ == Seq::<u64>::empty(),
    {
        self.pool.append(&mut self.dispatched);
    }
}

impl Default for EffectInstanceManager {
    fn default() -> (manager: Self)
        ensures
            manager.pool@ == Seq::<u64>::empty(),
            manager.dispatched@ == Seq::<u64>::empty(),
    {
        EffectInstanceManager::new()
    }
}

} // verus!
