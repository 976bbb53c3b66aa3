//! Keeping track of asynchronous tasks.
//!
//! A task is known by its handle from the moment it is spawned until it
//! completes or is cancelled, whichever comes first. Whoever removes the
//! entry of a task decides its fate: a completion that finds the entry
//! notifies the target side, one that finds it gone stays silent.

use vstd::prelude::*;
use std::collections::HashMap;
use crate::object::Handle;

verus! {

broadcast use vstd::std_specs::hash::group_hash_axioms;

/// The tasks that are running, each with the token that cancels it when it
/// is dropped.
pub struct Pool<K> {
    pool: HashMap<Handle, K>,
    counter: Handle,
}

impl<K> View for Pool<K> {
    type V = Map<Handle, K>;

    closed spec fn view(&self) -> Map<Handle, K> {
        self.pool@
    }
}

impl<K> Pool<K> {
    /// The handle that the next task gets.
    pub closed spec fn spec_counter(&self) -> int {
        self.counter as int
    }

    /// Every handle of a running task was given out before.
    pub open spec fn wf(&self) -> bool {
        &&& 0 <= self.spec_counter() <= i32::MAX
        &&& forall|h: Handle| #[trigger] self@.contains_key(h) ==> 0 <= h < self.spec_counter()
    }

    /// A pool without tasks.
    pub fn new() -> (r: Self)
        ensures
            r.wf(),
            r@ == Map::<Handle, K>::empty(),
            r.spec_counter() == 0,
    {
        Pool { pool: HashMap::new(), counter: 0 }
    }

    /// Whether every handle has been given out.
    pub fn exhausted(&self) -> (r: bool)
        ensures
            r == (self.spec_counter() >= i32::MAX),
    {
        self.counter >= i32::MAX
    }

    /// Creates a handle by incrementing the internal counter. New handles
    /// are always increasing, which avoids collisions.
    pub fn new_handle(&mut self) -> (handle: Handle)
        requires
            old(self).wf(),
            old(self).spec_counter() < i32::MAX,
        ensures
            final(self).wf(),
            handle == old(self).spec_counter(),
            final(self).spec_counter() == old(self).spec_counter() + 1,
            final(self)@ == old(self)@,
            !final(self)@.contains_key(handle),
    {
        let previous = self.counter;
        self.counter = self.counter + 1;
        proof {
            assert forall|h: Handle| #[trigger] self@.contains_key(h) implies 0 <= h
                < self.spec_counter() by {
                assert(old(self)@.contains_key(h));
            }
        }
        previous
    }

    /// Registers a task: `start` is told the handle of the task, sets it
    /// running and hands back the token that cancels it.
    pub fn spawn<F: FnOnce(Handle) -> K>(&mut self, start: F) -> (handle: Handle)
        requires
            old(self).wf(),
            old(self).spec_counter() < i32::MAX,
            start.requires((old(self).spec_counter() as Handle,)),
        ensures
            final(self).wf(),
            handle == old(self).spec_counter(),
            !old(self)@.contains_key(handle),
            final(self)@.contains_key(handle),
            start.ensures((handle,), final(self)@[handle]),
            final(self)@ == old(self)@.insert(handle, final(self)@[handle]),
            final(self).spec_counter() == old(self).spec_counter() + 1,
    {
        let handle = self.new_handle();
        let token = start(handle);
        self.pool.insert(handle, token);
        assert(final(self)@ =~= old(self)@.insert(handle, token));
        handle
    }

    /// Whether the task is still running and not cancelled.
    pub fn outstanding(&self, handle: Handle) -> (r: bool)
        ensures
            r == self@.contains_key(handle),
    {
        self.pool.contains_key(&handle)
    }

    /// Records that a task has completed. The token comes back exactly if
    /// the task was not cancelled before: only then the target side is to be
    /// notified.
    pub fn complete(&mut self, handle: Handle) -> (r: Option<K>)
        requires
            old(self).wf(),
        ensures
            final(self).wf(),
            final(self)@ == old(self)@.remove(handle),
            final(self).spec_counter() == old(self).spec_counter(),
            match r {
                Some(token) => old(self)@.contains_key(handle) && token == old(self)@[handle],
                None => !old(self)@.contains_key(handle),
            },
    {
        let found = self.pool.remove(&handle);
        proof {
            assert forall|h: Handle| #[trigger] self@.contains_key(h) implies 0 <= h
                < self.spec_counter() by {
                assert(old(self)@.contains_key(h));
            }
        }
        found
    }

    /// Cancels a task by dropping its token. For a task that has completed
    /// or was cancelled before, nothing happens.
    pub fn cancel(&mut self, handle: Handle)
        requires
            old(self).wf(),
        ensures
            final(self).wf(),
            final(self)@ == old(self)@.remove(handle),
            final(self).spec_counter() == old(self).spec_counter(),
    {
        self.pool.remove(&handle);
        proof {
            assert forall|h: Handle| #[trigger] self@.contains_key(h) implies 0 <= h
                < self.spec_counter() by {
                assert(old(self)@.contains_key(h));
            }
        }
    }
}

/// Once a task has completed, cancelling it changes nothing, and a second
/// completion finds no entry, so that nobody is notified twice.
pub proof fn lemma_cancel_after_complete<K>(before: Map<Handle, K>, handle: Handle)
    ensures
        before.remove(handle).remove(handle) == before.remove(handle),
        !before.remove(handle).contains_key(handle),
{
    assert(before.remove(handle).remove(handle) =~= before.remove(handle));
}

/// A handle that is given out is not that of any outstanding task: all of
/// them lie below the counter.
pub proof fn lemma_spawn_fresh<K>(pool: Pool<K>)
    requires
        pool.wf(),
    ensures
        !pool@.contains_key(pool.spec_counter() as Handle),
{
}

} // verus!
