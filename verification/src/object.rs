//! Handling heap-allocated objects.
//!
//! Objects that must live on the native side are kept in a pool and shown
//! to the target side as handles only.

use vstd::prelude::*;
use std::collections::HashMap;
use crate::returned::{Error, Returned};

verus! {

broadcast use vstd::std_specs::hash::group_hash_axioms;

/// Opaque handle pointing to an object in a pool.
pub type Handle = i32;

/// Collection of objects, each under its handle.
///
/// Handles are given out in increasing order and never twice.
pub struct Pool<T> {
    pool: HashMap<Handle, T>,
    counter: Handle,
}

impl<T> View for Pool<T> {
    type V = Map<Handle, T>;

    closed spec fn view(&self) -> Map<Handle, T> {
        self.pool@
    }
}

impl<T> Pool<T> {
    /// The handle that the next stored object gets.
    pub closed spec fn spec_counter(&self) -> int {
        self.counter as int
    }

    /// Every handle in use was given out before.
    pub open spec fn wf(&self) -> bool {
        &&& 0 <= self.spec_counter() <= i32::MAX
        &&& forall|h: Handle| #[trigger] self@.contains_key(h) ==> 0 <= h < self.spec_counter()
    }

    /// An empty pool.
    pub fn new() -> (r: Self)
        ensures
            r.wf(),
            r@ == Map::<Handle, T>::empty(),
            r.spec_counter() == 0,
    {
        Pool { pool: HashMap::new(), counter: 0 }
    }

    /// Whether every handle has been given out.
    pub fn exhausted(&self) -> (r: bool)
        ensures
            r == (self.spec_counter() >= i32::MAX),
    {
        self.counter >= i32::MAX
    }

    /// Stores an object under a handle that was never given out before.
    pub fn store(&mut self, obj: T) -> (handle: Handle)
        requires
            old(self).wf(),
            old(self).spec_counter() < i32::MAX,
        ensures
            final(self).wf(),
            handle == old(self).spec_counter(),
            !old(self)@.contains_key(handle),
            final(self)@ == old(self)@.insert(handle, obj),
            final(self).spec_counter() == old(self).spec_counter() + 1,
    {
        let handle = self.counter;
        self.counter = self.counter + 1;
        self.pool.insert(handle, obj);
        proof {
            assert forall|h: Handle| #[trigger] self@.contains_key(h) implies 0 <= h
                < self.spec_counter() by {
                assert(old(self)@.contains_key(h) || h == handle);
            }
        }
        handle
    }

    /// Stores an object if a handle is left; gives the object back if not.
    pub fn try_store(&mut self, obj: T) -> (r: Result<Handle, T>)
        requires
            old(self).wf(),
        ensures
            final(self).wf(),
            match r {
                Ok(handle) => old(self).spec_counter() < i32::MAX && handle == old(self).spec_counter() && final(self)@ == old(self)@.insert(handle, obj) && final(self).spec_counter() == old(self).spec_counter() + 1,
                Err(back) => old(self).spec_counter() >= i32::MAX && back == obj && final(self)@
                    == old(self)@ && final(self).spec_counter() == old(self).spec_counter(),
            },
    {
        if self.exhausted() {
            Err(obj)
        } else {
            Ok(self.store(obj))
        }
    }

    /// Checks if the object pointed by `handle` is alive.
    pub fn alive(&self, handle: Handle) -> (r: bool)
        ensures
            r == self@.contains_key(handle),
    {
        self.pool.contains_key(&handle)
    }

    /// The object pointed by `handle`, if it is alive.
    pub fn get(&self, handle: Handle) -> (r: Option<&T>)
        ensures
            match r {
                Some(obj) => self@.contains_key(handle) && *obj == self@[handle],
                None => !self@.contains_key(handle),
            },
    {
        self.pool.get(&handle)
    }

    /// Runs an action on the object pointed by `handle`, which must be
    /// alive.
    pub fn peek<R, F: FnOnce(&T) -> R>(&self, handle: Handle, action: F) -> (r: R)
        requires
            self@.contains_key(handle),
            action.requires((&self@[handle],)),
        ensures
            action.ensures((&self@[handle],), r),
    {
        match self.pool.get(&handle) {
            Some(obj) => action(obj),
            None => {
                proof {
                    assert(false);
                }
                vstd::pervasive::unreached()
            },
        }
    }

    /// Runs an action that may change the object pointed by `handle`, which
    /// must be alive: the action takes the object and hands back what it
    /// has become.
    pub fn peek_mut<R, F: FnOnce(T) -> (T, R)>(&mut self, handle: Handle, action: F) -> (r: R)
        requires
            old(self).wf(),
            old(self)@.contains_key(handle),
            action.requires((old(self)@[handle],)),
        ensures
            final(self).wf(),
            final(self).spec_counter() == old(self).spec_counter(),
            exists|after: T|
                action.ensures((old(self)@[handle],), (after, r)) && final(self)@ == old(self)@.insert(handle, after),
    {
        match self.pool.remove(&handle) {
            Some(obj) => {
                let (after, r) = action(obj);
                self.pool.insert(handle, after);
                proof {
                    assert(final(self)@ =~= old(self)@.insert(handle, after));
                }
                r
            },
            None => {
                proof {
                    assert(false);
                }
                vstd::pervasive::unreached()
            },
        }
    }

    /// Drops the object pointed by `handle`. Dropping what is not there
    /// changes nothing.
    pub fn drop(&mut self, handle: Handle)
        requires
            old(self).wf(),
        ensures
            final(self).wf(),
            final(self)@ == old(self)@.remove(handle),
            final(self).spec_counter() == old(self).spec_counter(),
    {
        self.pool.remove(&handle);
        proof {
            assert forall|h: Handle| #[trigger] self@.contains_key(h) implies 0 <= h
                < self.spec_counter() by {
                assert(old(self)@.contains_key(h));
            }
        }
    }

    /// Puts an optional object into the pool; the envelope carries its
    /// handle, or nothing where there is no object.
    pub fn shelve_option(&mut self, obj: Option<T>) -> (r: Returned<Handle>)
        requires
            old(self).wf(),
            old(self).spec_counter() < i32::MAX,
        ensures
            final(self).wf(),
            r.wf(),
            r.error is None,
            match obj {
                Some(inner) => r.value == Some(old(self).spec_counter() as Handle) && final(self)@
                    == old(self)@.insert(old(self).spec_counter() as Handle, inner),
                None => r.value is None && final(self)@ == old(self)@,
            },
    {
        match obj {
            Some(inner) => Returned::from_value(self.store(inner)),
            None => Returned::default(),
        }
    }

    /// Puts the outcome of a fallible call into the pool; the envelope
    /// carries the handle of the object, or the error.
    pub fn shelve_result(&mut self, obj: Result<T, Error>) -> (r: Returned<Handle>)
        requires
            old(self).wf(),
            old(self).spec_counter() < i32::MAX,
        ensures
            final(self).wf(),
            r.wf(),
            match obj {
                Ok(inner) => r.error is None && r.value == Some(
                    old(self).spec_counter() as Handle,
                ) && final(self)@ == old(self)@.insert(old(self).spec_counter() as Handle, inner),
                Err(err) => r.error == Some(err) && r.value is None && final(self)@ == old(self)@,
            },
    {
        match obj {
            Ok(inner) => Returned::from_value(self.store(inner)),
            Err(err) => Returned { error: Some(err), value: None },
        }
    }

    /// Puts the outcome of a fallible call that may deliver nothing into the
    /// pool; the envelope carries the handle of the object, the error, or
    /// nothing.
    pub fn shelve_result_option(&mut self, obj: Result<Option<T>, Error>) -> (r: Returned<Handle>)
        requires
            old(self).wf(),
            old(self).spec_counter() < i32::MAX,
        ensures
            final(self).wf(),
            r.wf(),
            match obj {
                Ok(Some(inner)) => r.error is None && r.value == Some(
                    old(self).spec_counter() as Handle,
                ) && final(self)@ == old(self)@.insert(old(self).spec_counter() as Handle, inner),
                Ok(None) => r.error is None && r.value is None && final(self)@ == old(self)@,
                Err(err) => r.error == Some(err) && r.value is None && final(self)@ == old(self)@,
            },
    {
        match obj {
            Ok(inner) => self.shelve_option(inner),
            Err(err) => Returned { error: Some(err), value: None },
        }
    }
}

/// A stored object is alive under its handle and is the one that a peek
/// observes; all other handles keep what they had.
pub proof fn lemma_store_then_peek<T>(before: Map<Handle, T>, handle: Handle, obj: T)
    ensures
        before.insert(handle, obj).contains_key(handle),
        before.insert(handle, obj)[handle] == obj,
        forall|other: Handle|
            other != handle && before.contains_key(other) ==> before.insert(
                handle,
                obj,
            ).contains_key(other) && #[trigger] before.insert(handle, obj)[other] == before[other],
{
}

/// A dropped object is no longer alive, and dropping it once more changes
/// nothing.
pub proof fn lemma_drop_then_dead<T>(before: Map<Handle, T>, handle: Handle)
    ensures
        !before.remove(handle).contains_key(handle),
        before.remove(handle).remove(handle) == before.remove(handle),
        !before.contains_key(handle) ==> before.remove(handle) == before,
{
    assert(before.remove(handle).remove(handle) =~= before.remove(handle));
    if !before.contains_key(handle) {
        assert(before.remove(handle) =~= before);
    }
}

} // verus!
