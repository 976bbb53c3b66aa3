//! Support for marshaling sequences.

use vstd::prelude::*;

verus! {

/// A sequence that the target side pulls item by item. It holds the items
/// in their wire form and lives in a handle pool.
#[derive(Debug, PartialEq)]
pub struct ReturningIterator {
    items: Vec<Vec<u8>>,
}

impl View for ReturningIterator {
    type V = Seq<Seq<u8>>;

    closed spec fn view(&self) -> Seq<Seq<u8>> {
        self.items@.map_values(|item: Vec<u8>| item@)
    }
}

impl ReturningIterator {
    /// A sequence that yields `items` in their order.
    pub fn new(items: Vec<Vec<u8>>) -> (r: Self)
        ensures
            r@ == items@.map_values(|item: Vec<u8>| item@),
    {
        Self { items }
    }

    /// The next item, or `None` once the sequence is exhausted.
    pub fn next(&mut self) -> (r: Option<Vec<u8>>)
        ensures
            match r {
                Some(item) => old(self)@.len() > 0 && item@ == old(self)@[0] && final(self)@
                    == old(self)@.drop_first(),
                None => old(self)@.len() == 0 && final(self)@ == old(self)@,
            },
    {
        if self.items.len() == 0 {
            None
        } else {
            let item = self.items.remove(0);
            proof {
                assert(self@ =~= old(self)@.drop_first());
            }
            Some(item)
        }
    }

    /// How many items are left.
    pub fn remaining(&self) -> (r: usize)
        ensures
            r == self@.len(),
    {
        self.items.len()
    }
}

} // verus!
