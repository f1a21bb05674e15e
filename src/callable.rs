//! The interface of a collection that is reached through a count and an item-at-index call.

use vstd::prelude::*;
use crate::index::Indexable;

verus! {

/// A context that reports a number of items and hands out the item at an index.
pub trait IndexCallable {
    /// The items handed out.
    type Item;

    /// The type of counts and indices. If signed, a sequence is made only for a
    /// count that is not negative.
    type ItemNum: Indexable;

    /// The count that this context reports.
    spec fn item_count(&self) -> int;

    /// The item at index `idx` of a collection of `num` items.
    spec fn item_at(&self, idx: int, num: int) -> Self::Item;

    /// Calls the function that gives the number of items.
    fn fetch_item_num(&self) -> (r: Self::ItemNum)
        ensures
            r.index_value() == self.item_count(),
    ;

    /// Calls the function that gives the item at index `idx`; `num` is the
    /// count that `fetch_item_num` reported. The count and the items stay as
    /// they were.
    fn fetch_item(&mut self, idx: Self::ItemNum, num: Self::ItemNum) -> (r: Self::Item)
        requires
            0 <= idx.index_value() < num.index_value(),
            num.index_value() == old(self).item_count(),
        ensures
            r == old(self).item_at(idx.index_value(), num.index_value()),
            final(self).item_count() == old(self).item_count(),
            forall|i: int, n: int| #[trigger] final(self).item_at(i, n) == old(self).item_at(i, n),
    ;
}

} // verus!
