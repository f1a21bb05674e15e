//! The index-call sequence: a cursor over a context's items.

use vstd::prelude::*;
use crate::callable::IndexCallable;
use crate::index::{Indexable, SignedIndexable, UnsignedIndexable};

verus! {

/// A lazy sequence over the items of a context: the count is fetched once,
/// when the sequence is made, and each item when it is produced.
pub struct IndexCallIterator<CxtT: IndexCallable> {
    cxt: CxtT,
    length: usize,
    index: usize,
}

impl<CxtT: IndexCallable> IndexCallIterator<CxtT> {
    /// The context that hands out the items.
    pub closed spec fn context(&self) -> CxtT {
        self.cxt
    }

    /// The count fetched when the sequence was made.
    pub closed spec fn count(&self) -> nat {
        self.length as nat
    }

    /// How many items have been produced.
    pub closed spec fn cursor(&self) -> nat {
        self.index as nat
    }

    /// The cursor lies within the count, the count fits the context's number
    /// type, and the context still reports that count.
    pub open spec fn wf(&self) -> bool {
        &&& self.cursor() <= self.count()
        &&& self.count() <= CxtT::ItemNum::index_max()
        &&& self.context().item_count() == self.count()
    }

    /// The items that are still to be produced, in order.
    pub open spec fn remaining(&self) -> Seq<CxtT::Item> {
        Seq::new(
            (self.count() - self.cursor()) as nat,
            |i: int| self.context().item_at(self.cursor() + i, self.count() as int),
        )
    }
}

/// The items of a fresh sequence over `cxt` with `n` items: the item function at
/// each index below `n`, with total `n`.
pub open spec fn all_items<CxtT: IndexCallable>(cxt: CxtT, n: nat) -> Seq<CxtT::Item> {
    Seq::new(n, |i: int| cxt.item_at(i, n as int))
}

impl<CxtT: IndexCallable> IndexCallIterator<CxtT> where CxtT::ItemNum: UnsignedIndexable {
    /// Makes a sequence over all the items of `cxt`, fetching its count once.
    pub fn new(cxt: CxtT) -> (r: IndexCallIterator<CxtT>)
        ensures
            r.wf(),
            r.context() == cxt,
            r.count() == cxt.item_count(),
            r.cursor() == 0,
            r.remaining() == all_items(cxt, cxt.item_count() as nat),
            r.remaining().len() == cxt.item_count(),
    {
        let len: usize = cxt.fetch_item_num().from_index();
        let r = IndexCallIterator { cxt: cxt, length: len, index: 0 };
        assert(r.remaining() =~= all_items(cxt, cxt.item_count() as nat));
        r
    }
}

impl<CxtT: IndexCallable> IndexCallIterator<CxtT> where CxtT::ItemNum: SignedIndexable {
    /// Makes a sequence over the items of `cxt` when its count is not negative,
    /// and none when the count is the sentinel -1. Any other negative count
    /// breaks the context's contract.
    pub fn new_check_positive(cxt: CxtT) -> (r: Option<IndexCallIterator<CxtT>>)
        requires
            cxt.item_count() >= -1,
        ensures
            cxt.item_count() == -1 <==> r.is_none(),
            r matches Some(it) ==> {
                &&& it.wf()
                &&& it.context() == cxt
                &&& it.count() == cxt.item_count()
                &&& it.cursor() == 0
                &&& it.remaining() == all_items(cxt, cxt.item_count() as nat)
                &&& it.remaining().len() == cxt.item_count()
            },
    {
        let len: isize = cxt.fetch_item_num().from_index();
        if len >= 0 {
            let r = IndexCallIterator { cxt: cxt, length: len as usize, index: 0 };
            assert(r.remaining() =~= all_items(cxt, cxt.item_count() as nat));
            Some(r)
        } else {
            None
        }
    }
}

impl<CxtT: IndexCallable> IndexCallIterator<CxtT> {
    /// Produces the next item, or `None` once every item has been produced.
    pub fn next(&mut self) -> (r: Option<CxtT::Item>)
        requires
            old(self).wf(),
        ensures
            final(self).wf(),
            final(self).count() == old(self).count(),
            old(self).remaining().len() == 0 ==> {
                &&& r.is_none()
                &&& final(self).remaining() == old(self).remaining()
                &&& final(self).cursor() == old(self).cursor()
            },
            old(self).remaining().len() > 0 ==> {
                &&& r == Some(old(self).remaining()[0])
                &&& final(self).remaining() == old(self).remaining().drop_first()
                &&& final(self).cursor() == old(self).cursor() + 1
            },
    {
        if self.index < self.length {
            let idx = self.index;
            self.index += 1;
            let item = self.cxt.fetch_item(
                CxtT::ItemNum::as_index(idx),
                CxtT::ItemNum::as_index(self.length),
            );
            assert(self.remaining() =~= old(self).remaining().drop_first());
            Some(item)
        } else {
            None
        }
    }

    /// The number of items that are still to be produced.
    pub fn len(&self) -> (r: usize)
        requires
            self.wf(),
        ensures
            r == self.remaining().len(),
            r == self.count() - self.cursor(),
    {
        self.length - self.index
    }

    /// Produces every remaining item, in order.
    pub fn collect_items(self) -> (r: Vec<CxtT::Item>)
        requires
            self.wf(),
        ensures
            r@ == self.remaining(),
    {
        let mut it = self;
        let mut out: Vec<CxtT::Item> = Vec::new();
        let ghost all = self.remaining();
        while it.index < it.length
            invariant
                it.wf(),
                it.count() == self.count(),
                all.len() == out@.len() + it.remaining().len(),
                all == out@ + it.remaining(),
            decreases it.length - it.index,
        {
            let ghost before = it.remaining();
            let item = it.next();
            match item {
                Some(x) => {
                    out.push(x);
                },
                None => {},
            }
            assert(all =~= out@ + it.remaining()) by {
                assert(before =~= seq![before[0]] + before.drop_first());
            }
        }
        assert(it.remaining() =~= Seq::empty());
        assert(all =~= out@);
        out
    }
}

/// After `k` items of a sequence over `n` items have been produced, the
/// remaining count is `n - k`, and what remains is the last `n - k` items of
/// the whole sequence. With `k == 0`, a fresh sequence yields every item of
/// the context and reports `n` items.
pub proof fn lemma_remaining_after_consumed<CxtT: IndexCallable>(it: IndexCallIterator<CxtT>)
    requires
        it.wf(),
    ensures
        it.remaining().len() == it.count() - it.cursor(),
        it.remaining() == all_items(it.context(), it.count()).subrange(
            it.cursor() as int,
            it.count() as int,
        ),
{
    assert(it.remaining() =~= all_items(it.context(), it.count()).subrange(
        it.cursor() as int,
        it.count() as int,
    ));
}

} // verus!
