//! Contexts made of a count and a closure from index to item.

use vstd::prelude::*;
use crate::callable::IndexCallable;
use crate::iter::IndexCallIterator;
use std::marker::PhantomData;

verus! {

/// A context whose count is fixed and whose items come from a closure on the
/// index. The closure accepts every index below the count and gives one result
/// for each.
#[verifier::reject_recursive_types(T)]
#[verifier::reject_recursive_types(F)]
pub struct UnsignedFnContext<T, F: Fn(u32) -> T> {
    num: u32,
    f: F,
    item: PhantomData<T>,
}

/// Whether `f` accepts every index below `num` and gives one result for each.
pub open spec fn unsigned_fn_ok<T, F: Fn(u32) -> T>(f: F, num: u32) -> bool {
    &&& forall|i: u32| i < num ==> #[trigger] f.requires((i,))
    &&& forall|i: u32, y1: T, y2: T|
        i < num && #[trigger] f.ensures((i,), y1) && #[trigger] f.ensures((i,), y2) ==> y1 == y2
}

/// Whether `f` accepts every index from zero up to `num` and gives one result
/// for each.
pub open spec fn signed_fn_ok<T, F: Fn(i32) -> T>(f: F, num: i32) -> bool {
    &&& forall|i: i32| 0 <= i < num ==> #[trigger] f.requires((i,))
    &&& forall|i: i32, y1: T, y2: T|
        0 <= i < num && #[trigger] f.ensures((i,), y1) && #[trigger] f.ensures((i,), y2) ==> y1
            == y2
}

impl<T, F: Fn(u32) -> T> UnsignedFnContext<T, F> {
    #[verifier::type_invariant]
    spec fn inv(&self) -> bool {
        unsigned_fn_ok(self.f, self.num)
    }

    /// The count.
    pub closed spec fn num(&self) -> u32 {
        self.num
    }

    /// The item closure.
    pub closed spec fn func(&self) -> F {
        self.f
    }

    /// Makes a context with count `num` and item closure `f`.
    pub fn new(num: u32, f: F) -> (r: Self)
        requires
            unsigned_fn_ok(f, num),
        ensures
            r.num() == num,
            r.func() == f,
    {
        UnsignedFnContext { num, f, item: PhantomData }
    }
}

impl<T, F: Fn(u32) -> T> IndexCallable for UnsignedFnContext<T, F> {
    type Item = T;

    type ItemNum = u32;

    open spec fn item_count(&self) -> int {
        self.num() as int
    }

    open spec fn item_at(&self, idx: int, num: int) -> T {
        choose|y: T| #[trigger] self.func().ensures((idx as u32,), y)
    }

    fn fetch_item_num(&self) -> (r: u32) {
        self.num
    }

    fn fetch_item(&mut self, idx: u32, num: u32) -> (r: T) {
        proof {
            use_type_invariant(&*self);
        }
        (self.f)(idx)
    }
}

/// A context whose count is fixed, possibly the sentinel -1, and whose items
/// come from a closure on the index. The closure accepts every index from zero
/// up to the count and gives one result for each.
#[verifier::reject_recursive_types(T)]
#[verifier::reject_recursive_types(F)]
pub struct SignedFnContext<T, F: Fn(i32) -> T> {
    num: i32,
    f: F,
    item: PhantomData<T>,
}

impl<T, F: Fn(i32) -> T> SignedFnContext<T, F> {
    #[verifier::type_invariant]
    spec fn inv(&self) -> bool {
        signed_fn_ok(self.f, self.num)
    }

    /// The count.
    pub closed spec fn num(&self) -> i32 {
        self.num
    }

    /// The item closure.
    pub closed spec fn func(&self) -> F {
        self.f
    }

    /// Makes a context with count `num` and item closure `f`.
    pub fn new(num: i32, f: F) -> (r: Self)
        requires
            signed_fn_ok(f, num),
        ensures
            r.num() == num,
            r.func() == f,
    {
        SignedFnContext { num, f, item: PhantomData }
    }
}

impl<T, F: Fn(i32) -> T> IndexCallable for SignedFnContext<T, F> {
    type Item = T;

    type ItemNum = i32;

    open spec fn item_count(&self) -> int {
        self.num() as int
    }

    open spec fn item_at(&self, idx: int, num: int) -> T {
        choose|y: T| #[trigger] self.func().ensures((idx as i32,), y)
    }

    fn fetch_item_num(&self) -> (r: i32) {
        self.num
    }

    fn fetch_item(&mut self, idx: i32, num: i32) -> (r: T) {
        proof {
            use_type_invariant(&*self);
        }
        (self.f)(idx)
    }
}

/// Makes a sequence of `f(0), ..., f(len - 1)`.
pub fn new_index_call_iter<T, F: Fn(u32) -> T>(len: u32, f: F) -> (r: IndexCallIterator<
    UnsignedFnContext<T, F>,
>)
    requires
        unsigned_fn_ok(f, len),
    ensures
        r.wf(),
        r.cursor() == 0,
        r.count() == len,
        forall|i: int, y: T|
            0 <= i < len && #[trigger] f.ensures((i as u32,), y) ==> r.remaining()[i] == y,
{
    let cxt = UnsignedFnContext::new(len, f);
    let r = IndexCallIterator::new(cxt);
    r
}

/// Makes a sequence of `f(0), ..., f(n - 1)`, where `n` is what `f_len` returns;
/// `f_len` is called once.
pub fn new_index_call_iterator<T, FLen: Fn() -> u32, F: Fn(u32) -> T>(f_len: FLen, f: F) -> (r:
    IndexCallIterator<UnsignedFnContext<T, F>>)
    requires
        f_len.requires(()),
        forall|n: u32| #[trigger] f_len.ensures((), n) ==> unsigned_fn_ok(f, n),
    ensures
        r.wf(),
        r.cursor() == 0,
        r.count() <= u32::MAX,
        f_len.ensures((), r.count() as u32),
        forall|i: int, y: T|
            0 <= i < r.count() && #[trigger] f.ensures((i as u32,), y) ==> r.remaining()[i] == y,
{
    let len = f_len();
    new_index_call_iter(len, f)
}

/// Makes a sequence of `f(0), ..., f(n - 1)`, where `n` is what `f_len` returns,
/// when `n` is not negative; none when it is the sentinel -1. `f_len` is called
/// once, and `f` never where no sequence is made.
pub fn new_index_call_iterator_check_positive<T, FLen: Fn() -> i32, F: Fn(i32) -> T>(
    f_len: FLen,
    f: F,
) -> (r: Option<IndexCallIterator<SignedFnContext<T, F>>>)
    requires
        f_len.requires(()),
        forall|n: i32| #[trigger] f_len.ensures((), n) ==> n >= -1,
        forall|n: i32| #[trigger] f_len.ensures((), n) ==> signed_fn_ok(f, n),
    ensures
        exists|n: i32|
            #[trigger] f_len.ensures((), n) && (n == -1 <==> r is None) && (r matches Some(it)
                ==> it.count() == n),
        r matches Some(it) ==> {
            &&& it.wf()
            &&& it.cursor() == 0
            &&& forall|i: int, y: T|
                0 <= i < it.count() && #[trigger] f.ensures((i as i32,), y) ==> it.remaining()[i]
                    == y
        },
{
    let len = f_len();
    if len >= 0 {
        let cxt = SignedFnContext::new(len, f);
        let r = IndexCallIterator::new_check_positive(cxt);
        match r {
            Some(it) => {
                Some(it)
            },
            None => None,
        }
    } else {
        None
    }
}

/// Makes a sequence of `f(0), ..., f(len - 1)`, for a closure that gives `u32`
/// items.
pub fn new_index_call_iter_boxed<F: Fn(u32) -> u32>(len: u32, f: F) -> (r: IndexCallIterator<
    UnsignedFnContext<u32, F>,
>)
    requires
        unsigned_fn_ok(f, len),
    ensures
        r.wf(),
        r.cursor() == 0,
        r.count() == len,
        forall|i: int, y: u32|
            0 <= i < len && #[trigger] f.ensures((i as u32,), y) ==> r.remaining()[i] == y,
{
    new_index_call_iter(len, f)
}

/// Makes a sequence of `f(0), ..., f(n - 1)`, where `n` is what `f_len` returns,
/// for a closure that gives `u32` items; `f_len` is called once.
pub fn new_index_call_iterator_u32<FLen: Fn() -> u32, F: Fn(u32) -> u32>(f_len: FLen, f: F) -> (r:
    IndexCallIterator<UnsignedFnContext<u32, F>>)
    requires
        f_len.requires(()),
        forall|n: u32| #[trigger] f_len.ensures((), n) ==> unsigned_fn_ok(f, n),
    ensures
        r.wf(),
        r.cursor() == 0,
        r.count() <= u32::MAX,
        f_len.ensures((), r.count() as u32),
        forall|i: int, y: u32|
            0 <= i < r.count() && #[trigger] f.ensures((i as u32,), y) ==> r.remaining()[i] == y,
{
    new_index_call_iterator(f_len, f)
}

} // verus!
