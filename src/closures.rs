//! Functions handed out as values.

use vstd::prelude::*;

verus! {

/// Returns a function that adds two to its argument.
pub fn new_ret_closure() -> (f: impl Fn(u32) -> u32)
    ensures
        forall|x: u32| x <= u32::MAX - 2 ==> #[trigger] f.requires((x,)),
        forall|x: u32, y: u32| #[trigger] f.ensures((x,), y) ==> y == x + 2,
{
    |x: u32| -> (y: u32)
        requires
            x <= u32::MAX - 2,
        ensures
            y == x + 2,
        { x + 2 }
}

/// Does nothing.
pub fn new_index_call_iter_test() {
}

} // verus!
