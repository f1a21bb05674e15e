//! Integer types in which an index-call interface reports counts and indices.

use vstd::prelude::*;

verus! {

/// A count or index type of an index-call interface.
pub trait Indexable: Sized {
    /// The mathematical value of this count or index.
    spec fn index_value(&self) -> int;

    /// The largest value that the type can hold.
    spec fn index_max() -> int;

    /// Converts a `usize` index into this type.
    fn as_index(idx: usize) -> (r: Self)
        requires
            idx as int <= Self::index_max(),
        ensures
            r.index_value() == idx as int,
    ;
}

/// A count type that is never negative.
pub trait UnsignedIndexable: Indexable {
    /// Converts this count into a `usize`.
    fn from_index(self) -> (r: usize)
        ensures
            r as int == self.index_value(),
            r as int <= Self::index_max(),
    ;
}

/// A count type whose negative values are sentinels.
pub trait SignedIndexable: Indexable {
    /// Converts this count into an `isize`.
    fn from_index(self) -> (r: isize)
        ensures
            r as int == self.index_value(),
            r as int <= Self::index_max(),
    ;
}

impl Indexable for u32 {
    open spec fn index_value(&self) -> int {
        *self as int
    }

    open spec fn index_max() -> int {
        u32::MAX as int
    }

    fn as_index(idx: usize) -> (r: u32) {
        idx as u32
    }
}

impl Indexable for i32 {
    open spec fn index_value(&self) -> int {
        *self as int
    }

    open spec fn index_max() -> int {
        i32::MAX as int
    }

    fn as_index(idx: usize) -> (r: i32) {
        idx as i32
    }
}

impl UnsignedIndexable for u32 {
    fn from_index(self) -> (r: usize) {
        self as usize
    }
}

impl SignedIndexable for i32 {
    fn from_index(self) -> (r: isize) {
        self as isize
    }
}

} // verus!
