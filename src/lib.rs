//! Lazy, length-aware sequences over "count plus item-at-index" interfaces.

pub mod callable;
pub mod closures;
pub mod fn_context;
pub mod index;
pub mod iter;
pub mod xor;

pub use callable::IndexCallable;
pub use closures::{new_index_call_iter_test, new_ret_closure};
pub use index::{Indexable, SignedIndexable, UnsignedIndexable};
pub use fn_context::{
    new_index_call_iter, new_index_call_iter_boxed, new_index_call_iterator,
    new_index_call_iterator_check_positive, new_index_call_iterator_u32, SignedFnContext,
    UnsignedFnContext,
};
pub use iter::IndexCallIterator;
pub use xor::{cipher_iter, cipher_iter_with_data_and_key};
