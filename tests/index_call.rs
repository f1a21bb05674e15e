use index_call::{
    cipher_iter, cipher_iter_with_data_and_key, new_index_call_iter, new_index_call_iter_boxed,
    new_index_call_iter_test, new_index_call_iterator, new_index_call_iterator_check_positive,
    new_index_call_iterator_u32, new_ret_closure, IndexCallIterator, SignedFnContext,
    UnsignedFnContext,
};

fn unsigned_item(idx: u32) -> i32 {
    idx as i32
}

fn signed_item(idx: i32) -> i32 {
    idx
}

struct TestIndexCallableProvider {
    cxtu: u32,
    cxti: i32,
}

impl TestIndexCallableProvider {
    fn get_unsigned_children(
        self,
    ) -> IndexCallIterator<UnsignedFnContext<i32, fn(u32) -> i32>> {
        IndexCallIterator::new(UnsignedFnContext::new(self.cxtu, unsigned_item as fn(u32) -> i32))
    }

    fn get_signed_children(
        self,
    ) -> Option<IndexCallIterator<SignedFnContext<i32, fn(i32) -> i32>>> {
        IndexCallIterator::new_check_positive(SignedFnContext::new(
            self.cxti,
            signed_item as fn(i32) -> i32,
        ))
    }
}

#[test]
fn it_works() {}

#[test]
fn test_index_call_iterator() {
    let provider = TestIndexCallableProvider { cxti: 3, cxtu: 2 };

    let values = provider.get_unsigned_children();
    let len = values.len();
    let collected = values.collect_items();

    assert_eq!(collected, vec![0, 1]);
    assert_eq!(len, 2);
}

#[test]
fn test_optional_index_call_iterator() {
    let provider = TestIndexCallableProvider { cxti: 2, cxtu: 3 };
    let provider_no_children = TestIndexCallableProvider { cxti: -1, cxtu: 3 };

    let values = provider.get_signed_children();
    let not_values = provider_no_children.get_signed_children();
    let len = values.as_ref().map(|x| x.len());
    let collected = values.map(|x| x.collect_items());

    assert_eq!(collected, Some(vec![0, 1]));
    assert_eq!(len, Some(2));
    assert!(not_values.is_none());
}

#[test]
fn test_simple_index_call_iterator() {
    let cxtu: u32 = 2;
    let values = new_index_call_iterator(|| cxtu, |x| x as i32);
    let len = values.len();
    let collected = values.collect_items();

    assert_eq!(collected, vec![0, 1]);
    assert_eq!(len, 2);
}

#[test]
fn test_simple_optional_index_call_iterator() {
    let cxti: i32 = 2;
    let cxti_no_children: i32 = -1;

    let values = new_index_call_iterator_check_positive(|| cxti, |x| x as i32);
    let not_values = new_index_call_iterator_check_positive(|| cxti_no_children, |x| x as i32);
    let len = values.as_ref().map(|x| x.len());
    let collected = values.map(|x| x.collect_items());

    assert_eq!(collected, Some(vec![0, 1]));
    assert_eq!(len, Some(2));
    assert!(not_values.is_none());
}

#[test]
fn test_new_index_call_iterator() {
    assert_eq!(
        new_index_call_iterator(|| 0 as u32, |x| x + 10).collect_items(),
        Vec::<u32>::new()
    );
    assert_eq!(
        new_index_call_iterator(|| 3 as u32, |x| x + 10).collect_items(),
        vec![10, 11, 12]
    );
}

#[test]
fn test_new_index_call_iterator_u32() {
    assert_eq!(new_index_call_iterator_u32(|| 0, |x| x).collect_items(), Vec::<u32>::new());
    assert_eq!(new_index_call_iterator_u32(|| 3, |x| x).collect_items(), vec![0, 1, 2]);
}

#[test]
fn test_new_index_call_iter() {
    assert_eq!(new_index_call_iter(0, |x| x).collect_items(), Vec::<u32>::new());
    assert_eq!(new_index_call_iter(3, |x| x).collect_items(), vec![0, 1, 2]);
}

#[test]
fn test_new_index_call_iter_boxed() {
    assert_eq!(new_index_call_iter_boxed(0, |x| x).collect_items(), Vec::<u32>::new());
    assert_eq!(new_index_call_iter_boxed(3, |x| x).collect_items(), vec![0, 1, 2]);
}

#[test]
fn test_new_ret_closure() {
    assert_eq!(
        vec![1, 2, 3].into_iter().map(|x| x + 1).collect::<Vec<_>>(),
        vec![2, 3, 4]
    );
    assert_eq!(
        vec![1, 2, 3].into_iter().map(new_ret_closure()).collect::<Vec<_>>(),
        vec![3, 4, 5]
    );
}

#[test]
fn test_cipher_iter() {
    let data = vec![1, 2, 3];
    assert_eq!(cipher_iter(&data, 10), vec![11, 8, 9]);
}

#[test]
fn test_cipher_iter_keep_data_and_key() {
    assert_eq!(cipher_iter_with_data_and_key(), vec![10, 11, 8, 9, 14, 15]);
}

#[test]
fn noop_returns() {
    new_index_call_iter_test();
}
