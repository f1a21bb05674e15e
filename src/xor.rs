//! Byte sequences combined with a one-byte key by exclusive or.

use vstd::prelude::*;

verus! {

/// The key that `cipher_iter_with_data_and_key` applies.
pub const DEMO_KEY: u8 = 10;

/// The number of bytes that `cipher_iter_with_data_and_key` produces.
pub const DEMO_LEN: u8 = 6;

/// Each byte of `data` combined with `key` by exclusive or.
pub open spec fn xor_all(data: Seq<u8>, key: u8) -> Seq<u8> {
    data.map_values(|p: u8| p ^ key)
}

/// Combines each byte of `data` with `key` by exclusive or.
pub fn cipher_iter(data: &Vec<u8>, key: u8) -> (r: Vec<u8>)
    ensures
        r@ == xor_all(data@, key),
{
    let mut out: Vec<u8> = Vec::new();
    let mut i: usize = 0;
    while i < data.len()
        invariant
            i <= data@.len(),
            out@ == xor_all(data@.take(i as int), key),
        decreases data.len() - i,
    {
        out.push(data[i] ^ key);
        i += 1;
        assert(data@.take(i as int) =~= data@.take(i - 1) + seq![data@[i - 1]]);
        assert(out@ =~= xor_all(data@.take(i as int), key));
    }
    assert(data@.take(data@.len() as int) =~= data@);
    out
}

/// The bytes `0, 1, ..., DEMO_LEN - 1`, each combined with `DEMO_KEY` by
/// exclusive or.
pub fn cipher_iter_with_data_and_key() -> (r: Vec<u8>)
    ensures
        r@ == Seq::new(DEMO_LEN as nat, |p: int| (p as u8) ^ DEMO_KEY),
{
    let key: u8 = DEMO_KEY;
    let mut out: Vec<u8> = Vec::new();
    let mut p: u8 = 0;
    while p < DEMO_LEN
        invariant
            p <= DEMO_LEN,
            out@ == Seq::new(p as nat, |q: int| (q as u8) ^ key),
        decreases DEMO_LEN - p,
    {
        out.push(p ^ key);
        p += 1;
        assert(out@ =~= Seq::new(p as nat, |q: int| (q as u8) ^ key));
    }
    out
}

} // verus!
