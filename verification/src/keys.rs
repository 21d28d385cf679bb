//! 32-byte identifiers and their null sentinel.
//!
//! Every persisted record addresses other records by a 32-byte opaque
//! identifier. Freshly allocated storage is zero-filled, and the protocol
//! relies on the all-zero identifier as the explicit "not yet set" value:
//! it doubles as the null pointer of every linked-list field.

use vstd::prelude::*;

verus! {

/// Raw bytes of a 32-byte identifier (a storage address or asset id).
pub type PubkeyData = Vec<u8>;

/// Width of an identifier in bytes.
pub const KEY_LEN: usize = 32;

/// A well-formed identifier holds exactly 32 bytes.
pub open spec fn is_key(s: Seq<u8>) -> bool {
    s.len() == KEY_LEN
}

/// The all-zero identifier: the null sentinel of every pointer field.
pub open spec fn null_key_seq() -> Seq<u8> {
    Seq::new(KEY_LEN as nat, |i: int| 0u8)
}

/// Whether an identifier is the null sentinel.
pub open spec fn is_null_key(s: Seq<u8>) -> bool {
    s == null_key_seq()
}

/// Builds the null sentinel identifier.
pub fn null_key() -> (r: PubkeyData)
    ensures
        r@ == null_key_seq(),
        is_key(r@),
{
    let mut r: Vec<u8> = Vec::new();
    let mut i: usize = 0;
    while i < KEY_LEN
        invariant
            i <= KEY_LEN,
            r@.len() == i,
            forall|j: int| 0 <= j < i ==> r@[j] == 0u8,
        decreases KEY_LEN - i,
    {
        r.push(0u8);
        i = i + 1;
    }
    proof {
        assert(r@ =~= null_key_seq());
    }
    r
}

/// Compares two identifiers byte for byte.
pub fn keys_equal(a: &PubkeyData, b: &PubkeyData) -> (r: bool)
    ensures
        r == (a@ == b@),
{
    let r = a == b;
    proof {
        if a@ =~= b@ {
            assert(a@ == b@);
        }
    }
    r
}

/// Tests an identifier against the null sentinel.
pub fn key_is_null(k: &PubkeyData) -> (r: bool)
    ensures
        r == is_null_key(k@),
{
    let n = null_key();
    keys_equal(k, &n)
}

/// Copies an identifier.
pub fn copy_key(k: &PubkeyData) -> (r: PubkeyData)
    ensures
        r@ == k@,
{
    let r = k.clone();
    proof {
        assert(r@ =~= k@);
    }
    r
}

/// Reads the 32-byte identifier stored at `start` in a record buffer.
pub fn read_key(src: &[u8], start: usize) -> (r: PubkeyData)
    requires
        start + KEY_LEN <= src@.len(),
    ensures
        r@ == src@.subrange(start as int, start as int + KEY_LEN),
        is_key(r@),
{
    let n = src.len();
    assert(start + KEY_LEN <= n);
    let s = vstd::slice::slice_subrange(src, start, start + KEY_LEN);
    vstd::slice::slice_to_vec(s)
}

} // verus!
