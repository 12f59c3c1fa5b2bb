//! Byte-sequence helpers: equality, slicing, little-endian integer layouts.
//!
//! The protocol fixes two binary layouts owned by this crate: fungible-token
//! balances are the first 16 bytes of a cell's data, little-endian unsigned
//! 128-bit; the entity-creation digest covers a little-endian 64-bit index.

use vstd::prelude::*;

verus! {

/// The little-endian byte layout of an unsigned 64-bit value.
pub open spec fn u64_le_bytes(v: u64) -> Seq<u8> {
    seq![
        (v & 0xff) as u8,
        ((v >> 8) & 0xff) as u8,
        ((v >> 16) & 0xff) as u8,
        ((v >> 24) & 0xff) as u8,
        ((v >> 32) & 0xff) as u8,
        ((v >> 40) & 0xff) as u8,
        ((v >> 48) & 0xff) as u8,
        ((v >> 56) & 0xff) as u8,
    ]
}

/// The little-endian byte layout of an unsigned 128-bit value.
pub open spec fn u128_le_bytes(v: u128) -> Seq<u8> {
    seq![
        (v & 0xff) as u8,
        ((v >> 8) & 0xff) as u8,
        ((v >> 16) & 0xff) as u8,
        ((v >> 24) & 0xff) as u8,
        ((v >> 32) & 0xff) as u8,
        ((v >> 40) & 0xff) as u8,
        ((v >> 48) & 0xff) as u8,
        ((v >> 56) & 0xff) as u8,
        ((v >> 64) & 0xff) as u8,
        ((v >> 72) & 0xff) as u8,
        ((v >> 80) & 0xff) as u8,
        ((v >> 88) & 0xff) as u8,
        ((v >> 96) & 0xff) as u8,
        ((v >> 104) & 0xff) as u8,
        ((v >> 112) & 0xff) as u8,
        ((v >> 120) & 0xff) as u8,
    ]
}

/// The unsigned 128-bit value held little-endian in the first 16 bytes of `s`.
pub open spec fn u128_from_le(s: Seq<u8>) -> u128
    recommends
        s.len() >= 16,
{
    (s[0] as u128) | ((s[1] as u128) << 8) | ((s[2] as u128) << 16) | ((s[3] as u128) << 24)
        | ((s[4] as u128) << 32) | ((s[5] as u128) << 40) | ((s[6] as u128) << 48)
        | ((s[7] as u128) << 56) | ((s[8] as u128) << 64) | ((s[9] as u128) << 72)
        | ((s[10] as u128) << 80) | ((s[11] as u128) << 88) | ((s[12] as u128) << 96)
        | ((s[13] as u128) << 104) | ((s[14] as u128) << 112) | ((s[15] as u128) << 120)
}

/// Byte-for-byte equality of two byte vectors.
pub fn bytes_eq(a: &Vec<u8>, b: &Vec<u8>) -> (r: bool)
    ensures
        r == (a@ == b@),
{
    if a.len() != b.len() {
        return false;
    }
    let mut i: usize = 0;
    while i < a.len()
        invariant
            i <= a@.len(),
            a@.len() == b@.len(),
            forall|j: int| 0 <= j < i ==> a@[j] == b@[j],
        decreases a@.len() - i,
    {
        if a[i] != b[i] {
            return false;
        }
        i += 1;
    }
    proof {
        assert(a@ =~= b@);
    }
    true
}

/// The bytes of `a` from `start` (inclusive) to `end` (exclusive), as a new vector.
pub fn subvec(a: &Vec<u8>, start: usize, end: usize) -> (r: Vec<u8>)
    requires
        start <= end <= a@.len(),
    ensures
        r@ == a@.subrange(start as int, end as int),
{
    let mut r: Vec<u8> = Vec::new();
    let mut i: usize = start;
    while i < end
        invariant
            start <= i <= end <= a@.len(),
            r@ == a@.subrange(start as int, i as int),
        decreases end - i,
    {
        r.push(a[i]);
        proof {
            assert(r@ =~= a@.subrange(start as int, i + 1));
        }
        i += 1;
    }
    r
}

/// Appends every byte of `src` to `dst`.
pub fn append_bytes(dst: &mut Vec<u8>, src: &Vec<u8>)
    ensures
        final(dst)@ == old(dst)@ + src@,
{
    let mut i: usize = 0;
    while i < src.len()
        invariant
            i <= src@.len(),
            dst@ == old(dst)@ + src@.subrange(0, i as int),
        decreases src@.len() - i,
    {
        dst.push(src[i]);
        proof {
            assert(old(dst)@ + src@.subrange(0, i + 1) =~= (old(dst)@ + src@.subrange(
                0,
                i as int,
            )).push(src@[i as int]));
        }
        i += 1;
    }
    proof {
        assert(src@.subrange(0, src@.len() as int) =~= src@);
    }
}

/// Encodes `v` as its 8 little-endian bytes.
pub fn u64_to_le_bytes(v: u64) -> (r: Vec<u8>)
    ensures
        r@ == u64_le_bytes(v),
{
    let mut r: Vec<u8> = Vec::new();
    r.push((v & 0xff) as u8);
    r.push(((v >> 8) & 0xff) as u8);
    r.push(((v >> 16) & 0xff) as u8);
    r.push(((v >> 24) & 0xff) as u8);
    r.push(((v >> 32) & 0xff) as u8);
    r.push(((v >> 40) & 0xff) as u8);
    r.push(((v >> 48) & 0xff) as u8);
    r.push(((v >> 56) & 0xff) as u8);
    proof {
        assert(r@ =~= u64_le_bytes(v));
    }
    r
}

/// Encodes `v` as its 16 little-endian bytes.
pub fn u128_to_le_bytes(v: u128) -> (r: Vec<u8>)
    ensures
        r@ == u128_le_bytes(v),
{
    let mut r: Vec<u8> = Vec::new();
    r.push((v & 0xff) as u8);
    r.push(((v >> 8) & 0xff) as u8);
    r.push(((v >> 16) & 0xff) as u8);
    r.push(((v >> 24) & 0xff) as u8);
    r.push(((v >> 32) & 0xff) as u8);
    r.push(((v >> 40) & 0xff) as u8);
    r.push(((v >> 48) & 0xff) as u8);
    r.push(((v >> 56) & 0xff) as u8);
    r.push(((v >> 64) & 0xff) as u8);
    r.push(((v >> 72) & 0xff) as u8);
    r.push(((v >> 80) & 0xff) as u8);
    r.push(((v >> 88) & 0xff) as u8);
    r.push(((v >> 96) & 0xff) as u8);
    r.push(((v >> 104) & 0xff) as u8);
    r.push(((v >> 112) & 0xff) as u8);
    r.push(((v >> 120) & 0xff) as u8);
    proof {
        assert(r@ =~= u128_le_bytes(v));
    }
    r
}

/// Reads the little-endian unsigned 128-bit value from the first 16 bytes of `data`.
pub fn read_u128_le(data: &Vec<u8>) -> (r: u128)
    requires
        data@.len() >= 16,
    ensures
        r == u128_from_le(data@),
{
    (data[0] as u128) | ((data[1] as u128) << 8) | ((data[2] as u128) << 16) | ((data[3] as u128)
        << 24) | ((data[4] as u128) << 32) | ((data[5] as u128) << 40) | ((data[6] as u128) << 48)
        | ((data[7] as u128) << 56) | ((data[8] as u128) << 64) | ((data[9] as u128) << 72) | ((
    data[10] as u128) << 80) | ((data[11] as u128) << 88) | ((data[12] as u128) << 96) | ((
    data[13] as u128) << 104) | ((data[14] as u128) << 112) | ((data[15] as u128) << 120)
}

} // verus!
