//! Content hashing: the fixed-key 256-bit digest used for order identity
//! and the entity-creation check.

use vstd::prelude::*;

use crate::order::{encode_order, order_bytes, Order};

verus! {

/// The 32-byte digest of `data` under the protocol's fixed-key hash
/// function (Blake2b-256 personalized with the ledger's default key).
pub uninterp spec fn blake2b256_of(data: Seq<u8>) -> Seq<u8>;

/// Relies on blake2b_ref::Blake2bBuilder: Blake2b with digest length 32 and
/// personalization "ckb-default-hash" is a pure function of the input bytes
/// and always yields 32 bytes.
#[verifier::external_body]
pub fn blake2b256(data: &Vec<u8>) -> (r: Vec<u8>)
    ensures
        r@ == blake2b256_of(data@),
        r@.len() == 32,
{
    let mut blake = blake2b_ref::Blake2bBuilder::new(32).personal(b"ckb-default-hash").build();
    blake.update(data.as_slice());
    let mut hash = [0u8; 32];
    blake.finalize(&mut hash);
    hash.to_vec()
}

/// The content hash of an order: the fixed-key digest of its canonical bytes.
pub open spec fn order_hash(o: Order) -> Seq<u8> {
    blake2b256_of(order_bytes(o))
}

/// Computes an order's content hash.
pub fn hash_order(o: &Order) -> (r: Vec<u8>)
    ensures
        r@ == order_hash(*o),
        r@.len() == 32,
{
    let encoded = encode_order(o);
    blake2b256(&encoded)
}

} // verus!
