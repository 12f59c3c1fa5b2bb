//! Plain-value model of the transaction snapshot the validator reads.
//!
//! The ledger hands the validator one immutable transaction: ordered input
//! cells, ordered output cells, and the encoded bytes of the first input.
//! Every field here is a plain value; hashes are byte vectors supplied by
//! the ledger view alongside each cell.

use vstd::prelude::*;

use crate::bytes::bytes_eq;

verus! {

/// A cell predicate: code identity, hash-type, and argument bytes.
pub struct Script {
    pub code_hash: Vec<u8>,
    pub hash_type: u8,
    pub args: Vec<u8>,
}

/// An input cell, as the ledger view reports it.
pub struct InputCell {
    /// The cell's lock predicate.
    pub lock: Script,
    /// The 32-byte hash of the lock predicate, as the ledger computes it.
    pub lock_hash: Vec<u8>,
    /// The cell's optional type predicate.
    pub type_: Option<Script>,
}

/// An output cell, as the ledger view reports it.
pub struct OutputCell {
    /// Capacity token amount.
    pub capacity: u64,
    /// The cell's lock predicate.
    pub lock: Script,
    /// The 32-byte hash of the lock predicate, as the ledger computes it.
    pub lock_hash: Vec<u8>,
    /// The cell's optional type predicate.
    pub type_: Option<Script>,
    /// The 32-byte hash of the type predicate, when one is present.
    pub type_hash: Option<Vec<u8>>,
    /// The cell's data payload.
    pub data: Vec<u8>,
}

/// One transaction snapshot.
pub struct TxView {
    /// Input cells in transaction order.
    pub inputs: Vec<InputCell>,
    /// Output cells in transaction order.
    pub outputs: Vec<OutputCell>,
    /// The canonical encoded bytes of the first input, used by the
    /// entity-creation digest; meaningful only when `inputs` is non-empty.
    pub first_input_raw: Vec<u8>,
}

/// One aggregated sub-transaction: the cell ranges it owns and the order
/// batch it addresses to this protocol instance, if any.
pub struct Batch {
    /// Index of this sub-transaction's first input cell.
    pub input_cell_start: usize,
    /// Number of input cells the sub-transaction owns.
    pub input_cells: u32,
    /// Index of this sub-transaction's first output cell.
    pub output_cell_start: usize,
    /// Number of output cells the sub-transaction owns.
    pub output_cells: u32,
    /// The decoded order list addressed to this protocol instance, or
    /// `None` when the sub-transaction carries no action for it.
    pub orders: Option<Vec<crate::order::Order>>,
}

/// Two predicates share code identity and hash-type: the continuation-cell
/// family test, indifferent to argument bytes.
pub open spec fn script_family(a: Script, b: Script) -> bool {
    a.code_hash@ == b.code_hash@ && a.hash_type == b.hash_type
}

/// Full predicate equality: code identity, hash-type, and argument bytes.
pub open spec fn script_eq(a: Script, b: Script) -> bool {
    script_family(a, b) && a.args@ == b.args@
}

/// The optional predicate `t` is present and equals `s`.
pub open spec fn opt_script_eq(t: Option<Script>, s: Script) -> bool {
    t matches Some(x) && script_eq(x, s)
}

/// Decides whether `a` and `b` share code identity and hash-type.
pub fn script_same_family(a: &Script, b: &Script) -> (r: bool)
    ensures
        r == script_family(*a, *b),
{
    bytes_eq(&a.code_hash, &b.code_hash) && a.hash_type == b.hash_type
}

/// Decides full predicate equality.
pub fn script_equal(a: &Script, b: &Script) -> (r: bool)
    ensures
        r == script_eq(*a, *b),
{
    script_same_family(a, b) && bytes_eq(&a.args, &b.args)
}

/// Decides whether the optional predicate `t` is present and equals `s`.
pub fn opt_script_equal(t: &Option<Script>, s: &Script) -> (r: bool)
    ensures
        r == opt_script_eq(*t, *s),
{
    match t {
        Some(x) => script_equal(x, s),
        None => false,
    }
}

} // verus!
