//! A deterministic transaction-validation engine for a cell-based
//! order-matching protocol: it locates the protocol's singleton entity cell,
//! gathers trade orders from aggregated sub-transactions and freestanding
//! continuation cells, and walks a cursor over the output cells to enforce
//! fill semantics, the cross-multiplied price invariant, capacity
//! conservation, and continuation-cell linkage. Every mismatch rejects the
//! whole transaction; acceptance and every rejection are stated exactly in
//! the contracts of `validate::validate_dex` and the functions it draws on.

pub mod arith;
pub mod bytes;
pub mod engine;
pub mod hashing;
pub mod locate;
pub mod model;
pub mod order;
pub mod validate;

use vstd::prelude::*;

verus! {

/// A validation failure; every variant rejects the whole transaction.
#[derive(Clone, Copy, Debug, PartialEq, Eq, Structural)]
pub enum Error {
    /// Wrong argument lengths, missing cells, duplicate entity cells,
    /// leftover orders, or malformed cell layout.
    StructuralError,
    /// The cross-multiplied price invariant fails.
    PriceViolation,
    /// Realized capacity or token amount below the order's claimed minimum.
    ConservationViolation,
    /// A hash-derived identity or continuation-cell argument triple mismatch.
    LinkageViolation,
    /// A deadline order's block-number check fails.
    TemporalViolation,
}

} // verus!
