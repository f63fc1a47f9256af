//! The failure kinds that all three ledgers report.

use vstd::prelude::*;

verus! {

/// What went wrong, independent of the ledger that reported it.
#[derive(Clone, Copy, Debug, PartialEq, Eq, Structural)]
pub enum ErrorKind {
    /// An argument is out of bounds; nothing was touched.
    Validation,
    /// The operation is not allowed in the record's current state.
    State,
    /// A balance or stake is too low for the requested movement.
    InsufficientFunds,
    /// A checked arithmetic step has no representable result.
    Overflow,
    /// The caller is not the owner or authority the record names.
    Authorization,
    /// A record the operation refers to does not exist.
    NotFound,
}

} // verus!
