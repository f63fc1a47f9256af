//! Storage slots: the places where the ledgers keep their records.

use crate::identity::Identity;
use vstd::prelude::*;

verus! {

/// A storage slot at a fixed address, holding at most one record.
///
/// The address is derived elsewhere from the record's identifying fields; the
/// ledgers only rely on a slot being either vacant or occupied.
#[derive(Clone, Debug, PartialEq, Eq)]
pub struct Slot<T> {
    pub key: Identity,
    pub record: Option<T>,
}

impl<T> Slot<T> {
    /// A slot that holds no record yet.
    pub fn vacant(key: Identity) -> (slot: Self)
        ensures
            slot.key == key,
            slot.record is None,
    {
        Slot { key, record: None }
    }

    /// A slot that holds `record`.
    pub fn occupied(key: Identity, record: T) -> (slot: Self)
        ensures
            slot.key == key,
            slot.record == Some(record),
    {
        Slot { key, record: Some(record) }
    }

    /// Whether the slot holds a record.
    pub fn is_occupied(&self) -> (r: bool)
        ensures
            r == (self.record is Some),
    {
        self.record.is_some()
    }
}

} // verus!
