//! Identities of the parties and storage slots the ledgers refer to.

use vstd::prelude::*;

verus! {

/// Compares two 32-byte values byte by byte.
pub fn digest_eq(a: &[u8; 32], b: &[u8; 32]) -> (r: bool)
    ensures
        r == (*a == *b),
{
    let mut i: usize = 0;
    while i < 32
        invariant
            i <= 32,
            forall|k: int| 0 <= k < i ==> a[k] == b[k],
        decreases 32 - i,
    {
        if a[i] != b[i] {
            return false;
        }
        i += 1;
    }
    assert(*a =~= *b);
    true
}

/// A 32-byte identity: an owner, an authority, a mint or a storage address.
#[derive(Clone, Copy, Debug)]
pub struct Identity {
    pub bytes: [u8; 32],
}

impl PartialEq for Identity {
    fn eq(&self, other: &Self) -> (r: bool) {
        digest_eq(&self.bytes, &other.bytes)
    }
}

impl Eq for Identity {}

impl vstd::std_specs::cmp::PartialEqSpecImpl for Identity {
    open spec fn obeys_eq_spec() -> bool {
        true
    }

    open spec fn eq_spec(&self, other: &Self) -> bool {
        *self == *other
    }
}

pub fn same(a: Identity, b: Identity) -> (r: bool)
    ensures
        r == (a == b),
{
    a == b
}

pub fn differ(a: Identity, b: Identity) -> (r: bool)
    ensures
        r == (a != b),
{
    a != b
}

} // verus!
