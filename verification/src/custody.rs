//! Orders for the token-custody service.
//!
//! The ledgers never move tokens themselves. An operation that owes a token
//! movement returns the order for it; the caller hands the order to the custody
//! service and drops the whole operation if the service refuses.

use crate::identity::Identity;
use vstd::prelude::*;
use vstd::string::StringSliceAdditionalSpecFns;

verus! {

/// The protocol-owned vaults, each with the label its authority is derived from.
#[derive(Clone, Copy, Debug, PartialEq, Eq, Structural)]
pub enum VaultKind {
    /// The pool that publisher revenue is paid from.
    RevenuePool,
    /// The vault that holds one publisher's stake.
    StakeVault,
    /// The vault that holds one subscriber's prepaid balance.
    SubscriberVault,
}

impl VaultKind {
    /// The label's bytes.
    pub open spec fn label(self) -> Seq<u8> {
        match self {
            VaultKind::RevenuePool => "revenue_pool".spec_bytes(),
            VaultKind::StakeVault => "stake_vault".spec_bytes(),
            VaultKind::SubscriberVault => "subscriber_vault".spec_bytes(),
        }
    }

    /// The label's bytes, as the first derivation seed.
    pub fn label_bytes(&self) -> (r: Vec<u8>)
        ensures
            r@ == self.label(),
    {
        let text = match self {
            VaultKind::RevenuePool => "revenue_pool",
            VaultKind::StakeVault => "stake_vault",
            VaultKind::SubscriberVault => "subscriber_vault",
        };
        vstd::slice::slice_to_vec(text.as_bytes())
    }
}

/// Who authorizes a transfer.
#[derive(Clone, Copy, Debug, PartialEq, Eq)]
pub enum Authority {
    /// The owner of the source account, who signed the operation.
    Owner(Identity),
    /// The protocol, on behalf of a vault whose authority is derived from the
    /// vault's label, the identity it belongs to and a bump byte. Only the
    /// vault that these seeds derive can be the source of the transfer.
    Vault { kind: VaultKind, seed: Identity, bump: u8 },
}

impl Authority {
    /// The derivation seeds that the custody service checks the signature
    /// against; none for an owner, who signs in person.
    pub open spec fn seeds(self) -> Seq<Seq<u8>> {
        match self {
            Authority::Owner(_) => seq![],
            Authority::Vault { kind, seed, bump } => seq![kind.label(), seed.bytes@, seq![bump]],
        }
    }

    /// Builds the signer seeds for this authority.
    pub fn signer_seeds(&self) -> (r: Vec<Vec<u8>>)
        ensures
            r@.len() == self.seeds().len(),
            forall|i: int| 0 <= i < r@.len() ==> (#[trigger] r@[i])@ == self.seeds()[i],
    {
        let mut out: Vec<Vec<u8>> = Vec::new();
        match self {
            Authority::Owner(_) => {},
            Authority::Vault { kind, seed, bump } => {
                let label = kind.label_bytes();
                let key = vstd::slice::slice_to_vec(seed.bytes.as_slice());
                let mut last: Vec<u8> = Vec::new();
                last.push(*bump);
                out.push(label);
                out.push(key);
                out.push(last);
            },
        }
        out
    }
}

/// An order to move `amount` tokens from one token account to another.
#[derive(Clone, Copy, Debug, PartialEq, Eq)]
pub struct Transfer {
    pub from: Identity,
    pub to: Identity,
    pub authority: Authority,
    pub amount: u64,
}

/// An order to open a token vault for `mint`, controlled by `authority`.
#[derive(Clone, Copy, Debug, PartialEq, Eq)]
pub struct VaultOpening {
    pub vault: Identity,
    pub mint: Identity,
    pub authority: Identity,
}

} // verus!
