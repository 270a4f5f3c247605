//! Caller identities.
//!
//! An identity is an opaque, fixed-size (32-byte) value with no semantics
//! beyond equality: the registry only ever compares identities against the
//! stored administrator or a record's owner.

use vstd::prelude::*;

verus! {

/// An opaque 32-byte account identity, stored as two 128-bit words.
///
/// Identities are only ever compared for equality; the registry never
/// inspects their contents.
#[derive(Clone, Copy, Debug, Eq, Hash, PartialEq, Structural)]
pub struct AccountId {
    pub hi: u128,
    pub lo: u128,
}

impl AccountId {
    /// Builds an identity from its two 128-bit words.
    pub fn new(hi: u128, lo: u128) -> (id: AccountId)
        ensures
            id == (AccountId { hi, lo }),
    {
        AccountId { hi, lo }
    }

    /// The all-zero identity, used as the placeholder administrator of a
    /// default-constructed registry.
    pub open spec fn zero_spec() -> AccountId {
        AccountId { hi: 0, lo: 0 }
    }

    /// Returns the all-zero identity.
    pub fn zero() -> (id: AccountId)
        ensures
            id == AccountId::zero_spec(),
    {
        AccountId { hi: 0, lo: 0 }
    }
}

} // verus!
