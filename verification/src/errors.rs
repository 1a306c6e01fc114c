//! The rejection taxonomy of the registry's transition operations.

use vstd::prelude::*;

verus! {

/// Why a transition operation was rejected. Every rejection is synchronous and
/// leaves the registry completely unchanged.
#[derive(Clone, Copy, PartialEq, Eq, Structural, Debug)]
pub enum KittyError {
    /// The identifier names no asset in the registry.
    NotFound,
    /// The caller is not the owner of the asset it tries to act on.
    NotOwner,
    /// The global counter is full, or a per-owner collection is at capacity.
    CapacityExceeded,
    /// A new identifier collides with an existing one.
    DuplicateIdentifier,
    /// Sender and receiver of a transfer are the same account.
    TransferToSelf,
    /// The asset has no listed price.
    NotForSale,
    /// The listed price exceeds the buyer's offered maximum.
    PriceTooLow,
    /// The buyer's balance does not cover the listed price.
    InsufficientBalance,
    /// The two supplied breeding parents have the same gender.
    SameGenderParents,
}

} // verus!
