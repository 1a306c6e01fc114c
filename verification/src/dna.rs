//! DNA derivation: the 16-byte attribute blob of an asset, its gender, and the
//! mixing functions that produce fresh blobs for minting and breeding.
//!
//! A DNA blob is carried as one 128-bit word; byte 0 is the least-significant
//! byte of the word.

use vstd::prelude::*;

verus! {

/// The gender of an asset, fixed at creation.
#[derive(Clone, Copy, PartialEq, Eq, Structural, Debug)]
pub enum Gender {
    Female,
    Male,
}

/// Gender is the parity of the first byte of the DNA: even means Female, odd
/// means Male. With byte 0 in the low bits of the word, that parity is the low
/// bit of the word itself.
pub open spec fn spec_gender_of(dna: u128) -> Gender {
    if dna % 2 == 0 {
        Gender::Female
    } else {
        Gender::Male
    }
}

/// Derive the gender encoded in a DNA blob.
pub fn gender_of(dna: u128) -> (g: Gender)
    ensures
        g == spec_gender_of(dna),
{
    if dna % 2 == 0 {
        Gender::Female
    } else {
        Gender::Male
    }
}

/// Deterministic one-way-style mixing of the registry's monotonic nonce,
/// caller-supplied entropy, and the requesting account into a fresh DNA word.
pub open spec fn spec_derive_dna(nonce: u64, entropy: u128, account: u64) -> u128 {
    entropy ^ (nonce as u128) ^ ((nonce as u128) << 72) ^ ((account as u128) << 24)
}

/// Mix a nonce, external entropy and an account into a DNA blob. The same
/// inputs always give the same output, so tests can fix the entropy; for a
/// fixed entropy and account, distinct nonces give distinct outputs
/// (`lemma_derive_dna_distinct_nonces`).
pub fn derive_dna(nonce: u64, entropy: u128, account: u64) -> (dna: u128)
    ensures
        dna == spec_derive_dna(nonce, entropy, account),
{
    entropy ^ (nonce as u128) ^ ((nonce as u128) << 72) ^ ((account as u128) << 24)
}

/// For one entropy value and one account, two different nonces can never
/// collide on the derived DNA.
pub proof fn lemma_derive_dna_distinct_nonces(n1: u64, n2: u64, entropy: u128, account: u64)
    requires
        n1 != n2,
    ensures
        spec_derive_dna(n1, entropy, account) != spec_derive_dna(n2, entropy, account),
{
    assert((entropy ^ (n1 as u128) ^ ((n1 as u128) << 72) ^ ((account as u128) << 24)) != (entropy
        ^ (n2 as u128) ^ ((n2 as u128) << 72) ^ ((account as u128) << 24))) by (bit_vector)
        requires
            n1 != n2,
    ;
}

/// Child DNA from two parents and a selector mask: every bit that is set in
/// `mask` is taken from `mom`, every bit that is clear is taken from `dad`.
pub open spec fn spec_child_dna(mom: u128, dad: u128, mask: u128) -> u128 {
    (mom & mask) | (dad & !mask)
}

/// Mix two parents' DNA under a freshly derived selector mask.
pub fn child_dna(mom: u128, dad: u128, mask: u128) -> (dna: u128)
    ensures
        dna == spec_child_dna(mom, dad, mask),
{
    (mom & mask) | (dad & !mask)
}

} // verus!
