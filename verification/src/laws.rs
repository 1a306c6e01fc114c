//! The registry's cross-operation guarantees, stated and proved once over the
//! abstract transitions that the operations' contracts are written in.

use vstd::prelude::*;

use crate::dna::Gender;
use crate::dna::spec_gender_of;
use crate::errors::KittyError;
use crate::registry::RegistryView;
use crate::registry::breed_check;
use crate::registry::breed_dna;
use crate::registry::breed_post;
use crate::registry::buy_check;
use crate::registry::lemma_owned_elsewhere;
use crate::registry::lemma_remove_value_unique;
use crate::registry::lemma_transfer_post_wf;
use crate::registry::mint_check;
use crate::registry::mint_post;
use crate::registry::transfer_check;
use crate::registry::transfer_post;

verus! {

/// Every successful creation — create and breed both insert through the mint
/// transition — steps the global counter by exactly one, and the new
/// identifier is absent from the registry beforehand and present afterward
/// with no listed price.
pub proof fn lemma_mint_creates(
    s: RegistryView,
    owner: u64,
    dna: u128,
    gender: Gender,
    fresh_nonce: bool,
)
    requires
        mint_check(s, owner, dna) is None,
    ensures
        mint_post(s, owner, dna, gender, fresh_nonce).count == s.count + 1,
        !s.kitties.contains_key(dna),
        mint_post(s, owner, dna, gender, fresh_nonce).kitties.contains_key(dna),
        mint_post(s, owner, dna, gender, fresh_nonce).kitties[dna].price is None,
        mint_post(s, owner, dna, gender, fresh_nonce).kitties[dna].owner == owner,
{
}

/// The breed instance of `lemma_mint_creates`: a successful breed creates
/// exactly one fresh, unlisted asset for the breeder.
pub proof fn lemma_breed_creates(
    s: RegistryView,
    breeder: u64,
    mom_id: u128,
    dad_id: u128,
    entropy: u128,
)
    requires
        breed_check(s, breeder, mom_id, dad_id, entropy) is None,
    ensures
        breed_post(s, breeder, mom_id, dad_id, entropy).count == s.count + 1,
        !s.kitties.contains_key(breed_dna(s, breeder, mom_id, dad_id, entropy)),
        breed_post(s, breeder, mom_id, dad_id, entropy).kitties.contains_key(
            breed_dna(s, breeder, mom_id, dad_id, entropy),
        ),
        breed_post(s, breeder, mom_id, dad_id, entropy).kitties[breed_dna(
            s,
            breeder,
            mom_id,
            dad_id,
            entropy,
        )].price is None,
{
    let child = breed_dna(s, breeder, mom_id, dad_id, entropy);
    lemma_mint_creates(s, breeder, child, spec_gender_of(child), true);
}

/// In every well-formed state, the set of identifiers in an account's
/// ownership entry equals the set of registered assets whose owner field is
/// that account: the index and the registry never diverge.
pub proof fn lemma_ownership_consistent(s: RegistryView, a: u64)
    requires
        s.wf(),
    ensures
        s.owned[a].to_set() == s.kitties.dom().filter(|id: u128| s.kitties[id].owner == a),
{
    let left = s.owned[a].to_set();
    let right = s.kitties.dom().filter(|id: u128| s.kitties[id].owner == a);
    assert forall|id: u128| #[trigger] left.contains(id) implies right.contains(id) by {
        assert(s.owned[a].contains(id));
        let i = choose|i: int| 0 <= i < s.owned[a].len() && s.owned[a][i] == id;
        assert(s.kitties.contains_key(s.owned[a][i]));
    }
    assert forall|id: u128| #[trigger] right.contains(id) implies left.contains(id) by {
        assert(s.kitties.contains_key(id) && s.kitties[id].owner == a);
        assert(s.owned[a].contains(id));
    }
    assert(left =~= right);
}

/// Transfer is its own semantic inverse: after a successful move of `id` from
/// `a` to `b`, the reverse move is accepted, and it restores the owner to `a`
/// with the price cleared; both accounts' entries hold `id` exactly as before
/// the first move, and counter and balances are untouched throughout.
pub proof fn lemma_transfer_round_trip(s: RegistryView, a: u64, b: u64, id: u128)
    requires
        s.wf(),
        transfer_check(s, a, b, id) is None,
    ensures
        transfer_check(transfer_post(s, a, b, id), b, a, id) is None,
        ({
            let back = transfer_post(transfer_post(s, a, b, id), b, a, id);
            &&& back.kitties[id].owner == a
            &&& back.kitties[id].price is None
            &&& back.owned[a].contains(id) && s.owned[a].contains(id)
            &&& !back.owned[b].contains(id) && !s.owned[b].contains(id)
            &&& back.count == s.count
            &&& back.balances == s.balances
        }),
{
    let s1 = transfer_post(s, a, b, id);
    let s2 = transfer_post(s1, b, a, id);
    lemma_transfer_post_wf(s, a, b, id);
    assert(s.owned[a].contains(id));
    lemma_owned_elsewhere(s, b, id);
    lemma_remove_value_unique(s.owned[a], id);
    assert(s1.owned[a].len() == s.owned[a].len() - 1);
    assert(s1.owned[a].len() < s.max_owned);
    assert(transfer_check(s1, b, a, id) is None);
    lemma_transfer_post_wf(s1, b, a, id);
    assert(s2.owned[a][s1.owned[a].len() as int] == id);
    assert(s2.owned[a].contains(id));
    assert(s1.owned[b][s.owned[b].len() as int] == id);
    assert(s1.owned[b].contains(id));
    lemma_remove_value_unique(s1.owned[b], id);
    assert(!s2.owned[b].contains(id));
}

/// Whenever the asset is registered and listed at a price above the buyer's
/// offered maximum, buy is rejected with exactly `PriceTooLow` — whatever the
/// buyer's identity, balance or capacity. The operation's own contract adds
/// that a rejected buy changes nothing: registry, index, counter and balances
/// stay as they were.
pub proof fn lemma_buy_price_too_low(s: RegistryView, buyer: u64, id: u128, max_price: u64)
    requires
        s.kitties.contains_key(id),
        s.kitties[id].price is Some,
        s.kitties[id].price.unwrap() > max_price,
    ensures
        buy_check(s, buyer, id, max_price) == Some(KittyError::PriceTooLow),
{
}

/// Breeding two parents of identical gender is rejected with exactly
/// `SameGenderParents`, whenever both parents exist and the breeder owns both.
pub proof fn lemma_breed_same_gender(
    s: RegistryView,
    breeder: u64,
    mom_id: u128,
    dad_id: u128,
    entropy: u128,
)
    requires
        s.kitties.contains_key(mom_id),
        s.kitties.contains_key(dad_id),
        s.kitties[mom_id].owner == breeder,
        s.kitties[dad_id].owner == breeder,
        s.kitties[mom_id].gender == s.kitties[dad_id].gender,
    ensures
        breed_check(s, breeder, mom_id, dad_id, entropy) == Some(KittyError::SameGenderParents),
{
}

/// A breed that passes its checks produces a child whose identifier differs
/// from every registered identifier — the two parents' in particular.
pub proof fn lemma_breed_fresh_child(
    s: RegistryView,
    breeder: u64,
    mom_id: u128,
    dad_id: u128,
    entropy: u128,
)
    requires
        breed_check(s, breeder, mom_id, dad_id, entropy) is None,
    ensures
        !s.kitties.contains_key(breed_dna(s, breeder, mom_id, dad_id, entropy)),
        breed_dna(s, breeder, mom_id, dad_id, entropy) != mom_id,
        breed_dna(s, breeder, mom_id, dad_id, entropy) != dad_id,
{
}

} // verus!
