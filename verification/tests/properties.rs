//! Concrete checks of the registry's guarantees: counter stepping, index and
//! registry consistency, the transfer round trip, every rejection variant,
//! the DNA formulas, and the count-query surface.

use kitties::dna::{child_dna, derive_dna, gender_of, Gender};
use kitties::errors::KittyError;
use kitties::registry::Registry;
use kitties::rpc::{map_count_result, Error, PalletKittiesRpc};

fn seeded() -> Registry {
    let mut reg = Registry::new(100);
    let female_dna = u128::from_le_bytes(*b"1234567890123456");
    let male_dna = u128::from_le_bytes(*b"123456789012345a");
    reg.mint(1, Some(female_dna), Some(Gender::Female), 0).unwrap();
    reg.mint(2, Some(male_dna), Some(Gender::Male), 0).unwrap();
    reg
}

/// The identifier appears in exactly `owner`'s entry among `accounts`, and the
/// record's owner field agrees.
fn owned_exactly_by(reg: &Registry, owner: u64, kitty_id: u128, accounts: &[u64]) -> bool {
    if reg.kitty(kitty_id).map(|k| k.owner) != Some(owner) {
        return false;
    }
    accounts.iter().all(|a| reg.kitties_owned(*a).contains(&kitty_id) == (*a == owner))
}

#[test]
fn create_increments_counter_with_fresh_unlisted_id() {
    let mut reg = seeded();
    assert_eq!(reg.kitty_count(), 2);

    let id = reg.create_kitty(10, 77).unwrap();
    assert_eq!(reg.kitty_count(), 3);
    let kitty = reg.kitty(id).unwrap();
    assert_eq!(kitty.price, None);
    assert_eq!(kitty.owner, 10);

    // a second creation steps the counter by exactly one more and cannot
    // collide: the nonce moved on
    let id2 = reg.create_kitty(10, 77).unwrap();
    assert_eq!(reg.kitty_count(), 4);
    assert_ne!(id, id2);
}

#[test]
fn ownership_index_matches_registry() {
    let mut reg = seeded();
    let id = reg.create_kitty(10, 77).unwrap();
    let accounts = [1u64, 2, 3, 10];
    let seed1 = reg.kitties_owned(1)[0];
    let seed2 = reg.kitties_owned(2)[0];
    assert!(owned_exactly_by(&reg, 1, seed1, &accounts));
    assert!(owned_exactly_by(&reg, 2, seed2, &accounts));
    assert!(owned_exactly_by(&reg, 10, id, &accounts));

    reg.transfer(10, 3, id).unwrap();
    assert!(owned_exactly_by(&reg, 3, id, &accounts));
    assert!(owned_exactly_by(&reg, 1, seed1, &accounts));
}

#[test]
fn transfer_round_trip_restores_state() {
    let mut reg = seeded();
    let id = reg.kitties_owned(1)[0];
    reg.set_price(1, id, Some(9)).unwrap();

    reg.transfer(1, 3, id).unwrap();
    reg.transfer(3, 1, id).unwrap();

    let kitty = reg.kitty(id).unwrap();
    assert_eq!(kitty.owner, 1);
    assert_eq!(kitty.price, None);
    assert!(reg.kitties_owned(1).contains(&id));
    assert!(!reg.kitties_owned(3).contains(&id));
    assert_eq!(reg.kitty_count(), 2);
}

#[test]
fn price_too_low_leaves_state_unchanged() {
    let mut reg = seeded();
    let id = reg.kitties_owned(2)[0];
    reg.set_price(2, id, Some(5)).unwrap();
    reg.set_balance(1, 100);

    assert_eq!(reg.buy_kitty(1, id, 4), Err(KittyError::PriceTooLow));

    // nothing moved: counter, registry record, both indexes, both balances
    assert_eq!(reg.kitty_count(), 2);
    let kitty = reg.kitty(id).unwrap();
    assert_eq!(kitty.owner, 2);
    assert_eq!(kitty.price, Some(5));
    assert_eq!(reg.kitties_owned(1).len(), 1);
    assert_eq!(reg.kitties_owned(2).len(), 1);
    assert_eq!(reg.balance_of(1), 100);
    assert_eq!(reg.balance_of(2), 0);
}

#[test]
fn buy_moves_ownership_price_and_balances() {
    let mut reg = seeded();
    let id = reg.kitties_owned(2)[0];
    reg.set_price(2, id, Some(4)).unwrap();
    reg.set_balance(1, 10);

    reg.buy_kitty(1, id, 4).unwrap();

    let kitty = reg.kitty(id).unwrap();
    assert_eq!(kitty.owner, 1);
    assert_eq!(kitty.price, None);
    assert_eq!(reg.balance_of(1), 6);
    assert_eq!(reg.balance_of(2), 4);
    assert!(reg.kitties_owned(1).contains(&id));
    assert!(!reg.kitties_owned(2).contains(&id));
}

#[test]
fn seller_credit_saturates_at_largest_balance() {
    let mut reg = seeded();
    let id = reg.kitties_owned(2)[0];
    reg.set_price(2, id, Some(4)).unwrap();
    reg.set_balance(1, 4);
    reg.set_balance(2, u64::MAX);

    reg.buy_kitty(1, id, 4).unwrap();
    assert_eq!(reg.balance_of(1), 0);
    assert_eq!(reg.balance_of(2), u64::MAX);
}

#[test]
fn breed_produces_fresh_distinct_id() {
    let mut reg = seeded();
    let mom = reg.mint(1, Some(0u128), None, 0).unwrap();
    let dad = reg.mint(1, Some(u128::MAX), None, 0).unwrap();
    assert_eq!(reg.kitty(mom).unwrap().gender, Gender::Female);
    assert_eq!(reg.kitty(dad).unwrap().gender, Gender::Male);

    let before = reg.kitty_count();
    let child = reg.breed_kitty(1, mom, dad, 0xABCD).unwrap();
    assert_eq!(reg.kitty_count(), before + 1);
    assert_ne!(child, mom);
    assert_ne!(child, dad);
    assert_eq!(reg.kitty(child).unwrap().owner, 1);
    // the child mixes the parents under the mask derived from the nonce at
    // the time of breeding (the two explicit mints do not move the nonce)
    let expected = child_dna(0, u128::MAX, derive_dna(0, 0xABCD, 1));
    assert_eq!(child, expected);
}

#[test]
fn same_gender_parents_is_reported() {
    let mut reg = seeded();
    let mom = reg.mint(1, Some(2u128), Some(Gender::Female), 0).unwrap();
    let other = reg.mint(1, Some(4u128), Some(Gender::Female), 0).unwrap();
    assert_eq!(reg.breed_kitty(1, mom, other, 7), Err(KittyError::SameGenderParents));
    assert_eq!(reg.kitty_count(), 4);
}

#[test]
fn not_found_is_reported() {
    let mut reg = seeded();
    assert_eq!(reg.set_price(1, 999, Some(1)), Err(KittyError::NotFound));
    assert_eq!(reg.transfer(1, 3, 999), Err(KittyError::NotFound));
    assert_eq!(reg.buy_kitty(1, 999, 1), Err(KittyError::NotFound));
    assert_eq!(reg.breed_kitty(1, 999, 998, 0), Err(KittyError::NotFound));
}

#[test]
fn not_owner_is_reported() {
    let mut reg = seeded();
    let id = reg.kitties_owned(1)[0];
    assert_eq!(reg.set_price(2, id, Some(1)), Err(KittyError::NotOwner));
    assert_eq!(reg.transfer(2, 3, id), Err(KittyError::NotOwner));
    let other = reg.kitties_owned(2)[0];
    assert_eq!(reg.breed_kitty(1, id, other, 0), Err(KittyError::NotOwner));
}

#[test]
fn transfer_to_self_is_reported() {
    let mut reg = seeded();
    let id = reg.kitties_owned(1)[0];
    assert_eq!(reg.transfer(1, 1, id), Err(KittyError::TransferToSelf));
}

#[test]
fn not_for_sale_is_reported() {
    let mut reg = seeded();
    let id = reg.kitties_owned(2)[0];
    reg.set_balance(1, 100);
    assert_eq!(reg.buy_kitty(1, id, 50), Err(KittyError::NotForSale));
}

#[test]
fn insufficient_balance_is_reported() {
    let mut reg = seeded();
    let id = reg.kitties_owned(2)[0];
    reg.set_price(2, id, Some(5)).unwrap();
    assert_eq!(reg.buy_kitty(1, id, 5), Err(KittyError::InsufficientBalance));
}

#[test]
fn duplicate_identifier_is_reported() {
    let mut reg = seeded();
    reg.mint(1, Some(7u128), None, 0).unwrap();
    assert_eq!(reg.mint(3, Some(7u128), None, 0), Err(KittyError::DuplicateIdentifier));
    assert_eq!(reg.kitty_count(), 3);
}

#[test]
fn capacity_exceeded_is_reported() {
    let mut reg = Registry::new(1);
    reg.mint(1, Some(2u128), None, 0).unwrap();
    // the owner's entry is full
    assert_eq!(reg.mint(1, Some(4u128), None, 0), Err(KittyError::CapacityExceeded));
    // a full receiver rejects a transfer
    reg.mint(2, Some(4u128), None, 0).unwrap();
    assert_eq!(reg.transfer(2, 1, 4), Err(KittyError::CapacityExceeded));
    // and a full buyer cannot buy
    reg.set_price(2, 4, Some(1)).unwrap();
    reg.set_balance(1, 10);
    assert_eq!(reg.buy_kitty(1, 4, 1), Err(KittyError::CapacityExceeded));
}

#[test]
fn set_price_updates_only_price() {
    let mut reg = seeded();
    let id = reg.kitties_owned(2)[0];
    let before = reg.kitty(id).unwrap();

    reg.set_price(2, id, Some(4)).unwrap();
    let listed = reg.kitty(id).unwrap();
    assert_eq!(listed.price, Some(4));
    assert_eq!(listed.owner, before.owner);
    assert_eq!(listed.dna, before.dna);
    assert_eq!(listed.gender, before.gender);
    assert_eq!(reg.kitty_count(), 2);

    // None takes the asset off sale again
    reg.set_price(2, id, None).unwrap();
    assert_eq!(reg.kitty(id).unwrap().price, None);
}

#[test]
fn derivation_is_reproducible() {
    let mut a = seeded();
    let mut b = seeded();
    assert_eq!(a.create_kitty(10, 424242), b.create_kitty(10, 424242));
}

#[test]
fn derive_dna_matches_mixing_formula() {
    assert_eq!(derive_dna(0, 5, 0), 5);
    assert_eq!(derive_dna(3, 0, 0), 3u128 ^ (3u128 << 72));
    assert_eq!(derive_dna(0, 0, 2), 2u128 << 24);
    assert_eq!(
        derive_dna(1, 0xABCD, 7),
        0xABCDu128 ^ 1u128 ^ (1u128 << 72) ^ (7u128 << 24)
    );
}

#[test]
fn child_dna_selects_bits_by_mask() {
    assert_eq!(child_dna(0xF0, 0x0F, 0xFF), 0xF0);
    assert_eq!(child_dna(0xF0, 0x0F, 0x00), 0x0F);
    assert_eq!(child_dna(0b1010, 0b0101, 0b1100), 0b1001);
}

#[test]
fn gender_follows_first_byte_parity() {
    assert_eq!(gender_of(2), Gender::Female);
    assert_eq!(gender_of(3), Gender::Male);
    assert_eq!(gender_of(0), Gender::Female);
    assert_eq!(gender_of(u128::from_le_bytes(*b"123456789012345a")), Gender::Male);
}

#[test]
fn full_scenario() {
    // seed accounts 1 (Female asset) and 2 (Male asset)
    let mut reg = seeded();
    reg.set_balance(1, 10);

    // account 10 creates: the counter reaches 3 and account 10 owns exactly
    // one unlisted asset
    let id = reg.create_kitty(10, 77).unwrap();
    assert_eq!(reg.kitty_count(), 3);
    assert_eq!(reg.kitties_owned(10).len(), 1);
    assert_eq!(reg.kitty(id).unwrap().price, None);

    // account 10 transfers it to account 3
    reg.transfer(10, 3, id).unwrap();
    assert_eq!(reg.kitties_owned(10).len(), 0);
    assert_eq!(reg.kitties_owned(3).len(), 1);
    assert_eq!(reg.kitty(id).unwrap().owner, 3);

    // account 2 lists its asset at 4 and account 1 buys it at that maximum
    let traded = reg.kitties_owned(2)[0];
    reg.set_price(2, traded, Some(4)).unwrap();
    reg.buy_kitty(1, traded, 4).unwrap();
    assert_eq!(reg.kitty(traded).unwrap().owner, 1);
    assert_eq!(reg.kitty(traded).unwrap().price, None);
    assert_eq!(reg.balance_of(1), 6);
    assert_eq!(reg.balance_of(2), 4);

    // account 1 mints a Female and a Male and breeds them
    let mom = reg.mint(1, Some(0u128), None, 0).unwrap();
    let dad = reg.mint(1, Some(u128::MAX), None, 0).unwrap();
    assert_eq!(reg.kitty_count(), 5);
    let child = reg.breed_kitty(1, mom, dad, 0).unwrap();
    assert_eq!(reg.kitty_count(), 6);
    assert_eq!(reg.kitty(child).unwrap().owner, 1);
    assert!(reg.kitties_owned(1).contains(&child));
}

#[test]
fn rpc_reports_count() {
    let mut reg = seeded();
    reg.create_kitty(10, 77).unwrap();
    let handler = PalletKittiesRpc::new(reg);
    assert_eq!(handler.get_kitties_count(), Ok(3));
}

#[test]
fn rpc_maps_runtime_failure() {
    assert_eq!(map_count_result(Ok(5)), Ok(5));
    let failure = map_count_result(Err("backend unavailable".to_string())).unwrap_err();
    assert_eq!(failure.code, 1);
    assert_eq!(failure.message, "Unable to get kitties count.");
    assert_eq!(failure.data, Some("backend unavailable".to_string()));
}

#[test]
fn error_codes_match() {
    assert_eq!(i64::from(Error::RuntimeError), 1);
    assert_eq!(i64::from(Error::DecodeError), 2);
}
