//! The asset registry: the single source of truth for every asset, the
//! per-account ownership index, the global counter, and the five guarded
//! transition operations that mutate them atomically.
//!
//! The registry is an explicit state object: callers construct independent
//! instances and pass them into every operation, so tests can build isolated
//! ledgers. Every operation first validates all of its preconditions against
//! the current state and only then applies all of its writes; on any rejection
//! the state is left exactly as it was.

use vstd::prelude::*;

use crate::dna::Gender;
use crate::dna::spec_child_dna;
use crate::dna::spec_derive_dna;
use crate::dna::spec_gender_of;
use crate::dna::child_dna;
use crate::dna::derive_dna;
use crate::dna::gender_of;
use crate::errors::KittyError;
use std::collections::HashMap;

verus! {

broadcast use vstd::std_specs::hash::group_hash_axioms;

/// One asset record. The DNA doubles as the asset's identifier: the registry
/// keys its record by exactly this value, and `dna` never changes after
/// creation.
#[derive(Clone, Copy, Debug)]
pub struct Kitty {
    /// The 16-byte attribute blob, equal to the asset's identifier.
    pub dna: u128,
    /// The listed sale price; `None` means the asset is not for sale.
    pub price: Option<u64>,
    /// Fixed at creation, normally derived from the DNA's first byte.
    pub gender: Gender,
    /// The one account that owns the asset.
    pub owner: u64,
}

/// The abstract state of a registry. `owned` and `balances` are total maps:
/// an account that was never touched owns nothing and has balance zero.
#[verifier::ext_equal]
pub struct RegistryView {
    /// Identifier to asset record; the single source of truth for existence.
    pub kitties: Map<u128, Kitty>,
    /// Account to the ordered identifiers it owns (creation/acquisition order).
    pub owned: Map<u64, Seq<u128>>,
    /// Account to its transferable balance.
    pub balances: Map<u64, u64>,
    /// How many assets were ever successfully created.
    pub count: u64,
    /// Monotonic input to DNA derivation; bumped on every derivation.
    pub nonce: u64,
    /// The fixed capacity of every per-account ownership entry.
    pub max_owned: usize,
}

impl RegistryView {
    /// Well-formedness: the registry and the ownership index never diverge,
    /// per-account entries are duplicate-free and bounded, and the counter
    /// counts exactly the registered assets (nothing is ever deleted).
    pub open spec fn wf(self) -> bool {
        &&& forall|id: u128| #[trigger]
            self.kitties.contains_key(id) ==> self.kitties[id].dna == id
        &&& forall|id: u128| #[trigger]
            self.kitties.contains_key(id) ==> self.owned[self.kitties[id].owner].contains(id)
        &&& forall|a: u64, i: int|
            0 <= i < self.owned[a].len() ==> self.kitties.contains_key(
                #[trigger] self.owned[a][i],
            ) && self.kitties[self.owned[a][i]].owner == a
        &&& forall|a: u64, i: int, j: int|
            0 <= i < j < self.owned[a].len() ==> #[trigger] self.owned[a][i] != #[trigger] self.owned[a][j]
        &&& forall|a: u64| (#[trigger] self.owned[a]).len() <= self.max_owned
        &&& self.kitties.dom().finite()
        &&& self.kitties.dom().len() == self.count
        &&& self.nonce <= self.count
    }
}

/// The state of a freshly constructed registry with the given per-account
/// capacity: no assets, no balances, counter and nonce at zero.
pub open spec fn initial_view(max_owned: usize) -> RegistryView {
    RegistryView {
        kitties: Map::empty(),
        owned: Map::new(|a: u64| true, |a: u64| Seq::empty()),
        balances: Map::new(|a: u64| true, |a: u64| 0u64),
        count: 0,
        nonce: 0,
        max_owned: max_owned,
    }
}

/// The DNA a mint will use: the explicit override if one is given, else a
/// fresh derivation from the registry's nonce, the supplied entropy and the
/// requesting account.
pub open spec fn mint_dna(
    s: RegistryView,
    owner: u64,
    dna_override: Option<u128>,
    entropy: u128,
) -> u128 {
    match dna_override {
        Some(d) => d,
        None => spec_derive_dna(s.nonce, entropy, owner),
    }
}

/// The gender a mint will record: the explicit override if one is given, else
/// the gender encoded in the DNA.
pub open spec fn mint_gender(dna: u128, gender_override: Option<Gender>) -> Gender {
    match gender_override {
        Some(g) => g,
        None => spec_gender_of(dna),
    }
}

/// Why a mint of `dna` for `owner` would be rejected, or `None` if it passes:
/// the counter must have room, the identifier must be fresh, and the owner's
/// ownership entry must have spare capacity — checked in that order.
pub open spec fn mint_check(s: RegistryView, owner: u64, dna: u128) -> Option<KittyError> {
    if s.count == u64::MAX {
        Some(KittyError::CapacityExceeded)
    } else if s.kitties.contains_key(dna) {
        Some(KittyError::DuplicateIdentifier)
    } else if s.owned[owner].len() >= s.max_owned {
        Some(KittyError::CapacityExceeded)
    } else {
        None
    }
}

/// The state after a successful mint: the new record is registered unlisted,
/// its identifier is appended to the owner's entry, the counter steps by one,
/// and the nonce steps by one exactly when the DNA was freshly derived.
pub open spec fn mint_post(
    s: RegistryView,
    owner: u64,
    dna: u128,
    gender: Gender,
    fresh_nonce: bool,
) -> RegistryView {
    RegistryView {
        kitties: s.kitties.insert(
            dna,
            Kitty { dna: dna, price: None, gender: gender, owner: owner },
        ),
        owned: s.owned.insert(owner, s.owned[owner].push(dna)),
        balances: s.balances,
        count: (s.count + 1) as u64,
        nonce: if fresh_nonce {
            (s.nonce + 1) as u64
        } else {
            s.nonce
        },
        max_owned: s.max_owned,
    }
}

/// In a well-formed state, an identifier that is not registered appears in no
/// account's ownership entry.
pub proof fn lemma_unregistered_id_unowned(s: RegistryView, dna: u128)
    requires
        s.wf(),
        !s.kitties.contains_key(dna),
    ensures
        forall|a: u64| !(#[trigger] s.owned[a]).contains(dna),
{
    assert forall|a: u64| !(#[trigger] s.owned[a]).contains(dna) by {
        if s.owned[a].contains(dna) {
            let i = choose|i: int| 0 <= i < s.owned[a].len() && s.owned[a][i] == dna;
            assert(s.kitties.contains_key(s.owned[a][i]));
        }
    }
}

/// A successful mint preserves well-formedness.
pub proof fn lemma_mint_post_wf(
    s: RegistryView,
    owner: u64,
    dna: u128,
    gender: Gender,
    fresh_nonce: bool,
)
    requires
        s.wf(),
        mint_check(s, owner, dna) is None,
    ensures
        mint_post(s, owner, dna, gender, fresh_nonce).wf(),
{
    let post = mint_post(s, owner, dna, gender, fresh_nonce);
    lemma_unregistered_id_unowned(s, dna);
    // registry to index: every registered asset is listed under its owner
    assert forall|id: u128| #[trigger]
        post.kitties.contains_key(id) implies post.owned[post.kitties[id].owner].contains(id) by {
        if id == dna {
            assert(post.owned[owner][s.owned[owner].len() as int] == dna);
        } else {
            let o = s.kitties[id].owner;
            let i = choose|i: int| 0 <= i < s.owned[o].len() && s.owned[o][i] == id;
            assert(post.owned[o][i] == id);
        }
    }
    // index to registry, uniqueness and capacity only change for `owner`,
    // whose entry grew by the fresh identifier at the end
    assert(post.owned[owner].len() == s.owned[owner].len() + 1);
    // the counter still counts the registered assets
    assert(post.kitties.dom() =~= s.kitties.dom().insert(dna));
}

/// Why a set-price by `caller` on `id` would be rejected, or `None` if it
/// passes: the asset must exist and the caller must own it.
pub open spec fn set_price_check(s: RegistryView, caller: u64, id: u128) -> Option<KittyError> {
    if !s.kitties.contains_key(id) {
        Some(KittyError::NotFound)
    } else if s.kitties[id].owner != caller {
        Some(KittyError::NotOwner)
    } else {
        None
    }
}

/// The state after a successful set-price: only the asset's price changes;
/// `None` takes it off sale.
pub open spec fn set_price_post(s: RegistryView, id: u128, new_price: Option<u64>) -> RegistryView {
    RegistryView {
        kitties: s.kitties.insert(id, Kitty { price: new_price, ..s.kitties[id] }),
        ..s
    }
}

/// A successful set-price preserves well-formedness.
pub proof fn lemma_set_price_post_wf(
    s: RegistryView,
    caller: u64,
    id: u128,
    new_price: Option<u64>,
)
    requires
        s.wf(),
        set_price_check(s, caller, id) is None,
    ensures
        set_price_post(s, id, new_price).wf(),
{
    let post = set_price_post(s, id, new_price);
    assert(post.kitties.dom() =~= s.kitties.dom());
    assert forall|k: u128| #[trigger]
        post.kitties.contains_key(k) implies post.owned[post.kitties[k].owner].contains(k) by {
        assert(s.kitties.contains_key(k));
        assert(post.kitties[k].owner == s.kitties[k].owner);
    }
}

/// Why a transfer of `id` from `from` to `to` would be rejected, or `None` if
/// it passes: the asset must exist, `from` must own it, and the receiver must
/// be a different account with spare capacity — checked in that order.
pub open spec fn transfer_check(s: RegistryView, from: u64, to: u64, id: u128) -> Option<
    KittyError,
> {
    if !s.kitties.contains_key(id) {
        Some(KittyError::NotFound)
    } else if s.kitties[id].owner != from {
        Some(KittyError::NotOwner)
    } else if to == from {
        Some(KittyError::TransferToSelf)
    } else if s.owned[to].len() >= s.max_owned {
        Some(KittyError::CapacityExceeded)
    } else {
        None
    }
}

/// The state after a successful transfer: the identifier leaves the sender's
/// entry, is appended to the receiver's, the record's owner becomes the
/// receiver, and the price is cleared — a transferred asset is no longer for
/// sale. Counter, nonce and balances do not change.
pub open spec fn transfer_post(s: RegistryView, from: u64, to: u64, id: u128) -> RegistryView {
    RegistryView {
        kitties: s.kitties.insert(id, Kitty { price: None, owner: to, ..s.kitties[id] }),
        owned: s.owned.insert(from, s.owned[from].remove_value(id)).insert(
            to,
            s.owned[to].push(id),
        ),
        ..s
    }
}

/// Removing a value from a duplicate-free sequence that contains it: the
/// result is one element shorter, keeps exactly the other elements, and is
/// still duplicate-free.
pub proof fn lemma_remove_value_unique(s: Seq<u128>, v: u128)
    requires
        s.contains(v),
        forall|i: int, j: int| 0 <= i < j < s.len() ==> s[i] != s[j],
    ensures
        s.remove_value(v).len() == s.len() - 1,
        !s.remove_value(v).contains(v),
        forall|i: int|
            0 <= i < s.remove_value(v).len() ==> s.contains(#[trigger] s.remove_value(v)[i])
                && s.remove_value(v)[i] != v,
        forall|x: u128| x != v && s.contains(x) ==> #[trigger] s.remove_value(v).contains(x),
        forall|i: int, j: int|
            0 <= i < j < s.remove_value(v).len() ==> #[trigger] s.remove_value(v)[i]
                != #[trigger] s.remove_value(v)[j],
{
    s.index_of_first_ensures(v);
    let fi = s.index_of_first(v).unwrap();
    s.remove_ensures(fi);
    let rm = s.remove_value(v);
    assert forall|i: int|
        0 <= i < rm.len() implies s.contains(#[trigger] rm[i]) && rm[i] != v by {
        if i < fi {
            assert(rm[i] == s[i]);
        } else {
            assert(rm[i] == s[i + 1]);
        }
    }
    assert(!rm.contains(v)) by {
        if rm.contains(v) {
            let i = choose|i: int| 0 <= i < rm.len() && rm[i] == v;
            assert(rm[i] != v);
        }
    }
    assert forall|x: u128| x != v && s.contains(x) implies #[trigger] rm.contains(x) by {
        let i = choose|i: int| 0 <= i < s.len() && s[i] == x;
        if i < fi {
            assert(rm[i] == x);
        } else {
            assert(s[fi] == v);
            assert(i != fi);
            assert(rm[i - 1] == x);
        }
        assert(exists|j: int| 0 <= j < rm.len() && rm[j] == x);
    }
    assert forall|i: int, j: int|
        0 <= i < j < rm.len() implies #[trigger] rm[i] != #[trigger] rm[j] by {
        if j < fi {
            assert(rm[i] == s[i] && rm[j] == s[j]);
        } else if i < fi {
            assert(rm[i] == s[i] && rm[j] == s[j + 1]);
        } else {
            assert(rm[i] == s[i + 1] && rm[j] == s[j + 1]);
        }
    }
}

/// In a well-formed state, an identifier appears only in its owner's entry.
pub proof fn lemma_owned_elsewhere(s: RegistryView, a: u64, id: u128)
    requires
        s.wf(),
        s.kitties.contains_key(id),
        s.kitties[id].owner != a,
    ensures
        !s.owned[a].contains(id),
{
    if s.owned[a].contains(id) {
        let i = choose|i: int| 0 <= i < s.owned[a].len() && s.owned[a][i] == id;
        assert(s.kitties[s.owned[a][i]].owner == a);
    }
}

/// A successful transfer preserves well-formedness.
pub proof fn lemma_transfer_post_wf(s: RegistryView, from: u64, to: u64, id: u128)
    requires
        s.wf(),
        transfer_check(s, from, to, id) is None,
    ensures
        transfer_post(s, from, to, id).wf(),
{
    let post = transfer_post(s, from, to, id);
    let sfrom = s.owned[from];
    let rm = sfrom.remove_value(id);
    lemma_remove_value_unique(sfrom, id);
    lemma_owned_elsewhere(s, to, id);
    assert(post.kitties.dom() =~= s.kitties.dom());
    // registry to index
    assert forall|k: u128| #[trigger]
        post.kitties.contains_key(k) implies post.owned[post.kitties[k].owner].contains(k) by {
        if k == id {
            assert(post.owned[to][s.owned[to].len() as int] == id);
        } else {
            let o = s.kitties[k].owner;
            assert(s.owned[o].contains(k));
            if o == from {
                assert(rm.contains(k));
            } else if o == to {
                let i = choose|i: int| 0 <= i < s.owned[to].len() && s.owned[to][i] == k;
                assert(post.owned[to][i] == k);
            } else {
                assert(post.owned[o] == s.owned[o]);
            }
        }
    }
    // index to registry
    assert forall|a: u64, i: int|
        0 <= i < post.owned[a].len() implies post.kitties.contains_key(#[trigger] post.owned[a][i])
        && post.kitties[post.owned[a][i]].owner == a by {
        if a == from {
            assert(sfrom.contains(rm[i]) && rm[i] != id);
        } else if a == to {
            if i < s.owned[to].len() {
                assert(post.owned[a][i] == s.owned[to][i]);
                assert(s.owned[to][i] != id);
            } else {
                assert(post.owned[a][i] == id);
            }
        } else {
            assert(post.owned[a][i] == s.owned[a][i]);
            assert(s.owned[a][i] != id) by {
                lemma_owned_elsewhere(s, a, id);
            }
        }
    }
    // per-entry uniqueness
    assert forall|a: u64, i: int, j: int|
        0 <= i < j < post.owned[a].len() implies #[trigger] post.owned[a][i]
        != #[trigger] post.owned[a][j] by {
        if a == to {
            if j == s.owned[to].len() {
                assert(post.owned[a][i] == s.owned[to][i]);
                assert(s.owned[to][i] != id);
            } else {
                assert(post.owned[a][i] == s.owned[to][i] && post.owned[a][j] == s.owned[to][j]);
            }
        }
    }
}

/// Why a buy of `id` by `buyer` at maximum price `max_price` would be
/// rejected, or `None` if it passes: the asset must exist and be listed, the
/// listed price must not exceed the buyer's maximum, the buyer must not
/// already own the asset, must be able to pay, and must have spare capacity —
/// checked in that order.
pub open spec fn buy_check(s: RegistryView, buyer: u64, id: u128, max_price: u64) -> Option<
    KittyError,
> {
    if !s.kitties.contains_key(id) {
        Some(KittyError::NotFound)
    } else {
        match s.kitties[id].price {
            None => Some(KittyError::NotForSale),
            Some(p) => if p > max_price {
                Some(KittyError::PriceTooLow)
            } else if s.kitties[id].owner == buyer {
                Some(KittyError::TransferToSelf)
            } else if s.balances[buyer] < p {
                Some(KittyError::InsufficientBalance)
            } else if s.owned[buyer].len() >= s.max_owned {
                Some(KittyError::CapacityExceeded)
            } else {
                None
            },
        }
    }
}

/// The balances after the trade settles: the buyer is debited the listed
/// price and the seller is credited it, the credit saturating at the largest
/// representable balance.
pub open spec fn buy_paid(s: RegistryView, buyer: u64, id: u128) -> RegistryView {
    let p = s.kitties[id].price.unwrap();
    let seller = s.kitties[id].owner;
    RegistryView {
        balances: s.balances.insert(buyer, (s.balances[buyer] - p) as u64).insert(
            seller,
            s.balances[seller].saturating_add(p),
        ),
        ..s
    }
}

/// The state after a successful buy: the trade settles, and the asset then
/// moves to the buyer exactly as a transfer would move it — in particular it
/// comes off sale.
pub open spec fn buy_post(s: RegistryView, buyer: u64, id: u128) -> RegistryView {
    transfer_post(buy_paid(s, buyer, id), s.kitties[id].owner, buyer, id)
}

/// The selector mask a breed will derive for mixing the parents' DNA.
pub open spec fn breed_mask(s: RegistryView, breeder: u64, entropy: u128) -> u128 {
    spec_derive_dna(s.nonce, entropy, breeder)
}

/// The child DNA a breed will produce: a per-bit mix of the two parents'
/// blobs under a freshly derived selector mask.
pub open spec fn breed_dna(
    s: RegistryView,
    breeder: u64,
    mom_id: u128,
    dad_id: u128,
    entropy: u128,
) -> u128 {
    spec_child_dna(s.kitties[mom_id].dna, s.kitties[dad_id].dna, breed_mask(s, breeder, entropy))
}

/// Why a breed would be rejected, or `None` if it passes: both parents must
/// exist, both must be owned by the breeder, and their genders must differ;
/// the insertion of the child is then checked exactly as a mint.
pub open spec fn breed_check(
    s: RegistryView,
    breeder: u64,
    mom_id: u128,
    dad_id: u128,
    entropy: u128,
) -> Option<KittyError> {
    if !s.kitties.contains_key(mom_id) {
        Some(KittyError::NotFound)
    } else if !s.kitties.contains_key(dad_id) {
        Some(KittyError::NotFound)
    } else if s.kitties[mom_id].owner != breeder {
        Some(KittyError::NotOwner)
    } else if s.kitties[dad_id].owner != breeder {
        Some(KittyError::NotOwner)
    } else if s.kitties[mom_id].gender == s.kitties[dad_id].gender {
        Some(KittyError::SameGenderParents)
    } else {
        mint_check(s, breeder, breed_dna(s, breeder, mom_id, dad_id, entropy))
    }
}

/// The state after a successful breed: the child is minted for the breeder,
/// its gender re-derived from the child DNA, and the nonce steps for the
/// freshly derived mask.
pub open spec fn breed_post(
    s: RegistryView,
    breeder: u64,
    mom_id: u128,
    dad_id: u128,
    entropy: u128,
) -> RegistryView {
    let child = breed_dna(s, breeder, mom_id, dad_id, entropy);
    mint_post(s, breeder, child, spec_gender_of(child), true)
}

/// The state after a balance endowment: only that account's balance changes.
pub open spec fn set_balance_post(s: RegistryView, account: u64, amount: u64) -> RegistryView {
    RegistryView { balances: s.balances.insert(account, amount), ..s }
}

/// The registry state object. All mutation goes through the five transition
/// operations; their contracts describe each step over [`RegistryView`].
pub struct Registry {
    kitties: HashMap<u128, Kitty>,
    owned: HashMap<u64, Vec<u128>>,
    balances: HashMap<u64, u64>,
    count: u64,
    nonce: u64,
    max_owned: usize,
}

impl View for Registry {
    type V = RegistryView;

    closed spec fn view(&self) -> RegistryView {
        RegistryView {
            kitties: self.kitties@,
            owned: Map::new(
                |a: u64| true,
                |a: u64|
                    if self.owned@.contains_key(a) {
                        self.owned@[a]@
                    } else {
                        Seq::empty()
                    },
            ),
            balances: Map::new(
                |a: u64| true,
                |a: u64|
                    if self.balances@.contains_key(a) {
                        self.balances@[a]
                    } else {
                        0u64
                    },
            ),
            count: self.count,
            nonce: self.nonce,
            max_owned: self.max_owned,
        }
    }
}

impl Registry {
    /// The registry's invariant, stated over its abstract state.
    pub open spec fn wf(self) -> bool {
        self@.wf()
    }

    /// Construct an empty registry whose per-account ownership entries hold at
    /// most `max_owned` identifiers each.
    pub fn new(max_owned: usize) -> (r: Registry)
        ensures
            r.wf(),
            r@ == initial_view(max_owned),
    {
        let r = Registry {
            kitties: HashMap::new(),
            owned: HashMap::new(),
            balances: HashMap::new(),
            count: 0,
            nonce: 0,
            max_owned: max_owned,
        };
        proof {
            assert(r@ =~~= initial_view(max_owned));
        }
        r
    }

    /// The global counter: how many assets were ever successfully created.
    pub fn kitty_count(&self) -> (r: u64)
        ensures
            r == self@.count,
    {
        self.count
    }

    /// Look an asset up by its identifier.
    pub fn kitty(&self, kitty_id: u128) -> (r: Option<Kitty>)
        ensures
            r == if self@.kitties.contains_key(kitty_id) {
                Some(self@.kitties[kitty_id])
            } else {
                None::<Kitty>
            },
    {
        match self.kitties.get(&kitty_id) {
            Some(k) => Some(*k),
            None => None,
        }
    }

    /// The ordered identifiers owned by `account`.
    pub fn kitties_owned(&self, account: u64) -> (r: Vec<u128>)
        ensures
            r@ == self@.owned[account],
    {
        match self.owned.get(&account) {
            Some(v) => {
                let mut out: Vec<u128> = Vec::new();
                let mut i: usize = 0;
                while i < v.len()
                    invariant
                        i <= v@.len(),
                        out@ == v@.subrange(0, i as int),
                    decreases v@.len() - i,
                {
                    out.push(v[i]);
                    proof {
                        assert(v@.subrange(0, i + 1 as int) =~= v@.subrange(0, i as int).push(
                            v@[i as int],
                        ));
                    }
                    i = i + 1;
                }
                proof {
                    assert(out@ =~= v@);
                }
                out
            },
            None => Vec::new(),
        }
    }

    /// The transferable balance of `account`.
    pub fn balance_of(&self, account: u64) -> (r: u64)
        ensures
            r == self@.balances[account],
    {
        match self.balances.get(&account) {
            Some(b) => *b,
            None => 0,
        }
    }

    /// The fixed capacity of every per-account ownership entry.
    pub fn max_owned(&self) -> (r: usize)
        ensures
            r == self@.max_owned,
    {
        self.max_owned
    }

    /// Append `id` to `account`'s ownership entry in the backing map.
    fn push_owned(&mut self, account: u64, id: u128)
        ensures
            final(self)@ == (RegistryView {
                owned: old(self)@.owned.insert(account, old(self)@.owned[account].push(id)),
                ..old(self)@
            }),
    {
        let mut v: Vec<u128> = match self.owned.remove(&account) {
            Some(v) => v,
            None => Vec::new(),
        };
        v.push(id);
        self.owned.insert(account, v);
        proof {
            assert forall|a: u64| self@.owned[a] == old(self)@.owned.insert(
                account,
                old(self)@.owned[account].push(id),
            )[a] by {}
            assert(self@ =~~= (RegistryView {
                owned: old(self)@.owned.insert(account, old(self)@.owned[account].push(id)),
                ..old(self)@
            }));
        }
    }

    /// The shared insertion step of create and breed: register a record with
    /// the given attributes, unlisted, owned by `owner`; step the counter, and
    /// the nonce too when the DNA was freshly derived.
    fn do_mint(&mut self, owner: u64, dna: u128, gender: Gender, fresh_nonce: bool) -> (r: Result<
        u128,
        KittyError,
    >)
        requires
            old(self).wf(),
        ensures
            final(self).wf(),
            match r {
                Ok(id) => id == dna && mint_check(old(self)@, owner, dna) is None && final(self)@
                    == mint_post(old(self)@, owner, dna, gender, fresh_nonce),
                Err(e) => mint_check(old(self)@, owner, dna) == Some(e) && final(self)@ == old(self)@,
            },
    {
        if self.count == u64::MAX {
            return Err(KittyError::CapacityExceeded);
        }
        if self.kitties.contains_key(&dna) {
            return Err(KittyError::DuplicateIdentifier);
        }
        let owner_len: usize = match self.owned.get(&owner) {
            Some(v) => v.len(),
            None => 0,
        };
        if owner_len >= self.max_owned {
            return Err(KittyError::CapacityExceeded);
        }
        self.push_owned(owner, dna);
        self.kitties.insert(dna, Kitty { dna: dna, price: None, gender: gender, owner: owner });
        self.count = self.count + 1;
        if fresh_nonce {
            self.nonce = self.nonce + 1;
        }
        proof {
            assert(self@ =~~= mint_post(old(self)@, owner, dna, gender, fresh_nonce));
            lemma_mint_post_wf(old(self)@, owner, dna, gender, fresh_nonce);
        }
        Ok(dna)
    }

    /// Register a new asset for `owner`. The DNA is taken from the override if
    /// one is supplied, else derived from the registry's nonce, the supplied
    /// entropy and the owner; the gender is taken from the override if one is
    /// supplied, else read off the DNA. Succeeds if and only if the counter
    /// has room, the identifier is fresh, and the owner's entry has spare
    /// capacity; any rejection leaves the registry unchanged.
    pub fn mint(
        &mut self,
        owner: u64,
        dna_override: Option<u128>,
        gender_override: Option<Gender>,
        entropy: u128,
    ) -> (r: Result<u128, KittyError>)
        requires
            old(self).wf(),
        ensures
            final(self).wf(),
            ({
                let dna = mint_dna(old(self)@, owner, dna_override, entropy);
                let gender = mint_gender(dna, gender_override);
                match r {
                    Ok(id) => id == dna && mint_check(old(self)@, owner, dna) is None && final(self)@ == mint_post(old(self)@, owner, dna, gender, dna_override is None),
                    Err(e) => mint_check(old(self)@, owner, dna) == Some(e) && final(self)@ == old(self)@,
                }
            }),
    {
        let (dna, fresh_nonce) = match dna_override {
            Some(d) => (d, false),
            None => (derive_dna(self.nonce, entropy, owner), true),
        };
        let gender = match gender_override {
            Some(g) => g,
            None => gender_of(dna),
        };
        self.do_mint(owner, dna, gender, fresh_nonce)
    }

    /// Create a fresh asset for `origin` with derived DNA and derived gender.
    /// `entropy` must come from a source the transacting account cannot
    /// predict; the derivation itself is deterministic, so tests can fix it.
    pub fn create_kitty(&mut self, origin: u64, entropy: u128) -> (r: Result<u128, KittyError>)
        requires
            old(self).wf(),
        ensures
            final(self).wf(),
            ({
                let dna = spec_derive_dna(old(self)@.nonce, entropy, origin);
                match r {
                    Ok(id) => id == dna && mint_check(old(self)@, origin, dna) is None && final(self)@ == mint_post(old(self)@, origin, dna, spec_gender_of(dna), true),
                    Err(e) => mint_check(old(self)@, origin, dna) == Some(e) && final(self)@ == old(self)@,
                }
            }),
    {
        self.mint(origin, None, None, entropy)
    }

    /// List an asset for sale at a price, or take it off sale with `None`.
    /// Succeeds if and only if the asset exists and `caller` owns it; any
    /// rejection leaves the registry unchanged.
    pub fn set_price(&mut self, caller: u64, kitty_id: u128, new_price: Option<u64>) -> (r: Result<
        (),
        KittyError,
    >)
        requires
            old(self).wf(),
        ensures
            final(self).wf(),
            match r {
                Ok(_) => set_price_check(old(self)@, caller, kitty_id) is None && final(self)@
                    == set_price_post(old(self)@, kitty_id, new_price),
                Err(e) => set_price_check(old(self)@, caller, kitty_id) == Some(e) && final(self)@
                    == old(self)@,
            },
    {
        let k = match self.kitties.get(&kitty_id) {
            Some(k) => *k,
            None => {
                return Err(KittyError::NotFound);
            },
        };
        if k.owner != caller {
            return Err(KittyError::NotOwner);
        }
        self.kitties.insert(
            kitty_id,
            Kitty { dna: k.dna, price: new_price, gender: k.gender, owner: k.owner },
        );
        proof {
            assert(self@ =~~= set_price_post(old(self)@, kitty_id, new_price));
            lemma_set_price_post_wf(old(self)@, caller, kitty_id, new_price);
        }
        Ok(())
    }

    /// Remove `id` from `account`'s ownership entry, which must hold it.
    fn remove_owned(&mut self, account: u64, id: u128)
        requires
            old(self)@.owned[account].contains(id),
            forall|i: int, j: int|
                0 <= i < j < old(self)@.owned[account].len() ==> old(self)@.owned[account][i]
                    != old(self)@.owned[account][j],
        ensures
            final(self)@ == (RegistryView {
                owned: old(self)@.owned.insert(account, old(self)@.owned[account].remove_value(id)),
                ..old(self)@
            }),
    {
        proof {
            if !self.owned@.contains_key(account) {
                assert(self@.owned[account] =~= Seq::<u128>::empty());
                assert(false);
            }
        }
        let mut v: Vec<u128> = self.owned.remove(&account).unwrap();
        let ghost sq = old(self)@.owned[account];
        let mut i: usize = 0;
        while i < v.len() && v[i] != id
            invariant
                v@ == sq,
                i <= sq.len(),
                sq.contains(id),
                forall|j: int| 0 <= j < i ==> sq[j] != id,
            decreases sq.len() - i,
        {
            i = i + 1;
        }
        proof {
            if i >= v@.len() {
                let w = choose|w: int| 0 <= w < sq.len() && sq[w] == id;
                assert(sq[w] != id);
            }
            sq.index_of_first_ensures(id);
            let fi = sq.index_of_first(id).unwrap();
            assert(fi == i as int);
        }
        v.remove(i);
        self.owned.insert(account, v);
        proof {
            assert forall|a: u64| self@.owned[a] == old(self)@.owned.insert(
                account,
                sq.remove_value(id),
            )[a] by {}
            assert(self@ =~~= (RegistryView {
                owned: old(self)@.owned.insert(account, sq.remove_value(id)),
                ..old(self)@
            }));
        }
    }

    /// The shared mutation step of transfer and buy. The caller has already
    /// validated the move.
    fn apply_transfer(&mut self, from: u64, to: u64, kitty_id: u128)
        requires
            old(self).wf(),
            transfer_check(old(self)@, from, to, kitty_id) is None,
        ensures
            final(self).wf(),
            final(self)@ == transfer_post(old(self)@, from, to, kitty_id),
    {
        proof {
            assert(old(self)@.owned[from].contains(kitty_id));
        }
        let k = match self.kitties.get(&kitty_id) {
            Some(k) => *k,
            None => {
                proof {
                    assert(false);
                }
                return ;
            },
        };
        self.remove_owned(from, kitty_id);
        self.push_owned(to, kitty_id);
        self.kitties.insert(
            kitty_id,
            Kitty { dna: k.dna, price: None, gender: k.gender, owner: to },
        );
        proof {
            assert(self@ =~~= transfer_post(old(self)@, from, to, kitty_id));
            lemma_transfer_post_wf(old(self)@, from, to, kitty_id);
        }
    }

    /// Move an asset from `from` to `to`. Succeeds if and only if the asset
    /// exists, `from` owns it, and `to` is a different account whose ownership
    /// entry has spare capacity; the moved asset is taken off sale. Any
    /// rejection leaves the registry unchanged.
    pub fn transfer(&mut self, from: u64, to: u64, kitty_id: u128) -> (r: Result<(), KittyError>)
        requires
            old(self).wf(),
        ensures
            final(self).wf(),
            match r {
                Ok(_) => transfer_check(old(self)@, from, to, kitty_id) is None && final(self)@
                    == transfer_post(old(self)@, from, to, kitty_id),
                Err(e) => transfer_check(old(self)@, from, to, kitty_id) == Some(e) && final(self)@
                    == old(self)@,
            },
    {
        let k = match self.kitties.get(&kitty_id) {
            Some(k) => *k,
            None => {
                return Err(KittyError::NotFound);
            },
        };
        if k.owner != from {
            return Err(KittyError::NotOwner);
        }
        if to == from {
            return Err(KittyError::TransferToSelf);
        }
        let to_len: usize = match self.owned.get(&to) {
            Some(v) => v.len(),
            None => 0,
        };
        if to_len >= self.max_owned {
            return Err(KittyError::CapacityExceeded);
        }
        self.apply_transfer(from, to, kitty_id);
        Ok(())
    }

    /// Buy a listed asset at its listed price, which must not exceed
    /// `max_price`. Succeeds if and only if the asset exists and is listed, its
    /// price is within the buyer's maximum, the buyer is not already the
    /// owner, can pay, and has spare capacity. On success the buyer is debited
    /// and the seller credited atomically with the ownership change and the
    /// asset comes off sale; any rejection leaves the registry — balances
    /// included — unchanged.
    pub fn buy_kitty(&mut self, buyer: u64, kitty_id: u128, max_price: u64) -> (r: Result<
        (),
        KittyError,
    >)
        requires
            old(self).wf(),
        ensures
            final(self).wf(),
            match r {
                Ok(_) => buy_check(old(self)@, buyer, kitty_id, max_price) is None && final(self)@
                    == buy_post(old(self)@, buyer, kitty_id),
                Err(e) => buy_check(old(self)@, buyer, kitty_id, max_price) == Some(e) && final(self)@ == old(self)@,
            },
    {
        let k = match self.kitties.get(&kitty_id) {
            Some(k) => *k,
            None => {
                return Err(KittyError::NotFound);
            },
        };
        let p = match k.price {
            Some(p) => p,
            None => {
                return Err(KittyError::NotForSale);
            },
        };
        if p > max_price {
            return Err(KittyError::PriceTooLow);
        }
        if k.owner == buyer {
            return Err(KittyError::TransferToSelf);
        }
        let buyer_bal = self.balance_of(buyer);
        if buyer_bal < p {
            return Err(KittyError::InsufficientBalance);
        }
        let buyer_len: usize = match self.owned.get(&buyer) {
            Some(v) => v.len(),
            None => 0,
        };
        if buyer_len >= self.max_owned {
            return Err(KittyError::CapacityExceeded);
        }
        let seller = k.owner;
        let seller_bal = self.balance_of(seller);
        self.balances.insert(buyer, buyer_bal - p);
        self.balances.insert(seller, seller_bal.saturating_add(p));
        proof {
            assert(self@ =~~= buy_paid(old(self)@, buyer, kitty_id));
            assert(self.wf());
            assert(transfer_check(self@, seller, buyer, kitty_id) is None);
        }
        self.apply_transfer(seller, buyer, kitty_id);
        proof {
            assert(self@ == buy_post(old(self)@, buyer, kitty_id));
        }
        Ok(())
    }

    /// Breed a new asset for `breeder` from a Female and a Male parent it
    /// owns. The child's DNA mixes the parents' blobs bit by bit under a mask
    /// derived from fresh entropy; its gender is always re-derived from the
    /// child DNA. The child is then registered exactly as a created asset
    /// would be; any rejection leaves the registry unchanged.
    pub fn breed_kitty(&mut self, breeder: u64, mom_id: u128, dad_id: u128, entropy: u128) -> (r:
        Result<u128, KittyError>)
        requires
            old(self).wf(),
        ensures
            final(self).wf(),
            match r {
                Ok(id) => breed_check(old(self)@, breeder, mom_id, dad_id, entropy) is None && id
                    == breed_dna(old(self)@, breeder, mom_id, dad_id, entropy) && final(self)@
                    == breed_post(old(self)@, breeder, mom_id, dad_id, entropy),
                Err(e) => breed_check(old(self)@, breeder, mom_id, dad_id, entropy) == Some(e)
                    && final(self)@ == old(self)@,
            },
    {
        let mom = match self.kitties.get(&mom_id) {
            Some(k) => *k,
            None => {
                return Err(KittyError::NotFound);
            },
        };
        let dad = match self.kitties.get(&dad_id) {
            Some(k) => *k,
            None => {
                return Err(KittyError::NotFound);
            },
        };
        if mom.owner != breeder {
            return Err(KittyError::NotOwner);
        }
        if dad.owner != breeder {
            return Err(KittyError::NotOwner);
        }
        if mom.gender == dad.gender {
            return Err(KittyError::SameGenderParents);
        }
        let mask = derive_dna(self.nonce, entropy, breeder);
        let child = child_dna(mom.dna, dad.dna, mask);
        let gender = gender_of(child);
        self.do_mint(breeder, child, gender, true)
    }

    /// Endow an account with a transferable balance. This stands in for the
    /// external balances ledger of the hosting environment: tests and callers
    /// seed balances with it, and the registry itself only reads and moves
    /// balances during buys.
    pub fn set_balance(&mut self, account: u64, amount: u64)
        requires
            old(self).wf(),
        ensures
            final(self).wf(),
            final(self)@ == set_balance_post(old(self)@, account, amount),
    {
        self.balances.insert(account, amount);
        proof {
            assert(self@ =~~= set_balance_post(old(self)@, account, amount));
        }
    }
}

} // verus!
