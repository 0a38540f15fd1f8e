use vstd::prelude::*;
use crate::types::{
    Addr, Listing, ListingKey, ListingStatus, RentalCredential, RentalError, Transfer, key_of,
    credential_key, listing_valid, credential_valid_shape,
};
use crate::keyed::{Keyed, keys_distinct, keyed_map, lemma_keyed_lookup, lemma_keyed_update, lemma_keyed_push,
    lemma_keyed_entries_carry_key};
use crate::rules::{
    list_outcome, update_outcome, delist_outcome, rent_outcome, terminate_outcome, expire_outcome,
    spec_credential_valid, spec_credential_expired, quote_outcome, decide_list, decide_update,
    decide_delist, decide_rent, decide_terminate, decide_expire, credential_is_valid,
    credential_is_expired, decide_quote, escrow_net, decide_initialize, decide_set_fee_recipient,
    decide_setting, decide_get_listing, decide_get_credential,
};

verus! {

/// What the contract holds: its admin and platform fee recipient once
/// initialized, the index of listings in the order they were made, the
/// listing and the latest credential of each asset, and the assets that were
/// listed before initialization (which then emptied the index).
#[verifier::ext_equal]
pub struct ContractState {
    pub admin: Option<Addr>,
    pub fee_recipient: Option<Addr>,
    pub listing_index: Seq<ListingKey>,
    pub listings: Map<ListingKey, Listing>,
    pub credentials: Map<ListingKey, RentalCredential>,
    pub unindexed: Set<ListingKey>,
}

/// The key of an asset.
pub open spec fn listing_key(asset_contract: Addr, token_id: u64) -> ListingKey {
    ListingKey { asset_contract, token_id }
}

/// What holds of every state the contract can reach:
/// - each listing is stored under its own key and has valid terms;
/// - each credential is stored under its own key and belongs to a listing
///   with the same owner; it starts before it expires and holds an escrow
///   between zero and the fee paid;
/// - a rented listing has a credential that was not terminated;
/// - the index names listed assets only, each at most once;
/// - every listed asset is named by the index, unless it was listed before
///   the contract was initialized.
pub open spec fn state_invariant(s: ContractState) -> bool {
    &&& forall|k: ListingKey| #[trigger] s.listings.contains_key(k) ==>
        key_of(s.listings[k]) == k && listing_valid(s.listings[k])
    &&& forall|k: ListingKey| #[trigger] s.credentials.contains_key(k) ==> {
        &&& credential_key(s.credentials[k]) == k
        &&& credential_valid_shape(s.credentials[k])
        &&& s.credentials[k].escrow_amount <= s.credentials[k].total_fee_paid
        &&& s.listings.contains_key(k)
        &&& s.credentials[k].owner == s.listings[k].owner
    }
    &&& forall|k: ListingKey|
        #[trigger] s.listings.contains_key(k) && s.listings[k].status == ListingStatus::Rented ==> {
            &&& s.credentials.contains_key(k)
            &&& !s.credentials[k].terminated_early
        }
    &&& forall|i: int| 0 <= i < s.listing_index.len() ==> s.listings.contains_key(#[trigger] s.listing_index[i])
    &&& forall|i: int, j: int|
        0 <= i < s.listing_index.len() && 0 <= j < s.listing_index.len() && i != j
            ==> #[trigger] s.listing_index[i] != #[trigger] s.listing_index[j]
    &&& forall|k: ListingKey| #[trigger] s.listings.contains_key(k) ==>
        s.listing_index.contains(k) || s.unindexed.contains(k)
    &&& forall|k: ListingKey| #[trigger] s.unindexed.contains(k) ==> s.listings.contains_key(k)
}

/// Whether the asset under `k` is rented out.
pub open spec fn is_rented(s: ContractState, k: ListingKey) -> bool {
    s.listings.contains_key(k) && s.listings[k].status == ListingStatus::Rented
}

/// What the escrow owes on the asset under `k`: the owner's proceeds of its
/// rental while it is rented, nothing otherwise.
pub open spec fn owed(s: ContractState, k: ListingKey) -> int {
    if is_rented(s, k) && s.credentials.contains_key(k) {
        s.credentials[k].escrow_amount as int
    } else {
        0
    }
}

/// How a call on the asset under `key` may change the contract, given the
/// transfers it makes: what it moves into escrow, net, is exactly the change
/// in what the escrow owes on that asset; it leaves every other asset as it
/// was; it never removes the asset's listing; and unless it is a rent, it
/// does not make the asset rented.
pub open spec fn accounted_step(
    s: ContractState,
    s2: ContractState,
    key: ListingKey,
    rents: bool,
    transfers: Seq<Transfer>,
) -> bool {
    &&& escrow_net(transfers) == owed(s2, key) - owed(s, key)
    &&& forall|k2: ListingKey|
        #![trigger owed(s2, k2)]
        #![trigger is_rented(s2, k2)]
        #![trigger s2.listings.get(k2)]
        k2 != key ==> {
            &&& s2.listings.get(k2) == s.listings.get(k2)
            &&& s2.credentials.get(k2) == s.credentials.get(k2)
            &&& owed(s2, k2) == owed(s, k2)
            &&& is_rented(s2, k2) == is_rented(s, k2)
        }
    &&& s.listings.contains_key(key) ==> s2.listings.contains_key(key)
    &&& !rents ==> (is_rented(s2, key) ==> is_rented(s, key))
}

/// The transfers that a call returned: none when it was refused.
pub open spec fn transfers_of(r: Result<Vec<Transfer>, RentalError>) -> Seq<Transfer> {
    match r {
        Ok(v) => v@,
        Err(_) => Seq::empty(),
    }
}

/// The rental contract: its admin, fee recipient, listing index, listings
/// and credentials.
pub struct RentalContract {
    admin: Option<Addr>,
    fee_recipient: Option<Addr>,
    listing_index: Vec<ListingKey>,
    listings: Vec<Listing>,
    credentials: Vec<RentalCredential>,
    unindexed: Ghost<Set<ListingKey>>,
}

impl View for RentalContract {
    type V = ContractState;

    closed spec fn view(&self) -> ContractState {
        ContractState {
            admin: self.admin,
            fee_recipient: self.fee_recipient,
            listing_index: self.listing_index@,
            listings: keyed_map(self.listings@),
            credentials: keyed_map(self.credentials@),
            unindexed: self.unindexed@,
        }
    }
}

impl RentalContract {
    /// The contract is well formed: no two listings or credentials share a
    /// key, and the state invariant holds.
    pub closed spec fn wf(&self) -> bool {
        &&& keys_distinct(self.listings@)
        &&& keys_distinct(self.credentials@)
        &&& state_invariant(self@)
    }

    /// A well-formed contract satisfies the state invariant.
    pub proof fn lemma_wf_invariant(&self)
        requires
            self.wf(),
        ensures
            state_invariant(self@),
    {
    }

    /// A fresh contract: not initialized, with nothing listed.
    pub fn new() -> (s: Self)
        ensures
            s.wf(),
            s@ == (ContractState {
                admin: None,
                fee_recipient: None,
                listing_index: Seq::empty(),
                listings: Map::empty(),
                credentials: Map::empty(),
                unindexed: Set::empty(),
            }),
    {
        let s = RentalContract {
            admin: None,
            fee_recipient: None,
            listing_index: Vec::new(),
            listings: Vec::new(),
            credentials: Vec::new(),
            unindexed: Ghost(Set::empty()),
        };
        assert(keyed_map(s.listings@) =~= Map::<ListingKey, Listing>::empty());
        assert(keyed_map(s.credentials@) =~= Map::<ListingKey, RentalCredential>::empty());
        s
    }

    /// The position of the listing stored under `k`, if any.
    fn find_listing(&self, k: ListingKey) -> (r: Option<usize>)
        requires
            keys_distinct(self.listings@),
        ensures
            match r {
                Some(i) => {
                    &&& i < self.listings@.len()
                    &&& self@.listings.contains_key(k)
                    &&& self@.listings[k] == self.listings@[i as int]
                    &&& self.listings@[i as int].key() == k
                },
                None => !self@.listings.contains_key(k),
            },
    {
        let n = self.listings.len();
        let mut i: usize = 0;
        while i < n
            invariant
                n == self.listings@.len(),
                i <= n,
                keys_distinct(self.listings@),
                forall|j: int| 0 <= j < i ==> #[trigger] self.listings@[j].key() != k,
            decreases n - i,
        {
            let l = &self.listings[i];
            if l.asset_contract == k.asset_contract && l.token_id == k.token_id {
                proof {
                    lemma_keyed_lookup(self.listings@, i as int);
                }
                return Some(i);
            }
            i = i + 1;
        }
        None
    }

    /// The position of the credential stored under `k`, if any.
    fn find_credential(&self, k: ListingKey) -> (r: Option<usize>)
        requires
            keys_distinct(self.credentials@),
        ensures
            match r {
                Some(i) => {
                    &&& i < self.credentials@.len()
                    &&& self@.credentials.contains_key(k)
                    &&& self@.credentials[k] == self.credentials@[i as int]
                    &&& self.credentials@[i as int].key() == k
                },
                None => !self@.credentials.contains_key(k),
            },
    {
        let n = self.credentials.len();
        let mut i: usize = 0;
        while i < n
            invariant
                n == self.credentials@.len(),
                i <= n,
                keys_distinct(self.credentials@),
                forall|j: int| 0 <= j < i ==> #[trigger] self.credentials@[j].key() != k,
            decreases n - i,
        {
            let c = &self.credentials[i];
            if c.asset_contract == k.asset_contract && c.token_id == k.token_id {
                proof {
                    lemma_keyed_lookup(self.credentials@, i as int);
                }
                return Some(i);
            }
            i = i + 1;
        }
        None
    }

    /// The listing stored under `k` and its position, if any.
    fn stored_listing(&self, k: ListingKey) -> (r: (Option<usize>, Option<Listing>))
        requires
            keys_distinct(self.listings@),
        ensures
            r.1 == self@.listings.get(k),
            r.0 is Some <==> r.1 is Some,
            r.0 matches Some(i) ==> i < self.listings@.len() && self.listings@[i as int] == self@.listings[k],
    {
        match self.find_listing(k) {
            Some(i) => (Some(i), Some(self.listings[i])),
            None => (None, None),
        }
    }

    /// The credential stored under `k` and its position, if any.
    fn stored_credential(&self, k: ListingKey) -> (r: (Option<usize>, Option<RentalCredential>))
        requires
            keys_distinct(self.credentials@),
        ensures
            r.1 == self@.credentials.get(k),
            r.0 is Some <==> r.1 is Some,
            r.0 matches Some(i) ==> i < self.credentials@.len() && self.credentials@[i as int]
                == self@.credentials[k],
    {
        match self.find_credential(k) {
            Some(i) => (Some(i), Some(self.credentials[i])),
            None => (None, None),
        }
    }

    /// Stores `l` at position `i`, in place of a listing with the same key.
    fn replace_listing(&mut self, i: usize, l: Listing)
        requires
            keys_distinct(old(self).listings@),
            i < old(self).listings@.len(),
            key_of(l) == key_of(old(self).listings@[i as int]),
        ensures
            keys_distinct(final(self).listings@),
            final(self).credentials == old(self).credentials,
            final(self).admin == old(self).admin,
            final(self).fee_recipient == old(self).fee_recipient,
            final(self).listing_index == old(self).listing_index,
            final(self).unindexed == old(self).unindexed,
            final(self)@.listings == old(self)@.listings.insert(key_of(l), l),
    {
        proof {
            lemma_keyed_update(self.listings@, i as int, l);
        }
        self.listings.set(i, l);
    }

    /// Stores credential `c` under its key, replacing any credential there.
    fn store_credential(&mut self, c: RentalCredential)
        requires
            keys_distinct(old(self).credentials@),
        ensures
            keys_distinct(final(self).credentials@),
            final(self).listings == old(self).listings,
            final(self).admin == old(self).admin,
            final(self).fee_recipient == old(self).fee_recipient,
            final(self).listing_index == old(self).listing_index,
            final(self).unindexed == old(self).unindexed,
            final(self)@.credentials == old(self)@.credentials.insert(credential_key(c), c),
    {
        let k = ListingKey { asset_contract: c.asset_contract, token_id: c.token_id };
        match self.find_credential(k) {
            Some(j) => {
                proof {
                    lemma_keyed_update(self.credentials@, j as int, c);
                }
                self.credentials.set(j, c);
            },
            None => {
                proof {
                    lemma_keyed_push(self.credentials@, c);
                }
                self.credentials.push(c);
            },
        }
    }

    /// Initializes the contract with an admin and a platform fee recipient,
    /// and empties the listing index; assets listed before then are
    /// remembered as not indexed. Refused once an admin is set.
    pub fn initialize(&mut self, admin: Addr, fee_recipient: Addr) -> (r: Result<(), RentalError>)
        requires
            old(self).wf(),
        ensures
            final(self).wf(),
            forall|k: ListingKey| accounted_step(old(self)@, final(self)@, k, false, Seq::empty()),
            match r {
                Ok(()) => {
                    &&& old(self)@.admin is None
                    &&& final(self)@ == (ContractState {
                        admin: Some(admin),
                        fee_recipient: Some(fee_recipient),
                        listing_index: Seq::empty(),
                        unindexed: old(self)@.listings.dom(),
                        ..old(self)@
                    })
                },
                Err(e) => {
                    &&& old(self)@.admin is Some
                    &&& e == RentalError::AlreadyInitialized
                    &&& final(self)@ == old(self)@
                },
            },
    {
        if let Err(e) = decide_initialize(self.admin.is_some()) {
            return Err(e);
        }
        self.admin = Some(admin);
        self.fee_recipient = Some(fee_recipient);
        self.listing_index = Vec::new();
        self.unindexed = Ghost(keyed_map(self.listings@).dom());
        assert(self@.listing_index =~= Seq::<ListingKey>::empty());
        Ok(())
    }

    /// Lists an asset for rent at `fee_per_period` per period of
    /// `period_duration` seconds, for at most `max_periods` periods, as of
    /// `now`, and appends it to the listing index. `owner` is the
    /// authenticated caller.
    pub fn list_asset(
        &mut self,
        owner: Addr,
        asset_contract: Addr,
        token_id: u64,
        payment_token: Addr,
        fee_per_period: i128,
        period_duration: u64,
        max_periods: u32,
        now: u64,
    ) -> (r: Result<(), RentalError>)
        requires
            old(self).wf(),
        ensures
            final(self).wf(),
            accounted_step(old(self)@, final(self)@, listing_key(asset_contract, token_id), false, Seq::empty()),
            match list_outcome(
                old(self)@.listings.contains_key(listing_key(asset_contract, token_id)),
                owner, asset_contract, token_id, payment_token, fee_per_period, period_duration,
                max_periods, now,
            ) {
                Ok(l) => {
                    &&& r is Ok
                    &&& final(self)@ == (ContractState {
                        listings: old(self)@.listings.insert(listing_key(asset_contract, token_id), l),
                        listing_index: old(self)@.listing_index.push(listing_key(asset_contract, token_id)),
                        ..old(self)@
                    })
                },
                Err(e) => r == Err::<(), RentalError>(e) && final(self)@ == old(self)@,
            },
    {
        let k = ListingKey { asset_contract, token_id };
        let found = self.find_listing(k);
        let l = match decide_list(
            found.is_some(), owner, asset_contract, token_id, payment_token, fee_per_period,
            period_duration, max_periods, now,
        ) {
            Err(e) => return Err(e),
            Ok(l) => l,
        };
        let ghost old_state = self@;
        proof {
            lemma_keyed_push(self.listings@, l);
        }
        self.listings.push(l);
        self.listing_index.push(k);
        proof {
            let s = self@;
            let n = old_state.listing_index.len() as int;
            assert(s.listings == old_state.listings.insert(k, l));
            assert(s.listing_index == old_state.listing_index.push(k));
            assert forall|i: int, j: int|
                0 <= i < s.listing_index.len() && 0 <= j < s.listing_index.len() && i != j
                    implies #[trigger] s.listing_index[i] != #[trigger] s.listing_index[j] by {
                if i == n {
                    assert(old_state.listings.contains_key(old_state.listing_index[j]));
                } else if j == n {
                    assert(old_state.listings.contains_key(old_state.listing_index[i]));
                } else {
                    assert(s.listing_index[i] == old_state.listing_index[i]);
                    assert(s.listing_index[j] == old_state.listing_index[j]);
                }
            }
            assert forall|i: int| 0 <= i < s.listing_index.len() implies s.listings.contains_key(
                #[trigger] s.listing_index[i],
            ) by {
                if i < n {
                    assert(s.listing_index[i] == old_state.listing_index[i]);
                }
            }
            assert forall|k2: ListingKey| #[trigger] s.listings.contains_key(k2) implies
                s.listing_index.contains(k2) || s.unindexed.contains(k2) by {
                if k2 == k {
                    assert(s.listing_index[n] == k);
                } else if old_state.listing_index.contains(k2) {
                    let i = choose|i: int| 0 <= i < n && old_state.listing_index[i] == k2;
                    assert(s.listing_index[i] == k2);
                }
            }
        }
        Ok(())
    }

    /// Changes the fee, period length and period cap of an available
    /// listing. `owner` is the authenticated caller.
    pub fn update_listing(
        &mut self,
        owner: Addr,
        asset_contract: Addr,
        token_id: u64,
        new_fee_per_period: i128,
        new_period_duration: u64,
        new_max_periods: u32,
    ) -> (r: Result<(), RentalError>)
        requires
            old(self).wf(),
        ensures
            final(self).wf(),
            accounted_step(old(self)@, final(self)@, listing_key(asset_contract, token_id), false, Seq::empty()),
            match update_outcome(
                old(self)@.listings.get(listing_key(asset_contract, token_id)),
                owner, new_fee_per_period, new_period_duration, new_max_periods,
            ) {
                Ok(l) => {
                    &&& r is Ok
                    &&& final(self)@ == (ContractState {
                        listings: old(self)@.listings.insert(listing_key(asset_contract, token_id), l),
                        ..old(self)@
                    })
                },
                Err(e) => r == Err::<(), RentalError>(e) && final(self)@ == old(self)@,
            },
    {
        let k = ListingKey { asset_contract, token_id };
        let (pos, stored) = self.stored_listing(k);
        let l = match decide_update(stored, owner, new_fee_per_period, new_period_duration, new_max_periods) {
            Err(e) => return Err(e),
            Ok(l) => l,
        };
        let i = match pos {
            Some(i) => i,
            None => return Err(RentalError::ListingNotFound),
        };
        proof {
            lemma_keyed_entries_carry_key(self.listings@, k);
        }
        self.replace_listing(i, l);
        Ok(())
    }

    /// Delists an asset; a rented asset only once its rental has ended, in
    /// which case the returned transfer releases the escrow to the owner.
    /// `owner` is the authenticated caller.
    pub fn delist_asset(&mut self, owner: Addr, asset_contract: Addr, token_id: u64, now: u64) -> (r: Result<Vec<Transfer>, RentalError>)
        requires
            old(self).wf(),
        ensures
            final(self).wf(),
            accounted_step(old(self)@, final(self)@, listing_key(asset_contract, token_id), false, transfers_of(r)),
            match delist_outcome(
                old(self)@.listings.get(listing_key(asset_contract, token_id)),
                old(self)@.credentials.get(listing_key(asset_contract, token_id)),
                owner, now,
            ) {
                Ok((l, ts)) => {
                    &&& r matches Ok(v) && v@ == ts
                    &&& final(self)@ == (ContractState {
                        listings: old(self)@.listings.insert(listing_key(asset_contract, token_id), l),
                        ..old(self)@
                    })
                },
                Err(e) => r == Err::<Vec<Transfer>, RentalError>(e) && final(self)@ == old(self)@,
            },
    {
        let k = ListingKey { asset_contract, token_id };
        let (pos, stored) = self.stored_listing(k);
        let (_, credential) = self.stored_credential(k);
        let (l, transfers) = match decide_delist(stored, credential, owner, now) {
            Err(e) => return Err(e),
            Ok(v) => v,
        };
        let i = match pos {
            Some(i) => i,
            None => return Err(RentalError::ListingNotFound),
        };
        proof {
            lemma_keyed_entries_carry_key(self.listings@, k);
            if self@.listings[k].status == ListingStatus::Rented {
                crate::laws::law_expire_transfers_pay_escrow(self@.listings[k], self@.credentials[k]);
            }
        }
        self.replace_listing(i, l);
        Ok(transfers)
    }

    /// Rents an asset for `periods` periods from `now`: marks the listing
    /// rented, stores the credential and returns the payment transfers to
    /// make. `renter` is the authenticated caller.
    pub fn rent(&mut self, renter: Addr, asset_contract: Addr, token_id: u64, periods: u32, now: u64) -> (r: Result<Vec<Transfer>, RentalError>)
        requires
            old(self).wf(),
        ensures
            final(self).wf(),
            accounted_step(old(self)@, final(self)@, listing_key(asset_contract, token_id), true, transfers_of(r)),
            match rent_outcome(
                old(self)@.listings.get(listing_key(asset_contract, token_id)),
                old(self)@.fee_recipient, renter, periods, now,
            ) {
                Ok((l, c, ts)) => {
                    &&& r matches Ok(v) && v@ == ts
                    &&& final(self)@ == (ContractState {
                        listings: old(self)@.listings.insert(listing_key(asset_contract, token_id), l),
                        credentials: old(self)@.credentials.insert(listing_key(asset_contract, token_id), c),
                        ..old(self)@
                    })
                },
                Err(e) => r == Err::<Vec<Transfer>, RentalError>(e) && final(self)@ == old(self)@,
            },
    {
        let k = ListingKey { asset_contract, token_id };
        let (pos, stored) = self.stored_listing(k);
        let (l, c, transfers) = match decide_rent(stored, self.fee_recipient, renter, periods, now) {
            Err(e) => return Err(e),
            Ok(v) => v,
        };
        let i = match pos {
            Some(i) => i,
            None => return Err(RentalError::ListingNotFound),
        };
        proof {
            lemma_keyed_entries_carry_key(self.listings@, k);
            crate::laws::law_rent_charge(self@.listings[k], self.fee_recipient, renter, periods, now, l, c, transfers@);
        }
        self.replace_listing(i, l);
        self.store_credential(c);
        Ok(transfers)
    }

    /// Ends a rental early at `now`: the listing becomes available again,
    /// the credential is marked terminated and the returned transfers split
    /// the escrow pro rata. `renter` is the authenticated caller.
    pub fn terminate_early(&mut self, renter: Addr, asset_contract: Addr, token_id: u64, now: u64) -> (r: Result<Vec<Transfer>, RentalError>)
        requires
            old(self).wf(),
        ensures
            final(self).wf(),
            accounted_step(old(self)@, final(self)@, listing_key(asset_contract, token_id), false, transfers_of(r)),
            match terminate_outcome(
                old(self)@.listings.get(listing_key(asset_contract, token_id)),
                old(self)@.credentials.get(listing_key(asset_contract, token_id)),
                renter, now,
            ) {
                Ok((l, c, ts)) => {
                    &&& r matches Ok(v) && v@ == ts
                    &&& final(self)@ == (ContractState {
                        listings: old(self)@.listings.insert(listing_key(asset_contract, token_id), l),
                        credentials: old(self)@.credentials.insert(listing_key(asset_contract, token_id), c),
                        ..old(self)@
                    })
                },
                Err(e) => r == Err::<Vec<Transfer>, RentalError>(e) && final(self)@ == old(self)@,
            },
    {
        let k = ListingKey { asset_contract, token_id };
        let (pos, stored) = self.stored_listing(k);
        let (_, credential) = self.stored_credential(k);
        let (l, c, transfers) = match decide_terminate(stored, credential, renter, now) {
            Err(e) => return Err(e),
            Ok(v) => v,
        };
        let i = match pos {
            Some(i) => i,
            None => return Err(RentalError::ListingNotFound),
        };
        proof {
            lemma_keyed_entries_carry_key(self.listings@, k);
            crate::laws::law_terminate_pays_escrow(self@.listings[k], self@.credentials[k], renter, now, l, c, transfers@);
        }
        self.replace_listing(i, l);
        self.store_credential(c);
        Ok(transfers)
    }

    /// Ends a rental whose time is up (or that was terminated early) as of
    /// `now`: the listing becomes available again and the returned transfer
    /// releases the escrow to the owner. Anyone may call it.
    pub fn expire_rental(&mut self, asset_contract: Addr, token_id: u64, now: u64) -> (r: Result<Vec<Transfer>, RentalError>)
        requires
            old(self).wf(),
        ensures
            final(self).wf(),
            accounted_step(old(self)@, final(self)@, listing_key(asset_contract, token_id), false, transfers_of(r)),
            match expire_outcome(
                old(self)@.listings.get(listing_key(asset_contract, token_id)),
                old(self)@.credentials.get(listing_key(asset_contract, token_id)),
                now,
            ) {
                Ok((l, ts)) => {
                    &&& r matches Ok(v) && v@ == ts
                    &&& final(self)@ == (ContractState {
                        listings: old(self)@.listings.insert(listing_key(asset_contract, token_id), l),
                        ..old(self)@
                    })
                },
                Err(e) => r == Err::<Vec<Transfer>, RentalError>(e) && final(self)@ == old(self)@,
            },
    {
        let k = ListingKey { asset_contract, token_id };
        let (pos, stored) = self.stored_listing(k);
        let (_, credential) = self.stored_credential(k);
        let (l, transfers) = match decide_expire(stored, credential, now) {
            Err(e) => return Err(e),
            Ok(v) => v,
        };
        let i = match pos {
            Some(i) => i,
            None => return Err(RentalError::ListingNotFound),
        };
        proof {
            lemma_keyed_entries_carry_key(self.listings@, k);
            crate::laws::law_expire_transfers_pay_escrow(self@.listings[k], self@.credentials[k]);
        }
        self.replace_listing(i, l);
        Ok(transfers)
    }

    /// Whether `renter` holds a valid credential for the asset at `now`.
    pub fn is_credential_valid(&self, renter: Addr, asset_contract: Addr, token_id: u64, now: u64) -> (r: bool)
        requires
            self.wf(),
        ensures
            r == spec_credential_valid(self@.credentials.get(listing_key(asset_contract, token_id)), renter, now),
    {
        let (_, credential) = self.stored_credential(ListingKey { asset_contract, token_id });
        credential_is_valid(credential, renter, now)
    }

    /// Whether the asset's credential has expired at `now` (or there is none).
    pub fn is_credential_expired(&self, asset_contract: Addr, token_id: u64, now: u64) -> (r: bool)
        requires
            self.wf(),
        ensures
            r == spec_credential_expired(self@.credentials.get(listing_key(asset_contract, token_id)), now),
    {
        let (_, credential) = self.stored_credential(ListingKey { asset_contract, token_id });
        credential_is_expired(credential, now)
    }

    /// The listing of an asset.
    pub fn get_listing(&self, asset_contract: Addr, token_id: u64) -> (r: Result<Listing, RentalError>)
        requires
            self.wf(),
        ensures
            r == (match self@.listings.get(listing_key(asset_contract, token_id)) {
                Some(l) => Ok(l),
                None => Err(RentalError::ListingNotFound),
            }),
    {
        decide_get_listing(self.stored_listing(ListingKey { asset_contract, token_id }).1)
    }

    /// The latest credential issued for an asset.
    pub fn get_credential(&self, asset_contract: Addr, token_id: u64) -> (r: Result<RentalCredential, RentalError>)
        requires
            self.wf(),
        ensures
            r == (match self@.credentials.get(listing_key(asset_contract, token_id)) {
                Some(c) => Ok(c),
                None => Err(RentalError::CredentialNotFound),
            }),
    {
        decide_get_credential(self.stored_credential(ListingKey { asset_contract, token_id }).1)
    }

    /// The listing index, in the order the listings were made.
    pub fn get_all_listings(&self) -> (r: Vec<ListingKey>)
        ensures
            r@ == self@.listing_index,
    {
        let n = self.listing_index.len();
        let mut out: Vec<ListingKey> = Vec::new();
        let mut i: usize = 0;
        while i < n
            invariant
                n == self.listing_index@.len(),
                i <= n,
                out@ == self.listing_index@.take(i as int),
            decreases n - i,
        {
            out.push(self.listing_index[i]);
            assert(self.listing_index@.take(i + 1) =~= self.listing_index@.take(i as int).push(self.listing_index@[i as int]));
            i = i + 1;
        }
        assert(self.listing_index@.take(n as int) =~= self.listing_index@);
        out
    }

    /// The admin.
    pub fn get_admin(&self) -> (r: Result<Addr, RentalError>)
        ensures
            r == (match self@.admin {
                Some(a) => Ok(a),
                None => Err(RentalError::NotInitialized),
            }),
    {
        decide_setting(self.admin)
    }

    /// The platform fee recipient.
    pub fn get_fee_recipient(&self) -> (r: Result<Addr, RentalError>)
        ensures
            r == (match self@.fee_recipient {
                Some(a) => Ok(a),
                None => Err(RentalError::NotInitialized),
            }),
    {
        decide_setting(self.fee_recipient)
    }

    /// The gross fee for renting an asset for `periods` periods.
    pub fn quote_rental(&self, asset_contract: Addr, token_id: u64, periods: u32) -> (r: Result<i128, RentalError>)
        requires
            self.wf(),
        ensures
            r == quote_outcome(self@.listings.get(listing_key(asset_contract, token_id)), periods),
    {
        let (_, stored) = self.stored_listing(ListingKey { asset_contract, token_id });
        decide_quote(stored, periods)
    }

    /// Replaces the platform fee recipient. `admin` is the authenticated
    /// caller and must be the stored admin.
    pub fn set_fee_recipient(&mut self, admin: Addr, new_recipient: Addr) -> (r: Result<(), RentalError>)
        requires
            old(self).wf(),
        ensures
            final(self).wf(),
            forall|k: ListingKey| accounted_step(old(self)@, final(self)@, k, false, Seq::empty()),
            match old(self)@.admin {
                None => r == Err::<(), RentalError>(RentalError::NotInitialized) && final(self)@ == old(self)@,
                Some(a) => if a == admin {
                    r is Ok && final(self)@ == (ContractState { fee_recipient: Some(new_recipient), ..old(self)@ })
                } else {
                    r == Err::<(), RentalError>(RentalError::NotAdmin) && final(self)@ == old(self)@
                },
            },
    {
        if let Err(e) = decide_set_fee_recipient(self.admin, admin) {
            return Err(e);
        }
        self.fee_recipient = Some(new_recipient);
        Ok(())
    }
}

} // verus!
