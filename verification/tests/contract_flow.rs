use soroban_rental::contract::RentalContract;
use soroban_rental::types::{Addr, Holder, Listing, ListingKey, ListingStatus, RentalCredential, RentalError, Transfer};

// ─────────────────────────────────────────────
// Test harness: the contract, a ledger clock and token balances
// ─────────────────────────────────────────────

struct TestEnv {
    contract: RentalContract,
    now: u64,
    next_id: u128,
    contract_address: Addr,
    balances: Vec<(Addr, Addr, i128)>,
}

struct Client<'a> {
    t: &'a mut TestEnv,
}

impl TestEnv {
    fn generate(&mut self) -> Addr {
        self.next_id += 1;
        Addr { is_contract: false, hi: 0, lo: self.next_id }
    }

    fn balance(&self, token: &Addr, holder: &Addr) -> i128 {
        self.balances
            .iter()
            .find(|(t, h, _)| t == token && h == holder)
            .map(|(_, _, b)| *b)
            .unwrap_or(0)
    }

    fn add(&mut self, token: &Addr, holder: &Addr, amount: i128) {
        if let Some(entry) = self.balances.iter_mut().find(|(t, h, _)| t == token && h == holder) {
            entry.2 += amount;
        } else {
            self.balances.push((*token, *holder, amount));
        }
    }

    fn holder_addr(&self, h: &Holder) -> Addr {
        match h {
            Holder::Escrow => self.contract_address,
            Holder::Account(a) => *a,
        }
    }

    fn apply(&mut self, transfers: Vec<Transfer>) {
        for tr in transfers {
            let from = self.holder_addr(&tr.from);
            let to = self.holder_addr(&tr.to);
            assert!(tr.amount >= 0, "negative amount");
            assert!(self.balance(&tr.token, &from) >= tr.amount, "balance is not sufficient");
            self.add(&tr.token, &from, -tr.amount);
            self.add(&tr.token, &to, tr.amount);
        }
    }

    fn client(&mut self) -> Client<'_> {
        Client { t: self }
    }
}

fn ok<T>(r: Result<T, RentalError>) -> T {
    match r {
        Ok(v) => v,
        Err(e) => panic!("{}", e.message()),
    }
}

impl<'a> Client<'a> {
    fn initialize(&mut self, admin: &Addr, fee_recipient: &Addr) {
        ok(self.t.contract.initialize(*admin, *fee_recipient))
    }

    fn list_asset(&mut self, owner: &Addr, asset: &Addr, token_id: &u64, payment_token: &Addr, fee: &i128, duration: &u64, max: &u32) {
        let now = self.t.now;
        ok(self.t.contract.list_asset(*owner, *asset, *token_id, *payment_token, *fee, *duration, *max, now))
    }

    fn update_listing(&mut self, owner: &Addr, asset: &Addr, token_id: &u64, fee: &i128, duration: &u64, max: &u32) {
        ok(self.t.contract.update_listing(*owner, *asset, *token_id, *fee, *duration, *max))
    }

    fn delist_asset(&mut self, owner: &Addr, asset: &Addr, token_id: &u64) {
        let now = self.t.now;
        let transfers = ok(self.t.contract.delist_asset(*owner, *asset, *token_id, now));
        self.t.apply(transfers);
    }

    fn rent(&mut self, renter: &Addr, asset: &Addr, token_id: &u64, periods: &u32) {
        let now = self.t.now;
        let transfers = ok(self.t.contract.rent(*renter, *asset, *token_id, *periods, now));
        self.t.apply(transfers);
    }

    fn terminate_early(&mut self, renter: &Addr, asset: &Addr, token_id: &u64) {
        let now = self.t.now;
        let transfers = ok(self.t.contract.terminate_early(*renter, *asset, *token_id, now));
        self.t.apply(transfers);
    }

    fn expire_rental(&mut self, asset: &Addr, token_id: &u64) {
        let now = self.t.now;
        let transfers = ok(self.t.contract.expire_rental(*asset, *token_id, now));
        self.t.apply(transfers);
    }

    fn is_credential_valid(&mut self, renter: &Addr, asset: &Addr, token_id: &u64) -> bool {
        self.t.contract.is_credential_valid(*renter, *asset, *token_id, self.t.now)
    }

    fn is_credential_expired(&mut self, asset: &Addr, token_id: &u64) -> bool {
        self.t.contract.is_credential_expired(*asset, *token_id, self.t.now)
    }

    fn get_listing(&mut self, asset: &Addr, token_id: &u64) -> Listing {
        ok(self.t.contract.get_listing(*asset, *token_id))
    }

    fn get_credential(&mut self, asset: &Addr, token_id: &u64) -> RentalCredential {
        ok(self.t.contract.get_credential(*asset, *token_id))
    }

    fn get_all_listings(&mut self) -> Vec<ListingKey> {
        self.t.contract.get_all_listings()
    }

    fn get_admin(&mut self) -> Addr {
        ok(self.t.contract.get_admin())
    }

    fn get_fee_recipient(&mut self) -> Addr {
        ok(self.t.contract.get_fee_recipient())
    }

    fn quote_rental(&mut self, asset: &Addr, token_id: &u64, periods: &u32) -> i128 {
        ok(self.t.contract.quote_rental(*asset, *token_id, *periods))
    }

    fn set_fee_recipient(&mut self, admin: &Addr, new_recipient: &Addr) {
        ok(self.t.contract.set_fee_recipient(*admin, *new_recipient))
    }
}

struct Setup {
    t: TestEnv,
    admin: Addr,
    fee_recipient: Addr,
    payment_token: Addr,
}

fn setup() -> Setup {
    let mut t = TestEnv {
        contract: RentalContract::new(),
        now: 0,
        next_id: 0,
        contract_address: Addr { is_contract: true, hi: 0, lo: 0 },
        balances: Vec::new(),
    };
    let admin = t.generate();
    let fee_recipient = t.generate();
    let payment_token = Addr { is_contract: true, hi: 0, lo: 1_000_000 };
    t.client().initialize(&admin, &fee_recipient);
    Setup { t, admin, fee_recipient, payment_token }
}

fn set_time(s: &mut Setup, timestamp: u64) {
    s.t.now = timestamp;
}

fn mint(s: &mut Setup, to: &Addr, amount: i128) {
    let token = s.payment_token;
    s.t.add(&token, to, amount);
}

fn token_balance(s: &Setup, addr: &Addr) -> i128 {
    s.t.balance(&s.payment_token, addr)
}

/// Create a standard listing: fee=1000, period=86400 (1 day), max=30
fn standard_listing(s: &mut Setup, owner: &Addr, asset_contract: &Addr, token_id: u64) {
    let token = s.payment_token;
    s.t.client().list_asset(owner, asset_contract, &token_id, &token, &1000, &86_400, &30);
}

// ─────────────────────────────────────────────
// Initialization Tests
// ─────────────────────────────────────────────

#[test]
fn test_initialize_sets_admin_and_fee_recipient() {
    let mut s = setup();
    let (admin, fee_recipient) = (s.admin, s.fee_recipient);
    assert_eq!(s.t.client().get_admin(), admin);
    assert_eq!(s.t.client().get_fee_recipient(), fee_recipient);
}

#[test]
#[should_panic(expected = "already initialized")]
fn test_double_initialize_panics() {
    let mut s = setup();
    let other = s.t.generate();
    s.t.client().initialize(&other, &other);
}

// ─────────────────────────────────────────────
// Listing Tests
// ─────────────────────────────────────────────

#[test]
fn test_list_asset_creates_available_listing() {
    let mut s = setup();
    let owner = s.t.generate();
    let asset = s.t.generate();

    standard_listing(&mut s, &owner, &asset, 1);

    let listing = s.t.client().get_listing(&asset, &1);
    assert_eq!(listing.owner, owner);
    assert_eq!(listing.fee_per_period, 1000);
    assert_eq!(listing.period_duration, 86_400);
    assert_eq!(listing.max_periods, 30);
    assert_eq!(listing.status, ListingStatus::Available);
}

#[test]
fn test_list_asset_appears_in_index() {
    let mut s = setup();
    let owner = s.t.generate();
    let asset = s.t.generate();

    standard_listing(&mut s, &owner, &asset, 42);

    let all = s.t.client().get_all_listings();
    assert_eq!(all.len(), 1);
    let key = all.get(0).unwrap();
    assert_eq!(key.asset_contract, asset);
    assert_eq!(key.token_id, 42);
}

#[test]
fn test_multiple_assets_listed() {
    let mut s = setup();
    let owner = s.t.generate();
    let asset1 = s.t.generate();
    let asset2 = s.t.generate();

    standard_listing(&mut s, &owner, &asset1, 1);
    standard_listing(&mut s, &owner, &asset2, 2);

    let all = s.t.client().get_all_listings();
    assert_eq!(all.len(), 2);
}

#[test]
#[should_panic(expected = "asset already listed")]
fn test_duplicate_listing_panics() {
    let mut s = setup();
    let owner = s.t.generate();
    let asset = s.t.generate();

    standard_listing(&mut s, &owner, &asset, 1);
    standard_listing(&mut s, &owner, &asset, 1);
}

#[test]
#[should_panic(expected = "period duration must be > 0")]
fn test_zero_period_duration_panics() {
    let mut s = setup();
    let owner = s.t.generate();
    let asset = s.t.generate();
    let token = s.payment_token;
    s.t.client().list_asset(&owner, &asset, &1, &token, &100, &0, &10);
}

#[test]
#[should_panic(expected = "max_periods must be 1-365")]
fn test_zero_max_periods_panics() {
    let mut s = setup();
    let owner = s.t.generate();
    let asset = s.t.generate();
    let token = s.payment_token;
    s.t.client().list_asset(&owner, &asset, &1, &token, &100, &86_400, &0);
}

#[test]
fn test_update_listing() {
    let mut s = setup();
    let owner = s.t.generate();
    let asset = s.t.generate();

    standard_listing(&mut s, &owner, &asset, 1);
    s.t.client().update_listing(&owner, &asset, &1, &2000, &3600, &7);

    let listing = s.t.client().get_listing(&asset, &1);
    assert_eq!(listing.fee_per_period, 2000);
    assert_eq!(listing.period_duration, 3600);
    assert_eq!(listing.max_periods, 7);
}

#[test]
fn test_delist_available_asset() {
    let mut s = setup();
    let owner = s.t.generate();
    let asset = s.t.generate();

    standard_listing(&mut s, &owner, &asset, 1);
    s.t.client().delist_asset(&owner, &asset, &1);

    let listing = s.t.client().get_listing(&asset, &1);
    assert_eq!(listing.status, ListingStatus::Delisted);
}

#[test]
#[should_panic(expected = "already delisted")]
fn test_double_delist_panics() {
    let mut s = setup();
    let owner = s.t.generate();
    let asset = s.t.generate();

    standard_listing(&mut s, &owner, &asset, 1);
    s.t.client().delist_asset(&owner, &asset, &1);
    s.t.client().delist_asset(&owner, &asset, &1);
}

// ─────────────────────────────────────────────
// Rental Tests
// ─────────────────────────────────────────────

#[test]
fn test_rent_issues_credential() {
    let mut s = setup();
    let owner = s.t.generate();
    let renter = s.t.generate();
    let asset = s.t.generate();

    set_time(&mut s, 1_000_000);
    standard_listing(&mut s, &owner, &asset, 1);
    mint(&mut s, &renter, 5000);

    s.t.client().rent(&renter, &asset, &1, &3); // 3 periods

    let credential = s.t.client().get_credential(&asset, &1);
    assert_eq!(credential.renter, renter);
    assert_eq!(credential.periods, 3);
    assert_eq!(credential.started_at, 1_000_000);
    assert_eq!(credential.expires_at, 1_000_000 + 86_400 * 3);
    assert!(!credential.terminated_early);
}

#[test]
fn test_rent_transfers_fee_to_owner_and_platform() {
    let mut s = setup();
    let owner = s.t.generate();
    let renter = s.t.generate();
    let asset = s.t.generate();
    let fee_recipient = s.fee_recipient;

    set_time(&mut s, 0);
    standard_listing(&mut s, &owner, &asset, 1);

    // Total fee = 1000 * 2 = 2000
    // Platform fee = 2000 * 250 / 10000 = 50  (paid immediately at rent)
    // Escrow (owner proceeds) = 1950           (held in contract until expire_rental)
    mint(&mut s, &renter, 2000);

    s.t.client().rent(&renter, &asset, &1, &2);

    // After rent: platform got their cut; owner proceeds held in escrow
    assert_eq!(token_balance(&s, &renter), 0);
    assert_eq!(token_balance(&s, &owner), 0);
    assert_eq!(token_balance(&s, &fee_recipient), 50);

    // After expire_rental: owner receives escrow in full
    set_time(&mut s, 86_400 * 2 + 1);
    s.t.client().expire_rental(&asset, &1);
    assert_eq!(token_balance(&s, &owner), 1950);
}

#[test]
fn test_rent_marks_listing_as_rented() {
    let mut s = setup();
    let owner = s.t.generate();
    let renter = s.t.generate();
    let asset = s.t.generate();

    set_time(&mut s, 0);
    standard_listing(&mut s, &owner, &asset, 1);
    mint(&mut s, &renter, 1000);

    s.t.client().rent(&renter, &asset, &1, &1);

    let listing = s.t.client().get_listing(&asset, &1);
    assert_eq!(listing.status, ListingStatus::Rented);
}

#[test]
#[should_panic(expected = "asset is not available for rent")]
fn test_rent_already_rented_panics() {
    let mut s = setup();
    let owner = s.t.generate();
    let renter1 = s.t.generate();
    let renter2 = s.t.generate();
    let asset = s.t.generate();

    set_time(&mut s, 0);
    standard_listing(&mut s, &owner, &asset, 1);
    mint(&mut s, &renter1, 1000);
    mint(&mut s, &renter2, 1000);

    s.t.client().rent(&renter1, &asset, &1, &1);
    s.t.client().rent(&renter2, &asset, &1, &1); // should panic
}

#[test]
#[should_panic(expected = "exceeds maximum rental periods")]
fn test_rent_exceeds_max_periods_panics() {
    let mut s = setup();
    let owner = s.t.generate();
    let renter = s.t.generate();
    let asset = s.t.generate();

    set_time(&mut s, 0);
    standard_listing(&mut s, &owner, &asset, 1); // max 30 periods
    mint(&mut s, &renter, 100_000);

    s.t.client().rent(&renter, &asset, &1, &31); // exceeds max
}

#[test]
fn test_quote_rental_returns_correct_amount() {
    let mut s = setup();
    let owner = s.t.generate();
    let asset = s.t.generate();

    standard_listing(&mut s, &owner, &asset, 1); // fee=1000

    assert_eq!(s.t.client().quote_rental(&asset, &1, &1), 1000);
    assert_eq!(s.t.client().quote_rental(&asset, &1, &7), 7000);
    assert_eq!(s.t.client().quote_rental(&asset, &1, &30), 30_000);
}

// ─────────────────────────────────────────────
// Credential Validity Tests
// ─────────────────────────────────────────────

#[test]
fn test_credential_valid_during_rental_period() {
    let mut s = setup();
    let owner = s.t.generate();
    let renter = s.t.generate();
    let asset = s.t.generate();

    set_time(&mut s, 1_000_000);
    standard_listing(&mut s, &owner, &asset, 1);
    mint(&mut s, &renter, 1000);

    s.t.client().rent(&renter, &asset, &1, &1);

    // Mid-period: credential should be valid
    set_time(&mut s, 1_000_000 + 43_200); // half a day
    assert!(s.t.client().is_credential_valid(&renter, &asset, &1));
    assert!(!s.t.client().is_credential_expired(&asset, &1));
}

#[test]
fn test_credential_invalid_after_expiry() {
    let mut s = setup();
    let owner = s.t.generate();
    let renter = s.t.generate();
    let asset = s.t.generate();

    set_time(&mut s, 1_000_000);
    standard_listing(&mut s, &owner, &asset, 1);
    mint(&mut s, &renter, 1000);

    s.t.client().rent(&renter, &asset, &1, &1); // 1 day

    // After expiry
    set_time(&mut s, 1_000_000 + 86_400 + 1);
    assert!(!s.t.client().is_credential_valid(&renter, &asset, &1));
    assert!(s.t.client().is_credential_expired(&asset, &1));
}

#[test]
fn test_credential_invalid_for_wrong_renter() {
    let mut s = setup();
    let owner = s.t.generate();
    let renter = s.t.generate();
    let impostor = s.t.generate();
    let asset = s.t.generate();

    set_time(&mut s, 1_000_000);
    standard_listing(&mut s, &owner, &asset, 1);
    mint(&mut s, &renter, 1000);

    s.t.client().rent(&renter, &asset, &1, &1);

    set_time(&mut s, 1_000_000 + 100);
    assert!(s.t.client().is_credential_valid(&renter, &asset, &1));
    assert!(!s.t.client().is_credential_valid(&impostor, &asset, &1)); // impostor invalid
}

#[test]
fn test_no_credential_returns_expired() {
    let mut s = setup();
    let asset = s.t.generate();

    // No credential ever created
    assert!(s.t.client().is_credential_expired(&asset, &999));
}

// ─────────────────────────────────────────────
// Expire Rental Tests
// ─────────────────────────────────────────────

#[test]
fn test_expire_rental_resets_listing_to_available() {
    let mut s = setup();
    let owner = s.t.generate();
    let renter = s.t.generate();
    let asset = s.t.generate();

    set_time(&mut s, 0);
    standard_listing(&mut s, &owner, &asset, 1);
    mint(&mut s, &renter, 1000);

    s.t.client().rent(&renter, &asset, &1, &1);

    // After expiry, anyone can call expire_rental
    set_time(&mut s, 86_400 + 1);
    s.t.client().expire_rental(&asset, &1);

    let listing = s.t.client().get_listing(&asset, &1);
    assert_eq!(listing.status, ListingStatus::Available);
}

#[test]
#[should_panic(expected = "rental period has not ended yet")]
fn test_expire_rental_before_expiry_panics() {
    let mut s = setup();
    let owner = s.t.generate();
    let renter = s.t.generate();
    let asset = s.t.generate();

    set_time(&mut s, 0);
    standard_listing(&mut s, &owner, &asset, 1);
    mint(&mut s, &renter, 1000);

    s.t.client().rent(&renter, &asset, &1, &1);

    // Half-way through — should panic
    set_time(&mut s, 43_200);
    s.t.client().expire_rental(&asset, &1);
}

#[test]
fn test_re_rent_after_expiry() {
    let mut s = setup();
    let owner = s.t.generate();
    let renter1 = s.t.generate();
    let renter2 = s.t.generate();
    let asset = s.t.generate();

    set_time(&mut s, 0);
    standard_listing(&mut s, &owner, &asset, 1);
    mint(&mut s, &renter1, 1000);
    mint(&mut s, &renter2, 1000);

    s.t.client().rent(&renter1, &asset, &1, &1);

    // Expire rental
    set_time(&mut s, 86_400 + 1);
    s.t.client().expire_rental(&asset, &1);

    // Second renter can now rent
    s.t.client().rent(&renter2, &asset, &1, &1);
    assert!(s.t.client().is_credential_valid(&renter2, &asset, &1));
}

// ─────────────────────────────────────────────
// Early Termination Tests
// ─────────────────────────────────────────────

#[test]
fn test_terminate_early_marks_credential_terminated() {
    let mut s = setup();
    let owner = s.t.generate();
    let renter = s.t.generate();
    let asset = s.t.generate();

    set_time(&mut s, 0);
    standard_listing(&mut s, &owner, &asset, 1);

    // Rent for 2 days = 2000 total fee
    // platform_fee = 50, owner_proceeds = 1950
    // Renter mints 2000 for the rental
    mint(&mut s, &renter, 2000);
    s.t.client().rent(&renter, &asset, &1, &2);

    // Terminate at half-way (1 day into 2-day rental)
    // Escrow = 1950 (owner proceeds held in contract)
    // Owner share = 1950 * (86400/172800) = 975
    // Renter refund = 1950 - 975 = 975 (from escrow, no owner auth needed)
    set_time(&mut s, 86_400);
    s.t.client().terminate_early(&renter, &asset, &1);

    let credential = s.t.client().get_credential(&asset, &1);
    assert!(credential.terminated_early);
}

#[test]
fn test_terminate_early_resets_listing_to_available() {
    let mut s = setup();
    let owner = s.t.generate();
    let renter = s.t.generate();
    let asset = s.t.generate();

    set_time(&mut s, 0);
    standard_listing(&mut s, &owner, &asset, 1);
    mint(&mut s, &renter, 1000);

    s.t.client().rent(&renter, &asset, &1, &1);

    set_time(&mut s, 3600); // 1 hour in
    s.t.client().terminate_early(&renter, &asset, &1);

    let listing = s.t.client().get_listing(&asset, &1);
    assert_eq!(listing.status, ListingStatus::Available);
}

#[test]
fn test_credential_invalid_after_early_termination() {
    let mut s = setup();
    let owner = s.t.generate();
    let renter = s.t.generate();
    let asset = s.t.generate();

    set_time(&mut s, 0);
    standard_listing(&mut s, &owner, &asset, 1);
    mint(&mut s, &renter, 1000);

    s.t.client().rent(&renter, &asset, &1, &1);

    set_time(&mut s, 3600);
    s.t.client().terminate_early(&renter, &asset, &1);

    // Credential should now be invalid even though time hasn't expired
    assert!(!s.t.client().is_credential_valid(&renter, &asset, &1));
    assert!(s.t.client().is_credential_expired(&asset, &1));
}

#[test]
#[should_panic(expected = "not the current renter")]
fn test_terminate_early_wrong_renter_panics() {
    let mut s = setup();
    let owner = s.t.generate();
    let renter = s.t.generate();
    let impostor = s.t.generate();
    let asset = s.t.generate();

    set_time(&mut s, 0);
    standard_listing(&mut s, &owner, &asset, 1);
    mint(&mut s, &renter, 1000);

    s.t.client().rent(&renter, &asset, &1, &1);

    set_time(&mut s, 3600);
    s.t.client().terminate_early(&impostor, &asset, &1); // wrong renter
}

#[test]
#[should_panic(expected = "rental has already expired")]
fn test_terminate_early_after_expiry_panics() {
    let mut s = setup();
    let owner = s.t.generate();
    let renter = s.t.generate();
    let asset = s.t.generate();

    set_time(&mut s, 0);
    standard_listing(&mut s, &owner, &asset, 1);
    mint(&mut s, &renter, 1000);

    s.t.client().rent(&renter, &asset, &1, &1);

    // After expiry
    set_time(&mut s, 86_400 + 1);
    s.t.client().terminate_early(&renter, &asset, &1);
}

#[test]
#[should_panic(expected = "asset is not currently rented")]
fn test_double_terminate_panics() {
    let mut s = setup();
    let owner = s.t.generate();
    let renter = s.t.generate();
    let asset = s.t.generate();

    set_time(&mut s, 0);
    standard_listing(&mut s, &owner, &asset, 1);
    mint(&mut s, &renter, 1000);

    s.t.client().rent(&renter, &asset, &1, &1);

    set_time(&mut s, 3600);
    s.t.client().terminate_early(&renter, &asset, &1);
    s.t.client().terminate_early(&renter, &asset, &1); // should panic
}

// ─────────────────────────────────────────────
// Delist with Active Rental Tests
// ─────────────────────────────────────────────

#[test]
#[should_panic(expected = "rental still active")]
fn test_delist_during_active_rental_panics() {
    let mut s = setup();
    let owner = s.t.generate();
    let renter = s.t.generate();
    let asset = s.t.generate();

    set_time(&mut s, 0);
    standard_listing(&mut s, &owner, &asset, 1);
    mint(&mut s, &renter, 1000);

    s.t.client().rent(&renter, &asset, &1, &1);

    // Try to delist mid-rental
    set_time(&mut s, 3600);
    s.t.client().delist_asset(&owner, &asset, &1);
}

#[test]
fn test_delist_after_rental_expiry() {
    let mut s = setup();
    let owner = s.t.generate();
    let renter = s.t.generate();
    let asset = s.t.generate();

    set_time(&mut s, 0);
    standard_listing(&mut s, &owner, &asset, 1);
    mint(&mut s, &renter, 1000);

    s.t.client().rent(&renter, &asset, &1, &1);

    // After expiry owner can delist
    set_time(&mut s, 86_400 + 1);
    s.t.client().delist_asset(&owner, &asset, &1);

    let listing = s.t.client().get_listing(&asset, &1);
    assert_eq!(listing.status, ListingStatus::Delisted);
}

// ─────────────────────────────────────────────
// Fee Recipient Tests
// ─────────────────────────────────────────────

#[test]
fn test_set_fee_recipient() {
    let mut s = setup();
    let new_recipient = s.t.generate();
    let admin = s.admin;
    s.t.client().set_fee_recipient(&admin, &new_recipient);
    assert_eq!(s.t.client().get_fee_recipient(), new_recipient);
}

#[test]
fn test_free_rental_no_token_transfer() {
    let mut s = setup();
    let owner = s.t.generate();
    let renter = s.t.generate();
    let asset = s.t.generate();
    let token = s.payment_token;

    set_time(&mut s, 0);
    // Free listing (fee = 0)
    s.t.client().list_asset(&owner, &asset, &1, &token, &0, &86_400, &10);
    s.t.client().rent(&renter, &asset, &1, &1);

    // Credential is still issued
    let credential = s.t.client().get_credential(&asset, &1);
    assert_eq!(credential.renter, renter);
    assert_eq!(credential.total_fee_paid, 0);
    // No token balance changes needed since fee is 0
    assert_eq!(token_balance(&s, &renter), 0);
    assert_eq!(token_balance(&s, &owner), 0);
}

// ─────────────────────────────────────────────
// Further scenarios
// ─────────────────────────────────────────────

#[test]
fn early_termination_splits_escrow_half_and_half() {
    let mut s = setup();
    let owner = s.t.generate();
    let renter = s.t.generate();
    let asset = s.t.generate();
    let fee_recipient = s.fee_recipient;
    let escrow = s.t.contract_address;

    set_time(&mut s, 0);
    standard_listing(&mut s, &owner, &asset, 1);
    mint(&mut s, &renter, 2000);
    s.t.client().rent(&renter, &asset, &1, &2);
    assert_eq!(token_balance(&s, &escrow), 1950);

    set_time(&mut s, 86_400);
    s.t.client().terminate_early(&renter, &asset, &1);
    assert_eq!(token_balance(&s, &owner), 975);
    assert_eq!(token_balance(&s, &renter), 975);
    assert_eq!(token_balance(&s, &fee_recipient), 50);
    assert_eq!(token_balance(&s, &escrow), 0);
}

#[test]
fn early_termination_rounds_owner_share_down() {
    let mut s = setup();
    let owner = s.t.generate();
    let renter = s.t.generate();
    let asset = s.t.generate();
    let escrow = s.t.contract_address;

    set_time(&mut s, 0);
    standard_listing(&mut s, &owner, &asset, 1);
    mint(&mut s, &renter, 1000);
    s.t.client().rent(&renter, &asset, &1, &1); // escrow 975
    set_time(&mut s, 3600);
    s.t.client().terminate_early(&renter, &asset, &1);
    // 975 * 3600 / 86400 = 40.625 -> 40
    assert_eq!(token_balance(&s, &owner), 40);
    assert_eq!(token_balance(&s, &renter), 935);
    assert_eq!(token_balance(&s, &escrow), 0);
}

#[test]
fn terminate_at_start_refunds_everything() {
    let mut s = setup();
    let owner = s.t.generate();
    let renter = s.t.generate();
    let asset = s.t.generate();

    set_time(&mut s, 500);
    standard_listing(&mut s, &owner, &asset, 1);
    mint(&mut s, &renter, 1000);
    s.t.client().rent(&renter, &asset, &1, &1);
    s.t.client().terminate_early(&renter, &asset, &1);
    assert_eq!(token_balance(&s, &owner), 0);
    assert_eq!(token_balance(&s, &renter), 975);
}

#[test]
fn small_fee_pays_no_platform_cut() {
    let mut s = setup();
    let owner = s.t.generate();
    let renter = s.t.generate();
    let asset = s.t.generate();
    let token = s.payment_token;
    let fee_recipient = s.fee_recipient;

    s.t.client().list_asset(&owner, &asset, &1, &token, &39, &100, &1);
    mint(&mut s, &renter, 39);
    s.t.client().rent(&renter, &asset, &1, &1);
    // 39 * 250 / 10000 = 0
    assert_eq!(token_balance(&s, &fee_recipient), 0);
    let c = s.t.client().get_credential(&asset, &1);
    assert_eq!(c.escrow_amount, 39);
    assert_eq!(c.total_fee_paid, 39);
}

#[test]
fn expire_after_early_termination_is_refused() {
    let mut s = setup();
    let owner = s.t.generate();
    let renter = s.t.generate();
    let asset = s.t.generate();

    standard_listing(&mut s, &owner, &asset, 1);
    mint(&mut s, &renter, 1000);
    s.t.client().rent(&renter, &asset, &1, &1);
    set_time(&mut s, 10);
    s.t.client().terminate_early(&renter, &asset, &1);
    set_time(&mut s, 100_000);
    assert_eq!(s.t.contract.expire_rental(asset, 1, 100_000).unwrap_err(), RentalError::NotInRentedState);
}

#[test]
fn operations_on_missing_listing_are_refused() {
    let mut s = setup();
    let a = s.t.generate();
    let asset = s.t.generate();
    assert_eq!(s.t.contract.get_listing(asset, 5).unwrap_err(), RentalError::ListingNotFound);
    assert_eq!(s.t.contract.get_credential(asset, 5).unwrap_err(), RentalError::CredentialNotFound);
    assert_eq!(s.t.contract.quote_rental(asset, 5, 1).unwrap_err(), RentalError::ListingNotFound);
    assert_eq!(s.t.contract.rent(a, asset, 5, 1, 0).unwrap_err(), RentalError::ListingNotFound);
    assert_eq!(s.t.contract.terminate_early(a, asset, 5, 0).unwrap_err(), RentalError::ListingNotFound);
    assert_eq!(s.t.contract.expire_rental(asset, 5, 0).unwrap_err(), RentalError::ListingNotFound);
    assert_eq!(s.t.contract.delist_asset(a, asset, 5, 0).unwrap_err(), RentalError::ListingNotFound);
    assert_eq!(s.t.contract.update_listing(a, asset, 5, 1, 1, 1).unwrap_err(), RentalError::ListingNotFound);
}

#[test]
fn only_owner_updates_or_delists() {
    let mut s = setup();
    let owner = s.t.generate();
    let other = s.t.generate();
    let asset = s.t.generate();
    standard_listing(&mut s, &owner, &asset, 1);
    assert_eq!(s.t.contract.update_listing(other, asset, 1, 5, 5, 5).unwrap_err(), RentalError::NotOwner);
    assert_eq!(s.t.contract.delist_asset(other, asset, 1, 0).unwrap_err(), RentalError::NotOwner);
    let listing = s.t.contract.get_listing(asset, 1).unwrap();
    assert_eq!(listing.fee_per_period, 1000);
    assert_eq!(listing.status, ListingStatus::Available);
}

#[test]
fn update_refused_while_rented_and_on_bad_terms() {
    let mut s = setup();
    let owner = s.t.generate();
    let renter = s.t.generate();
    let asset = s.t.generate();
    standard_listing(&mut s, &owner, &asset, 1);
    assert_eq!(s.t.contract.update_listing(owner, asset, 1, -1, 5, 5).unwrap_err(), RentalError::NegativeFee);
    assert_eq!(s.t.contract.update_listing(owner, asset, 1, 1, 0, 5).unwrap_err(), RentalError::ZeroPeriodDuration);
    assert_eq!(s.t.contract.update_listing(owner, asset, 1, 1, 5, 366).unwrap_err(), RentalError::InvalidMaxPeriods);
    mint(&mut s, &renter, 1000);
    s.t.client().rent(&renter, &asset, &1, &1);
    assert_eq!(s.t.contract.update_listing(owner, asset, 1, 5, 5, 5).unwrap_err(), RentalError::NotAvailableForUpdate);
}

#[test]
fn list_refuses_bad_terms_in_order() {
    let mut s = setup();
    let owner = s.t.generate();
    let asset = s.t.generate();
    let token = s.payment_token;
    assert_eq!(s.t.contract.list_asset(owner, asset, 1, token, -5, 0, 0, 0).unwrap_err(), RentalError::NegativeFee);
    assert_eq!(s.t.contract.list_asset(owner, asset, 1, token, 5, 0, 0, 0).unwrap_err(), RentalError::ZeroPeriodDuration);
    assert_eq!(s.t.contract.list_asset(owner, asset, 1, token, 5, 1, 366, 0).unwrap_err(), RentalError::InvalidMaxPeriods);
    assert!(s.t.contract.list_asset(owner, asset, 1, token, 5, 1, 365, 0).is_ok());
    assert!(s.t.contract.get_all_listings().len() == 1);
}

#[test]
fn delisted_asset_cannot_be_listed_again_or_rented() {
    let mut s = setup();
    let owner = s.t.generate();
    let renter = s.t.generate();
    let asset = s.t.generate();
    let token = s.payment_token;
    standard_listing(&mut s, &owner, &asset, 1);
    s.t.client().delist_asset(&owner, &asset, &1);
    assert_eq!(s.t.contract.list_asset(owner, asset, 1, token, 5, 1, 5, 0).unwrap_err(), RentalError::AlreadyListed);
    assert_eq!(s.t.contract.rent(renter, asset, 1, 1, 0).unwrap_err(), RentalError::NotAvailableForRent);
    assert_eq!(s.t.contract.get_all_listings().len(), 1);
}

#[test]
fn zero_periods_refused() {
    let mut s = setup();
    let owner = s.t.generate();
    let renter = s.t.generate();
    let asset = s.t.generate();
    standard_listing(&mut s, &owner, &asset, 1);
    assert_eq!(s.t.contract.rent(renter, asset, 1, 0, 0).unwrap_err(), RentalError::ZeroPeriods);
}

#[test]
fn fee_overflow_is_refused() {
    let mut s = setup();
    let owner = s.t.generate();
    let renter = s.t.generate();
    let asset = s.t.generate();
    let token = s.payment_token;
    s.t.client().list_asset(&owner, &asset, &1, &token, &(i128::MAX / 2), &10, &3);
    assert_eq!(s.t.contract.quote_rental(asset, 1, 3).unwrap_err(), RentalError::ArithmeticOverflow);
    assert_eq!(s.t.contract.quote_rental(asset, 1, 2).unwrap(), (i128::MAX / 2) * 2);
    // the gross fee fits, but the platform's cut overflows
    assert_eq!(s.t.contract.rent(renter, asset, 1, 1, 0).unwrap_err(), RentalError::ArithmeticOverflow);
    assert_eq!(s.t.contract.get_listing(asset, 1).unwrap().status, ListingStatus::Available);
}

#[test]
fn expiry_overflow_is_refused() {
    let mut s = setup();
    let owner = s.t.generate();
    let renter = s.t.generate();
    let asset = s.t.generate();
    let token = s.payment_token;
    s.t.client().list_asset(&owner, &asset, &1, &token, &0, &(u64::MAX / 2), &3);
    assert_eq!(s.t.contract.rent(renter, asset, 1, 3, 0).unwrap_err(), RentalError::ArithmeticOverflow);
    assert!(s.t.contract.rent(renter, asset, 1, 2, 0).is_ok());
}

#[test]
fn rent_before_initialize_needs_fee_recipient_only_for_platform_cut() {
    let mut c = RentalContract::new();
    let owner = Addr { is_contract: false, hi: 1, lo: 1 };
    let renter = Addr { is_contract: false, hi: 1, lo: 2 };
    let asset = Addr { is_contract: true, hi: 1, lo: 3 };
    let token = Addr { is_contract: true, hi: 1, lo: 4 };
    c.list_asset(owner, asset, 1, token, 1000, 10, 5, 0).unwrap();
    c.list_asset(owner, asset, 2, token, 10, 10, 5, 0).unwrap();
    assert_eq!(c.rent(renter, asset, 1, 1, 0).unwrap_err(), RentalError::NotInitialized);
    // 10 * 250 / 10000 = 0: no cut, no recipient needed
    let ts = c.rent(renter, asset, 2, 1, 0).unwrap();
    assert_eq!(ts, vec![Transfer { token, from: Holder::Account(renter), to: Holder::Escrow, amount: 10 }]);
    assert_eq!(c.get_admin().unwrap_err(), RentalError::NotInitialized);
    assert_eq!(c.get_fee_recipient().unwrap_err(), RentalError::NotInitialized);
    assert_eq!(c.set_fee_recipient(owner, owner).unwrap_err(), RentalError::NotInitialized);
}

#[test]
fn initialize_empties_the_index_but_keeps_listings() {
    let mut c = RentalContract::new();
    let owner = Addr { is_contract: false, hi: 1, lo: 1 };
    let asset = Addr { is_contract: true, hi: 1, lo: 3 };
    c.list_asset(owner, asset, 1, asset, 1, 10, 5, 0).unwrap();
    assert_eq!(c.get_all_listings().len(), 1);
    c.initialize(owner, owner).unwrap();
    assert_eq!(c.get_all_listings().len(), 0);
    assert!(c.get_listing(asset, 1).is_ok());
}

#[test]
fn set_fee_recipient_refused_for_non_admin() {
    let mut s = setup();
    let other = s.t.generate();
    let fee_recipient = s.fee_recipient;
    assert_eq!(s.t.contract.set_fee_recipient(other, other).unwrap_err(), RentalError::NotAdmin);
    assert_eq!(s.t.client().get_fee_recipient(), fee_recipient);
}

#[test]
fn new_fee_recipient_receives_the_platform_cut() {
    let mut s = setup();
    let owner = s.t.generate();
    let renter = s.t.generate();
    let asset = s.t.generate();
    let new_recipient = s.t.generate();
    let admin = s.admin;
    s.t.client().set_fee_recipient(&admin, &new_recipient);
    standard_listing(&mut s, &owner, &asset, 1);
    mint(&mut s, &renter, 4000);
    s.t.client().rent(&renter, &asset, &1, &4);
    assert_eq!(token_balance(&s, &new_recipient), 100);
}

#[test]
fn credential_validity_at_the_boundaries() {
    let mut s = setup();
    let owner = s.t.generate();
    let renter = s.t.generate();
    let asset = s.t.generate();
    set_time(&mut s, 100);
    standard_listing(&mut s, &owner, &asset, 1);
    mint(&mut s, &renter, 1000);
    s.t.client().rent(&renter, &asset, &1, &1);
    assert!(s.t.contract.is_credential_valid(renter, asset, 1, 100));
    assert!(s.t.contract.is_credential_valid(renter, asset, 1, 86_499));
    assert!(!s.t.contract.is_credential_expired(asset, 1, 86_499));
    assert!(!s.t.contract.is_credential_valid(renter, asset, 1, 86_500));
    assert!(s.t.contract.is_credential_expired(asset, 1, 86_500));
    // expiry and delisting are allowed from the expiry instant on
    assert_eq!(s.t.contract.expire_rental(asset, 1, 86_499).unwrap_err(), RentalError::RentalNotEnded);
    assert_eq!(s.t.contract.terminate_early(renter, asset, 1, 86_500).unwrap_err(), RentalError::RentalExpired);
    assert!(s.t.contract.expire_rental(asset, 1, 86_500).is_ok());
}

#[test]
fn expire_refused_when_not_rented() {
    let mut s = setup();
    let owner = s.t.generate();
    let renter = s.t.generate();
    let asset = s.t.generate();
    standard_listing(&mut s, &owner, &asset, 1);
    assert_eq!(s.t.contract.expire_rental(asset, 1, 0).unwrap_err(), RentalError::NotInRentedState);
    assert_eq!(s.t.contract.terminate_early(renter, asset, 1, 0).unwrap_err(), RentalError::NotRented);
}

#[test]
fn expire_transfers_whole_escrow_to_owner() {
    let mut s = setup();
    let owner = s.t.generate();
    let renter = s.t.generate();
    let asset = s.t.generate();
    let token = s.payment_token;
    standard_listing(&mut s, &owner, &asset, 1);
    mint(&mut s, &renter, 3000);
    s.t.client().rent(&renter, &asset, &1, &3);
    let ts = s.t.contract.expire_rental(asset, 1, 3 * 86_400).unwrap();
    assert_eq!(ts, vec![Transfer { token, from: Holder::Escrow, to: Holder::Account(owner), amount: 2925 }]);
}

#[test]
fn error_messages_match_the_contract_panics() {
    assert_eq!(RentalError::RentalStillActive.message(), "rental still active; wait for expiry or early termination");
    assert_eq!(RentalError::NotAdmin.message(), "not admin");
    assert_eq!(RentalError::ListingNotFound.message(), "listing not found");
    assert_eq!(RentalError::CredentialMissingForRented.message(), "credential missing for rented listing");
}

#[test]
fn delisting_an_ended_rental_releases_escrow_to_owner() {
    let mut s = setup();
    let owner = s.t.generate();
    let renter = s.t.generate();
    let asset = s.t.generate();
    let escrow = s.t.contract_address;

    set_time(&mut s, 0);
    standard_listing(&mut s, &owner, &asset, 1);
    mint(&mut s, &renter, 2000);
    s.t.client().rent(&renter, &asset, &1, &2);
    set_time(&mut s, 86_400 * 2);
    s.t.client().delist_asset(&owner, &asset, &1);
    assert_eq!(token_balance(&s, &owner), 1950);
    assert_eq!(token_balance(&s, &escrow), 0);
    assert_eq!(s.t.contract.expire_rental(asset, 1, 86_400 * 3).unwrap_err(), RentalError::NotInRentedState);
    assert_eq!(token_balance(&s, &owner), 1950);
}

#[test]
fn delisting_after_early_termination_pays_nothing_more() {
    let mut s = setup();
    let owner = s.t.generate();
    let renter = s.t.generate();
    let asset = s.t.generate();
    standard_listing(&mut s, &owner, &asset, 1);
    mint(&mut s, &renter, 1000);
    s.t.client().rent(&renter, &asset, &1, &1);
    set_time(&mut s, 3600);
    s.t.client().terminate_early(&renter, &asset, &1);
    let ts = s.t.contract.delist_asset(owner, asset, 1, 3600).unwrap();
    assert!(ts.is_empty());
}

#[test]
fn second_expiry_refused_until_new_rent() {
    let mut s = setup();
    let owner = s.t.generate();
    let renter = s.t.generate();
    let asset = s.t.generate();
    let other = s.t.generate();
    standard_listing(&mut s, &owner, &asset, 1);
    standard_listing(&mut s, &owner, &other, 2);
    mint(&mut s, &renter, 3000);
    s.t.client().rent(&renter, &asset, &1, &1);
    set_time(&mut s, 86_400);
    s.t.client().expire_rental(&asset, &1);
    s.t.client().rent(&renter, &other, &2, &1);
    s.t.client().update_listing(&owner, &asset, &1, &10, &10, &10);
    assert_eq!(s.t.contract.expire_rental(asset, 1, 10_000_000).unwrap_err(), RentalError::NotInRentedState);
    s.t.client().rent(&renter, &asset, &1, &1);
    set_time(&mut s, 86_410);
    s.t.client().expire_rental(&asset, &1);
    assert_eq!(token_balance(&s, &owner), 975 + 10);
}
