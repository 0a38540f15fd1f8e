use vstd::prelude::*;

verus! {

/// Basis points denominator.
pub const BPS_DENOM: i128 = 10_000;

/// Platform fee in basis points (2.5%).
pub const PLATFORM_FEE_BPS: i128 = 250;

/// The largest number of periods a listing may allow for one rental.
pub const MAX_PERIODS_CAP: u32 = 365;

/// The identity of a ledger address: whether it names a contract or an
/// account, and its 32-byte key held as two 128-bit halves.
#[derive(Clone, Copy, PartialEq, Eq, Structural, Debug)]
pub struct Addr {
    pub is_contract: bool,
    pub hi: u128,
    pub lo: u128,
}

/// The state of a listing.
#[derive(Clone, Copy, PartialEq, Eq, Structural, Debug)]
pub enum ListingStatus {
    /// Available for rent
    Available,
    /// Currently rented out
    Rented,
    /// Delisted by owner
    Delisted,
}

/// A listing created by an owner making an asset available for rent.
#[derive(Clone, Copy, PartialEq, Eq, Structural, Debug)]
pub struct Listing {
    /// The asset contract address
    pub asset_contract: Addr,
    /// Token id within the asset contract
    pub token_id: u64,
    /// Owner who created the listing
    pub owner: Addr,
    /// Payment token used for the rental fee
    pub payment_token: Addr,
    /// Fee per rental period (in payment token base units)
    pub fee_per_period: i128,
    /// Length of one rental period in seconds
    pub period_duration: u64,
    /// Maximum number of periods a renter can rent for
    pub max_periods: u32,
    /// Current listing status
    pub status: ListingStatus,
    /// Timestamp when the listing was created
    pub created_at: u64,
}

/// A time-limited rental credential granted to a renter.
#[derive(Clone, Copy, PartialEq, Eq, Structural, Debug)]
pub struct RentalCredential {
    /// The asset contract address
    pub asset_contract: Addr,
    /// Token id being rented
    pub token_id: u64,
    /// The renter holding this credential
    pub renter: Addr,
    /// The asset owner
    pub owner: Addr,
    /// Ledger timestamp when the rental started
    pub started_at: u64,
    /// Ledger timestamp when the rental expires
    pub expires_at: u64,
    /// Number of periods rented
    pub periods: u32,
    /// Gross fee paid by the renter
    pub total_fee_paid: i128,
    /// Owner proceeds held in escrow (total fee minus platform fee)
    pub escrow_amount: i128,
    /// Whether this rental has been terminated early
    pub terminated_early: bool,
}

/// The key of a listing: an asset contract and a token id within it.
#[derive(Clone, Copy, PartialEq, Eq, Structural, Debug)]
pub struct ListingKey {
    pub asset_contract: Addr,
    pub token_id: u64,
}

/// One side of a token transfer: the contract's own escrow balance, or an
/// outside address.
#[derive(Clone, Copy, PartialEq, Eq, Structural, Debug)]
pub enum Holder {
    Escrow,
    Account(Addr),
}

/// A token transfer that an operation asks to be carried out.
#[derive(Clone, Copy, PartialEq, Eq, Structural, Debug)]
pub struct Transfer {
    pub token: Addr,
    pub from: Holder,
    pub to: Holder,
    pub amount: i128,
}

/// Why an operation was refused.
#[derive(Clone, Copy, PartialEq, Eq, Structural, Debug)]
pub enum RentalError {
    AlreadyInitialized,
    NotInitialized,
    NotAdmin,
    NegativeFee,
    ZeroPeriodDuration,
    InvalidMaxPeriods,
    AlreadyListed,
    ListingNotFound,
    NotOwner,
    NotAvailableForUpdate,
    AlreadyDelisted,
    CredentialMissingForRented,
    RentalStillActive,
    NotAvailableForRent,
    ZeroPeriods,
    ExceedsMaxPeriods,
    NotRented,
    CredentialNotFound,
    NotRenter,
    AlreadyTerminated,
    RentalExpired,
    NotInRentedState,
    RentalNotEnded,
    ArithmeticOverflow,
}

/// The message with which each refusal is reported.
pub open spec fn error_message(e: RentalError) -> Seq<char> {
    match e {
        RentalError::AlreadyInitialized => "already initialized"@,
        RentalError::NotInitialized => "called `Option::unwrap()` on a `None` value"@,
        RentalError::NotAdmin => "not admin"@,
        RentalError::NegativeFee => "fee cannot be negative"@,
        RentalError::ZeroPeriodDuration => "period duration must be > 0"@,
        RentalError::InvalidMaxPeriods => "max_periods must be 1-365"@,
        RentalError::AlreadyListed => "asset already listed"@,
        RentalError::ListingNotFound => "listing not found"@,
        RentalError::NotOwner => "not the asset owner"@,
        RentalError::NotAvailableForUpdate => "can only update available listings"@,
        RentalError::AlreadyDelisted => "already delisted"@,
        RentalError::CredentialMissingForRented => "credential missing for rented listing"@,
        RentalError::RentalStillActive => "rental still active; wait for expiry or early termination"@,
        RentalError::NotAvailableForRent => "asset is not available for rent"@,
        RentalError::ZeroPeriods => "must rent at least 1 period"@,
        RentalError::ExceedsMaxPeriods => "exceeds maximum rental periods"@,
        RentalError::NotRented => "asset is not currently rented"@,
        RentalError::CredentialNotFound => "credential not found"@,
        RentalError::NotRenter => "not the current renter"@,
        RentalError::AlreadyTerminated => "already terminated"@,
        RentalError::RentalExpired => "rental has already expired"@,
        RentalError::NotInRentedState => "listing is not in rented state"@,
        RentalError::RentalNotEnded => "rental period has not ended yet"@,
        RentalError::ArithmeticOverflow => "arithmetic overflow"@,
    }
}

impl RentalError {
    /// The message with which this refusal is reported.
    pub fn message(&self) -> (m: &'static str)
        ensures
            m@ == error_message(*self),
    {
        match self {
            RentalError::AlreadyInitialized => "already initialized",
            RentalError::NotInitialized => "called `Option::unwrap()` on a `None` value",
            RentalError::NotAdmin => "not admin",
            RentalError::NegativeFee => "fee cannot be negative",
            RentalError::ZeroPeriodDuration => "period duration must be > 0",
            RentalError::InvalidMaxPeriods => "max_periods must be 1-365",
            RentalError::AlreadyListed => "asset already listed",
            RentalError::ListingNotFound => "listing not found",
            RentalError::NotOwner => "not the asset owner",
            RentalError::NotAvailableForUpdate => "can only update available listings",
            RentalError::AlreadyDelisted => "already delisted",
            RentalError::CredentialMissingForRented => "credential missing for rented listing",
            RentalError::RentalStillActive => "rental still active; wait for expiry or early termination",
            RentalError::NotAvailableForRent => "asset is not available for rent",
            RentalError::ZeroPeriods => "must rent at least 1 period",
            RentalError::ExceedsMaxPeriods => "exceeds maximum rental periods",
            RentalError::NotRented => "asset is not currently rented",
            RentalError::CredentialNotFound => "credential not found",
            RentalError::NotRenter => "not the current renter",
            RentalError::AlreadyTerminated => "already terminated",
            RentalError::RentalExpired => "rental has already expired",
            RentalError::NotInRentedState => "listing is not in rented state",
            RentalError::RentalNotEnded => "rental period has not ended yet",
            RentalError::ArithmeticOverflow => "arithmetic overflow",
        }
    }
}

/// The key under which a listing is stored.
pub open spec fn key_of(l: Listing) -> ListingKey {
    ListingKey { asset_contract: l.asset_contract, token_id: l.token_id }
}

/// The key under which a credential is stored.
pub open spec fn credential_key(c: RentalCredential) -> ListingKey {
    ListingKey { asset_contract: c.asset_contract, token_id: c.token_id }
}

/// The terms a listing may carry: a non-negative fee, a positive period
/// length and between 1 and 365 periods.
pub open spec fn terms_valid(fee_per_period: i128, period_duration: u64, max_periods: u32) -> bool {
    &&& fee_per_period >= 0
    &&& period_duration > 0
    &&& 1 <= max_periods <= MAX_PERIODS_CAP
}

/// A listing whose terms are valid.
pub open spec fn listing_valid(l: Listing) -> bool {
    terms_valid(l.fee_per_period, l.period_duration, l.max_periods)
}

/// A credential as a rental issues it: it starts before it expires and
/// holds a non-negative escrow.
pub open spec fn credential_valid_shape(c: RentalCredential) -> bool {
    &&& c.started_at < c.expires_at
    &&& c.escrow_amount >= 0
}

impl ListingKey {
    /// The key of a listing.
    pub fn of_listing(l: &Listing) -> (k: ListingKey)
        ensures
            k == key_of(*l),
    {
        ListingKey { asset_contract: l.asset_contract, token_id: l.token_id }
    }
}

} // verus!
