use vstd::prelude::*;
use crate::types::{
    Addr, Holder, Listing, ListingStatus, RentalCredential, RentalError, Transfer,
    listing_valid, credential_valid_shape, MAX_PERIODS_CAP,
};
use crate::fees::{RentalCharge, charge_fits, spec_charge, spec_owner_share, rental_charge, prorated_split};

verus! {

// Each operation of the contract is stated here as a decision on the stored
// entries it reads (the listing, the credential, the fee recipient) and the
// plain values of the call, with the ledger time as `now`. The decision
// gives the entries to store and the token transfers to make, or the reason
// the call is refused. Callers authenticate the addresses that act.

/// The listing that `list_asset` creates, or why it refuses: the terms are
/// checked first, then whether the asset is listed already.
pub open spec fn list_outcome(
    already_listed: bool,
    owner: Addr,
    asset_contract: Addr,
    token_id: u64,
    payment_token: Addr,
    fee_per_period: i128,
    period_duration: u64,
    max_periods: u32,
    now: u64,
) -> Result<Listing, RentalError> {
    if fee_per_period < 0 {
        Err(RentalError::NegativeFee)
    } else if period_duration == 0 {
        Err(RentalError::ZeroPeriodDuration)
    } else if !(max_periods > 0 && max_periods <= MAX_PERIODS_CAP) {
        Err(RentalError::InvalidMaxPeriods)
    } else if already_listed {
        Err(RentalError::AlreadyListed)
    } else {
        Ok(Listing {
            asset_contract,
            token_id,
            owner,
            payment_token,
            fee_per_period,
            period_duration,
            max_periods,
            status: ListingStatus::Available,
            created_at: now,
        })
    }
}

/// The listing after `update_listing`, or why it refuses.
pub open spec fn update_outcome(
    stored: Option<Listing>,
    owner: Addr,
    new_fee_per_period: i128,
    new_period_duration: u64,
    new_max_periods: u32,
) -> Result<Listing, RentalError> {
    match stored {
        None => Err(RentalError::ListingNotFound),
        Some(l) => if l.owner != owner {
            Err(RentalError::NotOwner)
        } else if l.status != ListingStatus::Available {
            Err(RentalError::NotAvailableForUpdate)
        } else if new_fee_per_period < 0 {
            Err(RentalError::NegativeFee)
        } else if new_period_duration == 0 {
            Err(RentalError::ZeroPeriodDuration)
        } else if !(new_max_periods > 0 && new_max_periods <= MAX_PERIODS_CAP) {
            Err(RentalError::InvalidMaxPeriods)
        } else {
            Ok(Listing {
                fee_per_period: new_fee_per_period,
                period_duration: new_period_duration,
                max_periods: new_max_periods,
                ..l
            })
        },
    }
}

/// Whether a rental has ended: its time is up or it was terminated early.
pub open spec fn rental_ended(c: RentalCredential, now: u64) -> bool {
    now >= c.expires_at || c.terminated_early
}

/// What `delist_asset` does: the listing marked delisted, or why it
/// refuses. A rented listing can only be delisted once its rental has ended,
/// and delisting it settles that rental: the escrow that expiry would have
/// released goes to the owner.
pub open spec fn delist_outcome(
    stored: Option<Listing>,
    credential: Option<RentalCredential>,
    owner: Addr,
    now: u64,
) -> Result<(Listing, Seq<Transfer>), RentalError> {
    match stored {
        None => Err(RentalError::ListingNotFound),
        Some(l) => if l.owner != owner {
            Err(RentalError::NotOwner)
        } else if l.status == ListingStatus::Delisted {
            Err(RentalError::AlreadyDelisted)
        } else if l.status == ListingStatus::Rented && credential is None {
            Err(RentalError::CredentialMissingForRented)
        } else if l.status == ListingStatus::Rented && !rental_ended(credential.unwrap(), now) {
            Err(RentalError::RentalStillActive)
        } else if l.status == ListingStatus::Rented {
            Ok((Listing { status: ListingStatus::Delisted, ..l }, expire_transfers(l, credential.unwrap())))
        } else {
            Ok((Listing { status: ListingStatus::Delisted, ..l }, Seq::empty()))
        },
    }
}

/// Whether `now + period_duration * periods` fits in a `u64`.
pub open spec fn expiry_fits(now: u64, period_duration: u64, periods: u32) -> bool {
    now + period_duration * periods <= u64::MAX
}

/// The transfers of a rental's payment: the gross fee from the renter into
/// escrow, then the platform's cut out of escrow to the fee recipient; none
/// for a free rental.
pub open spec fn rent_transfers(
    token: Addr,
    renter: Addr,
    fee_recipient: Option<Addr>,
    charge: RentalCharge,
) -> Seq<Transfer> {
    if charge.total_fee > 0 {
        let pull = seq![Transfer { token, from: Holder::Account(renter), to: Holder::Escrow, amount: charge.total_fee }];
        if charge.platform_fee > 0 {
            pull.push(Transfer {
                token,
                from: Holder::Escrow,
                to: Holder::Account(fee_recipient.unwrap()),
                amount: charge.platform_fee,
            })
        } else {
            pull
        }
    } else {
        seq![]
    }
}

/// The credential a rental issues.
pub open spec fn issued_credential(
    l: Listing,
    renter: Addr,
    periods: u32,
    now: u64,
    charge: RentalCharge,
) -> RentalCredential {
    RentalCredential {
        asset_contract: l.asset_contract,
        token_id: l.token_id,
        renter,
        owner: l.owner,
        started_at: now,
        expires_at: (now + l.period_duration * periods) as u64,
        periods,
        total_fee_paid: charge.total_fee,
        escrow_amount: charge.escrow_amount,
        terminated_early: false,
    }
}

/// What `rent` does: the listing marked rented, the credential issued and
/// the payment transfers, or why it refuses. The fee recipient is only
/// needed when there is a platform cut to pay.
pub open spec fn rent_outcome(
    stored: Option<Listing>,
    fee_recipient: Option<Addr>,
    renter: Addr,
    periods: u32,
    now: u64,
) -> Result<(Listing, RentalCredential, Seq<Transfer>), RentalError> {
    match stored {
        None => Err(RentalError::ListingNotFound),
        Some(l) => if l.status != ListingStatus::Available {
            Err(RentalError::NotAvailableForRent)
        } else if periods == 0 {
            Err(RentalError::ZeroPeriods)
        } else if periods > l.max_periods {
            Err(RentalError::ExceedsMaxPeriods)
        } else if !charge_fits(l.fee_per_period as int, periods as int) {
            Err(RentalError::ArithmeticOverflow)
        } else {
            let charge = spec_charge(l.fee_per_period as int, periods as int);
            if charge.total_fee > 0 && charge.platform_fee > 0 && fee_recipient is None {
                Err(RentalError::NotInitialized)
            } else if !expiry_fits(now, l.period_duration, periods) {
                Err(RentalError::ArithmeticOverflow)
            } else {
                Ok((
                    Listing { status: ListingStatus::Rented, ..l },
                    issued_credential(l, renter, periods, now, charge),
                    rent_transfers(l.payment_token, renter, fee_recipient, charge),
                ))
            }
        },
    }
}

/// The transfers that settle an early termination: the owner's share and
/// the renter's refund, each out of escrow and each only when positive.
pub open spec fn settle_transfers(
    token: Addr,
    owner: Addr,
    renter: Addr,
    owner_share: int,
    renter_refund: int,
) -> Seq<Transfer> {
    let to_owner = if owner_share > 0 {
        seq![Transfer { token, from: Holder::Escrow, to: Holder::Account(owner), amount: owner_share as i128 }]
    } else {
        seq![]
    };
    if renter_refund > 0 {
        to_owner.push(Transfer { token, from: Holder::Escrow, to: Holder::Account(renter), amount: renter_refund as i128 })
    } else {
        to_owner
    }
}

/// What `terminate_early` does: the listing available again, the credential
/// marked terminated and the escrow split pro rata between owner and
/// renter, or why it refuses.
pub open spec fn terminate_outcome(
    stored: Option<Listing>,
    credential: Option<RentalCredential>,
    renter: Addr,
    now: u64,
) -> Result<(Listing, RentalCredential, Seq<Transfer>), RentalError> {
    match stored {
        None => Err(RentalError::ListingNotFound),
        Some(l) => if l.status != ListingStatus::Rented {
            Err(RentalError::NotRented)
        } else {
            match credential {
                None => Err(RentalError::CredentialNotFound),
                Some(c) => if c.renter != renter {
                    Err(RentalError::NotRenter)
                } else if c.terminated_early {
                    Err(RentalError::AlreadyTerminated)
                } else if now >= c.expires_at {
                    Err(RentalError::RentalExpired)
                } else if now < c.started_at {
                    Err(RentalError::ArithmeticOverflow)
                } else if c.escrow_amount * (now - c.started_at) > i128::MAX {
                    Err(RentalError::ArithmeticOverflow)
                } else {
                    let owner_share = spec_owner_share(
                        c.escrow_amount as int,
                        now - c.started_at,
                        c.expires_at - c.started_at,
                    );
                    Ok((
                        Listing { status: ListingStatus::Available, ..l },
                        RentalCredential { terminated_early: true, ..c },
                        settle_transfers(l.payment_token, l.owner, renter, owner_share, c.escrow_amount - owner_share),
                    ))
                },
            }
        },
    }
}

/// The transfer that settles a rental that ran its course: the whole
/// escrow to the owner, unless it was settled by early termination or is
/// zero.
pub open spec fn expire_transfers(l: Listing, c: RentalCredential) -> Seq<Transfer> {
    if c.escrow_amount > 0 && !c.terminated_early {
        seq![Transfer { token: l.payment_token, from: Holder::Escrow, to: Holder::Account(l.owner), amount: c.escrow_amount }]
    } else {
        seq![]
    }
}

/// What `expire_rental` does: the listing available again and the escrow
/// released to the owner, or why it refuses. Anyone may call it.
pub open spec fn expire_outcome(
    stored: Option<Listing>,
    credential: Option<RentalCredential>,
    now: u64,
) -> Result<(Listing, Seq<Transfer>), RentalError> {
    match stored {
        None => Err(RentalError::ListingNotFound),
        Some(l) => if l.status != ListingStatus::Rented {
            Err(RentalError::NotInRentedState)
        } else {
            match credential {
                None => Err(RentalError::CredentialNotFound),
                Some(c) => if !rental_ended(c, now) {
                    Err(RentalError::RentalNotEnded)
                } else {
                    Ok((Listing { status: ListingStatus::Available, ..l }, expire_transfers(l, c)))
                },
            }
        },
    }
}

/// Whether a stored credential grants `renter` access at `now`: it exists,
/// names the renter, was not terminated and has not expired.
pub open spec fn spec_credential_valid(credential: Option<RentalCredential>, renter: Addr, now: u64) -> bool {
    match credential {
        None => false,
        Some(c) => c.renter == renter && !c.terminated_early && now < c.expires_at,
    }
}

/// Whether a stored credential has expired: there is none, its time is up
/// or it was terminated early.
pub open spec fn spec_credential_expired(credential: Option<RentalCredential>, now: u64) -> bool {
    match credential {
        None => true,
        Some(c) => rental_ended(c, now),
    }
}

/// The quote for renting a listing for `periods` periods.
pub open spec fn quote_outcome(stored: Option<Listing>, periods: u32) -> Result<i128, RentalError> {
    match stored {
        None => Err(RentalError::ListingNotFound),
        Some(l) => if i128::MIN <= l.fee_per_period * periods <= i128::MAX {
            Ok((l.fee_per_period * periods) as i128)
        } else {
            Err(RentalError::ArithmeticOverflow)
        },
    }
}

/// Decides `list_asset` given whether the asset is listed already.
pub fn decide_list(
    already_listed: bool,
    owner: Addr,
    asset_contract: Addr,
    token_id: u64,
    payment_token: Addr,
    fee_per_period: i128,
    period_duration: u64,
    max_periods: u32,
    now: u64,
) -> (r: Result<Listing, RentalError>)
    ensures
        r == list_outcome(already_listed, owner, asset_contract, token_id, payment_token,
            fee_per_period, period_duration, max_periods, now),
        r matches Ok(l) ==> listing_valid(l),
{
    if fee_per_period < 0 {
        return Err(RentalError::NegativeFee);
    }
    if period_duration == 0 {
        return Err(RentalError::ZeroPeriodDuration);
    }
    if !(max_periods > 0 && max_periods <= MAX_PERIODS_CAP) {
        return Err(RentalError::InvalidMaxPeriods);
    }
    if already_listed {
        return Err(RentalError::AlreadyListed);
    }
    Ok(Listing {
        asset_contract,
        token_id,
        owner,
        payment_token,
        fee_per_period,
        period_duration,
        max_periods,
        status: ListingStatus::Available,
        created_at: now,
    })
}

/// Decides `update_listing` on the stored listing.
pub fn decide_update(
    stored: Option<Listing>,
    owner: Addr,
    new_fee_per_period: i128,
    new_period_duration: u64,
    new_max_periods: u32,
) -> (r: Result<Listing, RentalError>)
    ensures
        r == update_outcome(stored, owner, new_fee_per_period, new_period_duration, new_max_periods),
        r matches Ok(l) ==> listing_valid(l),
{
    let l = match stored {
        None => return Err(RentalError::ListingNotFound),
        Some(l) => l,
    };
    if l.owner != owner {
        return Err(RentalError::NotOwner);
    }
    if l.status != ListingStatus::Available {
        return Err(RentalError::NotAvailableForUpdate);
    }
    if new_fee_per_period < 0 {
        return Err(RentalError::NegativeFee);
    }
    if new_period_duration == 0 {
        return Err(RentalError::ZeroPeriodDuration);
    }
    if !(new_max_periods > 0 && new_max_periods <= MAX_PERIODS_CAP) {
        return Err(RentalError::InvalidMaxPeriods);
    }
    Ok(Listing {
        fee_per_period: new_fee_per_period,
        period_duration: new_period_duration,
        max_periods: new_max_periods,
        ..l
    })
}

/// Decides `delist_asset` on the stored listing and credential.
pub fn decide_delist(
    stored: Option<Listing>,
    credential: Option<RentalCredential>,
    owner: Addr,
    now: u64,
) -> (r: Result<(Listing, Vec<Transfer>), RentalError>)
    ensures
        match delist_outcome(stored, credential, owner, now) {
            Ok((l, ts)) => r matches Ok((l2, ts2)) && l2 == l && ts2@ == ts,
            Err(e) => r == Err::<(Listing, Vec<Transfer>), RentalError>(e),
        },
{
    let l = match stored {
        None => return Err(RentalError::ListingNotFound),
        Some(l) => l,
    };
    if l.owner != owner {
        return Err(RentalError::NotOwner);
    }
    if l.status == ListingStatus::Delisted {
        return Err(RentalError::AlreadyDelisted);
    }
    let mut transfers: Vec<Transfer> = Vec::new();
    if l.status == ListingStatus::Rented {
        let c = match credential {
            None => return Err(RentalError::CredentialMissingForRented),
            Some(c) => c,
        };
        if !(now >= c.expires_at || c.terminated_early) {
            return Err(RentalError::RentalStillActive);
        }
        if c.escrow_amount > 0 && !c.terminated_early {
            transfers.push(Transfer {
                token: l.payment_token,
                from: Holder::Escrow,
                to: Holder::Account(l.owner),
                amount: c.escrow_amount,
            });
        }
        proof {
            assert(transfers@ =~= expire_transfers(l, c));
        }
    } else {
        assert(transfers@ =~= Seq::<Transfer>::empty());
    }
    Ok((Listing { status: ListingStatus::Delisted, ..l }, transfers))
}

/// Decides `rent` on the stored listing and fee recipient.
pub fn decide_rent(
    stored: Option<Listing>,
    fee_recipient: Option<Addr>,
    renter: Addr,
    periods: u32,
    now: u64,
) -> (r: Result<(Listing, RentalCredential, Vec<Transfer>), RentalError>)
    requires
        stored matches Some(l) ==> listing_valid(l),
    ensures
        match rent_outcome(stored, fee_recipient, renter, periods, now) {
            Ok((l, c, ts)) => r matches Ok((l2, c2, ts2)) && l2 == l && c2 == c && ts2@ == ts,
            Err(e) => r == Err::<(Listing, RentalCredential, Vec<Transfer>), RentalError>(e),
        },
        r matches Ok((l, c, _)) ==> listing_valid(l) && credential_valid_shape(c)
            && c.escrow_amount <= c.total_fee_paid,
{
    let l = match stored {
        None => return Err(RentalError::ListingNotFound),
        Some(l) => l,
    };
    if l.status != ListingStatus::Available {
        return Err(RentalError::NotAvailableForRent);
    }
    if periods == 0 {
        return Err(RentalError::ZeroPeriods);
    }
    if periods > l.max_periods {
        return Err(RentalError::ExceedsMaxPeriods);
    }
    let charge = match rental_charge(l.fee_per_period, periods) {
        None => return Err(RentalError::ArithmeticOverflow),
        Some(c) => c,
    };
    let mut transfers: Vec<Transfer> = Vec::new();
    if charge.total_fee > 0 {
        transfers.push(Transfer {
            token: l.payment_token,
            from: Holder::Account(renter),
            to: Holder::Escrow,
            amount: charge.total_fee,
        });
        if charge.platform_fee > 0 {
            let recipient = match fee_recipient {
                None => return Err(RentalError::NotInitialized),
                Some(a) => a,
            };
            transfers.push(Transfer {
                token: l.payment_token,
                from: Holder::Escrow,
                to: Holder::Account(recipient),
                amount: charge.platform_fee,
            });
        }
    }
    let span = match l.period_duration.checked_mul(periods as u64) {
        None => return Err(RentalError::ArithmeticOverflow),
        Some(s) => s,
    };
    let expires_at = match now.checked_add(span) {
        None => return Err(RentalError::ArithmeticOverflow),
        Some(e) => e,
    };
    assert(span > 0) by (nonlinear_arith)
        requires
            span == l.period_duration * periods,
            l.period_duration > 0,
            periods > 0,
    ;
    let credential = RentalCredential {
        asset_contract: l.asset_contract,
        token_id: l.token_id,
        renter,
        owner: l.owner,
        started_at: now,
        expires_at,
        periods,
        total_fee_paid: charge.total_fee,
        escrow_amount: charge.escrow_amount,
        terminated_early: false,
    };
    proof {
        let charge_spec = spec_charge(l.fee_per_period as int, periods as int);
        assert(transfers@ =~= rent_transfers(l.payment_token, renter, fee_recipient, charge_spec));
    }
    Ok((Listing { status: ListingStatus::Rented, ..l }, credential, transfers))
}

/// Decides `terminate_early` on the stored listing and credential.
pub fn decide_terminate(
    stored: Option<Listing>,
    credential: Option<RentalCredential>,
    renter: Addr,
    now: u64,
) -> (r: Result<(Listing, RentalCredential, Vec<Transfer>), RentalError>)
    requires
        credential matches Some(c) ==> credential_valid_shape(c),
    ensures
        match terminate_outcome(stored, credential, renter, now) {
            Ok((l, c, ts)) => r matches Ok((l2, c2, ts2)) && l2 == l && c2 == c && ts2@ == ts,
            Err(e) => r == Err::<(Listing, RentalCredential, Vec<Transfer>), RentalError>(e),
        },
        r matches Ok((_, c, _)) ==> credential_valid_shape(c),
{
    let l = match stored {
        None => return Err(RentalError::ListingNotFound),
        Some(l) => l,
    };
    if l.status != ListingStatus::Rented {
        return Err(RentalError::NotRented);
    }
    let c = match credential {
        None => return Err(RentalError::CredentialNotFound),
        Some(c) => c,
    };
    if c.renter != renter {
        return Err(RentalError::NotRenter);
    }
    if c.terminated_early {
        return Err(RentalError::AlreadyTerminated);
    }
    if now >= c.expires_at {
        return Err(RentalError::RentalExpired);
    }
    if now < c.started_at {
        return Err(RentalError::ArithmeticOverflow);
    }
    let total_duration = c.expires_at - c.started_at;
    let time_used = now - c.started_at;
    let (owner_share, renter_refund) = match prorated_split(c.escrow_amount, time_used, total_duration) {
        None => return Err(RentalError::ArithmeticOverflow),
        Some(s) => s,
    };
    let mut transfers: Vec<Transfer> = Vec::new();
    if owner_share > 0 {
        transfers.push(Transfer {
            token: l.payment_token,
            from: Holder::Escrow,
            to: Holder::Account(l.owner),
            amount: owner_share,
        });
    }
    if renter_refund > 0 {
        transfers.push(Transfer {
            token: l.payment_token,
            from: Holder::Escrow,
            to: Holder::Account(renter),
            amount: renter_refund,
        });
    }
    proof {
        assert(transfers@ =~= settle_transfers(l.payment_token, l.owner, renter, owner_share as int, renter_refund as int));
    }
    Ok((Listing { status: ListingStatus::Available, ..l }, RentalCredential { terminated_early: true, ..c }, transfers))
}

/// Decides `expire_rental` on the stored listing and credential.
pub fn decide_expire(
    stored: Option<Listing>,
    credential: Option<RentalCredential>,
    now: u64,
) -> (r: Result<(Listing, Vec<Transfer>), RentalError>)
    ensures
        match expire_outcome(stored, credential, now) {
            Ok((l, ts)) => r matches Ok((l2, ts2)) && l2 == l && ts2@ == ts,
            Err(e) => r == Err::<(Listing, Vec<Transfer>), RentalError>(e),
        },
{
    let l = match stored {
        None => return Err(RentalError::ListingNotFound),
        Some(l) => l,
    };
    if l.status != ListingStatus::Rented {
        return Err(RentalError::NotInRentedState);
    }
    let c = match credential {
        None => return Err(RentalError::CredentialNotFound),
        Some(c) => c,
    };
    if !(now >= c.expires_at || c.terminated_early) {
        return Err(RentalError::RentalNotEnded);
    }
    let mut transfers: Vec<Transfer> = Vec::new();
    if c.escrow_amount > 0 && !c.terminated_early {
        transfers.push(Transfer {
            token: l.payment_token,
            from: Holder::Escrow,
            to: Holder::Account(l.owner),
            amount: c.escrow_amount,
        });
    }
    proof {
        assert(transfers@ =~= expire_transfers(l, c));
    }
    Ok((Listing { status: ListingStatus::Available, ..l }, transfers))
}

/// Whether the stored credential grants `renter` access at `now`.
pub fn credential_is_valid(credential: Option<RentalCredential>, renter: Addr, now: u64) -> (r: bool)
    ensures
        r == spec_credential_valid(credential, renter, now),
{
    match credential {
        None => false,
        Some(c) => c.renter == renter && !c.terminated_early && now < c.expires_at,
    }
}

/// Whether the stored credential has expired at `now`.
pub fn credential_is_expired(credential: Option<RentalCredential>, now: u64) -> (r: bool)
    ensures
        r == spec_credential_expired(credential, now),
{
    match credential {
        None => true,
        Some(c) => now >= c.expires_at || c.terminated_early,
    }
}

/// Quotes the gross fee for renting the stored listing for `periods` periods.
pub fn decide_quote(stored: Option<Listing>, periods: u32) -> (r: Result<i128, RentalError>)
    ensures
        r == quote_outcome(stored, periods),
{
    match stored {
        None => Err(RentalError::ListingNotFound),
        Some(l) => match l.fee_per_period.checked_mul(periods as i128) {
            Some(t) => Ok(t),
            None => Err(RentalError::ArithmeticOverflow),
        },
    }
}

/// What a sequence of transfers moves into escrow, net of what it moves out.
pub open spec fn escrow_net(ts: Seq<Transfer>) -> int
    decreases ts.len(),
{
    if ts.len() == 0 {
        0
    } else {
        let t = ts.last();
        let into = if t.to == Holder::Escrow { t.amount as int } else { 0 };
        let out_of = if t.from == Holder::Escrow { t.amount as int } else { 0 };
        escrow_net(ts.drop_last()) + into - out_of
    }
}

/// The escrow flow of two sequences of transfers run one after the other
/// is the sum of their flows.
pub proof fn lemma_escrow_net_concat(a: Seq<Transfer>, b: Seq<Transfer>)
    ensures
        escrow_net(a + b) == escrow_net(a) + escrow_net(b),
    decreases b.len(),
{
    if b.len() == 0 {
        assert(a + b =~= a);
    } else {
        lemma_escrow_net_concat(a, b.drop_last());
        assert((a + b).drop_last() =~= a + b.drop_last());
        assert((a + b).last() == b.last());
    }
}

/// Decides `initialize` given whether an admin is set already.
pub fn decide_initialize(admin_set: bool) -> (r: Result<(), RentalError>)
    ensures
        r == (if admin_set { Err(RentalError::AlreadyInitialized) } else { Ok(()) }),
{
    if admin_set {
        Err(RentalError::AlreadyInitialized)
    } else {
        Ok(())
    }
}

/// Decides `set_fee_recipient` on the stored admin and the caller.
pub fn decide_set_fee_recipient(stored_admin: Option<Addr>, caller: Addr) -> (r: Result<(), RentalError>)
    ensures
        r == (match stored_admin {
            None => Err(RentalError::NotInitialized),
            Some(a) => if a == caller { Ok(()) } else { Err(RentalError::NotAdmin) },
        }),
{
    match stored_admin {
        None => Err(RentalError::NotInitialized),
        Some(a) => if a == caller {
            Ok(())
        } else {
            Err(RentalError::NotAdmin)
        },
    }
}

/// A setting made by `initialize` (the admin or the fee recipient), which
/// cannot be read before the contract is initialized.
pub fn decide_setting(stored: Option<Addr>) -> (r: Result<Addr, RentalError>)
    ensures
        r == (match stored {
            Some(a) => Ok(a),
            None => Err(RentalError::NotInitialized),
        }),
{
    match stored {
        Some(a) => Ok(a),
        None => Err(RentalError::NotInitialized),
    }
}

/// The stored listing of an asset, or `ListingNotFound`.
pub fn decide_get_listing(stored: Option<Listing>) -> (r: Result<Listing, RentalError>)
    ensures
        r == (match stored {
            Some(l) => Ok(l),
            None => Err(RentalError::ListingNotFound),
        }),
{
    match stored {
        Some(l) => Ok(l),
        None => Err(RentalError::ListingNotFound),
    }
}

/// The stored credential of an asset, or `CredentialNotFound`.
pub fn decide_get_credential(stored: Option<RentalCredential>) -> (r: Result<RentalCredential, RentalError>)
    ensures
        r == (match stored {
            Some(c) => Ok(c),
            None => Err(RentalError::CredentialNotFound),
        }),
{
    match stored {
        Some(c) => Ok(c),
        None => Err(RentalError::CredentialNotFound),
    }
}

} // verus!
