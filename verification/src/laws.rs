use vstd::prelude::*;
use crate::types::{
    Addr, Holder, Listing, ListingKey, ListingStatus, RentalCredential, RentalError, Transfer,
    listing_valid, credential_valid_shape,
};
use crate::fees::{spec_owner_share, spec_platform_fee};
use crate::rules::{
    rent_outcome, terminate_outcome, expire_outcome, delist_outcome, quote_outcome, update_outcome,
    spec_credential_valid, spec_credential_expired, expire_transfers, escrow_net, lemma_escrow_net_concat,
};
use crate::contract::{
    RentalContract, ContractState, listing_key, state_invariant, is_rented, owed, accounted_step,
};

verus! {

/// Renting charges the fee per period times the periods; the platform
/// takes 250 basis points of it, rounded down, and the rest, never
/// negative, is the owner's proceeds, which stay in escrow.
pub proof fn law_rent_charge(
    l: Listing,
    fee_recipient: Option<Addr>,
    renter: Addr,
    periods: u32,
    now: u64,
    l1: Listing,
    c: RentalCredential,
    ts: Seq<Transfer>,
)
    requires
        listing_valid(l),
        rent_outcome(Some(l), fee_recipient, renter, periods, now) == Ok::<_, RentalError>((l1, c, ts)),
    ensures
        c.total_fee_paid == l.fee_per_period * periods,
        c.escrow_amount == c.total_fee_paid - c.total_fee_paid * 250 / 10000,
        0 <= c.escrow_amount <= c.total_fee_paid,
        escrow_net(ts) == c.escrow_amount,
        paid_to(ts, Holder::Escrow) == c.total_fee_paid,
        c.total_fee_paid > 0 ==> ts[0] == (Transfer {
            token: l.payment_token,
            from: Holder::Account(renter),
            to: Holder::Escrow,
            amount: c.total_fee_paid,
        }),
        c.total_fee_paid * 250 / 10000 > 0 ==> {
            &&& fee_recipient is Some
            &&& ts.len() == 2
            &&& ts[1] == (Transfer {
                token: l.payment_token,
                from: Holder::Escrow,
                to: Holder::Account(fee_recipient.unwrap()),
                amount: (c.total_fee_paid * 250 / 10000) as i128,
            })
        },
        c.total_fee_paid * 250 / 10000 == 0 ==> ts.len() <= 1,
        c.renter == renter && c.owner == l.owner && !c.terminated_early,
        c.asset_contract == l.asset_contract && c.token_id == l.token_id && c.periods == periods,
        c.started_at == now && c.expires_at == now + l.period_duration * periods,
        l.status == ListingStatus::Available && 1 <= periods <= l.max_periods,
        l1 == (Listing { status: ListingStatus::Rented, ..l }),
{
    reveal_with_fuel(escrow_net, 3);
    reveal_with_fuel(paid_to, 3);
    crate::fees::lemma_platform_fee_bounds(c.total_fee_paid as int);
    assert(c.total_fee_paid >= 0) by (nonlinear_arith)
        requires
            c.total_fee_paid == l.fee_per_period * periods,
            l.fee_per_period >= 0,
    ;
    if c.total_fee_paid > 0 {
        if spec_platform_fee(c.total_fee_paid as int) > 0 {
            assert(ts.drop_last().drop_last() =~= Seq::<Transfer>::empty());
        } else {
            assert(ts.drop_last() =~= Seq::<Transfer>::empty());
        }
    }
}

/// What a sequence of transfers pays to `h`, in all.
pub open spec fn paid_to(ts: Seq<Transfer>, h: Holder) -> int
    decreases ts.len(),
{
    if ts.len() == 0 {
        0
    } else {
        paid_to(ts.drop_last(), h) + if ts.last().to == h { ts.last().amount as int } else { 0 }
    }
}

/// Ending a rental early at `now` pays the owner the escrow times the time
/// used over the rental's length, rounded down, and refunds the renter the
/// rest (the escrow times the time remaining, rounded up), both out of
/// escrow: the renter's receipts rise by exactly the refund, the owner's by
/// exactly the share.
pub proof fn law_early_termination_split(
    l: Listing,
    c: RentalCredential,
    renter: Addr,
    now: u64,
    l2: Listing,
    c2: RentalCredential,
    ts: Seq<Transfer>,
)
    requires
        credential_valid_shape(c),
        terminate_outcome(Some(l), Some(c), renter, now) == Ok::<_, RentalError>((l2, c2, ts)),
    ensures
        l.status == ListingStatus::Rented,
        c.renter == renter && !c.terminated_early,
        c.started_at <= now < c.expires_at,
        ({
            let share = c.escrow_amount * (now - c.started_at) / (c.expires_at - c.started_at);
            let refund = c.escrow_amount - share;
            &&& 0 <= share <= c.escrow_amount
            &&& refund >= 0
            &&& paid_to(ts, Holder::Account(renter)) == refund + (if renter == l.owner { share } else { 0 })
            &&& paid_to(ts, Holder::Account(l.owner)) == share + (if renter == l.owner { refund } else { 0 })
            &&& paid_to(ts, Holder::Escrow) == 0
            &&& (refund > 0 ==> ts.last() == (Transfer {
                token: l.payment_token,
                from: Holder::Escrow,
                to: Holder::Account(renter),
                amount: refund as i128,
            }))
            &&& (share > 0 ==> ts[0] == (Transfer {
                token: l.payment_token,
                from: Holder::Escrow,
                to: Holder::Account(l.owner),
                amount: share as i128,
            }))
            &&& ts.len() == (if share > 0 { 1int } else { 0 }) + (if refund > 0 { 1int } else { 0 })
        }),
        l2 == (Listing { status: ListingStatus::Available, ..l }),
        c2 == (RentalCredential { terminated_early: true, ..c }),
{
    let used = now - c.started_at;
    let dur = c.expires_at - c.started_at;
    crate::fees::lemma_owner_share_bounds(c.escrow_amount as int, used, dur);
    reveal_with_fuel(paid_to, 3);
    let share = c.escrow_amount * used / dur;
    let refund = c.escrow_amount - share;
    if share > 0 {
        if refund > 0 {
            assert(ts.drop_last().drop_last() =~= Seq::<Transfer>::empty());
        } else {
            assert(ts.drop_last() =~= Seq::<Transfer>::empty());
        }
    } else if refund > 0 {
        assert(ts.drop_last() =~= Seq::<Transfer>::empty());
    }
}

/// A rented listing whose rental has not ended (its time is not up and it
/// was not ended early) cannot be delisted by its owner; delisting a rented
/// listing succeeds only once the rental has ended, and only for the owner.
pub proof fn law_delist_waits_for_rental_end(
    l: Listing,
    credential: Option<RentalCredential>,
    owner: Addr,
    now: u64,
)
    ensures
        ({
            &&& l.owner == owner
            &&& l.status == ListingStatus::Rented
            &&& credential is Some
            &&& !credential.unwrap().terminated_early
            &&& now < credential.unwrap().expires_at
        }) ==> delist_outcome(Some(l), credential, owner, now)
            == Err::<(Listing, Seq<Transfer>), RentalError>(RentalError::RentalStillActive),
        delist_outcome(Some(l), credential, owner, now) is Ok ==> {
            &&& l.owner == owner
            &&& l.status != ListingStatus::Delisted
            &&& (l.status == ListingStatus::Rented ==> credential is Some
                && (now >= credential.unwrap().expires_at || credential.unwrap().terminated_early))
        },
        delist_outcome(Some(l), credential, owner, now) matches Ok((l2, _)) ==> l2 == (Listing {
            status: ListingStatus::Delisted,
            ..l
        }),
{
}

/// Validity and expiry of a credential, in closed form: a credential is
/// valid for a renter exactly when it names that renter, was not ended
/// early and its time is not up; it is expired exactly when its time is up
/// or it was ended early. So a credential ended early is never valid again
/// and always expired, and every credential is expired and invalid from its
/// expiry on.
pub proof fn law_credential_validity(credential: Option<RentalCredential>, renter: Addr, t: u64)
    ensures
        credential is None ==> !spec_credential_valid(credential, renter, t) && spec_credential_expired(credential, t),
        credential matches Some(c) ==> {
            &&& spec_credential_valid(credential, renter, t) == (c.renter == renter && !c.terminated_early && t < c.expires_at)
            &&& spec_credential_expired(credential, t) == (t >= c.expires_at || c.terminated_early)
            &&& (c.terminated_early ==> !spec_credential_valid(credential, renter, t) && spec_credential_expired(credential, t))
            &&& (t >= c.expires_at ==> !spec_credential_valid(credential, renter, t) && spec_credential_expired(credential, t))
        },
{
}

/// A successful update stores exactly the new terms and keeps every other
/// field of the listing; it succeeds exactly for the owner of an available
/// listing with a non-negative fee, a positive period length and a period
/// cap from 1 to 365.
pub proof fn law_update_sets_terms(
    l: Listing,
    owner: Addr,
    new_fee_per_period: i128,
    new_period_duration: u64,
    new_max_periods: u32,
)
    ensures
        update_outcome(Some(l), owner, new_fee_per_period, new_period_duration, new_max_periods) is Ok <==> {
            &&& l.owner == owner
            &&& l.status == ListingStatus::Available
            &&& new_fee_per_period >= 0
            &&& new_period_duration > 0
            &&& 1 <= new_max_periods <= 365
        },
        update_outcome(Some(l), owner, new_fee_per_period, new_period_duration, new_max_periods) matches Ok(l2) ==> {
            &&& l2.fee_per_period == new_fee_per_period
            &&& l2.period_duration == new_period_duration
            &&& l2.max_periods == new_max_periods
            &&& l2.asset_contract == l.asset_contract
            &&& l2.token_id == l.token_id
            &&& l2.owner == l.owner
            &&& l2.payment_token == l.payment_token
            &&& l2.status == l.status
            &&& l2.created_at == l.created_at
        },
{
}


/// When `rent` succeeds and when it is refused: a missing listing, one not
/// available, zero periods or more than the listing allows are refused in
/// that order; an available listing rented for 1 up to its cap succeeds
/// whenever the fee, the platform cut and the expiry fit and there is a fee
/// recipient to pay.
pub proof fn law_rent_accepts_and_refuses(
    l: Listing,
    fee_recipient: Option<Addr>,
    renter: Addr,
    periods: u32,
    now: u64,
)
    requires
        listing_valid(l),
    ensures
        rent_outcome(None, fee_recipient, renter, periods, now)
            == Err::<(Listing, RentalCredential, Seq<Transfer>), RentalError>(RentalError::ListingNotFound),
        l.status != ListingStatus::Available ==> rent_outcome(Some(l), fee_recipient, renter, periods, now)
            == Err::<(Listing, RentalCredential, Seq<Transfer>), RentalError>(RentalError::NotAvailableForRent),
        l.status == ListingStatus::Available && periods == 0 ==> rent_outcome(Some(l), fee_recipient, renter, periods, now)
            == Err::<(Listing, RentalCredential, Seq<Transfer>), RentalError>(RentalError::ZeroPeriods),
        l.status == ListingStatus::Available && periods > l.max_periods ==> rent_outcome(Some(l), fee_recipient, renter, periods, now)
            == Err::<(Listing, RentalCredential, Seq<Transfer>), RentalError>(RentalError::ExceedsMaxPeriods),
        ({
            &&& l.status == ListingStatus::Available
            &&& 1 <= periods <= l.max_periods
            &&& l.fee_per_period * periods * 250 <= i128::MAX
            &&& now + l.period_duration * periods <= u64::MAX
            &&& fee_recipient is Some
        }) ==> rent_outcome(Some(l), fee_recipient, renter, periods, now) is Ok,
{
    assert(0 <= l.fee_per_period * periods <= l.fee_per_period * periods * 250) by (nonlinear_arith)
        requires
            l.fee_per_period >= 0,
            periods >= 0,
    ;
}

/// When `terminate_early` is refused: a missing listing, one not rented, a
/// missing credential, a caller who is not its renter, a rental already
/// ended early, or one whose time is up, in that order; a rented listing's
/// renter ending it between its start and expiry succeeds whenever the
/// escrow times the time used fits.
pub proof fn law_terminate_accepts_and_refuses(
    l: Listing,
    credential: Option<RentalCredential>,
    renter: Addr,
    now: u64,
)
    ensures
        terminate_outcome(None, credential, renter, now)
            == Err::<(Listing, RentalCredential, Seq<Transfer>), RentalError>(RentalError::ListingNotFound),
        l.status != ListingStatus::Rented ==> terminate_outcome(Some(l), credential, renter, now)
            == Err::<(Listing, RentalCredential, Seq<Transfer>), RentalError>(RentalError::NotRented),
        l.status == ListingStatus::Rented && credential is None ==> terminate_outcome(Some(l), credential, renter, now)
            == Err::<(Listing, RentalCredential, Seq<Transfer>), RentalError>(RentalError::CredentialNotFound),
        l.status == ListingStatus::Rented && credential is Some && credential.unwrap().renter != renter
            ==> terminate_outcome(Some(l), credential, renter, now)
            == Err::<(Listing, RentalCredential, Seq<Transfer>), RentalError>(RentalError::NotRenter),
        l.status == ListingStatus::Rented && credential is Some && credential.unwrap().renter == renter
            && credential.unwrap().terminated_early ==> terminate_outcome(Some(l), credential, renter, now)
            == Err::<(Listing, RentalCredential, Seq<Transfer>), RentalError>(RentalError::AlreadyTerminated),
        l.status == ListingStatus::Rented && credential is Some && credential.unwrap().renter == renter
            && !credential.unwrap().terminated_early && now >= credential.unwrap().expires_at
            ==> terminate_outcome(Some(l), credential, renter, now)
            == Err::<(Listing, RentalCredential, Seq<Transfer>), RentalError>(RentalError::RentalExpired),
        ({
            &&& l.status == ListingStatus::Rented
            &&& credential is Some
            &&& credential.unwrap().renter == renter
            &&& !credential.unwrap().terminated_early
            &&& credential.unwrap().started_at <= now < credential.unwrap().expires_at
            &&& credential.unwrap().escrow_amount * (now - credential.unwrap().started_at) <= i128::MAX
        }) ==> terminate_outcome(Some(l), credential, renter, now) is Ok,
{
}

/// `expire_rental` succeeds exactly on a rented listing with a credential
/// whose time is up or that was ended early; it makes the listing
/// available with its terms unchanged, and pays the owner the whole escrow
/// out of escrow when the rental was not ended early, and nothing else.
pub proof fn law_expire_accepts_and_pays(l: Listing, credential: Option<RentalCredential>, now: u64)
    ensures
        expire_outcome(Some(l), credential, now) is Ok <==> {
            &&& l.status == ListingStatus::Rented
            &&& credential is Some
            &&& (now >= credential.unwrap().expires_at || credential.unwrap().terminated_early)
        },
        l.status != ListingStatus::Rented ==> expire_outcome(Some(l), credential, now)
            == Err::<(Listing, Seq<Transfer>), RentalError>(RentalError::NotInRentedState),
        l.status == ListingStatus::Rented && credential is Some && now < credential.unwrap().expires_at
            && !credential.unwrap().terminated_early ==> expire_outcome(Some(l), credential, now)
            == Err::<(Listing, Seq<Transfer>), RentalError>(RentalError::RentalNotEnded),
        expire_outcome(Some(l), credential, now) matches Ok((l2, ts)) ==> {
            let c = credential.unwrap();
            &&& l2 == (Listing { status: ListingStatus::Available, ..l })
            &&& ts.len() <= 1
            &&& paid_to(ts, Holder::Account(l.owner))
                == (if c.escrow_amount > 0 && !c.terminated_early { c.escrow_amount as int } else { 0 })
            &&& (ts.len() == 1 ==> ts[0].from == Holder::Escrow && ts[0].token == l.payment_token)
        },
{
    reveal_with_fuel(paid_to, 2);
}

/// Delisting a rented listing whose rental has ended pays its owner the
/// whole escrow out of escrow, unless the rental was ended early; delisting
/// an available listing moves nothing.
pub proof fn law_delist_settles_ended_rental(l: Listing, credential: Option<RentalCredential>, owner: Addr, now: u64)
    ensures
        delist_outcome(Some(l), credential, owner, now) matches Ok((_, ts)) ==> {
            &&& ts.len() <= 1
            &&& (l.status == ListingStatus::Available ==> ts.len() == 0)
            &&& (l.status == ListingStatus::Rented ==> paid_to(ts, Holder::Account(l.owner))
                == (if credential.unwrap().escrow_amount > 0 && !credential.unwrap().terminated_early {
                    credential.unwrap().escrow_amount as int
                } else {
                    0
                }))
            &&& (ts.len() == 1 ==> ts[0].from == Holder::Escrow && ts[0].token == l.payment_token)
        },
{
    reveal_with_fuel(paid_to, 2);
}

/// `list_asset` succeeds exactly on a non-negative fee, a positive period
/// length, a cap from 1 to 365 and an asset not listed before, and then
/// makes an available listing of exactly the given terms, created now.
pub proof fn law_list_accepts_and_records(
    already_listed: bool,
    owner: Addr,
    asset_contract: Addr,
    token_id: u64,
    payment_token: Addr,
    fee_per_period: i128,
    period_duration: u64,
    max_periods: u32,
    now: u64,
)
    ensures
        crate::rules::list_outcome(already_listed, owner, asset_contract, token_id, payment_token,
            fee_per_period, period_duration, max_periods, now) is Ok <==> {
            &&& fee_per_period >= 0
            &&& period_duration > 0
            &&& 1 <= max_periods <= 365
            &&& !already_listed
        },
        crate::rules::list_outcome(already_listed, owner, asset_contract, token_id, payment_token,
            fee_per_period, period_duration, max_periods, now) matches Ok(l) ==> {
            &&& l.asset_contract == asset_contract && l.token_id == token_id
            &&& l.owner == owner && l.payment_token == payment_token
            &&& l.fee_per_period == fee_per_period && l.period_duration == period_duration
            &&& l.max_periods == max_periods
            &&& l.status == ListingStatus::Available
            &&& l.created_at == now
        },
        already_listed && fee_per_period >= 0 && period_duration > 0 && 1 <= max_periods <= 365
            ==> crate::rules::list_outcome(already_listed, owner, asset_contract, token_id, payment_token,
            fee_per_period, period_duration, max_periods, now) == Err::<Listing, RentalError>(RentalError::AlreadyListed),
{
}

/// A quote is the fee per period times the periods whenever that fits in
/// an `i128`, for any number of periods.
pub proof fn law_quote_is_fee_times_periods(l: Listing, periods: u32)
    ensures
        quote_outcome(None, periods) == Err::<i128, RentalError>(RentalError::ListingNotFound),
        i128::MIN <= l.fee_per_period * periods <= i128::MAX
            ==> quote_outcome(Some(l), periods) == Ok::<i128, RentalError>((l.fee_per_period * periods) as i128),
        !(i128::MIN <= l.fee_per_period * periods <= i128::MAX)
            ==> quote_outcome(Some(l), periods) == Err::<i128, RentalError>(RentalError::ArithmeticOverflow),
{
}


/// A free listing is rented without any transfer.
pub proof fn law_free_rental_moves_no_tokens(
    l: Listing,
    fee_recipient: Option<Addr>,
    renter: Addr,
    periods: u32,
    now: u64,
    l1: Listing,
    c: RentalCredential,
    ts: Seq<Transfer>,
)
    requires
        l.fee_per_period == 0,
        rent_outcome(Some(l), fee_recipient, renter, periods, now) == Ok::<_, RentalError>((l1, c, ts)),
    ensures
        ts.len() == 0,
        c.total_fee_paid == 0,
        c.escrow_amount == 0,
        c.renter == renter,
{
}

/// The quote for a listing and a number of periods is the gross fee that
/// renting it for those periods charges.
pub proof fn law_quote_matches_rent(
    l: Listing,
    fee_recipient: Option<Addr>,
    renter: Addr,
    periods: u32,
    now: u64,
    l1: Listing,
    c: RentalCredential,
    ts: Seq<Transfer>,
)
    requires
        listing_valid(l),
        rent_outcome(Some(l), fee_recipient, renter, periods, now) == Ok::<_, RentalError>((l1, c, ts)),
    ensures
        quote_outcome(Some(l), periods) == Ok::<i128, RentalError>(c.total_fee_paid),
{
    assert(0 <= l.fee_per_period * periods) by (nonlinear_arith)
        requires
            l.fee_per_period >= 0,
            periods >= 0,
    ;
}

/// A freshly issued credential grants its renter access from the start of
/// the rental until just before it expires, and to no one else; from its
/// expiry on it is invalid and expired, with no further action.
pub proof fn law_credential_valid_exactly_during_rental(
    l: Listing,
    fee_recipient: Option<Addr>,
    renter: Addr,
    periods: u32,
    now: u64,
    l1: Listing,
    c: RentalCredential,
    ts: Seq<Transfer>,
    other: Addr,
    t: u64,
)
    requires
        rent_outcome(Some(l), fee_recipient, renter, periods, now) == Ok::<_, RentalError>((l1, c, ts)),
    ensures
        now <= t < c.expires_at ==> spec_credential_valid(Some(c), renter, t) && !spec_credential_expired(Some(c), t),
        t >= c.expires_at ==> !spec_credential_valid(Some(c), renter, t) && spec_credential_expired(Some(c), t),
        other != renter ==> !spec_credential_valid(Some(c), other, t),
{
}

/// A credential is valid for a renter exactly when it exists, names that
/// renter and has not expired.
pub proof fn law_valid_iff_unexpired_and_held(credential: Option<RentalCredential>, renter: Addr, t: u64)
    ensures
        spec_credential_valid(credential, renter, t) <==> {
            &&& credential is Some
            &&& credential.unwrap().renter == renter
            &&& !spec_credential_expired(credential, t)
        },
{
}

/// When a rental runs its course, expiring it releases the whole escrow
/// to the owner, so that rent and expiry together leave nothing in escrow,
/// and the listing is as it was before the rental.
pub proof fn law_rent_then_expire(
    l: Listing,
    fee_recipient: Option<Addr>,
    renter: Addr,
    periods: u32,
    now: u64,
    later: u64,
    l1: Listing,
    c: RentalCredential,
    ts1: Seq<Transfer>,
)
    requires
        listing_valid(l),
        l.status == ListingStatus::Available,
        rent_outcome(Some(l), fee_recipient, renter, periods, now) == Ok::<_, RentalError>((l1, c, ts1)),
        later >= c.expires_at,
    ensures
        expire_outcome(Some(l1), Some(c), later) matches Ok((l2, ts2)) && {
            &&& l2 == l
            &&& escrow_net(ts2) == -c.escrow_amount
            &&& escrow_net(ts1 + ts2) == 0
        },
{
    law_rent_charge(l, fee_recipient, renter, periods, now, l1, c, ts1);
    let (l2, ts2) = expire_outcome(Some(l1), Some(c), later).unwrap();
    law_expire_transfers_pay_escrow(l1, c);
    lemma_escrow_net_concat(ts1, ts2);
}

/// Expiring a rental that was not ended early pays its whole escrow out
/// to the owner, and nothing else.
pub proof fn law_expire_transfers_pay_escrow(l: Listing, c: RentalCredential)
    requires
        c.escrow_amount >= 0,
        !c.terminated_early,
    ensures
        escrow_net(expire_transfers(l, c)) == -c.escrow_amount,
{
    reveal_with_fuel(escrow_net, 2);
}

/// Ending a rental early splits the escrow between owner and renter in
/// proportion to the time used, rounded down for the owner, and pays it all
/// out of escrow. The listing becomes available again and the credential is
/// spent.
pub proof fn law_terminate_pays_escrow(
    l: Listing,
    c: RentalCredential,
    renter: Addr,
    now: u64,
    l2: Listing,
    c2: RentalCredential,
    ts: Seq<Transfer>,
)
    requires
        credential_valid_shape(c),
        terminate_outcome(Some(l), Some(c), renter, now) == Ok::<_, RentalError>((l2, c2, ts)),
    ensures
        l2 == (Listing { status: ListingStatus::Available, ..l }),
        c2 == (RentalCredential { terminated_early: true, ..c }),
        escrow_net(ts) == -c.escrow_amount,
        ({
            let owner_share = spec_owner_share(c.escrow_amount as int, now - c.started_at, c.expires_at - c.started_at);
            &&& 0 <= owner_share <= c.escrow_amount
            &&& (owner_share > 0 ==> ts[0] == (Transfer {
                token: l.payment_token,
                from: Holder::Escrow,
                to: Holder::Account(l.owner),
                amount: owner_share as i128,
            }))
        }),
        !spec_credential_valid(Some(c2), renter, now),
        spec_credential_expired(Some(c2), now),
        expire_outcome(Some(l2), Some(c2), now) == Err::<(Listing, Seq<Transfer>), RentalError>(RentalError::NotInRentedState),
        terminate_outcome(Some(l2), Some(c2), renter, now) == Err::<(Listing, RentalCredential, Seq<Transfer>), RentalError>(RentalError::NotRented),
{
    let used = now - c.started_at;
    let dur = c.expires_at - c.started_at;
    crate::fees::lemma_owner_share_bounds(c.escrow_amount as int, used, dur);
    let owner_share = spec_owner_share(c.escrow_amount as int, used, dur);
    reveal_with_fuel(escrow_net, 3);
    if owner_share > 0 {
        if c.escrow_amount - owner_share > 0 {
            assert(ts.drop_last().drop_last() =~= Seq::<Transfer>::empty());
        } else {
            assert(ts.drop_last() =~= Seq::<Transfer>::empty());
        }
    } else if c.escrow_amount - owner_share > 0 {
        assert(ts.drop_last() =~= Seq::<Transfer>::empty());
    }
}

/// Rent then early termination: together they leave nothing in escrow, and
/// the listing is as it was before the rental.
pub proof fn law_rent_then_terminate(
    l: Listing,
    fee_recipient: Option<Addr>,
    renter: Addr,
    periods: u32,
    now: u64,
    later: u64,
    l1: Listing,
    c: RentalCredential,
    ts1: Seq<Transfer>,
    l2: Listing,
    c2: RentalCredential,
    ts2: Seq<Transfer>,
)
    requires
        listing_valid(l),
        l.status == ListingStatus::Available,
        rent_outcome(Some(l), fee_recipient, renter, periods, now) == Ok::<_, RentalError>((l1, c, ts1)),
        terminate_outcome(Some(l1), Some(c), renter, later) == Ok::<_, RentalError>((l2, c2, ts2)),
    ensures
        l2 == l,
        escrow_net(ts2) == -c.escrow_amount,
        escrow_net(ts1 + ts2) == 0,
{
    law_rent_charge(l, fee_recipient, renter, periods, now, l1, c, ts1);
    law_terminate_pays_escrow(l1, c, renter, later, l2, c2, ts2);
    lemma_escrow_net_concat(ts1, ts2);
}

/// Delisting a rental that ran its course settles it as expiry would: the
/// whole escrow goes to the owner, so rent and delisting together leave
/// nothing in escrow.
pub proof fn law_rent_then_delist(
    l: Listing,
    fee_recipient: Option<Addr>,
    renter: Addr,
    periods: u32,
    now: u64,
    later: u64,
    l1: Listing,
    c: RentalCredential,
    ts1: Seq<Transfer>,
)
    requires
        listing_valid(l),
        l.status == ListingStatus::Available,
        rent_outcome(Some(l), fee_recipient, renter, periods, now) == Ok::<_, RentalError>((l1, c, ts1)),
        later >= c.expires_at,
    ensures
        delist_outcome(Some(l1), Some(c), l.owner, later) matches Ok((l2, ts2)) && {
            &&& l2 == (Listing { status: ListingStatus::Delisted, ..l })
            &&& escrow_net(ts2) == -c.escrow_amount
            &&& escrow_net(ts1 + ts2) == 0
        },
{
    law_rent_charge(l, fee_recipient, renter, periods, now, l1, c, ts1);
    let (l2, ts2) = delist_outcome(Some(l1), Some(c), l.owner, later).unwrap();
    law_expire_transfers_pay_escrow(l1, c);
    lemma_escrow_net_concat(ts1, ts2);
}

/// The owner's share on early termination never shrinks as more of the
/// rental is used.
pub proof fn law_owner_share_monotonic(escrow: int, used1: int, used2: int, total_duration: int)
    requires
        escrow >= 0,
        0 <= used1 <= used2,
        total_duration > 0,
    ensures
        spec_owner_share(escrow, used1, total_duration) <= spec_owner_share(escrow, used2, total_duration),
{
    assert(escrow * used1 <= escrow * used2) by (nonlinear_arith)
        requires
            escrow >= 0,
            used1 <= used2,
    ;
    vstd::arithmetic::div_mod::lemma_div_is_ordered(escrow * used1, escrow * used2, total_duration);
}

/// In every state the contract reaches, a rented listing has its
/// credential, so expiring or delisting it never fails for want of one.
pub proof fn law_rented_listing_has_credential(contract: &RentalContract, asset_contract: Addr, token_id: u64, now: u64, owner: Addr)
    requires
        contract.wf(),
        contract@.listings.contains_key(crate::contract::listing_key(asset_contract, token_id)),
        contract@.listings[crate::contract::listing_key(asset_contract, token_id)].status == ListingStatus::Rented,
    ensures
        ({
            let k = crate::contract::listing_key(asset_contract, token_id);
            &&& contract@.credentials.contains_key(k)
            &&& !contract@.credentials[k].terminated_early
            &&& expire_outcome(contract@.listings.get(k), contract@.credentials.get(k), now)
                != Err::<(Listing, Seq<Transfer>), RentalError>(RentalError::CredentialNotFound)
            &&& delist_outcome(contract@.listings.get(k), contract@.credentials.get(k), owner, now)
                != Err::<(Listing, Seq<Transfer>), RentalError>(RentalError::CredentialMissingForRented)
        }),
{
    contract.lemma_wf_invariant();
}

/// In every state the contract reaches, the listing index names each
/// listed asset at most once and nothing that is not listed; and it names
/// every listed asset unless that asset was listed before the contract was
/// initialized. A contract initialized before anything was listed keeps no
/// such assets, since only `initialize` sets them and it succeeds once.
pub proof fn law_index_names_listed_assets(contract: &RentalContract, i: int, j: int, k: ListingKey)
    requires
        contract.wf(),
        0 <= i < contract@.listing_index.len(),
        0 <= j < contract@.listing_index.len(),
    ensures
        contract@.listings.contains_key(contract@.listing_index[i]),
        i != j ==> contract@.listing_index[i] != contract@.listing_index[j],
        contract@.listings.contains_key(k) && !contract@.unindexed.contains(k)
            ==> contract@.listing_index.contains(k),
        contract@.unindexed.is_empty() ==> (contract@.listings.contains_key(k) <==> contract@.listing_index.contains(k)),
{
    contract.lemma_wf_invariant();
    if contract@.listing_index.contains(k) {
        let m = choose|m: int| 0 <= m < contract@.listing_index.len() && contract@.listing_index[m] == k;
        assert(contract@.listings.contains_key(contract@.listing_index[m]));
    }
    if contract@.unindexed.is_empty() {
        assert(!contract@.unindexed.contains(k));
    }
}

/// In every state the contract reaches, each credential names its
/// listing's owner and holds an escrow between zero and the fee paid.
pub proof fn law_credential_matches_listing(contract: &RentalContract, k: ListingKey)
    requires
        contract.wf(),
        contract@.credentials.contains_key(k),
    ensures
        contract@.listings.contains_key(k),
        contract@.credentials[k].owner == contract@.listings[k].owner,
        0 <= contract@.credentials[k].escrow_amount <= contract@.credentials[k].total_fee_paid,
        contract@.credentials[k].started_at < contract@.credentials[k].expires_at,
{
    contract.lemma_wf_invariant();
}

/// One call on the contract as a record: the asset it acts on, whether it
/// is a rent, and the transfers it returned (none when refused). Every
/// call's contract states `accounted_step` for such a record; `initialize`
/// and `set_fee_recipient` for any asset, with no transfers.
pub struct CallRecord {
    pub key: ListingKey,
    pub rents: bool,
    pub transfers: Seq<Transfer>,
}

/// A run of calls: `states[i]` is the contract before `calls[i]` and
/// `states[i + 1]` after it.
pub open spec fn valid_run(states: Seq<ContractState>, calls: Seq<CallRecord>) -> bool {
    &&& states.len() == calls.len() + 1
    &&& forall|i: int| #![trigger calls[i]] 0 <= i < calls.len() ==>
        accounted_step(states[i], states[i + 1], calls[i].key, calls[i].rents, calls[i].transfers)
}

/// What the calls on the asset under `k` moved into escrow, net.
pub open spec fn key_flow(calls: Seq<CallRecord>, k: ListingKey) -> int
    decreases calls.len(),
{
    if calls.len() == 0 {
        0
    } else {
        key_flow(calls.drop_last(), k) + if calls.last().key == k { escrow_net(calls.last().transfers) } else { 0 }
    }
}

/// A single call that ends an asset's rental pays out that rental's whole
/// escrow; a call on an asset that is not rented before or after moves
/// nothing in or out of escrow.
pub proof fn law_call_settles_escrow_once(
    s: ContractState,
    s2: ContractState,
    k: ListingKey,
    rents: bool,
    ts: Seq<Transfer>,
)
    requires
        state_invariant(s),
        accounted_step(s, s2, k, rents, ts),
    ensures
        is_rented(s, k) && !is_rented(s2, k) ==> escrow_net(ts) == -s.credentials[k].escrow_amount,
        !is_rented(s, k) && !is_rented(s2, k) ==> escrow_net(ts) == 0,
{
}

/// Over any run of calls, what the calls on an asset moved into escrow,
/// net, is what the escrow owes on that asset at the end minus what it owed
/// at the start: every rental's escrow is paid in once and paid out once.
pub proof fn law_escrow_over_any_run(states: Seq<ContractState>, calls: Seq<CallRecord>, k: ListingKey)
    requires
        valid_run(states, calls),
    ensures
        key_flow(calls, k) == owed(states.last(), k) - owed(states[0], k),
    decreases calls.len(),
{
    if calls.len() > 0 {
        let n = calls.len() - 1;
        let st = states.drop_last();
        let cs = calls.drop_last();
        assert forall|i: int| #![trigger cs[i]] 0 <= i < cs.len() implies
            accounted_step(st[i], st[i + 1], cs[i].key, cs[i].rents, cs[i].transfers) by {
            assert(cs[i] == calls[i]);
        }
        law_escrow_over_any_run(st, cs, k);
        let c = calls[n];
        assert(accounted_step(states[n], states[n + 1], c.key, c.rents, c.transfers));
        assert(owed(states[n + 1], k) == owed(states[n], k) || c.key == k);
    }
}

/// From a fresh contract, over any run of calls, the escrow holds exactly
/// the proceeds of an asset's current rental: once the asset is no longer
/// rented, all that its rentals put into escrow has been paid out.
pub proof fn law_escrow_from_fresh_contract(states: Seq<ContractState>, calls: Seq<CallRecord>, k: ListingKey)
    requires
        valid_run(states, calls),
        states[0].listings == Map::<ListingKey, Listing>::empty(),
        state_invariant(states.last()),
    ensures
        key_flow(calls, k) == owed(states.last(), k),
        key_flow(calls, k) >= 0,
        !is_rented(states.last(), k) ==> key_flow(calls, k) == 0,
{
    law_escrow_over_any_run(states, calls, k);
}

/// Over any run of calls with no rent of an asset that is not rented at the
/// start, the asset never becomes rented, so expiring it stays refused and
/// pays nothing. If the asset was listed at the start it stays listed, and
/// the refusal is that it is not in rented state: after an expiry, a further
/// expiry is refused with `NotInRentedState` until a new rent, whatever
/// other calls come between.
pub proof fn law_no_rental_without_rent(states: Seq<ContractState>, calls: Seq<CallRecord>, k: ListingKey, now: u64)
    requires
        valid_run(states, calls),
        !is_rented(states[0], k),
        forall|i: int| 0 <= i < calls.len() && #[trigger] calls[i].key == k ==> !calls[i].rents,
    ensures
        !is_rented(states.last(), k),
        expire_outcome(states.last().listings.get(k), states.last().credentials.get(k), now) is Err,
        states[0].listings.contains_key(k) ==> {
            &&& states.last().listings.contains_key(k)
            &&& expire_outcome(states.last().listings.get(k), states.last().credentials.get(k), now)
                == Err::<(Listing, Seq<Transfer>), RentalError>(RentalError::NotInRentedState)
        },
    decreases calls.len(),
{
    if calls.len() > 0 {
        let n = calls.len() - 1;
        let st = states.drop_last();
        let cs = calls.drop_last();
        assert forall|i: int| #![trigger cs[i]] 0 <= i < cs.len() implies
            accounted_step(st[i], st[i + 1], cs[i].key, cs[i].rents, cs[i].transfers) by {
            assert(cs[i] == calls[i]);
        }
        assert forall|i: int| 0 <= i < cs.len() && #[trigger] cs[i].key == k implies !cs[i].rents by {
            assert(cs[i] == calls[i]);
        }
        law_no_rental_without_rent(st, cs, k, now);
        let c = calls[n];
        assert(accounted_step(states[n], states[n + 1], c.key, c.rents, c.transfers));
        assert(is_rented(states[n + 1], k) == is_rented(states[n], k) || c.key == k);
        if c.key != k {
            assert(is_rented(states[n + 1], k) == is_rented(states[n], k));
            assert(states[n + 1].listings.get(k) == states[n].listings.get(k));
        }
    }
}

} // verus!
