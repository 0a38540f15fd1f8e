use vstd::prelude::*;
use crate::types::{BPS_DENOM, PLATFORM_FEE_BPS};

verus! {

/// The gross fee for renting `periods` periods at `fee_per_period` each.
pub open spec fn spec_total_fee(fee_per_period: int, periods: int) -> int {
    fee_per_period * periods
}

/// The platform's cut of a gross fee: 250 basis points, rounded down.
pub open spec fn spec_platform_fee(total_fee: int) -> int {
    total_fee * (PLATFORM_FEE_BPS as int) / (BPS_DENOM as int)
}

/// The owner's share of the escrow when `time_used` of `total_duration`
/// seconds of a rental have passed, rounded down.
pub open spec fn spec_owner_share(escrow: int, time_used: int, total_duration: int) -> int {
    escrow * time_used / total_duration
}

/// Whether the gross fee and the product taken for the platform cut both
/// fit in an `i128`.
pub open spec fn charge_fits(fee_per_period: int, periods: int) -> bool {
    &&& spec_total_fee(fee_per_period, periods) <= i128::MAX
    &&& spec_total_fee(fee_per_period, periods) * PLATFORM_FEE_BPS <= i128::MAX
}

/// What a renter is charged: the gross fee, the platform's cut and the
/// owner's proceeds that go to escrow.
#[derive(Clone, Copy, PartialEq, Eq, Structural, Debug)]
pub struct RentalCharge {
    pub total_fee: i128,
    pub platform_fee: i128,
    pub escrow_amount: i128,
}

/// The charge for a rental of `periods` periods at `fee_per_period`.
pub open spec fn spec_charge(fee_per_period: int, periods: int) -> RentalCharge {
    let total = spec_total_fee(fee_per_period, periods);
    let platform = spec_platform_fee(total);
    RentalCharge { total_fee: total as i128, platform_fee: platform as i128, escrow_amount: (total - platform) as i128 }
}

/// For a non-negative gross fee the platform's cut lies between zero and
/// the fee itself, so the escrow is never negative.
pub proof fn lemma_platform_fee_bounds(total_fee: int)
    requires
        total_fee >= 0,
    ensures
        0 <= spec_platform_fee(total_fee) <= total_fee,
        total_fee - spec_platform_fee(total_fee) >= 0,
{
    assert(0 <= total_fee * 250 / 10000 <= total_fee) by (nonlinear_arith)
        requires
            total_fee >= 0,
    ;
}

/// For a fraction `time_used / total_duration` below one, the owner's share
/// of a non-negative escrow lies between zero and the escrow.
pub proof fn lemma_owner_share_bounds(escrow: int, time_used: int, total_duration: int)
    requires
        escrow >= 0,
        0 <= time_used < total_duration,
    ensures
        0 <= spec_owner_share(escrow, time_used, total_duration) <= escrow,
{
    assert(0 <= escrow * time_used / total_duration <= escrow) by (nonlinear_arith)
        requires
            escrow >= 0,
            0 <= time_used < total_duration,
    {
        assert(escrow * time_used <= escrow * total_duration);
        assert(escrow * time_used >= 0);
    }
}

/// The charge for renting `periods` periods at `fee_per_period`, or `None`
/// when the arithmetic overflows.
pub fn rental_charge(fee_per_period: i128, periods: u32) -> (r: Option<RentalCharge>)
    requires
        fee_per_period >= 0,
    ensures
        match r {
            Some(c) => {
                &&& charge_fits(fee_per_period as int, periods as int)
                &&& c == spec_charge(fee_per_period as int, periods as int)
                &&& c.total_fee == fee_per_period * periods
                &&& c.platform_fee == c.total_fee * 250 / 10000
                &&& 0 <= c.platform_fee <= c.total_fee
                &&& c.platform_fee + c.escrow_amount == c.total_fee
                &&& c.escrow_amount >= 0
            },
            None => !charge_fits(fee_per_period as int, periods as int),
        },
{
    let total = match fee_per_period.checked_mul(periods as i128) {
        Some(t) => t,
        None => return None,
    };
    let scaled = match total.checked_mul(PLATFORM_FEE_BPS) {
        Some(s) => s,
        None => return None,
    };
    assert(total >= 0) by (nonlinear_arith)
        requires
            fee_per_period >= 0,
            periods >= 0,
            total == fee_per_period * periods,
    ;
    let platform = scaled / BPS_DENOM;
    proof {
        lemma_platform_fee_bounds(total as int);
    }
    let escrow = total - platform;
    Some(RentalCharge { total_fee: total, platform_fee: platform, escrow_amount: escrow })
}

/// The split of an escrow on early termination: the owner's share for the
/// time used and the renter's refund for the rest, or `None` when
/// `escrow * time_used` overflows.
pub fn prorated_split(escrow: i128, time_used: u64, total_duration: u64) -> (r: Option<(i128, i128)>)
    requires
        escrow >= 0,
        time_used < total_duration,
    ensures
        match r {
            Some((owner_share, renter_refund)) => {
                &&& escrow * time_used <= i128::MAX
                &&& owner_share == spec_owner_share(escrow as int, time_used as int, total_duration as int)
                &&& owner_share == escrow * time_used / (total_duration as int)
                &&& renter_refund == escrow - owner_share
                &&& 0 <= owner_share <= escrow
                &&& 0 <= renter_refund
            },
            None => escrow * time_used > i128::MAX,
        },
{
    let product = match escrow.checked_mul(time_used as i128) {
        Some(p) => p,
        None => return None,
    };
    assert(product >= 0) by (nonlinear_arith)
        requires
            escrow >= 0,
            time_used >= 0,
            product == escrow * time_used,
    ;
    let owner_share = product / (total_duration as i128);
    proof {
        lemma_owner_share_bounds(escrow as int, time_used as int, total_duration as int);
    }
    let renter_refund = escrow - owner_share;
    Some((owner_share, renter_refund))
}

} // verus!
