//! Redemption: a matured coupon releases its vested base to the redeemer,
//! exactly once.
use vstd::prelude::*;

use crate::errors::{CustomErrorCode, OrArithError};
use crate::structs::{Address, BondCoupon, TokenState};

verus! {

/// The accounts a redemption reads and writes.
#[derive(Clone, Copy, Debug)]
pub struct RedeemCoupon {
    /// The caller, who must be the coupon's redeemer.
    pub user: Address,
    pub token_state: TokenState,
    pub coupon: BondCoupon,
}

/// The accounts after redeeming at time `now`, or the error it is rejected with.
pub open spec fn redeem_spec(ctx: RedeemCoupon, now: i64) -> Result<RedeemCoupon, CustomErrorCode> {
    if now <= ctx.coupon.redemption_date {
        Err(CustomErrorCode::CouponDateError)
    } else if ctx.coupon.is_redeemed {
        Err(CustomErrorCode::CouponClaimedError)
    } else if ctx.user.bytes@ != ctx.coupon.redeemer_address.bytes@ {
        Err(CustomErrorCode::InvalidRedeemer)
    } else if ctx.token_state.total_redeemed + ctx.coupon.tokens_to_redeem > u64::MAX {
        Err(CustomErrorCode::ArithmeticError)
    } else {
        Ok(
            RedeemCoupon {
                token_state: TokenState {
                    total_redeemed: (ctx.token_state.total_redeemed
                        + ctx.coupon.tokens_to_redeem) as u64,
                    ..ctx.token_state
                },
                coupon: BondCoupon { is_redeemed: true, ..ctx.coupon },
                ..ctx
            },
        )
    }
}

/// Redeems `ctx.coupon` at time `now`. Returns the base to move from the
/// bonding vault to the redeemer.
///
/// A coupon pays out only after its redemption date, only once, and only to
/// its redeemer; a rejected redemption changes nothing and moves nothing.
pub fn handle(ctx: &mut RedeemCoupon, now: i64) -> (r: Result<u64, CustomErrorCode>)
    ensures
        match r {
            Ok(released) => {
                &&& redeem_spec(*old(ctx), now) == Ok::<RedeemCoupon, CustomErrorCode>(*final(ctx))
                &&& released == old(ctx).coupon.tokens_to_redeem
            },
            Err(e) => {
                &&& redeem_spec(*old(ctx), now) == Err::<RedeemCoupon, CustomErrorCode>(e)
                &&& *final(ctx) == *old(ctx)
            },
        },
        now <= old(ctx).coupon.redemption_date ==> r == Err::<u64, CustomErrorCode>(
            CustomErrorCode::CouponDateError,
        ),
        now > old(ctx).coupon.redemption_date && old(ctx).coupon.is_redeemed ==> r == Err::<
            u64,
            CustomErrorCode,
        >(CustomErrorCode::CouponClaimedError),
        old(ctx).token_state.wf() ==> final(ctx).token_state.wf(),
{
    if now <= ctx.coupon.redemption_date {
        return Err(CustomErrorCode::CouponDateError);
    }
    if ctx.coupon.is_redeemed {
        return Err(CustomErrorCode::CouponClaimedError);
    }
    if ctx.user != ctx.coupon.redeemer_address {
        return Err(CustomErrorCode::InvalidRedeemer);
    }
    let released = ctx.coupon.tokens_to_redeem;
    let total_redeemed = ctx.token_state.total_redeemed.checked_add(released).or_arith_error()?;
    ctx.coupon.is_redeemed = true;
    ctx.token_state.total_redeemed = total_redeemed;
    Ok(released)
}

/// A coupon pays out at most once: after one successful redemption, any
/// later attempt fails with `CouponClaimedError` and leaves `total_redeemed`
/// as it is.
pub proof fn lemma_redeem_only_once(ctx: RedeemCoupon, first: i64, later: i64)
    requires
        redeem_spec(ctx, first) is Ok,
        first <= later,
    ensures
        redeem_spec(redeem_spec(ctx, first)->Ok_0, later) == Err::<RedeemCoupon, CustomErrorCode>(
            CustomErrorCode::CouponClaimedError,
        ),
{
}

} // verus!
