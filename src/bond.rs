//! Bonding: quote is paid in, a time-locked coupon on newly emitted base
//! comes out, and the token's running totals advance.
//!
//! Where a reward would carry `total_emissions` past `next_halving`, it is cut
//! to exactly the room left in the epoch, the quote charged is recomputed from
//! the cut reward with `bond_amount`, and the token moves to the next epoch.
//! Every figure is computed before anything is written, so a failed bond
//! leaves the accounts as they were.
use vstd::prelude::*;

use crate::calculations::{
    bond_amount, bond_amount_spec, bond_reward, bond_reward_spec, epoch_emission_rate,
    epoch_emissions, fee, fee_spec, halving_spec, lemma_geometric_sum_grows, next_halving_at,
    next_halving_spec, HalvingSeries,
};
use crate::errors::{CustomErrorCode, OrArithError};
use crate::structs::{
    halving_threshold, pad_id_10, padded, Address, BondCoupon, BondVote, TokenState,
    COUPON_ID_LEN, PERIOD_COUNT,
};

verus! {

/// The accounts a bond reads and writes.
#[derive(Clone, Copy, Debug)]
pub struct Bond {
    /// The bonder, who pays the quote and will redeem the coupon.
    pub user: Address,
    pub token_state_address: Address,
    pub token_state: TokenState,
    /// The coupon record this bond fills in.
    pub coupon: BondCoupon,
    pub bond_vote: Option<BondVote>,
}

/// The quote to move from the bonder to each treasury account.
#[derive(Clone, Copy, Debug, PartialEq, Eq, Structural)]
pub struct BondTransfers {
    pub runway: u64,
    pub reserve: u64,
    pub surplus: u64,
}

/// The figures of one bond, computed before anything is committed.
#[derive(Clone, Copy, Debug, PartialEq, Eq, Structural)]
pub struct BondPlan {
    /// Base vested in the coupon.
    pub reward: u64,
    /// The reward at the full, uncut amount.
    pub full_reward: u64,
    /// Quote charged, before the runway fee.
    pub amount_charged: u64,
    pub runway_fee_amount: u64,
    pub amount_post_fee: u64,
    /// The part of `amount_post_fee` that backs redemptions.
    pub base_pool_amount: u64,
    /// The part of `amount_post_fee` kept as surplus.
    pub growth_pool_amount: u64,
    pub new_total_emissions: u64,
    pub new_mps: u64,
    pub epoch_transition: bool,
}

/// The highest multiplier among the first `n` periods that are enabled, or 0.
pub open spec fn best_multiplier(multipliers: Seq<u32>, enabled: Seq<bool>, n: nat) -> u32
    decreases n,
{
    if n == 0 {
        0
    } else {
        let best = best_multiplier(multipliers, enabled, (n - 1) as nat);
        if enabled[n - 1] && multipliers[n - 1] > best {
            multipliers[n - 1]
        } else {
            best
        }
    }
}

/// The multiplier of the highest-paying enabled period.
pub open spec fn max_enabled_multiplier(s: TokenState) -> u32 {
    best_multiplier(s.period_multipliers@, s.period_enabled@, 10)
}

proof fn lemma_best_multiplier_bounds(multipliers: Seq<u32>, enabled: Seq<bool>, n: nat, i: int)
    requires
        0 <= i < n,
        n <= multipliers.len(),
        n <= enabled.len(),
        enabled[i],
    ensures
        multipliers[i] <= best_multiplier(multipliers, enabled, n),
    decreases n,
{
    if i < n - 1 {
        lemma_best_multiplier_bounds(multipliers, enabled, (n - 1) as nat, i);
    }
}

/// What a bond of `amount` in period `p` computes, or the first failure.
pub open spec fn bond_plan_spec(s: TokenState, amount: u64, p: int) -> Result<
    BondPlan,
    CustomErrorCode,
> {
    let multiplier = s.period_multipliers@[p] as u64;
    let max_multiplier = max_enabled_multiplier(s) as u64;
    let runway_fee = s.runway_fee as u64;
    let fee_bps = s.fee_bps as u64;
    let room = s.next_halving - s.total_emissions;
    match fee_spec(amount, runway_fee, fee_bps) {
        Err(e) => Err(e),
        Ok(first_fee) => match bond_reward_spec(
            amount,
            s.bonding_cost,
            s.emission_rate,
            multiplier,
            s.reward_bps,
        ) {
            Err(e) => Err(e),
            Ok(full_reward) => {
                let epoch_transition = full_reward > room;
                let reward = if epoch_transition {
                    room as u64
                } else {
                    full_reward
                };
                let charged = if epoch_transition {
                    bond_amount_spec(reward, s.bonding_cost, s.emission_rate, multiplier, s.reward_bps)
                } else {
                    Ok(amount)
                };
                let runway = match charged {
                    Err(e) => Err(e),
                    Ok(c) => if epoch_transition {
                        fee_spec(c, runway_fee, fee_bps)
                    } else {
                        Ok(first_fee)
                    },
                };
                match (charged, runway) {
                    (Ok(charged), Ok(runway)) => {
                        let amount_post_fee = (charged - runway) as u64;
                        match bond_reward_spec(
                            amount,
                            s.bonding_cost,
                            s.emission_rate,
                            max_multiplier,
                            s.reward_bps,
                        ) {
                            Err(e) => Err(e),
                            Ok(max_reward) => match fee_spec(
                                amount_post_fee,
                                s.treasury_split@[p] as u64,
                                fee_bps,
                            ) {
                                Err(e) => Err(e),
                                Ok(growth) => if growth > amount_post_fee {
                                    Err(CustomErrorCode::ArithmeticError)
                                } else {
                                    Ok(
                                        BondPlan {
                                            reward,
                                            full_reward,
                                            amount_charged: charged,
                                            runway_fee_amount: runway,
                                            amount_post_fee,
                                            base_pool_amount: (amount_post_fee - growth) as u64,
                                            growth_pool_amount: growth,
                                            new_total_emissions: (s.total_emissions
                                                + reward) as u64,
                                            new_mps: if max_reward > s.next_halving - s.mps {
                                                s.next_halving
                                            } else {
                                                (s.mps + max_reward) as u64
                                            },
                                            epoch_transition,
                                        },
                                    )
                                },
                            },
                        }
                    },
                    (Err(e), _) => Err(e),
                    (_, Err(e)) => Err(e),
                }
            },
        },
    }
}

/// `fee_rate / max_bps` of `x` is at most `x` when `fee_rate <= max_bps`.
proof fn lemma_fee_at_most(x: u64, fee_rate: u64, max_bps: u64)
    requires
        fee_rate <= max_bps,
        fee_spec(x, fee_rate, max_bps) is Ok,
    ensures
        fee_spec(x, fee_rate, max_bps)->Ok_0 <= x,
{
    assert((x * fee_rate) / (max_bps as int) <= x) by (nonlinear_arith)
        requires
            fee_rate <= max_bps,
            max_bps > 0,
            x >= 0,
            fee_rate >= 0,
    ;
}

/// A larger multiplier never gives a smaller reward.
proof fn lemma_bond_reward_grows(
    amount: u64,
    cost: u64,
    emissions: u64,
    m1: u64,
    m2: u64,
    bps: u32,
)
    requires
        m1 <= m2,
        bond_reward_spec(amount, cost, emissions, m1, bps) is Ok,
        bond_reward_spec(amount, cost, emissions, m2, bps) is Ok,
    ensures
        bond_reward_spec(amount, cost, emissions, m1, bps)->Ok_0 <= bond_reward_spec(
            amount,
            cost,
            emissions,
            m2,
            bps,
        )->Ok_0,
{
    let q = crate::calculations::base_reward(amount, cost, emissions);
    assert(amount * emissions >= 0) by (nonlinear_arith)
        requires
            amount >= 0,
            emissions >= 0,
    ;
    assert(q >= 0) by (nonlinear_arith)
        requires
            q == (amount * emissions) / (cost as int),
            amount * emissions >= 0,
            cost > 0,
    ;
    assert((q * m1) / (bps as int) <= (q * m2) / (bps as int)) by (nonlinear_arith)
        requires
            q >= 0,
            0 <= m1 <= m2,
            bps > 0,
    ;
}

/// Computes the figures of a bond without changing anything.
fn plan_bond(s: &TokenState, amount: u64, p: usize) -> (r: Result<BondPlan, CustomErrorCode>)
    requires
        s.wf(),
        p < 10,
        s.period_enabled@[p as int],
    ensures
        r == bond_plan_spec(*s, amount, p as int),
        r is Ok ==> {
            let plan = r->Ok_0;
            &&& plan.base_pool_amount + plan.growth_pool_amount == plan.amount_post_fee
            &&& plan.amount_post_fee + plan.runway_fee_amount == plan.amount_charged
            &&& plan.new_total_emissions <= plan.new_mps <= s.next_halving
            &&& plan.new_total_emissions == s.total_emissions + plan.reward
            &&& s.mps <= plan.new_mps
            &&& plan.epoch_transition <==> plan.full_reward > s.next_halving - s.total_emissions
            &&& plan.epoch_transition ==> plan.new_total_emissions == s.next_halving
            &&& !plan.epoch_transition ==> plan.reward == plan.full_reward
        },
{
    let multiplier = s.period_multipliers[p] as u64;
    let treasury_split = s.treasury_split[p] as u64;
    let runway_fee = s.runway_fee as u64;
    let fee_bps = s.fee_bps as u64;
    let cost = s.bonding_cost;
    let emissions = s.emission_rate;

    // the highest multiplier on offer, for the maximum-potential-supply path
    let mut max_multiplier: u32 = 0;
    let mut i: usize = 0;
    while i < PERIOD_COUNT
        invariant
            i <= 10,
            max_multiplier == best_multiplier(s.period_multipliers@, s.period_enabled@, i as nat),
        decreases 10 - i,
    {
        if s.period_enabled[i] && s.period_multipliers[i] > max_multiplier {
            max_multiplier = s.period_multipliers[i];
        }
        i = i + 1;
    }
    proof {
        lemma_best_multiplier_bounds(s.period_multipliers@, s.period_enabled@, 10, p as int);
    }

    let first_fee = fee(amount, runway_fee, fee_bps)?;
    let full_reward = bond_reward(amount, cost, emissions, multiplier, s.reward_bps)?;
    let room = s.next_halving - s.total_emissions;
    let epoch_transition = full_reward > room;
    let mut reward = full_reward;
    let mut amount_charged = amount;
    let mut runway_fee_amount = first_fee;
    if epoch_transition {
        reward = room;
        amount_charged = bond_amount(reward, cost, emissions, multiplier, s.reward_bps)?;
        runway_fee_amount = fee(amount_charged, runway_fee, fee_bps)?;
    }
    proof {
        lemma_fee_at_most(amount_charged, runway_fee, fee_bps);
    }
    let amount_post_fee = amount_charged - runway_fee_amount;

    let max_reward = bond_reward(amount, cost, emissions, max_multiplier as u64, s.reward_bps)?;
    proof {
        lemma_bond_reward_grows(
            amount,
            cost,
            emissions,
            multiplier,
            max_multiplier as u64,
            s.reward_bps,
        );
    }
    let mps_room = s.next_halving - s.mps;
    let new_mps = if max_reward > mps_room {
        s.next_halving
    } else {
        s.mps + max_reward
    };

    let growth_pool_amount = fee(amount_post_fee, treasury_split, fee_bps)?;
    let base_pool_amount = amount_post_fee.checked_sub(growth_pool_amount).or_arith_error()?;
    Ok(
        BondPlan {
            reward,
            full_reward,
            amount_charged,
            runway_fee_amount,
            amount_post_fee,
            base_pool_amount,
            growth_pool_amount,
            new_total_emissions: s.total_emissions + reward,
            new_mps,
            epoch_transition,
        },
    )
}

/// The epoch fields of a token once a bond has ended its epoch.
#[derive(Clone, Copy, Debug, PartialEq, Eq, Structural)]
pub struct EpochAdvance {
    pub epoch_count: u32,
    pub total_epoch_emissions: u64,
    pub next_halving: u64,
    pub emission_rate: u64,
}

pub open spec fn advance_epoch_spec(s: TokenState) -> Result<EpochAdvance, CustomErrorCode> {
    if s.epoch_count == u32::MAX {
        Err(CustomErrorCode::ArithmeticError)
    } else {
        let e = (s.epoch_count + 1) as u32;
        match (
            halving_spec(e, s.genesis_supply),
            next_halving_spec(s.halving_series, s.genesis_supply, e),
            halving_spec(e, s.genesis_emission_rate),
        ) {
            (Ok(total_epoch_emissions), Ok(next_halving), Ok(emission_rate)) => Ok(
                EpochAdvance { epoch_count: e, total_epoch_emissions, next_halving, emission_rate },
            ),
            (Err(x), _, _) => Err(x),
            (_, Err(x), _) => Err(x),
            (_, _, Err(x)) => Err(x),
        }
    }
}

/// Computes the next epoch's index, emissions, threshold and emission rate.
fn advance_epoch(s: &TokenState) -> (r: Result<EpochAdvance, CustomErrorCode>)
    requires
        s.wf(),
    ensures
        r == advance_epoch_spec(*s),
        r is Ok ==> r->Ok_0.next_halving == halving_threshold(
            s.halving_series,
            s.genesis_supply,
            r->Ok_0.epoch_count,
        ),
        r is Ok ==> s.next_halving <= r->Ok_0.next_halving,
{
    let epoch_count = s.epoch_count.checked_add(1).or_arith_error()?;
    let total_epoch_emissions = epoch_emissions(epoch_count, s.genesis_supply)?;
    let next_halving = next_halving_at(s.halving_series, s.genesis_supply, epoch_count)?;
    let emission_rate = epoch_emission_rate(epoch_count, s.genesis_emission_rate)?;
    proof {
        if s.halving_series == HalvingSeries::Geometric {
            lemma_geometric_sum_grows(
                s.genesis_supply,
                (s.epoch_count + 1) as nat,
                (epoch_count + 1) as nat,
            );
        }
    }
    Ok(EpochAdvance { epoch_count, total_epoch_emissions, next_halving, emission_rate })
}

/// The records a successful bond leaves behind, and the quote it moves.
pub struct BondOutcome {
    pub token_state: TokenState,
    pub bond_vote: Option<BondVote>,
    /// The coupon issued; its `id` is kept here as it was, and `handle`
    /// states the padded name apart.
    pub coupon: BondCoupon,
    pub transfers: BondTransfers,
}

/// Writes `plan` into the token's totals, issues the coupon and, while
/// voting is open, adds `amount` to the vote tally, saturating at `u64::MAX`.
pub open spec fn commit_spec(
    ctx: Bond,
    plan: BondPlan,
    amount: u64,
    period_index: u8,
    now: i64,
) -> Result<BondOutcome, CustomErrorCode> {
    let s = ctx.token_state;
    let redemption_date = now + s.period_lengths@[period_index as int];
    let vote_open = now < s.voting_enabled_date;
    let advance = if plan.epoch_transition {
        advance_epoch_spec(s)
    } else {
        Ok(
            EpochAdvance {
                epoch_count: s.epoch_count,
                total_epoch_emissions: s.total_epoch_emissions,
                next_halving: s.next_halving,
                emission_rate: s.emission_rate,
            },
        )
    };
    if s.quote_bonded + plan.amount_post_fee > u64::MAX || s.total_runway_reserve
        + plan.runway_fee_amount > u64::MAX || s.total_reserve + plan.base_pool_amount > u64::MAX
        || s.total_surplus_reserve + plan.growth_pool_amount > u64::MAX || s.bond_coupon_count + 1
        > u64::MAX || redemption_date > i64::MAX || redemption_date < i64::MIN || (
    !plan.epoch_transition && s.current_epoch_emissions + plan.reward > u64::MAX) {
        Err(CustomErrorCode::ArithmeticError)
    } else {
        match advance {
            Err(e) => Err(e),
            Ok(adv) => Ok(
                BondOutcome {
                    token_state: TokenState {
                        total_emissions: plan.new_total_emissions,
                        mps: plan.new_mps,
                        quote_bonded: (s.quote_bonded + plan.amount_post_fee) as u64,
                        total_runway_reserve: (s.total_runway_reserve
                            + plan.runway_fee_amount) as u64,
                        total_reserve: (s.total_reserve + plan.base_pool_amount) as u64,
                        total_surplus_reserve: (s.total_surplus_reserve
                            + plan.growth_pool_amount) as u64,
                        bond_coupon_count: (s.bond_coupon_count + 1) as u64,
                        epoch_count: adv.epoch_count,
                        total_epoch_emissions: adv.total_epoch_emissions,
                        next_halving: adv.next_halving,
                        emission_rate: adv.emission_rate,
                        current_epoch_emissions: if plan.epoch_transition {
                            0
                        } else {
                            (s.current_epoch_emissions + plan.reward) as u64
                        },
                        ..s
                    },
                    bond_vote: if vote_open && ctx.bond_vote is Some {
                        Some(
                            BondVote {
                                total_votes: if ctx.bond_vote->Some_0.total_votes + amount
                                    > u64::MAX {
                                    u64::MAX
                                } else {
                                    (ctx.bond_vote->Some_0.total_votes + amount) as u64
                                },
                                ..ctx.bond_vote->Some_0
                            },
                        )
                    } else {
                        ctx.bond_vote
                    },
                    coupon: BondCoupon {
                        redemption_date: redemption_date as i64,
                        is_redeemed: false,
                        period_index,
                        coupon_count: (s.bond_coupon_count + 1) as u64,
                        tokens_to_redeem: plan.reward,
                        redeemer_address: ctx.user,
                        token_state_address: ctx.token_state_address,
                        coupon_bump: ctx.coupon.coupon_bump,
                        id: ctx.coupon.id,
                    },
                    transfers: BondTransfers {
                        runway: plan.runway_fee_amount,
                        reserve: plan.base_pool_amount,
                        surplus: plan.growth_pool_amount,
                    },
                },
            ),
        }
    }
}

/// What a bond of `amount` in period `period_index` at time `now` does, or
/// the error it is rejected with.
pub open spec fn bond_spec(ctx: Bond, id: Seq<u8>, amount: u64, period_index: u8, now: i64) -> Result<
    BondOutcome,
    CustomErrorCode,
> {
    if id.len() > COUPON_ID_LEN {
        Err(CustomErrorCode::InvalidIdLength)
    } else if amount == 0 {
        Err(CustomErrorCode::AmountIsZeroError)
    } else if period_index >= PERIOD_COUNT {
        Err(CustomErrorCode::PeriodLengthError)
    } else if !ctx.token_state.period_enabled@[period_index as int] {
        Err(CustomErrorCode::DisabledPeriodError)
    } else {
        match bond_plan_spec(ctx.token_state, amount, period_index as int) {
            Err(e) => Err(e),
            Ok(plan) => commit_spec(ctx, plan, amount, period_index, now),
        }
    }
}

/// The exact effect of `handle`: on success the records `bond_spec` gives
/// (with the coupon named `id`), on failure nothing changed.
pub open spec fn bond_post(
    before: Bond,
    after: Bond,
    id: Seq<u8>,
    amount: u64,
    period_index: u8,
    now: i64,
    r: Result<BondTransfers, CustomErrorCode>,
) -> bool {
    match r {
        Ok(transfers) => {
            let out = bond_spec(before, id, amount, period_index, now)->Ok_0;
            &&& bond_spec(before, id, amount, period_index, now) is Ok
            &&& transfers == out.transfers
            &&& after.token_state == out.token_state
            &&& after.bond_vote == out.bond_vote
            &&& after.coupon == (BondCoupon { id: after.coupon.id, ..out.coupon })
            &&& after.coupon.id@ == padded(id, 10)
            &&& after.user == before.user
            &&& after.token_state_address == before.token_state_address
        },
        Err(e) => {
            &&& bond_spec(before, id, amount, period_index, now) == Err::<
                BondOutcome,
                CustomErrorCode,
            >(e)
            &&& after == before
        },
    }
}

/// The laws every bond keeps: the reserve and surplus totals grow by exactly
/// the quote bonded after the runway fee, each by what is moved into it;
/// `total_emissions` stays within `mps`; the coupon vests exactly the new
/// emissions; and a bond whose full reward would overshoot `next_halving`
/// emits up to it exactly and moves the token one epoch on.
pub open spec fn bond_laws(
    ctx_before: Bond,
    ctx_after: Bond,
    amount: u64,
    period_index: u8,
    r: Result<BondTransfers, CustomErrorCode>,
) -> bool {
    let (before, after) = (ctx_before.token_state, ctx_after.token_state);
    &&& r is Ok ==> {
        let t = r->Ok_0;
        &&& after.total_reserve + after.total_surplus_reserve == before.total_reserve
            + before.total_surplus_reserve + after.quote_bonded - before.quote_bonded
        &&& after.total_reserve - before.total_reserve == t.reserve
        &&& after.total_surplus_reserve - before.total_surplus_reserve == t.surplus
        &&& after.total_runway_reserve - before.total_runway_reserve == t.runway
        &&& after.total_emissions <= after.mps
        &&& ctx_after.coupon.tokens_to_redeem == after.total_emissions - before.total_emissions
    }
    &&& r is Ok && bond_reward_spec(
        amount,
        before.bonding_cost,
        before.emission_rate,
        before.period_multipliers@[period_index as int] as u64,
        before.reward_bps,
    )->Ok_0 > before.next_halving - before.total_emissions ==> {
        &&& after.total_emissions == before.next_halving
        &&& after.epoch_count == before.epoch_count + 1
    }
}

/// Bonds `amount` of quote in period `period_index` at time `now`, filling
/// `ctx.coupon` with a coupon named `id`. Returns the quote to move to the
/// runway, reserve and surplus accounts.
///
/// On success the reserve and surplus totals grow by exactly the quote bonded
/// after the runway fee, `total_emissions` stays within `mps`, and a bond
/// whose reward would overshoot `next_halving` emits up to it exactly and
/// moves the token one epoch on. On failure nothing changes.
pub fn handle(ctx: &mut Bond, id: &[u8], amount: u64, period_index: u8, now: i64) -> (r: Result<
    BondTransfers,
    CustomErrorCode,
>)
    requires
        old(ctx).token_state.wf(),
    ensures
        bond_post(*old(ctx), *final(ctx), id@, amount, period_index, now, r),
        final(ctx).token_state.wf(),
        bond_laws(*old(ctx), *final(ctx), amount, period_index, r),
{
    if id.len() > COUPON_ID_LEN {
        return Err(CustomErrorCode::InvalidIdLength);
    }
    let id_data = pad_id_10(id);
    if amount == 0 {
        return Err(CustomErrorCode::AmountIsZeroError);
    }
    if period_index as usize >= PERIOD_COUNT {
        return Err(CustomErrorCode::PeriodLengthError);
    }
    let p = period_index as usize;
    if !ctx.token_state.period_enabled[p] {
        return Err(CustomErrorCode::DisabledPeriodError);
    }
    let s = ctx.token_state;
    let plan = plan_bond(&s, amount, p)?;

    // every counter is computed before any is written
    let quote_bonded = s.quote_bonded.checked_add(plan.amount_post_fee).or_arith_error()?;
    let total_runway_reserve = s.total_runway_reserve.checked_add(
        plan.runway_fee_amount,
    ).or_arith_error()?;
    let total_reserve = s.total_reserve.checked_add(plan.base_pool_amount).or_arith_error()?;
    let total_surplus_reserve = s.total_surplus_reserve.checked_add(
        plan.growth_pool_amount,
    ).or_arith_error()?;
    let reserve_delta = total_reserve - s.total_reserve;
    let surplus_delta = total_surplus_reserve - s.total_surplus_reserve;
    if reserve_delta.checked_add(surplus_delta) != Some(plan.amount_post_fee) {
        return Err(CustomErrorCode::ReserveDeltaMismatchError);
    }
    let bond_coupon_count = s.bond_coupon_count.checked_add(1).or_arith_error()?;
    let redemption_date = now.checked_add(s.period_lengths[p]).or_arith_error()?;
    let current_epoch_emissions = if plan.epoch_transition {
        0
    } else {
        s.current_epoch_emissions.checked_add(plan.reward).or_arith_error()?
    };
    let vote_open = now < s.voting_enabled_date;
    let bond_vote = match ctx.bond_vote {
        Some(vote) => {
            if vote_open {
                let total_votes = vote.total_votes.saturating_add(amount);
                Some(BondVote { total_votes, ..vote })
            } else {
                Some(vote)
            }
        },
        None => None,
    };
    let advance = if plan.epoch_transition {
        advance_epoch(&s)?
    } else {
        EpochAdvance {
            epoch_count: s.epoch_count,
            total_epoch_emissions: s.total_epoch_emissions,
            next_halving: s.next_halving,
            emission_rate: s.emission_rate,
        }
    };

    ctx.token_state = TokenState {
        total_emissions: plan.new_total_emissions,
        mps: plan.new_mps,
        quote_bonded,
        total_runway_reserve,
        total_reserve,
        total_surplus_reserve,
        bond_coupon_count,
        epoch_count: advance.epoch_count,
        total_epoch_emissions: advance.total_epoch_emissions,
        next_halving: advance.next_halving,
        emission_rate: advance.emission_rate,
        current_epoch_emissions,
        ..s
    };
    ctx.coupon = BondCoupon {
        redemption_date,
        is_redeemed: false,
        period_index,
        coupon_count: bond_coupon_count,
        tokens_to_redeem: plan.reward,
        redeemer_address: ctx.user,
        token_state_address: ctx.token_state_address,
        coupon_bump: ctx.coupon.coupon_bump,
        id: id_data,
    };
    ctx.bond_vote = bond_vote;
    Ok(
        BondTransfers {
            runway: plan.runway_fee_amount,
            reserve: plan.base_pool_amount,
            surplus: plan.growth_pool_amount,
        },
    )
}

} // verus!
