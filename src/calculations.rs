//! The arithmetic kernel: the checked integer formulas of the emission curve,
//! the bonding price and the treasury split.
//!
//! Every function fails with `ArithmeticError` where a step would overflow,
//! underflow or divide by zero, instead of wrapping or panicking.
use vstd::arithmetic::power::{lemma_pow_increases, lemma_pow_positive, pow};
use vstd::arithmetic::power2::{
    lemma2_to64, lemma_pow2, lemma_pow2_pos, lemma_pow2_strictly_increases, pow2,
};
use vstd::prelude::*;

use crate::errors::{CustomErrorCode, OrArithError};

verus! {

/// How the total supply that closes an epoch is summed over the halving series.
#[derive(Clone, Copy, Debug, Default, PartialEq, Eq, Structural)]
pub enum HalvingSeries {
    /// Each term `1 / 2^n` is taken in integer division, so every term after
    /// the first is zero: the supply is `genesis_supply` for any epoch from 1
    /// on, and the threshold on total emissions never moves past it.
    #[default]
    Truncated,
    /// The terms are `genesis_supply / 2^n`, summed: the supply emitted by the
    /// first epochs of a true halving schedule.
    Geometric,
}

/// The result of an arithmetic step that failed.
pub open spec fn arith_err() -> Result<u64, CustomErrorCode> {
    Err(CustomErrorCode::ArithmeticError)
}

/// `value / 2^epoch`, defined where `2^epoch` fits in a `u64`.
pub open spec fn halving_spec(epoch: u32, value: u64) -> Result<u64, CustomErrorCode> {
    if epoch >= 64 {
        arith_err()
    } else {
        Ok((value as int / pow2(epoch as nat) as int) as u64)
    }
}

/// `genesis_supply * sum(1 / 2^n for n < epoch)` with each term truncated.
pub open spec fn total_emissions_at_epoch_spec(genesis_supply: u64, epoch: u32) -> Result<
    u64,
    CustomErrorCode,
> {
    if epoch > 64 {
        arith_err()
    } else if epoch == 0 {
        Ok(0)
    } else {
        Ok(genesis_supply)
    }
}

/// `sum(genesis_supply / 2^n for n < epoch)`, each term rounded down.
pub open spec fn geometric_sum(genesis_supply: u64, epoch: nat) -> int
    decreases epoch,
{
    if epoch == 0 {
        0
    } else {
        geometric_sum(genesis_supply, (epoch - 1) as nat) + genesis_supply as int / pow2(
            (epoch - 1) as nat,
        ) as int
    }
}

pub open spec fn geometric_emissions_at_epoch_spec(genesis_supply: u64, epoch: u32) -> Result<
    u64,
    CustomErrorCode,
> {
    if epoch > 64 || geometric_sum(genesis_supply, epoch as nat) > u64::MAX {
        arith_err()
    } else {
        Ok(geometric_sum(genesis_supply, epoch as nat) as u64)
    }
}

/// The supply emitted once `epoch` epochs are complete, summed as `series` says.
pub open spec fn emissions_at_epoch_spec(
    series: HalvingSeries,
    genesis_supply: u64,
    epoch: u32,
) -> Result<u64, CustomErrorCode> {
    match series {
        HalvingSeries::Truncated => total_emissions_at_epoch_spec(genesis_supply, epoch),
        HalvingSeries::Geometric => geometric_emissions_at_epoch_spec(genesis_supply, epoch),
    }
}

pub open spec fn surplus_spec(quote_bonded: u64, reserve: u64) -> Result<u64, CustomErrorCode> {
    if reserve > quote_bonded {
        arith_err()
    } else {
        Ok((quote_bonded - reserve) as u64)
    }
}

pub open spec fn reserve_spec(floor_price: u64, total_emissions: u64, quote_decimals: u8) -> Result<
    u64,
    CustomErrorCode,
> {
    if floor_price * total_emissions > u64::MAX || pow(10, quote_decimals as nat) > u64::MAX {
        arith_err()
    } else {
        Ok(((floor_price * total_emissions) / pow(10, quote_decimals as nat)) as u64)
    }
}

pub open spec fn floor_price_spec(quote_bonded: u64, mps: u64, quote_decimals: u8) -> Result<
    u64,
    CustomErrorCode,
> {
    if pow(10, quote_decimals as nat) > u64::MAX || quote_bonded * pow(10, quote_decimals as nat)
        > u64::MAX || mps == 0 {
        arith_err()
    } else {
        Ok(((quote_bonded * pow(10, quote_decimals as nat)) / (mps as int)) as u64)
    }
}

/// `amount * emissions / cost`, rounded down: the reward before the multiplier.
pub open spec fn base_reward(amount: u64, cost: u64, emissions: u64) -> int {
    (amount * emissions) / (cost as int)
}

pub open spec fn bond_reward_spec(
    amount: u64,
    cost: u64,
    emissions: u64,
    multiplier: u64,
    bps: u32,
) -> Result<u64, CustomErrorCode> {
    if cost == 0 || bps == 0 || base_reward(amount, cost, emissions) * multiplier > u128::MAX || (
    base_reward(amount, cost, emissions) * multiplier) / (bps as int) > u64::MAX {
        arith_err()
    } else {
        Ok(((base_reward(amount, cost, emissions) * multiplier) / (bps as int)) as u64)
    }
}

pub open spec fn bond_amount_spec(
    bond_reward: u64,
    cost: u64,
    emissions: u64,
    multiplier: u64,
    bps: u32,
) -> Result<u64, CustomErrorCode> {
    if bps * bond_reward > u64::MAX || bps * bond_reward * cost > u64::MAX || multiplier * emissions
        > u64::MAX || multiplier * emissions == 0 {
        arith_err()
    } else {
        Ok(((bps * bond_reward * cost) / (multiplier * emissions)) as u64)
    }
}

pub open spec fn fee_spec(amount: u64, fee_rate: u64, max_bps: u64) -> Result<u64, CustomErrorCode> {
    if amount * fee_rate > u64::MAX || max_bps == 0 {
        arith_err()
    } else {
        Ok(((amount * fee_rate) / (max_bps as int)) as u64)
    }
}

/// `base^exp`, or `None` where it does not fit in a `u64`.
fn checked_pow(base: u64, exp: u32) -> (r: Option<u64>)
    ensures
        r == (if pow(base as int, exp as nat) <= u64::MAX {
            Some(pow(base as int, exp as nat) as u64)
        } else {
            None::<u64>
        }),
{
    let mut acc: u64 = 1;
    let mut i: u32 = 0;
    proof {
        reveal(pow);
    }
    while i < exp
        invariant
            i <= exp,
            acc == pow(base as int, i as nat),
        decreases exp - i,
    {
        proof {
            reveal(pow);
            assert(pow(base as int, (i + 1) as nat) == base * pow(base as int, i as nat));
        }
        match base.checked_mul(acc) {
            Some(v) => {
                acc = v;
            },
            None => {
                proof {
                    assert(base > 0);
                    lemma_pow_increases(base as nat, (i + 1) as nat, exp as nat);
                }
                return None;
            },
        }
        i = i + 1;
    }
    Some(acc)
}

/// `2^e` fits in a `u64` exactly when `e < 64`.
proof fn lemma_pow2_fits(e: nat)
    ensures
        pow(2, e) == pow2(e),
        e < 64 <==> pow(2, e) <= u64::MAX,
{
    lemma_pow2(e);
    lemma2_to64();
    if e < 64 {
        lemma_pow2_strictly_increases(e, 64);
    } else if e > 64 {
        lemma_pow2_strictly_increases(64, e);
    }
}

/// `value / 2^epoch`, shared by the two halving schedules.
fn halve_by_epoch(epoch: u32, value: u64) -> (r: Result<u64, CustomErrorCode>)
    ensures
        r == halving_spec(epoch, value),
{
    proof {
        lemma_pow2_fits(epoch as nat);
        lemma_pow2_pos(epoch as nat);
    }
    let divisor = checked_pow(2, epoch).or_arith_error()?;
    let halved = value.checked_div(divisor).or_arith_error()?;
    Ok(halved)
}

/// The supply emitted once `epoch` epochs are complete, with every term of the
/// halving series truncated to an integer: `0` at epoch 0, `genesis_supply`
/// for epochs 1 to 64, and an error from epoch 65 on, where `2^n` overflows.
pub fn total_emissions_at_epoch(genesis_supply: u64, epoch: u32) -> (r: Result<u64, CustomErrorCode>)
    ensures
        r == total_emissions_at_epoch_spec(genesis_supply, epoch),
{
    let mut sum: u64 = 0;
    let mut n: u32 = 0;
    while n < epoch
        invariant
            n <= epoch,
            n <= 64,
            sum == (if n == 0 { 0u64 } else { 1u64 }),
        decreases epoch - n,
    {
        proof {
            lemma_pow2_fits(n as nat);
            lemma_pow2_pos(n as nat);
        }
        let divisor = checked_pow(2, n).or_arith_error()?;
        proof {
            lemma2_to64();
            if n > 0 {
                lemma_pow2_strictly_increases(0, n as nat);
            }
        }
        proof {
            if n > 0 {
                assert(divisor >= 2);
            } else {
                assert(divisor == 1);
            }
        }
        let term = 1u64.checked_div(divisor).or_arith_error()?;
        proof {
            assert(term == (if n == 0 { 1u64 } else { 0u64 })) by (nonlinear_arith)
                requires
                    term == 1int / (divisor as int),
                    n > 0 ==> divisor >= 2,
                    n == 0 ==> divisor == 1,
            ;
        }
        sum = sum.checked_add(term).or_arith_error()?;
        n = n + 1;
    }
    let supply = genesis_supply.checked_mul(sum).or_arith_error()?;
    Ok(supply)
}

/// The first epoch of the geometric series supplies `genesis_supply` itself.
pub proof fn lemma_geometric_first_epoch(genesis_supply: u64)
    ensures
        geometric_sum(genesis_supply, 1) == genesis_supply,
{
    lemma2_to64();
    assert(geometric_sum(genesis_supply, 0) == 0);
    assert(genesis_supply as int / pow2(0) as int == genesis_supply);
}

/// From epoch 64 on every term `genesis_supply / 2^n` is zero, so the
/// geometric supply no longer grows.
pub proof fn lemma_geometric_sum_settles(genesis_supply: u64, epoch: nat)
    requires
        epoch >= 64,
    ensures
        geometric_sum(genesis_supply, epoch) == geometric_sum(genesis_supply, 64),
    decreases epoch,
{
    if epoch > 64 {
        lemma2_to64();
        if epoch - 1 > 64 {
            lemma_pow2_strictly_increases(64, (epoch - 1) as nat);
        }
        let d = pow2((epoch - 1) as nat) as int;
        assert(genesis_supply as int / d == 0) by (nonlinear_arith)
            requires
                d > genesis_supply,
                genesis_supply >= 0,
        ;
        lemma_geometric_sum_settles(genesis_supply, (epoch - 1) as nat);
    }
}

/// The geometric supply only grows with the number of epochs summed.
pub proof fn lemma_geometric_sum_grows(genesis_supply: u64, e1: nat, e2: nat)
    requires
        e1 <= e2,
    ensures
        geometric_sum(genesis_supply, e1) <= geometric_sum(genesis_supply, e2),
    decreases e2 - e1,
{
    if e1 < e2 {
        lemma_pow2_pos((e2 - 1) as nat);
        lemma_geometric_sum_grows(genesis_supply, e1, (e2 - 1) as nat);
    }
}

/// The supply emitted once `epoch` epochs are complete, as the sum of each
/// epoch's own emissions `genesis_supply / 2^n`.
pub fn geometric_emissions_at_epoch(genesis_supply: u64, epoch: u32) -> (r: Result<
    u64,
    CustomErrorCode,
>)
    ensures
        r == geometric_emissions_at_epoch_spec(genesis_supply, epoch),
{
    let mut sum: u64 = 0;
    let mut n: u32 = 0;
    while n < epoch
        invariant
            n <= epoch,
            n <= 64,
            sum == geometric_sum(genesis_supply, n as nat),
        decreases epoch - n,
    {
        let term = match halve_by_epoch(n, genesis_supply) {
            Ok(t) => t,
            Err(e) => {
                proof {
                    assert(n == 64);
                }
                return Err(e);
            },
        };
        proof {
            let d = pow2(n as nat) as int;
            lemma_pow2_pos(n as nat);
            assert(0 <= genesis_supply as int / d <= genesis_supply) by (nonlinear_arith)
                requires
                    d > 0,
            ;
            assert(geometric_sum(genesis_supply, (n + 1) as nat) == geometric_sum(
                genesis_supply,
                n as nat,
            ) + term);
        }
        match sum.checked_add(term) {
            Some(s) => {
                sum = s;
            },
            None => {
                proof {
                    lemma_geometric_sum_grows(genesis_supply, (n + 1) as nat, epoch as nat);
                }
                return Err(CustomErrorCode::ArithmeticError);
            },
        }
        n = n + 1;
    }
    Ok(sum)
}

/// The supply emitted once `epoch` epochs are complete, summed as `series` says.
pub fn emissions_at_epoch(series: HalvingSeries, genesis_supply: u64, epoch: u32) -> (r: Result<
    u64,
    CustomErrorCode,
>)
    ensures
        r == emissions_at_epoch_spec(series, genesis_supply, epoch),
{
    match series {
        HalvingSeries::Truncated => total_emissions_at_epoch(genesis_supply, epoch),
        HalvingSeries::Geometric => geometric_emissions_at_epoch(genesis_supply, epoch),
    }
}

/// The total emissions at which `epoch` ends, for `epoch >= 1`: the truncated
/// series stays at `genesis_supply`, the geometric one sums the epochs up to
/// and including `epoch`.
pub open spec fn next_halving_spec(series: HalvingSeries, genesis_supply: u64, epoch: u32) -> Result<
    u64,
    CustomErrorCode,
> {
    match series {
        HalvingSeries::Truncated => total_emissions_at_epoch_spec(genesis_supply, epoch),
        HalvingSeries::Geometric => if epoch == u32::MAX {
            arith_err()
        } else {
            geometric_emissions_at_epoch_spec(genesis_supply, (epoch + 1) as u32)
        },
    }
}

/// The threshold on total emissions that ends `epoch`, for `epoch >= 1`.
pub fn next_halving_at(series: HalvingSeries, genesis_supply: u64, epoch: u32) -> (r: Result<
    u64,
    CustomErrorCode,
>)
    ensures
        r == next_halving_spec(series, genesis_supply, epoch),
{
    match series {
        HalvingSeries::Truncated => total_emissions_at_epoch(genesis_supply, epoch),
        HalvingSeries::Geometric => {
            if epoch == u32::MAX {
                return Err(CustomErrorCode::ArithmeticError);
            }
            geometric_emissions_at_epoch(genesis_supply, epoch + 1)
        },
    }
}

/// The supply emitted during `epoch`: `genesis_emissions / 2^epoch`.
pub fn epoch_emissions(epoch: u32, genesis_emissions: u64) -> (r: Result<u64, CustomErrorCode>)
    ensures
        r == halving_spec(epoch, genesis_emissions),
{
    halve_by_epoch(epoch, genesis_emissions)
}

/// The emission rate of a bond during `epoch`: `genesis_emission_rate / 2^epoch`.
pub fn epoch_emission_rate(epoch: u32, genesis_emission_rate: u64) -> (r: Result<
    u64,
    CustomErrorCode,
>)
    ensures
        r == halving_spec(epoch, genesis_emission_rate),
{
    halve_by_epoch(epoch, genesis_emission_rate)
}

/// `quote_bonded - reserve`.
pub fn surplus(quote_bonded: u64, reserve: u64) -> (r: Result<u64, CustomErrorCode>)
    ensures
        r == surplus_spec(quote_bonded, reserve),
{
    let eq_final = quote_bonded.checked_sub(reserve).or_arith_error()?;
    Ok(eq_final)
}

/// `(floor_price * total_emissions) / 10^quote_decimals`.
pub fn reserve(floor_price: u64, total_emissions: u64, quote_decimals: u8) -> (r: Result<
    u64,
    CustomErrorCode,
>)
    ensures
        r == reserve_spec(floor_price, total_emissions, quote_decimals),
{
    let product = floor_price.checked_mul(total_emissions).or_arith_error()?;
    proof {
        lemma_pow_positive(10, quote_decimals as nat);
    }
    let scale = checked_pow(10, quote_decimals as u32).or_arith_error()?;
    let eq_final = product.checked_div(scale).or_arith_error()?;
    Ok(eq_final)
}

/// `(quote_bonded * 10^quote_decimals) / mps`; an error whenever `mps` is zero.
pub fn floor_price(quote_bonded: u64, mps: u64, quote_decimals: u8) -> (r: Result<
    u64,
    CustomErrorCode,
>)
    ensures
        r == floor_price_spec(quote_bonded, mps, quote_decimals),
        mps == 0 ==> r == Err::<u64, CustomErrorCode>(CustomErrorCode::ArithmeticError),
{
    proof {
        lemma_pow_positive(10, quote_decimals as nat);
    }
    let scale = checked_pow(10, quote_decimals as u32).or_arith_error()?;
    let scaled = quote_bonded.checked_mul(scale).or_arith_error()?;
    let eq_final = scaled.checked_div(mps).or_arith_error()?;
    Ok(eq_final)
}

/// `(((amount * emissions) / cost) * multiplier) / bps`, computed in 128 bits
/// and failing where the reward does not fit in a `u64`.
pub fn bond_reward(amount: u64, cost: u64, emissions: u64, multiplier: u64, bps: u32) -> (r: Result<
    u64,
    CustomErrorCode,
>)
    ensures
        r == bond_reward_spec(amount, cost, emissions, multiplier, bps),
{
    proof {
        assert(amount * emissions <= u64::MAX * u64::MAX) by (nonlinear_arith);
    }
    let eq_0 = (amount as u128).checked_mul(emissions as u128).or_arith_error()?;
    let eq_1 = eq_0.checked_div(cost as u128).or_arith_error()?;
    let eq_2 = eq_1.checked_mul(multiplier as u128).or_arith_error()?;
    let eq_final = eq_2.checked_div(bps as u128).or_arith_error()?;
    if eq_final > u64::MAX as u128 {
        return Err(CustomErrorCode::ArithmeticError);
    }
    Ok(eq_final as u64)
}

/// The inverse of `bond_reward`: `(bps * bond_reward * cost) / (multiplier * emissions)`.
pub fn bond_amount(bond_reward: u64, cost: u64, emissions: u64, multiplier: u64, bps: u32) -> (r:
    Result<u64, CustomErrorCode>)
    ensures
        r == bond_amount_spec(bond_reward, cost, emissions, multiplier, bps),
{
    let eq_0 = (bps as u64).checked_mul(bond_reward).or_arith_error()?;
    let eq_0 = eq_0.checked_mul(cost).or_arith_error()?;
    let eq_1 = multiplier.checked_mul(emissions).or_arith_error()?;
    let eq_final = eq_0.checked_div(eq_1).or_arith_error()?;
    Ok(eq_final)
}

/// The share `fee_rate / max_bps` of `amount`, rounded down.
pub fn fee(amount: u64, fee_rate: u64, max_bps: u64) -> (r: Result<u64, CustomErrorCode>)
    ensures
        r == fee_spec(amount, fee_rate, max_bps),
{
    let product = amount.checked_mul(fee_rate).or_arith_error()?;
    let res = product.checked_div(max_bps).or_arith_error()?;
    Ok(res)
}

/// Floor division bounds: `(x / d) * d <= x < (x / d) * d + d`.
proof fn lemma_floor_div(x: int, d: int)
    requires
        x >= 0,
        d > 0,
    ensures
        (x / d) * d <= x < (x / d) * d + d,
        x / d >= 0,
{
    assert((x / d) * d <= x < (x / d) * d + d && x / d >= 0) by (nonlinear_arith)
        requires
            x >= 0,
            d > 0,
    ;
}

/// `bond_amount` undoes `bond_reward` up to the rounding of their divisions:
/// the amount recovered from the reward of `amount` is never more than
/// `amount`, and falls short of it by less than
/// `(cost * multiplier + bps * cost) / (multiplier * emissions) + 1`.
pub proof fn lemma_bond_amount_inverts_bond_reward(
    amount: u64,
    cost: u64,
    emissions: u64,
    multiplier: u64,
    bps: u32,
)
    requires
        bond_reward_spec(amount, cost, emissions, multiplier, bps) is Ok,
        bond_amount_spec(
            bond_reward_spec(amount, cost, emissions, multiplier, bps)->Ok_0,
            cost,
            emissions,
            multiplier,
            bps,
        ) is Ok,
    ensures
        ({
            let back = bond_amount_spec(
                bond_reward_spec(amount, cost, emissions, multiplier, bps)->Ok_0,
                cost,
                emissions,
                multiplier,
                bps,
            )->Ok_0;
            &&& back <= amount
            &&& (amount - back) * (multiplier * emissions) < cost * multiplier + bps * cost
                + multiplier * emissions
        }),
{
    let a = amount as int;
    let c = cost as int;
    let e = emissions as int;
    let m = multiplier as int;
    let b = bps as int;
    let q = base_reward(amount, cost, emissions);
    let r = bond_reward_spec(amount, cost, emissions, multiplier, bps)->Ok_0 as int;
    let back = bond_amount_spec(r as u64, cost, emissions, multiplier, bps)->Ok_0 as int;
    let me = m * e;
    assert(a * e >= 0) by (nonlinear_arith)
        requires
            a >= 0,
            e >= 0,
    ;
    lemma_floor_div(a * e, c);
    assert(q * m >= 0) by (nonlinear_arith)
        requires
            q >= 0,
            m >= 0,
    ;
    lemma_floor_div(q * m, b);
    assert(b * r * c >= 0) by (nonlinear_arith)
        requires
            b >= 0,
            r >= 0,
            c >= 0,
    ;
    lemma_floor_div(b * r * c, me);
    assert(back * me <= b * r * c < back * me + me);
    assert(q * c <= a * e < q * c + c);
    assert(r * b <= q * m < r * b + b);
    // upper bound
    assert(b * r * c <= a * e * m) by (nonlinear_arith)
        requires
            r * b <= q * m,
            q * c <= a * e,
            c > 0,
            m > 0,
    ;
    assert(back <= a) by (nonlinear_arith)
        requires
            back * me <= b * r * c,
            b * r * c <= a * e * m,
            me == m * e,
            me > 0,
    ;
    // lower bound
    assert(a * e * m < b * r * c + b * c + c * m) by (nonlinear_arith)
        requires
            a * e < q * c + c,
            q * m < r * b + b,
            c > 0,
            m > 0,
    ;
    assert((a - back) * me < c * m + b * c + me) by (nonlinear_arith)
        requires
            a * e * m < b * r * c + b * c + c * m,
            b * r * c < back * me + me,
            me == m * e,
    ;
}

} // verus!
