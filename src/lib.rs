//! Emission and treasury accounting for a bonding-curve token sale.
//!
//! A token sells its base asset against a quote asset. Bonding quote vests
//! newly emitted base in a time-locked coupon; emissions halve from epoch to
//! epoch; bonded quote is split between a runway fee, a backing reserve and a
//! surplus. Every operation computes its effect in checked integer arithmetic
//! and either commits all of it or fails with an error and changes nothing.
//! Moving tokens between accounts is left to the caller: operations return
//! the amounts to move.
use vstd::prelude::*;

pub mod bond;
pub mod bonding_vault_topup;
pub mod calculations;
pub mod create_base_tracker;
pub mod create_bonding_token;
pub mod create_vote_account;
pub mod errors;
pub mod params;
pub mod redeem_coupon;
pub mod structs;

use crate::bond::{bond_laws, bond_post, Bond, BondTransfers};
use crate::bonding_vault_topup::{topup_post, BondingVaultTopup};
use crate::create_base_tracker::{create_tracker_post, CreateBaseTracker};
use crate::create_bonding_token::{create_post, CreateBondingToken};
use crate::create_vote_account::{create_vote_post, CreateVoteAccount};
use crate::errors::CustomErrorCode;
use crate::params::CreateBondingTokenParams;
use crate::structs::Address;

verus! {

/// Creates a base tracker named `id`; only one of `authorities` may.
pub fn create_base_tracker(ctx: &mut CreateBaseTracker, id: &[u8], authorities: &[Address]) -> (r:
    Result<(), CustomErrorCode>)
    ensures
        create_tracker_post(*old(ctx), *final(ctx), id@, authorities@, r),
{
    create_base_tracker::handle(ctx, id, authorities)
}

/// Creates a token named `id` with schedule `params`; only one of
/// `authorities` may.
pub fn create_bonding_token(
    ctx: &mut CreateBondingToken,
    id: &[u8],
    params: CreateBondingTokenParams,
    authorities: &[Address],
) -> (r: Result<(), CustomErrorCode>)
    ensures
        create_post(*old(ctx), *final(ctx), id@, params, authorities@, r),
{
    create_bonding_token::handle(ctx, id, params, authorities)
}

/// Creates a vote counter named `id` for a token.
pub fn create_vote_account(ctx: &mut CreateVoteAccount, id: &[u8]) -> (r: Result<
    (),
    CustomErrorCode,
>)
    ensures
        create_vote_post(*old(ctx), *final(ctx), id@, r),
{
    create_vote_account::handle(ctx, id)
}

/// Records a deposit of `amount` base into a token's bonding vault.
pub fn bonding_vault_topup(ctx: &mut BondingVaultTopup, amount: u64) -> (r: Result<
    u64,
    CustomErrorCode,
>)
    ensures
        topup_post(*old(ctx), *final(ctx), amount, r),
{
    bonding_vault_topup::handle(ctx, amount)
}

/// Bonds `amount` of quote in period `period_index` at time `now`, keeping
/// the laws of `bond_laws` and the invariants of `TokenState::wf`.
pub fn bond(ctx: &mut Bond, id: &[u8], amount: u64, period_index: u8, now: i64) -> (r: Result<
    BondTransfers,
    CustomErrorCode,
>)
    requires
        old(ctx).token_state.wf(),
    ensures
        bond_post(*old(ctx), *final(ctx), id@, amount, period_index, now, r),
        bond_laws(*old(ctx), *final(ctx), amount, period_index, r),
        final(ctx).token_state.wf(),
{
    bond::handle(ctx, id, amount, period_index, now)
}

} // verus!
