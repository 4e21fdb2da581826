//! Creation of a token's economic state from its validated parameters.
use vstd::prelude::*;

use crate::calculations::lemma_geometric_first_epoch;
use crate::errors::{CustomErrorCode, OrArithError};
use crate::params::CreateBondingTokenParams;
use crate::structs::{
    pad_id_20, padded, Address, TokenState, TokenTracker, TokenTrackerBase, STATE_ID_LEN,
};

verus! {

/// The denominator of fees, splits and multipliers of a new token.
pub const BPS: u32 = 100000;

/// The accounts a token creation reads and writes.
#[derive(Clone, Copy, Debug)]
pub struct CreateBondingToken {
    pub creator: Address,
    pub token_tracker_base: TokenTrackerBase,
    /// The index entry this creation fills in.
    pub token_tracker: TokenTracker,
    pub token_state_address: Address,
    /// The state this creation fills in.
    pub token_state: TokenState,
    pub base_mint: Address,
    pub base_token_vault: Address,
    pub quote_mint: Address,
    pub quote_reserve_token_address: Address,
    pub quote_surplus_token_address: Address,
    pub quote_runway_token_address: Address,
    pub token_state_bump: u8,
    pub base_token_vault_bump: u8,
    pub token_tracker_bump: u8,
}

/// The first failure of `params`, if any.
pub open spec fn validate_spec(params: CreateBondingTokenParams) -> Result<(), CustomErrorCode> {
    if params.next_halving == 0 || params.emission_rate == 0 || params.bonding_cost == 0 {
        Err(CustomErrorCode::ZeroError)
    } else if params.initial_reserve > params.next_halving {
        Err(CustomErrorCode::InitialReserveTooLargeError)
    } else {
        Ok(())
    }
}

/// Rejects a schedule with a zero threshold, rate or cost, or with an initial
/// reserve beyond the first threshold.
pub fn validate(params: CreateBondingTokenParams) -> (r: Result<(), CustomErrorCode>)
    ensures
        r == validate_spec(params),
{
    if params.next_halving == 0 {
        return Err(CustomErrorCode::ZeroError);
    }
    if params.emission_rate == 0 {
        return Err(CustomErrorCode::ZeroError);
    }
    if params.bonding_cost == 0 {
        return Err(CustomErrorCode::ZeroError);
    }
    if params.initial_reserve > params.next_halving {
        return Err(CustomErrorCode::InitialReserveTooLargeError);
    }
    Ok(())
}

/// `who` is one of the identities allowed to create trackers and tokens.
pub open spec fn is_authority(who: Address, authorities: Seq<Address>) -> bool {
    exists|i: int| 0 <= i < authorities.len() && authorities[i].bytes@ == who.bytes@
}

/// Whether `who` is among `authorities`.
pub fn is_authorized(who: &Address, authorities: &[Address]) -> (r: bool)
    ensures
        r == is_authority(*who, authorities@),
{
    let mut i: usize = 0;
    while i < authorities.len()
        invariant
            i <= authorities@.len(),
            forall|j: int| 0 <= j < i ==> authorities@[j].bytes@ != who.bytes@,
        decreases authorities@.len() - i,
    {
        if authorities[i] == *who {
            return true;
        }
        i = i + 1;
    }
    false
}

/// The token state a creation writes; its `id` is set apart.
pub open spec fn new_token_state(
    ctx: CreateBondingToken,
    params: CreateBondingTokenParams,
    state_index: u64,
) -> TokenState {
    TokenState {
        base_mint_address: ctx.base_mint,
        base_mint_token_address: ctx.base_token_vault,
        quote_mint_address: ctx.quote_mint,
        token_state_bump: ctx.token_state_bump,
        base_token_vault_bump: ctx.base_token_vault_bump,
        quote_reserve_token_address: ctx.quote_reserve_token_address,
        total_reserve: 0,
        quote_surplus_token_address: ctx.quote_surplus_token_address,
        total_surplus_reserve: 0,
        quote_runway_token_address: ctx.quote_runway_token_address,
        total_runway_reserve: 0,
        creator_address: ctx.creator,
        epoch_count: 0,
        next_halving: params.next_halving,
        current_epoch_emissions: params.initial_reserve,
        total_epoch_emissions: params.next_halving,
        total_redeemed: 0,
        bond_coupon_count: 0,
        total_topup: 0,
        quote_bonded: 0,
        total_emissions: params.initial_reserve,
        initial_reserve: params.initial_reserve,
        mps: params.initial_reserve,
        avg_price: 0,
        floor_price: 0,
        genesis_supply: params.next_halving,
        genesis_emission_rate: params.emission_rate,
        emission_rate: params.emission_rate,
        bonding_cost: params.bonding_cost,
        halving_series: params.halving_series,
        period_lengths: params.period_lengths,
        period_multipliers: params.period_multipliers,
        treasury_split: params.treasury_split,
        period_enabled: params.period_enabled,
        voting_enabled_date: params.voting_enabled_date,
        updates_allowed: params.updates_allowed,
        launch_date: params.launch_date,
        runway_fee: params.runway_fee,
        fee_bps: BPS,
        reward_bps: BPS,
        state_index,
        id: ctx.token_state.id,
    }
}

/// What creating a token named `id` does, or the error it is rejected with.
/// The `id` fields of the written state and tracker are set apart.
pub open spec fn create_spec(
    ctx: CreateBondingToken,
    id: Seq<u8>,
    params: CreateBondingTokenParams,
    authorities: Seq<Address>,
) -> Result<CreateBondingToken, CustomErrorCode> {
    let index = ctx.token_tracker_base.index + 1;
    if !is_authority(ctx.creator, authorities) {
        Err(CustomErrorCode::InvalidCreator)
    } else if validate_spec(params) is Err {
        Err(validate_spec(params)->Err_0)
    } else if id.len() >= STATE_ID_LEN {
        Err(CustomErrorCode::InvalidIdLength)
    } else if index > u64::MAX {
        Err(CustomErrorCode::ArithmeticError)
    } else if ctx.base_mint.bytes@ == ctx.quote_mint.bytes@ {
        Err(CustomErrorCode::BaseAndQuoteMatch)
    } else if params.runway_fee > BPS {
        Err(CustomErrorCode::RunwayFeeError)
    } else {
        Ok(
            CreateBondingToken {
                token_tracker_base: TokenTrackerBase {
                    index: index as u64,
                    ..ctx.token_tracker_base
                },
                token_tracker: TokenTracker {
                    token_state: ctx.token_state_address,
                    id: ctx.token_tracker.id,
                    index: index as u64,
                    token_tracker_bump: ctx.token_tracker_bump,
                },
                token_state: new_token_state(ctx, params, index as u64),
                ..ctx
            },
        )
    }
}

/// The exact effect of `handle`: on success the records `create_spec` gives,
/// with the state and tracker named `id`; on failure nothing changed.
pub open spec fn create_post(
    before: CreateBondingToken,
    after: CreateBondingToken,
    id: Seq<u8>,
    params: CreateBondingTokenParams,
    authorities: Seq<Address>,
    r: Result<(), CustomErrorCode>,
) -> bool {
    &&& !is_authority(before.creator, authorities) ==> r == Err::<(), CustomErrorCode>(
        CustomErrorCode::InvalidCreator,
    )
    &&& match r {
        Ok(()) => {
            let out = create_spec(before, id, params, authorities)->Ok_0;
            &&& create_spec(before, id, params, authorities) is Ok
            &&& after == (CreateBondingToken {
                token_state: TokenState { id: after.token_state.id, ..out.token_state },
                token_tracker: TokenTracker {
                    id: after.token_tracker.id,
                    ..out.token_tracker
                },
                ..out
            })
            &&& after.token_state.id@ == padded(id, 20)
            &&& after.token_tracker.id@ == padded(id, 20)
            &&& after.token_state.wf()
        },
        Err(e) => {
            &&& create_spec(before, id, params, authorities) == Err::<
                CreateBondingToken,
                CustomErrorCode,
            >(e)
            &&& after == before
        },
    }
}

/// Creates the economic state of a token named `id` from `params`, and its
/// entry under the base tracker. Only one of `authorities` may create a
/// token, whatever the tracker's index.
pub fn handle(
    ctx: &mut CreateBondingToken,
    id: &[u8],
    params: CreateBondingTokenParams,
    authorities: &[Address],
) -> (r: Result<(), CustomErrorCode>)
    ensures
        create_post(*old(ctx), *final(ctx), id@, params, authorities@, r),

{
    if !is_authorized(&ctx.creator, authorities) {
        return Err(CustomErrorCode::InvalidCreator);
    }
    validate(params)?;
    if id.len() >= STATE_ID_LEN {
        return Err(CustomErrorCode::InvalidIdLength);
    }
    let id_data = pad_id_20(id);
    let index = ctx.token_tracker_base.index.checked_add(1).or_arith_error()?;
    if ctx.base_mint == ctx.quote_mint {
        return Err(CustomErrorCode::BaseAndQuoteMatch);
    }
    if params.runway_fee > BPS {
        return Err(CustomErrorCode::RunwayFeeError);
    }
    proof {
        lemma_geometric_first_epoch(params.next_halving);
    }
    ctx.token_tracker_base.index = index;
    ctx.token_tracker = TokenTracker {
        token_state: ctx.token_state_address,
        id: id_data,
        index,
        token_tracker_bump: ctx.token_tracker_bump,
    };
    ctx.token_state = TokenState {
        base_mint_address: ctx.base_mint,
        base_mint_token_address: ctx.base_token_vault,
        quote_mint_address: ctx.quote_mint,
        token_state_bump: ctx.token_state_bump,
        base_token_vault_bump: ctx.base_token_vault_bump,
        quote_reserve_token_address: ctx.quote_reserve_token_address,
        total_reserve: 0,
        quote_surplus_token_address: ctx.quote_surplus_token_address,
        total_surplus_reserve: 0,
        quote_runway_token_address: ctx.quote_runway_token_address,
        total_runway_reserve: 0,
        creator_address: ctx.creator,
        epoch_count: 0,
        next_halving: params.next_halving,
        current_epoch_emissions: params.initial_reserve,
        total_epoch_emissions: params.next_halving,
        total_redeemed: 0,
        bond_coupon_count: 0,
        total_topup: 0,
        quote_bonded: 0,
        total_emissions: params.initial_reserve,
        initial_reserve: params.initial_reserve,
        mps: params.initial_reserve,
        avg_price: 0,
        floor_price: 0,
        genesis_supply: params.next_halving,
        genesis_emission_rate: params.emission_rate,
        emission_rate: params.emission_rate,
        bonding_cost: params.bonding_cost,
        halving_series: params.halving_series,
        period_lengths: params.period_lengths,
        period_multipliers: params.period_multipliers,
        treasury_split: params.treasury_split,
        period_enabled: params.period_enabled,
        voting_enabled_date: params.voting_enabled_date,
        updates_allowed: params.updates_allowed,
        launch_date: params.launch_date,
        runway_fee: params.runway_fee,
        fee_bps: BPS,
        reward_bps: BPS,
        state_index: index,
        id: id_data,
    };
    Ok(())
}

} // verus!
