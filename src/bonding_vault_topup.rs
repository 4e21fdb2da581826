//! Top-up: the creator deposits base into the bonding vault that coupons are
//! paid from.
use vstd::prelude::*;

use crate::errors::{CustomErrorCode, OrArithError};
use crate::structs::{Address, TokenState};

verus! {

/// The accounts a top-up reads and writes.
#[derive(Clone, Copy, Debug)]
pub struct BondingVaultTopup {
    /// The token's creator, who pays the base in.
    pub user: Address,
    pub token_state: TokenState,
}

/// The exact effect of `handle`: `total_topup` grows by `amount` where that
/// fits in a `u64`, and nothing changes otherwise.
pub open spec fn topup_post(
    before: BondingVaultTopup,
    after: BondingVaultTopup,
    amount: u64,
    r: Result<u64, CustomErrorCode>,
) -> bool {
    match r {
        Ok(moved) => {
            &&& moved == amount
            &&& before.token_state.total_topup + amount <= u64::MAX
            &&& after == (BondingVaultTopup {
                token_state: TokenState {
                    total_topup: (before.token_state.total_topup + amount) as u64,
                    ..before.token_state
                },
                ..before
            })
        },
        Err(e) => {
            &&& e == CustomErrorCode::ArithmeticError
            &&& before.token_state.total_topup + amount > u64::MAX
            &&& after == before
        },
    }
}

/// Records a deposit of `amount` base into the bonding vault. Returns the base
/// to move from the creator to the vault.
pub fn handle(ctx: &mut BondingVaultTopup, amount: u64) -> (r: Result<u64, CustomErrorCode>)
    ensures
        topup_post(*old(ctx), *final(ctx), amount, r),

{
    let total_topup = ctx.token_state.total_topup.checked_add(amount).or_arith_error()?;
    ctx.token_state.total_topup = total_topup;
    Ok(amount)
}

} // verus!
