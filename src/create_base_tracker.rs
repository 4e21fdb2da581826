//! Creation of the base tracker that tokens are indexed under.
use vstd::prelude::*;

use crate::create_bonding_token::{is_authority, is_authorized};
use crate::errors::CustomErrorCode;
use crate::structs::{pad_id_20, padded, Address, TokenTrackerBase, STATE_ID_LEN};

verus! {

/// Lamports in one SOL.
pub const LAMPORTS_PER_SOL: u64 = 1000000000;

/// The fee for creating a token under a tracker: 15 SOL.
pub const TRACKER_COST: u64 = 15 * LAMPORTS_PER_SOL;

/// The accounts a tracker creation reads and writes.
#[derive(Clone, Copy, Debug)]
pub struct CreateBaseTracker {
    pub creator: Address,
    /// The token account creation fees are paid into.
    pub payment_token_address: Address,
    /// The tracker this creation fills in.
    pub token_tracker_base: TokenTrackerBase,
    pub token_tracker_bump: u8,
}

/// The exact effect of `handle`: a fresh tracker named `id`; or, changing
/// nothing, `InvalidCreator` for a creator outside `authorities` and
/// `InvalidIdLength` for an id too long.
pub open spec fn create_tracker_post(
    before: CreateBaseTracker,
    after: CreateBaseTracker,
    id: Seq<u8>,
    authorities: Seq<Address>,
    r: Result<(), CustomErrorCode>,
) -> bool {
    match r {
        Ok(()) => {
            &&& is_authority(before.creator, authorities)
            &&& id.len() <= STATE_ID_LEN
            &&& after == (CreateBaseTracker {
                token_tracker_base: TokenTrackerBase {
                    id: after.token_tracker_base.id,
                    index: 0,
                    token_tracker_bump: before.token_tracker_bump,
                    auth_wallet: before.creator,
                    receive_token_account: before.payment_token_address,
                    total_received: 0,
                    cost: TRACKER_COST,
                    enabled: false,
                    ..before.token_tracker_base
                },
                ..before
            })
            &&& after.token_tracker_base.id@ == padded(id, 20)
        },
        Err(e) => {
            &&& e == (if !is_authority(before.creator, authorities) {
                CustomErrorCode::InvalidCreator
            } else {
                CustomErrorCode::InvalidIdLength
            })
            &&& (!is_authority(before.creator, authorities) || id.len() > STATE_ID_LEN)
            &&& after == before
        },
    }
}

/// Creates a base tracker named `id`, owned by the creator, disabled and
/// with no token under it yet. Only one of `authorities` may create one.
pub fn handle(ctx: &mut CreateBaseTracker, id: &[u8], authorities: &[Address]) -> (r: Result<
    (),
    CustomErrorCode,
>)
    ensures
        create_tracker_post(*old(ctx), *final(ctx), id@, authorities@, r),
{
    if !is_authorized(&ctx.creator, authorities) {
        return Err(CustomErrorCode::InvalidCreator);
    }
    if id.len() > STATE_ID_LEN {
        return Err(CustomErrorCode::InvalidIdLength);
    }
    let tracker = &mut ctx.token_tracker_base;
    tracker.token_tracker_bump = ctx.token_tracker_bump;
    tracker.index = 0;
    tracker.id = pad_id_20(id);
    tracker.auth_wallet = ctx.creator;
    tracker.receive_token_account = ctx.payment_token_address;
    tracker.cost = TRACKER_COST;
    tracker.enabled = false;
    tracker.total_received = 0;
    Ok(())
}

} // verus!
