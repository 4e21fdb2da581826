//! Creation of a vote counter attached to a token.
use vstd::prelude::*;

use crate::errors::CustomErrorCode;
use crate::structs::{pad_id_20, padded, Address, BondVote, STATE_ID_LEN};

verus! {

/// The accounts a vote-counter creation reads and writes.
#[derive(Clone, Copy, Debug)]
pub struct CreateVoteAccount {
    pub creator: Address,
    pub token_state_address: Address,
    /// The counter this creation fills in.
    pub bond_vote: BondVote,
    pub bond_vote_bump: u8,
}

/// The exact effect of `handle`: an empty counter named `id`, or an
/// `InvalidIdLength` that changes nothing.
pub open spec fn create_vote_post(
    before: CreateVoteAccount,
    after: CreateVoteAccount,
    id: Seq<u8>,
    r: Result<(), CustomErrorCode>,
) -> bool {
    match r {
        Ok(()) => {
            &&& id.len() < STATE_ID_LEN
            &&& after == (CreateVoteAccount {
                bond_vote: BondVote {
                    token_state_address: before.token_state_address,
                    id: after.bond_vote.id,
                    total_votes: 0,
                    bond_vote_bump: before.bond_vote_bump,
                },
                ..before
            })
            &&& after.bond_vote.id@ == padded(id, 20)
        },
        Err(e) => {
            &&& e == CustomErrorCode::InvalidIdLength
            &&& id.len() >= STATE_ID_LEN
            &&& after == before
        },
    }
}

/// Creates an empty vote counter named `id` for the token.
pub fn handle(ctx: &mut CreateVoteAccount, id: &[u8]) -> (r: Result<(), CustomErrorCode>)
    ensures
        create_vote_post(*old(ctx), *final(ctx), id@, r),

{
    if id.len() >= STATE_ID_LEN {
        return Err(CustomErrorCode::InvalidIdLength);
    }
    ctx.bond_vote = BondVote {
        token_state_address: ctx.token_state_address,
        id: pad_id_20(id),
        total_votes: 0,
        bond_vote_bump: ctx.bond_vote_bump,
    };
    Ok(())
}

} // verus!
