//! The records the engine reads and writes: the per-token economic state,
//! bond coupons, vote counters and the trackers that index tokens.
use vstd::prelude::*;

use crate::calculations::{
    geometric_emissions_at_epoch, geometric_sum, lemma_geometric_sum_grows,
    lemma_geometric_sum_settles, HalvingSeries,
};

verus! {

/// The number of bonding periods a token offers.
pub const PERIOD_COUNT: usize = 10;

/// The width of a coupon identifier, padded with spaces.
pub const COUPON_ID_LEN: usize = 10;

/// The width of a token, tracker or vote identifier, padded with spaces.
pub const STATE_ID_LEN: usize = 20;

/// A 32-byte account identity (an owner, a mint or a token account).
#[derive(Clone, Copy, Debug, Default)]
pub struct Address {
    pub bytes: [u8; 32],
}

impl PartialEq for Address {
    fn eq(&self, o: &Address) -> (r: bool)
        ensures
            r == (self.bytes@ == o.bytes@),
    {
        let mut i: usize = 0;
        while i < 32
            invariant
                i <= 32,
                forall|j: int| 0 <= j < i ==> self.bytes@[j] == o.bytes@[j],
            decreases 32 - i,
        {
            if self.bytes[i] != o.bytes[i] {
                return false;
            }
            i = i + 1;
        }
        assert(self.bytes@ =~= o.bytes@);
        true
    }
}

impl vstd::std_specs::cmp::PartialEqSpecImpl for Address {
    open spec fn obeys_eq_spec() -> bool {
        true
    }

    open spec fn eq_spec(&self, o: &Address) -> bool {
        self.bytes@ == o.bytes@
    }
}

/// The economic state of one issued token.
#[derive(Clone, Copy, Debug, Default)]
pub struct TokenState {
    // addresses
    pub base_mint_address: Address,
    pub base_mint_token_address: Address,
    pub quote_mint_address: Address,
    pub token_state_bump: u8,
    pub base_token_vault_bump: u8,
    pub quote_reserve_token_address: Address,
    pub total_reserve: u64,
    pub quote_surplus_token_address: Address,
    pub total_surplus_reserve: u64,
    pub quote_runway_token_address: Address,
    pub total_runway_reserve: u64,
    pub creator_address: Address,
    // running totals
    /// The current epoch.
    pub epoch_count: u32,
    /// The total emissions at which the current epoch ends.
    pub next_halving: u64,
    /// Emitted during the current epoch.
    pub current_epoch_emissions: u64,
    /// What the current epoch emits in all.
    pub total_epoch_emissions: u64,
    /// Base released to coupon holders.
    pub total_redeemed: u64,
    /// Coupons issued so far.
    pub bond_coupon_count: u64,
    /// Base deposited into the bonding vault.
    pub total_topup: u64,
    /// Quote bonded, after the runway fee.
    pub quote_bonded: u64,
    /// Emitted over all epochs.
    pub total_emissions: u64,
    /// Supply minted before the first bond.
    pub initial_reserve: u64,
    /// What `total_emissions` would be had every bond used the highest
    /// multiplier on offer.
    pub mps: u64,
    pub avg_price: u64,
    pub floor_price: u64,
    // schedule
    /// The supply of the first epoch, from which later thresholds are derived.
    pub genesis_supply: u64,
    /// The emission rate of the first epoch.
    pub genesis_emission_rate: u64,
    /// The emission rate of the current epoch.
    pub emission_rate: u64,
    /// The quote cost of one unit of emission rate.
    pub bonding_cost: u64,
    pub halving_series: HalvingSeries,
    // bonding periods
    pub period_lengths: [i64; 10],
    pub period_multipliers: [u32; 10],
    pub treasury_split: [u32; 10],
    pub period_enabled: [bool; 10],
    // controls
    pub voting_enabled_date: i64,
    pub updates_allowed: bool,
    pub launch_date: i64,
    pub runway_fee: u32,
    /// The denominator of the runway fee and of the treasury split.
    pub fee_bps: u32,
    /// The denominator of the period multipliers.
    pub reward_bps: u32,
    // indexing
    pub state_index: u64,
    pub id: [u8; 20],
}

/// The total emissions at which epoch `epoch` ends.
pub open spec fn halving_threshold(series: HalvingSeries, genesis_supply: u64, epoch: u32) -> int {
    match series {
        HalvingSeries::Truncated => genesis_supply as int,
        HalvingSeries::Geometric => geometric_sum(genesis_supply, (epoch + 1) as nat),
    }
}

impl TokenState {
    /// The invariants every bond and redemption relies on and preserves.
    pub open spec fn wf(&self) -> bool {
        &&& self.total_emissions <= self.mps
        &&& self.mps <= self.next_halving
        &&& self.next_halving == halving_threshold(
            self.halving_series,
            self.genesis_supply,
            self.epoch_count,
        )
        &&& self.fee_bps > 0
        &&& self.runway_fee <= self.fee_bps
    }

    /// Whether the state meets the invariants that bonding relies on.
    pub fn is_well_formed(&self) -> (r: bool)
        ensures
            r == self.wf(),
    {
        let bounds_hold = self.total_emissions <= self.mps && self.mps <= self.next_halving
            && self.fee_bps > 0 && self.runway_fee <= self.fee_bps;
        let threshold_holds = match self.halving_series {
            HalvingSeries::Truncated => self.next_halving == self.genesis_supply,
            HalvingSeries::Geometric => {
                let summed: u32 = if self.epoch_count < 64 {
                    self.epoch_count + 1
                } else {
                    64
                };
                proof {
                    lemma_geometric_sum_grows(self.genesis_supply, 0, summed as nat);
                    if self.epoch_count >= 64 {
                        lemma_geometric_sum_settles(
                            self.genesis_supply,
                            (self.epoch_count + 1) as nat,
                        );
                    }
                }
                match geometric_emissions_at_epoch(self.genesis_supply, summed) {
                    Ok(threshold) => self.next_halving == threshold,
                    Err(_) => false,
                }
            },
        };
        bounds_hold && threshold_holds
    }
}

/// A claim on `tokens_to_redeem` base units, released once after `redemption_date`.
#[derive(Clone, Copy, Debug, Default)]
pub struct BondCoupon {
    pub redemption_date: i64,
    pub is_redeemed: bool,
    pub period_index: u8,
    pub coupon_count: u64,
    pub tokens_to_redeem: u64,
    pub redeemer_address: Address,
    pub token_state_address: Address,
    pub coupon_bump: u8,
    pub id: [u8; 10],
}

/// A tally of the quote bonded while voting is open.
#[derive(Clone, Copy, Debug, Default)]
pub struct BondVote {
    pub token_state_address: Address,
    pub id: [u8; 20],
    pub total_votes: u64,
    pub bond_vote_bump: u8,
}

/// The entry that indexes one token state under a base tracker.
#[derive(Clone, Copy, Debug, Default)]
pub struct TokenTracker {
    pub token_state: Address,
    pub id: [u8; 20],
    pub index: u64,
    pub token_tracker_bump: u8,
}

/// The root that counts the tokens created under it.
#[derive(Clone, Copy, Debug, Default)]
pub struct TokenTrackerBase {
    pub id: [u8; 20],
    pub index: u64,
    pub token_tracker_bump: u8,
    pub auth_wallet: Address,
    pub receive_mint: Address,
    pub receive_token_account: Address,
    pub total_received: u64,
    pub cost: u64,
    pub enabled: bool,
}

/// `id` followed by spaces up to `width` bytes.
pub open spec fn padded(id: Seq<u8>, width: nat) -> Seq<u8> {
    id + Seq::new((width - id.len()) as nat, |i: int| 32u8)
}

/// Copies `id` into a space-padded ten-byte identifier.
pub fn pad_id_10(id: &[u8]) -> (r: [u8; 10])
    requires
        id@.len() <= 10,
    ensures
        r@ == padded(id@, 10),
{
    let mut out: [u8; 10] = [32u8; 10];
    let mut i: usize = 0;
    while i < id.len()
        invariant
            id@.len() <= 10,
            i <= id@.len(),
            forall|j: int| 0 <= j < i ==> out@[j] == id@[j],
            forall|j: int| i <= j < 10 ==> out@[j] == 32u8,
        decreases id@.len() - i,
    {
        out[i] = id[i];
        i = i + 1;
    }
    assert(out@ =~= padded(id@, 10));
    out
}

/// Copies `id` into a space-padded twenty-byte identifier.
pub fn pad_id_20(id: &[u8]) -> (r: [u8; 20])
    requires
        id@.len() <= 20,
    ensures
        r@ == padded(id@, 20),
{
    let mut out: [u8; 20] = [32u8; 20];
    let mut i: usize = 0;
    while i < id.len()
        invariant
            id@.len() <= 20,
            i <= id@.len(),
            forall|j: int| 0 <= j < i ==> out@[j] == id@[j],
            forall|j: int| i <= j < 20 ==> out@[j] == 32u8,
        decreases id@.len() - i,
    {
        out[i] = id[i];
        i = i + 1;
    }
    assert(out@ =~= padded(id@, 20));
    out
}

} // verus!
