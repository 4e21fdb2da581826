//! The parameters a token is created with.
use vstd::prelude::*;

use crate::calculations::HalvingSeries;

verus! {

/// The schedule and controls chosen by a token's creator.
#[derive(Clone, Copy, Debug, Default)]
pub struct CreateBondingTokenParams {
    /// Total emissions at which the first epoch ends; also the first epoch's supply.
    pub next_halving: u64,
    /// The emission rate of the first epoch.
    pub emission_rate: u64,
    pub bonding_cost: u64,
    /// Supply already minted; counted as emitted in the first epoch.
    pub initial_reserve: u64,
    pub period_lengths: [i64; 10],
    pub period_multipliers: [u32; 10],
    pub treasury_split: [u32; 10],
    pub period_enabled: [bool; 10],
    // controls
    pub updates_allowed: bool,
    pub voting_enabled_date: i64,
    pub launch_date: i64,
    pub runway_fee: u32,
    /// How the thresholds of later epochs are summed.
    pub halving_series: HalvingSeries,
}

} // verus!
