use re_dao::calculations::HalvingSeries;
use re_dao::create_base_tracker::{CreateBaseTracker, TRACKER_COST};
use re_dao::create_bonding_token::{is_authorized, validate, CreateBondingToken, BPS};
use re_dao::create_vote_account::CreateVoteAccount;
use re_dao::errors::CustomErrorCode;
use re_dao::params::CreateBondingTokenParams;
use re_dao::structs::{pad_id_10, pad_id_20, Address, BondVote, TokenState, TokenTrackerBase};
use re_dao::{create_base_tracker, create_bonding_token, create_vote_account};

fn addr(b: u8) -> Address {
    Address { bytes: [b; 32] }
}

fn params() -> CreateBondingTokenParams {
    CreateBondingTokenParams {
        next_halving: 1_000_000,
        emission_rate: 1_000,
        bonding_cost: 1_000,
        initial_reserve: 250_000,
        period_lengths: [10; 10],
        period_multipliers: [100_000; 10],
        treasury_split: [50_000; 10],
        period_enabled: [true; 10],
        updates_allowed: true,
        voting_enabled_date: 1_000,
        launch_date: 5,
        runway_fee: 5_000,
        halving_series: HalvingSeries::Geometric,
    }
}

fn creation(index: u64, creator: Address) -> CreateBondingToken {
    CreateBondingToken {
        creator,
        token_tracker_base: TokenTrackerBase { index, ..Default::default() },
        token_tracker: Default::default(),
        token_state_address: addr(2),
        token_state: TokenState::default(),
        base_mint: addr(3),
        base_token_vault: addr(4),
        quote_mint: addr(5),
        quote_reserve_token_address: addr(6),
        quote_surplus_token_address: addr(7),
        quote_runway_token_address: addr(8),
        token_state_bump: 11,
        base_token_vault_bump: 12,
        token_tracker_bump: 13,
    }
}

#[test]
fn create_token_sets_schedule_and_totals() {
    let mut ctx = creation(0, addr(1));
    assert_eq!(create_bonding_token(&mut ctx, b"token", params(), &[addr(1)]), Ok(()));
    let s = ctx.token_state;
    assert_eq!(s.next_halving, 1_000_000);
    assert_eq!(s.genesis_supply, 1_000_000);
    assert_eq!(s.total_epoch_emissions, 1_000_000);
    assert_eq!(s.total_emissions, 250_000);
    assert_eq!(s.current_epoch_emissions, 250_000);
    assert_eq!(s.mps, 250_000);
    assert_eq!(s.emission_rate, 1_000);
    assert_eq!(s.genesis_emission_rate, 1_000);
    assert_eq!(s.fee_bps, BPS);
    assert_eq!(s.reward_bps, 100_000);
    assert_eq!(s.runway_fee, 5_000);
    assert_eq!(s.halving_series, HalvingSeries::Geometric);
    assert_eq!(s.state_index, 1);
    assert_eq!(s.creator_address, addr(1));
    assert_eq!(s.quote_runway_token_address, addr(8));
    assert_eq!(s.token_state_bump, 11);
    assert_eq!(&s.id, b"token               ");
    assert_eq!(ctx.token_tracker_base.index, 1);
    assert_eq!(ctx.token_tracker.index, 1);
    assert_eq!(ctx.token_tracker.token_state, addr(2));
    assert_eq!(ctx.token_tracker.token_tracker_bump, 13);
    assert_eq!(&ctx.token_tracker.id, b"token               ");
}

#[test]
fn create_token_rejections() {
    let mut zero = params();
    zero.emission_rate = 0;
    let mut too_large = params();
    too_large.initial_reserve = 1_000_001;
    let mut fee = params();
    fee.runway_fee = 100_001;
    let cases = [
        (creation(0, addr(1)), zero, &b"t"[..], CustomErrorCode::ZeroError),
        (creation(0, addr(1)), too_large, &b"t"[..], CustomErrorCode::InitialReserveTooLargeError),
        (creation(0, addr(1)), params(), &b"twenty-bytes-long-id"[..], CustomErrorCode::InvalidIdLength),
        (creation(0, addr(9)), params(), &b"t"[..], CustomErrorCode::InvalidCreator),
        (creation(u64::MAX, addr(1)), params(), &b"t"[..], CustomErrorCode::ArithmeticError),
        (creation(0, addr(1)), fee, &b"t"[..], CustomErrorCode::RunwayFeeError),
    ];
    for (mut ctx, p, id, err) in cases {
        let index = ctx.token_tracker_base.index;
        assert_eq!(create_bonding_token(&mut ctx, id, p, &[addr(1)]), Err(err));
        assert_eq!(ctx.token_tracker_base.index, index);
        assert_eq!(ctx.token_tracker.index, 0);
        assert_eq!(ctx.token_state.next_halving, 0);
    }
}

#[test]
fn create_token_rejects_same_base_and_quote() {
    let mut ctx = creation(3, addr(1));
    ctx.quote_mint = ctx.base_mint;
    assert_eq!(
        create_bonding_token(&mut ctx, b"t", params(), &[addr(1)]),
        Err(CustomErrorCode::BaseAndQuoteMatch)
    );
    assert_eq!(ctx.token_tracker_base.index, 3);
}

#[test]
fn later_tokens_still_need_an_authority() {
    let mut ctx = creation(1, addr(9));
    assert_eq!(
        create_bonding_token(&mut ctx, b"t", params(), &[addr(1), addr(4)]),
        Err(CustomErrorCode::InvalidCreator)
    );
    assert_eq!(ctx.token_tracker_base.index, 1);
    assert_eq!(ctx.token_tracker.index, 0);
    assert_eq!(ctx.token_state.next_halving, 0);

    let mut ctx = creation(3, addr(4));
    assert_eq!(create_bonding_token(&mut ctx, b"t", params(), &[addr(1), addr(4)]), Ok(()));
    assert_eq!(ctx.token_tracker_base.index, 4);
    assert_eq!(ctx.token_state.state_index, 4);
}

#[test]
fn creator_is_checked_before_the_schedule() {
    let mut zero = params();
    zero.bonding_cost = 0;
    let mut ctx = creation(0, addr(9));
    assert_eq!(
        create_bonding_token(&mut ctx, b"t", zero, &[addr(1)]),
        Err(CustomErrorCode::InvalidCreator)
    );
}

#[test]
fn validate_checks_schedule() {
    assert_eq!(validate(params()), Ok(()));
    let mut p = params();
    p.bonding_cost = 0;
    assert_eq!(validate(p), Err(CustomErrorCode::ZeroError));
    let mut p = params();
    p.next_halving = 0;
    p.initial_reserve = 0;
    assert_eq!(validate(p), Err(CustomErrorCode::ZeroError));
    let mut p = params();
    p.initial_reserve = p.next_halving;
    assert_eq!(validate(p), Ok(()));
}

#[test]
fn authority_lookup() {
    assert!(is_authorized(&addr(4), &[addr(1), addr(4)]));
    assert!(!is_authorized(&addr(5), &[addr(1), addr(4)]));
    assert!(!is_authorized(&addr(5), &[]));
}

#[test]
fn base_tracker_creation() {
    let mut ctx = CreateBaseTracker {
        creator: addr(1),
        payment_token_address: addr(2),
        token_tracker_base: TokenTrackerBase { index: 9, enabled: true, ..Default::default() },
        token_tracker_bump: 4,
    };
    let fresh = ctx;
    let mut stranger = CreateBaseTracker { creator: addr(3), ..fresh };
    assert_eq!(
        create_base_tracker(&mut stranger, b"base", &[addr(1)]),
        Err(CustomErrorCode::InvalidCreator)
    );
    assert_eq!(stranger.token_tracker_base.index, 9);
    assert!(stranger.token_tracker_base.enabled);
    assert_eq!(create_base_tracker(&mut ctx, b"base", &[addr(1)]), Ok(()));
    let t = ctx.token_tracker_base;
    assert_eq!(t.index, 0);
    assert_eq!(&t.id, b"base                ");
    assert_eq!(t.auth_wallet, addr(1));
    assert_eq!(t.receive_token_account, addr(2));
    assert_eq!(t.cost, 15_000_000_000);
    assert_eq!(TRACKER_COST, 15_000_000_000);
    assert!(!t.enabled);
    assert_eq!(t.token_tracker_bump, 4);
    assert_eq!(
        create_base_tracker(&mut ctx, b"twenty-one-bytes-long", &[addr(1)]),
        Err(CustomErrorCode::InvalidIdLength)
    );
}

#[test]
fn vote_account_creation() {
    let mut ctx = CreateVoteAccount {
        creator: addr(1),
        token_state_address: addr(2),
        bond_vote: BondVote { total_votes: 77, ..Default::default() },
        bond_vote_bump: 3,
    };
    assert_eq!(create_vote_account(&mut ctx, b"vote"), Ok(()));
    assert_eq!(ctx.bond_vote.total_votes, 0);
    assert_eq!(ctx.bond_vote.token_state_address, addr(2));
    assert_eq!(ctx.bond_vote.bond_vote_bump, 3);
    assert_eq!(&ctx.bond_vote.id, b"vote                ");
    assert_eq!(
        create_vote_account(&mut ctx, b"twenty-bytes-long-id"),
        Err(CustomErrorCode::InvalidIdLength)
    );
}

#[test]
fn ids_are_space_padded() {
    assert_eq!(&pad_id_10(b"ab"), b"ab        ");
    assert_eq!(&pad_id_10(b"0123456789"), b"0123456789");
    assert_eq!(&pad_id_20(b""), &[b' '; 20]);
}

#[test]
fn created_state_is_well_formed() {
    let mut ctx = creation(0, addr(1));
    create_bonding_token(&mut ctx, b"token", params(), &[addr(1)]).unwrap();
    let s = ctx.token_state;
    assert!(s.is_well_formed());
    let mut broken = s;
    broken.mps = broken.total_emissions - 1;
    assert!(!broken.is_well_formed());
    let mut broken = s;
    broken.next_halving = 1_200_000;
    broken.epoch_count = 0;
    assert!(!broken.is_well_formed());
    let mut later = s;
    later.epoch_count = 2;
    later.next_halving = 1_750_000;
    assert!(later.is_well_formed());
    later.epoch_count = 80;
    later.next_halving = 1_999_993;
    later.mps = 1_999_993;
    assert!(later.is_well_formed());
    assert!(!TokenState::default().is_well_formed());
}
