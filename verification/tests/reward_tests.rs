use bonding_curve::error::SwapError;
use bonding_curve::fee::Fees;
use bonding_curve::reward::{
    record_from_bytes, record_to_bytes, recommender_claim_sol, FeeRecommendReward,
};

use solana_program::pubkey::Pubkey;

const PROGRAM_ID: [u8; 32] = [9u8; 32];
const AWARD_LIST: [u16; 5] = [2000, 1000, 0, 0, 0];

fn fees() -> Fees {
    Fees {
        trade_fee_numerator: 1,
        trade_fee_denominator: 100,
        fee_receiver_account: [7u8; 32],
    }
}

// The record address the library re-derives for a referrer identity.
fn derive_pda(identity: &[u8; 32]) -> [u8; 32] {
    let program_id = Pubkey::new_from_array(PROGRAM_ID);
    Pubkey::find_program_address(&[b"fee_recommend_reward", identity.as_ref()], &program_id)
        .0
        .to_bytes()
}

fn zeroed_records(n: usize) -> Vec<Option<FeeRecommendReward>> {
    vec![Some(FeeRecommendReward { unclaimed_sol: 0, total_reward: 0 }); n]
}

// Distributing a fee of F across tiers [2000, 1000, 0, 0, 0] yields
// floor(F * 0.2), floor(F * 0.1) and a residue that sums back to F exactly.
#[test]
fn distribution_splits_fee_exactly() {
    let identities = [[1u8; 32], [2u8; 32]];
    let accounts: Vec<[u8; 32]> = identities.to_vec();
    let pdas: Vec<[u8; 32]> = identities.iter().map(derive_pda).collect();
    let mut records = zeroed_records(2);

    let trading_fee: u64 = 1003;
    let (residue, total) = fees()
        .reward_recommend(trading_fee, &accounts, &pdas, &mut records, &AWARD_LIST, &PROGRAM_ID)
        .unwrap();

    assert_eq!(total, 200 + 100);
    assert_eq!(residue, 1003 - 200 - 100);
    assert_eq!(residue + total, trading_fee);
    assert_eq!(records[0], Some(FeeRecommendReward { unclaimed_sol: 200, total_reward: 200 }));
    assert_eq!(records[1], Some(FeeRecommendReward { unclaimed_sol: 100, total_reward: 100 }));
}

#[test]
fn distribution_accumulates_rewards() {
    let accounts = vec![[1u8; 32]];
    let pdas = vec![derive_pda(&[1u8; 32])];
    let mut records = vec![Some(FeeRecommendReward { unclaimed_sol: 5, total_reward: 40 })];

    let (residue, total) = fees()
        .reward_recommend(100, &accounts, &pdas, &mut records, &AWARD_LIST, &PROGRAM_ID)
        .unwrap();

    assert_eq!(total, 20);
    assert_eq!(residue, 80);
    assert_eq!(records[0], Some(FeeRecommendReward { unclaimed_sol: 25, total_reward: 60 }));
}

#[test]
fn distribution_with_no_referrers_keeps_whole_fee() {
    let accounts: Vec<[u8; 32]> = Vec::new();
    let pdas: Vec<[u8; 32]> = Vec::new();
    let mut records = Vec::new();

    let (residue, total) = fees()
        .reward_recommend(555, &accounts, &pdas, &mut records, &AWARD_LIST, &PROGRAM_ID)
        .unwrap();
    assert_eq!((residue, total), (555, 0));
}

// A supplied record location that is not the derived one is rejected; in
// particular the referrer identity itself is never a valid record location.
#[test]
fn wrong_record_location_is_rejected() {
    let accounts = vec![[1u8; 32]];
    let pdas = vec![[1u8; 32]];
    let mut records = zeroed_records(1);

    let r = fees().reward_recommend(100, &accounts, &pdas, &mut records, &AWARD_LIST, &PROGRAM_ID);
    assert_eq!(r.unwrap_err(), SwapError::ReferralRecordMismatch);
    assert_eq!(records, zeroed_records(1));
}

#[test]
fn missing_record_is_rejected() {
    let accounts = vec![[1u8; 32], [2u8; 32]];
    let pdas: Vec<[u8; 32]> = accounts.iter().map(derive_pda).collect();
    let mut records = vec![
        Some(FeeRecommendReward { unclaimed_sol: 0, total_reward: 0 }),
        None,
    ];

    let r = fees().reward_recommend(100, &accounts, &pdas, &mut records, &AWARD_LIST, &PROGRAM_ID);
    assert_eq!(r.unwrap_err(), SwapError::ReferralRecordUninitialized);
    // the first record is untouched even though its tier came earlier
    assert_eq!(records[0], Some(FeeRecommendReward { unclaimed_sol: 0, total_reward: 0 }));
}

#[test]
fn more_than_five_referrers_is_rejected() {
    let accounts = vec![[1u8; 32]; 6];
    let pdas = vec![[1u8; 32]; 6];
    let mut records = zeroed_records(6);

    let r = fees().reward_recommend(100, &accounts, &pdas, &mut records, &AWARD_LIST, &PROGRAM_ID);
    assert_eq!(r.unwrap_err(), SwapError::TooManyReferralTiers);
    assert_eq!(records, zeroed_records(6));
}

#[test]
fn accumulator_overflow_is_fatal_and_atomic() {
    let accounts = vec![[1u8; 32], [2u8; 32]];
    let pdas: Vec<[u8; 32]> = accounts.iter().map(derive_pda).collect();
    let mut records = vec![
        Some(FeeRecommendReward { unclaimed_sol: 0, total_reward: 0 }),
        Some(FeeRecommendReward { unclaimed_sol: u64::MAX, total_reward: u64::MAX }),
    ];
    let before = records.clone();

    let r = fees().reward_recommend(100, &accounts, &pdas, &mut records, &AWARD_LIST, &PROGRAM_ID);
    assert_eq!(r.unwrap_err(), SwapError::ArithmeticFault);
    assert_eq!(records, before);
}

// A tier table handing out more than the fee makes the residue underflow.
#[test]
fn award_list_above_whole_fee_is_fatal() {
    let accounts = vec![[1u8; 32], [2u8; 32]];
    let pdas: Vec<[u8; 32]> = accounts.iter().map(derive_pda).collect();
    let mut records = zeroed_records(2);
    let award_list: [u16; 5] = [9000, 8000, 0, 0, 0];

    let r = fees().reward_recommend(1000, &accounts, &pdas, &mut records, &award_list, &PROGRAM_ID);
    assert_eq!(r.unwrap_err(), SwapError::ArithmeticFault);
    assert_eq!(records, zeroed_records(2));
}

// A buy routes its whole fee through the distribution: referrers get their
// tiers, the treasury residue is the rest.
#[test]
fn buy_distributes_fee_to_referrers() {
    let (init_token_config, _) = bonding_curve::config::initialize2();
    let mut curve = bonding_curve::curve::create_token(&init_token_config).unwrap();
    let fee_config = bonding_curve::config::FeeConfig {
        trade_fee_numerator: 1,
        trade_fee_denominator: 100,
        creation_fee: 20000000,
        fee_receiver_account: [7u8; 32],
        recommend_award_list: AWARD_LIST,
    };
    let accounts = vec![[1u8; 32], [2u8; 32]];
    let pdas: Vec<[u8; 32]> = accounts.iter().map(derive_pda).collect();
    let mut records = zeroed_records(2);

    let outcome = bonding_curve::swap::buy(
        &mut curve,
        &fee_config,
        10_000000000,
        0,
        &accounts,
        &pdas,
        &mut records,
        &PROGRAM_ID,
    )
    .unwrap();

    assert_eq!(outcome.trading_fee, 100_000000);
    assert_eq!(outcome.total_reward_fee, 20_000000 + 10_000000);
    assert_eq!(outcome.residue_fee, 100_000000 - 30_000000);
    assert_eq!(
        records[0],
        Some(FeeRecommendReward { unclaimed_sol: 20_000000, total_reward: 20_000000 })
    );
    assert_eq!(
        records[1],
        Some(FeeRecommendReward { unclaimed_sol: 10_000000, total_reward: 10_000000 })
    );
}

// The fixed record layout: unclaimed_sol at offset 0, total_reward at
// offset 8, both little-endian.
#[test]
fn record_layout_is_fixed_offset_little_endian() {
    let record = FeeRecommendReward { unclaimed_sol: 0x0102030405060708, total_reward: 0x1122 };
    let bytes = record_to_bytes(&record);
    assert_eq!(
        bytes,
        vec![8, 7, 6, 5, 4, 3, 2, 1, 0x22, 0x11, 0, 0, 0, 0, 0, 0]
    );
    assert_eq!(record_from_bytes(&bytes), record);
}

#[test]
fn claim_releases_unclaimed_and_keeps_total() {
    let mut record = FeeRecommendReward { unclaimed_sol: 250, total_reward: 700 };
    let claim_amount = recommender_claim_sol(&mut record);
    assert_eq!(claim_amount, 250);
    assert_eq!(record, FeeRecommendReward { unclaimed_sol: 0, total_reward: 700 });

    // claiming again releases nothing
    let claim_amount = recommender_claim_sol(&mut record);
    assert_eq!(claim_amount, 0);
    assert_eq!(record.total_reward, 700);
}
