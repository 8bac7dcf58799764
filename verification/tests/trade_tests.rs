use bonding_curve::config::{initialize1, initialize2, FeeConfig};
use bonding_curve::curve::{create_token, CurveConfig};
use bonding_curve::error::SwapError;
use bonding_curve::reward::FeeRecommendReward;
use bonding_curve::swap::{buy, sell};

const PROGRAM_ID: [u8; 32] = [9u8; 32];

fn fee_config_one_percent() -> FeeConfig {
    FeeConfig {
        trade_fee_numerator: 1,
        trade_fee_denominator: 100,
        creation_fee: 20000000,
        fee_receiver_account: [7u8; 32],
        recommend_award_list: [2000, 1000, 0, 0, 0],
    }
}

fn no_referrers() -> (Vec<[u8; 32]>, Vec<[u8; 32]>, Vec<Option<FeeRecommendReward>>) {
    (Vec::new(), Vec::new(), Vec::new())
}

#[test]
fn initialize_defaults() {
    let (fee_config, system_account) = initialize1([1u8; 32], [2u8; 32], [3u8; 32]);
    assert_eq!(fee_config.trade_fee_numerator, 1);
    assert_eq!(fee_config.trade_fee_denominator, 100);
    assert_eq!(fee_config.creation_fee, 20000000);
    assert_eq!(fee_config.fee_receiver_account, [3u8; 32]);
    assert_eq!(fee_config.recommend_award_list, [2000, 1000, 0, 0, 0]);
    assert_eq!(system_account.owner, [1u8; 32]);
    assert_eq!(system_account.admin, [1u8; 32]);
    assert_eq!(system_account.migration_account, [2u8; 32]);

    let (init_token_config, program_config) = initialize2();
    assert_eq!(init_token_config.init_virtual_token_reserve, 1_038_000_000_000000000);
    assert_eq!(init_token_config.init_virtual_sol_reserve, 21_000000000);
    assert_eq!(init_token_config.mint_amount, 1_000_000_000_000000000);
    assert_eq!(init_token_config.token_total_supply, 1_000_000_000_000000000);
    assert_eq!(init_token_config.token_max_supply, 745_100_000_000000000);
    assert_eq!(init_token_config.sol_aim, 53_420000000);
    assert_eq!(&program_config.version, b"0.1.0\0\0\0");
}

#[test]
fn create_token_fixes_k() {
    let (init_token_config, _) = initialize2();
    let curve = create_token(&init_token_config).unwrap();
    assert_eq!(curve.virtual_token_reserve, 1_038_000_000_000000000);
    assert_eq!(curve.virtual_sol_reserve, 21_000000000);
    assert_eq!(curve.token_reserve, 745_100_000_000000000);
    assert_eq!(curve.token_max_supply, 745_100_000_000000000);
    assert_eq!(curve.sol_reserve, 0);
    assert_eq!(curve.sol_aim, 53_420000000);
    assert_eq!(curve.k, 1_038_000_000_000000000u128 * 21_000000000u128);
    assert!(!curve.graduated);
}

#[test]
fn create_token_overflow_is_error() {
    let (mut init_token_config, _) = initialize2();
    init_token_config.init_virtual_token_reserve = u128::MAX;
    init_token_config.init_virtual_sol_reserve = 2;
    assert_eq!(create_token(&init_token_config), Err(SwapError::ArithmeticFault));
}

// Scenario: a 1% buy of 10 base units against the freshly listed curve.
#[test]
fn buy_scenario_one_percent() {
    let (init_token_config, _) = initialize2();
    let mut curve = create_token(&init_token_config).unwrap();
    let fee_config = fee_config_one_percent();
    let k = curve.k;
    let (accounts, pdas, mut records) = no_referrers();

    let outcome = buy(
        &mut curve,
        &fee_config,
        10_000000000,
        0,
        &accounts,
        &pdas,
        &mut records,
        &PROGRAM_ID,
    )
    .unwrap();

    assert_eq!(outcome.trading_fee, 100_000000);
    assert_eq!(outcome.amount_in_without_fee, 9_900000000);
    assert_eq!(outcome.new_virtual_sol_reserve, 30_900000000);
    let expected_out = 1_038_000_000_000000000 - k / 30_900000000;
    assert_eq!(outcome.amount_out, expected_out);
    assert_eq!(outcome.amount_out, 332_563_106_796_116_505);
    assert_eq!(outcome.new_virtual_token_reserve, 705_436_893_203_883_495);
    assert!(!outcome.graduated);

    assert_eq!(curve.virtual_sol_reserve, 30_900000000);
    assert_eq!(curve.virtual_token_reserve, k / 30_900000000);
    assert_eq!(curve.sol_aim, 43_520000000);
    assert_eq!(curve.sol_reserve, 9_900000000);
    assert_eq!(curve.token_reserve, 745_100_000_000000000 - expected_out);
    assert!(!curve.graduated);

    // the product of the updated virtual reserves stays within one rounding
    // unit of k
    let product = curve.virtual_token_reserve * curve.virtual_sol_reserve;
    assert!(product <= k);
    assert!(k - product < curve.virtual_sol_reserve);
}

// Scenario: a buy whose implied net exceeds the remaining aim consumes
// exactly the aim, zeroes it, graduates the curve and drains the vault.
#[test]
fn buy_overshoot_graduates_and_drains_vault() {
    let mut curve = CurveConfig {
        virtual_token_reserve: 1000,
        virtual_sol_reserve: 1000,
        token_reserve: 500,
        token_max_supply: 500,
        sol_reserve: 0,
        sol_aim: 990,
        k: 1_000_000,
        graduated: false,
    };
    let fee_config = fee_config_one_percent();
    let (accounts, pdas, mut records) = no_referrers();

    let outcome =
        buy(&mut curve, &fee_config, 2000, 0, &accounts, &pdas, &mut records, &PROGRAM_ID)
            .unwrap();

    // fee_reverse(990) at 1% = floor(990 * 100 / 99) - 990 = 10
    assert_eq!(outcome.trading_fee, 10);
    assert_eq!(outcome.amount_in_without_fee, 990);
    assert!(outcome.graduated);
    assert_eq!(outcome.amount_out, 500);
    assert_eq!(outcome.new_virtual_token_reserve, 500);

    assert_eq!(curve.sol_aim, 0);
    assert_eq!(curve.token_reserve, 0);
    assert_eq!(curve.sol_reserve, 990);
    assert!(curve.graduated);
}

// Once graduated, every buy or sell fails and changes nothing.
#[test]
fn graduated_curve_rejects_trades() {
    let mut curve = CurveConfig {
        virtual_token_reserve: 500,
        virtual_sol_reserve: 1990,
        token_reserve: 0,
        token_max_supply: 500,
        sol_reserve: 990,
        sol_aim: 0,
        k: 1_000_000,
        graduated: true,
    };
    let fee_config = fee_config_one_percent();
    let (accounts, pdas, mut records) = no_referrers();

    let before = curve;
    let r = buy(&mut curve, &fee_config, 100, 0, &accounts, &pdas, &mut records, &PROGRAM_ID);
    assert_eq!(r.unwrap_err(), SwapError::CurveClosed);
    assert_eq!(curve, before);

    let r = sell(&mut curve, &fee_config, 100, 0, &accounts, &pdas, &mut records, &PROGRAM_ID);
    assert_eq!(r.unwrap_err(), SwapError::CurveClosed);
    assert_eq!(curve, before);
}

#[test]
fn zero_amount_is_invalid() {
    let (init_token_config, _) = initialize2();
    let mut curve = create_token(&init_token_config).unwrap();
    let fee_config = fee_config_one_percent();
    let (accounts, pdas, mut records) = no_referrers();

    let r = buy(&mut curve, &fee_config, 0, 0, &accounts, &pdas, &mut records, &PROGRAM_ID);
    assert_eq!(r.unwrap_err(), SwapError::InvalidAmount);
    let r = sell(&mut curve, &fee_config, 0, 0, &accounts, &pdas, &mut records, &PROGRAM_ID);
    assert_eq!(r.unwrap_err(), SwapError::InvalidAmount);
}

#[test]
fn slippage_is_enforced() {
    let (init_token_config, _) = initialize2();
    let mut curve = create_token(&init_token_config).unwrap();
    let fee_config = fee_config_one_percent();
    let (accounts, pdas, mut records) = no_referrers();

    let before = curve;
    let r = buy(
        &mut curve,
        &fee_config,
        10_000000000,
        u128::MAX,
        &accounts,
        &pdas,
        &mut records,
        &PROGRAM_ID,
    );
    assert_eq!(r.unwrap_err(), SwapError::SlippageExceeded);
    assert_eq!(curve, before);
}

// A fee rate above 100% makes the net amount computation underflow.
#[test]
fn fee_rate_above_one_is_arithmetic_fault() {
    let (init_token_config, _) = initialize2();
    let mut curve = create_token(&init_token_config).unwrap();
    let mut fee_config = fee_config_one_percent();
    fee_config.trade_fee_numerator = 200;
    fee_config.trade_fee_denominator = 100;
    let (accounts, pdas, mut records) = no_referrers();

    let before = curve;
    let r = buy(&mut curve, &fee_config, 1000, 0, &accounts, &pdas, &mut records, &PROGRAM_ID);
    assert_eq!(r.unwrap_err(), SwapError::ArithmeticFault);
    assert_eq!(curve, before);
}

// Buying and then selling the tokens straight back never nets a gain.
#[test]
fn buy_then_sell_never_gains() {
    let (init_token_config, _) = initialize2();
    let fee_config = fee_config_one_percent();
    let (accounts, pdas, mut records) = no_referrers();

    for amount_in in [1_000u128, 1_000000000, 10_000000000] {
        let mut curve = create_token(&init_token_config).unwrap();
        let paid = amount_in;
        let bought = buy(
            &mut curve,
            &fee_config,
            amount_in,
            0,
            &accounts,
            &pdas,
            &mut records,
            &PROGRAM_ID,
        )
        .unwrap();
        let sold = sell(
            &mut curve,
            &fee_config,
            bought.amount_out,
            0,
            &accounts,
            &pdas,
            &mut records,
            &PROGRAM_ID,
        )
        .unwrap();
        assert!(sold.amount_out_without_fee <= sold.amount_out);
        assert!(sold.amount_out <= bought.amount_in_without_fee);
        assert!(sold.amount_out_without_fee < paid);
    }
}

#[test]
fn sell_updates_reserves_and_reopens_aim() {
    let (init_token_config, _) = initialize2();
    let fee_config = fee_config_one_percent();
    let (accounts, pdas, mut records) = no_referrers();

    let mut curve = create_token(&init_token_config).unwrap();
    let bought = buy(
        &mut curve,
        &fee_config,
        10_000000000,
        0,
        &accounts,
        &pdas,
        &mut records,
        &PROGRAM_ID,
    )
    .unwrap();

    let aim_before = curve.sol_aim;
    let token_reserve_before = curve.token_reserve;
    let k = curve.k;
    let sold = sell(
        &mut curve,
        &fee_config,
        bought.amount_out,
        0,
        &accounts,
        &pdas,
        &mut records,
        &PROGRAM_ID,
    )
    .unwrap();

    assert_eq!(curve.token_reserve, token_reserve_before + bought.amount_out);
    assert_eq!(curve.sol_aim, aim_before + sold.amount_out);
    assert_eq!(curve.sol_reserve, bought.amount_in_without_fee - sold.amount_out);
    assert!(!curve.graduated);

    // the product of the updated virtual reserves stays within one rounding
    // unit of k
    let product = curve.virtual_token_reserve * curve.virtual_sol_reserve;
    assert!(product <= k);
    assert!(k - product < curve.virtual_token_reserve);
}
