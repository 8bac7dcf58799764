use bonding_curve::fee::Fees;

fn fees(numerator: u64, denominator: u64) -> Fees {
    Fees {
        trade_fee_numerator: numerator,
        trade_fee_denominator: denominator,
        fee_receiver_account: [7u8; 32],
    }
}

#[test]
fn trading_fee_one_percent() {
    let f = fees(1, 100);
    assert_eq!(f.calc_trading_fee(10_000000000), Some(100_000000));
    assert_eq!(f.calc_trading_fee(99), Some(0));
    assert_eq!(f.calc_trading_fee(100), Some(1));
}

#[test]
fn trading_fee_zero_cases() {
    assert_eq!(fees(0, 100).calc_trading_fee(12345), Some(0));
    assert_eq!(fees(1, 0).calc_trading_fee(12345), Some(0));
    assert_eq!(fees(1, 100).calc_trading_fee(0), Some(0));
    assert_eq!(fees(0, 100).calc_trading_fee_reverse(12345), Some(0));
    assert_eq!(fees(1, 0).calc_trading_fee_reverse(12345), Some(0));
    assert_eq!(fees(1, 100).calc_trading_fee_reverse(0), Some(0));
}

#[test]
fn trading_fee_overflow_is_error() {
    assert_eq!(fees(2, 3).calc_trading_fee(u128::MAX), None);
    assert_eq!(fees(1, 2).calc_trading_fee_reverse(u128::MAX), None);
}

#[test]
fn trading_fee_reverse_rate_at_or_above_one_is_error() {
    assert_eq!(fees(100, 100).calc_trading_fee_reverse(500), None);
    assert_eq!(fees(101, 100).calc_trading_fee_reverse(500), None);
}

// The fee and the remainder add back to the amount exactly.
#[test]
fn fee_plus_remainder_is_amount() {
    let f = fees(3, 1000);
    for amount in [1u128, 99, 100, 12345, 10_000000000] {
        let fee = f.calc_trading_fee(amount).unwrap();
        assert!(fee <= amount);
        assert_eq!(fee + (amount - fee), amount);
    }
    assert_eq!(f.calc_trading_fee(0), Some(0));
}

// Levying the reverse fee on top of a net amount gives a gross amount whose
// contained fee is the levy itself, so exactly the net amount remains.
#[test]
fn fee_reverse_is_left_inverse() {
    let f = fees(1, 100);
    for net in [1u128, 99, 9_900000000, 53_420000000] {
        let levy = f.calc_trading_fee_reverse(net).unwrap();
        let gross = net + levy;
        let fee = f.calc_trading_fee(gross).unwrap();
        assert!(fee.abs_diff(levy) <= 1);
        assert_eq!(fee, levy);
    }
    let f = fees(37, 991);
    for net in [1u128, 12345, 1_000_000_007] {
        let levy = f.calc_trading_fee_reverse(net).unwrap();
        let fee = f.calc_trading_fee(net + levy).unwrap();
        assert!(fee.abs_diff(levy) <= 1);
    }
}

#[test]
fn fee_reverse_one_percent_example() {
    let f = fees(1, 100);
    // floor(9_900000000 * 100 / 99) - 9_900000000 == 100_000000
    assert_eq!(f.calc_trading_fee_reverse(9_900000000), Some(100_000000));
}
