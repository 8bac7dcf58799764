//! Forward and reverse trading-fee formulas.
//!
//! The fee rate is `trade_fee_numerator / trade_fee_denominator`. The forward
//! formula takes the fee out of an amount that already includes it; the
//! reverse formula computes how large a fee must be levied on top of a desired
//! net amount so that exactly that net amount remains after deduction.

use vstd::prelude::*;

use vstd::arithmetic::div_mod::{
    lemma_div_is_ordered, lemma_div_is_ordered_by_denominator, lemma_div_multiples_vanish,
    lemma_div_nonincreasing, lemma_fundamental_div_mod, lemma_fundamental_div_mod_converse,
    lemma_mod_division_less_than_divisor,
};
use vstd::arithmetic::mul::lemma_mul_inequality;

verus! {

/// The trading fee contained in `amount`:
/// `floor(amount * numerator / denominator)`, or zero when the rate or the
/// amount is zero.
pub open spec fn fee_amount(numerator: u64, denominator: u64, amount: u128) -> int {
    if numerator == 0 || denominator == 0 || amount == 0 {
        0
    } else {
        amount * (numerator as int) / (denominator as int)
    }
}

/// The fee to levy on top of the desired net amount `amount`:
/// `floor(amount * denominator / (denominator - numerator)) - amount`, or zero
/// when the rate or the amount is zero. Meaningful only for
/// `numerator < denominator` (a fee rate below 100%).
pub open spec fn fee_amount_reverse(numerator: u64, denominator: u64, amount: u128) -> int {
    if numerator == 0 || denominator == 0 || amount == 0 {
        0
    } else {
        amount * (denominator as int) / (denominator - numerator) - amount
    }
}

/// When the forward formula is defined: its only checked operation is the
/// product `amount * numerator`.
pub open spec fn fee_defined(numerator: u64, denominator: u64, amount: u128) -> bool {
    numerator == 0 || denominator == 0 || amount == 0 || amount * (numerator as int) <= u128::MAX
}

/// When the reverse formula is defined: the rate must be below 100% and the
/// product `amount * denominator` must fit.
pub open spec fn fee_reverse_defined(numerator: u64, denominator: u64, amount: u128) -> bool {
    numerator == 0 || denominator == 0 || amount == 0 || (denominator > numerator
        && amount * (denominator as int) <= u128::MAX)
}

/// The trading-fee calculator: a fee rate and the treasury that collects the
/// residual fee.
#[derive(Clone, Copy, Debug)]
pub struct Fees {
    /// Trade fee numerator
    pub trade_fee_numerator: u64,
    /// Trade fee denominator
    pub trade_fee_denominator: u64,
    pub fee_receiver_account: [u8; 32],
}

impl Fees {
    /// Calculate the trading fee contained in `trading_tokens`.
    pub fn calc_trading_fee(&self, trading_tokens: u128) -> (r: Option<u128>)
        ensures
            r is Some <==> fee_defined(
                self.trade_fee_numerator,
                self.trade_fee_denominator,
                trading_tokens,
            ),
            r matches Some(f) ==> f == fee_amount(
                self.trade_fee_numerator,
                self.trade_fee_denominator,
                trading_tokens,
            ),
    {
        let token_amount = trading_tokens;
        let fee_numerator = self.trade_fee_numerator as u128;
        let fee_denominator = self.trade_fee_denominator as u128;

        if fee_numerator == 0 || fee_denominator == 0 || token_amount == 0 {
            Some(0)
        } else {
            match token_amount.checked_mul(fee_numerator) {
                Some(product) => Some(product / fee_denominator),
                None => None,
            }
        }
    }

    /// Calculate the fee to levy on top of the desired net amount
    /// `trading_tokens`. Returns `None` for a fee rate of 100% or more, or
    /// when an intermediate product overflows.
    pub fn calc_trading_fee_reverse(&self, trading_tokens: u128) -> (r: Option<u128>)
        ensures
            r is Some <==> fee_reverse_defined(
                self.trade_fee_numerator,
                self.trade_fee_denominator,
                trading_tokens,
            ),
            r matches Some(f) ==> f == fee_amount_reverse(
                self.trade_fee_numerator,
                self.trade_fee_denominator,
                trading_tokens,
            ),
    {
        let token_amount = trading_tokens;
        let fee_numerator = self.trade_fee_numerator as u128;
        let fee_denominator = self.trade_fee_denominator as u128;

        if fee_numerator == 0 || fee_denominator == 0 || token_amount == 0 {
            Some(0)
        } else if fee_denominator <= fee_numerator {
            None
        } else {
            match token_amount.checked_mul(fee_denominator) {
                Some(product) => {
                    let quotient = product / (fee_denominator - fee_numerator);
                    proof {
                        lemma_div_is_ordered_by_denominator(
                            product as int,
                            fee_denominator - fee_numerator,
                            fee_denominator as int,
                        );
                        lemma_div_multiples_vanish(token_amount as int, fee_denominator as int);
                    }
                    Some(quotient - token_amount)
                },
                None => None,
            }
        }
    }
}

/// Fee-splitting law: with a valid rate (`numerator < denominator`) the fee
/// contained in an amount never exceeds it, so the fee and the remainder add
/// back to the amount exactly; and the fee on zero is zero.
pub proof fn lemma_fee_plus_remainder(numerator: u64, denominator: u64, amount: u128)
    requires
        numerator < denominator,
    ensures
        0 <= fee_amount(numerator, denominator, amount) <= amount,
        fee_amount(numerator, denominator, amount) + (amount - fee_amount(
            numerator,
            denominator,
            amount,
        )) == amount,
        fee_amount(numerator, denominator, 0) == 0,
{
    if numerator != 0 && amount != 0 {
        let a = amount as int;
        let n = numerator as int;
        let d = denominator as int;
        assert(0 <= a * n <= a * d) by (nonlinear_arith)
            requires
                0 <= n <= d,
                0 <= a,
        ;
        lemma_div_is_ordered(a * n, a * d, d);
        lemma_div_multiples_vanish(a, d);
        vstd::arithmetic::div_mod::lemma_div_pos_is_pos(a * n, d);
    }
}

/// Reverse-fee law: levying `fee_amount_reverse(net)` on top of `net` gives a
/// gross amount whose contained fee is exactly the levy, so after deducting
/// the fee exactly `net` remains.
pub proof fn lemma_fee_reverse_roundtrip(numerator: u64, denominator: u64, net_amount: u128)
    requires
        0 < numerator < denominator,
        0 < net_amount,
        net_amount * denominator <= u128::MAX,
    ensures
        ({
            let levy = fee_amount_reverse(numerator, denominator, net_amount);
            let gross = (net_amount + levy) as u128;
            fee_amount(numerator, denominator, gross) == levy
        }),
{
    let a = net_amount as int;
    let n = numerator as int;
    let d = denominator as int;
    let m = d - n;
    let g = a * d / m;

    lemma_fundamental_div_mod(a * d, m);
    lemma_mod_division_less_than_divisor(a * d, m);
    // a * d == m * g + (a * d) % m, with 0 <= (a * d) % m < m

    // g >= a, so the levy g - a is non-negative
    lemma_div_is_ordered_by_denominator(a * d, m, d);
    lemma_div_multiples_vanish(a, d);

    let q = g - a;
    assert(g * n - q * d == a * d - g * m) by (nonlinear_arith)
        requires
            m == d - n,
            q == g - a,
    ;
    // 0 <= g * n - q * d == (a * d) % m < m < d, so q == (g * n) / d
    lemma_fundamental_div_mod_converse(g * n, d, q, g * n - q * d);

    // the gross amount g is positive and fits in u128
    lemma_div_nonincreasing(a * d, m);
    lemma_mul_inequality(1, a, d);
}

} // verus!

