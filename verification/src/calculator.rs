//! Constant-product quotes: how a buy or a sell moves the virtual reserves
//! along the hyperbola `virtual_token_reserve * virtual_sol_reserve ~ k`,
//! and what the trader gets out.

use vstd::prelude::*;

use crate::curve::CurveConfig;
use crate::error::SwapError;

use vstd::arithmetic::div_mod::{lemma_fundamental_div_mod, lemma_mod_division_less_than_divisor};

verus! {

/// When the buy quote is defined: the grown base-side reserve must fit, be
/// positive, and the freshly priced token-side reserve must not exceed the
/// current one.
pub open spec fn buy_quote_defined(curve: CurveConfig, amount_in_without_fee: u128) -> bool {
    &&& curve.virtual_sol_reserve + amount_in_without_fee <= u128::MAX
    &&& curve.virtual_sol_reserve + amount_in_without_fee > 0
    &&& (curve.k as int) / (curve.virtual_sol_reserve + amount_in_without_fee)
        <= curve.virtual_token_reserve
}

/// When the sell quote is defined: the grown token-side reserve must fit
/// (it is positive whenever the trade amount is), and the freshly priced
/// base-side reserve must not exceed the current one.
pub open spec fn sell_quote_defined(curve: CurveConfig, amount_in: u128) -> bool {
    &&& curve.virtual_token_reserve + amount_in <= u128::MAX
    &&& curve.virtual_token_reserve + amount_in > 0
    &&& (curve.k as int) / (curve.virtual_token_reserve + amount_in) <= curve.virtual_sol_reserve
}

/// Quote a buy: the fee-net base amount is added to the base-side virtual
/// reserve, the token-side virtual reserve is repriced as `k` divided by the
/// new base-side reserve (rounded down), and the difference on the token side
/// is what the buyer receives. Returns
/// `(amount_out, new_virtual_sol_reserve, new_virtual_token_reserve)`.
pub fn buy(curve: &CurveConfig, amount_in_without_fee: u128) -> (r: Result<
    (u128, u128, u128),
    SwapError,
>)
    ensures
        r is Ok <==> buy_quote_defined(*curve, amount_in_without_fee),
        r matches Ok((amount_out, new_virtual_sol_reserve, new_virtual_token_reserve)) ==> {
            &&& new_virtual_sol_reserve == curve.virtual_sol_reserve + amount_in_without_fee
            &&& new_virtual_token_reserve == (curve.k as int) / (curve.virtual_sol_reserve
                + amount_in_without_fee)
            &&& amount_out == curve.virtual_token_reserve - new_virtual_token_reserve
            &&& new_virtual_token_reserve * new_virtual_sol_reserve <= curve.k
            &&& curve.k - new_virtual_token_reserve * new_virtual_sol_reserve
                < new_virtual_sol_reserve
        },
        r matches Err(e) ==> e == SwapError::ArithmeticFault,
{
    let new_virtual_sol_reserve = match curve.virtual_sol_reserve.checked_add(
        amount_in_without_fee,
    ) {
        Some(v) => v,
        None => {
            return Err(SwapError::ArithmeticFault);
        },
    };
    if new_virtual_sol_reserve == 0 {
        return Err(SwapError::ArithmeticFault);
    }
    let new_virtual_token_reserve = curve.k / new_virtual_sol_reserve;
    let amount_out = match curve.virtual_token_reserve.checked_sub(new_virtual_token_reserve) {
        Some(v) => v,
        None => {
            return Err(SwapError::ArithmeticFault);
        },
    };
    proof {
        lemma_fundamental_div_mod(curve.k as int, new_virtual_sol_reserve as int);
        lemma_mod_division_less_than_divisor(curve.k as int, new_virtual_sol_reserve as int);
    }
    Ok((amount_out, new_virtual_sol_reserve, new_virtual_token_reserve))
}

/// Quote a sell: the tokens sold are added to the token-side virtual reserve,
/// the base-side virtual reserve is repriced as `k` divided by the new
/// token-side reserve (rounded down), and the difference on the base side is
/// the gross proceeds before the fee. Returns
/// `(amount_out, new_virtual_sol_reserve, new_virtual_token_reserve)`.
pub fn sell(curve: &CurveConfig, amount_in: u128) -> (r: Result<(u128, u128, u128), SwapError>)
    ensures
        r is Ok <==> sell_quote_defined(*curve, amount_in),
        r matches Ok((amount_out, new_virtual_sol_reserve, new_virtual_token_reserve)) ==> {
            &&& new_virtual_token_reserve == curve.virtual_token_reserve + amount_in
            &&& new_virtual_sol_reserve == (curve.k as int) / (curve.virtual_token_reserve + amount_in)
            &&& amount_out == curve.virtual_sol_reserve - new_virtual_sol_reserve
            &&& new_virtual_token_reserve * new_virtual_sol_reserve <= curve.k
            &&& curve.k - new_virtual_token_reserve * new_virtual_sol_reserve
                < new_virtual_token_reserve
        },
        r matches Err(e) ==> e == SwapError::ArithmeticFault,
{
    let new_virtual_token_reserve = match curve.virtual_token_reserve.checked_add(amount_in) {
        Some(v) => v,
        None => {
            return Err(SwapError::ArithmeticFault);
        },
    };
    if new_virtual_token_reserve == 0 {
        return Err(SwapError::ArithmeticFault);
    }
    let new_virtual_sol_reserve = curve.k / new_virtual_token_reserve;
    let amount_out = match curve.virtual_sol_reserve.checked_sub(new_virtual_sol_reserve) {
        Some(v) => v,
        None => {
            return Err(SwapError::ArithmeticFault);
        },
    };
    proof {
        lemma_fundamental_div_mod(curve.k as int, new_virtual_token_reserve as int);
        lemma_mod_division_less_than_divisor(curve.k as int, new_virtual_token_reserve as int);
    }
    Ok((amount_out, new_virtual_sol_reserve, new_virtual_token_reserve))
}

} // verus!
