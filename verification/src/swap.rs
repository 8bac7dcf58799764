//! The buy and sell entry points: validate the request, price it on the
//! curve, charge the trading fee, distribute the referral rewards, and only
//! then commit the new curve state — a failing step leaves every record and
//! every curve field untouched.

use vstd::prelude::*;

use crate::calculator;
use crate::config::FeeConfig;
use crate::curve::CurveConfig;
use crate::error::SwapError;
use crate::fee::{fee_amount, fee_amount_reverse, fee_defined, fee_reverse_defined, Fees};
use crate::pda::{record_address_findable, record_address_of};
use crate::reward::{
    derived_addresses, distribution_fault, tier_reward, total_tier_reward, updated_record,
    FeeRecommendReward,
};

verus! {

/// A buy is accepted only while the curve is open: tokens still in the
/// vault, base asset still to raise, and not graduated.
pub open spec fn open_for_buy(curve: CurveConfig) -> bool {
    curve.token_reserve > 0 && curve.sol_aim > 0 && !curve.graduated
}

/// A sell is accepted only while the curve is open.
pub open spec fn open_for_sell(curve: CurveConfig) -> bool {
    curve.token_reserve > 0 && !curve.graduated
}

/// The trading fee charged on a buy: on the trade that would overshoot the
/// remaining aim, the reverse formula on the aim itself (the fee is levied on
/// top); otherwise the forward formula on the gross amount (the fee is taken
/// out of it).
pub open spec fn buy_trading_fee(fee_config: FeeConfig, curve: CurveConfig, amount_in: u128) -> int {
    if amount_in > curve.sol_aim {
        fee_amount_reverse(
            fee_config.trade_fee_numerator,
            fee_config.trade_fee_denominator,
            curve.sol_aim,
        )
    } else {
        fee_amount(fee_config.trade_fee_numerator, fee_config.trade_fee_denominator, amount_in)
    }
}

/// The fee-net base amount the curve actually accepts on a buy: the whole
/// remaining aim on the overshooting trade, the gross amount less its fee
/// otherwise.
pub open spec fn buy_net_amount(fee_config: FeeConfig, curve: CurveConfig, amount_in: u128) -> int {
    if amount_in > curve.sol_aim {
        curve.sol_aim as int
    } else {
        amount_in - buy_trading_fee(fee_config, curve, amount_in)
    }
}

/// Whether the buy graduates the curve: its net amount consumes the whole
/// remaining aim.
pub open spec fn buy_graduates(fee_config: FeeConfig, curve: CurveConfig, amount_in: u128) -> bool {
    buy_net_amount(fee_config, curve, amount_in) == curve.sol_aim
}

/// Tokens paid out by a buy: the curve quote, except that the graduating
/// trade drains the vault exactly, regardless of the quote's rounding.
pub open spec fn buy_amount_out(fee_config: FeeConfig, curve: CurveConfig, amount_in: u128) -> int {
    if buy_graduates(fee_config, curve, amount_in) {
        curve.token_reserve as int
    } else {
        curve.virtual_token_reserve - (curve.k as int) / (curve.virtual_sol_reserve
            + buy_net_amount(fee_config, curve, amount_in))
    }
}

/// The token-side virtual reserve after a buy: repriced from `k`, except on
/// the graduating trade, where it shrinks by exactly the tokens paid out.
pub open spec fn buy_new_virtual_token_reserve(
    fee_config: FeeConfig,
    curve: CurveConfig,
    amount_in: u128,
) -> int {
    if buy_graduates(fee_config, curve, amount_in) {
        curve.virtual_token_reserve - curve.token_reserve
    } else {
        (curve.k as int) / (curve.virtual_sol_reserve + buy_net_amount(
            fee_config,
            curve,
            amount_in,
        ))
    }
}

/// All checked arithmetic of a buy succeeds: the fee formula is defined and
/// its result fits the 64-bit reward distribution, the quote is defined, the
/// real reserves stay in range, and the payout does not exceed the vault.
pub open spec fn buy_arith_defined(
    fee_config: FeeConfig,
    curve: CurveConfig,
    amount_in: u128,
) -> bool {
    let fee = buy_trading_fee(fee_config, curve, amount_in);
    let net = buy_net_amount(fee_config, curve, amount_in);
    &&& (if amount_in > curve.sol_aim {
        fee_reverse_defined(
            fee_config.trade_fee_numerator,
            fee_config.trade_fee_denominator,
            curve.sol_aim,
        )
    } else {
        fee_defined(fee_config.trade_fee_numerator, fee_config.trade_fee_denominator, amount_in)
    })
    &&& fee <= u64::MAX
    &&& 0 <= net
    &&& curve.virtual_sol_reserve + net <= u128::MAX
    &&& 0 < curve.virtual_sol_reserve + net
    &&& (curve.k as int) / (curve.virtual_sol_reserve + net) <= curve.virtual_token_reserve
    &&& curve.sol_reserve + net <= u128::MAX
    &&& (buy_graduates(fee_config, curve, amount_in) ==> curve.token_reserve
        <= curve.virtual_token_reserve)
    &&& (!buy_graduates(fee_config, curve, amount_in) ==> buy_amount_out(
        fee_config,
        curve,
        amount_in,
    ) <= curve.token_reserve)
}

/// The curve state after a successful buy.
pub open spec fn buy_result_curve(
    fee_config: FeeConfig,
    curve: CurveConfig,
    amount_in: u128,
) -> CurveConfig {
    let net = buy_net_amount(fee_config, curve, amount_in);
    CurveConfig {
        virtual_token_reserve: buy_new_virtual_token_reserve(fee_config, curve, amount_in) as u128,
        virtual_sol_reserve: (curve.virtual_sol_reserve + net) as u128,
        token_reserve: (curve.token_reserve - buy_amount_out(fee_config, curve, amount_in)) as u128,
        token_max_supply: curve.token_max_supply,
        sol_reserve: (curve.sol_reserve + net) as u128,
        sol_aim: (curve.sol_aim - net) as u128,
        k: curve.k,
        graduated: buy_graduates(fee_config, curve, amount_in),
    }
}

/// Everything a successful buy computed, for the caller to act on: the
/// amounts to move (fee split, net proceeds, tokens out) and the reserve
/// values for the trade event.
#[derive(Clone, Copy, Debug)]
pub struct BuyOutcome {
    pub amount_out: u128,
    pub trading_fee: u128,
    pub amount_in_without_fee: u128,
    pub residue_fee: u64,
    pub total_reward_fee: u64,
    pub new_virtual_sol_reserve: u128,
    pub new_virtual_token_reserve: u128,
    pub graduated: bool,
}

/// Buy tokens with `amount_in` of the base asset (fee included), requiring at
/// least `amount_out_min` tokens out. On success the curve state and the
/// referral records are updated together; on any failure neither changes.
pub fn buy(
    curve_config: &mut CurveConfig,
    fee_config: &FeeConfig,
    amount_in: u128,
    amount_out_min: u128,
    recommend_accounts: &Vec<[u8; 32]>,
    recommend_pdas: &Vec<[u8; 32]>,
    records: &mut Vec<Option<FeeRecommendReward>>,
    program_id: &[u8; 32],
) -> (r: Result<BuyOutcome, SwapError>)
    requires
        recommend_accounts@.len() == recommend_pdas@.len(),
        old(records)@.len() == recommend_pdas@.len(),
    ensures
        r is Err ==> *final(curve_config) == *old(curve_config) && final(records)@ == old(
            records,
        )@,
        old(curve_config).graduated ==> final(curve_config).graduated,
        amount_in == 0 <==> r == Err::<BuyOutcome, SwapError>(SwapError::InvalidAmount),
        (amount_in > 0 && !open_for_buy(*old(curve_config))) <==> r == Err::<
            BuyOutcome,
            SwapError,
        >(SwapError::CurveClosed),
        (amount_in > 0 && open_for_buy(*old(curve_config)) && !buy_arith_defined(
            *fee_config,
            *old(curve_config),
            amount_in,
        )) ==> r == Err::<BuyOutcome, SwapError>(SwapError::ArithmeticFault),
        r == Err::<BuyOutcome, SwapError>(SwapError::SlippageExceeded) <==> (amount_in > 0
            && open_for_buy(*old(curve_config)) && buy_arith_defined(
            *fee_config,
            *old(curve_config),
            amount_in,
        ) && buy_amount_out(*fee_config, *old(curve_config), amount_in) < amount_out_min),
        r == Err::<BuyOutcome, SwapError>(SwapError::TooManyReferralTiers) <==> (amount_in > 0
            && open_for_buy(*old(curve_config)) && buy_arith_defined(
            *fee_config,
            *old(curve_config),
            amount_in,
        ) && buy_amount_out(*fee_config, *old(curve_config), amount_in) >= amount_out_min
            && recommend_accounts@.len() > 5),
        r is Ok <==> (amount_in > 0 && open_for_buy(*old(curve_config)) && buy_arith_defined(
            *fee_config,
            *old(curve_config),
            amount_in,
        ) && buy_amount_out(*fee_config, *old(curve_config), amount_in) >= amount_out_min && (
        forall|i: int|
            0 <= i < recommend_accounts@.len() ==> record_address_findable(
                recommend_accounts@[i]@,
                program_id@,
            )) && distribution_fault(
            buy_trading_fee(*fee_config, *old(curve_config), amount_in) as u64,
            fee_config.recommend_award_list@,
            derived_addresses(recommend_accounts@, program_id@),
            recommend_pdas@,
            old(records)@,
        ) is None),
        r matches Ok(outcome) ==> {
            let curve = *old(curve_config);
            let fee = buy_trading_fee(*fee_config, curve, amount_in);
            let net = buy_net_amount(*fee_config, curve, amount_in);
            let n = recommend_accounts@.len() as int;
            &&& amount_in > 0
            &&& open_for_buy(curve)
            &&& buy_arith_defined(*fee_config, curve, amount_in)
            &&& outcome.trading_fee == fee
            &&& outcome.amount_in_without_fee == net
            &&& outcome.amount_out == buy_amount_out(*fee_config, curve, amount_in)
            &&& outcome.amount_out >= amount_out_min
            &&& outcome.graduated == buy_graduates(*fee_config, curve, amount_in)
            &&& outcome.new_virtual_sol_reserve == curve.virtual_sol_reserve + net
            &&& outcome.new_virtual_token_reserve == buy_new_virtual_token_reserve(
                *fee_config,
                curve,
                amount_in,
            )
            &&& *final(curve_config) == buy_result_curve(*fee_config, curve, amount_in)
            &&& outcome.residue_fee + outcome.total_reward_fee == fee
            &&& outcome.total_reward_fee == total_tier_reward(
                fee as u64,
                fee_config.recommend_award_list@,
                n,
            )
            &&& forall|i: int|
                0 <= i < n ==> recommend_pdas@[i]@ == record_address_of(
                    recommend_accounts@[i]@,
                    program_id@,
                )
            &&& forall|i: int| 0 <= i < n ==> old(records)@[i] is Some
            &&& final(records)@.len() == old(records)@.len()
            &&& forall|i: int|
                0 <= i < n ==> final(records)@[i] == Some(
                    updated_record(
                        fee as u64,
                        fee_config.recommend_award_list@,
                        old(records)@[i]->Some_0,
                        i,
                    ),
                )
            &&& forall|i: int|
                0 <= i < n ==> old(records)@[i]->Some_0.unclaimed_sol + tier_reward(
                    fee as u64,
                    fee_config.recommend_award_list@[i],
                ) <= u64::MAX && old(records)@[i]->Some_0.total_reward + tier_reward(
                    fee as u64,
                    fee_config.recommend_award_list@[i],
                ) <= u64::MAX
            &&& forall|i: int|
                0 <= i < n ==> {
                    &&& final(records)@[i]->Some_0.unclaimed_sol
                        >= old(records)@[i]->Some_0.unclaimed_sol
                    &&& final(records)@[i]->Some_0.total_reward
                        >= old(records)@[i]->Some_0.total_reward
                }
            &&& forall|i: int|
                0 <= i < n && old(records)@[i]->Some_0.wf()
                    ==> final(records)@[i]->Some_0.wf()
            &&& (!outcome.graduated ==> {
                let result = buy_result_curve(*fee_config, curve, amount_in);
                &&& result.virtual_token_reserve * result.virtual_sol_reserve <= curve.k
                &&& curve.k - result.virtual_token_reserve * result.virtual_sol_reserve
                    < result.virtual_sol_reserve
            })
        },
{
    if amount_in == 0 {
        return Err(SwapError::InvalidAmount);
    }
    let curve = *curve_config;
    if !(curve.token_reserve > 0 && curve.sol_aim > 0 && curve.graduated == false) {
        return Err(SwapError::CurveClosed);
    }

    let fees = Fees {
        trade_fee_numerator: fee_config.trade_fee_numerator,
        trade_fee_denominator: fee_config.trade_fee_denominator,
        fee_receiver_account: fee_config.fee_receiver_account,
    };

    let trading_fee: u128;
    let amount_in_without_fee: u128;
    if amount_in > curve.sol_aim {
        trading_fee = match fees.calc_trading_fee_reverse(curve.sol_aim) {
            Some(fee) => fee,
            None => {
                return Err(SwapError::ArithmeticFault);
            },
        };
        amount_in_without_fee = curve.sol_aim;
    } else {
        trading_fee = match fees.calc_trading_fee(amount_in) {
            Some(fee) => fee,
            None => {
                return Err(SwapError::ArithmeticFault);
            },
        };
        amount_in_without_fee = match amount_in.checked_sub(trading_fee) {
            Some(net) => net,
            None => {
                return Err(SwapError::ArithmeticFault);
            },
        };
    }
    if trading_fee > u64::MAX as u128 {
        return Err(SwapError::ArithmeticFault);
    }
    let trading_fee_u64 = trading_fee as u64;

    let (quote_amount_out, new_virtual_sol_reserve, quote_new_virtual_token_reserve) =
        match calculator::buy(&curve, amount_in_without_fee) {
        Ok(quote) => quote,
        Err(e) => {
            return Err(e);
        },
    };

    let new_sol_aim = match curve.sol_aim.checked_sub(amount_in_without_fee) {
        Some(v) => v,
        None => {
            return Err(SwapError::ArithmeticFault);
        },
    };
    let new_sol_reserve = match curve.sol_reserve.checked_add(amount_in_without_fee) {
        Some(v) => v,
        None => {
            return Err(SwapError::ArithmeticFault);
        },
    };

    let amount_out: u128;
    let new_virtual_token_reserve: u128;
    let graduated: bool;
    if new_sol_aim == 0 {
        amount_out = curve.token_reserve;
        new_virtual_token_reserve = match curve.virtual_token_reserve.checked_sub(amount_out) {
            Some(v) => v,
            None => {
                return Err(SwapError::ArithmeticFault);
            },
        };
        graduated = true;
    } else {
        amount_out = quote_amount_out;
        new_virtual_token_reserve = quote_new_virtual_token_reserve;
        graduated = false;
    }
    let new_token_reserve = match curve.token_reserve.checked_sub(amount_out) {
        Some(v) => v,
        None => {
            return Err(SwapError::ArithmeticFault);
        },
    };

    if amount_out < amount_out_min {
        return Err(SwapError::SlippageExceeded);
    }

    let (residue_fee, total_reward_fee) = match fees.reward_recommend(
        trading_fee_u64,
        recommend_accounts,
        recommend_pdas,
        records,
        &fee_config.recommend_award_list,
        program_id,
    ) {
        Ok(split) => split,
        Err(e) => {
            return Err(e);
        },
    };

    curve_config.virtual_sol_reserve = new_virtual_sol_reserve;
    curve_config.virtual_token_reserve = new_virtual_token_reserve;
    curve_config.token_reserve = new_token_reserve;
    curve_config.sol_reserve = new_sol_reserve;
    curve_config.sol_aim = new_sol_aim;
    curve_config.graduated = graduated;

    Ok(
        BuyOutcome {
            amount_out,
            trading_fee,
            amount_in_without_fee,
            residue_fee,
            total_reward_fee,
            new_virtual_sol_reserve,
            new_virtual_token_reserve,
            graduated,
        },
    )
}

/// Round-trip loss law: a buy followed by a sell of exactly the tokens it
/// paid out, at the reserves the buy left behind, grosses at most the net
/// base amount the buy put in — so the trader cannot gain base asset, and
/// after fees strictly loses.
pub proof fn lemma_no_round_trip_gain(fee_config: FeeConfig, curve: CurveConfig, amount_in: u128)
    requires
        curve.wf(),
        buy_arith_defined(fee_config, curve, amount_in),
        !buy_graduates(fee_config, curve, amount_in),
    ensures
        ({
            let result = buy_result_curve(fee_config, curve, amount_in);
            let bought = buy_amount_out(fee_config, curve, amount_in);
            sell_gross_amount_out(result, bought as u128) <= buy_net_amount(
                fee_config,
                curve,
                amount_in,
            )
        }),
{
    // selling the bought tokens back restores the token-side reserve to
    // exactly what it was before the buy, so the sell reprices the base side
    // as k / virtual_token_reserve; since virtual_token_reserve *
    // virtual_sol_reserve <= k, that is at least the virtual_sol_reserve the
    // buy started from, and the gross difference is at most the net paid in.
    let vtr = curve.virtual_token_reserve as int;
    let vsr = curve.virtual_sol_reserve as int;
    vstd::arithmetic::div_mod::lemma_div_is_ordered(vtr * vsr, curve.k as int, vtr);
    vstd::arithmetic::div_mod::lemma_div_multiples_vanish(vsr, vtr);
    assert(vsr * vtr == vtr * vsr) by (nonlinear_arith);
}

/// The gross base-asset proceeds of a sell, before the fee.
pub open spec fn sell_gross_amount_out(curve: CurveConfig, amount_in: u128) -> int {
    curve.virtual_sol_reserve - (curve.k as int) / (curve.virtual_token_reserve + amount_in)
}

/// The trading fee taken out of a sell's gross proceeds.
pub open spec fn sell_trading_fee(fee_config: FeeConfig, curve: CurveConfig, amount_in: u128) -> int {
    fee_amount(
        fee_config.trade_fee_numerator,
        fee_config.trade_fee_denominator,
        sell_gross_amount_out(curve, amount_in) as u128,
    )
}

/// What the seller actually receives: the gross proceeds less the fee.
pub open spec fn sell_net_amount_out(
    fee_config: FeeConfig,
    curve: CurveConfig,
    amount_in: u128,
) -> int {
    sell_gross_amount_out(curve, amount_in) - sell_trading_fee(fee_config, curve, amount_in)
}

/// All checked arithmetic of a sell succeeds: the quote is defined, the fee
/// formula is defined, fits the 64-bit reward distribution and does not
/// exceed the gross proceeds, and the real reserves stay in range.
pub open spec fn sell_arith_defined(
    fee_config: FeeConfig,
    curve: CurveConfig,
    amount_in: u128,
) -> bool {
    let gross = sell_gross_amount_out(curve, amount_in);
    let fee = sell_trading_fee(fee_config, curve, amount_in);
    &&& curve.virtual_token_reserve + amount_in <= u128::MAX
    &&& 0 < curve.virtual_token_reserve + amount_in
    &&& (curve.k as int) / (curve.virtual_token_reserve + amount_in) <= curve.virtual_sol_reserve
    &&& fee_defined(
        fee_config.trade_fee_numerator,
        fee_config.trade_fee_denominator,
        gross as u128,
    )
    &&& fee <= u64::MAX
    &&& fee <= gross
    &&& curve.token_reserve + amount_in <= u128::MAX
    &&& 0 <= curve.sol_reserve - gross
    &&& curve.sol_aim + gross <= u128::MAX
}

/// The curve state after a successful sell. Selling reopens fundraising room
/// (`sol_aim` grows back), but never clears the graduation flag.
pub open spec fn sell_result_curve(curve: CurveConfig, amount_in: u128) -> CurveConfig {
    let gross = sell_gross_amount_out(curve, amount_in);
    CurveConfig {
        virtual_token_reserve: (curve.virtual_token_reserve + amount_in) as u128,
        virtual_sol_reserve: ((curve.k as int) / (curve.virtual_token_reserve
            + amount_in)) as u128,
        token_reserve: (curve.token_reserve + amount_in) as u128,
        token_max_supply: curve.token_max_supply,
        sol_reserve: (curve.sol_reserve - gross) as u128,
        sol_aim: (curve.sol_aim + gross) as u128,
        k: curve.k,
        graduated: curve.graduated,
    }
}

/// Everything a successful sell computed, for the caller to act on.
#[derive(Clone, Copy, Debug)]
pub struct SellOutcome {
    pub amount_out: u128,
    pub trading_fee: u128,
    pub amount_out_without_fee: u128,
    pub residue_fee: u64,
    pub total_reward_fee: u64,
    pub new_virtual_sol_reserve: u128,
    pub new_virtual_token_reserve: u128,
}

/// Sell `amount_in` tokens back to the curve, requiring at least
/// `amount_out_min` of the base asset out after the fee. On success the
/// curve state and the referral records are updated together; on any failure
/// neither changes.
pub fn sell(
    curve_config: &mut CurveConfig,
    fee_config: &FeeConfig,
    amount_in: u128,
    amount_out_min: u128,
    recommend_accounts: &Vec<[u8; 32]>,
    recommend_pdas: &Vec<[u8; 32]>,
    records: &mut Vec<Option<FeeRecommendReward>>,
    program_id: &[u8; 32],
) -> (r: Result<SellOutcome, SwapError>)
    requires
        recommend_accounts@.len() == recommend_pdas@.len(),
        old(records)@.len() == recommend_pdas@.len(),
    ensures
        r is Err ==> *final(curve_config) == *old(curve_config) && final(records)@ == old(
            records,
        )@,
        final(curve_config).graduated == old(curve_config).graduated,
        amount_in == 0 <==> r == Err::<SellOutcome, SwapError>(SwapError::InvalidAmount),
        (amount_in > 0 && !open_for_sell(*old(curve_config))) <==> r == Err::<
            SellOutcome,
            SwapError,
        >(SwapError::CurveClosed),
        (amount_in > 0 && open_for_sell(*old(curve_config)) && !sell_arith_defined(
            *fee_config,
            *old(curve_config),
            amount_in,
        )) ==> r == Err::<SellOutcome, SwapError>(SwapError::ArithmeticFault),
        r == Err::<SellOutcome, SwapError>(SwapError::SlippageExceeded) <==> (amount_in > 0
            && open_for_sell(*old(curve_config)) && sell_arith_defined(
            *fee_config,
            *old(curve_config),
            amount_in,
        ) && sell_net_amount_out(*fee_config, *old(curve_config), amount_in) < amount_out_min),
        r == Err::<SellOutcome, SwapError>(SwapError::TooManyReferralTiers) <==> (amount_in > 0
            && open_for_sell(*old(curve_config)) && sell_arith_defined(
            *fee_config,
            *old(curve_config),
            amount_in,
        ) && sell_net_amount_out(*fee_config, *old(curve_config), amount_in) >= amount_out_min
            && recommend_accounts@.len() > 5),
        r is Ok <==> (amount_in > 0 && open_for_sell(*old(curve_config)) && sell_arith_defined(
            *fee_config,
            *old(curve_config),
            amount_in,
        ) && sell_net_amount_out(*fee_config, *old(curve_config), amount_in) >= amount_out_min
            && (forall|i: int|
            0 <= i < recommend_accounts@.len() ==> record_address_findable(
                recommend_accounts@[i]@,
                program_id@,
            )) && distribution_fault(
            sell_trading_fee(*fee_config, *old(curve_config), amount_in) as u64,
            fee_config.recommend_award_list@,
            derived_addresses(recommend_accounts@, program_id@),
            recommend_pdas@,
            old(records)@,
        ) is None),
        r matches Ok(outcome) ==> {
            let curve = *old(curve_config);
            let gross = sell_gross_amount_out(curve, amount_in);
            let fee = sell_trading_fee(*fee_config, curve, amount_in);
            let n = recommend_accounts@.len() as int;
            &&& amount_in > 0
            &&& open_for_sell(curve)
            &&& sell_arith_defined(*fee_config, curve, amount_in)
            &&& outcome.amount_out == gross
            &&& outcome.trading_fee == fee
            &&& outcome.amount_out_without_fee == gross - fee
            &&& outcome.amount_out_without_fee >= amount_out_min
            &&& outcome.new_virtual_token_reserve == curve.virtual_token_reserve + amount_in
            &&& outcome.new_virtual_sol_reserve == (curve.k as int) / (curve.virtual_token_reserve
                + amount_in)
            &&& *final(curve_config) == sell_result_curve(curve, amount_in)
            &&& outcome.residue_fee + outcome.total_reward_fee == fee
            &&& outcome.total_reward_fee == total_tier_reward(
                fee as u64,
                fee_config.recommend_award_list@,
                n,
            )
            &&& forall|i: int|
                0 <= i < n ==> recommend_pdas@[i]@ == record_address_of(
                    recommend_accounts@[i]@,
                    program_id@,
                )
            &&& forall|i: int| 0 <= i < n ==> old(records)@[i] is Some
            &&& final(records)@.len() == old(records)@.len()
            &&& forall|i: int|
                0 <= i < n ==> final(records)@[i] == Some(
                    updated_record(
                        fee as u64,
                        fee_config.recommend_award_list@,
                        old(records)@[i]->Some_0,
                        i,
                    ),
                )
            &&& forall|i: int|
                0 <= i < n ==> old(records)@[i]->Some_0.unclaimed_sol + tier_reward(
                    fee as u64,
                    fee_config.recommend_award_list@[i],
                ) <= u64::MAX && old(records)@[i]->Some_0.total_reward + tier_reward(
                    fee as u64,
                    fee_config.recommend_award_list@[i],
                ) <= u64::MAX
            &&& forall|i: int|
                0 <= i < n ==> {
                    &&& final(records)@[i]->Some_0.unclaimed_sol
                        >= old(records)@[i]->Some_0.unclaimed_sol
                    &&& final(records)@[i]->Some_0.total_reward
                        >= old(records)@[i]->Some_0.total_reward
                }
            &&& forall|i: int|
                0 <= i < n && old(records)@[i]->Some_0.wf()
                    ==> final(records)@[i]->Some_0.wf()
            &&& {
                let result = sell_result_curve(curve, amount_in);
                &&& result.virtual_token_reserve * result.virtual_sol_reserve <= curve.k
                &&& curve.k - result.virtual_token_reserve * result.virtual_sol_reserve
                    < result.virtual_token_reserve
            }
        },
{
    if amount_in == 0 {
        return Err(SwapError::InvalidAmount);
    }
    let curve = *curve_config;
    if !(curve.token_reserve > 0 && curve.graduated == false) {
        return Err(SwapError::CurveClosed);
    }

    let (amount_out, new_virtual_sol_reserve, new_virtual_token_reserve) = match calculator::sell(
        &curve,
        amount_in,
    ) {
        Ok(quote) => quote,
        Err(e) => {
            return Err(e);
        },
    };

    let fees = Fees {
        trade_fee_numerator: fee_config.trade_fee_numerator,
        trade_fee_denominator: fee_config.trade_fee_denominator,
        fee_receiver_account: fee_config.fee_receiver_account,
    };

    let trading_fee = match fees.calc_trading_fee(amount_out) {
        Some(fee) => fee,
        None => {
            return Err(SwapError::ArithmeticFault);
        },
    };
    if trading_fee > u64::MAX as u128 {
        return Err(SwapError::ArithmeticFault);
    }
    let trading_fee_u64 = trading_fee as u64;

    let amount_out_without_fee = match amount_out.checked_sub(trading_fee) {
        Some(net) => net,
        None => {
            return Err(SwapError::ArithmeticFault);
        },
    };
    let new_token_reserve = match curve.token_reserve.checked_add(amount_in) {
        Some(v) => v,
        None => {
            return Err(SwapError::ArithmeticFault);
        },
    };
    let new_sol_reserve = match curve.sol_reserve.checked_sub(amount_out) {
        Some(v) => v,
        None => {
            return Err(SwapError::ArithmeticFault);
        },
    };
    let new_sol_aim = match curve.sol_aim.checked_add(amount_out) {
        Some(v) => v,
        None => {
            return Err(SwapError::ArithmeticFault);
        },
    };

    if amount_out_without_fee < amount_out_min {
        return Err(SwapError::SlippageExceeded);
    }

    let (residue_fee, total_reward_fee) = match fees.reward_recommend(
        trading_fee_u64,
        recommend_accounts,
        recommend_pdas,
        records,
        &fee_config.recommend_award_list,
        program_id,
    ) {
        Ok(split) => split,
        Err(e) => {
            return Err(e);
        },
    };

    curve_config.virtual_sol_reserve = new_virtual_sol_reserve;
    curve_config.virtual_token_reserve = new_virtual_token_reserve;
    curve_config.token_reserve = new_token_reserve;
    curve_config.sol_reserve = new_sol_reserve;
    curve_config.sol_aim = new_sol_aim;

    Ok(
        SellOutcome {
            amount_out,
            trading_fee,
            amount_out_without_fee,
            residue_fee,
            total_reward_fee,
            new_virtual_sol_reserve,
            new_virtual_token_reserve,
        },
    )
}

} // verus!


