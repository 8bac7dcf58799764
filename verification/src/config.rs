//! Configuration objects handed to the trading core by its caller: the fee
//! schedule, the parameters every new curve is initialized from, and the
//! administrative accounts. The core never self-initializes these; the two
//! `initialize` functions build the fixed deployment configuration.

use vstd::prelude::*;

verus! {

/// The fee schedule: the trading-fee rate, the flat listing fee, the treasury
/// account, and the referral tier table in basis points.
#[derive(Clone, Copy, Debug)]
pub struct FeeConfig {
    pub trade_fee_numerator: u64,
    pub trade_fee_denominator: u64,
    pub creation_fee: u64,
    pub fee_receiver_account: [u8; 32],
    pub recommend_award_list: [u16; 5],
}

/// The administrative accounts of the deployment.
#[derive(Clone, Copy, Debug)]
pub struct ProgramSystemAccount {
    pub owner: [u8; 32],
    pub admin: [u8; 32],
    pub migration_account: [u8; 32],
}

/// The parameters every newly listed curve starts from.
#[derive(Clone, Copy, Debug, PartialEq, Eq, Structural)]
pub struct InitTokenConfig {
    pub init_virtual_token_reserve: u128,
    pub init_virtual_sol_reserve: u128,
    pub mint_amount: u64,
    pub token_total_supply: u128,
    pub token_max_supply: u128,
    pub sol_aim: u128,
}

/// Deployment metadata.
#[derive(Clone, Copy, Debug)]
pub struct ProgramConfig {
    pub version: [u8; 8],
}

/// Listing metadata for a new token, passed through to the external metadata
/// registrar.
#[derive(Clone, Debug)]
pub struct InitTokenParams {
    pub name: String,
    pub symbol: String,
    pub uri: String,
    pub decimals: u8,
}

/// First initialization step: the fee schedule (a 1% trading fee, a flat
/// listing fee of 0.02 base units, and referral tiers of 20% and 10% of the
/// trading fee) and the administrative accounts.
pub fn initialize1(owner: [u8; 32], migration_account: [u8; 32], fee_receiver_account: [u8; 32])
    -> (r: (FeeConfig, ProgramSystemAccount))
    ensures
        r.0.trade_fee_numerator == 1,
        r.0.trade_fee_denominator == 100,
        r.0.creation_fee == 20000000,
        r.0.fee_receiver_account == fee_receiver_account,
        r.0.recommend_award_list@ == seq![2000u16, 1000u16, 0u16, 0u16, 0u16],
        r.1.owner == owner,
        r.1.admin == owner,
        r.1.migration_account == migration_account,
{
    let fee_config = FeeConfig {
        trade_fee_numerator: 1,
        trade_fee_denominator: 100,
        creation_fee: 20000000,  // 0.02 SOL
        fee_receiver_account,
        recommend_award_list: [2000, 1000, 0, 0, 0],
    };
    let program_system_account = ProgramSystemAccount { owner, admin: owner, migration_account };
    proof {
        assert(fee_config.recommend_award_list@ =~= seq![2000u16, 1000u16, 0u16, 0u16, 0u16]);
    }
    (fee_config, program_system_account)
}

/// Second initialization step: the curve-initialization parameters and the
/// deployment version ("0.1.0" as zero-padded ASCII bytes).
pub fn initialize2() -> (r: (InitTokenConfig, ProgramConfig))
    ensures
        r.0.init_virtual_token_reserve == 1_038_000_000_000000000u128,
        r.0.init_virtual_sol_reserve == 21_000000000u128,
        r.0.mint_amount == 1_000_000_000_000000000u64,
        r.0.token_total_supply == 1_000_000_000_000000000u128,
        r.0.token_max_supply == 745_100_000_000000000u128,
        r.0.sol_aim == 53_420000000u128,
        r.1.version@ == seq![48u8, 46u8, 49u8, 46u8, 48u8, 0u8, 0u8, 0u8],
{
    let init_token_config = InitTokenConfig {
        init_virtual_token_reserve: 1_038_000_000_000000000,
        init_virtual_sol_reserve: 21_000000000,
        mint_amount: 1_000_000_000_000000000,
        token_total_supply: 1_000_000_000_000000000,
        token_max_supply: 745_100_000_000000000,
        sol_aim: 53_420000000,
    };
    // ASCII bytes of "0.1.0", zero-padded to the fixed field width
    let program_config = ProgramConfig { version: [48, 46, 49, 46, 48, 0, 0, 0] };
    proof {
        assert(program_config.version@ =~= seq![48u8, 46u8, 49u8, 46u8, 48u8, 0u8, 0u8, 0u8]);
    }
    (init_token_config, program_config)
}

} // verus!
