//! Bonding-curve state: the virtual reserves that price trades, the real
//! reserves held by the sale, and the graduation flag that permanently closes
//! the curve once the fundraising target is met.

use vstd::prelude::*;

use crate::error::SwapError;
use crate::config::InitTokenConfig;

verus! {

/// Per-token curve state, mutated in place by one trade at a time.
#[derive(Clone, Copy, Debug, PartialEq, Eq, Structural)]
pub struct CurveConfig {
    pub virtual_token_reserve: u128,
    pub virtual_sol_reserve: u128,
    pub token_reserve: u128,
    pub token_max_supply: u128,
    pub sol_reserve: u128,
    pub sol_aim: u128,
    pub k: u128,
    pub graduated: bool,
}

impl CurveConfig {
    /// Well-formedness of an active curve: both virtual reserves are
    /// positive and their product never exceeds the invariant `k` fixed at
    /// creation (curve updates only ever round the product downwards).
    pub open spec fn wf(self) -> bool {
        &&& 1 <= self.virtual_token_reserve
        &&& 1 <= self.virtual_sol_reserve
        &&& self.virtual_token_reserve * self.virtual_sol_reserve <= self.k
    }
}

/// Build the curve state for a newly listed token: the virtual reserves and
/// the fundraising aim come from the initialization parameters, the whole
/// maximum supply sits in the sale vault, nothing has been raised yet, and
/// `k` is fixed as the product of the two initial virtual reserves.
pub fn create_token(init_token_config: &InitTokenConfig) -> (r: Result<CurveConfig, SwapError>)
    ensures
        r is Ok <==> init_token_config.init_virtual_token_reserve
            * init_token_config.init_virtual_sol_reserve <= u128::MAX,
        r matches Ok(curve) ==> {
            &&& curve.virtual_token_reserve == init_token_config.init_virtual_token_reserve
            &&& curve.virtual_sol_reserve == init_token_config.init_virtual_sol_reserve
            &&& curve.token_reserve == init_token_config.token_max_supply
            &&& curve.token_max_supply == init_token_config.token_max_supply
            &&& curve.sol_reserve == 0
            &&& curve.sol_aim == init_token_config.sol_aim
            &&& curve.k == init_token_config.init_virtual_token_reserve
                * init_token_config.init_virtual_sol_reserve
            &&& curve.graduated == false
        },
        r matches Ok(curve) ==> ((init_token_config.init_virtual_token_reserve >= 1
            && init_token_config.init_virtual_sol_reserve >= 1) ==> curve.wf()),
        r matches Err(e) ==> e == SwapError::ArithmeticFault,
{
    let init_virtual_token_reserve = init_token_config.init_virtual_token_reserve;
    let init_virtual_sol_reserve = init_token_config.init_virtual_sol_reserve;

    let k = match init_virtual_token_reserve.checked_mul(init_virtual_sol_reserve) {
        Some(k) => k,
        None => {
            return Err(SwapError::ArithmeticFault);
        },
    };

    Ok(
        CurveConfig {
            virtual_token_reserve: init_virtual_token_reserve,
            virtual_sol_reserve: init_virtual_sol_reserve,
            token_reserve: init_token_config.token_max_supply,
            token_max_supply: init_token_config.token_max_supply,
            sol_reserve: 0,
            sol_aim: init_token_config.sol_aim,
            k,
            graduated: false,
        },
    )
}

} // verus!
