use vstd::prelude::*;

verus! {

/// Errors surfaced by the trading core. Every failure of a single trade aborts
/// that trade as a whole: no partial state change is ever visible afterwards.
#[derive(Clone, Copy, Debug, PartialEq, Eq, Structural)]
pub enum SwapError {
    /// The requested trade size is zero.
    InvalidAmount,
    /// The curve has graduated (or its vault is exhausted); trading is closed.
    CurveClosed,
    /// The quoted output is worse than the caller's stated minimum.
    SlippageExceeded,
    /// Overflow, underflow or division by zero in a checked operation.
    ArithmeticFault,
    /// A supplied referral-record location is not the one derived from the
    /// referrer's identity.
    ReferralRecordMismatch,
    /// A referral record was never created for the supplied referrer.
    ReferralRecordUninitialized,
    /// More referrer entries were supplied than there are referral tiers.
    TooManyReferralTiers,
}

} // verus!
