//! Structured trade and graduation notifications, emitted by the caller after
//! every successful operation. They carry only plain values; how they are
//! serialized and logged is the caller's concern.

use vstd::prelude::*;

verus! {

/// Emitted after every successful buy.
#[derive(Clone, Debug)]
pub struct BuyEvent {
    /// user
    pub u: String,
    /// user's token account
    pub ua: String,
    /// token mint
    pub mint: String,
    /// virtual_sol_reserve before the trade
    pub vsr: u128,
    /// virtual_token_reserve before the trade
    pub vtr: u128,
    /// new_virtual_sol_reserve
    pub nvsr: u128,
    /// new_virtual_token_reserve
    pub nvtr: u128,
    /// fee
    pub f: u128,
    /// amount_in
    pub i: u128,
    /// amount_out
    pub o: u128,
    /// timestamp
    pub t: u64,
}

/// Emitted exactly once, at the trade that graduates the curve.
#[derive(Clone, Debug)]
pub struct TokenGraduated {
    pub mint: String,
}

/// Emitted after every successful sell.
#[derive(Clone, Debug)]
pub struct SellEvent {
    /// user
    pub u: String,
    /// user's token account
    pub ua: String,
    /// token mint
    pub mint: String,
    /// virtual_sol_reserve before the trade
    pub vsr: u128,
    /// virtual_token_reserve before the trade
    pub vtr: u128,
    /// new_virtual_sol_reserve
    pub nvsr: u128,
    /// new_virtual_token_reserve
    pub nvtr: u128,
    /// fee
    pub f: u128,
    /// amount_in
    pub i: u128,
    /// amount_out
    pub o: u128,
    /// timestamp
    pub t: u64,
}

/// Emitted after a new token is listed.
#[derive(Clone, Debug)]
pub struct CreateTokenEvent {
    /// identifier
    pub id: String,
    /// user
    pub u: String,
    /// token mint
    pub mint: String,
    /// airdrop amount
    pub aa: u64,
    /// max supply
    pub ms: u128,
    /// total supply
    pub ts: u64,
    /// initial virtual sol reserve
    pub rs: u128,
    /// initial virtual token reserve
    pub rt: u128,
}

} // verus!
