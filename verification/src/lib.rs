//! Core of a bonding-curve token sale: a constant-product pricing engine with
//! a tiered trading fee that is partly redistributed to referral accounts and
//! partly collected by a protocol treasury. The curve permanently closes
//! ("graduates") once a configured base-asset target has been raised.

pub mod calculator;
pub mod config;
pub mod curve;
pub mod error;
pub mod events;
pub mod fee;
pub mod pda;
pub mod reward;
pub mod swap;
