//! The Conditional Token Framework: tokens for the outcomes of a market, minted
//! from collateral, merged back into it, and redeemed once the market resolves.

pub mod calls;
pub mod client;
pub mod config;
pub mod error;
pub mod laws;
pub mod transaction;
pub mod types;
