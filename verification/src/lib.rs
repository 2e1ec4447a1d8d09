//! Verified routing and fee-skimming middleware for AMM deposit and swap
//! operations: a wire codec for the compact instruction format, positional
//! account routing, percentage fee computation with a minimum-fee floor, and
//! orchestration of the forward call and skim transfers under all-or-nothing
//! semantics.

pub mod account;
pub mod call;
mod error;
pub mod fees;
pub mod instruction;
pub mod processor;
pub mod router;
pub mod unit;

pub use error::AmmError;
