//! An automated market-maker exchange library: a constant-product pricing
//! engine, the liquidity accounting and swap orchestration of a trading pair,
//! and a factory registry for deployed pairs.
//!
//! The library is pure: every entry point is a function from the pair's
//! current state and a freshly queried ledger snapshot to a new state and a
//! list of outbound instructions.  The host that owns storage, performs
//! balance queries and executes the instructions lives outside the library.

pub mod asset;
pub mod decimal;
pub mod errors;
pub mod factory;
pub mod math;
pub mod pair;
pub mod pricing;
pub mod router;
