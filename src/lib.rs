//! A multi-market trading engine core: a shared position ledger, per-market
//! decision cycles, pluggable signal policies and an order-fill pipeline.
//!
//! Prices are fixed-point integers: one unit of price is `1 / PRICE_SCALE`
//! of the quote currency.
use vstd::prelude::*;

pub mod indicators;
pub mod laws;
pub mod market;
pub mod order_engine;
pub mod portfolio;
pub mod strategies;
pub mod trader;
pub mod trading_engine;

verus! {

/// Number of price units in one whole unit of the quote currency.
pub const PRICE_SCALE: i64 = 1_000_000;

} // verus!
