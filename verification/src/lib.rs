//! Market-pair streaming and signal detection for paired binary-outcome
//! markets (YES/NO contracts on one underlying event).
//!
//! The crate keeps the latest order-book snapshot per instrument, pairs the
//! two sides of each registered market into decision-ready snapshots, and
//! evaluates two independent trading signals over those pairs: cross-market
//! arbitrage and single-leg price momentum ("scalp"), with a per-day trade
//! budget and a position lifecycle per market.
//!
//! Prices are fixed-point fractions of the unit payout (see
//! [`book::PRICE_SCALE`]); instruments and markets are identified by plain
//! integer ids; clock readings enter as plain second counts. Feed transport,
//! order submission and configuration loading stay outside this crate.
#![verifier::loop_isolation(false)]

pub mod arbitrage;
pub mod book;
pub mod cache;
pub mod engine;
pub mod monitor;
pub mod registry;
pub mod scalp;
