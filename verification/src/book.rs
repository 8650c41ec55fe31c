//! The price model and per-instrument book snapshots.
//!
//! A price is a fixed-point fraction of the unit payout: the value `p`
//! stands for `p / PRICE_SCALE` units, so `PRICE_SCALE` itself is the
//! guaranteed payout of one full YES+NO position.

use vstd::prelude::*;

verus! {

/// Number of fixed-point price steps in one unit of payout.
pub const PRICE_SCALE: u64 = 1_000_000;

/// The latest known best bid and best ask for one instrument, tagged with
/// the instrument (token) id the feed reported it for. A side that has no
/// resting orders is `None`. Replaced wholesale on every update.
#[derive(Clone, Copy, Debug, PartialEq, Eq)]
pub struct BookSnapshot {
    /// Instrument the snapshot belongs to.
    pub asset_id: u64,
    /// Best (highest) bid price, if any order rests on the bid side.
    pub best_bid: Option<u64>,
    /// Best (lowest) ask price, if any order rests on the ask side.
    pub best_ask: Option<u64>,
}

impl BookSnapshot {
    /// Twice the mid-price (best bid plus best ask), defined only when both
    /// sides of the book are non-empty. Working with the sum keeps every
    /// comparison exact: the fraction `(mid - base) / base` is unchanged by
    /// the common factor of two.
    pub open spec fn spec_mid_sum(self) -> Option<int> {
        match (self.best_bid, self.best_ask) {
            (Some(b), Some(a)) => Some(b + a),
            _ => None,
        }
    }

    /// Best bid plus best ask, or `None` when either side of the book is
    /// empty.
    pub fn mid_sum(&self) -> (r: Option<u128>)
        ensures
            r is Some <==> self.spec_mid_sum() is Some,
            r matches Some(m) ==> self.spec_mid_sum() == Some(m as int),
    {
        match (self.best_bid, self.best_ask) {
            (Some(b), Some(a)) => Some(b as u128 + a as u128),
            _ => None,
        }
    }
}

/// Synchronized view of one market: the current snapshot of its YES and NO
/// instruments. Produced only when both sides have been observed at least
/// once; the side whose update produced the pair is fresh, the other side is
/// the freshest cached snapshot.
#[derive(Clone, Copy, Debug, PartialEq, Eq)]
pub struct OrderBookPair {
    /// Snapshot of the YES instrument.
    pub yes_book: BookSnapshot,
    /// Snapshot of the NO instrument.
    pub no_book: BookSnapshot,
    /// Market the two instruments belong to.
    pub market_id: u64,
}

} // verus!
