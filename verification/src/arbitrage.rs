//! The Arbitrage Detector: a stateless check over a completed pair.
//!
//! Buying one YES and one NO contract always redeems for exactly one unit
//! (`PRICE_SCALE`), so whenever the two best asks add up to less than the
//! unit, the difference is a guaranteed gain. Detection is permissive — it
//! fires on any gain at or above the configured threshold — while the
//! execution decision applies a second, stricter spread margin.

use vstd::prelude::*;

use crate::book::{BookSnapshot, PRICE_SCALE};

verus! {

/// A detected chance to buy both outcomes for less than the unit payout.
#[derive(Clone, Copy, Debug, PartialEq, Eq)]
pub struct ArbitrageOpportunity {
    /// Market whose pair showed the gap.
    pub market_id: u64,
    /// Instrument id of the YES side.
    pub yes_token_id: u64,
    /// Instrument id of the NO side.
    pub no_token_id: u64,
    /// Best ask of the YES side when detected.
    pub yes_ask_price: u64,
    /// Best ask of the NO side when detected.
    pub no_ask_price: u64,
    /// `PRICE_SCALE` minus the combined cost: the guaranteed gain per unit.
    pub profit_fraction: u64,
}

/// Buying both sides at these asks leaves at least `margin` of the unit
/// payout: `yes_ask + no_ask <= PRICE_SCALE - margin`.
pub open spec fn cost_within(yes_ask: int, no_ask: int, margin: int) -> bool {
    yes_ask + no_ask + margin <= PRICE_SCALE
}

/// What detection returns on a pair of snapshots: an opportunity carrying
/// the asks and the profit fraction exactly when both asks are known and
/// the profit fraction reaches the threshold, nothing otherwise.
pub open spec fn spec_opportunity(
    yes_book: BookSnapshot,
    no_book: BookSnapshot,
    market_id: u64,
    threshold: int,
) -> Option<ArbitrageOpportunity> {
    match (yes_book.best_ask, no_book.best_ask) {
        (Some(ya), Some(na)) => if cost_within(ya as int, na as int, threshold) {
            Some(
                (ArbitrageOpportunity {
                    market_id,
                    yes_token_id: yes_book.asset_id,
                    no_token_id: no_book.asset_id,
                    yes_ask_price: ya,
                    no_ask_price: na,
                    profit_fraction: (PRICE_SCALE - ya - na) as u64,
                }),
            )
        } else {
            None
        },
        _ => None,
    }
}

/// Checks pairs for a combined cost below the unit payout.
pub struct ArbitrageDetector {
    min_profit_threshold: u64,
}

impl ArbitrageDetector {
    /// The least profit fraction (in `PRICE_SCALE` steps of the unit) that
    /// makes detection fire.
    pub closed spec fn threshold(&self) -> u64 {
        self.min_profit_threshold
    }

    /// A detector that fires at gains of `min_profit_threshold` or more.
    pub fn new(min_profit_threshold: u64) -> (r: ArbitrageDetector)
        ensures
            r.threshold() == min_profit_threshold,
    {
        ArbitrageDetector { min_profit_threshold }
    }

    /// Computes the combined cost of covering both outcomes at the current
    /// best asks and reports an opportunity exactly when the implied profit
    /// fraction, `PRICE_SCALE - yes_ask - no_ask`, reaches the detector's
    /// threshold; reports nothing when either ask side is empty.
    pub fn check_arbitrage(
        &self,
        yes_book: &BookSnapshot,
        no_book: &BookSnapshot,
        market_id: u64,
    ) -> (r: Option<ArbitrageOpportunity>)
        ensures
            r == spec_opportunity(*yes_book, *no_book, market_id, self.threshold() as int),
    {
        let ya = match yes_book.best_ask {
            Some(v) => v,
            None => {
                return None;
            },
        };
        let na = match no_book.best_ask {
            Some(v) => v,
            None => {
                return None;
            },
        };
        let cost: u128 = ya as u128 + na as u128;
        if cost + (self.min_profit_threshold as u128) <= PRICE_SCALE as u128 {
            let profit: u64 = PRICE_SCALE - ya - na;
            Some(
                ArbitrageOpportunity {
                    market_id,
                    yes_token_id: yes_book.asset_id,
                    no_token_id: no_book.asset_id,
                    yes_ask_price: ya,
                    no_ask_price: na,
                    profit_fraction: profit,
                },
            )
        } else {
            None
        }
    }
}

/// The execution-side gate, stricter than detection: acting on the
/// opportunity must also leave the configured execution spread margin of
/// the unit payout uncommitted.
pub fn passes_execution_gate(opportunity: &ArbitrageOpportunity, execution_spread: u64) -> (r:
    bool)
    ensures
        r == cost_within(
            opportunity.yes_ask_price as int,
            opportunity.no_ask_price as int,
            execution_spread as int,
        ),
{
    (opportunity.yes_ask_price as u128) + (opportunity.no_ask_price as u128) + (
    execution_spread as u128) <= PRICE_SCALE as u128
}

} // verus!
