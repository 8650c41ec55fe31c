//! The per-pair decision step of the detection loop: once an update has
//! produced a complete pair, both detectors evaluate it independently and
//! the execution gate decides whether a detected arbitrage may be acted on.
//! The caller (the unverified loop around the feed) only performs what this
//! step decides: it spawns an execution attempt exactly when
//! `execute_arbitrage` is set, passing the immutable opportunity data along.

use vstd::prelude::*;

use crate::arbitrage::{cost_within, spec_opportunity, ArbitrageDetector, ArbitrageOpportunity};
use crate::book::OrderBookPair;
use crate::scalp::{after_detect, signal_of, ScalpState, MAX_MOMENTUM_THRESHOLD};

verus! {

/// What one completed pair led to.
#[derive(Clone, Copy, Debug, PartialEq, Eq)]
pub struct PairDecision {
    /// Momentum signal on the pair's YES book (side effect: the market's
    /// baseline was advanced to this observation).
    pub scalp_signal: bool,
    /// The arbitrage opportunity the pair shows, if any.
    pub opportunity: Option<ArbitrageOpportunity>,
    /// Whether the detected opportunity also passes the stricter execution
    /// spread gate and should be handed to the execution collaborator.
    pub execute_arbitrage: bool,
}

/// Evaluates one completed pair: one momentum step on the YES book (which
/// advances that market's baseline), one stateless arbitrage check, and the
/// execution gate over the detected opportunity.
pub fn evaluate_pair(
    scalp: &mut ScalpState,
    detector: &ArbitrageDetector,
    pair: &OrderBookPair,
    momentum_threshold: u64,
    execution_spread: u64,
) -> (d: PairDecision)
    requires
        momentum_threshold <= MAX_MOMENTUM_THRESHOLD,
    ensures
        d.scalp_signal == signal_of(old(scalp)@, pair.market_id, pair.yes_book, momentum_threshold),
        final(scalp)@ == after_detect(old(scalp)@, pair.market_id, pair.yes_book),
        d.opportunity == spec_opportunity(
            pair.yes_book,
            pair.no_book,
            pair.market_id,
            detector.threshold() as int,
        ),
        d.execute_arbitrage == (d.opportunity matches Some(opp) && cost_within(
            opp.yes_ask_price as int,
            opp.no_ask_price as int,
            execution_spread as int,
        )),
{
    let scalp_signal = scalp.detect_signal(pair.market_id, &pair.yes_book, momentum_threshold);
    let opportunity = detector.check_arbitrage(&pair.yes_book, &pair.no_book, pair.market_id);
    let execute_arbitrage = match &opportunity {
        Some(opp) => crate::arbitrage::passes_execution_gate(opp, execution_spread),
        None => false,
    };
    PairDecision { scalp_signal, opportunity, execute_arbitrage }
}

} // verus!
