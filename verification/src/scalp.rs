//! The Momentum ("scalp") Detector: a per-market sliding single-sample
//! baseline of the mid-price, an open/close position lifecycle, and a trade
//! budget that survives sessions.
//!
//! Every detection call compares against the mid-price stored by the
//! previous call and then overwrites it, whether or not a signal fired:
//! sub-threshold drift never accumulates into a signal. The budget counter
//! only ever grows, except through an explicit external reset.

use std::collections::HashMap;
use vstd::prelude::*;

use crate::book::{BookSnapshot, PRICE_SCALE};

verus! {

broadcast use vstd::std_specs::hash::group_hash_axioms;

/// Largest momentum threshold the detector accepts: one million times the
/// baseline (`PRICE_SCALE * PRICE_SCALE` fixed-point steps). Far beyond any
/// observable relative move; bounding the threshold keeps the comparison
/// arithmetic within machine integers.
pub const MAX_MOMENTUM_THRESHOLD: u64 = 1_000_000 * 1_000_000;

/// One open scalp position on a market.
#[derive(Clone, Copy, Debug, PartialEq, Eq)]
pub struct ScalpPosition {
    /// Price at which the position was entered.
    pub entry_price: u64,
    /// Notional size committed, in fixed-point currency units.
    pub size_usdc: u64,
    /// Clock reading (seconds) when the position was opened.
    pub opened_at: u64,
}

/// The mathematical state of the detector: the last observed (bid, ask) of
/// each market's YES book, the open position per market, and the count of
/// trades opened.
#[verifier::ext_equal]
pub struct ScalpView {
    /// Per market, the best bid and best ask of the last observation that
    /// had both sides; their sum is twice the baseline mid-price.
    pub baselines: Map<u64, (u64, u64)>,
    /// Per market, the open position, if any.
    pub positions: Map<u64, ScalpPosition>,
    /// Trades opened since the last explicit budget reset.
    pub trades_today: nat,
}

/// Best bid plus best ask: twice the mid-price the pair records.
pub open spec fn pair_sum(p: (u64, u64)) -> int {
    p.0 + p.1
}

/// The momentum predicate: the move from the baseline mid-price to the new
/// one is at least `threshold / PRICE_SCALE` of the baseline, in magnitude.
/// Stated without division as `|new - base| * PRICE_SCALE >= threshold *
/// base`, which for positive baselines is exactly `|delta| >= threshold`
/// with `delta = (new - base) / base`; both sides carry the common factor
/// of two from working with bid+ask sums, so the fraction is unchanged.
pub open spec fn momentum_fires(baseline: int, mid_sum: int, threshold: int) -> bool {
    (if mid_sum >= baseline {
        mid_sum - baseline
    } else {
        baseline - mid_sum
    }) * PRICE_SCALE >= threshold * baseline
}

/// Whether a detection call on this book signals: only when the book has
/// both sides, a baseline for the market exists (a first observation never
/// signals, whatever its price), and the move reaches the threshold.
pub open spec fn signal_of(v: ScalpView, market_id: u64, book: BookSnapshot, threshold: u64) -> bool {
    match book.spec_mid_sum() {
        Some(m) => v.baselines.contains_key(market_id) && momentum_fires(
            pair_sum(v.baselines[market_id]),
            m,
            threshold as int,
        ),
        None => false,
    }
}

/// The detector state after a detection call: the baseline is overwritten
/// with the new observation whenever the book has both sides — whether or
/// not a signal fired — and nothing else changes. A one-sided book changes
/// nothing.
pub open spec fn after_detect(v: ScalpView, market_id: u64, book: BookSnapshot) -> ScalpView {
    match (book.best_bid, book.best_ask) {
        (Some(b), Some(a)) => ScalpView {
            baselines: v.baselines.insert(market_id, (b, a)),
            ..v
        },
        _ => v,
    }
}

/// The state after opening a position: the market's position is inserted or
/// replaced and the trade budget grows by exactly one.
pub open spec fn after_open(
    v: ScalpView,
    market_id: u64,
    entry_price: u64,
    size_usdc: u64,
    now: u64,
) -> ScalpView {
    ScalpView {
        positions: v.positions.insert(
            market_id,
            (ScalpPosition { entry_price, size_usdc, opened_at: now }),
        ),
        trades_today: v.trades_today + 1,
        ..v
    }
}

/// The state after closing a position: the market's position is gone; the
/// trade budget and the baselines are untouched.
pub open spec fn after_close(v: ScalpView, market_id: u64) -> ScalpView {
    ScalpView { positions: v.positions.remove(market_id), ..v }
}

/// The state after a session ends: per-session state (baselines, open
/// positions) is discarded, the cross-session trade budget is kept.
pub open spec fn after_session_reset(v: ScalpView) -> ScalpView {
    ScalpView { baselines: Map::empty(), positions: Map::empty(), trades_today: v.trades_today }
}

/// The state after the explicit external budget reset (e.g. daily
/// rollover): only the trade counter returns to zero.
pub open spec fn after_budget_reset(v: ScalpView) -> ScalpView {
    ScalpView { trades_today: 0, ..v }
}

/// A market's position is expired at `now` when one is open and its age has
/// reached `max_hold`; a market with no open position is never expired.
pub open spec fn spec_is_expired(v: ScalpView, market_id: u64, max_hold: u64, now: u64) -> bool {
    v.positions.contains_key(market_id) && now >= v.positions[market_id].opened_at + max_hold
}

/// The state of a detector that has seen and done nothing.
pub open spec fn fresh_scalp() -> ScalpView {
    ScalpView { baselines: Map::empty(), positions: Map::empty(), trades_today: 0 }
}

/// Per-market momentum state, positions and the trade budget.
pub struct ScalpState {
    last_observation: HashMap<u64, (u64, u64)>,
    positions: HashMap<u64, ScalpPosition>,
    trades_today: u32,
}

impl View for ScalpState {
    type V = ScalpView;

    closed spec fn view(&self) -> ScalpView {
        ScalpView {
            baselines: self.last_observation@,
            positions: self.positions@,
            trades_today: self.trades_today as nat,
        }
    }
}

impl ScalpState {
    /// A detector with no baselines, no positions and a zero trade count.
    pub fn new() -> (r: ScalpState)
        ensures
            r@ =~= fresh_scalp(),
    {
        ScalpState {
            last_observation: HashMap::new(),
            positions: HashMap::new(),
            trades_today: 0,
        }
    }

    /// One detection step on the market's YES book: compares the new
    /// mid-price against the stored baseline and reports whether the move
    /// reaches `threshold_pct` (a fraction in `PRICE_SCALE` steps, boundary
    /// inclusive), then overwrites the baseline with the new observation.
    /// The first observation of a market stores a baseline and never
    /// signals; a book with an empty side neither signals nor changes
    /// anything.
    pub fn detect_signal(
        &mut self,
        market_id: u64,
        yes_book: &BookSnapshot,
        threshold_pct: u64,
    ) -> (r: bool)
        requires
            threshold_pct <= MAX_MOMENTUM_THRESHOLD,
        ensures
            r == signal_of(old(self)@, market_id, *yes_book, threshold_pct),
            final(self)@ == after_detect(old(self)@, market_id, *yes_book),
    {
        let (bid, ask) = match (yes_book.best_bid, yes_book.best_ask) {
            (Some(b), Some(a)) => (b, a),
            _ => {
                return false;
            },
        };
        let mid: u128 = bid as u128 + ask as u128;
        let mut signal = false;
        match self.last_observation.get(&market_id) {
            Some(p) => {
                let last: u128 = p.0 as u128 + p.1 as u128;
                let diff: u128 = if mid >= last {
                    mid - last
                } else {
                    last - mid
                };
                proof {
                    assert((diff as int) * (PRICE_SCALE as int) <= u128::MAX) by (nonlinear_arith)
                        requires
                            diff as int <= 2 * (u64::MAX as int),
                    ;
                    assert((threshold_pct as int) * (last as int) <= u128::MAX) by (nonlinear_arith)
                        requires
                            threshold_pct as int <= MAX_MOMENTUM_THRESHOLD,
                            0 <= last as int <= 2 * (u64::MAX as int),
                    ;
                }
                if diff * (PRICE_SCALE as u128) >= (threshold_pct as u128) * last {
                    signal = true;
                }
            },
            None => {},
        }
        self.last_observation.insert(market_id, (bid, ask));
        signal
    }

    /// True exactly when the trade budget still has room under the given
    /// daily maximum.
    pub fn can_open_trade(&self, max_trades_per_day: u32) -> (r: bool)
        ensures
            r == (self@.trades_today < max_trades_per_day),
    {
        self.trades_today < max_trades_per_day
    }

    /// Opens (or replaces) the market's position at the given entry price,
    /// size and clock reading, and counts one more trade against the
    /// budget. Callers are expected to have checked `can_open_trade` and
    /// the absence of an open position; this method enforces neither — see
    /// `try_open_position` for the checked form.
    pub fn open_position(&mut self, market_id: u64, entry_price: u64, size_usdc: u64, now: u64)
        requires
            old(self)@.trades_today < u32::MAX,
        ensures
            final(self)@ == after_open(old(self)@, market_id, entry_price, size_usdc, now),
    {
        self.positions.insert(
            market_id,
            ScalpPosition { entry_price, size_usdc, opened_at: now },
        );
        self.trades_today = self.trades_today + 1;
    }

    /// Check-then-act in one step: opens the position exactly when the
    /// budget has room under `max_trades_per_day` and the market has no
    /// open position, and reports whether it did; a refusal changes
    /// nothing.
    pub fn try_open_position(
        &mut self,
        market_id: u64,
        entry_price: u64,
        size_usdc: u64,
        now: u64,
        max_trades_per_day: u32,
    ) -> (r: bool)
        ensures
            r == (old(self)@.trades_today < max_trades_per_day && !old(
                self,
            )@.positions.contains_key(market_id)),
            r ==> final(self)@ == after_open(old(self)@, market_id, entry_price, size_usdc, now),
            !r ==> final(self)@ == old(self)@,
    {
        if self.trades_today < max_trades_per_day && !self.positions.contains_key(&market_id) {
            self.open_position(market_id, entry_price, size_usdc, now);
            true
        } else {
            false
        }
    }

    /// Removes the market's open position; a market with no open position
    /// is left as it is — calling this any number of times is a no-op, not
    /// an error. The trade budget never shrinks here.
    pub fn close_position(&mut self, market_id: u64)
        ensures
            final(self)@ == after_close(old(self)@, market_id),
    {
        self.positions.remove(&market_id);
    }

    /// The market's open position, if any.
    pub fn get_position(&self, market_id: u64) -> (r: Option<&ScalpPosition>)
        ensures
            match r {
                Some(p) => self@.positions.contains_key(market_id) && *p
                    == self@.positions[market_id],
                None => !self@.positions.contains_key(market_id),
            },
    {
        self.positions.get(&market_id)
    }

    /// True exactly when the market has an open position whose age at `now`
    /// has reached `max_hold` (boundary inclusive); false, not an error,
    /// when no position is open.
    pub fn is_expired(&self, market_id: u64, max_hold: u64, now: u64) -> (r: bool)
        ensures
            r == spec_is_expired(self@, market_id, max_hold, now),
    {
        match self.positions.get(&market_id) {
            Some(p) => now >= p.opened_at && now - p.opened_at >= max_hold,
            None => false,
        }
    }

    /// Ends the session for this detector: baselines and open positions are
    /// discarded, the cross-session trade budget is kept.
    pub fn reset_session(&mut self)
        ensures
            final(self)@ =~= after_session_reset(old(self)@),
    {
        self.last_observation.clear();
        self.positions.clear();
    }

    /// The explicit external budget reset (e.g. a daily rollover): the
    /// trade counter returns to zero, everything else is kept.
    pub fn reset_trade_budget(&mut self)
        ensures
            final(self)@ =~= after_budget_reset(old(self)@),
    {
        self.trades_today = 0;
    }
}

/// A first observation never signals: whatever the book and the threshold,
/// a market without a stored baseline reports no signal from a detection
/// call (the call only stores the baseline).
pub proof fn lemma_first_observation_never_signals(
    v: ScalpView,
    market_id: u64,
    book: BookSnapshot,
    threshold: u64,
)
    requires
        !v.baselines.contains_key(market_id),
    ensures
        !signal_of(v, market_id, book, threshold),
{
}

/// Closing is idempotent on a market with no open position: one close
/// changes nothing, and so does closing twice in a row.
pub proof fn lemma_close_noop_when_absent(v: ScalpView, market_id: u64)
    requires
        !v.positions.contains_key(market_id),
    ensures
        after_close(v, market_id) =~= v,
        after_close(after_close(v, market_id), market_id) =~= v,
{
    assert(v.positions.remove(market_id) =~= v.positions);
}

/// The trade budget moves one way: opening a position grows it by exactly
/// one, and neither closing a position nor a detection call touches it.
pub proof fn lemma_trade_budget_monotonic(
    v: ScalpView,
    market_id: u64,
    entry_price: u64,
    size_usdc: u64,
    now: u64,
    book: BookSnapshot,
)
    ensures
        after_open(v, market_id, entry_price, size_usdc, now).trades_today == v.trades_today + 1,
        after_close(v, market_id).trades_today == v.trades_today,
        after_detect(v, market_id, book).trades_today == v.trades_today,
{
}

/// Session isolation for the detector: ending a session discards the
/// baselines and positions but keeps the trade budget exactly as it was —
/// only the explicit budget reset returns it to zero.
pub proof fn lemma_session_reset_keeps_budget(v: ScalpView)
    ensures
        after_session_reset(v).trades_today == v.trades_today,
        after_session_reset(v).baselines =~= Map::<u64, (u64, u64)>::empty(),
        after_session_reset(v).positions =~= Map::<u64, ScalpPosition>::empty(),
        after_budget_reset(v).trades_today == 0,
        after_budget_reset(v).baselines == v.baselines,
        after_budget_reset(v).positions == v.positions,
{
}

} // verus!
