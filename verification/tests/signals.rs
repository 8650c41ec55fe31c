use pairsignal::arbitrage::{ArbitrageDetector, ArbitrageOpportunity};
use pairsignal::book::{BookSnapshot, OrderBookPair};
use pairsignal::engine::evaluate_pair;
use pairsignal::scalp::ScalpState;

fn snap(asset_id: u64, bid: u64, ask: u64) -> BookSnapshot {
    BookSnapshot { asset_id, best_bid: Some(bid), best_ask: Some(ask) }
}

#[test]
fn arbitrage_fires_at_low_threshold_not_at_high() {
    // yes_ask = 0.47, no_ask = 0.50: profit fraction = 0.03.
    let yes = snap(10, 460_000, 470_000);
    let no = snap(11, 490_000, 500_000);
    let permissive = ArbitrageDetector::new(10_000); // threshold 0.01
    let opp = permissive.check_arbitrage(&yes, &no, 1).unwrap();
    assert_eq!(
        opp,
        ArbitrageOpportunity {
            market_id: 1,
            yes_token_id: 10,
            no_token_id: 11,
            yes_ask_price: 470_000,
            no_ask_price: 500_000,
            profit_fraction: 30_000,
        }
    );
    let strict = ArbitrageDetector::new(50_000); // threshold 0.05
    assert!(strict.check_arbitrage(&yes, &no, 1).is_none());
}

#[test]
fn arbitrage_boundary_is_inclusive() {
    // profit fraction exactly equals the threshold.
    let yes = snap(10, 460_000, 470_000);
    let no = snap(11, 490_000, 500_000);
    let d = ArbitrageDetector::new(30_000);
    assert!(d.check_arbitrage(&yes, &no, 1).is_some());
    let d = ArbitrageDetector::new(30_001);
    assert!(d.check_arbitrage(&yes, &no, 1).is_none());
}

#[test]
fn arbitrage_needs_both_asks() {
    let yes = BookSnapshot { asset_id: 10, best_bid: Some(460_000), best_ask: None };
    let no = snap(11, 490_000, 500_000);
    let d = ArbitrageDetector::new(0);
    assert!(d.check_arbitrage(&yes, &no, 1).is_none());
    assert!(d.check_arbitrage(&no, &yes, 1).is_none());
}

#[test]
fn mid_sum_needs_both_sides() {
    assert_eq!(snap(10, 490_000, 510_000).mid_sum(), Some(1_000_000));
    let no_bid = BookSnapshot { asset_id: 10, best_bid: None, best_ask: Some(510_000) };
    assert_eq!(no_bid.mid_sum(), None);
    let no_ask = BookSnapshot { asset_id: 10, best_bid: Some(490_000), best_ask: None };
    assert_eq!(no_ask.mid_sum(), None);
}

#[test]
fn first_momentum_call_never_signals() {
    let mut s = ScalpState::new();
    // However extreme the price, a first observation only sets the baseline.
    assert!(!s.detect_signal(1, &snap(10, 990_000, 990_000), 0));
}

#[test]
fn momentum_thresholds_are_boundary_inclusive() {
    // Baseline mid 0.50; threshold 0.01.
    let mut s = ScalpState::new();
    s.detect_signal(1, &snap(10, 500_000, 500_000), 10_000);
    // Mid 0.515: delta = +0.03 >= 0.01 signals.
    assert!(s.detect_signal(1, &snap(10, 515_000, 515_000), 10_000));

    let mut s = ScalpState::new();
    s.detect_signal(1, &snap(10, 500_000, 500_000), 10_000);
    // Mid 0.505: delta = exactly 0.01, boundary inclusive.
    assert!(s.detect_signal(1, &snap(10, 505_000, 505_000), 10_000));

    let mut s = ScalpState::new();
    s.detect_signal(1, &snap(10, 500_000, 500_000), 10_000);
    // Mid 0.504: delta = 0.008 < 0.01.
    assert!(!s.detect_signal(1, &snap(10, 504_000, 504_000), 10_000));
}

#[test]
fn momentum_baseline_slides_every_call() {
    // The comparison window is "since the previous call": sub-threshold
    // drift never accumulates into a signal.
    let mut s = ScalpState::new();
    s.detect_signal(1, &snap(10, 500_000, 500_000), 10_000);
    assert!(!s.detect_signal(1, &snap(10, 504_000, 504_000), 10_000));
    assert!(!s.detect_signal(1, &snap(10, 508_000, 508_000), 10_000));
    assert!(!s.detect_signal(1, &snap(10, 512_000, 512_000), 10_000));
}

#[test]
fn momentum_ignores_one_sided_books() {
    let mut s = ScalpState::new();
    let one_sided = BookSnapshot { asset_id: 10, best_bid: None, best_ask: Some(500_000) };
    assert!(!s.detect_signal(1, &one_sided, 0));
    // The one-sided book stored no baseline: the next call is still first.
    assert!(!s.detect_signal(1, &snap(10, 990_000, 990_000), 0));
}

#[test]
fn momentum_state_is_per_market() {
    let mut s = ScalpState::new();
    s.detect_signal(1, &snap(10, 500_000, 500_000), 10_000);
    // Market 2 has no baseline yet, whatever market 1 saw.
    assert!(!s.detect_signal(2, &snap(20, 990_000, 990_000), 10_000));
}

#[test]
fn close_position_is_idempotent_when_nothing_is_open() {
    let mut s = ScalpState::new();
    s.close_position(7);
    s.close_position(7);
    assert!(s.get_position(7).is_none());
    assert!(s.can_open_trade(1));
}

#[test]
fn trade_budget_counts_opens_and_ignores_closes() {
    let mut s = ScalpState::new();
    assert!(s.can_open_trade(2));
    s.open_position(1, 500_000, 1_000_000, 100);
    s.open_position(2, 400_000, 1_000_000, 110);
    assert!(!s.can_open_trade(2));
    s.close_position(1);
    s.close_position(2);
    // Closing gives no budget back.
    assert!(!s.can_open_trade(2));
    assert!(s.can_open_trade(3));
}

#[test]
fn try_open_position_checks_budget_and_existing_position() {
    let mut s = ScalpState::new();
    assert!(s.try_open_position(1, 500_000, 1_000_000, 100, 2));
    // Same market: one open position at most.
    assert!(!s.try_open_position(1, 510_000, 1_000_000, 101, 2));
    assert!(s.try_open_position(2, 400_000, 1_000_000, 102, 2));
    // Budget exhausted.
    assert!(!s.try_open_position(3, 300_000, 1_000_000, 103, 2));
    let p = s.get_position(1).unwrap();
    assert_eq!(p.entry_price, 500_000);
    assert_eq!(p.opened_at, 100);
}

#[test]
fn expiry_boundary_is_inclusive() {
    let mut s = ScalpState::new();
    s.open_position(1, 500_000, 1_000_000, 1_000);
    // max_hold = 90 s: not expired one second early, expired on the dot.
    assert!(!s.is_expired(1, 90, 1_089));
    assert!(s.is_expired(1, 90, 1_090));
    // No open position: never expired.
    assert!(!s.is_expired(2, 90, 9_999));
}

#[test]
fn session_reset_keeps_the_trade_budget() {
    let mut s = ScalpState::new();
    s.detect_signal(1, &snap(10, 500_000, 500_000), 10_000);
    s.open_position(1, 500_000, 1_000_000, 100);
    s.reset_session();
    // Baseline gone: the next observation is a first one again.
    assert!(!s.detect_signal(1, &snap(10, 990_000, 990_000), 10_000));
    // Position gone, budget kept.
    assert!(s.get_position(1).is_none());
    assert!(!s.can_open_trade(1));
    s.reset_trade_budget();
    assert!(s.can_open_trade(1));
}

#[test]
fn evaluate_pair_applies_both_detectors_and_the_gate() {
    let mut scalp = ScalpState::new();
    let detector = ArbitrageDetector::new(10_000);
    let pair = OrderBookPair {
        yes_book: snap(10, 460_000, 470_000),
        no_book: snap(11, 490_000, 500_000),
        market_id: 1,
    };
    // First pair: no momentum baseline yet, arbitrage detected, and with an
    // execution spread of 0.01 the cost 0.97 is within the 0.99 bound.
    let d = evaluate_pair(&mut scalp, &detector, &pair, 3_000, 10_000);
    assert!(!d.scalp_signal);
    assert_eq!(d.opportunity.unwrap().profit_fraction, 30_000);
    assert!(d.execute_arbitrage);

    // A wide execution spread blocks execution of a detected opportunity.
    let d = evaluate_pair(&mut scalp, &detector, &pair, 3_000, 40_000);
    assert!(d.opportunity.is_some());
    assert!(!d.execute_arbitrage);

    // Momentum: mid moved 0.465 -> 0.475, about 2.2% >= 0.3%.
    let moved = OrderBookPair {
        yes_book: snap(10, 470_000, 480_000),
        no_book: snap(11, 490_000, 500_000),
        market_id: 1,
    };
    let d = evaluate_pair(&mut scalp, &detector, &moved, 3_000, 10_000);
    assert!(d.scalp_signal);
}
