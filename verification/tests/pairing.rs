use pairsignal::book::BookSnapshot;
use pairsignal::monitor::OrderBookMonitor;
use pairsignal::registry::RegisterError;

fn snap(asset_id: u64, bid: u64, ask: u64) -> BookSnapshot {
    BookSnapshot { asset_id, best_bid: Some(bid), best_ask: Some(ask) }
}

#[test]
fn no_pair_before_both_sides_observed() {
    let mut m = OrderBookMonitor::new();
    m.subscribe_market(1, 10, 11).unwrap();

    // First observation of the YES side: the NO side was never seen.
    assert!(m.handle_book_update(snap(10, 400_000, 420_000)).is_none());
    // First observation of the NO side completes the pair.
    let pair = m.handle_book_update(snap(11, 560_000, 580_000)).unwrap();
    assert_eq!(pair.market_id, 1);
    assert_eq!(pair.yes_book, snap(10, 400_000, 420_000));
    assert_eq!(pair.no_book, snap(11, 560_000, 580_000));
}

#[test]
fn fresh_side_is_used_and_other_side_is_cached() {
    let mut m = OrderBookMonitor::new();
    m.subscribe_market(1, 10, 11).unwrap();
    m.handle_book_update(snap(10, 400_000, 420_000));
    m.handle_book_update(snap(11, 560_000, 580_000));

    // A later YES update pairs with the cached (possibly stale) NO book.
    let pair = m.handle_book_update(snap(10, 410_000, 430_000)).unwrap();
    assert_eq!(pair.yes_book, snap(10, 410_000, 430_000));
    assert_eq!(pair.no_book, snap(11, 560_000, 580_000));
}

#[test]
fn update_for_unregistered_instrument_yields_nothing() {
    let mut m = OrderBookMonitor::new();
    m.subscribe_market(1, 10, 11).unwrap();
    assert!(m.handle_book_update(snap(99, 400_000, 420_000)).is_none());
}

#[test]
fn get_book_returns_the_stored_snapshot() {
    let mut m = OrderBookMonitor::new();
    assert!(m.get_book(10).is_none());
    m.handle_book_update(snap(10, 400_000, 420_000));
    assert_eq!(m.get_book(10), Some(snap(10, 400_000, 420_000)));
    // Last write wins.
    m.handle_book_update(snap(10, 401_000, 421_000));
    assert_eq!(m.get_book(10), Some(snap(10, 401_000, 421_000)));
}

#[test]
fn clear_stops_pair_production() {
    let mut m = OrderBookMonitor::new();
    m.subscribe_market(1, 10, 11).unwrap();
    m.handle_book_update(snap(10, 400_000, 420_000));
    m.handle_book_update(snap(11, 560_000, 580_000));
    m.clear();
    // Both the registration and the cached books are gone.
    assert!(m.get_book(10).is_none());
    assert!(m.handle_book_update(snap(10, 400_000, 420_000)).is_none());
}

#[test]
fn registration_rejects_a_market_with_one_instrument() {
    let mut m = OrderBookMonitor::new();
    assert_eq!(m.subscribe_market(1, 10, 10), Err(RegisterError::YesEqualsNo));
    // The refused registration changed nothing.
    assert!(m.handle_book_update(snap(10, 400_000, 420_000)).is_none());
}

#[test]
fn registration_rejects_an_instrument_owned_elsewhere() {
    let mut m = OrderBookMonitor::new();
    m.subscribe_market(1, 10, 11).unwrap();
    assert_eq!(m.subscribe_market(2, 11, 12), Err(RegisterError::InstrumentInUse));
    // The owning market still pairs as before.
    m.handle_book_update(snap(10, 400_000, 420_000));
    let pair = m.handle_book_update(snap(11, 560_000, 580_000)).unwrap();
    assert_eq!(pair.market_id, 1);
}

#[test]
fn registration_replaces_the_same_market() {
    let mut m = OrderBookMonitor::new();
    m.subscribe_market(1, 10, 11).unwrap();
    m.subscribe_market(1, 20, 21).unwrap();
    // The old instruments no longer pair; the new ones do.
    m.handle_book_update(snap(10, 400_000, 420_000));
    assert!(m.handle_book_update(snap(11, 560_000, 580_000)).is_none());
    m.handle_book_update(snap(20, 400_000, 420_000));
    let pair = m.handle_book_update(snap(21, 560_000, 580_000)).unwrap();
    assert_eq!(pair.market_id, 1);
    assert_eq!(pair.yes_book.asset_id, 20);
}

#[test]
fn instruments_to_subscribe_lists_both_sides_of_every_market() {
    let mut m = OrderBookMonitor::new();
    assert!(m.instruments_to_subscribe().is_empty());
    m.subscribe_market(1, 10, 11).unwrap();
    m.subscribe_market(2, 20, 21).unwrap();
    assert_eq!(m.instruments_to_subscribe(), vec![10, 11, 20, 21]);
}

#[test]
fn one_sided_books_still_pair() {
    // Pairing only needs both instruments observed; empty book sides are a
    // detector concern, not a pairing concern.
    let mut m = OrderBookMonitor::new();
    m.subscribe_market(1, 10, 11).unwrap();
    let one_sided = BookSnapshot { asset_id: 10, best_bid: None, best_ask: Some(420_000) };
    m.handle_book_update(one_sided);
    let pair = m.handle_book_update(snap(11, 560_000, 580_000)).unwrap();
    assert_eq!(pair.yes_book, one_sided);
}
