//! The Pairing Stream: turns one per-instrument book update into zero or one
//! synchronized YES/NO pair, keeping the Book Cache current on the way.

use vstd::prelude::*;

use crate::book::{BookSnapshot, OrderBookPair};
use crate::cache::{cache_books, cache_clear, cache_get, cache_new, cache_put, no_books};
use crate::registry::{
    entry_uses, instruments_free, no_markets, spec_lookup, spec_upsert, wf_entries, MarketEntry,
    RegisterError, Registry,
};

verus! {

/// Does this entry's market pair up under the given cache contents when the
/// given instrument was just updated: the update hits one of its sides and
/// the other side is cached?
pub open spec fn completes_pair(e: MarketEntry, books: Map<u64, BookSnapshot>, instr: u64) -> bool {
    ||| e.yes == instr && books.contains_key(e.no)
    ||| e.no == instr && books.contains_key(e.yes)
}

/// The pair one update produces: `entries` is the registry, `books` the
/// cache contents with the update already stored, `instr` the updated
/// instrument and `snap` its fresh snapshot. The freshly updated side uses
/// `snap`; the other side uses whatever the cache holds, or no pair is
/// produced when that side has never been observed.
pub open spec fn pair_of(
    entries: Seq<MarketEntry>,
    books: Map<u64, BookSnapshot>,
    instr: u64,
    snap: BookSnapshot,
) -> Option<OrderBookPair> {
    match spec_lookup(entries, instr) {
        None => None,
        Some((e, is_yes)) => {
            let other = if is_yes {
                e.no
            } else {
                e.yes
            };
            if books.contains_key(other) {
                Some(
                    if is_yes {
                        OrderBookPair {
                            yes_book: snap,
                            no_book: books[other],
                            market_id: e.market_id,
                        }
                    } else {
                        OrderBookPair {
                            yes_book: books[other],
                            no_book: snap,
                            market_id: e.market_id,
                        }
                    },
                )
            } else {
                None
            }
        },
    }
}

/// Owns the Book Cache and the Subscription Registry and pairs updates.
pub struct OrderBookMonitor {
    books: dashmap::DashMap<u64, BookSnapshot>,
    registry: Registry,
}

impl OrderBookMonitor {
    /// The cached snapshots, keyed by instrument id.
    pub closed spec fn books(&self) -> Map<u64, BookSnapshot> {
        cache_books(self.books)
    }

    /// The registered markets, in registration order.
    pub closed spec fn markets(&self) -> Seq<MarketEntry> {
        self.registry@
    }

    /// The monitor invariant: its registry is well formed.
    pub open spec fn wf(&self) -> bool {
        wf_entries(self.markets())
    }

    /// A monitor with no registrations and an empty cache.
    pub fn new() -> (r: OrderBookMonitor)
        ensures
            r.wf(),
            r.markets() == no_markets(),
            r.books() == no_books(),
    {
        OrderBookMonitor { books: cache_new(), registry: Registry::new() }
    }

    /// Registers a market and its YES/NO instruments for pairing; replaces
    /// any prior registration of the same market, rejects one whose sides
    /// coincide or whose instruments another market already owns.
    pub fn subscribe_market(&mut self, market_id: u64, yes: u64, no: u64) -> (r: Result<
        (),
        RegisterError,
    >)
        requires
            old(self).wf(),
        ensures
            final(self).wf(),
            final(self).books() == old(self).books(),
            match r {
                Ok(()) => yes != no && instruments_free(old(self).markets(), market_id, yes, no)
                    && final(self).markets() == spec_upsert(
                    old(self).markets(),
                    (MarketEntry { market_id, yes, no }),
                ),
                Err(RegisterError::YesEqualsNo) => yes == no && final(self).markets() == old(
                    self,
                ).markets(),
                Err(RegisterError::InstrumentInUse) => yes != no && !instruments_free(
                    old(self).markets(),
                    market_id,
                    yes,
                    no,
                ) && final(self).markets() == old(self).markets(),
            },
    {
        self.registry.register(market_id, yes, no)
    }

    /// Every instrument that needs a live feed: the YES and NO ids of each
    /// registered market, in registration order; empty exactly when no
    /// market is registered. The caller must not build a feed subscription
    /// from an empty list.
    pub fn instruments_to_subscribe(&self) -> (r: Vec<u64>)
        ensures
            r@.len() == 2 * self.markets().len(),
            forall|i: int|
                0 <= i < self.markets().len() ==> r@[2 * i] == (#[trigger] self.markets()[i]).yes
                    && r@[2 * i + 1] == self.markets()[i].no,
    {
        self.registry.instruments_to_subscribe()
    }

    /// Stores the update in the Book Cache (last write wins) and pairs it
    /// with the cached other side of its market, if the update belongs to a
    /// registered market whose other side has been observed.
    pub fn handle_book_update(&mut self, book: BookSnapshot) -> (r: Option<OrderBookPair>)
        requires
            old(self).wf(),
        ensures
            final(self).wf(),
            final(self).markets() == old(self).markets(),
            final(self).books() == old(self).books().insert(book.asset_id, book),
            r == pair_of(
                old(self).markets(),
                old(self).books().insert(book.asset_id, book),
                book.asset_id,
                book,
            ),
    {
        cache_put(&mut self.books, book.asset_id, book);
        match self.registry.lookup(book.asset_id) {
            None => None,
            Some((e, is_yes)) => {
                let other = if is_yes {
                    e.no
                } else {
                    e.yes
                };
                match cache_get(&self.books, other) {
                    Some(other_book) => Some(
                        if is_yes {
                            OrderBookPair {
                                yes_book: book,
                                no_book: other_book,
                                market_id: e.market_id,
                            }
                        } else {
                            OrderBookPair {
                                yes_book: other_book,
                                no_book: book,
                                market_id: e.market_id,
                            }
                        },
                    ),
                    None => None,
                }
            },
        }
    }

    /// The most recent snapshot cached for an instrument, if any update for
    /// it has been observed.
    pub fn get_book(&self, token_id: u64) -> (r: Option<BookSnapshot>)
        ensures
            match r {
                Some(b) => self.books().contains_key(token_id) && b == self.books()[token_id],
                None => !self.books().contains_key(token_id),
            },
    {
        cache_get(&self.books, token_id)
    }

    /// Ends the session: drops every cached book and every registration.
    pub fn clear(&mut self)
        ensures
            final(self).wf(),
            final(self).markets() == no_markets(),
            final(self).books() == no_books(),
    {
        cache_clear(&mut self.books);
        self.registry.clear();
    }
}

/// What a lookup answer says about the registry: a missed lookup means no
/// entry owns the instrument, a hit names a registered entry that owns it on
/// the reported side.
proof fn lemma_lookup_props(s: Seq<MarketEntry>, instr: u64)
    ensures
        match spec_lookup(s, instr) {
            None => forall|i: int| 0 <= i < s.len() ==> !entry_uses(#[trigger] s[i], instr),
            Some((e, is_yes)) => (exists|i: int| 0 <= i < s.len() && #[trigger] s[i] == e) && (
            if is_yes {
                e.yes == instr
            } else {
                e.no == instr && e.yes != instr
            }),
        },
    decreases s.len(),
{
    if s.len() == 0 {
    } else if s[0].yes == instr || s[0].no == instr {
        assert(exists|i: int| 0 <= i < s.len() && #[trigger] s[i] == s[0]);
    } else {
        lemma_lookup_props(s.drop_first(), instr);
        match spec_lookup(s.drop_first(), instr) {
            None => {
                assert forall|i: int| 0 <= i < s.len() implies !entry_uses(
                    #[trigger] s[i],
                    instr,
                ) by {
                    if i >= 1 {
                        assert(s.drop_first()[i - 1] == s[i]);
                    }
                }
            },
            Some((e, is_yes)) => {
                let i = choose|i: int|
                    0 <= i < s.drop_first().len() && #[trigger] s.drop_first()[i] == e;
                assert(s[i + 1] == e);
            },
        }
    }
}

/// A pair is emitted for an update exactly when some registered market has
/// the updated instrument on one side and its other side in the cache once
/// the update itself is stored — that is, when both sides of that market
/// have been observed at least once by that point. In particular the first
/// observation of either side of a market never yields a pair.
pub proof fn lemma_pair_iff_both_sides_observed(
    entries: Seq<MarketEntry>,
    books: Map<u64, BookSnapshot>,
    instr: u64,
    snap: BookSnapshot,
)
    requires
        wf_entries(entries),
    ensures
        pair_of(entries, books.insert(instr, snap), instr, snap) is Some <==> exists|i: int|
            0 <= i < entries.len() && completes_pair(
                #[trigger] entries[i],
                books.insert(instr, snap),
                instr,
            ),
{
    let books1 = books.insert(instr, snap);
    lemma_lookup_props(entries, instr);
    if pair_of(entries, books1, instr, snap) is Some {
        let (e, is_yes) = spec_lookup(entries, instr)->Some_0;
        let i = choose|i: int| 0 <= i < entries.len() && #[trigger] entries[i] == e;
        assert(completes_pair(entries[i], books1, instr));
    }
    if exists|i: int|
        0 <= i < entries.len() && completes_pair(#[trigger] entries[i], books1, instr) {
        let i = choose|i: int|
            0 <= i < entries.len() && completes_pair(#[trigger] entries[i], books1, instr);
        assert(entry_uses(entries[i], instr));
        match spec_lookup(entries, instr) {
            None => {
                assert(false);
            },
            Some((e, is_yes)) => {
                let j = choose|j: int| 0 <= j < entries.len() && #[trigger] entries[j] == e;
                assert(i == j);
                assert(pair_of(entries, books1, instr, snap) is Some);
            },
        }
    }
}

/// A first observation never pairs: when the market owning the updated
/// instrument has never had its other side observed, the update produces no
/// pair.
pub proof fn lemma_first_observation_never_pairs(
    entries: Seq<MarketEntry>,
    books: Map<u64, BookSnapshot>,
    instr: u64,
    snap: BookSnapshot,
    k: int,
)
    requires
        wf_entries(entries),
        0 <= k < entries.len(),
        entry_uses(entries[k], instr),
        !books.insert(instr, snap).contains_key(
            if entries[k].yes == instr {
                entries[k].no
            } else {
                entries[k].yes
            },
        ),
    ensures
        pair_of(entries, books.insert(instr, snap), instr, snap) is None,
{
    let books1 = books.insert(instr, snap);
    lemma_pair_iff_both_sides_observed(entries, books, instr, snap);
    if pair_of(entries, books1, instr, snap) is Some {
        let i = choose|i: int|
            0 <= i < entries.len() && completes_pair(#[trigger] entries[i], books1, instr);
        assert(i == k) by {
            assert(entry_uses(entries[i], instr));
        }
        assert(false);
    }
}

/// Clearing the Subscription Registry stops pair production: with no
/// registered market, no update can produce a pair, whatever the cache
/// still holds.
pub proof fn lemma_cleared_registry_stops_pairs(
    books: Map<u64, BookSnapshot>,
    instr: u64,
    snap: BookSnapshot,
)
    ensures
        pair_of(no_markets(), books, instr, snap) is None,
{
}

} // verus!
