//! The Subscription Registry: which markets are live, and which two
//! instruments (YES and NO) each one owns.
//!
//! The registry's invariant is that markets are registered at most once and
//! that no instrument id belongs to two registered sides: registrations that
//! would break the one-to-one instrument-to-market-side mapping are rejected
//! instead of silently shadowed.

use vstd::prelude::*;

verus! {

/// One registered market: its id and the ids of its YES and NO instruments.
#[derive(Clone, Copy, Debug, PartialEq, Eq)]
pub struct MarketEntry {
    /// Market (condition) id.
    pub market_id: u64,
    /// Instrument id of the YES side.
    pub yes: u64,
    /// Instrument id of the NO side.
    pub no: u64,
}

/// Why a registration was refused.
#[derive(Clone, Copy, Debug, PartialEq, Eq)]
pub enum RegisterError {
    /// The market named the same instrument for both sides.
    YesEqualsNo,
    /// An instrument of the market is already owned by a different market.
    InstrumentInUse,
}

/// Does the entry own the instrument on either side?
pub open spec fn entry_uses(e: MarketEntry, instr: u64) -> bool {
    e.yes == instr || e.no == instr
}

/// The registry invariant: every entry's two sides differ, market ids are
/// unique, and no instrument is owned by two entries.
pub open spec fn wf_entries(s: Seq<MarketEntry>) -> bool {
    &&& forall|i: int| 0 <= i < s.len() ==> (#[trigger] s[i]).yes != s[i].no
    &&& forall|i: int, j: int|
        0 <= i < j < s.len() ==> (#[trigger] s[i]).market_id != (#[trigger] s[j]).market_id
    &&& forall|i: int, j: int|
        0 <= i < j < s.len() ==> !entry_uses(#[trigger] s[i], s[j].yes) && !entry_uses(
            s[i],
            (#[trigger] s[j]).no,
        )
}

/// The side of a registered market that an instrument update belongs to:
/// the first entry owning the instrument, and whether it is the YES side.
pub open spec fn spec_lookup(s: Seq<MarketEntry>, instr: u64) -> Option<(MarketEntry, bool)>
    decreases s.len(),
{
    if s.len() == 0 {
        None
    } else if s[0].yes == instr {
        Some((s[0], true))
    } else if s[0].no == instr {
        Some((s[0], false))
    } else {
        spec_lookup(s.drop_first(), instr)
    }
}

/// The registry contents after an upsert: the first entry for the same
/// market is replaced in place, a new market is appended.
pub open spec fn spec_upsert(s: Seq<MarketEntry>, e: MarketEntry) -> Seq<MarketEntry>
    decreases s.len(),
{
    if s.len() == 0 {
        seq![e]
    } else if s[0].market_id == e.market_id {
        seq![e] + s.drop_first()
    } else {
        seq![s[0]] + spec_upsert(s.drop_first(), e)
    }
}

/// No entry of a different market owns either of the two instruments.
pub open spec fn instruments_free(s: Seq<MarketEntry>, market_id: u64, yes: u64, no: u64) -> bool {
    forall|i: int|
        0 <= i < s.len() && (#[trigger] s[i]).market_id != market_id ==> !entry_uses(s[i], yes)
            && !entry_uses(s[i], no)
}

/// Registry contents with no market registered.
pub open spec fn no_markets() -> Seq<MarketEntry> {
    Seq::empty()
}

/// Maps each registered market id to its YES and NO instrument ids.
pub struct Registry {
    entries: Vec<MarketEntry>,
}

impl View for Registry {
    type V = Seq<MarketEntry>;

    closed spec fn view(&self) -> Seq<MarketEntry> {
        self.entries@
    }
}

impl Registry {
    /// The registry invariant; every constructor establishes it and every
    /// method preserves it.
    pub open spec fn wf(&self) -> bool {
        wf_entries(self@)
    }

    /// An empty registry.
    pub fn new() -> (r: Registry)
        ensures
            r@ == no_markets(),
            r.wf(),
    {
        Registry { entries: Vec::new() }
    }

    /// Registers a market with its YES and NO instruments, replacing any
    /// prior mapping for the same market. Rejects a market whose two sides
    /// are one instrument, and a market that claims an instrument some other
    /// market already owns; a rejected registration changes nothing.
    pub fn register(&mut self, market_id: u64, yes: u64, no: u64) -> (r: Result<
        (),
        RegisterError,
    >)
        requires
            old(self).wf(),
        ensures
            final(self).wf(),
            match r {
                Ok(()) => yes != no && instruments_free(old(self)@, market_id, yes, no)
                    && final(self)@ == spec_upsert(old(self)@, (MarketEntry { market_id, yes, no })),
                Err(RegisterError::YesEqualsNo) => yes == no && final(self)@ == old(self)@,
                Err(RegisterError::InstrumentInUse) => yes != no && !instruments_free(
                    old(self)@,
                    market_id,
                    yes,
                    no,
                ) && final(self)@ == old(self)@,
            },
    {
        if yes == no {
            return Err(RegisterError::YesEqualsNo);
        }
        let ghost s = self@;
        let mut i: usize = 0;
        while i < self.entries.len()
            invariant
                self@ == s,
                0 <= i <= s.len(),
                forall|j: int|
                    0 <= j < i && (#[trigger] s[j]).market_id != market_id ==> !entry_uses(
                        s[j],
                        yes,
                    ) && !entry_uses(s[j], no),
            decreases s.len() - i,
        {
            let e = self.entries[i];
            if e.market_id != market_id && (e.yes == yes || e.no == yes || e.yes == no || e.no
                == no) {
                return Err(RegisterError::InstrumentInUse);
            }
            i = i + 1;
        }
        let entry = MarketEntry { market_id, yes, no };
        let mut k: usize = 0;
        while k < self.entries.len()
            invariant
                self@ == s,
                0 <= k <= s.len(),
                forall|j: int| 0 <= j < k ==> (#[trigger] s[j]).market_id != market_id,
            decreases s.len() - k,
        {
            if self.entries[k].market_id == market_id {
                self.entries.set(k, entry);
                proof {
                    lemma_upsert_at(s, entry, k as int);
                    lemma_wf_update(s, entry, k as int);
                }
                return Ok(());
            }
            k = k + 1;
        }
        self.entries.push(entry);
        proof {
            lemma_upsert_absent(s, entry);
            lemma_wf_push(s, entry);
        }
        Ok(())
    }

    /// Every instrument that needs a live feed: the YES and NO ids of each
    /// registered market, in registration order. An empty registry yields
    /// an empty list.
    pub fn instruments_to_subscribe(&self) -> (r: Vec<u64>)
        ensures
            r@.len() == 2 * self@.len(),
            forall|i: int|
                0 <= i < self@.len() ==> r@[2 * i] == (#[trigger] self@[i]).yes && r@[2 * i + 1]
                    == self@[i].no,
    {
        let mut r: Vec<u64> = Vec::new();
        let mut i: usize = 0;
        while i < self.entries.len()
            invariant
                0 <= i <= self@.len(),
                r@.len() == 2 * i,
                forall|j: int|
                    0 <= j < i ==> r@[2 * j] == (#[trigger] self@[j]).yes && r@[2 * j + 1]
                        == self@[j].no,
            decreases self@.len() - i,
        {
            let e = self.entries[i];
            r.push(e.yes);
            r.push(e.no);
            i = i + 1;
        }
        r
    }

    /// Which registered side, if any, an instrument update belongs to.
    pub fn lookup(&self, instr: u64) -> (r: Option<(MarketEntry, bool)>)
        ensures
            r == spec_lookup(self@, instr),
    {
        let mut i: usize = 0;
        proof {
            assert(self@.skip(0) =~= self@);
        }
        while i < self.entries.len()
            invariant
                0 <= i <= self@.len(),
                spec_lookup(self@.skip(i as int), instr) == spec_lookup(self@, instr),
            decreases self@.len() - i,
        {
            let e = self.entries[i];
            proof {
                assert(self@.skip(i as int)[0] == self@[i as int]);
            }
            if e.yes == instr {
                return Some((e, true));
            }
            if e.no == instr {
                return Some((e, false));
            }
            proof {
                assert(self@.skip(i as int).drop_first() =~= self@.skip(i as int + 1));
            }
            i = i + 1;
        }
        proof {
            assert(self@.skip(i as int) =~= Seq::<MarketEntry>::empty());
        }
        None
    }

    /// Drops every registration; pairing attempts for the dropped markets
    /// silently stop producing pairs.
    pub fn clear(&mut self)
        ensures
            final(self)@ == no_markets(),
            final(self).wf(),
    {
        self.entries.clear();
    }
}

/// An upsert that hits the first entry of its market replaces that entry in
/// place.
proof fn lemma_upsert_at(s: Seq<MarketEntry>, e: MarketEntry, k: int)
    requires
        0 <= k < s.len(),
        s[k].market_id == e.market_id,
        forall|j: int| 0 <= j < k ==> (#[trigger] s[j]).market_id != e.market_id,
    ensures
        spec_upsert(s, e) == s.update(k, e),
    decreases k,
{
    if k == 0 {
        assert(spec_upsert(s, e) =~= s.update(0, e));
    } else {
        assert(forall|j: int|
            0 <= j < k - 1 ==> (#[trigger] s.drop_first()[j]).market_id != e.market_id) by {
            assert(forall|j: int| 0 <= j < k - 1 ==> s.drop_first()[j] == s[j + 1]);
        }
        lemma_upsert_at(s.drop_first(), e, k - 1);
        assert(spec_upsert(s, e) =~= s.update(k, e));
    }
}

/// An upsert of a market that is not yet registered appends its entry.
proof fn lemma_upsert_absent(s: Seq<MarketEntry>, e: MarketEntry)
    requires
        forall|j: int| 0 <= j < s.len() ==> (#[trigger] s[j]).market_id != e.market_id,
    ensures
        spec_upsert(s, e) == s.push(e),
    decreases s.len(),
{
    if s.len() == 0 {
        assert(spec_upsert(s, e) =~= s.push(e));
    } else {
        lemma_upsert_absent(s.drop_first(), e);
        assert(spec_upsert(s, e) =~= s.push(e));
    }
}

/// Replacing the one entry of a market with a checked entry keeps the
/// registry invariant.
proof fn lemma_wf_update(s: Seq<MarketEntry>, e: MarketEntry, k: int)
    requires
        wf_entries(s),
        0 <= k < s.len(),
        s[k].market_id == e.market_id,
        e.yes != e.no,
        instruments_free(s, e.market_id, e.yes, e.no),
    ensures
        wf_entries(s.update(k, e)),
{
    let t = s.update(k, e);
    assert forall|i: int, j: int| 0 <= i < j < t.len() implies !entry_uses(
        #[trigger] t[i],
        t[j].yes,
    ) && !entry_uses(t[i], (#[trigger] t[j]).no) by {
        if i != k && j != k {
            assert(t[i] == s[i] && t[j] == s[j]);
        } else if i == k {
            assert(s[j].market_id != e.market_id);
        } else {
            assert(s[i].market_id != e.market_id);
        }
    }
}

/// Appending a checked entry for a new market keeps the registry invariant.
proof fn lemma_wf_push(s: Seq<MarketEntry>, e: MarketEntry)
    requires
        wf_entries(s),
        e.yes != e.no,
        forall|j: int| 0 <= j < s.len() ==> (#[trigger] s[j]).market_id != e.market_id,
        instruments_free(s, e.market_id, e.yes, e.no),
    ensures
        wf_entries(s.push(e)),
{
    let t = s.push(e);
    assert forall|i: int, j: int| 0 <= i < j < t.len() implies !entry_uses(
        #[trigger] t[i],
        t[j].yes,
    ) && !entry_uses(t[i], (#[trigger] t[j]).no) by {
        if j < s.len() {
            assert(t[i] == s[i] && t[j] == s[j]);
        } else {
            assert(t[i] == s[i] && t[j] == e);
            assert(s[i].market_id != e.market_id);
        }
    }
}

} // verus!
