//! The price cache: the latest ticker per (venue, pair symbol).
//!
//! Writes are blind last-write-wins overwrites; a lookup after an insert
//! returns exactly the inserted ticker until it is superseded.

use vstd::prelude::*;
use crate::types::{Exchange, Ticker, TickerView};

verus! {

/// One cache slot.
struct CacheEntry {
    exchange: Exchange,
    symbol: String,
    ticker: Ticker,
}

/// Mathematical image of a cache slot.
pub struct CacheEntryView {
    pub exchange: Exchange,
    pub symbol: Seq<char>,
    pub ticker: TickerView,
}

impl View for CacheEntry {
    type V = CacheEntryView;

    closed spec fn view(&self) -> CacheEntryView {
        CacheEntryView { exchange: self.exchange, symbol: self.symbol@, ticker: self.ticker@ }
    }
}

/// The ticker stored under a key, searching the slots front to back.
pub open spec fn cache_lookup(s: Seq<CacheEntryView>, ex: Exchange, sym: Seq<char>) -> Option<
    TickerView,
>
    decreases s.len(),
{
    if s.len() == 0 {
        None
    } else if s[0].exchange == ex && s[0].symbol == sym {
        Some(s[0].ticker)
    } else {
        cache_lookup(s.drop_first(), ex, sym)
    }
}

/// Latest ticker per (venue, pair symbol).
pub struct PriceCache {
    entries: Vec<CacheEntry>,
}

impl View for PriceCache {
    type V = Seq<CacheEntryView>;

    closed spec fn view(&self) -> Seq<CacheEntryView> {
        Seq::new(self.entries@.len(), |i: int| self.entries@[i]@)
    }
}

impl PriceCache {
    /// Keys are unique, so a lookup's answer is the single slot for its key.
    pub closed spec fn wf(&self) -> bool {
        forall|i: int, j: int|
            0 <= i < j < self@.len() ==> !(self@[i].exchange == self@[j].exchange && self@[i].symbol
                == self@[j].symbol)
    }

    /// An empty cache.
    pub fn new() -> (r: PriceCache)
        ensures
            r@ =~= Seq::<CacheEntryView>::empty(),
            r.wf(),
            forall|ex: Exchange, sym: Seq<char>| cache_lookup(r@, ex, sym) is None,
    {
        let r = PriceCache { entries: Vec::new() };
        proof {
            assert(r@ =~= Seq::<CacheEntryView>::empty());
            assert forall|ex: Exchange, sym: Seq<char>| cache_lookup(r@, ex, sym) is None by {
                reveal_with_fuel(cache_lookup, 1);
            }
        }
        r
    }

    /// How many keys hold a ticker.
    pub fn len(&self) -> (r: usize)
        ensures
            r == self@.len(),
    {
        self.entries.len()
    }

    /// Stores `t` under `(exchange, symbol)`, superseding any prior ticker
    /// under the same key and leaving every other key unchanged.
    #[verifier::loop_isolation(false)]
    pub fn insert(&mut self, exchange: Exchange, symbol: String, t: Ticker)
        requires
            old(self).wf(),
        ensures
            final(self).wf(),
            cache_lookup(final(self)@, exchange, symbol@) == Some(t@),
            forall|ex: Exchange, sym: Seq<char>|
                !(ex == exchange && sym == symbol@) ==> cache_lookup(final(self)@, ex, sym)
                    == cache_lookup(old(self)@, ex, sym),
            forall|k: int|
                0 <= k < final(self)@.len() ==> (#[trigger] final(self)@[k] == (CacheEntryView {
                    exchange,
                    symbol: symbol@,
                    ticker: t@,
                }) || (k < old(self)@.len() && final(self)@[k] == old(self)@[k])),
    {
        let ghost pre = self@;
        let n = self.entries.len();
        let mut i: usize = 0;
        while i < n
            invariant
                n == self.entries@.len(),
                i <= n,
                self@ == pre,
                self.wf(),
                forall|k: int|
                    0 <= k < i ==> !(self@[k].exchange == exchange && self@[k].symbol == symbol@),
            decreases n - i,
        {
            let hit = self.entries[i].exchange == exchange && self.entries[i].symbol == symbol;
            if hit {
                let e = CacheEntry { exchange, symbol, ticker: t };
                self.entries[i] = e;
                proof {
                    assert(self@ =~= pre.update(i as int, e@));
                    assert(e@.exchange == pre[i as int].exchange && e@.symbol == pre[
                        i as int
                    ].symbol);
                    assert forall|a: int, b: int| 0 <= a < b < self@.len() implies !(
                    self@[a].exchange == self@[b].exchange && self@[a].symbol
                        == self@[b].symbol) by {
                        assert(!(pre[a].exchange == pre[b].exchange && pre[a].symbol
                            == pre[b].symbol));
                    }
                    lemma_lookup_update(pre, i as int, e@);
                    assert(cache_lookup(self@, exchange, symbol@) == Some(t@));
                    assert forall|ex: Exchange, sym: Seq<char>|
                        !(ex == exchange && sym == symbol@) implies cache_lookup(self@, ex, sym)
                        == cache_lookup(pre, ex, sym) by {
                        assert(cache_lookup(pre.update(i as int, e@), ex, sym) == cache_lookup(
                            pre,
                            ex,
                            sym,
                        ));
                    }
                }
                return ;
            }
            i = i + 1;
        }
        let e = CacheEntry { exchange, symbol, ticker: t };
        self.entries.push(e);
        proof {
            assert(self@ =~= pre.push(e@));
            lemma_lookup_push(pre, e@);
            assert forall|ex: Exchange, sym: Seq<char>|
                !(ex == exchange && sym == symbol@) implies cache_lookup(self@, ex, sym)
                == cache_lookup(pre, ex, sym) by {
                assert(cache_lookup(pre.push(e@), ex, sym) == cache_lookup(pre, ex, sym));
            }
        }
    }

    /// The ticker stored under `(exchange, symbol)`, if any.
    pub fn get(&self, exchange: Exchange, symbol: &String) -> (r: Option<Ticker>)
        ensures
            r matches Some(t) ==> cache_lookup(self@, exchange, symbol@) == Some(t@),
            r is None ==> cache_lookup(self@, exchange, symbol@) is None,
    {
        let n = self.entries.len();
        let mut i: usize = 0;
        proof {
            assert(self@.skip(0) =~= self@);
        }
        while i < n
            invariant
                n == self.entries@.len(),
                i <= n,
                cache_lookup(self@, exchange, symbol@) == cache_lookup(
                    self@.skip(i as int),
                    exchange,
                    symbol@,
                ),
            decreases n - i,
        {
            let hit = self.entries[i].exchange == exchange && self.entries[i].symbol == *symbol;
            proof {
                assert(self@.skip(i as int)[0] == self@[i as int]);
                assert(self@.skip(i as int).drop_first() =~= self@.skip(i as int + 1));
            }
            if hit {
                return Some(self.entries[i].ticker.duplicate());
            }
            i = i + 1;
        }
        proof {
            assert(self@.skip(n as int) =~= Seq::<CacheEntryView>::empty());
        }
        None
    }

    /// Every cached ticker, in slot order.
    pub fn all(&self) -> (r: Vec<Ticker>)
        ensures
            r@.len() == self@.len(),
            forall|i: int| 0 <= i < r@.len() ==> r@[i]@ == self@[i].ticker,
    {
        let n = self.entries.len();
        let mut out: Vec<Ticker> = Vec::new();
        let mut i: usize = 0;
        while i < n
            invariant
                n == self.entries@.len(),
                i <= n,
                out@.len() == i,
                forall|k: int| 0 <= k < i ==> out@[k]@ == self@[k].ticker,
            decreases n - i,
        {
            out.push(self.entries[i].ticker.duplicate());
            i = i + 1;
        }
        out
    }
}

/// A well-formed cache never holds two slots with the same key.
pub proof fn lemma_wf_keys_unique(c: &PriceCache)
    requires
        c.wf(),
    ensures
        forall|i: int, j: int|
            0 <= i < j < c@.len() ==> !(c@[i].exchange == c@[j].exchange && c@[i].symbol
                == c@[j].symbol),
{
}

/// A positive lookup answer is the ticker of one of the slots, filed
/// under exactly the key that was asked for.
pub proof fn lemma_lookup_in(s: Seq<CacheEntryView>, ex: Exchange, sym: Seq<char>)
    requires
        cache_lookup(s, ex, sym) is Some,
    ensures
        exists|k: int|
            0 <= k < s.len() && Some(#[trigger] s[k].ticker) == cache_lookup(s, ex, sym)
                && s[k].exchange == ex && s[k].symbol == sym,
    decreases s.len(),
{
    if s.len() == 0 {
    } else if s[0].exchange == ex && s[0].symbol == sym {
        assert(0 <= 0 < s.len() && Some(s[0].ticker) == cache_lookup(s, ex, sym) && s[0].exchange
            == ex && s[0].symbol == sym);
    } else {
        lemma_lookup_in(s.drop_first(), ex, sym);
        let k = choose|k: int|
            0 <= k < s.drop_first().len() && Some(#[trigger] s.drop_first()[k].ticker)
                == cache_lookup(s.drop_first(), ex, sym) && s.drop_first()[k].exchange == ex
                && s.drop_first()[k].symbol == sym;
        assert(s[k + 1] == s.drop_first()[k]);
        assert(0 <= k + 1 < s.len() && Some(s[k + 1].ticker) == cache_lookup(s, ex, sym) && s[k
            + 1].exchange == ex && s[k + 1].symbol == sym);
    }
}

/// Replacing the slot that holds a key rewrites that key's answer and no
/// other.
proof fn lemma_lookup_update(s: Seq<CacheEntryView>, i: int, e: CacheEntryView)
    requires
        0 <= i < s.len(),
        forall|k: int| 0 <= k < i ==> !(s[k].exchange == e.exchange && s[k].symbol == e.symbol),
        forall|a: int, b: int|
            0 <= a < b < s.len() ==> !(s[a].exchange == s[b].exchange && s[a].symbol
                == s[b].symbol),
        s[i].exchange == e.exchange && s[i].symbol == e.symbol,
    ensures
        cache_lookup(s.update(i, e), e.exchange, e.symbol) == Some(e.ticker),
        forall|ex: Exchange, sym: Seq<char>|
            !(ex == e.exchange && sym == e.symbol) ==> cache_lookup(s.update(i, e), ex, sym)
                == cache_lookup(s, ex, sym),
    decreases s.len(),
{
    let u = s.update(i, e);
    if i == 0 {
        assert(u[0] == e);
        assert(cache_lookup(u, e.exchange, e.symbol) == Some(e.ticker));
        assert forall|ex: Exchange, sym: Seq<char>|
            !(ex == e.exchange && sym == e.symbol) implies cache_lookup(u, ex, sym)
            == cache_lookup(s, ex, sym) by {
            assert(u.drop_first() =~= s.drop_first());
            assert(s[0] == u[0] || !(s[0].exchange == ex && s[0].symbol == sym) || !(u[0].exchange
                == ex && u[0].symbol == sym));
        }
    } else {
        let tail = s.drop_first();
        assert(u.drop_first() =~= tail.update(i - 1, e));
        assert(u[0] == s[0]);
        lemma_lookup_update(tail, i - 1, e);
        assert(!(s[0].exchange == e.exchange && s[0].symbol == e.symbol));
        assert(cache_lookup(u, e.exchange, e.symbol) == cache_lookup(
            tail.update(i - 1, e),
            e.exchange,
            e.symbol,
        ));
        assert forall|ex: Exchange, sym: Seq<char>|
            !(ex == e.exchange && sym == e.symbol) implies cache_lookup(u, ex, sym)
            == cache_lookup(s, ex, sym) by {
            if s[0].exchange == ex && s[0].symbol == sym {
            } else {
                assert(cache_lookup(u, ex, sym) == cache_lookup(tail.update(i - 1, e), ex, sym));
                assert(cache_lookup(s, ex, sym) == cache_lookup(tail, ex, sym));
            }
        }
    }
}

/// Appending a slot for a fresh key answers that key and no other.
proof fn lemma_lookup_push(s: Seq<CacheEntryView>, e: CacheEntryView)
    requires
        forall|k: int| 0 <= k < s.len() ==> !(s[k].exchange == e.exchange && s[k].symbol == e.symbol),
    ensures
        cache_lookup(s.push(e), e.exchange, e.symbol) == Some(e.ticker),
        forall|ex: Exchange, sym: Seq<char>|
            !(ex == e.exchange && sym == e.symbol) ==> cache_lookup(s.push(e), ex, sym)
                == cache_lookup(s, ex, sym),
    decreases s.len(),
{
    let u = s.push(e);
    if s.len() == 0 {
        assert(u[0] == e);
        assert(cache_lookup(u, e.exchange, e.symbol) == Some(e.ticker));
        assert forall|ex: Exchange, sym: Seq<char>|
            !(ex == e.exchange && sym == e.symbol) implies cache_lookup(u, ex, sym)
            == cache_lookup(s, ex, sym) by {
            assert(cache_lookup(u.drop_first(), ex, sym) is None);
            assert(cache_lookup(u, ex, sym) is None);
            assert(cache_lookup(s, ex, sym) is None);
        }
    } else {
        let tail = s.drop_first();
        assert(u[0] == s[0]);
        assert(u.drop_first() =~= tail.push(e));
        lemma_lookup_push(tail, e);
        assert(!(s[0].exchange == e.exchange && s[0].symbol == e.symbol));
        assert(cache_lookup(u, e.exchange, e.symbol) == cache_lookup(
            tail.push(e),
            e.exchange,
            e.symbol,
        ));
        assert forall|ex: Exchange, sym: Seq<char>|
            !(ex == e.exchange && sym == e.symbol) implies cache_lookup(u, ex, sym)
            == cache_lookup(s, ex, sym) by {
            if s[0].exchange == ex && s[0].symbol == sym {
            } else {
                assert(cache_lookup(u, ex, sym) == cache_lookup(tail.push(e), ex, sym));
                assert(cache_lookup(s, ex, sym) == cache_lookup(tail, ex, sym));
            }
        }
    }
}

} // verus!
