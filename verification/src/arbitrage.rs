//! Cross-venue spread evaluation and opportunity emission.
//!
//! For a (buy, sell) direction the engine computes
//! `spread_pct = ((sell - buy) / buy) * 100` by decimal arithmetic,
//! `net_spread_pct = spread_pct - (buy_fee + sell_fee)` exactly, and emits
//! an opportunity exactly when both prices are strictly positive and the
//! net spread clears the configured threshold.

use vstd::prelude::*;
use crate::decimal::{
    Decimal, DecView, vnum, pow10, MAX_SCALE, can_add, can_sub, can_mul, sum_v, diff_v, prod_v,
    div100_v, rd_div, rd_mul, rd_product, quot_of,
};
use crate::types::{ArbitrageOpportunity, Exchange, Ticker, TradingPair};
use crate::cache::{PriceCache, cache_lookup};
use crate::config::Config;

verus! {

/// The spread percentage reported for a direction: decimal division of the
/// exact price gap by the buy price, then decimal multiplication by one
/// hundred.  `None` where a step of that pipeline is undefined.
pub open spec fn spread_pct_opt(sell_bid: DecView, buy_ask: DecView) -> Option<DecView> {
    if !can_sub(sell_bid, buy_ask) {
        None
    } else {
        match quot_of(diff_v(sell_bid, buy_ask), buy_ask) {
            Some(q) => rd_product(q, (DecView { m: 100, s: 0 })),
            None => None,
        }
    }
}

/// The net spread: the gross spread less both fees, exactly.
pub open spec fn net_of(spr: DecView, buy_fee: DecView, sell_fee: DecView) -> DecView {
    diff_v(spr, sum_v(buy_fee, sell_fee))
}

/// Law: the net spread plus both fee percentages reproduces the gross
/// spread exactly, for every representable spread and fee pair.
pub proof fn lemma_net_spread_monotonicity(spr: DecView, buy_fee: DecView, sell_fee: DecView)
    requires
        spr.s <= MAX_SCALE,
        buy_fee.s <= MAX_SCALE,
        sell_fee.s <= MAX_SCALE,
    ensures
        vnum(net_of(spr, buy_fee, sell_fee)) + vnum(buy_fee) + vnum(sell_fee) == vnum(spr),
{
    crate::decimal::lemma_sum_diff_vnum(buy_fee, sell_fee);
    crate::decimal::lemma_sum_diff_vnum(spr, sum_v(buy_fee, sell_fee));
}

/// Whether every step of the profit formula
/// `qty*(sell-buy) - qty*buy*(buy_fee/100) - qty*sell*(sell_fee/100)`
/// stays inside the representable envelope.
pub open spec fn profit_arith_ok(
    qty: DecView,
    buy_ask: DecView,
    sell_bid: DecView,
    buy_fee: DecView,
    sell_fee: DecView,
) -> bool {
    let d = diff_v(sell_bid, buy_ask);
    let gross = prod_v(qty, d);
    let leg1 = prod_v(prod_v(qty, buy_ask), div100_v(buy_fee));
    let leg2 = prod_v(prod_v(qty, sell_bid), div100_v(sell_fee));
    &&& can_sub(sell_bid, buy_ask)
    &&& can_mul(qty, d)
    &&& buy_fee.s + 2 <= MAX_SCALE
    &&& can_mul(qty, buy_ask)
    &&& can_mul(prod_v(qty, buy_ask), div100_v(buy_fee))
    &&& sell_fee.s + 2 <= MAX_SCALE
    &&& can_mul(qty, sell_bid)
    &&& can_mul(prod_v(qty, sell_bid), div100_v(sell_fee))
    &&& can_sub(gross, leg1)
    &&& can_sub(diff_v(gross, leg1), leg2)
}

/// Whether one buy/sell direction yields an opportunity: the spread
/// pipeline is defined and its result clears the emission gate (which
/// itself asks for strictly positive prices).
pub open spec fn direction_emits(
    buy_ask: DecView,
    sell_bid: DecView,
    buy_fee: DecView,
    sell_fee: DecView,
    min_spread: DecView,
    qty: DecView,
) -> bool {
    match spread_pct_opt(sell_bid, buy_ask) {
        Some(s) => emits(s, buy_ask, sell_bid, buy_fee, sell_fee, min_spread, qty),
        None => false,
    }
}

/// The emission gate: both prices strictly positive, the net spread
/// exactly computable and above the threshold, and the profit formula
/// representable.
pub open spec fn emits(
    spread_pct: DecView,
    buy_ask: DecView,
    sell_bid: DecView,
    buy_fee: DecView,
    sell_fee: DecView,
    min_spread: DecView,
    qty: DecView,
) -> bool {
    &&& vnum(buy_ask) > 0
    &&& vnum(sell_bid) > 0
    &&& can_add(buy_fee, sell_fee)
    &&& can_sub(spread_pct, sum_v(buy_fee, sell_fee))
    &&& vnum(net_of(spread_pct, buy_fee, sell_fee)) > vnum(min_spread)
    &&& profit_arith_ok(qty, buy_ask, sell_bid, buy_fee, sell_fee)
}

/// Decides emission for one direction, given the computed gross spread
/// percentage, and assembles the record.  Emission happens precisely
/// under `emits`, and the record's net spread, actionability and
/// potential profit satisfy exact identities.
#[allow(unused_variables)]
pub fn build_opportunity(
    pair: &TradingPair,
    buy_exchange: Exchange,
    sell_exchange: Exchange,
    buy_price: &Decimal,
    sell_price: &Decimal,
    spread_pct: &Decimal,
    buy_fee: &Decimal,
    sell_fee: &Decimal,
    min_spread: &Decimal,
    qty: &Decimal,
    id: String,
    now: u64,
) -> (r: Option<ArbitrageOpportunity>)
    requires
        buy_price.wf(),
        sell_price.wf(),
        spread_pct.wf(),
        buy_fee.wf(),
        sell_fee.wf(),
        min_spread.wf(),
        qty.wf(),
    ensures
        r is Some <==> emits(
            spread_pct@,
            buy_price@,
            sell_price@,
            buy_fee@,
            sell_fee@,
            min_spread@,
            qty@,
        ),
        r matches Some(o) ==> {
            &&& o.wf()
            &&& o@.id == id@
            &&& o@.pair == pair@
            &&& o@.buy_exchange == buy_exchange
            &&& o@.sell_exchange == sell_exchange
            &&& o@.buy_price == buy_price@
            &&& o@.sell_price == sell_price@
            &&& o@.spread_pct == spread_pct@
            &&& o@.quantity == qty@
            &&& o@.detected_at == now
            &&& vnum(o@.net_spread_pct) + vnum(buy_fee@) + vnum(sell_fee@) == vnum(o@.spread_pct)
            &&& vnum(o@.net_spread_pct) > vnum(min_spread@)
            &&& o@.is_actionable == (vnum(o@.net_spread_pct) > 0)
            &&& 100 * pow10(MAX_SCALE as nat) * pow10(MAX_SCALE as nat) * vnum(
                o@.potential_profit,
            ) == 100 * pow10(MAX_SCALE as nat) * (vnum(qty@) * (vnum(sell_price@) - vnum(
                buy_price@,
            ))) - vnum(qty@) * vnum(buy_price@) * vnum(buy_fee@) - vnum(qty@) * vnum(sell_price@)
                * vnum(sell_fee@)
        },
{
    if !buy_price.is_positive() || !sell_price.is_positive() {
        return None;
    }
    let total_fees = match buy_fee.checked_add(sell_fee) {
        Some(f) => f,
        None => {
            return None;
        },
    };
    let net = match spread_pct.checked_sub(&total_fees) {
        Some(n) => n,
        None => {
            return None;
        },
    };
    if !min_spread.lt(&net) {
        return None;
    }
    let d = match sell_price.checked_sub(buy_price) {
        Some(v) => v,
        None => {
            return None;
        },
    };
    let gross = match qty.checked_mul(&d) {
        Some(v) => v,
        None => {
            return None;
        },
    };
    if buy_fee.scale() + 2 > MAX_SCALE {
        return None;
    }
    let fb = buy_fee.div_by_100();
    let t1 = match qty.checked_mul(buy_price) {
        Some(v) => v,
        None => {
            return None;
        },
    };
    let leg1 = match t1.checked_mul(&fb) {
        Some(v) => v,
        None => {
            return None;
        },
    };
    if sell_fee.scale() + 2 > MAX_SCALE {
        return None;
    }
    let fs = sell_fee.div_by_100();
    let t2 = match qty.checked_mul(sell_price) {
        Some(v) => v,
        None => {
            return None;
        },
    };
    let leg2 = match t2.checked_mul(&fs) {
        Some(v) => v,
        None => {
            return None;
        },
    };
    let p1 = match gross.checked_sub(&leg1) {
        Some(v) => v,
        None => {
            return None;
        },
    };
    let profit = match p1.checked_sub(&leg2) {
        Some(v) => v,
        None => {
            return None;
        },
    };
    let actionable = net.is_positive();
    proof {
        lemma_profit_formula(
            qty@,
            buy_price@,
            sell_price@,
            buy_fee@,
            sell_fee@,
            d@,
            gross@,
            fb@,
            t1@,
            leg1@,
            fs@,
            t2@,
            leg2@,
            p1@,
            profit@,
        );
    }
    Some(
        ArbitrageOpportunity {
            id,
            pair: pair.duplicate(),
            buy_exchange,
            sell_exchange,
            buy_price: *buy_price,
            sell_price: *sell_price,
            spread_pct: *spread_pct,
            net_spread_pct: net,
            potential_profit: profit,
            quantity: *qty,
            detected_at: now,
            is_actionable: actionable,
        },
    )
}

/// Evaluates one buy/sell direction.  The buy leg fills at the buy venue's
/// ask, the sell leg at the sell venue's bid.  An opportunity is returned
/// exactly when the direction emits: the spread pipeline is defined and
/// its result satisfies the emission conditions.  The record's gross
/// spread is the decimal image of `((sell - buy) / buy) * 100`.
pub fn evaluate_spread(
    buy_ticker: &Ticker,
    sell_ticker: &Ticker,
    buy_fee: &Decimal,
    sell_fee: &Decimal,
    min_spread: &Decimal,
    qty: &Decimal,
    id: String,
    now: u64,
) -> (r: Option<ArbitrageOpportunity>)
    requires
        buy_ticker.wf(),
        sell_ticker.wf(),
        buy_fee.wf(),
        sell_fee.wf(),
        min_spread.wf(),
        qty.wf(),
    ensures
        r is Some <==> direction_emits(
            buy_ticker@.ask,
            sell_ticker@.bid,
            buy_fee@,
            sell_fee@,
            min_spread@,
            qty@,
        ),
        r matches Some(o) ==> {
            &&& o.wf()
            &&& o@.id == id@
            &&& o@.pair == buy_ticker@.pair
            &&& o@.buy_exchange == buy_ticker@.exchange
            &&& o@.sell_exchange == sell_ticker@.exchange
            &&& o@.buy_price == buy_ticker@.ask
            &&& o@.sell_price == sell_ticker@.bid
            &&& o@.quantity == qty@
            &&& o@.detected_at == now
            &&& vnum(buy_ticker@.ask) > 0
            &&& vnum(sell_ticker@.bid) > 0
            &&& spread_pct_opt(sell_ticker@.bid, buy_ticker@.ask) == Some(o@.spread_pct)
            &&& vnum(o@.net_spread_pct) + vnum(buy_fee@) + vnum(sell_fee@) == vnum(o@.spread_pct)
            &&& vnum(o@.net_spread_pct) > vnum(min_spread@)
            &&& o@.is_actionable == (vnum(o@.net_spread_pct) > 0)
            &&& 100 * pow10(MAX_SCALE as nat) * pow10(MAX_SCALE as nat) * vnum(
                o@.potential_profit,
            ) == 100 * pow10(MAX_SCALE as nat) * (vnum(qty@) * (vnum(sell_ticker@.bid) - vnum(
                buy_ticker@.ask,
            ))) - vnum(qty@) * vnum(buy_ticker@.ask) * vnum(buy_fee@) - vnum(qty@) * vnum(
                sell_ticker@.bid,
            ) * vnum(sell_fee@)
        },
{
    let buy_price = buy_ticker.ask;
    let sell_price = sell_ticker.bid;
    if !buy_price.is_positive() || !sell_price.is_positive() {
        return None;
    }
    let d = match sell_price.checked_sub(&buy_price) {
        Some(v) => v,
        None => {
            return None;
        },
    };
    let q = match rd_div(&d, &buy_price) {
        Some(v) => v,
        None => {
            return None;
        },
    };
    let hundred = Decimal::new(100, 0);
    let spread_pct = match rd_mul(&q, &hundred) {
        Some(v) => v,
        None => {
            return None;
        },
    };
    build_opportunity(
        &buy_ticker.pair,
        buy_ticker.exchange,
        sell_ticker.exchange,
        &buy_price,
        &sell_price,
        &spread_pct,
        buy_fee,
        sell_fee,
        min_spread,
        qty,
        id,
        now,
    )
}

/// The one venue that is not `ex`.
pub open spec fn other_of(ex: Exchange) -> Exchange {
    match ex {
        Exchange::Bybit => Exchange::Bitget,
        Exchange::Bitget => Exchange::Bybit,
    }
}

/// The one venue that is not `ex`.
pub fn other_venue(ex: Exchange) -> (r: Exchange)
    ensures
        r == other_of(ex),
        r != ex,
{
    match ex {
        Exchange::Bybit => Exchange::Bitget,
        Exchange::Bitget => Exchange::Bybit,
    }
}

/// The cache key the detector files a pair under: its `BASE/QUOTE` label.
pub open spec fn pair_label_of(p: crate::types::PairView) -> Seq<char> {
    p.base + "/"@ + p.quote
}

/// What holds of every opportunity the detector hands out, relative to the
/// configuration it ran under.
pub open spec fn opp_gate_ok(o: crate::types::OppView, c: Config, now: u64) -> bool {
    &&& crate::types::opp_wf(o)
    &&& vnum(o.buy_price) > 0
    &&& vnum(o.sell_price) > 0
    &&& vnum(o.net_spread_pct) + vnum(c.fee_of(o.buy_exchange)) + vnum(c.fee_of(o.sell_exchange))
        == vnum(o.spread_pct)
    &&& vnum(o.net_spread_pct) > vnum(c.engine.min_spread_pct@)
    &&& o.is_actionable == (vnum(o.net_spread_pct) > 0)
    &&& o.quantity == c.trading.max_trade_qty@
    &&& o.detected_at == now
}

/// Maintains the latest prices and finds cross-venue dislocations.
pub struct ArbitrageDetector {
    prices: PriceCache,
    config: Config,
}

impl ArbitrageDetector {
    /// The cached slots.
    pub closed spec fn cache_view(&self) -> Seq<crate::cache::CacheEntryView> {
        self.prices@
    }

    /// The configuration the detector runs under.
    pub closed spec fn spec_config(&self) -> Config {
        self.config
    }

    /// Cache keys unique, every cached ticker within the envelope and
    /// filed under its own venue and pair label, and the configuration
    /// within the envelope.
    pub closed spec fn wf(&self) -> bool {
        &&& self.prices.wf()
        &&& self.config.wf()
        &&& forall|k: int|
            0 <= k < self.prices@.len() ==> crate::types::ticker_wf(
                #[trigger] self.prices@[k].ticker,
            ) && self.prices@[k].ticker.exchange == self.prices@[k].exchange
                && self.prices@[k].symbol == pair_label_of(self.prices@[k].ticker.pair)
    }

    /// A detector with an empty cache.
    pub fn new(config: Config) -> (r: ArbitrageDetector)
        requires
            config.wf(),
        ensures
            r.wf(),
            r.spec_config() == config,
            r.cache_view().len() == 0,
    {
        ArbitrageDetector { prices: PriceCache::new(), config }
    }

    /// Every cached ticker, for the status surface: exactly one per
    /// (venue, pair label), the most recently written for that key.
    pub fn get_prices(&self) -> (r: Vec<Ticker>)
        requires
            self.wf(),
        ensures
            r@.len() == self.cache_view().len(),
            forall|i: int| 0 <= i < r@.len() ==> r@[i]@ == self.cache_view()[i].ticker,
            forall|i: int, j: int|
                0 <= i < j < r@.len() ==> !(r@[i]@.exchange == r@[j]@.exchange && pair_label_of(
                    r@[i]@.pair,
                ) == pair_label_of(r@[j]@.pair)),
    {
        proof {
            crate::cache::lemma_wf_keys_unique(&self.prices);
        }
        self.prices.all()
    }

    /// Ingests one ticker: writes it through to the cache, then evaluates
    /// both directions against the other venue's cached ticker for the
    /// same pair.  Afterwards the cache answers this ticker's key with
    /// exactly this ticker, other keys are untouched; nothing is emitted
    /// when the other venue has not published for the pair, and otherwise
    /// each direction emits exactly under its emission conditions, with
    /// the forward record buying the incoming venue's ask and the reverse
    /// record buying the cached venue's ask.
    pub fn process_ticker(&mut self, ticker: &Ticker, id_a: String, id_b: String, now: u64) -> (r:
        Vec<ArbitrageOpportunity>)
        requires
            old(self).wf(),
            ticker.wf(),
        ensures
            final(self).wf(),
            final(self).spec_config() == old(self).spec_config(),
            cache_lookup(
                final(self).cache_view(),
                ticker@.exchange,
                pair_label_of(ticker@.pair),
            ) == Some(ticker@),
            forall|ex: Exchange, sym: Seq<char>|
                !(ex == ticker@.exchange && sym == pair_label_of(ticker@.pair)) ==> cache_lookup(
                    final(self).cache_view(),
                    ex,
                    sym,
                ) == cache_lookup(old(self).cache_view(), ex, sym),
            r@.len() <= 2,
            forall|k: int|
                0 <= k < r@.len() ==> opp_gate_ok(
                    #[trigger] r@[k]@,
                    old(self).spec_config(),
                    now,
                ) && (r@[k]@.id == id_a@ || r@[k]@.id == id_b@),
            ({
                let cfg = old(self).spec_config();
                let other = other_of(ticker@.exchange);
                let fee_in = cfg.fee_of(ticker@.exchange);
                let fee_other = cfg.fee_of(other);
                let min = cfg.engine.min_spread_pct@;
                let qty = cfg.trading.max_trade_qty@;
                match cache_lookup(old(self).cache_view(), other, pair_label_of(ticker@.pair)) {
                    None => r@.len() == 0,
                    Some(u) => {
                        let fwd = direction_emits(ticker@.ask, u.bid, fee_in, fee_other, min, qty);
                        let rev = direction_emits(u.ask, ticker@.bid, fee_other, fee_in, min, qty);
                        &&& r@.len() == (if fwd {
                            1int
                        } else {
                            0int
                        }) + (if rev {
                            1int
                        } else {
                            0int
                        })
                        &&& (fwd ==> r@[0]@.buy_exchange == ticker@.exchange
                            && r@[0]@.sell_exchange == other && r@[0]@.buy_price == ticker@.ask
                            && r@[0]@.sell_price == u.bid && r@[0]@.id == id_a@)
                        &&& (rev ==> r@[r@.len() - 1]@.buy_exchange == other && r@[r@.len()
                            - 1]@.sell_exchange == ticker@.exchange && r@[r@.len() - 1]@.buy_price
                            == u.ask && r@[r@.len() - 1]@.sell_price == ticker@.bid && r@[r@.len()
                            - 1]@.id == id_b@)
                    },
                }
            }),
    {
        let ghost pre_cache = self.prices@;
        let symbol = ticker.pair.label();
        self.prices.insert(ticker.exchange, symbol.clone(), ticker.duplicate());
        let mut out: Vec<ArbitrageOpportunity> = Vec::new();
        let other = other_venue(ticker.exchange);
        let cached = self.prices.get(other, &symbol);
        proof {
            assert(cache_lookup(self.prices@, other, symbol@) == cache_lookup(
                pre_cache,
                other,
                symbol@,
            ));
        }
        match cached {
            None => out,
            Some(other_ticker) => {
                proof {
                    crate::cache::lemma_lookup_in(self.prices@, other, symbol@);
                    assert(crate::types::ticker_wf(other_ticker@) && other_ticker@.exchange
                        == other);
                }
                let fee_in = self.config.fee_for(ticker.exchange);
                let fee_other = self.config.fee_for(other);
                let min_spread = self.config.engine.min_spread_pct;
                let qty = self.config.trading.max_trade_qty;
                if let Some(o) = evaluate_spread(
                    ticker,
                    &other_ticker,
                    &fee_in,
                    &fee_other,
                    &min_spread,
                    &qty,
                    id_a,
                    now,
                ) {
                    let ghost ov = o@;
                    proof {
                        assert(opp_gate_ok(ov, self.spec_config(), now));
                    }
                    out.push(o);
                }
                if let Some(o) = evaluate_spread(
                    &other_ticker,
                    ticker,
                    &fee_other,
                    &fee_in,
                    &min_spread,
                    &qty,
                    id_b,
                    now,
                ) {
                    let ghost ov = o@;
                    proof {
                        assert(opp_gate_ok(ov, self.spec_config(), now));
                    }
                    out.push(o);
                }
                proof {
                    assert forall|k: int| 0 <= k < out@.len() implies opp_gate_ok(
                        #[trigger] out@[k]@,
                        self.spec_config(),
                        now,
                    ) && (out@[k]@.id == id_a@ || out@[k]@.id == id_b@) by {}
                }
                out
            },
        }
    }
}

/// Chains the exactness facts of each arithmetic step into the single
/// profit identity of the emission contract.
proof fn lemma_profit_formula(
    q: DecView,
    b: DecView,
    s: DecView,
    fb0: DecView,
    fs0: DecView,
    d: DecView,
    gross: DecView,
    fb: DecView,
    t1: DecView,
    leg1: DecView,
    fs: DecView,
    t2: DecView,
    leg2: DecView,
    p1: DecView,
    profit: DecView,
)
    requires
        vnum(d) == vnum(s) - vnum(b),
        vnum(gross) * pow10(MAX_SCALE as nat) == vnum(q) * vnum(d),
        100 * vnum(fb) == vnum(fb0),
        vnum(t1) * pow10(MAX_SCALE as nat) == vnum(q) * vnum(b),
        vnum(leg1) * pow10(MAX_SCALE as nat) == vnum(t1) * vnum(fb),
        100 * vnum(fs) == vnum(fs0),
        vnum(t2) * pow10(MAX_SCALE as nat) == vnum(q) * vnum(s),
        vnum(leg2) * pow10(MAX_SCALE as nat) == vnum(t2) * vnum(fs),
        vnum(p1) == vnum(gross) - vnum(leg1),
        vnum(profit) == vnum(p1) - vnum(leg2),
    ensures
        100 * pow10(MAX_SCALE as nat) * pow10(MAX_SCALE as nat) * vnum(profit) == 100 * pow10(
            MAX_SCALE as nat,
        ) * (vnum(q) * (vnum(s) - vnum(b))) - vnum(q) * vnum(b) * vnum(fb0) - vnum(q) * vnum(s)
            * vnum(fs0),
{
    let p = pow10(MAX_SCALE as nat);
    crate::decimal::lemma_pow10_pos(MAX_SCALE as nat);
    // leg1 on the doubled grid equals q*b*fb0
    assert(100 * p * (vnum(leg1) * p) == vnum(q) * vnum(b) * vnum(fb0)) by (nonlinear_arith)
        requires
            vnum(leg1) * p == vnum(t1) * vnum(fb),
            vnum(t1) * p == vnum(q) * vnum(b),
            100 * vnum(fb) == vnum(fb0),
    ;
    assert(100 * p * (vnum(leg2) * p) == vnum(q) * vnum(s) * vnum(fs0)) by (nonlinear_arith)
        requires
            vnum(leg2) * p == vnum(t2) * vnum(fs),
            vnum(t2) * p == vnum(q) * vnum(s),
            100 * vnum(fs) == vnum(fs0),
    ;
    assert(100 * p * p * vnum(profit) == 100 * p * (vnum(q) * vnum(d)) - 100 * p * (vnum(leg1) * p)
        - 100 * p * (vnum(leg2) * p)) by (nonlinear_arith)
        requires
            vnum(profit) == vnum(p1) - vnum(leg2),
            vnum(p1) == vnum(gross) - vnum(leg1),
            vnum(gross) * p == vnum(q) * vnum(d),
    ;
}

} // verus!
