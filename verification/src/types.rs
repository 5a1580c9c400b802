//! Domain data: venues, pairs, tickers, opportunities and trade records.

use vstd::prelude::*;
use crate::decimal::{Decimal, DecView, vnum, wf_v, can_add, can_sub, sum_v, scale_max, quot_of, rd_div, MAX_MANTISSA, MAX_SCALE};
use vstd::math::abs;

verus! {

/// Supported exchanges.
#[derive(Debug, Clone, Copy, PartialEq, Eq, Structural)]
pub enum Exchange {
    Bybit,
    Bitget,
}

impl Exchange {
    /// Display name of the venue.
    pub fn name(&self) -> (r: &'static str)
        ensures
            self is Bybit ==> r@ == "Bybit"@,
            self is Bitget ==> r@ == "Bitget"@,
    {
        match self {
            Exchange::Bybit => "Bybit",
            Exchange::Bitget => "Bitget",
        }
    }
}

/// The uppercase image that the standard library's case mapping assigns to
/// a piece of text.
pub uninterp spec fn upper_of(s: Seq<char>) -> Seq<char>;

/// Relies on `str::to_uppercase`: the uppercase image of the text, a
/// function of the characters alone.
#[verifier::external_body]
pub(crate) fn to_upper(s: &str) -> (r: String)
    ensures
        r@ == upper_of(s@),
{
    s.to_uppercase()
}

/// A spot trading pair, both asset codes held uppercase.
#[derive(Debug, Clone)]
pub struct TradingPair {
    pub base: String,
    pub quote: String,
}

/// Mathematical image of a pair: the two asset codes.
pub struct PairView {
    pub base: Seq<char>,
    pub quote: Seq<char>,
}

impl View for TradingPair {
    type V = PairView;

    open spec fn view(&self) -> PairView {
        PairView { base: self.base@, quote: self.quote@ }
    }
}

impl TradingPair {
    /// Builds a pair, folding both codes to uppercase.
    pub fn new(base: &str, quote: &str) -> (r: TradingPair)
        ensures
            r@.base == upper_of(base@),
            r@.quote == upper_of(quote@),
    {
        TradingPair { base: to_upper(base), quote: to_upper(quote) }
    }

    /// The venue-specific wire symbol: both supported venues concatenate
    /// the asset codes.
    pub fn symbol_for(&self, exchange: Exchange) -> (r: String)
        ensures
            r@ == self@.base + self@.quote,
    {
        let _ = exchange;
        let mut s = self.base.clone();
        s.append(self.quote.as_str());
        s
    }

    /// The human-readable `BASE/QUOTE` label.
    pub fn label(&self) -> (r: String)
        ensures
            r@ == self@.base + "/"@ + self@.quote,
    {
        let mut s = self.base.clone();
        s.append("/");
        s.append(self.quote.as_str());
        s
    }

    /// Field-wise copy.
    pub fn duplicate(&self) -> (r: TradingPair)
        ensures
            r@ == self@,
    {
        TradingPair { base: self.base.clone(), quote: self.quote.clone() }
    }

    /// Whether two pairs carry the same asset codes.
    pub fn same_pair(&self, other: &TradingPair) -> (r: bool)
        ensures
            r == (self@.base == other@.base && self@.quote == other@.quote),
    {
        self.base == other.base && self.quote == other.quote
    }
}

/// The first index at or after `from` holding `c`, or the length.
pub open spec fn find_char(s: Seq<char>, c: char, from: int) -> int
    decreases s.len() - from when 0 <= from <= s.len()
{
    if from >= s.len() {
        s.len() as int
    } else if s[from] == c {
        from
    } else {
        find_char(s, c, from + 1)
    }
}

/// The pair a piece of text denotes: ASCII text with a slash splits into
/// the uppercase base before the first slash and the uppercase quote
/// between the first and the second slash (or the end).
pub open spec fn pair_of_text(s: Seq<char>) -> Option<PairView> {
    if vstd::utf8::is_ascii_chars(s) && find_char(s, '/', 0) < s.len() {
        let i = find_char(s, '/', 0);
        let j = find_char(s, '/', i + 1);
        Some((PairView { base: upper_of(s.subrange(0, i)), quote: upper_of(s.subrange(i + 1, j)) }))
    } else {
        None
    }
}

/// Splits `BASE/QUOTE` text into a pair, exactly as [`pair_of_text`]
/// reads it.
pub fn parse_pair(s: &str) -> (r: Option<TradingPair>)
    ensures
        (match pair_of_text(s@) {
            Some(pv) => r matches Some(p) && p@ == pv,
            None => r is None,
        }),
{
    if !s.is_ascii() {
        return None;
    }
    let n = s.unicode_len();
    let i = find_slash(s, 0);
    if i == n {
        return None;
    }
    let j = find_slash(s, i + 1);
    let base = s.substring_ascii(0, i);
    let quote = s.substring_ascii(i + 1, j);
    Some(TradingPair::new(base, quote))
}

/// The first slash at or after `from`, or the length when there is none.
fn find_slash(s: &str, from: usize) -> (r: usize)
    requires
        from <= s@.len(),
    ensures
        r == find_char(s@, '/', from as int),
        from <= r <= s@.len(),
{
    let n = s.unicode_len();
    let mut i: usize = from;
    while i < n
        invariant
            n == s@.len(),
            from <= i <= n,
            find_char(s@, '/', from as int) == find_char(s@, '/', i as int),
        decreases n - i,
    {
        if s.get_char(i) == '/' {
            proof {
                assert(find_char(s@, '/', i as int) == i);
            }
            return i;
        }
        i = i + 1;
    }
    proof {
        assert(find_char(s@, '/', n as int) == n);
    }
    n
}

/// Real-time top-of-book data from one venue.
#[derive(Debug, Clone)]
pub struct Ticker {
    pub exchange: Exchange,
    pub pair: TradingPair,
    pub bid: Decimal,
    pub ask: Decimal,
    pub last: Decimal,
    pub volume_24h: Decimal,
    /// Milliseconds since the Unix epoch.
    pub timestamp: u64,
}

/// Mathematical image of a ticker.
pub struct TickerView {
    pub exchange: Exchange,
    pub pair: PairView,
    pub bid: DecView,
    pub ask: DecView,
    pub last: DecView,
    pub volume_24h: DecView,
    pub timestamp: u64,
}

impl View for Ticker {
    type V = TickerView;

    open spec fn view(&self) -> TickerView {
        TickerView {
            exchange: self.exchange,
            pair: self.pair@,
            bid: self.bid@,
            ask: self.ask@,
            last: self.last@,
            volume_24h: self.volume_24h@,
            timestamp: self.timestamp,
        }
    }
}

/// All decimal fields within the representable envelope.
pub open spec fn ticker_wf(t: TickerView) -> bool {
    &&& wf_v(t.bid)
    &&& wf_v(t.ask)
    &&& wf_v(t.last)
    &&& wf_v(t.volume_24h)
}

impl Ticker {
    pub open spec fn wf(&self) -> bool {
        ticker_wf(self@)
    }

    /// Field-wise copy.
    pub fn duplicate(&self) -> (r: Ticker)
        ensures
            r@ == self@,
    {
        Ticker {
            exchange: self.exchange,
            pair: self.pair.duplicate(),
            bid: self.bid,
            ask: self.ask,
            last: self.last,
            volume_24h: self.volume_24h,
            timestamp: self.timestamp,
        }
    }

    /// The quoted gap `ask - bid`: a value exactly when the difference is
    /// representable, and then exactly that difference.
    pub fn spread(&self) -> (r: Option<Decimal>)
        requires
            self.wf(),
        ensures
            r is Some <==> can_sub(self@.ask, self@.bid),
            r matches Some(d) ==> d.wf() && vnum(d@) == vnum(self@.ask) - vnum(self@.bid),
    {
        self.ask.checked_sub(&self.bid)
    }

    /// Whether the midpoint `(bid + ask) / 2` is exactly representable:
    /// the sum is, its scale leaves room for one more digit, and halving
    /// keeps the mantissa in the envelope.
    pub open spec fn mid_defined(&self) -> bool {
        &&& can_add(self@.bid, self@.ask)
        &&& scale_max(self@.bid.s, self@.ask.s) + 1 <= MAX_SCALE
        &&& abs(sum_v(self@.bid, self@.ask).m) * 5 <= MAX_MANTISSA
    }

    /// The midpoint `(bid + ask) / 2`: the exact midpoint where it is
    /// representable, the decimal division's rounded quotient otherwise,
    /// and `None` only where the sum itself leaves the envelope.
    pub fn mid_price(&self) -> (r: Option<Decimal>)
        requires
            self.wf(),
        ensures
            self.mid_defined() ==> (r matches Some(d) && d.wf() && 2 * vnum(d@) == vnum(self@.bid)
                + vnum(self@.ask)),
            !self.mid_defined() && can_add(self@.bid, self@.ask) ==> (match r {
                Some(d) => d.wf() && quot_of(sum_v(self@.bid, self@.ask), (DecView { m: 2, s: 0 }))
                    == Some(d@),
                None => quot_of(sum_v(self@.bid, self@.ask), (DecView { m: 2, s: 0 })) is None,
            }),
            !can_add(self@.bid, self@.ask) ==> r is None,
    {
        match self.bid.checked_add(&self.ask) {
            Some(sum) => {
                if sum.scale() < MAX_SCALE {
                    let m = sum.mantissa();
                    proof {
                        assert((MAX_MANTISSA / 5) * 5 == MAX_MANTISSA);
                    }
                    if -(MAX_MANTISSA / 5) <= m && m <= MAX_MANTISSA / 5 {
                        return Some(sum.half());
                    }
                }
                let two = Decimal::new(2, 0);
                rd_div(&sum, &two)
            },
            None => None,
        }
    }
}

/// Side of an order.
#[derive(Debug, Clone, Copy, PartialEq, Eq, Structural)]
pub enum OrderSide {
    Buy,
    Sell,
}

/// Kind of an order.
#[derive(Debug, Clone, Copy, PartialEq, Eq, Structural)]
pub enum OrderType {
    Market,
    Limit,
}

/// Lifecycle state of a paired trade.
#[derive(Debug, Clone, Copy, PartialEq, Eq, Structural)]
pub enum TradeStatus {
    Pending,
    PartialFill,
    Filled,
    Failed,
    Cancelled,
}

/// A cross-venue price dislocation found by the detector.
#[derive(Debug, Clone)]
pub struct ArbitrageOpportunity {
    pub id: String,
    pub pair: TradingPair,
    pub buy_exchange: Exchange,
    pub sell_exchange: Exchange,
    /// Ask on the buy venue.
    pub buy_price: Decimal,
    /// Bid on the sell venue.
    pub sell_price: Decimal,
    /// Gross spread, in percent.
    pub spread_pct: Decimal,
    /// Spread after both venues' fees, in percent.
    pub net_spread_pct: Decimal,
    /// Estimated profit in quote currency.
    pub potential_profit: Decimal,
    pub quantity: Decimal,
    /// Milliseconds since the Unix epoch.
    pub detected_at: u64,
    pub is_actionable: bool,
}

/// Mathematical image of an opportunity.
pub struct OppView {
    pub id: Seq<char>,
    pub pair: PairView,
    pub buy_exchange: Exchange,
    pub sell_exchange: Exchange,
    pub buy_price: DecView,
    pub sell_price: DecView,
    pub spread_pct: DecView,
    pub net_spread_pct: DecView,
    pub potential_profit: DecView,
    pub quantity: DecView,
    pub detected_at: u64,
    pub is_actionable: bool,
}

impl View for ArbitrageOpportunity {
    type V = OppView;

    open spec fn view(&self) -> OppView {
        OppView {
            id: self.id@,
            pair: self.pair@,
            buy_exchange: self.buy_exchange,
            sell_exchange: self.sell_exchange,
            buy_price: self.buy_price@,
            sell_price: self.sell_price@,
            spread_pct: self.spread_pct@,
            net_spread_pct: self.net_spread_pct@,
            potential_profit: self.potential_profit@,
            quantity: self.quantity@,
            detected_at: self.detected_at,
            is_actionable: self.is_actionable,
        }
    }
}

/// All decimal fields within the representable envelope.
pub open spec fn opp_wf(o: OppView) -> bool {
    &&& wf_v(o.buy_price)
    &&& wf_v(o.sell_price)
    &&& wf_v(o.spread_pct)
    &&& wf_v(o.net_spread_pct)
    &&& wf_v(o.potential_profit)
    &&& wf_v(o.quantity)
}

impl ArbitrageOpportunity {
    pub open spec fn wf(&self) -> bool {
        opp_wf(self@)
    }

    /// Field-wise copy.
    pub fn duplicate(&self) -> (r: ArbitrageOpportunity)
        ensures
            r@ == self@,
    {
        ArbitrageOpportunity {
            id: self.id.clone(),
            pair: self.pair.duplicate(),
            buy_exchange: self.buy_exchange,
            sell_exchange: self.sell_exchange,
            buy_price: self.buy_price,
            sell_price: self.sell_price,
            spread_pct: self.spread_pct,
            net_spread_pct: self.net_spread_pct,
            potential_profit: self.potential_profit,
            quantity: self.quantity,
            detected_at: self.detected_at,
            is_actionable: self.is_actionable,
        }
    }
}

/// Outcome of a paired buy/sell execution.
#[derive(Debug, Clone)]
pub struct TradeResult {
    pub id: String,
    pub opportunity_id: String,
    pub pair: TradingPair,
    pub buy_exchange: Exchange,
    pub sell_exchange: Exchange,
    pub buy_price: Decimal,
    pub sell_price: Decimal,
    pub quantity: Decimal,
    pub gross_profit: Decimal,
    pub fees: Decimal,
    pub net_profit: Decimal,
    pub status: TradeStatus,
    /// Milliseconds since the Unix epoch.
    pub executed_at: u64,
}

/// Mathematical image of a trade record.
pub struct TradeView {
    pub id: Seq<char>,
    pub opportunity_id: Seq<char>,
    pub pair: PairView,
    pub buy_exchange: Exchange,
    pub sell_exchange: Exchange,
    pub buy_price: DecView,
    pub sell_price: DecView,
    pub quantity: DecView,
    pub gross_profit: DecView,
    pub fees: DecView,
    pub net_profit: DecView,
    pub status: TradeStatus,
    pub executed_at: u64,
}

impl View for TradeResult {
    type V = TradeView;

    open spec fn view(&self) -> TradeView {
        TradeView {
            id: self.id@,
            opportunity_id: self.opportunity_id@,
            pair: self.pair@,
            buy_exchange: self.buy_exchange,
            sell_exchange: self.sell_exchange,
            buy_price: self.buy_price@,
            sell_price: self.sell_price@,
            quantity: self.quantity@,
            gross_profit: self.gross_profit@,
            fees: self.fees@,
            net_profit: self.net_profit@,
            status: self.status,
            executed_at: self.executed_at,
        }
    }
}

/// All decimal fields within the representable envelope.
pub open spec fn trade_wf(t: TradeView) -> bool {
    &&& wf_v(t.buy_price)
    &&& wf_v(t.sell_price)
    &&& wf_v(t.quantity)
    &&& wf_v(t.gross_profit)
    &&& wf_v(t.fees)
    &&& wf_v(t.net_profit)
}

impl TradeResult {
    pub open spec fn wf(&self) -> bool {
        trade_wf(self@)
    }

    /// Field-wise copy.
    pub fn duplicate(&self) -> (r: TradeResult)
        ensures
            r@ == self@,
    {
        TradeResult {
            id: self.id.clone(),
            opportunity_id: self.opportunity_id.clone(),
            pair: self.pair.duplicate(),
            buy_exchange: self.buy_exchange,
            sell_exchange: self.sell_exchange,
            buy_price: self.buy_price,
            sell_price: self.sell_price,
            quantity: self.quantity,
            gross_profit: self.gross_profit,
            fees: self.fees,
            net_profit: self.net_profit,
            status: self.status,
            executed_at: self.executed_at,
        }
    }
}

/// Balance of one asset on one venue.
#[derive(Debug, Clone)]
pub struct ExchangeBalance {
    pub exchange: Exchange,
    pub asset: String,
    pub free: Decimal,
    pub locked: Decimal,
    pub total: Decimal,
}

/// A snapshot of engine liveness and counters.
#[derive(Debug, Clone)]
pub struct EngineStatus {
    pub running: bool,
    pub uptime_secs: u64,
    pub opportunities_found: u64,
    pub trades_executed: u64,
    pub total_profit: Decimal,
    pub active_exchanges: Vec<Exchange>,
    pub monitored_pairs: Vec<TradingPair>,
}

/// A tagged event forwarded to downstream observers.
#[derive(Debug, Clone)]
pub enum WsMessage {
    Ticker(Ticker),
    Opportunity(ArbitrageOpportunity),
    Trade(TradeResult),
    Status(EngineStatus),
}

} // verus!
