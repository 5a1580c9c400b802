//! The Bybit connector: V5 request signing, stream frames and wire
//! parsing.
//!
//! Spot tickers arrive as partial updates whose best bid and ask may be
//! absent, so the feed keeps a last-known bid and ask per subscription
//! and falls back to the last trade price until either has been seen.

use vstd::prelude::*;
use vstd::utf8::encode_utf8;
use crate::codec::{
    contains_seq, contains_bytes, dec_digits_of, hex_of, hmac_sha256, hmac_sha256_of, hex_lower,
    u64_digits,
};
use crate::config::ExchangeConfig;
use crate::decimal::{Decimal, DecView, vnum};
use crate::exchange::ExchangeError;
use crate::types::{Exchange, Ticker, TradingPair};
use crate::wire::{
    json_deep_arr_field_of, json_deep_arr_len_of, json_field1_of, json_field2_of, json_i64_of,
    json_nested_arr_field_of, json_text_field, json_text_field2, json_text_i64,
    json_text_nested_arr_field, json_text_wellformed, json_wellformed, opt_text_view,
    parse_dec_or_zero, parse_dec_positive, pos_dec_of, zero_dec_of,
};

verus! {

/// How often the liveness frame is written, in milliseconds.
pub const BYBIT_HEARTBEAT_MS: u64 = 20_000;

/// Last-known best bid and ask of one subscription, carried across delta
/// frames.
pub struct BybitFeedState {
    pub last_bid: Decimal,
    pub last_ask: Decimal,
}

impl BybitFeedState {
    pub open spec fn wf(&self) -> bool {
        self.last_bid.wf() && self.last_ask.wf()
    }

    /// A fresh subscription: nothing seen yet.
    pub fn new() -> (r: BybitFeedState)
        ensures
            r.wf(),
            vnum(r.last_bid@) == 0,
            vnum(r.last_ask@) == 0,
    {
        BybitFeedState { last_bid: Decimal::zero(), last_ask: Decimal::zero() }
    }
}

/// The price a side quotes after a frame: the remembered side when it has
/// been seen, else the last trade price.
pub open spec fn pick_price(known: DecView, fallback: DecView) -> DecView {
    if vnum(known) > 0 {
        known
    } else {
        fallback
    }
}

/// Streams from and signs requests for Bybit.
pub struct BybitConnector {
    config: ExchangeConfig,
}

impl BybitConnector {
    /// The venue section this connector was built from.
    pub closed spec fn spec_config(&self) -> ExchangeConfig {
        self.config
    }

    pub fn new(config: ExchangeConfig) -> (r: BybitConnector)
        ensures
            r.spec_config() == config,
    {
        BybitConnector { config }
    }

    /// The venue this connector speaks for.
    pub fn exchange(&self) -> (r: Exchange)
        ensures
            r is Bybit,
    {
        Exchange::Bybit
    }

    /// The configured taker fee, in percent.
    pub fn fee_pct(&self) -> (r: Decimal)
        ensures
            r == self.spec_config().fee_pct,
    {
        self.config.fee_pct
    }

    /// The V5 signature: hex-encoded HMAC-SHA-256 of
    /// `timestamp ∥ api_key ∥ body_or_query` under the API secret.
    pub fn sign_request(&self, timestamp: u64, query: &str) -> (r: String)
        ensures
            r@ == hex_of(
                hmac_sha256_of(
                    encode_utf8(self.spec_config().api_secret@),
                    dec_digits_of(timestamp as nat) + encode_utf8(self.spec_config().api_key@)
                        + encode_utf8(query@),
                ),
            ),
    {
        let mut msg = u64_digits(timestamp);
        msg.extend_from_slice(self.config.api_key.as_str().as_bytes());
        msg.extend_from_slice(query.as_bytes());
        proof {
            assert(msg@ =~= dec_digits_of(timestamp as nat) + encode_utf8(
                self.spec_config().api_key@,
            ) + encode_utf8(query@));
        }
        let tag = hmac_sha256(self.config.api_secret.as_str().as_bytes(), msg.as_slice());
        hex_lower(tag.as_slice())
    }
}

/// The subscription frame for a symbol.
pub fn bybit_subscribe_message(symbol: &str) -> (r: String)
    ensures
        r@ == "{\"op\":\"subscribe\",\"args\":[\"tickers."@ + symbol@ + "\"]}"@,
{
    let mut s = String::new();
    s.append("{\"op\":\"subscribe\",\"args\":[\"tickers.");
    s.append(symbol);
    s.append("\"]}");
    s
}

/// The periodic liveness frame.
pub fn bybit_heartbeat_message() -> (r: String)
    ensures
        r@ == "{\"op\":\"ping\"}"@,
{
    let mut s = String::new();
    s.append("{\"op\":\"ping\"}");
    s
}

/// Whether a text frame is a control echo (subscription confirmation,
/// pong, operation reply) that must not be parsed as a ticker.
pub fn bybit_frame_is_control(text: &str) -> (r: bool)
    ensures
        r == (contains_seq(encode_utf8(text@), encode_utf8("\"op\""@)) || contains_seq(
            encode_utf8(text@),
            encode_utf8("\"pong\""@),
        ) || contains_seq(encode_utf8(text@), encode_utf8("\"ret_msg\""@))),
{
    let b = text.as_bytes();
    contains_bytes(b, "\"op\"".as_bytes()) || contains_bytes(b, "\"pong\"".as_bytes())
        || contains_bytes(b, "\"ret_msg\"".as_bytes())
}

/// Folds one frame's fields into the known state and decides emission:
/// a present, positive bid or ask supersedes the known one; a side
/// never seen falls back to the last price; a ticker goes out exactly
/// when both effective sides are strictly positive.
pub fn bybit_apply_fields(
    state: &mut BybitFeedState,
    bid: Option<Decimal>,
    ask: Option<Decimal>,
    last: Decimal,
    vol: Decimal,
    pair: &TradingPair,
    now: u64,
) -> (r: Option<Ticker>)
    requires
        old(state).wf(),
        last.wf(),
        vol.wf(),
        bid matches Some(d) ==> d.wf() && vnum(d@) > 0,
        ask matches Some(d) ==> d.wf() && vnum(d@) > 0,
    ensures
        final(state).wf(),
        final(state).last_bid == (match bid {
            Some(d) => d,
            None => old(state).last_bid,
        }),
        final(state).last_ask == (match ask {
            Some(d) => d,
            None => old(state).last_ask,
        }),
        r is Some <==> (vnum(pick_price(final(state).last_bid@, last@)) > 0 && vnum(
            pick_price(final(state).last_ask@, last@),
        ) > 0),
        r matches Some(t) ==> {
            &&& t.wf()
            &&& t@.exchange is Bybit
            &&& t@.pair == pair@
            &&& t@.bid == pick_price(final(state).last_bid@, last@)
            &&& t@.ask == pick_price(final(state).last_ask@, last@)
            &&& t@.last == last@
            &&& t@.volume_24h == vol@
            &&& t@.timestamp == now
            &&& vnum(t@.bid) > 0
            &&& vnum(t@.ask) > 0
        },
{
    if let Some(d) = bid {
        state.last_bid = d;
    }
    if let Some(d) = ask {
        state.last_ask = d;
    }
    let use_bid = if state.last_bid.is_positive() {
        state.last_bid
    } else {
        last
    };
    let use_ask = if state.last_ask.is_positive() {
        state.last_ask
    } else {
        last
    };
    if use_bid.is_positive() && use_ask.is_positive() {
        Some(
            Ticker {
                exchange: Exchange::Bybit,
                pair: pair.duplicate(),
                bid: use_bid,
                ask: use_ask,
                last,
                volume_24h: vol,
                timestamp: now,
            },
        )
    } else {
        None
    }
}

/// The wire label of an order side on this venue.
pub fn bybit_side_label(side: crate::types::OrderSide) -> (r: &'static str)
    ensures
        side is Buy ==> r@ == "Buy"@,
        side is Sell ==> r@ == "Sell"@,
{
    match side {
        crate::types::OrderSide::Buy => "Buy",
        crate::types::OrderSide::Sell => "Sell",
    }
}

/// The wire label of an order type on this venue.
pub fn bybit_type_label(order_type: crate::types::OrderType) -> (r: &'static str)
    ensures
        order_type is Market ==> r@ == "Market"@,
        order_type is Limit ==> r@ == "Limit"@,
{
    match order_type {
        crate::types::OrderType::Market => "Market",
        crate::types::OrderType::Limit => "Limit",
    }
}

/// The JSON body of an order-placement request, keys in sorted order; a
/// priced order carries the price and a good-till-cancelled time in
/// force.
pub fn bybit_order_body(
    symbol: &str,
    side: crate::types::OrderSide,
    order_type: crate::types::OrderType,
    qty: &str,
    price: Option<&str>,
) -> (r: String)
    ensures
        ({
            let side_l = (match side {
                crate::types::OrderSide::Buy => "Buy"@,
                crate::types::OrderSide::Sell => "Sell"@,
            });
            let type_l = (match order_type {
                crate::types::OrderType::Market => "Market"@,
                crate::types::OrderType::Limit => "Limit"@,
            });
            match price {
                None => r@ == "{\"category\":\"spot\",\"orderType\":\""@ + type_l
                    + "\",\"qty\":\""@ + qty@ + "\",\"side\":\""@ + side_l
                    + "\",\"symbol\":\""@ + symbol@ + "\"}"@,
                Some(p) => r@ == "{\"category\":\"spot\",\"orderType\":\""@ + type_l
                    + "\",\"price\":\""@ + p@ + "\",\"qty\":\""@ + qty@
                    + "\",\"side\":\""@ + side_l + "\",\"symbol\":\""@ + symbol@
                    + "\",\"timeInForce\":\"GTC\"}"@,
            }
        }),
{
    let mut s = String::new();
    s.append("{\"category\":\"spot\",\"orderType\":\"");
    s.append(bybit_type_label(order_type));
    if let Some(p) = price {
        s.append("\",\"price\":\"");
        s.append(p);
    }
    s.append("\",\"qty\":\"");
    s.append(qty);
    s.append("\",\"side\":\"");
    s.append(bybit_side_label(side));
    s.append("\",\"symbol\":\"");
    s.append(symbol);
    if price.is_some() {
        s.append("\",\"timeInForce\":\"GTC\"}");
    } else {
        s.append("\"}");
    }
    s
}

/// The frame's best-bid text: the first present of the three field
/// names the venue has used.
pub open spec fn bybit_bid_text(t: Seq<char>) -> Option<Seq<char>> {
    match json_field2_of(t, "data"@, "bid1Price"@) {
        Some(s) => Some(s),
        None => match json_field2_of(t, "data"@, "bidPrice"@) {
            Some(s) => Some(s),
            None => json_field2_of(t, "data"@, "bid1"@),
        },
    }
}

/// The frame's best-ask text, under the same aliases.
pub open spec fn bybit_ask_text(t: Seq<char>) -> Option<Seq<char>> {
    match json_field2_of(t, "data"@, "ask1Price"@) {
        Some(s) => Some(s),
        None => match json_field2_of(t, "data"@, "askPrice"@) {
            Some(s) => Some(s),
            None => json_field2_of(t, "data"@, "ask1"@),
        },
    }
}

/// Reads one ticker frame: extracts the named fields, then hands them to
/// the verified merge.  Text that is not JSON changes nothing; otherwise
/// the state updates by the frame's positive sides and a ticker goes out
/// exactly when both effective sides are strictly positive.
pub fn bybit_parse_ticker_frame(
    text: &str,
    pair: &TradingPair,
    state: &mut BybitFeedState,
    now: u64,
) -> (r: Option<Ticker>)
    requires
        old(state).wf(),
    ensures
        final(state).wf(),
        !json_wellformed(text@) ==> r is None && final(state).last_bid == old(state).last_bid
            && final(state).last_ask == old(state).last_ask,
        json_wellformed(text@) ==> ({
            let bid_n = pos_dec_of(bybit_bid_text(text@));
            let ask_n = pos_dec_of(bybit_ask_text(text@));
            let last_v = zero_dec_of(json_field2_of(text@, "data"@, "lastPrice"@));
            let vol_v = zero_dec_of(json_field2_of(text@, "data"@, "volume24h"@));
            &&& final(state).last_bid@ == (match bid_n {
                Some(v) => v,
                None => old(state).last_bid@,
            })
            &&& final(state).last_ask@ == (match ask_n {
                Some(v) => v,
                None => old(state).last_ask@,
            })
            &&& (r is Some <==> (vnum(pick_price(final(state).last_bid@, last_v)) > 0 && vnum(
                pick_price(final(state).last_ask@, last_v),
            ) > 0))
            &&& (r matches Some(t) ==> {
                &&& t.wf()
                &&& t@.exchange is Bybit
                &&& t@.pair == pair@
                &&& t@.bid == pick_price(final(state).last_bid@, last_v)
                &&& t@.ask == pick_price(final(state).last_ask@, last_v)
                &&& t@.last == last_v
                &&& t@.volume_24h == vol_v
                &&& t@.timestamp == now
                &&& vnum(t@.bid) > 0
                &&& vnum(t@.ask) > 0
            })
        }),
{
    if !json_text_wellformed(text) {
        return None;
    }
    let last_s = json_text_field2(text, "data", "lastPrice");
    let vol_s = json_text_field2(text, "data", "volume24h");
    let last = parse_dec_or_zero(&last_s);
    let vol = parse_dec_or_zero(&vol_s);
    let bid_s = match json_text_field2(text, "data", "bid1Price") {
        Some(s) => Some(s),
        None => match json_text_field2(text, "data", "bidPrice") {
            Some(s) => Some(s),
            None => json_text_field2(text, "data", "bid1"),
        },
    };
    let ask_s = match json_text_field2(text, "data", "ask1Price") {
        Some(s) => Some(s),
        None => match json_text_field2(text, "data", "askPrice") {
            Some(s) => Some(s),
            None => json_text_field2(text, "data", "ask1"),
        },
    };
    proof {
        assert(opt_text_view(bid_s) == bybit_bid_text(text@));
        assert(opt_text_view(ask_s) == bybit_ask_text(text@));
        assert(opt_text_view(last_s) == json_field2_of(text@, "data"@, "lastPrice"@));
        assert(opt_text_view(vol_s) == json_field2_of(text@, "data"@, "volume24h"@));
    }
    let bid = parse_dec_positive(&bid_s);
    let ask = parse_dec_positive(&ask_s);
    bybit_apply_fields(state, bid, ask, last, vol, pair, now)
}

/// Reads a REST ticker response into a ticker: text that is not JSON is
/// a parse error; otherwise the fields come from the first entry of the
/// reply's list, with anything absent or unparseable becoming zero, as
/// the stream path would have it.
pub fn bybit_parse_rest_ticker(text: &str, pair: &TradingPair, now: u64) -> (r: Result<
    Ticker,
    ExchangeError,
>)
    ensures
        r is Ok <==> json_wellformed(text@),
        r matches Ok(t) ==> {
            &&& t.wf()
            &&& t@.exchange is Bybit
            &&& t@.pair == pair@
            &&& t@.timestamp == now
            &&& t@.bid == zero_dec_of(
                json_nested_arr_field_of(text@, "result"@, "list"@, 0, "bid1Price"@),
            )
            &&& t@.ask == zero_dec_of(
                json_nested_arr_field_of(text@, "result"@, "list"@, 0, "ask1Price"@),
            )
            &&& t@.last == zero_dec_of(
                json_nested_arr_field_of(text@, "result"@, "list"@, 0, "lastPrice"@),
            )
            &&& t@.volume_24h == zero_dec_of(
                json_nested_arr_field_of(text@, "result"@, "list"@, 0, "volume24h"@),
            )
        },
        r matches Err(e) ==> e is Parse,
{
    if !json_text_wellformed(text) {
        return Err(ExchangeError::Parse("ticker response is not json".to_owned()));
    }
    let bid_s = json_text_nested_arr_field(text, "result", "list", 0, "bid1Price");
    let ask_s = json_text_nested_arr_field(text, "result", "list", 0, "ask1Price");
    let last_s = json_text_nested_arr_field(text, "result", "list", 0, "lastPrice");
    let vol_s = json_text_nested_arr_field(text, "result", "list", 0, "volume24h");
    proof {
        assert(opt_text_view(bid_s) == json_nested_arr_field_of(
            text@,
            "result"@,
            "list"@,
            0,
            "bid1Price"@,
        ));
        assert(opt_text_view(ask_s) == json_nested_arr_field_of(
            text@,
            "result"@,
            "list"@,
            0,
            "ask1Price"@,
        ));
        assert(opt_text_view(last_s) == json_nested_arr_field_of(
            text@,
            "result"@,
            "list"@,
            0,
            "lastPrice"@,
        ));
        assert(opt_text_view(vol_s) == json_nested_arr_field_of(
            text@,
            "result"@,
            "list"@,
            0,
            "volume24h"@,
        ));
    }
    Ok(
        Ticker {
            exchange: Exchange::Bybit,
            pair: pair.duplicate(),
            bid: parse_dec_or_zero(&bid_s),
            ask: parse_dec_or_zero(&ask_s),
            last: parse_dec_or_zero(&last_s),
            volume_24h: parse_dec_or_zero(&vol_s),
            timestamp: now,
        },
    )
}

/// The balance row one coin element denotes: present coin, parseable
/// free and locked amounts, an exactly representable positive sum.
pub open spec fn bybit_balance_row(t: Seq<char>, i: int) -> Option<(Seq<char>, DecView, DecView)> {
    match json_deep_arr_field_of(t, "result"@, "list"@, 0, "coin"@, i, "coin"@) {
        Some(coin) => match json_deep_arr_field_of(
            t,
            "result"@,
            "list"@,
            0,
            "coin"@,
            i,
            "availableToWithdraw"@,
        ) {
            Some(ft) => match crate::decimal::rd_parse(ft) {
                Some(f) => match json_deep_arr_field_of(
                    t,
                    "result"@,
                    "list"@,
                    0,
                    "coin"@,
                    i,
                    "locked"@,
                ) {
                    Some(lt) => match crate::decimal::rd_parse(lt) {
                        Some(l) => if crate::decimal::can_add(f, l) && vnum(f) + vnum(l) > 0 {
                            Some((coin, f, l))
                        } else {
                            None
                        },
                        None => None,
                    },
                    None => None,
                },
                None => None,
            },
            None => None,
        },
        None => None,
    }
}

/// The balance rows of the first `n` coin elements, in order.
pub open spec fn bybit_balance_rows(t: Seq<char>, n: int) -> Seq<(Seq<char>, DecView, DecView)>
    decreases n,
{
    if n <= 0 {
        Seq::<(Seq<char>, DecView, DecView)>::empty()
    } else {
        bybit_balance_rows(t, n - 1) + (match bybit_balance_row(t, n - 1) {
            Some(v) => seq![v],
            None => Seq::<(Seq<char>, DecView, DecView)>::empty(),
        })
    }
}

/// Reads a wallet-balance response: text that is not JSON is a parse
/// error; otherwise one row per coin element exactly as
/// [`bybit_balance_row`] reads it, in order.
pub fn bybit_parse_balances(text: &str) -> (r: Result<Vec<crate::types::ExchangeBalance>, ExchangeError>)
    ensures
        r is Err <==> !json_wellformed(text@),
        r matches Err(e) ==> e is Parse,
        json_wellformed(text@) ==> (match json_deep_arr_len_of(
            text@,
            "result"@,
            "list"@,
            0,
            "coin"@,
        ) {
            Some(n) => r matches Ok(v) && Seq::new(
                v@.len(),
                |k: int| (v@[k].asset@, v@[k].free@, v@[k].locked@),
            ) =~= bybit_balance_rows(text@, n) && (forall|k: int|
                0 <= k < v@.len() ==> (#[trigger] v@[k]).exchange is Bybit && v@[k].total.wf()
                    && vnum(v@[k].total@) == vnum(v@[k].free@) + vnum(v@[k].locked@)),
            None => r matches Ok(v) && v@.len() == 0,
        }),
{
    let mut out: Vec<crate::types::ExchangeBalance> = Vec::new();
    if !json_text_wellformed(text) {
        return Err(ExchangeError::Parse("balance response is not json".to_owned()));
    }
    let n = match crate::wire::json_text_deep_arr_len(text, "result", "list", 0, "coin") {
        Some(n) => n,
        None => {
            return Ok(out);
        },
    };
    let mut i: usize = 0;
    proof {
        assert(Seq::new(out@.len(), |k: int| (out@[k].asset@, out@[k].free@, out@[k].locked@))
            =~= bybit_balance_rows(text@, 0));
    }
    while i < n
        invariant
            i <= n,
            Seq::new(out@.len(), |k: int| (out@[k].asset@, out@[k].free@, out@[k].locked@))
                =~= bybit_balance_rows(text@, i as int),
            forall|k: int|
                0 <= k < out@.len() ==> (#[trigger] out@[k]).exchange is Bybit
                    && out@[k].total.wf() && vnum(out@[k].total@) == vnum(out@[k].free@) + vnum(
                    out@[k].locked@,
                ),
        decreases n - i,
    {
        let coin = crate::wire::json_text_deep_arr_field(text, "result", "list", 0, "coin", i, "coin");
        let free_s = crate::wire::json_text_deep_arr_field(
            text,
            "result",
            "list",
            0,
            "coin",
            i,
            "availableToWithdraw",
        );
        let locked_s = crate::wire::json_text_deep_arr_field(
            text,
            "result",
            "list",
            0,
            "coin",
            i,
            "locked",
        );
        let free = match &free_s {
            Some(t) => crate::decimal::rd_from_str(t.as_str()),
            None => None,
        };
        let locked = match &locked_s {
            Some(t) => crate::decimal::rd_from_str(t.as_str()),
            None => None,
        };
        if let (Some(a), Some(f), Some(l)) = (coin, free, locked) {
            if let Some(b) = crate::exchange::balance_from_parts(Exchange::Bybit, a, f, l) {
                out.push(b);
            }
        }
        proof {
            assert(Seq::new(out@.len(), |k: int| (out@[k].asset@, out@[k].free@, out@[k].locked@))
                =~= bybit_balance_rows(text@, i + 1));
        }
        i = i + 1;
    }
    Ok(out)
}

/// Decides an order reply from its extracted parts: the venue order id
/// ("unknown" when the reply has none) on a zero return code, the
/// reply's message ("Unknown error" when it has none) as an order
/// failure otherwise.
pub fn bybit_order_decision(code: Option<i64>, id: Option<String>, msg: Option<String>) -> (r:
    Result<String, ExchangeError>)
    ensures
        r is Ok <==> code == Some(0i64),
        r matches Ok(s) ==> (match id {
            Some(i) => s@ == i@,
            None => s@ == "unknown"@,
        }),
        r matches Err(e) ==> (match e {
            ExchangeError::OrderFailed(m) => (match msg {
                Some(t) => m@ == t@,
                None => m@ == "Unknown error"@,
            }),
            _ => false,
        }),
{
    if let Some(c) = code {
        if c == 0 {
            return Ok(
                match id {
                    Some(s) => s,
                    None => "unknown".to_owned(),
                },
            );
        }
    }
    Err(
        ExchangeError::OrderFailed(
            match msg {
                Some(m) => m,
                None => "Unknown error".to_owned(),
            },
        ),
    )
}

/// Reads an order-placement response: text that is not JSON is a parse
/// error; otherwise the reply's extracted return code, order id and
/// message decide the outcome exactly as [`bybit_order_decision`] says.
pub fn bybit_parse_order_response(text: &str) -> (r: Result<String, ExchangeError>)
    ensures
        !json_wellformed(text@) ==> (r matches Err(e) && e is Parse),
        json_wellformed(text@) ==> {
            &&& (r is Ok <==> json_i64_of(text@, "retCode"@) == Some(0int))
            &&& (r matches Ok(s) ==> (match json_field2_of(text@, "result"@, "orderId"@) {
                Some(i) => s@ == i,
                None => s@ == "unknown"@,
            }))
            &&& (r matches Err(e) ==> (match e {
                ExchangeError::OrderFailed(m) => (match json_field1_of(text@, "retMsg"@) {
                    Some(t) => m@ == t,
                    None => m@ == "Unknown error"@,
                }),
                _ => false,
            }))
        },
{
    if !json_text_wellformed(text) {
        return Err(ExchangeError::Parse("order response is not json".to_owned()));
    }
    let code = json_text_i64(text, "retCode");
    let id = json_text_field2(text, "result", "orderId");
    let msg = json_text_field(text, "retMsg");
    bybit_order_decision(code, id, msg)
}

} // verus!
