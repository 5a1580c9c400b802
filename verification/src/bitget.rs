//! The Bitget connector: V2 request signing, stream frames and wire
//! parsing.
//!
//! Spot ticker frames carry an array of items; each item's numeric
//! strings parse to exact decimals, with legacy field aliases accepted.

use vstd::prelude::*;
use vstd::utf8::encode_utf8;
use crate::codec::{
    b64_of, b64_standard, bytes_eq, contains_seq, contains_bytes, dec_digits_of, hmac_sha256,
    hmac_sha256_of, u64_digits,
};
use crate::config::ExchangeConfig;
use crate::decimal::{Decimal, DecView, can_add, vnum};
use crate::exchange::ExchangeError;
use crate::types::{Exchange, Ticker, TradingPair, upper_of, ticker_wf};
use crate::wire::{
    json_arr_field_of, json_arr_len_of, json_field1_of, json_field2_of, json_text_arr_field,
    json_text_arr_len, json_text_field, json_text_field2, json_text_wellformed, json_wellformed,
    opt_text_view, parse_dec_or_zero, zero_dec_of,
};

verus! {

/// How often the liveness text is written, in milliseconds; the venue
/// drops silent sockets after roughly two minutes.
pub const BITGET_HEARTBEAT_MS: u64 = 25_000;

/// Streams from and signs requests for Bitget.
pub struct BitgetConnector {
    config: ExchangeConfig,
}

impl BitgetConnector {
    /// The venue section this connector was built from.
    pub closed spec fn spec_config(&self) -> ExchangeConfig {
        self.config
    }

    pub fn new(config: ExchangeConfig) -> (r: BitgetConnector)
        ensures
            r.spec_config() == config,
    {
        BitgetConnector { config }
    }

    /// The venue this connector speaks for.
    pub fn exchange(&self) -> (r: Exchange)
        ensures
            r is Bitget,
    {
        Exchange::Bitget
    }

    /// The configured taker fee, in percent.
    pub fn fee_pct(&self) -> (r: Decimal)
        ensures
            r == self.spec_config().fee_pct,
    {
        self.config.fee_pct
    }

    /// The V2 signature: base64-encoded HMAC-SHA-256 of
    /// `timestamp ∥ METHOD ∥ path ∥ body` under the API secret, with the
    /// method folded to uppercase.
    pub fn sign_request(&self, timestamp: u64, method: &str, path: &str, body: &str) -> (r: String)
        ensures
            r@ == b64_of(
                hmac_sha256_of(
                    encode_utf8(self.spec_config().api_secret@),
                    dec_digits_of(timestamp as nat) + encode_utf8(upper_of(method@)) + encode_utf8(
                        path@,
                    ) + encode_utf8(body@),
                ),
            ),
    {
        let upper = crate::types::to_upper(method);
        let mut msg = u64_digits(timestamp);
        msg.extend_from_slice(upper.as_str().as_bytes());
        msg.extend_from_slice(path.as_bytes());
        msg.extend_from_slice(body.as_bytes());
        proof {
            assert(msg@ =~= dec_digits_of(timestamp as nat) + encode_utf8(upper_of(method@))
                + encode_utf8(path@) + encode_utf8(body@));
        }
        let tag = hmac_sha256(self.config.api_secret.as_str().as_bytes(), msg.as_slice());
        b64_standard(tag.as_slice())
    }
}

/// The subscription frame for a symbol.
pub fn bitget_subscribe_message(symbol: &str) -> (r: String)
    ensures
        r@ == "{\"op\":\"subscribe\",\"args\":[{\"instType\":\"SPOT\",\"channel\":\"ticker\",\"instId\":\""@
            + symbol@ + "\"}]}"@,
{
    let mut s = String::new();
    s.append("{\"op\":\"subscribe\",\"args\":[{\"instType\":\"SPOT\",\"channel\":\"ticker\",\"instId\":\"");
    s.append(symbol);
    s.append("\"}]}");
    s
}

/// The periodic liveness text.
pub fn bitget_heartbeat_message() -> (r: String)
    ensures
        r@ == "ping"@,
{
    let mut s = String::new();
    s.append("ping");
    s
}

/// Whether a text frame is a pong reply or control echo that must not be
/// parsed as a ticker.
pub fn bitget_frame_is_control(text: &str) -> (r: bool)
    ensures
        r == (encode_utf8(text@) == encode_utf8("pong"@) || contains_seq(
            encode_utf8(text@),
            encode_utf8("\"event\""@),
        ) || contains_seq(encode_utf8(text@), encode_utf8("\"op\""@))),
{
    let b = text.as_bytes();
    bytes_eq(b, "pong".as_bytes()) || contains_bytes(b, "\"event\"".as_bytes()) || contains_bytes(
        b,
        "\"op\"".as_bytes(),
    )
}

/// The wire label of an order side on this venue.
pub fn bitget_side_label(side: crate::types::OrderSide) -> (r: &'static str)
    ensures
        side is Buy ==> r@ == "buy"@,
        side is Sell ==> r@ == "sell"@,
{
    match side {
        crate::types::OrderSide::Buy => "buy",
        crate::types::OrderSide::Sell => "sell",
    }
}

/// The wire label of an order type on this venue.
pub fn bitget_type_label(order_type: crate::types::OrderType) -> (r: &'static str)
    ensures
        order_type is Market ==> r@ == "market"@,
        order_type is Limit ==> r@ == "limit"@,
{
    match order_type {
        crate::types::OrderType::Market => "market",
        crate::types::OrderType::Limit => "limit",
    }
}

/// The JSON body of an order-placement request, keys in sorted order;
/// orders are placed good-till-cancelled.
pub fn bitget_order_body(
    symbol: &str,
    side: crate::types::OrderSide,
    order_type: crate::types::OrderType,
    qty: &str,
    price: Option<&str>,
) -> (r: String)
    ensures
        ({
            let side_l = (match side {
                crate::types::OrderSide::Buy => "buy"@,
                crate::types::OrderSide::Sell => "sell"@,
            });
            let type_l = (match order_type {
                crate::types::OrderType::Market => "market"@,
                crate::types::OrderType::Limit => "limit"@,
            });
            match price {
                None => r@ == "{\"force\":\"gtc\",\"orderType\":\""@ + type_l
                    + "\",\"side\":\""@ + side_l + "\",\"size\":\""@ + qty@
                    + "\",\"symbol\":\""@ + symbol@ + "\"}"@,
                Some(p) => r@ == "{\"force\":\"gtc\",\"orderType\":\""@ + type_l
                    + "\",\"price\":\""@ + p@ + "\",\"side\":\""@ + side_l
                    + "\",\"size\":\""@ + qty@ + "\",\"symbol\":\""@ + symbol@ + "\"}"@,
            }
        }),
{
    let mut s = String::new();
    s.append("{\"force\":\"gtc\",\"orderType\":\"");
    s.append(bitget_type_label(order_type));
    if let Some(p) = price {
        s.append("\",\"price\":\"");
        s.append(p);
    }
    s.append("\",\"side\":\"");
    s.append(bitget_side_label(side));
    s.append("\",\"size\":\"");
    s.append(qty);
    s.append("\",\"symbol\":\"");
    s.append(symbol);
    s.append("\"}");
    s
}

/// Builds a ticker from one array item's parsed fields: a ticker goes
/// out exactly when both sides are strictly positive.
pub fn bitget_ticker_from_fields(
    bid: Decimal,
    ask: Decimal,
    last: Decimal,
    vol: Decimal,
    pair: &TradingPair,
    now: u64,
) -> (r: Option<Ticker>)
    requires
        bid.wf(),
        ask.wf(),
        last.wf(),
        vol.wf(),
    ensures
        r is Some <==> (vnum(bid@) > 0 && vnum(ask@) > 0),
        r matches Some(t) ==> {
            &&& t.wf()
            &&& t@.exchange is Bitget
            &&& t@.pair == pair@
            &&& t@.bid == bid@
            &&& t@.ask == ask@
            &&& t@.last == last@
            &&& t@.volume_24h == vol@
            &&& t@.timestamp == now
        },
{
    if bid.is_positive() && ask.is_positive() {
        Some(
            Ticker {
                exchange: Exchange::Bitget,
                pair: pair.duplicate(),
                bid,
                ask,
                last,
                volume_24h: vol,
                timestamp: now,
            },
        )
    } else {
        None
    }
}

/// One data element's bid text, under the current or legacy field name.
pub open spec fn bitget_bid_text(t: Seq<char>, i: int) -> Option<Seq<char>> {
    match json_arr_field_of(t, "data"@, i, "bidPr"@) {
        Some(s) => Some(s),
        None => json_arr_field_of(t, "data"@, i, "bestBid"@),
    }
}

/// One data element's ask text, under the current or legacy field name.
pub open spec fn bitget_ask_text(t: Seq<char>, i: int) -> Option<Seq<char>> {
    match json_arr_field_of(t, "data"@, i, "askPr"@) {
        Some(s) => Some(s),
        None => json_arr_field_of(t, "data"@, i, "bestAsk"@),
    }
}

/// One data element's last-price text, under the current or legacy name.
pub open spec fn bitget_last_text(t: Seq<char>, i: int) -> Option<Seq<char>> {
    match json_arr_field_of(t, "data"@, i, "lastPr"@) {
        Some(s) => Some(s),
        None => json_arr_field_of(t, "data"@, i, "last"@),
    }
}

/// One data element's volume text, under the current or legacy name.
pub open spec fn bitget_vol_text(t: Seq<char>, i: int) -> Option<Seq<char>> {
    match json_arr_field_of(t, "data"@, i, "baseVolume"@) {
        Some(s) => Some(s),
        None => json_arr_field_of(t, "data"@, i, "baseVol"@),
    }
}

/// The ticker one data element denotes, if its sides are positive.
pub open spec fn bitget_row(
    t: Seq<char>,
    pair: crate::types::PairView,
    now: u64,
    i: int,
) -> Option<crate::types::TickerView> {
    let bid = zero_dec_of(bitget_bid_text(t, i));
    let ask = zero_dec_of(bitget_ask_text(t, i));
    if vnum(bid) > 0 && vnum(ask) > 0 {
        Some(
            (crate::types::TickerView {
                exchange: Exchange::Bitget,
                pair,
                bid,
                ask,
                last: zero_dec_of(bitget_last_text(t, i)),
                volume_24h: zero_dec_of(bitget_vol_text(t, i)),
                timestamp: now,
            }),
        )
    } else {
        None
    }
}

/// The tickers of the first `n` data elements, in order.
pub open spec fn bitget_rows(
    t: Seq<char>,
    pair: crate::types::PairView,
    now: u64,
    n: int,
) -> Seq<crate::types::TickerView>
    decreases n,
{
    if n <= 0 {
        Seq::<crate::types::TickerView>::empty()
    } else {
        bitget_rows(t, pair, now, n - 1) + (match bitget_row(t, pair, now, n - 1) {
            Some(v) => seq![v],
            None => Seq::<crate::types::TickerView>::empty(),
        })
    }
}

/// Reads one ticker frame: the data array's elements each yield at most
/// one ticker, exactly as [`bitget_row`] reads them — a ticker per
/// element with strictly positive named sides, in order.
pub fn bitget_parse_ticker_frame(text: &str, pair: &TradingPair, now: u64) -> (r: Vec<Ticker>)
    ensures
        !json_wellformed(text@) ==> r@.len() == 0,
        json_wellformed(text@) ==> (match json_arr_len_of(text@, "data"@) {
            Some(n) => Seq::new(r@.len(), |k: int| r@[k]@) =~= bitget_rows(text@, pair@, now, n),
            None => r@.len() == 0,
        }),
        forall|k: int|
            0 <= k < r@.len() ==> ticker_wf(#[trigger] r@[k]@) && r@[k]@.exchange is Bitget
                && r@[k]@.pair == pair@ && r@[k]@.timestamp == now && vnum(r@[k]@.bid) > 0 && vnum(
                r@[k]@.ask,
            ) > 0,
    {
    let mut out: Vec<Ticker> = Vec::new();
    if !json_text_wellformed(text) {
        return out;
    }
    let n = match json_text_arr_len(text, "data") {
        Some(n) => n,
        None => {
            return out;
        },
    };
    let mut i: usize = 0;
    proof {
        assert(Seq::new(out@.len(), |k: int| out@[k]@) =~= bitget_rows(text@, pair@, now, 0));
    }
    while i < n
        invariant
            json_wellformed(text@),
            json_arr_len_of(text@, "data"@) == Some(n as int),
            i <= n,
            Seq::new(out@.len(), |k: int| out@[k]@) =~= bitget_rows(text@, pair@, now, i as int),
            forall|k: int|
                0 <= k < out@.len() ==> ticker_wf(#[trigger] out@[k]@) && out@[k]@.exchange
                    is Bitget && out@[k]@.pair == pair@ && out@[k]@.timestamp == now && vnum(
                    out@[k]@.bid,
                ) > 0 && vnum(out@[k]@.ask) > 0,
        decreases n - i,
    {
        let bid_s = match json_text_arr_field(text, "data", i, "bidPr") {
            Some(s) => Some(s),
            None => json_text_arr_field(text, "data", i, "bestBid"),
        };
        let ask_s = match json_text_arr_field(text, "data", i, "askPr") {
            Some(s) => Some(s),
            None => json_text_arr_field(text, "data", i, "bestAsk"),
        };
        let last_s = match json_text_arr_field(text, "data", i, "lastPr") {
            Some(s) => Some(s),
            None => json_text_arr_field(text, "data", i, "last"),
        };
        let vol_s = match json_text_arr_field(text, "data", i, "baseVolume") {
            Some(s) => Some(s),
            None => json_text_arr_field(text, "data", i, "baseVol"),
        };
        proof {
            assert(opt_text_view(bid_s) == bitget_bid_text(text@, i as int));
            assert(opt_text_view(ask_s) == bitget_ask_text(text@, i as int));
            assert(opt_text_view(last_s) == bitget_last_text(text@, i as int));
            assert(opt_text_view(vol_s) == bitget_vol_text(text@, i as int));
        }
        let bid = parse_dec_or_zero(&bid_s);
        let ask = parse_dec_or_zero(&ask_s);
        let last = parse_dec_or_zero(&last_s);
        let vol = parse_dec_or_zero(&vol_s);
        let ghost before = Seq::new(out@.len(), |k: int| out@[k]@);
        if let Some(t) = bitget_ticker_from_fields(bid, ask, last, vol, pair, now) {
            out.push(t);
        }
        proof {
            assert(Seq::new(out@.len(), |k: int| out@[k]@) =~= bitget_rows(
                text@,
                pair@,
                now,
                i + 1,
            ));
        }
        i = i + 1;
    }
    out
}

/// Reads a REST ticker response into a ticker: text that is not JSON is
/// a parse error; otherwise the fields come from the first entry of the
/// reply's data array, with anything absent or unparseable becoming
/// zero.
pub fn bitget_parse_rest_ticker(text: &str, pair: &TradingPair, now: u64) -> (r: Result<
    Ticker,
    ExchangeError,
>)
    ensures
        r is Ok <==> json_wellformed(text@),
        r matches Ok(t) ==> {
            &&& t.wf()
            &&& t@.exchange is Bitget
            &&& t@.pair == pair@
            &&& t@.timestamp == now
            &&& t@.bid == zero_dec_of(json_arr_field_of(text@, "data"@, 0, "bestBid"@))
            &&& t@.ask == zero_dec_of(json_arr_field_of(text@, "data"@, 0, "bestAsk"@))
            &&& t@.last == zero_dec_of(json_arr_field_of(text@, "data"@, 0, "lastPr"@))
            &&& t@.volume_24h == zero_dec_of(json_arr_field_of(text@, "data"@, 0, "baseVolume"@))
        },
        r matches Err(e) ==> e is Parse,
{
    if !json_text_wellformed(text) {
        return Err(ExchangeError::Parse("ticker response is not json".to_owned()));
    }
    let bid_s = json_text_arr_field(text, "data", 0, "bestBid");
    let ask_s = json_text_arr_field(text, "data", 0, "bestAsk");
    let last_s = json_text_arr_field(text, "data", 0, "lastPr");
    let vol_s = json_text_arr_field(text, "data", 0, "baseVolume");
    proof {
        assert(opt_text_view(bid_s) == json_arr_field_of(text@, "data"@, 0, "bestBid"@));
        assert(opt_text_view(ask_s) == json_arr_field_of(text@, "data"@, 0, "bestAsk"@));
        assert(opt_text_view(last_s) == json_arr_field_of(text@, "data"@, 0, "lastPr"@));
        assert(opt_text_view(vol_s) == json_arr_field_of(text@, "data"@, 0, "baseVolume"@));
    }
    Ok(
        Ticker {
            exchange: Exchange::Bitget,
            pair: pair.duplicate(),
            bid: parse_dec_or_zero(&bid_s),
            ask: parse_dec_or_zero(&ask_s),
            last: parse_dec_or_zero(&last_s),
            volume_24h: parse_dec_or_zero(&vol_s),
            timestamp: now,
        },
    )
}

/// The balance row one data element denotes: present coin, parseable
/// free and frozen amounts, an exactly representable positive sum.
pub open spec fn bitget_balance_row(t: Seq<char>, i: int) -> Option<(Seq<char>, DecView, DecView)> {
    match json_arr_field_of(t, "data"@, i, "coin"@) {
        Some(coin) => match json_arr_field_of(t, "data"@, i, "available"@) {
            Some(ft) => match crate::decimal::rd_parse(ft) {
                Some(f) => match json_arr_field_of(t, "data"@, i, "frozen"@) {
                    Some(lt) => match crate::decimal::rd_parse(lt) {
                        Some(l) => if can_add(f, l) && vnum(f) + vnum(l) > 0 {
                            Some((coin, f, l))
                        } else {
                            None
                        },
                        None => None,
                    },
                    None => None,
                },
                None => None,
            },
            None => None,
        },
        None => None,
    }
}

/// The balance rows of the first `n` data elements, in order.
pub open spec fn bitget_balance_rows(t: Seq<char>, n: int) -> Seq<(Seq<char>, DecView, DecView)>
    decreases n,
{
    if n <= 0 {
        Seq::<(Seq<char>, DecView, DecView)>::empty()
    } else {
        bitget_balance_rows(t, n - 1) + (match bitget_balance_row(t, n - 1) {
            Some(v) => seq![v],
            None => Seq::<(Seq<char>, DecView, DecView)>::empty(),
        })
    }
}

/// Reads an asset-balance response: text that is not JSON is a parse
/// error; otherwise one row per data element exactly as
/// [`bitget_balance_row`] reads it, in order.
pub fn bitget_parse_balances(text: &str) -> (r: Result<Vec<crate::types::ExchangeBalance>, ExchangeError>)
    ensures
        r is Err <==> !json_wellformed(text@),
        r matches Err(e) ==> e is Parse,
        json_wellformed(text@) ==> (match json_arr_len_of(text@, "data"@) {
            Some(n) => r matches Ok(v) && Seq::new(
                v@.len(),
                |k: int| (v@[k].asset@, v@[k].free@, v@[k].locked@),
            ) =~= bitget_balance_rows(text@, n) && (forall|k: int|
                0 <= k < v@.len() ==> (#[trigger] v@[k]).exchange is Bitget && v@[k].total.wf()
                    && vnum(v@[k].total@) == vnum(v@[k].free@) + vnum(v@[k].locked@)),
            None => r matches Ok(v) && v@.len() == 0,
        }),
{
    let mut out: Vec<crate::types::ExchangeBalance> = Vec::new();
    if !json_text_wellformed(text) {
        return Err(ExchangeError::Parse("balance response is not json".to_owned()));
    }
    let n = match json_text_arr_len(text, "data") {
        Some(n) => n,
        None => {
            return Ok(out);
        },
    };
    let mut i: usize = 0;
    proof {
        assert(Seq::new(out@.len(), |k: int| (out@[k].asset@, out@[k].free@, out@[k].locked@))
            =~= bitget_balance_rows(text@, 0));
    }
    while i < n
        invariant
            i <= n,
            Seq::new(out@.len(), |k: int| (out@[k].asset@, out@[k].free@, out@[k].locked@))
                =~= bitget_balance_rows(text@, i as int),
            forall|k: int|
                0 <= k < out@.len() ==> (#[trigger] out@[k]).exchange is Bitget
                    && out@[k].total.wf() && vnum(out@[k].total@) == vnum(out@[k].free@) + vnum(
                    out@[k].locked@,
                ),
        decreases n - i,
    {
        let coin = json_text_arr_field(text, "data", i, "coin");
        let free_s = json_text_arr_field(text, "data", i, "available");
        let locked_s = json_text_arr_field(text, "data", i, "frozen");
        let free = match &free_s {
            Some(t) => crate::decimal::rd_from_str(t.as_str()),
            None => None,
        };
        let locked = match &locked_s {
            Some(t) => crate::decimal::rd_from_str(t.as_str()),
            None => None,
        };
        if let (Some(a), Some(f), Some(l)) = (coin, free, locked) {
            if let Some(b) = crate::exchange::balance_from_parts(Exchange::Bitget, a, f, l) {
                out.push(b);
            }
        }
        proof {
            assert(Seq::new(out@.len(), |k: int| (out@[k].asset@, out@[k].free@, out@[k].locked@))
                =~= bitget_balance_rows(text@, i + 1));
        }
        i = i + 1;
    }
    Ok(out)
}

/// Decides an order reply from its extracted parts: the venue order id
/// ("unknown" when the reply has none) on the success code `00000`, the
/// reply's message ("Unknown error" when it has none) as an order
/// failure otherwise.
pub fn bitget_order_decision(code: Option<String>, id: Option<String>, msg: Option<String>) -> (r:
    Result<String, ExchangeError>)
    ensures
        r is Ok <==> (match code {
            Some(c) => c@ == "00000"@,
            None => false,
        }),
        r matches Ok(s) ==> (match id {
            Some(i) => s@ == i@,
            None => s@ == "unknown"@,
        }),
        r matches Err(e) ==> (match e {
            ExchangeError::OrderFailed(m) => (match msg {
                Some(t) => m@ == t@,
                None => m@ == "Unknown error"@,
            }),
            _ => false,
        }),
{
    let success: String = "00000".to_owned();
    let ok = match &code {
        Some(c) => *c == success,
        None => false,
    };
    if ok {
        return Ok(
            match id {
                Some(s) => s,
                None => "unknown".to_owned(),
            },
        );
    }
    Err(
        ExchangeError::OrderFailed(
            match msg {
                Some(m) => m,
                None => "Unknown error".to_owned(),
            },
        ),
    )
}

/// Reads an order-placement response: text that is not JSON is a parse
/// error; otherwise the reply's extracted code, order id and message
/// decide the outcome exactly as [`bitget_order_decision`] says.
pub fn bitget_parse_order_response(text: &str) -> (r: Result<String, ExchangeError>)
    ensures
        !json_wellformed(text@) ==> (r matches Err(e) && e is Parse),
        json_wellformed(text@) ==> {
            &&& (r is Ok <==> json_field1_of(text@, "code"@) == Some("00000"@))
            &&& (r matches Ok(s) ==> (match json_field2_of(text@, "data"@, "orderId"@) {
                Some(i) => s@ == i,
                None => s@ == "unknown"@,
            }))
            &&& (r matches Err(e) ==> (match e {
                ExchangeError::OrderFailed(m) => (match json_field1_of(text@, "msg"@) {
                    Some(t) => m@ == t,
                    None => m@ == "Unknown error"@,
                }),
                _ => false,
            }))
        },
{
    if !json_text_wellformed(text) {
        return Err(ExchangeError::Parse("order response is not json".to_owned()));
    }
    let code = json_text_field(text, "code");
    let id = json_text_field2(text, "data", "orderId");
    let msg = json_text_field(text, "msg");
    proof {
        reveal_strlit("00000");
    }
    bitget_order_decision(code, id, msg)
}

} // verus!
