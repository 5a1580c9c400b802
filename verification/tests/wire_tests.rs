use arb_core::bitget::{
    bitget_frame_is_control, bitget_order_body, bitget_parse_balances,
    bitget_parse_order_response, bitget_parse_rest_ticker, bitget_parse_ticker_frame,
    bitget_subscribe_message,
};
use arb_core::bybit::{
    bybit_frame_is_control, bybit_order_body, bybit_parse_balances, bybit_parse_order_response,
    bybit_parse_rest_ticker, bybit_parse_ticker_frame, bybit_subscribe_message, BybitFeedState,
};
use arb_core::decimal::Decimal;
use arb_core::exchange::ExchangeError;
use arb_core::types::{Exchange, OrderSide, OrderType, TradingPair, parse_pair};

fn to_rd(d: &Decimal) -> rust_decimal::Decimal {
    rust_decimal::Decimal::from_i128_with_scale(d.mantissa(), d.scale())
}

fn rd(s: &str) -> rust_decimal::Decimal {
    s.parse::<rust_decimal::Decimal>().unwrap()
}

fn pair() -> TradingPair {
    TradingPair::new("BTC", "USDT")
}

#[test]
fn bybit_full_frame_yields_a_ticker() {
    let text = r#"{"topic":"tickers.BTCUSDT","type":"snapshot","data":{"symbol":"BTCUSDT","bid1Price":"50000","ask1Price":"50010","lastPrice":"50005","volume24h":"123.5"}}"#;
    let mut st = BybitFeedState::new();
    let t = bybit_parse_ticker_frame(text, &pair(), &mut st, 7).unwrap();
    assert_eq!(t.exchange, Exchange::Bybit);
    assert_eq!(to_rd(&t.bid), rd("50000"));
    assert_eq!(to_rd(&t.ask), rd("50010"));
    assert_eq!(to_rd(&t.last), rd("50005"));
    assert_eq!(to_rd(&t.volume_24h), rd("123.5"));
    assert_eq!(t.timestamp, 7);
}

#[test]
fn bybit_delta_frame_keeps_last_known_sides() {
    let mut st = BybitFeedState::new();
    let full = r#"{"data":{"bid1Price":"50000","ask1Price":"50010","lastPrice":"50005","volume24h":"1"}}"#;
    bybit_parse_ticker_frame(full, &pair(), &mut st, 1).unwrap();
    // the delta omits the ask: the remembered ask fills in
    let delta = r#"{"data":{"bid1Price":"50001","lastPrice":"50006","volume24h":"2"}}"#;
    let t = bybit_parse_ticker_frame(delta, &pair(), &mut st, 2).unwrap();
    assert_eq!(to_rd(&t.bid), rd("50001"));
    assert_eq!(to_rd(&t.ask), rd("50010"));
}

#[test]
fn bybit_first_frame_falls_back_to_last_price() {
    let mut st = BybitFeedState::new();
    let text = r#"{"data":{"lastPrice":"50005","volume24h":"1"}}"#;
    let t = bybit_parse_ticker_frame(text, &pair(), &mut st, 1).unwrap();
    assert_eq!(to_rd(&t.bid), rd("50005"));
    assert_eq!(to_rd(&t.ask), rd("50005"));
}

#[test]
fn bybit_zero_prices_suppress_emission() {
    let mut st = BybitFeedState::new();
    let text = r#"{"data":{"lastPrice":"0","volume24h":"1"}}"#;
    assert!(bybit_parse_ticker_frame(text, &pair(), &mut st, 1).is_none());
}

#[test]
fn bybit_control_frames_are_recognised() {
    assert!(bybit_frame_is_control(r#"{"op":"subscribe","success":true}"#));
    assert!(bybit_frame_is_control(r#"{"ret_msg":"pong"}"#));
    assert!(!bybit_frame_is_control(r#"{"data":{"lastPrice":"1"}}"#));
}

#[test]
fn bitget_array_frame_yields_tickers() {
    let text = r#"{"action":"snapshot","data":[{"instId":"BTCUSDT","bidPr":"50200","askPr":"50210","lastPr":"50205","baseVolume":"77"}]}"#;
    let out = bitget_parse_ticker_frame(text, &pair(), 9);
    assert_eq!(out.len(), 1);
    assert_eq!(out[0].exchange, Exchange::Bitget);
    assert_eq!(to_rd(&out[0].bid), rd("50200"));
    assert_eq!(to_rd(&out[0].ask), rd("50210"));
    assert_eq!(out[0].timestamp, 9);
}

#[test]
fn bitget_legacy_aliases_are_accepted() {
    let text = r#"{"data":[{"bestBid":"1.5","bestAsk":"1.6","last":"1.55","baseVol":"3"}]}"#;
    let out = bitget_parse_ticker_frame(text, &pair(), 1);
    assert_eq!(out.len(), 1);
    assert_eq!(to_rd(&out[0].bid), rd("1.5"));
    assert_eq!(to_rd(&out[0].ask), rd("1.6"));
}

#[test]
fn bitget_zero_or_unparseable_prices_suppress_emission() {
    let text = r#"{"data":[{"bidPr":"0","askPr":"50210"},{"bidPr":"junk","askPr":"50210"}]}"#;
    assert_eq!(bitget_parse_ticker_frame(text, &pair(), 1).len(), 0);
}

#[test]
fn bitget_control_frames_are_recognised() {
    assert!(bitget_frame_is_control("pong"));
    assert!(bitget_frame_is_control(r#"{"event":"subscribe"}"#));
    assert!(!bitget_frame_is_control(r#"{"data":[]}"#));
}

#[test]
fn subscribe_messages_take_the_documented_shape() {
    assert_eq!(
        bybit_subscribe_message("BTCUSDT"),
        r#"{"op":"subscribe","args":["tickers.BTCUSDT"]}"#
    );
    assert_eq!(
        bitget_subscribe_message("BTCUSDT"),
        r#"{"op":"subscribe","args":[{"instType":"SPOT","channel":"ticker","instId":"BTCUSDT"}]}"#
    );
}

#[test]
fn bybit_order_responses_map_to_id_or_failure() {
    let ok = r#"{"retCode":0,"result":{"orderId":"abc-1"}}"#;
    assert_eq!(bybit_parse_order_response(ok).unwrap(), "abc-1");
    let fail = r#"{"retCode":10001,"retMsg":"insufficient balance"}"#;
    match bybit_parse_order_response(fail) {
        Err(ExchangeError::OrderFailed(m)) => assert_eq!(m, "insufficient balance"),
        _ => panic!("expected an order failure"),
    }
}

#[test]
fn bitget_order_responses_map_to_id_or_failure() {
    let ok = r#"{"code":"00000","data":{"orderId":"xyz-2"}}"#;
    assert_eq!(bitget_parse_order_response(ok).unwrap(), "xyz-2");
    let fail = r#"{"code":"40001","msg":"bad request"}"#;
    match bitget_parse_order_response(fail) {
        Err(ExchangeError::OrderFailed(m)) => assert_eq!(m, "bad request"),
        _ => panic!("expected an order failure"),
    }
}

#[test]
fn bybit_balances_keep_nonzero_rows() {
    let text = r#"{"result":{"list":[{"coin":[
        {"coin":"BTC","availableToWithdraw":"0.5","locked":"0.1"},
        {"coin":"DOGE","availableToWithdraw":"0","locked":"0"},
        {"coin":"ETH","availableToWithdraw":"junk","locked":"0"}
    ]}]}}"#;
    let out = bybit_parse_balances(text).unwrap();
    assert_eq!(out.len(), 1);
    assert_eq!(out[0].asset, "BTC");
    assert_eq!(to_rd(&out[0].total), rd("0.6"));
}

#[test]
fn bitget_balances_keep_nonzero_rows() {
    let text = r#"{"data":[
        {"coin":"USDT","available":"100","frozen":"5"},
        {"coin":"BTC","available":"0","frozen":"0"}
    ]}"#;
    let out = bitget_parse_balances(text).unwrap();
    assert_eq!(out.len(), 1);
    assert_eq!(out[0].asset, "USDT");
    assert_eq!(to_rd(&out[0].total), rd("105"));
}

#[test]
fn pairs_parse_and_uppercase() {
    let p = parse_pair("btc/usdt").unwrap();
    assert_eq!(p.base, "BTC");
    assert_eq!(p.quote, "USDT");
    assert!(parse_pair("BTCUSDT").is_none());
    let q = parse_pair("eth/usdt/extra").unwrap();
    assert_eq!(q.base, "ETH");
    assert_eq!(q.quote, "USDT");
}

#[test]
fn symbols_and_labels() {
    let p = pair();
    assert_eq!(p.symbol_for(Exchange::Bybit), "BTCUSDT");
    assert_eq!(p.symbol_for(Exchange::Bitget), "BTCUSDT");
    assert_eq!(p.label(), "BTC/USDT");
    assert_eq!(Exchange::Bybit.name(), "Bybit");
    assert_eq!(Exchange::Bitget.name(), "Bitget");
}

#[test]
fn parse_dec_or_zero_falls_back_to_zero() {
    let good = arb_core::wire::parse_dec_or_zero(&Some("50010.25".to_string()));
    assert_eq!(to_rd(&good), rd("50010.25"));
    let bad = arb_core::wire::parse_dec_or_zero(&Some("not-a-number".to_string()));
    assert!(bad.is_zero());
    let missing = arb_core::wire::parse_dec_or_zero(&None);
    assert!(missing.is_zero());
}

#[test]
fn bybit_rest_ticker_reads_the_first_list_entry() {
    let text = r#"{"retCode":0,"result":{"list":[{"bid1Price":"50000","ask1Price":"50010","lastPrice":"50005","volume24h":"9"}]}}"#;
    let t = bybit_parse_rest_ticker(text, &pair(), 4).unwrap();
    assert_eq!(t.exchange, Exchange::Bybit);
    assert_eq!(to_rd(&t.bid), rd("50000"));
    assert_eq!(to_rd(&t.ask), rd("50010"));
    assert_eq!(t.timestamp, 4);
}

#[test]
fn bybit_rest_ticker_zero_fills_missing_structure() {
    let t = bybit_parse_rest_ticker("{}", &pair(), 4).unwrap();
    assert!(t.bid.is_zero() && t.ask.is_zero() && t.last.is_zero());
    let empty_list = r#"{"result":{"list":[]}}"#;
    let t2 = bybit_parse_rest_ticker(empty_list, &pair(), 4).unwrap();
    assert!(t2.bid.is_zero());
    assert!(bybit_parse_rest_ticker("not json", &pair(), 4).is_err());
}

#[test]
fn bitget_rest_ticker_reads_the_first_data_entry() {
    let text = r#"{"data":[{"bestBid":"50200","bestAsk":"50210","lastPr":"50205","baseVolume":"3"}]}"#;
    let t = bitget_parse_rest_ticker(text, &pair(), 6).unwrap();
    assert_eq!(t.exchange, Exchange::Bitget);
    assert_eq!(to_rd(&t.bid), rd("50200"));
    assert_eq!(to_rd(&t.ask), rd("50210"));
    let zero = bitget_parse_rest_ticker("{}", &pair(), 6).unwrap();
    assert!(zero.bid.is_zero());
}

#[test]
fn bybit_order_bodies_take_the_documented_shape() {
    let limit = bybit_order_body("BTCUSDT", OrderSide::Buy, OrderType::Limit, "0.01", Some("50010"));
    assert_eq!(
        limit,
        r#"{"category":"spot","orderType":"Limit","price":"50010","qty":"0.01","side":"Buy","symbol":"BTCUSDT","timeInForce":"GTC"}"#
    );
    let market = bybit_order_body("BTCUSDT", OrderSide::Sell, OrderType::Market, "0.5", None);
    assert_eq!(
        market,
        r#"{"category":"spot","orderType":"Market","qty":"0.5","side":"Sell","symbol":"BTCUSDT"}"#
    );
    // both bodies are valid JSON with the intended members
    let v: serde_json::Value = serde_json::from_str(&limit).unwrap();
    assert_eq!(v.get("side").and_then(|s| s.as_str()), Some("Buy"));
    assert_eq!(v.get("price").and_then(|s| s.as_str()), Some("50010"));
}

#[test]
fn bitget_order_bodies_take_the_documented_shape() {
    let limit = bitget_order_body("BTCUSDT", OrderSide::Sell, OrderType::Limit, "0.01", Some("50200"));
    assert_eq!(
        limit,
        r#"{"force":"gtc","orderType":"limit","price":"50200","side":"sell","size":"0.01","symbol":"BTCUSDT"}"#
    );
    let market = bitget_order_body("BTCUSDT", OrderSide::Buy, OrderType::Market, "0.01", None);
    assert_eq!(
        market,
        r#"{"force":"gtc","orderType":"market","side":"buy","size":"0.01","symbol":"BTCUSDT"}"#
    );
    let v: serde_json::Value = serde_json::from_str(&market).unwrap();
    assert_eq!(v.get("orderType").and_then(|s| s.as_str()), Some("market"));
}

#[test]
fn bybit_dataless_frame_emits_from_remembered_sides() {
    let mut st = BybitFeedState::new();
    let full = r#"{"data":{"bid1Price":"50000","ask1Price":"50010","lastPrice":"50005","volume24h":"1"}}"#;
    bybit_parse_ticker_frame(full, &pair(), &mut st, 1).unwrap();
    // valid JSON without a data member: remembered sides carry the frame
    let t = bybit_parse_ticker_frame(r#"{"ts":123}"#, &pair(), &mut st, 2).unwrap();
    assert_eq!(to_rd(&t.bid), rd("50000"));
    assert_eq!(to_rd(&t.ask), rd("50010"));
    assert!(t.last.is_zero());
    // text that is not JSON changes nothing and emits nothing
    assert!(bybit_parse_ticker_frame("garbage", &pair(), &mut st, 3).is_none());
}

#[test]
fn order_responses_reject_non_json_text() {
    assert!(matches!(
        bybit_parse_order_response("not json"),
        Err(ExchangeError::Parse(_))
    ));
    assert!(matches!(
        bitget_parse_order_response("not json"),
        Err(ExchangeError::Parse(_))
    ));
    // a reply without a return code is a failure with the default message
    match bybit_parse_order_response("{}") {
        Err(ExchangeError::OrderFailed(m)) => assert_eq!(m, "Unknown error"),
        _ => panic!("expected an order failure"),
    }
}

#[test]
fn order_type_names_select_the_kind() {
    assert_eq!(arb_core::config::order_type_of(&"limit".to_string()), OrderType::Limit);
    assert_eq!(arb_core::config::order_type_of(&"market".to_string()), OrderType::Market);
    assert_eq!(arb_core::config::order_type_of(&"anything".to_string()), OrderType::Market);
}
