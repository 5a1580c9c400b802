use arb_core::arbitrage::ArbitrageDetector;
use arb_core::config::Config;
use arb_core::decimal::Decimal;
use arb_core::types::{Exchange, Ticker, TradingPair};

fn to_rd(d: &Decimal) -> rust_decimal::Decimal {
    rust_decimal::Decimal::from_i128_with_scale(d.mantissa(), d.scale())
}

fn rd(s: &str) -> rust_decimal::Decimal {
    s.parse::<rust_decimal::Decimal>().unwrap()
}

fn base_config() -> Config {
    let mut c = Config::default();
    c.engine.min_spread_pct = Decimal::new(1, 1); // 0.1 %
    c.trading.max_trade_qty = Decimal::new(1, 2); // 0.01
    if let Some(b) = c.exchanges.bybit.as_mut() {
        b.fee_pct = Decimal::new(1, 1); // 0.1 %
    }
    if let Some(b) = c.exchanges.bitget.as_mut() {
        b.fee_pct = Decimal::new(1, 1); // 0.1 %
    }
    c
}

fn tick(exchange: Exchange, bid: i64, ask: i64, ts: u64) -> Ticker {
    Ticker {
        exchange,
        pair: TradingPair::new("BTC", "USDT"),
        bid: Decimal::new(bid, 0),
        ask: Decimal::new(ask, 0),
        last: Decimal::new(bid, 0),
        volume_24h: Decimal::new(1000, 0),
        timestamp: ts,
    }
}

#[test]
fn s1_basic_positive_spread() {
    let mut det = ArbitrageDetector::new(base_config());
    let out1 = det.process_ticker(&tick(Exchange::Bybit, 50000, 50010, 1), "a".to_string(), "b".to_string(), 1);
    assert_eq!(out1.len(), 0);
    let out2 = det.process_ticker(&tick(Exchange::Bitget, 50200, 50210, 2), "c".to_string(), "d".to_string(), 2);
    assert_eq!(out2.len(), 1);
    let opp = &out2[0];
    assert_eq!(opp.buy_exchange, Exchange::Bybit);
    assert_eq!(opp.sell_exchange, Exchange::Bitget);
    assert_eq!(to_rd(&opp.buy_price), rd("50010"));
    assert_eq!(to_rd(&opp.sell_price), rd("50200"));
    // spread_pct == ((50200 - 50010) / 50010) * 100, by decimal arithmetic
    let expected_spread = (rd("190") / rd("50010")) * rd("100");
    assert_eq!(to_rd(&opp.spread_pct), expected_spread);
    // net_spread_pct + both fees == spread_pct, exactly
    let expected_net = expected_spread - rd("0.2");
    assert_eq!(to_rd(&opp.net_spread_pct), expected_net);
    assert_eq!(to_rd(&opp.net_spread_pct) + rd("0.1") + rd("0.1"), to_rd(&opp.spread_pct));
    assert!(opp.is_actionable);
    // potential_profit = 0.01*190 - 0.01*50010*0.001 - 0.01*50200*0.001
    assert_eq!(to_rd(&opp.potential_profit), rd("0.8979"));
    assert_eq!(to_rd(&opp.quantity), rd("0.01"));
    assert_eq!(opp.detected_at, 2);
    assert_eq!(opp.id, "d");
}

#[test]
fn s2_sub_threshold_spread_is_not_emitted() {
    let mut cfg = base_config();
    cfg.engine.min_spread_pct = Decimal::new(5, 1); // 0.5 %
    let mut det = ArbitrageDetector::new(cfg);
    det.process_ticker(&tick(Exchange::Bybit, 50000, 50010, 1), "a".to_string(), "b".to_string(), 1);
    let out = det.process_ticker(&tick(Exchange::Bitget, 50200, 50210, 2), "c".to_string(), "d".to_string(), 2);
    assert_eq!(out.len(), 0);
}

#[test]
fn s3_reverse_direction() {
    let mut det = ArbitrageDetector::new(base_config());
    det.process_ticker(&tick(Exchange::Bybit, 50300, 50310, 1), "a".to_string(), "b".to_string(), 1);
    let out = det.process_ticker(&tick(Exchange::Bitget, 50000, 50010, 2), "c".to_string(), "d".to_string(), 2);
    assert_eq!(out.len(), 1);
    let opp = &out[0];
    assert_eq!(opp.buy_exchange, Exchange::Bitget);
    assert_eq!(opp.sell_exchange, Exchange::Bybit);
    assert_eq!(to_rd(&opp.buy_price), rd("50010"));
    assert_eq!(to_rd(&opp.sell_price), rd("50300"));
    assert_eq!(opp.id, "c");
}

#[test]
fn s4_zero_quote_is_not_emitted() {
    let mut det = ArbitrageDetector::new(base_config());
    det.process_ticker(&tick(Exchange::Bybit, 0, 0, 1), "a".to_string(), "b".to_string(), 1);
    let out = det.process_ticker(&tick(Exchange::Bitget, 50000, 50010, 2), "c".to_string(), "d".to_string(), 2);
    assert_eq!(out.len(), 0);
}

#[test]
fn actionability_tracks_net_spread_sign() {
    // fees above the spread but a negative threshold: emitted, not actionable
    let mut cfg = base_config();
    cfg.engine.min_spread_pct = Decimal::new(-1, 0); // -1 %
    if let Some(b) = cfg.exchanges.bybit.as_mut() {
        b.fee_pct = Decimal::new(3, 1); // 0.3 %
    }
    if let Some(b) = cfg.exchanges.bitget.as_mut() {
        b.fee_pct = Decimal::new(3, 1); // 0.3 %
    }
    let mut det = ArbitrageDetector::new(cfg);
    det.process_ticker(&tick(Exchange::Bybit, 50000, 50010, 1), "a".to_string(), "b".to_string(), 1);
    let out = det.process_ticker(&tick(Exchange::Bitget, 50200, 50210, 2), "c".to_string(), "d".to_string(), 2);
    assert_eq!(out.len(), 1);
    // spread ~0.3799 % minus 0.6 % fees is negative: emitted but not actionable
    assert!(!out[0].is_actionable);
    assert!(to_rd(&out[0].net_spread_pct) < rd("0"));
}

#[test]
fn cache_returns_latest_ticker_per_key() {
    let mut det = ArbitrageDetector::new(base_config());
    det.process_ticker(&tick(Exchange::Bybit, 50000, 50010, 1), "a".to_string(), "b".to_string(), 1);
    det.process_ticker(&tick(Exchange::Bybit, 50100, 50110, 2), "c".to_string(), "d".to_string(), 2);
    let prices = det.get_prices();
    assert_eq!(prices.len(), 1);
    assert_eq!(to_rd(&prices[0].bid), rd("50100"));
    assert_eq!(prices[0].timestamp, 2);
}

#[test]
fn price_cache_insert_then_get() {
    let mut cache = arb_core::cache::PriceCache::new();
    let t1 = tick(Exchange::Bybit, 1, 2, 1);
    let t2 = tick(Exchange::Bitget, 3, 4, 2);
    cache.insert(Exchange::Bybit, "BTC/USDT".to_string(), t1);
    cache.insert(Exchange::Bitget, "BTC/USDT".to_string(), t2);
    assert_eq!(cache.len(), 2);
    let got = cache.get(Exchange::Bybit, &"BTC/USDT".to_string()).unwrap();
    assert_eq!(got.bid.mantissa(), 1);
    let got2 = cache.get(Exchange::Bitget, &"BTC/USDT".to_string()).unwrap();
    assert_eq!(got2.bid.mantissa(), 3);
    assert!(cache.get(Exchange::Bybit, &"ETH/USDT".to_string()).is_none());
    // superseding write
    let t3 = tick(Exchange::Bybit, 9, 10, 3);
    cache.insert(Exchange::Bybit, "BTC/USDT".to_string(), t3);
    assert_eq!(cache.len(), 2);
    assert_eq!(cache.get(Exchange::Bybit, &"BTC/USDT".to_string()).unwrap().bid.mantissa(), 9);
}

#[test]
fn evaluate_spread_rejects_nonpositive_prices() {
    let cfg = base_config();
    let fee = cfg.fee_for(Exchange::Bybit);
    let t0 = tick(Exchange::Bybit, 0, 0, 1);
    let t1 = tick(Exchange::Bitget, 50200, 50210, 2);
    let r = arb_core::arbitrage::evaluate_spread(
        &t0,
        &t1,
        &fee,
        &fee,
        &cfg.engine.min_spread_pct,
        &cfg.trading.max_trade_qty,
        "x".to_string(),
        3,
    );
    assert!(r.is_none());
}
