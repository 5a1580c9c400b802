use arb_core::config::{engine_status, Config, ConfigUpdate};
use arb_core::conn::{
    conn_step, heartbeat_due, heartbeat_interval_ms, ConnAction, ConnEvent, ConnPhase, BACKOFF_MS,
};
use arb_core::decimal::Decimal;
use arb_core::history::OpportunityHistory;
use arb_core::types::{ArbitrageOpportunity, Exchange, TradingPair};

fn to_rd(d: &Decimal) -> rust_decimal::Decimal {
    rust_decimal::Decimal::from_i128_with_scale(d.mantissa(), d.scale())
}

fn rd(s: &str) -> rust_decimal::Decimal {
    s.parse::<rust_decimal::Decimal>().unwrap()
}

#[test]
fn defaults_match_the_documented_values() {
    let c = Config::default();
    assert_eq!(to_rd(&c.engine.min_spread_pct), rd("0.001"));
    assert_eq!(c.engine.scan_interval_ms, 100);
    assert!(c.engine.simulation_mode);
    assert_eq!(c.engine.api_port, 8080);
    assert_eq!(c.trading.pairs, vec!["BTC/USDT".to_string()]);
    assert_eq!(to_rd(&c.trading.max_trade_qty), rd("0.01"));
    assert_eq!(to_rd(&c.trading.min_trade_qty), rd("0.0001"));
    assert_eq!(c.trading.order_type, "market");
    assert_eq!(to_rd(&c.risk.max_position), rd("0.1"));
    assert_eq!(to_rd(&c.risk.max_daily_loss), rd("100"));
    assert_eq!(c.risk.max_concurrent_trades, 3);
    assert_eq!(c.risk.trade_cooldown_ms, 1000);
    let bybit = c.exchanges.bybit.as_ref().unwrap();
    assert!(bybit.enabled && bybit.api_key.is_empty() && bybit.passphrase.is_none());
    assert_eq!(to_rd(&bybit.fee_pct), rd("0.001"));
    let bitget = c.exchanges.bitget.as_ref().unwrap();
    assert_eq!(bitget.passphrase.as_deref(), Some(""));
}

#[test]
fn fee_for_reads_the_section_or_defaults() {
    let mut c = Config::default();
    if let Some(b) = c.exchanges.bybit.as_mut() {
        b.fee_pct = Decimal::new(25, 2);
    }
    assert_eq!(to_rd(&c.fee_for(Exchange::Bybit)), rd("0.25"));
    c.exchanges.bitget = None;
    assert_eq!(to_rd(&c.fee_for(Exchange::Bitget)), rd("0.1"));
}

#[test]
fn partial_updates_leave_absent_fields_unchanged() {
    let mut c = Config::default();
    let u = ConfigUpdate {
        min_spread_pct: Some(Decimal::new(5, 1)),
        max_trade_qty: None,
        simulation_mode: Some(false),
        scan_interval_ms: None,
    };
    c.apply_update(&u);
    assert_eq!(to_rd(&c.engine.min_spread_pct), rd("0.5"));
    assert!(!c.engine.simulation_mode);
    assert_eq!(to_rd(&c.trading.max_trade_qty), rd("0.01"));
    assert_eq!(c.engine.scan_interval_ms, 100);
    assert_eq!(c.engine.api_port, 8080);
}

#[test]
fn status_reports_enabled_venues_and_pairs() {
    let mut c = Config::default();
    c.exchanges.bitget = None;
    let s = engine_status(&c, true, 42, 7, 3, Decimal::new(8979, 4));
    assert!(s.running);
    assert_eq!(s.uptime_secs, 42);
    assert_eq!(s.opportunities_found, 7);
    assert_eq!(s.trades_executed, 3);
    assert_eq!(s.active_exchanges, vec![Exchange::Bybit]);
    assert_eq!(s.monitored_pairs.len(), 1);
    assert_eq!(s.monitored_pairs[0].base, "BTC");
    assert_eq!(s.monitored_pairs[0].quote, "USDT");
}

fn small_opp(id: &str) -> ArbitrageOpportunity {
    ArbitrageOpportunity {
        id: id.to_string(),
        pair: TradingPair::new("BTC", "USDT"),
        buy_exchange: Exchange::Bybit,
        sell_exchange: Exchange::Bitget,
        buy_price: Decimal::new(1, 0),
        sell_price: Decimal::new(2, 0),
        spread_pct: Decimal::new(1, 0),
        net_spread_pct: Decimal::new(1, 0),
        potential_profit: Decimal::new(1, 0),
        quantity: Decimal::new(1, 2),
        detected_at: 0,
        is_actionable: true,
    }
}

#[test]
fn history_keeps_only_the_last_thousand() {
    let mut h = OpportunityHistory::new();
    for i in 0..1005u32 {
        h.push(small_opp(&i.to_string()));
    }
    assert_eq!(h.len(), 1000);
    let all = h.all();
    assert_eq!(all[0].id, "5");
    assert_eq!(all[999].id, "1004");
}

#[test]
fn s7_lost_socket_backs_off_then_reconnects() {
    assert_eq!(BACKOFF_MS, 1000);
    let (p1, a1) = conn_step(ConnPhase::Receiving, ConnEvent::SocketLost);
    assert_eq!(p1, ConnPhase::Backoff);
    assert_eq!(a1, ConnAction::CancelHeartbeatAndSleep);
    let (p2, a2) = conn_step(p1, ConnEvent::BackoffElapsed);
    assert_eq!(p2, ConnPhase::Connecting);
    assert_eq!(a2, ConnAction::OpenSocket);
    let (p3, a3) = conn_step(p2, ConnEvent::ConnectOk);
    assert_eq!(p3, ConnPhase::Subscribing);
    assert_eq!(a3, ConnAction::SendSubscribe);
    let (p4, a4) = conn_step(p3, ConnEvent::SubscribeSent);
    assert_eq!(p4, ConnPhase::Receiving);
    assert_eq!(a4, ConnAction::StartHeartbeat);
}

#[test]
fn connection_failures_also_back_off() {
    let (p, a) = conn_step(ConnPhase::Connecting, ConnEvent::ConnectFailed);
    assert_eq!(p, ConnPhase::Backoff);
    assert_eq!(a, ConnAction::Sleep);
    let (p2, a2) = conn_step(ConnPhase::Subscribing, ConnEvent::SubscribeWriteFailed);
    assert_eq!(p2, ConnPhase::Backoff);
    assert_eq!(a2, ConnAction::Sleep);
    let (p3, a3) = conn_step(ConnPhase::Receiving, ConnEvent::FrameReceived);
    assert_eq!(p3, ConnPhase::Receiving);
    assert_eq!(a3, ConnAction::Stay);
}

#[test]
fn heartbeat_cadence_is_venue_specific() {
    assert_eq!(heartbeat_interval_ms(Exchange::Bybit), 20_000);
    assert_eq!(heartbeat_interval_ms(Exchange::Bitget), 25_000);
    assert!(heartbeat_due(Exchange::Bybit, 20_000));
    assert!(!heartbeat_due(Exchange::Bybit, 19_999));
    assert!(!heartbeat_due(Exchange::Bitget, 20_000));
    assert!(heartbeat_due(Exchange::Bitget, 25_000));
    assert_eq!(
        arb_core::bybit::bybit_heartbeat_message(),
        r#"{"op":"ping"}"#
    );
    assert_eq!(arb_core::bitget::bitget_heartbeat_message(), "ping");
}
