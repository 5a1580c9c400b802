use arb_core::config::Config;
use arb_core::decimal::Decimal;
use arb_core::exchange::ExchangeError;
use arb_core::executor::{GateDecision, OrderExecutor};
use arb_core::types::{ArbitrageOpportunity, Exchange, TradeStatus, TradingPair};

fn to_rd(d: &Decimal) -> rust_decimal::Decimal {
    rust_decimal::Decimal::from_i128_with_scale(d.mantissa(), d.scale())
}

fn rd(s: &str) -> rust_decimal::Decimal {
    s.parse::<rust_decimal::Decimal>().unwrap()
}

fn base_config() -> Config {
    let mut c = Config::default();
    c.risk.trade_cooldown_ms = 1000;
    c.risk.max_position = Decimal::new(1, 1); // 0.1
    c.risk.max_daily_loss = Decimal::new(100, 0);
    if let Some(b) = c.exchanges.bybit.as_mut() {
        b.fee_pct = Decimal::new(1, 1);
    }
    if let Some(b) = c.exchanges.bitget.as_mut() {
        b.fee_pct = Decimal::new(1, 1);
    }
    c
}

fn opp(id: &str, buy: i64, sell: i64, qty_m: i64, qty_s: u32, actionable: bool) -> ArbitrageOpportunity {
    ArbitrageOpportunity {
        id: id.to_string(),
        pair: TradingPair::new("BTC", "USDT"),
        buy_exchange: Exchange::Bybit,
        sell_exchange: Exchange::Bitget,
        buy_price: Decimal::new(buy, 0),
        sell_price: Decimal::new(sell, 0),
        spread_pct: Decimal::new(38, 2),
        net_spread_pct: Decimal::new(18, 2),
        potential_profit: Decimal::new(8979, 4),
        quantity: Decimal::new(qty_m, qty_s),
        detected_at: 0,
        is_actionable: actionable,
    }
}

#[test]
fn s1_simulated_settlement_books_exact_profit() {
    let mut ex = OrderExecutor::new(base_config());
    let trade = ex.process_simulated(&opp("o1", 50010, 50200, 1, 2, true), "t1".to_string(), 1000).unwrap();
    assert_eq!(trade.status, TradeStatus::Filled);
    assert_eq!(to_rd(&trade.gross_profit), rd("1.9"));
    assert_eq!(to_rd(&trade.fees), rd("1.0021"));
    assert_eq!(to_rd(&trade.net_profit), rd("0.8979"));
    assert_eq!(trade.opportunity_id, "o1");
    assert_eq!(trade.executed_at, 1000);
    assert_eq!(ex.get_trade_count(), 1);
    assert_eq!(to_rd(&ex.get_total_profit()), rd("0.8979"));
    assert_eq!(ex.get_trades().len(), 1);
}

#[test]
fn not_actionable_opportunities_are_dropped() {
    let mut ex = OrderExecutor::new(base_config());
    let r = ex.process_simulated(&opp("o1", 50010, 50200, 1, 2, false), "t1".to_string(), 1000);
    assert!(r.is_none());
    assert_eq!(ex.get_trade_count(), 0);
}

#[test]
fn s5_cooldown_limits_trade_rate() {
    let mut ex = OrderExecutor::new(base_config());
    assert!(ex.process_simulated(&opp("o1", 50010, 50200, 1, 2, true), "t1".to_string(), 1000).is_some());
    // 500 ms later: silently skipped
    assert!(ex.process_simulated(&opp("o2", 50010, 50200, 1, 2, true), "t2".to_string(), 1500).is_none());
    assert_eq!(ex.screen(&opp("o2", 50010, 50200, 1, 2, true), 1500), GateDecision::Cooldown);
    // exactly one second later: allowed again
    assert!(ex.process_simulated(&opp("o3", 50010, 50200, 1, 2, true), "t3".to_string(), 2000).is_some());
    let trades = ex.get_trades();
    assert_eq!(trades.len(), 2);
    assert!(trades[1].executed_at - trades[0].executed_at >= 1000);
}

#[test]
fn risk_gate_rejects_oversized_positions() {
    let mut ex = OrderExecutor::new(base_config());
    // quantity 0.2 exceeds max_position 0.1
    let o = opp("o1", 50010, 50200, 2, 1, true);
    assert_eq!(ex.screen(&o, 1000), GateDecision::PositionTooLarge);
    assert!(ex.process_simulated(&o, "t1".to_string(), 1000).is_none());
    assert_eq!(ex.get_trade_count(), 0);
}

#[test]
fn risk_gate_stops_after_daily_loss_limit() {
    let mut cfg = base_config();
    cfg.risk.max_daily_loss = Decimal::new(15, 1); // 1.5
    let mut ex = OrderExecutor::new(cfg);
    // a losing pair: sell below buy, still flagged actionable upstream
    let losing = opp("o1", 50200, 50010, 1, 2, true);
    let t = ex.process_simulated(&losing, "t1".to_string(), 1000).unwrap();
    assert!(to_rd(&t.net_profit) < rd("0"));
    // loss 1.9 + fees exceeds the 1.5 stop: the next trade is rejected
    let next = opp("o2", 50200, 50010, 1, 2, true);
    assert_eq!(ex.screen(&next, 3000), GateDecision::DailyLossLimit);
    assert!(ex.process_simulated(&next, "t2".to_string(), 3000).is_none());
    assert_eq!(ex.get_trade_count(), 1);
}

#[test]
fn s6_partial_fill_is_booked_with_opportunity_prices() {
    let mut ex = OrderExecutor::new(base_config());
    let o = opp("o1", 50010, 50200, 1, 2, true);
    let buy: Result<String, ExchangeError> = Ok("order-1".to_string());
    let sell: Result<String, ExchangeError> = Err(ExchangeError::OrderFailed("rejected".to_string()));
    let trade = ex.process_live(&o, "t1".to_string(), 1000, &buy, &sell).unwrap();
    assert_eq!(trade.status, TradeStatus::PartialFill);
    assert_eq!(to_rd(&trade.net_profit), rd("0.8979"));
    assert_eq!(ex.get_trade_count(), 1);
    assert_eq!(to_rd(&ex.get_total_profit()), rd("0.8979"));
}

#[test]
fn both_legs_filled_is_a_fill() {
    let mut ex = OrderExecutor::new(base_config());
    let o = opp("o1", 50010, 50200, 1, 2, true);
    let buy: Result<String, ExchangeError> = Ok("b".to_string());
    let sell: Result<String, ExchangeError> = Ok("s".to_string());
    let trade = ex.process_live(&o, "t1".to_string(), 1000, &buy, &sell).unwrap();
    assert_eq!(trade.status, TradeStatus::Filled);
}

#[test]
fn both_legs_failing_produces_no_trade() {
    let mut ex = OrderExecutor::new(base_config());
    let o = opp("o1", 50010, 50200, 1, 2, true);
    let buy: Result<String, ExchangeError> = Err(ExchangeError::Connection("down".to_string()));
    let sell: Result<String, ExchangeError> = Err(ExchangeError::OrderFailed("no".to_string()));
    assert!(ex.process_live(&o, "t1".to_string(), 1000, &buy, &sell).is_none());
    assert_eq!(ex.get_trade_count(), 0);
}

#[test]
fn error_labels_name_the_kind() {
    assert_eq!(ExchangeError::RateLimit.describe(), "rate limit exceeded");
    assert_eq!(ExchangeError::OrderFailed("x".to_string()).describe(), "order failed");
}
