//! Engine configuration: a read-mostly snapshot with partial-update support.

use vstd::prelude::*;
use crate::decimal::{Decimal, DecView};
use crate::types::Exchange;

verus! {

/// Engine-level settings.
#[derive(Debug, Clone)]
pub struct EngineConfig {
    /// Emission threshold, in percent.
    pub min_spread_pct: Decimal,
    /// Reserved for a polled mode; unused by the event-driven detector.
    pub scan_interval_ms: u64,
    /// When set, no order is ever placed against a venue.
    pub simulation_mode: bool,
    pub api_port: u16,
}

/// Per-venue credentials and fee rate.
#[derive(Debug, Clone)]
pub struct ExchangeConfig {
    pub enabled: bool,
    pub api_key: String,
    pub api_secret: String,
    /// Required by venues that sign with a passphrase.
    pub passphrase: Option<String>,
    /// Taker fee, in percent.
    pub fee_pct: Decimal,
}

/// The closed set of venue sections.
#[derive(Debug, Clone)]
pub struct ExchangesConfig {
    pub bybit: Option<ExchangeConfig>,
    pub bitget: Option<ExchangeConfig>,
}

/// Trading parameters.
#[derive(Debug, Clone)]
pub struct TradingConfig {
    /// Pairs in `BASE/QUOTE` form.
    pub pairs: Vec<String>,
    pub max_trade_qty: Decimal,
    pub min_trade_qty: Decimal,
    /// `"market"` or `"limit"`.
    pub order_type: String,
}

/// Risk limits.
#[derive(Debug, Clone)]
pub struct RiskConfig {
    /// Per-trade quantity bound.
    pub max_position: Decimal,
    /// Cumulative loss stop, in quote currency.
    pub max_daily_loss: Decimal,
    /// Reserved; the executor is serial.
    pub max_concurrent_trades: u32,
    /// Minimum gap between consecutive trades, in milliseconds.
    pub trade_cooldown_ms: u64,
}

/// Top-level configuration.
#[derive(Debug, Clone)]
pub struct Config {
    pub engine: EngineConfig,
    pub exchanges: ExchangesConfig,
    pub trading: TradingConfig,
    pub risk: RiskConfig,
}

impl Config {
    /// Every decimal field within the representable envelope.
    pub open spec fn wf(&self) -> bool {
        &&& self.engine.min_spread_pct.wf()
        &&& self.trading.max_trade_qty.wf()
        &&& self.trading.min_trade_qty.wf()
        &&& self.risk.max_position.wf()
        &&& self.risk.max_daily_loss.wf()
        &&& (self.exchanges.bybit matches Some(c) ==> c.fee_pct.wf())
        &&& (self.exchanges.bitget matches Some(c) ==> c.fee_pct.wf())
    }

    /// The section for one venue, if that venue is configured.
    pub fn get_exchange(&self, exchange: Exchange) -> (r: Option<&ExchangeConfig>)
        ensures
            r matches Some(c) ==> (match exchange {
                Exchange::Bybit => self.exchanges.bybit matches Some(k) && *c == k,
                Exchange::Bitget => self.exchanges.bitget matches Some(k) && *c == k,
            }),
            r is None ==> (match exchange {
                Exchange::Bybit => self.exchanges.bybit is None,
                Exchange::Bitget => self.exchanges.bitget is None,
            }),
    {
        match exchange {
            Exchange::Bybit => self.exchanges.bybit.as_ref(),
            Exchange::Bitget => self.exchanges.bitget.as_ref(),
        }
    }

    /// The taker fee used in net-spread arithmetic for a venue: the
    /// configured rate, or one tenth of a percent when the venue has no
    /// section.
    pub open spec fn fee_of(&self, exchange: Exchange) -> DecView {
        match exchange {
            Exchange::Bybit => match self.exchanges.bybit {
                Some(c) => c.fee_pct@,
                None => DecView { m: 1, s: 1 },
            },
            Exchange::Bitget => match self.exchanges.bitget {
                Some(c) => c.fee_pct@,
                None => DecView { m: 1, s: 1 },
            },
        }
    }

    /// The taker fee for a venue, defaulting to 0.1 percent.
    pub fn fee_for(&self, exchange: Exchange) -> (r: Decimal)
        requires
            self.wf(),
        ensures
            r@ == self.fee_of(exchange),
            r.wf(),
    {
        match self.get_exchange(exchange) {
            Some(c) => c.fee_pct,
            None => Decimal::new(1, 1),
        }
    }

    /// Applies a partial update: fields absent from `u` keep their value.
    pub fn apply_update(&mut self, u: &ConfigUpdate)
        ensures
            (match u.min_spread_pct {
                Some(v) => final(self).engine.min_spread_pct == v,
                None => final(self).engine.min_spread_pct == old(self).engine.min_spread_pct,
            }),
            (match u.max_trade_qty {
                Some(v) => final(self).trading.max_trade_qty == v,
                None => final(self).trading.max_trade_qty == old(self).trading.max_trade_qty,
            }),
            (match u.simulation_mode {
                Some(v) => final(self).engine.simulation_mode == v,
                None => final(self).engine.simulation_mode == old(self).engine.simulation_mode,
            }),
            (match u.scan_interval_ms {
                Some(v) => final(self).engine.scan_interval_ms == v,
                None => final(self).engine.scan_interval_ms == old(self).engine.scan_interval_ms,
            }),
            final(self).engine.api_port == old(self).engine.api_port,
            final(self).exchanges == old(self).exchanges,
            final(self).risk == old(self).risk,
            final(self).trading.pairs == old(self).trading.pairs,
            final(self).trading.min_trade_qty == old(self).trading.min_trade_qty,
            final(self).trading.order_type == old(self).trading.order_type,
    {
        if let Some(v) = u.min_spread_pct {
            self.engine.min_spread_pct = v;
        }
        if let Some(v) = u.max_trade_qty {
            self.trading.max_trade_qty = v;
        }
        if let Some(v) = u.simulation_mode {
            self.engine.simulation_mode = v;
        }
        if let Some(v) = u.scan_interval_ms {
            self.engine.scan_interval_ms = v;
        }
    }
}

/// The pairs a list of texts denotes, in order, skipping texts that are
/// no pair.
pub open spec fn pairs_of(list: Seq<Seq<char>>) -> Seq<crate::types::PairView>
    decreases list.len(),
{
    if list.len() == 0 {
        Seq::<crate::types::PairView>::empty()
    } else {
        pairs_of(list.drop_last()) + (match crate::types::pair_of_text(list.last()) {
            Some(p) => seq![p],
            None => Seq::<crate::types::PairView>::empty(),
        })
    }
}

/// The texts of the configured pair list.
pub open spec fn pair_texts(list: Seq<String>) -> Seq<Seq<char>> {
    Seq::new(list.len(), |i: int| list[i]@)
}

/// Builds the status snapshot the control surface reports: the enabled
/// venues in a fixed order, the monitored pairs parsed from the
/// configuration (texts that are no pair skipped), and the counters
/// handed in.
pub fn engine_status(
    config: &Config,
    running: bool,
    uptime_secs: u64,
    opportunities_found: u64,
    trades_executed: u64,
    total_profit: Decimal,
) -> (r: crate::types::EngineStatus)
    ensures
        r.running == running,
        r.uptime_secs == uptime_secs,
        r.opportunities_found == opportunities_found,
        r.trades_executed == trades_executed,
        r.total_profit == total_profit,
        r.active_exchanges@.contains(Exchange::Bybit) <==> (config.exchanges.bybit matches Some(c)
            && c.enabled),
        r.active_exchanges@.contains(Exchange::Bitget) <==> (config.exchanges.bitget matches Some(
            c,
        ) && c.enabled),
        Seq::new(r.monitored_pairs@.len(), |k: int| r.monitored_pairs@[k]@) =~= pairs_of(
            pair_texts(config.trading.pairs@),
        ),
{
    let mut active: Vec<Exchange> = Vec::new();
    let bybit_on = match &bybit_section(config) {
        Some(c) => c.enabled,
        None => false,
    };
    if bybit_on {
        active.push(Exchange::Bybit);
    }
    let bitget_on = match &bitget_section(config) {
        Some(c) => c.enabled,
        None => false,
    };
    if bitget_on {
        active.push(Exchange::Bitget);
    }
    proof {
        if bybit_on {
            assert(active@.contains(Exchange::Bybit)) by {
                assert(active@[0] == Exchange::Bybit);
            }
        } else {
            assert(!active@.contains(Exchange::Bybit)) by {
                assert(forall|i: int| 0 <= i < active@.len() ==> active@[i] == Exchange::Bitget);
            }
        }
        if bitget_on {
            assert(active@.contains(Exchange::Bitget)) by {
                assert(active@[active@.len() - 1] == Exchange::Bitget);
            }
        } else {
            assert(!active@.contains(Exchange::Bitget)) by {
                assert(forall|i: int| 0 <= i < active@.len() ==> active@[i] == Exchange::Bybit);
            }
        }
    }
    let mut pairs: Vec<crate::types::TradingPair> = Vec::new();
    let ghost texts = pair_texts(config.trading.pairs@);
    let n = config.trading.pairs.len();
    let mut i: usize = 0;
    proof {
        assert(texts.take(0) =~= Seq::<Seq<char>>::empty());
    }
    while i < n
        invariant
            n == config.trading.pairs@.len(),
            texts == pair_texts(config.trading.pairs@),
            i <= n,
            Seq::new(pairs@.len(), |k: int| pairs@[k]@) =~= pairs_of(texts.take(i as int)),
        decreases n - i,
    {
        let ghost before = Seq::new(pairs@.len(), |k: int| pairs@[k]@);
        if let Some(p) = crate::types::parse_pair(config.trading.pairs[i].as_str()) {
            pairs.push(p);
        }
        proof {
            assert(texts.take(i + 1).drop_last() =~= texts.take(i as int));
            assert(texts.take(i + 1).last() == texts[i as int]);
            assert(Seq::new(pairs@.len(), |k: int| pairs@[k]@) =~= pairs_of(texts.take(i + 1)));
        }
        i = i + 1;
    }
    proof {
        assert(texts.take(n as int) =~= texts);
    }
    crate::types::EngineStatus {
        running,
        uptime_secs,
        opportunities_found,
        trades_executed,
        total_profit,
        active_exchanges: active,
        monitored_pairs: pairs,
    }
}

/// The bybit section.
fn bybit_section(config: &Config) -> (r: Option<&ExchangeConfig>)
    ensures
        r matches Some(c) ==> config.exchanges.bybit matches Some(k) && *c == k,
        r is None ==> config.exchanges.bybit is None,
{
    config.exchanges.bybit.as_ref()
}

/// The bitget section.
fn bitget_section(config: &Config) -> (r: Option<&ExchangeConfig>)
    ensures
        r matches Some(c) ==> config.exchanges.bitget matches Some(k) && *c == k,
        r is None ==> config.exchanges.bitget is None,
{
    config.exchanges.bitget.as_ref()
}

/// The order kind the configured `trading.order_type` names: `"limit"`
/// exactly selects limit orders, anything else market orders.
pub fn order_type_of(order_type: &String) -> (r: crate::types::OrderType)
    ensures
        r is Limit <==> order_type@ == "limit"@,
{
    let limit: String = "limit".to_owned();
    if *order_type == limit {
        crate::types::OrderType::Limit
    } else {
        crate::types::OrderType::Market
    }
}

/// A partial configuration update; absent fields stay unchanged.
#[derive(Debug, Clone)]
pub struct ConfigUpdate {
    pub min_spread_pct: Option<Decimal>,
    pub max_trade_qty: Option<Decimal>,
    pub simulation_mode: Option<bool>,
    pub scan_interval_ms: Option<u64>,
}

impl Default for Config {
    /// The built-in defaults used when no configuration file is present.
    fn default() -> (r: Config)
        ensures
            r.engine.min_spread_pct@ == (DecView { m: 1, s: 3 }),
            r.engine.scan_interval_ms == 100,
            r.engine.simulation_mode == true,
            r.engine.api_port == 8080,
            r.exchanges.bybit matches Some(c) && c.enabled && c.api_key@ == Seq::<
                char,
            >::empty() && c.api_secret@ == Seq::<char>::empty() && c.passphrase is None
                && c.fee_pct@ == (DecView { m: 1, s: 3 }),
            r.exchanges.bitget matches Some(c) && c.enabled && c.api_key@ == Seq::<
                char,
            >::empty() && c.api_secret@ == Seq::<char>::empty() && (c.passphrase matches Some(p)
                && p@ == Seq::<char>::empty()) && c.fee_pct@ == (DecView { m: 1, s: 3 }),
            r.trading.pairs@.len() == 1 && r.trading.pairs@[0]@ == "BTC/USDT"@,
            r.trading.max_trade_qty@ == (DecView { m: 1, s: 2 }),
            r.trading.min_trade_qty@ == (DecView { m: 1, s: 4 }),
            r.trading.order_type@ == "market"@,
            r.risk.max_position@ == (DecView { m: 1, s: 1 }),
            r.risk.max_daily_loss@ == (DecView { m: 100, s: 0 }),
            r.risk.max_concurrent_trades == 3,
            r.risk.trade_cooldown_ms == 1000,
            r.wf(),
    {
        let mut pairs: Vec<String> = Vec::new();
        pairs.push("BTC/USDT".to_owned());
        Config {
            engine: EngineConfig {
                min_spread_pct: Decimal::new(1, 3),
                scan_interval_ms: 100,
                simulation_mode: true,
                api_port: 8080,
            },
            exchanges: ExchangesConfig {
                bybit: Some(
                    ExchangeConfig {
                        enabled: true,
                        api_key: String::new(),
                        api_secret: String::new(),
                        passphrase: None,
                        fee_pct: Decimal::new(1, 3),
                    },
                ),
                bitget: Some(
                    ExchangeConfig {
                        enabled: true,
                        api_key: String::new(),
                        api_secret: String::new(),
                        passphrase: Some(String::new()),
                        fee_pct: Decimal::new(1, 3),
                    },
                ),
            },
            trading: TradingConfig {
                pairs,
                max_trade_qty: Decimal::new(1, 2),
                min_trade_qty: Decimal::new(1, 4),
                order_type: "market".to_owned(),
            },
            risk: RiskConfig {
                max_position: Decimal::new(1, 1),
                max_daily_loss: Decimal::new(100, 0),
                max_concurrent_trades: 3,
                trade_cooldown_ms: 1000,
            },
        }
    }
}

} // verus!
