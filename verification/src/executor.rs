//! The risk-gated trade executor.
//!
//! Opportunities pass an entry gate (actionability, daily-loss stop,
//! position bound, cooldown) before a paired trade is settled and
//! recorded.  The recorded history provably keeps the cooldown gap between
//! consecutive trades and never books a trade past the risk limits.

use vstd::prelude::*;
use crate::decimal::{
    Decimal, DecView, vnum, pow10, MAX_SCALE, can_add, can_sub, can_mul, sum_v, diff_v, prod_v,
    div100_v, abs_v,
};
use crate::types::{ArbitrageOpportunity, TradeResult, TradeStatus, TradeView, trade_wf};
use crate::config::Config;
use crate::exchange::ExchangeError;

verus! {

/// Why an opportunity was not executed, or that it may be.
#[derive(Debug, Clone, Copy, PartialEq, Eq, Structural)]
pub enum GateDecision {
    /// The detector marked it not actionable.
    NotActionable,
    /// The cumulative daily loss has reached its stop.
    DailyLossLimit,
    /// The quantity exceeds the per-trade position bound.
    PositionTooLarge,
    /// Too soon after the previous trade.
    Cooldown,
    /// All gates passed.
    Execute,
}

/// Sum of the net profits of the first `i` trades, on the common grid.
pub open spec fn profit_sum(s: Seq<TradeView>, i: int) -> int
    decreases i,
{
    if i <= 0 {
        0
    } else {
        profit_sum(s, i - 1) + vnum(s[i - 1].net_profit)
    }
}

/// Sum of the magnitudes of the negative net profits of the first `i`
/// trades, on the common grid.
pub open spec fn loss_sum(s: Seq<TradeView>, i: int) -> int
    decreases i,
{
    if i <= 0 {
        0
    } else {
        loss_sum(s, i - 1) + (if vnum(s[i - 1].net_profit) < 0 {
            -vnum(s[i - 1].net_profit)
        } else {
            0
        })
    }
}

/// Prefix sums ignore a pushed element.
proof fn lemma_sums_push(s: Seq<TradeView>, t: TradeView, i: int)
    requires
        0 <= i <= s.len(),
    ensures
        profit_sum(s.push(t), i) == profit_sum(s, i),
        loss_sum(s.push(t), i) == loss_sum(s, i),
    decreases i,
{
    if i > 0 {
        lemma_sums_push(s, t, i - 1);
        assert(s.push(t)[i - 1] == s[i - 1]);
    }
}

/// The entry gate, in the order the executor applies it.
pub open spec fn decision_of(
    daily_loss: DecView,
    cfg: Config,
    last: Option<u64>,
    opp: crate::types::OppView,
    now: u64,
) -> GateDecision {
    if !opp.is_actionable {
        GateDecision::NotActionable
    } else if vnum(daily_loss) >= vnum(cfg.risk.max_daily_loss@) {
        GateDecision::DailyLossLimit
    } else if vnum(opp.quantity) > vnum(cfg.risk.max_position@) {
        GateDecision::PositionTooLarge
    } else if last matches Some(t) && now - t < cfg.risk.trade_cooldown_ms {
        GateDecision::Cooldown
    } else {
        GateDecision::Execute
    }
}

/// Whether every step of the settlement arithmetic
/// `gross = qty*(sell-buy)`, `fees = qty*buy*(fb/100) + qty*sell*(fs/100)`,
/// `net = gross - fees` stays inside the representable envelope.
pub open spec fn settle_arith_ok(
    qty: DecView,
    buy: DecView,
    sell: DecView,
    fb: DecView,
    fs: DecView,
) -> bool {
    let d = diff_v(sell, buy);
    let gross = prod_v(qty, d);
    let leg1 = prod_v(prod_v(qty, buy), div100_v(fb));
    let leg2 = prod_v(prod_v(qty, sell), div100_v(fs));
    &&& can_sub(sell, buy)
    &&& can_mul(qty, d)
    &&& fb.s + 2 <= MAX_SCALE
    &&& can_mul(qty, buy)
    &&& can_mul(prod_v(qty, buy), div100_v(fb))
    &&& fs.s + 2 <= MAX_SCALE
    &&& can_mul(qty, sell)
    &&& can_mul(prod_v(qty, sell), div100_v(fs))
    &&& can_add(leg1, leg2)
    &&& can_sub(gross, sum_v(leg1, leg2))
}

/// Whether the accumulators can absorb a settled net profit exactly: the
/// profit total can take the addition, and, for a loss, so can the daily
/// loss total.
pub open spec fn accounting_ok(total: DecView, loss: DecView, net: DecView) -> bool {
    &&& can_add(total, net)
    &&& (vnum(net) < 0 ==> can_add(loss, abs_v(net)))
}

/// The view of the settled net profit, meaningful under `settle_arith_ok`.
pub open spec fn settle_net_v(
    qty: DecView,
    buy: DecView,
    sell: DecView,
    fb: DecView,
    fs: DecView,
) -> DecView {
    diff_v(
        prod_v(qty, diff_v(sell, buy)),
        sum_v(
            prod_v(prod_v(qty, buy), div100_v(fb)),
            prod_v(prod_v(qty, sell), div100_v(fs)),
        ),
    )
}

/// Whether settlement and accounting both stay inside the envelope for
/// this opportunity against this state: the settlement arithmetic is
/// representable, the history counter has room, and the accumulators can
/// absorb the settled net profit exactly.
pub open spec fn books_trade(e: OrderExecutor, opp: crate::types::OppView) -> bool {
    let fb = e.spec_config().fee_of(opp.buy_exchange);
    let fs = e.spec_config().fee_of(opp.sell_exchange);
    &&& settle_arith_ok(opp.quantity, opp.buy_price, opp.sell_price, fb, fs)
    &&& e.spec_trades().len() < u64::MAX
    &&& accounting_ok(
        e.spec_total_profit(),
        e.spec_daily_loss(),
        settle_net_v(opp.quantity, opp.buy_price, opp.sell_price, fb, fs),
    )
}

/// Executes cleared opportunities and accounts for the results.
pub struct OrderExecutor {
    config: Config,
    trades: Vec<TradeResult>,
    total_trades: u64,
    total_profit: Decimal,
    daily_loss: Decimal,
    last_trade_at: Option<u64>,
}

impl OrderExecutor {
    /// The recorded trade history.
    pub closed spec fn spec_trades(&self) -> Seq<TradeView> {
        Seq::new(self.trades@.len(), |i: int| self.trades@[i]@)
    }

    /// The configuration the executor runs under.
    pub closed spec fn spec_config(&self) -> Config {
        self.config
    }

    /// The accumulated daily loss.
    pub closed spec fn spec_daily_loss(&self) -> DecView {
        self.daily_loss@
    }

    /// The accumulated profit.
    pub closed spec fn spec_total_profit(&self) -> DecView {
        self.total_profit@
    }

    /// When the previous trade was executed, if any.
    pub closed spec fn spec_last_trade_at(&self) -> Option<u64> {
        self.last_trade_at
    }

    /// The standing state invariant: counters agree with the history, and
    /// the history satisfies the cooldown and risk laws.
    pub closed spec fn wf(&self) -> bool {
        let s = self.spec_trades();
        let n = s.len() as int;
        &&& self.config.wf()
        &&& self.total_profit.wf()
        &&& self.daily_loss.wf()
        &&& self.total_trades == n
        &&& forall|k: int| 0 <= k < n ==> trade_wf(#[trigger] s[k])
        &&& vnum(self.total_profit@) == profit_sum(s, n)
        &&& vnum(self.daily_loss@) == loss_sum(s, n)
        &&& (match self.last_trade_at {
            None => n == 0,
            Some(t) => n > 0 && t == s[n - 1].executed_at,
        })
        &&& forall|i: int|
            0 < i < n ==> #[trigger] s[i].executed_at >= s[i - 1].executed_at
                + self.config.risk.trade_cooldown_ms
        &&& forall|i: int|
            0 <= i < n ==> vnum(#[trigger] s[i].quantity) <= vnum(self.config.risk.max_position@)
        &&& forall|i: int| 0 <= i < n ==> loss_sum(s, i) < vnum(self.config.risk.max_daily_loss@)
    }

    /// A fresh executor with an empty history.
    pub fn new(config: Config) -> (r: OrderExecutor)
        requires
            config.wf(),
        ensures
            r.wf(),
            r.spec_config() == config,
            r.spec_trades().len() == 0,
            r.spec_last_trade_at() is None,
            vnum(r.spec_total_profit()) == 0,
            vnum(r.spec_daily_loss()) == 0,
    {
        let r = OrderExecutor {
            config,
            trades: Vec::new(),
            total_trades: 0,
            total_profit: Decimal::zero(),
            daily_loss: Decimal::zero(),
            last_trade_at: None,
        };
        proof {
            assert(r.spec_trades() =~= Seq::<TradeView>::empty());
        }
        r
    }

    /// Applies the entry gate without changing any state.
    pub fn screen(&self, opp: &ArbitrageOpportunity, now: u64) -> (r: GateDecision)
        requires
            self.wf(),
            opp.wf(),
            self.spec_last_trade_at() matches Some(t) ==> now >= t,
        ensures
            r == decision_of(self.spec_daily_loss(), self.spec_config(), self.spec_last_trade_at(), opp@, now),
    {
        if !opp.is_actionable {
            return GateDecision::NotActionable;
        }
        if !self.daily_loss.lt(&self.config.risk.max_daily_loss) {
            return GateDecision::DailyLossLimit;
        }
        if self.config.risk.max_position.lt(&opp.quantity) {
            return GateDecision::PositionTooLarge;
        }
        if let Some(t) = self.last_trade_at {
            if now - t < self.config.risk.trade_cooldown_ms {
                return GateDecision::Cooldown;
            }
        }
        GateDecision::Execute
    }

    /// Settles one paired trade at the opportunity's prices: exact gross,
    /// fee and net arithmetic, with the given status.
    fn settle(&self, opp: &ArbitrageOpportunity, id: String, now: u64, status: TradeStatus) -> (r:
        Option<TradeResult>)
        requires
            self.wf(),
            opp.wf(),
        ensures
            r is Some <==> settle_arith_ok(
                opp@.quantity,
                opp@.buy_price,
                opp@.sell_price,
                self.spec_config().fee_of(opp@.buy_exchange),
                self.spec_config().fee_of(opp@.sell_exchange),
            ),
            r matches Some(t) ==> {
                let fb = self.spec_config().fee_of(opp@.buy_exchange);
                let fs = self.spec_config().fee_of(opp@.sell_exchange);
                &&& t.wf()
                &&& t@.id == id@
                &&& t@.opportunity_id == opp@.id
                &&& t@.pair == opp@.pair
                &&& t@.buy_exchange == opp@.buy_exchange
                &&& t@.sell_exchange == opp@.sell_exchange
                &&& t@.buy_price == opp@.buy_price
                &&& t@.sell_price == opp@.sell_price
                &&& t@.quantity == opp@.quantity
                &&& t@.status == status
                &&& t@.executed_at == now
                &&& vnum(t@.gross_profit) * pow10(MAX_SCALE as nat) == vnum(opp@.quantity) * (vnum(
                    opp@.sell_price,
                ) - vnum(opp@.buy_price))
                &&& 100 * pow10(MAX_SCALE as nat) * pow10(MAX_SCALE as nat) * vnum(t@.fees) == vnum(
                    opp@.quantity,
                ) * vnum(opp@.buy_price) * vnum(fb) + vnum(opp@.quantity) * vnum(opp@.sell_price)
                    * vnum(fs)
                &&& vnum(t@.net_profit) == vnum(t@.gross_profit) - vnum(t@.fees)
                &&& t@.net_profit == settle_net_v(
                    opp@.quantity,
                    opp@.buy_price,
                    opp@.sell_price,
                    fb,
                    fs,
                )
            },
    {
        let buy_fee = self.config.fee_for(opp.buy_exchange);
        let sell_fee = self.config.fee_for(opp.sell_exchange);
        let d = match opp.sell_price.checked_sub(&opp.buy_price) {
            Some(v) => v,
            None => {
                return None;
            },
        };
        let gross = match opp.quantity.checked_mul(&d) {
            Some(v) => v,
            None => {
                return None;
            },
        };
        if buy_fee.scale() + 2 > MAX_SCALE {
            return None;
        }
        let fb = buy_fee.div_by_100();
        let t1 = match opp.quantity.checked_mul(&opp.buy_price) {
            Some(v) => v,
            None => {
                return None;
            },
        };
        let leg1 = match t1.checked_mul(&fb) {
            Some(v) => v,
            None => {
                return None;
            },
        };
        if sell_fee.scale() + 2 > MAX_SCALE {
            return None;
        }
        let fs = sell_fee.div_by_100();
        let t2 = match opp.quantity.checked_mul(&opp.sell_price) {
            Some(v) => v,
            None => {
                return None;
            },
        };
        let leg2 = match t2.checked_mul(&fs) {
            Some(v) => v,
            None => {
                return None;
            },
        };
        let fees = match leg1.checked_add(&leg2) {
            Some(v) => v,
            None => {
                return None;
            },
        };
        let net = match gross.checked_sub(&fees) {
            Some(v) => v,
            None => {
                return None;
            },
        };
        proof {
            lemma_fee_formula(
                opp@.quantity,
                opp@.buy_price,
                opp@.sell_price,
                buy_fee@,
                sell_fee@,
                fb@,
                t1@,
                leg1@,
                fs@,
                t2@,
                leg2@,
                fees@,
            );
        }
        Some(
            TradeResult {
                id,
                opportunity_id: opp.id.clone(),
                pair: opp.pair.duplicate(),
                buy_exchange: opp.buy_exchange,
                sell_exchange: opp.sell_exchange,
                buy_price: opp.buy_price,
                sell_price: opp.sell_price,
                quantity: opp.quantity,
                gross_profit: gross,
                fees,
                net_profit: net,
                status,
                executed_at: now,
            },
        )
    }

    /// Records a settled trade when the accumulators can absorb it
    /// exactly: appends it to the history, bumps the counters, folds a
    /// negative net profit into the daily loss, and stamps the cooldown
    /// clock.  When the envelope would be left, nothing changes and
    /// `false` comes back.
    fn try_record(&mut self, trade: TradeResult, now: u64) -> (r: bool)
        requires
            old(self).wf(),
            trade.wf(),
            trade@.executed_at == now,
            old(self).spec_last_trade_at() matches Some(t) ==> now >= t + old(self).spec_config().risk.trade_cooldown_ms,
            vnum(old(self).spec_daily_loss()) < vnum(old(self).spec_config().risk.max_daily_loss@),
            vnum(trade@.quantity) <= vnum(old(self).spec_config().risk.max_position@),
        ensures
            final(self).wf(),
            final(self).spec_config() == old(self).spec_config(),
            r == (old(self).spec_trades().len() < u64::MAX && accounting_ok(
                old(self).spec_total_profit(),
                old(self).spec_daily_loss(),
                trade@.net_profit,
            )),
            r ==> final(self).spec_trades() =~= old(self).spec_trades().push(trade@),
            r ==> final(self).spec_last_trade_at() == Some(now),
            r ==> vnum(final(self).spec_total_profit()) == vnum(old(self).spec_total_profit())
                + vnum(trade@.net_profit),
            r ==> vnum(final(self).spec_daily_loss()) == vnum(old(self).spec_daily_loss()) + (
            if vnum(trade@.net_profit) < 0 {
                -vnum(trade@.net_profit)
            } else {
                0
            }),
            !r ==> final(self).spec_trades() == old(self).spec_trades() && final(self).spec_total_profit() == old(self).spec_total_profit() && final(self).spec_daily_loss()
                == old(self).spec_daily_loss() && final(self).spec_last_trade_at() == old(self).spec_last_trade_at(),
    {
        let ghost pre = self.spec_trades();
        let ghost n = pre.len() as int;
        if self.total_trades == u64::MAX {
            return false;
        }
        let new_profit = match self.total_profit.checked_add(&trade.net_profit) {
            Some(v) => v,
            None => {
                return false;
            },
        };
        let new_loss = if trade.net_profit.is_negative() {
            match self.daily_loss.checked_add(&trade.net_profit.abs()) {
                Some(v) => Some(v),
                None => {
                    return false;
                },
            }
        } else {
            None
        };
        self.total_profit = new_profit;
        if let Some(l) = new_loss {
            self.daily_loss = l;
        }
        self.total_trades = self.total_trades + 1;
        self.last_trade_at = Some(now);
        let ghost tv = trade@;
        self.trades.push(trade);
        proof {
            assert(self.spec_trades() =~= pre.push(tv));
            lemma_sums_push(pre, tv, n);
            assert forall|i: int| 0 <= i < self.spec_trades().len() implies loss_sum(
                self.spec_trades(),
                i,
            ) < vnum(self.config.risk.max_daily_loss@) by {
                lemma_sums_push(pre, tv, i);
                assert(loss_sum(self.spec_trades(), i) == loss_sum(pre, i));
                if i < n {
                    assert(loss_sum(pre, i) < vnum(self.config.risk.max_daily_loss@));
                }
            }
        }
        true
    }

    /// One simulated execution step for one opportunity: gating, a
    /// settlement with status `Filled`, and accounting.  No venue is
    /// contacted.  A trade results precisely under a clear entry
    /// decision with settlement and accounting inside the envelope, and
    /// its profit arithmetic and the accumulator movements are stated
    /// exactly.
    pub fn process_simulated(&mut self, opp: &ArbitrageOpportunity, id: String, now: u64) -> (r:
        Option<TradeResult>)
        requires
            old(self).wf(),
            opp.wf(),
            old(self).spec_last_trade_at() matches Some(t) ==> now >= t,
        ensures
            final(self).wf(),
            final(self).spec_config() == old(self).spec_config(),
            r is Some <==> (decision_of(
                old(self).spec_daily_loss(),
                old(self).spec_config(),
                old(self).spec_last_trade_at(),
                opp@,
                now,
            ) is Execute && books_trade(*old(self), opp@)),
            r matches Some(t) ==> {
                let fb = old(self).spec_config().fee_of(opp@.buy_exchange);
                let fs = old(self).spec_config().fee_of(opp@.sell_exchange);
                &&& t.wf()
                &&& t@.id == id@
                &&& t@.opportunity_id == opp@.id
                &&& t@.pair == opp@.pair
                &&& t@.buy_exchange == opp@.buy_exchange
                &&& t@.sell_exchange == opp@.sell_exchange
                &&& t@.buy_price == opp@.buy_price
                &&& t@.sell_price == opp@.sell_price
                &&& t@.quantity == opp@.quantity
                &&& t@.status is Filled
                &&& t@.executed_at == now
                &&& vnum(t@.gross_profit) * pow10(MAX_SCALE as nat) == vnum(opp@.quantity) * (vnum(
                    opp@.sell_price,
                ) - vnum(opp@.buy_price))
                &&& 100 * pow10(MAX_SCALE as nat) * pow10(MAX_SCALE as nat) * vnum(t@.fees) == vnum(
                    opp@.quantity,
                ) * vnum(opp@.buy_price) * vnum(fb) + vnum(opp@.quantity) * vnum(opp@.sell_price)
                    * vnum(fs)
                &&& vnum(t@.net_profit) == vnum(t@.gross_profit) - vnum(t@.fees)
                &&& t@.net_profit == settle_net_v(
                    opp@.quantity,
                    opp@.buy_price,
                    opp@.sell_price,
                    fb,
                    fs,
                )
                &&& final(self).spec_trades() =~= old(self).spec_trades().push(t@)
                &&& final(self).spec_last_trade_at() == Some(now)
                &&& vnum(final(self).spec_total_profit()) == vnum(old(self).spec_total_profit())
                    + vnum(t@.net_profit)
                &&& vnum(final(self).spec_daily_loss()) == vnum(old(self).spec_daily_loss()) + (
                if vnum(t@.net_profit) < 0 {
                    -vnum(t@.net_profit)
                } else {
                    0
                })
            },
            r is None ==> final(self).spec_trades() == old(self).spec_trades() && final(self).spec_total_profit() == old(self).spec_total_profit() && final(self).spec_daily_loss()
                == old(self).spec_daily_loss() && final(self).spec_last_trade_at() == old(self).spec_last_trade_at(),
    {
        let decision = self.screen(opp, now);
        if !matches!(decision, GateDecision::Execute) {
            return None;
        }
        let settled = self.settle(opp, id, now, TradeStatus::Filled);
        match settled {
            None => None,
            Some(trade) => {
                let out = trade.duplicate();
                if self.try_record(trade, now) {
                    Some(out)
                } else {
                    None
                }
            },
        }
    }

    /// Books the outcome of a live paired dispatch, whose two order
    /// results the caller obtained from the venues: both legs filled means
    /// `Filled`, exactly one means `PartialFill`, and when both legs
    /// failed no trade is produced.  Accounting uses the opportunity's
    /// intended prices, and a trade is booked precisely when at least one
    /// leg filled and settlement and accounting stay inside the envelope.
    pub fn process_live(
        &mut self,
        opp: &ArbitrageOpportunity,
        id: String,
        now: u64,
        buy_result: &Result<String, ExchangeError>,
        sell_result: &Result<String, ExchangeError>,
    ) -> (r: Option<TradeResult>)
        requires
            old(self).wf(),
            opp.wf(),
            old(self).spec_last_trade_at() matches Some(t) ==> now >= t,
            decision_of(
                old(self).spec_daily_loss(),
                old(self).spec_config(),
                old(self).spec_last_trade_at(),
                opp@,
                now,
            ) is Execute,
        ensures
            final(self).wf(),
            final(self).spec_config() == old(self).spec_config(),
            r is Some <==> (!(buy_result is Err && sell_result is Err) && books_trade(
                *old(self),
                opp@,
            )),
            r matches Some(t) ==> {
                let fb = old(self).spec_config().fee_of(opp@.buy_exchange);
                let fs = old(self).spec_config().fee_of(opp@.sell_exchange);
                &&& t.wf()
                &&& t@.id == id@
                &&& t@.opportunity_id == opp@.id
                &&& t@.pair == opp@.pair
                &&& t@.buy_exchange == opp@.buy_exchange
                &&& t@.sell_exchange == opp@.sell_exchange
                &&& t@.buy_price == opp@.buy_price
                &&& t@.sell_price == opp@.sell_price
                &&& t@.quantity == opp@.quantity
                &&& t@.executed_at == now
                &&& (t@.status is Filled <==> buy_result is Ok && sell_result is Ok)
                &&& (t@.status is PartialFill <==> (buy_result is Ok) != (sell_result is Ok))
                &&& vnum(t@.gross_profit) * pow10(MAX_SCALE as nat) == vnum(opp@.quantity) * (vnum(
                    opp@.sell_price,
                ) - vnum(opp@.buy_price))
                &&& 100 * pow10(MAX_SCALE as nat) * pow10(MAX_SCALE as nat) * vnum(t@.fees) == vnum(
                    opp@.quantity,
                ) * vnum(opp@.buy_price) * vnum(fb) + vnum(opp@.quantity) * vnum(opp@.sell_price)
                    * vnum(fs)
                &&& vnum(t@.net_profit) == vnum(t@.gross_profit) - vnum(t@.fees)
                &&& t@.net_profit == settle_net_v(
                    opp@.quantity,
                    opp@.buy_price,
                    opp@.sell_price,
                    fb,
                    fs,
                )
                &&& final(self).spec_trades() =~= old(self).spec_trades().push(t@)
                &&& final(self).spec_last_trade_at() == Some(now)
                &&& vnum(final(self).spec_total_profit()) == vnum(old(self).spec_total_profit())
                    + vnum(t@.net_profit)
                &&& vnum(final(self).spec_daily_loss()) == vnum(old(self).spec_daily_loss()) + (
                if vnum(t@.net_profit) < 0 {
                    -vnum(t@.net_profit)
                } else {
                    0
                })
            },
            r is None ==> final(self).spec_trades() == old(self).spec_trades() && final(self).spec_total_profit() == old(self).spec_total_profit() && final(self).spec_daily_loss()
                == old(self).spec_daily_loss() && final(self).spec_last_trade_at() == old(self).spec_last_trade_at(),
    {
        if buy_result.is_err() && sell_result.is_err() {
            return None;
        }
        let status = if buy_result.is_ok() && sell_result.is_ok() {
            TradeStatus::Filled
        } else {
            TradeStatus::PartialFill
        };
        let settled = self.settle(opp, id, now, status);
        match settled {
            None => None,
            Some(trade) => {
                let out = trade.duplicate();
                if self.try_record(trade, now) {
                    Some(out)
                } else {
                    None
                }
            },
        }
    }

    /// A copy of the trade history.
    pub fn get_trades(&self) -> (r: Vec<TradeResult>)
        ensures
            r@.len() == self.spec_trades().len(),
            forall|i: int| 0 <= i < r@.len() ==> r@[i]@ == self.spec_trades()[i],
    {
        let n = self.trades.len();
        let mut out: Vec<TradeResult> = Vec::new();
        let mut i: usize = 0;
        while i < n
            invariant
                n == self.trades@.len(),
                i <= n,
                out@.len() == i,
                forall|k: int| 0 <= k < i ==> out@[k]@ == self.spec_trades()[k],
            decreases n - i,
        {
            out.push(self.trades[i].duplicate());
            i = i + 1;
        }
        out
    }

    /// The accumulated profit.
    pub fn get_total_profit(&self) -> (r: Decimal)
        ensures
            r@ == self.spec_total_profit(),
    {
        self.total_profit
    }

    /// How many trades were executed.
    pub fn get_trade_count(&self) -> (r: u64)
        requires
            self.wf(),
        ensures
            r == self.spec_trades().len(),
    {
        self.total_trades
    }
}

/// Law: the accumulators agree with the history — the profit total is
/// the sum of the recorded net profits, and the daily loss total is the
/// sum of the magnitudes of the recorded losses.
pub proof fn lemma_profit_accounting(e: &OrderExecutor)
    requires
        e.wf(),
    ensures
        vnum(e.spec_total_profit()) == profit_sum(e.spec_trades(), e.spec_trades().len() as int),
        vnum(e.spec_daily_loss()) == loss_sum(e.spec_trades(), e.spec_trades().len() as int),
{
}

/// Law: consecutive recorded trades are separated by at least the
/// configured cooldown.
pub proof fn lemma_cooldown_gap(e: &OrderExecutor, i: int)
    requires
        e.wf(),
        0 < i < e.spec_trades().len(),
    ensures
        e.spec_trades()[i].executed_at - e.spec_trades()[i - 1].executed_at
            >= e.spec_config().risk.trade_cooldown_ms,
{
}

/// Law: no recorded trade exceeds the position bound, and every trade was
/// booked while the cumulative loss was still below the daily stop.
pub proof fn lemma_risk_limits(e: &OrderExecutor, i: int)
    requires
        e.wf(),
        0 <= i < e.spec_trades().len(),
    ensures
        vnum(e.spec_trades()[i].quantity) <= vnum(e.spec_config().risk.max_position@),
        loss_sum(e.spec_trades(), i) < vnum(e.spec_config().risk.max_daily_loss@),
{
}

/// Chains the exactness facts of the settlement steps into the fee
/// identity of the settlement contract.
proof fn lemma_fee_formula(
    q: DecView,
    b: DecView,
    s: DecView,
    fb0: DecView,
    fs0: DecView,
    fb: DecView,
    t1: DecView,
    leg1: DecView,
    fs: DecView,
    t2: DecView,
    leg2: DecView,
    fees: DecView,
)
    requires
        100 * vnum(fb) == vnum(fb0),
        vnum(t1) * pow10(MAX_SCALE as nat) == vnum(q) * vnum(b),
        vnum(leg1) * pow10(MAX_SCALE as nat) == vnum(t1) * vnum(fb),
        100 * vnum(fs) == vnum(fs0),
        vnum(t2) * pow10(MAX_SCALE as nat) == vnum(q) * vnum(s),
        vnum(leg2) * pow10(MAX_SCALE as nat) == vnum(t2) * vnum(fs),
        vnum(fees) == vnum(leg1) + vnum(leg2),
    ensures
        100 * pow10(MAX_SCALE as nat) * pow10(MAX_SCALE as nat) * vnum(fees) == vnum(q) * vnum(b)
            * vnum(fb0) + vnum(q) * vnum(s) * vnum(fs0),
{
    let p = pow10(MAX_SCALE as nat);
    crate::decimal::lemma_pow10_pos(MAX_SCALE as nat);
    assert(100 * p * (vnum(leg1) * p) == vnum(q) * vnum(b) * vnum(fb0)) by (nonlinear_arith)
        requires
            vnum(leg1) * p == vnum(t1) * vnum(fb),
            vnum(t1) * p == vnum(q) * vnum(b),
            100 * vnum(fb) == vnum(fb0),
    ;
    assert(100 * p * (vnum(leg2) * p) == vnum(q) * vnum(s) * vnum(fs0)) by (nonlinear_arith)
        requires
            vnum(leg2) * p == vnum(t2) * vnum(fs),
            vnum(t2) * p == vnum(q) * vnum(s),
            100 * vnum(fs) == vnum(fs0),
    ;
    assert(100 * p * p * vnum(fees) == 100 * p * (vnum(leg1) * p) + 100 * p * (vnum(leg2) * p))
        by (nonlinear_arith)
        requires
            vnum(fees) == vnum(leg1) + vnum(leg2),
    ;
}

} // verus!
