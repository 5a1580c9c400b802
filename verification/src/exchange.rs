//! The venue-facing error taxonomy.
//!
//! Streaming failures are recovered by reconnecting and never surface;
//! these errors are what REST calls hand back to the executor.

use vstd::prelude::*;
use crate::decimal::{Decimal, can_add, vnum};
use crate::types::{Exchange, ExchangeBalance};

verus! {

/// Keeps a balance row only when it holds anything: the total is the
/// exact sum of free and locked, and rows whose sum is not positive (or
/// not exactly representable) are dropped, as the balance endpoints do.
pub fn balance_from_parts(exchange: Exchange, asset: String, free: Decimal, locked: Decimal) -> (r:
    Option<ExchangeBalance>)
    requires
        free.wf(),
        locked.wf(),
    ensures
        r is Some <==> (can_add(free@, locked@) && vnum(free@) + vnum(locked@) > 0),
        r matches Some(b) ==> {
            &&& b.exchange == exchange
            &&& b.asset@ == asset@
            &&& b.free == free
            &&& b.locked == locked
            &&& b.total.wf()
            &&& vnum(b.total@) == vnum(free@) + vnum(locked@)
        },
{
    match free.checked_add(&locked) {
        Some(total) => {
            if total.is_positive() {
                Some(ExchangeBalance { exchange, asset, free, locked, total })
            } else {
                None
            }
        },
        None => None,
    }
}

/// Errors surfaced by venue REST calls.
#[derive(Debug, Clone)]
pub enum ExchangeError {
    Connection(String),
    Authentication(String),
    Api(String),
    RateLimit,
    InvalidPair(String),
    InsufficientBalance { needed: Decimal, available: Decimal },
    OrderFailed(String),
    Parse(String),
    WebSocket(String),
}

impl ExchangeError {
    /// A short label naming the kind of failure.
    pub fn describe(&self) -> (r: &'static str)
        ensures
            self is Connection ==> r@ == "connection error"@,
            self is Authentication ==> r@ == "authentication error"@,
            self is Api ==> r@ == "api error"@,
            self is RateLimit ==> r@ == "rate limit exceeded"@,
            self is InvalidPair ==> r@ == "invalid pair"@,
            self is InsufficientBalance ==> r@ == "insufficient balance"@,
            self is OrderFailed ==> r@ == "order failed"@,
            self is Parse ==> r@ == "parse error"@,
            self is WebSocket ==> r@ == "websocket error"@,
    {
        match self {
            ExchangeError::Connection(_) => "connection error",
            ExchangeError::Authentication(_) => "authentication error",
            ExchangeError::Api(_) => "api error",
            ExchangeError::RateLimit => "rate limit exceeded",
            ExchangeError::InvalidPair(_) => "invalid pair",
            ExchangeError::InsufficientBalance { .. } => "insufficient balance",
            ExchangeError::OrderFailed(_) => "order failed",
            ExchangeError::Parse(_) => "parse error",
            ExchangeError::WebSocket(_) => "websocket error",
        }
    }
}

} // verus!
