//! The per-subscription connection state machine.
//!
//! Streaming failures never surface to callers: any socket error, close
//! or write failure drops the subscription into a fixed one-second
//! backoff and then reconnects, forever.  The heartbeat task runs only
//! while frames are being received and is cancelled on every transition
//! out of that phase.

use vstd::prelude::*;
use crate::types::Exchange;
use crate::bybit::BYBIT_HEARTBEAT_MS;
use crate::bitget::BITGET_HEARTBEAT_MS;

verus! {

/// The fixed floor slept before reconnecting, in milliseconds.
pub const BACKOFF_MS: u64 = 1_000;

/// Where a subscription stands.
#[derive(Debug, Clone, Copy, PartialEq, Eq, Structural)]
pub enum ConnPhase {
    Disconnected,
    Connecting,
    Subscribing,
    Receiving,
    Backoff,
}

/// What the runtime observed.
#[derive(Debug, Clone, Copy, PartialEq, Eq, Structural)]
pub enum ConnEvent {
    /// The subscription was started or restarted.
    Connect,
    /// The socket opened.
    ConnectOk,
    /// The socket could not be opened.
    ConnectFailed,
    /// The subscribe frame was written.
    SubscribeSent,
    /// Writing the subscribe frame failed.
    SubscribeWriteFailed,
    /// A data frame arrived.
    FrameReceived,
    /// The heartbeat cadence elapsed.
    HeartbeatDue,
    /// The socket errored or closed.
    SocketLost,
    /// The backoff sleep finished.
    BackoffElapsed,
}

/// What the runtime must do next.
#[derive(Debug, Clone, Copy, PartialEq, Eq, Structural)]
pub enum ConnAction {
    /// Nothing.
    Stay,
    /// Open the socket.
    OpenSocket,
    /// Write the subscribe frame.
    SendSubscribe,
    /// Spawn the heartbeat task.
    StartHeartbeat,
    /// Write a liveness frame.
    SendHeartbeat,
    /// Cancel the heartbeat task and sleep for [`BACKOFF_MS`].
    CancelHeartbeatAndSleep,
    /// Sleep for [`BACKOFF_MS`].
    Sleep,
}

/// The subscription transition table: every socket failure funnels into
/// the backoff phase, and the backoff always reconnects.
pub open spec fn conn_step_spec(phase: ConnPhase, event: ConnEvent) -> (ConnPhase, ConnAction) {
    match (phase, event) {
        (ConnPhase::Disconnected, ConnEvent::Connect) => (ConnPhase::Connecting, ConnAction::OpenSocket),
        (ConnPhase::Connecting, ConnEvent::ConnectOk) => (ConnPhase::Subscribing, ConnAction::SendSubscribe),
        (ConnPhase::Connecting, ConnEvent::ConnectFailed) => (ConnPhase::Backoff, ConnAction::Sleep),
        (ConnPhase::Subscribing, ConnEvent::SubscribeSent) => (ConnPhase::Receiving, ConnAction::StartHeartbeat),
        (ConnPhase::Subscribing, ConnEvent::SubscribeWriteFailed) => (ConnPhase::Backoff, ConnAction::Sleep),
        (ConnPhase::Receiving, ConnEvent::FrameReceived) => (ConnPhase::Receiving, ConnAction::Stay),
        (ConnPhase::Receiving, ConnEvent::HeartbeatDue) => (ConnPhase::Receiving, ConnAction::SendHeartbeat),
        (ConnPhase::Receiving, ConnEvent::SocketLost) => (ConnPhase::Backoff, ConnAction::CancelHeartbeatAndSleep),
        (ConnPhase::Subscribing, ConnEvent::SocketLost) => (ConnPhase::Backoff, ConnAction::Sleep),
        (ConnPhase::Connecting, ConnEvent::SocketLost) => (ConnPhase::Backoff, ConnAction::Sleep),
        (ConnPhase::Backoff, ConnEvent::BackoffElapsed) => (ConnPhase::Connecting, ConnAction::OpenSocket),
        (p, _) => (p, ConnAction::Stay),
    }
}

/// One step of the reconnect state machine.
pub fn conn_step(phase: ConnPhase, event: ConnEvent) -> (r: (ConnPhase, ConnAction))
    ensures
        r == conn_step_spec(phase, event),
        phase is Receiving && event is SocketLost ==> r.0 is Backoff && r.1
            is CancelHeartbeatAndSleep,
        phase is Backoff && event is BackoffElapsed ==> r.0 is Connecting && r.1 is OpenSocket,
{
    match (phase, event) {
        (ConnPhase::Disconnected, ConnEvent::Connect) => (
            ConnPhase::Connecting,
            ConnAction::OpenSocket,
        ),
        (ConnPhase::Connecting, ConnEvent::ConnectOk) => (
            ConnPhase::Subscribing,
            ConnAction::SendSubscribe,
        ),
        (ConnPhase::Connecting, ConnEvent::ConnectFailed) => (ConnPhase::Backoff, ConnAction::Sleep),
        (ConnPhase::Subscribing, ConnEvent::SubscribeSent) => (
            ConnPhase::Receiving,
            ConnAction::StartHeartbeat,
        ),
        (ConnPhase::Subscribing, ConnEvent::SubscribeWriteFailed) => (
            ConnPhase::Backoff,
            ConnAction::Sleep,
        ),
        (ConnPhase::Receiving, ConnEvent::FrameReceived) => (ConnPhase::Receiving, ConnAction::Stay),
        (ConnPhase::Receiving, ConnEvent::HeartbeatDue) => (
            ConnPhase::Receiving,
            ConnAction::SendHeartbeat,
        ),
        (ConnPhase::Receiving, ConnEvent::SocketLost) => (
            ConnPhase::Backoff,
            ConnAction::CancelHeartbeatAndSleep,
        ),
        (ConnPhase::Subscribing, ConnEvent::SocketLost) => (ConnPhase::Backoff, ConnAction::Sleep),
        (ConnPhase::Connecting, ConnEvent::SocketLost) => (ConnPhase::Backoff, ConnAction::Sleep),
        (ConnPhase::Backoff, ConnEvent::BackoffElapsed) => (
            ConnPhase::Connecting,
            ConnAction::OpenSocket,
        ),
        (p, _) => (p, ConnAction::Stay),
    }
}

/// The venue-specific heartbeat cadence, in milliseconds.
pub fn heartbeat_interval_ms(exchange: Exchange) -> (r: u64)
    ensures
        exchange is Bybit ==> r == BYBIT_HEARTBEAT_MS,
        exchange is Bitget ==> r == BITGET_HEARTBEAT_MS,
{
    match exchange {
        Exchange::Bybit => BYBIT_HEARTBEAT_MS,
        Exchange::Bitget => BITGET_HEARTBEAT_MS,
    }
}

/// Whether a liveness frame is owed.
pub fn heartbeat_due(exchange: Exchange, elapsed_ms: u64) -> (r: bool)
    ensures
        exchange is Bybit ==> r == (elapsed_ms >= BYBIT_HEARTBEAT_MS),
        exchange is Bitget ==> r == (elapsed_ms >= BITGET_HEARTBEAT_MS),
{
    elapsed_ms >= heartbeat_interval_ms(exchange)
}

/// Law: from any connected phase, a lost socket is answered within one
/// backoff sleep by a fresh connection attempt.
pub proof fn lemma_reconnect_after_loss(phase: ConnPhase)
    ensures
        ({
            let (p1, _) = conn_step_spec(phase, ConnEvent::SocketLost);
            let (p2, a2) = conn_step_spec(p1, ConnEvent::BackoffElapsed);
            phase is Receiving || phase is Subscribing || phase is Connecting ==> p1 is Backoff
                && p2 is Connecting && a2 is OpenSocket
        }),
{
}

} // verus!
