//! The subscription lifecycle.
//!
//! The subscriber owns a long-lived WebSocket subscription: connect,
//! stream, notice silence, reconnect, exit. The service value holds the
//! configuration (no I/O happens before the loop starts); the decision
//! logic of the loop is here as plain functions — what one poll outcome
//! leads to, and how the lifecycle state moves — while the transport that
//! produces the outcomes lives outside the library.
//!
//! Failure policy: transient conditions (a clean close, an expired
//! deadline) lead back through reconnection; only a failed connection
//! attempt, or an observed halt request, ends the task.

use vstd::prelude::*;

use crate::error::CoreError;
use crate::primitives::Address;
use crate::subscriber::decoder::{decode_log, spec_decode, LogDecode};
use crate::subscriber::model::{Event, RawLog};

verus! {

/// Service for subscribing to the Ethereum events of one token contract.
pub struct SubscriberService {
    /// URL of the node's WebSocket endpoint.
    pub rpc_url: String,
    /// Seconds of silence after which the subscription is torn down and
    /// re-established.
    pub timeout_seconds: u64,
    /// Address of the token contract whose logs are subscribed to.
    pub token_address: Address,
}

impl SubscriberService {
    /// Create a new service. Configuration only: no connection is made.
    pub fn new(rpc_url: String, timeout_seconds: u64, token_address: Address) -> (r: Self)
        ensures
            r.rpc_url == rpc_url,
            r.timeout_seconds == timeout_seconds,
            r.token_address == token_address,
    {
        SubscriberService { rpc_url, timeout_seconds, token_address }
    }
}

/// The lifecycle state of the subscription task.
#[derive(Clone, Copy, Debug, PartialEq, Eq, Structural)]
pub enum SubscriberState {
    /// Establishing a connection and a log subscription.
    Connecting,
    /// Receiving logs from a live stream.
    Streaming,
    /// A live stream went silent or closed; a new subscription is being
    /// attempted.
    Reconnecting,
    /// A halt was requested; the current stream is being run down.
    Draining,
    /// The task is done. Terminal.
    Exited,
}

/// What one step of the subscription task observes.
#[derive(Clone, Copy, Debug, PartialEq, Eq, Structural)]
pub enum SubscriberEvent {
    /// A connection and subscription were established.
    Connected,
    /// A connection attempt failed.
    ConnectFailed,
    /// A log arrived on the stream.
    LogReceived,
    /// The stream terminated with a clean close.
    StreamEnded,
    /// The inactivity deadline expired without a log.
    DeadlineExpired,
    /// The halt flag was observed to be lowered.
    HaltObserved,
}

/// The move the lifecycle makes on one observation.
pub open spec fn spec_transition(s: SubscriberState, e: SubscriberEvent) -> SubscriberState {
    match (s, e) {
        (SubscriberState::Connecting, SubscriberEvent::Connected) => SubscriberState::Streaming,
        (SubscriberState::Connecting, SubscriberEvent::ConnectFailed) => SubscriberState::Exited,
        (SubscriberState::Connecting, SubscriberEvent::HaltObserved) => SubscriberState::Exited,
        (SubscriberState::Connecting, _) => SubscriberState::Connecting,
        (SubscriberState::Streaming, SubscriberEvent::LogReceived) => SubscriberState::Streaming,
        (SubscriberState::Streaming, SubscriberEvent::StreamEnded) => SubscriberState::Reconnecting,
        (SubscriberState::Streaming, SubscriberEvent::DeadlineExpired)
            => SubscriberState::Reconnecting,
        (SubscriberState::Streaming, SubscriberEvent::HaltObserved) => SubscriberState::Draining,
        (SubscriberState::Streaming, _) => SubscriberState::Streaming,
        (SubscriberState::Reconnecting, SubscriberEvent::Connected) => SubscriberState::Streaming,
        (SubscriberState::Reconnecting, SubscriberEvent::ConnectFailed) => SubscriberState::Exited,
        (SubscriberState::Reconnecting, SubscriberEvent::HaltObserved) => SubscriberState::Exited,
        (SubscriberState::Reconnecting, _) => SubscriberState::Connecting,
        (SubscriberState::Draining, SubscriberEvent::LogReceived) => SubscriberState::Draining,
        (SubscriberState::Draining, _) => SubscriberState::Exited,
        (SubscriberState::Exited, _) => SubscriberState::Exited,
    }
}

/// Move the lifecycle state on one observation.
pub fn transition(s: SubscriberState, e: SubscriberEvent) -> (r: SubscriberState)
    ensures
        r == spec_transition(s, e),
{
    match (s, e) {
        (SubscriberState::Connecting, SubscriberEvent::Connected) => SubscriberState::Streaming,
        (SubscriberState::Connecting, SubscriberEvent::ConnectFailed) => SubscriberState::Exited,
        (SubscriberState::Connecting, SubscriberEvent::HaltObserved) => SubscriberState::Exited,
        (SubscriberState::Connecting, _) => SubscriberState::Connecting,
        (SubscriberState::Streaming, SubscriberEvent::LogReceived) => SubscriberState::Streaming,
        (SubscriberState::Streaming, SubscriberEvent::StreamEnded) => SubscriberState::Reconnecting,
        (SubscriberState::Streaming, SubscriberEvent::DeadlineExpired)
            => SubscriberState::Reconnecting,
        (SubscriberState::Streaming, SubscriberEvent::HaltObserved) => SubscriberState::Draining,
        (SubscriberState::Streaming, _) => SubscriberState::Streaming,
        (SubscriberState::Reconnecting, SubscriberEvent::Connected) => SubscriberState::Streaming,
        (SubscriberState::Reconnecting, SubscriberEvent::ConnectFailed) => SubscriberState::Exited,
        (SubscriberState::Reconnecting, SubscriberEvent::HaltObserved) => SubscriberState::Exited,
        (SubscriberState::Reconnecting, _) => SubscriberState::Connecting,
        (SubscriberState::Draining, SubscriberEvent::LogReceived) => SubscriberState::Draining,
        (SubscriberState::Draining, _) => SubscriberState::Exited,
        (SubscriberState::Exited, _) => SubscriberState::Exited,
    }
}

/// `Exited` is terminal: no observation leaves it.
pub proof fn lemma_exited_is_terminal(e: SubscriberEvent)
    ensures
        spec_transition(SubscriberState::Exited, e) == SubscriberState::Exited,
{
}

/// A transient stream condition never ends the task by itself: from a
/// live stream, a clean close or an expired deadline leads to
/// reconnection, not to the exit.
pub proof fn lemma_transients_reconnect()
    ensures
        spec_transition(SubscriberState::Streaming, SubscriberEvent::StreamEnded)
            == SubscriberState::Reconnecting,
        spec_transition(SubscriberState::Streaming, SubscriberEvent::DeadlineExpired)
            == SubscriberState::Reconnecting,
{
}

/// The outcome of awaiting the next log with a deadline.
#[derive(Debug)]
pub enum StreamPoll {
    /// A log arrived in time.
    Log(RawLog),
    /// The stream terminated (clean close).
    Closed,
    /// The deadline expired without activity.
    TimedOut,
}

/// What the subscription loop does with one poll outcome.
#[derive(Debug)]
pub enum SubscriberStep {
    /// Send this decoded event downstream.
    Emit(Event),
    /// Drop the log (it matches no signature of the contract) and poll on.
    Skip,
    /// Record this error and poll on.
    Fault(CoreError),
    /// Tear the subscription down and establish a fresh one.
    Reconnect,
}

/// Decide what one poll outcome leads to: a received log is decoded and
/// either emitted, dropped, or reported as a decode fault; a closed
/// stream and an expired deadline are both liveness failures answered by
/// reconnection.
pub fn handle_stream_event(poll: &StreamPoll) -> (r: SubscriberStep)
    ensures
        match poll {
            StreamPoll::Log(log) => match spec_decode(log.topics.deep_view(), log.data@) {
                LogDecode::Event(ev) => r matches SubscriberStep::Emit(e) && e@ == ev,
                LogDecode::Unknown => r is Skip,
                LogDecode::Malformed => r matches SubscriberStep::Fault(err)
                    && err is DecodeError,
            },
            StreamPoll::Closed => r is Reconnect,
            StreamPoll::TimedOut => r is Reconnect,
        },
{
    match poll {
        StreamPoll::Log(log) => match decode_log(log) {
            Ok(Some(event)) => SubscriberStep::Emit(event),
            Ok(None) => SubscriberStep::Skip,
            Err(err) => SubscriberStep::Fault(err),
        },
        StreamPoll::Closed => SubscriberStep::Reconnect,
        StreamPoll::TimedOut => SubscriberStep::Reconnect,
    }
}

} // verus!
