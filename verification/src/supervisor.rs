//! The connection supervisor: a state machine over the four connection
//! states that owns every state transition.
//!
//! Reader and writer only consult the state; they report failures as
//! events, and the supervisor alone decides the next state and which
//! pipeline action to take.  The transition function is total: every
//! (state, event) pair has exactly one successor.

use vstd::prelude::*;
use crate::connect::HandshakeEvent;
use crate::connect::handshake_outcome;
use crate::error::ConnectError;
use crate::keepalive::KeepaliveTimer;

verus! {

/// The per-client connection state, owned exclusively by the supervisor.
#[derive(Debug, Clone, Copy, PartialEq, Eq, Structural)]
pub enum ConnectionState {
    Disconnected,
    Connecting,
    Connected,
    Reconnecting,
}

/// An event the supervisor reacts to: a user asking to connect or
/// disconnect, the outcome of a connect handshake, or a fatal signal from
/// the reader or writer.
#[derive(Debug, Clone, Copy, PartialEq, Eq, Structural)]
pub enum SupervisorEvent {
    ConnectRequested,
    HandshakeSucceeded,
    HandshakeFailed,
    FatalNetworkError,
    DisconnectRequested,
}

/// What the surrounding runtime must do after a transition.
#[derive(Debug, Clone, Copy, PartialEq, Eq, Structural)]
pub enum SupervisorAction {
    /// Begin the connect sequence against the address list.
    StartHandshake,
    /// Split the transport and start the reader and writer, arming the
    /// keepalive timer.
    StartPipeline,
    /// Stop both halves, then run the connect sequence again.
    StopAndReconnect,
    /// Stop both halves and stay down.
    StopPipeline,
    /// Nothing to do.
    Idle,
}

/// The successor state for every (state, event) pair.
pub open spec fn next_state(s: ConnectionState, e: SupervisorEvent) -> ConnectionState {
    match (s, e) {
        (ConnectionState::Disconnected, SupervisorEvent::ConnectRequested) => ConnectionState::Connecting,
        (ConnectionState::Connecting, SupervisorEvent::HandshakeSucceeded) => ConnectionState::Connected,
        (ConnectionState::Connecting, SupervisorEvent::HandshakeFailed) => ConnectionState::Disconnected,
        (ConnectionState::Connected, SupervisorEvent::FatalNetworkError) => ConnectionState::Reconnecting,
        (ConnectionState::Reconnecting, SupervisorEvent::HandshakeSucceeded) => ConnectionState::Connected,
        (_, SupervisorEvent::DisconnectRequested) => ConnectionState::Disconnected,
        (s, _) => s,
    }
}

/// The action accompanying every (state, event) pair.
pub open spec fn next_action(s: ConnectionState, e: SupervisorEvent) -> SupervisorAction {
    match (s, e) {
        (ConnectionState::Disconnected, SupervisorEvent::ConnectRequested) => SupervisorAction::StartHandshake,
        (ConnectionState::Connecting, SupervisorEvent::HandshakeSucceeded) => SupervisorAction::StartPipeline,
        (ConnectionState::Connected, SupervisorEvent::FatalNetworkError) => SupervisorAction::StopAndReconnect,
        (ConnectionState::Reconnecting, SupervisorEvent::HandshakeSucceeded) => SupervisorAction::StartPipeline,
        (ConnectionState::Reconnecting, SupervisorEvent::HandshakeFailed) => SupervisorAction::StartHandshake,
        (ConnectionState::Connected, SupervisorEvent::DisconnectRequested) => SupervisorAction::StopPipeline,
        (_, _) => SupervisorAction::Idle,
    }
}

/// The supervisor itself: nothing but the state it owns.
#[derive(Debug)]
pub struct Supervisor {
    pub state: ConnectionState,
}

impl Supervisor {
    /// A fresh supervisor starts disconnected.
    pub fn new() -> (s: Supervisor)
        ensures
            s.state == ConnectionState::Disconnected,
    {
        Supervisor { state: ConnectionState::Disconnected }
    }

    /// The state other components may consult but never mutate.
    pub fn state(&self) -> (r: ConnectionState)
        ensures
            r == self.state,
    {
        self.state
    }

    /// Applies one event: the state moves along `next_state` and the
    /// accompanying `next_action` is handed back to the runtime.
    pub fn step(&mut self, event: SupervisorEvent) -> (action: SupervisorAction)
        ensures
            final(self).state == next_state(old(self).state, event),
            action == next_action(old(self).state, event),
    {
        let current = self.state;
        let action = match (current, event) {
            (ConnectionState::Disconnected, SupervisorEvent::ConnectRequested) => SupervisorAction::StartHandshake,
            (ConnectionState::Connecting, SupervisorEvent::HandshakeSucceeded) => SupervisorAction::StartPipeline,
            (ConnectionState::Connected, SupervisorEvent::FatalNetworkError) => SupervisorAction::StopAndReconnect,
            (ConnectionState::Reconnecting, SupervisorEvent::HandshakeSucceeded) => SupervisorAction::StartPipeline,
            (ConnectionState::Reconnecting, SupervisorEvent::HandshakeFailed) => SupervisorAction::StartHandshake,
            (ConnectionState::Connected, SupervisorEvent::DisconnectRequested) => SupervisorAction::StopPipeline,
            (_, _) => SupervisorAction::Idle,
        };
        self.state = match (current, event) {
            (ConnectionState::Disconnected, SupervisorEvent::ConnectRequested) => ConnectionState::Connecting,
            (ConnectionState::Connecting, SupervisorEvent::HandshakeSucceeded) => ConnectionState::Connected,
            (ConnectionState::Connecting, SupervisorEvent::HandshakeFailed) => ConnectionState::Disconnected,
            (ConnectionState::Connected, SupervisorEvent::FatalNetworkError) => ConnectionState::Reconnecting,
            (ConnectionState::Reconnecting, SupervisorEvent::HandshakeSucceeded) => ConnectionState::Connected,
            (_, SupervisorEvent::DisconnectRequested) => ConnectionState::Disconnected,
            (s, _) => s,
        };
        action
    }
}

/// If no connect acknowledgment arrives within the connect timeout, the
/// handshake fails with `Timeout`, and the supervisor falls back from
/// `Connecting` to `Disconnected` — never to `Connected`.
pub proof fn law_connect_timeout_stays_disconnected()
    ensures
        handshake_outcome(HandshakeEvent::TimedOut) == Err::<u8, ConnectError>(
            ConnectError::Timeout,
        ),
        next_state(ConnectionState::Connecting, SupervisorEvent::HandshakeFailed)
            == ConnectionState::Disconnected,
        next_state(ConnectionState::Connecting, SupervisorEvent::HandshakeFailed)
            != ConnectionState::Connected,
{
}

/// A missed pong is fatal exactly once per cycle: while connected, the
/// fatal signal moves the supervisor to `Reconnecting` and stops the
/// pipeline for a reconnect; a repeated fatal signal in `Reconnecting`
/// neither changes the state nor triggers a second reconnect.
pub proof fn law_missed_pong_reconnects_once(timer: KeepaliveTimer, now: u64)
    requires
        timer.wf(),
        timer.pong_overdue(now),
    ensures
        timer.ping_sent_at matches Some(sent) && now >= timer.pong_deadline(sent),
        next_state(ConnectionState::Connected, SupervisorEvent::FatalNetworkError)
            == ConnectionState::Reconnecting,
        next_action(ConnectionState::Connected, SupervisorEvent::FatalNetworkError)
            == SupervisorAction::StopAndReconnect,
        next_state(ConnectionState::Reconnecting, SupervisorEvent::FatalNetworkError)
            == ConnectionState::Reconnecting,
        next_action(ConnectionState::Reconnecting, SupervisorEvent::FatalNetworkError)
            == SupervisorAction::Idle,
{
}

} // verus!
