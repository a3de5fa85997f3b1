//! The connect sequence: candidate address iteration and classification of
//! what came back, or failed to come back, after the Connect frame was
//! sent.
//!
//! Dialing, writing the Connect frame and waiting on the socket are the
//! runtime's work; this module owns every decision.  Transport-level dial
//! failures move the sequence to the next candidate address; once a dial
//! succeeds, the outcome of the handshake wait settles the whole attempt.

use vstd::prelude::*;
use crate::error::ConnectError;
use crate::packet::Packet;

verus! {

/// One resolved broker address.
#[derive(Debug, Clone)]
pub struct BrokerAddress {
    pub host: String,
    pub port: u16,
}

/// What happened while waiting, within the connect timeout, for the first
/// frame after the Connect frame was sent.
#[derive(Debug, Clone, PartialEq, Eq, Structural)]
pub enum HandshakeEvent {
    /// A first frame arrived in time.
    Frame(Packet),
    /// No frame arrived before the connect timeout.
    TimedOut,
    /// The stream closed before any frame arrived.
    StreamClosed,
}

/// How a handshake wait ends: the success return code, or the connect
/// error that classifies the failure.
pub open spec fn handshake_outcome(event: HandshakeEvent) -> Result<u8, ConnectError> {
    match event {
        HandshakeEvent::Frame(packet) => match packet {
            Packet::ConnAck { code } => if code == 0 {
                Ok(code)
            } else {
                Err(ConnectError::MqttConnectionRefused(code))
            },
            other => Err(ConnectError::NotConnackPacket(other)),
        },
        HandshakeEvent::TimedOut => Err(ConnectError::Timeout),
        HandshakeEvent::StreamClosed => Err(ConnectError::NoResponse),
    }
}

/// Classifies the end of a handshake wait.
///
/// A success acknowledgment (code 0) concludes the handshake; a non-zero
/// code means the broker refused the session, which is terminal for the
/// attempt — the connection was established, so no further candidate
/// address is tried.  Any other first frame, a timeout, and a closed
/// stream are the three remaining failure shapes.
pub fn evaluate_handshake(event: HandshakeEvent) -> (r: Result<u8, ConnectError>)
    ensures
        r == handshake_outcome(event),
{
    match event {
        HandshakeEvent::Frame(packet) => match packet {
            Packet::ConnAck { code } => if code == 0 {
                Ok(code)
            } else {
                Err(ConnectError::MqttConnectionRefused(code))
            },
            other => Err(ConnectError::NotConnackPacket(other)),
        },
        HandshakeEvent::TimedOut => Err(ConnectError::Timeout),
        HandshakeEvent::StreamClosed => Err(ConnectError::NoResponse),
    }
}

/// Iterates the resolved candidate addresses in order, one dial attempt
/// each.
#[derive(Debug)]
pub struct ConnectSequence {
    pub addresses: Vec<BrokerAddress>,
    pub current: usize,
}

impl ConnectSequence {
    /// The sequence always points at a candidate.
    pub open spec fn wf(self) -> bool {
        self.current < self.addresses@.len()
    }

    /// Starts a connect attempt over the resolved addresses.  An empty
    /// list fails with `DnsListEmpty` before any dial is attempted;
    /// otherwise the sequence starts at the first candidate.
    pub fn new(addresses: Vec<BrokerAddress>) -> (r: Result<ConnectSequence, ConnectError>)
        ensures
            addresses@.len() == 0 <==> (r matches Err(e) && e == ConnectError::DnsListEmpty),
            addresses@.len() > 0 ==> r matches Ok(_),
            r matches Ok(s) ==> s.wf() && s.addresses@ == addresses@ && s.current == 0,
    {
        if addresses.len() == 0 {
            Err(ConnectError::DnsListEmpty)
        } else {
            Ok(ConnectSequence { addresses, current: 0 })
        }
    }

    /// The candidate to dial next.
    pub fn current_address(&self) -> (r: &BrokerAddress)
        requires
            self.wf(),
        ensures
            r == self.addresses@[self.current as int],
    {
        &self.addresses[self.current]
    }

    /// Records that dialing the current candidate failed at the transport
    /// level.  While candidates remain the sequence moves to the next one
    /// and reports nothing; once every candidate is exhausted, the last
    /// transport error surfaces as the attempt's result.
    pub fn dial_failed(&mut self, err: std::io::Error) -> (r: Option<ConnectError>)
        requires
            old(self).wf(),
        ensures
            final(self).addresses@ == old(self).addresses@,
            old(self).current + 1 < old(self).addresses@.len() ==> (r is None && final(self).wf()
                && final(self).current == old(self).current + 1),
            old(self).current + 1 == old(self).addresses@.len() ==> (r matches Some(e) && e
                == ConnectError::Io(err) && final(self).current == old(self).current),
    {
        if self.current < self.addresses.len() - 1 {
            self.current = self.current + 1;
            None
        } else {
            Some(ConnectError::Io(err))
        }
    }
}

} // verus!
