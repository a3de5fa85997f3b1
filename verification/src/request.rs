//! User-facing request and reply values, and the validated client identifier.
//!
//! A `UserRequest` travels from a client handle through the dispatcher queue
//! to the network writer; a `Reply` travels from the network reader back
//! toward the awaiting caller.  Topics and payloads are carried as their
//! UTF-8 bytes, which is what the size model and the wire codec both count.

use vstd::prelude::*;
use vstd::string::StringSliceAdditionalSpecFns;
use crate::error::ClientError;

verus! {

/// Delivery guarantee requested for a publish.
#[derive(Debug, Clone, Copy, PartialEq, Eq, Structural)]
pub enum QoS {
    AtMostOnce,
    AtLeastOnce,
    ExactlyOnce,
}

impl QoS {
    /// Whether a publish at this level carries a packet identifier and
    /// awaits an acknowledgment.
    pub open spec fn expects_ack(self) -> bool {
        self != QoS::AtMostOnce
    }
}

/// An outgoing publish: topic and payload as UTF-8 bytes plus the requested
/// delivery level.
#[derive(Debug, Clone)]
pub struct PublishRequest {
    pub topic: Vec<u8>,
    pub qos: QoS,
    pub payload: Vec<u8>,
}

/// A request submitted by a client handle.
#[derive(Debug, Clone)]
pub enum UserRequest {
    Connect,
    Publish(PublishRequest),
    Subscribe(Vec<String>),
    Unsubscribe(Vec<String>),
    Disconnect,
    Ping,
}

/// A result produced by the network reader or the supervisor and delivered
/// toward the dispatcher and the awaiting client handles.
#[derive(Debug, Clone)]
pub enum Reply {
    ConnAck(u8),
    PubAck,
    SubAck,
    PingResp,
    NetworkError(crate::error::MqttError),
    Disconnected,
}

/// A non-empty client identifier, validated once at construction and
/// immutable thereafter.
#[derive(Debug, Clone)]
pub struct ClientId {
    pub id: Vec<u8>,
}

impl ClientId {
    /// The identifier's UTF-8 bytes.
    pub open spec fn bytes(self) -> Seq<u8> {
        self.id@
    }

    /// A client identifier is well formed exactly when it is non-empty.
    pub open spec fn wf(self) -> bool {
        self.bytes().len() > 0
    }

    /// Validates an identifier: the empty string is rejected with
    /// `EmptyClientId` before any other work, anything else is accepted
    /// unchanged.
    pub fn new(id: &str) -> (r: Result<ClientId, ClientError>)
        ensures
            id.spec_bytes().len() == 0 <==> (r matches Err(e) && e == ClientError::EmptyClientId),
            id.spec_bytes().len() > 0 ==> (r matches Ok(c) && c.wf() && c.bytes()
                == id.spec_bytes()),
    {
        let bytes_slice: &[u8] = id.as_bytes();
        if bytes_slice.len() == 0 {
            Err(ClientError::EmptyClientId)
        } else {
            let id_bytes: Vec<u8> = vstd::slice::slice_to_vec(bytes_slice);
            Ok(ClientId { id: id_bytes })
        }
    }

    /// The identifier's length in bytes.
    pub fn len(&self) -> (r: usize)
        ensures
            r == self.bytes().len(),
    {
        self.id.len()
    }
}

} // verus!
