//! The four layered error taxonomies of the engine, one per component that
//! can detect the condition, plus the coarse top-level `MqttError`.
//!
//! Component-local errors never cross a boundary unconverted: each boundary
//! maps a lower-level failure into its own vocabulary through one of the
//! explicit `From` conversions below.

use vstd::prelude::*;
use crate::packet::Packet;
use crate::queue::RequestPushError;
use crate::request::Reply;
use crate::request::UserRequest;

verus! {

/// Relies on `std::io::Error` from the standard library: transport failures
/// are carried through the engine as opaque values of this type, never
/// inspected, only wrapped into the detecting layer's own error.
#[verifier::external_type_specification]
#[verifier::external_body]
pub struct ExIoError(std::io::Error);

/// Validation errors surfaced synchronously to the caller of a client
/// handle, before any network interaction.
#[derive(Debug)]
pub enum ClientError {
    /// A subscribe was submitted with an empty topic set.
    ZeroSubscriptions,
    /// The encoded size of an outgoing publish exceeds the configured
    /// maximum packet size.
    PacketSizeLimitExceeded,
    /// The client identifier is empty.
    EmptyClientId,
    /// The request could not be handed to the dispatcher queue; the
    /// undelivered request is returned so the caller can retry or inspect
    /// what was lost.
    MpscSend(UserRequest),
}

/// The coarse, top-level classification of a connection-fatal failure,
/// named after the component that detected it.
#[derive(Debug, Clone, Copy, PartialEq, Eq, Structural)]
pub enum MqttError {
    ConnectError,
    NetworkReceiveError,
    NetworkSendError,
}

/// Errors raised while resolving, dialing and performing the connect
/// handshake.
#[derive(Debug)]
pub enum ConnectError {
    /// The broker accepted the transport connection but refused the
    /// protocol session with this reason code.
    MqttConnectionRefused(u8),
    /// A transport-level failure while dialing or talking to a candidate
    /// address.
    Io(std::io::Error),
    /// Address resolution produced an empty candidate list.
    DnsListEmpty,
    /// No connect acknowledgment arrived within the connect timeout.
    Timeout,
    /// The first frame received was not a connect acknowledgment.
    NotConnackPacket(Packet),
    /// The stream closed before any frame arrived.
    NoResponse,
}

/// Errors that end the network reader; all of them are fatal to the current
/// connection.
#[derive(Debug)]
pub enum NetworkReceiveError {
    /// The transport read failed.
    Io(std::io::Error),
    /// An acknowledgment arrived with no matching outstanding request.
    Unsolicited,
    /// The reply channel toward the dispatcher has no live receiver; the
    /// reply that could not be delivered is returned.
    MpscSend(Reply),
}

/// Errors raised by the network writer.  `InvalidState` and
/// `PacketSizeLimitExceeded` are local, recoverable rejections of a single
/// request; the others are fatal to the current connection.
#[derive(Debug)]
pub enum NetworkSendError {
    /// The transport write failed.
    Io(std::io::Error),
    /// The expected ping response never arrived.
    AwaitPingResp,
    /// The client is not in the connected state.
    InvalidState,
    /// The ping frame could not be sent in time.
    Timeout,
    /// The encoded frame exceeds the configured maximum packet size.
    PacketSizeLimitExceeded,
    /// A failure that carries no further information.
    Blah,
}

impl core::convert::From<std::io::Error> for ConnectError {
    /// Wraps a raw transport failure into the connect layer's vocabulary.
    fn from(err: std::io::Error) -> (r: ConnectError) {
        ConnectError::Io(err)
    }
}

impl vstd::std_specs::convert::FromSpecImpl<std::io::Error> for ConnectError {
    open spec fn obeys_from_spec() -> bool {
        true
    }

    open spec fn from_spec(err: std::io::Error) -> ConnectError {
        ConnectError::Io(err)
    }
}

impl core::convert::From<std::io::Error> for NetworkReceiveError {
    /// Wraps a raw transport failure into the receive layer's vocabulary.
    fn from(err: std::io::Error) -> (r: NetworkReceiveError) {
        NetworkReceiveError::Io(err)
    }
}

impl vstd::std_specs::convert::FromSpecImpl<std::io::Error> for NetworkReceiveError {
    open spec fn obeys_from_spec() -> bool {
        true
    }

    open spec fn from_spec(err: std::io::Error) -> NetworkReceiveError {
        NetworkReceiveError::Io(err)
    }
}

impl core::convert::From<std::io::Error> for NetworkSendError {
    /// Wraps a raw transport failure into the send layer's vocabulary.
    fn from(err: std::io::Error) -> (r: NetworkSendError) {
        NetworkSendError::Io(err)
    }
}

impl vstd::std_specs::convert::FromSpecImpl<std::io::Error> for NetworkSendError {
    open spec fn obeys_from_spec() -> bool {
        true
    }

    open spec fn from_spec(err: std::io::Error) -> NetworkSendError {
        NetworkSendError::Io(err)
    }
}

impl core::convert::From<RequestPushError> for ClientError {
    /// A request the dispatcher queue would not take, whether the queue was
    /// full or closed, is reported as a send failure wrapping the original
    /// request.
    fn from(err: RequestPushError) -> (r: ClientError) {
        match err {
            RequestPushError::Full(request) => ClientError::MpscSend(request),
            RequestPushError::Closed(request) => ClientError::MpscSend(request),
        }
    }
}

impl vstd::std_specs::convert::FromSpecImpl<RequestPushError> for ClientError {
    open spec fn obeys_from_spec() -> bool {
        true
    }

    open spec fn from_spec(err: RequestPushError) -> ClientError {
        match err {
            RequestPushError::Full(request) => ClientError::MpscSend(request),
            RequestPushError::Closed(request) => ClientError::MpscSend(request),
        }
    }
}

impl core::convert::From<ConnectError> for MqttError {
    /// Collapses a connect-layer failure into the top-level classification.
    fn from(err: ConnectError) -> (r: MqttError) {
        let _ = err;
        MqttError::ConnectError
    }
}

impl vstd::std_specs::convert::FromSpecImpl<ConnectError> for MqttError {
    open spec fn obeys_from_spec() -> bool {
        true
    }

    open spec fn from_spec(err: ConnectError) -> MqttError {
        MqttError::ConnectError
    }
}

impl core::convert::From<NetworkReceiveError> for MqttError {
    /// Collapses a receive-layer failure into the top-level classification.
    fn from(err: NetworkReceiveError) -> (r: MqttError) {
        let _ = err;
        MqttError::NetworkReceiveError
    }
}

impl vstd::std_specs::convert::FromSpecImpl<NetworkReceiveError> for MqttError {
    open spec fn obeys_from_spec() -> bool {
        true
    }

    open spec fn from_spec(err: NetworkReceiveError) -> MqttError {
        MqttError::NetworkReceiveError
    }
}

impl core::convert::From<NetworkSendError> for MqttError {
    /// Collapses a send-layer failure into the top-level classification.
    fn from(err: NetworkSendError) -> (r: MqttError) {
        let _ = err;
        MqttError::NetworkSendError
    }
}

impl vstd::std_specs::convert::FromSpecImpl<NetworkSendError> for MqttError {
    open spec fn obeys_from_spec() -> bool {
        true
    }

    open spec fn from_spec(err: NetworkSendError) -> MqttError {
        MqttError::NetworkSendError
    }
}

} // verus!
