//! The user-facing client handle and the immutable configuration.
//!
//! The handle validates every request's shape before it can reach the
//! network: an empty client identifier is refused at construction, a
//! subscribe with no topics and an oversized publish are refused at
//! submission — each synchronously, before the dispatcher queue or the
//! transport sees anything.  Validated requests go onto the bounded queue
//! toward the writer, in submission order.

use vstd::prelude::*;
use vstd::string::StringSliceAdditionalSpecFns;
use crate::connect::BrokerAddress;
use crate::error::ClientError;
use crate::keepalive::MAX_KEEPALIVE_MS;
use crate::packet::MAX_REMAINING_LENGTH;
use crate::packet::publish_encoded_size;
use crate::queue::RequestQueue;
use crate::request::ClientId;
use crate::request::PublishRequest;
use crate::request::QoS;
use crate::request::UserRequest;
use crate::writer::publish_over_limit;

verus! {

/// Everything a connection attempt is parameterized by; immutable for the
/// attempt's lifetime.
#[derive(Debug)]
pub struct Configuration {
    pub client_id: ClientId,
    pub addresses: Vec<BrokerAddress>,
    pub keepalive_ms: u64,
    pub max_packet_size: usize,
    pub connect_timeout_ms: u64,
}

impl Configuration {
    /// The identifier is non-empty and the timing and size parameters are
    /// inside the bounds the engine computes with.
    pub open spec fn wf(self) -> bool {
        &&& self.client_id.wf()
        &&& 1 <= self.keepalive_ms <= MAX_KEEPALIVE_MS
        &&& self.max_packet_size <= MAX_REMAINING_LENGTH
    }

    /// Validates and assembles a configuration.  An empty client
    /// identifier is refused with `EmptyClientId` before anything else —
    /// in particular before any address is resolved or dialed.
    pub fn new(
        client_id: &str,
        addresses: Vec<BrokerAddress>,
        keepalive_ms: u64,
        max_packet_size: usize,
        connect_timeout_ms: u64,
    ) -> (r: Result<Configuration, ClientError>)
        requires
            1 <= keepalive_ms <= MAX_KEEPALIVE_MS,
            max_packet_size <= MAX_REMAINING_LENGTH,
        ensures
            client_id.spec_bytes().len() == 0 <==> (r matches Err(e) && e
                == ClientError::EmptyClientId),
            client_id.spec_bytes().len() > 0 ==> r matches Ok(_),
            r matches Ok(c) ==> ({
                &&& c.wf()
                &&& c.client_id.bytes() == client_id.spec_bytes()
                &&& c.addresses@ == addresses@
                &&& c.keepalive_ms == keepalive_ms
                &&& c.max_packet_size == max_packet_size
                &&& c.connect_timeout_ms == connect_timeout_ms
            }),
    {
        let validated = ClientId::new(client_id)?;
        Ok(
            Configuration {
                client_id: validated,
                addresses,
                keepalive_ms,
                max_packet_size,
                connect_timeout_ms,
            },
        )
    }
}

/// The user-facing entry point: validates request shape, then hands the
/// request to the bounded dispatcher queue.
#[derive(Debug)]
pub struct ClientHandle {
    pub config: Configuration,
    pub requests: RequestQueue,
}

impl ClientHandle {
    pub open spec fn wf(self) -> bool {
        self.config.wf() && self.requests.wf()
    }

    /// The requests this handle has queued, oldest first.
    pub open spec fn pending(self) -> Seq<UserRequest> {
        self.requests.pending()
    }

    /// Whether the dispatcher queue would take one more request.
    pub open spec fn accepts_submission(self) -> bool {
        !self.requests.is_closed() && self.requests.pending().len() < self.requests.cap()
    }

    /// A handle over a fresh dispatcher queue of the given capacity.
    pub fn new(config: Configuration, queue_capacity: usize) -> (h: ClientHandle)
        requires
            config.wf(),
            queue_capacity >= 1,
        ensures
            h.wf(),
            h.config == config,
            h.pending() =~= Seq::<UserRequest>::empty(),
            !h.requests.is_closed(),
            h.requests.cap() == queue_capacity,
    {
        ClientHandle { config, requests: RequestQueue::new(queue_capacity) }
    }

    /// Submits a publish.
    ///
    /// If the encoded frame would exceed the configured maximum packet
    /// size the publish is refused with `PacketSizeLimitExceeded` before
    /// it reaches the queue, so the transport observes nothing for it.
    /// Otherwise it is queued behind this handle's earlier requests; a
    /// full or closed queue hands the request back inside `MpscSend`.
    pub fn publish(&mut self, topic: &str, qos: QoS, payload: Vec<u8>) -> (r: Result<
        (),
        ClientError,
    >)
        requires
            old(self).wf(),
        ensures
            final(self).wf(),
            final(self).config == old(self).config,
            final(self).requests.cap() == old(self).requests.cap(),
            final(self).requests.is_closed() == old(self).requests.is_closed(),
            publish_encoded_size(topic.spec_bytes().len(), payload@.len(), qos.expects_ack()) > old(
                self,
            ).config.max_packet_size ==> (r matches Err(e)
                && e == ClientError::PacketSizeLimitExceeded
                && final(self).pending() == old(self).pending()),
            publish_encoded_size(topic.spec_bytes().len(), payload@.len(), qos.expects_ack()) <= old(
                self,
            ).config.max_packet_size && !old(self).accepts_submission() ==> (r matches Err(e)
                && (e matches ClientError::MpscSend(req)
                && req matches UserRequest::Publish(pb)
                && pb.topic@ == topic.spec_bytes()
                && pb.payload@ == payload@
                && pb.qos == qos)
                && final(self).pending() == old(self).pending()),
            publish_encoded_size(topic.spec_bytes().len(), payload@.len(), qos.expects_ack()) <= old(
                self,
            ).config.max_packet_size && old(self).accepts_submission() ==> (r matches Ok(_)
                && final(self).pending().drop_last() == old(self).pending()
                && (final(self).pending().last() matches UserRequest::Publish(pb)
                && pb.topic@ == topic.spec_bytes()
                && pb.payload@ == payload@
                && pb.qos == qos)),
    {
        let topic_bytes: Vec<u8> = vstd::slice::slice_to_vec(topic.as_bytes());
        let publish = PublishRequest { topic: topic_bytes, qos, payload };
        if publish_over_limit(&publish, self.config.max_packet_size) {
            return Err(ClientError::PacketSizeLimitExceeded);
        }
        match self.requests.push(UserRequest::Publish(publish)) {
            Ok(()) => {
                proof {
                    assert(self.pending().drop_last() =~= old(self).pending());
                }
                Ok(())
            },
            Err(refused) => Err(ClientError::from(refused)),
        }
    }

    /// Submits a subscribe.
    ///
    /// An empty topic set is refused with `ZeroSubscriptions` before the
    /// request can reach the dispatcher queue, so no frame is ever
    /// transmitted for it.  A non-empty set is queued; a full or closed
    /// queue hands the request back inside `MpscSend`.
    pub fn subscribe(&mut self, topics: Vec<String>) -> (r: Result<(), ClientError>)
        requires
            old(self).wf(),
        ensures
            final(self).wf(),
            final(self).config == old(self).config,
            final(self).requests.cap() == old(self).requests.cap(),
            final(self).requests.is_closed() == old(self).requests.is_closed(),
            topics@.len() == 0 ==> (r matches Err(e) && e == ClientError::ZeroSubscriptions
                && final(self).pending() == old(self).pending()),
            topics@.len() > 0 && !old(self).accepts_submission() ==> (r matches Err(e)
                && (e matches ClientError::MpscSend(req)
                && req matches UserRequest::Subscribe(ts)
                && ts@ == topics@)
                && final(self).pending() == old(self).pending()),
            topics@.len() > 0 && old(self).accepts_submission() ==> (r matches Ok(_)
                && final(self).pending().drop_last() == old(self).pending()
                && (final(self).pending().last() matches UserRequest::Subscribe(ts)
                && ts@ == topics@)),
    {
        if topics.len() == 0 {
            return Err(ClientError::ZeroSubscriptions);
        }
        match self.requests.push(UserRequest::Subscribe(topics)) {
            Ok(()) => {
                proof {
                    assert(self.pending().drop_last() =~= old(self).pending());
                }
                Ok(())
            },
            Err(refused) => Err(ClientError::from(refused)),
        }
    }

    /// Submits an unsubscribe for the given topics.
    pub fn unsubscribe(&mut self, topics: Vec<String>) -> (r: Result<(), ClientError>)
        requires
            old(self).wf(),
        ensures
            final(self).wf(),
            final(self).config == old(self).config,
            final(self).requests.cap() == old(self).requests.cap(),
            final(self).requests.is_closed() == old(self).requests.is_closed(),
            !old(self).accepts_submission() ==> (r matches Err(e)
                && (e matches ClientError::MpscSend(req)
                && req matches UserRequest::Unsubscribe(ts)
                && ts@ == topics@)
                && final(self).pending() == old(self).pending()),
            old(self).accepts_submission() ==> (r matches Ok(_)
                && final(self).pending().drop_last() == old(self).pending()
                && (final(self).pending().last() matches UserRequest::Unsubscribe(ts)
                && ts@ == topics@)),
    {
        match self.requests.push(UserRequest::Unsubscribe(topics)) {
            Ok(()) => {
                proof {
                    assert(self.pending().drop_last() =~= old(self).pending());
                }
                Ok(())
            },
            Err(refused) => Err(ClientError::from(refused)),
        }
    }

    /// Submits a connect request toward the supervisor.
    pub fn connect(&mut self) -> (r: Result<(), ClientError>)
        requires
            old(self).wf(),
        ensures
            final(self).wf(),
            final(self).config == old(self).config,
            final(self).requests.cap() == old(self).requests.cap(),
            final(self).requests.is_closed() == old(self).requests.is_closed(),
            !old(self).accepts_submission() ==> (r matches Err(e)
                && e == ClientError::MpscSend(UserRequest::Connect)
                && final(self).pending() == old(self).pending()),
            old(self).accepts_submission() ==> (r matches Ok(_)
                && final(self).pending() == old(self).pending().push(UserRequest::Connect)),
    {
        match self.requests.push(UserRequest::Connect) {
            Ok(()) => Ok(()),
            Err(refused) => Err(ClientError::from(refused)),
        }
    }

    /// Submits a liveness ping.
    pub fn ping(&mut self) -> (r: Result<(), ClientError>)
        requires
            old(self).wf(),
        ensures
            final(self).wf(),
            final(self).config == old(self).config,
            final(self).requests.cap() == old(self).requests.cap(),
            final(self).requests.is_closed() == old(self).requests.is_closed(),
            !old(self).accepts_submission() ==> (r matches Err(e)
                && e == ClientError::MpscSend(UserRequest::Ping)
                && final(self).pending() == old(self).pending()),
            old(self).accepts_submission() ==> (r matches Ok(_)
                && final(self).pending() == old(self).pending().push(UserRequest::Ping)),
    {
        match self.requests.push(UserRequest::Ping) {
            Ok(()) => Ok(()),
            Err(refused) => Err(ClientError::from(refused)),
        }
    }

    /// Submits a disconnect.
    pub fn disconnect(&mut self) -> (r: Result<(), ClientError>)
        requires
            old(self).wf(),
        ensures
            final(self).wf(),
            final(self).config == old(self).config,
            final(self).requests.cap() == old(self).requests.cap(),
            final(self).requests.is_closed() == old(self).requests.is_closed(),
            !old(self).accepts_submission() ==> (r matches Err(e)
                && e == ClientError::MpscSend(UserRequest::Disconnect)
                && final(self).pending() == old(self).pending()),
            old(self).accepts_submission() ==> (r matches Ok(_)
                && final(self).pending() == old(self).pending().push(UserRequest::Disconnect)),
    {
        match self.requests.push(UserRequest::Disconnect) {
            Ok(()) => Ok(()),
            Err(refused) => Err(ClientError::from(refused)),
        }
    }
}

} // verus!
