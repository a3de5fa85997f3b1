//! The network writer: owner of the send-only half of the transport.
//!
//! It serializes outgoing requests (through the external codec), enforces
//! the packet-size limit before any byte reaches the transport, and drives
//! the keepalive ping cycle.  `InvalidState` and `PacketSizeLimitExceeded`
//! are local rejections of one request; every other error is fatal and
//! closes the send capability — retrying is the supervisor's business, the
//! writer never retries on its own.

use vstd::prelude::*;
use crate::error::NetworkSendError;
use crate::keepalive::KeepaliveTimer;
use crate::keepalive::MAX_KEEPALIVE_MS;
use crate::packet::MAX_REMAINING_LENGTH;
use crate::packet::publish_encoded_size;
use crate::packet::remaining_length_width;
use crate::request::PublishRequest;
use crate::request::UserRequest;
use crate::supervisor::ConnectionState;

verus! {

/// Whether a publish's encoded frame exceeds the configured maximum.
pub open spec fn publish_too_large(publish: PublishRequest, max: usize) -> bool {
    publish_encoded_size(
        publish.topic@.len(),
        publish.payload@.len(),
        publish.qos.expects_ack(),
    ) > max
}

/// Whether the writer refuses a request for its size: only publish frames
/// carry an application payload, so only they are measured.
pub open spec fn rejected_for_size(request: UserRequest, max: usize) -> bool {
    request matches UserRequest::Publish(publish) && publish_too_large(publish, max)
}

/// Decides, before anything is encoded, whether a publish frame would
/// exceed the maximum packet size.
pub fn publish_over_limit(publish: &PublishRequest, max: usize) -> (r: bool)
    requires
        max <= MAX_REMAINING_LENGTH,
    ensures
        r == publish_too_large(*publish, max),
{
    let topic_len = publish.topic.len();
    let payload_len = publish.payload.len();
    if payload_len > max || topic_len > max {
        true
    } else {
        let pkid_len: usize = match publish.qos {
            crate::request::QoS::AtMostOnce => 0,
            _ => 2,
        };
        let rem = 2 + topic_len + pkid_len + payload_len;
        let width = remaining_length_width(rem);
        1 + width + rem > max
    }
}

/// The send half: the size limit it enforces, whether the capability is
/// still open, how many frames it has handed to the transport, and the
/// keepalive timer it drives.
#[derive(Debug)]
pub struct NetworkWriter {
    pub max_packet_size: usize,
    pub active: bool,
    pub frames_sent: u64,
    pub timer: KeepaliveTimer,
}

impl NetworkWriter {
    /// The limit respects the protocol's own frame-size cap and the timer
    /// is well formed.
    pub open spec fn wf(self) -> bool {
        self.max_packet_size <= MAX_REMAINING_LENGTH && self.timer.wf()
    }

    /// A writer for a freshly connected transport, its keepalive timer
    /// armed at `now`.
    pub fn new(max_packet_size: usize, keepalive_ms: u64, now: u64) -> (w: NetworkWriter)
        requires
            max_packet_size <= MAX_REMAINING_LENGTH,
            1 <= keepalive_ms <= MAX_KEEPALIVE_MS,
        ensures
            w.wf(),
            w.max_packet_size == max_packet_size,
            w.active,
            w.frames_sent == 0,
            w.timer.keepalive_ms == keepalive_ms,
            w.timer.last_activity == now,
            w.timer.ping_sent_at is None,
    {
        NetworkWriter {
            max_packet_size,
            active: true,
            frames_sent: 0,
            timer: KeepaliveTimer::new(keepalive_ms, now),
        }
    }

    /// Accepts one request for transmission.
    ///
    /// The request is rejected with `InvalidState` unless the supervisor's
    /// state is `Connected` and the send capability is still open, and
    /// with `PacketSizeLimitExceeded` if the encoded publish frame would
    /// exceed the maximum — both checked before any byte is written, and
    /// both leaving the writer untouched.  Otherwise the frame counts as
    /// written and the keepalive clock restarts.
    pub fn send(&mut self, state: ConnectionState, request: &UserRequest, now: u64) -> (r: Result<
        (),
        NetworkSendError,
    >)
        requires
            old(self).wf(),
            old(self).frames_sent < u64::MAX,
        ensures
            final(self).wf(),
            final(self).max_packet_size == old(self).max_packet_size,
            state != ConnectionState::Connected || !old(self).active ==> (r matches Err(e)
                && e == NetworkSendError::InvalidState
                && *final(self) == *old(self)),
            state == ConnectionState::Connected && old(self).active
                && rejected_for_size(*request, old(self).max_packet_size) ==> (r matches Err(e)
                && e == NetworkSendError::PacketSizeLimitExceeded
                && *final(self) == *old(self)),
            state == ConnectionState::Connected && old(self).active
                && !rejected_for_size(*request, old(self).max_packet_size) ==> (r matches Ok(_)
                && final(self).active
                && final(self).frames_sent == old(self).frames_sent + 1
                && final(self).timer.last_activity == now
                && final(self).timer.keepalive_ms == old(self).timer.keepalive_ms
                && final(self).timer.ping_sent_at == old(self).timer.ping_sent_at),
    {
        if !matches!(state, ConnectionState::Connected) || !self.active {
            return Err(NetworkSendError::InvalidState);
        }
        if let UserRequest::Publish(publish) = request {
            if publish_over_limit(publish, self.max_packet_size) {
                return Err(NetworkSendError::PacketSizeLimitExceeded);
            }
        }
        self.frames_sent = self.frames_sent + 1;
        self.timer.record_activity(now);
        Ok(())
    }

    /// Drives the keepalive cycle at instant `now`.
    ///
    /// A missed pong deadline is fatal: the writer reports `AwaitPingResp`
    /// and closes its capability, sending nothing further.  Otherwise, if
    /// a full quiet interval has passed, a ping frame is issued
    /// (`Ok(true)`) and its deadline starts running; else nothing happens
    /// (`Ok(false)`).
    pub fn poll_keepalive(&mut self, now: u64) -> (r: Result<bool, NetworkSendError>)
        requires
            old(self).wf(),
            old(self).active,
            old(self).timer.monotonic(now),
            old(self).frames_sent < u64::MAX,
        ensures
            final(self).wf(),
            final(self).max_packet_size == old(self).max_packet_size,
            old(self).timer.pong_overdue(now) ==> (r matches Err(e)
                && e == NetworkSendError::AwaitPingResp
                && !final(self).active
                && final(self).frames_sent == old(self).frames_sent
                && final(self).timer == old(self).timer),
            !old(self).timer.pong_overdue(now) && old(self).timer.ping_due(now) ==> (r matches Ok(sent)
                && sent == true
                && final(self).active
                && final(self).frames_sent == old(self).frames_sent + 1
                && final(self).timer.ping_sent_at == Some(now)
                && final(self).timer.keepalive_ms == old(self).timer.keepalive_ms
                && final(self).timer.last_activity == old(self).timer.last_activity),
            !old(self).timer.pong_overdue(now) && !old(self).timer.ping_due(now) ==> (r matches Ok(sent)
                && sent == false
                && *final(self) == *old(self)),
    {
        if self.timer.is_pong_overdue(now) {
            self.active = false;
            Err(NetworkSendError::AwaitPingResp)
        } else if self.timer.is_ping_due(now) {
            self.frames_sent = self.frames_sent + 1;
            self.timer.record_ping(now);
            Ok(true)
        } else {
            Ok(false)
        }
    }

    /// Records the pong matching the outstanding ping.
    pub fn record_pong(&mut self, now: u64)
        requires
            old(self).wf(),
        ensures
            final(self).wf(),
            final(self).max_packet_size == old(self).max_packet_size,
            final(self).active == old(self).active,
            final(self).frames_sent == old(self).frames_sent,
            final(self).timer.keepalive_ms == old(self).timer.keepalive_ms,
            final(self).timer.ping_sent_at is None,
            final(self).timer.last_activity == now,
    {
        self.timer.record_pong(now);
    }

    /// Wraps a transport write failure into the send layer's vocabulary;
    /// the failure is fatal, so the capability closes.
    pub fn transport_failed(&mut self, err: std::io::Error) -> (r: NetworkSendError)
        ensures
            r == NetworkSendError::Io(err),
            !final(self).active,
            final(self).max_packet_size == old(self).max_packet_size,
            final(self).frames_sent == old(self).frames_sent,
            final(self).timer == old(self).timer,
    {
        self.active = false;
        NetworkSendError::Io(err)
    }

    /// Reports that the ping frame itself could not be sent within its
    /// short bound; fatal, so the capability closes.
    pub fn ping_send_timed_out(&mut self) -> (r: NetworkSendError)
        ensures
            r == NetworkSendError::Timeout,
            !final(self).active,
            final(self).max_packet_size == old(self).max_packet_size,
            final(self).frames_sent == old(self).frames_sent,
            final(self).timer == old(self).timer,
    {
        self.active = false;
        NetworkSendError::Timeout
    }
}

} // verus!
