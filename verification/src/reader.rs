//! The network reader: owner of the receive-only half of the transport.
//!
//! It classifies each decoded frame, checks acknowledgment-style frames
//! against the dispatcher's outstanding-request table, and forwards the
//! corresponding reply toward the dispatcher.  Every error it reports is
//! fatal to the current connection: the reader stops, and the supervisor
//! decides what happens next.

use vstd::prelude::*;
use crate::error::NetworkReceiveError;
use crate::packet::Packet;
use crate::queue::ReplyQueue;
use crate::request::Reply;
use crate::table::OutstandingTable;

verus! {

/// The reply a frame is forwarded as; `None` for frames that carry
/// nothing back to a caller (the engine delivers inbound application
/// messages through a separate path owned by the runtime).
pub open spec fn reply_for(packet: Packet) -> Option<Reply> {
    match packet {
        Packet::ConnAck { code } => Some(Reply::ConnAck(code)),
        Packet::PubAck { .. } => Some(Reply::PubAck),
        Packet::SubAck { .. } => Some(Reply::SubAck),
        Packet::PingResp => Some(Reply::PingResp),
        _ => None,
    }
}

/// An acknowledgment whose packet identifier matches nothing in flight: a
/// protocol violation that cannot be reasoned past.
pub open spec fn unsolicited(packet: Packet, table: OutstandingTable) -> bool {
    packet.ack_pkid() matches Some(pkid) && !table.has_pkid(pkid)
}

/// The receive half: nothing but whether this reader instance is still
/// running.
#[derive(Debug)]
pub struct NetworkReader {
    pub running: bool,
}

impl NetworkReader {
    /// A reader for a freshly connected transport.
    pub fn new() -> (r: NetworkReader)
        ensures
            r.running,
    {
        NetworkReader { running: true }
    }

    /// Whether this reader instance is still running.
    pub fn is_running(&self) -> (r: bool)
        ensures
            r == self.running,
    {
        self.running
    }

    /// Handles one decoded frame.
    ///
    /// An acknowledgment with no matching outstanding request surfaces
    /// `Unsolicited` and stops the reader — the connection is torn down
    /// rather than the frame silently dropped.  A frame that maps to a
    /// reply is pushed toward the dispatcher; if the reply queue has no
    /// live receiver the reader surfaces `MpscSend` with the undelivered
    /// reply and stops, since the rest of the pipeline is already gone.
    pub fn process_packet(
        &mut self,
        packet: &Packet,
        table: &OutstandingTable,
        replies: &mut ReplyQueue,
    ) -> (r: Result<(), NetworkReceiveError>)
        requires
            old(self).running,
        ensures
            final(replies).is_closed() == old(replies).is_closed(),
            unsolicited(*packet, *table) ==> (r matches Err(e) && e
                == NetworkReceiveError::Unsolicited
                && !final(self).running
                && final(replies).pending() == old(replies).pending()),
            !unsolicited(*packet, *table) && (reply_for(*packet) is Some) ==> ({
                let reply = reply_for(*packet).unwrap();
                if old(replies).is_closed() {
                    r matches Err(e) && e == NetworkReceiveError::MpscSend(reply)
                        && !final(self).running
                        && final(replies).pending() == old(replies).pending()
                } else {
                    r matches Ok(_) && final(self).running
                        && final(replies).pending() == old(replies).pending().push(reply)
                }
            }),
            !unsolicited(*packet, *table) && reply_for(*packet) is None ==> (r matches Ok(_)
                && final(self).running
                && final(replies).pending() == old(replies).pending()),
    {
        let ack_pkid: Option<u16> = match *packet {
            Packet::PubAck { pkid } => Some(pkid),
            Packet::SubAck { pkid } => Some(pkid),
            Packet::UnsubAck { pkid } => Some(pkid),
            _ => None,
        };
        if let Some(pkid) = ack_pkid {
            if !table.contains(pkid) {
                self.running = false;
                return Err(NetworkReceiveError::Unsolicited);
            }
        }
        let reply: Option<Reply> = match *packet {
            Packet::ConnAck { code } => Some(Reply::ConnAck(code)),
            Packet::PubAck { .. } => Some(Reply::PubAck),
            Packet::SubAck { .. } => Some(Reply::SubAck),
            Packet::PingResp => Some(Reply::PingResp),
            _ => None,
        };
        match reply {
            Some(reply) => match replies.push(reply) {
                Ok(()) => Ok(()),
                Err(undelivered) => {
                    self.running = false;
                    Err(NetworkReceiveError::MpscSend(undelivered))
                },
            },
            None => Ok(()),
        }
    }

    /// Wraps a transport read failure into the receive layer's
    /// vocabulary; the failure is fatal, so the reader stops.
    pub fn transport_failed(&mut self, err: std::io::Error) -> (r: NetworkReceiveError)
        ensures
            r == NetworkReceiveError::Io(err),
            !final(self).running,
    {
        self.running = false;
        NetworkReceiveError::Io(err)
    }
}

} // verus!
