//! Decoded protocol frames, as the session engine sees them.
//!
//! The wire codec is an external collaborator: the engine never touches raw
//! bytes.  A frame is therefore modelled by its kind discriminator together
//! with the fields the engine actually inspects (the connect return code and
//! the packet identifier of acknowledgments), plus a size model for outgoing
//! publish frames that the packet-size limit is enforced against.

use vstd::prelude::*;

verus! {

/// The largest remaining length the protocol's variable-length size field
/// can encode; no frame can be larger than this plus its fixed header.
pub const MAX_REMAINING_LENGTH: usize = 268435455;

/// A decoded protocol frame.  Only the parts the session logic reads are
/// carried: everything else (payloads, topic names of inbound publishes,
/// flags) stays with the external codec.
#[derive(Debug, Clone, Copy, PartialEq, Eq, Structural)]
pub enum Packet {
    Connect,
    ConnAck { code: u8 },
    Publish { pkid: u16 },
    PubAck { pkid: u16 },
    Subscribe { pkid: u16 },
    SubAck { pkid: u16 },
    Unsubscribe { pkid: u16 },
    UnsubAck { pkid: u16 },
    PingReq,
    PingResp,
    Disconnect,
}

impl Packet {
    /// The packet identifier of an acknowledgment that must match an
    /// outstanding request; `None` for every other frame.
    pub open spec fn ack_pkid(self) -> Option<u16> {
        match self {
            Packet::PubAck { pkid } => Some(pkid),
            Packet::SubAck { pkid } => Some(pkid),
            Packet::UnsubAck { pkid } => Some(pkid),
            _ => None,
        }
    }
}

/// How many bytes the variable-length remaining-length field takes for a
/// remaining length of `n`.
pub open spec fn remaining_length_bytes(n: nat) -> nat {
    if n < 128 {
        1
    } else if n < 16384 {
        2
    } else if n < 2097152 {
        3
    } else {
        4
    }
}

/// The remaining length (everything after the fixed header and the length
/// field) of a publish frame: two bytes of topic length, the topic itself,
/// a packet identifier when an acknowledgment is expected, and the payload.
pub open spec fn publish_remaining_length(topic_len: nat, payload_len: nat, with_pkid: bool) -> nat {
    2 + topic_len + (if with_pkid {
        2nat
    } else {
        0nat
    }) + payload_len
}

/// The full encoded size of a publish frame: one fixed-header byte, the
/// remaining-length field, and the remaining length itself.
pub open spec fn publish_encoded_size(topic_len: nat, payload_len: nat, with_pkid: bool) -> nat {
    let rem = publish_remaining_length(topic_len, payload_len, with_pkid);
    1 + remaining_length_bytes(rem) + rem
}

/// Computes the width of the remaining-length field.
pub fn remaining_length_width(n: usize) -> (r: usize)
    ensures
        r == remaining_length_bytes(n as nat),
{
    if n < 128 {
        1
    } else if n < 16384 {
        2
    } else if n < 2097152 {
        3
    } else {
        4
    }
}

} // verus!
