//! Classification of inbound ICMP datagrams.
//!
//! Each message pulled from the channel is classified by its ICMP type
//! alone: time-exceeded and echo-reply messages decide the hop, anything
//! else is surfaced as `Other` so the caller can keep waiting.  Matching by
//! type alone, without sequence or identifier correlation, mirrors minimal
//! traceroute semantics; a stray reply of the right type can therefore be
//! attributed to the current hop — a known limitation of the design, not
//! silently corrected here.

use vstd::prelude::*;

verus! {

/// ICMP message type of an echo reply.
pub const ECHO_REPLY_TYPE: u8 = 0;

/// ICMP message type of a time-exceeded message.
pub const TIME_EXCEEDED_TYPE: u8 = 11;

/// What an inbound ICMP message means to the hop in progress.
#[derive(Clone, Copy, Debug, PartialEq, Eq, Structural)]
pub enum IcmpClass {
    /// A router on the path discarded the probe: an intermediate hop.
    TimeExceeded,
    /// The destination answered the echo request.
    EchoReply,
    /// Any other ICMP traffic; the caller keeps waiting.
    Other,
}

/// The class an ICMP type byte falls in.
pub open spec fn classify_spec(icmp_type: u8) -> IcmpClass {
    if icmp_type == TIME_EXCEEDED_TYPE {
        IcmpClass::TimeExceeded
    } else if icmp_type == ECHO_REPLY_TYPE {
        IcmpClass::EchoReply
    } else {
        IcmpClass::Other
    }
}

/// Classifies an ICMP message by its type byte.
pub fn classify_icmp_type(icmp_type: u8) -> (c: IcmpClass)
    ensures
        c == classify_spec(icmp_type),
{
    if icmp_type == TIME_EXCEEDED_TYPE {
        IcmpClass::TimeExceeded
    } else if icmp_type == ECHO_REPLY_TYPE {
        IcmpClass::EchoReply
    } else {
        IcmpClass::Other
    }
}

/// Relies on `pnet_packet::icmp::IcmpPacket::new` and `get_icmp_type`: for a
/// buffer of at least the four-byte ICMP header, `new` yields `Some`, and the
/// message type is read from the first byte of the buffer.
#[verifier::external_body]
pub(crate) fn read_icmp_type(data: &Vec<u8>) -> (t: u8)
    requires
        data@.len() >= 4,
    ensures
        t == data@[0],
{
    match pnet_packet::icmp::IcmpPacket::new(data.as_slice()) {
        Some(packet) => packet.get_icmp_type().0,
        None => 0,
    }
}

/// Classifies a raw inbound ICMP datagram of at least a minimal header.
pub fn classify_message(data: &Vec<u8>) -> (c: IcmpClass)
    requires
        data@.len() >= 4,
    ensures
        c == classify_spec(data@[0]),
{
    let icmp_type = read_icmp_type(data);
    classify_icmp_type(icmp_type)
}

} // verus!
