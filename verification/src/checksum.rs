//! The ICMP checksum, computed by `pnet_packet` and named here.
//!
//! The checksum is the one's-complement sum of the packet's 16-bit words with
//! the checksum word itself regarded as zero.  The library does not restate
//! that algorithm: it gives the result a name, `icmp_checksum_of`, applied to
//! the packet bytes with the checksum word zeroed, and proves everything else
//! against that name.  Because the name is a function of the bytes alone,
//! recomputing the checksum over a finished packet — whose only difference
//! from the buffer the checksum was taken over is the checksum word itself —
//! provably yields the stored value again.

use vstd::prelude::*;

verus! {

/// The largest buffer a checksum is taken over: an ICMP datagram cannot
/// exceed the 65535-byte total-length bound of the IP packet that carries
/// it.  The bound also keeps the checksum's 32-bit word sum, which grows
/// with the buffer, far from overflowing.
pub const MAX_DATAGRAM_LEN: usize = 65535;

/// The checksum that `pnet_packet::icmp::checksum` computes over `data`.
///
/// Deterministic in `data`: the same bytes give the same checksum on every
/// call and every machine.
pub uninterp spec fn icmp_checksum_of(data: Seq<u8>) -> u16;

/// `data` with its checksum word (bytes 2 and 3) set to zero: the bytes the
/// checksum is effectively computed over, whatever that word currently holds.
pub open spec fn with_zero_checksum(data: Seq<u8>) -> Seq<u8> {
    data.update(2, 0u8).update(3, 0u8)
}

/// Relies on `pnet_packet::icmp::checksum` (reached through
/// `IcmpPacket::new`, which yields `Some` for any buffer of at least the
/// four-byte ICMP header): it computes the RFC 1071 checksum over the whole
/// buffer with the two bytes of word 1 — the checksum field — skipped, that
/// is, regarded as zero; a pure function of the buffer's bytes.  The upper
/// length bound keeps the computation's running 32-bit word sum within
/// range: a buffer at the bound contributes at most 32768 words of 0xffff,
/// well under what the accumulator holds.
#[verifier::external_body]
pub(crate) fn compute_checksum(data: &Vec<u8>) -> (c: u16)
    requires
        data@.len() >= 8,
        data@.len() <= MAX_DATAGRAM_LEN,
    ensures
        c == icmp_checksum_of(with_zero_checksum(data@)),
{
    match pnet_packet::icmp::IcmpPacket::new(data.as_slice()) {
        Some(packet) => pnet_packet::icmp::checksum(&packet),
        None => 0,
    }
}

} // verus!
