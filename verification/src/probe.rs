//! Probe construction: a fixed-size ICMP echo-request datagram.
//!
//! A probe is immutable once built.  Its checksum is computed exactly once,
//! over the fully populated header and payload, and stored back into the
//! header; the layout predicate pins every byte of the buffer, so a probe is
//! a pure function of its inputs.

use vstd::prelude::*;
use crate::checksum::{compute_checksum, icmp_checksum_of, with_zero_checksum, MAX_DATAGRAM_LEN};
use crate::error::ErrorKind;

verus! {

/// Size of the buffer every probe is built in: header plus zero payload.
pub const PROBE_BUFFER_LEN: usize = 64;

/// Size of a minimal ICMP echo-request header.
pub const ECHO_HEADER_LEN: usize = 8;

/// ICMP message type of an echo request.
pub const ECHO_REQUEST_TYPE: u8 = 8;

/// High byte of a 16-bit value in network (big-endian) order.
pub open spec fn be_hi(x: u16) -> u8 {
    (x / 256) as u8
}

/// Low byte of a 16-bit value in network (big-endian) order.
pub open spec fn be_lo(x: u16) -> u8 {
    (x % 256) as u8
}

/// Every byte of an echo-request buffer: type, code zero, checksum,
/// identifier and sequence number in network order, then a zero payload.
pub open spec fn echo_request_layout(b: Seq<u8>, identifier: u16, sequence: u16, csum: u16) -> bool {
    &&& b.len() >= ECHO_HEADER_LEN
    &&& b[0] == ECHO_REQUEST_TYPE
    &&& b[1] == 0u8
    &&& b[2] == be_hi(csum)
    &&& b[3] == be_lo(csum)
    &&& b[4] == be_hi(identifier)
    &&& b[5] == be_lo(identifier)
    &&& b[6] == be_hi(sequence)
    &&& b[7] == be_lo(sequence)
    &&& forall|i: int| ECHO_HEADER_LEN <= i < b.len() ==> b[i] == 0u8
}

/// An ICMP echo-request probe for one hop, immutable once built.
pub struct Probe {
    /// The hop limit this probe is sent with: at least 1.
    pub ttl: u8,
    /// Echo identifier stored in the header.
    pub identifier: u16,
    /// Echo sequence number stored in the header.
    pub sequence: u16,
    /// The checksum stored in the header, computed over the whole buffer.
    pub checksum: u16,
    /// The complete datagram: header followed by payload.
    pub bytes: Vec<u8>,
}

impl Probe {
    /// The buffer holds exactly the echo request these fields describe, fits
    /// an IP packet, and the stored checksum is the one computed over the
    /// buffer itself.
    pub open spec fn wf(self) -> bool {
        &&& 1 <= self.ttl
        &&& self.bytes@.len() <= MAX_DATAGRAM_LEN
        &&& echo_request_layout(self.bytes@, self.identifier, self.sequence, self.checksum)
        &&& self.checksum == icmp_checksum_of(with_zero_checksum(self.bytes@))
    }

    /// Recomputes the checksum over the emitted bytes of a finished probe.
    ///
    /// The result equals the stored checksum: the only bytes that changed
    /// after the checksum was taken are the checksum word itself, which the
    /// computation regards as zero.
    pub fn recompute_checksum(&self) -> (c: u16)
        requires
            self.wf(),
        ensures
            c == self.checksum,
    {
        compute_checksum(&self.bytes)
    }
}

/// Builds an echo-request probe in a zeroed buffer of `buffer_len` bytes.
///
/// Fails with `BufferTooSmall` exactly when the buffer cannot hold a minimal
/// echo-request header; otherwise the result is a well-formed probe whose
/// buffer is pinned byte for byte by its inputs.  The buffer cannot exceed
/// what one IP packet carries.
pub fn build_probe(ttl: u8, identifier: u16, sequence: u16, buffer_len: usize) -> (r: Result<
    Probe,
    ErrorKind,
>)
    requires
        1 <= ttl,
        buffer_len <= MAX_DATAGRAM_LEN,
    ensures
        buffer_len < ECHO_HEADER_LEN ==> (r matches Err(e) && e is BufferTooSmall),
        buffer_len >= ECHO_HEADER_LEN ==> (r matches Ok(p) && p.wf() && p.ttl == ttl
            && p.identifier == identifier && p.sequence == sequence && p.bytes@.len()
            == buffer_len),
{
    if buffer_len < ECHO_HEADER_LEN {
        return Err(ErrorKind::BufferTooSmall);
    }
    let mut bytes: Vec<u8> = Vec::new();
    let mut i: usize = 0;
    while i < buffer_len
        invariant
            i <= buffer_len,
            bytes@.len() == i,
            forall|j: int| 0 <= j < i ==> bytes@[j] == 0u8,
        decreases buffer_len - i,
    {
        bytes.push(0u8);
        i += 1;
    }
    bytes.set(0, ECHO_REQUEST_TYPE);
    bytes.set(4, (identifier / 256) as u8);
    bytes.set(5, (identifier % 256) as u8);
    bytes.set(6, (sequence / 256) as u8);
    bytes.set(7, (sequence % 256) as u8);
    let ghost filled = bytes@;
    let checksum = compute_checksum(&bytes);
    bytes.set(2, (checksum / 256) as u8);
    bytes.set(3, (checksum % 256) as u8);
    proof {
        assert(with_zero_checksum(bytes@) =~= with_zero_checksum(filled));
    }
    Ok(Probe { ttl, identifier, sequence, checksum, bytes })
}

/// Probes are a pure function of their inputs: two well-formed probes built
/// over buffers of the same length from the same identifier and sequence
/// number carry the same checksum and the same bytes, whenever they were
/// built.
pub proof fn lemma_probe_deterministic(p: Probe, q: Probe)
    requires
        p.wf(),
        q.wf(),
        p.identifier == q.identifier,
        p.sequence == q.sequence,
        p.bytes@.len() == q.bytes@.len(),
    ensures
        p.checksum == q.checksum,
        p.bytes@ == q.bytes@,
{
    assert(with_zero_checksum(p.bytes@) =~= with_zero_checksum(q.bytes@));
    assert(p.checksum == q.checksum);
    assert(p.bytes@ =~= q.bytes@);
}

} // verus!
