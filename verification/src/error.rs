//! Per-hop failure reasons.
//!
//! Every failure below the pre-session boundary is contained to a single hop
//! and surfaced as a value of this enum, never as a crash: the session always
//! continues to the next time-to-live.

use vstd::prelude::*;

verus! {

/// Why a single hop failed before a reply could be awaited.
#[derive(Clone, Copy, Debug, PartialEq, Eq, Structural)]
pub enum ErrorKind {
    /// The fixed probe buffer cannot hold a minimal echo-request header.
    BufferTooSmall,
    /// The raw network-layer endpoint could not be created.
    ChannelOpenDenied,
    /// The requested hop limit is outside the valid range for the channel.
    InvalidTtl,
    /// The probe could not be transmitted.
    SendFailed,
}

impl ErrorKind {
    /// A fixed human-readable description of the failure.
    pub fn message(&self) -> (m: &'static str)
        ensures
            *self is BufferTooSmall ==> m@ == "buffer too small"@,
            *self is ChannelOpenDenied ==> m@ == "channel open denied"@,
            *self is InvalidTtl ==> m@ == "invalid ttl"@,
            *self is SendFailed ==> m@ == "send failed"@,
    {
        match self {
            ErrorKind::BufferTooSmall => "buffer too small",
            ErrorKind::ChannelOpenDenied => "channel open denied",
            ErrorKind::InvalidTtl => "invalid ttl",
            ErrorKind::SendFailed => "send failed",
        }
    }
}

} // verus!
