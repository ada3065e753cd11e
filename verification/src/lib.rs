//! A verified probe-and-classify traceroute engine.
//!
//! The library discovers the routers between a local host and a destination
//! by sending ICMP echo requests with increasing time-to-live values and
//! classifying the control messages that come back.  Probe construction,
//! response classification, per-hop deadline arbitration and the session
//! loop are verified; raw-socket I/O and name resolution live outside the
//! library and drive it through plain events.

pub mod addr;
pub mod error;
pub mod checksum;
pub mod probe;
pub mod listener;
pub mod hop;
pub mod session;
