//! A plain model of a resolved network address.
//!
//! The engine never inspects address internals; it only compares a reply's
//! source against the destination.  An IPv4 address is held as its 32-bit
//! value, an IPv6 address as its 128-bit value, both in network order.

use vstd::prelude::*;

verus! {

/// A resolved network-layer address, IPv4 or IPv6.
#[derive(Clone, Copy, Debug, PartialEq, Eq, Structural)]
pub enum IpAddress {
    V4(u32),
    V6(u128),
}

/// Selects the destination among the addresses a resolver returned.
///
/// The observed policy of the engine favours the last result; this function
/// makes that policy explicit so a caller can override it.  Returns `None`
/// exactly when the resolver returned nothing.
pub fn pick_destination(addrs: &Vec<IpAddress>) -> (r: Option<IpAddress>)
    ensures
        addrs@.len() == 0 ==> r is None,
        addrs@.len() > 0 ==> r == Some(addrs@.last()),
{
    if addrs.len() == 0 {
        None
    } else {
        Some(addrs[addrs.len() - 1])
    }
}

} // verus!
