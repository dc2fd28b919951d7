//! Plain-value models of the network addresses that the capture filters read.

use vstd::prelude::*;

verus! {

/// A MAC address, one octet per field.
#[derive(Clone, Copy, Debug, PartialEq, Eq, PartialOrd, Ord, Hash, Structural)]
pub struct MacAddr(pub u8, pub u8, pub u8, pub u8, pub u8, pub u8);

/// An IP address: an IPv4 address as the 32-bit integer of its octets in
/// network order, or an IPv6 address as the 128-bit integer of its octets in
/// network order.
#[derive(Clone, Copy, Debug, PartialEq, Eq, PartialOrd, Ord, Hash, Structural)]
pub enum IpAddress {
    V4(u32),
    V6(u128),
}

} // verus!
