//! The packet filter: which captured packets are handed on, given the
//! capture options.

use vstd::prelude::*;

use crate::net::IpAddress;
use crate::options::PacketCaptureOptions;

verus! {

broadcast use vstd::std_specs::hash::group_hash_axioms;

/// The sender and target protocol addresses of an ARP header (IPv4, each the
/// integer of its octets in network order).
#[derive(Clone, Copy, Debug, PartialEq, Eq, Structural)]
pub struct ArpAddresses {
    pub sender: u32,
    pub target: u32,
}

/// The fields of an IPv4 header that the filter reads.
#[derive(Clone, Copy, Debug, PartialEq, Eq, Structural)]
pub struct Ipv4Fields {
    pub source: u32,
    pub destination: u32,
    /// Next level protocol number.
    pub protocol: u8,
}

/// The fields of an IPv6 header that the filter reads.
#[derive(Clone, Copy, Debug, PartialEq, Eq, Structural)]
pub struct Ipv6Fields {
    pub source: u128,
    pub destination: u128,
    /// Next header protocol number.
    pub protocol: u8,
}

/// Source and destination ports of a TCP or UDP header.
#[derive(Clone, Copy, Debug, PartialEq, Eq, Structural)]
pub struct Ports {
    pub source: u16,
    pub destination: u16,
}

/// The headers found in a captured frame, as far as the filter reads them:
/// each is present when the frame held that header.
#[derive(Clone, Copy, Debug, PartialEq, Eq, Structural)]
pub struct PacketHeaders {
    /// EtherType code of the Ethernet header.
    pub ether_type: Option<u16>,
    pub arp: Option<ArpAddresses>,
    pub ipv4: Option<Ipv4Fields>,
    pub ipv6: Option<Ipv6Fields>,
    pub tcp: Option<Ports>,
    pub udp: Option<Ports>,
}

impl PacketCaptureOptions {
    /// A packet from `src` to `dst` passes the address filter.
    pub open spec fn accepts_hosts(&self, src: IpAddress, dst: IpAddress) -> bool {
        ||| (self.src_ips().is_empty() && self.dst_ips().is_empty())
        ||| self.src_ips().contains(src)
        ||| self.dst_ips().contains(dst)
    }

    /// A packet from port `src` to port `dst` passes the port filter.
    pub open spec fn accepts_ports(&self, src: u16, dst: u16) -> bool {
        ||| (self.src_ports@.is_empty() && self.dst_ports@.is_empty())
        ||| self.src_ports@.contains(src)
        ||| self.dst_ports@.contains(dst)
    }

    /// A frame of ether type `t` passes the ether type filter.
    pub open spec fn accepts_ether_type(&self, t: u16) -> bool {
        self.ether_types@.is_empty() || self.ether_types@.contains(t)
    }

    /// A packet of IP protocol `p` passes the protocol filter.
    pub open spec fn accepts_ip_protocol(&self, p: u8) -> bool {
        self.ip_protocols@.is_empty() || self.ip_protocols@.contains(p)
    }

    /// A frame with headers `h` passes every filter that applies to a header it holds.
    pub open spec fn accepts(&self, h: PacketHeaders) -> bool {
        &&& (h.ether_type matches Some(t) ==> self.accepts_ether_type(t))
        &&& (h.arp matches Some(a) ==> self.accepts_hosts(
            IpAddress::V4(a.sender),
            IpAddress::V4(a.target),
        ))
        &&& (h.ipv4 matches Some(ip) ==> {
            &&& self.accepts_hosts(IpAddress::V4(ip.source), IpAddress::V4(ip.destination))
            &&& self.accepts_ip_protocol(ip.protocol)
        })
        &&& (h.ipv6 matches Some(ip) ==> {
            &&& self.accepts_hosts(IpAddress::V6(ip.source), IpAddress::V6(ip.destination))
            &&& self.accepts_ip_protocol(ip.protocol)
        })
        &&& (h.tcp matches Some(p) ==> self.accepts_ports(p.source, p.destination))
        &&& (h.udp matches Some(p) ==> self.accepts_ports(p.source, p.destination))
    }
}

/// Whether `ip` is in the pair of sets that holds addresses of its family.
fn ip_in(
    ip: IpAddress,
    v4: &std::collections::HashSet<u32>,
    v6: &std::collections::HashSet<u128>,
) -> (found: bool)
    ensures
        found == crate::options::ip_set(v4@, v6@).contains(ip),
{
    match ip {
        IpAddress::V4(x) => v4.contains(&x),
        IpAddress::V6(x) => v6.contains(&x),
    }
}

/// Address filter: passes when no address is set, or when the source is a
/// listed source or the destination a listed destination.
pub fn filter_host(src_ip: IpAddress, dst_ip: IpAddress, capture_options: &PacketCaptureOptions) -> (pass: bool)
    ensures
        pass == capture_options.accepts_hosts(src_ip, dst_ip),
{
    let o = capture_options;
    if o.src_ipv4s.is_empty() && o.src_ipv6s.is_empty() && o.dst_ipv4s.is_empty()
        && o.dst_ipv6s.is_empty() {
        proof {
            assert(o.src_ips() =~= Set::empty());
            assert(o.dst_ips() =~= Set::empty());
        }
        return true;
    }
    proof {
        if o.src_ips().is_empty() && o.dst_ips().is_empty() {
            if !o.src_ipv4s@.is_empty() {
                let x = o.src_ipv4s@.choose();
                assert(o.src_ips().contains(IpAddress::V4(x)));
            } else if !o.src_ipv6s@.is_empty() {
                let x = o.src_ipv6s@.choose();
                assert(o.src_ips().contains(IpAddress::V6(x)));
            } else if !o.dst_ipv4s@.is_empty() {
                let x = o.dst_ipv4s@.choose();
                assert(o.dst_ips().contains(IpAddress::V4(x)));
            } else {
                let x = o.dst_ipv6s@.choose();
                assert(o.dst_ips().contains(IpAddress::V6(x)));
            }
        }
    }
    if ip_in(src_ip, &o.src_ipv4s, &o.src_ipv6s) || ip_in(dst_ip, &o.dst_ipv4s, &o.dst_ipv6s) {
        true
    } else {
        false
    }
}

/// Port filter: passes when no port is set, or when the source port is a
/// listed source port or the destination port a listed destination port.
pub fn filter_port(src_port: u16, dst_port: u16, capture_options: &PacketCaptureOptions) -> (pass: bool)
    ensures
        pass == capture_options.accepts_ports(src_port, dst_port),
{
    let o = capture_options;
    if o.src_ports.is_empty() && o.dst_ports.is_empty() {
        return true;
    }
    if o.src_ports.contains(&src_port) || o.dst_ports.contains(&dst_port) {
        true
    } else {
        false
    }
}

/// Ether type filter: passes when no ether type is set or `ether_type` is listed.
pub fn filter_ether_type(ether_type: u16, capture_options: &PacketCaptureOptions) -> (pass: bool)
    ensures
        pass == capture_options.accepts_ether_type(ether_type),
{
    capture_options.ether_types.is_empty() || capture_options.ether_types.contains(&ether_type)
}

/// IP protocol filter: passes when no protocol is set or `protocol` is listed.
pub fn filter_ip_protocol(protocol: u8, capture_options: &PacketCaptureOptions) -> (pass: bool)
    ensures
        pass == capture_options.accepts_ip_protocol(protocol),
{
    capture_options.ip_protocols.is_empty() || capture_options.ip_protocols.contains(&protocol)
}

/// Whether a frame with headers `headers` passes every filter of `capture_options`.
pub fn filter_packet(headers: &PacketHeaders, capture_options: &PacketCaptureOptions) -> (pass: bool)
    ensures
        pass == capture_options.accepts(*headers),
{
    if let Some(t) = headers.ether_type {
        if !filter_ether_type(t, capture_options) {
            return false;
        }
    }
    if let Some(arp) = headers.arp {
        if !filter_host(IpAddress::V4(arp.sender), IpAddress::V4(arp.target), capture_options) {
            return false;
        }
    }
    if let Some(ip) = headers.ipv4 {
        if !filter_host(IpAddress::V4(ip.source), IpAddress::V4(ip.destination), capture_options) {
            return false;
        }
        if !filter_ip_protocol(ip.protocol, capture_options) {
            return false;
        }
    }
    if let Some(ip) = headers.ipv6 {
        if !filter_host(IpAddress::V6(ip.source), IpAddress::V6(ip.destination), capture_options) {
            return false;
        }
        if !filter_ip_protocol(ip.protocol, capture_options) {
            return false;
        }
    }
    if let Some(p) = headers.tcp {
        if !filter_port(p.source, p.destination, capture_options) {
            return false;
        }
    }
    if let Some(p) = headers.udp {
        if !filter_port(p.source, p.destination, capture_options) {
            return false;
        }
    }
    true
}

/// With no filter set, every frame is handed on, whatever headers it holds.
pub proof fn lemma_no_filter_passes_all(o: &PacketCaptureOptions, h: PacketHeaders)
    requires
        o.filters_nothing(),
    ensures
        o.accepts(h),
{
}

/// Once an ether type is set, an Ethernet frame of an unlisted type is dropped.
pub proof fn lemma_unlisted_ether_type_dropped(o: &PacketCaptureOptions, h: PacketHeaders, t: u16)
    requires
        !o.ether_types@.is_empty(),
        h.ether_type == Some(t),
        !o.ether_types@.contains(t),
    ensures
        !o.accepts(h),
{
}

/// Once an IP protocol is set, an IPv4 or IPv6 packet of an unlisted protocol
/// is dropped.
pub proof fn lemma_unlisted_protocol_dropped(o: &PacketCaptureOptions, h: PacketHeaders, p: u8)
    requires
        !o.ip_protocols@.is_empty(),
        !o.ip_protocols@.contains(p),
        (h.ipv4 matches Some(ip) && ip.protocol == p) || (h.ipv6 matches Some(ip) && ip.protocol == p),
    ensures
        !o.accepts(h),
{
}

/// Once an address is set, an IP packet is dropped when neither its source is a
/// listed source nor its destination a listed destination.
pub proof fn lemma_unlisted_hosts_dropped(o: &PacketCaptureOptions, h: PacketHeaders, src: IpAddress, dst: IpAddress)
    requires
        !(o.src_ips().is_empty() && o.dst_ips().is_empty()),
        !o.src_ips().contains(src),
        !o.dst_ips().contains(dst),
        (h.ipv4 matches Some(ip) && src == IpAddress::V4(ip.source) && dst == IpAddress::V4(ip.destination))
            || (h.ipv6 matches Some(ip) && src == IpAddress::V6(ip.source) && dst == IpAddress::V6(ip.destination))
            || (h.arp matches Some(a) && src == IpAddress::V4(a.sender) && dst == IpAddress::V4(a.target)),
    ensures
        !o.accepts(h),
{
}

/// Once a port is set, a TCP or UDP segment is dropped when neither its source
/// port is a listed source port nor its destination port a listed destination port.
pub proof fn lemma_unlisted_ports_dropped(o: &PacketCaptureOptions, h: PacketHeaders, p: Ports)
    requires
        !(o.src_ports@.is_empty() && o.dst_ports@.is_empty()),
        !o.src_ports@.contains(p.source),
        !o.dst_ports@.contains(p.destination),
        h.tcp == Some(p) || h.udp == Some(p),
    ensures
        !o.accepts(h),
{
}

/// A frame that holds none of the headers that the filters read is handed
/// on whatever the options.
pub proof fn lemma_headerless_frame_passes(o: &PacketCaptureOptions, h: PacketHeaders)
    requires
        h.ether_type is None,
        h.arp is None,
        h.ipv4 is None,
        h.ipv6 is None,
        h.tcp is None,
        h.udp is None,
    ensures
        o.accepts(h),
{
}

} // verus!
