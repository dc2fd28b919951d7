//! Packet capture options: which interface to read, which packets to keep,
//! and how long to read.

use vstd::prelude::*;

use std::collections::HashSet;

use crate::net::IpAddress;
use crate::time::TimeSpan;

verus! {

broadcast use vstd::std_specs::hash::group_hash_axioms;

/// Packet capture options.
///
/// IP addresses are kept per family, each keyed by the integer of its
/// octets in network order; an address filter holds the union of its two sets.
/// Ether types are kept by their 16-bit code and IP protocols by their 8-bit
/// protocol number.
pub struct PacketCaptureOptions {
    /// Interface index
    pub interface_index: u32,
    /// Interface name
    pub interface_name: String,
    /// Source IPv4 addresses to filter.
    pub src_ipv4s: HashSet<u32>,
    /// Source IPv6 addresses to filter.
    pub src_ipv6s: HashSet<u128>,
    /// Destination IPv4 addresses to filter.
    pub dst_ipv4s: HashSet<u32>,
    /// Destination IPv6 addresses to filter.
    pub dst_ipv6s: HashSet<u128>,
    /// Source ports to filter. If empty, all source ports will be captured
    pub src_ports: HashSet<u16>,
    /// Destination ports to filter. If empty, all destination ports will be captured
    pub dst_ports: HashSet<u16>,
    /// Ether types to filter. If empty, all ether types will be captured
    pub ether_types: HashSet<u16>,
    /// IP protocols to filter. If empty, all IP protocols will be captured
    pub ip_protocols: HashSet<u8>,
    /// Capture duration limit
    pub capture_timeout: TimeSpan,
    /// Read Timeout for read next packet (Linux, BPF only)
    pub read_timeout: TimeSpan,
    /// Capture in promiscuous mode
    pub promiscuous: bool,
    /// Receive undefined packets
    pub receive_undefined: bool,
    /// Use TUN interface
    pub tunnel: bool,
    /// Loopback interface
    pub loopback: bool,
}

/// The addresses of either family held by an IPv4 set and an IPv6 set.
pub open spec fn ip_set(v4: Set<u32>, v6: Set<u128>) -> Set<IpAddress> {
    Set::new(
        |a: IpAddress|
            match a {
                IpAddress::V4(x) => v4.contains(x),
                IpAddress::V6(x) => v6.contains(x),
            },
    )
}

impl PacketCaptureOptions {
    /// Source IP addresses to filter. If empty, all source IP addresses will be captured
    pub open spec fn src_ips(&self) -> Set<IpAddress> {
        ip_set(self.src_ipv4s@, self.src_ipv6s@)
    }

    /// Destination IP addresses to filter. If empty, all destination IP addresses will be captured
    pub open spec fn dst_ips(&self) -> Set<IpAddress> {
        ip_set(self.dst_ipv4s@, self.dst_ipv6s@)
    }

    /// No filter of any kind is set.
    pub open spec fn filters_nothing(&self) -> bool {
        &&& self.src_ips().is_empty()
        &&& self.dst_ips().is_empty()
        &&& self.src_ports@.is_empty()
        &&& self.dst_ports@.is_empty()
        &&& self.ether_types@.is_empty()
        &&& self.ip_protocols@.is_empty()
    }

    /// The settings that every constructor gives: no filters, no capture
    /// limit, a read timeout of 200 ms, not promiscuous, undefined packets
    /// received.
    pub open spec fn has_default_settings(&self) -> bool {
        &&& self.filters_nothing()
        &&& self.capture_timeout == TimeSpan { secs: u64::MAX, nanos: 999_999_999 }
        &&& self.read_timeout == TimeSpan { secs: 0, nanos: 200_000_000 }
        &&& !self.promiscuous
        &&& self.receive_undefined
    }
}

/// What the capture reads of a network interface.
pub struct InterfaceInfo {
    /// Index of network interface
    pub index: u32,
    /// Name of network interface
    pub name: String,
    /// Whether it is a TUN interface
    pub is_tun: bool,
    /// Whether it is a loopback interface
    pub is_loopback: bool,
}

/// Calls `xenet::net::interface::get_interfaces` and reads index, name,
/// `is_tun()` and `is_loopback()` of each interface, in the order returned.
/// Nothing is claimed of the result: it is the machine's interface list.
#[verifier::external_body]
fn system_interfaces() -> (interfaces: Vec<InterfaceInfo>) {
    let all = xenet::net::interface::get_interfaces();
    all.iter().map(|i| InterfaceInfo { index: i.index, name: i.name.clone(), is_tun: i.is_tun(), is_loopback: i.is_loopback() }).collect()
}

/// Calls `default_net::get_default_interface` and reads index, name,
/// `is_tun()` and `is_loopback()` of the interface it finds; its error
/// message is passed on. Nothing is claimed of the result: it depends on the
/// machine.
#[verifier::external_body]
fn default_interface() -> (found: Result<InterfaceInfo, String>) {
    let i = default_net::get_default_interface()?;
    Ok(InterfaceInfo { index: i.index, name: i.name.clone(), is_tun: i.is_tun(), is_loopback: i.is_loopback() })
}

/// The position of the first interface of `interfaces` with index `index`.
pub fn find_interface_by_index(interfaces: &Vec<InterfaceInfo>, index: u32) -> (found: Option<usize>)
    ensures
        match found {
            Some(i) => {
                &&& i < interfaces.len()
                &&& interfaces[i as int].index == index
                &&& forall|j: int| 0 <= j < i ==> #[trigger] interfaces[j].index != index
            },
            None => forall|j: int| 0 <= j < interfaces.len() ==> #[trigger] interfaces[j].index != index,
        },
{
    let mut i: usize = 0;
    while i < interfaces.len()
        invariant
            i <= interfaces.len(),
            forall|j: int| 0 <= j < i ==> #[trigger] interfaces[j].index != index,
        decreases interfaces.len() - i,
    {
        if interfaces[i].index == index {
            return Some(i);
        }
        i += 1;
    }
    None
}

/// The position of the first interface of `interfaces` named `name`.
pub fn find_interface_by_name(interfaces: &Vec<InterfaceInfo>, name: &String) -> (found: Option<usize>)
    ensures
        match found {
            Some(i) => {
                &&& i < interfaces.len()
                &&& interfaces[i as int].name@ == name@
                &&& forall|j: int| 0 <= j < i ==> #[trigger] interfaces[j].name@ != name@
            },
            None => forall|j: int| 0 <= j < interfaces.len() ==> #[trigger] interfaces[j].name@ != name@,
        },
{
    let mut i: usize = 0;
    while i < interfaces.len()
        invariant
            i <= interfaces.len(),
            forall|j: int| 0 <= j < i ==> #[trigger] interfaces[j].name@ != name@,
        decreases interfaces.len() - i,
    {
        if interfaces[i].name == *name {
            return Some(i);
        }
        i += 1;
    }
    None
}

impl PacketCaptureOptions {
    /// Options for capturing on the given interface, with the default settings.
    pub fn for_interface(interface_index: u32, interface_name: String, tunnel: bool, loopback: bool) -> (options: PacketCaptureOptions)
        ensures
            options.has_default_settings(),
            options.interface_index == interface_index,
            options.interface_name@ == interface_name@,
            options.tunnel == tunnel,
            options.loopback == loopback,
    {
        let options = PacketCaptureOptions {
            interface_index,
            interface_name,
            src_ipv4s: HashSet::new(),
            src_ipv6s: HashSet::new(),
            dst_ipv4s: HashSet::new(),
            dst_ipv6s: HashSet::new(),
            src_ports: HashSet::new(),
            dst_ports: HashSet::new(),
            ether_types: HashSet::new(),
            ip_protocols: HashSet::new(),
            capture_timeout: TimeSpan::max_span(),
            read_timeout: TimeSpan::from_millis(200),
            promiscuous: false,
            receive_undefined: true,
            tunnel,
            loopback,
        };
        proof {
            assert(options.src_ips() =~= Set::empty());
            assert(options.dst_ips() =~= Set::empty());
        }
        options
    }

    /// Options for the machine's default interface, with the default
    /// settings; the error of the interface lookup is passed on.
    pub fn default() -> (options: Result<PacketCaptureOptions, String>)
        ensures
            options matches Ok(o) ==> o.has_default_settings(),
    {
        PacketCaptureOptions::from_default_lookup(default_interface())
    }

    /// Options for the interface that a default-interface lookup found, with
    /// the default settings; the lookup's error is passed on unchanged.
    pub fn from_default_lookup(found: Result<InterfaceInfo, String>) -> (options: Result<PacketCaptureOptions, String>)
        ensures
            match found {
                Ok(iface) => options matches Ok(o) && {
                    &&& o.has_default_settings()
                    &&& o.interface_index == iface.index
                    &&& o.interface_name@ == iface.name@
                    &&& o.tunnel == iface.is_tun
                    &&& o.loopback == iface.is_loopback
                },
                Err(e) => options matches Err(e2) && e2@ == e@,
            },
    {
        match found {
            Ok(iface) => Ok(PacketCaptureOptions::for_interface(iface.index, iface.name, iface.is_tun, iface.is_loopback)),
            Err(e) => Err(e),
        }
    }

    /// Options for the interface with index `if_index`, with the default
    /// settings; `None` when the machine has no such interface.
    pub fn from_interface_index(if_index: u32) -> (options: Option<PacketCaptureOptions>)
        ensures
            options matches Some(o) ==> o.has_default_settings() && o.interface_index == if_index,
    {
        let interfaces = system_interfaces();
        PacketCaptureOptions::from_interface_index_in(&interfaces, if_index)
    }

    /// Options for the first interface of `interfaces` with index `if_index`,
    /// with the default settings; `None` when there is none.
    pub fn from_interface_index_in(interfaces: &Vec<InterfaceInfo>, if_index: u32) -> (options: Option<PacketCaptureOptions>)
        ensures
            match options {
                Some(o) => exists|i: int| {
                    &&& 0 <= i < interfaces.len()
                    &&& #[trigger] interfaces[i].index == if_index
                    &&& (forall|j: int| 0 <= j < i ==> #[trigger] interfaces[j].index != if_index)
                    &&& o.has_default_settings()
                    &&& o.interface_index == if_index
                    &&& o.interface_name@ == interfaces[i].name@
                    &&& o.tunnel == interfaces[i].is_tun
                    &&& o.loopback == interfaces[i].is_loopback
                },
                None => forall|j: int| 0 <= j < interfaces.len() ==> #[trigger] interfaces[j].index != if_index,
            },
    {
        match find_interface_by_index(interfaces, if_index) {
            Some(i) => {
                let iface = &interfaces[i];
                Some(PacketCaptureOptions::for_interface(if_index, iface.name.clone(), iface.is_tun, iface.is_loopback))
            },
            None => None,
        }
    }

    /// Options for the interface named `if_name`, with the default settings;
    /// `None` when the machine has no such interface.
    pub fn from_interface_name(if_name: String) -> (options: Option<PacketCaptureOptions>)
        ensures
            options matches Some(o) ==> o.has_default_settings() && o.interface_name@ == if_name@,
    {
        let interfaces = system_interfaces();
        PacketCaptureOptions::from_interface_name_in(&interfaces, &if_name)
    }

    /// Options for the first interface of `interfaces` named `if_name`, with
    /// the default settings; `None` when there is none.
    pub fn from_interface_name_in(interfaces: &Vec<InterfaceInfo>, if_name: &String) -> (options: Option<PacketCaptureOptions>)
        ensures
            match options {
                Some(o) => exists|i: int| {
                    &&& 0 <= i < interfaces.len()
                    &&& #[trigger] interfaces[i].name@ == if_name@
                    &&& (forall|j: int| 0 <= j < i ==> #[trigger] interfaces[j].name@ != if_name@)
                    &&& o.has_default_settings()
                    &&& o.interface_index == interfaces[i].index
                    &&& o.interface_name@ == if_name@
                    &&& o.tunnel == interfaces[i].is_tun
                    &&& o.loopback == interfaces[i].is_loopback
                },
                None => forall|j: int| 0 <= j < interfaces.len() ==> #[trigger] interfaces[j].name@ != if_name@,
            },
    {
        match find_interface_by_name(interfaces, if_name) {
            Some(i) => {
                let iface = &interfaces[i];
                Some(PacketCaptureOptions::for_interface(iface.index, iface.name.clone(), iface.is_tun, iface.is_loopback))
            },
            None => None,
        }
    }
}

} // verus!
