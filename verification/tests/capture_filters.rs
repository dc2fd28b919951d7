use netpulsar::capture::{headers_of, parse_option_for, CaptureReport, CaptureSession, FrameParseOption};
use netpulsar::filter::{
    filter_ether_type, filter_host, filter_ip_protocol, filter_packet, filter_port, ArpAddresses,
    Ipv4Fields, Ipv6Fields, PacketHeaders, Ports,
};
use netpulsar::net::IpAddress;
use netpulsar::options::{
    find_interface_by_index, find_interface_by_name, InterfaceInfo, PacketCaptureOptions,
};
use netpulsar::time::TimeSpan;

fn options() -> PacketCaptureOptions {
    PacketCaptureOptions::for_interface(3, "eth0".to_string(), false, false)
}

fn no_headers() -> PacketHeaders {
    PacketHeaders { ether_type: None, arp: None, ipv4: None, ipv6: None, tcp: None, udp: None }
}

fn tcp_headers(dst_port: u16) -> PacketHeaders {
    PacketHeaders {
        ether_type: Some(0x0800),
        arp: None,
        ipv4: Some(Ipv4Fields {
            source: u32::from_be_bytes([192, 168, 0, 1]),
            destination: u32::from_be_bytes([10, 0, 0, 2]),
            protocol: 6,
        }),
        ipv6: None,
        tcp: Some(Ports { source: 12345, destination: dst_port }),
        udp: None,
    }
}

#[test]
fn default_options_have_no_filters() {
    let o = options();
    assert_eq!(o.interface_index, 3);
    assert_eq!(o.interface_name, "eth0");
    assert!(o.src_ipv4s.is_empty() && o.dst_ipv6s.is_empty() && o.ether_types.is_empty());
    assert_eq!(o.capture_timeout, TimeSpan { secs: u64::MAX, nanos: 999_999_999 });
    assert_eq!(o.read_timeout, TimeSpan { secs: 0, nanos: 200_000_000 });
    assert!(!o.promiscuous);
    assert!(o.receive_undefined);
}

#[test]
fn no_filter_passes_every_header_set() {
    let o = options();
    let h = PacketHeaders {
        ether_type: Some(0x0800),
        arp: Some(ArpAddresses { sender: 1, target: 2 }),
        ipv4: Some(Ipv4Fields { source: 1, destination: 2, protocol: 6 }),
        ipv6: Some(Ipv6Fields { source: 3, destination: 4, protocol: 17 }),
        tcp: Some(Ports { source: 1, destination: 2 }),
        udp: Some(Ports { source: 3, destination: 4 }),
    };
    assert!(filter_packet(&h, &o));
    assert!(filter_packet(&no_headers(), &o));
}

#[test]
fn host_filter_matches_source_or_destination() {
    let mut o = options();
    assert!(filter_host(IpAddress::V4(1), IpAddress::V4(2), &o));
    o.src_ipv4s.insert(0xc0a8_0001);
    assert!(filter_host(IpAddress::V4(0xc0a8_0001), IpAddress::V4(9), &o));
    assert!(!filter_host(IpAddress::V4(9), IpAddress::V4(0xc0a8_0001), &o));
    o.dst_ipv6s.insert(1);
    assert!(filter_host(IpAddress::V4(9), IpAddress::V6(1), &o));
    assert!(!filter_host(IpAddress::V6(0xc0a8_0001), IpAddress::V4(1), &o));
}

#[test]
fn host_filter_keeps_families_apart() {
    let mut o = options();
    o.dst_ipv6s.insert(5);
    assert!(!filter_host(IpAddress::V4(0), IpAddress::V4(5), &o));
    assert!(filter_host(IpAddress::V4(0), IpAddress::V6(5), &o));
}

#[test]
fn port_filter_matches_source_or_destination() {
    let mut o = options();
    assert!(filter_port(1, 2, &o));
    o.dst_ports.insert(80);
    assert!(filter_port(1, 80, &o));
    assert!(!filter_port(80, 1, &o));
    o.src_ports.insert(53);
    assert!(filter_port(53, 1, &o));
}

#[test]
fn ether_type_and_protocol_filters() {
    let mut o = options();
    assert!(filter_ether_type(0x86dd, &o));
    o.ether_types.insert(0x0800);
    assert!(filter_ether_type(0x0800, &o));
    assert!(!filter_ether_type(0x86dd, &o));
    assert!(filter_ip_protocol(17, &o));
    o.ip_protocols.insert(6);
    assert!(filter_ip_protocol(6, &o));
    assert!(!filter_ip_protocol(17, &o));
}

#[test]
fn packet_filter_drops_on_any_failing_header() {
    let mut o = options();
    o.dst_ports.insert(443);
    let mut h = no_headers();
    h.udp = Some(Ports { source: 5000, destination: 443 });
    assert!(filter_packet(&h, &o));
    h.tcp = Some(Ports { source: 5000, destination: 80 });
    assert!(!filter_packet(&h, &o));
    let mut h2 = no_headers();
    h2.ipv6 = Some(Ipv6Fields { source: 1, destination: 2, protocol: 58 });
    assert!(filter_packet(&h2, &o));
    o.ip_protocols.insert(6);
    assert!(!filter_packet(&h2, &o));
}

#[test]
fn arp_addresses_go_through_host_filter() {
    let mut o = options();
    o.src_ipv4s.insert(7);
    let mut h = no_headers();
    h.arp = Some(ArpAddresses { sender: 7, target: 8 });
    assert!(filter_packet(&h, &o));
    h.arp = Some(ArpAddresses { sender: 8, target: 7 });
    assert!(!filter_packet(&h, &o));
}

#[test]
fn parse_options_by_interface_kind() {
    assert_eq!(parse_option_for(false, false), FrameParseOption { from_ip_packet: false, offset: 0 });
    assert_eq!(parse_option_for(false, true), FrameParseOption { from_ip_packet: false, offset: 0 });
    assert_eq!(parse_option_for(true, false), FrameParseOption { from_ip_packet: true, offset: 0 });
    assert_eq!(parse_option_for(true, true), FrameParseOption { from_ip_packet: true, offset: 14 });
}

#[test]
fn report_counts_saturate() {
    let mut r = CaptureReport::new();
    assert_eq!((r.bytes, r.packets), (0, 0));
    assert!(r.start_time.is_empty() && r.end_time.is_empty());
    assert_eq!(r.duration, TimeSpan { secs: 0, nanos: 0 });
    r.record_packet(60);
    r.record_packet(1500);
    assert_eq!((r.bytes, r.packets), (1560, 2));
    r.record_packet(usize::MAX);
    assert_eq!((r.bytes, r.packets), (usize::MAX, 3));
    r.packets = usize::MAX;
    r.record_packet(0);
    assert_eq!(r.packets, usize::MAX);
}

#[test]
fn session_filters_and_counts() {
    let mut o = options();
    o.dst_ports.insert(80);
    let mut s = CaptureSession::new(o, false, false, "start".to_string());
    assert_eq!(s.parse_option, FrameParseOption { from_ip_packet: false, offset: 0 });
    assert!(s.on_packet(&tcp_headers(80), 54));
    assert!(!s.on_packet(&tcp_headers(81), 60));
    assert_eq!(s.report.packets, 2);
    assert_eq!(s.report.bytes, 114);
    let r = s.finish("end".to_string(), TimeSpan { secs: 2, nanos: 5 });
    assert_eq!(r.start_time, "start");
    assert_eq!(r.end_time, "end");
    assert_eq!(r.duration, TimeSpan { secs: 2, nanos: 5 });
    assert_eq!((r.bytes, r.packets), (114, 2));
}

#[test]
fn session_filters_by_addresses_protocol_and_ether_type() {
    let mut o = options();
    o.src_ipv4s.insert(u32::from_be_bytes([192, 168, 0, 1]));
    let mut s = CaptureSession::new(o, false, false, String::new());
    assert!(s.on_packet(&tcp_headers(81), 54));
    let mut o = options();
    o.dst_ipv4s.insert(u32::from_be_bytes([10, 0, 0, 3]));
    let mut s = CaptureSession::new(o, false, false, String::new());
    assert!(!s.on_packet(&tcp_headers(81), 54));
    let mut o = options();
    o.ip_protocols.insert(17);
    let mut s = CaptureSession::new(o, false, false, String::new());
    assert!(!s.on_packet(&tcp_headers(81), 54));
    let mut o = options();
    o.ether_types.insert(0x86dd);
    let mut s = CaptureSession::new(o, true, true, String::new());
    assert_eq!(s.parse_option, FrameParseOption { from_ip_packet: true, offset: 14 });
    assert!(!s.on_packet(&tcp_headers(81), 54));
}

#[test]
fn session_stops_on_request_or_after_limit() {
    let mut o = options();
    let s = CaptureSession::new(options(), false, false, String::new());
    assert!(!s.should_stop(false, TimeSpan { secs: u64::MAX, nanos: 999_999_999 }));
    assert!(s.should_stop(true, TimeSpan { secs: 0, nanos: 0 }));
    o.capture_timeout = TimeSpan::from_secs(5);
    let s = CaptureSession::new(o, false, false, String::new());
    assert!(!s.should_stop(false, TimeSpan { secs: 5, nanos: 0 }));
    assert!(s.should_stop(false, TimeSpan { secs: 5, nanos: 1 }));
}

#[test]
fn time_spans() {
    assert_eq!(TimeSpan::from_millis(200), TimeSpan { secs: 0, nanos: 200_000_000 });
    assert_eq!(TimeSpan::from_millis(12_345), TimeSpan { secs: 12, nanos: 345_000_000 });
    assert_eq!(TimeSpan::from_secs(7), TimeSpan { secs: 7, nanos: 0 });
    assert_eq!(TimeSpan::max_span().as_nanos(), u64::MAX as u128 * 1_000_000_000 + 999_999_999);
    assert!(TimeSpan { secs: 1, nanos: 0 }.is_longer_than(&TimeSpan { secs: 0, nanos: 999_999_999 }));
    assert!(!TimeSpan { secs: 1, nanos: 0 }.is_longer_than(&TimeSpan { secs: 1, nanos: 0 }));
}

fn iface(index: u32, name: &str, is_tun: bool) -> InterfaceInfo {
    InterfaceInfo { index, name: name.to_string(), is_tun, is_loopback: false }
}

#[test]
fn interface_lookup_takes_first_match() {
    let list = vec![iface(1, "lo", false), iface(4, "tun0", true), iface(4, "dup", false)];
    assert_eq!(find_interface_by_index(&list, 4), Some(1));
    assert_eq!(find_interface_by_index(&list, 9), None);
    assert_eq!(find_interface_by_name(&list, &"dup".to_string()), Some(2));
    assert_eq!(find_interface_by_name(&list, &"eth9".to_string()), None);
    let o = PacketCaptureOptions::from_interface_index_in(&list, 4).unwrap();
    assert_eq!(o.interface_name, "tun0");
    assert!(o.tunnel);
    assert!(PacketCaptureOptions::from_interface_index_in(&list, 2).is_none());
    let o = PacketCaptureOptions::from_interface_name_in(&list, &"lo".to_string()).unwrap();
    assert_eq!(o.interface_index, 1);
    assert!(PacketCaptureOptions::from_interface_name_in(&list, &"x".to_string()).is_none());
}

fn ip_tcp_bytes(dst_port: u16) -> Vec<u8> {
    let mut p = vec![
        0x45, 0x00, 0x00, 0x28, 0x00, 0x00, 0x00, 0x00, 0x40, 0x06, 0x00, 0x00, 192, 168, 0, 1, 10,
        0, 0, 2,
    ];
    p.extend_from_slice(&[0x30, 0x39, (dst_port >> 8) as u8, dst_port as u8]);
    p.extend_from_slice(&[0, 0, 0, 4, 0, 0, 0, 4, 0x50, 0x02, 0xff, 0xff, 0, 0, 0, 0]);
    p
}

#[test]
fn session_parses_frames_under_its_option() {
    let mut ethernet = vec![0u8, 1, 2, 3, 4, 5, 6, 7, 8, 9, 10, 11, 0x08, 0x00];
    ethernet.extend_from_slice(&ip_tcp_bytes(80));
    let s = CaptureSession::new(options(), false, false, String::new());
    let frame = s.parse_frame(&ethernet);
    assert_eq!(frame.packet_len, ethernet.len());
    let tcp = frame.transport.unwrap().tcp.unwrap();
    assert_eq!((tcp.source, tcp.destination), (12345, 80));

    let s = CaptureSession::new(options(), true, false, String::new());
    let frame = s.parse_frame(&ip_tcp_bytes(81));
    let ipv4 = frame.ip.unwrap().ipv4.unwrap();
    assert_eq!(u32::from(ipv4.destination), u32::from_be_bytes([10, 0, 0, 2]));
    assert_eq!(frame.transport.unwrap().tcp.unwrap().destination, 81);

    let s = CaptureSession::new(options(), true, true, String::new());
    let mut looped = vec![0u8; 14];
    looped.extend_from_slice(&ip_tcp_bytes(82));
    let frame = s.parse_frame(&looped);
    assert_eq!(frame.transport.unwrap().tcp.unwrap().destination, 82);
}

#[test]
fn session_handles_buffers_end_to_end() {
    let mut ethernet = vec![0u8, 1, 2, 3, 4, 5, 6, 7, 8, 9, 10, 11, 0x08, 0x00];
    ethernet.extend_from_slice(&ip_tcp_bytes(80));
    let frame = CaptureSession::new(options(), false, false, String::new()).parse_frame(&ethernet);
    assert_eq!(headers_of(&frame), tcp_headers(80));

    let mut o = options();
    o.dst_ports.insert(80);
    let mut s = CaptureSession::new(o, false, false, String::new());
    let passed = s.on_buffer(&ethernet).expect("port 80 passes");
    assert_eq!(passed.transport.unwrap().tcp.unwrap().destination, 80);
    let mut other = vec![0u8, 1, 2, 3, 4, 5, 6, 7, 8, 9, 10, 11, 0x08, 0x00];
    other.extend_from_slice(&ip_tcp_bytes(81));
    assert!(s.on_buffer(&other).is_none());
    assert_eq!((s.report.packets, s.report.bytes), (2, 2 * 54));

    let mut o = options();
    o.dst_ports.insert(81);
    let mut s = CaptureSession::new(o, true, false, String::new());
    assert!(s.on_buffer(&ip_tcp_bytes(81)).is_some());
    assert!(s.on_buffer(&ip_tcp_bytes(82)).is_none());
}

#[test]
fn default_lookup_passes_error_on() {
    let err = PacketCaptureOptions::from_default_lookup(Err("Local IP address not found".to_string()));
    assert_eq!(err.err(), Some("Local IP address not found".to_string()));
    let o = PacketCaptureOptions::from_default_lookup(Ok(iface(7, "wlan0", false))).unwrap();
    assert_eq!(o.interface_index, 7);
    assert_eq!(o.interface_name, "wlan0");
    assert!(o.ether_types.is_empty());
}
