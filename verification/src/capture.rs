//! The decisions of a packet capture: how each frame is parsed, whether it
//! is handed on, what the report counts, and when the capture stops.

use vstd::prelude::*;

use xenet::packet::frame::{Frame, ParseOption};
use xenet::packet::PrimitiveValues;

use crate::filter::{filter_packet, ArpAddresses, Ipv4Fields, Ipv6Fields, PacketHeaders, Ports};
use crate::options::PacketCaptureOptions;
use crate::time::TimeSpan;

verus! {

/// A frame parsed by xenet. The library reads it only through the headers it
/// holds (`frame_headers`).
#[verifier::external_type_specification]
#[verifier::external_body]
pub struct ExFrame(Frame);

/// The headers that a xenet frame holds, as far as the filters read them.
pub uninterp spec fn frame_headers(frame: Frame) -> PacketHeaders;

/// The headers of the frame that `xenet::packet::frame::Frame::from_bytes`
/// parses from `packet` with the given option.
pub uninterp spec fn parsed_headers(packet: Seq<u8>, from_ip_packet: bool, offset: usize) -> PacketHeaders;

/// Calls `xenet::packet::frame::Frame::from_bytes`. Claimed: the headers of
/// the frame are a function of the bytes and the parse option alone
/// (`parsed_headers`). When parsing from an IP packet the call slices the
/// buffer at `offset` (and sizes a buffer by `packet.len() - offset`), so the
/// offset must lie within the buffer.
#[verifier::external_body]
fn frame_from_bytes(packet: &[u8], from_ip_packet: bool, offset: usize) -> (frame: Frame)
    requires
        from_ip_packet ==> offset <= packet.len(),
    ensures
        frame_headers(frame) == parsed_headers(packet@, from_ip_packet, offset),
{
    Frame::from_bytes(packet, ParseOption::new(from_ip_packet, offset))
}

/// Reads the data link layer of a xenet frame: the EtherType code of its
/// Ethernet header (`EtherType::to_primitive_values`) and the sender and
/// target protocol addresses of its ARP header, where the frame holds them.
#[verifier::external_body]
fn frame_link_headers(frame: &Frame) -> (link: (Option<u16>, Option<ArpAddresses>))
    ensures
        link.0 == frame_headers(*frame).ether_type,
        link.1 == frame_headers(*frame).arp,
{
    let d = frame.datalink.as_ref();
    (
        d.and_then(|d| d.ethernet.as_ref()).map(|e| e.ethertype.to_primitive_values().0),
        d.and_then(|d| d.arp.as_ref()).map(|a| ArpAddresses { sender: a.sender_proto_addr.into(), target: a.target_proto_addr.into() }),
    )
}

/// Reads the IP layer of a xenet frame: addresses and next protocol number of
/// its IPv4 header and of its IPv6 header, where the frame holds them.
#[verifier::external_body]
fn frame_ip_headers(frame: &Frame) -> (ip: (Option<Ipv4Fields>, Option<Ipv6Fields>))
    ensures
        ip.0 == frame_headers(*frame).ipv4,
        ip.1 == frame_headers(*frame).ipv6,
{
    let i = frame.ip.as_ref();
    (
        i.and_then(|i| i.ipv4.as_ref()).map(|h| Ipv4Fields { source: h.source.into(), destination: h.destination.into(), protocol: h.next_level_protocol as u8 }),
        i.and_then(|i| i.ipv6.as_ref()).map(|h| Ipv6Fields { source: h.source.into(), destination: h.destination.into(), protocol: h.next_header as u8 }),
    )
}

/// Reads the transport layer of a xenet frame: the ports of its TCP header
/// and of its UDP header, where the frame holds them.
#[verifier::external_body]
fn frame_transport_headers(frame: &Frame) -> (transport: (Option<Ports>, Option<Ports>))
    ensures
        transport.0 == frame_headers(*frame).tcp,
        transport.1 == frame_headers(*frame).udp,
{
    let t = frame.transport.as_ref();
    (
        t.and_then(|t| t.tcp.as_ref()).map(|p| Ports { source: p.source, destination: p.destination }),
        t.and_then(|t| t.udp.as_ref()).map(|p| Ports { source: p.source, destination: p.destination }),
    )
}

/// The headers that `frame` holds, as far as the filters read them.
pub fn headers_of(frame: &Frame) -> (headers: PacketHeaders)
    ensures
        headers == frame_headers(*frame),
{
    let (ether_type, arp) = frame_link_headers(frame);
    let (ipv4, ipv6) = frame_ip_headers(frame);
    let (tcp, udp) = frame_transport_headers(frame);
    PacketHeaders { ether_type, arp, ipv4, ipv6, tcp, udp }
}

/// How a captured buffer is parsed: as an Ethernet frame, or as an IP packet
/// that starts `offset` bytes into the buffer.
#[derive(Clone, Copy, Debug, PartialEq, Eq, Structural)]
pub struct FrameParseOption {
    pub from_ip_packet: bool,
    pub offset: usize,
}

/// Packet capture report.
pub struct CaptureReport {
    pub bytes: usize,
    pub packets: usize,
    pub start_time: String,
    pub end_time: String,
    pub duration: TimeSpan,
}

/// `a + b`, or `usize::MAX` where the sum does not fit.
pub open spec fn saturating_add(a: usize, b: usize) -> usize {
    if a + b <= usize::MAX {
        (a + b) as usize
    } else {
        usize::MAX
    }
}

impl CaptureReport {
    /// An empty report: nothing counted, no times, zero duration.
    pub fn new() -> (report: CaptureReport)
        ensures
            report.bytes == 0,
            report.packets == 0,
            report.start_time@ == Seq::<char>::empty(),
            report.end_time@ == Seq::<char>::empty(),
            report.duration == (TimeSpan { secs: 0, nanos: 0 }),
    {
        CaptureReport {
            bytes: 0,
            packets: 0,
            start_time: String::new(),
            end_time: String::new(),
            duration: TimeSpan::from_secs(0),
        }
    }

    /// Counts one captured packet of `len` bytes; both counters saturate.
    pub fn record_packet(&mut self, len: usize)
        ensures
            final(self).bytes == saturating_add(old(self).bytes, len),
            final(self).packets == saturating_add(old(self).packets, 1),
            final(self).start_time@ == old(self).start_time@,
            final(self).end_time@ == old(self).end_time@,
            final(self).duration == old(self).duration,
    {
        self.bytes = self.bytes.saturating_add(len);
        self.packets = self.packets.saturating_add(1);
    }
}

/// The parse option for frames read from an interface: a TUN interface
/// yields IP packets, which start 14 bytes in on a loopback interface.
pub open spec fn spec_parse_option(is_tun: bool, is_loopback: bool) -> FrameParseOption {
    FrameParseOption {
        from_ip_packet: is_tun,
        offset: if is_tun && is_loopback { 14 } else { 0 },
    }
}

/// The parse option for frames read from an interface with the given flags.
pub fn parse_option_for(is_tun: bool, is_loopback: bool) -> (option: FrameParseOption)
    ensures
        option == spec_parse_option(is_tun, is_loopback),
{
    let mut option = FrameParseOption { from_ip_packet: false, offset: 0 };
    if is_tun {
        let payload_offset: usize;
        if is_loopback {
            payload_offset = 14;
        } else {
            payload_offset = 0;
        }
        option.from_ip_packet = true;
        option.offset = payload_offset;
    }
    option
}

/// The state of a running capture: its options, how frames are parsed, and
/// the report so far.
pub struct CaptureSession {
    pub options: PacketCaptureOptions,
    pub parse_option: FrameParseOption,
    pub report: CaptureReport,
}

impl CaptureSession {
    /// Starts a capture at `start_time` on an interface with the given flags.
    pub fn new(options: PacketCaptureOptions, is_tun: bool, is_loopback: bool, start_time: String) -> (session: CaptureSession)
        ensures
            session.options == options,
            session.parse_option == spec_parse_option(is_tun, is_loopback),
            session.report.bytes == 0,
            session.report.packets == 0,
            session.report.start_time@ == start_time@,
            session.report.end_time@ == Seq::<char>::empty(),
            session.report.duration == (TimeSpan { secs: 0, nanos: 0 }),
    {
        let mut report = CaptureReport::new();
        report.start_time = start_time;
        CaptureSession { options, parse_option: parse_option_for(is_tun, is_loopback), report }
    }

    /// Whether a buffer of `len` bytes can be parsed under this session's
    /// parse option: an IP packet must start within the buffer.
    pub open spec fn can_parse(&self, len: usize) -> bool {
        self.parse_option.from_ip_packet ==> self.parse_option.offset <= len
    }

    /// The headers of the frame parsed from `packet` under this session's
    /// parse option.
    pub open spec fn headers_in(&self, packet: Seq<u8>) -> PacketHeaders {
        parsed_headers(packet, self.parse_option.from_ip_packet, self.parse_option.offset)
    }

    /// Parses a captured buffer into a frame under this session's parse option.
    pub fn parse_frame(&self, packet: &[u8]) -> (frame: Frame)
        requires
            self.can_parse(packet.len()),
        ensures
            frame_headers(frame) == self.headers_in(packet@),
    {
        frame_from_bytes(packet, self.parse_option.from_ip_packet, self.parse_option.offset)
    }

    /// Handles one captured buffer: parses it into a frame under this
    /// session's parse option, counts it in the report, and gives the frame
    /// back when it passes the filters and is to be handed on.
    pub fn on_buffer(&mut self, packet: &[u8]) -> (passed: Option<Frame>)
        requires
            old(self).can_parse(packet.len()),
        ensures
            passed is Some <==> old(self).options.accepts(old(self).headers_in(packet@)),
            passed matches Some(frame) ==> frame_headers(frame) == old(self).headers_in(packet@),
            final(self).options == old(self).options,
            final(self).parse_option == old(self).parse_option,
            final(self).report.bytes == saturating_add(old(self).report.bytes, packet@.len() as usize),
            final(self).report.packets == saturating_add(old(self).report.packets, 1),
            final(self).report.start_time@ == old(self).report.start_time@,
            final(self).report.end_time@ == old(self).report.end_time@,
            final(self).report.duration == old(self).report.duration,
    {
        let frame = self.parse_frame(packet);
        let headers = headers_of(&frame);
        if self.on_packet(&headers, packet.len()) {
            Some(frame)
        } else {
            None
        }
    }

    /// Handles one captured buffer of `len` bytes whose frame holds the
    /// headers `headers`: counts it in the report, and says whether the frame
    /// passes the filters and is to be handed on.
    pub fn on_packet(&mut self, headers: &PacketHeaders, len: usize) -> (pass: bool)
        ensures
            pass == old(self).options.accepts(*headers),
            final(self).options == old(self).options,
            final(self).parse_option == old(self).parse_option,
            final(self).report.bytes == saturating_add(old(self).report.bytes, len),
            final(self).report.packets == saturating_add(old(self).report.packets, 1),
            final(self).report.start_time@ == old(self).report.start_time@,
            final(self).report.end_time@ == old(self).report.end_time@,
            final(self).report.duration == old(self).report.duration,
    {
        let pass = filter_packet(headers, &self.options);
        self.report.record_packet(len);
        pass
    }

    /// Whether the capture stops after a step: on a stop request, or once
    /// the time elapsed exceeds the capture limit.
    pub fn should_stop(&self, stop_requested: bool, elapsed: TimeSpan) -> (stop: bool)
        ensures
            stop == (stop_requested || elapsed.total_nanos() > self.options.capture_timeout.total_nanos()),
    {
        if stop_requested {
            return true;
        }
        elapsed.is_longer_than(&self.options.capture_timeout)
    }

    /// Ends the capture at `end_time` after `duration`, and gives the report.
    pub fn finish(self, end_time: String, duration: TimeSpan) -> (report: CaptureReport)
        ensures
            report.bytes == self.report.bytes,
            report.packets == self.report.packets,
            report.start_time@ == self.report.start_time@,
            report.end_time@ == end_time@,
            report.duration == duration,
    {
        let mut report = self.report;
        report.end_time = end_time;
        report.duration = duration;
        report
    }
}

/// The counter after adding each of `amounts` in turn with `saturating_add`.
pub open spec fn saturating_total(start: usize, amounts: Seq<usize>) -> usize
    decreases amounts.len(),
{
    if amounts.len() == 0 {
        start
    } else {
        saturating_add(saturating_total(start, amounts.drop_last()), amounts.last())
    }
}

/// The sum of `amounts`.
pub open spec fn sum(amounts: Seq<usize>) -> nat
    decreases amounts.len(),
{
    if amounts.len() == 0 {
        0
    } else {
        (sum(amounts.drop_last()) + amounts.last()) as nat
    }
}

/// Counting in turn with a saturating counter gives the true total, or
/// `usize::MAX` where the true total does not fit: the report's byte count
/// after a run of packets is the sum of their lengths, capped, and its
/// packet count is their number, capped.
pub proof fn lemma_saturating_total(start: usize, amounts: Seq<usize>)
    ensures
        saturating_total(start, amounts) == (if start + sum(amounts) <= usize::MAX {
            (start + sum(amounts)) as usize
        } else {
            usize::MAX
        }),
    decreases amounts.len(),
{
    if amounts.len() > 0 {
        lemma_saturating_total(start, amounts.drop_last());
    }
}

/// With the default settings the capture limit is never reached: no
/// well-formed elapsed time exceeds it.
pub proof fn lemma_default_limit_never_expires(options: &PacketCaptureOptions, elapsed: TimeSpan)
    requires
        options.has_default_settings(),
        elapsed.wf(),
    ensures
        !(elapsed.total_nanos() > options.capture_timeout.total_nanos()),
{
    assert(elapsed.secs * (crate::time::NANOS_PER_SEC as nat) <= u64::MAX * (crate::time::NANOS_PER_SEC as nat)) by (nonlinear_arith)
        requires
            elapsed.secs <= u64::MAX,
    ;
}

} // verus!
