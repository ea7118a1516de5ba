//! Turns a raw Ethernet II frame into a [`ParsedPacket`], or skips it.
use vstd::prelude::*;
use etherparse::{NetSlice, SlicedPacket, TransportSlice};
use crate::ip_address::{ipv4_text, ipv6_text_of, no_addresses, AddressView, IPAddress};
use crate::parsed_packet::{PacketView, ParsedPacket};
use crate::payload::{ascii_view, hex_view, parse_payload, Payload, PayloadView};
use crate::protocol::{no_protocol, Protocol, ProtocolView};
use crate::text::decimal_text;

verus! {

/// Length of an Ethernet II header: no shorter frame can be decoded.
pub const ETHERNET_HEADER_LEN: usize = 14;

/// The network layer of a frame, as raw addresses.
#[allow(inconsistent_fields)]
pub enum NetHeader {
    Ipv4 { source: [u8; 4], destination: [u8; 4] },
    Ipv6 { source: [u8; 16], destination: [u8; 16] },
    /// A network layer without IP addresses (ARP).
    Other,
}

/// The transport layer of a frame.
#[allow(inconsistent_fields)]
pub enum Segment {
    Tcp { source_port: u16, destination_port: u16, payload: Vec<u8> },
    Udp { source_port: u16, destination_port: u16, payload: Vec<u8> },
    /// Any other transport (ICMP, IGMP).
    Other,
}

/// The layers of a frame that decoding reads, as plain values.
pub struct FrameSlices {
    /// Text of the link layer, where there is one.
    pub link: Option<String>,
    pub net: Option<NetHeader>,
    /// Text of the transport layer, where there is one.
    pub transport: Option<String>,
    pub segment: Option<Segment>,
}

pub open spec fn text_view(t: Option<String>) -> Option<Seq<char>> {
    match t {
        Some(s) => Some(s@),
        None => None,
    }
}

pub open spec fn text_or_blank(t: Option<Seq<char>>) -> Seq<char> {
    match t {
        Some(s) => s,
        None => Seq::empty(),
    }
}

/// The view of one decode outcome.
pub open spec fn outcome_view(decoded: Option<ParsedPacket>) -> Option<PacketView> {
    match decoded {
        Some(p) => Some(p@),
        None => None,
    }
}

/// The addresses hold exactly the pair that the network layer calls for, both
/// non-empty, and the other pair empty; no pair without an IP layer.
pub open spec fn one_address_pair(v: AddressView, net: Option<NetHeader>) -> bool {
    match net {
        Some(NetHeader::Ipv4 { .. }) => v.ipv4_source.len() > 0 && v.ipv4_destination.len() > 0
            && v.ipv6_source.len() == 0 && v.ipv6_destination.len() == 0,
        Some(NetHeader::Ipv6 { .. }) => v.ipv6_source.len() > 0 && v.ipv6_destination.len() > 0
            && v.ipv4_source.len() == 0 && v.ipv4_destination.len() == 0,
        _ => v == no_addresses(),
    }
}

/// The addresses that a network layer yields.
pub open spec fn addresses_of(net: Option<NetHeader>) -> AddressView {
    match net {
        Some(NetHeader::Ipv4 { source, destination }) => AddressView {
            ipv4_source: ipv4_text(source@),
            ipv4_destination: ipv4_text(destination@),
            ipv6_source: Seq::empty(),
            ipv6_destination: Seq::empty(),
        },
        Some(NetHeader::Ipv6 { source, destination }) => AddressView {
            ipv4_source: Seq::empty(),
            ipv4_destination: Seq::empty(),
            ipv6_source: ipv6_text_of(source@),
            ipv6_destination: ipv6_text_of(destination@),
        },
        _ => no_addresses(),
    }
}

/// The protocol label and ports that a transport layer yields.
pub open spec fn protocol_of(segment: Option<Segment>) -> ProtocolView {
    match segment {
        Some(Segment::Tcp { source_port, destination_port, .. }) => ProtocolView {
            protocol: "TCP"@,
            source_port: decimal_text(source_port as nat),
            destination_port: decimal_text(destination_port as nat),
        },
        Some(Segment::Udp { source_port, destination_port, .. }) => ProtocolView {
            protocol: "UDP"@,
            source_port: decimal_text(source_port as nat),
            destination_port: decimal_text(destination_port as nat),
        },
        _ => no_protocol(),
    }
}

/// The payload renderings that a transport layer yields.
pub open spec fn payload_of(segment: Option<Segment>) -> PayloadView {
    match segment {
        Some(Segment::Tcp { payload, .. }) => PayloadView {
            hex: hex_view(payload@),
            ascii: ascii_view(payload@),
        },
        Some(Segment::Udp { payload, .. }) => PayloadView {
            hex: hex_view(payload@),
            ascii: ascii_view(payload@),
        },
        _ => PayloadView { hex: Seq::empty(), ascii: Seq::empty() },
    }
}

/// The packet that given layers decode to.
pub open spec fn layers_packet(
    link: Option<Seq<char>>,
    net: Option<NetHeader>,
    transport: Option<Seq<char>>,
    segment: Option<Segment>,
) -> PacketView {
    PacketView {
        link: text_or_blank(link),
        ip: addresses_of(net),
        protocol: protocol_of(segment),
        transport: text_or_blank(transport),
        payload: payload_of(segment),
    }
}

/// The packet that the layers of a frame decode to.
pub open spec fn packet_of(s: FrameSlices) -> PacketView {
    layers_packet(text_view(s.link), s.net, text_view(s.transport), s.segment)
}

fn copy_text(t: &Option<String>) -> (r: String)
    ensures
        r@ == text_or_blank(text_view(*t)),
{
    match t {
        Some(s) => s.clone(),
        None => String::new(),
    }
}

/// Builds the packet record from the layers of a frame.
pub fn decode_slices(s: &FrameSlices) -> (r: ParsedPacket)
    ensures
        r@ == packet_of(*s),
        one_address_pair(r@.ip, s.net),
{
    let ip = match &s.net {
        Some(NetHeader::Ipv4 { source, destination }) => IPAddress::from_ipv4(*source, *destination),
        Some(NetHeader::Ipv6 { source, destination }) => IPAddress::from_ipv6(*source, *destination),
        _ => IPAddress::new_empty(),
    };
    let (protocol, payload) = match &s.segment {
        Some(Segment::Tcp { source_port, destination_port, payload }) => {
            proof {
                reveal_strlit("TCP");
            }
            (Protocol::new("TCP", *source_port, *destination_port), parse_payload(payload.as_slice()))
        },
        Some(Segment::Udp { source_port, destination_port, payload }) => {
            proof {
                reveal_strlit("UDP");
            }
            (Protocol::new("UDP", *source_port, *destination_port), parse_payload(payload.as_slice()))
        },
        _ => (Protocol::new_empty(), Payload::new_empty()),
    };
    ParsedPacket::new(copy_text(&s.link), ip, protocol, copy_text(&s.transport), payload)
}

/// Whether `SlicedPacket::from_ethernet` splits the frame.
pub uninterp spec fn ethernet_splits(frame: Seq<u8>) -> bool;

/// The text of the link layer of a frame, where it has one.
pub uninterp spec fn link_text_of(frame: Seq<u8>) -> Option<Seq<char>>;

/// The network layer of a frame, where it has one.
pub uninterp spec fn net_of(frame: Seq<u8>) -> Option<NetHeader>;

/// The text of the transport layer of a frame, where it has one.
pub uninterp spec fn transport_text_of(frame: Seq<u8>) -> Option<Seq<char>>;

/// The transport layer of a frame, where it has one.
pub uninterp spec fn segment_of(frame: Seq<u8>) -> Option<Segment>;

/// The packet that a frame decodes to, from its named layers.
pub open spec fn frame_packet(frame: Seq<u8>) -> PacketView {
    layers_packet(link_text_of(frame), net_of(frame), transport_text_of(frame), segment_of(frame))
}

/// The outcome of decoding a frame: its packet where the frame splits into
/// layers, `None` (a skip) where it does not.
pub open spec fn decoded(frame: Seq<u8>) -> Option<PacketView> {
    if ethernet_splits(frame) {
        Some(frame_packet(frame))
    } else {
        None
    }
}

/// Relies on `etherparse::SlicedPacket::from_ethernet`: whether a frame that
/// starts with an Ethernet II header splits into layers depends on its bytes
/// alone, and a frame shorter than that header (14 bytes) is refused.
#[verifier::external_body]
fn frame_splits(frame: &[u8]) -> (r: bool)
    ensures
        r == ethernet_splits(frame@),
        frame@.len() < ETHERNET_HEADER_LEN ==> !r,
{
    SlicedPacket::from_ethernet(frame).is_ok()
}

/// Relies on `etherparse::SlicedPacket::from_ethernet` and the `Debug` impl of
/// `etherparse::LinkSlice` for the link text.
#[verifier::external_body]
fn frame_link_text(frame: &[u8]) -> (r: Option<String>)
    ensures
        text_view(r) == link_text_of(frame@),
{
    SlicedPacket::from_ethernet(frame).ok().and_then(|p| p.link).map(|l| format!("{:?}", l))
}

/// Relies on `etherparse::SlicedPacket::from_ethernet` and on
/// `Ipv4HeaderSlice` and `Ipv6HeaderSlice` (`source`, `destination`) for the
/// raw addresses of the network layer.
#[verifier::external_body]
fn frame_net(frame: &[u8]) -> (r: Option<NetHeader>)
    ensures
        r == net_of(frame@),
{
    match SlicedPacket::from_ethernet(frame).ok().and_then(|p| p.net) {
        Some(NetSlice::Ipv4(v)) => Some(NetHeader::Ipv4 { source: v.header().source(), destination: v.header().destination() }),
        Some(NetSlice::Ipv6(v)) => Some(NetHeader::Ipv6 { source: v.header().source(), destination: v.header().destination() }),
        Some(NetSlice::Arp(_)) => Some(NetHeader::Other),
        None => None,
    }
}

/// Relies on `etherparse::SlicedPacket::from_ethernet` and the `Debug` impl of
/// `etherparse::TransportSlice` for the transport text.
#[verifier::external_body]
fn frame_transport_text(frame: &[u8]) -> (r: Option<String>)
    ensures
        text_view(r) == transport_text_of(frame@),
{
    SlicedPacket::from_ethernet(frame).ok().and_then(|p| p.transport).map(|t| format!("{:?}", t))
}

/// Relies on `etherparse::SlicedPacket::from_ethernet` and on `TcpSlice` and
/// `UdpSlice` (`source_port`, `destination_port`, `payload`) for the ports and
/// payload bytes.
#[verifier::external_body]
fn frame_segment(frame: &[u8]) -> (r: Option<Segment>)
    ensures
        r == segment_of(frame@),
{
    SlicedPacket::from_ethernet(frame).ok().and_then(|p| p.transport).map(|t| match t {
        TransportSlice::Tcp(x) => Segment::Tcp { source_port: x.source_port(), destination_port: x.destination_port(), payload: x.payload().to_vec() },
        TransportSlice::Udp(x) => Segment::Udp { source_port: x.source_port(), destination_port: x.destination_port(), payload: x.payload().to_vec() },
        _ => Segment::Other,
    })
}

/// Decodes one raw frame. A frame that does not split into layers (too
/// short, malformed, truncated) is skipped: `None`, never a partial record.
/// A frame that splits always gives its packet, whatever its transport.
pub fn decode_frame(frame: &[u8]) -> (r: Option<ParsedPacket>)
    ensures
        outcome_view(r) == decoded(frame@),
        r is Some <==> ethernet_splits(frame@),
        frame@.len() < ETHERNET_HEADER_LEN ==> r is None,
        r matches Some(p) ==> one_address_pair(p@.ip, net_of(frame@)),
{
    if !frame_splits(frame) {
        return None;
    }
    let s = FrameSlices {
        link: frame_link_text(frame),
        net: frame_net(frame),
        transport: frame_transport_text(frame),
        segment: frame_segment(frame),
    };
    let r = decode_slices(&s);
    Some(r)
}

} // verus!
