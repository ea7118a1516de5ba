//! A decoded packet and its textual log record.
use vstd::prelude::*;
use crate::ip_address::{address_line, AddressView, IPAddress};
use crate::payload::{payload_line, Payload, PayloadView};
use crate::protocol::{protocol_line, Protocol, ProtocolView};
use crate::text::{push_char, push_str, push_string};

verus! {

pub ghost struct PacketView {
    pub link: Seq<char>,
    pub ip: AddressView,
    pub protocol: ProtocolView,
    pub transport: Seq<char>,
    pub payload: PayloadView,
}

/// One decoded frame: link descriptor, addresses, protocol and ports,
/// transport descriptor and payload renderings.
pub struct ParsedPacket {
    pub link: String,
    pub ip: IPAddress,
    pub protocol: Protocol,
    pub transport: String,
    pub payload: Payload,
}

impl View for ParsedPacket {
    type V = PacketView;

    open spec fn view(&self) -> PacketView {
        PacketView {
            link: self.link@,
            ip: self.ip@,
            protocol: self.protocol@,
            transport: self.transport@,
            payload: self.payload@,
        }
    }
}

/// The rule line that opens and closes a log record.
pub open spec fn rule_line() -> Seq<char> {
    "_______________________________"@
}

/// The fixed textual rendering of a packet.
pub open spec fn packet_block(v: PacketView) -> Seq<char> {
    rule_line() + seq!['\n'] + address_line(v.ip) + " | "@ + protocol_line(v.protocol) + seq!['\n']
        + payload_line(v.payload) + seq!['\n'] + rule_line()
}

/// What a log file receives for one packet: its rendering and a blank line.
pub open spec fn log_record(v: PacketView) -> Seq<char> {
    packet_block(v) + seq!['\n', '\n']
}

impl ParsedPacket {
    pub fn new(link: String, ip: IPAddress, protocol: Protocol, transport: String, payload: Payload) -> (r: Self)
        ensures
            r@ == (PacketView {
                link: link@,
                ip: ip@,
                protocol: protocol@,
                transport: transport@,
                payload: payload@,
            }),
    {
        ParsedPacket { link, ip, protocol, transport, payload }
    }

    pub fn clone(&self) -> (r: Self)
        ensures
            r@ == self@,
    {
        ParsedPacket {
            link: self.link.clone(),
            ip: IPAddress {
                ipv4_source: self.ip.ipv4_source.clone(),
                ipv4_destination: self.ip.ipv4_destination.clone(),
                ipv6_source: self.ip.ipv6_source.clone(),
                ipv6_destination: self.ip.ipv6_destination.clone(),
            },
            protocol: self.protocol.clone(),
            transport: self.transport.clone(),
            payload: Payload { hex: self.payload.hex.clone(), ascii: self.payload.ascii.clone() },
        }
    }

    /// The packet's fixed textual rendering.
    pub fn render(&self) -> (r: String)
        ensures
            r@ == packet_block(self@),
    {
        proof {
            reveal_strlit("_______________________________");
            reveal_strlit(" | ");
        }
        let mut s = String::from_str("_______________________________");
        push_char(&mut s, '\n');
        let addresses = self.ip.render();
        push_string(&mut s, &addresses);
        push_str(&mut s, " | ");
        let protocol = self.protocol.render();
        push_string(&mut s, &protocol);
        push_char(&mut s, '\n');
        let payload = self.payload.render();
        push_string(&mut s, &payload);
        push_char(&mut s, '\n');
        push_str(&mut s, "_______________________________");
        assert(s@ =~= packet_block(self@));
        s
    }

    /// The packet's log record: its rendering followed by a blank line.
    pub fn log_record(&self) -> (r: String)
        ensures
            r@ == log_record(self@),
    {
        let mut s = self.render();
        push_char(&mut s, '\n');
        push_char(&mut s, '\n');
        assert(s@ =~= log_record(self@));
        s
    }
}

} // verus!
