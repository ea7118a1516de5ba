//! The transport-layer protocol label and ports of a decoded packet.
use vstd::prelude::*;
use crate::text::{decimal_text, push_char, push_decimal, push_str, push_string};

verus! {

pub ghost struct ProtocolView {
    pub protocol: Seq<char>,
    pub source_port: Seq<char>,
    pub destination_port: Seq<char>,
}

/// Protocol label (`"TCP"`, `"UDP"`, or blank) and ports as text; all blank
/// when the transport is not recognized.
pub struct Protocol {
    pub protocol: String,
    pub source_port: String,
    pub destination_port: String,
}

impl View for Protocol {
    type V = ProtocolView;

    open spec fn view(&self) -> ProtocolView {
        ProtocolView {
            protocol: self.protocol@,
            source_port: self.source_port@,
            destination_port: self.destination_port@,
        }
    }
}

/// No recognized transport.
pub open spec fn no_protocol() -> ProtocolView {
    ProtocolView { protocol: Seq::empty(), source_port: Seq::empty(), destination_port: Seq::empty() }
}

/// The protocol line of a log record: label, source port, an arrow and the
/// destination port.
pub open spec fn protocol_line(v: ProtocolView) -> Seq<char> {
    v.protocol + seq![' '] + v.source_port + " -> "@ + v.destination_port
}

impl Protocol {
    pub fn new(protocol: &str, source: u16, destination: u16) -> (r: Self)
        ensures
            r@ == (ProtocolView {
                protocol: protocol@,
                source_port: decimal_text(source as nat),
                destination_port: decimal_text(destination as nat),
            }),
    {
        let mut source_port = String::new();
        push_decimal(&mut source_port, source as u32);
        let mut destination_port = String::new();
        push_decimal(&mut destination_port, destination as u32);
        Protocol { protocol: String::from_str(protocol), source_port, destination_port }
    }

    pub fn new_empty() -> (r: Self)
        ensures
            r@ == no_protocol(),
    {
        Protocol { protocol: String::new(), source_port: String::new(), destination_port: String::new() }
    }

    pub fn clone(&self) -> (r: Protocol)
        ensures
            r@ == self@,
    {
        Protocol {
            protocol: self.protocol.clone(),
            source_port: self.source_port.clone(),
            destination_port: self.destination_port.clone(),
        }
    }

    /// The protocol line of a log record.
    pub fn render(&self) -> (r: String)
        ensures
            r@ == protocol_line(self@),
    {
        proof {
            reveal_strlit(" -> ");
        }
        let mut s = String::new();
        push_string(&mut s, &self.protocol);
        push_char(&mut s, ' ');
        push_string(&mut s, &self.source_port);
        push_str(&mut s, " -> ");
        push_string(&mut s, &self.destination_port);
        assert(s@ =~= protocol_line(self@));
        s
    }
}

} // verus!
