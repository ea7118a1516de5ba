//! The network-layer addresses of a decoded packet.
use vstd::prelude::*;
use crate::text::{decimal_text, push_decimal, push_char, push_str, push_string};

verus! {

pub ghost struct AddressView {
    pub ipv4_source: Seq<char>,
    pub ipv4_destination: Seq<char>,
    pub ipv6_source: Seq<char>,
    pub ipv6_destination: Seq<char>,
}

/// Source and destination addresses as text. A decoded packet fills either
/// the IPv4 pair or the IPv6 pair, never both.
#[derive(Clone)]
pub struct IPAddress {
    pub ipv4_source: String,
    pub ipv4_destination: String,
    pub ipv6_source: String,
    pub ipv6_destination: String,
}

impl View for IPAddress {
    type V = AddressView;

    open spec fn view(&self) -> AddressView {
        AddressView {
            ipv4_source: self.ipv4_source@,
            ipv4_destination: self.ipv4_destination@,
            ipv6_source: self.ipv6_source@,
            ipv6_destination: self.ipv6_destination@,
        }
    }
}

/// No address at all.
pub open spec fn no_addresses() -> AddressView {
    AddressView {
        ipv4_source: Seq::empty(),
        ipv4_destination: Seq::empty(),
        ipv6_source: Seq::empty(),
        ipv6_destination: Seq::empty(),
    }
}

/// Dotted-decimal text of a four-byte IPv4 address.
pub open spec fn ipv4_text(a: Seq<u8>) -> Seq<char>
    recommends
        a.len() == 4,
{
    decimal_text(a[0] as nat) + seq!['.'] + decimal_text(a[1] as nat) + seq!['.']
        + decimal_text(a[2] as nat) + seq!['.'] + decimal_text(a[3] as nat)
}

/// The standard text form of a sixteen-byte IPv6 address.
pub uninterp spec fn ipv6_text_of(a: Seq<u8>) -> Seq<char>;

/// Relies on the `Display` impl of `core::net::Ipv6Addr` (via `to_string`):
/// the text depends on the address bytes alone, and is never empty (the
/// shortest form, of the unspecified address, is `::`).
#[verifier::external_body]
fn ipv6_text(a: [u8; 16]) -> (r: String)
    ensures
        r@ == ipv6_text_of(a@),
        r@.len() > 0,
{
    core::net::Ipv6Addr::from(a).to_string()
}

/// Renders a four-byte IPv4 address in dotted-decimal form.
pub fn ipv4_to_text(a: [u8; 4]) -> (r: String)
    ensures
        r@ == ipv4_text(a@),
{
    let mut s = String::new();
    push_decimal(&mut s, a[0] as u32);
    push_char(&mut s, '.');
    push_decimal(&mut s, a[1] as u32);
    push_char(&mut s, '.');
    push_decimal(&mut s, a[2] as u32);
    push_char(&mut s, '.');
    push_decimal(&mut s, a[3] as u32);
    s
}

/// The line of a log record that shows the populated address pair.
pub open spec fn address_line(v: AddressView) -> Seq<char> {
    if v.ipv4_source.len() > 0 || v.ipv4_destination.len() > 0 {
        v.ipv4_source + " -> "@ + v.ipv4_destination
    } else if v.ipv6_source.len() > 0 || v.ipv6_destination.len() > 0 {
        v.ipv6_source + " -> "@ + v.ipv6_destination
    } else {
        Seq::empty()
    }
}

impl IPAddress {
    pub fn new(ipv4_source: &str, ipv4_destination: &str, ipv6_source: &str, ipv6_destination: &str) -> (r: Self)
        ensures
            r@ == (AddressView {
                ipv4_source: ipv4_source@,
                ipv4_destination: ipv4_destination@,
                ipv6_source: ipv6_source@,
                ipv6_destination: ipv6_destination@,
            }),
    {
        IPAddress {
            ipv4_source: String::from_str(ipv4_source),
            ipv4_destination: String::from_str(ipv4_destination),
            ipv6_source: String::from_str(ipv6_source),
            ipv6_destination: String::from_str(ipv6_destination),
        }
    }

    pub fn new_empty() -> (r: Self)
        ensures
            r@ == no_addresses(),
    {
        IPAddress {
            ipv4_source: String::new(),
            ipv4_destination: String::new(),
            ipv6_source: String::new(),
            ipv6_destination: String::new(),
        }
    }

    /// The IPv4 pair filled from raw addresses; the IPv6 pair stays empty.
    pub fn from_ipv4(source: [u8; 4], destination: [u8; 4]) -> (r: Self)
        ensures
            r@ == (AddressView {
                ipv4_source: ipv4_text(source@),
                ipv4_destination: ipv4_text(destination@),
                ipv6_source: Seq::empty(),
                ipv6_destination: Seq::empty(),
            }),
    {
        IPAddress {
            ipv4_source: ipv4_to_text(source),
            ipv4_destination: ipv4_to_text(destination),
            ipv6_source: String::new(),
            ipv6_destination: String::new(),
        }
    }

    /// The IPv6 pair filled from raw addresses; the IPv4 pair stays empty.
    pub fn from_ipv6(source: [u8; 16], destination: [u8; 16]) -> (r: Self)
        ensures
            r@ == (AddressView {
                ipv4_source: Seq::empty(),
                ipv4_destination: Seq::empty(),
                ipv6_source: ipv6_text_of(source@),
                ipv6_destination: ipv6_text_of(destination@),
            }),
            r.ipv6_source@.len() > 0,
            r.ipv6_destination@.len() > 0,
    {
        IPAddress {
            ipv4_source: String::new(),
            ipv4_destination: String::new(),
            ipv6_source: ipv6_text(source),
            ipv6_destination: ipv6_text(destination),
        }
    }

    /// The address line of a log record.
    pub fn render(&self) -> (r: String)
        ensures
            r@ == address_line(self@),
    {
        proof {
            reveal_strlit(" -> ");
        }
        let mut s = String::new();
        if !self.ipv4_source.as_str().is_empty() || !self.ipv4_destination.as_str().is_empty() {
            push_string(&mut s, &self.ipv4_source);
            push_str(&mut s, " -> ");
            push_string(&mut s, &self.ipv4_destination);
        } else if !self.ipv6_source.as_str().is_empty() || !self.ipv6_destination.as_str().is_empty() {
            push_string(&mut s, &self.ipv6_source);
            push_str(&mut s, " -> ");
            push_string(&mut s, &self.ipv6_destination);
        }
        assert(s@ =~= address_line(self@));
        s
    }
}

} // verus!
