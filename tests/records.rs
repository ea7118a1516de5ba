use packet_sessions::ip_address::{ipv4_to_text, IPAddress};
use packet_sessions::parsed_packet::ParsedPacket;
use packet_sessions::payload::{parse_payload, Payload};
use packet_sessions::protocol::Protocol;

#[test]
fn ipv4_dotted_decimal() {
    assert_eq!(ipv4_to_text([192, 168, 0, 1]), "192.168.0.1");
    assert_eq!(ipv4_to_text([0, 0, 0, 0]), "0.0.0.0");
    assert_eq!(ipv4_to_text([255, 10, 100, 9]), "255.10.100.9");
}

#[test]
fn ipv4_pair_leaves_ipv6_empty() {
    let a = IPAddress::from_ipv4([10, 0, 0, 1], [10, 0, 0, 2]);
    assert_eq!(a.ipv4_source, "10.0.0.1");
    assert_eq!(a.ipv4_destination, "10.0.0.2");
    assert_eq!(a.ipv6_source, "");
    assert_eq!(a.ipv6_destination, "");
    assert_eq!(a.render(), "10.0.0.1 -> 10.0.0.2");
}

#[test]
fn ipv6_pair_leaves_ipv4_empty() {
    let mut src = [0u8; 16];
    src[15] = 1;
    let mut dst = [0u8; 16];
    dst[0] = 0xfe;
    dst[1] = 0x80;
    dst[15] = 0x02;
    let a = IPAddress::from_ipv6(src, dst);
    assert_eq!(a.ipv4_source, "");
    assert_eq!(a.ipv4_destination, "");
    assert_eq!(a.ipv6_source, "::1");
    assert_eq!(a.ipv6_destination, "fe80::2");
    assert_eq!(a.render(), "::1 -> fe80::2");
}

#[test]
fn address_constructors() {
    let a = IPAddress::new("1.2.3.4", "5.6.7.8", "", "");
    assert_eq!(a.ipv4_source, "1.2.3.4");
    assert_eq!(a.ipv4_destination, "5.6.7.8");
    let e = IPAddress::new_empty();
    assert_eq!(e.render(), "");
    assert_eq!(e.ipv4_source, "");
    assert_eq!(e.ipv6_destination, "");
}

#[test]
fn protocol_ports_as_text() {
    let p = Protocol::new("TCP", 443, 51000);
    assert_eq!(p.protocol, "TCP");
    assert_eq!(p.source_port, "443");
    assert_eq!(p.destination_port, "51000");
    assert_eq!(p.render(), "TCP 443 -> 51000");
    let c = p.clone();
    assert_eq!(c.protocol, "TCP");
    assert_eq!(c.source_port, "443");
    assert_eq!(c.destination_port, "51000");
}

#[test]
fn empty_protocol_is_blank() {
    let p = Protocol::new_empty();
    assert_eq!(p.protocol, "");
    assert_eq!(p.source_port, "");
    assert_eq!(p.destination_port, "");
    assert_eq!(p.render(), "  -> ");
}

#[test]
fn packet_block_format() {
    let pkt = ParsedPacket::new(
        "link".to_string(),
        IPAddress::from_ipv4([10, 0, 0, 1], [10, 0, 0, 2]),
        Protocol::new("UDP", 53, 1024),
        "udp".to_string(),
        parse_payload(b"ok"),
    );
    let expected = "_______________________________\n\
                    10.0.0.1 -> 10.0.0.2 | UDP 53 -> 1024\n\
                    Payload HEX: 6f 6b | ASCII: ok\n\
                    _______________________________";
    assert_eq!(pkt.render(), expected);
    assert_eq!(pkt.log_record(), format!("{}\n\n", expected));
    let copy = pkt.clone();
    assert_eq!(copy.render(), expected);
    assert_eq!(copy.link, "link");
    assert_eq!(copy.transport, "udp");
}

#[test]
fn packet_without_payload() {
    let pkt = ParsedPacket::new(
        String::new(),
        IPAddress::new_empty(),
        Protocol::new_empty(),
        String::new(),
        Payload::new_empty(),
    );
    assert_eq!(
        pkt.render(),
        "_______________________________\n |   -> \nPayload HEX:  | ASCII: \n_______________________________"
    );
}
