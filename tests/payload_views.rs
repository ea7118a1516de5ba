use packet_sessions::payload::{parse_payload, Payload};
use packet_sessions::text::decimal;

#[test]
fn empty_payload_renders_marker() {
    let p = parse_payload(&[]);
    assert_eq!(p.hex, "<empty>");
    assert_eq!(p.ascii, "<empty>");
}

#[test]
fn one_byte_hex_group() {
    let p = parse_payload(&[0xab]);
    assert_eq!(p.hex, "ab");
    assert_eq!(p.ascii, ".");
}

#[test]
fn sixteen_byte_hex_groups() {
    let bytes: Vec<u8> = (0u8..16).collect();
    let p = parse_payload(&bytes);
    assert_eq!(p.hex, "00 01 02 03 04 05 06 07 08 09 0a 0b 0c 0d 0e 0f");
    assert_eq!(p.hex.len(), 16 * 3 - 1);
    assert!(!p.hex.ends_with(' '));
    assert_eq!(p.hex.split(' ').count(), 16);
}

#[test]
fn ascii_view_over_all_byte_values() {
    let bytes: Vec<u8> = (0u8..=255).collect();
    let p = parse_payload(&bytes);
    let out: Vec<char> = p.ascii.chars().collect();
    assert_eq!(out.len(), 256);
    for (i, b) in bytes.iter().enumerate() {
        if (0x20..=0x7e).contains(b) {
            assert_eq!(out[i], *b as char);
        } else {
            assert_eq!(out[i], '.');
        }
    }
}

#[test]
fn printable_text_payload() {
    let p = parse_payload(b"Hi !\n~");
    assert_eq!(p.hex, "48 69 20 21 0a 7e");
    assert_eq!(p.ascii, "Hi !.~");
}

#[test]
fn payload_line_format() {
    let p = Payload::new("41 42".to_string(), "AB".to_string());
    assert_eq!(p.render(), "Payload HEX: 41 42 | ASCII: AB");
    let e = Payload::new_empty();
    assert_eq!(e.hex, "");
    assert_eq!(e.ascii, "");
}

#[test]
fn decimal_text_values() {
    assert_eq!(decimal(0), "0");
    assert_eq!(decimal(7), "7");
    assert_eq!(decimal(10), "10");
    assert_eq!(decimal(65535), "65535");
    assert_eq!(decimal(4294967295), "4294967295");
}
