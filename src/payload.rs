//! Hexadecimal and ASCII renderings of a transport payload.
use vstd::prelude::*;
use crate::text::{hex_digit, hex_pair, push_char, push_hex_pair};

verus! {

/// The marker that both renderings of an empty payload hold.
pub open spec fn empty_marker() -> Seq<char> {
    seq!['<', 'e', 'm', 'p', 't', 'y', '>']
}

/// Lowest byte value rendered as itself in the ASCII view.
pub const PRINTABLE_FIRST: u8 = 0x20;

/// Highest byte value rendered as itself in the ASCII view.
pub const PRINTABLE_LAST: u8 = 0x7e;

pub open spec fn is_printable(b: u8) -> bool {
    PRINTABLE_FIRST <= b <= PRINTABLE_LAST
}

/// The ASCII-view character of one byte.
pub open spec fn ascii_char(b: u8) -> char {
    if is_printable(b) {
        b as char
    } else {
        '.'
    }
}

/// The bytes as two-digit hexadecimal groups separated by single spaces.
pub open spec fn hex_groups(p: Seq<u8>) -> Seq<char>
    decreases p.len(),
{
    if p.len() == 0 {
        Seq::empty()
    } else if p.len() == 1 {
        hex_pair(p[0])
    } else {
        hex_groups(p.drop_last()) + seq![' '] + hex_pair(p.last())
    }
}

/// The hexadecimal view of a payload.
pub open spec fn hex_view(p: Seq<u8>) -> Seq<char> {
    if p.len() == 0 {
        empty_marker()
    } else {
        hex_groups(p)
    }
}

/// The ASCII view of a payload.
pub open spec fn ascii_view(p: Seq<u8>) -> Seq<char> {
    if p.len() == 0 {
        empty_marker()
    } else {
        p.map_values(|b: u8| ascii_char(b))
    }
}

pub ghost struct PayloadView {
    pub hex: Seq<char>,
    pub ascii: Seq<char>,
}

/// The two renderings of a payload.
#[derive(Clone)]
pub struct Payload {
    pub hex: String,
    pub ascii: String,
}

impl View for Payload {
    type V = PayloadView;

    open spec fn view(&self) -> PayloadView {
        PayloadView { hex: self.hex@, ascii: self.ascii@ }
    }
}

impl Payload {
    pub fn new(hex: String, ascii: String) -> (r: Payload)
        ensures
            r.hex@ == hex@,
            r.ascii@ == ascii@,
    {
        Payload { hex, ascii }
    }

    /// A payload with both renderings blank, for packets without one.
    pub fn new_empty() -> (r: Payload)
        ensures
            r.hex@ == Seq::<char>::empty(),
            r.ascii@ == Seq::<char>::empty(),
    {
        Payload { hex: String::new(), ascii: String::new() }
    }

    /// The payload's line of the log record.
    pub fn render(&self) -> (r: String)
        ensures
            r@ == payload_line(self@),
    {
        let mut s = String::from_str("Payload HEX: ");
        crate::text::push_string(&mut s, &self.hex);
        crate::text::push_str(&mut s, " | ASCII: ");
        crate::text::push_string(&mut s, &self.ascii);
        proof {
            reveal_strlit("Payload HEX: ");
            reveal_strlit(" | ASCII: ");
        }
        s
    }
}

pub open spec fn payload_line(v: PayloadView) -> Seq<char> {
    "Payload HEX: "@ + v.hex + " | ASCII: "@ + v.ascii
}

fn empty_marker_text() -> (r: String)
    ensures
        r@ == empty_marker(),
{
    let s = String::from_str("<empty>");
    proof {
        reveal_strlit("<empty>");
        assert(s@ =~= empty_marker());
    }
    s
}

/// Renders a payload as its hexadecimal and ASCII views.
pub fn parse_payload(payload: &[u8]) -> (r: Payload)
    ensures
        r.hex@ == hex_view(payload@),
        r.ascii@ == ascii_view(payload@),
{
    if payload.len() == 0 {
        return Payload::new(empty_marker_text(), empty_marker_text());
    }
    let mut hex = String::new();
    let mut i: usize = 0;
    while i < payload.len()
        invariant
            0 <= i <= payload@.len(),
            hex@ == hex_groups(payload@.take(i as int)),
        decreases payload@.len() - i,
    {
        if i > 0 {
            push_char(&mut hex, ' ');
        }
        push_hex_pair(&mut hex, payload[i]);
        proof {
            let t = payload@.take(i as int + 1);
            assert(t.drop_last() =~= payload@.take(i as int));
            assert(t.last() == payload@[i as int]);
            assert(hex@ =~= hex_groups(t));
        }
        i = i + 1;
    }
    assert(payload@.take(payload@.len() as int) =~= payload@);
    let mut ascii = String::new();
    let mut j: usize = 0;
    while j < payload.len()
        invariant
            0 <= j <= payload@.len(),
            ascii@ =~= payload@.take(j as int).map_values(|b: u8| ascii_char(b)),
        decreases payload@.len() - j,
    {
        let b = payload[j];
        if PRINTABLE_FIRST <= b && b <= PRINTABLE_LAST {
            push_char(&mut ascii, b as char);
        } else {
            push_char(&mut ascii, '.');
        }
        proof {
            assert(payload@.take(j as int + 1) =~= payload@.take(j as int).push(b));
        }
        j = j + 1;
    }
    assert(payload@.take(payload@.len() as int) =~= payload@);
    Payload::new(hex, ascii)
}

/// An empty payload renders as the empty marker in both views; a payload of
/// `n > 0` bytes renders in hexadecimal as `n` two-digit groups, in order,
/// separated by single spaces and with no trailing separator.
pub proof fn lemma_hex_view_shape(p: Seq<u8>)
    ensures
        p.len() == 0 ==> hex_view(p) == empty_marker() && ascii_view(p) == empty_marker(),
        p.len() > 0 ==> hex_view(p).len() == 3 * p.len() - 1,
        forall|i: int|
            0 <= i < p.len() ==> {
                &&& #[trigger] hex_view(p)[3 * i] == hex_digit(p[i] as nat / 16)
                &&& hex_view(p)[3 * i + 1] == hex_digit(p[i] as nat % 16)
            },
        forall|i: int| 0 <= i < p.len() - 1 ==> #[trigger] hex_view(p)[3 * i + 2] == ' ',
    decreases p.len(),
{
    if p.len() > 1 {
        let q = p.drop_last();
        lemma_hex_view_shape(q);
        let h = hex_groups(p);
        assert(h == hex_groups(q) + seq![' '] + hex_pair(p.last()));
        assert forall|i: int| 0 <= i < p.len() implies {
            &&& #[trigger] hex_view(p)[3 * i] == hex_digit(p[i] as nat / 16)
            &&& hex_view(p)[3 * i + 1] == hex_digit(p[i] as nat % 16)
        } by {
            if i < q.len() {
                assert(hex_view(q)[3 * i] == hex_digit(q[i] as nat / 16));
            }
        }
        assert forall|i: int| 0 <= i < p.len() - 1 implies #[trigger] hex_view(p)[3 * i + 2]
            == ' ' by {
            if i < q.len() - 1 {
                assert(hex_view(q)[3 * i + 2] == ' ');
            }
        }
    }
}

/// The ASCII view of a non-empty payload has one character per byte: a
/// printable byte (0x20 to 0x7e) stands as itself and every other byte as
/// `'.'`. So, for every byte other than `'.'` itself, the view shows `'.'`
/// exactly where the byte is not printable.
pub proof fn lemma_ascii_view(p: Seq<u8>)
    requires
        p.len() > 0,
    ensures
        ascii_view(p).len() == p.len(),
        forall|i: int| 0 <= i < p.len() && is_printable(p[i]) ==> #[trigger] ascii_view(p)[i] == p[i] as char,
        forall|i: int| 0 <= i < p.len() && !is_printable(p[i]) ==> #[trigger] ascii_view(p)[i] == '.',
        forall|i: int|
            0 <= i < p.len() && p[i] != 0x2e ==> (#[trigger] ascii_view(p)[i] == '.' <==> !is_printable(p[i])),
{
    assert forall|i: int|
        0 <= i < p.len() && p[i] != 0x2e implies (#[trigger] ascii_view(p)[i] == '.' <==> !is_printable(p[i])) by {
        if is_printable(p[i]) {
            assert(p[i] as char != '.');
        }
    }
}

} // verus!
