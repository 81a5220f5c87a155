//! What the relay learns from one chunk of bytes: a printable rendering and a
//! best-effort, stateless label for the traffic.
use vstd::prelude::*;

verus! {

/// Whether the bytes are well-formed UTF-8.
pub uninterp spec fn valid_utf8(b: Seq<u8>) -> bool;

/// Relies on `std::str::from_utf8`: it succeeds exactly on well-formed UTF-8,
/// and the answer depends on the bytes alone.
#[verifier::external_body]
fn is_utf8(data: &[u8]) -> (r: bool)
    ensures
        r == valid_utf8(data@),
{
    std::str::from_utf8(data).is_ok()
}

pub const QUERY_MARKER: u8 = 0x51;

pub const LINE_FEED: u8 = 0x0a;

pub const CARRIAGE_RETURN: u8 = 0x0d;

/// The label that classification gives a chunk.
#[derive(Debug, Clone, PartialEq, Eq)]
pub enum Classification {
    /// The chunk starts with `Q`: possibly a database query.
    QueryLike,
    /// The chunk is UTF-8 text opening an HTTP request or response; the first
    /// line of the text, without its line ending.
    Http { first_line: Vec<u8> },
    /// No heuristic fired.
    Unlabelled,
}

/// The spec-level label, with the first line as a sequence.
pub enum Label {
    QueryLike,
    Http(Seq<u8>),
    Unlabelled,
}

impl Classification {
    pub open spec fn view(&self) -> Label {
        match self {
            Classification::QueryLike => Label::QueryLike,
            Classification::Http { first_line } => Label::Http(first_line@),
            Classification::Unlabelled => Label::Unlabelled,
        }
    }
}

pub open spec fn starts_with(s: Seq<u8>, p: Seq<u8>) -> bool {
    p.len() <= s.len() && s.subrange(0, p.len() as int) == p
}

/// `HTTP/`
pub open spec fn http_response_prefix() -> Seq<u8> {
    seq![0x48u8, 0x54, 0x54, 0x50, 0x2f]
}

/// `GET `
pub open spec fn get_prefix() -> Seq<u8> {
    seq![0x47u8, 0x45, 0x54, 0x20]
}

/// `POST `
pub open spec fn post_prefix() -> Seq<u8> {
    seq![0x50u8, 0x4f, 0x53, 0x54, 0x20]
}

pub open spec fn opens_http(s: Seq<u8>) -> bool {
    starts_with(s, http_response_prefix()) || starts_with(s, get_prefix())
        || starts_with(s, post_prefix())
}

/// Index of the first line feed at or after `i`, or the length if there is none.
pub open spec fn line_end(s: Seq<u8>, i: int) -> int
    decreases s.len() - i,
{
    if i < 0 || i >= s.len() || s[i] == LINE_FEED {
        if i < 0 { 0 } else { i }
    } else {
        line_end(s, i + 1)
    }
}

/// The first line of `s`: up to the first line feed, without a carriage return
/// that stands just before it.
pub open spec fn first_line(s: Seq<u8>) -> Seq<u8> {
    let e = line_end(s, 0);
    if e < s.len() && e > 0 && s[e - 1] == CARRIAGE_RETURN {
        s.subrange(0, e - 1)
    } else {
        s.subrange(0, e)
    }
}

/// The label of a chunk, given whether the chunk is well-formed UTF-8.
pub open spec fn label_of(s: Seq<u8>, utf8: bool) -> Label {
    if s.len() > 0 && s[0] == QUERY_MARKER {
        Label::QueryLike
    } else if utf8 && opens_http(s) {
        Label::Http(first_line(s))
    } else {
        Label::Unlabelled
    }
}

/// Bytes that the rendering shows as themselves: ASCII graphic characters and
/// ASCII whitespace (space, tab, line feed, form feed, carriage return).
pub open spec fn is_shown(b: u8) -> bool {
    (0x21 <= b && b <= 0x7e) || b == 0x20 || b == 0x09 || b == 0x0a || b == 0x0c || b == 0x0d
}

pub open spec fn shown_byte(b: u8) -> u8 {
    if is_shown(b) { b } else { 0x2e }
}

fn has_prefix(data: &[u8], prefix: &[u8]) -> (r: bool)
    ensures
        r == starts_with(data@, prefix@),
{
    if prefix.len() > data.len() {
        return false;
    }
    let mut i: usize = 0;
    while i < prefix.len()
        invariant
            prefix.len() <= data.len(),
            i <= prefix.len(),
            forall|j: int| 0 <= j < i ==> data@[j] == prefix@[j],
        decreases prefix.len() - i,
    {
        if data[i] != prefix[i] {
            assert(data@.subrange(0, prefix@.len() as int)[i as int] != prefix@[i as int]);
            return false;
        }
        i = i + 1;
    }
    assert(data@.subrange(0, prefix@.len() as int) =~= prefix@);
    true
}

fn opens_http_exec(data: &[u8]) -> (r: bool)
    ensures
        r == opens_http(data@),
{
    let http: [u8; 5] = [0x48, 0x54, 0x54, 0x50, 0x2f];
    let get: [u8; 4] = [0x47, 0x45, 0x54, 0x20];
    let post: [u8; 5] = [0x50, 0x4f, 0x53, 0x54, 0x20];
    assert(http@ =~= http_response_prefix());
    assert(get@ =~= get_prefix());
    assert(post@ =~= post_prefix());
    has_prefix(data, http.as_slice()) || has_prefix(data, get.as_slice()) || has_prefix(
        data,
        post.as_slice(),
    )
}

/// The first line of a chunk, without its line ending.
pub fn first_line_of(data: &[u8]) -> (r: Vec<u8>)
    ensures
        r@ == first_line(data@),
{
    let mut e: usize = 0;
    while e < data.len() && data[e] != LINE_FEED
        invariant
            e <= data.len(),
            line_end(data@, e as int) == line_end(data@, 0),
        decreases data.len() - e,
    {
        e = e + 1;
    }
    let stop: usize = if e < data.len() && e > 0 && data[e - 1] == CARRIAGE_RETURN {
        e - 1
    } else {
        e
    };
    let mut r: Vec<u8> = Vec::new();
    let mut i: usize = 0;
    while i < stop
        invariant
            stop <= data.len(),
            i <= stop,
            r@ == data@.subrange(0, i as int),
        decreases stop - i,
    {
        r.push(data[i]);
        i = i + 1;
        assert(r@ =~= data@.subrange(0, i as int));
    }
    r
}

/// The upper-case hexadecimal digit of a value below sixteen, as ASCII.
pub open spec fn hex_digit(n: u8) -> u8 {
    if n < 10 { (0x30 + n) as u8 } else { (0x41 + n - 10) as u8 }
}

/// A byte as two upper-case hexadecimal digits.
pub open spec fn hex_pair(b: u8) -> Seq<u8> {
    seq![hex_digit(b / 16), hex_digit(b % 16)]
}

/// The bytes as hexadecimal pairs separated by `, `.
pub open spec fn hex_items(s: Seq<u8>) -> Seq<u8>
    decreases s.len(),
{
    if s.len() == 0 {
        Seq::empty()
    } else if s.len() == 1 {
        hex_pair(s[0])
    } else {
        hex_items(s.drop_last()) + seq![0x2cu8, 0x20] + hex_pair(s.last())
    }
}

/// The hexadecimal dump of a chunk: its bytes as pairs of upper-case digits,
/// separated by `, ` and enclosed in brackets.
pub open spec fn hex_dump(s: Seq<u8>) -> Seq<u8> {
    seq![0x5bu8] + hex_items(s) + seq![0x5du8]
}

fn push_hex_digit(r: &mut Vec<u8>, n: u8)
    requires
        n < 16,
    ensures
        final(r)@ == old(r)@.push(hex_digit(n)),
{
    if n < 10 {
        r.push(0x30 + n);
    } else {
        r.push(0x41 + n - 10);
    }
}

/// The hexadecimal dump of a chunk, `[47, 45, 54]` for `GET`.
pub fn render_hex(data: &[u8]) -> (r: Vec<u8>)
    ensures
        r@ == hex_dump(data@),
{
    let mut r: Vec<u8> = Vec::new();
    r.push(0x5b);
    let mut i: usize = 0;
    while i < data.len()
        invariant
            i <= data.len(),
            r@ == seq![0x5bu8] + hex_items(data@.subrange(0, i as int)),
        decreases data.len() - i,
    {
        let ghost before = r@;
        let b = data[i];
        if i > 0 {
            r.push(0x2c);
            r.push(0x20);
        }
        push_hex_digit(&mut r, b / 16);
        push_hex_digit(&mut r, b % 16);
        proof {
            let t = data@.subrange(0, i + 1);
            assert(t.drop_last() =~= data@.subrange(0, i as int));
            assert(t.last() == b);
            if i == 0 {
                assert(r@ =~= seq![0x5bu8] + hex_items(t));
            } else {
                assert(r@ =~= before + seq![0x2cu8, 0x20] + hex_pair(b));
                assert(r@ =~= seq![0x5bu8] + hex_items(t));
            }
        }
        i = i + 1;
    }
    r.push(0x5d);
    assert(data@.subrange(0, data@.len() as int) =~= data@);
    r
}

/// Labels a chunk whose UTF-8 well-formedness is already known.
pub fn classify_with(data: &[u8], utf8: bool) -> (r: Classification)
    ensures
        r@ == label_of(data@, utf8),
{
    if data.len() > 0 && data[0] == QUERY_MARKER {
        Classification::QueryLike
    } else if utf8 && opens_http_exec(data) {
        Classification::Http { first_line: first_line_of(data) }
    } else {
        Classification::Unlabelled
    }
}

/// Labels a chunk on its own, with no memory of earlier chunks.
pub fn classify(data: &[u8]) -> (r: Classification)
    ensures
        r@ == label_of(data@, valid_utf8(data@)),
{
    let utf8 = is_utf8(data);
    classify_with(data, utf8)
}

/// The printable rendering of a chunk: each byte that is neither ASCII graphic
/// nor ASCII whitespace becomes `.`.
pub fn render_ascii(data: &[u8]) -> (r: Vec<u8>)
    ensures
        r@ == data@.map_values(|b: u8| shown_byte(b)),
{
    let mut r: Vec<u8> = Vec::new();
    let mut i: usize = 0;
    while i < data.len()
        invariant
            i <= data.len(),
            r@ == data@.subrange(0, i as int).map_values(|b: u8| shown_byte(b)),
        decreases data.len() - i,
    {
        let b = data[i];
        let shown = (0x21 <= b && b <= 0x7e) || b == 0x20 || b == 0x09 || b == 0x0a || b == 0x0c
            || b == 0x0d;
        r.push(if shown { b } else { 0x2e });
        i = i + 1;
        assert(r@ =~= data@.subrange(0, i as int).map_values(|b: u8| shown_byte(b)));
    }
    assert(data@.subrange(0, data@.len() as int) =~= data@);
    r
}

} // verus!
