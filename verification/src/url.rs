//! The request URL: the fixed endpoint with the query percent-encoded as its
//! final path segment.
//!
//! The query is embedded URL-path-encoded: every byte of its UTF-8 encoding
//! outside the unreserved set (letters, digits, `-`, `.`, `_`, `~`) is
//! written as `%` and two uppercase hex digits. Encoding the separators too
//! (`/`, `?`, `#`) keeps the whole query inside the final path segment.

use vstd::prelude::*;
use vstd::string::StringExecFns;
use vstd::utf8::encode_utf8;

verus! {

/// The fixed endpoint; a lookup's query becomes the final path segment.
pub open spec fn base_url() -> Seq<char> {
    "https://api.lyricstify.vercel.app/v1/lyrics/"@
}

/// Whether a byte is in the unreserved set and stays as it is: a letter, a
/// digit, `-`, `.`, `_` or `~`.
pub open spec fn is_unreserved(b: u8) -> bool {
    ||| 0x41 <= b <= 0x5a
    ||| 0x61 <= b <= 0x7a
    ||| 0x30 <= b <= 0x39
    ||| b == 0x2d
    ||| b == 0x2e
    ||| b == 0x5f
    ||| b == 0x7e
}

/// The ASCII byte of the uppercase hex digit `d`.
pub open spec fn hex_byte(d: u8) -> u8
    recommends
        d < 16,
{
    if d < 10 {
        (0x30 + d) as u8
    } else {
        (0x37 + d) as u8
    }
}

/// The path encoding of one byte: itself when unreserved, else `%` and its
/// two hex digits.
pub open spec fn encoded_byte(b: u8) -> Seq<u8> {
    if is_unreserved(b) {
        seq![b]
    } else {
        seq![0x25u8, hex_byte(b / 16), hex_byte(b % 16)]
    }
}

/// The path encoding of the bytes from position `i` on.
pub open spec fn path_encoded_from(bs: Seq<u8>, i: int) -> Seq<u8>
    decreases bs.len() - i,
{
    if i < 0 || bs.len() <= i {
        Seq::empty()
    } else {
        encoded_byte(bs[i]) + path_encoded_from(bs, i + 1)
    }
}

/// The path encoding of a byte sequence: each byte's encoding, in order.
pub open spec fn path_encoded(bs: Seq<u8>) -> Seq<u8> {
    path_encoded_from(bs, 0)
}

/// ASCII bytes read as the characters they stand for.
pub open spec fn chars_of_ascii(bs: Seq<u8>) -> Seq<char> {
    bs.map_values(|b: u8| b as char)
}

/// Relies on String::from_utf8: bytes below 0x80 are valid UTF-8 and decode
/// to exactly the characters they stand for. The fallback arm is unreachable
/// under the precondition.
#[verifier::external_body]
fn ascii_string(bytes: Vec<u8>) -> (r: String)
    requires
        forall|i: int| 0 <= i < bytes@.len() ==> bytes@[i] < 0x80,
    ensures
        r@ == chars_of_ascii(bytes@),
{
    String::from_utf8(bytes).unwrap_or_default()
}

/// The uppercase hex digit of `d` as its ASCII byte.
fn hex_upper(d: u8) -> (r: u8)
    requires
        d < 16,
    ensures
        r == hex_byte(d),
{
    if d < 10 {
        0x30 + d
    } else {
        0x37 + d
    }
}

/// Whether `b` stays unencoded in a path segment.
fn unreserved(b: u8) -> (r: bool)
    ensures
        r == is_unreserved(b),
{
    (0x41 <= b && b <= 0x5a) || (0x61 <= b && b <= 0x7a) || (0x30 <= b && b <= 0x39) || b == 0x2d
        || b == 0x2e || b == 0x5f || b == 0x7e
}

/// Percent-encodes the query for use as a path segment: each byte of its
/// UTF-8 encoding in order, unreserved bytes as they are, every other byte as
/// `%` and two uppercase hex digits.
#[verifier::loop_isolation(false)]
pub fn path_segment(query: &str) -> (r: String)
    ensures
        r@ == chars_of_ascii(path_encoded(encode_utf8(query@))),
{
    let bytes = query.as_bytes();
    let mut enc: Vec<u8> = Vec::new();
    let mut i: usize = 0;
    while i < bytes.len()
        invariant
            i <= bytes@.len(),
            path_encoded(bytes@) == enc@ + path_encoded_from(bytes@, i as int),
            forall|j: int| 0 <= j < enc@.len() ==> enc@[j] < 0x80,
        decreases bytes@.len() - i,
    {
        let ghost prev = enc@;
        let b = bytes[i];
        if unreserved(b) {
            enc.push(b);
        } else {
            enc.push(0x25);
            enc.push(hex_upper(b / 16));
            enc.push(hex_upper(b % 16));
        }
        proof {
            assert(enc@ =~= prev + encoded_byte(bytes@[i as int]));
            assert(enc@ + path_encoded_from(bytes@, i + 1 as int) =~= prev + path_encoded_from(
                bytes@,
                i as int,
            ));
        }
        i = i + 1;
    }
    proof {
        assert(enc@ + path_encoded_from(bytes@, bytes@.len() as int) =~= enc@);
    }
    ascii_string(enc)
}

/// The request URL for `query`: the fixed endpoint with the query
/// percent-encoded as the final path segment.
pub fn lyric_url(query: &str) -> (r: String)
    ensures
        r@ == base_url() + chars_of_ascii(path_encoded(encode_utf8(query@))),
{
    let segment = path_segment(query);
    String::from_str("https://api.lyricstify.vercel.app/v1/lyrics/").concat(segment.as_str())
}

} // verus!
