//! Percent-encoding of URL path segments.
//!
//! A path segment is encoded byte by byte over its UTF-8 encoding: every
//! byte in the path-segment percent-encode set — the C0 controls, DEL,
//! space, `" < > # ? { } / %` and the backtick, plus every non-ASCII byte —
//! becomes `%` followed by two uppercase hexadecimal digits; every other
//! byte passes through unchanged. The per-byte encoding is delegated to the
//! `percent_encoding` crate.

use vstd::prelude::*;
use vstd::string::StringExecFns;
use vstd::string::StringSliceAdditionalSpecFns;
use crate::strbuf::push_char;

verus! {

/// A byte the path-segment percent-encode set escapes: the C0 controls and
/// DEL, space, `" < > # ? { } / %`, the backtick, and every non-ASCII byte.
pub open spec fn is_escaped_byte(b: u8) -> bool {
    ||| b <= 0x1f
    ||| b >= 0x7f
    ||| b == 0x20
    ||| b == 0x22
    ||| b == 0x3c
    ||| b == 0x3e
    ||| b == 0x60
    ||| b == 0x23
    ||| b == 0x3f
    ||| b == 0x7b
    ||| b == 0x7d
    ||| b == 0x2f
    ||| b == 0x25
}

/// Runtime test for [`is_escaped_byte`].
fn byte_is_escaped(b: u8) -> (r: bool)
    ensures
        r == is_escaped_byte(b),
{
    b <= 0x1f || b >= 0x7f || b == 0x20 || b == 0x22 || b == 0x3c || b == 0x3e || b == 0x60
        || b == 0x23 || b == 0x3f || b == 0x7b || b == 0x7d || b == 0x2f || b == 0x25
}

/// The uppercase hexadecimal digit for a value below sixteen.
pub open spec fn hex_upper_digit(n: u8) -> char {
    if n < 10 {
        ((n + 0x30) as u8) as char
    } else {
        ((n + 0x37) as u8) as char
    }
}

/// The three-character escape of one byte: `%` and two uppercase
/// hexadecimal digits.
pub open spec fn escaped_byte(b: u8) -> Seq<char> {
    seq!['%', hex_upper_digit(b / 16), hex_upper_digit(b % 16)]
}

/// The percent-encoding of a byte sequence under the path-segment set.
pub open spec fn path_segment_encoded(bs: Seq<u8>) -> Seq<char>
    decreases bs.len(),
{
    if bs.len() == 0 {
        Seq::empty()
    } else {
        let rest = path_segment_encoded(bs.drop_last());
        if is_escaped_byte(bs.last()) {
            rest + escaped_byte(bs.last())
        } else {
            rest.push(bs.last() as char)
        }
    }
}

/// Relies on `percent_encoding::percent_encode_byte`: returns `%` followed
/// by the byte's two uppercase hexadecimal digits.
pub assume_specification [ percent_encoding::percent_encode_byte ](byte: u8) -> (r: &'static str)
    ensures
        r@ == escaped_byte(byte),
;

/// Percent-encodes a URL path segment over its UTF-8 bytes, escaping
/// exactly the bytes of the path-segment set.
pub fn encode_path_segment(component: &str) -> (r: String)
    ensures
        r@ == path_segment_encoded(component.spec_bytes()),
{
    let bytes = component.as_bytes();
    let n = bytes.len();
    let mut out = String::new();
    let mut i: usize = 0;
    while i < n
        invariant
            n == bytes@.len(),
            bytes@ == component.spec_bytes(),
            i <= n,
            out@ == path_segment_encoded(bytes@.subrange(0, i as int)),
        decreases n - i,
    {
        let b = bytes[i];
        if byte_is_escaped(b) {
            out.append(percent_encoding::percent_encode_byte(b));
        } else {
            push_char(&mut out, b as char);
        }
        proof {
            let pre = bytes@.subrange(0, i as int);
            let cur = bytes@.subrange(0, i + 1);
            assert(cur.drop_last() =~= pre);
            assert(cur.last() == bytes@[i as int]);
        }
        i = i + 1;
    }
    proof {
        assert(bytes@.subrange(0, n as int) =~= bytes@);
    }
    out
}

} // verus!
