//! Percent-decoding of one URL path segment.
//!
//! A segment is decoded byte by byte: `%` followed by two hexadecimal digits
//! stands for the byte they write, every other byte stands for itself. The
//! decoding fails where a `%` is not followed by two hexadecimal digits, and
//! where the bytes that come out are not UTF-8.

use vstd::prelude::*;
use vstd::utf8::{
    char_is_scalar, decode_utf8, encode_scalar, encode_utf8, encode_utf8_decode_utf8,
    encode_utf8_valid_utf8, is_scalar, valid_utf8,
};

verus! {

/// The value of the hexadecimal digit that the byte `b` writes, if it writes one.
pub open spec fn hex_value(b: u8) -> Option<u8> {
    if 0x30 <= b <= 0x39 {
        Some((b - 0x30) as u8)
    } else if 0x41 <= b <= 0x46 {
        Some((b - 0x41 + 10) as u8)
    } else if 0x61 <= b <= 0x66 {
        Some((b - 0x61 + 10) as u8)
    } else {
        None
    }
}

/// Whether an escape, `%` and two hexadecimal digits, stands at the start of `s`.
pub open spec fn escape_at_start(s: Seq<u8>) -> bool {
    s.len() >= 3 && s[0] == 0x25 && hex_value(s[1]) is Some && hex_value(s[2]) is Some
}

/// The bytes that `s` stands for once every escape is replaced by its byte;
/// `None` where a `%` starts no escape.
pub open spec fn unescaped(s: Seq<u8>) -> Option<Seq<u8>>
    decreases s.len(),
{
    if s.len() == 0 {
        Some(Seq::empty())
    } else if s[0] == 0x25 {
        if escape_at_start(s) {
            match unescaped(s.skip(3)) {
                Some(rest) => Some(
                    seq![(16 * hex_value(s[1])->0 + hex_value(s[2])->0) as u8] + rest,
                ),
                None => None,
            }
        } else {
            None
        }
    } else {
        match unescaped(s.skip(1)) {
            Some(rest) => Some(seq![s[0]] + rest),
            None => None,
        }
    }
}

/// The text that the segment `s` stands for: its UTF-8 bytes unescaped and
/// read as UTF-8 again. `None` where either step fails.
pub open spec fn percent_decoded(s: Seq<char>) -> Option<Seq<char>> {
    match unescaped(encode_utf8(s)) {
        Some(bytes) => if valid_utf8(bytes) {
            Some(decode_utf8(bytes))
        } else {
            None
        },
        None => None,
    }
}

/// A byte with its highest bit set is no percent sign.
proof fn high_byte_is_no_percent(low: u8)
    by (bit_vector)
    ensures
        0x80u8 | low != 0x25u8,
        0xC0u8 | low != 0x25u8,
        0xE0u8 | low != 0x25u8,
        0xF0u8 | low != 0x25u8,
{
}

/// The one byte of a scalar below 128 is the scalar itself.
proof fn low_scalar_is_its_byte(scalar: u32)
    by (bit_vector)
    requires
        scalar <= 0x7F,
    ensures
        (scalar & 0x7F) as u8 == scalar,
{
}

/// The UTF-8 bytes of a character other than the percent sign hold no
/// percent sign.
proof fn char_bytes_hold_no_percent(c: char)
    requires
        c != '%',
    ensures
        forall|k: int|
            0 <= k < encode_scalar(c as u32).len() ==> #[trigger] encode_scalar(c as u32)[k]
                != 0x25u8,
{
    let scalar = c as u32;
    char_is_scalar(c);
    assert(scalar != 0x25);
    if scalar <= 0x7F {
        low_scalar_is_its_byte(scalar);
    } else {
        high_byte_is_no_percent((scalar & 0x3F) as u8);
        high_byte_is_no_percent(((scalar >> 6) & 0x3F) as u8);
        high_byte_is_no_percent(((scalar >> 12) & 0x3F) as u8);
        high_byte_is_no_percent(((scalar >> 6) & 0x1F) as u8);
        high_byte_is_no_percent(((scalar >> 12) & 0x0F) as u8);
        high_byte_is_no_percent(((scalar >> 18) & 0x7) as u8);
    }
}

/// The UTF-8 bytes of a text without a percent sign hold no percent sign.
proof fn text_bytes_hold_no_percent(s: Seq<char>)
    requires
        forall|i: int| 0 <= i < s.len() ==> s[i] != '%',
    ensures
        forall|k: int| 0 <= k < encode_utf8(s).len() ==> #[trigger] encode_utf8(s)[k] != 0x25u8,
    decreases s.len(),
{
    if s.len() > 0 {
        let head = encode_scalar(s[0] as u32);
        let tail = encode_utf8(s.drop_first());
        char_bytes_hold_no_percent(s[0]);
        text_bytes_hold_no_percent(s.drop_first());
        assert forall|k: int| 0 <= k < encode_utf8(s).len() implies #[trigger] encode_utf8(s)[k]
            != 0x25u8 by {
            if k < head.len() {
                assert(encode_utf8(s)[k] == head[k]);
            } else {
                assert(encode_utf8(s)[k] == tail[k - head.len()]);
            }
        }
    }
}

/// Bytes without a percent sign stand for themselves.
pub proof fn bytes_without_percent_stand_for_themselves(bytes: Seq<u8>)
    requires
        forall|k: int| 0 <= k < bytes.len() ==> bytes[k] != 0x25u8,
    ensures
        unescaped(bytes) == Some(bytes),
    decreases bytes.len(),
{
    if bytes.len() > 0 {
        bytes_without_percent_stand_for_themselves(bytes.skip(1));
        assert(seq![bytes[0]] + bytes.skip(1) == bytes);
    } else {
        assert(bytes == Seq::<u8>::empty());
    }
}

/// A text without a percent sign is decoded to itself.
pub proof fn text_without_percent_decodes_to_itself(s: Seq<char>)
    requires
        forall|i: int| 0 <= i < s.len() ==> s[i] != '%',
    ensures
        percent_decoded(s) == Some(s),
{
    text_bytes_hold_no_percent(s);
    bytes_without_percent_stand_for_themselves(encode_utf8(s));
    encode_utf8_valid_utf8(s);
    encode_utf8_decode_utf8(s);
}

/// `String::from_utf8` of the standard library: the string that the bytes
/// encode where they are valid UTF-8, and nothing where they are not.
#[verifier::external_body]
fn string_from_utf8(bytes: Vec<u8>) -> (r: Option<String>)
    ensures
        match r {
            Some(s) => valid_utf8(bytes@) && s@ == decode_utf8(bytes@),
            None => !valid_utf8(bytes@),
        },
{
    String::from_utf8(bytes).ok()
}

/// The value of the hexadecimal digit that `b` writes, if it writes one.
pub fn hex_digit(b: u8) -> (r: Option<u8>)
    ensures
        r == hex_value(b),
{
    if 0x30 <= b && b <= 0x39 {
        Some(b - 0x30)
    } else if 0x41 <= b && b <= 0x46 {
        Some(b - 0x41 + 10)
    } else if 0x61 <= b && b <= 0x66 {
        Some(b - 0x61 + 10)
    } else {
        None
    }
}

/// Replaces every escape in `s` by the byte it stands for.
pub fn unescape(s: &[u8]) -> (r: Option<Vec<u8>>)
    ensures
        match r {
            Some(bytes) => unescaped(s@) == Some(bytes@),
            None => unescaped(s@) is None,
        },
{
    let mut out: Vec<u8> = Vec::new();
    let mut i: usize = 0;
    assert(s@.skip(0) == s@);
    while i < s.len()
        invariant
            i <= s.len(),
            unescaped(s@) == match unescaped(s@.skip(i as int)) {
                Some(rest) => Some(out@ + rest),
                None => None,
            },
        decreases s.len() - i,
    {
        let ghost rest = s@.skip(i as int);
        let ghost before = out@;
        if s[i] == 0x25 {
            if s.len() - i < 3 {
                return None;
            }
            let high = hex_digit(s[i + 1]);
            let low = hex_digit(s[i + 2]);
            match (high, low) {
                (Some(h), Some(l)) => {
                    out.push(16 * h + l);
                    i += 3;
                    proof {
                        assert(rest.skip(3) == s@.skip(i as int));
                        assert forall|tail: Seq<u8>|
                            before + (seq![(16 * h + l) as u8] + tail) == out@ + tail by {
                            assert(before + (seq![(16 * h + l) as u8] + tail) =~= out@ + tail);
                        }
                    }
                },
                _ => {
                    return None;
                },
            }
        } else {
            out.push(s[i]);
            i += 1;
            proof {
                assert(rest.skip(1) == s@.skip(i as int));
                assert forall|tail: Seq<u8>| before + (seq![rest[0]] + tail) == out@ + tail by {
                    assert(before + (seq![rest[0]] + tail) =~= out@ + tail);
                }
            }
        }
    }
    assert(s@.skip(i as int).len() == 0);
    assert(out@ + Seq::<u8>::empty() == out@);
    Some(out)
}

/// Percent-decodes one path segment.
pub fn percent_decode(segment: &str) -> (r: Option<String>)
    ensures
        match r {
            Some(text) => percent_decoded(segment@) == Some(text@),
            None => percent_decoded(segment@) is None,
        },
{
    match unescape(segment.as_bytes()) {
        Some(bytes) => string_from_utf8(bytes),
        None => None,
    }
}

} // verus!
