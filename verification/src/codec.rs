//! Fixed-width decoders shared by the scalar proxies.
//!
//! The 64-bit integer kind is stored as exactly 8 little-endian bytes in
//! two's complement; the short-name hash kind as exactly 4 little-endian
//! bytes. A buffer of any other width is a decode error, never a silent
//! truncation.

use vstd::prelude::*;
use vstd::bytes::lemma_auto_spec_u32_to_from_le_bytes;
use vstd::bytes::lemma_auto_spec_u64_to_from_le_bytes;
use vstd::bytes::spec_u32_from_le_bytes;
use vstd::bytes::spec_u32_to_le_bytes;
use vstd::bytes::spec_u64_from_le_bytes;
use vstd::bytes::spec_u64_to_le_bytes;
use vstd::bytes::u32_from_le_bytes;
use vstd::bytes::u64_from_le_bytes;
use vstd::bytes::u32_to_le_bytes;
use vstd::bytes::u64_to_le_bytes;
use vstd::utf8::encode_utf8;
use vstd::utf8::encode_utf8_decode_utf8;
use vstd::utf8::encode_utf8_valid_utf8;
use vstd::utf8::is_ascii_chars;
use vstd::utf8::is_ascii_chars_encode_utf8;
use vstd::utf8::valid_utf8;

verus! {

/// The signed value whose two's-complement 64-bit pattern is `n`.
pub open spec fn spec_i64_of_u64(n: u64) -> int {
    if n >= 0x8000_0000_0000_0000 {
        n - 0x1_0000_0000_0000_0000
    } else {
        n as int
    }
}

/// The 64-bit two's-complement pattern of the signed value `v`.
pub open spec fn spec_u64_of_i64(v: i64) -> u64 {
    (if v >= 0 {
        v as int
    } else {
        v as int + 0x1_0000_0000_0000_0000
    }) as u64
}

/// The signed 64-bit value held by an 8-byte little-endian buffer.
pub open spec fn spec_i64_from_le_bytes(s: Seq<u8>) -> int
    recommends
        s.len() == 8,
{
    spec_i64_of_u64(spec_u64_from_le_bytes(s))
}

/// The 8-byte little-endian buffer holding the signed 64-bit value `v`.
pub open spec fn spec_i64_to_le_bytes(v: i64) -> Seq<u8> {
    spec_u64_to_le_bytes(spec_u64_of_i64(v))
}

/// Decodes the 64-bit integer kind: exactly 8 bytes, little-endian
/// two's complement; any other width is a decode error.
pub fn decode_int64(bytes: &Vec<u8>) -> (r: Option<i64>)
    ensures
        bytes@.len() == 8 ==> (r matches Some(v) && v as int == spec_i64_from_le_bytes(bytes@)),
        bytes@.len() != 8 ==> r is None,
{
    if bytes.len() != 8 {
        return None;
    }
    let n: u64 = u64_from_le_bytes(bytes.as_slice());
    if n >= 0x8000_0000_0000_0000u64 {
        let m: u64 = n - 0x8000_0000_0000_0000u64;
        assert(m <= i64::MAX as u64);
        Some(i64::MIN + (m as i64))
    } else {
        Some(n as i64)
    }
}

/// Encodes a signed 64-bit value as its 8-byte little-endian buffer.
pub fn encode_int64(v: i64) -> (r: Vec<u8>)
    ensures
        r@ == spec_i64_to_le_bytes(v),
        r@.len() == 8,
{
    let n: u64 = if v >= 0 {
        v as u64
    } else {
        let m: i64 = v - i64::MIN;
        (m as u64) + 0x8000_0000_0000_0000u64
    };
    assert(n == spec_u64_of_i64(v));
    proof {
        lemma_auto_spec_u64_to_from_le_bytes();
    }
    u64_to_le_bytes(n)
}

/// Writing a signed 64-bit value and decoding the buffer back yields the
/// value itself, for every value including the extremes of the range.
pub proof fn lemma_int64_round_trip(v: i64)
    ensures
        spec_i64_to_le_bytes(v).len() == 8,
        spec_i64_from_le_bytes(spec_i64_to_le_bytes(v)) == v as int,
{
    lemma_auto_spec_u64_to_from_le_bytes();
    assert(spec_u64_from_le_bytes(spec_u64_to_le_bytes(spec_u64_of_i64(v))) == spec_u64_of_i64(v));
    assert(spec_i64_of_u64(spec_u64_of_i64(v)) == v as int);
}

/// Decodes the short-name hash kind: exactly 4 bytes, little-endian;
/// any other width is a decode error.
pub fn decode_uint32(bytes: &Vec<u8>) -> (r: Option<u32>)
    ensures
        bytes@.len() == 4 ==> (r matches Some(v) && v == spec_u32_from_le_bytes(bytes@)),
        bytes@.len() != 4 ==> r is None,
{
    if bytes.len() != 4 {
        return None;
    }
    Some(u32_from_le_bytes(bytes.as_slice()))
}

/// Encodes an unsigned 32-bit value as its 4-byte little-endian buffer.
pub fn encode_uint32(v: u32) -> (r: Vec<u8>)
    ensures
        r@ == spec_u32_to_le_bytes(v),
        r@.len() == 4,
{
    proof {
        lemma_auto_spec_u32_to_from_le_bytes();
    }
    u32_to_le_bytes(v)
}

/// Writing an unsigned 32-bit value and decoding the buffer back yields
/// the value itself.
pub proof fn lemma_uint32_round_trip(v: u32)
    ensures
        spec_u32_to_le_bytes(v).len() == 4,
        spec_u32_from_le_bytes(spec_u32_to_le_bytes(v)) == v,
{
    lemma_auto_spec_u32_to_from_le_bytes();
    assert(spec_u32_to_le_bytes(v).len() == 4);
    assert(spec_u32_to_le_bytes(spec_u32_from_le_bytes(spec_u32_to_le_bytes(v))) == spec_u32_to_le_bytes(
        v,
    ));
}

/// Relies on String::from_utf8: yields the string whose UTF-8 encoding
/// is the given buffer, and fails exactly when the buffer is not valid
/// UTF-8.
#[verifier::external_body]
pub(crate) fn string_from_utf8(bytes: Vec<u8>) -> (r: Option<String>)
    ensures
        r matches Some(s) ==> encode_utf8(s@) == bytes@,
        valid_utf8(bytes@) ==> r is Some,
{
    String::from_utf8(bytes).ok()
}

/// Two texts with the same UTF-8 encoding are the same text: decoding a
/// stored string buffer recovers exactly the text that produced it.
pub proof fn lemma_encode_utf8_injective(a: Seq<char>, b: Seq<char>)
    requires
        encode_utf8(a) == encode_utf8(b),
    ensures
        a == b,
{
    encode_utf8_decode_utf8(a);
    encode_utf8_decode_utf8(b);
}

/// An owned copy of a byte buffer.
pub(crate) fn clone_bytes(src: &Vec<u8>) -> (r: Vec<u8>)
    ensures
        r@ == src@,
{
    let mut r: Vec<u8> = Vec::new();
    let mut i: usize = 0;
    while i < src.len()
        invariant
            i <= src@.len(),
            r@ == src@.take(i as int),
        decreases src@.len() - i,
    {
        r.push(src[i]);
        proof {
            assert(src@.take(i as int).push(src@[i as int]) =~= src@.take(i as int + 1));
        }
        i = i + 1;
    }
    proof {
        assert(src@.take(src@.len() as int) =~= src@);
    }
    r
}

/// The character of one decimal digit.
pub open spec fn spec_digit_char(d: int) -> char
    recommends
        0 <= d < 10,
{
    ((48 + d) as u8) as char
}

/// The decimal digits of a non-negative integer, most significant first.
pub open spec fn spec_udec_chars(n: int) -> Seq<char>
    recommends
        n >= 0,
    decreases n,
{
    if n < 10 {
        seq![spec_digit_char(n)]
    } else {
        spec_udec_chars(n / 10).push(spec_digit_char(n % 10))
    }
}

/// The decimal rendering of a signed integer: its digits, preceded by a
/// minus sign when the value is negative.
pub open spec fn spec_dec_chars(v: int) -> Seq<char> {
    if v < 0 {
        seq!['-'] + spec_udec_chars(-v)
    } else {
        spec_udec_chars(v)
    }
}

/// The code-point bytes of a character sequence, one byte per
/// character; it coincides with the UTF-8 encoding on ASCII text.
pub open spec fn spec_chars_bytes(chars: Seq<char>) -> Seq<u8> {
    chars.map_values(|c: char| c as u8)
}

/// Every decimal rendering is ASCII text.
pub proof fn lemma_udec_chars_ascii(n: int)
    requires
        n >= 0,
    ensures
        is_ascii_chars(spec_udec_chars(n)),
    decreases n,
{
    if n < 10 {
        assert(spec_udec_chars(n)[0] as int == 48 + n);
    } else {
        lemma_udec_chars_ascii(n / 10);
        let prefix = spec_udec_chars(n / 10);
        let whole = spec_udec_chars(n);
        assert(whole[prefix.len() as int] as int == 48 + n % 10);
        assert forall|i: int| 0 <= i < whole.len() implies '\0' <= #[trigger] whole[i]
            <= '\u{7f}' by {
            if i < prefix.len() {
                assert(whole[i] == prefix[i]);
            }
        }
    }
}

/// Decimal digits of `n`, most significant first, as ASCII bytes.
fn u64_to_dec_bytes(n: u64) -> (r: Vec<u8>)
    ensures
        r@ == spec_chars_bytes(spec_udec_chars(n as int)),
{
    let mut r: Vec<u8> = Vec::new();
    let mut m: u64 = n;
    proof {
        assert(spec_chars_bytes(spec_udec_chars(n as int)) =~= spec_chars_bytes(
            spec_udec_chars(m as int),
        ) + r@);
    }
    while m >= 10
        invariant
            spec_chars_bytes(spec_udec_chars(n as int)) == spec_chars_bytes(
                spec_udec_chars(m as int),
            ) + r@,
        decreases m,
    {
        let ghost m0 = m as int;
        let ghost r0 = r@;
        let d: u8 = 48 + (m % 10) as u8;
        r.insert(0, d);
        m = m / 10;
        proof {
            assert(spec_udec_chars(m0) == spec_udec_chars(m0 / 10).push(spec_digit_char(m0 % 10)));
            assert(spec_chars_bytes(spec_udec_chars(m0)) =~= spec_chars_bytes(
                spec_udec_chars(m as int),
            ).push(d));
            assert(r@ =~= seq![d] + r0);
            assert(spec_chars_bytes(spec_udec_chars(m as int)).push(d) + r0 =~= spec_chars_bytes(
                spec_udec_chars(m as int),
            ) + r@);
        }
    }
    let ghost r1 = r@;
    let d: u8 = 48 + m as u8;
    r.insert(0, d);
    proof {
        assert(spec_chars_bytes(spec_udec_chars(m as int)) =~= seq![d]);
        assert(r@ =~= seq![d] + r1);
        assert(r@ =~= spec_chars_bytes(spec_udec_chars(n as int)));
    }
    r
}

/// Decimal rendering of a signed 64-bit value: its digits, preceded by a
/// minus sign when the value is negative.
pub fn int64_to_dec_string(v: i64) -> (r: String)
    ensures
        r@ == spec_dec_chars(v as int),
{
    let ghost chars = spec_dec_chars(v as int);
    let bytes: Vec<u8>;
    if v >= 0 {
        bytes = u64_to_dec_bytes(v as u64);
        proof {
            lemma_udec_chars_ascii(v as int);
        }
    } else {
        let mag: u64 = if v == i64::MIN {
            9223372036854775808u64
        } else {
            (-v) as u64
        };
        let mut digits = u64_to_dec_bytes(mag);
        digits.insert(0, 45);
        bytes = digits;
        proof {
            lemma_udec_chars_ascii(mag as int);
            assert(chars == seq!['-'] + spec_udec_chars(mag as int));
            assert(chars[0] == '-');
            assert forall|i: int| 0 <= i < chars.len() implies '\0' <= #[trigger] chars[i]
                <= '\u{7f}' by {
                if i > 0 {
                    assert(chars[i] == spec_udec_chars(mag as int)[i - 1]);
                }
            }
            assert(bytes@ =~= spec_chars_bytes(chars));
        }
    }
    proof {
        assert(is_ascii_chars(chars));
        is_ascii_chars_encode_utf8(chars);
        assert(encode_utf8(chars) =~= bytes@);
        encode_utf8_valid_utf8(chars);
    }
    match string_from_utf8(bytes) {
        Some(s) => {
            proof {
                lemma_encode_utf8_injective(s@, chars);
            }
            s
        },
        None => String::new(),
    }
}

} // verus!
