//! Byte-level encodings: big-endian integers and hexadecimal text.
use vstd::prelude::*;
use crate::text::is_hex_digit;

verus! {

/// Big-endian bytes of a 64-bit word.
pub open spec fn u64_be(x: u64) -> Seq<u8> {
    seq![
        (x >> 56u64) as u8, (x >> 48u64) as u8, (x >> 40u64) as u8, (x >> 32u64) as u8,
        (x >> 24u64) as u8, (x >> 16u64) as u8, (x >> 8u64) as u8, x as u8,
    ]
}

/// Big-endian two's-complement bytes of an `i64`, as `i64::to_be_bytes` gives them.
pub open spec fn i64_be(x: i64) -> Seq<u8> {
    u64_be(x as u64)
}

/// Big-endian two's-complement bytes of an `i32`, as `i32::to_be_bytes` gives them.
pub open spec fn i32_be(x: i32) -> Seq<u8> {
    let y = x as u32;
    seq![(y >> 24u32) as u8, (y >> 16u32) as u8, (y >> 8u32) as u8, y as u8]
}

/// The `u64` whose big-endian bytes are `b[0..8]`.
pub open spec fn u64_of_be(b: Seq<u8>) -> u64 {
    ((b[0] as u64) << 56u64) | ((b[1] as u64) << 48u64) | ((b[2] as u64) << 40u64)
        | ((b[3] as u64) << 32u64) | ((b[4] as u64) << 24u64) | ((b[5] as u64) << 16u64)
        | ((b[6] as u64) << 8u64) | (b[7] as u64)
}

/// The `i64` whose big-endian two's-complement bytes are `b[0..8]`.
pub open spec fn i64_of_be(b: Seq<u8>) -> i64 {
    u64_of_be(b) as i64
}

/// Decoding the big-endian bytes of an `i64` gives it back.
pub proof fn lemma_i64_be_roundtrip(x: i64)
    ensures
        i64_of_be(i64_be(x)) == x,
        i64_be(x).len() == 8,
{
    let y = x as u64;
    assert((((((y >> 56u64) as u8) as u64) << 56u64) | (((((y >> 48u64) as u8) as u64)) << 48u64)
        | (((((y >> 40u64) as u8) as u64)) << 40u64) | (((((y >> 32u64) as u8) as u64)) << 32u64)
        | (((((y >> 24u64) as u8) as u64)) << 24u64) | (((((y >> 16u64) as u8) as u64)) << 16u64)
        | (((((y >> 8u64) as u8) as u64)) << 8u64) | ((y as u8) as u64)) == y) by (bit_vector);
    assert((y as i64) == x) by (bit_vector)
        requires
            y == x as u64,
    ;
}

/// The big-endian two's-complement bytes of `x`.
pub fn i64_to_be_bytes(x: i64) -> (r: [u8; 8])
    ensures
        r@ == i64_be(x),
{
    let y = x as u64;
    let r: [u8; 8] = [
        (y >> 56u64) as u8, (y >> 48u64) as u8, (y >> 40u64) as u8, (y >> 32u64) as u8,
        (y >> 24u64) as u8, (y >> 16u64) as u8, (y >> 8u64) as u8, y as u8,
    ];
    assert(r@ =~= i64_be(x));
    r
}

/// The integer whose big-endian two's-complement bytes are `b`.
pub fn i64_from_be_bytes(b: [u8; 8]) -> (r: i64)
    ensures
        r == i64_of_be(b@),
{
    let y: u64 = ((b[0] as u64) << 56u64) | ((b[1] as u64) << 48u64) | ((b[2] as u64) << 40u64)
        | ((b[3] as u64) << 32u64) | ((b[4] as u64) << 24u64) | ((b[5] as u64) << 16u64)
        | ((b[6] as u64) << 8u64) | (b[7] as u64);
    y as i64
}

/// The big-endian two's-complement bytes of `x`.
pub fn i32_to_be_bytes(x: i32) -> (r: [u8; 4])
    ensures
        r@ == i32_be(x),
{
    let y = x as u32;
    let r: [u8; 4] = [(y >> 24u32) as u8, (y >> 16u32) as u8, (y >> 8u32) as u8, y as u8];
    assert(r@ =~= i32_be(x));
    r
}

/// Value of one hexadecimal digit, either case.
pub open spec fn hex_val(c: char) -> int {
    if '0' <= c && c <= '9' {
        (c as int) - ('0' as int)
    } else if 'a' <= c && c <= 'f' {
        (c as int) - ('a' as int) + 10
    } else {
        (c as int) - ('A' as int) + 10
    }
}

/// The bytes that a hex string denotes: two digits per byte, high digit
/// first, either case; `None` for an odd length or a non-digit.
pub open spec fn hex_decode_seq(s: Seq<char>) -> Option<Seq<u8>> {
    if s.len() % 2 == 0 && forall|i: int| 0 <= i < s.len() ==> is_hex_digit(#[trigger] s[i]) {
        Some(Seq::new(s.len() / 2, |i: int| (hex_val(s[2 * i]) * 16 + hex_val(s[2 * i + 1])) as u8))
    } else {
        None
    }
}

/// Upper-case hexadecimal digit for a value below 16.
pub open spec fn hex_upper_digit(v: int) -> char {
    if v < 10 {
        (('0' as int) + v) as char
    } else {
        (('A' as int) + v - 10) as char
    }
}

/// Upper-case hex text of `b`: two digits per byte, high digit first.
pub open spec fn hex_upper_seq(b: Seq<u8>) -> Seq<char> {
    Seq::new(
        2 * b.len(),
        |i: int|
            if i % 2 == 0 {
                hex_upper_digit(b[i / 2] as int / 16)
            } else {
                hex_upper_digit(b[i / 2] as int % 16)
            },
    )
}

/// Calls `hex::decode`.
/// Claims that it succeeds exactly on even-length strings of hex digits of
/// either case and then yields one byte per digit pair, high digit first;
/// hex 0.4.3's `FromHex for Vec<u8>` and its `val` show this. The error is
/// the `FromHexError` displayed, of which nothing is claimed.
#[verifier::external_body]
pub(crate) fn hex_decode(s: &str) -> (r: Result<Vec<u8>, String>)
    ensures
        match r {
            Ok(v) => hex_decode_seq(s@) == Some(v@),
            Err(_) => hex_decode_seq(s@) is None,
        },
{
    hex::decode(s).map_err(|e| e.to_string())
}

/// Calls `hex::encode_upper`.
/// Claims two upper-case digits per byte, high digit first, from the table
/// `0123456789ABCDEF`, as hex 0.4.3's `BytesToHexChars` shows.
#[verifier::external_body]
pub(crate) fn hex_encode_upper(b: &[u8]) -> (r: String)
    ensures
        r@ == hex_upper_seq(b@),
{
    hex::encode_upper(b)
}

/// Element-wise equality of two byte slices.
pub fn bytes_eq(a: &[u8], b: &[u8]) -> (r: bool)
    ensures
        r == (a@ == b@),
{
    if a.len() != b.len() {
        return false;
    }
    let mut i: usize = 0;
    while i < a.len()
        invariant
            a@.len() == b@.len(),
            i <= a@.len(),
            forall|k: int| 0 <= k < i ==> a@[k] == b@[k],
        decreases a@.len() - i,
    {
        if a[i] != b[i] {
            return false;
        }
        i = i + 1;
    }
    assert(a@ =~= b@);
    true
}

} // verus!

verus! {

/// Equality of two 16-byte identifiers.
pub fn ids_eq(a: &[u8; 16], b: &[u8; 16]) -> (r: bool)
    ensures
        r == (*a == *b),
{
    broadcast use vstd::array::group_array_axioms;
    let r = bytes_eq(a.as_slice(), b.as_slice());
    if r {
        assert forall|i: int| 0 <= i < 16 implies a[i] == b[i] by {
            assert(a@[i] == b@[i]);
        }
        assert(*a =~= *b);
    }
    r
}

} // verus!

verus! {

/// Reading back an upper-case hex digit gives its value.
pub proof fn lemma_hex_digit_roundtrip(v: int)
    requires
        0 <= v < 16,
    ensures
        is_hex_digit(hex_upper_digit(v)),
        hex_val(hex_upper_digit(v)) == v,
{
}

/// Decoding the upper-case hex text of bytes gives the bytes back.
pub proof fn lemma_hex_roundtrip(b: Seq<u8>)
    ensures
        hex_decode_seq(hex_upper_seq(b)) == Some(b),
{
    let s = hex_upper_seq(b);
    assert forall|i: int| 0 <= i < s.len() implies is_hex_digit(#[trigger] s[i]) by {
        if i % 2 == 0 {
            lemma_hex_digit_roundtrip(b[i / 2] as int / 16);
        } else {
            lemma_hex_digit_roundtrip(b[i / 2] as int % 16);
        }
    }
    let d = Seq::new(s.len() / 2, |i: int| (hex_val(s[2 * i]) * 16 + hex_val(s[2 * i + 1])) as u8);
    assert forall|i: int| 0 <= i < b.len() implies d[i] == b[i] by {
        assert((2 * i) / 2 == i);
        assert((2 * i + 1) / 2 == i);
        assert((2 * i) % 2 == 0);
        assert((2 * i + 1) % 2 == 1);
        lemma_hex_digit_roundtrip(b[i] as int / 16);
        lemma_hex_digit_roundtrip(b[i] as int % 16);
    }
    assert(d =~= b);
}

} // verus!
