//! Little-endian reads on byte sequences, each tied to its value in `int`.

use vstd::prelude::*;

verus! {

/// The value of the little-endian `u16` at `p`.
pub open spec fn le16(s: Seq<u8>, p: int) -> int {
    s[p] as int + 256 * (s[p + 1] as int)
}

/// The value of the little-endian `u32` at `p`.
pub open spec fn le32(s: Seq<u8>, p: int) -> int {
    le16(s, p) + 65536 * le16(s, p + 2)
}

/// Reads the little-endian `u16` at `p`.
pub fn read_u16(b: &[u8], p: usize) -> (r: u16)
    requires
        p + 2 <= b@.len(),
    ensures
        r as int == le16(b@, p as int),
{
    b[p] as u16 + 256 * (b[p + 1] as u16)
}

/// Reads the little-endian `u32` at `p`.
pub fn read_u32(b: &[u8], p: usize) -> (r: u32)
    requires
        p + 4 <= b@.len(),
    ensures
        r as int == le32(b@, p as int),
{
    // The length, a `usize`, bounds `p + 2`.
    let _len = b.len();
    let lo = read_u16(b, p);
    let hi = read_u16(b, p + 2);
    lo as u32 + 65536 * (hi as u32)
}

/// Copies `len` bytes starting at `start`.
pub fn copy_range(b: &[u8], start: usize, len: usize) -> (r: Vec<u8>)
    requires
        start + len <= b@.len(),
    ensures
        r@ == b@.subrange(start as int, start + len),
{
    let n = b.len();
    let mut r: Vec<u8> = Vec::with_capacity(len);
    let mut i: usize = 0;
    while i < len
        invariant
            i <= len,
            start + len <= b@.len(),
            n == b@.len(),
            r@ == b@.subrange(start as int, start + i),
        decreases len - i,
    {
        r.push(b[start + i]);
        i = i + 1;
        assert(r@ =~= b@.subrange(start as int, start + i));
    }
    r
}

/// Whether two byte strings are equal.
pub fn bytes_eq(a: &Vec<u8>, b: &Vec<u8>) -> (r: bool)
    ensures
        r == (a@ == b@),
{
    if a.len() != b.len() {
        return false;
    }
    let mut i: usize = 0;
    while i < a.len()
        invariant
            i <= a@.len(),
            a@.len() == b@.len(),
            forall|k: int| 0 <= k < i ==> a@[k] == b@[k],
        decreases a@.len() - i,
    {
        if a[i] != b[i] {
            assert(a@[i as int] != b@[i as int]);
            return false;
        }
        i = i + 1;
    }
    assert(a@ =~= b@);
    true
}

/// The value of a hex digit, either case.
pub open spec fn hex_digit(c: char) -> Option<u8> {
    if '0' <= c && c <= '9' {
        Some((c as u32 - 48) as u8)
    } else if 'a' <= c && c <= 'f' {
        Some((c as u32 - 87) as u8)
    } else if 'A' <= c && c <= 'F' {
        Some((c as u32 - 55) as u8)
    } else {
        None
    }
}

/// An even number of hex digits.
pub open spec fn is_hex(s: Seq<char>) -> bool {
    &&& s.len() % 2 == 0
    &&& forall|i: int| 0 <= i < s.len() ==> hex_digit(s[i]) is Some
}

/// The bytes that a hex string spells, two digits each, high digit first.
pub open spec fn hex_bytes(s: Seq<char>) -> Seq<u8> {
    Seq::new(
        (s.len() / 2) as nat,
        |i: int| (hex_digit(s[2 * i])->0 * 16 + hex_digit(s[2 * i + 1])->0) as u8,
    )
}

/// Upper-case hex spelling of bytes, high digit first.
pub open spec fn upper_hex(b: Seq<u8>) -> Seq<char> {
    Seq::new(
        2 * b.len(),
        |i: int| "0123456789ABCDEF"@[if i % 2 == 0 { b[i / 2] / 16 } else { b[i / 2] % 16 } as int],
    )
}

/// Relies on hex::decode: either-case digits, two per byte; any other
/// character or an odd length is refused.
#[verifier::external_body]
pub(crate) fn hex_decode(s: &str) -> (r: Option<Vec<u8>>)
    ensures
        r is Some <==> is_hex(s@),
        r matches Some(v) ==> v@ == hex_bytes(s@),
{
    hex::decode(s).ok()
}

/// Relies on hex::encode_upper: two upper-case digits per byte.
#[verifier::external_body]
fn hex_encode_upper(b: &Vec<u8>) -> (r: String)
    ensures
        r@ == upper_hex(b@),
{
    hex::encode_upper(b)
}

/// The FMSPC as the collateral service expects it in a query.
pub fn fmspc_hex(fmspc: &Vec<u8>) -> (r: String)
    ensures
        r@ == upper_hex(fmspc@),
{
    hex_encode_upper(fmspc)
}

/// The big-endian value of four bytes.
pub open spec fn be32(b: Seq<u8>) -> int {
    b[0] * 16777216 + b[1] * 65536 + b[2] * 256 + b[3] as int
}

/// The UTF-8 encoding of a text.
pub uninterp spec fn utf8_of(s: Seq<char>) -> Seq<u8>;

/// Relies on `str::as_bytes`: the text's UTF-8 bytes, depending on its
/// characters alone.
#[verifier::external_body]
pub(crate) fn text_bytes(s: &str) -> (r: Vec<u8>)
    ensures
        r@ == utf8_of(s@),
{
    s.as_bytes().to_vec()
}

} // verus!
