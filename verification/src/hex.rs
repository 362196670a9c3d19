//! Hexadecimal codec for the line protocol.
//!
//! Inbound block payloads are hex text and are decoded through the
//! `faster_hex` crate; outbound announcement frames carry lower-case hex
//! that this module encodes itself.

use vstd::prelude::*;

verus! {

/// True of an ASCII byte that is a hexadecimal digit, either case.
pub open spec fn is_hex_digit(c: u8) -> bool {
    (48 <= c <= 57) || (65 <= c <= 70) || (97 <= c <= 102)
}

/// Numeric value of one hexadecimal digit.
pub open spec fn hex_val(c: u8) -> u8
    recommends
        is_hex_digit(c),
{
    if 48 <= c <= 57 {
        (c - 48) as u8
    } else if 65 <= c <= 70 {
        (c - 55) as u8
    } else {
        (c - 87) as u8
    }
}

/// The lower-case ASCII digit of a nibble value.
pub open spec fn hex_digit(v: u8) -> u8
    recommends
        v < 16,
{
    if v < 10 {
        (v + 48) as u8
    } else {
        (v + 87) as u8
    }
}

/// A payload the hex decoder accepts: of even length and made of
/// hexadecimal digits only.
pub open spec fn hex_ok(s: Seq<u8>) -> bool {
    &&& s.len() % 2 == 0
    &&& forall|i: int| 0 <= i < s.len() ==> is_hex_digit(s[i])
}

/// The bytes a hexadecimal string denotes, two digits per byte.
pub open spec fn hex_decoded(s: Seq<u8>) -> Seq<u8>
    recommends
        s.len() % 2 == 0,
    decreases s.len(),
{
    if s.len() < 2 {
        Seq::empty()
    } else {
        seq![(hex_val(s[0]) * 16 + hex_val(s[1])) as u8] + hex_decoded(s.skip(2))
    }
}

/// Lower-case hex encoding of a byte string, two digits per byte.
pub open spec fn hex_encoded(s: Seq<u8>) -> Seq<u8> {
    Seq::new(
        s.len() * 2,
        |i: int|
            if i % 2 == 0 {
                hex_digit(s[i / 2] >> 4)
            } else {
                hex_digit(s[i / 2] & 0x0f)
            },
    )
}

/// Relies on `faster_hex::hex_decode`: with a buffer of half the input's
/// length it errs exactly on an odd-length or non-hex input, and
/// otherwise fills the buffer with the denoted bytes.
#[verifier::external_body]
pub(crate) fn hex_decode_checked(src: &[u8]) -> (r: Option<Vec<u8>>)
    ensures
        r is Some <==> hex_ok(src@),
        r matches Some(v) ==> v@ == hex_decoded(src@),
{
    let mut dst = vec![0u8; src.len() / 2];
    match faster_hex::hex_decode(src, &mut dst) {
        Ok(_) => Some(dst),
        Err(_) => None,
    }
}

/// Exec counterpart of `hex_digit`.
fn hex_digit_byte(v: u8) -> (r: u8)
    requires
        v < 16,
    ensures
        r == hex_digit(v),
{
    if v < 10 {
        v + 48
    } else {
        v + 87
    }
}

/// Appends the lower-case hex encoding of `bytes` to `dst`.
pub fn push_hex(dst: &mut Vec<u8>, bytes: &[u8])
    ensures
        final(dst)@ == old(dst)@ + hex_encoded(bytes@),
{
    let ghost base = dst@;
    let mut i: usize = 0;
    while i < bytes.len()
        invariant
            i <= bytes@.len(),
            dst@.len() == base.len() + 2 * i,
            forall|j: int| 0 <= j < base.len() ==> dst@[j] == base[j],
            forall|j: int| 0 <= j < 2 * i ==> dst@[base.len() + j] == hex_encoded(bytes@)[j],
        decreases bytes@.len() - i,
    {
        let b = bytes[i];
        assert((b >> 4) < 16 && (b & 0x0f) < 16) by (bit_vector);
        dst.push(hex_digit_byte(b >> 4));
        dst.push(hex_digit_byte(b & 0x0f));
        i += 1;
    }
    proof {
        assert(dst@ =~= base + hex_encoded(bytes@));
    }
}

/// Lower-case hex encoding of a byte string.
pub fn hex_encode(bytes: &[u8]) -> (r: Vec<u8>)
    ensures
        r@ == hex_encoded(bytes@),
{
    let mut r: Vec<u8> = Vec::new();
    push_hex(&mut r, bytes);
    proof {
        assert(r@ =~= hex_encoded(bytes@));
    }
    r
}

} // verus!
