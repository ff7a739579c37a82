//! Digests and their hexadecimal notation.

use vstd::prelude::*;

use crate::text::{ascii_lower, lowered};

verus! {

/// The lower-case hexadecimal digit for `d`, which is below sixteen.
pub open spec fn hex_digit(d: int) -> char {
    if d < 10 {
        ((0x30 + d) as u8) as char
    } else {
        ((0x57 + d) as u8) as char
    }
}

/// `bytes` in lower-case hexadecimal notation, two digits a byte.
pub open spec fn hex_text(bytes: Seq<u8>) -> Seq<char> {
    Seq::new(
        2 * bytes.len(),
        |i: int|
            hex_digit(
                if i % 2 == 0 {
                    bytes[i / 2] as int / 16
                } else {
                    bytes[i / 2] as int % 16
                },
            ),
    )
}

/// The value of a hexadecimal digit in either case.
pub open spec fn hex_value(c: char) -> Option<int> {
    if '0' <= c && c <= '9' {
        Some(c as int - 0x30)
    } else if 'a' <= c && c <= 'f' {
        Some(c as int - 0x57)
    } else if 'A' <= c && c <= 'F' {
        Some(c as int - 0x37)
    } else {
        None
    }
}

/// `text` is hexadecimal notation: an even number of digits.
pub open spec fn is_hex(text: Seq<char>) -> bool {
    &&& text.len() % 2 == 0
    &&& forall|i: int| 0 <= i < text.len() ==> hex_value(#[trigger] text[i]) is Some
}

/// The bytes that `text` stands for, where it is hexadecimal notation.
pub open spec fn hex_bytes(text: Seq<char>) -> Seq<u8> {
    Seq::new(
        text.len() / 2,
        |i: int| (16 * hex_value(text[2 * i])->0 + hex_value(text[2 * i + 1])->0) as u8,
    )
}

/// Calls `hex::encode`: lower-case hexadecimal notation, two digits a byte.
#[verifier::external_body]
pub(crate) fn hex_encode(bytes: &[u8]) -> (r: String)
    ensures
        r@ == hex_text(bytes@),
{
    hex::encode(bytes)
}

/// Calls `hex::decode`: the bytes of hexadecimal notation in either case. An
/// odd length or any other character is an error, of which only the fact is
/// kept.
#[verifier::external_body]
pub(crate) fn hex_decode(text: &str) -> (r: Option<Vec<u8>>)
    ensures
        match r {
            Some(bytes) => is_hex(text@) && bytes@ == hex_bytes(text@),
            None => !is_hex(text@),
        },
{
    hex::decode(text).ok()
}

/// The SHA-1 digest of `data`.
pub uninterp spec fn sha1_digest(data: Seq<u8>) -> Seq<u8>;

/// The SHA-256 digest of `data`.
pub uninterp spec fn sha256_digest(data: Seq<u8>) -> Seq<u8>;

/// Calls `sha1::Sha1::digest`: the digest of the whole of `data`.
#[verifier::external_body]
pub(crate) fn sha1(data: &[u8]) -> (r: [u8; 20])
    ensures
        r@ == sha1_digest(data@),
{
    <sha1::Sha1 as sha1::Digest>::digest(data).into()
}

/// Calls `sha2::Sha256::digest`: the digest of the whole of `data`.
#[verifier::external_body]
pub(crate) fn sha256(data: &[u8]) -> (r: [u8; 32])
    ensures
        r@ == sha256_digest(data@),
{
    <sha2::Sha256 as sha2::Digest>::digest(data).into()
}

/// Whether two byte strings are the same.
pub fn equal_bytes(a: &[u8], b: &[u8]) -> (r: bool)
    ensures
        r == (a@ == b@),
{
    if a.len() != b.len() {
        return false;
    }
    let mut i: usize = 0;
    while i < a.len()
        invariant
            i <= a@.len() == b@.len(),
            forall|k: int| 0 <= k < i ==> a@[k] == b@[k],
        decreases a@.len() - i,
    {
        if a[i] != b[i] {
            return false;
        }
        i = i + 1;
    }
    assert(a@ =~= b@);
    true
}

/// Bytes that were read from a notation are written as that notation in lower
/// case.
pub proof fn law_hex_is_written_in_lower_case(text: Seq<char>)
    requires
        is_hex(text),
    ensures
        hex_text(hex_bytes(text)) == lowered(text),
{
    let bytes = hex_bytes(text);
    let written = hex_text(bytes);
    assert forall|i: int| 0 <= i < text.len() implies written[i] == lowered(text)[i] by {
        let k = i / 2;
        let high = hex_value(text[2 * k])->0;
        let low = hex_value(text[2 * k + 1])->0;
        assert(hex_value(text[2 * k]) is Some && hex_value(text[2 * k + 1]) is Some);
        assert(0 <= high < 16 && 0 <= low < 16);
        assert(bytes[k] == 16 * high + low);
        assert(hex_value(text[i]) is Some);
        assert(lowered(text)[i] == ascii_lower(text[i]));
        if i % 2 == 0 {
            assert(i == 2 * k);
            assert(written[i] == hex_digit(high));
        } else {
            assert(i == 2 * k + 1);
            assert(written[i] == hex_digit(low));
        }
    }
    assert(written =~= lowered(text));
}

/// The notation of a digest reads back as the digest.
pub proof fn law_hex_round_trip(bytes: Seq<u8>)
    ensures
        is_hex(hex_text(bytes)),
        hex_bytes(hex_text(bytes)) == bytes,
{
    let text = hex_text(bytes);
    assert forall|i: int| 0 <= i < text.len() implies hex_value(#[trigger] text[i]) is Some && (
    hex_value(text[i])->0) == (if i % 2 == 0 {
        bytes[i / 2] as int / 16
    } else {
        bytes[i / 2] as int % 16
    }) by {}
    assert(hex_bytes(text) =~= bytes) by {
        assert forall|i: int| 0 <= i < bytes.len() implies hex_bytes(text)[i] == bytes[i] by {
            assert(text[2 * i] == text[2 * i]);
            assert(hex_value(text[2 * i])->0 == bytes[i] as int / 16);
            assert(hex_value(text[2 * i + 1])->0 == bytes[i] as int % 16);
        }
    }
}

} // verus!
