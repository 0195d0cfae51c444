//! Content integrity: SHA-512 digests, their lowercase hex form, and the
//! fail-closed comparison against a declared checksum.

use vstd::prelude::*;

use crate::error::BuildError;
use crate::strutil::{eq_ignore_ascii_case, lower_char, lower_chars, str_eq_ignore_ascii_case};

verus! {

/// What SHA-512 returns for a byte sequence: fixed by the input bytes alone.
pub uninterp spec fn sha512_of(data: Seq<u8>) -> Seq<u8>;

/// Relies on sha2::Sha512 through digest::Digest::digest: a one-shot
/// SHA-512 digest, a pure function of the input with a 64-byte output.
#[verifier::external_body]
fn sha512_digest(data: &[u8]) -> (r: Vec<u8>)
    ensures
        r@ == sha512_of(data@),
        r@.len() == 64,
{
    <sha2::Sha512 as sha2::Digest>::digest(data).to_vec()
}

/// The lowercase hex digit with value `n`.
pub open spec fn hex_char(n: int) -> char {
    if n == 0 {
        '0'
    } else if n == 1 {
        '1'
    } else if n == 2 {
        '2'
    } else if n == 3 {
        '3'
    } else if n == 4 {
        '4'
    } else if n == 5 {
        '5'
    } else if n == 6 {
        '6'
    } else if n == 7 {
        '7'
    } else if n == 8 {
        '8'
    } else if n == 9 {
        '9'
    } else if n == 10 {
        'a'
    } else if n == 11 {
        'b'
    } else if n == 12 {
        'c'
    } else if n == 13 {
        'd'
    } else if n == 14 {
        'e'
    } else {
        'f'
    }
}

/// Lowercase hex encoding: two digits per byte, input order kept.
pub open spec fn hex_of(data: Seq<u8>) -> Seq<char>
    decreases data.len(),
{
    if data.len() == 0 {
        Seq::empty()
    } else {
        seq![hex_char(data.first() as int / 16), hex_char(data.first() as int % 16)] + hex_of(
            data.drop_first(),
        )
    }
}

/// A hex encoding is twice as long as its input.
pub proof fn lemma_hex_of_len(data: Seq<u8>)
    ensures
        hex_of(data).len() == 2 * data.len(),
    decreases data.len(),
{
    if data.len() > 0 {
        lemma_hex_of_len(data.drop_first());
    }
}

/// A hex encoding is already lower case: folding it changes nothing.
pub proof fn lemma_hex_of_lower_fixed(data: Seq<u8>)
    ensures
        lower_chars(hex_of(data)) == hex_of(data),
    decreases data.len(),
{
    broadcast use vstd::utf8::char_u32_cast;

    if data.len() > 0 {
        lemma_hex_of_lower_fixed(data.drop_first());
        assert forall|i: int| 0 <= i < hex_of(data).len() implies lower_char(
            hex_of(data)[i],
        ) == hex_of(data)[i] by {
            if i >= 2 {
                assert(hex_of(data)[i] == hex_of(data.drop_first())[i - 2]);
                assert(lower_chars(hex_of(data.drop_first()))[i - 2] == hex_of(
                    data.drop_first(),
                )[i - 2]);
            }
        }
    }
    assert(lower_chars(hex_of(data)) =~= hex_of(data));
}

/// Relies on hex::encode: lowercase hex, exactly two digits per byte, in
/// input order.
#[verifier::external_body]
fn hex_encode(data: &Vec<u8>) -> (r: String)
    ensures
        r@ == hex_of(data@),
{
    hex::encode(data)
}

/// The SHA-512 checksum of the given bytes: 128 lowercase hex characters.
pub fn get_sha512_of_bytes(data: &Vec<u8>) -> (r: String)
    ensures
        r@ == hex_of(sha512_of(data@)),
        r@.len() == 128,
{
    let digest = sha512_digest(data.as_slice());
    proof {
        lemma_hex_of_len(digest@);
    }
    hex_encode(&digest)
}

/// The bytes hash to the expected digest, compared case-insensitively.
pub open spec fn integrity_ok(data: Seq<u8>, expected_hex: Seq<char>) -> bool {
    eq_ignore_ascii_case(hex_of(sha512_of(data)), expected_hex)
}

/// Whether a computed digest equals a declared one, up to ASCII case.
pub fn hex_digests_match(actual_hex: &String, expected_hex: &String) -> (r: bool)
    ensures
        r == eq_ignore_ascii_case(actual_hex@, expected_hex@),
{
    str_eq_ignore_ascii_case(actual_hex.as_str(), expected_hex.as_str())
}

/// Fail-closed integrity check: succeeds exactly when the SHA-512 checksum
/// of `data` equals `expected_sha512_hex` up to ASCII case; on mismatch the
/// error carries both digests.
pub fn ensure_integrity_sha512(data: &Vec<u8>, expected_sha512_hex: &String) -> (r: Result<
    (),
    BuildError,
>)
    ensures
        r is Ok <==> integrity_ok(data@, expected_sha512_hex@),
        r matches Err(e) ==> e matches BuildError::Integrity { expected, actual }
            && expected@ == expected_sha512_hex@ && actual@ == hex_of(sha512_of(data@)),
{
    let actual = get_sha512_of_bytes(data);
    if hex_digests_match(&actual, expected_sha512_hex) {
        Ok(())
    } else {
        Err(BuildError::Integrity { expected: expected_sha512_hex.clone(), actual })
    }
}

} // verus!
