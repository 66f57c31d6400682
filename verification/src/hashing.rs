//! Content hashing: SHA-256 digests rendered as lowercase hex.

use vstd::prelude::*;
use sha2::Digest;

verus! {

/// The SHA-256 digest of a byte sequence.
pub uninterp spec fn sha256_of(bytes: Seq<u8>) -> Seq<u8>;

/// The lowercase hex character for the nibble `d` (0..=15).
pub open spec fn spec_hex_digit(d: u8) -> char
    recommends
        d < 16,
{
    if d < 10 {
        ((48 + d) as u8) as char
    } else {
        ((87 + d) as u8) as char
    }
}

/// The lowercase hex rendering of a byte sequence: two digits per byte,
/// high nibble first.
pub open spec fn spec_hex_chars(bytes: Seq<u8>) -> Seq<char> {
    Seq::new(bytes.len() * 2, |i: int|
        if i % 2 == 0 {
            spec_hex_digit(bytes[i / 2] / 16)
        } else {
            spec_hex_digit(bytes[i / 2] % 16)
        }
    )
}

/// Relies on sha2's `Sha256` (via the `Digest` trait): the digest is a
/// function of the input bytes alone and is 32 bytes long.
#[verifier::external_body]
fn sha256_digest(bytes: &[u8]) -> (r: Vec<u8>)
    ensures
        r@ == sha256_of(bytes@),
        r@.len() == 32,
{
    let mut hasher = sha2::Sha256::new();
    hasher.update(bytes);
    hasher.finalize().to_vec()
}

/// Relies on `hex::encode`: each input byte becomes two lowercase hex
/// digits, high nibble first.
#[verifier::external_body]
fn hex_lower(bytes: &[u8]) -> (r: String)
    ensures
        r@ == spec_hex_chars(bytes@),
{
    hex::encode(bytes)
}

/// The lowercase hex SHA-256 digest of `bytes`: the content-addressed
/// identity of a blob.
pub open spec fn spec_content_hash(bytes: Seq<u8>) -> Seq<char> {
    spec_hex_chars(sha256_of(bytes))
}

/// Computes the content-addressed identity of `bytes`.
pub fn content_hash_hex(bytes: &[u8]) -> (r: String)
    ensures
        r@ == spec_content_hash(bytes@),
        r@.len() == 64,
{
    let digest = sha256_digest(bytes);
    hex_lower(digest.as_slice())
}

/// The lowercase hex digit character for the nibble `d`.
pub fn hex_digit_str(d: u8) -> (r: &'static str)
    requires
        d < 16,
    ensures
        r@ =~= seq![spec_hex_digit(d)],
{
    if d < 10 {
        if d == 0 {
            proof { reveal_strlit("0"); }
            "0"
        } else if d == 1 {
            proof { reveal_strlit("1"); }
            "1"
        } else if d == 2 {
            proof { reveal_strlit("2"); }
            "2"
        } else if d == 3 {
            proof { reveal_strlit("3"); }
            "3"
        } else if d == 4 {
            proof { reveal_strlit("4"); }
            "4"
        } else if d == 5 {
            proof { reveal_strlit("5"); }
            "5"
        } else if d == 6 {
            proof { reveal_strlit("6"); }
            "6"
        } else if d == 7 {
            proof { reveal_strlit("7"); }
            "7"
        } else if d == 8 {
            proof { reveal_strlit("8"); }
            "8"
        } else {
            proof { reveal_strlit("9"); }
            "9"
        }
    } else {
        if d == 10 {
            proof { reveal_strlit("a"); }
            "a"
        } else if d == 11 {
            proof { reveal_strlit("b"); }
            "b"
        } else if d == 12 {
            proof { reveal_strlit("c"); }
            "c"
        } else if d == 13 {
            proof { reveal_strlit("d"); }
            "d"
        } else if d == 14 {
            proof { reveal_strlit("e"); }
            "e"
        } else {
            proof { reveal_strlit("f"); }
            "f"
        }
    }
}

/// Every character of a hex rendering is a decimal digit or one of 'a'..='f'.
pub proof fn lemma_hex_chars_are_hex(bytes: Seq<u8>)
    ensures
        forall|i: int| 0 <= i < spec_hex_chars(bytes).len()
            ==> (48 <= #[trigger] (spec_hex_chars(bytes)[i] as u32) <= 57
                || 97 <= spec_hex_chars(bytes)[i] as u32 <= 102),
{
    assert forall|i: int| 0 <= i < spec_hex_chars(bytes).len()
        implies (48 <= #[trigger] (spec_hex_chars(bytes)[i] as u32) <= 57
            || 97 <= spec_hex_chars(bytes)[i] as u32 <= 102) by {
        let b = bytes[i / 2];
        assert(b / 16 < 16 && b % 16 < 16);
    }
}

} // verus!
