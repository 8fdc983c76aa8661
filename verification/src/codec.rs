//! Base58 text encoding of key and signature bytes (Bitcoin alphabet,
//! no checksum), provided by the `bs58` crate behind trusted wrappers.
use vstd::prelude::*;

verus! {

/// A character of the Bitcoin base58 alphabet
/// (`123456789ABCDEFGHJKLMNPQRSTUVWXYZabcdefghijkmnopqrstuvwxyz`):
/// the digits and letters with `0`, `I`, `O` and `l` left out.
pub open spec fn is_b58_char(c: char) -> bool {
    ('1' <= c && c <= '9') || ('A' <= c && c <= 'H') || ('J' <= c && c <= 'N') || ('P' <= c
        && c <= 'Z') || ('a' <= c && c <= 'k') || ('m' <= c && c <= 'z')
}

/// Every character of `s` lies in the base58 alphabet. Exactly these
/// strings decode; the empty string is one of them.
pub open spec fn is_b58_string(s: Seq<char>) -> bool {
    forall|i: int| 0 <= i < s.len() ==> is_b58_char(s[i])
}

/// The JSON record that carries an exported keypair: an object with the
/// fields `public_key` and `secret_key`, in that order, holding the two
/// base58 strings. Base58 strings need no JSON escaping.
pub open spec fn export_record(pk: Seq<char>, sk: Seq<char>) -> Seq<char> {
    "{\"public_key\":\""@ + pk + "\",\"secret_key\":\""@ + sk + "\"}"@
}

/// The base58 encoding of a byte string: one leading `1` per leading zero
/// byte, then the remainder written big-endian in base 58. Every byte
/// string has exactly one such encoding and no two byte strings share one.
pub uninterp spec fn b58_of(bytes: Seq<u8>) -> Seq<char>;

/// Relies on `bs58::encode` with its default (Bitcoin) alphabet: the
/// returned string is the base58 encoding of `bytes`, so all of its
/// characters lie in the alphabet.
#[verifier::external_body]
pub(crate) fn b58_encode(bytes: &Vec<u8>) -> (r: String)
    ensures
        r@ == b58_of(bytes@),
        is_b58_string(r@),
{
    bs58::encode(bytes.as_slice()).into_string()
}

/// Relies on `bs58::decode` with its default (Bitcoin) alphabet: it fails
/// exactly on a character outside the alphabet, and on success returns the
/// one byte string whose base58 encoding is the input (base58 is a
/// bijection between byte strings and alphabet-only strings).
#[verifier::external_body]
pub(crate) fn b58_decode(s: &str) -> (r: Option<Vec<u8>>)
    ensures
        r is Some <==> is_b58_string(s@),
        r matches Some(v) ==> b58_of(v@) == s@ && (forall|b: Seq<u8>| b58_of(b) == s@ ==> b
            == v@),
        r is None ==> forall|b: Seq<u8>| b58_of(b) != s@,
{
    bs58::decode(s).into_vec().ok()
}

} // verus!
