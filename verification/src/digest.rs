//! The calls into hashing, UUID and constant-time comparison crates.

use vstd::prelude::*;
use vstd::utf8::encode_utf8;
use crate::text::{
    hex_digit, hex_encode, hex_lower, is_digest_label, is_digest_text, is_lower_hex_byte,
    lemma_hex_lower_len, push_chars, push_str, sha256_prefix_bytes, string_from_chars,
};
use vstd::utf8::{is_ascii_chars, is_ascii_chars_encode_utf8};
use subtle::ConstantTimeEq;
use sha2::Digest;

verus! {

/// The SHA-256 digest of a byte sequence, as `sha2::Sha256` computes it.
pub uninterp spec fn sha256_of(data: Seq<u8>) -> Seq<u8>;

/// What `uuid::Uuid::parse_str` makes of a text: the UUID's 128-bit value,
/// or nothing when the text is not a UUID in any of the accepted spellings.
pub uninterp spec fn uuid_parse_of(text: Seq<char>) -> Option<u128>;

/// `sha2::Sha256::digest`: returns the 32-byte digest of `data`; the contract
/// names the digest and states its length, which the output type fixes.
#[verifier::external_body]
pub(crate) fn sha256(data: &[u8]) -> (r: Vec<u8>)
    ensures
        r@ == sha256_of(data@),
        r@.len() == 32,
{
    sha2::Sha256::digest(data).to_vec()
}

/// `uuid::Uuid::parse_str` followed by `Uuid::as_u128`: the parsed UUID's
/// value in big-endian digit order, or `None` when parsing fails.
#[verifier::external_body]
pub(crate) fn uuid_parse(text: &str) -> (r: Option<u128>)
    ensures
        r == uuid_parse_of(text@),
{
    match uuid::Uuid::parse_str(text) {
        Ok(u) => Some(u.as_u128()),
        Err(_) => None,
    }
}

/// `<[u8] as subtle::ConstantTimeEq>::ct_eq`: true exactly when the two byte
/// slices have the same length and contents; the comparison time does not
/// depend on the contents.
#[verifier::external_body]
pub(crate) fn constant_time_eq(a: &[u8], b: &[u8]) -> (r: bool)
    ensures
        r == (a@ == b@),
{
    bool::from(a.ct_eq(b))
}

/// `uuid::Uuid::new_v4`: a fresh random UUID. Its value is random; what holds
/// of every outcome is that the version and variant bits are set (so it is
/// never the nil UUID).
#[verifier::external_body]
pub(crate) fn random_uuid() -> (r: u128)
    ensures
        r & 0x4000_8000_0000_0000_0000u128 == 0x4000_8000_0000_0000_0000u128,
{
    uuid::Uuid::new_v4().as_u128()
}

/// `sha256:` and the lower-case hexadecimal SHA-256 digest of a text's UTF-8 bytes.
pub open spec fn digest_label_of(text: Seq<char>) -> Seq<char> {
    "sha256:"@ + hex_lower(sha256_of(encode_utf8(text)))
}

/// Every character of a hexadecimal text is a lower-case hexadecimal digit.
pub proof fn lemma_hex_lower_digits(bytes: Seq<u8>)
    ensures
        forall|i: int| 0 <= i < hex_lower(bytes).len() ==> {
            let c = #[trigger] hex_lower(bytes)[i];
            ('0' <= c && c <= '9') || ('a' <= c && c <= 'f')
        },
    decreases bytes.len(),
{
    if bytes.len() > 0 {
        lemma_hex_lower_digits(bytes.drop_last());
        let b = bytes.last();
        let hi = hex_digit(b / 16);
        let lo = hex_digit(b % 16);
        assert(('0' <= hi && hi <= '9') || ('a' <= hi && hi <= 'f'));
        assert(('0' <= lo && lo <= '9') || ('a' <= lo && lo <= 'f'));
        let prev = hex_lower(bytes.drop_last());
        assert forall|i: int| 0 <= i < hex_lower(bytes).len() implies {
            let c = #[trigger] hex_lower(bytes)[i];
            ('0' <= c && c <= '9') || ('a' <= c && c <= 'f')
        } by {
            if i < prev.len() {
                assert(hex_lower(bytes)[i] == prev[i]);
            }
        }
    }
}

/// `sha256:` followed by the hexadecimal text of 32 bytes is a digest label.
pub proof fn lemma_digest_label_shape(h: Seq<u8>)
    requires
        h.len() == 32,
    ensures
        is_digest_text("sha256:"@ + hex_lower(h)),
{
    reveal_strlit("sha256:");
    lemma_hex_lower_len(h);
    lemma_hex_lower_digits(h);
    let t = "sha256:"@ + hex_lower(h);
    assert(is_ascii_chars(t)) by {
        assert forall|i: int| 0 <= i < t.len() implies '\0' <= #[trigger] t[i] <= '\u{7f}' by {
            if i >= 7 {
                assert(t[i] == hex_lower(h)[i - 7]);
            }
        }
    }
    is_ascii_chars_encode_utf8(t);
    let b = vstd::utf8::encode_utf8(t);
    assert(b.subrange(0, 7) =~= sha256_prefix_bytes()) by {
        assert forall|i: int| 0 <= i < 7 implies b.subrange(0, 7)[i] == sha256_prefix_bytes()[i] by {
            assert(b[i] == t[i] as u8);
        }
    }
    assert forall|i: int| 7 <= i < 71 implies is_lower_hex_byte(#[trigger] b[i]) by {
        assert(t[i] == hex_lower(h)[i - 7]);
        assert(b[i] == t[i] as u8);
    }
}

/// Computes `digest_label_of` for a character sequence.
pub fn digest_label(text: &Vec<char>) -> (r: Vec<char>)
    ensures
        r@ == digest_label_of(text@),
        r@.len() == 71,
        is_digest_text(r@),
{
    let s = string_from_chars(text);
    let h = sha256(s.as_str().as_bytes());
    let hex = hex_encode(h.as_slice());
    proof {
        lemma_hex_lower_len(sha256_of(encode_utf8(text@)));
        lemma_digest_label_shape(sha256_of(encode_utf8(text@)));
        reveal_strlit("sha256:");
    }
    let mut out: Vec<char> = Vec::new();
    push_str(&mut out, "sha256:");
    push_chars(&mut out, &hex);
    out
}

} // verus!
