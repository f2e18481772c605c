//! Registering a human signing key: the server derives the whole
//! registration challenge from the authenticated identity, the offered
//! public key and a five-minute issue bucket, so that a recovered or retried
//! registration of the same key in the same bucket yields the same
//! challenge and idempotency key.

use vstd::prelude::*;
use vstd::utf8::encode_utf8;
use crate::digest::sha256_of;
use crate::error::AppError;
use crate::frames::{refused_as, Refusal};
use crate::identity::AlphaIdentity;
use crate::json::JsonValue;
use crate::nakama::{base64_decode, base64_decode_of, base64_encode, base64_encode_of};
use crate::practice_http::{digest_label, digest_label_of_bytes};
use crate::text::{hex_encode, hex_lower, push_chars, push_str, str_eq, string_from_chars};

verus! {

pub const HUMAN_REGISTRATION_BUCKET_SECONDS: i64 = 300;
pub const HUMAN_REGISTRATION_TTL_SECONDS: i64 = 600;
pub const IDEMPOTENCY_DOMAIN: &'static str = "paper_raid_bff_human_registration_idempotency_v1\0";
pub const KEY_NOT_BASE64: &'static str = "human signing public key must be canonical base64";
pub const KEY_NOT_CANONICAL: &'static str =
    "human signing public key must be canonical padded base64 for 32 bytes";
pub const KEY_NOT_ED25519: &'static str = "human signing public key is not Ed25519";
pub const RECOVERED_KEY_DIFFERS: &'static str =
    "the registered human signing key differs from this recovery proof";

/// Whether `ed25519_dalek::VerifyingKey::from_bytes` accepts 32 bytes: they
/// must be the compressed form of a point it can decompress.
pub uninterp spec fn ed25519_key_accepted_of(bytes: Seq<u8>) -> bool;

/// `ed25519_dalek::VerifyingKey::from_bytes`, asked only whether it
/// succeeds; the answer depends on the bytes alone.
#[verifier::external_body]
fn ed25519_key_accepted(bytes: &[u8]) -> (r: bool)
    requires
        bytes@.len() == 32,
    ensures
        r == ed25519_key_accepted_of(bytes@),
{
    match <&[u8; 32]>::try_from(bytes) {
        Ok(key) => ed25519_dalek::VerifyingKey::from_bytes(key).is_ok(),
        Err(_) => false,
    }
}

/// The last `k` bytes of `x` in big-endian order.
pub open spec fn be_bytes(x: nat, k: nat) -> Seq<u8>
    decreases k,
{
    if k == 0 {
        Seq::<u8>::empty()
    } else {
        be_bytes(x / 256, (k - 1) as nat).push((x % 256) as u8)
    }
}

/// The number big-endian bytes spell.
pub open spec fn be_value(b: Seq<u8>) -> nat
    decreases b.len(),
{
    if b.len() == 0 {
        0
    } else {
        be_value(b.drop_last()) * 256 + (b.last() as nat)
    }
}

pub open spec fn pow256(n: nat) -> nat
    decreases n,
{
    if n == 0 {
        1
    } else {
        pow256((n - 1) as nat) * 256
    }
}

/// A field as the idempotency hash frames it: its length in four
/// big-endian bytes, then the field.
pub open spec fn framed(field: Seq<u8>) -> Seq<u8> {
    be_bytes(field.len(), 4) + field
}

/// The message whose digest names a registration: the domain, the framed
/// subject, player, game account and public key, and the issue time.
pub open spec fn idempotency_message(subject: Seq<char>, player: u128, nakama: u128, key: Seq<u8>, issued: i64) -> Seq<u8> {
    encode_utf8(IDEMPOTENCY_DOMAIN@) + framed(encode_utf8(subject)) + framed(be_bytes(player as nat, 16))
        + framed(be_bytes(nakama as nat, 16)) + framed(key) + be_bytes(issued as nat, 8)
}

/// The name-based UUID a digest gives: its first sixteen bytes with the
/// version-5 and RFC 4122 variant bits set.
pub open spec fn uuid_from_digest(d: Seq<u8>) -> u128 {
    let b = d.take(16).update(6, (d[6] & 0x0f) | 0x50).update(8, (d[8] & 0x3f) | 0x80);
    be_value(b) as u128
}

/// The idempotency key of a registration.
pub open spec fn registration_idempotency_of(subject: Seq<char>, player: u128, nakama: u128, key: Seq<u8>, issued: i64) -> u128 {
    uuid_from_digest(sha256_of(idempotency_message(subject, player, nakama, key, issued)))
}

proof fn lemma_be_bytes_len(x: nat, k: nat)
    ensures
        be_bytes(x, k).len() == k,
    decreases k,
{
    if k > 0 {
        lemma_be_bytes_len(x / 256, (k - 1) as nat);
    }
}

proof fn lemma_pow256_monotone(i: nat, j: nat)
    requires
        i <= j,
    ensures
        pow256(i) <= pow256(j),
        pow256(i) >= 1,
    decreases j,
{
    if j > i {
        lemma_pow256_monotone(i, (j - 1) as nat);
    } else if i > 0 {
        lemma_pow256_monotone((i - 1) as nat, (i - 1) as nat);
    }
}

proof fn lemma_be_value_bound(b: Seq<u8>)
    ensures
        be_value(b) < pow256(b.len()),
    decreases b.len(),
{
    if b.len() > 0 {
        lemma_be_value_bound(b.drop_last());
    }
}

/// Appends the last `k` bytes of `x` in big-endian order.
fn push_be(out: &mut Vec<u8>, x: u128, k: usize)
    ensures
        final(out)@ == old(out)@ + be_bytes(x as nat, k as nat),
    decreases k,
{
    if k == 0 {
        assert(old(out)@ + be_bytes(x as nat, 0) =~= old(out)@);
        return;
    }
    push_be(out, x / 256, k - 1);
    out.push((x % 256) as u8);
    assert(old(out)@ + be_bytes(x as nat, k as nat) =~= old(out)@ + be_bytes((x / 256) as nat, (k - 1) as nat).push(
        (x % 256) as u8,
    ));
}

fn push_framed(out: &mut Vec<u8>, field: &[u8])
    requires
        field@.len() < 0x1_0000_0000,
    ensures
        final(out)@ == old(out)@ + framed(field@),
{
    push_be(out, field.len() as u128, 4);
    let mut i: usize = 0;
    let ghost before = out@;
    while i < field.len()
        invariant
            i <= field@.len(),
            out@ == before + field@.take(i as int),
        decreases field.len() - i,
    {
        out.push(field[i]);
        i = i + 1;
        assert(out@ =~= before + field@.take(i as int));
    }
    assert(field@.take(field@.len() as int) =~= field@);
    assert(out@ =~= old(out)@ + framed(field@));
}

/// Computes `registration_idempotency_of`; the subject's bytes must have a
/// four-byte length.
fn registration_idempotency(subject: &str, player: u128, nakama: u128, key: &[u8], issued: i64) -> (r: u128)
    requires
        encode_utf8(subject@).len() < 0x1_0000_0000,
        key@.len() == 32,
        issued >= 0,
    ensures
        r == registration_idempotency_of(subject@, player, nakama, key@, issued),
{
    let mut message: Vec<u8> = Vec::new();
    let domain = IDEMPOTENCY_DOMAIN.as_bytes();
    let mut i: usize = 0;
    while i < domain.len()
        invariant
            domain@ == encode_utf8(IDEMPOTENCY_DOMAIN@),
            i <= domain@.len(),
            message@ == domain@.take(i as int),
        decreases domain.len() - i,
    {
        message.push(domain[i]);
        i = i + 1;
        assert(message@ =~= domain@.take(i as int));
    }
    assert(domain@.take(domain@.len() as int) =~= domain@);
    push_framed(&mut message, subject.as_bytes());
    let mut player_bytes: Vec<u8> = Vec::new();
    push_be(&mut player_bytes, player, 16);
    let mut nakama_bytes: Vec<u8> = Vec::new();
    push_be(&mut nakama_bytes, nakama, 16);
    proof {
        lemma_be_bytes_len(player as nat, 16);
        lemma_be_bytes_len(nakama as nat, 16);
        assert(player_bytes@ =~= be_bytes(player as nat, 16));
        assert(nakama_bytes@ =~= be_bytes(nakama as nat, 16));
    }
    push_framed(&mut message, player_bytes.as_slice());
    push_framed(&mut message, nakama_bytes.as_slice());
    push_framed(&mut message, key);
    push_be(&mut message, issued as u128, 8);
    assert(message@ =~= idempotency_message(subject@, player, nakama, key@, issued));
    let d = crate::digest::sha256(message.as_slice());
    let mut b: Vec<u8> = Vec::new();
    let mut j: usize = 0;
    while j < 16
        invariant
            d@.len() == 32,
            j <= 16,
            b@ == d@.take(j as int),
        decreases 16 - j,
    {
        b.push(d[j]);
        j = j + 1;
        assert(b@ =~= d@.take(j as int));
    }
    let six = (d[6] & 0x0f) | 0x50;
    let eight = (d[8] & 0x3f) | 0x80;
    b.set(6, six);
    b.set(8, eight);
    let ghost want = d@.take(16).update(6, (d@[6] & 0x0f) | 0x50).update(8, (d@[8] & 0x3f) | 0x80);
    assert(b@ =~= want);
    let mut v: u128 = 0;
    let mut k: usize = 0;
    while k < 16
        invariant
            b@ == want,
            b@.len() == 16,
            k <= 16,
            v as nat == be_value(b@.take(k as int)),
        decreases 16 - k,
    {
        proof {
            lemma_be_value_bound(b@.take(k as int));
            lemma_pow256_monotone((k + 1) as nat, 16);
            assert(pow256(16) == 0x1_0000_0000_0000_0000_0000_0000_0000_0000nat) by {
                reveal_with_fuel(pow256, 17);
            }
            assert(b@.take(k + 1).drop_last() =~= b@.take(k as int));
            assert(pow256((k + 1) as nat) == pow256(k as nat) * 256);
        }
        v = v * 256 + b[k] as u128;
        k = k + 1;
    }
    assert(b@.take(16) =~= b@);
    v
}

/// A registration challenge, derived by the server: who registers, the
/// signing key's id, text and digest, the idempotency key, the issue and
/// expiry times, and the Base64 signing bytes of its claim. The schema and
/// the claim's byte encoding are those of the review-state contracts: a
/// derived challenge carries no signing bytes until
/// `with_claim_signing_bytes` adds the encoding of `human_registration_claim`.
#[derive(Debug)]
pub struct HumanRegistrationChallenge {
    pub schema: String,
    pub player_id: u128,
    pub subject_id: String,
    pub nakama_user_id: u128,
    pub display_name: String,
    pub signing_key_id: String,
    pub signing_public_key: String,
    pub signing_public_key_hash: String,
    pub idempotency_key: u128,
    pub issued_at_unix: i64,
    pub expires_at_unix: i64,
    pub signing_bytes: String,
}

/// The claim that a registration key signs.
#[derive(Debug)]
pub struct HumanKeyRegistrationClaim {
    pub schema: String,
    pub player_id: u128,
    pub subject_id: String,
    pub nakama_user_id: u128,
    pub signing_key_id: String,
    pub signing_public_key: String,
    pub signing_public_key_hash: String,
    pub nonce: String,
    pub issued_at_unix: i64,
    pub expires_at_unix: i64,
}

/// The claim of a challenge: its fields, with the idempotency key as the
/// nonce in hyphenated form.
pub fn human_registration_claim(challenge: &HumanRegistrationChallenge) -> (r:
    HumanKeyRegistrationClaim)
    ensures
        r.schema@ == challenge.schema@,
        r.player_id == challenge.player_id,
        r.subject_id@ == challenge.subject_id@,
        r.nakama_user_id == challenge.nakama_user_id,
        r.signing_key_id@ == challenge.signing_key_id@,
        r.signing_public_key@ == challenge.signing_public_key@,
        r.signing_public_key_hash@ == challenge.signing_public_key_hash@,
        r.nonce@ == crate::text::uuid_text(challenge.idempotency_key),
        r.issued_at_unix == challenge.issued_at_unix,
        r.expires_at_unix == challenge.expires_at_unix,
{
    HumanKeyRegistrationClaim {
        schema: string_from_chars(&crate::text::chars_of(challenge.schema.as_str())),
        player_id: challenge.player_id,
        subject_id: string_from_chars(&crate::text::chars_of(challenge.subject_id.as_str())),
        nakama_user_id: challenge.nakama_user_id,
        signing_key_id: string_from_chars(&crate::text::chars_of(challenge.signing_key_id.as_str())),
        signing_public_key: string_from_chars(
            &crate::text::chars_of(challenge.signing_public_key.as_str()),
        ),
        signing_public_key_hash: string_from_chars(
            &crate::text::chars_of(challenge.signing_public_key_hash.as_str()),
        ),
        nonce: string_from_chars(&crate::text::uuid_chars(challenge.idempotency_key)),
        issued_at_unix: challenge.issued_at_unix,
        expires_at_unix: challenge.expires_at_unix,
    }
}

/// Completes a challenge with the contracts' encoding of its claim: the
/// signing bytes become the padded standard Base64 of the encoding, and a
/// refusal by the encoder is an invalid request with its message. (An
/// encoding whose Base64 text could not be allocated is not admitted.)
pub fn with_claim_signing_bytes(
    challenge: HumanRegistrationChallenge,
    encoded: Result<Vec<u8>, String>,
) -> (r: Result<HumanRegistrationChallenge, AppError>)
    requires
        encoded matches Ok(b) ==> b@.len() / 3 * 4 + 4 <= isize::MAX,
    ensures
        match encoded {
            Err(m) => r matches Err(AppError::Invalid(x)) && x@ == m@,
            Ok(b) => r matches Ok(c) && c.signing_bytes@ == base64_encode_of(b@) && c
                == (HumanRegistrationChallenge { signing_bytes: c.signing_bytes, ..challenge }),
        },
{
    match encoded {
        Err(m) => Err(AppError::Invalid(m)),
        Ok(b) => {
            let mut c = challenge;
            c.signing_bytes = base64_encode(b.as_slice());
            Ok(c)
        },
    }
}

/// What a player proves when recovering a registration.
#[derive(Debug)]
pub struct HumanRegistrationProof {
    pub signing_public_key: String,
    pub idempotency_key: u128,
    pub issued_at_unix: i64,
    pub expires_at_unix: i64,
    pub key_proof_signature: String,
}

/// The issue time is a bucket start no later than now, and the challenge
/// has not yet expired.
pub open spec fn issue_window_ok(issued: i64, now: i64) -> bool {
    issued >= 0 && issued % 300 == 0 && now >= issued && now < issued + 600
}

/// The public key a text decodes to, or why it is refused.
pub open spec fn registration_key_of(key: Seq<char>) -> Result<Seq<u8>, Refusal> {
    match base64_decode_of(encode_utf8(key)) {
        None => Err(Refusal::Invalid(KEY_NOT_BASE64@)),
        Some(d) => if d.len() != 32 || base64_encode_of(d) != key {
            Err(Refusal::Invalid(KEY_NOT_CANONICAL@))
        } else if !ed25519_key_accepted_of(d) {
            Err(Refusal::Invalid(KEY_NOT_ED25519@))
        } else {
            Ok(d)
        },
    }
}

/// The challenge is the one derived for the identity, key and issue time.
pub open spec fn challenge_derived(
    c: HumanRegistrationChallenge,
    schema: Seq<char>,
    identity: AlphaIdentity,
    key_text: Seq<char>,
    key: Seq<u8>,
    issued: i64,
) -> bool {
    &&& c.schema@ == schema
    &&& c.player_id == identity.player_id
    &&& c.subject_id@ == identity.subject_id@
    &&& c.nakama_user_id == identity.nakama_user_id
    &&& c.display_name@ == identity.display_name@
    &&& c.signing_key_id@ == "human-ed25519:"@ + hex_lower(sha256_of(key))
    &&& c.signing_public_key@ == key_text
    &&& c.signing_public_key_hash@ == digest_label_of_bytes(key)
    &&& c.idempotency_key == registration_idempotency_of(
        identity.subject_id@,
        identity.player_id,
        identity.nakama_user_id,
        key,
        issued,
    )
    &&& c.issued_at_unix == issued
    &&& c.expires_at_unix == issued + 600
    &&& c.signing_bytes@ == Seq::<char>::empty()
}

/// Derives the registration challenge for an identity's public key issued
/// at a bucket start, checked at `now_unix`: outside the issue window it is
/// forbidden; a key that is not canonical Base64 of an Ed25519 point is
/// invalid. The challenge's signing bytes stay empty here: the contracts'
/// encoding of `human_registration_claim` of it is added by
/// `with_claim_signing_bytes`.
pub fn build_human_registration_challenge(
    identity: &AlphaIdentity,
    schema: &str,
    signing_public_key: &str,
    issued_at_unix: i64,
    now_unix: i64,
) -> (r: Result<HumanRegistrationChallenge, AppError>)
    requires
        now_unix <= i64::MAX - 600,
    ensures
        !issue_window_ok(issued_at_unix, now_unix) ==> r matches Err(AppError::Forbidden),
        issue_window_ok(issued_at_unix, now_unix) ==> match registration_key_of(signing_public_key@) {
            Err(f) => refused_as(r, f),
            Ok(key) => if encode_utf8(identity.subject_id@).len() >= 0x1_0000_0000 {
                r matches Err(AppError::Internal)
            } else {
                r matches Ok(c) && challenge_derived(c, schema@, *identity, signing_public_key@, key, issued_at_unix)
            },
        },
{
    if issued_at_unix < 0 || issued_at_unix % HUMAN_REGISTRATION_BUCKET_SECONDS != 0 || now_unix < issued_at_unix
        || now_unix - issued_at_unix >= HUMAN_REGISTRATION_TTL_SECONDS {
        return Err(AppError::Forbidden);
    }
    let key = match base64_decode(signing_public_key) {
        Some(k) => k,
        None => return Err(AppError::Invalid(KEY_NOT_BASE64.to_owned())),
    };
    if key.len() != 32 {
        return Err(AppError::Invalid(KEY_NOT_CANONICAL.to_owned()));
    }
    let encoded = base64_encode(key.as_slice());
    if !str_eq(encoded.as_str(), signing_public_key) {
        return Err(AppError::Invalid(KEY_NOT_CANONICAL.to_owned()));
    }
    if !ed25519_key_accepted(key.as_slice()) {
        return Err(AppError::Invalid(KEY_NOT_ED25519.to_owned()));
    }
    let subject = identity.subject_id.as_str().as_bytes();
    if subject.len() as u64 > 0xFFFF_FFFFu64 {
        return Err(AppError::Internal);
    }
    let hash = digest_label(key.as_slice());
    let hex = hex_encode(crate::digest::sha256(key.as_slice()).as_slice());
    let mut key_id: Vec<char> = Vec::new();
    push_str(&mut key_id, "human-ed25519:");
    push_chars(&mut key_id, &hex);
    let idempotency_key = registration_idempotency(
        identity.subject_id.as_str(),
        identity.player_id,
        identity.nakama_user_id,
        key.as_slice(),
        issued_at_unix,
    );
    Ok(
        HumanRegistrationChallenge {
            schema: string_from_chars(&crate::text::chars_of(schema)),
            player_id: identity.player_id,
            subject_id: string_from_chars(&crate::text::chars_of(identity.subject_id.as_str())),
            nakama_user_id: identity.nakama_user_id,
            display_name: string_from_chars(&crate::text::chars_of(identity.display_name.as_str())),
            signing_key_id: string_from_chars(&key_id),
            signing_public_key: string_from_chars(&crate::text::chars_of(signing_public_key)),
            signing_public_key_hash: hash,
            idempotency_key,
            issued_at_unix,
            expires_at_unix: issued_at_unix + HUMAN_REGISTRATION_TTL_SECONDS,
            signing_bytes: string_from_chars(&Vec::new()),
        },
    )
}

/// The registration challenge for a key offered now: issued at the start
/// of the current five-minute bucket. A negative clock is an internal
/// error.
pub fn human_registration_challenge(identity: &AlphaIdentity, schema: &str, signing_public_key: &str, now_unix: i64) -> (r: Result<
    HumanRegistrationChallenge,
    AppError,
>)
    requires
        now_unix <= i64::MAX - 600,
    ensures
        now_unix < 0 ==> r matches Err(AppError::Internal),
        now_unix >= 0 ==> {
            let issued = (now_unix - now_unix % 300) as i64;
            match registration_key_of(signing_public_key@) {
                Err(f) => refused_as(r, f),
                Ok(key) => if encode_utf8(identity.subject_id@).len() >= 0x1_0000_0000 {
                    r matches Err(AppError::Internal)
                } else {
                    r matches Ok(c) && challenge_derived(c, schema@, *identity, signing_public_key@, key, issued)
                },
            }
        },
{
    if now_unix < 0 {
        return Err(AppError::Internal);
    }
    let issued = now_unix - now_unix % HUMAN_REGISTRATION_BUCKET_SECONDS;
    assert(issue_window_ok(issued, now_unix));
    build_human_registration_challenge(identity, schema, signing_public_key, issued, now_unix)
}

/// Derives the challenge a recovery proof was made for, and requires the
/// proof to name that challenge's expiry and idempotency key; a mismatch is
/// forbidden. The proof's key-possession signature over the challenge is
/// then checked by the caller with the contracts' verifier.
pub fn registration_challenge_from_proof(
    identity: &AlphaIdentity,
    schema: &str,
    proof: &HumanRegistrationProof,
    validation_time_unix: i64,
) -> (r: Result<HumanRegistrationChallenge, AppError>)
    requires
        validation_time_unix <= i64::MAX - 600,
    ensures
        !issue_window_ok(proof.issued_at_unix, validation_time_unix) ==> r matches Err(AppError::Forbidden),
        issue_window_ok(proof.issued_at_unix, validation_time_unix) ==> match registration_key_of(
            proof.signing_public_key@,
        ) {
            Err(f) => refused_as(r, f),
            Ok(key) => if encode_utf8(identity.subject_id@).len() >= 0x1_0000_0000 {
                r matches Err(AppError::Internal)
            } else if proof.expires_at_unix != proof.issued_at_unix + 600 || proof.idempotency_key
                != registration_idempotency_of(
                identity.subject_id@,
                identity.player_id,
                identity.nakama_user_id,
                key,
                proof.issued_at_unix,
            ) {
                r matches Err(AppError::Forbidden)
            } else {
                r matches Ok(c) && challenge_derived(
                    c,
                    schema@,
                    *identity,
                    proof.signing_public_key@,
                    key,
                    proof.issued_at_unix,
                )
            },
        },
{
    let challenge = build_human_registration_challenge(
        identity,
        schema,
        proof.signing_public_key.as_str(),
        proof.issued_at_unix,
        validation_time_unix,
    )?;
    if challenge.expires_at_unix != proof.expires_at_unix || challenge.idempotency_key != proof.idempotency_key {
        return Err(AppError::Forbidden);
    }
    Ok(challenge)
}

/// The player a player read shows: its id (any UUID spelling), subject and
/// signing key id, key and key digest.
pub open spec fn player_snapshot_of(v: JsonValue) -> Option<(u128, Seq<char>, Seq<char>, Seq<char>, Seq<char>)> {
    if !(v is Object) {
        None
    } else {
        match (
            crate::lineage::uuid_of(v, "player_id"@),
            crate::json::field_text(v, "subject_id"@),
            crate::json::field_text(v, "signing_key_id"@),
            crate::json::field_text(v, "signing_public_key"@),
            crate::json::field_text(v, "signing_public_key_hash"@),
        ) {
            (Some(p), Some(s), Some(k), Some(pk), Some(h)) => Some((p, s, k, pk, h)),
            _ => None,
        }
    }
}

fn text_member<'a>(v: &'a JsonValue, key: &str) -> (r: Option<&'a str>)
    ensures
        match r {
            Some(t) => crate::json::field_text(*v, key@) == Some(t@),
            None => crate::json::field_text(*v, key@) is None,
        },
{
    match v.get(key) {
        Some(JsonValue::String(t)) => Some(t.as_str()),
        _ => None,
    }
}

/// Requires a recovered player to be the identity's, registered with the
/// challenge's signing key; a player read that does not decode is an
/// upstream failure, another key a conflict.
pub fn validate_recovered_human_player(
    identity: &AlphaIdentity,
    challenge: &HumanRegistrationChallenge,
    value: &JsonValue,
) -> (r: Result<(), AppError>)
    ensures
        match player_snapshot_of(*value) {
            None => r == Err::<(), AppError>(AppError::Upstream),
            Some((p, s, k, pk, h)) => if p != identity.player_id || s != identity.subject_id@ || k
                != challenge.signing_key_id@ || pk != challenge.signing_public_key@ || h
                != challenge.signing_public_key_hash@ {
                r matches Err(e) && crate::error::is_conflict(e, RECOVERED_KEY_DIFFERS@)
            } else {
                r == Ok::<(), AppError>(())
            },
        },
{
    if !value.is_object() {
        return Err(AppError::Upstream);
    }
    let player = match value.get("player_id") {
        Some(JsonValue::String(t)) => match crate::digest::uuid_parse(t.as_str()) {
            Some(p) => p,
            None => return Err(AppError::Upstream),
        },
        _ => return Err(AppError::Upstream),
    };
    let (subject, key_id, key, hash) = match (
        text_member(value, "subject_id"),
        text_member(value, "signing_key_id"),
        text_member(value, "signing_public_key"),
        text_member(value, "signing_public_key_hash"),
    ) {
        (Some(s), Some(k), Some(pk), Some(h)) => (s, k, pk, h),
        _ => return Err(AppError::Upstream),
    };
    if player != identity.player_id || !str_eq(subject, identity.subject_id.as_str()) || !str_eq(
        key_id,
        challenge.signing_key_id.as_str(),
    ) || !str_eq(key, challenge.signing_public_key.as_str()) || !str_eq(
        hash,
        challenge.signing_public_key_hash.as_str(),
    ) {
        return Err(crate::error::conflict(RECOVERED_KEY_DIFFERS));
    }
    Ok(())
}

/// A registration is stable within its issue bucket: two challenges derived
/// for the same identity, key and issue time, at whatever times within the
/// window they were checked, agree on every field, the idempotency key
/// included.
pub proof fn lemma_registration_is_stable_in_its_bucket(
    c1: HumanRegistrationChallenge,
    c2: HumanRegistrationChallenge,
    schema: Seq<char>,
    identity: AlphaIdentity,
    key_text: Seq<char>,
    key: Seq<u8>,
    issued: i64,
)
    requires
        challenge_derived(c1, schema, identity, key_text, key, issued),
        challenge_derived(c2, schema, identity, key_text, key, issued),
    ensures
        c1.idempotency_key == c2.idempotency_key,
        c1.player_id == c2.player_id,
        c1.nakama_user_id == c2.nakama_user_id,
        c1.subject_id@ == c2.subject_id@,
        c1.signing_key_id@ == c2.signing_key_id@,
        c1.signing_public_key_hash@ == c2.signing_public_key_hash@,
        c1.expires_at_unix == c2.expires_at_unix,
{
}

} // verus!
