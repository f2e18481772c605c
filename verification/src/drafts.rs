//! The open and expired evaluation drafts of a Paper's review state, checked
//! against the raw records they were read from and the finalized
//! evaluations: every record canonical and signed with a well-formed key,
//! every digest recomputed, every lifecycle exact, the drafts in strictly
//! ascending id order, and no review round with two open drafts.
//!
//! The review-state contracts hash a draft's tolerance policy and its
//! immutable fields over their own canonical JSON encoding; that encoder is
//! not part of this library, so a caller hands in the encoded bytes and the
//! checks here hash them and compare.

use vstd::prelude::*;
use vstd::utf8::encode_utf8;
use crate::json::{field_text, JsonValue};
use crate::nakama::{base64_decode, base64_decode_of, base64_encode, base64_encode_of};
use crate::review::{
    moment_lt, rfc3339_of, same_moment, sealed_optional_uuid, sealed_optional_uuid_check,
    sealed_text, sealed_timestamp, sealed_timestamp_check, sealed_tolerance_rule_keys, sealed_uuid,
    sealed_uuid_check, tolerance_rule_keys_of, DraftLink, DraftStatus, EvaluationLink, Moment,
};
use crate::practice_http::{digest_label, digest_label_of_bytes};
use crate::text::{is_digest_text, str_eq, valid_digest_label};

verus! {

/// Padded standard Base64 that decodes to `len` bytes and is exactly how
/// those bytes encode.
pub open spec fn sealed_canonical_base64(s: Seq<char>, len: nat) -> bool {
    match base64_decode_of(encode_utf8(s)) {
        Some(d) => d.len() == len && base64_encode_of(d) == s,
        None => false,
    }
}

pub fn sealed_canonical_base64_check(s: &str, len: usize) -> (r: bool)
    requires
        len <= 65536,
    ensures
        r == sealed_canonical_base64(s@, len as nat),
{
    match base64_decode(s) {
        Some(d) => if d.len() != len {
            false
        } else {
            let e = base64_encode(d.as_slice());
            str_eq(e.as_str(), s)
        },
        None => false,
    }
}

/// A public key in canonical Base64 of 32 bytes whose digest is `hash`.
pub open spec fn sealed_public_key(key: Seq<char>, hash: Seq<char>) -> bool {
    match base64_decode_of(encode_utf8(key)) {
        Some(d) => d.len() == 32 && base64_encode_of(d) == key && digest_label_of_bytes(d) == hash,
        None => false,
    }
}

pub fn sealed_public_key_check(key: &str, hash: &str) -> (r: bool)
    ensures
        r == sealed_public_key(key@, hash@),
{
    match base64_decode(key) {
        Some(d) => if d.len() != 32 {
            false
        } else {
            let e = base64_encode(d.as_slice());
            if !str_eq(e.as_str(), key) {
                return false;
            }
            let digest = digest_label(d.as_slice());
            str_eq(digest.as_str(), hash)
        },
        None => false,
    }
}

/// The record holds null where `expected` is none, and the canonical RFC
/// 3339 text of the time where it is one.
pub open spec fn sealed_optional_timestamp(record: JsonValue, field: Seq<char>, expected: Option<Moment>) -> bool {
    match (record.spec_get(field), expected) {
        (Some(JsonValue::Null), None) => true,
        (Some(JsonValue::String(v)), Some(e)) => rfc3339_of(e.secs, e.nanos) == Some(v@),
        _ => false,
    }
}

pub fn sealed_optional_timestamp_check(record: &JsonValue, field: &str, expected: Option<Moment>) -> (r: bool)
    ensures
        r == sealed_optional_timestamp(*record, field@, expected),
{
    match (record.get(field), expected) {
        (Some(JsonValue::Null), None) => true,
        (Some(JsonValue::String(_)), Some(e)) => sealed_timestamp_check(record, field, e),
        _ => false,
    }
}

pub const EVALUATION_DRAFT_V1: &'static str = "hepta.paper_raid.evaluation_draft.v1";
pub const EVALUATION_DRAFT_V2: &'static str = "hepta.paper_raid.evaluation_draft.v2";
pub const PAPER_SCORE_V1: &'static str = "hepta.paper_raid.paper_score.v1";

/// An evaluation draft as the review state lists it; the reference metrics
/// are given by their names.
#[derive(Debug)]
pub struct SealedEvaluationDraft {
    pub schema: String,
    pub evaluation_id: u128,
    pub paper_project_id: u128,
    pub submission_id: u128,
    pub review_round: u64,
    pub supersedes_evaluation_id: Option<u128>,
    pub release_candidate_hash: String,
    pub paper_bundle_hash: String,
    pub tolerance_policy_hash: String,
    pub reference_metric_keys: Vec<String>,
    pub paper_score: JsonValue,
    pub evaluator_player_id: u128,
    pub evaluator_signing_key_id: String,
    pub evaluator_signing_public_key: String,
    pub evaluator_signing_public_key_hash: String,
    pub evaluator_coi_attestation_hash: String,
    pub evaluator_signed_at_unix: i64,
    pub evaluator_signature: String,
    pub evaluation_signing_hash: String,
    pub draft_hash: String,
    pub status: DraftStatus,
    pub version: u64,
    pub finalized_evaluation_id: Option<u128>,
    pub created_at: Moment,
    pub expires_at: Moment,
    pub updated_at: Moment,
    pub finalized_at: Option<Moment>,
    pub expired_at: Option<Moment>,
}

/// The canonical JSON encodings of a draft that its digests are taken
/// over: its tolerance policy, and the object of its immutable fields (see
/// `evaluation_draft_immutable_fields`); `None` where the encoder refused
/// the value.
#[derive(Debug)]
pub struct DraftEncodings {
    pub tolerance_policy: Option<Vec<u8>>,
    pub immutable_fields: Option<Vec<u8>>,
}

/// The fields of a draft record that its draft hash covers, in order, for
/// each draft schema.
pub open spec fn draft_fields_v1() -> Seq<Seq<char>> {
    seq![
        "schema"@,
        "evaluation_id"@,
        "paper_project_id"@,
        "submission_id"@,
        "review_round"@,
        "supersedes_evaluation_id"@,
        "release_candidate_hash"@,
        "paper_bundle_hash"@,
        "tolerance_policy"@,
        "tolerance_policy_hash"@,
        "reference_metrics_micros"@,
        "paper_score"@,
        "evaluator_player_id"@,
        "evaluator_signing_key_id"@,
        "evaluator_signing_public_key"@,
        "evaluator_signing_public_key_hash"@,
        "evaluator_coi_attestation_hash"@,
        "evaluator_signed_at_unix"@,
        "evaluator_signature"@,
        "evaluation_signing_hash"@,
    ]
}

pub open spec fn draft_immutable_fields(schema: Seq<char>) -> Option<Seq<Seq<char>>> {
    if schema == EVALUATION_DRAFT_V1@ {
        Some(draft_fields_v1())
    } else if schema == EVALUATION_DRAFT_V2@ {
        Some(draft_fields_v1().push("expires_at"@))
    } else {
        None
    }
}

/// The immutable fields of a draft of `schema`, in the order its draft hash
/// lists them; `None` for another schema.
pub fn evaluation_draft_immutable_fields(schema: &str) -> (r: Option<Vec<&'static str>>)
    ensures
        match r {
            Some(v) => draft_immutable_fields(schema@) == Some(v@.map_values(|s: &'static str| s@)),
            None => draft_immutable_fields(schema@) is None,
        },
{
    let v2 = if str_eq(schema, EVALUATION_DRAFT_V1) {
        false
    } else if str_eq(schema, EVALUATION_DRAFT_V2) {
        true
    } else {
        return None;
    };
    let mut v: Vec<&'static str> = vec![
        "schema",
        "evaluation_id",
        "paper_project_id",
        "submission_id",
        "review_round",
        "supersedes_evaluation_id",
        "release_candidate_hash",
        "paper_bundle_hash",
        "tolerance_policy",
        "tolerance_policy_hash",
        "reference_metrics_micros",
        "paper_score",
        "evaluator_player_id",
        "evaluator_signing_key_id",
        "evaluator_signing_public_key",
        "evaluator_signing_public_key_hash",
        "evaluator_coi_attestation_hash",
        "evaluator_signed_at_unix",
        "evaluator_signature",
        "evaluation_signing_hash",
    ];
    assert(v@.map_values(|s: &'static str| s@) =~= draft_fields_v1());
    if v2 {
        v.push("expires_at");
        assert(v@.map_values(|s: &'static str| s@) =~= draft_fields_v1().push("expires_at"@));
    }
    Some(v)
}

/// The record is an object that holds every immutable field of `schema`.
pub open spec fn has_immutable_fields(record: JsonValue, schema: Seq<char>) -> bool {
    match draft_immutable_fields(schema) {
        Some(fields) => record is Object && forall|k: int|
            0 <= k < fields.len() ==> (#[trigger] record.spec_get(fields[k])) is Some,
        None => false,
    }
}

fn has_immutable_fields_check(record: &JsonValue, schema: &str) -> (r: bool)
    ensures
        r == has_immutable_fields(*record, schema@),
{
    let fields = match evaluation_draft_immutable_fields(schema) {
        Some(f) => f,
        None => return false,
    };
    if !record.is_object() {
        return false;
    }
    let ghost spec_fields = draft_immutable_fields(schema@)->0;
    let mut k: usize = 0;
    while k < fields.len()
        invariant
            spec_fields == fields@.map_values(|s: &'static str| s@),
            draft_immutable_fields(schema@) == Some(spec_fields),
            record is Object,
            k <= fields@.len(),
            forall|j: int| 0 <= j < k ==> (#[trigger] record.spec_get(spec_fields[j])) is Some,
        decreases fields.len() - k,
    {
        assert(spec_fields[k as int] == fields@[k as int]@);
        if record.get(fields[k]).is_none() {
            assert(record.spec_get(spec_fields[k as int]) is None);
            return false;
        }
        k = k + 1;
    }
    true
}

/// The draft against its raw record: 29 members, a draft schema, this
/// Paper, a review round, a creation before the expiry, a signing time, 1..=256
/// bounded reference metric names, every id and time written canonically,
/// and tolerance rules that key.
pub open spec fn draft_record_ok(raw: JsonValue, d: SealedEvaluationDraft, paper_id: u128) -> bool {
    &&& match raw {
        JsonValue::Object(m) => m@.len() == 29,
        _ => false,
    }
    &&& d.schema@ == EVALUATION_DRAFT_V1@ || d.schema@ == EVALUATION_DRAFT_V2@
    &&& d.paper_project_id == paper_id
    &&& d.review_round != 0
    &&& moment_lt(d.created_at, d.expires_at)
    &&& d.evaluator_signed_at_unix >= 0
    &&& 0 < d.reference_metric_keys@.len() <= 256
    &&& forall|k: int|
        0 <= k < d.reference_metric_keys@.len() ==> sealed_text(#[trigger] d.reference_metric_keys@[k]@)
    &&& sealed_uuid(raw, "evaluation_id"@, d.evaluation_id)
    &&& sealed_uuid(raw, "paper_project_id"@, d.paper_project_id)
    &&& sealed_uuid(raw, "submission_id"@, d.submission_id)
    &&& sealed_optional_uuid(raw, "supersedes_evaluation_id"@, d.supersedes_evaluation_id)
    &&& sealed_uuid(raw, "evaluator_player_id"@, d.evaluator_player_id)
    &&& sealed_optional_uuid(raw, "finalized_evaluation_id"@, d.finalized_evaluation_id)
    &&& sealed_timestamp(raw, "created_at"@, d.created_at)
    &&& sealed_timestamp(raw, "expires_at"@, d.expires_at)
    &&& sealed_timestamp(raw, "updated_at"@, d.updated_at)
    &&& sealed_optional_timestamp(raw, "finalized_at"@, d.finalized_at)
    &&& sealed_optional_timestamp(raw, "expired_at"@, d.expired_at)
    &&& tolerance_rule_keys_of(raw) is Some
}

/// Every digest of the draft is a digest label, and its evaluator's key id,
/// public key and signature are well formed.
pub open spec fn draft_signing_ok(d: SealedEvaluationDraft) -> bool {
    &&& is_digest_text(d.release_candidate_hash@)
    &&& is_digest_text(d.paper_bundle_hash@)
    &&& is_digest_text(d.tolerance_policy_hash@)
    &&& is_digest_text(d.evaluator_signing_public_key_hash@)
    &&& is_digest_text(d.evaluator_coi_attestation_hash@)
    &&& is_digest_text(d.evaluation_signing_hash@)
    &&& is_digest_text(d.draft_hash@)
    &&& sealed_text(d.evaluator_signing_key_id@)
    &&& sealed_public_key(d.evaluator_signing_public_key@, d.evaluator_signing_public_key_hash@)
    &&& sealed_canonical_base64(d.evaluator_signature@, 64)
}

/// The draft's tolerance policy and immutable fields hash to the digests it
/// states.
pub open spec fn draft_hashes_ok(raw: JsonValue, d: SealedEvaluationDraft, e: DraftEncodings) -> bool {
    &&& match e.tolerance_policy {
        Some(b) => digest_label_of_bytes(b@) == d.tolerance_policy_hash@,
        None => false,
    }
    &&& has_immutable_fields(raw, d.schema@)
    &&& match e.immutable_fields {
        Some(b) => digest_label_of_bytes(b@) == d.draft_hash@,
        None => false,
    }
}

/// The draft's score: nine members, the score schema, the draft's
/// evaluation, Paper and creation time, and a score digest.
pub open spec fn paper_score_ok(d: SealedEvaluationDraft) -> bool {
    let s = d.paper_score;
    &&& match s {
        JsonValue::Object(m) => m@.len() == 9,
        _ => false,
    }
    &&& field_text(s, "schema"@) == Some(PAPER_SCORE_V1@)
    &&& sealed_uuid(s, "evaluation_id"@, d.evaluation_id)
    &&& sealed_uuid(s, "paper_project_id"@, d.paper_project_id)
    &&& sealed_timestamp(s, "created_at"@, d.created_at)
    &&& match field_text(s, "score_hash"@) {
        Some(h) => is_digest_text(h),
        None => false,
    }
}

/// Everything that holds of one draft on its own.
#[verifier::opaque]
pub open spec fn draft_ok(raw: JsonValue, d: SealedEvaluationDraft, e: DraftEncodings, paper_id: u128) -> bool {
    &&& draft_record_ok(raw, d, paper_id)
    &&& draft_signing_ok(d)
    &&& draft_hashes_ok(raw, d, e)
    &&& paper_score_ok(d)
}

fn draft_record_check(raw: &JsonValue, d: &SealedEvaluationDraft, paper_id: u128) -> (r: bool)
    ensures
        r == draft_record_ok(*raw, *d, paper_id),
{
    let members_ok = match raw {
        JsonValue::Object(m) => m.len() == 29,
        _ => false,
    };
    if !members_ok {
        return false;
    }
    if !(str_eq(d.schema.as_str(), EVALUATION_DRAFT_V1) || str_eq(d.schema.as_str(), EVALUATION_DRAFT_V2)) {
        return false;
    }
    if d.paper_project_id != paper_id || d.review_round == 0 || !crate::review::earlier(
        d.created_at,
        d.expires_at,
    ) || d.evaluator_signed_at_unix < 0 {
        return false;
    }
    let n = d.reference_metric_keys.len();
    if n == 0 || n > 256 {
        return false;
    }
    let mut k: usize = 0;
    while k < n
        invariant
            n == d.reference_metric_keys@.len(),
            k <= n,
            forall|j: int| 0 <= j < k ==> sealed_text(#[trigger] d.reference_metric_keys@[j]@),
        decreases n - k,
    {
        if !crate::review::sealed_text_check(d.reference_metric_keys[k].as_str()) {
            return false;
        }
        k = k + 1;
    }
    sealed_uuid_check(raw, "evaluation_id", d.evaluation_id) && sealed_uuid_check(
        raw,
        "paper_project_id",
        d.paper_project_id,
    ) && sealed_uuid_check(raw, "submission_id", d.submission_id) && sealed_optional_uuid_check(
        raw,
        "supersedes_evaluation_id",
        d.supersedes_evaluation_id,
    ) && sealed_uuid_check(raw, "evaluator_player_id", d.evaluator_player_id)
        && sealed_optional_uuid_check(raw, "finalized_evaluation_id", d.finalized_evaluation_id)
        && sealed_timestamp_check(raw, "created_at", d.created_at) && sealed_timestamp_check(
        raw,
        "expires_at",
        d.expires_at,
    ) && sealed_timestamp_check(raw, "updated_at", d.updated_at)
        && sealed_optional_timestamp_check(raw, "finalized_at", d.finalized_at)
        && sealed_optional_timestamp_check(raw, "expired_at", d.expired_at)
        && sealed_tolerance_rule_keys(raw).is_some()
}

fn draft_signing_check(d: &SealedEvaluationDraft) -> (r: bool)
    ensures
        r == draft_signing_ok(*d),
{
    valid_digest_label(d.release_candidate_hash.as_str()) && valid_digest_label(
        d.paper_bundle_hash.as_str(),
    ) && valid_digest_label(d.tolerance_policy_hash.as_str()) && valid_digest_label(
        d.evaluator_signing_public_key_hash.as_str(),
    ) && valid_digest_label(d.evaluator_coi_attestation_hash.as_str()) && valid_digest_label(
        d.evaluation_signing_hash.as_str(),
    ) && valid_digest_label(d.draft_hash.as_str()) && crate::review::sealed_text_check(
        d.evaluator_signing_key_id.as_str(),
    ) && sealed_public_key_check(
        d.evaluator_signing_public_key.as_str(),
        d.evaluator_signing_public_key_hash.as_str(),
    ) && sealed_canonical_base64_check(d.evaluator_signature.as_str(), 64)
}

fn encoding_digest_is(bytes: &Option<Vec<u8>>, expected: &str) -> (r: bool)
    ensures
        r == match bytes {
            Some(b) => digest_label_of_bytes(b@) == expected@,
            None => false,
        },
{
    match bytes {
        Some(b) => {
            let digest = digest_label(b.as_slice());
            str_eq(digest.as_str(), expected)
        },
        None => false,
    }
}

fn draft_hashes_check(raw: &JsonValue, d: &SealedEvaluationDraft, e: &DraftEncodings) -> (r: bool)
    ensures
        r == draft_hashes_ok(*raw, *d, *e),
{
    encoding_digest_is(&e.tolerance_policy, d.tolerance_policy_hash.as_str())
        && has_immutable_fields_check(raw, d.schema.as_str()) && encoding_digest_is(
        &e.immutable_fields,
        d.draft_hash.as_str(),
    )
}

fn paper_score_check(d: &SealedEvaluationDraft) -> (r: bool)
    ensures
        r == paper_score_ok(*d),
{
    let s = &d.paper_score;
    let members_ok = match s {
        JsonValue::Object(m) => m.len() == 9,
        _ => false,
    };
    if !members_ok {
        return false;
    }
    let schema_ok = match s.get("schema") {
        Some(JsonValue::String(t)) => str_eq(t.as_str(), PAPER_SCORE_V1),
        _ => false,
    };
    let hash_ok = match s.get("score_hash") {
        Some(JsonValue::String(t)) => valid_digest_label(t.as_str()),
        _ => false,
    };
    schema_ok && sealed_uuid_check(s, "evaluation_id", d.evaluation_id) && sealed_uuid_check(
        s,
        "paper_project_id",
        d.paper_project_id,
    ) && sealed_timestamp_check(s, "created_at", d.created_at) && hash_ok
}

/// Some finalized evaluation has this id.
pub open spec fn has_evaluation(evaluations: Seq<EvaluationLink>, id: u128) -> bool {
    exists|k: int| 0 <= k < evaluations.len() && (#[trigger] evaluations[k]).evaluation_id == id
}

/// An earlier draft is open for the same submission and review round.
pub open spec fn open_round_taken(earlier: Seq<SealedEvaluationDraft>, submission_id: u128, round: u64) -> bool {
    exists|j: int|
        0 <= j < earlier.len() && (#[trigger] earlier[j]).status == DraftStatus::Open
            && earlier[j].submission_id == submission_id && earlier[j].review_round == round
}

/// The version, times and links each status requires: an open draft is at
/// version 1, untouched, not yet an evaluation, and the only open draft of
/// its round; an expired draft is at version 2, expired exactly at its
/// expiry, and not an evaluation. Finalized drafts are not listed.
pub open spec fn draft_lifecycle_ok(
    d: SealedEvaluationDraft,
    evaluations: Seq<EvaluationLink>,
    earlier: Seq<SealedEvaluationDraft>,
) -> bool {
    match d.status {
        DraftStatus::Open => d.version == 1 && d.finalized_evaluation_id is None && d.updated_at
            == d.created_at && d.finalized_at is None && d.expired_at is None && !has_evaluation(
            evaluations,
            d.evaluation_id,
        ) && !open_round_taken(earlier, d.submission_id, d.review_round),
        DraftStatus::Expired => d.version == 2 && d.finalized_evaluation_id is None && d.updated_at
            == d.expires_at && d.finalized_at is None && d.expired_at == Some(d.expires_at)
            && !has_evaluation(evaluations, d.evaluation_id),
        DraftStatus::Finalized => false,
    }
}

/// What a draft fixes for the assignments pinned to it.
pub open spec fn draft_link_of(d: SealedEvaluationDraft) -> DraftLink {
    DraftLink {
        evaluation_id: d.evaluation_id,
        submission_id: d.submission_id,
        review_round: d.review_round,
        evaluator_player_id: d.evaluator_player_id,
        status: d.status,
        created_at: d.created_at,
        expires_at: d.expires_at,
        updated_at: d.updated_at,
    }
}

/// The drafts of a review state are sealed: one raw record per draft, at
/// most 4 096, each draft sound on its own, in strictly ascending id order,
/// each in a valid lifecycle.
pub open spec fn drafts_sealed(
    raw: Seq<JsonValue>,
    drafts: Seq<SealedEvaluationDraft>,
    encodings: Seq<DraftEncodings>,
    paper_id: u128,
    evaluations: Seq<EvaluationLink>,
) -> bool {
    &&& raw.len() == drafts.len()
    &&& drafts.len() <= 4096
    &&& forall|i: int| 0 <= i < drafts.len() ==> draft_ok(raw[i], #[trigger] drafts[i], encodings[i], paper_id)
    &&& forall|k: int, l: int|
        0 <= k < l < drafts.len() ==> (#[trigger] drafts[k]).evaluation_id < (#[trigger] drafts[l]).evaluation_id
    &&& forall|i: int| 0 <= i < drafts.len() ==> draft_lifecycle_ok(#[trigger] drafts[i], evaluations, drafts.take(i))
}

fn draft_check(raw: &JsonValue, d: &SealedEvaluationDraft, e: &DraftEncodings, paper_id: u128) -> (r: bool)
    ensures
        r == draft_ok(*raw, *d, *e, paper_id),
{
    reveal(draft_ok);
    draft_record_check(raw, d, paper_id) && draft_signing_check(d) && draft_hashes_check(raw, d, e)
        && paper_score_check(d)
}

fn has_evaluation_check(evaluations: &Vec<EvaluationLink>, id: u128) -> (r: bool)
    ensures
        r == has_evaluation(evaluations@, id),
{
    let mut k: usize = 0;
    while k < evaluations.len()
        invariant
            k <= evaluations@.len(),
            forall|j: int| 0 <= j < k ==> (#[trigger] evaluations@[j]).evaluation_id != id,
        decreases evaluations.len() - k,
    {
        if evaluations[k].evaluation_id == id {
            return true;
        }
        k = k + 1;
    }
    false
}

fn open_round_taken_check(drafts: &Vec<SealedEvaluationDraft>, i: usize) -> (r: bool)
    requires
        i < drafts@.len(),
    ensures
        r == open_round_taken(drafts@.take(i as int), drafts@[i as int].submission_id, drafts@[i as int].review_round),
{
    let ghost earlier = drafts@.take(i as int);
    let mut j: usize = 0;
    while j < i
        invariant
            i < drafts@.len(),
            earlier == drafts@.take(i as int),
            j <= i,
            forall|m: int|
                0 <= m < j ==> !((#[trigger] earlier[m]).status == DraftStatus::Open && earlier[m].submission_id
                    == drafts@[i as int].submission_id && earlier[m].review_round == drafts@[i as int].review_round),
        decreases i - j,
    {
        let e = &drafts[j];
        assert(earlier[j as int] == drafts@[j as int]);
        let open = match e.status {
            DraftStatus::Open => true,
            _ => false,
        };
        if open && e.submission_id == drafts[i].submission_id && e.review_round == drafts[i].review_round {
            return true;
        }
        j = j + 1;
    }
    false
}

fn draft_lifecycle_check(drafts: &Vec<SealedEvaluationDraft>, i: usize, evaluations: &Vec<EvaluationLink>) -> (r: bool)
    requires
        i < drafts@.len(),
    ensures
        r == draft_lifecycle_ok(drafts@[i as int], evaluations@, drafts@.take(i as int)),
{
    reveal(draft_lifecycle_ok);
    let d = &drafts[i];
    match d.status {
        DraftStatus::Open => d.version == 1 && d.finalized_evaluation_id.is_none() && same_moment(
            d.updated_at,
            d.created_at,
        ) && d.finalized_at.is_none() && d.expired_at.is_none() && !has_evaluation_check(
            evaluations,
            d.evaluation_id,
        ) && !open_round_taken_check(drafts, i),
        DraftStatus::Expired => d.version == 2 && d.finalized_evaluation_id.is_none() && same_moment(
            d.updated_at,
            d.expires_at,
        ) && d.finalized_at.is_none() && match d.expired_at {
            Some(t) => same_moment(t, d.expires_at),
            None => false,
        } && !has_evaluation_check(evaluations, d.evaluation_id),
        DraftStatus::Finalized => false,
    }
}

/// Checks the evaluation drafts of a Paper's review state against the raw
/// records they were read from, their canonical encodings and the finalized
/// evaluations, and gives what each draft fixes for the assignments pinned
/// to it, in draft order; `None` when any check fails.
pub fn sealed_evaluation_draft_crosslinks(
    raw: &Vec<JsonValue>,
    drafts: &Vec<SealedEvaluationDraft>,
    encodings: &Vec<DraftEncodings>,
    paper_id: u128,
    evaluations: &Vec<EvaluationLink>,
) -> (r: Option<Vec<DraftLink>>)
    requires
        encodings@.len() == drafts@.len(),
    ensures
        r is Some <==> drafts_sealed(raw@, drafts@, encodings@, paper_id, evaluations@),
        r matches Some(links) ==> links@.len() == drafts@.len() && (forall|i: int|
            0 <= i < drafts@.len() ==> #[trigger] links@[i] == draft_link_of(drafts@[i]))
            && crate::review::distinct_draft_ids(links@),
{
    if raw.len() != drafts.len() || drafts.len() > 4096 {
        return None;
    }
    let mut links: Vec<DraftLink> = Vec::new();
    let mut i: usize = 0;
    while i < drafts.len()
        invariant
            encodings@.len() == drafts@.len(),
            raw@.len() == drafts@.len(),
            drafts@.len() <= 4096,
            i <= drafts@.len(),
            links@.len() == i,
            forall|k: int| 0 <= k < i ==> draft_ok(raw@[k], #[trigger] drafts@[k], encodings@[k], paper_id),
            forall|k: int, l: int|
                0 <= k < l < i ==> (#[trigger] drafts@[k]).evaluation_id < (#[trigger] drafts@[l]).evaluation_id,
            forall|k: int| 0 <= k < i ==> draft_lifecycle_ok(#[trigger] drafts@[k], evaluations@, drafts@.take(k)),
            forall|k: int| 0 <= k < i ==> #[trigger] links@[k] == draft_link_of(drafts@[k]),
        decreases drafts.len() - i,
    {
        let d = &drafts[i];
        if !draft_check(&raw[i], d, &encodings[i], paper_id) {
            return None;
        }
        if i > 0 && drafts[i - 1].evaluation_id >= d.evaluation_id {
            assert(drafts@[i - 1].evaluation_id >= drafts@[i as int].evaluation_id);
            return None;
        }
        if !draft_lifecycle_check(drafts, i, evaluations) {
            return None;
        }
        links.push(
            DraftLink {
                evaluation_id: d.evaluation_id,
                submission_id: d.submission_id,
                review_round: d.review_round,
                evaluator_player_id: d.evaluator_player_id,
                status: d.status,
                created_at: d.created_at,
                expires_at: d.expires_at,
                updated_at: d.updated_at,
            },
        );
        i = i + 1;
    }
    assert(crate::review::distinct_draft_ids(links@));
    Some(links)
}

/// In sealed drafts no two open drafts share a submission and review
/// round, and no draft is already a finalized evaluation.
pub proof fn lemma_sealed_drafts_hold_one_open_round(
    raw: Seq<JsonValue>,
    drafts: Seq<SealedEvaluationDraft>,
    encodings: Seq<DraftEncodings>,
    paper_id: u128,
    evaluations: Seq<EvaluationLink>,
)
    requires
        drafts_sealed(raw, drafts, encodings, paper_id, evaluations),
    ensures
        forall|k: int, l: int|
            0 <= k < l < drafts.len() && (#[trigger] drafts[k]).status == DraftStatus::Open
                && (#[trigger] drafts[l]).status == DraftStatus::Open ==> drafts[k].submission_id
                != drafts[l].submission_id || drafts[k].review_round != drafts[l].review_round,
        forall|k: int| 0 <= k < drafts.len() ==> !has_evaluation(evaluations, (#[trigger] drafts[k]).evaluation_id),
{
    reveal(draft_lifecycle_ok);
    assert forall|k: int, l: int|
        0 <= k < l < drafts.len() && (#[trigger] drafts[k]).status == DraftStatus::Open
            && (#[trigger] drafts[l]).status == DraftStatus::Open implies drafts[k].submission_id
            != drafts[l].submission_id || drafts[k].review_round != drafts[l].review_round by {
        assert(draft_lifecycle_ok(drafts[l], evaluations, drafts.take(l)));
        assert(drafts.take(l)[k] == drafts[k]);
    }
    assert forall|k: int| 0 <= k < drafts.len() implies !has_evaluation(
        evaluations,
        (#[trigger] drafts[k]).evaluation_id,
    ) by {
        assert(draft_lifecycle_ok(drafts[k], evaluations, drafts.take(k)));
    }
}

} // verus!
