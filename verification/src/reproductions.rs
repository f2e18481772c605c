//! The reproductions of a Paper's review state, checked against the raw
//! records they were read from, the finalized evaluations they reproduce
//! and the reproducer assignments: every record canonical and signed with a
//! well-formed key, bound to its evaluation's release and tolerance rules,
//! made by a claimed reproducer who is not on the evaluation's panel,
//! reported under the digest it states, and every chain of superseding
//! reproductions a single line from one first version.
//!
//! A reproduction's report digest is taken over the contracts' canonical
//! JSON encoding of its report, which embeds the digest of its signing
//! bytes; that encoder is not part of this library, so a caller hands in
//! the encoded report and the check here hashes it and compares.

use vstd::prelude::*;
use crate::drafts::{
    sealed_canonical_base64, sealed_canonical_base64_check, sealed_public_key,
    sealed_public_key_check,
};
use crate::json::JsonValue;
use crate::review::{
    moment_le, moment_lt, sealed_optional_uuid, sealed_optional_uuid_check, sealed_text,
    sealed_text_check, sealed_timestamp, sealed_timestamp_check, sealed_uuid, sealed_uuid_check,
    AssignmentStatus, EvaluationView, Moment, ReviewSlot, SealedEvaluation, SealedReviewAssignment,
};
use crate::practice_http::digest_label_of_bytes;
use crate::text::{is_digest_text, str_eq, valid_digest_label};

verus! {

/// Whether a reproduction reproduced its evaluation.
#[derive(Debug, Clone, Copy, PartialEq, Eq, Structural)]
pub enum ReproductionStatus {
    Reproduced,
    NotReproduced,
}

/// The statistical evidence a reproduction records for one metric.
#[derive(Debug)]
pub struct StatisticalEvidence {
    pub metric: String,
    pub interval_overlap_bps: u64,
    pub p_value_micros: u64,
}

/// The outcome a reproduction records for one tolerance rule.
#[derive(Debug)]
pub struct RuleResult {
    pub rule_key: String,
    pub detail_hash: String,
    pub passed: bool,
}

/// A reproduction as the review state lists it; its observed metrics are
/// given by their names.
#[derive(Debug)]
pub struct SealedReproduction {
    pub schema: String,
    pub reproduction_id: u128,
    pub evaluation_id: u128,
    pub paper_project_id: u128,
    pub release_candidate_hash: String,
    pub paper_bundle_hash: String,
    pub tolerance_policy_hash: String,
    pub observed_metric_keys: Vec<String>,
    pub statistical_evidence: Vec<StatisticalEvidence>,
    pub seed_set_hash: String,
    pub environment_hash: String,
    pub run_manifest_hash: String,
    pub supersedes_reproduction_id: Option<u128>,
    pub reproducer_player_id: u128,
    pub signing_key_id: String,
    pub signing_public_key: String,
    pub signing_public_key_hash: String,
    pub coi_attestation_hash: String,
    pub signed_at_unix: i64,
    pub signature: String,
    pub rule_results: Vec<RuleResult>,
    pub status: ReproductionStatus,
    pub report_hash: String,
    pub version: u64,
    pub created_at: Moment,
}

/// The reproduction against its raw record: 25 members, the reproduction
/// schema, this Paper, a version, a signing time, at most 256 observed
/// metrics and 256 pieces of evidence, and every id and time written
/// canonically.
pub open spec fn reproduction_record_ok(raw: JsonValue, p: SealedReproduction, paper_id: u128, schema: Seq<char>) -> bool {
    &&& match raw {
        JsonValue::Object(m) => m@.len() == 25,
        _ => false,
    }
    &&& p.schema@ == schema
    &&& p.paper_project_id == paper_id
    &&& p.version != 0
    &&& p.signed_at_unix >= 0
    &&& p.observed_metric_keys@.len() <= 256
    &&& p.statistical_evidence@.len() <= 256
    &&& sealed_uuid(raw, "reproduction_id"@, p.reproduction_id)
    &&& sealed_uuid(raw, "evaluation_id"@, p.evaluation_id)
    &&& sealed_uuid(raw, "paper_project_id"@, p.paper_project_id)
    &&& sealed_optional_uuid(raw, "supersedes_reproduction_id"@, p.supersedes_reproduction_id)
    &&& sealed_uuid(raw, "reproducer_player_id"@, p.reproducer_player_id)
    &&& sealed_timestamp(raw, "created_at"@, p.created_at)
}

/// A piece of evidence names a bounded metric, an overlap of at most
/// 10 000 basis points and a p-value of at most one million micros.
pub open spec fn evidence_ok(e: StatisticalEvidence) -> bool {
    sealed_text(e.metric@) && e.interval_overlap_bps <= 10_000 && e.p_value_micros <= 1_000_000
}

/// Every digest of the reproduction is a digest label, its key id, public
/// key and signature are well formed, and its metric names and evidence
/// are bounded.
pub open spec fn reproduction_signing_ok(p: SealedReproduction) -> bool {
    &&& is_digest_text(p.release_candidate_hash@)
    &&& is_digest_text(p.paper_bundle_hash@)
    &&& is_digest_text(p.tolerance_policy_hash@)
    &&& is_digest_text(p.seed_set_hash@)
    &&& is_digest_text(p.environment_hash@)
    &&& is_digest_text(p.run_manifest_hash@)
    &&& is_digest_text(p.signing_public_key_hash@)
    &&& is_digest_text(p.coi_attestation_hash@)
    &&& is_digest_text(p.report_hash@)
    &&& sealed_text(p.signing_key_id@)
    &&& sealed_public_key(p.signing_public_key@, p.signing_public_key_hash@)
    &&& sealed_canonical_base64(p.signature@, 64)
    &&& forall|k: int|
        0 <= k < p.observed_metric_keys@.len() ==> sealed_text(#[trigger] p.observed_metric_keys@[k]@)
    &&& forall|k: int| 0 <= k < p.statistical_evidence@.len() ==> evidence_ok(#[trigger] p.statistical_evidence@[k])
}

/// The finalized evaluation with this id, if any.
pub open spec fn evaluation_of(evaluations: Seq<EvaluationView>, id: u128) -> Option<EvaluationView> {
    if exists|k: int| 0 <= k < evaluations.len() && (#[trigger] evaluations[k]).link.evaluation_id == id {
        Some(evaluations[choose|k: int| 0 <= k < evaluations.len() && (#[trigger] evaluations[k]).link.evaluation_id == id])
    } else {
        None
    }
}

/// The rule keys a reproduction reports, in order.
pub open spec fn result_keys(p: SealedReproduction) -> Seq<Seq<char>> {
    p.rule_results@.map_values(|r: RuleResult| r.rule_key@)
}

/// Every rule result has a bounded key and a digest label.
pub open spec fn results_ok(p: SealedReproduction) -> bool {
    forall|k: int|
        0 <= k < p.rule_results@.len() ==> sealed_text((#[trigger] p.rule_results@[k]).rule_key@)
            && is_digest_text(p.rule_results@[k].detail_hash@)
}

/// Every rule passed.
pub open spec fn all_passed(p: SealedReproduction) -> bool {
    forall|k: int| 0 <= k < p.rule_results@.len() ==> (#[trigger] p.rule_results@[k]).passed
}

/// The assignment lets the reproducer reproduce the evaluation at the
/// reproduction's time: this Paper, the evaluation's submission and round,
/// the reproducer slot, claimed no later than the reproduction and expiring
/// after it, not pinned, and claimed or expired.
pub open spec fn reproducer_assignment(
    a: SealedReviewAssignment,
    p: SealedReproduction,
    e: EvaluationView,
    paper_id: u128,
) -> bool {
    &&& a.paper_project_id == paper_id
    &&& a.submission_id == e.link.submission_id
    &&& a.review_round == e.link.version
    &&& a.slot == ReviewSlot::Reproducer
    &&& a.player_id == p.reproducer_player_id
    &&& moment_le(a.claimed_at, p.created_at)
    &&& moment_lt(p.created_at, a.expires_at)
    &&& a.pinned_evaluation_id is None
    &&& (a.status == AssignmentStatus::Claimed || a.status == AssignmentStatus::Expired)
}

/// The reproduction matches its evaluation: the same release, bundle and
/// tolerance policy, made no earlier than the evaluation, by a player off
/// the evaluation's panel, reporting exactly the evaluation's rule keys in
/// order, reproduced exactly when every rule passed.
pub open spec fn reproduction_matches(p: SealedReproduction, e: EvaluationView) -> bool {
    &&& p.release_candidate_hash@ == e.release_candidate_hash
    &&& p.paper_bundle_hash@ == e.paper_bundle_hash
    &&& p.tolerance_policy_hash@ == e.tolerance_policy_hash
    &&& !moment_lt(p.created_at, e.link.created_at)
    &&& p.reproducer_player_id != e.link.evaluator_player_id
    &&& p.reproducer_player_id != e.link.reviewer_player_ids.0
    &&& p.reproducer_player_id != e.link.reviewer_player_ids.1
    &&& results_ok(p)
    &&& result_keys(p) == e.tolerance_rule_keys
    &&& (p.status == ReproductionStatus::Reproduced) == all_passed(p)
}

/// The reproduction is bound to its evaluation, under a reproducer
/// assignment.
pub open spec fn reproduction_binding_ok(
    p: SealedReproduction,
    e: EvaluationView,
    assignments: Seq<SealedReviewAssignment>,
    paper_id: u128,
) -> bool {
    &&& reproduction_matches(p, e)
    &&& exists|k: int| 0 <= k < assignments.len() && reproducer_assignment(#[trigger] assignments[k], p, e, paper_id)
}

/// The encoded report hashes to the report digest the reproduction states.
pub open spec fn report_ok(p: SealedReproduction, report: Option<Vec<u8>>) -> bool {
    match report {
        Some(b) => digest_label_of_bytes(b@) == p.report_hash@,
        None => false,
    }
}

/// Everything that holds of one reproduction on its own.
#[verifier::opaque]
pub open spec fn reproduction_ok(
    raw: JsonValue,
    p: SealedReproduction,
    report: Option<Vec<u8>>,
    paper_id: u128,
    schema: Seq<char>,
    evaluations: Seq<EvaluationView>,
    assignments: Seq<SealedReviewAssignment>,
) -> bool {
    &&& reproduction_record_ok(raw, p, paper_id, schema)
    &&& reproduction_signing_ok(p)
    &&& match evaluation_of(evaluations, p.evaluation_id) {
        Some(e) => reproduction_binding_ok(p, e, assignments, paper_id),
        None => false,
    }
    &&& report_ok(p, report)
}

/// The reproduction's place in its chain: a first version supersedes
/// nothing; a later one supersedes a listed reproduction of the same
/// evaluation and reproducer, one version earlier and made no later.
#[verifier::opaque]
pub open spec fn lineage_ok(reproductions: Seq<SealedReproduction>, p: SealedReproduction) -> bool {
    match p.supersedes_reproduction_id {
        None => p.version == 1,
        Some(parent_id) => exists|j: int|
            0 <= j < reproductions.len() && (#[trigger] reproductions[j]).reproduction_id == parent_id
                && reproductions[j].evaluation_id == p.evaluation_id
                && reproductions[j].reproducer_player_id == p.reproducer_player_id
                && reproductions[j].version + 1 == p.version && moment_le(
                reproductions[j].created_at,
                p.created_at,
            ),
    }
}

/// Two reproductions start the same chain: both supersede nothing, for the
/// same evaluation and reproducer.
pub open spec fn same_root(p: SealedReproduction, q: SealedReproduction) -> bool {
    p.supersedes_reproduction_id is None && q.supersedes_reproduction_id is None && p.evaluation_id
        == q.evaluation_id && p.reproducer_player_id == q.reproducer_player_id
}

/// Two reproductions supersede the same one.
pub open spec fn same_parent(p: SealedReproduction, q: SealedReproduction) -> bool {
    p.supersedes_reproduction_id is Some && p.supersedes_reproduction_id == q.supersedes_reproduction_id
}

/// The reproductions of a review state are sealed: one raw record and one
/// encoded report per reproduction, at most 16 384, each sound on its own,
/// in strictly ascending id order, no reproduction superseded twice, every
/// one in its chain, and one first version per evaluation and reproducer.
pub open spec fn reproductions_sealed(
    raw: Seq<JsonValue>,
    reproductions: Seq<SealedReproduction>,
    reports: Seq<Option<Vec<u8>>>,
    paper_id: u128,
    schema: Seq<char>,
    evaluations: Seq<EvaluationView>,
    assignments: Seq<SealedReviewAssignment>,
) -> bool {
    &&& raw.len() == reproductions.len()
    &&& reproductions.len() <= 16384
    &&& forall|i: int|
        0 <= i < reproductions.len() ==> reproduction_ok(
            raw[i],
            #[trigger] reproductions[i],
            reports[i],
            paper_id,
            schema,
            evaluations,
            assignments,
        )
    &&& forall|k: int, l: int|
        0 <= k < l < reproductions.len() ==> (#[trigger] reproductions[k]).reproduction_id
            < (#[trigger] reproductions[l]).reproduction_id
    &&& forall|k: int, l: int|
        0 <= k < l < reproductions.len() ==> !same_parent(#[trigger] reproductions[k], #[trigger] reproductions[l])
    &&& forall|i: int| 0 <= i < reproductions.len() ==> lineage_ok(reproductions, #[trigger] reproductions[i])
    &&& forall|k: int, l: int|
        0 <= k < l < reproductions.len() ==> !same_root(#[trigger] reproductions[k], #[trigger] reproductions[l])
}

/// The values of finalized evaluations.
pub open spec fn views_of(evaluations: Seq<SealedEvaluation>) -> Seq<EvaluationView> {
    evaluations.map_values(|e: SealedEvaluation| e@)
}

/// No two finalized evaluations share an id.
pub open spec fn distinct_evaluations(evaluations: Seq<EvaluationView>) -> bool {
    forall|i: int, j: int|
        0 <= i < j < evaluations.len() ==> (#[trigger] evaluations[i]).link.evaluation_id
            != (#[trigger] evaluations[j]).link.evaluation_id
}

fn record_check(raw: &JsonValue, p: &SealedReproduction, paper_id: u128, schema: &str) -> (r: bool)
    ensures
        r == reproduction_record_ok(*raw, *p, paper_id, schema@),
{
    let members_ok = match raw {
        JsonValue::Object(m) => m.len() == 25,
        _ => false,
    };
    members_ok && str_eq(p.schema.as_str(), schema) && p.paper_project_id == paper_id && p.version
        != 0 && p.signed_at_unix >= 0 && p.observed_metric_keys.len() <= 256
        && p.statistical_evidence.len() <= 256 && sealed_uuid_check(
        raw,
        "reproduction_id",
        p.reproduction_id,
    ) && sealed_uuid_check(raw, "evaluation_id", p.evaluation_id) && sealed_uuid_check(
        raw,
        "paper_project_id",
        p.paper_project_id,
    ) && sealed_optional_uuid_check(raw, "supersedes_reproduction_id", p.supersedes_reproduction_id)
        && sealed_uuid_check(raw, "reproducer_player_id", p.reproducer_player_id)
        && sealed_timestamp_check(raw, "created_at", p.created_at)
}

fn texts_bounded(texts: &Vec<String>) -> (r: bool)
    ensures
        r == forall|k: int| 0 <= k < texts@.len() ==> sealed_text(#[trigger] texts@[k]@),
{
    let mut k: usize = 0;
    while k < texts.len()
        invariant
            k <= texts@.len(),
            forall|j: int| 0 <= j < k ==> sealed_text(#[trigger] texts@[j]@),
        decreases texts.len() - k,
    {
        if !sealed_text_check(texts[k].as_str()) {
            return false;
        }
        k = k + 1;
    }
    true
}

fn evidence_bounded(evidence: &Vec<StatisticalEvidence>) -> (r: bool)
    ensures
        r == forall|k: int| 0 <= k < evidence@.len() ==> evidence_ok(#[trigger] evidence@[k]),
{
    let mut k: usize = 0;
    while k < evidence.len()
        invariant
            k <= evidence@.len(),
            forall|j: int| 0 <= j < k ==> evidence_ok(#[trigger] evidence@[j]),
        decreases evidence.len() - k,
    {
        let e = &evidence[k];
        if !(sealed_text_check(e.metric.as_str()) && e.interval_overlap_bps <= 10_000 && e.p_value_micros
            <= 1_000_000) {
            return false;
        }
        k = k + 1;
    }
    true
}

fn signing_check(p: &SealedReproduction) -> (r: bool)
    ensures
        r == reproduction_signing_ok(*p),
{
    valid_digest_label(p.release_candidate_hash.as_str()) && valid_digest_label(
        p.paper_bundle_hash.as_str(),
    ) && valid_digest_label(p.tolerance_policy_hash.as_str()) && valid_digest_label(
        p.seed_set_hash.as_str(),
    ) && valid_digest_label(p.environment_hash.as_str()) && valid_digest_label(
        p.run_manifest_hash.as_str(),
    ) && valid_digest_label(p.signing_public_key_hash.as_str()) && valid_digest_label(
        p.coi_attestation_hash.as_str(),
    ) && valid_digest_label(p.report_hash.as_str()) && sealed_text_check(p.signing_key_id.as_str())
        && sealed_public_key_check(p.signing_public_key.as_str(), p.signing_public_key_hash.as_str())
        && sealed_canonical_base64_check(p.signature.as_str(), 64) && texts_bounded(
        &p.observed_metric_keys,
    ) && evidence_bounded(&p.statistical_evidence)
}

fn find_evaluation(evaluations: &Vec<SealedEvaluation>, id: u128) -> (r: Option<usize>)
    requires
        distinct_evaluations(views_of(evaluations@)),
    ensures
        match r {
            Some(k) => k < evaluations@.len() && evaluation_of(views_of(evaluations@), id) == Some(evaluations@[k as int]@),
            None => evaluation_of(views_of(evaluations@), id) is None,
        },
{
    let ghost views = views_of(evaluations@);
    let mut k: usize = 0;
    while k < evaluations.len()
        invariant
            views == views_of(evaluations@),
            distinct_evaluations(views),
            k <= evaluations@.len(),
            forall|j: int| 0 <= j < k ==> (#[trigger] views[j]).link.evaluation_id != id,
        decreases evaluations.len() - k,
    {
        assert(views[k as int] == evaluations@[k as int]@);
        if evaluations[k].link.evaluation_id == id {
            proof {
                let c = choose|c: int| 0 <= c < views.len() && (#[trigger] views[c]).link.evaluation_id == id;
                if c != k {
                    if c < k {
                        assert(views[c].link.evaluation_id != id);
                    } else {
                        assert(views[k as int].link.evaluation_id != views[c].link.evaluation_id);
                    }
                }
            }
            return Some(k);
        }
        k = k + 1;
    }
    None
}

fn results_check(p: &SealedReproduction) -> (r: bool)
    ensures
        r == results_ok(*p),
{
    let mut k: usize = 0;
    while k < p.rule_results.len()
        invariant
            k <= p.rule_results@.len(),
            forall|j: int|
                0 <= j < k ==> sealed_text((#[trigger] p.rule_results@[j]).rule_key@) && is_digest_text(
                    p.rule_results@[j].detail_hash@,
                ),
        decreases p.rule_results.len() - k,
    {
        let x = &p.rule_results[k];
        if !(sealed_text_check(x.rule_key.as_str()) && valid_digest_label(x.detail_hash.as_str())) {
            return false;
        }
        k = k + 1;
    }
    true
}

fn keys_match(p: &SealedReproduction, e: &SealedEvaluation) -> (r: bool)
    ensures
        r == (result_keys(*p) == e@.tolerance_rule_keys),
{
    let n = p.rule_results.len();
    if n != e.tolerance_rule_keys.len() {
        proof {
            assert(result_keys(*p).len() != e@.tolerance_rule_keys.len());
        }
        return false;
    }
    let mut k: usize = 0;
    while k < n
        invariant
            n == p.rule_results@.len(),
            n == e.tolerance_rule_keys@.len(),
            k <= n,
            forall|j: int| 0 <= j < k ==> result_keys(*p)[j] == e@.tolerance_rule_keys[j],
        decreases n - k,
    {
        if !str_eq(p.rule_results[k].rule_key.as_str(), e.tolerance_rule_keys[k].as_str()) {
            proof {
                assert(result_keys(*p)[k as int] != e@.tolerance_rule_keys[k as int]);
            }
            return false;
        }
        k = k + 1;
    }
    assert(result_keys(*p) =~= e@.tolerance_rule_keys);
    true
}

fn all_passed_check(p: &SealedReproduction) -> (r: bool)
    ensures
        r == all_passed(*p),
{
    let mut k: usize = 0;
    while k < p.rule_results.len()
        invariant
            k <= p.rule_results@.len(),
            forall|j: int| 0 <= j < k ==> (#[trigger] p.rule_results@[j]).passed,
        decreases p.rule_results.len() - k,
    {
        if !p.rule_results[k].passed {
            return false;
        }
        k = k + 1;
    }
    true
}

fn assignment_check(a: &SealedReviewAssignment, p: &SealedReproduction, e: &SealedEvaluation, paper_id: u128) -> (r: bool)
    ensures
        r == reproducer_assignment(*a, *p, e@, paper_id),
{
    let slot_ok = match a.slot {
        ReviewSlot::Reproducer => true,
        _ => false,
    };
    let status_ok = match a.status {
        AssignmentStatus::Claimed => true,
        AssignmentStatus::Expired => true,
        _ => false,
    };
    a.paper_project_id == paper_id && a.submission_id == e.link.submission_id && a.review_round
        == e.link.version && slot_ok && a.player_id == p.reproducer_player_id && !crate::review::earlier(
        p.created_at,
        a.claimed_at,
    ) && crate::review::earlier(p.created_at, a.expires_at) && a.pinned_evaluation_id.is_none()
        && status_ok
}

fn binding_check(
    p: &SealedReproduction,
    e: &SealedEvaluation,
    assignments: &Vec<SealedReviewAssignment>,
    paper_id: u128,
) -> (r: bool)
    ensures
        r == reproduction_binding_ok(*p, e@, assignments@, paper_id),
{
    if !(str_eq(p.release_candidate_hash.as_str(), e.release_candidate_hash.as_str()) && str_eq(
        p.paper_bundle_hash.as_str(),
        e.paper_bundle_hash.as_str(),
    ) && str_eq(p.tolerance_policy_hash.as_str(), e.tolerance_policy_hash.as_str())
        && !crate::review::earlier(p.created_at, e.link.created_at) && p.reproducer_player_id
        != e.link.evaluator_player_id && p.reproducer_player_id != e.link.reviewer_player_ids.0
        && p.reproducer_player_id != e.link.reviewer_player_ids.1) {
        return false;
    }
    if !results_check(p) || !keys_match(p, e) {
        return false;
    }
    let reproduced = match p.status {
        ReproductionStatus::Reproduced => true,
        ReproductionStatus::NotReproduced => false,
    };
    if reproduced != all_passed_check(p) {
        return false;
    }
    let mut k: usize = 0;
    while k < assignments.len()
        invariant
            reproduction_matches(*p, e@),
            k <= assignments@.len(),
            forall|j: int| 0 <= j < k ==> !reproducer_assignment(#[trigger] assignments@[j], *p, e@, paper_id),
        decreases assignments.len() - k,
    {
        if assignment_check(&assignments[k], p, e, paper_id) {
            return true;
        }
        k = k + 1;
    }
    false
}

fn reproduction_check(
    raw: &JsonValue,
    p: &SealedReproduction,
    report: &Option<Vec<u8>>,
    paper_id: u128,
    schema: &str,
    evaluations: &Vec<SealedEvaluation>,
    assignments: &Vec<SealedReviewAssignment>,
) -> (r: bool)
    requires
        distinct_evaluations(views_of(evaluations@)),
    ensures
        r == reproduction_ok(*raw, *p, *report, paper_id, schema@, views_of(evaluations@), assignments@),
{
    reveal(reproduction_ok);
    if !record_check(raw, p, paper_id, schema) || !signing_check(p) {
        return false;
    }
    let e = match find_evaluation(evaluations, p.evaluation_id) {
        Some(k) => &evaluations[k],
        None => return false,
    };
    if !binding_check(p, e, assignments, paper_id) {
        return false;
    }
    match report {
        Some(b) => {
            let digest = crate::practice_http::digest_label(b.as_slice());
            str_eq(digest.as_str(), p.report_hash.as_str())
        },
        None => false,
    }
}

fn lineage_check(reproductions: &Vec<SealedReproduction>, i: usize) -> (r: bool)
    requires
        i < reproductions@.len(),
    ensures
        r == lineage_ok(reproductions@, reproductions@[i as int]),
{
    reveal(lineage_ok);
    let p = &reproductions[i];
    let parent_id = match p.supersedes_reproduction_id {
        None => return p.version == 1,
        Some(id) => id,
    };
    let mut j: usize = 0;
    while j < reproductions.len()
        invariant
            i < reproductions@.len(),
            p == &reproductions@[i as int],
            p.supersedes_reproduction_id == Some(parent_id),
            j <= reproductions@.len(),
            forall|m: int|
                0 <= m < j ==> !((#[trigger] reproductions@[m]).reproduction_id == parent_id
                    && reproductions@[m].evaluation_id == p.evaluation_id
                    && reproductions@[m].reproducer_player_id == p.reproducer_player_id
                    && reproductions@[m].version + 1 == p.version && moment_le(
                    reproductions@[m].created_at,
                    p.created_at,
                )),
        decreases reproductions.len() - j,
    {
        let q = &reproductions[j];
        assert(q == &reproductions@[j as int]);
        if q.reproduction_id == parent_id && q.evaluation_id == p.evaluation_id && q.reproducer_player_id
            == p.reproducer_player_id && q.version < u64::MAX && q.version + 1 == p.version
            && !crate::review::earlier(p.created_at, q.created_at) {
            proof {
                reveal(lineage_ok);
                assert(reproductions@[j as int].reproduction_id == parent_id);
            }
            return true;
        }
        j = j + 1;
    }
    false
}

fn same_root_check(p: &SealedReproduction, q: &SealedReproduction) -> (r: bool)
    ensures
        r == same_root(*p, *q),
{
    p.supersedes_reproduction_id.is_none() && q.supersedes_reproduction_id.is_none() && p.evaluation_id
        == q.evaluation_id && p.reproducer_player_id == q.reproducer_player_id
}

fn same_parent_check(p: &SealedReproduction, q: &SealedReproduction) -> (r: bool)
    ensures
        r == same_parent(*p, *q),
{
    match (p.supersedes_reproduction_id, q.supersedes_reproduction_id) {
        (Some(a), Some(b)) => a == b,
        _ => false,
    }
}

/// Checks the reproductions of a Paper's review state against the raw
/// records they were read from, their encoded reports, the finalized
/// evaluations (each listed once by id) and the review assignments;
/// `Some(())` exactly when every check passes.
pub fn sealed_reproductions(
    raw: &Vec<JsonValue>,
    reproductions: &Vec<SealedReproduction>,
    reports: &Vec<Option<Vec<u8>>>,
    paper_id: u128,
    schema: &str,
    evaluations: &Vec<SealedEvaluation>,
    assignments: &Vec<SealedReviewAssignment>,
) -> (r: Option<()>)
    requires
        reports@.len() == reproductions@.len(),
        distinct_evaluations(views_of(evaluations@)),
    ensures
        r is Some <==> reproductions_sealed(
            raw@,
            reproductions@,
            reports@,
            paper_id,
            schema@,
            views_of(evaluations@),
            assignments@,
        ),
{
    if raw.len() != reproductions.len() || reproductions.len() > 16384 {
        return None;
    }
    let n = reproductions.len();
    let mut i: usize = 0;
    while i < n
        invariant
            n == reproductions@.len(),
            reports@.len() == n,
            raw@.len() == n,
            n <= 16384,
            distinct_evaluations(views_of(evaluations@)),
            i <= n,
            forall|k: int|
                0 <= k < i ==> reproduction_ok(
                    raw@[k],
                    #[trigger] reproductions@[k],
                    reports@[k],
                    paper_id,
                    schema@,
                    views_of(evaluations@),
                    assignments@,
                ),
            forall|k: int, l: int|
                0 <= k < l < i ==> (#[trigger] reproductions@[k]).reproduction_id
                    < (#[trigger] reproductions@[l]).reproduction_id,
            forall|k: int, l: int|
                0 <= k < l < i ==> !same_parent(#[trigger] reproductions@[k], #[trigger] reproductions@[l]),
        decreases n - i,
    {
        let p = &reproductions[i];
        if !reproduction_check(&raw[i], p, &reports[i], paper_id, schema, evaluations, assignments) {
            return None;
        }
        if i > 0 && reproductions[i - 1].reproduction_id >= p.reproduction_id {
            assert(reproductions@[i - 1].reproduction_id >= reproductions@[i as int].reproduction_id);
            return None;
        }
        let mut j: usize = 0;
        while j < i
            invariant
                i < n,
                n == reproductions@.len(),
                p == &reproductions@[i as int],
                j <= i,
                forall|k: int| 0 <= k < j ==> !same_parent(#[trigger] reproductions@[k], reproductions@[i as int]),
            decreases i - j,
        {
            if same_parent_check(&reproductions[j], p) {
                return None;
            }
            j = j + 1;
        }
        i = i + 1;
    }
    let mut i: usize = 0;
    while i < n
        invariant
            n == reproductions@.len(),
            i <= n,
            forall|k: int| 0 <= k < i ==> lineage_ok(reproductions@, #[trigger] reproductions@[k]),
            forall|k: int, l: int|
                0 <= k < l < i ==> !same_root(#[trigger] reproductions@[k], #[trigger] reproductions@[l]),
        decreases n - i,
    {
        if !lineage_check(reproductions, i) {
            return None;
        }
        let p = &reproductions[i];
        let mut j: usize = 0;
        while j < i
            invariant
                i < n,
                n == reproductions@.len(),
                p == &reproductions@[i as int],
                j <= i,
                forall|k: int| 0 <= k < j ==> !same_root(#[trigger] reproductions@[k], reproductions@[i as int]),
            decreases i - j,
        {
            if same_root_check(&reproductions[j], p) {
                return None;
            }
            j = j + 1;
        }
        i = i + 1;
    }
    Some(())
}

/// In sealed reproductions a reproduction is a first version exactly when
/// it supersedes nothing, and each chain's versions rise by one from its
/// first version: a superseding reproduction is never a first version.
pub proof fn lemma_sealed_first_versions_are_roots(
    raw: Seq<JsonValue>,
    reproductions: Seq<SealedReproduction>,
    reports: Seq<Option<Vec<u8>>>,
    paper_id: u128,
    schema: Seq<char>,
    evaluations: Seq<EvaluationView>,
    assignments: Seq<SealedReviewAssignment>,
)
    requires
        reproductions_sealed(raw, reproductions, reports, paper_id, schema, evaluations, assignments),
    ensures
        forall|i: int|
            0 <= i < reproductions.len() ==> ((#[trigger] reproductions[i]).version == 1
                <==> reproductions[i].supersedes_reproduction_id is None),
{
    reveal(lineage_ok);
    reveal(reproduction_ok);
    assert forall|i: int| 0 <= i < reproductions.len() implies ((#[trigger] reproductions[i]).version == 1
        <==> reproductions[i].supersedes_reproduction_id is None) by {
        assert(lineage_ok(reproductions, reproductions[i]));
        if reproductions[i].supersedes_reproduction_id is Some {
            let parent_id = reproductions[i].supersedes_reproduction_id->0;
            let j = choose|j: int|
                0 <= j < reproductions.len() && (#[trigger] reproductions[j]).reproduction_id == parent_id
                    && reproductions[j].evaluation_id == reproductions[i].evaluation_id
                    && reproductions[j].reproducer_player_id == reproductions[i].reproducer_player_id
                    && reproductions[j].version + 1 == reproductions[i].version && moment_le(
                    reproductions[j].created_at,
                    reproductions[i].created_at,
                );
            assert(reproduction_ok(
                raw[j],
                reproductions[j],
                reports[j],
                paper_id,
                schema,
                evaluations,
                assignments,
            ));
        }
    }
}

} // verus!
