//! Sealing a Paper's review state as the Hepta read model returns it: the
//! request must be the exact review-state read of that Paper, the consumer
//! finality must be canonical and confer nothing, every record must belong
//! to the Paper, and the evaluations, evaluation drafts, assignments and
//! reproductions must seal against each other. Only a sealed state is
//! handed on.

use vstd::prelude::*;
use crate::drafts::{
    draft_link_of, drafts_sealed, sealed_evaluation_draft_crosslinks, DraftEncodings,
    SealedEvaluationDraft,
};
use crate::error::AppError;
use crate::hepta::Route;
use crate::json::{field_array, field_text, field_u64, JsonValue};
use crate::reproductions::{
    reproductions_sealed, sealed_reproductions, views_of, SealedReproduction,
};
use crate::review::{
    assignments_sealed, distinct_evaluation_ids, evaluation_record_is,
    evaluation_record_ok, record_reviewers, record_time, record_uuid, rfc3339_of,
    sealed_evaluation_crosslinks, sealed_optional_uuid, sealed_optional_uuid_check,
    sealed_review_assignments, tolerance_rule_keys_of, EvaluationLink, EvaluationView,
    Moment, SealedEvaluation, SealedReviewAssignment,
};
use crate::text::{chars_eq_str, push_chars, push_str, str_eq, uuid_chars, uuid_text};

verus! {

pub const CONSUMER_FINALITY_V2: &'static str = "hepta.paper_raid.consumer_finality.v2";

/// Whether a Paper's finality is still pending or has been verified.
#[derive(Debug, Clone, Copy, PartialEq, Eq, Structural)]
pub enum FinalityStatus {
    PendingFinality,
    VerifiedFinality,
}

/// The consumer finality of a review state.
#[derive(Debug)]
pub struct ConsumerFinality {
    pub schema: String,
    pub status: FinalityStatus,
    pub effective_evaluation_id: Option<u128>,
    pub effective_reproduction_id: Option<u128>,
    pub effective_appeal_resolution_id: Option<u128>,
    pub ranking_eligible: bool,
    pub reward_eligible: bool,
    pub score_eligible: bool,
    pub economic_eligible: bool,
    pub verified_at: Option<Moment>,
}

/// A review-state body as its typed records read: the finality, the
/// assignments, the evaluation drafts and reproductions, the canonical
/// encodings their digests are taken over, and the schema a reproduction
/// record carries.
#[derive(Debug)]
pub struct ReviewStateRecords {
    pub finality: ConsumerFinality,
    pub assignments: Vec<SealedReviewAssignment>,
    pub evaluation_drafts: Vec<SealedEvaluationDraft>,
    pub draft_encodings: Vec<DraftEncodings>,
    pub reproductions: Vec<SealedReproduction>,
    pub reproduction_reports: Vec<Option<Vec<u8>>>,
    pub reproduction_schema: String,
}

/// The request is the review-state read of exactly this Paper.
pub open spec fn review_route_ok(route: Route, paper_id: u128) -> bool {
    &&& route.method@ == "GET"@
    &&& route.path@ == "/v2/hepta/papers/"@ + uuid_text(paper_id) + "/review-state"@
    &&& route.query is None
    &&& route.operation@ == "get_paper_review_state_v1"@
}

/// The finality's verification time is written canonically: null while
/// pending, the RFC 3339 text of the time once verified.
pub open spec fn finality_time_ok(raw: JsonValue, f: ConsumerFinality) -> bool {
    let encoded = raw.spec_get("verified_at"@);
    match (f.status, f.verified_at) {
        (FinalityStatus::PendingFinality, None) => match encoded {
            Some(JsonValue::Null) => true,
            _ => false,
        },
        (FinalityStatus::VerifiedFinality, Some(t)) => match encoded {
            Some(JsonValue::String(s)) => rfc3339_of(t.secs, t.nanos) == Some(s@),
            _ => false,
        },
        _ => false,
    }
}

/// A pending finality binds nothing; a verified one binds an evaluation and
/// a reproduction.
pub open spec fn finality_bindings_valid(f: ConsumerFinality) -> bool {
    match f.status {
        FinalityStatus::PendingFinality => f.effective_evaluation_id is None && f.effective_reproduction_id
            is None && f.effective_appeal_resolution_id is None,
        FinalityStatus::VerifiedFinality => f.effective_evaluation_id is Some
            && f.effective_reproduction_id is Some,
    }
}

/// The body's finality is the consumer finality schema, confers no
/// ranking, reward, score or economic eligibility, writes its bindings and
/// time canonically, and binds what its status requires.
pub open spec fn finality_ok(body: JsonValue, f: ConsumerFinality) -> bool {
    match body.spec_get("finality"@) {
        Some(raw) => {
            &&& f.schema@ == CONSUMER_FINALITY_V2@
            &&& !f.ranking_eligible
            &&& !f.reward_eligible
            &&& !f.score_eligible
            &&& !f.economic_eligible
            &&& sealed_optional_uuid(raw, "effective_evaluation_id"@, f.effective_evaluation_id)
            &&& sealed_optional_uuid(raw, "effective_reproduction_id"@, f.effective_reproduction_id)
            &&& sealed_optional_uuid(raw, "effective_appeal_resolution_id"@, f.effective_appeal_resolution_id)
            &&& finality_bindings_valid(f)
            &&& finality_time_ok(raw, f)
        },
        None => false,
    }
}

/// The body's collection `name` is a list of records of this Paper.
pub open spec fn records_of_paper(body: JsonValue, name: Seq<char>, paper_id: u128) -> bool {
    match field_array(body, name) {
        Some(items) => forall|k: int|
            0 <= k < items.len() ==> field_text(#[trigger] items[k], "paper_project_id"@) == Some(
                uuid_text(paper_id),
            ),
        None => false,
    }
}

/// The finalized evaluations read: each record a canonical evaluation of
/// this Paper, no id twice.
pub open spec fn evaluations_read(records: Seq<JsonValue>, paper_id: u128) -> bool {
    &&& forall|i: int| 0 <= i < records.len() ==> evaluation_record_ok(#[trigger] records[i], paper_id)
    &&& forall|i: int, j: int|
        0 <= i < j < records.len() ==> record_uuid(#[trigger] records[i], "evaluation_id"@) != record_uuid(
            #[trigger] records[j],
            "evaluation_id"@,
        )
}

/// What a canonical evaluation record states.
pub open spec fn evaluation_view_of(record: JsonValue) -> EvaluationView {
    let evaluator = record_uuid(record, "evaluator_player_id"@)->0;
    EvaluationView {
        link: EvaluationLink {
            evaluation_id: record_uuid(record, "evaluation_id"@)->0,
            submission_id: record_uuid(record, "submission_id"@)->0,
            version: field_u64(record, "version"@)->0,
            evaluator_player_id: evaluator,
            reviewer_player_ids: record_reviewers(record, evaluator)->0,
            created_at: record_time(record, "created_at"@)->0,
        },
        release_candidate_hash: field_text(record, "release_candidate_hash"@)->0,
        paper_bundle_hash: field_text(record, "paper_bundle_hash"@)->0,
        tolerance_policy_hash: field_text(record, "tolerance_policy_hash"@)->0,
        tolerance_rule_keys: tolerance_rule_keys_of(record)->0,
    }
}

pub open spec fn evaluation_views(records: Seq<JsonValue>) -> Seq<EvaluationView> {
    records.map_values(|r: JsonValue| evaluation_view_of(r))
}

pub open spec fn evaluation_links(views: Seq<EvaluationView>) -> Seq<EvaluationLink> {
    views.map_values(|v: EvaluationView| v.link)
}

/// Everything a sealed review state satisfies beyond its request: the
/// finality, the Paper of every record, and the evaluations, drafts,
/// assignments and reproductions sealed against each other.
pub open spec fn review_state_sealed(body: JsonValue, paper_id: u128, t: ReviewStateRecords) -> bool {
    &&& finality_ok(body, t.finality)
    &&& records_of_paper(body, "contribution_ledgers"@, paper_id)
    &&& records_of_paper(body, "evaluations"@, paper_id)
    &&& records_of_paper(body, "appeals"@, paper_id)
    &&& records_of_paper(body, "resolutions"@, paper_id)
    &&& records_of_paper(body, "raid_scores"@, paper_id)
    &&& match (
        field_array(body, "assignments"@),
        field_array(body, "evaluation_drafts"@),
        field_array(body, "reproductions"@),
        field_array(body, "evaluations"@),
    ) {
        (Some(ra), Some(rd), Some(rp), Some(re)) => {
            let views = evaluation_views(re);
            &&& evaluations_read(re, paper_id)
            &&& drafts_sealed(rd, t.evaluation_drafts@, t.draft_encodings@, paper_id, evaluation_links(views))
            &&& assignments_sealed(
                ra,
                t.assignments@,
                paper_id,
                evaluation_links(views),
                t.evaluation_drafts@.map_values(|d: SealedEvaluationDraft| draft_link_of(d)),
            )
            &&& reproductions_sealed(
                rp,
                t.reproductions@,
                t.reproduction_reports@,
                paper_id,
                t.reproduction_schema@,
                views,
                t.assignments@,
            )
        },
        _ => false,
    }
}

/// A review state that sealed for its Paper.
#[derive(Debug)]
pub struct AuthenticatedPaperReviewState {
    paper_id: u128,
    body: JsonValue,
}

impl AuthenticatedPaperReviewState {
    pub closed spec fn spec_paper_id(&self) -> u128 {
        self.paper_id
    }

    pub closed spec fn spec_body(&self) -> JsonValue {
        self.body
    }

    pub fn paper_id(&self) -> (r: u128)
        ensures
            r == self.spec_paper_id(),
    {
        self.paper_id
    }

    pub fn value(&self) -> (r: &JsonValue)
        ensures
            *r == self.spec_body(),
    {
        &self.body
    }
}

proof fn lemma_evaluation_view(record: JsonValue, e: SealedEvaluation)
    requires
        evaluation_record_is(record, e),
    ensures
        e@ == evaluation_view_of(record),
{
}

fn route_check(route: &Route, paper_id: u128) -> (r: bool)
    ensures
        r == review_route_ok(*route, paper_id),
{
    let mut path: Vec<char> = Vec::new();
    push_str(&mut path, "/v2/hepta/papers/");
    push_chars(&mut path, &uuid_chars(paper_id));
    push_str(&mut path, "/review-state");
    str_eq(route.method, "GET") && chars_eq_str(&path, route.path.as_str()) && route.query.is_none()
        && str_eq(route.operation, "get_paper_review_state_v1")
}

fn finality_check(body: &JsonValue, f: &ConsumerFinality) -> (r: bool)
    ensures
        r == finality_ok(*body, *f),
{
    let raw = match body.get("finality") {
        Some(raw) => raw,
        None => return false,
    };
    let time_ok = match (f.status, f.verified_at) {
        (FinalityStatus::PendingFinality, None) => match raw.get("verified_at") {
            Some(JsonValue::Null) => true,
            _ => false,
        },
        (FinalityStatus::VerifiedFinality, Some(t)) => match raw.get("verified_at") {
            Some(JsonValue::String(_)) => crate::review::sealed_timestamp_check(raw, "verified_at", t),
            _ => false,
        },
        _ => false,
    };
    let bindings_valid = match f.status {
        FinalityStatus::PendingFinality => f.effective_evaluation_id.is_none()
            && f.effective_reproduction_id.is_none() && f.effective_appeal_resolution_id.is_none(),
        FinalityStatus::VerifiedFinality => f.effective_evaluation_id.is_some()
            && f.effective_reproduction_id.is_some(),
    };
    str_eq(f.schema.as_str(), CONSUMER_FINALITY_V2) && !f.ranking_eligible && !f.reward_eligible
        && !f.score_eligible && !f.economic_eligible && sealed_optional_uuid_check(
        raw,
        "effective_evaluation_id",
        f.effective_evaluation_id,
    ) && sealed_optional_uuid_check(raw, "effective_reproduction_id", f.effective_reproduction_id)
        && sealed_optional_uuid_check(
        raw,
        "effective_appeal_resolution_id",
        f.effective_appeal_resolution_id,
    ) && bindings_valid && time_ok
}

fn records_of_paper_check(body: &JsonValue, name: &str, paper_id: u128) -> (r: bool)
    ensures
        r == records_of_paper(*body, name@, paper_id),
{
    let items = match body.get(name) {
        Some(JsonValue::Array(items)) => items,
        _ => return false,
    };
    let expected = uuid_chars(paper_id);
    let mut k: usize = 0;
    while k < items.len()
        invariant
            field_array(*body, name@) == Some(items@),
            expected@ == uuid_text(paper_id),
            k <= items@.len(),
            forall|j: int|
                0 <= j < k ==> field_text(#[trigger] items@[j], "paper_project_id"@) == Some(uuid_text(paper_id)),
        decreases items.len() - k,
    {
        let same = match items[k].get("paper_project_id") {
            Some(JsonValue::String(t)) => chars_eq_str(&expected, t.as_str()),
            _ => false,
        };
        if !same {
            return false;
        }
        k = k + 1;
    }
    true
}

/// The links of the finalized evaluations, in order.
fn links_of(evaluations: &Vec<SealedEvaluation>) -> (r: Vec<EvaluationLink>)
    ensures
        r@ == evaluation_links(views_of(evaluations@)),
{
    let mut out: Vec<EvaluationLink> = Vec::new();
    let mut k: usize = 0;
    while k < evaluations.len()
        invariant
            k <= evaluations@.len(),
            out@ == evaluation_links(views_of(evaluations@.take(k as int))),
        decreases evaluations.len() - k,
    {
        out.push(evaluations[k].link);
        proof {
            assert(evaluations@.take(k + 1) =~= evaluations@.take(k as int).push(evaluations@[k as int]));
            assert(views_of(evaluations@.take(k + 1)) =~= views_of(evaluations@.take(k as int)).push(
                evaluations@[k as int]@,
            ));
            assert(out@ =~= evaluation_links(views_of(evaluations@.take(k + 1))));
        }
        k = k + 1;
    }
    assert(evaluations@.take(evaluations@.len() as int) =~= evaluations@);
    out
}

/// Seals the review state a request read for a Paper, given how its
/// records read: a request other than the Paper's review-state read is an
/// internal error; a state that does not seal is an upstream failure.
pub fn seal_review_state(route: &Route, paper_id: u128, body: JsonValue, records: &ReviewStateRecords) -> (r: Result<
    AuthenticatedPaperReviewState,
    AppError,
>)
    requires
        records.draft_encodings@.len() == records.evaluation_drafts@.len(),
        records.reproduction_reports@.len() == records.reproductions@.len(),
    ensures
        !review_route_ok(*route, paper_id) ==> r matches Err(AppError::Internal),
        review_route_ok(*route, paper_id) ==> {
            &&& r is Ok <==> review_state_sealed(body, paper_id, *records)
            &&& r is Err ==> r matches Err(AppError::Upstream)
        },
        r matches Ok(s) ==> s.spec_paper_id() == paper_id && s.spec_body() == body,
{
    if !route_check(route, paper_id) {
        return Err(AppError::Internal);
    }
    if !finality_check(&body, &records.finality) {
        return Err(AppError::Upstream);
    }
    if !(records_of_paper_check(&body, "contribution_ledgers", paper_id) && records_of_paper_check(
        &body,
        "evaluations",
        paper_id,
    ) && records_of_paper_check(&body, "appeals", paper_id) && records_of_paper_check(
        &body,
        "resolutions",
        paper_id,
    ) && records_of_paper_check(&body, "raid_scores", paper_id)) {
        return Err(AppError::Upstream);
    }
    let raw_assignments = match body.get("assignments") {
        Some(JsonValue::Array(items)) => items,
        _ => return Err(AppError::Upstream),
    };
    let raw_drafts = match body.get("evaluation_drafts") {
        Some(JsonValue::Array(items)) => items,
        _ => return Err(AppError::Upstream),
    };
    let raw_reproductions = match body.get("reproductions") {
        Some(JsonValue::Array(items)) => items,
        _ => return Err(AppError::Upstream),
    };
    let raw_evaluations = match body.get("evaluations") {
        Some(JsonValue::Array(items)) => items,
        _ => return Err(AppError::Upstream),
    };
    let evaluations = match sealed_evaluation_crosslinks(raw_evaluations, paper_id) {
        Some(e) => e,
        None => return Err(AppError::Upstream),
    };
    proof {
        assert forall|i: int| 0 <= i < evaluations@.len() implies #[trigger] views_of(evaluations@)[i]
            == evaluation_views(raw_evaluations@)[i] by {
            lemma_evaluation_view(raw_evaluations@[i], evaluations@[i]);
        }
        assert(views_of(evaluations@) =~= evaluation_views(raw_evaluations@));
        assert forall|i: int, j: int| 0 <= i < j < evaluations@.len() implies (#[trigger] views_of(
            evaluations@,
        )[i]).link.evaluation_id != (#[trigger] views_of(evaluations@)[j]).link.evaluation_id by {
            assert(evaluation_record_is(raw_evaluations@[i], evaluations@[i]));
            assert(evaluation_record_is(raw_evaluations@[j], evaluations@[j]));
        }
    }
    let links = links_of(&evaluations);
    assert(distinct_evaluation_ids(links@)) by {
        assert forall|i: int, j: int| 0 <= i < j < links@.len() implies (#[trigger] links@[i]).evaluation_id
            != (#[trigger] links@[j]).evaluation_id by {
            assert(links@[i] == views_of(evaluations@)[i].link);
            assert(links@[j] == views_of(evaluations@)[j].link);
        }
    }
    let draft_links = match sealed_evaluation_draft_crosslinks(
        raw_drafts,
        &records.evaluation_drafts,
        &records.draft_encodings,
        paper_id,
        &links,
    ) {
        Some(d) => d,
        None => return Err(AppError::Upstream),
    };
    assert(draft_links@ =~= records.evaluation_drafts@.map_values(|d: SealedEvaluationDraft| draft_link_of(d)));
    if !sealed_review_assignments(raw_assignments, &records.assignments, paper_id, &links, &draft_links) {
        return Err(AppError::Upstream);
    }
    match sealed_reproductions(
        raw_reproductions,
        &records.reproductions,
        &records.reproduction_reports,
        paper_id,
        records.reproduction_schema.as_str(),
        &evaluations,
        &records.assignments,
    ) {
        Some(_) => {},
        None => return Err(AppError::Upstream),
    }
    Ok(AuthenticatedPaperReviewState { paper_id, body })
}

} // verus!
