use base64::Engine;
use paper_raid_bff::drafts::{
    evaluation_draft_immutable_fields, sealed_evaluation_draft_crosslinks, DraftEncodings,
    SealedEvaluationDraft,
};
use paper_raid_bff::error::AppError;
use paper_raid_bff::hepta::Route;
use paper_raid_bff::json::{JsonNumber, JsonValue};
use paper_raid_bff::reproductions::{
    sealed_reproductions, ReproductionStatus, RuleResult, SealedReproduction,
    StatisticalEvidence,
};
use paper_raid_bff::review::{
    sealed_evaluation_crosslinks, AssignmentStatus, DraftStatus, EvaluationLink, Moment,
    ReviewSlot, SealedReviewAssignment,
};
use paper_raid_bff::review_state::{
    seal_review_state, ConsumerFinality, FinalityStatus, ReviewStateRecords,
};
use sha2::Digest;

fn text(value: &str) -> JsonValue {
    JsonValue::String(value.to_string())
}

fn number(value: u64) -> JsonValue {
    JsonValue::Number(JsonNumber::Unsigned(value))
}

fn object(members: Vec<(&str, JsonValue)>) -> JsonValue {
    JsonValue::Object(
        members
            .into_iter()
            .map(|(key, value)| (key.to_string(), value))
            .collect(),
    )
}

fn set(value: &mut JsonValue, key: &str, replacement: JsonValue) {
    if let JsonValue::Object(members) = value {
        for member in members.iter_mut() {
            if member.0 == key {
                member.1 = replacement;
                return;
            }
        }
        members.push((key.to_string(), replacement));
    }
}

fn id_text(id: u128) -> String {
    uuid::Uuid::from_u128(id).to_string()
}

fn moment(value: &str) -> Moment {
    let parsed = chrono::DateTime::parse_from_rfc3339(value)
        .expect("fixture time")
        .with_timezone(&chrono::Utc);
    Moment {
        secs: parsed.timestamp(),
        nanos: parsed.timestamp_subsec_nanos(),
    }
}

fn sha256_label(bytes: &[u8]) -> String {
    format!("sha256:{}", hex::encode(sha2::Sha256::digest(bytes)))
}

fn digest(character: char) -> String {
    format!("sha256:{}", character.to_string().repeat(64))
}

fn base64(bytes: &[u8]) -> String {
    base64::engine::general_purpose::STANDARD.encode(bytes)
}

const POLICY: &[u8] = br#"{"rules":[{"kind":"absolute","max_delta_micros":1000,"metric":"accuracy"}],"schema":"hepta.paper_raid.tolerance_policy.v1","version":"1"}"#;
const IMMUTABLE: &[u8] = b"canonical immutable draft fields";

struct Draft {
    raw: JsonValue,
    decoded: SealedEvaluationDraft,
    encodings: DraftEncodings,
}

fn open_draft(paper: u128, submission: u128, evaluation: u128, evaluator: u128) -> Draft {
    let public_key = [41_u8; 32];
    let public_key_text = base64(&public_key);
    let public_key_hash = sha256_label(&public_key);
    let signature = base64(&[42_u8; 64]);
    let policy_hash = sha256_label(POLICY);
    let draft_hash = sha256_label(IMMUTABLE);
    let score = object(vec![
        ("schema", text("hepta.paper_raid.paper_score.v1")),
        ("evaluation_id", text(&id_text(evaluation))),
        ("paper_project_id", text(&id_text(paper))),
        ("components", object(vec![])),
        ("hard_gates", object(vec![])),
        ("score_bps", number(0)),
        ("eligible", JsonValue::Bool(false)),
        ("score_hash", text(&digest('a'))),
        ("created_at", text("2026-08-11T00:01:00Z")),
    ]);
    let policy = object(vec![
        ("schema", text("hepta.paper_raid.tolerance_policy.v1")),
        ("version", text("1")),
        (
            "rules",
            JsonValue::Array(vec![object(vec![
                ("kind", text("absolute")),
                ("metric", text("accuracy")),
                ("max_delta_micros", number(1000)),
            ])]),
        ),
    ]);
    let raw = object(vec![
        ("schema", text("hepta.paper_raid.evaluation_draft.v2")),
        ("evaluation_id", text(&id_text(evaluation))),
        ("paper_project_id", text(&id_text(paper))),
        ("submission_id", text(&id_text(submission))),
        ("review_round", number(1)),
        ("supersedes_evaluation_id", JsonValue::Null),
        ("release_candidate_hash", text(&digest('a'))),
        ("paper_bundle_hash", text(&digest('a'))),
        ("tolerance_policy", policy),
        ("tolerance_policy_hash", text(&policy_hash)),
        ("reference_metrics_micros", object(vec![("accuracy", number(900_000))])),
        ("paper_score", object(vec![])),
        ("evaluator_player_id", text(&id_text(evaluator))),
        ("evaluator_signing_key_id", text("draft-evaluator-key")),
        ("evaluator_signing_public_key", text(&public_key_text)),
        ("evaluator_signing_public_key_hash", text(&public_key_hash)),
        ("evaluator_coi_attestation_hash", text(&digest('a'))),
        ("evaluator_signed_at_unix", number(1_786_406_460)),
        ("evaluator_signature", text(&signature)),
        ("evaluation_signing_hash", text(&digest('a'))),
        ("draft_hash", text(&draft_hash)),
        ("status", text("open")),
        ("version", number(1)),
        ("finalized_evaluation_id", JsonValue::Null),
        ("created_at", text("2026-08-11T00:01:00Z")),
        ("expires_at", text("2026-08-12T00:01:00Z")),
        ("updated_at", text("2026-08-11T00:01:00Z")),
        ("finalized_at", JsonValue::Null),
        ("expired_at", JsonValue::Null),
    ]);
    let mut raw = raw;
    set(&mut raw, "paper_score", score);
    let score_copy = object(vec![
        ("schema", text("hepta.paper_raid.paper_score.v1")),
        ("evaluation_id", text(&id_text(evaluation))),
        ("paper_project_id", text(&id_text(paper))),
        ("components", object(vec![])),
        ("hard_gates", object(vec![])),
        ("score_bps", number(0)),
        ("eligible", JsonValue::Bool(false)),
        ("score_hash", text(&digest('a'))),
        ("created_at", text("2026-08-11T00:01:00Z")),
    ]);
    let decoded = SealedEvaluationDraft {
        schema: "hepta.paper_raid.evaluation_draft.v2".into(),
        evaluation_id: evaluation,
        paper_project_id: paper,
        submission_id: submission,
        review_round: 1,
        supersedes_evaluation_id: None,
        release_candidate_hash: digest('a'),
        paper_bundle_hash: digest('a'),
        tolerance_policy_hash: policy_hash,
        reference_metric_keys: vec!["accuracy".into()],
        paper_score: score_copy,
        evaluator_player_id: evaluator,
        evaluator_signing_key_id: "draft-evaluator-key".into(),
        evaluator_signing_public_key: public_key_text,
        evaluator_signing_public_key_hash: public_key_hash,
        evaluator_coi_attestation_hash: digest('a'),
        evaluator_signed_at_unix: 1_786_406_460,
        evaluator_signature: signature,
        evaluation_signing_hash: digest('a'),
        draft_hash,
        status: DraftStatus::Open,
        version: 1,
        finalized_evaluation_id: None,
        created_at: moment("2026-08-11T00:01:00Z"),
        expires_at: moment("2026-08-12T00:01:00Z"),
        updated_at: moment("2026-08-11T00:01:00Z"),
        finalized_at: None,
        expired_at: None,
    };
    Draft {
        raw,
        decoded,
        encodings: DraftEncodings {
            tolerance_policy: Some(POLICY.to_vec()),
            immutable_fields: Some(IMMUTABLE.to_vec()),
        },
    }
}

fn expire(draft: &mut Draft) {
    set(&mut draft.raw, "status", text("expired"));
    set(&mut draft.raw, "version", number(2));
    set(&mut draft.raw, "updated_at", text("2026-08-12T00:01:00Z"));
    set(&mut draft.raw, "expired_at", text("2026-08-12T00:01:00Z"));
    draft.decoded.status = DraftStatus::Expired;
    draft.decoded.version = 2;
    draft.decoded.updated_at = draft.decoded.expires_at;
    draft.decoded.expired_at = Some(draft.decoded.expires_at);
}

struct Assignment {
    assignment_id: u128,
    paper_id: u128,
    submission_id: u128,
    player_id: u128,
    slot: ReviewSlot,
    pinned: Option<u128>,
    status: AssignmentStatus,
    version: u64,
    claimed_at: &'static str,
    updated_at: &'static str,
}

fn slot_text(slot: ReviewSlot) -> &'static str {
    match slot {
        ReviewSlot::Evaluator => "evaluator",
        ReviewSlot::Reviewer1 => "reviewer_1",
        ReviewSlot::Reviewer2 => "reviewer_2",
        ReviewSlot::Reproducer => "reproducer",
    }
}

fn status_text(status: AssignmentStatus) -> &'static str {
    match status {
        AssignmentStatus::Claimed => "claimed",
        AssignmentStatus::Pinned => "pinned",
        AssignmentStatus::Consumed => "consumed",
        AssignmentStatus::Expired => "expired",
    }
}

fn assignment(f: &Assignment) -> (JsonValue, SealedReviewAssignment) {
    let raw = object(vec![
        ("schema", text("hepta.paper_raid.review_assignment.v1")),
        ("assignment_id", text(&id_text(f.assignment_id))),
        ("paper_project_id", text(&id_text(f.paper_id))),
        ("submission_id", text(&id_text(f.submission_id))),
        ("player_id", text(&id_text(f.player_id))),
        ("review_round", number(1)),
        ("slot", text(slot_text(f.slot))),
        (
            "pinned_evaluation_id",
            match f.pinned {
                Some(p) => text(&id_text(p)),
                None => JsonValue::Null,
            },
        ),
        ("status", text(status_text(f.status))),
        ("version", number(f.version)),
        ("claimed_at", text(f.claimed_at)),
        ("expires_at", text("2026-08-11T02:00:00Z")),
        ("updated_at", text(f.updated_at)),
    ]);
    let decoded = SealedReviewAssignment {
        schema: "hepta.paper_raid.review_assignment.v1".into(),
        assignment_id: f.assignment_id,
        paper_project_id: f.paper_id,
        submission_id: f.submission_id,
        player_id: f.player_id,
        review_round: 1,
        slot: f.slot,
        pinned_evaluation_id: f.pinned,
        status: f.status,
        version: f.version,
        claimed_at: moment(f.claimed_at),
        expires_at: moment("2026-08-11T02:00:00Z"),
        updated_at: moment(f.updated_at),
    };
    (raw, decoded)
}

fn pending_finality() -> ConsumerFinality {
    ConsumerFinality {
        schema: "hepta.paper_raid.consumer_finality.v2".into(),
        status: FinalityStatus::PendingFinality,
        effective_evaluation_id: None,
        effective_reproduction_id: None,
        effective_appeal_resolution_id: None,
        ranking_eligible: false,
        reward_eligible: false,
        score_eligible: false,
        economic_eligible: false,
        verified_at: None,
    }
}

fn envelope(assignments: Vec<JsonValue>, drafts: Vec<JsonValue>) -> JsonValue {
    object(vec![
        (
            "finality",
            object(vec![
                ("schema", text("hepta.paper_raid.consumer_finality.v2")),
                ("status", text("pending_finality")),
                ("effective_evaluation_id", JsonValue::Null),
                ("effective_reproduction_id", JsonValue::Null),
                ("effective_appeal_resolution_id", JsonValue::Null),
                ("ranking_eligible", JsonValue::Bool(false)),
                ("reward_eligible", JsonValue::Bool(false)),
                ("score_eligible", JsonValue::Bool(false)),
                ("economic_eligible", JsonValue::Bool(false)),
                ("verified_at", JsonValue::Null),
            ]),
        ),
        ("assignments", JsonValue::Array(assignments)),
        ("evaluation_drafts", JsonValue::Array(drafts)),
        ("contribution_ledgers", JsonValue::Array(vec![])),
        ("evaluations", JsonValue::Array(vec![])),
        ("reproductions", JsonValue::Array(vec![])),
        ("appeals", JsonValue::Array(vec![])),
        ("resolutions", JsonValue::Array(vec![])),
        ("raid_scores", JsonValue::Array(vec![])),
    ])
}

fn review_route(paper: u128) -> Route {
    Route {
        method: "GET",
        path: format!("/v2/hepta/papers/{}/review-state", id_text(paper)),
        query: None,
        operation: "get_paper_review_state_v1",
    }
}

fn records(
    assignments: Vec<SealedReviewAssignment>,
    drafts: Vec<SealedEvaluationDraft>,
    encodings: Vec<DraftEncodings>,
) -> ReviewStateRecords {
    ReviewStateRecords {
        finality: pending_finality(),
        assignments,
        evaluation_drafts: drafts,
        draft_encodings: encodings,
        reproductions: vec![],
        reproduction_reports: vec![],
        reproduction_schema: "hepta.paper_raid.reproduction.v1".into(),
    }
}

fn seal(
    paper: u128,
    fixtures: &[Assignment],
    drafts: Vec<Draft>,
) -> Result<(), AppError> {
    let (raw_assignments, assignments): (Vec<JsonValue>, Vec<SealedReviewAssignment>) =
        fixtures.iter().map(assignment).unzip();
    let mut raw_drafts = Vec::new();
    let mut decoded = Vec::new();
    let mut encodings = Vec::new();
    for draft in drafts {
        raw_drafts.push(draft.raw);
        decoded.push(draft.decoded);
        encodings.push(draft.encodings);
    }
    let body = envelope(raw_assignments, raw_drafts);
    seal_review_state(
        &review_route(paper),
        paper,
        body,
        &records(assignments, decoded, encodings),
    )
    .map(|state| assert_eq!(state.paper_id(), paper))
}

fn panel(paper: u128, submission: u128, evaluation: u128, evaluator: u128, reviewer: u128) -> Vec<Assignment> {
    vec![
        Assignment {
            assignment_id: 10,
            paper_id: paper,
            submission_id: submission,
            player_id: evaluator,
            slot: ReviewSlot::Evaluator,
            pinned: Some(evaluation),
            status: AssignmentStatus::Pinned,
            version: 2,
            claimed_at: "2026-08-11T00:00:00Z",
            updated_at: "2026-08-11T00:01:00Z",
        },
        // A second panel member may claim an open slot after the evaluator
        // has frozen the draft; the later attestation pins that lease.
        Assignment {
            assignment_id: 11,
            paper_id: paper,
            submission_id: submission,
            player_id: reviewer,
            slot: ReviewSlot::Reviewer1,
            pinned: Some(evaluation),
            status: AssignmentStatus::Pinned,
            version: 2,
            claimed_at: "2026-08-11T00:01:10Z",
            updated_at: "2026-08-11T00:01:30Z",
        },
    ]
}

#[test]
fn sealed_review_state_accepts_open_and_expired_draft_pinned_panels() {
    let (paper, submission, evaluation, evaluator, reviewer) = (1, 2, 3, 4, 5);
    let fixtures = panel(paper, submission, evaluation, evaluator, reviewer);
    seal(paper, &fixtures, vec![open_draft(paper, submission, evaluation, evaluator)])
        .expect("open draft pins its evaluator and attesting panel member");

    assert_eq!(seal(paper, &fixtures, vec![]), Err(AppError::Upstream));

    let mut expired = open_draft(paper, submission, evaluation, evaluator);
    expire(&mut expired);
    let expired_fixtures: Vec<Assignment> = fixtures
        .into_iter()
        .map(|mut f| {
            f.status = AssignmentStatus::Expired;
            f.version = 3;
            f.updated_at = "2026-08-12T00:01:00Z";
            f
        })
        .collect();
    seal(paper, &expired_fixtures, vec![expired])
        .expect("expired draft preserves its exact released pinned-panel lineage");
}

#[test]
fn sealed_review_state_rejects_semantic_duplicate_live_assignments() {
    let (paper, submission, evaluation, evaluator, reviewer) = (21, 22, 23, 24, 25);
    let mut members = panel(paper, submission, evaluation, evaluator, reviewer);
    members[0].assignment_id = 30;
    members[1].assignment_id = 32;
    members[1].claimed_at = "2026-08-11T00:00:00Z";
    let duplicate_slot = Assignment {
        assignment_id: 31,
        paper_id: paper,
        submission_id: submission,
        player_id: 26,
        slot: ReviewSlot::Evaluator,
        pinned: None,
        status: AssignmentStatus::Claimed,
        version: 1,
        claimed_at: "2026-08-11T00:00:00Z",
        updated_at: "2026-08-11T00:00:00Z",
    };
    let with_slot = vec![
        clone_fixture(&members[0]),
        duplicate_slot,
        clone_fixture(&members[1]),
    ];
    assert_eq!(
        seal(paper, &with_slot, vec![open_draft(paper, submission, evaluation, evaluator)]),
        Err(AppError::Upstream)
    );

    let duplicate_player = Assignment {
        assignment_id: 33,
        paper_id: paper,
        submission_id: submission,
        player_id: evaluator,
        slot: ReviewSlot::Reviewer2,
        pinned: None,
        status: AssignmentStatus::Claimed,
        version: 1,
        claimed_at: "2026-08-11T00:00:00Z",
        updated_at: "2026-08-11T00:00:00Z",
    };
    let with_player = vec![
        clone_fixture(&members[0]),
        clone_fixture(&members[1]),
        duplicate_player,
    ];
    assert_eq!(
        seal(paper, &with_player, vec![open_draft(paper, submission, evaluation, evaluator)]),
        Err(AppError::Upstream)
    );
}

fn clone_fixture(f: &Assignment) -> Assignment {
    Assignment {
        assignment_id: f.assignment_id,
        paper_id: f.paper_id,
        submission_id: f.submission_id,
        player_id: f.player_id,
        slot: f.slot,
        pinned: f.pinned,
        status: f.status,
        version: f.version,
        claimed_at: f.claimed_at,
        updated_at: f.updated_at,
    }
}

#[test]
fn review_state_refuses_other_reads_and_conferred_eligibility() {
    let (paper, submission, evaluation, evaluator, reviewer) = (41, 42, 43, 44, 45);
    let fixtures = panel(paper, submission, evaluation, evaluator, reviewer);
    let (raw_assignments, assignments): (Vec<JsonValue>, Vec<SealedReviewAssignment>) =
        fixtures.iter().map(assignment).unzip();
    let draft = open_draft(paper, submission, evaluation, evaluator);
    let body = envelope(raw_assignments, vec![draft.raw]);
    let mut route = review_route(paper);
    route.operation = "get_paper_room_v3";
    let typed = records(assignments, vec![draft.decoded], vec![draft.encodings]);
    assert!(matches!(
        seal_review_state(&route, paper, body, &typed),
        Err(AppError::Internal)
    ));

    let (raw_assignments, assignments): (Vec<JsonValue>, Vec<SealedReviewAssignment>) =
        fixtures.iter().map(assignment).unzip();
    let draft = open_draft(paper, submission, evaluation, evaluator);
    let body = envelope(raw_assignments, vec![draft.raw]);
    let mut typed = records(assignments, vec![draft.decoded], vec![draft.encodings]);
    typed.finality.reward_eligible = true;
    assert!(matches!(
        seal_review_state(&review_route(paper), paper, body, &typed),
        Err(AppError::Upstream)
    ));

    let (raw_assignments, assignments): (Vec<JsonValue>, Vec<SealedReviewAssignment>) =
        fixtures.iter().map(assignment).unzip();
    let draft = open_draft(paper, submission, evaluation, evaluator);
    let mut body = envelope(raw_assignments, vec![draft.raw]);
    set(
        &mut body,
        "appeals",
        JsonValue::Array(vec![object(vec![("paper_project_id", text(&id_text(99)))])]),
    );
    let typed = records(assignments, vec![draft.decoded], vec![draft.encodings]);
    assert!(matches!(
        seal_review_state(&review_route(paper), paper, body, &typed),
        Err(AppError::Upstream)
    ));
}

#[test]
fn draft_digests_are_recomputed() {
    let (paper, submission, evaluation, evaluator) = (51, 52, 53, 54);
    let check = |draft: Draft| {
        let encodings = vec![draft.encodings];
        sealed_evaluation_draft_crosslinks(
            &vec![draft.raw],
            &vec![draft.decoded],
            &encodings,
            paper,
            &vec![],
        )
    };
    let links = check(open_draft(paper, submission, evaluation, evaluator)).expect("sealed draft");
    assert_eq!(links.len(), 1);
    assert_eq!(links[0].evaluation_id, evaluation);
    assert_eq!(links[0].evaluator_player_id, evaluator);
    assert_eq!(links[0].status, DraftStatus::Open);

    let mut other_policy = open_draft(paper, submission, evaluation, evaluator);
    other_policy.encodings.tolerance_policy = Some(b"{}".to_vec());
    assert!(check(other_policy).is_none());

    let mut unencoded = open_draft(paper, submission, evaluation, evaluator);
    unencoded.encodings.immutable_fields = None;
    assert!(check(unencoded).is_none());

    let mut bad_key = open_draft(paper, submission, evaluation, evaluator);
    bad_key.decoded.evaluator_signing_public_key_hash = digest('b');
    assert!(check(bad_key).is_none());

    let mut short_signature = open_draft(paper, submission, evaluation, evaluator);
    short_signature.decoded.evaluator_signature = base64(&[42_u8; 63]);
    assert!(check(short_signature).is_none());

    let mut finalized = open_draft(paper, submission, evaluation, evaluator);
    finalized.decoded.status = DraftStatus::Finalized;
    assert!(check(finalized).is_none());

    let mut missing_field = open_draft(paper, submission, evaluation, evaluator);
    if let JsonValue::Object(members) = &mut missing_field.raw {
        members.retain(|member| member.0 != "expires_at");
        members.push(("unlisted".to_string(), JsonValue::Null));
    }
    assert!(check(missing_field).is_none());

    let finalized_link = EvaluationLink {
        evaluation_id: evaluation,
        submission_id: submission,
        version: 1,
        evaluator_player_id: evaluator,
        reviewer_player_ids: (55, 56),
        created_at: moment("2026-08-11T00:02:00Z"),
    };
    let draft = open_draft(paper, submission, evaluation, evaluator);
    assert!(sealed_evaluation_draft_crosslinks(
        &vec![draft.raw],
        &vec![draft.decoded],
        &vec![draft.encodings],
        paper,
        &vec![finalized_link],
    )
    .is_none());
}

#[test]
fn drafts_ascend_and_hold_one_open_round() {
    let paper = 61;
    let first = open_draft(paper, 62, 70, 63);
    let second = open_draft(paper, 62, 71, 64);
    let check = |drafts: Vec<Draft>| {
        let mut raw = Vec::new();
        let mut decoded = Vec::new();
        let mut encodings = Vec::new();
        for d in drafts {
            raw.push(d.raw);
            decoded.push(d.decoded);
            encodings.push(d.encodings);
        }
        sealed_evaluation_draft_crosslinks(&raw, &decoded, &encodings, paper, &vec![])
    };
    assert!(check(vec![first, second]).is_none());
    let mut later_round = open_draft(paper, 62, 71, 64);
    later_round.decoded.review_round = 2;
    set(&mut later_round.raw, "review_round", number(2));
    assert_eq!(
        check(vec![open_draft(paper, 62, 70, 63), later_round])
            .expect("two rounds")
            .len(),
        2
    );
    let mut expired = open_draft(paper, 62, 71, 64);
    expire(&mut expired);
    assert!(check(vec![open_draft(paper, 62, 70, 63), expired]).is_some());
    let mut expired = open_draft(paper, 62, 71, 64);
    expire(&mut expired);
    assert!(check(vec![expired, open_draft(paper, 62, 70, 63)]).is_none());
}

#[test]
fn draft_immutable_fields_follow_the_schema() {
    let v1 = evaluation_draft_immutable_fields("hepta.paper_raid.evaluation_draft.v1").expect("v1");
    let v2 = evaluation_draft_immutable_fields("hepta.paper_raid.evaluation_draft.v2").expect("v2");
    assert_eq!(v1.len(), 20);
    assert_eq!(v2.len(), 21);
    assert_eq!(v2[20], "expires_at");
    assert_eq!(v1[..], v2[..20]);
    assert!(evaluation_draft_immutable_fields("hepta.paper_raid.evaluation.v1").is_none());
}

fn evaluation_record(paper: u128, evaluation: u128, evaluator: u128, reviewers: (u128, u128)) -> JsonValue {
    object(vec![
        ("schema", text("hepta.paper_raid.evaluation.v1")),
        ("evaluation_id", text(&id_text(evaluation))),
        ("paper_project_id", text(&id_text(paper))),
        ("submission_id", text(&id_text(82))),
        ("evaluator_player_id", text(&id_text(evaluator))),
        ("version", number(1)),
        ("release_candidate_hash", text(&digest('a'))),
        ("paper_bundle_hash", text(&digest('b'))),
        ("tolerance_policy_hash", text(&digest('c'))),
        ("created_at", text("2026-08-11T01:00:00Z")),
        (
            "reviewer_attestations",
            JsonValue::Array(vec![
                object(vec![("reviewer_player_id", text(&id_text(reviewers.0)))]),
                object(vec![("reviewer_player_id", text(&id_text(reviewers.1)))]),
            ]),
        ),
        ("reference_metrics_micros", object(vec![("accuracy", number(900_000))])),
        (
            "tolerance_policy",
            object(vec![(
                "rules",
                JsonValue::Array(vec![
                    object(vec![("kind", text("absolute")), ("metric", text("accuracy"))]),
                    object(vec![("kind", text("relative")), ("metric", text("loss"))]),
                ]),
            )]),
        ),
    ])
}

const REPRODUCTION_SCHEMA: &str = "hepta.paper_raid.reproduction.v1";

struct Reproduction {
    raw: JsonValue,
    decoded: SealedReproduction,
    report: Option<Vec<u8>>,
}

fn reproduction(
    paper: u128,
    reproduction_id: u128,
    evaluation: u128,
    reproducer: u128,
    supersedes: Option<u128>,
    version: u64,
    created: &str,
) -> Reproduction {
    let public_key = [7_u8; 32];
    let public_key_text = base64(&public_key);
    let public_key_hash = sha256_label(&public_key);
    let signature = base64(&[9_u8; 64]);
    let report = format!("report of {reproduction_id}").into_bytes();
    let report_hash = sha256_label(&report);
    let raw = object(vec![
        ("schema", text(REPRODUCTION_SCHEMA)),
        ("reproduction_id", text(&id_text(reproduction_id))),
        ("evaluation_id", text(&id_text(evaluation))),
        ("paper_project_id", text(&id_text(paper))),
        ("release_candidate_hash", text(&digest('a'))),
        ("paper_bundle_hash", text(&digest('b'))),
        ("tolerance_policy_hash", text(&digest('c'))),
        ("observed_metrics_micros", object(vec![("accuracy", number(899_000))])),
        ("statistical_evidence", object(vec![])),
        ("seed_set_hash", text(&digest('d'))),
        ("environment_hash", text(&digest('e'))),
        ("run_manifest_hash", text(&digest('f'))),
        (
            "supersedes_reproduction_id",
            match supersedes {
                Some(p) => text(&id_text(p)),
                None => JsonValue::Null,
            },
        ),
        ("reproducer_player_id", text(&id_text(reproducer))),
        ("signing_key_id", text("reproducer-key")),
        ("signing_public_key", text(&public_key_text)),
        ("signing_public_key_hash", text(&public_key_hash)),
        ("coi_attestation_hash", text(&digest('a'))),
        ("signed_at_unix", number(1_786_410_000)),
        ("signature", text(&signature)),
        ("rule_results", JsonValue::Array(vec![])),
        ("status", text("reproduced")),
        ("report_hash", text(&report_hash)),
        ("version", number(version)),
        ("created_at", text(created)),
    ]);
    let decoded = SealedReproduction {
        schema: REPRODUCTION_SCHEMA.into(),
        reproduction_id,
        evaluation_id: evaluation,
        paper_project_id: paper,
        release_candidate_hash: digest('a'),
        paper_bundle_hash: digest('b'),
        tolerance_policy_hash: digest('c'),
        observed_metric_keys: vec!["accuracy".into()],
        statistical_evidence: vec![StatisticalEvidence {
            metric: "accuracy".into(),
            interval_overlap_bps: 9_000,
            p_value_micros: 500_000,
        }],
        seed_set_hash: digest('d'),
        environment_hash: digest('e'),
        run_manifest_hash: digest('f'),
        supersedes_reproduction_id: supersedes,
        reproducer_player_id: reproducer,
        signing_key_id: "reproducer-key".into(),
        signing_public_key: public_key_text,
        signing_public_key_hash: public_key_hash,
        coi_attestation_hash: digest('a'),
        signed_at_unix: 1_786_410_000,
        signature,
        rule_results: vec![
            RuleResult {
                rule_key: "absolute:accuracy".into(),
                detail_hash: digest('1'),
                passed: true,
            },
            RuleResult {
                rule_key: "relative:loss".into(),
                detail_hash: digest('2'),
                passed: true,
            },
        ],
        status: ReproductionStatus::Reproduced,
        report_hash,
        version,
        created_at: moment(created),
    };
    Reproduction {
        raw,
        decoded,
        report: Some(report),
    }
}

fn reproducer_claim(paper: u128, reproducer: u128) -> SealedReviewAssignment {
    SealedReviewAssignment {
        schema: "hepta.paper_raid.review_assignment.v1".into(),
        assignment_id: 90,
        paper_project_id: paper,
        submission_id: 82,
        player_id: reproducer,
        review_round: 1,
        slot: ReviewSlot::Reproducer,
        pinned_evaluation_id: None,
        status: AssignmentStatus::Claimed,
        version: 1,
        claimed_at: moment("2026-08-11T01:00:00Z"),
        expires_at: moment("2026-08-11T03:00:00Z"),
        updated_at: moment("2026-08-11T01:00:00Z"),
    }
}

fn check_reproductions(paper: u128, reproductions: Vec<Reproduction>, reproducer: u128) -> Option<()> {
    let evaluations =
        sealed_evaluation_crosslinks(&vec![evaluation_record(paper, 81, 83, (84, 85))], paper)
            .expect("evaluation");
    let mut raw = Vec::new();
    let mut decoded = Vec::new();
    let mut reports = Vec::new();
    for r in reproductions {
        raw.push(r.raw);
        decoded.push(r.decoded);
        reports.push(r.report);
    }
    sealed_reproductions(
        &raw,
        &decoded,
        &reports,
        paper,
        REPRODUCTION_SCHEMA,
        &evaluations,
        &vec![reproducer_claim(paper, reproducer)],
    )
}

#[test]
fn reproductions_bind_their_evaluation_and_reproducer() {
    let paper = 80;
    let reproducer = 86;
    let first = || reproduction(paper, 100, 81, reproducer, None, 1, "2026-08-11T01:30:00Z");
    assert_eq!(check_reproductions(paper, vec![first()], reproducer), Some(()));

    let mut reviewer = first();
    reviewer.decoded.reproducer_player_id = 84;
    set(&mut reviewer.raw, "reproducer_player_id", text(&id_text(84)));
    assert_eq!(check_reproductions(paper, vec![reviewer], 84), None);

    assert_eq!(check_reproductions(paper, vec![first()], 87), None);

    let mut early = reproduction(paper, 100, 81, reproducer, None, 1, "2026-08-11T00:59:59Z");
    early.decoded.created_at = moment("2026-08-11T00:59:59Z");
    assert_eq!(check_reproductions(paper, vec![early], reproducer), None);

    let mut failed_but_reproduced = first();
    failed_but_reproduced.decoded.rule_results[1].passed = false;
    assert_eq!(check_reproductions(paper, vec![failed_but_reproduced], reproducer), None);
    let mut failed = first();
    failed.decoded.rule_results[1].passed = false;
    failed.decoded.status = ReproductionStatus::NotReproduced;
    assert_eq!(check_reproductions(paper, vec![failed], reproducer), Some(()));

    let mut reordered = first();
    reordered.decoded.rule_results.swap(0, 1);
    assert_eq!(check_reproductions(paper, vec![reordered], reproducer), None);

    let mut tampered_report = first();
    tampered_report.report = Some(b"another report".to_vec());
    assert_eq!(check_reproductions(paper, vec![tampered_report], reproducer), None);

    let mut other_release = first();
    other_release.decoded.release_candidate_hash = digest('9');
    assert_eq!(check_reproductions(paper, vec![other_release], reproducer), None);

    let mut unknown_evaluation = reproduction(paper, 100, 88, reproducer, None, 1, "2026-08-11T01:30:00Z");
    unknown_evaluation.decoded.evaluation_id = 88;
    assert_eq!(check_reproductions(paper, vec![unknown_evaluation], reproducer), None);
}

#[test]
fn reproduction_chains_are_single_lines_from_one_first_version() {
    let paper = 80;
    let reproducer = 86;
    let first = || reproduction(paper, 100, 81, reproducer, None, 1, "2026-08-11T01:30:00Z");
    let second = || reproduction(paper, 101, 81, reproducer, Some(100), 2, "2026-08-11T01:40:00Z");
    assert_eq!(check_reproductions(paper, vec![first(), second()], reproducer), Some(()));
    assert_eq!(check_reproductions(paper, vec![second(), first()], reproducer), None);
    assert_eq!(check_reproductions(paper, vec![second()], reproducer), None);

    let mut skipped = second();
    skipped.decoded.version = 3;
    set(&mut skipped.raw, "version", number(3));
    assert_eq!(check_reproductions(paper, vec![first(), skipped], reproducer), None);

    let fork = reproduction(paper, 102, 81, reproducer, Some(100), 2, "2026-08-11T01:45:00Z");
    assert_eq!(check_reproductions(paper, vec![first(), second(), fork], reproducer), None);

    let another_root = reproduction(paper, 102, 81, reproducer, None, 1, "2026-08-11T01:45:00Z");
    assert_eq!(
        check_reproductions(paper, vec![first(), second(), another_root], reproducer),
        None
    );

    let mut second_root = first();
    second_root.decoded.version = 2;
    set(&mut second_root.raw, "version", number(2));
    assert_eq!(check_reproductions(paper, vec![second_root], reproducer), None);
}
