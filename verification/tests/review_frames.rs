use paper_raid_bff::error::AppError;
use paper_raid_bff::identity::{AlphaIdentity, AlphaIdentityScope};
use paper_raid_bff::json::{JsonNumber, JsonValue};
use paper_raid_bff::review_frames::{
    appeal_frame_binding, evaluation_draft_frame_binding, frozen_policy_check,
    paper_rework_frame, reproduction_frame_binding, resolution_frame_binding, AppealRequest,
    ReworkBinding,
};

fn text(value: &str) -> JsonValue {
    JsonValue::String(value.to_string())
}

fn number(value: u64) -> JsonValue {
    JsonValue::Number(JsonNumber::Unsigned(value))
}

fn object(members: Vec<(&str, JsonValue)>) -> JsonValue {
    JsonValue::Object(
        members
            .into_iter()
            .map(|(key, value)| (key.to_string(), value))
            .collect(),
    )
}

fn set(value: &mut JsonValue, key: &str, replacement: JsonValue) {
    if let JsonValue::Object(members) = value {
        for member in members.iter_mut() {
            if member.0 == key {
                member.1 = replacement;
                return;
            }
        }
        members.push((key.to_string(), replacement));
    }
}

fn id(value: u128) -> JsonValue {
    text(&uuid::Uuid::from_u128(value).to_string())
}

fn digest(character: char) -> String {
    format!("sha256:{}", character.to_string().repeat(64))
}

const PAPER: u128 = 1;
const SUBMISSION: u128 = 2;
const EVALUATION: u128 = 3;
const EVALUATOR: u128 = 4;
const FIRST_REVIEW: u128 = 5;
const SECOND_REVIEW: u128 = 6;
const RESOLVER: u128 = 7;
const APPELLANT: u128 = 8;
const APPEAL: u128 = 9;
const NEXT: u128 = 10;
const MANIFEST: u128 = 14;
const AUTHOR: u128 = 20;

fn evaluation(evaluation_id: u128, version: u64, supersedes: Option<u128>, panel: [u128; 3], status: &str) -> JsonValue {
    object(vec![
        ("evaluation_id", id(evaluation_id)),
        ("paper_project_id", id(PAPER)),
        ("submission_id", id(SUBMISSION)),
        ("release_candidate_hash", text(&digest('a'))),
        ("paper_bundle_hash", text(&digest('b'))),
        ("tolerance_policy_hash", text(&digest('c'))),
        ("version", number(version)),
        ("status", text(status)),
        (
            "supersedes_evaluation_id",
            match supersedes {
                Some(s) => id(s),
                None => JsonValue::Null,
            },
        ),
        ("evaluator_player_id", id(panel[0])),
        (
            "reviewer_attestations",
            JsonValue::Array(vec![
                object(vec![("reviewer_player_id", id(panel[1]))]),
                object(vec![("reviewer_player_id", id(panel[2]))]),
            ]),
        ),
    ])
}

fn first_panel() -> [u128; 3] {
    [EVALUATOR, FIRST_REVIEW, SECOND_REVIEW]
}

fn bundle(slot_player: u128) -> JsonValue {
    object(vec![
        ("paper_project_id", id(PAPER)),
        ("status", text("submission_ready")),
        ("submission_id", id(SUBMISSION)),
        ("release_candidate_hash", text(&digest('a'))),
        ("paper_bundle_hash", text(&digest('b'))),
        (
            "paper_bundle",
            object(vec![(
                "release_candidate",
                object(vec![(
                    "authors",
                    JsonValue::Array(vec![object(vec![("player_id", id(AUTHOR))])]),
                )]),
            )]),
        ),
        ("evaluation", evaluation(EVALUATION, 1, None, first_panel(), "accepted")),
        (
            "my_assignments",
            JsonValue::Array(vec![object(vec![
                ("player_id", id(slot_player)),
                ("submission_id", id(SUBMISSION)),
                ("review_round", number(1)),
                ("slot", text("reproducer")),
            ])]),
        ),
    ])
}

fn review(status: &str, with_next: bool) -> JsonValue {
    let mut evaluations = vec![evaluation(EVALUATION, 1, None, first_panel(), "accepted")];
    if with_next {
        evaluations.push(evaluation(NEXT, 2, Some(EVALUATION), [11, 12, 13], "accepted"));
    }
    object(vec![
        ("finality", object(vec![("status", text(status))])),
        ("evaluations", JsonValue::Array(evaluations)),
        (
            "appeals",
            JsonValue::Array(vec![object(vec![
                ("appeal_id", id(APPEAL)),
                ("evaluation_id", id(EVALUATION)),
                ("paper_project_id", id(PAPER)),
                ("release_candidate_hash", text(&digest('a'))),
                ("appellant_player_id", id(APPELLANT)),
            ])]),
        ),
        ("resolutions", JsonValue::Array(vec![])),
    ])
}

fn reproducer(player: u128) -> AlphaIdentity {
    AlphaIdentity {
        player_id: player,
        subject_id: "subject".to_string(),
        nakama_user_id: 77,
        display_name: "Player".to_string(),
        scopes: vec![AlphaIdentityScope::Reproducer],
        author_roles: Vec::new(),
    }
}

#[test]
fn resolutions_bind_the_open_appeal_and_its_superseding_evaluation() {
    let resolver = reproducer(RESOLVER);
    let b = bundle(RESOLVER);
    let upheld = resolution_frame_binding(None, "upheld", &b, &review("pending_finality", true), PAPER, &resolver)
        .expect("upheld resolution");
    assert_eq!(upheld.evaluation_id, EVALUATION);
    assert_eq!(upheld.appeal_id, APPEAL);
    assert_eq!(upheld.superseding_evaluation_id, Some(NEXT));
    assert_eq!(upheld.release_candidate_hash, digest('a'));

    let denied = resolution_frame_binding(None, "denied", &b, &review("pending_finality", false), PAPER, &resolver)
        .expect("denied resolution");
    assert_eq!(denied.superseding_evaluation_id, None);

    assert!(matches!(
        resolution_frame_binding(None, "upheld", &b, &review("pending_finality", false), PAPER, &resolver),
        Err(AppError::Conflict(_))
    ));
    assert!(matches!(
        resolution_frame_binding(Some(EVALUATION), "denied", &b, &review("pending_finality", false), PAPER, &resolver),
        Err(AppError::Invalid(_))
    ));
    assert!(matches!(
        resolution_frame_binding(None, "maybe", &b, &review("pending_finality", false), PAPER, &resolver),
        Err(AppError::Invalid(_))
    ));
    assert!(matches!(
        resolution_frame_binding(None, "denied", &b, &review("verified_finality", false), PAPER, &resolver),
        Err(AppError::Conflict(_))
    ));

    let appellant = reproducer(APPELLANT);
    assert!(matches!(
        resolution_frame_binding(None, "denied", &bundle(APPELLANT), &review("pending_finality", false), PAPER, &appellant),
        Err(AppError::Forbidden)
    ));
    let panel_member = reproducer(FIRST_REVIEW);
    assert!(matches!(
        resolution_frame_binding(None, "denied", &bundle(FIRST_REVIEW), &review("pending_finality", false), PAPER, &panel_member),
        Err(AppError::Forbidden)
    ));
    let unassigned = reproducer(30);
    assert!(matches!(
        resolution_frame_binding(None, "denied", &b, &review("pending_finality", false), PAPER, &unassigned),
        Err(AppError::Forbidden)
    ));
}

#[test]
fn reproductions_bind_the_frozen_evaluation() {
    let player = reproducer(RESOLVER);
    let b = bundle(RESOLVER);
    let binding = reproduction_frame_binding(&b, PAPER, EVALUATION, &player).expect("binding");
    assert_eq!(binding.submission_id, SUBMISSION);
    assert_eq!(binding.release_candidate_hash, digest('a'));
    assert_eq!(binding.paper_bundle_hash, digest('b'));
    assert_eq!(binding.tolerance_policy_hash, digest('c'));
    assert_eq!(
        reproduction_frame_binding(&b, PAPER, NEXT, &player).map(|_| ()),
        Err(AppError::Conflict("reproduction must bind the current finalized evaluation".to_string()))
    );
    assert_eq!(
        reproduction_frame_binding(&b, PAPER, EVALUATION, &reproducer(31)).map(|_| ()),
        Err(AppError::Forbidden)
    );
    let mut frozen_missing = bundle(RESOLVER);
    set(&mut frozen_missing, "evaluation", JsonValue::Null);
    assert_eq!(
        reproduction_frame_binding(&frozen_missing, PAPER, EVALUATION, &player).map(|_| ()),
        Err(AppError::NotFound)
    );
}

fn room() -> JsonValue {
    object(vec![
        ("paper", object(vec![("paper_project_id", id(PAPER))])),
        (
            "artifact_manifests",
            JsonValue::Array(vec![object(vec![
                ("manifest_id", id(MANIFEST)),
                ("paper_project_id", id(PAPER)),
                ("manifest_hash", text(&digest('e'))),
            ])]),
        ),
    ])
}

fn appeal_review(with_appeal: bool) -> JsonValue {
    let mut r = review("pending_finality", false);
    if !with_appeal {
        set(&mut r, "appeals", JsonValue::Array(vec![]));
    }
    r
}

#[test]
fn appeals_bind_one_evaluation_release_and_manifest() {
    let guided = AppealRequest {
        evaluation_id: None,
        evidence_manifest_id: Some(MANIFEST),
        release_candidate_hash: None,
        evidence_manifest_hash: None,
    };
    assert_eq!(
        appeal_frame_binding(&room(), &appeal_review(false), PAPER, &guided),
        Ok((EVALUATION, digest('a'), digest('e')))
    );
    let release = digest('a');
    let manifest = digest('e');
    let advanced = AppealRequest {
        evaluation_id: Some(EVALUATION),
        evidence_manifest_id: None,
        release_candidate_hash: Some(release.as_str()),
        evidence_manifest_hash: Some(manifest.as_str()),
    };
    assert_eq!(
        appeal_frame_binding(&room(), &appeal_review(false), PAPER, &advanced),
        Ok((EVALUATION, digest('a'), digest('e')))
    );
    let other_release = digest('f');
    let mismatched = AppealRequest {
        release_candidate_hash: Some(other_release.as_str()),
        ..advanced
    };
    assert_eq!(
        appeal_frame_binding(&room(), &appeal_review(false), PAPER, &mismatched),
        Err(AppError::Conflict(
            "Appeal payload does not match the evaluated release candidate".to_string()
        ))
    );
    assert_eq!(
        appeal_frame_binding(&room(), &appeal_review(true), PAPER, &guided),
        Err(AppError::Conflict(
            "the current evaluation already has an immutable Appeal".to_string()
        ))
    );
    let mixed = AppealRequest {
        evidence_manifest_id: Some(MANIFEST),
        ..advanced
    };
    assert!(matches!(
        appeal_frame_binding(&room(), &appeal_review(false), PAPER, &mixed),
        Err(AppError::Invalid(_))
    ));
    let mut settled = appeal_review(false);
    set(&mut settled, "finality", object(vec![("status", text("verified_finality"))]));
    assert!(matches!(
        appeal_frame_binding(&room(), &settled, PAPER, &guided),
        Err(AppError::Conflict(_))
    ));
    let unknown_manifest = AppealRequest {
        evidence_manifest_id: Some(99),
        ..guided
    };
    assert_eq!(
        appeal_frame_binding(&room(), &appeal_review(false), PAPER, &unknown_manifest),
        Err(AppError::NotFound)
    );
}

fn rework_room() -> JsonValue {
    object(vec![
        (
            "paper",
            object(vec![
                ("paper_project_id", id(PAPER)),
                ("version", number(3)),
                ("phase", text("submission_ready")),
                ("outcome", text("submission_ready")),
                ("terminal_at", text("2026-08-11T00:00:00Z")),
                ("active_rework_id", JsonValue::Null),
                ("active_rework_cycle", JsonValue::Null),
                ("rework_expires_at", JsonValue::Null),
            ]),
        ),
        (
            "joint_submission",
            object(vec![
                ("submission_id", id(SUBMISSION)),
                ("paper_project_id", id(PAPER)),
                ("status", text("submission_ready")),
            ]),
        ),
    ])
}

fn rejected_review(status: &str) -> JsonValue {
    object(vec![(
        "evaluations",
        JsonValue::Array(vec![evaluation(EVALUATION, 1, None, first_panel(), status)]),
    )])
}

#[test]
fn reworks_bind_the_rejected_submission_and_next_cycle() {
    let reason = digest('9');
    let history = JsonValue::Array(vec![]);
    assert_eq!(
        paper_rework_frame(40, &reason, &rework_room(), &rejected_review("rejected"), &history, PAPER),
        Ok(ReworkBinding {
            expected_paper_version: 3,
            rejected_submission_id: SUBMISSION,
            rejected_evaluation_id: EVALUATION,
            rework_cycle: 2,
        })
    );
    assert!(matches!(
        paper_rework_frame(0, &reason, &rework_room(), &rejected_review("rejected"), &history, PAPER),
        Err(AppError::Invalid(_))
    ));
    assert!(matches!(
        paper_rework_frame(40, "reason", &rework_room(), &rejected_review("rejected"), &history, PAPER),
        Err(AppError::Invalid(_))
    ));
    assert_eq!(
        paper_rework_frame(40, &reason, &rework_room(), &rejected_review("accepted"), &history, PAPER),
        Err(AppError::Conflict(
            "Paper rework requires the current immutable rejected evaluation".to_string()
        ))
    );
    let mut leased = rework_room();
    if let JsonValue::Object(members) = &mut leased {
        set(&mut members[0].1, "active_rework_id", id(41));
    }
    assert!(matches!(
        paper_rework_frame(40, &reason, &leased, &rejected_review("rejected"), &history, PAPER),
        Err(AppError::Conflict(_))
    ));
    let mut no_submission = rework_room();
    if let JsonValue::Object(members) = &mut no_submission {
        members.retain(|member| member.0 != "joint_submission");
    }
    assert_eq!(
        paper_rework_frame(40, &reason, &no_submission, &rejected_review("rejected"), &history, PAPER),
        Err(AppError::NotFound)
    );
    assert_eq!(
        paper_rework_frame(40, &reason, &rework_room(), &rejected_review("rejected"), &text("history"), PAPER),
        Err(AppError::Upstream)
    );
}

fn evaluator_bundle(player: u128) -> JsonValue {
    let mut b = bundle(player);
    set(&mut b, "evaluation", JsonValue::Null);
    set(&mut b, "evaluation_quorum", JsonValue::Null);
    set(
        &mut b,
        "my_assignments",
        JsonValue::Array(vec![object(vec![
            ("player_id", id(player)),
            ("submission_id", id(SUBMISSION)),
            ("review_round", number(1)),
            ("slot", text("evaluator")),
        ])]),
    );
    b
}

#[test]
fn evaluation_drafts_bind_the_evaluator_round() {
    let evaluator = AlphaIdentity {
        player_id: EVALUATOR,
        subject_id: "subject".to_string(),
        nakama_user_id: 77,
        display_name: "Player".to_string(),
        scopes: vec![AlphaIdentityScope::Evaluator],
        author_roles: Vec::new(),
    };
    assert_eq!(
        evaluation_draft_frame_binding(&evaluator_bundle(EVALUATOR), PAPER, &evaluator),
        Ok((SUBMISSION, digest('a'), digest('b'), 1))
    );
    assert_eq!(
        evaluation_draft_frame_binding(&bundle(EVALUATOR), PAPER, &evaluator),
        Err(AppError::Conflict(
            "the assigned review round already has an authoritative draft or evaluation".to_string()
        ))
    );
    let mut other = evaluator_bundle(EVALUATOR);
    set(&mut other, "my_assignments", JsonValue::Array(vec![]));
    assert_eq!(
        evaluation_draft_frame_binding(&other, PAPER, &evaluator),
        Err(AppError::Forbidden)
    );
    let author = AlphaIdentity {
        player_id: EVALUATOR,
        subject_id: "subject".to_string(),
        nakama_user_id: 77,
        display_name: "Player".to_string(),
        scopes: vec![AlphaIdentityScope::Author],
        author_roles: Vec::new(),
    };
    assert_eq!(
        evaluation_draft_frame_binding(&evaluator_bundle(EVALUATOR), PAPER, &author),
        Err(AppError::Forbidden)
    );
}

#[test]
fn draft_policies_must_be_frozen() {
    let policy = object(vec![
        ("schema", text("hepta.paper_raid.tolerance_policy.v1")),
        ("version", text("1")),
        (
            "rules",
            JsonValue::Array(vec![object(vec![("kind", text("absolute")), ("metric", text("accuracy"))])]),
        ),
    ]);
    assert_eq!(frozen_policy_check(1, &policy), Ok(()));
    let frozen_error = Err(AppError::Invalid(
        "evaluation requires a frozen v1 tolerance policy and reference metrics".to_string(),
    ));
    assert_eq!(frozen_policy_check(0, &policy), frozen_error);
    assert_eq!(frozen_policy_check(257, &policy), frozen_error);
    let mut unversioned = object(vec![
        ("schema", text("hepta.paper_raid.tolerance_policy.v1")),
        ("version", text("2")),
        ("rules", JsonValue::Array(vec![text("x")])),
    ]);
    assert_eq!(frozen_policy_check(1, &unversioned), frozen_error);
    set(&mut unversioned, "version", text("1"));
    set(&mut unversioned, "rules", JsonValue::Array(vec![]));
    assert_eq!(frozen_policy_check(1, &unversioned), frozen_error);
}
