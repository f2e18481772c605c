use paper_raid_bff::json::{JsonNumber, JsonValue};
use paper_raid_bff::review::{
    sealed_evaluation_crosslinks, sealed_review_assignments, sealed_tolerance_rule_keys,
    AssignmentStatus, DraftLink, DraftStatus, EvaluationLink, Moment, ReviewSlot,
    SealedReviewAssignment,
};

fn text(value: &str) -> JsonValue {
    JsonValue::String(value.to_string())
}

fn number(value: u64) -> JsonValue {
    JsonValue::Number(JsonNumber::Unsigned(value))
}

fn object(members: Vec<(&str, JsonValue)>) -> JsonValue {
    JsonValue::Object(
        members
            .into_iter()
            .map(|(key, value)| (key.to_string(), value))
            .collect(),
    )
}

fn id(n: u128) -> u128 {
    n
}

fn id_text(id: u128) -> String {
    uuid::Uuid::from_u128(id).to_string()
}

fn moment(value: &str) -> Moment {
    let parsed = chrono::DateTime::parse_from_rfc3339(value)
        .expect("fixture time")
        .with_timezone(&chrono::Utc);
    Moment {
        secs: parsed.timestamp(),
        nanos: parsed.timestamp_subsec_nanos(),
    }
}

fn slot_text(slot: ReviewSlot) -> &'static str {
    match slot {
        ReviewSlot::Evaluator => "evaluator",
        ReviewSlot::Reviewer1 => "reviewer_1",
        ReviewSlot::Reviewer2 => "reviewer_2",
        ReviewSlot::Reproducer => "reproducer",
    }
}

fn status_text(status: AssignmentStatus) -> &'static str {
    match status {
        AssignmentStatus::Claimed => "claimed",
        AssignmentStatus::Pinned => "pinned",
        AssignmentStatus::Consumed => "consumed",
        AssignmentStatus::Expired => "expired",
    }
}

struct Fixture {
    assignment_id: u128,
    paper_id: u128,
    submission_id: u128,
    player_id: u128,
    slot: ReviewSlot,
    pinned: Option<u128>,
    status: AssignmentStatus,
    version: u64,
    claimed_at: &'static str,
    updated_at: &'static str,
}

fn assignment(f: &Fixture) -> (JsonValue, SealedReviewAssignment) {
    let raw = object(vec![
        ("schema", text("hepta.paper_raid.review_assignment.v1")),
        ("assignment_id", text(&id_text(f.assignment_id))),
        ("paper_project_id", text(&id_text(f.paper_id))),
        ("submission_id", text(&id_text(f.submission_id))),
        ("player_id", text(&id_text(f.player_id))),
        ("review_round", number(1)),
        ("slot", text(slot_text(f.slot))),
        (
            "pinned_evaluation_id",
            match f.pinned {
                Some(p) => text(&id_text(p)),
                None => JsonValue::Null,
            },
        ),
        ("status", text(status_text(f.status))),
        ("version", number(f.version)),
        ("claimed_at", text(f.claimed_at)),
        ("expires_at", text("2026-08-11T02:00:00Z")),
        ("updated_at", text(f.updated_at)),
    ]);
    let decoded = SealedReviewAssignment {
        schema: "hepta.paper_raid.review_assignment.v1".into(),
        assignment_id: f.assignment_id,
        paper_project_id: f.paper_id,
        submission_id: f.submission_id,
        player_id: f.player_id,
        review_round: 1,
        slot: f.slot,
        pinned_evaluation_id: f.pinned,
        status: f.status,
        version: f.version,
        claimed_at: moment(f.claimed_at),
        expires_at: moment("2026-08-11T02:00:00Z"),
        updated_at: moment(f.updated_at),
    };
    (raw, decoded)
}

fn split(pairs: Vec<(JsonValue, SealedReviewAssignment)>) -> (Vec<JsonValue>, Vec<SealedReviewAssignment>) {
    pairs.into_iter().unzip()
}

fn open_draft(paper: u128, submission: u128, evaluation: u128, evaluator: u128) -> DraftLink {
    let _ = paper;
    DraftLink {
        evaluation_id: evaluation,
        submission_id: submission,
        review_round: 1,
        evaluator_player_id: evaluator,
        status: DraftStatus::Open,
        created_at: moment("2026-08-11T00:01:00Z"),
        expires_at: moment("2026-08-12T00:01:00Z"),
        updated_at: moment("2026-08-11T00:01:00Z"),
    }
}

fn pinned_panel(paper: u128, submission: u128, evaluation: u128, evaluator: u128, reviewer: u128) -> Vec<Fixture> {
    vec![
        Fixture {
            assignment_id: id(10),
            paper_id: paper,
            submission_id: submission,
            player_id: evaluator,
            slot: ReviewSlot::Evaluator,
            pinned: Some(evaluation),
            status: AssignmentStatus::Pinned,
            version: 2,
            claimed_at: "2026-08-11T00:00:00Z",
            updated_at: "2026-08-11T00:01:00Z",
        },
        Fixture {
            assignment_id: id(11),
            paper_id: paper,
            submission_id: submission,
            player_id: reviewer,
            slot: ReviewSlot::Reviewer1,
            pinned: Some(evaluation),
            status: AssignmentStatus::Pinned,
            version: 2,
            claimed_at: "2026-08-11T00:01:10Z",
            updated_at: "2026-08-11T00:01:30Z",
        },
    ]
}

#[test]
fn open_and_expired_draft_pinned_panels_are_sealed() {
    let (paper, submission, evaluation, evaluator, reviewer) = (id(1), id(2), id(3), id(4), id(5));
    let draft = open_draft(paper, submission, evaluation, evaluator);
    let fixtures = pinned_panel(paper, submission, evaluation, evaluator, reviewer);
    let (raw, assignments) = split(fixtures.iter().map(assignment).collect());
    assert!(sealed_review_assignments(&raw, &assignments, paper, &vec![], &vec![draft]));
    assert!(!sealed_review_assignments(&raw, &assignments, paper, &vec![], &vec![]));

    let mut expired = draft;
    expired.status = DraftStatus::Expired;
    expired.updated_at = expired.expires_at;
    let expired_fixtures: Vec<Fixture> = fixtures
        .into_iter()
        .map(|mut f| {
            f.status = AssignmentStatus::Expired;
            f.version = 3;
            f.updated_at = "2026-08-12T00:01:00Z";
            f
        })
        .collect();
    let (raw, assignments) = split(expired_fixtures.iter().map(assignment).collect());
    assert!(sealed_review_assignments(&raw, &assignments, paper, &vec![], &vec![expired]));
    assert!(!sealed_review_assignments(&raw, &assignments, paper, &vec![], &vec![draft]));
}

#[test]
fn duplicate_live_slots_and_players_are_refused() {
    let (paper, submission, evaluation, evaluator, reviewer) = (id(21), id(22), id(23), id(24), id(25));
    let draft = open_draft(paper, submission, evaluation, evaluator);
    let mut panel = pinned_panel(paper, submission, evaluation, evaluator, reviewer);
    panel[0].assignment_id = id(30);
    panel[1].assignment_id = id(32);
    let duplicate_slot = Fixture {
        assignment_id: id(31),
        paper_id: paper,
        submission_id: submission,
        player_id: id(26),
        slot: ReviewSlot::Evaluator,
        pinned: None,
        status: AssignmentStatus::Claimed,
        version: 1,
        claimed_at: "2026-08-11T00:00:00Z",
        updated_at: "2026-08-11T00:00:00Z",
    };
    let (raw, assignments) = split(vec![
        assignment(&panel[0]),
        assignment(&duplicate_slot),
        assignment(&panel[1]),
    ]);
    assert!(!sealed_review_assignments(&raw, &assignments, paper, &vec![], &vec![draft]));

    let duplicate_player = Fixture {
        assignment_id: id(33),
        paper_id: paper,
        submission_id: submission,
        player_id: evaluator,
        slot: ReviewSlot::Reviewer2,
        pinned: None,
        status: AssignmentStatus::Claimed,
        version: 1,
        claimed_at: "2026-08-11T00:00:00Z",
        updated_at: "2026-08-11T00:00:00Z",
    };
    let (raw, assignments) = split(vec![
        assignment(&panel[0]),
        assignment(&panel[1]),
        assignment(&duplicate_player),
    ]);
    assert!(!sealed_review_assignments(&raw, &assignments, paper, &vec![], &vec![draft]));

    let (raw, assignments) = split(vec![assignment(&panel[1]), assignment(&panel[0])]);
    assert!(!sealed_review_assignments(&raw, &assignments, paper, &vec![], &vec![draft]));
}

#[test]
fn consumed_panel_backs_its_evaluation_exactly() {
    let (paper, submission, evaluation) = (id(41), id(42), id(43));
    let (evaluator, first, second) = (id(44), id(45), id(46));
    let created = "2026-08-11T01:00:00Z";
    let member = |n: u128, player: u128, slot: ReviewSlot| Fixture {
        assignment_id: id(n),
        paper_id: paper,
        submission_id: submission,
        player_id: player,
        slot,
        pinned: Some(evaluation),
        status: AssignmentStatus::Consumed,
        version: 3,
        claimed_at: "2026-08-11T00:00:00Z",
        updated_at: created,
    };
    let panel = vec![
        member(50, evaluator, ReviewSlot::Evaluator),
        member(51, first, ReviewSlot::Reviewer1),
        member(52, second, ReviewSlot::Reviewer2),
    ];
    let link = EvaluationLink {
        evaluation_id: evaluation,
        submission_id: submission,
        version: 1,
        evaluator_player_id: evaluator,
        reviewer_player_ids: (second, first),
        created_at: moment(created),
    };
    let (raw, assignments) = split(panel.iter().map(assignment).collect());
    assert!(sealed_review_assignments(&raw, &assignments, paper, &vec![link], &vec![]));

    let mut other_reviewers = link;
    other_reviewers.reviewer_player_ids = (first, id(99));
    assert!(!sealed_review_assignments(&raw, &assignments, paper, &vec![other_reviewers], &vec![]));
    let mut later = link;
    later.created_at = moment("2026-08-11T01:00:01Z");
    assert!(!sealed_review_assignments(&raw, &assignments, paper, &vec![later], &vec![]));

    let (raw, short) = split(panel[..2].iter().map(assignment).collect());
    assert!(!sealed_review_assignments(&raw, &short, paper, &vec![link], &vec![]));

    let (mut raw, assignments) = split(panel.iter().map(assignment).collect());
    if let JsonValue::Object(members) = &mut raw[0] {
        members[11].1 = text("2026-08-11T02:00:00.000Z");
    }
    assert!(!sealed_review_assignments(&raw, &assignments, paper, &vec![link], &vec![]));
}

fn evaluation_record_at(paper: u128, evaluation: u128, reviewers: (u128, u128), created: &str) -> JsonValue {
    object(vec![
        ("schema", text("hepta.paper_raid.evaluation.v1")),
        ("evaluation_id", text(&id_text(evaluation))),
        ("paper_project_id", text(&id_text(paper))),
        ("submission_id", text(&id_text(id(62)))),
        ("evaluator_player_id", text(&id_text(id(63)))),
        ("version", number(2)),
        ("release_candidate_hash", text(&format!("sha256:{}", "a".repeat(64)))),
        ("paper_bundle_hash", text(&format!("sha256:{}", "b".repeat(64)))),
        ("tolerance_policy_hash", text(&format!("sha256:{}", "c".repeat(64)))),
        ("created_at", text(created)),
        (
            "reviewer_attestations",
            JsonValue::Array(vec![
                object(vec![("reviewer_player_id", text(&id_text(reviewers.0)))]),
                object(vec![("reviewer_player_id", text(&id_text(reviewers.1)))]),
            ]),
        ),
        ("reference_metrics_micros", object(vec![("accuracy", number(900_000))])),
        (
            "tolerance_policy",
            object(vec![(
                "rules",
                JsonValue::Array(vec![
                    object(vec![("kind", text("absolute")), ("metric", text("accuracy"))]),
                    object(vec![
                        ("kind", text("seed")),
                        ("expected_seed_set_hash", text(&format!("sha256:{}", "d".repeat(64)))),
                    ]),
                ]),
            )]),
        ),
    ])
}

fn evaluation_record(paper: u128, evaluation: u128, reviewers: (u128, u128)) -> JsonValue {
    evaluation_record_at(paper, evaluation, reviewers, "2026-08-11T01:00:00.500Z")
}

#[test]
fn evaluation_records_yield_their_links_and_rule_keys() {
    let paper = id(60);
    let record = evaluation_record(paper, id(61), (id(64), id(65)));
    let links = sealed_evaluation_crosslinks(&vec![record], paper).expect("canonical evaluation");
    assert_eq!(links.len(), 1);
    let link = links[0].link;
    assert_eq!(link.evaluation_id, id(61));
    assert_eq!(link.submission_id, id(62));
    assert_eq!(link.evaluator_player_id, id(63));
    assert_eq!(link.reviewer_player_ids, (id(64), id(65)));
    assert_eq!(link.version, 2);
    assert_eq!(link.created_at, moment("2026-08-11T01:00:00.500Z"));
    assert!(sealed_evaluation_crosslinks(
        &vec![evaluation_record_at(paper, id(61), (id(64), id(65)), "2026-08-11T01:00:00.5Z")],
        paper
    )
    .is_none());
    assert_eq!(
        links[0].tolerance_rule_keys,
        vec![
            "absolute:accuracy".to_string(),
            format!("seed:sha256:{}", "d".repeat(64))
        ]
    );

    let twice = vec![
        evaluation_record(paper, id(61), (id(64), id(65))),
        evaluation_record(paper, id(61), (id(66), id(67))),
    ];
    assert!(sealed_evaluation_crosslinks(&twice, paper).is_none());
    assert!(sealed_evaluation_crosslinks(
        &vec![evaluation_record(paper, id(61), (id(64), id(64)))],
        paper
    )
    .is_none());
    assert!(sealed_evaluation_crosslinks(
        &vec![evaluation_record(paper, id(61), (id(63), id(64)))],
        paper
    )
    .is_none());
    assert!(sealed_evaluation_crosslinks(
        &vec![evaluation_record(paper, id(61), (id(64), id(65)))],
        id(70)
    )
    .is_none());
}

#[test]
fn tolerance_rules_must_be_keyed_once() {
    let rules = |rules: Vec<JsonValue>| {
        object(vec![
            ("reference_metrics_micros", object(vec![("m", number(1))])),
            ("tolerance_policy", object(vec![("rules", JsonValue::Array(rules))])),
        ])
    };
    let absolute = || object(vec![("kind", text("absolute")), ("metric", text("m"))]);
    assert_eq!(
        sealed_tolerance_rule_keys(&rules(vec![absolute()])),
        Some(vec!["absolute:m".to_string()])
    );
    assert_eq!(sealed_tolerance_rule_keys(&rules(vec![absolute(), absolute()])), None);
    assert_eq!(sealed_tolerance_rule_keys(&rules(vec![])), None);
    assert_eq!(
        sealed_tolerance_rule_keys(&rules(vec![object(vec![("kind", text("other"))])])),
        None
    );
    let no_reference = object(vec![(
        "tolerance_policy",
        object(vec![("rules", JsonValue::Array(vec![absolute()]))]),
    )]);
    assert_eq!(sealed_tolerance_rule_keys(&no_reference), None);
}
