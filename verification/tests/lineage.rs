use paper_raid_bff::error::AppError;
use paper_raid_bff::hepta::required_uuid;
use paper_raid_bff::json::{JsonNumber, JsonValue};
use paper_raid_bff::lineage::{
    evaluation_panel_contains, evaluation_panel_ids, exact_manifest_hash, exact_open_appeal,
    exact_superseding_evaluation, find_room_record, latest_paper_evaluation,
    latest_submission_evaluation, next_paper_rework_cycle, paper_evaluation_by_id,
};

fn text(value: &str) -> JsonValue {
    JsonValue::String(value.to_string())
}

fn number(value: u64) -> JsonValue {
    JsonValue::Number(JsonNumber::Unsigned(value))
}

fn object(members: Vec<(&str, JsonValue)>) -> JsonValue {
    JsonValue::Object(
        members
            .into_iter()
            .map(|(key, value)| (key.to_string(), value))
            .collect(),
    )
}

fn member<'a>(value: &'a mut JsonValue, key: &str) -> &'a mut JsonValue {
    match value {
        JsonValue::Object(members) => {
            &mut members
                .iter_mut()
                .find(|member| member.0 == key)
                .expect("member")
                .1
        }
        _ => panic!("not an object"),
    }
}

fn read<'a>(value: &'a JsonValue, key: &str) -> &'a JsonValue {
    value.get(key).expect("member")
}

fn item(value: &mut JsonValue, index: usize) -> &mut JsonValue {
    match value {
        JsonValue::Array(items) => &mut items[index],
        _ => panic!("not an array"),
    }
}

fn push(value: &mut JsonValue, entry: JsonValue) {
    match value {
        JsonValue::Array(items) => items.push(entry),
        _ => panic!("not an array"),
    }
}

fn new_id() -> u128 {
    uuid::Uuid::new_v4().as_u128()
}

fn id(value: u128) -> JsonValue {
    text(&uuid::Uuid::from_u128(value).to_string())
}

fn digest(character: char) -> String {
    format!("sha256:{}", character.to_string().repeat(64))
}

struct Release {
    paper_id: u128,
    submission_id: u128,
    release: String,
    bundle: String,
}

fn evaluation(
    release: &Release,
    evaluation_id: u128,
    version: u64,
    supersedes: Option<u128>,
    panel: [u128; 3],
) -> JsonValue {
    object(vec![
        ("evaluation_id", id(evaluation_id)),
        ("paper_project_id", id(release.paper_id)),
        ("submission_id", id(release.submission_id)),
        ("release_candidate_hash", text(&release.release)),
        ("paper_bundle_hash", text(&release.bundle)),
        ("version", number(version)),
        (
            "supersedes_evaluation_id",
            match supersedes {
                Some(value) => id(value),
                None => JsonValue::Null,
            },
        ),
        ("evaluator_player_id", id(panel[0])),
        (
            "reviewer_attestations",
            JsonValue::Array(vec![
                object(vec![("reviewer_player_id", id(panel[1]))]),
                object(vec![("reviewer_player_id", id(panel[2]))]),
            ]),
        ),
    ])
}

#[test]
fn appeal_player_frames_derive_one_exact_authoritative_lineage() {
    let release = Release {
        paper_id: new_id(),
        submission_id: new_id(),
        release: digest('a'),
        bundle: digest('b'),
    };
    let paper_id = release.paper_id;
    let first_id = new_id();
    let second_id = new_id();
    let appeal_id = new_id();
    let first_panel = [new_id(), new_id(), new_id()];
    let second_panel = [new_id(), new_id(), new_id()];
    let build_review = || object(vec![
        (
            "evaluations",
            JsonValue::Array(vec![
                evaluation(&release, first_id, 1, None, first_panel),
                evaluation(&release, second_id, 2, Some(first_id), second_panel),
            ]),
        ),
        (
            "appeals",
            JsonValue::Array(vec![object(vec![
                ("appeal_id", id(appeal_id)),
                ("evaluation_id", id(first_id)),
                ("paper_project_id", id(paper_id)),
                ("release_candidate_hash", text(&release.release)),
                ("appellant_player_id", id(new_id())),
            ])]),
        ),
        ("resolutions", JsonValue::Array(vec![])),
    ]);
    let review = build_review();
    assert_eq!(
        required_uuid(
            latest_paper_evaluation(&review, paper_id).expect("latest evaluation"),
            "evaluation_id"
        )
        .expect("evaluation ID"),
        second_id
    );
    let appealed =
        paper_evaluation_by_id(&review, paper_id, first_id).expect("appealed evaluation");
    assert_eq!(
        required_uuid(
            exact_open_appeal(&review, paper_id, first_id).expect("one open Appeal"),
            "appeal_id"
        )
        .expect("Appeal ID"),
        appeal_id
    );
    assert_eq!(
        required_uuid(
            exact_superseding_evaluation(&review, appealed)
                .expect("valid lineage")
                .expect("superseding evaluation"),
            "evaluation_id"
        )
        .expect("superseding ID"),
        second_id
    );
    assert!(evaluation_panel_contains(appealed, first_panel[0]).expect("panel"));
    assert!(!evaluation_panel_contains(appealed, new_id()).expect("independent"));

    let mut ambiguous = build_review();
    push(
        member(&mut ambiguous, "evaluations"),
        evaluation(&release, new_id(), 2, Some(first_id), [new_id(), new_id(), new_id()]),
    );
    assert!(matches!(
        exact_superseding_evaluation(&ambiguous, appealed),
        Err(AppError::Conflict(_))
    ));
}

fn rejected_evaluation(evaluation_id: u128, paper_id: u128, submission_id: u128) -> JsonValue {
    object(vec![
        ("evaluation_id", id(evaluation_id)),
        ("paper_project_id", id(paper_id)),
        ("submission_id", id(submission_id)),
        ("version", number(1)),
        ("status", text("rejected")),
        ("supersedes_evaluation_id", JsonValue::Null),
    ])
}

fn completed(paper_id: u128, rework_id: u128, cycle: u64) -> JsonValue {
    let rejected_commitment = digest(if cycle == 2 { '1' } else { '3' });
    let replacement_commitment = digest(if cycle == 2 { '2' } else { '4' });
    object(vec![
        (
            "rework",
            object(vec![
                ("schema", text("hepta.paper_raid.rework_record.v1")),
                ("rework_id", id(rework_id)),
                ("paper_project_id", id(paper_id)),
                ("rework_cycle", number(cycle)),
                (
                    "rejected_rework_content_commitment_sha256",
                    text(&rejected_commitment),
                ),
            ]),
        ),
        (
            "resubmission",
            object(vec![
                ("schema", text("hepta.paper_raid.rework_resubmission.v1")),
                ("rework_id", id(rework_id)),
                ("paper_project_id", id(paper_id)),
                ("replacement_review_round", number(1)),
                (
                    "replacement_rework_content_commitment_sha256",
                    text(&replacement_commitment),
                ),
            ]),
        ),
    ])
}

#[test]
fn paper_rework_adapter_selects_current_submission_and_monotonic_cycle() {
    let paper_id = new_id();
    let submission_id = new_id();
    let old_submission_id = new_id();
    let evaluation_id = new_id();
    let review = object(vec![(
        "evaluations",
        JsonValue::Array(vec![
            rejected_evaluation(new_id(), paper_id, old_submission_id),
            rejected_evaluation(evaluation_id, paper_id, submission_id),
        ]),
    )]);
    assert_eq!(
        required_uuid(
            latest_submission_evaluation(&review, paper_id, submission_id)
                .expect("current submission evaluation"),
            "evaluation_id",
        )
        .expect("evaluation ID"),
        evaluation_id,
    );

    let rework_id_2 = new_id();
    let rework_id_3 = new_id();
    let build_history = || JsonValue::Array(vec![
        completed(paper_id, rework_id_2, 2),
        completed(paper_id, rework_id_3, 3),
    ]);
    let history = build_history();
    assert_eq!(
        next_paper_rework_cycle(&history, paper_id).expect("next cycle"),
        4
    );

    let mut active = build_history();
    *member(item(&mut active, 1), "resubmission") = JsonValue::Null;
    assert!(matches!(
        next_paper_rework_cycle(&active, paper_id),
        Err(AppError::Conflict(_))
    ));
    let gap = JsonValue::Array(vec![completed(paper_id, rework_id_3, 3)]);
    assert!(matches!(
        next_paper_rework_cycle(&gap, paper_id),
        Err(AppError::Upstream)
    ));

    let mut identity_only = build_history();
    let rejected = read(
        read(
            match &history {
                JsonValue::Array(items) => &items[1],
                _ => panic!("not an array"),
            },
            "rework",
        ),
        "rejected_rework_content_commitment_sha256",
    )
    .as_str()
    .expect("rejected commitment")
    .to_string();
    *member(
        member(item(&mut identity_only, 1), "resubmission"),
        "replacement_rework_content_commitment_sha256",
    ) = text(&rejected);
    assert!(matches!(
        next_paper_rework_cycle(&identity_only, paper_id),
        Err(AppError::Upstream)
    ));
}

#[test]
fn appeal_evidence_selector_resolves_only_one_paper_manifest() {
    let paper_id = new_id();
    let manifest_id = new_id();
    let manifest_hash = digest('c');
    let room = object(vec![(
        "artifact_manifests",
        JsonValue::Array(vec![object(vec![
            ("manifest_id", id(manifest_id)),
            ("paper_project_id", id(paper_id)),
            ("manifest_hash", text(&manifest_hash)),
        ])]),
    )]);
    assert_eq!(
        exact_manifest_hash(&room, paper_id, Some(manifest_id), None).expect("selected manifest"),
        manifest_hash
    );
    assert!(matches!(
        exact_manifest_hash(&room, new_id(), Some(manifest_id), None),
        Err(AppError::Conflict(_))
    ));
    assert!(matches!(
        exact_manifest_hash(&room, paper_id, Some(new_id()), None),
        Err(AppError::NotFound)
    ));
}

#[test]
fn rework_history_edges() {
    let paper_id = new_id();
    assert_eq!(next_paper_rework_cycle(&JsonValue::Array(vec![]), paper_id), Ok(2));
    assert_eq!(next_paper_rework_cycle(&text("history"), paper_id), Err(AppError::Upstream));
    let repeated_cycle = JsonValue::Array(vec![
        completed(paper_id, new_id(), 2),
        completed(paper_id, new_id(), 2),
    ]);
    assert_eq!(next_paper_rework_cycle(&repeated_cycle, paper_id), Err(AppError::Upstream));
    let rework_id = new_id();
    let repeated_id = JsonValue::Array(vec![
        completed(paper_id, rework_id, 2),
        completed(paper_id, rework_id, 3),
    ]);
    assert_eq!(next_paper_rework_cycle(&repeated_id, paper_id), Err(AppError::Upstream));
    let other_paper = JsonValue::Array(vec![completed(new_id(), new_id(), 2)]);
    assert_eq!(next_paper_rework_cycle(&other_paper, paper_id), Err(AppError::Upstream));
    let mut zero = JsonValue::Array(vec![completed(paper_id, new_id(), 2)]);
    *member(member(item(&mut zero, 0), "rework"), "rejected_rework_content_commitment_sha256") =
        text(&digest('0'));
    assert_eq!(next_paper_rework_cycle(&zero, paper_id), Err(AppError::Upstream));
    let mut extra = JsonValue::Array(vec![completed(paper_id, new_id(), 2)]);
    if let JsonValue::Object(members) = item(&mut extra, 0) {
        members.push(("note".to_string(), JsonValue::Null));
    }
    assert_eq!(next_paper_rework_cycle(&extra, paper_id), Err(AppError::Upstream));
    // A pending replacement ahead of a malformed entry is reported first.
    let mut pending_first = JsonValue::Array(vec![
        completed(paper_id, new_id(), 2),
        completed(new_id(), new_id(), 3),
    ]);
    *member(item(&mut pending_first, 0), "resubmission") = JsonValue::Null;
    assert_eq!(
        next_paper_rework_cycle(&pending_first, paper_id),
        Err(AppError::Conflict("Paper already has an active replacement workflow".to_string()))
    );
}

#[test]
fn lineage_panels_and_records() {
    let release = Release {
        paper_id: new_id(),
        submission_id: new_id(),
        release: digest('a'),
        bundle: digest('b'),
    };
    let first_id = new_id();
    let panel = [new_id(), new_id(), new_id()];
    let first = evaluation(&release, first_id, 1, None, panel);
    assert_eq!(evaluation_panel_ids(&first), Ok((panel[0], panel[1], panel[2])));
    assert!(evaluation_panel_contains(&first, panel[2]).expect("panel"));

    let shared = [panel[1], new_id(), new_id()];
    let review = object(vec![(
        "evaluations",
        JsonValue::Array(vec![
            evaluation(&release, first_id, 1, None, panel),
            evaluation(&release, new_id(), 2, Some(first_id), shared),
        ]),
    )]);
    assert!(matches!(
        exact_superseding_evaluation(&review, &first),
        Err(AppError::Conflict(code)) if code == "the superseding evaluation panel is not independent"
    ));
    let unbound = object(vec![(
        "evaluations",
        JsonValue::Array(vec![
            evaluation(&release, first_id, 1, None, panel),
            evaluation(&release, new_id(), 3, Some(first_id), [new_id(), new_id(), new_id()]),
        ]),
    )]);
    assert!(matches!(
        exact_superseding_evaluation(&unbound, &first),
        Err(AppError::Conflict(_))
    ));
    let alone = object(vec![("evaluations", JsonValue::Array(vec![evaluation(&release, first_id, 1, None, panel)]))]);
    assert!(matches!(exact_superseding_evaluation(&alone, &first), Ok(None)));
    assert!(matches!(
        paper_evaluation_by_id(&alone, release.paper_id, new_id()),
        Err(AppError::NotFound)
    ));
    assert!(matches!(
        paper_evaluation_by_id(&alone, new_id(), first_id),
        Err(AppError::Conflict(_))
    ));

    let room = object(vec![(
        "papers",
        JsonValue::Array(vec![
            object(vec![("paper_project_id", id(release.paper_id)), ("title", text("first"))]),
            object(vec![("paper_project_id", id(release.paper_id)), ("title", text("second"))]),
        ]),
    )]);
    let found = find_room_record(&room, "papers", "paper_project_id", release.paper_id)
        .expect("room record");
    assert_eq!(found.get("title").and_then(|title| title.as_str()), Some("first"));
    assert!(matches!(
        find_room_record(&room, "papers", "paper_project_id", new_id()),
        Err(AppError::NotFound)
    ));
    assert!(matches!(
        find_room_record(&room, "sessions", "paper_project_id", release.paper_id),
        Err(AppError::NotFound)
    ));
}

#[test]
fn open_appeal_skips_resolved_appeals() {
    let paper_id = new_id();
    let evaluation_id = new_id();
    let appeal_id = new_id();
    let appeal = |appeal: u128| {
        object(vec![
            ("appeal_id", id(appeal)),
            ("evaluation_id", id(evaluation_id)),
            ("paper_project_id", id(paper_id)),
        ])
    };
    let resolved = object(vec![
        ("appeals", JsonValue::Array(vec![appeal(appeal_id)])),
        (
            "resolutions",
            JsonValue::Array(vec![object(vec![("appeal_id", id(appeal_id))])]),
        ),
    ]);
    assert!(matches!(
        exact_open_appeal(&resolved, paper_id, evaluation_id),
        Err(AppError::NotFound)
    ));
    let two = object(vec![
        ("appeals", JsonValue::Array(vec![appeal(new_id()), appeal(new_id())])),
        ("resolutions", JsonValue::Array(vec![])),
    ]);
    assert!(matches!(
        exact_open_appeal(&two, paper_id, evaluation_id),
        Err(AppError::Conflict(_))
    ));
    assert!(matches!(
        exact_open_appeal(&two, new_id(), evaluation_id),
        Err(AppError::Upstream)
    ));
}
