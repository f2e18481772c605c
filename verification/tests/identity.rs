use paper_raid_bff::error::AppError;
use paper_raid_bff::hepta::CommandName;
use paper_raid_bff::identity::{
    ensure_practice_identity, ensure_quick_raid_identity, require_exact_review_assignment,
    require_payload_player, require_review_bundle_scope, validate_identity_command_payload,
    AlphaAuthorRole, AlphaIdentity, AlphaIdentityScope,
};
use paper_raid_bff::json::{JsonNumber, JsonValue};

fn text(value: &str) -> JsonValue {
    JsonValue::String(value.to_string())
}

fn number(value: u64) -> JsonValue {
    JsonValue::Number(JsonNumber::Unsigned(value))
}

fn object(members: Vec<(&str, JsonValue)>) -> JsonValue {
    JsonValue::Object(
        members
            .into_iter()
            .map(|(key, value)| (key.to_string(), value))
            .collect(),
    )
}

fn new_id() -> u128 {
    uuid::Uuid::new_v4().as_u128()
}

fn id(value: u128) -> JsonValue {
    text(&uuid::Uuid::from_u128(value).to_string())
}

/// An author identity holding every author role.
fn author_identity() -> AlphaIdentity {
    AlphaIdentity {
        player_id: new_id(),
        subject_id: "subject".to_string(),
        nakama_user_id: 77,
        display_name: "Player".to_string(),
        scopes: vec![AlphaIdentityScope::Author],
        author_roles: vec![
            AlphaAuthorRole::Captain,
            AlphaAuthorRole::Evidence,
            AlphaAuthorRole::Experiment,
        ],
    }
}

fn roles(values: &[&str]) -> JsonValue {
    object(vec![(
        "roles",
        JsonValue::Array(values.iter().map(|value| text(value)).collect()),
    )])
}

#[test]
fn matchmaking_roles_are_restricted_to_identity_authorizations() {
    let mut identity = author_identity();
    identity.author_roles = vec![AlphaAuthorRole::Evidence, AlphaAuthorRole::Experiment];
    validate_identity_command_payload(
        &identity,
        CommandName::QueueMatchmaking,
        &roles(&["evidence", "experiment"]),
    )
    .expect("authorized preferences");
    assert!(matches!(
        validate_identity_command_payload(
            &identity,
            CommandName::QueueMatchmaking,
            &roles(&["captain"]),
        ),
        Err(AppError::Forbidden)
    ));
    assert!(matches!(
        validate_identity_command_payload(
            &identity,
            CommandName::QueueMatchmaking,
            &roles(&["evidence", "evidence"]),
        ),
        Err(AppError::Forbidden)
    ));
}

#[test]
fn review_claim_is_bound_to_identity_and_exact_scope() {
    let reviewer = AlphaIdentity {
        player_id: new_id(),
        subject_id: "subject".to_string(),
        nakama_user_id: 77,
        display_name: "Player".to_string(),
        scopes: vec![AlphaIdentityScope::Reviewer],
        author_roles: Vec::new(),
    };
    let claim = |player: u128, slot: &str| {
        object(vec![
            ("assignment_id", id(new_id())),
            ("player_id", id(player)),
            ("review_round", number(1)),
            ("slot", text(slot)),
        ])
    };
    validate_identity_command_payload(
        &reviewer,
        CommandName::ClaimReviewAssignment,
        &claim(reviewer.player_id, "reviewer_2"),
    )
    .expect("a review scope may claim a review slot");
    assert!(matches!(
        validate_identity_command_payload(
            &reviewer,
            CommandName::ClaimReviewAssignment,
            &claim(new_id(), "reviewer_2"),
        ),
        Err(AppError::Forbidden)
    ));
    assert!(matches!(
        validate_identity_command_payload(
            &reviewer,
            CommandName::ClaimReviewAssignment,
            &claim(reviewer.player_id, "evaluator"),
        ),
        Err(AppError::Forbidden)
    ));
}

#[test]
fn appeal_actor_fields_are_bound_to_the_authenticated_identity() {
    let author = author_identity();
    let naming = |field: &str, player: u128| object(vec![(field, id(player))]);
    validate_identity_command_payload(
        &author,
        CommandName::StartPaperRework,
        &naming("author_player_id", author.player_id),
    )
    .expect("author identity matches Paper rework payload");
    assert!(matches!(
        validate_identity_command_payload(
            &author,
            CommandName::StartPaperRework,
            &naming("author_player_id", new_id()),
        ),
        Err(AppError::Forbidden)
    ));
    validate_identity_command_payload(
        &author,
        CommandName::SubmitAppeal,
        &naming("appellant_player_id", author.player_id),
    )
    .expect("author identity matches Appeal payload");
    assert!(matches!(
        validate_identity_command_payload(
            &author,
            CommandName::SubmitAppeal,
            &naming("appellant_player_id", new_id()),
        ),
        Err(AppError::Forbidden)
    ));

    let resolver = AlphaIdentity {
        player_id: new_id(),
        subject_id: "subject".to_string(),
        nakama_user_id: 77,
        display_name: "Player".to_string(),
        scopes: vec![AlphaIdentityScope::Reproducer],
        author_roles: Vec::new(),
    };
    validate_identity_command_payload(
        &resolver,
        CommandName::ResolveAppeal,
        &naming("resolver_player_id", resolver.player_id),
    )
    .expect("resolver identity matches resolution payload");
    assert!(matches!(
        validate_identity_command_payload(
            &author,
            CommandName::ResolveAppeal,
            &naming("resolver_player_id", author.player_id),
        ),
        Err(AppError::Forbidden)
    ));
}

#[test]
fn payload_errors_name_what_is_wrong() {
    let author = author_identity();
    assert_eq!(
        require_payload_player(&author, &object(vec![]), "author_player_id"),
        Err(AppError::Invalid("author_player_id must be a UUID".to_string()))
    );
    assert_eq!(
        require_payload_player(
            &author,
            &object(vec![("author_player_id", text("not-a-uuid"))]),
            "author_player_id"
        ),
        Err(AppError::Invalid("author_player_id must be a UUID".to_string()))
    );
    assert_eq!(
        validate_identity_command_payload(
            &author,
            CommandName::QueueMatchmaking,
            &object(vec![("roles", JsonValue::Array(vec![]))]),
        ),
        Err(AppError::Invalid("roles must contain 1 to 3 authorized roles".to_string()))
    );
    assert_eq!(
        validate_identity_command_payload(
            &author,
            CommandName::QueueMatchmaking,
            &roles(&["captain", "evidence", "experiment", "captain"]),
        ),
        Err(AppError::Invalid("roles must contain 1 to 3 authorized roles".to_string()))
    );
    assert!(matches!(
        validate_identity_command_payload(
            &author,
            CommandName::QueueMatchmaking,
            &object(vec![("roles", JsonValue::Array(vec![text("captain")])), ("party_code", text("raw"))]),
        ),
        Err(AppError::Invalid(_))
    ));
    let reviewer = AlphaIdentity {
        player_id: new_id(),
        subject_id: "subject".to_string(),
        nakama_user_id: 77,
        display_name: "Player".to_string(),
        scopes: vec![AlphaIdentityScope::Reviewer],
        author_roles: Vec::new(),
    };
    assert_eq!(
        validate_identity_command_payload(
            &reviewer,
            CommandName::ClaimReviewAssignment,
            &object(vec![("slot", text("reviewer_1"))]),
        ),
        Err(AppError::Invalid("claim player_id must be a UUID".to_string()))
    );
    assert_eq!(
        validate_identity_command_payload(&author, CommandName::CreatePaperEvaluation, &object(vec![])),
        Err(AppError::Forbidden)
    );
    assert_eq!(
        validate_identity_command_payload(&reviewer, CommandName::CreatePaperEvaluation, &object(vec![])),
        Ok(())
    );
}

#[test]
fn practice_and_quick_raid_scopes() {
    let author = author_identity();
    let reproducer = AlphaIdentity {
        player_id: new_id(),
        subject_id: "subject".to_string(),
        nakama_user_id: 77,
        display_name: "Player".to_string(),
        scopes: vec![AlphaIdentityScope::Reproducer],
        author_roles: Vec::new(),
    };
    let nobody = AlphaIdentity {
        player_id: new_id(),
        subject_id: "subject".to_string(),
        nakama_user_id: 77,
        display_name: "Player".to_string(),
        scopes: Vec::new(),
        author_roles: Vec::new(),
    };
    assert_eq!(ensure_practice_identity(&author), Ok(()));
    assert_eq!(ensure_practice_identity(&reproducer), Ok(()));
    assert_eq!(ensure_practice_identity(&nobody), Err(AppError::Forbidden));
    assert_eq!(ensure_quick_raid_identity(&author), Ok(()));
    assert_eq!(ensure_quick_raid_identity(&reproducer), Err(AppError::Forbidden));
}

fn bundle(paper: u128, submission: u128, author: u128, reviewer: u128, slot: &str) -> JsonValue {
    object(vec![
        ("paper_project_id", id(paper)),
        ("status", text("submission_ready")),
        ("submission_id", id(submission)),
        ("release_candidate_hash", text(&format!("sha256:{}", "a".repeat(64)))),
        ("paper_bundle_hash", text(&format!("sha256:{}", "b".repeat(64)))),
        (
            "paper_bundle",
            object(vec![(
                "release_candidate",
                object(vec![(
                    "authors",
                    JsonValue::Array(vec![object(vec![("player_id", id(author))])]),
                )]),
            )]),
        ),
        (
            "my_assignments",
            JsonValue::Array(vec![object(vec![
                ("player_id", id(reviewer)),
                ("submission_id", id(submission)),
                ("review_round", number(1)),
                ("slot", text(slot)),
            ])]),
        ),
    ])
}

#[test]
fn review_actions_bind_the_bundle_and_one_assignment() {
    let (paper, submission, author) = (new_id(), new_id(), new_id());
    let reviewer = AlphaIdentity {
        player_id: new_id(),
        subject_id: "subject".to_string(),
        nakama_user_id: 77,
        display_name: "Player".to_string(),
        scopes: vec![AlphaIdentityScope::Reviewer],
        author_roles: Vec::new(),
    };
    let b = bundle(paper, submission, author, reviewer.player_id, "reviewer_1");
    let (s, rc, pb) = require_review_bundle_scope(&b, paper, &reviewer).expect("scope");
    assert_eq!(s, submission);
    assert_eq!(rc, format!("sha256:{}", "a".repeat(64)));
    assert_eq!(pb, format!("sha256:{}", "b".repeat(64)));
    assert!(matches!(
        require_review_bundle_scope(&b, new_id(), &reviewer),
        Err(AppError::Conflict(_))
    ));
    let listed = AlphaIdentity {
        player_id: author,
        subject_id: "subject".to_string(),
        nakama_user_id: 77,
        display_name: "Player".to_string(),
        scopes: vec![AlphaIdentityScope::Reviewer],
        author_roles: Vec::new(),
    };
    assert!(matches!(
        require_review_bundle_scope(&b, paper, &listed),
        Err(AppError::Forbidden)
    ));
    assert!(matches!(
        require_review_bundle_scope(&object(vec![]), paper, &reviewer),
        Err(AppError::Upstream)
    ));

    let found = require_exact_review_assignment(&b, &reviewer, submission, 1, &["reviewer_1", "reviewer_2"])
        .expect("assignment");
    assert_eq!(found.get("slot").and_then(|slot| slot.as_str()), Some("reviewer_1"));
    assert!(matches!(
        require_exact_review_assignment(&b, &reviewer, submission, 1, &["evaluator"]),
        Err(AppError::Forbidden)
    ));
    assert!(matches!(
        require_exact_review_assignment(&b, &reviewer, submission, 2, &["reviewer_1"]),
        Err(AppError::Forbidden)
    ));
    assert!(matches!(
        require_exact_review_assignment(&object(vec![]), &reviewer, submission, 1, &["reviewer_1"]),
        Err(AppError::Upstream)
    ));
}
