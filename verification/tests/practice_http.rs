use paper_raid_bff::error::AppError;
use paper_raid_bff::json::JsonValue;
use paper_raid_bff::practice::{
    CaptainPlanChoiceV1, PracticeError, PracticeSessionV1, PracticeStageV1, JSON_SAFE_U64_MAX,
};
use paper_raid_bff::practice_http::{
    digest_label, exact_active_binding, i64_to_version, map_practice_error,
    parse_canonical_uuid, version_to_i64, PracticePlayerViewV1, NANOS_PER_SECOND,
    PRACTICE_DURATION_NANOS, PRACTICE_PLAYER_VIEW_V1,
};

fn new_id() -> u128 {
    uuid::Uuid::new_v4().as_u128()
}

fn id_text(id: u128) -> String {
    uuid::Uuid::from_u128(id).to_string()
}

fn text(value: &str) -> JsonValue {
    JsonValue::String(value.to_string())
}

fn object(members: Vec<(&str, JsonValue)>) -> JsonValue {
    JsonValue::Object(
        members
            .into_iter()
            .map(|(key, value)| (key.to_string(), value))
            .collect(),
    )
}

fn binding(player: u128, binding: u128, status: &str) -> JsonValue {
    object(vec![
        ("player_id", text(&id_text(player))),
        ("binding_id", text(&id_text(binding))),
        ("status", text(status)),
    ])
}

#[test]
fn player_view_never_exposes_owner_task_or_hash_fields() {
    let now: i128 = 1_800_000_000 * NANOS_PER_SECOND;
    let session = PracticeSessionV1::new(
        new_id(),
        "practice-owner".into(),
        new_id(),
        new_id(),
        new_id(),
        now,
        now + PRACTICE_DURATION_NANOS,
    )
    .expect("practice fixture");
    let view = PracticePlayerViewV1::from_session(&session, now);
    assert_eq!(view.schema, PRACTICE_PLAYER_VIEW_V1);
    assert_eq!(view.stage, PracticeStageV1::CaptainPlan);
    assert_eq!((view.role, view.step, view.total_steps), ("captain", 1, 5));
    assert_eq!(view.remaining_seconds, 20 * 60);
    assert!(!view.expired && !view.terminal && !view.awaiting_agent_bridge);
    assert!(!view.eligibility.ranking_eligible);
    assert!(!view.eligibility.reward_eligible);
    assert!(!view.eligibility.scientific_finality_eligible);

    let late = PracticePlayerViewV1::from_session(&session, now + PRACTICE_DURATION_NANOS);
    assert_eq!(late.stage, PracticeStageV1::Expired);
    assert!(late.expired && late.terminal);
    assert_eq!(late.remaining_seconds, 0);
    assert_eq!((late.role, late.step), ("practice", 0));
}

#[test]
fn enum_and_version_database_round_trips_are_exact() {
    assert_eq!(
        PracticeStageV1::ExperimentWaitingBridge.code(),
        "experiment_waiting_bridge"
    );
    assert_eq!(
        CaptainPlanChoiceV1::from_code("audit_evidence_chain_first"),
        Some(CaptainPlanChoiceV1::AuditEvidenceChainFirst)
    );
    assert!(PracticeStageV1::from_code("paper_finality").is_none());
    assert_eq!(i64_to_version(1).unwrap(), 1);
    assert!(i64_to_version(0).is_err());
    assert!(version_to_i64(JSON_SAFE_U64_MAX + 1).is_err());
}

#[test]
fn version_conversions_accept_exactly_the_json_safe_range() {
    assert_eq!(i64_to_version(JSON_SAFE_U64_MAX as i64), Ok(JSON_SAFE_U64_MAX));
    assert_eq!(i64_to_version(JSON_SAFE_U64_MAX as i64 + 1), Err(AppError::Internal));
    assert_eq!(i64_to_version(-1), Err(AppError::Internal));
    assert_eq!(version_to_i64(7), Ok(7));
    assert_eq!(version_to_i64(0), Err(AppError::Internal));
    assert_eq!(version_to_i64(JSON_SAFE_U64_MAX), Ok(JSON_SAFE_U64_MAX as i64));
}

#[test]
fn canonical_uuids_are_lower_case_hyphenated_and_not_nil() {
    let id = new_id();
    assert_eq!(parse_canonical_uuid(Some(&text(&id_text(id)))), Ok(id));
    assert_eq!(
        parse_canonical_uuid(Some(&text(&id_text(id).to_uppercase()))),
        Err(AppError::Upstream)
    );
    assert_eq!(
        parse_canonical_uuid(Some(&text("00000000-0000-0000-0000-000000000000"))),
        Err(AppError::Upstream)
    );
    assert_eq!(parse_canonical_uuid(Some(&JsonValue::Null)), Err(AppError::Upstream));
    assert_eq!(parse_canonical_uuid(None), Err(AppError::Upstream));
}

#[test]
fn exactly_one_active_binding_is_selected() {
    let player = new_id();
    let active = new_id();
    let records = JsonValue::Array(vec![
        binding(player, new_id(), "revoked"),
        binding(player, active, "active"),
    ]);
    assert_eq!(exact_active_binding(&records, player, "binding_required"), Ok(active));

    let none = JsonValue::Array(vec![binding(player, new_id(), "revoked")]);
    assert_eq!(
        exact_active_binding(&none, player, "binding_required"),
        Err(AppError::Conflict("binding_required".into()))
    );
    let two = JsonValue::Array(vec![
        binding(player, new_id(), "active"),
        binding(player, new_id(), "active"),
    ]);
    assert!(matches!(
        exact_active_binding(&two, player, "binding_required"),
        Err(AppError::Conflict(_))
    ));
    let foreign = JsonValue::Array(vec![binding(new_id(), new_id(), "active")]);
    assert_eq!(
        exact_active_binding(&foreign, player, "binding_required"),
        Err(AppError::Upstream)
    );
    let odd_status = JsonValue::Array(vec![binding(player, new_id(), "paused")]);
    assert_eq!(
        exact_active_binding(&odd_status, player, "binding_required"),
        Err(AppError::Upstream)
    );
    assert_eq!(
        exact_active_binding(&JsonValue::Null, player, "binding_required"),
        Err(AppError::Upstream)
    );
}

#[test]
fn digest_labels_are_lower_hex_sha256() {
    assert_eq!(
        digest_label(b"abc"),
        "sha256:ba7816bf8f01cfea414140de5dae2223b00361a396177a9cb410ff61f20015ad"
    );
}

#[test]
fn practice_errors_map_to_public_answers() {
    assert_eq!(map_practice_error(PracticeError::OwnerMismatch), AppError::Forbidden);
    assert_eq!(
        map_practice_error(PracticeError::StaleVersion),
        AppError::Conflict("practice_version_changed".into())
    );
    assert_eq!(
        map_practice_error(PracticeError::NotExpired),
        AppError::Conflict("practice_expired".into())
    );
    assert_eq!(
        map_practice_error(PracticeError::InvalidTransition),
        AppError::Conflict("practice_transition_rejected".into())
    );
    assert_eq!(map_practice_error(PracticeError::VersionExhausted), AppError::Internal);
}
