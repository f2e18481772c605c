use paper_raid_bff::error::AppError;
use paper_raid_bff::json::{JsonNumber, JsonValue};
use paper_raid_bff::quick_raid::{
    QuickRaidAuthorityV1, QuickRaidError, QuickRaidSessionV1, QuickRaidStageV1,
    QUICK_RAID_FIXED_SEED, QUICK_RAID_PACK_ID, QUICK_RAID_RULESET_VERSION,
};
use paper_raid_bff::quick_raid_http::{
    i64_to_u64, map_quick_error, select_quick_raid_authority, QuickRaidPlayerViewV1,
    QUICK_RAID_PLAYER_VIEW_V1,
};

const SECOND: i128 = 1_000_000_000;

fn text(s: &str) -> JsonValue {
    JsonValue::String(s.to_owned())
}

fn number(n: u64) -> JsonValue {
    JsonValue::Number(JsonNumber::Unsigned(n))
}

fn object(mut members: Vec<(&str, JsonValue)>) -> JsonValue {
    members.sort_by(|a, b| a.0.cmp(b.0));
    JsonValue::Object(members.into_iter().map(|(k, v)| (k.to_owned(), v)).collect())
}

fn challenge(duration_seconds: u64, description: &str) -> JsonValue {
    object(vec![
        ("challenge_id", text("11111111-1111-4111-8111-111111111111")),
        ("activation_id", text("22222222-2222-4222-8222-222222222222")),
        (
            "activation_request_sha256",
            text(&format!("sha256:{}", "a".repeat(64))),
        ),
        ("ruleset_hash", text(&format!("sha256:{}", "b".repeat(64)))),
        ("ruleset_enforcement", text("authoritative_v1")),
        ("status", text("open")),
        (
            "ruleset",
            object(vec![
                ("template", text("evidence-audit")),
                ("duration_seconds", number(duration_seconds)),
                (
                    "gameplay",
                    object(vec![(
                        "modifiers",
                        JsonValue::Array(vec![text("quick-raid-fixed-seed")]),
                    )]),
                ),
            ]),
        ),
        ("description", text(description)),
        ("ruleset_version", text(QUICK_RAID_RULESET_VERSION)),
    ])
}

fn pack_description() -> String {
    format!("Quick raid; pack_id={QUICK_RAID_PACK_ID}")
}

#[test]
fn catalog_selects_the_first_challenge_declaring_the_pack() {
    let catalog = JsonValue::Array(vec![
        challenge(900, "an unrelated challenge"),
        challenge(900, &pack_description()),
    ]);
    let authority = select_quick_raid_authority(&catalog).expect("pack challenge");
    assert_eq!(
        authority,
        QuickRaidAuthorityV1::from_catalog(&challenge(900, &pack_description())).unwrap()
    );
}

#[test]
fn catalog_without_the_pack_or_with_a_drifted_pack_is_refused() {
    let missing = JsonValue::Array(vec![challenge(900, "nothing here")]);
    assert_eq!(
        select_quick_raid_authority(&missing),
        Err(AppError::Conflict("quick_raid_pack_not_activated".into()))
    );
    let drifted = JsonValue::Array(vec![challenge(2700, &pack_description())]);
    assert_eq!(
        select_quick_raid_authority(&drifted),
        Err(AppError::Conflict("quick_raid_pack_unavailable".into()))
    );
    assert_eq!(select_quick_raid_authority(&JsonValue::Null), Err(AppError::Upstream));
}

#[test]
fn player_view_shows_the_fixed_seed_and_clock_expiry() {
    let now: i128 = 1_800_000_000 * SECOND;
    let authority =
        QuickRaidAuthorityV1::from_catalog(&challenge(900, &pack_description())).unwrap();
    let session = QuickRaidSessionV1::new(
        uuid::Uuid::new_v4().as_u128(),
        "quick-player".into(),
        uuid::Uuid::new_v4().as_u128(),
        uuid::Uuid::new_v4().as_u128(),
        authority,
        now,
    )
    .unwrap();
    let view = QuickRaidPlayerViewV1::from_session(&session, now);
    assert_eq!(view.schema, QUICK_RAID_PLAYER_VIEW_V1);
    assert_eq!(view.seed, QUICK_RAID_FIXED_SEED);
    assert_eq!(view.stage, QuickRaidStageV1::EvidenceReview);
    assert_eq!((view.step, view.total_steps), (1, 4));
    assert_eq!(view.remaining_seconds, 900);
    assert!(!view.expired && !view.terminal);
    assert!(view.paper_bundle.is_none());

    let late = QuickRaidPlayerViewV1::from_session(&session, session.expires_at);
    assert_eq!(late.stage, QuickRaidStageV1::Expired);
    assert!(late.expired && late.terminal);
    assert_eq!((late.step, late.remaining_seconds), (0, 0));
}

#[test]
fn quick_errors_map_to_public_answers() {
    assert_eq!(map_quick_error(QuickRaidError::OwnerMismatch), AppError::Forbidden);
    assert_eq!(
        map_quick_error(QuickRaidError::StaleVersion),
        AppError::Conflict("quick_raid_version_changed".into())
    );
    assert_eq!(
        map_quick_error(QuickRaidError::ChallengeUnavailable),
        AppError::Conflict("quick_raid_challenge_unavailable".into())
    );
    assert_eq!(map_quick_error(QuickRaidError::AuthorityEscape), AppError::Internal);
    assert_eq!(i64_to_u64(5), Ok(5));
    assert_eq!(i64_to_u64(-1), Err(AppError::Internal));
}
