use paper_raid_bff::json::{JsonNumber, JsonValue};
use paper_raid_bff::quick_raid::{
    QuickRaidActionRequestV1, QuickRaidAuthorityV1, QuickRaidBrowserActionV1,
    QuickRaidConclusionV1, QuickRaidError, QuickRaidEventKindV1, QuickRaidEvidenceChoiceV1,
    QuickRaidExperimentChoiceV1, QuickRaidSessionV1, QuickRaidStageV1, JSON_SAFE_U64_MAX,
    QUICK_RAID_ACTION_V1, QUICK_RAID_FIXED_SEED, QUICK_RAID_PACK_ID, QUICK_RAID_RULESET_VERSION,
};

const SECOND: i128 = 1_000_000_000;

fn text(s: &str) -> JsonValue {
    JsonValue::String(s.to_owned())
}

fn number(n: u64) -> JsonValue {
    JsonValue::Number(JsonNumber::Unsigned(n))
}

/// An object with its keys in sorted order, as a parsed document holds them.
fn object(mut members: Vec<(&str, JsonValue)>) -> JsonValue {
    members.sort_by(|a, b| a.0.cmp(b.0));
    JsonValue::Object(members.into_iter().map(|(k, v)| (k.to_owned(), v)).collect())
}

fn challenge(duration_seconds: u64, modifier: &str) -> JsonValue {
    object(vec![
        ("challenge_id", text("11111111-1111-4111-8111-111111111111")),
        ("activation_id", text("22222222-2222-4222-8222-222222222222")),
        (
            "activation_request_sha256",
            text(&format!("sha256:{}", "a".repeat(64))),
        ),
        ("ruleset_hash", text(&format!("sha256:{}", "b".repeat(64)))),
        ("ruleset_enforcement", text("authoritative_v1")),
        ("status", text("open")),
        (
            "ruleset",
            object(vec![
                ("template", text("evidence-audit")),
                ("duration_seconds", number(duration_seconds)),
                (
                    "gameplay",
                    object(vec![("modifiers", JsonValue::Array(vec![text(modifier)]))]),
                ),
            ]),
        ),
        ("description", text(&format!("pack_id={QUICK_RAID_PACK_ID}"))),
        ("ruleset_version", text(QUICK_RAID_RULESET_VERSION)),
    ])
}

fn authority() -> QuickRaidAuthorityV1 {
    QuickRaidAuthorityV1::from_catalog(&challenge(900, "quick-raid-fixed-seed")).unwrap()
}

fn new_id() -> u128 {
    uuid::Uuid::new_v4().as_u128()
}

fn now_nanos() -> i128 {
    chrono::Utc::now().timestamp_nanos_opt().expect("clock in range") as i128
}

#[test]
fn fixed_authority_rejects_wrong_duration_or_modifier() {
    assert_eq!(
        QuickRaidAuthorityV1::from_catalog(&challenge(2700, "quick-raid-fixed-seed")),
        Err(QuickRaidError::ChallengeUnavailable)
    );
    assert_eq!(
        QuickRaidAuthorityV1::from_catalog(&challenge(900, "other")),
        Err(QuickRaidError::ChallengeUnavailable)
    );
}

#[test]
fn fixed_seed_flow_emits_one_bundle_and_locks_authority() {
    let now = now_nanos();
    let session_id = new_id();
    let mut session = QuickRaidSessionV1::new(
        session_id,
        "quick-player".into(),
        new_id(),
        new_id(),
        authority(),
        now,
    )
    .unwrap();
    let owner = (
        session.subject_id.clone(),
        session.player_id,
        session.binding_id,
    );
    let action = |version, action| QuickRaidActionRequestV1 {
        schema: QUICK_RAID_ACTION_V1.into(),
        event_id: new_id(),
        session_id,
        subject_id: owner.0.clone(),
        player_id: owner.1,
        binding_id: owner.2,
        expected_version: version,
        request_hash: format!("sha256:{}", "c".repeat(64)),
        action,
    };
    session
        .apply_action(
            &action(
                1,
                QuickRaidBrowserActionV1::ReviewEvidence {
                    choice: QuickRaidEvidenceChoiceV1::FlagCitationGap,
                },
            ),
            now,
        )
        .unwrap();
    session
        .apply_action(
            &action(
                2,
                QuickRaidBrowserActionV1::RunExperiment {
                    choice: QuickRaidExperimentChoiceV1::RunCandidate,
                },
            ),
            now,
        )
        .unwrap();
    session
        .apply_action(
            &action(
                3,
                QuickRaidBrowserActionV1::PublishPaper {
                    conclusion: QuickRaidConclusionV1::RetainWithCaveat,
                },
            ),
            now,
        )
        .unwrap();
    let bundle = session.paper_bundle.as_ref().unwrap();
    assert_eq!(bundle.seed, QUICK_RAID_FIXED_SEED);
    assert_eq!(bundle.evidence_card.seed, QUICK_RAID_FIXED_SEED);
    assert_eq!(bundle.experiment_run.seed, QUICK_RAID_FIXED_SEED);
    assert!(!bundle.portable);
    assert_eq!(bundle.finality, "none");
    assert!(!session.eligibility.ranking_eligible);
    assert!(!session.eligibility.economic_eligible);
}

#[test]
fn stale_and_wrong_owner_actions_fail_closed() {
    let now = now_nanos();
    let mut session = QuickRaidSessionV1::new(
        new_id(),
        "quick-player".into(),
        new_id(),
        new_id(),
        authority(),
        now,
    )
    .unwrap();
    let request = QuickRaidActionRequestV1 {
        schema: QUICK_RAID_ACTION_V1.into(),
        event_id: new_id(),
        session_id: session.session_id,
        subject_id: "other".into(),
        player_id: session.player_id,
        binding_id: session.binding_id,
        expected_version: 1,
        request_hash: format!("sha256:{}", "d".repeat(64)),
        action: QuickRaidBrowserActionV1::ReviewEvidence {
            choice: QuickRaidEvidenceChoiceV1::FlagCitationGap,
        },
    };
    assert_eq!(
        session.apply_action(&request, now),
        Err(QuickRaidError::OwnerMismatch)
    );
}

fn fresh(now: i128) -> QuickRaidSessionV1 {
    QuickRaidSessionV1::new(
        new_id(),
        "quick-player".into(),
        new_id(),
        new_id(),
        authority(),
        now,
    )
    .unwrap()
}

fn request_for(session: &QuickRaidSessionV1, action: QuickRaidBrowserActionV1) -> QuickRaidActionRequestV1 {
    QuickRaidActionRequestV1 {
        schema: QUICK_RAID_ACTION_V1.into(),
        event_id: new_id(),
        session_id: session.session_id,
        subject_id: session.subject_id.clone(),
        player_id: session.player_id,
        binding_id: session.binding_id,
        expected_version: session.version,
        request_hash: format!("sha256:{}", "e".repeat(64)),
        action,
    }
}

#[test]
fn authority_projection_binds_the_catalog_challenge() {
    let a = authority();
    assert_eq!(a.challenge_id, 0x11111111_1111_4111_8111_111111111111u128);
    assert_eq!(a.ruleset_hash, format!("sha256:{}", "b".repeat(64)));
    assert!(a.challenge_snapshot_hash.starts_with("sha256:"));
    assert_eq!(a.challenge_snapshot_hash.len(), 71);
    assert_eq!(a.authority_hash.len(), 71);
    assert!(a.validate().is_ok());
    let mut forged = authority();
    forged.ruleset_hash = format!("sha256:{}", "c".repeat(64));
    assert!(forged.validate().is_err());
}

#[test]
fn experiment_run_is_the_fixed_seed_run_and_its_hash_is_reported() {
    let now = now_nanos();
    let mut session = fresh(now);
    let first = request_for(
        &session,
        QuickRaidBrowserActionV1::ReviewEvidence {
            choice: QuickRaidEvidenceChoiceV1::AcceptAsSufficient,
        },
    );
    let event = session.apply_action(&first, now).unwrap();
    assert_eq!(event.event_kind, QuickRaidEventKindV1::EvidenceReviewed);
    assert_eq!(event.choice_code.as_deref(), Some("accept_as_sufficient"));
    assert_eq!((event.from_version, event.to_version), (1, 2));
    let run = request_for(
        &session,
        QuickRaidBrowserActionV1::RunExperiment {
            choice: QuickRaidExperimentChoiceV1::RecheckBaseline,
        },
    );
    let event = session.apply_action(&run, now + SECOND).unwrap();
    let recorded = session.experiment_run.as_ref().unwrap();
    assert_eq!(event.result_hash.as_deref(), Some(recorded.run_hash.as_str()));
    assert_eq!(recorded.result, "baseline_reproduced");
    assert_eq!(recorded.metrics.len(), 1);
    assert_eq!(recorded.metrics[0].baseline_bps, 7400);
    assert_eq!(recorded.metrics[0].candidate_bps, 7400);
    assert_ne!(recorded.run_id, 0);
    assert_eq!(session.stage, QuickRaidStageV1::PaperBundleReady);
    assert!(session.validate().is_ok());
}

#[test]
fn skipped_stage_abandon_and_expiry_fail_closed() {
    let now = now_nanos();
    let mut session = fresh(now);
    let before = session.clone();
    let skip = request_for(
        &session,
        QuickRaidBrowserActionV1::PublishPaper {
            conclusion: QuickRaidConclusionV1::ReviseClaim,
        },
    );
    assert_eq!(
        session.apply_action(&skip, now),
        Err(QuickRaidError::InvalidTransition)
    );
    assert_eq!(session, before);
    let mut stale = request_for(&session, QuickRaidBrowserActionV1::Abandon);
    stale.expected_version = 2;
    assert_eq!(
        session.apply_action(&stale, now),
        Err(QuickRaidError::StaleVersion)
    );
    let abandon = request_for(&session, QuickRaidBrowserActionV1::Abandon);
    session.apply_action(&abandon, now + SECOND).unwrap();
    assert_eq!(session.stage, QuickRaidStageV1::Abandoned);
    assert_eq!(session.terminal_at, Some(now + SECOND));
    let again = request_for(&session, QuickRaidBrowserActionV1::Abandon);
    assert_eq!(
        session.apply_action(&again, now + 2 * SECOND),
        Err(QuickRaidError::Terminal)
    );
    let hash = format!("sha256:{}", "f".repeat(64));
    assert_eq!(
        session.expire(new_id(), hash.clone(), session.expires_at),
        Err(QuickRaidError::Terminal)
    );

    let mut open = fresh(now);
    assert_eq!(
        open.expire(new_id(), hash.clone(), open.expires_at - 1),
        Err(QuickRaidError::NotExpired)
    );
    assert_eq!(
        open.expire(new_id(), "sha256:bad".into(), open.expires_at),
        Err(QuickRaidError::InvalidContract("request hash"))
    );
    let late = request_for(&open, QuickRaidBrowserActionV1::Abandon);
    assert_eq!(
        open.apply_action(&late, open.expires_at),
        Err(QuickRaidError::Expired)
    );
    let expiry = open.expires_at;
    let event = open.expire(new_id(), hash, expiry).unwrap();
    assert_eq!(event.event_kind, QuickRaidEventKindV1::Expired);
    assert_eq!((event.from_version, event.to_version), (1, 2));
    assert_eq!(open.stage, QuickRaidStageV1::Expired);
    assert_eq!(open.updated_at, expiry);
    assert!(open.validate().is_ok());
}

#[test]
fn exhausted_version_is_refused() {
    let now = now_nanos();
    let mut session = fresh(now);
    session.version = JSON_SAFE_U64_MAX;
    let request = request_for(&session, QuickRaidBrowserActionV1::Abandon);
    let before = session.clone();
    assert_eq!(
        session.apply_action(&request, now),
        Err(QuickRaidError::VersionExhausted)
    );
    assert_eq!(session, before);
}

#[test]
fn new_session_rejects_nil_ids_and_bad_subjects() {
    let now = now_nanos();
    assert_eq!(
        QuickRaidSessionV1::new(0, "p".into(), new_id(), new_id(), authority(), now),
        Err(QuickRaidError::InvalidContract("nil UUID"))
    );
    assert_eq!(
        QuickRaidSessionV1::new(new_id(), "p ".into(), new_id(), new_id(), authority(), now),
        Err(QuickRaidError::InvalidContract("subject id"))
    );
    assert_eq!(
        QuickRaidSessionV1::new(new_id(), "x".repeat(257), new_id(), new_id(), authority(), now),
        Err(QuickRaidError::InvalidContract("subject id"))
    );
    let session = fresh(now);
    assert_eq!(session.expires_at - session.created_at, 900 * SECOND);
}

#[test]
fn exhausted_version_leaves_expiring_session_unchanged() {
    let now: i128 = 1_800_000_000 * SECOND;
    let mut open = fresh(now);
    open.version = JSON_SAFE_U64_MAX;
    let before = open.clone();
    let hash = format!("sha256:{}", "f".repeat(64));
    let expiry = open.expires_at;
    assert_eq!(
        open.expire(new_id(), hash, expiry),
        Err(QuickRaidError::VersionExhausted)
    );
    assert_eq!(open, before);
    assert_ne!(open.stage, QuickRaidStageV1::Expired);
}
