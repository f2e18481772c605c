use paper_raid_bff::practice::{
    CaptainAarChoiceV1, CaptainPlanChoiceV1, EvidenceAssessmentChoiceV1,
    ExperimentInterpretationChoiceV1, PracticeActorKindV1, PracticeBridgeClaimRequestV1,
    PracticeBridgeResultRequestV1, PracticeBridgeTaskStateV1, PracticeBrowserActionRequestV1,
    PracticeBrowserActionV1, PracticeEligibilityV1, PracticeError, PracticeEventKindV1,
    PracticeEventV1, PracticeExperimentResultV1, PracticeSessionV1, PracticeStageV1,
    PracticeTerminalReasonV1, JSON_SAFE_U64_MAX, PRACTICE_BRIDGE_CLAIM_V1,
    PRACTICE_BRIDGE_RESULT_V1, PRACTICE_BROWSER_ACTION_V1,
};
use sha2::{Digest, Sha256};

const SECOND: i128 = 1_000_000_000;
const MINUTE: i128 = 60 * SECOND;

fn digest(value: &str) -> String {
    format!("sha256:{:x}", Sha256::digest(value.as_bytes()))
}

fn new_id() -> u128 {
    uuid::Uuid::new_v4().as_u128()
}

fn now_nanos() -> i128 {
    chrono::Utc::now().timestamp_nanos_opt().expect("clock in range") as i128
}

fn fixture() -> PracticeSessionV1 {
    let created_at = now_nanos();
    PracticeSessionV1::new(
        new_id(),
        "practice-player".to_owned(),
        new_id(),
        new_id(),
        new_id(),
        created_at,
        created_at + 20 * MINUTE,
    )
    .expect("valid fixture")
}

fn browser_request(
    session: &PracticeSessionV1,
    action: PracticeBrowserActionV1,
) -> PracticeBrowserActionRequestV1 {
    PracticeBrowserActionRequestV1 {
        schema: PRACTICE_BROWSER_ACTION_V1.to_owned(),
        event_id: new_id(),
        practice_session_id: session.practice_session_id,
        subject_id: session.subject_id.clone(),
        player_id: session.player_id,
        binding_id: session.binding_id,
        expected_version: session.version,
        request_hash: digest(&uuid::Uuid::new_v4().to_string()),
        action,
    }
}

fn claim_for(session: &PracticeSessionV1, hash: &str) -> PracticeBridgeClaimRequestV1 {
    PracticeBridgeClaimRequestV1 {
        schema: PRACTICE_BRIDGE_CLAIM_V1.to_owned(),
        event_id: new_id(),
        practice_session_id: session.practice_session_id,
        subject_id: session.subject_id.clone(),
        player_id: session.player_id,
        binding_id: session.binding_id,
        bridge_task_id: session.bridge_task_id,
        expected_version: session.version,
        request_hash: digest(hash),
    }
}

#[test]
fn exact_practice_sequence_completes_without_authority() {
    let mut session = fixture();
    let mut now = session.created_at + SECOND;
    let event = session
        .apply_browser_action(
            &browser_request(
                &session,
                PracticeBrowserActionV1::CaptainPlan {
                    choice: CaptainPlanChoiceV1::AuditHighestRiskClaim,
                },
            ),
            now,
        )
        .expect("captain plan");
    assert_eq!(event.from_version, 1);
    assert_eq!(session.stage, PracticeStageV1::EvidenceAssessment);

    now += SECOND;
    session
        .apply_browser_action(
            &browser_request(
                &session,
                PracticeBrowserActionV1::EvidenceAssessment {
                    choice: EvidenceAssessmentChoiceV1::UnsupportedClaim,
                },
            ),
            now,
        )
        .expect("evidence assessment");

    now += SECOND;
    let claim = claim_for(&session, "claim");
    session
        .claim_bridge_task(&claim, now)
        .expect("claim exact practice task");

    now += SECOND;
    let result = PracticeBridgeResultRequestV1 {
        schema: PRACTICE_BRIDGE_RESULT_V1.to_owned(),
        event_id: new_id(),
        practice_session_id: session.practice_session_id,
        subject_id: session.subject_id.clone(),
        player_id: session.player_id,
        binding_id: session.binding_id,
        bridge_task_id: session.bridge_task_id,
        expected_version: session.version,
        request_hash: digest("result-request"),
        result_code: PracticeExperimentResultV1::ConcernConfirmed,
        result_hash: digest("bounded-practice-result"),
    };
    session
        .apply_bridge_result(&result, now)
        .expect("accept exact practice result");

    now += SECOND;
    session
        .apply_browser_action(
            &browser_request(
                &session,
                PracticeBrowserActionV1::ExperimentInterpretation {
                    choice: ExperimentInterpretationChoiceV1::ReviseClaim,
                },
            ),
            now,
        )
        .expect("interpret result");

    now += SECOND;
    session
        .apply_browser_action(
            &browser_request(
                &session,
                PracticeBrowserActionV1::CaptainAar {
                    choice: CaptainAarChoiceV1::ImproveEvidenceTriage,
                },
            ),
            now,
        )
        .expect("complete AAR");
    assert_eq!(session.stage, PracticeStageV1::Completed);
    assert_eq!(session.terminal_at, Some(now));
    assert_eq!(session.eligibility, PracticeEligibilityV1::locked());
    session.validate().expect("completed contract");
}

#[test]
fn stale_skip_cross_owner_and_cross_task_are_rejected_without_mutation() {
    let mut session = fixture();
    let initial = session.clone();
    let mut stale = browser_request(
        &session,
        PracticeBrowserActionV1::CaptainPlan {
            choice: CaptainPlanChoiceV1::AuditHighestRiskClaim,
        },
    );
    stale.expected_version += 1;
    let at = session.created_at + SECOND;
    assert_eq!(
        session.apply_browser_action(&stale, at),
        Err(PracticeError::StaleVersion)
    );
    assert_eq!(session, initial);

    let skip = browser_request(
        &session,
        PracticeBrowserActionV1::CaptainAar {
            choice: CaptainAarChoiceV1::ImproveTeamCoordination,
        },
    );
    assert_eq!(
        session.apply_browser_action(&skip, at),
        Err(PracticeError::InvalidTransition)
    );
    assert_eq!(session, initial);

    let mut wrong_owner = browser_request(
        &session,
        PracticeBrowserActionV1::CaptainPlan {
            choice: CaptainPlanChoiceV1::AuditEvidenceChainFirst,
        },
    );
    wrong_owner.player_id = new_id();
    assert_eq!(
        session.apply_browser_action(&wrong_owner, at),
        Err(PracticeError::OwnerMismatch)
    );

    let mut claim_session = fixture();
    claim_session.stage = PracticeStageV1::ExperimentWaitingBridge;
    claim_session.captain_plan = Some(CaptainPlanChoiceV1::AuditHighestRiskClaim);
    claim_session.evidence_assessment = Some(EvidenceAssessmentChoiceV1::UnsupportedClaim);
    claim_session.validate().expect("waiting fixture");
    let mut claim = claim_for(&claim_session, "wrong-task");
    claim.bridge_task_id = new_id();
    let claim_at = claim_session.created_at + SECOND;
    assert_eq!(
        claim_session.claim_bridge_task(&claim, claim_at),
        Err(PracticeError::TaskMismatch)
    );
}

#[test]
fn every_authority_and_portability_escape_is_rejected() {
    let escapes: [fn(&mut PracticeEligibilityV1); 8] = [
        |e| e.activation_eligible = true,
        |e| e.qualification_eligible = true,
        |e| e.scientific_finality_eligible = true,
        |e| e.ranking_eligible = true,
        |e| e.reward_eligible = true,
        |e| e.score_eligible = true,
        |e| e.economic_eligible = true,
        |e| e.completion_portable = true,
    ];
    for escape in escapes {
        let mut escaped = PracticeEligibilityV1::locked();
        escape(&mut escaped);
        assert_eq!(escaped.validate(), Err(PracticeError::AuthorityEscape));
    }
}

#[test]
fn terminal_expiry_and_abandonment_are_fail_closed() {
    let mut abandoned = fixture();
    let abandon = browser_request(&abandoned, PracticeBrowserActionV1::Abandon);
    let now = abandoned.created_at + SECOND;
    abandoned
        .apply_browser_action(&abandon, now)
        .expect("abandon practice");
    let replay = browser_request(&abandoned, PracticeBrowserActionV1::Abandon);
    assert_eq!(
        abandoned.apply_browser_action(&replay, now + SECOND),
        Err(PracticeError::Terminal)
    );

    let mut expired = fixture();
    let before_expiry = expired.expires_at - SECOND;
    assert_eq!(
        expired.expire(new_id(), digest("early"), before_expiry),
        Err(PracticeError::NotExpired)
    );
    let expiry = expired.expires_at;
    expired
        .expire(new_id(), digest("expiry"), expiry)
        .expect("expire at boundary");
    assert_eq!(expired.stage, PracticeStageV1::Expired);
    assert_eq!(expired.terminal_at, Some(expiry));

    let mut forged_terminal = fixture();
    forged_terminal.stage = PracticeStageV1::Abandoned;
    forged_terminal.bridge_task_state = PracticeBridgeTaskStateV1::Completed;
    forged_terminal.bridge_result_code = Some(PracticeExperimentResultV1::ConcernConfirmed);
    forged_terminal.bridge_result_hash = Some(digest("forged terminal result"));
    forged_terminal.updated_at += SECOND;
    forged_terminal.terminal_at = Some(forged_terminal.updated_at);
    forged_terminal.terminal_reason = Some(PracticeTerminalReasonV1::PlayerAbandoned);
    assert!(forged_terminal.validate().is_err());

    let mut exhausted = fixture();
    exhausted.version = JSON_SAFE_U64_MAX;
    let before = exhausted.clone();
    let request = browser_request(
        &exhausted,
        PracticeBrowserActionV1::CaptainPlan {
            choice: CaptainPlanChoiceV1::AuditHighestRiskClaim,
        },
    );
    let at = exhausted.created_at + SECOND;
    assert_eq!(
        exhausted.apply_browser_action(&request, at),
        Err(PracticeError::VersionExhausted)
    );
    assert_eq!(exhausted, before);
    assert!(PracticeEventV1::new(
        new_id(),
        exhausted.practice_session_id,
        PracticeActorKindV1::Browser,
        PracticeEventKindV1::Abandoned,
        JSON_SAFE_U64_MAX,
        JSON_SAFE_U64_MAX,
        digest("overflow"),
        None,
        None,
        exhausted.created_at,
    )
    .is_err());
}

#[test]
fn terminal_practice_refuses_claims_results_and_expiry() {
    let mut session = fixture();
    let now = session.created_at + SECOND;
    let abandon = browser_request(&session, PracticeBrowserActionV1::Abandon);
    let event = session.apply_browser_action(&abandon, now).expect("abandon");
    assert_eq!(event.to_version, 2);
    assert_eq!(event.event_kind, PracticeEventKindV1::Abandoned);
    assert_eq!(event.choice_code, None);
    let frozen = session.clone();
    let claim = claim_for(&session, "late claim");
    assert_eq!(
        session.claim_bridge_task(&claim, now + SECOND),
        Err(PracticeError::Terminal)
    );
    assert_eq!(
        session.expire(new_id(), digest("late expiry"), session.expires_at),
        Err(PracticeError::Terminal)
    );
    assert_eq!(session, frozen);
}

#[test]
fn new_session_rejects_nil_ids_and_overlong_duration() {
    let now = now_nanos();
    assert_eq!(
        PracticeSessionV1::new(0, "p".into(), new_id(), new_id(), new_id(), now, now + MINUTE),
        Err(PracticeError::InvalidContract("practice session id"))
    );
    assert_eq!(
        PracticeSessionV1::new(
            new_id(),
            "p".into(),
            new_id(),
            new_id(),
            new_id(),
            now,
            now + 46 * MINUTE
        ),
        Err(PracticeError::InvalidContract("practice timestamps"))
    );
    assert_eq!(
        PracticeSessionV1::new(new_id(), " p".into(), new_id(), new_id(), new_id(), now, now + MINUTE),
        Err(PracticeError::InvalidContract("subject id"))
    );
    let session = PracticeSessionV1::new(
        new_id(),
        "p".into(),
        new_id(),
        new_id(),
        new_id(),
        now,
        now + 45 * MINUTE,
    )
    .expect("longest session");
    assert_eq!(session.version, 1);
    assert_eq!(session.stage, PracticeStageV1::CaptainPlan);
    assert!(!session.stage.is_terminal());
}

#[test]
fn result_before_claim_and_expired_actions_are_refused() {
    let mut session = fixture();
    let mut now = session.created_at + SECOND;
    for action in [
        PracticeBrowserActionV1::CaptainPlan {
            choice: CaptainPlanChoiceV1::AuditHighestRiskClaim,
        },
        PracticeBrowserActionV1::EvidenceAssessment {
            choice: EvidenceAssessmentChoiceV1::EvidenceSufficient,
        },
    ] {
        session
            .apply_browser_action(&browser_request(&session, action), now)
            .expect("answer");
        now += SECOND;
    }
    let result = PracticeBridgeResultRequestV1 {
        schema: PRACTICE_BRIDGE_RESULT_V1.to_owned(),
        event_id: new_id(),
        practice_session_id: session.practice_session_id,
        subject_id: session.subject_id.clone(),
        player_id: session.player_id,
        binding_id: session.binding_id,
        bridge_task_id: session.bridge_task_id,
        expected_version: session.version,
        request_hash: digest("early result"),
        result_code: PracticeExperimentResultV1::ConcernNotDetected,
        result_hash: digest("result"),
    };
    assert_eq!(
        session.apply_bridge_result(&result, now),
        Err(PracticeError::InvalidTransition)
    );
    let late = claim_for(&session, "late");
    assert_eq!(
        session.claim_bridge_task(&late, session.expires_at),
        Err(PracticeError::Expired)
    );
    let mut other_session = claim_for(&session, "other");
    other_session.practice_session_id = new_id();
    assert_eq!(
        session.claim_bridge_task(&other_session, now),
        Err(PracticeError::SessionMismatch)
    );
}
