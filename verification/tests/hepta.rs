use paper_raid_bff::error::AppError;
use paper_raid_bff::hepta::{
    canonical_path_ok, join_exact, matchmaking_party_payload_is_safe, require_room_paper_id,
    required_string, required_u64, required_uuid, strict_json, validate_frame_https_uri,
    validate_logical_id, BrowserCommand, CommandName, EvaluationHardGatesInput,
    EvaluationScoreComponentsInput, HeptaPaperTerminalOutcome, HeptaPaperTerminalReason,
    UpstreamResponse,
};
use paper_raid_bff::json::{JsonNumber, JsonValue};

fn new_id() -> u128 {
    uuid::Uuid::new_v4().as_u128()
}

fn id_text(id: u128) -> String {
    uuid::Uuid::from_u128(id).to_string()
}

fn text(value: &str) -> JsonValue {
    JsonValue::String(value.to_string())
}

fn object(members: Vec<(&str, JsonValue)>) -> JsonValue {
    JsonValue::Object(
        members
            .into_iter()
            .map(|(key, value)| (key.to_string(), value))
            .collect(),
    )
}

fn command(
    name: CommandName,
    resource_id: Option<u128>,
    child_id: Option<u128>,
    session_id: Option<&str>,
) -> BrowserCommand {
    BrowserCommand {
        command: name,
        resource_id,
        child_id,
        session_id: session_id.map(str::to_string),
        idempotency_key: new_id(),
        payload: object(vec![]),
    }
}

#[test]
fn whitelist_builds_exact_p1_route() {
    let paper_id = new_id();
    let command = BrowserCommand {
        command: CommandName::CreatePaperRevision,
        resource_id: Some(paper_id),
        child_id: None,
        session_id: None,
        idempotency_key: new_id(),
        payload: object(vec![("human_signature", text("browser-owned"))]),
    };
    let route = command.route().expect("route");
    assert_eq!(
        route.path,
        format!("/v2/hepta/papers/{}/revisions", id_text(paper_id))
    );
    assert_eq!(route.operation, "create_paper_revision_v2");
}

#[test]
fn p5_child_routes_fail_closed_without_exact_child() {
    let missing_child = BrowserCommand {
        command: CommandName::SubmitReproduction,
        resource_id: Some(new_id()),
        child_id: None,
        session_id: None,
        idempotency_key: new_id(),
        payload: JsonValue::Null,
    };
    assert!(matches!(missing_child.route(), Err(AppError::Invalid(_))));

    for name in [
        CommandName::SubmitEvaluationDraftAttestation,
        CommandName::FinalizePaperEvaluationDraft,
        CommandName::SubmitReproduction,
    ] {
        assert!(command(name, Some(new_id()), None, None).route().is_err());
        assert!(command(
            name,
            Some(new_id()),
            Some(new_id()),
            Some("forbidden.session")
        )
        .route()
        .is_err());
    }
    assert!(command(
        CommandName::CreatePaperEvaluationDraft,
        Some(new_id()),
        Some(new_id()),
        None,
    )
    .route()
    .is_err());
}

#[test]
fn join_rejects_path_confusion() {
    let base = "http://127.0.0.1:9000";
    assert!(join_exact(base, "/v2/hepta/papers/../admin").is_err());
    assert_eq!(
        join_exact(base, "/v2/hepta/papers").expect("joined"),
        "http://127.0.0.1:9000/v2/hepta/papers"
    );
}

#[test]
fn exact_paths_match_committed_openapi() {
    let team = new_id();
    let paper = new_id();
    let work_item = new_id();
    let revision = new_id();
    let binding = new_id();
    let (team_t, paper_t, work_t, rev_t, binding_t) = (
        id_text(team),
        id_text(paper),
        id_text(work_item),
        id_text(revision),
        id_text(binding),
    );
    let cases: Vec<(BrowserCommand, String, &str)> = vec![
        (
            command(CommandName::CreateAgentBinding, None, None, None),
            "/v2/hepta/agent-bindings".into(),
            "create_agent_binding_v2",
        ),
        (
            command(CommandName::RotateAgentBindingKey, Some(binding), None, None),
            format!("/v2/hepta/agent-bindings/{binding_t}/rotate-key"),
            "rotate_agent_binding_key_v2",
        ),
        (
            command(CommandName::AcceptResearchTeamMembership, Some(team), None, None),
            format!("/v2/hepta/teams/{team_t}/member-acceptances"),
            "accept_research_team_membership_v2",
        ),
        (
            command(CommandName::TransitionPaperChallengeOutcome, Some(paper), None, None),
            format!("/v2/hepta/papers/{paper_t}/outcome"),
            "transition_paper_challenge_outcome_v1",
        ),
        (
            command(CommandName::TransitionPaperWorkItem, Some(work_item), None, None),
            format!("/v2/hepta/work-items/{work_t}/transition"),
            "transition_paper_work_item_v2",
        ),
        (
            command(
                CommandName::PromotePaperReleaseCandidate,
                Some(paper),
                Some(revision),
                None,
            ),
            format!("/v2/hepta/papers/{paper_t}/revisions/{rev_t}/promote"),
            "promote_paper_release_candidate_v2",
        ),
        (
            command(CommandName::IssueResearchSessionAuthorizationSet, None, None, None),
            "/v2/hepta/research-session-authorizations".into(),
            "issue_research_session_authorization_set_v1",
        ),
        (
            command(
                CommandName::ReplaceResearchSessionAuthorizationSet,
                None,
                None,
                Some("paper.raid:alpha"),
            ),
            "/v2/hepta/research-session-authorizations/paper.raid:alpha/replace".into(),
            "replace_research_session_authorization_set_v1",
        ),
        (
            command(CommandName::CreateNakamaResearchSessionControl, None, None, None),
            "/v2/hepta/nakama/research-session-controls/create".into(),
            "create_nakama_research_session_control_v2",
        ),
        (
            command(CommandName::ResumeNakamaResearchSessionControl, None, None, None),
            "/v2/hepta/nakama/research-session-controls/resume".into(),
            "resume_nakama_research_session_control_v2",
        ),
        (
            command(
                CommandName::ReplaceNakamaResearchSessionRosterControl,
                None,
                None,
                None,
            ),
            "/v2/hepta/nakama/research-session-controls/replace-roster".into(),
            "replace_nakama_research_session_roster_control_v2",
        ),
        (
            command(CommandName::CompleteNakamaResearchSessionControl, None, None, None),
            "/v2/hepta/nakama/research-session-controls/complete".into(),
            "complete_nakama_research_session_control_v2",
        ),
        (
            command(CommandName::QueueMatchmaking, None, None, None),
            "/v2/hepta/matchmaking/tickets".into(),
            "create_matchmaking_ticket_v3",
        ),
        (
            command(CommandName::CancelMatchmakingTicket, Some(team), None, None),
            format!("/v2/hepta/matchmaking/tickets/{team_t}/cancel"),
            "cancel_matchmaking_ticket_v3",
        ),
        (
            command(CommandName::DecideTeamProposal, Some(team), None, None),
            format!("/v2/hepta/team-proposals/{team_t}/decisions"),
            "create_team_proposal_decision_v3",
        ),
        (
            command(CommandName::MaterializeTeamProposal, Some(team), None, None),
            format!("/v2/hepta/team-proposals/{team_t}/materialize"),
            "materialize_team_proposal_v1",
        ),
        (
            command(CommandName::RegisterArtifact, Some(paper), None, None),
            format!("/v2/hepta/papers/{paper_t}/artifact-manifests"),
            "create_artifact_manifest_v3",
        ),
        (
            command(CommandName::SubmitReview, Some(paper), Some(revision), None),
            format!("/v2/hepta/papers/{paper_t}/section-revisions/{rev_t}/reviews"),
            "create_section_review_v3",
        ),
        (
            command(CommandName::MergeSection, Some(paper), None, None),
            format!("/v2/hepta/papers/{paper_t}/section-merges"),
            "create_section_merge_v3",
        ),
        (
            command(CommandName::CreateContributionLedger, Some(paper), None, None),
            format!("/v2/hepta/papers/{paper_t}/contribution-ledgers"),
            "create_contribution_ledger_v1",
        ),
        (
            command(CommandName::ClaimReviewAssignment, Some(paper), None, None),
            format!("/v2/hepta/papers/{paper_t}/review-assignments"),
            "claim_paper_review_assignment_v1",
        ),
        (
            command(CommandName::CreatePaperEvaluation, Some(paper), None, None),
            format!("/v2/hepta/papers/{paper_t}/evaluations"),
            "create_paper_evaluation_v1",
        ),
        (
            command(CommandName::CreatePaperEvaluationDraft, Some(paper), None, None),
            format!("/v2/hepta/papers/{paper_t}/evaluation-drafts"),
            "create_paper_evaluation_draft_v1",
        ),
        (
            command(
                CommandName::SubmitEvaluationDraftAttestation,
                Some(paper),
                Some(revision),
                None,
            ),
            format!("/v2/hepta/papers/{paper_t}/evaluation-drafts/{rev_t}/attestations"),
            "submit_paper_evaluation_draft_attestation_v1",
        ),
        (
            command(
                CommandName::FinalizePaperEvaluationDraft,
                Some(paper),
                Some(revision),
                None,
            ),
            format!("/v2/hepta/papers/{paper_t}/evaluation-drafts/{rev_t}/finalize"),
            "finalize_paper_evaluation_draft_v1",
        ),
        (
            command(CommandName::SubmitReproduction, Some(paper), Some(revision), None),
            format!("/v2/hepta/papers/{paper_t}/evaluations/{rev_t}/reproductions"),
            "create_paper_reproduction_v1",
        ),
        (
            command(CommandName::StartPaperRework, Some(paper), None, None),
            format!("/v2/hepta/papers/{paper_t}/reworks"),
            "start_paper_rework_v1",
        ),
        (
            command(CommandName::SubmitAppeal, Some(paper), Some(revision), None),
            format!("/v2/hepta/papers/{paper_t}/evaluations/{rev_t}/appeals"),
            "create_paper_appeal_v1",
        ),
        (
            command(CommandName::ResolveAppeal, Some(paper), Some(revision), None),
            format!("/v2/hepta/papers/{paper_t}/appeals/{rev_t}/resolve"),
            "resolve_paper_appeal_v1",
        ),
    ];
    for (command, expected_path, expected_operation) in cases {
        let route = command.route().expect("exact route");
        assert_eq!(route.method, "POST");
        assert_eq!(route.path, expected_path);
        assert_eq!(route.operation, expected_operation);
    }
}

#[test]
fn nakama_control_routes_reject_all_unused_envelope_locators() {
    for name in [
        CommandName::CreateNakamaResearchSessionControl,
        CommandName::ResumeNakamaResearchSessionControl,
        CommandName::ReplaceNakamaResearchSessionRosterControl,
        CommandName::CompleteNakamaResearchSessionControl,
    ] {
        assert!(command(name, Some(new_id()), None, None).route().is_err());
        assert!(command(name, None, Some(new_id()), None).route().is_err());
        assert!(command(name, None, None, Some("paper.raid:alpha"))
            .route()
            .is_err());
    }
}

#[test]
fn payload_idempotency_is_injected_or_must_match() {
    let request = command(CommandName::CreateResearchTeam, None, None, None);
    let expected = id_text(request.idempotency_key);
    let payload = request.canonical_payload().expect("injected payload");
    assert_eq!(
        payload.get("idempotency_key").and_then(|v| v.as_str()),
        Some(expected.as_str())
    );
    let mut bad = command(CommandName::CreateResearchTeam, None, None, None);
    bad.payload = object(vec![("idempotency_key", text(&id_text(new_id())))]);
    assert!(matches!(bad.canonical_payload(), Err(AppError::Conflict(_))));
}

#[test]
fn missing_idempotency_key_is_inserted_in_key_order() {
    let mut request = command(CommandName::CreateResearchTeam, None, None, None);
    let key = id_text(request.idempotency_key);
    request.payload = object(vec![
        ("alpha", JsonValue::Number(JsonNumber::Unsigned(3))),
        ("zeta", JsonValue::Bool(true)),
    ]);
    let payload = request.canonical_payload().expect("inserted key");
    match &payload {
        JsonValue::Object(members) => {
            let keys: Vec<&str> = members.iter().map(|(k, _)| k.as_str()).collect();
            assert_eq!(keys, vec!["alpha", "idempotency_key", "zeta"]);
        }
        _ => panic!("payload must stay an object"),
    }
    assert_eq!(
        payload.get("idempotency_key").and_then(|v| v.as_str()),
        Some(key.as_str())
    );

    let mut matching = command(CommandName::CreateResearchTeam, None, None, None);
    let key = id_text(matching.idempotency_key);
    matching.payload = object(vec![("idempotency_key", text(&key)), ("name", text("team"))]);
    let kept = matching.canonical_payload().expect("matching key");
    match kept {
        JsonValue::Object(members) => assert_eq!(members.len(), 2),
        _ => panic!("payload must stay an object"),
    }
    let mut not_object = command(CommandName::CreateResearchTeam, None, None, None);
    not_object.payload = JsonValue::Null;
    assert!(matches!(not_object.canonical_payload(), Err(AppError::Invalid(_))));
}

#[test]
fn matchmaking_party_payload_accepts_only_the_canonical_digest_field() {
    let digest = format!("sha256:{}", "a".repeat(64));
    let roles = || JsonValue::Array(vec![text("captain")]);
    assert!(matchmaking_party_payload_is_safe(&object(vec![
        ("roles", roles()),
        ("party_code_hash", text(&digest)),
    ])));
    assert!(matchmaking_party_payload_is_safe(&object(vec![("roles", roles())])));
    for unsafe_payload in [
        object(vec![("roles", roles()), ("party_code", text("PR1-raw"))]),
        object(vec![("roles", roles()), ("raw_party_code", text("PR1-raw"))]),
        object(vec![
            ("roles", roles()),
            ("party_code_hash", text(&format!("sha256:{}", "A".repeat(64)))),
        ]),
        object(vec![("roles", roles()), ("party_code_hash", text("not-a-digest"))]),
        object(vec![("roles", roles()), ("party_code_hash", JsonValue::Null)]),
    ] {
        assert!(!matchmaking_party_payload_is_safe(&unsafe_payload));
    }
}

#[test]
fn logical_ids_are_bounded_and_plain() {
    assert!(validate_logical_id("paper.raid:alpha-1_b").is_ok());
    assert!(matches!(validate_logical_id(""), Err(AppError::Invalid(_))));
    assert!(validate_logical_id("paper raid").is_err());
    assert!(validate_logical_id("paper/raid").is_err());
    assert!(validate_logical_id(&"a".repeat(128)).is_ok());
    assert!(validate_logical_id(&"a".repeat(129)).is_err());
}

#[test]
fn replace_session_route_requires_a_valid_session() {
    assert!(matches!(
        command(CommandName::ReplaceResearchSessionAuthorizationSet, None, None, None).route(),
        Err(AppError::Invalid(_))
    ));
    assert!(command(
        CommandName::ReplaceResearchSessionAuthorizationSet,
        None,
        None,
        Some("bad session")
    )
    .route()
    .is_err());
}

#[test]
fn canonical_paths_and_joins_refuse_confusion() {
    assert!(canonical_path_ok("/v2/hepta/papers"));
    assert!(!canonical_path_ok("v2/hepta/papers"));
    assert!(!canonical_path_ok("/v2//hepta"));
    assert!(!canonical_path_ok("/v2/hepta?x=1"));
    assert!(!canonical_path_ok("/v2/hepta#frag"));
    assert_eq!(
        join_exact("http://127.0.0.1:9000/base/", "/v2/hepta").expect("joined"),
        "http://127.0.0.1:9000/base/v2/hepta"
    );
    assert!(join_exact("http://127.0.0.1:9000", "/a//b").is_err());
}

#[test]
fn upstream_status_classes_map_to_errors() {
    let response = |status: u16| UpstreamResponse {
        status,
        body: Vec::new(),
        replayed: false,
    };
    assert!(response(200).read_status().is_ok());
    assert!(response(201).read_status().is_ok());
    assert_eq!(response(401).read_status(), Err(AppError::Forbidden));
    assert_eq!(response(403).read_status(), Err(AppError::Forbidden));
    assert_eq!(response(404).read_status(), Err(AppError::NotFound));
    assert_eq!(response(409).read_status(), Err(AppError::Upstream));
    assert_eq!(response(500).read_status(), Err(AppError::Upstream));
    assert_eq!(response(302).read_status(), Err(AppError::Upstream));
}

#[test]
fn strict_json_accepts_only_exact_media_types() {
    assert!(strict_json(Some("application/json")));
    assert!(strict_json(Some("application/json; charset=utf-8")));
    assert!(!strict_json(Some("application/json;charset=utf-8")));
    assert!(!strict_json(Some("text/json")));
    assert!(!strict_json(None));
}

#[test]
fn terminal_reasons_belong_to_their_outcome() {
    assert_eq!(HeptaPaperTerminalOutcome::Failed.as_str(), "failed");
    assert_eq!(HeptaPaperTerminalOutcome::Expired.as_str(), "expired");
    assert_eq!(
        HeptaPaperTerminalReason::parse_for_outcome(
            HeptaPaperTerminalOutcome::Failed,
            "integrity_failure"
        ),
        Some(HeptaPaperTerminalReason::IntegrityFailure)
    );
    assert_eq!(
        HeptaPaperTerminalReason::parse_for_outcome(
            HeptaPaperTerminalOutcome::Abandoned,
            "integrity_failure"
        ),
        None
    );
    assert_eq!(
        HeptaPaperTerminalReason::parse_for_outcome(
            HeptaPaperTerminalOutcome::Expired,
            "challenge_grace_deadline_elapsed"
        ),
        Some(HeptaPaperTerminalReason::ChallengeGraceDeadlineElapsed)
    );
    assert_eq!(
        HeptaPaperTerminalReason::TeamWithdrawal.as_str(),
        "team_withdrawal"
    );
}

#[test]
fn score_total_refuses_the_first_component_over_its_maximum() {
    let full = EvaluationScoreComponentsInput {
        method_rigor_bps: 2500,
        experiment_statistics_bps: 1500,
        reproducibility_bps: 1500,
        evidence_citations_bps: 1500,
        value_originality_bps: 1500,
        argument_expression_bps: 1000,
        ethics_transparency_bps: 500,
    };
    assert_eq!(full.checked_total(), Ok(10_000));
    let mut over = full;
    over.reproducibility_bps = 1501;
    over.ethics_transparency_bps = 501;
    assert_eq!(
        over.checked_total(),
        Err(AppError::Invalid(
            "reproducibility_bps exceeds the frozen 1500 bps maximum".into()
        ))
    );
    let gates = EvaluationHardGatesInput {
        citations_and_data_authentic: true,
        failed_runs_disclosed: true,
        all_authors_consented: true,
        core_claims_have_evidence: true,
        artifact_lineage_complete: true,
        license_ethics_coi_complete: true,
    };
    assert!(gates.eligible());
    let mut failed = gates;
    failed.all_authors_consented = false;
    assert!(!failed.eligible());
}

#[test]
fn frame_uris_are_credential_free_https() {
    assert!(validate_frame_https_uri("https://example.test/paper.pdf").is_ok());
    assert!(validate_frame_https_uri("http://example.test/paper.pdf").is_err());
    assert!(validate_frame_https_uri("https://user:pw@example.test/").is_err());
    assert!(validate_frame_https_uri("https://example.test/#frag").is_err());
    assert!(validate_frame_https_uri("").is_err());
    assert!(validate_frame_https_uri("https://example.test/\n").is_err());
    assert!(validate_frame_https_uri(&format!("https://example.test/{}", "a".repeat(480))).is_err());
}

#[test]
fn room_and_record_fields_are_read_exactly() {
    let paper = new_id();
    let room = object(vec![(
        "paper",
        object(vec![("paper_project_id", text(&id_text(paper)))]),
    )]);
    assert!(require_room_paper_id(&room, paper).is_ok());
    assert_eq!(require_room_paper_id(&room, new_id()), Err(AppError::Upstream));

    let record = object(vec![
        ("name", text("value")),
        ("empty", text("")),
        ("count", JsonValue::Number(JsonNumber::Unsigned(7))),
        ("id", text(&id_text(paper))),
    ]);
    assert_eq!(required_string(&record, "name"), Ok("value".to_string()));
    assert_eq!(required_string(&record, "empty"), Err(AppError::Upstream));
    assert_eq!(required_string(&record, "missing"), Err(AppError::Upstream));
    assert_eq!(required_u64(&record, "count"), Ok(7));
    assert_eq!(required_u64(&record, "name"), Err(AppError::Upstream));
    assert_eq!(required_uuid(&record, "id"), Ok(paper));
    assert_eq!(required_uuid(&record, "name"), Err(AppError::Upstream));
}

#[test]
fn command_codes_are_the_wire_names() {
    assert_eq!(CommandName::CreatePaperRevision.code(), "create_paper_revision");
    assert_eq!(
        CommandName::CompleteNakamaResearchSessionControl.code(),
        "complete_nakama_research_session_control"
    );
}
