use paper_raid_bff::db::{
    compact_review_catalog_definition, review_frame_binding_definition,
    review_receipt_constraint_definition_is_exact,
};
use paper_raid_bff::error::AppError;
use paper_raid_bff::hepta::{
    business_request_hash, classify_hepta_response, command_body_fits, human_signing_frame_locators,
    idempotent_completion, idempotent_replay, route_sendable, BrowserCommand, CommandName, Route,
    MAX_JSON_BYTES,
};
use paper_raid_bff::json::JsonValue;
use paper_raid_bff::metrics::{HeptaErrorKind, Metrics};
use paper_raid_bff::nakama::classify_archive_answer;
use paper_raid_bff::practice::PracticeEligibilityV1;
use sha2::{Digest, Sha256};

fn route(method: &'static str, path: &str, query: Option<&str>) -> Route {
    Route {
        method,
        path: path.to_string(),
        query: query.map(str::to_string),
        operation: "get_research_team_v2",
    }
}

#[test]
fn send_guard_accepts_only_hepta_paths_and_plain_queries() {
    assert_eq!(route_sendable(&route("GET", "/v2/hepta/teams/x", None)), Ok(()));
    assert_eq!(
        route_sendable(&route("GET", "/v2/hepta/teams", Some("after=3&limit=10"))),
        Ok(())
    );
    assert_eq!(
        route_sendable(&route("GET", "/v2/other/teams", None)),
        Err(AppError::Internal)
    );
    assert_eq!(
        route_sendable(&route("GET", "/v2/hepta", None)),
        Err(AppError::Internal)
    );
    assert_eq!(
        route_sendable(&route("GET", "/v2/hepta/teams", Some(""))),
        Err(AppError::Internal)
    );
    assert_eq!(
        route_sendable(&route("GET", "/v2/hepta/teams", Some("a=b c"))),
        Err(AppError::Internal)
    );
    assert_eq!(
        route_sendable(&route("GET", "/v2/hepta/teams", Some("a=%20"))),
        Err(AppError::Internal)
    );
}

#[test]
fn every_command_route_passes_the_send_guard() {
    let cmd = BrowserCommand {
        command: CommandName::PromotePaperReleaseCandidate,
        resource_id: Some(1),
        child_id: Some(2),
        session_id: None,
        idempotency_key: 3,
        payload: JsonValue::Null,
    };
    let r = cmd.route().unwrap();
    assert_eq!(r.method, "POST");
    assert!(r.query.is_none());
    assert_eq!(route_sendable(&r), Ok(()));
    let other = BrowserCommand { idempotency_key: 9, payload: JsonValue::Bool(true), ..cmd };
    assert_eq!(other.route().unwrap(), r);
}

#[test]
fn command_body_is_capped() {
    assert_eq!(command_body_fits(&vec![b'x'; MAX_JSON_BYTES]), Ok(()));
    assert_eq!(
        command_body_fits(&vec![b'x'; MAX_JSON_BYTES + 1]),
        Err(AppError::Invalid("command body is too large".into()))
    );
}

#[test]
fn business_request_hash_binds_method_path_query_and_body() {
    let r = route("POST", "/v2/hepta/teams", Some("a=1"));
    let body = br#"{"x":1}"#;
    let mut expected = Sha256::new();
    expected.update(b"POST");
    expected.update([0]);
    expected.update(b"/v2/hepta/teams?a=1");
    expected.update([0]);
    expected.update(body);
    let expected: Vec<u8> = expected.finalize().to_vec();
    assert_eq!(business_request_hash(&r, body), expected);
    assert_ne!(business_request_hash(&r, b"{}"), expected);
    let no_query = route("POST", "/v2/hepta/teams", None);
    assert_ne!(business_request_hash(&no_query, body), expected);
}

#[test]
fn stored_idempotency_record_replays_conflicts_or_goes_on() {
    let hash = vec![7u8; 32];
    let other = vec![8u8; 32];
    assert_eq!(
        idempotent_replay(&other, &hash, "completed", Some(200), Some(b"{}".to_vec())),
        Err(AppError::Conflict(
            "idempotency_key was already used for a different request".into()
        ))
    );
    assert_eq!(idempotent_replay(&hash, &hash, "pending", None, None), Ok(None));
    assert_eq!(
        idempotent_replay(&hash, &hash, "completed", Some(201), Some(b"{\"a\":1}".to_vec())),
        Ok(Some((201, b"{\"a\":1}".to_vec())))
    );
    assert_eq!(
        idempotent_replay(&hash, &hash, "completed", None, Some(b"{}".to_vec())),
        Err(AppError::Internal)
    );
    assert_eq!(
        idempotent_replay(&hash, &hash, "completed", Some(200), None),
        Err(AppError::Internal)
    );
    assert_eq!(
        idempotent_replay(&hash, &hash, "completed", Some(-1), Some(Vec::new())),
        Err(AppError::Internal)
    );
    assert_eq!(
        idempotent_replay(&hash, &hash, "completed", Some(70_000), Some(Vec::new())),
        Err(AppError::Internal)
    );
}

#[test]
fn unrecorded_completion_must_match_the_stored_answer() {
    assert_eq!(idempotent_completion(Some((200, b"{}".to_vec())), 200, b"{}"), Ok(()));
    let inconsistent =
        Err(AppError::Conflict("upstream returned inconsistent idempotent responses".into()));
    assert_eq!(idempotent_completion(Some((201, b"{}".to_vec())), 200, b"{}"), inconsistent);
    assert_eq!(
        idempotent_completion(Some((200, b"[]".to_vec())), 200, b"{}"),
        inconsistent
    );
    assert_eq!(idempotent_completion(None, 200, b"{}"), Err(AppError::Internal));
}

#[test]
fn upstream_answers_are_classified_strictly() {
    let json = Some("application/json");
    let protocol = Err((AppError::Upstream, HeptaErrorKind::Protocol));
    assert_eq!(classify_hepta_response(false, true, json, 302, b"{}"), protocol);
    assert_eq!(classify_hepta_response(false, false, Some("text/html"), 200, b"{}"), protocol);
    assert_eq!(classify_hepta_response(false, false, None, 200, b"{}"), protocol);
    assert_eq!(classify_hepta_response(false, false, json, 200, b"{not json"), protocol);
    assert_eq!(
        classify_hepta_response(false, false, json, 200, &vec![b' '; MAX_JSON_BYTES + 1]),
        protocol
    );
    assert_eq!(
        classify_hepta_response(false, false, json, 503, b"{}"),
        Err((AppError::Unavailable("hepta"), HeptaErrorKind::Server))
    );
    assert_eq!(classify_hepta_response(false, false, json, 201, b"{}"), Ok(true));
    assert_eq!(
        classify_hepta_response(false, false, Some("application/json; charset=utf-8"), 200, b"[]"),
        Ok(true)
    );
    assert_eq!(classify_hepta_response(true, false, json, 200, b"{}"), Ok(false));
    assert_eq!(classify_hepta_response(false, false, json, 409, b"{}"), Ok(false));
}

#[test]
fn signing_frame_checks_identity_whitelist_and_locators() {
    let p = 11u128;
    let frame = |player: u128, subject: &str, command, resource, child| {
        human_signing_frame_locators(p, "subject-a", player, subject, command, resource, child)
    };
    assert_eq!(
        frame(12, "subject-a", CommandName::SubmitReview, Some(1), Some(2)),
        Err(AppError::Forbidden)
    );
    assert_eq!(
        frame(p, "subject-b", CommandName::SubmitReview, Some(1), Some(2)),
        Err(AppError::Forbidden)
    );
    assert_eq!(
        frame(p, "subject-a", CommandName::CreatePaperProject, Some(1), None),
        Err(AppError::Invalid(
            "command does not support browser-local human signing".into()
        ))
    );
    assert_eq!(
        frame(p, "subject-a", CommandName::CreateEvidenceCard, None, None),
        Err(AppError::Invalid("resource_id is required".into()))
    );
    assert_eq!(
        frame(p, "subject-a", CommandName::CreateEvidenceCard, Some(1), Some(2)),
        Err(AppError::Invalid("child_id is not allowed".into()))
    );
    assert_eq!(
        frame(p, "subject-a", CommandName::CreateEvidenceCard, Some(1), None),
        Ok((1, None))
    );
    assert_eq!(
        frame(p, "subject-a", CommandName::SubmitReproduction, Some(1), None),
        Err(AppError::Invalid("child_id is required".into()))
    );
    assert_eq!(
        frame(p, "subject-a", CommandName::SubmitReproduction, Some(1), Some(2)),
        Ok((1, Some(2)))
    );
    assert_eq!(frame(p, "subject-a", CommandName::SubmitAppeal, Some(1), None), Ok((1, None)));
    assert_eq!(
        frame(p, "subject-a", CommandName::SubmitAppeal, Some(1), Some(5)),
        Ok((1, Some(5)))
    );
    assert_eq!(
        frame(p, "subject-a", CommandName::ResolveAppeal, Some(1), Some(5)),
        Err(AppError::Invalid(
            "guided Appeal resolution derives child_id from the current review state".into()
        ))
    );
}

#[test]
fn archive_answers_are_classified_before_reading() {
    let json = Some("application/json");
    assert_eq!(classify_archive_answer(true, json, 301), Err(AppError::Upstream));
    assert_eq!(classify_archive_answer(false, Some("text/plain"), 200), Err(AppError::Upstream));
    assert_eq!(classify_archive_answer(false, json, 401), Err(AppError::Forbidden));
    assert_eq!(classify_archive_answer(false, json, 403), Err(AppError::Forbidden));
    assert_eq!(
        classify_archive_answer(false, json, 500),
        Err(AppError::Unavailable("nakama"))
    );
    assert_eq!(
        classify_archive_answer(false, json, 404),
        Err(AppError::Unavailable("nakama"))
    );
    assert_eq!(classify_archive_answer(false, json, 200), Ok(()));
}

#[test]
fn default_practice_eligibility_is_locked() {
    let d = PracticeEligibilityV1::default();
    assert_eq!(d, PracticeEligibilityV1::locked());
    assert!(d.validate().is_ok());
}

#[test]
fn metrics_well_formedness_is_checkable() {
    let mut m = Metrics::new();
    assert!(m.is_wf());
    m.hepta_errors.pop();
    assert!(!m.is_wf());
}

#[test]
fn frame_binding_definition_is_compact_and_accepted_in_both_spellings() {
    for deparsed in [false, true] {
        let s = review_frame_binding_definition(deparsed);
        let compacted: String = compact_review_catalog_definition(&s).into_iter().collect();
        assert_eq!(compacted, s);
        assert!(review_receipt_constraint_definition_is_exact(
            "paper_raid_bff_review_receipt_frame_binding_ck",
            &s
        ));
        assert!(s.starts_with("checkconfirmation_frameisnullor"));
        let clause = if deparsed {
            "notconfirmation_frame->>'command'isdistinctfrom'create_paper_evaluation_draft'"
        } else {
            "confirmation_frame->>'command'isnotdistinctfrom'create_paper_evaluation_draft'"
        };
        assert!(s.contains(clause));
    }
}
