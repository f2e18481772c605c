use paper_raid_bff::db::{normalize_sql, AgentBridgeSchemaStatus};
use paper_raid_bff::error::{conflict, AppError};
use paper_raid_bff::probe::{
    body_healthy, parse_u16, probe_port, probe_url, response_acceptable, ProbeBody, ProbeTarget,
    DEFAULT_PROBE_PORT, MAX_PROBE_BODY,
};

#[test]
fn each_error_has_its_status_and_public_code() {
    let cases: Vec<(AppError, u16, &str)> = vec![
        (AppError::Unauthorized, 401, "authentication_required"),
        (AppError::Forbidden, 403, "forbidden"),
        (AppError::Conflict("stale".into()), 409, "conflict"),
        (AppError::Conflict("csrf_replayed".into()), 409, "csrf_replayed"),
        (AppError::Invalid("bad".into()), 400, "invalid_request"),
        (AppError::Unavailable("database"), 503, "dependency_unavailable"),
        (AppError::RateLimited { retry_after_secs: 3 }, 429, "rate_limited"),
        (AppError::Upstream, 502, "upstream_rejected"),
        (AppError::NotFound, 404, "not_found"),
        (AppError::Internal, 500, "internal_error"),
    ];
    for (error, status, code) in cases {
        assert_eq!(error.status(), status);
        assert_eq!(error.public_code(), code);
        assert_eq!(error.is_server_error(), status >= 500);
    }
}

#[test]
fn rate_limit_answers_at_least_one_second() {
    assert_eq!(AppError::RateLimited { retry_after_secs: 0 }.retry_after(), Some(1));
    assert_eq!(AppError::RateLimited { retry_after_secs: 9 }.retry_after(), Some(9));
    assert_eq!(AppError::Forbidden.retry_after(), None);
}

#[test]
fn error_messages_carry_their_detail() {
    assert_eq!(
        AppError::Invalid("session_id is invalid".into()).message(),
        "invalid request: session_id is invalid"
    );
    assert_eq!(
        AppError::Unavailable("nakama").message(),
        "dependency unavailable: nakama"
    );
    assert_eq!(conflict("practice_expired"), AppError::Conflict("practice_expired".into()));
    assert_eq!(AppError::Internal.message(), "internal service error");
}

#[test]
fn probe_port_defaults_and_refuses_zero_or_garbage() {
    assert_eq!(probe_port(None), Some(DEFAULT_PROBE_PORT));
    assert_eq!(probe_port(Some("8080")), Some(8080));
    assert_eq!(probe_port(Some("+8080")), Some(8080));
    assert_eq!(probe_port(Some("0")), None);
    assert_eq!(probe_port(Some("65536")), None);
    assert_eq!(probe_port(Some("80a")), None);
    assert_eq!(probe_port(Some("")), None);
    assert_eq!(parse_u16("65535"), Some(65535));
    assert_eq!(parse_u16("-1"), None);
}

#[test]
fn fixed_loopback_probe_urls() {
    assert_eq!(probe_url(7020, ProbeTarget::Health), "http://127.0.0.1:7020/health");
    assert_eq!(probe_url(9, ProbeTarget::Ready), "http://127.0.0.1:9/ready");
}

#[test]
fn probe_accepts_only_bounded_json_answers() {
    assert!(response_acceptable(200, Some("application/json"), Some(10)));
    assert!(response_acceptable(200, Some("application/json; charset=utf-8"), None));
    assert!(!response_acceptable(302, Some("application/json"), None));
    assert!(!response_acceptable(200, Some("text/html"), None));
    assert!(!response_acceptable(200, None, None));
    assert!(!response_acceptable(
        200,
        Some("application/json"),
        Some(MAX_PROBE_BODY as u64 + 1)
    ));
    let mut body = ProbeBody::new();
    assert!(body.accept(MAX_PROBE_BODY - 1));
    assert!(body.accept(1));
    assert!(!body.accept(1));
    assert_eq!(body.received, MAX_PROBE_BODY);
    assert!(body_healthy(b"{\"status\":\"ok\"}"));
    assert!(!body_healthy(b"not json"));
}

#[test]
fn agent_bridge_status_is_never_intact_without_schema() {
    let missing = AgentBridgeSchemaStatus::from_checks(false, true);
    assert!(!missing.schema_ready && !missing.integrity_ok);
    let ready = AgentBridgeSchemaStatus::from_checks(true, true);
    assert!(ready.schema_ready && ready.integrity_ok);
    let drifted = AgentBridgeSchemaStatus::from_checks(true, false);
    assert!(drifted.schema_ready && !drifted.integrity_ok);
    assert_eq!(
        AgentBridgeSchemaStatus::default(),
        AgentBridgeSchemaStatus { schema_ready: false, integrity_ok: false }
    );
}

#[test]
fn sql_normalization_drops_all_white_space() {
    assert_eq!(normalize_sql(" SELECT  1\n\tFROM t "), "SELECT1FROMt");
    assert_eq!(normalize_sql(""), "");
}
