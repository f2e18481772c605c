use paper_raid_bff::json::{JsonNumber, JsonValue};
use paper_raid_bff::metrics::{
    bounded_method, bounded_route, bounded_status_class, bridge_outcome, HeptaErrorKind,
    InviteOutcome, Metrics, MetricsSnapshotError, METRICS_SNAPSHOT_SCHEMA,
};

const MILLIS: u64 = 1_000_000;

fn text(s: &str) -> JsonValue {
    JsonValue::String(s.to_owned())
}

fn object(members: Vec<(&str, JsonValue)>) -> JsonValue {
    JsonValue::Object(members.into_iter().map(|(k, v)| (k.to_owned(), v)).collect())
}

fn ticket(status: &str, eta: Option<JsonValue>) -> JsonValue {
    let mut members = vec![("status", text(status))];
    if let Some(eta) = eta {
        members.push(("queue_hint", object(vec![("eta_seconds", eta)])));
    }
    object(members)
}

#[test]
fn route_labels_are_fixed_and_never_accept_identifiers() {
    assert_eq!(
        bounded_route("/api/papers/:paper_id/timeline"),
        Some("/api/papers/:paper_id/timeline")
    );
    assert_eq!(
        bounded_route("/api/papers/7c1b6b2b-9a68-4674-a44a-a90f52203f7f/timeline"),
        None
    );
    for route in [
        "/league/practice",
        "/api/practice/session",
        "/api/practice/start",
        "/api/practice/advance",
        "/api/practice/abandon",
        "/api/agent-bridge/practice-tasks",
        "/api/agent-bridge/practice-claims",
        "/api/agent-bridge/practice-results",
    ] {
        assert_eq!(bounded_route(route), Some(route));
    }
}

#[test]
fn render_uses_only_bounded_aggregate_labels() {
    let mut metrics = Metrics::new();
    metrics.observe_request("GET", Some("/health"), 200, 12 * MILLIS);
    metrics.observe_hepta_error(HeptaErrorKind::FinalityUnavailable);
    metrics.observe_bridge_recovery(true);
    metrics.observe_invite(InviteOutcome::Redeemed);
    let tickets = JsonValue::Array(vec![
        ticket("queued", Some(JsonValue::Number(JsonNumber::Unsigned(42)))),
        ticket("queued", Some(JsonValue::Null)),
        ticket("matched", Some(JsonValue::Number(JsonNumber::Unsigned(0)))),
    ]);
    metrics.observe_match_queue(Some(&tickets));
    let rendered = metrics.render();
    assert!(rendered.contains("route=\"/health\""));
    assert!(rendered.contains("kind=\"finality_unavailable\""));
    assert!(rendered.contains("operation=\"recovery\",outcome=\"success\""));
    assert!(rendered.contains("outcome=\"redeemed\""));
    assert!(rendered.contains("paper_raid_bff_match_queue_depth 2"));
    assert!(!rendered.contains("player_id"));
    assert!(!rendered.contains("paper_id="));
    assert!(!rendered.contains("agent_id"));
}

#[test]
fn histogram_buckets_are_cumulative() {
    let mut metrics = Metrics::new();
    metrics.observe_request("GET", Some("/health"), 200, 12 * MILLIS);
    let rendered = metrics.render();
    assert!(rendered.contains("le=\"0.01\"} 0"));
    assert!(rendered.contains("le=\"0.025\"} 1"));
    assert!(rendered.contains("le=\"+Inf\"} 1"));
}

fn observed() -> Metrics {
    let mut metrics = Metrics::new();
    metrics.observe_request("GET", Some("/health"), 200, 12 * MILLIS);
    metrics.observe_hepta_error(HeptaErrorKind::FinalityUnavailable);
    metrics.observe_bridge_recovery(true);
    metrics.observe_invite(InviteOutcome::Redeemed);
    metrics.observe_product_event("first_action");
    metrics.observe_stale_ui_reload();
    let tickets = JsonValue::Array(vec![
        ticket("queued", Some(JsonValue::Number(JsonNumber::Unsigned(42)))),
        ticket("queued", None),
    ]);
    metrics.observe_match_queue(Some(&tickets));
    metrics
}

#[test]
fn durable_snapshot_round_trips_all_bounded_aggregates() {
    let metrics = observed();
    let snapshot = metrics.snapshot_json();
    let mut restored = Metrics::new();
    restored
        .restore_snapshot(&snapshot)
        .expect("restore metrics snapshot");
    assert_eq!(restored.snapshot_json(), snapshot);
    assert!(!restored.is_dirty());
    assert!(restored
        .render()
        .contains("paper_raid_bff_metrics_snapshot_loaded 1"));
}

#[test]
fn durable_snapshot_rejects_schema_label_and_histogram_tampering() {
    let mut metrics = Metrics::new();
    metrics.observe_request("GET", Some("/health"), 200, 12 * MILLIS);
    let snapshot = metrics.snapshot_json();

    let mut wrong_schema = snapshot.clone();
    wrong_schema.schema = "attacker.schema".into();
    assert!(metrics.restore_snapshot(&wrong_schema).is_err());

    let mut wrong_route = snapshot.clone();
    wrong_route.http[0].route = "/api/papers/secret".into();
    assert!(metrics.restore_snapshot(&wrong_route).is_err());

    let mut wrong_histogram = snapshot;
    wrong_histogram.http[0].buckets[2] = 2;
    assert!(metrics.restore_snapshot(&wrong_histogram).is_err());
}

#[test]
fn successful_revision_ack_does_not_clear_a_newer_dirty_snapshot() {
    let mut metrics = Metrics::new();
    let (_, revision) = metrics.snapshot_with_revision();
    metrics.observe_stale_ui_reload();
    metrics.mark_persisted(revision);
    assert!(metrics.is_dirty());
    let (_, newer_revision) = metrics.snapshot_with_revision();
    metrics.mark_persisted(newer_revision);
    assert!(!metrics.is_dirty());
}

#[test]
fn restore_reports_each_refusal() {
    let metrics = observed();
    let snapshot = metrics.snapshot_json();
    let mut target = Metrics::new();

    let mut unknown_method = snapshot.clone();
    unknown_method.http[0].method = "DELETE".into();
    assert_eq!(
        target.restore_snapshot(&unknown_method),
        Err(MetricsSnapshotError::UnknownMethod)
    );
    let mut duplicate = snapshot.clone();
    let copy = duplicate.http[0].clone();
    duplicate.http.push(copy);
    assert_eq!(
        target.restore_snapshot(&duplicate),
        Err(MetricsSnapshotError::DuplicateHttp)
    );
    let mut unknown_kind = snapshot.clone();
    unknown_kind.hepta_errors[0].name = "paper_id".into();
    assert_eq!(
        target.restore_snapshot(&unknown_kind),
        Err(MetricsSnapshotError::UnknownHeptaError)
    );
    let mut unknown_outcome = snapshot.clone();
    unknown_outcome.bridge_events[0].outcome = "partial".into();
    assert_eq!(
        target.restore_snapshot(&unknown_outcome),
        Err(MetricsSnapshotError::UnknownBridgeOutcome)
    );
    let mut short_histogram = snapshot.clone();
    short_histogram.http[0].buckets.pop();
    assert_eq!(
        target.restore_snapshot(&short_histogram),
        Err(MetricsSnapshotError::InvalidHistogram)
    );
    assert_eq!(snapshot.schema, METRICS_SNAPSHOT_SCHEMA);
    assert!(!target.render().contains("snapshot_loaded 1"));
    assert_eq!(
        MetricsSnapshotError::DuplicateHttp.message(),
        "metrics snapshot contains duplicate HTTP series"
    );
}

#[test]
fn labels_are_bounded_positions() {
    assert_eq!(bounded_method("GET"), 0);
    assert_eq!(bounded_method("DELETE"), 1);
    assert_eq!(bounded_method("PUT"), 3);
    assert_eq!(bounded_status_class(204), 0);
    assert_eq!(bounded_status_class(503), 3);
    assert_eq!(bounded_status_class(101), 4);
    assert_eq!(bridge_outcome(201), 3);
    assert_eq!(bridge_outcome(409), 1);
    assert_eq!(bridge_outcome(404), 0);
    assert_eq!(bridge_outcome(502), 2);
}

#[test]
fn pairing_requests_count_as_bridge_events_and_render_exact_sums() {
    let mut metrics = Metrics::new();
    metrics.observe_request("POST", Some("/api/agent-bridge/pair"), 409, 1_234_567);
    metrics.observe_request("PATCH", Some("/api/papers/1/timeline"), 500, 20 * 1_000_000_000);
    let rendered = metrics.render();
    assert!(rendered.contains(
        "paper_raid_bff_agent_bridge_events_total{operation=\"pairing\",outcome=\"conflict\"} 1"
    ));
    assert!(rendered.contains(
        "paper_raid_bff_http_request_duration_seconds_sum{method=\"POST\",route=\"/api/agent-bridge/pair\",status_class=\"4xx\"} 0.001235"
    ));
    assert!(rendered.contains(
        "method=\"OTHER\",route=\"unmatched\",status_class=\"5xx\",le=\"10\"} 0"
    ));
    assert!(rendered.contains("paper_raid_bff_metrics_snapshot_revision 3"));
    let mut finality = Metrics::new();
    finality.observe_finality_availability(&object(vec![("status", text("verified_finality"))]));
    assert!(!finality.is_dirty());
    finality.observe_finality_availability(&object(vec![("status", text("forged"))]));
    assert!(finality
        .render()
        .contains("paper_raid_bff_hepta_upstream_errors_total{kind=\"finality_invalid\"} 1"));
    finality.observe_match_queue(None);
    assert!(finality
        .render()
        .contains("paper_raid_bff_match_queue_snapshot_available 0"));
}

#[test]
fn try_observe_request_records_like_observe_request() {
    let mut observed = Metrics::new();
    observed.observe_request("POST", Some("/api/agent-bridge/pair"), 409, 3 * MILLIS);
    let mut tried = Metrics::new();
    assert!(tried.try_observe_request("POST", Some("/api/agent-bridge/pair"), 409, 3 * MILLIS));
    assert_eq!(tried.render(), observed.render());
    assert!(tried.render().contains("status_class=\"4xx\""));
    assert_ne!(tried.render(), Metrics::new().render());
}
