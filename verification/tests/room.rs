use paper_raid_bff::error::AppError;
use paper_raid_bff::hepta::Route;
use paper_raid_bff::json::{JsonNumber, JsonValue};
use paper_raid_bff::room::seal_paper_room;

const PAPER: u128 = 0x5;

fn text(value: &str) -> JsonValue {
    JsonValue::String(value.to_string())
}

fn id_text(value: u128) -> String {
    uuid::Uuid::from_u128(value).to_string()
}

const LISTS: [&str; 20] = [
    "team_member_acceptances", "work_items", "paper_revisions", "authorship_consents",
    "member_research_sessions", "artifact_manifests", "revision_artifact_bindings",
    "evidence_cards", "citations", "experiment_plans", "runs", "figures", "claims",
    "section_heads", "leases", "proposals", "decisions", "section_revisions",
    "section_reviews", "section_merges",
];

fn room_body(paper: u128) -> Vec<(String, JsonValue)> {
    let mut members = vec![
        (
            "paper".to_string(),
            JsonValue::Object(vec![("paper_project_id".to_string(), text(&id_text(paper)))]),
        ),
        ("team".to_string(), JsonValue::Null),
        ("author_raid_progress".to_string(), JsonValue::Object(vec![])),
        ("joint_submission".to_string(), JsonValue::Null),
        (
            "last_event_cursor".to_string(),
            JsonValue::Number(JsonNumber::Unsigned(42)),
        ),
    ];
    for list in LISTS {
        members.push((list.to_string(), JsonValue::Array(vec![])));
    }
    members
}

fn route(paper: u128) -> Route {
    Route {
        method: "GET",
        path: format!("/v2/hepta/papers/{}/room", id_text(paper)),
        query: None,
        operation: "get_paper_room_v3",
    }
}

fn seal(members: Vec<(String, JsonValue)>) -> Result<u128, AppError> {
    seal_paper_room(&route(PAPER), PAPER, JsonValue::Object(members)).map(|room| room.paper_id())
}

#[test]
fn paper_rooms_seal_only_their_exact_envelope() {
    assert_eq!(seal(room_body(PAPER)), Ok(PAPER));
    let sealed = seal_paper_room(&route(PAPER), PAPER, JsonValue::Object(room_body(PAPER)))
        .expect("sealed room");
    assert!(matches!(sealed.value(), JsonValue::Object(members) if members.len() == 25));

    let mut without_submission = room_body(PAPER);
    without_submission.retain(|member| member.0 != "joint_submission");
    assert_eq!(seal(without_submission), Ok(PAPER));

    let mut extra = room_body(PAPER);
    extra.push(("admin".to_string(), JsonValue::Null));
    assert_eq!(seal(extra), Err(AppError::Upstream));

    let mut missing_list = room_body(PAPER);
    missing_list.retain(|member| member.0 != "leases");
    assert_eq!(seal(missing_list), Err(AppError::Upstream));

    let mut not_a_list = room_body(PAPER);
    for member in not_a_list.iter_mut() {
        if member.0 == "claims" {
            member.1 = JsonValue::Null;
        }
    }
    assert_eq!(seal(not_a_list), Err(AppError::Upstream));

    let mut negative_cursor = room_body(PAPER);
    for member in negative_cursor.iter_mut() {
        if member.0 == "last_event_cursor" {
            member.1 = JsonValue::Number(JsonNumber::Negative(-1));
        }
    }
    assert_eq!(seal(negative_cursor), Err(AppError::Upstream));

    assert_eq!(seal(room_body(6)), Err(AppError::Upstream));

    let mut other_read = route(PAPER);
    other_read.operation = "get_paper_review_state_v1";
    assert!(matches!(
        seal_paper_room(&other_read, PAPER, JsonValue::Object(room_body(PAPER))),
        Err(AppError::Internal)
    ));
    assert!(matches!(
        seal_paper_room(&route(6), PAPER, JsonValue::Object(room_body(PAPER))),
        Err(AppError::Internal)
    ));
}
