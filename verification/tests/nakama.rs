use paper_raid_bff::error::AppError;
use paper_raid_bff::json::{JsonNumber, JsonValue};
use paper_raid_bff::nakama::{
    client_settings_error, BASE_PATH_REFUSED, HTTP_KEY_REFUSED,
    member_session_accesses, read_archive, valid_base64_payload, valid_text, valid_uuid,
    validate_archive_response, validate_session_id, MemberSessionAccess,
};

fn text(value: &str) -> JsonValue {
    JsonValue::String(value.to_string())
}

fn number(value: u64) -> JsonValue {
    JsonValue::Number(JsonNumber::Unsigned(value))
}

fn object(members: Vec<(&str, JsonValue)>) -> JsonValue {
    JsonValue::Object(
        members
            .into_iter()
            .map(|(key, value)| (key.to_string(), value))
            .collect(),
    )
}

/// Replaces the member `key` of an object, or adds it.
fn set(value: &mut JsonValue, key: &str, replacement: JsonValue) {
    if let JsonValue::Object(members) = value {
        for member in members.iter_mut() {
            if member.0 == key {
                member.1 = replacement;
                return;
            }
        }
        members.push((key.to_string(), replacement));
    }
}

fn member<'a>(value: &'a mut JsonValue, key: &str) -> &'a mut JsonValue {
    match value {
        JsonValue::Object(members) => {
            &mut members
                .iter_mut()
                .find(|member| member.0 == key)
                .expect("member")
                .1
        }
        _ => panic!("not an object"),
    }
}

fn item(value: &mut JsonValue, index: usize) -> &mut JsonValue {
    match value {
        JsonValue::Array(items) => &mut items[index],
        _ => panic!("not an array"),
    }
}

fn new_id() -> u128 {
    uuid::Uuid::new_v4().as_u128()
}

fn id_text(id: u128) -> String {
    uuid::Uuid::from_u128(id).to_string()
}

fn digest(character: char) -> String {
    format!("sha256:{}", character.to_string().repeat(64))
}

fn valid_archive(
    logical_session_id: &str,
    paper_project_id: &str,
    player_authorization_id: &str,
    roster_version: u64,
    after_sequence: u64,
    event_sequences: &[u64],
    event_count: u64,
) -> JsonValue {
    let authorizations = [
        player_authorization_id.to_string(),
        "22222222-2222-4222-8222-222222222222".into(),
        "33333333-3333-4333-8333-333333333333".into(),
    ];
    let subjects = [
        "aaaaaaaa-aaaa-4aaa-8aaa-aaaaaaaaaaaa",
        "bbbbbbbb-bbbb-4bbb-8bbb-bbbbbbbbbbbb",
        "cccccccc-cccc-4ccc-8ccc-cccccccccccc",
    ];
    let roles = ["captain", "evidence", "experiment"];
    let roster: Vec<JsonValue> = (0..3)
        .map(|index| {
            object(vec![
                ("participant_slot", number(index as u64 + 1)),
                ("authorization_id", text(&authorizations[index])),
                ("subject_user_id", text(subjects[index])),
                ("agent_id", text(&format!("agent-{}", index + 1))),
                ("agent_did", text(&format!("did:example:agent-{}", index + 1))),
                ("agent_key_id", text(&format!("agent-key-{}", index + 1))),
                ("agent_key_hash", text(&digest((b'a' + index as u8) as char))),
                ("role", text(roles[index])),
            ])
        })
        .collect();
    let participants: Vec<JsonValue> = (0..3)
        .map(|index| {
            object(vec![
                ("participant_slot", number(index as u64 + 1)),
                ("authorization_id", text(&authorizations[index])),
                ("subject_user_id", text(subjects[index])),
                ("agent_id", text(&format!("agent-{}", index + 1))),
                ("role", text(roles[index])),
                ("joined", JsonValue::Bool(true)),
                ("connected", JsonValue::Bool(true)),
                ("ready", JsonValue::Bool(true)),
                ("last_action_sequence", number(0)),
            ])
        })
        .collect();
    let events: Vec<JsonValue> = event_sequences
        .iter()
        .map(|sequence| {
            object(vec![
                ("schema", text("trnm.research-session.event.v1")),
                ("event_id", text(&format!("sha256:{sequence:064x}"))),
                ("event_type", text("research_action_applied")),
                ("session_id", text(logical_session_id)),
                ("team_id", text("44444444-4444-4444-8444-444444444444")),
                ("paper_project_id", text(paper_project_id)),
                ("challenge_id", text("66666666-6666-4666-8666-666666666666")),
                ("roster_version", number(roster_version)),
                ("sequence", number(*sequence)),
                ("causation_id", text(&format!("action-{sequence}"))),
                ("occurred_at_unix", number(1_786_344_000)),
                ("participant_slot", number(1)),
                ("session_version", number(sequence + 1)),
                ("action_type", text("experiment.record")),
                ("payload_type", text("application/json")),
                ("payload", text("e30=")),
                ("payload_hash", text(&digest('e'))),
                ("reference_hash", text(&digest('f'))),
                ("event_hash", text(&format!("sha256:{:064x}", sequence + 1_000))),
            ])
        })
        .collect();
    let next_after_sequence = event_sequences.last().copied().unwrap_or(after_sequence);
    object(vec![
        ("schema", text("trnm.nakama.research-session.archive.v1")),
        ("logical_session_id", text(logical_session_id)),
        ("runtime_generation", number(1)),
        ("status", text("active")),
        ("session_version", number(event_count + 1)),
        ("roster_version", number(roster_version)),
        ("roster_root", text(&digest('2'))),
        ("event_count", number(event_count)),
        ("after_sequence", number(after_sequence)),
        ("next_after_sequence", number(next_after_sequence)),
        ("has_more", JsonValue::Bool(next_after_sequence < event_count)),
        ("events", JsonValue::Array(events)),
        ("roster", JsonValue::Array(roster)),
        ("participants", JsonValue::Array(participants)),
    ])
}

fn session_record(session: &str, authorization: u128, version: u64, status: &str, done: bool) -> JsonValue {
    object(vec![
        ("logical_session_id", text(session)),
        ("authorization_id", text(&id_text(authorization))),
        ("roster_version", number(version)),
        ("nakama_completion_received", JsonValue::Bool(done)),
        ("status", text(status)),
        ("issued_at", text("2026-08-05T00:00:00Z")),
        ("consumed_at", JsonValue::Null),
        ("authorization_set_id", text(&id_text(new_id()))),
    ])
}

#[test]
fn access_uses_only_player_scoped_p3_member_sessions() {
    let first_authorization = new_id();
    let second_authorization = new_id();
    let model = object(vec![
        (
            "research_session",
            object(vec![(
                "members",
                JsonValue::Array(vec![object(vec![("authorization_id", text(&id_text(new_id())))])]),
            )]),
        ),
        (
            "member_research_sessions",
            JsonValue::Array(vec![
                session_record("paper.raid:one", first_authorization, 1, "issued", false),
                session_record("paper.raid:one", second_authorization, 2, "consumed", true),
            ]),
        ),
    ]);
    let accesses = member_session_accesses(&model).expect("member accesses");
    assert_eq!(accesses.len(), 2);
    assert_eq!(accesses[0].authorization_id, first_authorization);
    assert_eq!(accesses[1].authorization_id, second_authorization);
    assert!(accesses[1].nakama_completion_received);

    assert!(member_session_accesses(&object(vec![(
        "research_session",
        object(vec![("members", JsonValue::Array(vec![]))]),
    )]))
    .is_err());
}

#[test]
fn member_sessions_are_sorted_and_duplicates_refused() {
    let a = new_id();
    let b = new_id();
    let c = new_id();
    let model = object(vec![(
        "member_research_sessions",
        JsonValue::Array(vec![
            session_record("paper.raid:two", a, 1, "completed", true),
            session_record("paper.raid:one", b, 3, "issued", false),
            session_record("paper.raid:one", c, 2, "expired", false),
        ]),
    )]);
    let accesses = member_session_accesses(&model).expect("sorted accesses");
    let keys: Vec<(&str, u64)> = accesses
        .iter()
        .map(|m| (m.logical_session_id.as_str(), m.roster_version))
        .collect();
    assert_eq!(
        keys,
        vec![("paper.raid:one", 2), ("paper.raid:one", 3), ("paper.raid:two", 1)]
    );
    assert_eq!(accesses[0].authorization_id, c);

    let duplicate = object(vec![(
        "member_research_sessions",
        JsonValue::Array(vec![
            session_record("paper.raid:one", a, 1, "issued", false),
            session_record("paper.raid:one", b, 1, "consumed", false),
        ]),
    )]);
    assert_eq!(member_session_accesses(&duplicate), Err(AppError::Upstream));
    for bad in [
        session_record("paper raid", a, 1, "issued", false),
        session_record("paper.raid:one", a, 0, "issued", false),
        session_record("paper.raid:one", a, 9_007_199_254_740_992, "issued", false),
        session_record("paper.raid:one", a, 1, "revoked", false),
    ] {
        let model = object(vec![("member_research_sessions", JsonValue::Array(vec![bad]))]);
        assert_eq!(member_session_accesses(&model), Err(AppError::Upstream));
    }
}

#[test]
fn archive_response_binds_epoch_cursor_and_contiguous_page() {
    let authorization_id = new_id();
    let paper_id = uuid::Uuid::parse_str("55555555-5555-4555-8555-555555555555")
        .expect("paper UUID")
        .as_u128();
    let access = MemberSessionAccess {
        logical_session_id: "paper.raid:validated".into(),
        authorization_id,
        roster_version: 2,
        status: "consumed".into(),
        nakama_completion_received: false,
    };
    let build = |after: u64, sequences: &[u64], count: u64| {
        valid_archive(
            &access.logical_session_id,
            &id_text(paper_id),
            &id_text(authorization_id),
            access.roster_version,
            after,
            sequences,
            count,
        )
    };
    let valid = build(7, &[8, 9], 9);
    validate_archive_response(&valid, &access, paper_id, 7).expect("valid bounded page");

    let full_page: Vec<u64> = (8..136).collect();
    let paged = build(7, &full_page, 136);
    validate_archive_response(&paged, &access, paper_id, 7).expect("valid full catch-up page");

    let mut malformed = Vec::new();
    let mut wrong_schema = build(7, &[8, 9], 9);
    set(&mut wrong_schema, "schema", text("invented.archive.v1"));
    malformed.push(wrong_schema);
    let mut wrong_session = build(7, &[8, 9], 9);
    set(&mut wrong_session, "logical_session_id", text("paper.raid:other"));
    malformed.push(wrong_session);
    let mut wrong_roster = build(7, &[8, 9], 9);
    set(&mut wrong_roster, "roster_version", number(1));
    malformed.push(wrong_roster);
    let mut wrong_echo = build(7, &[8, 9], 9);
    set(&mut wrong_echo, "after_sequence", number(6));
    malformed.push(wrong_echo);
    let mut sequence_gap = build(7, &[8, 9], 9);
    set(item(member(&mut sequence_gap, "events"), 1), "sequence", number(10));
    malformed.push(sequence_gap);
    let mut unknown_field = build(7, &[8, 9], 9);
    set(&mut unknown_field, "unexpected", JsonValue::Bool(true));
    malformed.push(unknown_field);
    malformed.push(build(7, &[], 8));

    for archive in malformed {
        assert!(matches!(
            validate_archive_response(&archive, &access, paper_id, 7),
            Err(AppError::Upstream)
        ));
    }
}

#[test]
fn archive_refuses_explicit_nulls_roster_drift_and_foreign_pages() {
    let authorization_id = new_id();
    let paper_id = new_id();
    let access = MemberSessionAccess {
        logical_session_id: "paper.raid:nulls".into(),
        authorization_id,
        roster_version: 4,
        status: "issued".into(),
        nakama_completion_received: false,
    };
    let build = || {
        valid_archive(
            &access.logical_session_id,
            &id_text(paper_id),
            &id_text(authorization_id),
            access.roster_version,
            0,
            &[1],
            1,
        )
    };
    assert!(validate_archive_response(&build(), &access, paper_id, 0).is_ok());

    let mut with_match = build();
    set(&mut with_match, "external_match_id", text("match-1"));
    assert!(validate_archive_response(&with_match, &access, paper_id, 0).is_ok());
    let mut null_match = build();
    set(&mut null_match, "external_match_id", JsonValue::Null);
    assert_eq!(
        validate_archive_response(&null_match, &access, paper_id, 0),
        Err(AppError::Upstream)
    );

    let mut null_ack = build();
    set(
        item(member(&mut null_ack, "participants"), 0),
        "acknowledgement_reference_hash",
        JsonValue::Null,
    );
    assert_eq!(
        validate_archive_response(&null_ack, &access, paper_id, 0),
        Err(AppError::Upstream)
    );
    let mut with_ack = build();
    set(
        item(member(&mut with_ack, "participants"), 0),
        "acknowledgement_reference_hash",
        text(&digest('9')),
    );
    assert!(validate_archive_response(&with_ack, &access, paper_id, 0).is_ok());

    let mut foreign_player = build();
    set(
        item(member(&mut foreign_player, "roster"), 0),
        "authorization_id",
        text("77777777-7777-4777-8777-777777777777"),
    );
    set(
        item(member(&mut foreign_player, "participants"), 0),
        "authorization_id",
        text("77777777-7777-4777-8777-777777777777"),
    );
    assert_eq!(
        validate_archive_response(&foreign_player, &access, paper_id, 0),
        Err(AppError::Upstream)
    );

    let mut role_drift = build();
    set(item(member(&mut role_drift, "participants"), 1), "role", text("captain"));
    assert_eq!(
        validate_archive_response(&role_drift, &access, paper_id, 0),
        Err(AppError::Upstream)
    );

    assert_eq!(
        validate_archive_response(&build(), &access, new_id(), 0),
        Err(AppError::Upstream)
    );
    assert_eq!(
        validate_archive_response(&JsonValue::Null, &access, paper_id, 0),
        Err(AppError::Upstream)
    );
}

#[test]
fn completion_event_must_close_a_completed_final_page() {
    let authorization_id = new_id();
    let paper_id = new_id();
    let access = MemberSessionAccess {
        logical_session_id: "paper.raid:done".into(),
        authorization_id,
        roster_version: 1,
        status: "completed".into(),
        nakama_completion_received: true,
    };
    let mut archive = valid_archive(
        &access.logical_session_id,
        &id_text(paper_id),
        &id_text(authorization_id),
        1,
        0,
        &[1],
        1,
    );
    set(item(member(&mut archive, "events"), 0), "event_type", text("research_session_completed"));
    set(item(member(&mut archive, "events"), 0), "participant_slot", number(0));
    assert_eq!(
        validate_archive_response(&archive, &access, paper_id, 0),
        Err(AppError::Upstream)
    );
    set(&mut archive, "status", text("completed"));
    assert!(validate_archive_response(&archive, &access, paper_id, 0).is_ok());
    let read = read_archive(&archive).expect("readable page");
    assert_eq!(read.events.len(), 1);
    assert_eq!(read.status, "completed");
}

#[test]
fn field_validators_are_exact() {
    assert!(validate_session_id("paper.raid:alpha").is_ok());
    assert_eq!(validate_session_id("paper/raid"), Err(AppError::Upstream));
    assert!(valid_text("agent", 512));
    assert!(!valid_text("", 512));
    assert!(!valid_text("a\0b", 512));
    assert!(valid_text(&"é".repeat(512), 512));
    assert!(!valid_text(&"é".repeat(513), 512));
    assert!(valid_uuid("44444444-4444-4444-8444-444444444444"));
    assert!(!valid_uuid("44444444-4444-4444-8444-44444444444A"));
    assert!(!valid_uuid("44444444444444448444444444444444"));
    assert!(valid_base64_payload("e30="));
    assert!(!valid_base64_payload("e30"));
    assert!(!valid_base64_payload("e31="));
    assert!(!valid_base64_payload("===="));
    assert!(!valid_base64_payload(""));
}

#[test]
fn client_settings_refuse_paths_and_bad_keys() {
    assert_eq!(client_settings_error("/", "defaultkey"), None);
    assert_eq!(client_settings_error("", "defaultkey"), None);
    assert_eq!(client_settings_error("/v2", "defaultkey"), Some(BASE_PATH_REFUSED));
    assert_eq!(client_settings_error("/", "short"), Some(HTTP_KEY_REFUSED));
    assert_eq!(client_settings_error("/", &"k".repeat(257)), Some(HTTP_KEY_REFUSED));
    assert_eq!(client_settings_error("/", &"k".repeat(256)), None);
}
