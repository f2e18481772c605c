use paper_raid_bff::error::AppError;
use paper_raid_bff::frames::{
    citation_evidence, citation_locators, citation_source_identifier, decision_binding,
    section_merge_binding, section_review_binding, team_acceptance_binding,
    AcceptanceFramePayload, MergeRequest, TeamMemberSigningSnapshot, TeamSigningSnapshot,
};
use paper_raid_bff::json::{JsonNumber, JsonValue};

fn text(value: &str) -> JsonValue {
    JsonValue::String(value.to_string())
}

fn number(value: u64) -> JsonValue {
    JsonValue::Number(JsonNumber::Unsigned(value))
}

fn object(members: Vec<(&str, JsonValue)>) -> JsonValue {
    JsonValue::Object(
        members
            .into_iter()
            .map(|(key, value)| (key.to_string(), value))
            .collect(),
    )
}

fn id(value: u128) -> JsonValue {
    text(&uuid::Uuid::from_u128(value).to_string())
}

const PAPER: u128 = 1;
const HOLDER: u128 = 2;
const OTHER: u128 = 3;
const REVISION: u128 = 10;
const PARENT: u128 = 11;
const LEASE: u128 = 12;
const PROPOSAL: u128 = 13;
const CARD: u128 = 14;
// 2026-08-11T02:00:00Z
const EXPIRY_SECS: i64 = 1_786_413_600;

fn room(revision_status: &str, head_parent: u128) -> JsonValue {
    object(vec![
        ("paper", object(vec![("paper_project_id", id(PAPER))])),
        (
            "proposals",
            JsonValue::Array(vec![object(vec![
                ("proposal_id", id(PROPOSAL)),
                ("version", number(4)),
                ("status", text("submitted")),
            ])]),
        ),
        (
            "section_revisions",
            JsonValue::Array(vec![object(vec![
                ("section_revision_id", id(REVISION)),
                ("section_key", text("methods")),
                ("version", number(2)),
                ("status", text(revision_status)),
                ("parent_revision_id", id(PARENT)),
                ("lease_id", id(LEASE)),
                ("fencing_token", number(7)),
            ])]),
        ),
        (
            "leases",
            JsonValue::Array(vec![object(vec![
                ("lease_id", id(LEASE)),
                ("holder_player_id", id(HOLDER)),
                ("status", text("active")),
                ("section_key", text("methods")),
                ("fencing_token", number(7)),
                ("expires_at", text("2026-08-11T02:00:00Z")),
            ])]),
        ),
        (
            "section_heads",
            JsonValue::Array(vec![object(vec![
                ("section_key", text("methods")),
                ("current_head_revision_id", id(head_parent)),
                ("fencing_token", number(7)),
            ])]),
        ),
        (
            "evidence_cards",
            JsonValue::Array(vec![object(vec![
                ("evidence_card_id", id(CARD)),
                ("source_hash", text(&format!("sha256:{}", "a".repeat(64)))),
                ("locator", text("p. 3")),
                ("license", text("CC-BY-4.0")),
            ])]),
        ),
    ])
}

#[test]
fn decisions_bind_the_current_submitted_proposal() {
    let r = room("proposed", PARENT);
    assert_eq!(decision_binding(&r, PAPER, PROPOSAL, 4), Ok(()));
    assert!(matches!(decision_binding(&r, PAPER, PROPOSAL, 3), Err(AppError::Conflict(_))));
    assert_eq!(decision_binding(&r, PAPER, 99, 4), Err(AppError::NotFound));
    assert_eq!(decision_binding(&r, 98, PROPOSAL, 4), Err(AppError::Upstream));
}

#[test]
fn section_reviews_bind_the_proposed_revision_and_exclude_the_holder() {
    let r = room("proposed", PARENT);
    assert_eq!(section_review_binding(&r, PAPER, REVISION, 2, OTHER), Ok(()));
    assert_eq!(section_review_binding(&r, PAPER, REVISION, 2, HOLDER), Err(AppError::Forbidden));
    assert_eq!(
        section_review_binding(&r, PAPER, REVISION, 1, OTHER),
        Err(AppError::Conflict(
            "section review must bind the current proposed revision".to_string()
        ))
    );
    let approved = room("approved", PARENT);
    assert!(matches!(
        section_review_binding(&approved, PAPER, REVISION, 2, OTHER),
        Err(AppError::Conflict(_))
    ));
}

fn merge() -> MergeRequest {
    MergeRequest {
        section_revision_id: REVISION,
        merged_section_revision_id: REVISION,
        parent_revision_id: PARENT,
        lease_id: LEASE,
        fencing_token: 7,
        expected_revision_version: 2,
    }
}

#[test]
fn merges_bind_revision_lease_and_head() {
    let r = room("approved", PARENT);
    assert_eq!(
        section_merge_binding(&r, PAPER, &merge(), HOLDER, EXPIRY_SECS - 1),
        Ok("methods".to_string())
    );
    assert_eq!(
        section_merge_binding(&r, PAPER, &merge(), HOLDER, EXPIRY_SECS),
        Err(AppError::Conflict(
            "section merge requires the holder's current unexpired lease".to_string()
        ))
    );
    assert!(matches!(
        section_merge_binding(&r, PAPER, &merge(), OTHER, EXPIRY_SECS - 1),
        Err(AppError::Conflict(_))
    ));
    let mut sideways = merge();
    sideways.merged_section_revision_id = 20;
    assert_eq!(
        section_merge_binding(&r, PAPER, &sideways, HOLDER, EXPIRY_SECS - 1),
        Err(AppError::Invalid(
            "merge must advance to the reviewed section revision".to_string()
        ))
    );
    let mut other_token = merge();
    other_token.fencing_token = 8;
    assert_eq!(
        section_merge_binding(&r, PAPER, &other_token, HOLDER, EXPIRY_SECS - 1),
        Err(AppError::Conflict(
            "section merge must bind the current approved revision".to_string()
        ))
    );
    let moved_head = room("approved", 30);
    assert_eq!(
        section_merge_binding(&moved_head, PAPER, &merge(), HOLDER, EXPIRY_SECS - 1),
        Err(AppError::Conflict(
            "section merge does not match the authoritative head".to_string()
        ))
    );
    let proposed = room("proposed", PARENT);
    assert!(matches!(
        section_merge_binding(&proposed, PAPER, &merge(), HOLDER, EXPIRY_SECS - 1),
        Err(AppError::Conflict(_))
    ));
}

#[test]
fn citations_need_a_well_formed_locator() {
    assert_eq!(
        citation_locators(None, None),
        Err(AppError::Invalid("citation requires a DOI or canonical_url".to_string()))
    );
    assert_eq!(citation_locators(Some("10.1000/xyz"), None), Ok(()));
    for bad in ["11.1000/xyz", "10.1000", "10.1000/x y", "10.", "1"] {
        assert_eq!(
            citation_locators(Some(bad), None),
            Err(AppError::Invalid("citation DOI is invalid".to_string())),
            "{bad}"
        );
    }
    assert_eq!(citation_locators(None, Some("https://example.org/paper")), Ok(()));
    assert!(matches!(
        citation_locators(Some("10.1000/xyz"), Some("http://example.org/paper")),
        Err(AppError::Invalid(_))
    ));
    assert_eq!(
        citation_source_identifier(Some("10.1000/xyz"), None),
        "citation-doi\n10.1000/xyz\ncitation-url\n-"
    );
    assert_eq!(
        citation_source_identifier(None, Some("https://example.org/paper")),
        "citation-doi\n-\ncitation-url\nhttps://example.org/paper"
    );
}

#[test]
fn citations_read_the_cited_evidence_card() {
    let r = room("proposed", PARENT);
    assert_eq!(
        citation_evidence(&r, PAPER, CARD),
        Ok((
            format!("sha256:{}", "a".repeat(64)),
            "p. 3".to_string(),
            "CC-BY-4.0".to_string()
        ))
    );
    assert_eq!(citation_evidence(&r, PAPER, 99), Err(AppError::NotFound));
    assert_eq!(citation_evidence(&r, 98, CARD), Err(AppError::Upstream));
}

fn team() -> TeamSigningSnapshot {
    TeamSigningSnapshot {
        team_id: 50,
        challenge_id: 51,
        version: 3,
        roster_version: 2,
        collaboration_compact_hash: format!("sha256:{}", "c".repeat(64)),
        members: vec![
            TeamMemberSigningSnapshot {
                participant_slot: 0,
                player_id: OTHER,
                binding_id: 60,
                agent_id: "agent-a".to_string(),
                role: "captain".to_string(),
            },
            TeamMemberSigningSnapshot {
                participant_slot: 1,
                player_id: HOLDER,
                binding_id: 61,
                agent_id: "agent-b".to_string(),
                role: "evidence".to_string(),
            },
        ],
    }
}

fn acceptance() -> AcceptanceFramePayload {
    AcceptanceFramePayload {
        acceptance_id: 70,
        expected_team_version: 3,
        roster_version: 2,
        participant_slot: 1,
        binding_id: 61,
        role: "evidence".to_string(),
        collaboration_compact_hash: format!("sha256:{}", "c".repeat(64)),
    }
}

#[test]
fn team_acceptances_match_the_current_roster() {
    assert_eq!(team_acceptance_binding(&team(), 50, &acceptance(), HOLDER), Ok(1));
    assert_eq!(team_acceptance_binding(&team(), 50, &acceptance(), 99), Err(AppError::Forbidden));
    let mut stale = acceptance();
    stale.roster_version = 1;
    assert_eq!(
        team_acceptance_binding(&team(), 50, &stale, HOLDER),
        Err(AppError::Conflict(
            "team acceptance payload does not match the current roster".to_string()
        ))
    );
    let mut other_role = acceptance();
    other_role.role = "captain".to_string();
    assert!(matches!(
        team_acceptance_binding(&team(), 50, &other_role, HOLDER),
        Err(AppError::Conflict(_))
    ));
    assert!(matches!(
        team_acceptance_binding(&team(), 52, &acceptance(), HOLDER),
        Err(AppError::Conflict(_))
    ));
}
