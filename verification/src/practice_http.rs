//! What the practice endpoints decide around the session state machine:
//! the player view, the choice of the one active Agent Bridge binding, the
//! stored version range, and the public answer for each refusal.

use vstd::prelude::*;
use crate::digest::{sha256, sha256_of};
use crate::error::{conflict, is_conflict, AppError};
use crate::json::JsonValue;
use crate::metrics::text_field;
use crate::practice::{
    PracticeEligibilityV1, PracticeError, PracticeSessionV1, PracticeStageV1, JSON_SAFE_U64_MAX,
};
use crate::quick_raid::{canonical_uuid_of, canonical_uuid_value};
use crate::text::{hex_encode, hex_lower, push_chars, push_str, str_eq, string_from_chars};

verus! {

pub const PRACTICE_PLAYER_VIEW_V1: &'static str = "hepta.paper_raid.practice_player_view.v1";
pub const PRACTICE_DURATION_MINUTES: i64 = 20;
/// 20 minutes in nanoseconds.
pub const PRACTICE_DURATION_NANOS: i128 = 1_200_000_000_000;
pub const NANOS_PER_SECOND: i128 = 1_000_000_000;

/// What a player sees of a practice session: no owner, task or digest.
#[derive(Debug, Clone, PartialEq, Eq)]
pub struct PracticePlayerViewV1 {
    pub schema: &'static str,
    pub mode: String,
    pub scenario_id: String,
    pub stage: PracticeStageV1,
    pub version: u64,
    pub role: &'static str,
    pub step: u8,
    pub total_steps: u8,
    pub started_at: i128,
    pub expires_at: i128,
    pub remaining_seconds: i64,
    pub expired: bool,
    pub terminal: bool,
    pub awaiting_agent_bridge: bool,
    pub eligibility: PracticeEligibilityV1,
}

/// The role and step a stage shows.
pub open spec fn practice_role_step(stage: PracticeStageV1) -> (&'static str, u8) {
    match stage {
        PracticeStageV1::CaptainPlan => ("captain", 1),
        PracticeStageV1::EvidenceAssessment => ("evidence", 2),
        PracticeStageV1::ExperimentWaitingBridge => ("experiment", 3),
        PracticeStageV1::ExperimentInterpretation => ("experiment", 4),
        PracticeStageV1::CaptainAar => ("captain", 5),
        PracticeStageV1::Completed => ("debrief", 5),
        PracticeStageV1::Abandoned | PracticeStageV1::Expired => ("practice", 0),
    }
}

/// Whole seconds left until `expires_at`, never negative.
pub open spec fn remaining_seconds_of(expires_at: i128, now: i128) -> int {
    if expires_at > now {
        (expires_at - now) / NANOS_PER_SECOND as int
    } else {
        0
    }
}

/// The stage a player sees: a live session past its deadline shows as expired.
pub open spec fn shown_stage(session: PracticeSessionV1, now: i128) -> PracticeStageV1 {
    if !session.stage.terminal() && now >= session.expires_at {
        PracticeStageV1::Expired
    } else {
        session.stage
    }
}

impl PracticeEligibilityV1 {
    pub fn copy(&self) -> (r: Self)
        ensures
            r.schema@ == self.schema@,
            r.authority_kind@ == self.authority_kind@,
            r.activation_eligible == self.activation_eligible,
            r.qualification_eligible == self.qualification_eligible,
            r.scientific_finality_eligible == self.scientific_finality_eligible,
            r.ranking_eligible == self.ranking_eligible,
            r.reward_eligible == self.reward_eligible,
            r.score_eligible == self.score_eligible,
            r.economic_eligible == self.economic_eligible,
            r.completion_portable == self.completion_portable,
    {
        PracticeEligibilityV1 {
            schema: self.schema.as_str().to_owned(),
            authority_kind: self.authority_kind.as_str().to_owned(),
            activation_eligible: self.activation_eligible,
            qualification_eligible: self.qualification_eligible,
            scientific_finality_eligible: self.scientific_finality_eligible,
            ranking_eligible: self.ranking_eligible,
            reward_eligible: self.reward_eligible,
            score_eligible: self.score_eligible,
            economic_eligible: self.economic_eligible,
            completion_portable: self.completion_portable,
        }
    }
}

impl PracticePlayerViewV1 {
    /// The view of a session at `now`.
    pub fn from_session(session: &PracticeSessionV1, now: i128) -> (r: Self)
        requires
            session.expires_at > now ==> (session.expires_at - now) / NANOS_PER_SECOND as int
                <= i64::MAX,
        ensures
            r.schema@ == PRACTICE_PLAYER_VIEW_V1@,
            r.mode@ == session.mode@,
            r.scenario_id@ == session.scenario_id@,
            r.stage == shown_stage(*session, now),
            r.version == session.version,
            (r.role, r.step) == practice_role_step(shown_stage(*session, now)),
            r.total_steps == 5,
            r.started_at == session.created_at,
            r.expires_at == session.expires_at,
            r.remaining_seconds == remaining_seconds_of(session.expires_at, now),
            r.expired == ((!session.stage.terminal() && now >= session.expires_at)
                || session.stage == PracticeStageV1::Expired),
            r.terminal == shown_stage(*session, now).terminal(),
            r.awaiting_agent_bridge == (shown_stage(*session, now)
                == PracticeStageV1::ExperimentWaitingBridge),
            r.eligibility.schema@ == session.eligibility.schema@,
            r.eligibility.authority_kind@ == session.eligibility.authority_kind@,
            !r.eligibility.escapes() <==> !session.eligibility.escapes(),
            r.eligibility.ranking_eligible == session.eligibility.ranking_eligible,
            r.eligibility.reward_eligible == session.eligibility.reward_eligible,
            r.eligibility.scientific_finality_eligible
                == session.eligibility.scientific_finality_eligible,
    {
        let clock_expired = !session.stage.is_terminal() && now >= session.expires_at;
        let stage = if clock_expired {
            PracticeStageV1::Expired
        } else {
            session.stage
        };
        let (role, step): (&'static str, u8) = match stage {
            PracticeStageV1::CaptainPlan => ("captain", 1),
            PracticeStageV1::EvidenceAssessment => ("evidence", 2),
            PracticeStageV1::ExperimentWaitingBridge => ("experiment", 3),
            PracticeStageV1::ExperimentInterpretation => ("experiment", 4),
            PracticeStageV1::CaptainAar => ("captain", 5),
            PracticeStageV1::Completed => ("debrief", 5),
            PracticeStageV1::Abandoned | PracticeStageV1::Expired => ("practice", 0),
        };
        let remaining: i64 = if session.expires_at > now {
            ((session.expires_at - now) / NANOS_PER_SECOND) as i64
        } else {
            0
        };
        PracticePlayerViewV1 {
            schema: PRACTICE_PLAYER_VIEW_V1,
            mode: session.mode.as_str().to_owned(),
            scenario_id: session.scenario_id.as_str().to_owned(),
            stage,
            version: session.version,
            role,
            step,
            total_steps: 5,
            started_at: session.created_at,
            expires_at: session.expires_at,
            remaining_seconds: remaining,
            expired: clock_expired || session.stage == PracticeStageV1::Expired,
            terminal: stage.is_terminal(),
            awaiting_agent_bridge: stage == PracticeStageV1::ExperimentWaitingBridge,
            eligibility: session.eligibility.copy(),
        }
    }
}

/// The canonical, non-nil UUID a record field holds; anything else is an
/// upstream protocol failure.
pub fn parse_canonical_uuid(value: Option<&JsonValue>) -> (r: Result<u128, AppError>)
    ensures
        match canonical_uuid_of(
            match value {
                Some(v) => Some(*v),
                None => None,
            },
        ) {
            Some(u) => r == Ok::<u128, AppError>(u),
            None => r == Err::<u128, AppError>(AppError::Upstream),
        },
{
    match canonical_uuid_value(value) {
        Some(u) => Ok(u),
        None => Err(AppError::Upstream),
    }
}

/// A binding record that the upstream service may send: its owner and id
/// are canonical UUIDs, the owner is the player, and its status is active
/// or revoked.
pub open spec fn binding_record_ok(record: JsonValue, player_id: u128) -> bool {
    &&& canonical_uuid_of(record.spec_get("player_id"@)) == Some(player_id)
    &&& canonical_uuid_of(record.spec_get("binding_id"@)) is Some
    &&& (text_field(record, "status"@) == Some("active"@) || text_field(record, "status"@) == Some(
        "revoked"@,
    ))
}

pub open spec fn is_active_record(record: JsonValue) -> bool {
    text_field(record, "status"@) == Some("active"@)
}

/// The ids of the active bindings among the first `n` records.
pub open spec fn active_ids(records: Seq<JsonValue>, n: int) -> Seq<u128>
    decreases n,
{
    if n <= 0 {
        Seq::empty()
    } else {
        active_ids(records, n - 1) + if is_active_record(records[n - 1]) {
            seq![canonical_uuid_of(records[n - 1].spec_get("binding_id"@))->0]
        } else {
            Seq::empty()
        }
    }
}

/// What the binding list decides: an upstream failure for any malformed or
/// foreign record, a conflict unless exactly one binding is active, else
/// that binding.
pub open spec fn active_binding_outcome(records: JsonValue, player_id: u128) -> Option<Option<u128>> {
    match records {
        JsonValue::Array(items) => if exists|k: int|
            0 <= k < items@.len() && !binding_record_ok(#[trigger] items@[k], player_id) {
            None
        } else if active_ids(items@, items@.len() as int).len() == 1 {
            Some(Some(active_ids(items@, items@.len() as int)[0]))
        } else {
            Some(None)
        },
        _ => None,
    }
}

fn text_field_is(v: &JsonValue, key: &str, expected: &str) -> (r: bool)
    ensures
        r == (text_field(*v, key@) == Some(expected@)),
{
    match v.get(key) {
        Some(f) => match f.as_str() {
            Some(t) => str_eq(t, expected),
            None => false,
        },
        None => false,
    }
}

/// The one active Agent Bridge binding of the player, as the upstream list
/// reports it; `conflict_code` names the conflict when there is not exactly one.
pub fn exact_active_binding(records: &JsonValue, player_id: u128, conflict_code: &str) -> (r: Result<
    u128,
    AppError,
>)
    ensures
        match active_binding_outcome(*records, player_id) {
            None => r == Err::<u128, AppError>(AppError::Upstream),
            Some(None) => r matches Err(e) && is_conflict(e, conflict_code@),
            Some(Some(id)) => r == Ok::<u128, AppError>(id),
        },
{
    let items = match records {
        JsonValue::Array(items) => items,
        _ => return Err(AppError::Upstream),
    };
    let mut active: Vec<u128> = Vec::new();
    let mut i: usize = 0;
    while i < items.len()
        invariant
            *records == JsonValue::Array(*items),
            i <= items@.len(),
            forall|k: int| 0 <= k < i ==> binding_record_ok(#[trigger] items@[k], player_id),
            active@ == active_ids(items@, i as int),
        decreases items.len() - i,
    {
        let record = &items[i];
        let owner = match parse_canonical_uuid(record.get("player_id")) {
            Ok(u) => u,
            Err(e) => {
                assert(!binding_record_ok(items@[i as int], player_id));
                return Err(e);
            },
        };
        let binding_id = match parse_canonical_uuid(record.get("binding_id")) {
            Ok(u) => u,
            Err(e) => {
                assert(!binding_record_ok(items@[i as int], player_id));
                return Err(e);
            },
        };
        let has_status = match record.get("status") {
            Some(s) => s.as_str().is_some(),
            None => false,
        };
        if !has_status {
            assert(!binding_record_ok(items@[i as int], player_id));
            return Err(AppError::Upstream);
        }
        if owner != player_id {
            assert(!binding_record_ok(items@[i as int], player_id));
            return Err(AppError::Upstream);
        }
        if text_field_is(record, "status", "active") {
            active.push(binding_id);
        } else if text_field_is(record, "status", "revoked") {
        } else {
            assert(!binding_record_ok(items@[i as int], player_id));
            return Err(AppError::Upstream);
        }
        i = i + 1;
        assert(active@ =~= active_ids(items@, i as int));
    }
    if active.len() != 1 {
        return Err(conflict(conflict_code));
    }
    Ok(active[0])
}

/// A stored version read back: positive and within the JSON-safe range.
pub fn i64_to_version(value: i64) -> (r: Result<u64, AppError>)
    ensures
        0 < value <= JSON_SAFE_U64_MAX ==> r == Ok::<u64, AppError>(value as u64),
        !(0 < value <= JSON_SAFE_U64_MAX) ==> r == Err::<u64, AppError>(AppError::Internal),
{
    if value > 0 && value as u64 <= JSON_SAFE_U64_MAX {
        Ok(value as u64)
    } else {
        Err(AppError::Internal)
    }
}

/// A version to store: positive and within the JSON-safe range.
pub fn version_to_i64(value: u64) -> (r: Result<i64, AppError>)
    ensures
        0 < value <= JSON_SAFE_U64_MAX ==> r == Ok::<i64, AppError>(value as i64),
        !(0 < value <= JSON_SAFE_U64_MAX) ==> r == Err::<i64, AppError>(AppError::Internal),
{
    if value == 0 || value > JSON_SAFE_U64_MAX {
        return Err(AppError::Internal);
    }
    Ok(value as i64)
}

/// `sha256:` and the lower-case hex SHA-256 of the bytes.
pub open spec fn digest_label_of_bytes(bytes: Seq<u8>) -> Seq<char> {
    "sha256:"@ + hex_lower(sha256_of(bytes))
}

pub fn digest_label(bytes: &[u8]) -> (r: String)
    ensures
        r@ == digest_label_of_bytes(bytes@),
{
    let mut out: Vec<char> = Vec::new();
    push_str(&mut out, "sha256:");
    push_chars(&mut out, &hex_encode(sha256(bytes).as_slice()));
    proof {
        reveal_strlit("sha256:");
    }
    string_from_chars(&out)
}

/// The public answer for a practice refusal: foreign or escaping requests
/// are forbidden, stale versions and expiry are named conflicts, contract
/// breaks are internal failures.
pub open spec fn practice_app_error(e: PracticeError, r: AppError) -> bool {
    match e {
        PracticeError::OwnerMismatch | PracticeError::SessionMismatch | PracticeError::TaskMismatch
        | PracticeError::AuthorityEscape => r == AppError::Forbidden,
        PracticeError::StaleVersion => is_conflict(r, "practice_version_changed"@),
        PracticeError::Expired | PracticeError::NotExpired => is_conflict(r, "practice_expired"@),
        PracticeError::Terminal | PracticeError::InvalidTransition => is_conflict(
            r,
            "practice_transition_rejected"@,
        ),
        PracticeError::InvalidContract(_) | PracticeError::VersionExhausted => r
            == AppError::Internal,
    }
}

pub fn map_practice_error(error: PracticeError) -> (r: AppError)
    ensures
        practice_app_error(error, r),
{
    match error {
        PracticeError::OwnerMismatch | PracticeError::SessionMismatch | PracticeError::TaskMismatch
        | PracticeError::AuthorityEscape => AppError::Forbidden,
        PracticeError::StaleVersion => conflict("practice_version_changed"),
        PracticeError::Expired | PracticeError::NotExpired => conflict("practice_expired"),
        PracticeError::Terminal | PracticeError::InvalidTransition => conflict(
            "practice_transition_rejected",
        ),
        PracticeError::InvalidContract(_) | PracticeError::VersionExhausted => AppError::Internal,
    }
}

} // verus!
