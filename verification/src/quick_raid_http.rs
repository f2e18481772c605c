//! What the Quick Raid endpoints decide around the session state machine:
//! the player view, the catalog challenge that backs a raid, and the public
//! answer for each refusal.

use vstd::prelude::*;
use crate::error::{conflict, is_conflict, AppError};
use crate::json::JsonValue;
use crate::practice_http::{remaining_seconds_of, NANOS_PER_SECOND};
use crate::quick_raid::{
    catalog_error, opt_str, QuickRaidAuthorityV1, QuickRaidConclusionV1, QuickRaidEligibilityV1,
    QuickRaidError, QuickRaidEvidenceCardV1, QuickRaidEvidenceChoiceV1, QuickRaidExperimentChoiceV1,
    QuickRaidExperimentRunV1, QuickRaidPaperBundleV1, QuickRaidSessionV1, QuickRaidStageV1,
    QUICK_RAID_CHALLENGE_KEY, QUICK_RAID_FIXED_SEED, QUICK_RAID_MODE, QUICK_RAID_SCENARIO_V1,
};
use crate::text::{contains_text, has_substring};

verus! {

pub const QUICK_RAID_PLAYER_VIEW_V1: &'static str = "hepta.paper_raid.quick_raid_player_view.v1";
/// The catalog description marker of the fixed Quick Raid pack.
pub const QUICK_RAID_PACK_MARKER: &'static str = "pack_id=paper-raid-evidence-audit-quick-seeded-v1";

/// What a player sees of a Quick Raid: the fixed scenario, its progress,
/// its answers and outputs, and the locked eligibility; no owner fields.
#[derive(Debug, Clone, PartialEq, Eq)]
pub struct QuickRaidPlayerViewV1 {
    pub schema: &'static str,
    pub mode: &'static str,
    pub scenario_id: &'static str,
    pub challenge_key: &'static str,
    pub seed: u64,
    pub stage: QuickRaidStageV1,
    pub version: u64,
    pub step: u8,
    pub total_steps: u8,
    pub started_at: i128,
    pub expires_at: i128,
    pub remaining_seconds: i64,
    pub expired: bool,
    pub terminal: bool,
    pub evidence_card: QuickRaidEvidenceCardV1,
    pub evidence_choice: Option<QuickRaidEvidenceChoiceV1>,
    pub experiment_choice: Option<QuickRaidExperimentChoiceV1>,
    pub experiment_run: Option<QuickRaidExperimentRunV1>,
    pub conclusion: Option<QuickRaidConclusionV1>,
    pub paper_bundle: Option<QuickRaidPaperBundleV1>,
    pub eligibility: QuickRaidEligibilityV1,
}

/// The stage a player sees: a live raid past its deadline shows as expired.
pub open spec fn quick_shown_stage(session: QuickRaidSessionV1, now: i128) -> QuickRaidStageV1 {
    if !session.stage.terminal() && now >= session.expires_at {
        QuickRaidStageV1::Expired
    } else {
        session.stage
    }
}

pub open spec fn quick_step(stage: QuickRaidStageV1) -> u8 {
    match stage {
        QuickRaidStageV1::EvidenceReview => 1,
        QuickRaidStageV1::ExperimentRun => 2,
        QuickRaidStageV1::PaperBundleReady => 3,
        QuickRaidStageV1::Completed => 4,
        QuickRaidStageV1::Abandoned | QuickRaidStageV1::Expired => 0,
    }
}

impl QuickRaidEvidenceCardV1 {
    pub fn copy(&self) -> (r: Self)
        ensures
            r == *self,
    {
        QuickRaidEvidenceCardV1 {
            schema: self.schema.clone(),
            evidence_card_id: self.evidence_card_id.clone(),
            seed: self.seed,
            claim: self.claim.clone(),
            observation: self.observation.clone(),
            citation: self.citation.clone(),
            source_digest: self.source_digest.clone(),
        }
    }
}

impl QuickRaidEligibilityV1 {
    pub fn copy(&self) -> (r: Self)
        ensures
            r == *self,
    {
        QuickRaidEligibilityV1 {
            schema: self.schema.clone(),
            authority_kind: self.authority_kind.clone(),
            activation_eligible: self.activation_eligible,
            qualification_eligible: self.qualification_eligible,
            scientific_finality_eligible: self.scientific_finality_eligible,
            ranking_eligible: self.ranking_eligible,
            reward_eligible: self.reward_eligible,
            score_eligible: self.score_eligible,
            economic_eligible: self.economic_eligible,
            completion_portable: self.completion_portable,
        }
    }
}

impl QuickRaidPaperBundleV1 {
    pub fn copy(&self) -> (r: Self)
        ensures
            r.schema == self.schema,
            r.authority == self.authority,
            r.session_id == self.session_id,
            r.seed == self.seed,
            r.evidence_card == self.evidence_card,
            r.experiment_run.run_hash == self.experiment_run.run_hash,
            r.experiment_run.seed == self.experiment_run.seed,
            r.conclusion == self.conclusion,
            r.finality == self.finality,
            r.portable == self.portable,
            r.paper_bundle_hash == self.paper_bundle_hash,
    {
        QuickRaidPaperBundleV1 {
            schema: self.schema.clone(),
            authority: self.authority.copy(),
            session_id: self.session_id,
            seed: self.seed,
            evidence_card: self.evidence_card.copy(),
            experiment_run: self.experiment_run.copy(),
            conclusion: self.conclusion,
            finality: self.finality.clone(),
            portable: self.portable,
            paper_bundle_hash: self.paper_bundle_hash.clone(),
        }
    }
}

impl QuickRaidPlayerViewV1 {
    /// The view of a raid at `now`.
    pub fn from_session(session: &QuickRaidSessionV1, now: i128) -> (r: Self)
        requires
            session.expires_at > now ==> (session.expires_at - now) / NANOS_PER_SECOND as int
                <= i64::MAX,
        ensures
            r.schema@ == QUICK_RAID_PLAYER_VIEW_V1@,
            r.mode@ == QUICK_RAID_MODE@,
            r.scenario_id@ == QUICK_RAID_SCENARIO_V1@,
            r.challenge_key@ == QUICK_RAID_CHALLENGE_KEY@,
            r.seed == QUICK_RAID_FIXED_SEED,
            r.stage == quick_shown_stage(*session, now),
            r.version == session.version,
            r.step == quick_step(quick_shown_stage(*session, now)),
            r.total_steps == 4,
            r.started_at == session.created_at,
            r.expires_at == session.expires_at,
            r.remaining_seconds == remaining_seconds_of(session.expires_at, now),
            r.expired == ((!session.stage.terminal() && now >= session.expires_at)
                || session.stage == QuickRaidStageV1::Expired),
            r.terminal == quick_shown_stage(*session, now).terminal(),
            r.evidence_card == session.evidence_card,
            r.evidence_choice == session.evidence_choice,
            r.experiment_choice == session.experiment_choice,
            r.experiment_run is Some <==> session.experiment_run is Some,
            r.conclusion == session.conclusion,
            r.paper_bundle is Some <==> session.paper_bundle is Some,
            r.paper_bundle matches Some(b) ==> !b.portable == !session.paper_bundle->0.portable
                && b.finality == session.paper_bundle->0.finality,
            r.eligibility == session.eligibility,
    {
        let clock_expired = !session.stage.is_terminal() && now >= session.expires_at;
        let stage = if clock_expired {
            QuickRaidStageV1::Expired
        } else {
            session.stage
        };
        let step: u8 = match stage {
            QuickRaidStageV1::EvidenceReview => 1,
            QuickRaidStageV1::ExperimentRun => 2,
            QuickRaidStageV1::PaperBundleReady => 3,
            QuickRaidStageV1::Completed => 4,
            QuickRaidStageV1::Abandoned | QuickRaidStageV1::Expired => 0,
        };
        let remaining: i64 = if session.expires_at > now {
            ((session.expires_at - now) / NANOS_PER_SECOND) as i64
        } else {
            0
        };
        QuickRaidPlayerViewV1 {
            schema: QUICK_RAID_PLAYER_VIEW_V1,
            mode: QUICK_RAID_MODE,
            scenario_id: QUICK_RAID_SCENARIO_V1,
            challenge_key: QUICK_RAID_CHALLENGE_KEY,
            seed: QUICK_RAID_FIXED_SEED,
            stage,
            version: session.version,
            step,
            total_steps: 4,
            started_at: session.created_at,
            expires_at: session.expires_at,
            remaining_seconds: remaining,
            expired: clock_expired || session.stage == QuickRaidStageV1::Expired,
            terminal: stage.is_terminal(),
            evidence_card: session.evidence_card.copy(),
            evidence_choice: session.evidence_choice,
            experiment_choice: session.experiment_choice,
            experiment_run: match &session.experiment_run {
                Some(run) => Some(run.copy()),
                None => None,
            },
            conclusion: session.conclusion,
            paper_bundle: match &session.paper_bundle {
                Some(b) => Some(b.copy()),
                None => None,
            },
            eligibility: session.eligibility.copy(),
        }
    }
}

/// The public answer for a Quick Raid refusal.
pub open spec fn quick_app_error(e: QuickRaidError, r: AppError) -> bool {
    match e {
        QuickRaidError::ChallengeUnavailable => is_conflict(r, "quick_raid_challenge_unavailable"@),
        QuickRaidError::OwnerMismatch => r == AppError::Forbidden,
        QuickRaidError::StaleVersion => is_conflict(r, "quick_raid_version_changed"@),
        QuickRaidError::Expired => is_conflict(r, "quick_raid_expired"@),
        QuickRaidError::Terminal => is_conflict(r, "quick_raid_terminal"@),
        QuickRaidError::InvalidTransition => is_conflict(r, "quick_raid_invalid_transition"@),
        QuickRaidError::NotExpired => is_conflict(r, "quick_raid_not_expired"@),
        QuickRaidError::AuthorityEscape | QuickRaidError::InvalidContract(_)
        | QuickRaidError::VersionExhausted => r == AppError::Internal,
    }
}

pub fn map_quick_error(error: QuickRaidError) -> (r: AppError)
    ensures
        quick_app_error(error, r),
{
    match error {
        QuickRaidError::ChallengeUnavailable => conflict("quick_raid_challenge_unavailable"),
        QuickRaidError::OwnerMismatch => AppError::Forbidden,
        QuickRaidError::StaleVersion => conflict("quick_raid_version_changed"),
        QuickRaidError::Expired => conflict("quick_raid_expired"),
        QuickRaidError::Terminal => conflict("quick_raid_terminal"),
        QuickRaidError::InvalidTransition => conflict("quick_raid_invalid_transition"),
        QuickRaidError::NotExpired => conflict("quick_raid_not_expired"),
        QuickRaidError::AuthorityEscape | QuickRaidError::InvalidContract(_)
        | QuickRaidError::VersionExhausted => AppError::Internal,
    }
}

/// A stored count read back as unsigned.
pub fn i64_to_u64(value: i64) -> (r: Result<u64, AppError>)
    ensures
        value >= 0 ==> r == Ok::<u64, AppError>(value as u64),
        value < 0 ==> r == Err::<u64, AppError>(AppError::Internal),
{
    if value >= 0 {
        Ok(value as u64)
    } else {
        Err(AppError::Internal)
    }
}

/// A catalog challenge that declares the fixed Quick Raid pack.
pub open spec fn declares_quick_pack(challenge: JsonValue) -> bool {
    has_substring(
        match opt_str(challenge.spec_get("description"@)) {
            Some(d) => d,
            None => Seq::empty(),
        },
        QUICK_RAID_PACK_MARKER@,
    )
}

/// The first catalog challenge among the first `n` that declares the pack.
pub open spec fn first_pack_challenge(items: Seq<JsonValue>, n: int) -> Option<int>
    decreases n,
{
    if n <= 0 {
        None
    } else {
        match first_pack_challenge(items, n - 1) {
            Some(k) => Some(k),
            None => if declares_quick_pack(items[n - 1]) {
                Some(n - 1)
            } else {
                None
            },
        }
    }
}

/// The authority of the first catalog challenge that declares the fixed
/// pack. A catalog that is not a list is an upstream failure; a pack that
/// no challenge declares is not activated; a declared pack that cannot back
/// a raid is unavailable, and a malformed one an upstream failure.
pub fn select_quick_raid_authority(catalog: &JsonValue) -> (r: Result<QuickRaidAuthorityV1, AppError>)
    ensures
        match *catalog {
            JsonValue::Array(items) => match first_pack_challenge(items@, items@.len() as int) {
                None => r matches Err(e) && is_conflict(e, "quick_raid_pack_not_activated"@),
                Some(k) => match catalog_error(items@[k]) {
                    None => r matches Ok(a) && a.valid() && a.is_projection_of(items@[k]),
                    Some(QuickRaidError::ChallengeUnavailable) => r matches Err(e) && is_conflict(
                        e,
                        "quick_raid_pack_unavailable"@,
                    ),
                    Some(_) => r == Err::<QuickRaidAuthorityV1, AppError>(AppError::Upstream),
                },
            },
            _ => r == Err::<QuickRaidAuthorityV1, AppError>(AppError::Upstream),
        },
{
    let items = match catalog {
        JsonValue::Array(items) => items,
        _ => return Err(AppError::Upstream),
    };
    let mut i: usize = 0;
    while i < items.len()
        invariant
            *catalog == JsonValue::Array(*items),
            i <= items@.len(),
            first_pack_challenge(items@, i as int) is None,
        decreases items.len() - i,
    {
        let challenge = &items[i];
        let description: &str = match challenge.get("description") {
            Some(d) => match d.as_str() {
                Some(t) => t,
                None => "",
            },
            None => "",
        };
        proof {
            reveal_strlit("");
            assert(description@ == match opt_str(items@[i as int].spec_get("description"@)) {
                Some(d) => d,
                None => Seq::<char>::empty(),
            });
        }
        if contains_text(description, QUICK_RAID_PACK_MARKER) {
            assert(declares_quick_pack(items@[i as int]));
            proof {
                assert(first_pack_challenge(items@, i + 1) == Some(i as int));
                lemma_first_pack_sticks(items@, i + 1, items@.len() as int);
            }
            return match QuickRaidAuthorityV1::from_catalog(challenge) {
                Ok(a) => Ok(a),
                Err(QuickRaidError::ChallengeUnavailable) => Err(
                    conflict("quick_raid_pack_unavailable"),
                ),
                Err(_) => Err(AppError::Upstream),
            };
        }
        i = i + 1;
    }
    Err(conflict("quick_raid_pack_not_activated"))
}

proof fn lemma_first_pack_sticks(items: Seq<JsonValue>, n: int, m: int)
    requires
        0 <= n <= m,
        first_pack_challenge(items, n) is Some,
    ensures
        first_pack_challenge(items, m) == first_pack_challenge(items, n),
    decreases m - n,
{
    if m > n {
        lemma_first_pack_sticks(items, n, m - 1);
    }
}

} // verus!
