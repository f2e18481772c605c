//! The unranked practice session: a fixed five-step evidence-audit exercise
//! that can never mint ranking, reward, score or finality authority.
//!
//! Identifiers are UUIDs held as their 128-bit value (0 is the nil UUID) and
//! instants are nanoseconds since the Unix epoch.

use vstd::prelude::*;
use crate::text::{bounded_subject, is_bounded_subject, is_digest_text, str_eq, valid_digest_label};

verus! {

pub const PRACTICE_UNRANKED_MODE: &'static str = "practice_unranked";
pub const PRACTICE_SCENARIO_EVIDENCE_AUDIT_INTRO_V1: &'static str = "evidence-audit-intro-v1";
pub const PRACTICE_SESSION_V1: &'static str = "hepta.paper_raid.practice_session.v1";
pub const PRACTICE_ELIGIBILITY_V1: &'static str = "hepta.paper_raid.practice_eligibility.v1";
pub const PRACTICE_BROWSER_ACTION_V1: &'static str = "hepta.paper_raid.practice_browser_action.v1";
pub const PRACTICE_BRIDGE_CLAIM_V1: &'static str = "hepta.paper_raid.practice_bridge_claim.v1";
pub const PRACTICE_BRIDGE_RESULT_V1: &'static str = "hepta.paper_raid.practice_bridge_result.v1";
pub const PRACTICE_EVENT_V1: &'static str = "hepta.paper_raid.practice_event.v1";
pub const PRACTICE_AUTHORITY_NONE: &'static str = "none";

/// Largest integer that JSON consumers represent exactly.
pub const JSON_SAFE_U64_MAX: u64 = 9_007_199_254_740_991;

/// 45 minutes, the longest a practice session may last.
pub const MAX_PRACTICE_DURATION_NANOS: i128 = 2_700_000_000_000;

#[derive(Debug, Clone, PartialEq, Eq)]
pub struct PracticeEligibilityV1 {
    pub schema: String,
    pub authority_kind: String,
    pub activation_eligible: bool,
    pub qualification_eligible: bool,
    pub scientific_finality_eligible: bool,
    pub ranking_eligible: bool,
    pub reward_eligible: bool,
    pub score_eligible: bool,
    pub economic_eligible: bool,
    pub completion_portable: bool,
}

#[derive(Debug, Clone, Copy, PartialEq, Eq)]
pub enum PracticeError {
    InvalidContract(&'static str),
    AuthorityEscape,
    SessionMismatch,
    OwnerMismatch,
    TaskMismatch,
    StaleVersion,
    Expired,
    NotExpired,
    Terminal,
    InvalidTransition,
    VersionExhausted,
}

impl Default for PracticeEligibilityV1 {
    /// The default eligibility is the locked one.
    fn default() -> (r: Self)
        ensures
            r.is_locked(),
    {
        PracticeEligibilityV1::locked()
    }
}

impl PracticeEligibilityV1 {
    /// Some flag would grant an authority that practice never has.
    pub open spec fn escapes(self) -> bool {
        self.activation_eligible || self.qualification_eligible
            || self.scientific_finality_eligible || self.ranking_eligible || self.reward_eligible
            || self.score_eligible || self.economic_eligible || self.completion_portable
    }

    pub open spec fn spec_error(self) -> Option<PracticeError> {
        if self.schema@ != PRACTICE_ELIGIBILITY_V1@ || self.authority_kind@
            != PRACTICE_AUTHORITY_NONE@ {
            Some(PracticeError::InvalidContract("practice eligibility identity"))
        } else if self.escapes() {
            Some(PracticeError::AuthorityEscape)
        } else {
            None
        }
    }

    /// The only eligibility a practice session carries: no authority at all.
    pub open spec fn is_locked(self) -> bool {
        self.schema@ == PRACTICE_ELIGIBILITY_V1@ && self.authority_kind@
            == PRACTICE_AUTHORITY_NONE@ && !self.escapes()
    }

    pub fn locked() -> (r: Self)
        ensures
            r.is_locked(),
    {
        PracticeEligibilityV1 {
            schema: PRACTICE_ELIGIBILITY_V1.to_owned(),
            authority_kind: PRACTICE_AUTHORITY_NONE.to_owned(),
            activation_eligible: false,
            qualification_eligible: false,
            scientific_finality_eligible: false,
            ranking_eligible: false,
            reward_eligible: false,
            score_eligible: false,
            economic_eligible: false,
            completion_portable: false,
        }
    }

    pub fn validate(&self) -> (r: Result<(), PracticeError>)
        ensures
            r == error_result(self.spec_error()),
            r is Ok <==> self.is_locked(),
    {
        if !str_eq(self.schema.as_str(), PRACTICE_ELIGIBILITY_V1) || !str_eq(
            self.authority_kind.as_str(),
            PRACTICE_AUTHORITY_NONE,
        ) {
            return Err(PracticeError::InvalidContract("practice eligibility identity"));
        }
        if self.activation_eligible || self.qualification_eligible
            || self.scientific_finality_eligible || self.ranking_eligible || self.reward_eligible
            || self.score_eligible || self.economic_eligible || self.completion_portable {
            return Err(PracticeError::AuthorityEscape);
        }
        Ok(())
    }
}

/// `Ok` when no error was found, else the first error.
pub open spec fn error_result(e: Option<PracticeError>) -> Result<(), PracticeError> {
    match e {
        Some(e) => Err(e),
        None => Ok(()),
    }
}

#[derive(Debug, Clone, Copy, PartialEq, Eq, Structural)]
pub enum PracticeStageV1 {
    CaptainPlan,
    EvidenceAssessment,
    ExperimentWaitingBridge,
    ExperimentInterpretation,
    CaptainAar,
    Completed,
    Abandoned,
    Expired,
}

impl PracticeStageV1 {
    pub open spec fn terminal(self) -> bool {
        self is Completed || self is Abandoned || self is Expired
    }

    pub fn is_terminal(self) -> (r: bool)
        ensures
            r == self.terminal(),
    {
        match self {
            PracticeStageV1::Completed | PracticeStageV1::Abandoned
            | PracticeStageV1::Expired => true,
            _ => false,
        }
    }
}

#[derive(Debug, Clone, Copy, PartialEq, Eq, Structural)]
pub enum PracticeBridgeTaskStateV1 {
    Pending,
    Claimed,
    Completed,
}

#[derive(Debug, Clone, Copy, PartialEq, Eq)]
pub enum CaptainPlanChoiceV1 {
    AuditHighestRiskClaim,
    AuditEvidenceChainFirst,
}

impl CaptainPlanChoiceV1 {
    pub open spec fn spec_code(self) -> &'static str {
        match self {
            CaptainPlanChoiceV1::AuditHighestRiskClaim => "audit_highest_risk_claim",
            CaptainPlanChoiceV1::AuditEvidenceChainFirst => "audit_evidence_chain_first",
        }
    }

    pub fn code(self) -> (r: &'static str)
        ensures
            r == self.spec_code(),
    {
        match self {
            CaptainPlanChoiceV1::AuditHighestRiskClaim => "audit_highest_risk_claim",
            CaptainPlanChoiceV1::AuditEvidenceChainFirst => "audit_evidence_chain_first",
        }
    }
}

#[derive(Debug, Clone, Copy, PartialEq, Eq)]
pub enum EvidenceAssessmentChoiceV1 {
    UnsupportedClaim,
    CitationMismatch,
    EvidenceSufficient,
}

impl EvidenceAssessmentChoiceV1 {
    pub open spec fn spec_code(self) -> &'static str {
        match self {
            EvidenceAssessmentChoiceV1::UnsupportedClaim => "unsupported_claim",
            EvidenceAssessmentChoiceV1::CitationMismatch => "citation_mismatch",
            EvidenceAssessmentChoiceV1::EvidenceSufficient => "evidence_sufficient",
        }
    }

    pub fn code(self) -> (r: &'static str)
        ensures
            r == self.spec_code(),
    {
        match self {
            EvidenceAssessmentChoiceV1::UnsupportedClaim => "unsupported_claim",
            EvidenceAssessmentChoiceV1::CitationMismatch => "citation_mismatch",
            EvidenceAssessmentChoiceV1::EvidenceSufficient => "evidence_sufficient",
        }
    }
}

#[derive(Debug, Clone, Copy, PartialEq, Eq)]
pub enum PracticeExperimentResultV1 {
    ConcernConfirmed,
    ConcernNotDetected,
    Inconclusive,
}

impl PracticeExperimentResultV1 {
    pub open spec fn spec_code(self) -> &'static str {
        match self {
            PracticeExperimentResultV1::ConcernConfirmed => "concern_confirmed",
            PracticeExperimentResultV1::ConcernNotDetected => "concern_not_detected",
            PracticeExperimentResultV1::Inconclusive => "inconclusive",
        }
    }

    pub fn code(self) -> (r: &'static str)
        ensures
            r == self.spec_code(),
    {
        match self {
            PracticeExperimentResultV1::ConcernConfirmed => "concern_confirmed",
            PracticeExperimentResultV1::ConcernNotDetected => "concern_not_detected",
            PracticeExperimentResultV1::Inconclusive => "inconclusive",
        }
    }
}

#[derive(Debug, Clone, Copy, PartialEq, Eq)]
pub enum ExperimentInterpretationChoiceV1 {
    ReviseClaim,
    RequestMoreEvidence,
    RetainClaimWithCaveat,
}

impl ExperimentInterpretationChoiceV1 {
    pub open spec fn spec_code(self) -> &'static str {
        match self {
            ExperimentInterpretationChoiceV1::ReviseClaim => "revise_claim",
            ExperimentInterpretationChoiceV1::RequestMoreEvidence => "request_more_evidence",
            ExperimentInterpretationChoiceV1::RetainClaimWithCaveat => "retain_claim_with_caveat",
        }
    }

    pub fn code(self) -> (r: &'static str)
        ensures
            r == self.spec_code(),
    {
        match self {
            ExperimentInterpretationChoiceV1::ReviseClaim => "revise_claim",
            ExperimentInterpretationChoiceV1::RequestMoreEvidence => "request_more_evidence",
            ExperimentInterpretationChoiceV1::RetainClaimWithCaveat => "retain_claim_with_caveat",
        }
    }
}

#[derive(Debug, Clone, Copy, PartialEq, Eq)]
pub enum CaptainAarChoiceV1 {
    ImproveEvidenceTriage,
    ImproveExperimentDesign,
    ImproveTeamCoordination,
}

impl CaptainAarChoiceV1 {
    pub open spec fn spec_code(self) -> &'static str {
        match self {
            CaptainAarChoiceV1::ImproveEvidenceTriage => "improve_evidence_triage",
            CaptainAarChoiceV1::ImproveExperimentDesign => "improve_experiment_design",
            CaptainAarChoiceV1::ImproveTeamCoordination => "improve_team_coordination",
        }
    }

    pub fn code(self) -> (r: &'static str)
        ensures
            r == self.spec_code(),
    {
        match self {
            CaptainAarChoiceV1::ImproveEvidenceTriage => "improve_evidence_triage",
            CaptainAarChoiceV1::ImproveExperimentDesign => "improve_experiment_design",
            CaptainAarChoiceV1::ImproveTeamCoordination => "improve_team_coordination",
        }
    }
}

#[derive(Debug, Clone, Copy, PartialEq, Eq, Structural)]
pub enum PracticeTerminalReasonV1 {
    Completed,
    PlayerAbandoned,
    Expired,
}

} // verus!

verus! {

#[derive(Debug, Clone, PartialEq, Eq)]
pub struct PracticeSessionV1 {
    pub schema: String,
    pub practice_session_id: u128,
    pub subject_id: String,
    pub player_id: u128,
    pub binding_id: u128,
    pub mode: String,
    pub scenario_id: String,
    pub eligibility: PracticeEligibilityV1,
    pub stage: PracticeStageV1,
    pub version: u64,
    pub captain_plan: Option<CaptainPlanChoiceV1>,
    pub evidence_assessment: Option<EvidenceAssessmentChoiceV1>,
    pub bridge_task_id: u128,
    pub bridge_task_state: PracticeBridgeTaskStateV1,
    pub bridge_result_code: Option<PracticeExperimentResultV1>,
    pub bridge_result_hash: Option<String>,
    pub experiment_interpretation: Option<ExperimentInterpretationChoiceV1>,
    pub aar_choice: Option<CaptainAarChoiceV1>,
    pub created_at: i128,
    pub expires_at: i128,
    pub updated_at: i128,
    pub terminal_at: Option<i128>,
    pub terminal_reason: Option<PracticeTerminalReasonV1>,
}

/// The terminal reason that belongs to a terminal stage.
pub open spec fn reason_for(stage: PracticeStageV1) -> PracticeTerminalReasonV1 {
    match stage {
        PracticeStageV1::Completed => PracticeTerminalReasonV1::Completed,
        PracticeStageV1::Abandoned => PracticeTerminalReasonV1::PlayerAbandoned,
        _ => PracticeTerminalReasonV1::Expired,
    }
}

/// A text option holds a digest label.
pub open spec fn is_digest_option(o: Option<String>) -> bool {
    match o {
        Some(h) => is_digest_text(h@),
        None => false,
    }
}

impl PracticeSessionV1 {
    /// A bridge result code together with a well-formed result digest.
    pub open spec fn result_pair(self) -> bool {
        self.bridge_result_code is Some && is_digest_option(self.bridge_result_hash)
    }

    pub open spec fn timestamps_ok(self) -> bool {
        self.created_at < self.expires_at && self.expires_at <= self.created_at
            + MAX_PRACTICE_DURATION_NANOS && self.created_at <= self.updated_at
    }

    pub open spec fn result_binding_ok(self) -> bool {
        &&& (self.bridge_result_code is Some) == (self.bridge_result_hash is Some)
        &&& (self.bridge_result_hash is Some ==> self.result_pair())
        &&& (self.bridge_task_state == PracticeBridgeTaskStateV1::Completed) == self.result_pair()
    }

    /// Each answer is given only after the answers that precede it.
    pub open spec fn answer_prefix_ok(self) -> bool {
        &&& (self.evidence_assessment is Some ==> self.captain_plan is Some)
        &&& (self.bridge_task_state != PracticeBridgeTaskStateV1::Pending
            ==> self.evidence_assessment is Some)
        &&& (self.experiment_interpretation is Some ==> self.evidence_assessment is Some
            && self.result_pair())
        &&& (self.aar_choice is Some ==> self.experiment_interpretation is Some)
    }

    pub open spec fn terminal_binding_ok(self) -> bool {
        if self.stage.terminal() {
            self.terminal_at == Some(self.updated_at) && self.terminal_reason == Some(
                reason_for(self.stage),
            )
        } else {
            true
        }
    }

    pub open spec fn active_binding_ok(self) -> bool {
        self.stage.terminal() || (self.terminal_at is None && self.terminal_reason is None)
    }

    /// The answers that each stage carries.
    pub open spec fn stage_shape_ok(self) -> bool {
        match self.stage {
            PracticeStageV1::CaptainPlan => self.captain_plan is None
                && self.evidence_assessment is None && self.bridge_task_state
                == PracticeBridgeTaskStateV1::Pending && self.experiment_interpretation is None
                && self.aar_choice is None,
            PracticeStageV1::EvidenceAssessment => self.captain_plan is Some
                && self.evidence_assessment is None && self.bridge_task_state
                == PracticeBridgeTaskStateV1::Pending && self.experiment_interpretation is None
                && self.aar_choice is None,
            PracticeStageV1::ExperimentWaitingBridge => self.captain_plan is Some
                && self.evidence_assessment is Some && (self.bridge_task_state
                == PracticeBridgeTaskStateV1::Pending || self.bridge_task_state
                == PracticeBridgeTaskStateV1::Claimed) && self.experiment_interpretation is None
                && self.aar_choice is None,
            PracticeStageV1::ExperimentInterpretation => self.captain_plan is Some
                && self.evidence_assessment is Some && self.result_pair()
                && self.experiment_interpretation is None && self.aar_choice is None,
            PracticeStageV1::CaptainAar => self.captain_plan is Some
                && self.evidence_assessment is Some && self.result_pair()
                && self.experiment_interpretation is Some && self.aar_choice is None,
            PracticeStageV1::Completed => self.captain_plan is Some
                && self.evidence_assessment is Some && self.result_pair()
                && self.experiment_interpretation is Some && self.aar_choice is Some,
            _ => true,
        }
    }

    /// The first way in which a session breaks its contract, in the order
    /// `validate` checks them.
    pub open spec fn spec_error(self) -> Option<PracticeError> {
        if self.schema@ != PRACTICE_SESSION_V1@ || self.mode@ != PRACTICE_UNRANKED_MODE@
            || self.scenario_id@ != PRACTICE_SCENARIO_EVIDENCE_AUDIT_INTRO_V1@ {
            Some(PracticeError::InvalidContract("practice session identity"))
        } else if self.practice_session_id == 0 {
            Some(PracticeError::InvalidContract("practice session id"))
        } else if self.player_id == 0 {
            Some(PracticeError::InvalidContract("player id"))
        } else if self.binding_id == 0 {
            Some(PracticeError::InvalidContract("binding id"))
        } else if self.bridge_task_id == 0 {
            Some(PracticeError::InvalidContract("bridge task id"))
        } else if !is_bounded_subject(self.subject_id@) {
            Some(PracticeError::InvalidContract("subject id"))
        } else if self.version == 0 || self.version > JSON_SAFE_U64_MAX {
            Some(PracticeError::InvalidContract("version"))
        } else if !self.timestamps_ok() {
            Some(PracticeError::InvalidContract("practice timestamps"))
        } else if self.eligibility.spec_error() is Some {
            self.eligibility.spec_error()
        } else if !self.result_binding_ok() {
            Some(PracticeError::InvalidContract("bridge result binding"))
        } else if !self.answer_prefix_ok() {
            Some(PracticeError::InvalidContract("practice answer prefix"))
        } else if !self.terminal_binding_ok() {
            Some(PracticeError::InvalidContract("terminal binding"))
        } else if !self.active_binding_ok() {
            Some(PracticeError::InvalidContract("active terminal binding"))
        } else if !self.stage_shape_ok() {
            Some(PracticeError::InvalidContract("practice stage shape"))
        } else {
            None
        }
    }

    /// The session keeps every rule of its contract.
    pub open spec fn valid(self) -> bool {
        self.spec_error() is None
    }

    fn result_pair_exec(&self) -> (r: bool)
        ensures
            r == self.result_pair(),
    {
        match (&self.bridge_result_code, &self.bridge_result_hash) {
            (Some(_), Some(h)) => valid_digest_label(h.as_str()),
            _ => false,
        }
    }

    pub fn validate(&self) -> (r: Result<(), PracticeError>)
        ensures
            r == error_result(self.spec_error()),
    {
        if !str_eq(self.schema.as_str(), PRACTICE_SESSION_V1) || !str_eq(
            self.mode.as_str(),
            PRACTICE_UNRANKED_MODE,
        ) || !str_eq(self.scenario_id.as_str(), PRACTICE_SCENARIO_EVIDENCE_AUDIT_INTRO_V1) {
            return Err(PracticeError::InvalidContract("practice session identity"));
        }
        if self.practice_session_id == 0 {
            return Err(PracticeError::InvalidContract("practice session id"));
        }
        if self.player_id == 0 {
            return Err(PracticeError::InvalidContract("player id"));
        }
        if self.binding_id == 0 {
            return Err(PracticeError::InvalidContract("binding id"));
        }
        if self.bridge_task_id == 0 {
            return Err(PracticeError::InvalidContract("bridge task id"));
        }
        if !bounded_subject(self.subject_id.as_str()) {
            return Err(PracticeError::InvalidContract("subject id"));
        }
        if self.version == 0 || self.version > JSON_SAFE_U64_MAX {
            return Err(PracticeError::InvalidContract("version"));
        }
        let too_long = self.created_at <= i128::MAX - MAX_PRACTICE_DURATION_NANOS
            && self.expires_at > self.created_at + MAX_PRACTICE_DURATION_NANOS;
        if self.expires_at <= self.created_at || too_long || self.updated_at < self.created_at {
            return Err(PracticeError::InvalidContract("practice timestamps"));
        }
        self.eligibility.validate()?;
        let pair = self.result_pair_exec();
        let task_completed = self.bridge_task_state == PracticeBridgeTaskStateV1::Completed;
        if self.bridge_result_code.is_some() != self.bridge_result_hash.is_some() || (
        self.bridge_result_hash.is_some() && !pair) || task_completed != pair {
            return Err(PracticeError::InvalidContract("bridge result binding"));
        }
        if (self.evidence_assessment.is_some() && self.captain_plan.is_none()) || (
        self.bridge_task_state != PracticeBridgeTaskStateV1::Pending
            && self.evidence_assessment.is_none()) || (self.experiment_interpretation.is_some()
            && (self.evidence_assessment.is_none() || !pair)) || (self.aar_choice.is_some()
            && self.experiment_interpretation.is_none()) {
            return Err(PracticeError::InvalidContract("practice answer prefix"));
        }
        if self.stage.is_terminal() {
            let reason = match self.stage {
                PracticeStageV1::Completed => PracticeTerminalReasonV1::Completed,
                PracticeStageV1::Abandoned => PracticeTerminalReasonV1::PlayerAbandoned,
                _ => PracticeTerminalReasonV1::Expired,
            };
            let at_ok = match self.terminal_at {
                Some(at) => at == self.updated_at,
                None => false,
            };
            let reason_ok = match self.terminal_reason {
                Some(r) => r == reason,
                None => false,
            };
            if !at_ok || !reason_ok {
                return Err(PracticeError::InvalidContract("terminal binding"));
            }
        } else if self.terminal_at.is_some() || self.terminal_reason.is_some() {
            return Err(PracticeError::InvalidContract("active terminal binding"));
        }
        let pending = self.bridge_task_state == PracticeBridgeTaskStateV1::Pending;
        let claimed = self.bridge_task_state == PracticeBridgeTaskStateV1::Claimed;
        let shape = match self.stage {
            PracticeStageV1::CaptainPlan => self.captain_plan.is_none()
                && self.evidence_assessment.is_none() && pending
                && self.experiment_interpretation.is_none() && self.aar_choice.is_none(),
            PracticeStageV1::EvidenceAssessment => self.captain_plan.is_some()
                && self.evidence_assessment.is_none() && pending
                && self.experiment_interpretation.is_none() && self.aar_choice.is_none(),
            PracticeStageV1::ExperimentWaitingBridge => self.captain_plan.is_some()
                && self.evidence_assessment.is_some() && (pending || claimed)
                && self.experiment_interpretation.is_none() && self.aar_choice.is_none(),
            PracticeStageV1::ExperimentInterpretation => self.captain_plan.is_some()
                && self.evidence_assessment.is_some() && pair
                && self.experiment_interpretation.is_none() && self.aar_choice.is_none(),
            PracticeStageV1::CaptainAar => self.captain_plan.is_some()
                && self.evidence_assessment.is_some() && pair
                && self.experiment_interpretation.is_some() && self.aar_choice.is_none(),
            PracticeStageV1::Completed => self.captain_plan.is_some()
                && self.evidence_assessment.is_some() && pair
                && self.experiment_interpretation.is_some() && self.aar_choice.is_some(),
            _ => true,
        };
        if !shape {
            return Err(PracticeError::InvalidContract("practice stage shape"));
        }
        Ok(())
    }
}

} // verus!

verus! {

impl PracticeSessionV1 {
    /// The first argument of `new` that keeps the fresh session from its contract.
    pub open spec fn new_error(
        practice_session_id: u128,
        subject_id: Seq<char>,
        player_id: u128,
        binding_id: u128,
        bridge_task_id: u128,
        created_at: i128,
        expires_at: i128,
    ) -> Option<PracticeError> {
        if practice_session_id == 0 {
            Some(PracticeError::InvalidContract("practice session id"))
        } else if player_id == 0 {
            Some(PracticeError::InvalidContract("player id"))
        } else if binding_id == 0 {
            Some(PracticeError::InvalidContract("binding id"))
        } else if bridge_task_id == 0 {
            Some(PracticeError::InvalidContract("bridge task id"))
        } else if !is_bounded_subject(subject_id) {
            Some(PracticeError::InvalidContract("subject id"))
        } else if !(created_at < expires_at && expires_at <= created_at
            + MAX_PRACTICE_DURATION_NANOS) {
            Some(PracticeError::InvalidContract("practice timestamps"))
        } else {
            None
        }
    }

    /// A fresh session at its first stage, version 1, with nothing answered.
    pub open spec fn is_fresh(
        self,
        practice_session_id: u128,
        subject_id: Seq<char>,
        player_id: u128,
        binding_id: u128,
        bridge_task_id: u128,
        created_at: i128,
        expires_at: i128,
    ) -> bool {
        &&& self.schema@ == PRACTICE_SESSION_V1@
        &&& self.practice_session_id == practice_session_id
        &&& self.subject_id@ == subject_id
        &&& self.player_id == player_id
        &&& self.binding_id == binding_id
        &&& self.mode@ == PRACTICE_UNRANKED_MODE@
        &&& self.scenario_id@ == PRACTICE_SCENARIO_EVIDENCE_AUDIT_INTRO_V1@
        &&& self.eligibility.is_locked()
        &&& self.stage == PracticeStageV1::CaptainPlan
        &&& self.version == 1
        &&& self.captain_plan is None
        &&& self.evidence_assessment is None
        &&& self.bridge_task_id == bridge_task_id
        &&& self.bridge_task_state == PracticeBridgeTaskStateV1::Pending
        &&& self.bridge_result_code is None
        &&& self.bridge_result_hash is None
        &&& self.experiment_interpretation is None
        &&& self.aar_choice is None
        &&& self.created_at == created_at
        &&& self.expires_at == expires_at
        &&& self.updated_at == created_at
        &&& self.terminal_at is None
        &&& self.terminal_reason is None
    }

    pub fn new(
        practice_session_id: u128,
        subject_id: String,
        player_id: u128,
        binding_id: u128,
        bridge_task_id: u128,
        created_at: i128,
        expires_at: i128,
    ) -> (r: Result<Self, PracticeError>)
        ensures
            match Self::new_error(
                practice_session_id,
                subject_id@,
                player_id,
                binding_id,
                bridge_task_id,
                created_at,
                expires_at,
            ) {
                Some(e) => r == Err::<Self, PracticeError>(e),
                None => r matches Ok(s) && s.valid() && s.is_fresh(
                    practice_session_id,
                    subject_id@,
                    player_id,
                    binding_id,
                    bridge_task_id,
                    created_at,
                    expires_at,
                ),
            },
    {
        let session = PracticeSessionV1 {
            schema: PRACTICE_SESSION_V1.to_owned(),
            practice_session_id,
            subject_id,
            player_id,
            binding_id,
            mode: PRACTICE_UNRANKED_MODE.to_owned(),
            scenario_id: PRACTICE_SCENARIO_EVIDENCE_AUDIT_INTRO_V1.to_owned(),
            eligibility: PracticeEligibilityV1::locked(),
            stage: PracticeStageV1::CaptainPlan,
            version: 1,
            captain_plan: None,
            evidence_assessment: None,
            bridge_task_id,
            bridge_task_state: PracticeBridgeTaskStateV1::Pending,
            bridge_result_code: None,
            bridge_result_hash: None,
            experiment_interpretation: None,
            aar_choice: None,
            created_at,
            expires_at,
            updated_at: created_at,
            terminal_at: None,
            terminal_reason: None,
        };
        session.validate()?;
        Ok(session)
    }
}

/// The request fields that every practice request carries.
pub open spec fn envelope_error(
    schema: Seq<char>,
    expected_schema: Seq<char>,
    event_id: u128,
    practice_session_id: u128,
    subject_id: Seq<char>,
    player_id: u128,
    binding_id: u128,
    expected_version: u64,
    request_hash: Seq<char>,
) -> Option<PracticeError> {
    if schema != expected_schema {
        Some(PracticeError::InvalidContract("request schema"))
    } else if event_id == 0 {
        Some(PracticeError::InvalidContract("event id"))
    } else if practice_session_id == 0 {
        Some(PracticeError::InvalidContract("practice session id"))
    } else if player_id == 0 {
        Some(PracticeError::InvalidContract("player id"))
    } else if binding_id == 0 {
        Some(PracticeError::InvalidContract("binding id"))
    } else if !is_bounded_subject(subject_id) {
        Some(PracticeError::InvalidContract("subject id"))
    } else if expected_version == 0 || expected_version > JSON_SAFE_U64_MAX || !is_digest_text(
        request_hash,
    ) {
        Some(PracticeError::InvalidContract("request version or hash"))
    } else {
        None
    }
}

fn validate_request_envelope(
    schema: &str,
    expected_schema: &str,
    event_id: u128,
    practice_session_id: u128,
    subject_id: &str,
    player_id: u128,
    binding_id: u128,
    expected_version: u64,
    request_hash: &str,
) -> (r: Result<(), PracticeError>)
    ensures
        r == error_result(
            envelope_error(
                schema@,
                expected_schema@,
                event_id,
                practice_session_id,
                subject_id@,
                player_id,
                binding_id,
                expected_version,
                request_hash@,
            ),
        ),
{
    if !str_eq(schema, expected_schema) {
        return Err(PracticeError::InvalidContract("request schema"));
    }
    if event_id == 0 {
        return Err(PracticeError::InvalidContract("event id"));
    }
    if practice_session_id == 0 {
        return Err(PracticeError::InvalidContract("practice session id"));
    }
    if player_id == 0 {
        return Err(PracticeError::InvalidContract("player id"));
    }
    if binding_id == 0 {
        return Err(PracticeError::InvalidContract("binding id"));
    }
    if !bounded_subject(subject_id) {
        return Err(PracticeError::InvalidContract("subject id"));
    }
    if expected_version == 0 || expected_version > JSON_SAFE_U64_MAX || !valid_digest_label(
        request_hash,
    ) {
        return Err(PracticeError::InvalidContract("request version or hash"));
    }
    Ok(())
}

#[derive(Debug, Clone, PartialEq, Eq)]
pub enum PracticeBrowserActionV1 {
    CaptainPlan { choice: CaptainPlanChoiceV1 },
    EvidenceAssessment { choice: EvidenceAssessmentChoiceV1 },
    ExperimentInterpretation { choice: ExperimentInterpretationChoiceV1 },
    CaptainAar { choice: CaptainAarChoiceV1 },
    Abandon,
}

#[derive(Debug, Clone, PartialEq, Eq)]
pub struct PracticeBrowserActionRequestV1 {
    pub schema: String,
    pub event_id: u128,
    pub practice_session_id: u128,
    pub subject_id: String,
    pub player_id: u128,
    pub binding_id: u128,
    pub expected_version: u64,
    pub request_hash: String,
    pub action: PracticeBrowserActionV1,
}

impl PracticeBrowserActionRequestV1 {
    pub open spec fn spec_error(self) -> Option<PracticeError> {
        envelope_error(
            self.schema@,
            PRACTICE_BROWSER_ACTION_V1@,
            self.event_id,
            self.practice_session_id,
            self.subject_id@,
            self.player_id,
            self.binding_id,
            self.expected_version,
            self.request_hash@,
        )
    }

    pub fn validate(&self) -> (r: Result<(), PracticeError>)
        ensures
            r == error_result(self.spec_error()),
    {
        validate_request_envelope(
            self.schema.as_str(),
            PRACTICE_BROWSER_ACTION_V1,
            self.event_id,
            self.practice_session_id,
            self.subject_id.as_str(),
            self.player_id,
            self.binding_id,
            self.expected_version,
            self.request_hash.as_str(),
        )
    }
}

#[derive(Debug, Clone, PartialEq, Eq)]
pub struct PracticeBridgeClaimRequestV1 {
    pub schema: String,
    pub event_id: u128,
    pub practice_session_id: u128,
    pub subject_id: String,
    pub player_id: u128,
    pub binding_id: u128,
    pub bridge_task_id: u128,
    pub expected_version: u64,
    pub request_hash: String,
}

impl PracticeBridgeClaimRequestV1 {
    pub open spec fn spec_error(self) -> Option<PracticeError> {
        let e = envelope_error(
            self.schema@,
            PRACTICE_BRIDGE_CLAIM_V1@,
            self.event_id,
            self.practice_session_id,
            self.subject_id@,
            self.player_id,
            self.binding_id,
            self.expected_version,
            self.request_hash@,
        );
        if e is Some {
            e
        } else if self.bridge_task_id == 0 {
            Some(PracticeError::InvalidContract("bridge task id"))
        } else {
            None
        }
    }

    pub fn validate(&self) -> (r: Result<(), PracticeError>)
        ensures
            r == error_result(self.spec_error()),
    {
        validate_request_envelope(
            self.schema.as_str(),
            PRACTICE_BRIDGE_CLAIM_V1,
            self.event_id,
            self.practice_session_id,
            self.subject_id.as_str(),
            self.player_id,
            self.binding_id,
            self.expected_version,
            self.request_hash.as_str(),
        )?;
        if self.bridge_task_id == 0 {
            return Err(PracticeError::InvalidContract("bridge task id"));
        }
        Ok(())
    }
}

#[derive(Debug, Clone, PartialEq, Eq)]
pub struct PracticeBridgeResultRequestV1 {
    pub schema: String,
    pub event_id: u128,
    pub practice_session_id: u128,
    pub subject_id: String,
    pub player_id: u128,
    pub binding_id: u128,
    pub bridge_task_id: u128,
    pub expected_version: u64,
    pub request_hash: String,
    pub result_code: PracticeExperimentResultV1,
    pub result_hash: String,
}

impl PracticeBridgeResultRequestV1 {
    pub open spec fn spec_error(self) -> Option<PracticeError> {
        let e = envelope_error(
            self.schema@,
            PRACTICE_BRIDGE_RESULT_V1@,
            self.event_id,
            self.practice_session_id,
            self.subject_id@,
            self.player_id,
            self.binding_id,
            self.expected_version,
            self.request_hash@,
        );
        if e is Some {
            e
        } else if self.bridge_task_id == 0 {
            Some(PracticeError::InvalidContract("bridge task id"))
        } else if !is_digest_text(self.result_hash@) {
            Some(PracticeError::InvalidContract("result hash"))
        } else {
            None
        }
    }

    pub fn validate(&self) -> (r: Result<(), PracticeError>)
        ensures
            r == error_result(self.spec_error()),
    {
        validate_request_envelope(
            self.schema.as_str(),
            PRACTICE_BRIDGE_RESULT_V1,
            self.event_id,
            self.practice_session_id,
            self.subject_id.as_str(),
            self.player_id,
            self.binding_id,
            self.expected_version,
            self.request_hash.as_str(),
        )?;
        if self.bridge_task_id == 0 {
            return Err(PracticeError::InvalidContract("bridge task id"));
        }
        if !valid_digest_label(self.result_hash.as_str()) {
            return Err(PracticeError::InvalidContract("result hash"));
        }
        Ok(())
    }
}

} // verus!

verus! {

#[derive(Debug, Clone, Copy, PartialEq, Eq, Structural)]
pub enum PracticeActorKindV1 {
    Browser,
    Agent,
    Server,
}

#[derive(Debug, Clone, Copy, PartialEq, Eq, Structural)]
pub enum PracticeEventKindV1 {
    CaptainPlanned,
    EvidenceAssessed,
    ExperimentClaimed,
    ExperimentCompleted,
    ExperimentInterpreted,
    AarCompleted,
    Abandoned,
    Expired,
}

#[derive(Debug, Clone, PartialEq, Eq)]
pub struct PracticeEventV1 {
    pub schema: String,
    pub event_id: u128,
    pub practice_session_id: u128,
    pub actor_kind: PracticeActorKindV1,
    pub event_kind: PracticeEventKindV1,
    pub from_version: u64,
    pub to_version: u64,
    pub request_hash: String,
    pub choice_code: Option<String>,
    pub result_hash: Option<String>,
    pub occurred_at: i128,
}

/// The text inside an optional string.
pub open spec fn opt_text(o: Option<String>) -> Option<Seq<char>> {
    match o {
        Some(s) => Some(s@),
        None => None,
    }
}

/// An optional text is one of the listed codes.
pub open spec fn code_in(o: Option<Seq<char>>, codes: Seq<Seq<char>>) -> bool {
    match o {
        Some(c) => codes.contains(c),
        None => false,
    }
}

fn option_code_in(o: &Option<String>, codes: &[&str]) -> (r: bool)
    ensures
        r == match opt_text(*o) {
            Some(c) => exists|i: int| 0 <= i < codes@.len() && codes@[i]@ == c,
            None => false,
        },
{
    match o {
        Some(c) => {
            let mut i: usize = 0;
            while i < codes.len()
                invariant
                    i <= codes@.len(),
                    opt_text(*o) == Some(c@),
                    forall|j: int| 0 <= j < i ==> codes@[j]@ != c@,
                decreases codes.len() - i,
            {
                if str_eq(codes[i], c.as_str()) {
                    assert(codes@[i as int]@ == c@);
                    return true;
                }
                i = i + 1;
            }
            false
        },
        None => false,
    }
}

/// The actor, choice and result each event kind carries.
pub open spec fn event_shape_ok(
    kind: PracticeEventKindV1,
    actor: PracticeActorKindV1,
    c: Option<Seq<char>>,
    has_result: bool,
) -> bool {
    match kind {
        PracticeEventKindV1::CaptainPlanned => actor == PracticeActorKindV1::Browser && (c
            == Some("audit_highest_risk_claim"@) || c == Some("audit_evidence_chain_first"@))
            && !has_result,
        PracticeEventKindV1::EvidenceAssessed => actor == PracticeActorKindV1::Browser && (c
            == Some("unsupported_claim"@) || c == Some("citation_mismatch"@) || c == Some(
            "evidence_sufficient"@,
        )) && !has_result,
        PracticeEventKindV1::ExperimentClaimed => actor == PracticeActorKindV1::Agent && c is None
            && !has_result,
        PracticeEventKindV1::ExperimentCompleted => actor == PracticeActorKindV1::Agent && (c
            == Some("concern_confirmed"@) || c == Some("concern_not_detected"@) || c == Some(
            "inconclusive"@,
        )) && has_result,
        PracticeEventKindV1::ExperimentInterpreted => actor == PracticeActorKindV1::Browser && (c
            == Some("revise_claim"@) || c == Some("request_more_evidence"@) || c == Some(
            "retain_claim_with_caveat"@,
        )) && !has_result,
        PracticeEventKindV1::AarCompleted => actor == PracticeActorKindV1::Browser && (c == Some(
            "improve_evidence_triage"@,
        ) || c == Some("improve_experiment_design"@) || c == Some(
            "improve_team_coordination"@,
        )) && !has_result,
        PracticeEventKindV1::Abandoned => actor == PracticeActorKindV1::Browser && c is None
            && !has_result,
        PracticeEventKindV1::Expired => actor == PracticeActorKindV1::Server && c is None
            && !has_result,
    }
}

/// The first way in which event fields break the event contract.
pub open spec fn event_error(
    schema: Seq<char>,
    event_id: u128,
    practice_session_id: u128,
    actor: PracticeActorKindV1,
    kind: PracticeEventKindV1,
    from_version: u64,
    to_version: u64,
    request_hash: Seq<char>,
    choice: Option<Seq<char>>,
    result: Option<Seq<char>>,
) -> Option<PracticeError> {
    if schema != PRACTICE_EVENT_V1@ {
        Some(PracticeError::InvalidContract("event schema"))
    } else if event_id == 0 {
        Some(PracticeError::InvalidContract("event id"))
    } else if practice_session_id == 0 {
        Some(PracticeError::InvalidContract("practice session id"))
    } else if from_version == 0 || from_version >= JSON_SAFE_U64_MAX || to_version != from_version
        + 1 || to_version > JSON_SAFE_U64_MAX || !is_digest_text(request_hash) || (match result {
        Some(h) => !is_digest_text(h),
        None => false,
    }) {
        Some(PracticeError::InvalidContract("practice event"))
    } else if !event_shape_ok(kind, actor, choice, result is Some) {
        Some(PracticeError::InvalidContract("practice event shape"))
    } else {
        None
    }
}

impl PracticeEventV1 {
    pub open spec fn spec_error(self) -> Option<PracticeError> {
        event_error(
            self.schema@,
            self.event_id,
            self.practice_session_id,
            self.actor_kind,
            self.event_kind,
            self.from_version,
            self.to_version,
            self.request_hash@,
            opt_text(self.choice_code),
            opt_text(self.result_hash),
        )
    }

    /// The event carries exactly these fields.
    pub open spec fn has_fields(
        self,
        event_id: u128,
        practice_session_id: u128,
        actor: PracticeActorKindV1,
        kind: PracticeEventKindV1,
        from_version: u64,
        to_version: u64,
        request_hash: Seq<char>,
        choice: Option<Seq<char>>,
        result: Option<Seq<char>>,
        occurred_at: i128,
    ) -> bool {
        &&& self.schema@ == PRACTICE_EVENT_V1@
        &&& self.event_id == event_id
        &&& self.practice_session_id == practice_session_id
        &&& self.actor_kind == actor
        &&& self.event_kind == kind
        &&& self.from_version == from_version
        &&& self.to_version == to_version
        &&& self.request_hash@ == request_hash
        &&& opt_text(self.choice_code) == choice
        &&& opt_text(self.result_hash) == result
        &&& self.occurred_at == occurred_at
    }

    /// Builds an event and holds it to the event contract.
    pub fn new(
        event_id: u128,
        practice_session_id: u128,
        actor_kind: PracticeActorKindV1,
        event_kind: PracticeEventKindV1,
        from_version: u64,
        to_version: u64,
        request_hash: String,
        choice_code: Option<String>,
        result_hash: Option<String>,
        occurred_at: i128,
    ) -> (r: Result<Self, PracticeError>)
        ensures
            match event_error(
                PRACTICE_EVENT_V1@,
                event_id,
                practice_session_id,
                actor_kind,
                event_kind,
                from_version,
                to_version,
                request_hash@,
                opt_text(choice_code),
                opt_text(result_hash),
            ) {
                Some(e) => r == Err::<Self, PracticeError>(e),
                None => r matches Ok(ev) && ev.has_fields(
                    event_id,
                    practice_session_id,
                    actor_kind,
                    event_kind,
                    from_version,
                    to_version,
                    request_hash@,
                    opt_text(choice_code),
                    opt_text(result_hash),
                    occurred_at,
                ),
            },
    {
        let event = PracticeEventV1 {
            schema: PRACTICE_EVENT_V1.to_owned(),
            event_id,
            practice_session_id,
            actor_kind,
            event_kind,
            from_version,
            to_version,
            request_hash,
            choice_code,
            result_hash,
            occurred_at,
        };
        event.validate()?;
        Ok(event)
    }

    pub fn validate(&self) -> (r: Result<(), PracticeError>)
        ensures
            r == error_result(self.spec_error()),
    {
        if !str_eq(self.schema.as_str(), PRACTICE_EVENT_V1) {
            return Err(PracticeError::InvalidContract("event schema"));
        }
        if self.event_id == 0 {
            return Err(PracticeError::InvalidContract("event id"));
        }
        if self.practice_session_id == 0 {
            return Err(PracticeError::InvalidContract("practice session id"));
        }
        let result_bad = match &self.result_hash {
            Some(h) => !valid_digest_label(h.as_str()),
            None => false,
        };
        if self.from_version == 0 || self.from_version >= JSON_SAFE_U64_MAX || self.to_version
            != self.from_version + 1 || self.to_version > JSON_SAFE_U64_MAX || !valid_digest_label(
            self.request_hash.as_str(),
        ) || result_bad {
            return Err(PracticeError::InvalidContract("practice event"));
        }
        let no_choice = self.choice_code.is_none();
        let no_result = self.result_hash.is_none();
        let shape = match self.event_kind {
            PracticeEventKindV1::CaptainPlanned => self.actor_kind == PracticeActorKindV1::Browser
                && option_code_in(
                &self.choice_code,
                &["audit_highest_risk_claim", "audit_evidence_chain_first"],
            ) && no_result,
            PracticeEventKindV1::EvidenceAssessed => self.actor_kind
                == PracticeActorKindV1::Browser && option_code_in(
                &self.choice_code,
                &["unsupported_claim", "citation_mismatch", "evidence_sufficient"],
            ) && no_result,
            PracticeEventKindV1::ExperimentClaimed => self.actor_kind == PracticeActorKindV1::Agent
                && no_choice && no_result,
            PracticeEventKindV1::ExperimentCompleted => self.actor_kind
                == PracticeActorKindV1::Agent && option_code_in(
                &self.choice_code,
                &["concern_confirmed", "concern_not_detected", "inconclusive"],
            ) && !no_result,
            PracticeEventKindV1::ExperimentInterpreted => self.actor_kind
                == PracticeActorKindV1::Browser && option_code_in(
                &self.choice_code,
                &["revise_claim", "request_more_evidence", "retain_claim_with_caveat"],
            ) && no_result,
            PracticeEventKindV1::AarCompleted => self.actor_kind == PracticeActorKindV1::Browser
                && option_code_in(
                &self.choice_code,
                &[
                    "improve_evidence_triage",
                    "improve_experiment_design",
                    "improve_team_coordination",
                ],
            ) && no_result,
            PracticeEventKindV1::Abandoned => self.actor_kind == PracticeActorKindV1::Browser
                && no_choice && no_result,
            PracticeEventKindV1::Expired => self.actor_kind == PracticeActorKindV1::Server
                && no_choice && no_result,
        };
        if !shape {
            return Err(PracticeError::InvalidContract("practice event shape"));
        }
        Ok(())
    }
}

} // verus!

verus! {

/// A browser action is legal at a stage: each answer only at its own stage,
/// abandonment at any stage that is not terminal.
pub open spec fn browser_action_allowed(
    stage: PracticeStageV1,
    action: PracticeBrowserActionV1,
) -> bool {
    match action {
        PracticeBrowserActionV1::CaptainPlan { .. } => stage == PracticeStageV1::CaptainPlan,
        PracticeBrowserActionV1::EvidenceAssessment { .. } => stage
            == PracticeStageV1::EvidenceAssessment,
        PracticeBrowserActionV1::ExperimentInterpretation { .. } => stage
            == PracticeStageV1::ExperimentInterpretation,
        PracticeBrowserActionV1::CaptainAar { .. } => stage == PracticeStageV1::CaptainAar,
        PracticeBrowserActionV1::Abandon => !stage.terminal(),
    }
}

pub open spec fn browser_event_kind(action: PracticeBrowserActionV1) -> PracticeEventKindV1 {
    match action {
        PracticeBrowserActionV1::CaptainPlan { .. } => PracticeEventKindV1::CaptainPlanned,
        PracticeBrowserActionV1::EvidenceAssessment { .. } => PracticeEventKindV1::EvidenceAssessed,
        PracticeBrowserActionV1::ExperimentInterpretation { .. } =>
            PracticeEventKindV1::ExperimentInterpreted,
        PracticeBrowserActionV1::CaptainAar { .. } => PracticeEventKindV1::AarCompleted,
        PracticeBrowserActionV1::Abandon => PracticeEventKindV1::Abandoned,
    }
}

/// The choice code that a browser action records.
pub open spec fn browser_choice(action: PracticeBrowserActionV1) -> Option<Seq<char>> {
    match action {
        PracticeBrowserActionV1::CaptainPlan { choice } => Some(choice.spec_code()@),
        PracticeBrowserActionV1::EvidenceAssessment { choice } => Some(choice.spec_code()@),
        PracticeBrowserActionV1::ExperimentInterpretation { choice } => Some(choice.spec_code()@),
        PracticeBrowserActionV1::CaptainAar { choice } => Some(choice.spec_code()@),
        PracticeBrowserActionV1::Abandon => None,
    }
}

impl PracticeSessionV1 {
    /// The request does not address this session, its owner, or its version.
    pub open spec fn owner_error(
        self,
        practice_session_id: u128,
        subject_id: Seq<char>,
        player_id: u128,
        binding_id: u128,
        expected_version: u64,
    ) -> Option<PracticeError> {
        if practice_session_id != self.practice_session_id {
            Some(PracticeError::SessionMismatch)
        } else if subject_id != self.subject_id@ || player_id != self.player_id || binding_id
            != self.binding_id {
            Some(PracticeError::OwnerMismatch)
        } else if expected_version != self.version {
            Some(PracticeError::StaleVersion)
        } else {
            None
        }
    }

    /// The session cannot change at `now`.
    pub open spec fn mutable_error(self, now: i128) -> Option<PracticeError> {
        if self.stage.terminal() {
            Some(PracticeError::Terminal)
        } else if now >= self.expires_at {
            Some(PracticeError::Expired)
        } else if now < self.updated_at {
            Some(PracticeError::InvalidContract("non-monotonic time"))
        } else if self.version >= JSON_SAFE_U64_MAX {
            Some(PracticeError::VersionExhausted)
        } else {
            None
        }
    }

    /// One version later, last changed at `now`.
    pub open spec fn advanced(self, now: i128) -> Self {
        PracticeSessionV1 { version: (self.version + 1) as u64, updated_at: now, ..self }
    }

    /// The session after a legal browser action at `now`.
    pub open spec fn after_browser_action(self, action: PracticeBrowserActionV1, now: i128) -> Self {
        let s = match action {
            PracticeBrowserActionV1::CaptainPlan { choice } => PracticeSessionV1 {
                captain_plan: Some(choice),
                stage: PracticeStageV1::EvidenceAssessment,
                ..self
            },
            PracticeBrowserActionV1::EvidenceAssessment { choice } => PracticeSessionV1 {
                evidence_assessment: Some(choice),
                stage: PracticeStageV1::ExperimentWaitingBridge,
                ..self
            },
            PracticeBrowserActionV1::ExperimentInterpretation { choice } => PracticeSessionV1 {
                experiment_interpretation: Some(choice),
                stage: PracticeStageV1::CaptainAar,
                ..self
            },
            PracticeBrowserActionV1::CaptainAar { choice } => PracticeSessionV1 {
                aar_choice: Some(choice),
                stage: PracticeStageV1::Completed,
                terminal_at: Some(now),
                terminal_reason: Some(PracticeTerminalReasonV1::Completed),
                ..self
            },
            PracticeBrowserActionV1::Abandon => PracticeSessionV1 {
                stage: PracticeStageV1::Abandoned,
                terminal_at: Some(now),
                terminal_reason: Some(PracticeTerminalReasonV1::PlayerAbandoned),
                ..self
            },
        };
        s.advanced(now)
    }

    /// Why a browser action is refused, in the order the checks run.
    pub open spec fn browser_action_error(
        self,
        request: PracticeBrowserActionRequestV1,
        now: i128,
    ) -> Option<PracticeError> {
        if self.spec_error() is Some {
            self.spec_error()
        } else if request.spec_error() is Some {
            request.spec_error()
        } else if self.owner_error(
            request.practice_session_id,
            request.subject_id@,
            request.player_id,
            request.binding_id,
            request.expected_version,
        ) is Some {
            self.owner_error(
                request.practice_session_id,
                request.subject_id@,
                request.player_id,
                request.binding_id,
                request.expected_version,
            )
        } else if self.mutable_error(now) is Some {
            self.mutable_error(now)
        } else if !browser_action_allowed(self.stage, request.action) {
            Some(PracticeError::InvalidTransition)
        } else {
            None
        }
    }

    fn ensure_mutable(&self, now: i128) -> (r: Result<(), PracticeError>)
        ensures
            r == error_result(self.mutable_error(now)),
    {
        if self.stage.is_terminal() {
            return Err(PracticeError::Terminal);
        }
        if now >= self.expires_at {
            return Err(PracticeError::Expired);
        }
        if now < self.updated_at {
            return Err(PracticeError::InvalidContract("non-monotonic time"));
        }
        if self.version >= JSON_SAFE_U64_MAX {
            return Err(PracticeError::VersionExhausted);
        }
        Ok(())
    }

    fn validate_request_owner(
        &self,
        practice_session_id: u128,
        subject_id: &str,
        player_id: u128,
        binding_id: u128,
        expected_version: u64,
    ) -> (r: Result<(), PracticeError>)
        ensures
            r == error_result(
                self.owner_error(
                    practice_session_id,
                    subject_id@,
                    player_id,
                    binding_id,
                    expected_version,
                ),
            ),
    {
        if practice_session_id != self.practice_session_id {
            return Err(PracticeError::SessionMismatch);
        }
        if !str_eq(subject_id, self.subject_id.as_str()) || player_id != self.player_id
            || binding_id != self.binding_id {
            return Err(PracticeError::OwnerMismatch);
        }
        if expected_version != self.version {
            return Err(PracticeError::StaleVersion);
        }
        Ok(())
    }

    fn advance(&mut self, now: i128) -> (r: Result<(), PracticeError>)
        ensures
            old(self).version < JSON_SAFE_U64_MAX ==> r is Ok && *final(self) == old(self).advanced(
                now,
            ),
            old(self).version >= JSON_SAFE_U64_MAX ==> r == Err::<(), PracticeError>(
                PracticeError::VersionExhausted,
            ) && *final(self) == *old(self),
    {
        if self.version >= JSON_SAFE_U64_MAX {
            return Err(PracticeError::VersionExhausted);
        }
        self.version = self.version + 1;
        self.updated_at = now;
        Ok(())
    }

    /// Applies one player action: an answer at its own stage, or abandonment.
    pub fn apply_browser_action(
        &mut self,
        request: &PracticeBrowserActionRequestV1,
        now: i128,
    ) -> (r: Result<PracticeEventV1, PracticeError>)
        ensures
            match old(self).browser_action_error(*request, now) {
                Some(e) => r == Err::<PracticeEventV1, PracticeError>(e) && *final(self) == *old(
                    self,
                ),
                None => {
                    &&& *final(self) == old(self).after_browser_action(request.action, now)
                    &&& final(self).valid()
                    &&& r matches Ok(ev) && ev.has_fields(
                        request.event_id,
                        old(self).practice_session_id,
                        PracticeActorKindV1::Browser,
                        browser_event_kind(request.action),
                        old(self).version,
                        (old(self).version + 1) as u64,
                        request.request_hash@,
                        browser_choice(request.action),
                        None,
                        now,
                    )
                },
            },
    {
        self.validate()?;
        request.validate()?;
        self.validate_request_owner(
            request.practice_session_id,
            request.subject_id.as_str(),
            request.player_id,
            request.binding_id,
            request.expected_version,
        )?;
        self.ensure_mutable(now)?;
        let ghost before = *self;
        let from_version = self.version;
        let (event_kind, choice_code): (PracticeEventKindV1, Option<&'static str>) =
            match request.action {
            PracticeBrowserActionV1::CaptainPlan { choice } => {
                if self.stage != PracticeStageV1::CaptainPlan {
                    return Err(PracticeError::InvalidTransition);
                }
                self.captain_plan = Some(choice);
                self.stage = PracticeStageV1::EvidenceAssessment;
                (PracticeEventKindV1::CaptainPlanned, Some(choice.code()))
            },
            PracticeBrowserActionV1::EvidenceAssessment { choice } => {
                if self.stage != PracticeStageV1::EvidenceAssessment {
                    return Err(PracticeError::InvalidTransition);
                }
                self.evidence_assessment = Some(choice);
                self.stage = PracticeStageV1::ExperimentWaitingBridge;
                (PracticeEventKindV1::EvidenceAssessed, Some(choice.code()))
            },
            PracticeBrowserActionV1::ExperimentInterpretation { choice } => {
                if self.stage != PracticeStageV1::ExperimentInterpretation {
                    return Err(PracticeError::InvalidTransition);
                }
                self.experiment_interpretation = Some(choice);
                self.stage = PracticeStageV1::CaptainAar;
                (PracticeEventKindV1::ExperimentInterpreted, Some(choice.code()))
            },
            PracticeBrowserActionV1::CaptainAar { choice } => {
                if self.stage != PracticeStageV1::CaptainAar {
                    return Err(PracticeError::InvalidTransition);
                }
                self.aar_choice = Some(choice);
                self.stage = PracticeStageV1::Completed;
                self.terminal_at = Some(now);
                self.terminal_reason = Some(PracticeTerminalReasonV1::Completed);
                (PracticeEventKindV1::AarCompleted, Some(choice.code()))
            },
            PracticeBrowserActionV1::Abandon => {
                if self.stage.is_terminal() {
                    return Err(PracticeError::InvalidTransition);
                }
                self.stage = PracticeStageV1::Abandoned;
                self.terminal_at = Some(now);
                self.terminal_reason = Some(PracticeTerminalReasonV1::PlayerAbandoned);
                (PracticeEventKindV1::Abandoned, None)
            },
        };
        self.advance(now)?;
        assert(*self == before.after_browser_action(request.action, now));
        self.validate()?;
        let choice_text: Option<String> = match choice_code {
            Some(c) => Some(c.to_owned()),
            None => None,
        };
        PracticeEventV1::new(
            request.event_id,
            self.practice_session_id,
            PracticeActorKindV1::Browser,
            event_kind,
            from_version,
            self.version,
            request.request_hash.clone(),
            choice_text,
            None,
            now,
        )
    }
}

} // verus!

verus! {

impl PracticeSessionV1 {
    /// Why a bridge claim is refused, in the order the checks run.
    pub open spec fn claim_error(self, request: PracticeBridgeClaimRequestV1, now: i128) -> Option<
        PracticeError,
    > {
        if self.spec_error() is Some {
            self.spec_error()
        } else if request.spec_error() is Some {
            request.spec_error()
        } else if self.owner_error(
            request.practice_session_id,
            request.subject_id@,
            request.player_id,
            request.binding_id,
            request.expected_version,
        ) is Some {
            self.owner_error(
                request.practice_session_id,
                request.subject_id@,
                request.player_id,
                request.binding_id,
                request.expected_version,
            )
        } else if request.bridge_task_id != self.bridge_task_id {
            Some(PracticeError::TaskMismatch)
        } else if self.mutable_error(now) is Some {
            self.mutable_error(now)
        } else if self.stage != PracticeStageV1::ExperimentWaitingBridge || self.bridge_task_state
            != PracticeBridgeTaskStateV1::Pending {
            Some(PracticeError::InvalidTransition)
        } else {
            None
        }
    }

    /// Why a bridge result is refused, in the order the checks run.
    pub open spec fn result_error(self, request: PracticeBridgeResultRequestV1, now: i128) -> Option<
        PracticeError,
    > {
        if self.spec_error() is Some {
            self.spec_error()
        } else if request.spec_error() is Some {
            request.spec_error()
        } else if self.owner_error(
            request.practice_session_id,
            request.subject_id@,
            request.player_id,
            request.binding_id,
            request.expected_version,
        ) is Some {
            self.owner_error(
                request.practice_session_id,
                request.subject_id@,
                request.player_id,
                request.binding_id,
                request.expected_version,
            )
        } else if request.bridge_task_id != self.bridge_task_id {
            Some(PracticeError::TaskMismatch)
        } else if self.mutable_error(now) is Some {
            self.mutable_error(now)
        } else if self.stage != PracticeStageV1::ExperimentWaitingBridge || self.bridge_task_state
            != PracticeBridgeTaskStateV1::Claimed {
            Some(PracticeError::InvalidTransition)
        } else {
            None
        }
    }

    /// Why expiry is refused, in the order the checks run.
    pub open spec fn expire_error(self, event_id: u128, request_hash: Seq<char>, now: i128) -> Option<
        PracticeError,
    > {
        if self.spec_error() is Some {
            self.spec_error()
        } else if event_id == 0 {
            Some(PracticeError::InvalidContract("event id"))
        } else if !is_digest_text(request_hash) {
            Some(PracticeError::InvalidContract("request hash"))
        } else if self.stage.terminal() {
            Some(PracticeError::Terminal)
        } else if now < self.expires_at {
            Some(PracticeError::NotExpired)
        } else if now < self.updated_at {
            Some(PracticeError::InvalidContract("non-monotonic time"))
        } else if self.version >= JSON_SAFE_U64_MAX {
            Some(PracticeError::VersionExhausted)
        } else {
            None
        }
    }

    /// The agent takes the pending experiment task.
    pub fn claim_bridge_task(&mut self, request: &PracticeBridgeClaimRequestV1, now: i128) -> (r:
        Result<PracticeEventV1, PracticeError>)
        ensures
            match old(self).claim_error(*request, now) {
                Some(e) => r == Err::<PracticeEventV1, PracticeError>(e) && *final(self) == *old(
                    self,
                ),
                None => {
                    &&& *final(self) == (PracticeSessionV1 {
                        bridge_task_state: PracticeBridgeTaskStateV1::Claimed,
                        ..*old(self)
                    }).advanced(now)
                    &&& final(self).valid()
                    &&& r matches Ok(ev) && ev.has_fields(
                        request.event_id,
                        old(self).practice_session_id,
                        PracticeActorKindV1::Agent,
                        PracticeEventKindV1::ExperimentClaimed,
                        old(self).version,
                        (old(self).version + 1) as u64,
                        request.request_hash@,
                        None,
                        None,
                        now,
                    )
                },
            },
    {
        self.validate()?;
        request.validate()?;
        self.validate_request_owner(
            request.practice_session_id,
            request.subject_id.as_str(),
            request.player_id,
            request.binding_id,
            request.expected_version,
        )?;
        if request.bridge_task_id != self.bridge_task_id {
            return Err(PracticeError::TaskMismatch);
        }
        self.ensure_mutable(now)?;
        if self.stage != PracticeStageV1::ExperimentWaitingBridge || self.bridge_task_state
            != PracticeBridgeTaskStateV1::Pending {
            return Err(PracticeError::InvalidTransition);
        }
        let from_version = self.version;
        self.bridge_task_state = PracticeBridgeTaskStateV1::Claimed;
        self.advance(now)?;
        self.validate()?;
        PracticeEventV1::new(
            request.event_id,
            self.practice_session_id,
            PracticeActorKindV1::Agent,
            PracticeEventKindV1::ExperimentClaimed,
            from_version,
            self.version,
            request.request_hash.clone(),
            None,
            None,
            now,
        )
    }

    /// The agent reports the experiment result for the claimed task.
    pub fn apply_bridge_result(&mut self, request: &PracticeBridgeResultRequestV1, now: i128) -> (r:
        Result<PracticeEventV1, PracticeError>)
        ensures
            match old(self).result_error(*request, now) {
                Some(e) => r == Err::<PracticeEventV1, PracticeError>(e) && *final(self) == *old(
                    self,
                ),
                None => {
                    &&& *final(self) == (PracticeSessionV1 {
                        bridge_task_state: PracticeBridgeTaskStateV1::Completed,
                        bridge_result_code: Some(request.result_code),
                        bridge_result_hash: Some(request.result_hash),
                        stage: PracticeStageV1::ExperimentInterpretation,
                        ..*old(self)
                    }).advanced(now)
                    &&& final(self).valid()
                    &&& r matches Ok(ev) && ev.has_fields(
                        request.event_id,
                        old(self).practice_session_id,
                        PracticeActorKindV1::Agent,
                        PracticeEventKindV1::ExperimentCompleted,
                        old(self).version,
                        (old(self).version + 1) as u64,
                        request.request_hash@,
                        Some(request.result_code.spec_code()@),
                        Some(request.result_hash@),
                        now,
                    )
                },
            },
    {
        self.validate()?;
        request.validate()?;
        self.validate_request_owner(
            request.practice_session_id,
            request.subject_id.as_str(),
            request.player_id,
            request.binding_id,
            request.expected_version,
        )?;
        if request.bridge_task_id != self.bridge_task_id {
            return Err(PracticeError::TaskMismatch);
        }
        self.ensure_mutable(now)?;
        if self.stage != PracticeStageV1::ExperimentWaitingBridge || self.bridge_task_state
            != PracticeBridgeTaskStateV1::Claimed {
            return Err(PracticeError::InvalidTransition);
        }
        let from_version = self.version;
        self.bridge_task_state = PracticeBridgeTaskStateV1::Completed;
        self.bridge_result_code = Some(request.result_code);
        self.bridge_result_hash = Some(request.result_hash.clone());
        self.stage = PracticeStageV1::ExperimentInterpretation;
        self.advance(now)?;
        self.validate()?;
        PracticeEventV1::new(
            request.event_id,
            self.practice_session_id,
            PracticeActorKindV1::Agent,
            PracticeEventKindV1::ExperimentCompleted,
            from_version,
            self.version,
            request.request_hash.clone(),
            Some(request.result_code.code().to_owned()),
            Some(request.result_hash.clone()),
            now,
        )
    }

    /// The server closes a session whose deadline has passed.
    pub fn expire(&mut self, event_id: u128, request_hash: String, now: i128) -> (r: Result<
        PracticeEventV1,
        PracticeError,
    >)
        ensures
            match old(self).expire_error(event_id, request_hash@, now) {
                Some(e) => r == Err::<PracticeEventV1, PracticeError>(e) && *final(self) == *old(
                    self,
                ),
                None => {
                    &&& *final(self) == (PracticeSessionV1 {
                        stage: PracticeStageV1::Expired,
                        terminal_at: Some(now),
                        terminal_reason: Some(PracticeTerminalReasonV1::Expired),
                        ..*old(self)
                    }).advanced(now)
                    &&& final(self).valid()
                    &&& r matches Ok(ev) && ev.has_fields(
                        event_id,
                        old(self).practice_session_id,
                        PracticeActorKindV1::Server,
                        PracticeEventKindV1::Expired,
                        old(self).version,
                        (old(self).version + 1) as u64,
                        request_hash@,
                        None,
                        None,
                        now,
                    )
                },
            },
    {
        self.validate()?;
        if event_id == 0 {
            return Err(PracticeError::InvalidContract("event id"));
        }
        if !valid_digest_label(request_hash.as_str()) {
            return Err(PracticeError::InvalidContract("request hash"));
        }
        if self.stage.is_terminal() {
            return Err(PracticeError::Terminal);
        }
        if now < self.expires_at {
            return Err(PracticeError::NotExpired);
        }
        if now < self.updated_at {
            return Err(PracticeError::InvalidContract("non-monotonic time"));
        }
        if self.version >= JSON_SAFE_U64_MAX {
            return Err(PracticeError::VersionExhausted);
        }
        let from_version = self.version;
        self.stage = PracticeStageV1::Expired;
        self.terminal_at = Some(now);
        self.terminal_reason = Some(PracticeTerminalReasonV1::Expired);
        self.advance(now)?;
        self.validate()?;
        PracticeEventV1::new(
            event_id,
            self.practice_session_id,
            PracticeActorKindV1::Server,
            PracticeEventKindV1::Expired,
            from_version,
            self.version,
            request_hash,
            None,
            None,
            now,
        )
    }
}

} // verus!

verus! {

/// A valid practice session carries no authority of any kind: activation,
/// qualification, finality, ranking, reward, score, economy and portability
/// are all off.
pub proof fn lemma_practice_never_grants_authority(s: PracticeSessionV1)
    requires
        s.valid(),
    ensures
        s.eligibility.is_locked(),
        !s.eligibility.escapes(),
{
}

proof fn lemma_valid_practice_shape(s: PracticeSessionV1)
    requires
        s.valid(),
    ensures
        s.stage_shape_ok(),
        s.answer_prefix_ok(),
        1 <= s.version <= JSON_SAFE_U64_MAX,
{
}

/// A session that has ended refuses every player action, bridge claim,
/// bridge result and expiry.
pub proof fn lemma_terminal_practice_refuses_everything(
    s: PracticeSessionV1,
    action: PracticeBrowserActionRequestV1,
    claim: PracticeBridgeClaimRequestV1,
    result: PracticeBridgeResultRequestV1,
    event_id: u128,
    request_hash: Seq<char>,
    now: i128,
)
    requires
        s.valid(),
        s.stage.terminal(),
    ensures
        s.browser_action_error(action, now) is Some,
        s.claim_error(claim, now) is Some,
        s.result_error(result, now) is Some,
        s.expire_error(event_id, request_hash, now) is Some,
{
}

/// An accepted player action moves the version on by exactly one, keeps the
/// session's identity, owner, task and deadline, and never rewrites an answer
/// already recorded.
pub proof fn lemma_browser_action_keeps_identity_and_answers(
    s: PracticeSessionV1,
    action: PracticeBrowserActionV1,
    now: i128,
)
    requires
        s.valid(),
        browser_action_allowed(s.stage, action),
    ensures
        ({
            let after = s.after_browser_action(action, now);
            &&& after.version == s.version + 1
            &&& after.practice_session_id == s.practice_session_id
            &&& after.subject_id == s.subject_id
            &&& after.player_id == s.player_id
            &&& after.binding_id == s.binding_id
            &&& after.bridge_task_id == s.bridge_task_id
            &&& after.eligibility == s.eligibility
            &&& after.created_at == s.created_at
            &&& after.expires_at == s.expires_at
            &&& after.updated_at == now
            &&& (s.captain_plan is Some ==> after.captain_plan == s.captain_plan)
            &&& (s.evidence_assessment is Some ==> after.evidence_assessment
                == s.evidence_assessment)
            &&& (s.experiment_interpretation is Some ==> after.experiment_interpretation
                == s.experiment_interpretation)
            &&& (s.aar_choice is Some ==> after.aar_choice == s.aar_choice)
            &&& after.bridge_result_code == s.bridge_result_code
            &&& after.bridge_result_hash == s.bridge_result_hash
        }),
{
    lemma_valid_practice_shape(s);
    match action {
        PracticeBrowserActionV1::CaptainPlan { .. } => {},
        PracticeBrowserActionV1::EvidenceAssessment { .. } => {},
        PracticeBrowserActionV1::ExperimentInterpretation { .. } => {},
        PracticeBrowserActionV1::CaptainAar { .. } => {},
        PracticeBrowserActionV1::Abandon => {},
    }
}

/// A completed practice holds every answer of the fixed sequence and the
/// bridge result that it interpreted.
pub proof fn lemma_completed_practice_holds_every_answer(s: PracticeSessionV1)
    requires
        s.valid(),
        s.stage == PracticeStageV1::Completed,
    ensures
        s.captain_plan is Some,
        s.evidence_assessment is Some,
        s.bridge_task_state == PracticeBridgeTaskStateV1::Completed,
        s.bridge_result_code is Some,
        s.bridge_result_hash is Some,
        s.experiment_interpretation is Some,
        s.aar_choice is Some,
        s.terminal_reason == Some(PracticeTerminalReasonV1::Completed),
{
}

} // verus!

verus! {

impl PracticeStageV1 {
    /// The stored name of the value.
    pub open spec fn spec_code(self) -> &'static str {
        match self {
            PracticeStageV1::CaptainPlan => "captain_plan",
            PracticeStageV1::EvidenceAssessment => "evidence_assessment",
            PracticeStageV1::ExperimentWaitingBridge => "experiment_waiting_bridge",
            PracticeStageV1::ExperimentInterpretation => "experiment_interpretation",
            PracticeStageV1::CaptainAar => "captain_aar",
            PracticeStageV1::Completed => "completed",
            PracticeStageV1::Abandoned => "abandoned",
            PracticeStageV1::Expired => "expired",
        }
    }

    pub fn code(self) -> (r: &'static str)
        ensures
            r == self.spec_code(),
    {
        match self {
            PracticeStageV1::CaptainPlan => "captain_plan",
            PracticeStageV1::EvidenceAssessment => "evidence_assessment",
            PracticeStageV1::ExperimentWaitingBridge => "experiment_waiting_bridge",
            PracticeStageV1::ExperimentInterpretation => "experiment_interpretation",
            PracticeStageV1::CaptainAar => "captain_aar",
            PracticeStageV1::Completed => "completed",
            PracticeStageV1::Abandoned => "abandoned",
            PracticeStageV1::Expired => "expired",
        }
    }

    /// The value a stored name denotes, if any.
    pub fn from_code(text: &str) -> (r: Option<Self>)
        ensures
            match r {
                Some(v) => v.spec_code()@ == text@,
                None => forall|v: Self| (#[trigger] v.spec_code())@ != text@,
            },
    {
        proof {
            reveal_strlit("captain_plan");
            reveal_strlit("evidence_assessment");
            reveal_strlit("experiment_waiting_bridge");
            reveal_strlit("experiment_interpretation");
            reveal_strlit("captain_aar");
            reveal_strlit("completed");
            reveal_strlit("abandoned");
            reveal_strlit("expired");
        }
        if str_eq(text, "captain_plan") {
            Some(PracticeStageV1::CaptainPlan)
        } else if str_eq(text, "evidence_assessment") {
            Some(PracticeStageV1::EvidenceAssessment)
        } else if str_eq(text, "experiment_waiting_bridge") {
            Some(PracticeStageV1::ExperimentWaitingBridge)
        } else if str_eq(text, "experiment_interpretation") {
            Some(PracticeStageV1::ExperimentInterpretation)
        } else if str_eq(text, "captain_aar") {
            Some(PracticeStageV1::CaptainAar)
        } else if str_eq(text, "completed") {
            Some(PracticeStageV1::Completed)
        } else if str_eq(text, "abandoned") {
            Some(PracticeStageV1::Abandoned)
        } else if str_eq(text, "expired") {
            Some(PracticeStageV1::Expired)
        } else {
            None
        }
    }
}

impl PracticeBridgeTaskStateV1 {
    /// The stored name of the value.
    pub open spec fn spec_code(self) -> &'static str {
        match self {
            PracticeBridgeTaskStateV1::Pending => "pending",
            PracticeBridgeTaskStateV1::Claimed => "claimed",
            PracticeBridgeTaskStateV1::Completed => "completed",
        }
    }

    pub fn code(self) -> (r: &'static str)
        ensures
            r == self.spec_code(),
    {
        match self {
            PracticeBridgeTaskStateV1::Pending => "pending",
            PracticeBridgeTaskStateV1::Claimed => "claimed",
            PracticeBridgeTaskStateV1::Completed => "completed",
        }
    }

    /// The value a stored name denotes, if any.
    pub fn from_code(text: &str) -> (r: Option<Self>)
        ensures
            match r {
                Some(v) => v.spec_code()@ == text@,
                None => forall|v: Self| (#[trigger] v.spec_code())@ != text@,
            },
    {
        proof {
            reveal_strlit("pending");
            reveal_strlit("claimed");
            reveal_strlit("completed");
        }
        if str_eq(text, "pending") {
            Some(PracticeBridgeTaskStateV1::Pending)
        } else if str_eq(text, "claimed") {
            Some(PracticeBridgeTaskStateV1::Claimed)
        } else if str_eq(text, "completed") {
            Some(PracticeBridgeTaskStateV1::Completed)
        } else {
            None
        }
    }
}

impl CaptainPlanChoiceV1 {
    /// The value a stored name denotes, if any.
    pub fn from_code(text: &str) -> (r: Option<Self>)
        ensures
            match r {
                Some(v) => v.spec_code()@ == text@,
                None => forall|v: Self| (#[trigger] v.spec_code())@ != text@,
            },
    {
        proof {
            reveal_strlit("audit_highest_risk_claim");
            reveal_strlit("audit_evidence_chain_first");
        }
        if str_eq(text, "audit_highest_risk_claim") {
            Some(CaptainPlanChoiceV1::AuditHighestRiskClaim)
        } else if str_eq(text, "audit_evidence_chain_first") {
            Some(CaptainPlanChoiceV1::AuditEvidenceChainFirst)
        } else {
            None
        }
    }
}

impl EvidenceAssessmentChoiceV1 {
    /// The value a stored name denotes, if any.
    pub fn from_code(text: &str) -> (r: Option<Self>)
        ensures
            match r {
                Some(v) => v.spec_code()@ == text@,
                None => forall|v: Self| (#[trigger] v.spec_code())@ != text@,
            },
    {
        proof {
            reveal_strlit("unsupported_claim");
            reveal_strlit("citation_mismatch");
            reveal_strlit("evidence_sufficient");
        }
        if str_eq(text, "unsupported_claim") {
            Some(EvidenceAssessmentChoiceV1::UnsupportedClaim)
        } else if str_eq(text, "citation_mismatch") {
            Some(EvidenceAssessmentChoiceV1::CitationMismatch)
        } else if str_eq(text, "evidence_sufficient") {
            Some(EvidenceAssessmentChoiceV1::EvidenceSufficient)
        } else {
            None
        }
    }
}

impl PracticeExperimentResultV1 {
    /// The value a stored name denotes, if any.
    pub fn from_code(text: &str) -> (r: Option<Self>)
        ensures
            match r {
                Some(v) => v.spec_code()@ == text@,
                None => forall|v: Self| (#[trigger] v.spec_code())@ != text@,
            },
    {
        proof {
            reveal_strlit("concern_confirmed");
            reveal_strlit("concern_not_detected");
            reveal_strlit("inconclusive");
        }
        if str_eq(text, "concern_confirmed") {
            Some(PracticeExperimentResultV1::ConcernConfirmed)
        } else if str_eq(text, "concern_not_detected") {
            Some(PracticeExperimentResultV1::ConcernNotDetected)
        } else if str_eq(text, "inconclusive") {
            Some(PracticeExperimentResultV1::Inconclusive)
        } else {
            None
        }
    }
}

impl ExperimentInterpretationChoiceV1 {
    /// The value a stored name denotes, if any.
    pub fn from_code(text: &str) -> (r: Option<Self>)
        ensures
            match r {
                Some(v) => v.spec_code()@ == text@,
                None => forall|v: Self| (#[trigger] v.spec_code())@ != text@,
            },
    {
        proof {
            reveal_strlit("revise_claim");
            reveal_strlit("request_more_evidence");
            reveal_strlit("retain_claim_with_caveat");
        }
        if str_eq(text, "revise_claim") {
            Some(ExperimentInterpretationChoiceV1::ReviseClaim)
        } else if str_eq(text, "request_more_evidence") {
            Some(ExperimentInterpretationChoiceV1::RequestMoreEvidence)
        } else if str_eq(text, "retain_claim_with_caveat") {
            Some(ExperimentInterpretationChoiceV1::RetainClaimWithCaveat)
        } else {
            None
        }
    }
}

impl CaptainAarChoiceV1 {
    /// The value a stored name denotes, if any.
    pub fn from_code(text: &str) -> (r: Option<Self>)
        ensures
            match r {
                Some(v) => v.spec_code()@ == text@,
                None => forall|v: Self| (#[trigger] v.spec_code())@ != text@,
            },
    {
        proof {
            reveal_strlit("improve_evidence_triage");
            reveal_strlit("improve_experiment_design");
            reveal_strlit("improve_team_coordination");
        }
        if str_eq(text, "improve_evidence_triage") {
            Some(CaptainAarChoiceV1::ImproveEvidenceTriage)
        } else if str_eq(text, "improve_experiment_design") {
            Some(CaptainAarChoiceV1::ImproveExperimentDesign)
        } else if str_eq(text, "improve_team_coordination") {
            Some(CaptainAarChoiceV1::ImproveTeamCoordination)
        } else {
            None
        }
    }
}

impl PracticeTerminalReasonV1 {
    /// The stored name of the value.
    pub open spec fn spec_code(self) -> &'static str {
        match self {
            PracticeTerminalReasonV1::Completed => "completed",
            PracticeTerminalReasonV1::PlayerAbandoned => "player_abandoned",
            PracticeTerminalReasonV1::Expired => "expired",
        }
    }

    pub fn code(self) -> (r: &'static str)
        ensures
            r == self.spec_code(),
    {
        match self {
            PracticeTerminalReasonV1::Completed => "completed",
            PracticeTerminalReasonV1::PlayerAbandoned => "player_abandoned",
            PracticeTerminalReasonV1::Expired => "expired",
        }
    }

    /// The value a stored name denotes, if any.
    pub fn from_code(text: &str) -> (r: Option<Self>)
        ensures
            match r {
                Some(v) => v.spec_code()@ == text@,
                None => forall|v: Self| (#[trigger] v.spec_code())@ != text@,
            },
    {
        proof {
            reveal_strlit("completed");
            reveal_strlit("player_abandoned");
            reveal_strlit("expired");
        }
        if str_eq(text, "completed") {
            Some(PracticeTerminalReasonV1::Completed)
        } else if str_eq(text, "player_abandoned") {
            Some(PracticeTerminalReasonV1::PlayerAbandoned)
        } else if str_eq(text, "expired") {
            Some(PracticeTerminalReasonV1::Expired)
        } else {
            None
        }
    }
}

impl PracticeActorKindV1 {
    /// The stored name of the value.
    pub open spec fn spec_code(self) -> &'static str {
        match self {
            PracticeActorKindV1::Browser => "browser",
            PracticeActorKindV1::Agent => "agent",
            PracticeActorKindV1::Server => "server",
        }
    }

    pub fn code(self) -> (r: &'static str)
        ensures
            r == self.spec_code(),
    {
        match self {
            PracticeActorKindV1::Browser => "browser",
            PracticeActorKindV1::Agent => "agent",
            PracticeActorKindV1::Server => "server",
        }
    }

    /// The value a stored name denotes, if any.
    pub fn from_code(text: &str) -> (r: Option<Self>)
        ensures
            match r {
                Some(v) => v.spec_code()@ == text@,
                None => forall|v: Self| (#[trigger] v.spec_code())@ != text@,
            },
    {
        proof {
            reveal_strlit("browser");
            reveal_strlit("agent");
            reveal_strlit("server");
        }
        if str_eq(text, "browser") {
            Some(PracticeActorKindV1::Browser)
        } else if str_eq(text, "agent") {
            Some(PracticeActorKindV1::Agent)
        } else if str_eq(text, "server") {
            Some(PracticeActorKindV1::Server)
        } else {
            None
        }
    }
}

impl PracticeEventKindV1 {
    /// The stored name of the value.
    pub open spec fn spec_code(self) -> &'static str {
        match self {
            PracticeEventKindV1::CaptainPlanned => "captain_planned",
            PracticeEventKindV1::EvidenceAssessed => "evidence_assessed",
            PracticeEventKindV1::ExperimentClaimed => "experiment_claimed",
            PracticeEventKindV1::ExperimentCompleted => "experiment_completed",
            PracticeEventKindV1::ExperimentInterpreted => "experiment_interpreted",
            PracticeEventKindV1::AarCompleted => "aar_completed",
            PracticeEventKindV1::Abandoned => "abandoned",
            PracticeEventKindV1::Expired => "expired",
        }
    }

    pub fn code(self) -> (r: &'static str)
        ensures
            r == self.spec_code(),
    {
        match self {
            PracticeEventKindV1::CaptainPlanned => "captain_planned",
            PracticeEventKindV1::EvidenceAssessed => "evidence_assessed",
            PracticeEventKindV1::ExperimentClaimed => "experiment_claimed",
            PracticeEventKindV1::ExperimentCompleted => "experiment_completed",
            PracticeEventKindV1::ExperimentInterpreted => "experiment_interpreted",
            PracticeEventKindV1::AarCompleted => "aar_completed",
            PracticeEventKindV1::Abandoned => "abandoned",
            PracticeEventKindV1::Expired => "expired",
        }
    }

    /// The value a stored name denotes, if any.
    pub fn from_code(text: &str) -> (r: Option<Self>)
        ensures
            match r {
                Some(v) => v.spec_code()@ == text@,
                None => forall|v: Self| (#[trigger] v.spec_code())@ != text@,
            },
    {
        proof {
            reveal_strlit("captain_planned");
            reveal_strlit("evidence_assessed");
            reveal_strlit("experiment_claimed");
            reveal_strlit("experiment_completed");
            reveal_strlit("experiment_interpreted");
            reveal_strlit("aar_completed");
            reveal_strlit("abandoned");
            reveal_strlit("expired");
        }
        if str_eq(text, "captain_planned") {
            Some(PracticeEventKindV1::CaptainPlanned)
        } else if str_eq(text, "evidence_assessed") {
            Some(PracticeEventKindV1::EvidenceAssessed)
        } else if str_eq(text, "experiment_claimed") {
            Some(PracticeEventKindV1::ExperimentClaimed)
        } else if str_eq(text, "experiment_completed") {
            Some(PracticeEventKindV1::ExperimentCompleted)
        } else if str_eq(text, "experiment_interpreted") {
            Some(PracticeEventKindV1::ExperimentInterpreted)
        } else if str_eq(text, "aar_completed") {
            Some(PracticeEventKindV1::AarCompleted)
        } else if str_eq(text, "abandoned") {
            Some(PracticeEventKindV1::Abandoned)
        } else if str_eq(text, "expired") {
            Some(PracticeEventKindV1::Expired)
        } else {
            None
        }
    }
}

} // verus!
