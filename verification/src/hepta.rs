//! Browser commands forwarded to the Hepta API: the fixed route that each
//! command may take, the envelope locators it needs, and the checks on the
//! payload and on the upstream answer.
//!
//! UUIDs are held as their 128-bit value; a path spells them in the
//! canonical lower-case hyphenated form.

use vstd::prelude::*;
use crate::error::AppError;
use crate::json::JsonValue;
use crate::text::{push_chars, push_str, str_eq, string_from_chars, uuid_chars, uuid_text};

verus! {

#[derive(Debug, Clone, Copy, PartialEq, Eq)]
pub enum CommandName {
    RotateHumanSigningKey,
    RevokeHumanSigningKey,
    CreateAgentBinding,
    RotateAgentBindingKey,
    CreateResearchTeam,
    AcceptResearchTeamMembership,
    LockResearchTeam,
    CreatePaperProject,
    TransitionPaperChallengeOutcome,
    TransitionPaperProject,
    CreatePaperWorkItem,
    TransitionPaperWorkItem,
    CreatePaperRevision,
    PromotePaperReleaseCandidate,
    CreateAuthorshipConsent,
    FinalizeJointPaperSubmission,
    StartPaperRework,
    IssueResearchSessionAuthorizationSet,
    ReplaceResearchSessionAuthorizationSet,
    CreateNakamaResearchSessionControl,
    ResumeNakamaResearchSessionControl,
    ReplaceNakamaResearchSessionRosterControl,
    CompleteNakamaResearchSessionControl,
    QueueMatchmaking,
    CancelMatchmakingTicket,
    DecideTeamProposal,
    MaterializeTeamProposal,
    CreateEvidenceCard,
    CreateCitationRecord,
    CreateExperimentPlan,
    CreateRunRecord,
    CreateRoleResourceAction,
    CreateFigureLineage,
    CreateClaimRecord,
    AcquireSectionLease,
    SubmitAgentProposal,
    RecordHumanDecision,
    RegisterArtifact,
    CreateSectionRevision,
    SubmitReview,
    MergeSection,
    CreateContributionLedger,
    ClaimReviewAssignment,
    CreatePaperEvaluation,
    CreatePaperEvaluationDraft,
    SubmitEvaluationDraftAttestation,
    FinalizePaperEvaluationDraft,
    SubmitReproduction,
    SubmitAppeal,
    ResolveAppeal,
}

impl CommandName {
    /// The command's wire name.
    pub open spec fn spec_code(self) -> &'static str {
        match self {
            CommandName::RotateHumanSigningKey => "rotate_human_signing_key",
            CommandName::RevokeHumanSigningKey => "revoke_human_signing_key",
            CommandName::CreateAgentBinding => "create_agent_binding",
            CommandName::RotateAgentBindingKey => "rotate_agent_binding_key",
            CommandName::CreateResearchTeam => "create_research_team",
            CommandName::AcceptResearchTeamMembership => "accept_research_team_membership",
            CommandName::LockResearchTeam => "lock_research_team",
            CommandName::CreatePaperProject => "create_paper_project",
            CommandName::TransitionPaperChallengeOutcome => "transition_paper_challenge_outcome",
            CommandName::TransitionPaperProject => "transition_paper_project",
            CommandName::CreatePaperWorkItem => "create_paper_work_item",
            CommandName::TransitionPaperWorkItem => "transition_paper_work_item",
            CommandName::CreatePaperRevision => "create_paper_revision",
            CommandName::PromotePaperReleaseCandidate => "promote_paper_release_candidate",
            CommandName::CreateAuthorshipConsent => "create_authorship_consent",
            CommandName::FinalizeJointPaperSubmission => "finalize_joint_paper_submission",
            CommandName::StartPaperRework => "start_paper_rework",
            CommandName::IssueResearchSessionAuthorizationSet => "issue_research_session_authorization_set",
            CommandName::ReplaceResearchSessionAuthorizationSet => "replace_research_session_authorization_set",
            CommandName::CreateNakamaResearchSessionControl => "create_nakama_research_session_control",
            CommandName::ResumeNakamaResearchSessionControl => "resume_nakama_research_session_control",
            CommandName::ReplaceNakamaResearchSessionRosterControl => "replace_nakama_research_session_roster_control",
            CommandName::CompleteNakamaResearchSessionControl => "complete_nakama_research_session_control",
            CommandName::QueueMatchmaking => "queue_matchmaking",
            CommandName::CancelMatchmakingTicket => "cancel_matchmaking_ticket",
            CommandName::DecideTeamProposal => "decide_team_proposal",
            CommandName::MaterializeTeamProposal => "materialize_team_proposal",
            CommandName::CreateEvidenceCard => "create_evidence_card",
            CommandName::CreateCitationRecord => "create_citation_record",
            CommandName::CreateExperimentPlan => "create_experiment_plan",
            CommandName::CreateRunRecord => "create_run_record",
            CommandName::CreateRoleResourceAction => "create_role_resource_action",
            CommandName::CreateFigureLineage => "create_figure_lineage",
            CommandName::CreateClaimRecord => "create_claim_record",
            CommandName::AcquireSectionLease => "acquire_section_lease",
            CommandName::SubmitAgentProposal => "submit_agent_proposal",
            CommandName::RecordHumanDecision => "record_human_decision",
            CommandName::RegisterArtifact => "register_artifact",
            CommandName::CreateSectionRevision => "create_section_revision",
            CommandName::SubmitReview => "submit_review",
            CommandName::MergeSection => "merge_section",
            CommandName::CreateContributionLedger => "create_contribution_ledger",
            CommandName::ClaimReviewAssignment => "claim_review_assignment",
            CommandName::CreatePaperEvaluation => "create_paper_evaluation",
            CommandName::CreatePaperEvaluationDraft => "create_paper_evaluation_draft",
            CommandName::SubmitEvaluationDraftAttestation => "submit_evaluation_draft_attestation",
            CommandName::FinalizePaperEvaluationDraft => "finalize_paper_evaluation_draft",
            CommandName::SubmitReproduction => "submit_reproduction",
            CommandName::SubmitAppeal => "submit_appeal",
            CommandName::ResolveAppeal => "resolve_appeal",
        }
    }

    pub fn code(self) -> (r: &'static str)
        ensures
            r == self.spec_code(),
    {
        match self {
            CommandName::RotateHumanSigningKey => "rotate_human_signing_key",
            CommandName::RevokeHumanSigningKey => "revoke_human_signing_key",
            CommandName::CreateAgentBinding => "create_agent_binding",
            CommandName::RotateAgentBindingKey => "rotate_agent_binding_key",
            CommandName::CreateResearchTeam => "create_research_team",
            CommandName::AcceptResearchTeamMembership => "accept_research_team_membership",
            CommandName::LockResearchTeam => "lock_research_team",
            CommandName::CreatePaperProject => "create_paper_project",
            CommandName::TransitionPaperChallengeOutcome => "transition_paper_challenge_outcome",
            CommandName::TransitionPaperProject => "transition_paper_project",
            CommandName::CreatePaperWorkItem => "create_paper_work_item",
            CommandName::TransitionPaperWorkItem => "transition_paper_work_item",
            CommandName::CreatePaperRevision => "create_paper_revision",
            CommandName::PromotePaperReleaseCandidate => "promote_paper_release_candidate",
            CommandName::CreateAuthorshipConsent => "create_authorship_consent",
            CommandName::FinalizeJointPaperSubmission => "finalize_joint_paper_submission",
            CommandName::StartPaperRework => "start_paper_rework",
            CommandName::IssueResearchSessionAuthorizationSet => "issue_research_session_authorization_set",
            CommandName::ReplaceResearchSessionAuthorizationSet => "replace_research_session_authorization_set",
            CommandName::CreateNakamaResearchSessionControl => "create_nakama_research_session_control",
            CommandName::ResumeNakamaResearchSessionControl => "resume_nakama_research_session_control",
            CommandName::ReplaceNakamaResearchSessionRosterControl => "replace_nakama_research_session_roster_control",
            CommandName::CompleteNakamaResearchSessionControl => "complete_nakama_research_session_control",
            CommandName::QueueMatchmaking => "queue_matchmaking",
            CommandName::CancelMatchmakingTicket => "cancel_matchmaking_ticket",
            CommandName::DecideTeamProposal => "decide_team_proposal",
            CommandName::MaterializeTeamProposal => "materialize_team_proposal",
            CommandName::CreateEvidenceCard => "create_evidence_card",
            CommandName::CreateCitationRecord => "create_citation_record",
            CommandName::CreateExperimentPlan => "create_experiment_plan",
            CommandName::CreateRunRecord => "create_run_record",
            CommandName::CreateRoleResourceAction => "create_role_resource_action",
            CommandName::CreateFigureLineage => "create_figure_lineage",
            CommandName::CreateClaimRecord => "create_claim_record",
            CommandName::AcquireSectionLease => "acquire_section_lease",
            CommandName::SubmitAgentProposal => "submit_agent_proposal",
            CommandName::RecordHumanDecision => "record_human_decision",
            CommandName::RegisterArtifact => "register_artifact",
            CommandName::CreateSectionRevision => "create_section_revision",
            CommandName::SubmitReview => "submit_review",
            CommandName::MergeSection => "merge_section",
            CommandName::CreateContributionLedger => "create_contribution_ledger",
            CommandName::ClaimReviewAssignment => "claim_review_assignment",
            CommandName::CreatePaperEvaluation => "create_paper_evaluation",
            CommandName::CreatePaperEvaluationDraft => "create_paper_evaluation_draft",
            CommandName::SubmitEvaluationDraftAttestation => "submit_evaluation_draft_attestation",
            CommandName::FinalizePaperEvaluationDraft => "finalize_paper_evaluation_draft",
            CommandName::SubmitReproduction => "submit_reproduction",
            CommandName::SubmitAppeal => "submit_appeal",
            CommandName::ResolveAppeal => "resolve_appeal",
        }
    }
}

/// How a command's route is formed from the envelope's locators.
#[derive(Debug, Clone, Copy, PartialEq, Eq)]
pub enum RouteShape {
    /// A fixed path; the locators are not read.
    Fixed { path: &'static str, operation: &'static str },
    /// `prefix` + resource + `suffix`; the resource is required, other locators are not read.
    Resource { prefix: &'static str, suffix: &'static str, operation: &'static str },
    /// `prefix` + resource + `middle` + child + `suffix`; both are required, the session is not read.
    ResourceChild {
        prefix: &'static str,
        middle: &'static str,
        suffix: &'static str,
        operation: &'static str,
    },
    /// `prefix` + session id + `suffix`; a logical session id is required.
    Session { prefix: &'static str, suffix: &'static str, operation: &'static str },
    /// A fixed path; every locator must be absent.
    NoLocators { path: &'static str, operation: &'static str },
    /// `prefix` + resource + `suffix`; exactly the resource locator may be present.
    ResourceOnly { prefix: &'static str, suffix: &'static str, operation: &'static str },
    /// `prefix` + resource + `middle` + child + `suffix`; no session locator may be present.
    StrictResourceChild {
        prefix: &'static str,
        middle: &'static str,
        suffix: &'static str,
        operation: &'static str,
    },
}

/// The route shape that each command is allowed.
pub open spec fn command_shape(c: CommandName) -> RouteShape {
    match c {
        CommandName::RotateHumanSigningKey => RouteShape::Resource { prefix: "/v2/hepta/players/", suffix: "/signing-key/rotate", operation: "rotate_human_signing_key_v2" },
        CommandName::RevokeHumanSigningKey => RouteShape::Resource { prefix: "/v2/hepta/players/", suffix: "/signing-key/revoke", operation: "revoke_human_signing_key_v2" },
        CommandName::CreateAgentBinding => RouteShape::Fixed { path: "/v2/hepta/agent-bindings", operation: "create_agent_binding_v2" },
        CommandName::RotateAgentBindingKey => RouteShape::Resource { prefix: "/v2/hepta/agent-bindings/", suffix: "/rotate-key", operation: "rotate_agent_binding_key_v2" },
        CommandName::CreateResearchTeam => RouteShape::Fixed { path: "/v2/hepta/teams", operation: "create_research_team_v2" },
        CommandName::AcceptResearchTeamMembership => RouteShape::Resource { prefix: "/v2/hepta/teams/", suffix: "/member-acceptances", operation: "accept_research_team_membership_v2" },
        CommandName::LockResearchTeam => RouteShape::Resource { prefix: "/v2/hepta/teams/", suffix: "/lock", operation: "lock_research_team_v2" },
        CommandName::CreatePaperProject => RouteShape::Fixed { path: "/v2/hepta/papers", operation: "create_paper_project_v2" },
        CommandName::TransitionPaperChallengeOutcome => RouteShape::Resource { prefix: "/v2/hepta/papers/", suffix: "/outcome", operation: "transition_paper_challenge_outcome_v1" },
        CommandName::TransitionPaperProject => RouteShape::Resource { prefix: "/v2/hepta/papers/", suffix: "/transition", operation: "transition_paper_project_v2" },
        CommandName::CreatePaperWorkItem => RouteShape::Resource { prefix: "/v2/hepta/papers/", suffix: "/work-items", operation: "create_paper_work_item_v2" },
        CommandName::TransitionPaperWorkItem => RouteShape::Resource { prefix: "/v2/hepta/work-items/", suffix: "/transition", operation: "transition_paper_work_item_v2" },
        CommandName::CreatePaperRevision => RouteShape::Resource { prefix: "/v2/hepta/papers/", suffix: "/revisions", operation: "create_paper_revision_v2" },
        CommandName::PromotePaperReleaseCandidate => RouteShape::ResourceChild { prefix: "/v2/hepta/papers/", middle: "/revisions/", suffix: "/promote", operation: "promote_paper_release_candidate_v2" },
        CommandName::CreateAuthorshipConsent => RouteShape::Resource { prefix: "/v2/hepta/papers/", suffix: "/author-consents", operation: "create_authorship_consent_v2" },
        CommandName::FinalizeJointPaperSubmission => RouteShape::Resource { prefix: "/v2/hepta/papers/", suffix: "/finalize", operation: "finalize_joint_paper_submission_v2" },
        CommandName::StartPaperRework => RouteShape::Resource { prefix: "/v2/hepta/papers/", suffix: "/reworks", operation: "start_paper_rework_v1" },
        CommandName::IssueResearchSessionAuthorizationSet => RouteShape::Fixed { path: "/v2/hepta/research-session-authorizations", operation: "issue_research_session_authorization_set_v1" },
        CommandName::ReplaceResearchSessionAuthorizationSet => RouteShape::Session { prefix: "/v2/hepta/research-session-authorizations/", suffix: "/replace", operation: "replace_research_session_authorization_set_v1" },
        CommandName::CreateNakamaResearchSessionControl => RouteShape::NoLocators { path: "/v2/hepta/nakama/research-session-controls/create", operation: "create_nakama_research_session_control_v2" },
        CommandName::ResumeNakamaResearchSessionControl => RouteShape::NoLocators { path: "/v2/hepta/nakama/research-session-controls/resume", operation: "resume_nakama_research_session_control_v2" },
        CommandName::ReplaceNakamaResearchSessionRosterControl => RouteShape::NoLocators { path: "/v2/hepta/nakama/research-session-controls/replace-roster", operation: "replace_nakama_research_session_roster_control_v2" },
        CommandName::CompleteNakamaResearchSessionControl => RouteShape::NoLocators { path: "/v2/hepta/nakama/research-session-controls/complete", operation: "complete_nakama_research_session_control_v2" },
        CommandName::QueueMatchmaking => RouteShape::Fixed { path: "/v2/hepta/matchmaking/tickets", operation: "create_matchmaking_ticket_v3" },
        CommandName::CancelMatchmakingTicket => RouteShape::Resource { prefix: "/v2/hepta/matchmaking/tickets/", suffix: "/cancel", operation: "cancel_matchmaking_ticket_v3" },
        CommandName::DecideTeamProposal => RouteShape::Resource { prefix: "/v2/hepta/team-proposals/", suffix: "/decisions", operation: "create_team_proposal_decision_v3" },
        CommandName::MaterializeTeamProposal => RouteShape::Resource { prefix: "/v2/hepta/team-proposals/", suffix: "/materialize", operation: "materialize_team_proposal_v1" },
        CommandName::CreateEvidenceCard => RouteShape::Resource { prefix: "/v2/hepta/papers/", suffix: "/evidence-cards", operation: "create_evidence_card_v3" },
        CommandName::CreateCitationRecord => RouteShape::Resource { prefix: "/v2/hepta/papers/", suffix: "/citations", operation: "create_citation_record_v3" },
        CommandName::CreateExperimentPlan => RouteShape::Resource { prefix: "/v2/hepta/papers/", suffix: "/experiment-plans", operation: "create_experiment_plan_v3" },
        CommandName::CreateRunRecord => RouteShape::Resource { prefix: "/v2/hepta/papers/", suffix: "/run-records", operation: "create_run_record_v3" },
        CommandName::CreateRoleResourceAction => RouteShape::Resource { prefix: "/v2/hepta/papers/", suffix: "/role-resources/actions", operation: "create_role_resource_action_v1" },
        CommandName::CreateFigureLineage => RouteShape::Resource { prefix: "/v2/hepta/papers/", suffix: "/figure-lineage", operation: "create_figure_lineage_v3" },
        CommandName::CreateClaimRecord => RouteShape::Resource { prefix: "/v2/hepta/papers/", suffix: "/claims", operation: "create_claim_record_v3" },
        CommandName::AcquireSectionLease => RouteShape::Resource { prefix: "/v2/hepta/papers/", suffix: "/section-leases", operation: "acquire_section_lease_v3" },
        CommandName::SubmitAgentProposal => RouteShape::Resource { prefix: "/v2/hepta/papers/", suffix: "/agent-proposals", operation: "create_agent_proposal_v3" },
        CommandName::RecordHumanDecision => RouteShape::Resource { prefix: "/v2/hepta/papers/", suffix: "/human-decisions", operation: "create_human_decision_v3" },
        CommandName::RegisterArtifact => RouteShape::Resource { prefix: "/v2/hepta/papers/", suffix: "/artifact-manifests", operation: "create_artifact_manifest_v3" },
        CommandName::CreateSectionRevision => RouteShape::Resource { prefix: "/v2/hepta/papers/", suffix: "/section-revisions", operation: "create_section_revision_v3" },
        CommandName::SubmitReview => RouteShape::ResourceChild { prefix: "/v2/hepta/papers/", middle: "/section-revisions/", suffix: "/reviews", operation: "create_section_review_v3" },
        CommandName::MergeSection => RouteShape::Resource { prefix: "/v2/hepta/papers/", suffix: "/section-merges", operation: "create_section_merge_v3" },
        CommandName::CreateContributionLedger => RouteShape::Resource { prefix: "/v2/hepta/papers/", suffix: "/contribution-ledgers", operation: "create_contribution_ledger_v1" },
        CommandName::ClaimReviewAssignment => RouteShape::Resource { prefix: "/v2/hepta/papers/", suffix: "/review-assignments", operation: "claim_paper_review_assignment_v1" },
        CommandName::CreatePaperEvaluation => RouteShape::Resource { prefix: "/v2/hepta/papers/", suffix: "/evaluations", operation: "create_paper_evaluation_v1" },
        CommandName::CreatePaperEvaluationDraft => RouteShape::ResourceOnly { prefix: "/v2/hepta/papers/", suffix: "/evaluation-drafts", operation: "create_paper_evaluation_draft_v1" },
        CommandName::SubmitEvaluationDraftAttestation => RouteShape::StrictResourceChild { prefix: "/v2/hepta/papers/", middle: "/evaluation-drafts/", suffix: "/attestations", operation: "submit_paper_evaluation_draft_attestation_v1" },
        CommandName::FinalizePaperEvaluationDraft => RouteShape::StrictResourceChild { prefix: "/v2/hepta/papers/", middle: "/evaluation-drafts/", suffix: "/finalize", operation: "finalize_paper_evaluation_draft_v1" },
        CommandName::SubmitReproduction => RouteShape::StrictResourceChild { prefix: "/v2/hepta/papers/", middle: "/evaluations/", suffix: "/reproductions", operation: "create_paper_reproduction_v1" },
        CommandName::SubmitAppeal => RouteShape::ResourceChild { prefix: "/v2/hepta/papers/", middle: "/evaluations/", suffix: "/appeals", operation: "create_paper_appeal_v1" },
        CommandName::ResolveAppeal => RouteShape::ResourceChild { prefix: "/v2/hepta/papers/", middle: "/appeals/", suffix: "/resolve", operation: "resolve_paper_appeal_v1" },
    }
}

pub fn shape_of(c: CommandName) -> (r: RouteShape)
    ensures
        r == command_shape(c),
{
    match c {
        CommandName::RotateHumanSigningKey => RouteShape::Resource { prefix: "/v2/hepta/players/", suffix: "/signing-key/rotate", operation: "rotate_human_signing_key_v2" },
        CommandName::RevokeHumanSigningKey => RouteShape::Resource { prefix: "/v2/hepta/players/", suffix: "/signing-key/revoke", operation: "revoke_human_signing_key_v2" },
        CommandName::CreateAgentBinding => RouteShape::Fixed { path: "/v2/hepta/agent-bindings", operation: "create_agent_binding_v2" },
        CommandName::RotateAgentBindingKey => RouteShape::Resource { prefix: "/v2/hepta/agent-bindings/", suffix: "/rotate-key", operation: "rotate_agent_binding_key_v2" },
        CommandName::CreateResearchTeam => RouteShape::Fixed { path: "/v2/hepta/teams", operation: "create_research_team_v2" },
        CommandName::AcceptResearchTeamMembership => RouteShape::Resource { prefix: "/v2/hepta/teams/", suffix: "/member-acceptances", operation: "accept_research_team_membership_v2" },
        CommandName::LockResearchTeam => RouteShape::Resource { prefix: "/v2/hepta/teams/", suffix: "/lock", operation: "lock_research_team_v2" },
        CommandName::CreatePaperProject => RouteShape::Fixed { path: "/v2/hepta/papers", operation: "create_paper_project_v2" },
        CommandName::TransitionPaperChallengeOutcome => RouteShape::Resource { prefix: "/v2/hepta/papers/", suffix: "/outcome", operation: "transition_paper_challenge_outcome_v1" },
        CommandName::TransitionPaperProject => RouteShape::Resource { prefix: "/v2/hepta/papers/", suffix: "/transition", operation: "transition_paper_project_v2" },
        CommandName::CreatePaperWorkItem => RouteShape::Resource { prefix: "/v2/hepta/papers/", suffix: "/work-items", operation: "create_paper_work_item_v2" },
        CommandName::TransitionPaperWorkItem => RouteShape::Resource { prefix: "/v2/hepta/work-items/", suffix: "/transition", operation: "transition_paper_work_item_v2" },
        CommandName::CreatePaperRevision => RouteShape::Resource { prefix: "/v2/hepta/papers/", suffix: "/revisions", operation: "create_paper_revision_v2" },
        CommandName::PromotePaperReleaseCandidate => RouteShape::ResourceChild { prefix: "/v2/hepta/papers/", middle: "/revisions/", suffix: "/promote", operation: "promote_paper_release_candidate_v2" },
        CommandName::CreateAuthorshipConsent => RouteShape::Resource { prefix: "/v2/hepta/papers/", suffix: "/author-consents", operation: "create_authorship_consent_v2" },
        CommandName::FinalizeJointPaperSubmission => RouteShape::Resource { prefix: "/v2/hepta/papers/", suffix: "/finalize", operation: "finalize_joint_paper_submission_v2" },
        CommandName::StartPaperRework => RouteShape::Resource { prefix: "/v2/hepta/papers/", suffix: "/reworks", operation: "start_paper_rework_v1" },
        CommandName::IssueResearchSessionAuthorizationSet => RouteShape::Fixed { path: "/v2/hepta/research-session-authorizations", operation: "issue_research_session_authorization_set_v1" },
        CommandName::ReplaceResearchSessionAuthorizationSet => RouteShape::Session { prefix: "/v2/hepta/research-session-authorizations/", suffix: "/replace", operation: "replace_research_session_authorization_set_v1" },
        CommandName::CreateNakamaResearchSessionControl => RouteShape::NoLocators { path: "/v2/hepta/nakama/research-session-controls/create", operation: "create_nakama_research_session_control_v2" },
        CommandName::ResumeNakamaResearchSessionControl => RouteShape::NoLocators { path: "/v2/hepta/nakama/research-session-controls/resume", operation: "resume_nakama_research_session_control_v2" },
        CommandName::ReplaceNakamaResearchSessionRosterControl => RouteShape::NoLocators { path: "/v2/hepta/nakama/research-session-controls/replace-roster", operation: "replace_nakama_research_session_roster_control_v2" },
        CommandName::CompleteNakamaResearchSessionControl => RouteShape::NoLocators { path: "/v2/hepta/nakama/research-session-controls/complete", operation: "complete_nakama_research_session_control_v2" },
        CommandName::QueueMatchmaking => RouteShape::Fixed { path: "/v2/hepta/matchmaking/tickets", operation: "create_matchmaking_ticket_v3" },
        CommandName::CancelMatchmakingTicket => RouteShape::Resource { prefix: "/v2/hepta/matchmaking/tickets/", suffix: "/cancel", operation: "cancel_matchmaking_ticket_v3" },
        CommandName::DecideTeamProposal => RouteShape::Resource { prefix: "/v2/hepta/team-proposals/", suffix: "/decisions", operation: "create_team_proposal_decision_v3" },
        CommandName::MaterializeTeamProposal => RouteShape::Resource { prefix: "/v2/hepta/team-proposals/", suffix: "/materialize", operation: "materialize_team_proposal_v1" },
        CommandName::CreateEvidenceCard => RouteShape::Resource { prefix: "/v2/hepta/papers/", suffix: "/evidence-cards", operation: "create_evidence_card_v3" },
        CommandName::CreateCitationRecord => RouteShape::Resource { prefix: "/v2/hepta/papers/", suffix: "/citations", operation: "create_citation_record_v3" },
        CommandName::CreateExperimentPlan => RouteShape::Resource { prefix: "/v2/hepta/papers/", suffix: "/experiment-plans", operation: "create_experiment_plan_v3" },
        CommandName::CreateRunRecord => RouteShape::Resource { prefix: "/v2/hepta/papers/", suffix: "/run-records", operation: "create_run_record_v3" },
        CommandName::CreateRoleResourceAction => RouteShape::Resource { prefix: "/v2/hepta/papers/", suffix: "/role-resources/actions", operation: "create_role_resource_action_v1" },
        CommandName::CreateFigureLineage => RouteShape::Resource { prefix: "/v2/hepta/papers/", suffix: "/figure-lineage", operation: "create_figure_lineage_v3" },
        CommandName::CreateClaimRecord => RouteShape::Resource { prefix: "/v2/hepta/papers/", suffix: "/claims", operation: "create_claim_record_v3" },
        CommandName::AcquireSectionLease => RouteShape::Resource { prefix: "/v2/hepta/papers/", suffix: "/section-leases", operation: "acquire_section_lease_v3" },
        CommandName::SubmitAgentProposal => RouteShape::Resource { prefix: "/v2/hepta/papers/", suffix: "/agent-proposals", operation: "create_agent_proposal_v3" },
        CommandName::RecordHumanDecision => RouteShape::Resource { prefix: "/v2/hepta/papers/", suffix: "/human-decisions", operation: "create_human_decision_v3" },
        CommandName::RegisterArtifact => RouteShape::Resource { prefix: "/v2/hepta/papers/", suffix: "/artifact-manifests", operation: "create_artifact_manifest_v3" },
        CommandName::CreateSectionRevision => RouteShape::Resource { prefix: "/v2/hepta/papers/", suffix: "/section-revisions", operation: "create_section_revision_v3" },
        CommandName::SubmitReview => RouteShape::ResourceChild { prefix: "/v2/hepta/papers/", middle: "/section-revisions/", suffix: "/reviews", operation: "create_section_review_v3" },
        CommandName::MergeSection => RouteShape::Resource { prefix: "/v2/hepta/papers/", suffix: "/section-merges", operation: "create_section_merge_v3" },
        CommandName::CreateContributionLedger => RouteShape::Resource { prefix: "/v2/hepta/papers/", suffix: "/contribution-ledgers", operation: "create_contribution_ledger_v1" },
        CommandName::ClaimReviewAssignment => RouteShape::Resource { prefix: "/v2/hepta/papers/", suffix: "/review-assignments", operation: "claim_paper_review_assignment_v1" },
        CommandName::CreatePaperEvaluation => RouteShape::Resource { prefix: "/v2/hepta/papers/", suffix: "/evaluations", operation: "create_paper_evaluation_v1" },
        CommandName::CreatePaperEvaluationDraft => RouteShape::ResourceOnly { prefix: "/v2/hepta/papers/", suffix: "/evaluation-drafts", operation: "create_paper_evaluation_draft_v1" },
        CommandName::SubmitEvaluationDraftAttestation => RouteShape::StrictResourceChild { prefix: "/v2/hepta/papers/", middle: "/evaluation-drafts/", suffix: "/attestations", operation: "submit_paper_evaluation_draft_attestation_v1" },
        CommandName::FinalizePaperEvaluationDraft => RouteShape::StrictResourceChild { prefix: "/v2/hepta/papers/", middle: "/evaluation-drafts/", suffix: "/finalize", operation: "finalize_paper_evaluation_draft_v1" },
        CommandName::SubmitReproduction => RouteShape::StrictResourceChild { prefix: "/v2/hepta/papers/", middle: "/evaluations/", suffix: "/reproductions", operation: "create_paper_reproduction_v1" },
        CommandName::SubmitAppeal => RouteShape::ResourceChild { prefix: "/v2/hepta/papers/", middle: "/evaluations/", suffix: "/appeals", operation: "create_paper_appeal_v1" },
        CommandName::ResolveAppeal => RouteShape::ResourceChild { prefix: "/v2/hepta/papers/", middle: "/appeals/", suffix: "/resolve", operation: "resolve_paper_appeal_v1" },
    }
}

} // verus!

verus! {

/// A command as the browser sends it: the command name, its locators, an
/// idempotency key and the payload to forward.
#[derive(Debug)]
pub struct BrowserCommand {
    pub command: CommandName,
    pub resource_id: Option<u128>,
    pub child_id: Option<u128>,
    pub session_id: Option<String>,
    pub idempotency_key: u128,
    pub payload: JsonValue,
}

/// An upstream request target.
#[derive(Debug, Clone, PartialEq, Eq)]
pub struct Route {
    pub method: &'static str,
    pub path: String,
    pub query: Option<String>,
    pub operation: &'static str,
}

pub const RESOURCE_REQUIRED: &'static str = "resource_id is required";
pub const CHILD_REQUIRED: &'static str = "child_id is required";
pub const SESSION_REQUIRED: &'static str = "session_id is required";
pub const SESSION_INVALID: &'static str = "session_id is invalid";
pub const NULL_LOCATORS_REQUIRED: &'static str =
    "Nakama research control commands require null envelope locators";
pub const ONE_LOCATOR_REQUIRED: &'static str = "command requires exactly one resource locator";
pub const NO_SESSION_LOCATOR: &'static str = "command does not accept a session locator";

/// A byte of a logical id: letter, digit, `.`, `_`, `:` or `-`.
pub open spec fn is_logical_byte(b: u8) -> bool {
    (48 <= b && b <= 57) || (65 <= b && b <= 90) || (97 <= b && b <= 122) || b == 46 || b == 95
        || b == 58 || b == 45
}

/// A logical session id: 1..=128 such bytes.
pub open spec fn is_logical_id(s: Seq<char>) -> bool {
    let b = vstd::utf8::encode_utf8(s);
    s.len() > 0 && b.len() <= 128 && forall|i: int| 0 <= i < b.len() ==> is_logical_byte(#[trigger] b[i])
}

pub fn validate_logical_id(value: &str) -> (r: Result<(), AppError>)
    ensures
        is_logical_id(value@) ==> r is Ok,
        !is_logical_id(value@) ==> is_invalid(r, SESSION_INVALID),
{
    let b = value.as_bytes();
    if value.is_empty() || b.len() > 128 {
        return Err(AppError::Invalid(SESSION_INVALID.to_owned()));
    }
    let mut i: usize = 0;
    while i < b.len()
        invariant
            i <= b@.len(),
            b@ == vstd::utf8::encode_utf8(value@),
            forall|j: int| 0 <= j < i ==> is_logical_byte(#[trigger] b@[j]),
        decreases b.len() - i,
    {
        let c = b[i];
        if !((48 <= c && c <= 57) || (65 <= c && c <= 90) || (97 <= c && c <= 122) || c == 46
            || c == 95 || c == 58 || c == 45) {
            return Err(AppError::Invalid(SESSION_INVALID.to_owned()));
        }
        i = i + 1;
    }
    Ok(())
}

/// The path and operation a command takes, or the refusal for its locators.
pub open spec fn route_outcome(cmd: BrowserCommand) -> Result<(Seq<char>, &'static str), &'static str> {
    match command_shape(cmd.command) {
        RouteShape::Fixed { path, operation } => Ok((path@, operation)),
        RouteShape::Resource { prefix, suffix, operation } => match cmd.resource_id {
            None => Err(RESOURCE_REQUIRED),
            Some(r) => Ok((prefix@ + uuid_text(r) + suffix@, operation)),
        },
        RouteShape::ResourceChild { prefix, middle, suffix, operation } => match cmd.resource_id {
            None => Err(RESOURCE_REQUIRED),
            Some(r) => match cmd.child_id {
                None => Err(CHILD_REQUIRED),
                Some(c) => Ok((prefix@ + uuid_text(r) + middle@ + uuid_text(c) + suffix@, operation)),
            },
        },
        RouteShape::Session { prefix, suffix, operation } => match cmd.session_id {
            None => Err(SESSION_REQUIRED),
            Some(s) => if is_logical_id(s@) {
                Ok((prefix@ + s@ + suffix@, operation))
            } else {
                Err(SESSION_INVALID)
            },
        },
        RouteShape::NoLocators { path, operation } => if cmd.resource_id is Some
            || cmd.child_id is Some || cmd.session_id is Some {
            Err(NULL_LOCATORS_REQUIRED)
        } else {
            Ok((path@, operation))
        },
        RouteShape::ResourceOnly { prefix, suffix, operation } => if cmd.child_id is Some
            || cmd.session_id is Some {
            Err(ONE_LOCATOR_REQUIRED)
        } else {
            match cmd.resource_id {
                None => Err(RESOURCE_REQUIRED),
                Some(r) => Ok((prefix@ + uuid_text(r) + suffix@, operation)),
            }
        },
        RouteShape::StrictResourceChild { prefix, middle, suffix, operation } => if cmd.session_id is Some {
            Err(NO_SESSION_LOCATOR)
        } else {
            match cmd.resource_id {
                None => Err(RESOURCE_REQUIRED),
                Some(r) => match cmd.child_id {
                    None => Err(CHILD_REQUIRED),
                    Some(c) => Ok(
                        (prefix@ + uuid_text(r) + middle@ + uuid_text(c) + suffix@, operation),
                    ),
                },
            }
        },
    }
}

/// A refusal of the request as invalid, with this message.
pub open spec fn is_invalid<T>(r: Result<T, AppError>, message: &'static str) -> bool {
    r matches Err(AppError::Invalid(m)) && m@ == message@
}

fn invalid(message: &'static str) -> (r: AppError)
    ensures
        r matches AppError::Invalid(m) && m@ == message@,
{
    AppError::Invalid(message.to_owned())
}

fn one_uuid_path(prefix: &str, r: u128, suffix: &str) -> (p: String)
    ensures
        p@ == prefix@ + uuid_text(r) + suffix@,
{
    let mut out: Vec<char> = Vec::new();
    push_str(&mut out, prefix);
    push_chars(&mut out, &uuid_chars(r));
    push_str(&mut out, suffix);
    string_from_chars(&out)
}

fn two_uuid_path(prefix: &str, r: u128, middle: &str, c: u128, suffix: &str) -> (p: String)
    ensures
        p@ == prefix@ + uuid_text(r) + middle@ + uuid_text(c) + suffix@,
{
    let mut out: Vec<char> = Vec::new();
    push_str(&mut out, prefix);
    push_chars(&mut out, &uuid_chars(r));
    push_str(&mut out, middle);
    push_chars(&mut out, &uuid_chars(c));
    push_str(&mut out, suffix);
    string_from_chars(&out)
}

fn post(path: String, operation: &'static str) -> (r: Route)
    ensures
        r.method@ == "POST"@,
        r.path == path,
        r.query is None,
        r.operation == operation,
{
    Route { method: "POST", path, query: None, operation }
}

impl BrowserCommand {
    /// The fixed upstream route of the command. The caller never chooses a
    /// path or operation: both come from the command name, with the
    /// envelope's locators filled in where that command takes them.
    pub fn route(&self) -> (r: Result<Route, AppError>)
        ensures
            match route_outcome(*self) {
                Ok((path, operation)) => r matches Ok(route) && route.method@ == "POST"@
                    && route.path@ == path && route.query is None && route.operation == operation,
                Err(message) => is_invalid(r, message),
            },
            r matches Ok(route) ==> hepta_prefix().is_prefix_of(route.path@) && route_is_sendable(
                route,
            ),
    {
        proof {
            lemma_route_law(*self, *self);
        }
        match shape_of(self.command) {
            RouteShape::Fixed { path, operation } => Ok(post(path.to_owned(), operation)),
            RouteShape::Resource { prefix, suffix, operation } => match self.resource_id {
                None => Err(invalid(RESOURCE_REQUIRED)),
                Some(r) => Ok(post(one_uuid_path(prefix, r, suffix), operation)),
            },
            RouteShape::ResourceChild { prefix, middle, suffix, operation } => match self.resource_id {
                None => Err(invalid(RESOURCE_REQUIRED)),
                Some(r) => match self.child_id {
                    None => Err(invalid(CHILD_REQUIRED)),
                    Some(c) => Ok(post(two_uuid_path(prefix, r, middle, c, suffix), operation)),
                },
            },
            RouteShape::Session { prefix, suffix, operation } => match &self.session_id {
                None => Err(invalid(SESSION_REQUIRED)),
                Some(s) => {
                    validate_logical_id(s.as_str())?;
                    let mut out: Vec<char> = Vec::new();
                    push_str(&mut out, prefix);
                    push_str(&mut out, s.as_str());
                    push_str(&mut out, suffix);
                    Ok(post(string_from_chars(&out), operation))
                },
            },
            RouteShape::NoLocators { path, operation } => {
                self.require_no_route_locators()?;
                Ok(post(path.to_owned(), operation))
            },
            RouteShape::ResourceOnly { prefix, suffix, operation } => {
                let r = self.require_resource_only()?;
                Ok(post(one_uuid_path(prefix, r, suffix), operation))
            },
            RouteShape::StrictResourceChild { prefix, middle, suffix, operation } => {
                let (r, c) = self.require_resource_child()?;
                Ok(post(two_uuid_path(prefix, r, middle, c, suffix), operation))
            },
        }
    }

    pub fn require_no_route_locators(&self) -> (r: Result<(), AppError>)
        ensures
            (self.resource_id is Some || self.child_id is Some || self.session_id is Some)
                ==> is_invalid(r, NULL_LOCATORS_REQUIRED),
            !(self.resource_id is Some || self.child_id is Some || self.session_id is Some)
                ==> r is Ok,
    {
        if self.resource_id.is_some() || self.child_id.is_some() || self.session_id.is_some() {
            return Err(invalid(NULL_LOCATORS_REQUIRED));
        }
        Ok(())
    }

    pub fn require_resource_only(&self) -> (r: Result<u128, AppError>)
        ensures
            (self.child_id is Some || self.session_id is Some) ==> is_invalid(r, ONE_LOCATOR_REQUIRED),
            !(self.child_id is Some || self.session_id is Some) ==> match self.resource_id {
                Some(id) => r == Ok::<u128, AppError>(id),
                None => is_invalid(r, RESOURCE_REQUIRED),
            },
    {
        if self.child_id.is_some() || self.session_id.is_some() {
            return Err(invalid(ONE_LOCATOR_REQUIRED));
        }
        match self.resource_id {
            Some(id) => Ok(id),
            None => Err(invalid(RESOURCE_REQUIRED)),
        }
    }

    pub fn require_resource_child(&self) -> (r: Result<(u128, u128), AppError>)
        ensures
            self.session_id is Some ==> is_invalid(r, NO_SESSION_LOCATOR),
            self.session_id is None ==> match self.resource_id {
                None => is_invalid(r, RESOURCE_REQUIRED),
                Some(a) => match self.child_id {
                    None => is_invalid(r, CHILD_REQUIRED),
                    Some(b) => r == Ok::<(u128, u128), AppError>((a, b)),
                },
            },
    {
        if self.session_id.is_some() {
            return Err(invalid(NO_SESSION_LOCATOR));
        }
        let a = match self.resource_id {
            Some(a) => a,
            None => {
                return Err(invalid(RESOURCE_REQUIRED));
            },
        };
        let b = match self.child_id {
            Some(b) => b,
            None => {
                return Err(invalid(CHILD_REQUIRED));
            },
        };
        Ok((a, b))
    }
}

impl Route {
    /// The path with its query, as it is signed and hashed.
    pub fn canonical_path(&self) -> (r: String)
        ensures
            r@ == match self.query {
                Some(q) => self.path@ + "?"@ + q@,
                None => self.path@,
            },
    {
        match &self.query {
            Some(q) => {
                let mut out: Vec<char> = Vec::new();
                push_str(&mut out, self.path.as_str());
                push_str(&mut out, "?");
                push_str(&mut out, q.as_str());
                string_from_chars(&out)
            },
            None => self.path.clone(),
        }
    }
}

} // verus!

verus! {

pub const PAYLOAD_NOT_OBJECT: &'static str = "command payload must be a JSON object";
pub const IDEMPOTENCY_MISMATCH: &'static str =
    "payload idempotency_key does not match command envelope";

/// The first position from `i` whose key does not sort before `key`: where
/// a new key goes among keys kept in text order.
pub open spec fn insert_position(members: Seq<(String, JsonValue)>, key: Seq<char>, i: int) -> int
    decreases members.len() - i,
{
    if i >= members.len() || i < 0 {
        members.len() as int
    } else if !crate::text::text_lt(members[i].0@, key) {
        i
    } else {
        insert_position(members, key, i + 1)
    }
}

proof fn lemma_insert_position_bounds(members: Seq<(String, JsonValue)>, key: Seq<char>, i: int)
    requires
        0 <= i <= members.len(),
    ensures
        i <= insert_position(members, key, i) <= members.len(),
    decreases members.len() - i,
{
    if i < members.len() && crate::text::text_lt(members[i].0@, key) {
        lemma_insert_position_bounds(members, key, i + 1);
    }
}

/// The payload forwarded for a command: an object whose `idempotency_key`
/// is the envelope's key; the key is added where it is missing, and a
/// different key is a conflict.
pub open spec fn payload_outcome_ok(cmd: BrowserCommand, r: Result<JsonValue, AppError>) -> bool {
    match cmd.payload {
        JsonValue::Object(members) => match cmd.payload.spec_get("idempotency_key"@) {
            Some(JsonValue::String(s)) => if s@ == uuid_text(cmd.idempotency_key) {
                r == Ok::<JsonValue, AppError>(cmd.payload)
            } else {
                crate::error::is_conflict_result(r, IDEMPOTENCY_MISMATCH@)
            },
            Some(_) => crate::error::is_conflict_result(r, IDEMPOTENCY_MISMATCH@),
            None => {
                let pos = insert_position(members@, "idempotency_key"@, 0);
                match r {
                    Ok(JsonValue::Object(m)) => {
                        &&& m@.len() == members@.len() + 1
                        &&& m@.take(pos) == members@.take(pos)
                        &&& m@.skip(pos + 1) == members@.skip(pos)
                        &&& m@[pos].0@ == "idempotency_key"@
                        &&& m@[pos].1 == JsonValue::String(m@[pos].1->String_0)
                        &&& m@[pos].1->String_0@ == uuid_text(cmd.idempotency_key)
                    },
                    _ => false,
                }
            },
        },
        _ => is_invalid(r, PAYLOAD_NOT_OBJECT),
    }
}

impl BrowserCommand {
    /// The payload to forward, bound to the envelope's idempotency key.
    pub fn canonical_payload(self) -> (r: Result<JsonValue, AppError>)
        ensures
            payload_outcome_ok(self, r),
    {
        let ghost original = self;
        let expected = string_from_chars(&uuid_chars(self.idempotency_key));
        let key_state: u8 = match self.payload.get("idempotency_key") {
            Some(JsonValue::String(value)) => if str_eq(value.as_str(), expected.as_str()) {
                0
            } else {
                1
            },
            Some(_) => 1,
            None => 2,
        };
        match self.payload {
            JsonValue::Object(mut members) => {
                if key_state == 0 {
                    return Ok(JsonValue::Object(members));
                }
                if key_state == 1 {
                    return Err(AppError::Conflict(IDEMPOTENCY_MISMATCH.to_owned()));
                }
                let mut pos: usize = 0;
                while pos < members.len() && crate::text::str_lt(members[pos].0.as_str(), "idempotency_key")
                    invariant
                        pos <= members@.len(),
                        insert_position(members@, "idempotency_key"@, 0) == insert_position(
                            members@,
                            "idempotency_key"@,
                            pos as int,
                        ),
                    decreases members.len() - pos,
                {
                    pos = pos + 1;
                }
                let ghost before = members@;
                assert(insert_position(before, "idempotency_key"@, pos as int) == pos);
                members.insert(pos, ("idempotency_key".to_owned(), JsonValue::String(expected)));
                assert(members@.take(pos as int) =~= before.take(pos as int));
                assert(members@.skip(pos + 1) =~= before.skip(pos as int));
                Ok(JsonValue::Object(members))
            },
            _ => Err(invalid(PAYLOAD_NOT_OBJECT)),
        }
    }
}

} // verus!

verus! {

/// What an upstream status means before its body is read: success, a
/// refusal of the player, a missing record, or an upstream failure.
pub open spec fn status_outcome(status: u16) -> Result<(), AppError> {
    if 200 <= status <= 299 {
        Ok(())
    } else if status == 401 || status == 403 {
        Err(AppError::Forbidden)
    } else if status == 404 {
        Err(AppError::NotFound)
    } else {
        Err(AppError::Upstream)
    }
}

/// An upstream answer: its status, its body, and whether the Hepta service
/// replayed it for a repeated idempotency key.
#[derive(Debug)]
pub struct UpstreamResponse {
    pub status: u16,
    pub body: Vec<u8>,
    pub replayed: bool,
}

impl UpstreamResponse {
    /// Whether the body is to be read as the answer's JSON.
    pub fn read_status(&self) -> (r: Result<(), AppError>)
        ensures
            r == status_outcome(self.status),
    {
        let status = self.status;
        if 200 <= status && status <= 299 {
            Ok(())
        } else if status == 401 || status == 403 {
            Err(AppError::Forbidden)
        } else if status == 404 {
            Err(AppError::NotFound)
        } else {
            Err(AppError::Upstream)
        }
    }
}

/// A JSON content type, exactly.
pub fn strict_json(content_type: Option<&str>) -> (r: bool)
    ensures
        r == (match content_type {
            Some(t) => t@ == "application/json"@ || t@ == "application/json; charset=utf-8"@,
            None => false,
        }),
{
    match content_type {
        Some(t) => str_eq(t, "application/json") || str_eq(t, "application/json; charset=utf-8"),
        None => false,
    }
}

/// A path that can only name a resource below the base: it starts with
/// `/` and holds no query, fragment, `..` or `//`.
pub open spec fn is_canonical_path(path: Seq<char>) -> bool {
    &&& path.len() > 0 && path[0] == '/'
    &&& !path.contains('?')
    &&& !path.contains('#')
    &&& !crate::text::has_substring(path, ".."@)
    &&& !crate::text::has_substring(path, "//"@)
}

fn contains_char(s: &str, c: char) -> (r: bool)
    ensures
        r == s@.contains(c),
{
    let v = crate::text::chars_of(s);
    let mut i: usize = 0;
    while i < v.len()
        invariant
            v@ == s@,
            i <= v@.len(),
            forall|k: int| 0 <= k < i ==> v@[k] != c,
        decreases v.len() - i,
    {
        if v[i] == c {
            return true;
        }
        i = i + 1;
    }
    false
}

pub fn canonical_path_ok(path: &str) -> (r: bool)
    ensures
        r == is_canonical_path(path@),
{
    let v = crate::text::chars_of(path);
    if v.len() == 0 || v[0] != '/' {
        return false;
    }
    !contains_char(path, '?') && !contains_char(path, '#') && !crate::text::contains_text(path, "..")
        && !crate::text::contains_text(path, "//")
}

/// The path part of a URL, as `url::Url::path` gives it.
pub uninterp spec fn url_path_of(url: Seq<char>) -> Option<Seq<char>>;

/// The URL with its path replaced and its query and fragment removed, as
/// `url::Url::set_path`, `set_query(None)` and `set_fragment(None)` leave it.
pub uninterp spec fn url_with_path_of(url: Seq<char>, path: Seq<char>) -> Option<Seq<char>>;

/// `url::Url::parse` and `Url::path`; the result is named by `url_path_of`.
#[verifier::external_body]
fn url_path(url: &str) -> (r: Option<String>)
    ensures
        crate::oidc::opt_view(r) == url_path_of(url@),
{
    let parsed = url::Url::parse(url).ok()?;
    Some(parsed.path().to_owned())
}

/// The most characters that a base URL and a new path may hold together.
/// `url::Url::set_path` unwraps the conversion of the new serialization's
/// length to `u32`; a character takes at most 4 bytes and at most 12 once
/// percent-encoded, so this bound keeps that length far below `u32::MAX`.
pub const MAX_URL_CHARS: usize = 0x0800_0000;

/// `url::Url::parse`, `set_path`, `set_query(None)` and `set_fragment(None)`;
/// the result is named by `url_with_path_of`.
#[verifier::external_body]
fn url_with_path(url: &str, path: &str) -> (r: Option<String>)
    requires
        url@.len() + path@.len() <= MAX_URL_CHARS,
    ensures
        crate::oidc::opt_view(r) == url_with_path_of(url@, path@),
{
    let mut parsed = url::Url::parse(url).ok()?;
    parsed.set_path(path);
    parsed.set_query(None);
    parsed.set_fragment(None);
    Some(parsed.as_str().to_owned())
}

/// A text without its trailing `/` characters.
pub open spec fn trim_trailing_slashes(s: Seq<char>) -> Seq<char>
    decreases s.len(),
{
    if s.len() > 0 && s.last() == '/' {
        trim_trailing_slashes(s.drop_last())
    } else {
        s
    }
}

pub const PATH_INVALID: &'static str = "canonical path is invalid";
pub const URL_TOO_LONG: &'static str = "joined URL is too long";

/// The base URL with a canonical path appended below its own path.
pub fn join_exact(base: &str, path: &str) -> (r: Result<String, &'static str>)
    ensures
        !is_canonical_path(path@) ==> r == Err::<String, &'static str>(PATH_INVALID),
        is_canonical_path(path@) ==> match url_path_of(base@) {
            Some(p) => if base@.len() + trim_trailing_slashes(p).len() + path@.len()
                > MAX_URL_CHARS {
                r == Err::<String, &'static str>(URL_TOO_LONG)
            } else {
                match url_with_path_of(base@, trim_trailing_slashes(p) + path@) {
                    Some(u) => r matches Ok(s) && s@ == u,
                    None => r == Err::<String, &'static str>(PATH_INVALID),
                }
            },
            None => r == Err::<String, &'static str>(PATH_INVALID),
        },
{
    if !canonical_path_ok(path) {
        return Err(PATH_INVALID);
    }
    let base_path = match url_path(base) {
        Some(p) => p,
        None => {
            return Err(PATH_INVALID);
        },
    };
    let v = crate::text::chars_of(base_path.as_str());
    let mut end: usize = v.len();
    assert(v@.take(end as int) =~= v@);
    while end > 0 && v[end - 1] == '/'
        invariant
            end <= v@.len(),
            v@ == base_path@,
            trim_trailing_slashes(base_path@) == trim_trailing_slashes(v@.take(end as int)),
        decreases end,
    {
        assert(v@.take(end as int).drop_last() =~= v@.take(end - 1));
        end = end - 1;
    }
    let mut joined: Vec<char> = Vec::new();
    let mut i: usize = 0;
    while i < end
        invariant
            i <= end <= v@.len(),
            joined@ == v@.take(i as int),
        decreases end - i,
    {
        joined.push(v[i]);
        i = i + 1;
        assert(joined@ =~= v@.take(i as int));
    }
    assert(v@.take(v@.len() as int) =~= v@);
    assert(trim_trailing_slashes(v@.take(end as int)) == v@.take(end as int));
    push_str(&mut joined, path);
    let base_chars = crate::text::chars_of(base);
    if base_chars.len() > MAX_URL_CHARS || joined.len() > MAX_URL_CHARS - base_chars.len() {
        return Err(URL_TOO_LONG);
    }
    let new_path = string_from_chars(&joined);
    match url_with_path(base, new_path.as_str()) {
        Some(u) => Ok(u),
        None => Err(PATH_INVALID),
    }
}

} // verus!

verus! {

#[derive(Debug, Clone, Copy, PartialEq, Eq)]
pub enum HeptaPaperTerminalOutcome {
    Failed,
    Expired,
    Abandoned,
}

impl HeptaPaperTerminalOutcome {
    pub open spec fn spec_as_str(self) -> &'static str {
        match self {
            HeptaPaperTerminalOutcome::Failed => "failed",
            HeptaPaperTerminalOutcome::Expired => "expired",
            HeptaPaperTerminalOutcome::Abandoned => "abandoned",
        }
    }

    pub fn as_str(self) -> (r: &'static str)
        ensures
            r == self.spec_as_str(),
    {
        match self {
            HeptaPaperTerminalOutcome::Failed => "failed",
            HeptaPaperTerminalOutcome::Expired => "expired",
            HeptaPaperTerminalOutcome::Abandoned => "abandoned",
        }
    }
}

#[derive(Debug, Clone, Copy, PartialEq, Eq)]
pub enum HeptaPaperTerminalReason {
    QualityGateFailed,
    PreregisteredResultFailed,
    IntegrityFailure,
    TeamWithdrawal,
    ResourceUnavailable,
    ChallengeInfeasible,
    ChallengeGraceDeadlineElapsed,
}

impl HeptaPaperTerminalReason {
    pub open spec fn spec_as_str(self) -> &'static str {
        match self {
            HeptaPaperTerminalReason::QualityGateFailed => "quality_gate_failed",
            HeptaPaperTerminalReason::PreregisteredResultFailed => "preregistered_result_failed",
            HeptaPaperTerminalReason::IntegrityFailure => "integrity_failure",
            HeptaPaperTerminalReason::TeamWithdrawal => "team_withdrawal",
            HeptaPaperTerminalReason::ResourceUnavailable => "resource_unavailable",
            HeptaPaperTerminalReason::ChallengeInfeasible => "challenge_infeasible",
            HeptaPaperTerminalReason::ChallengeGraceDeadlineElapsed =>
                "challenge_grace_deadline_elapsed",
        }
    }

    /// The outcome that a reason may explain.
    pub open spec fn spec_outcome(self) -> HeptaPaperTerminalOutcome {
        match self {
            HeptaPaperTerminalReason::QualityGateFailed
            | HeptaPaperTerminalReason::PreregisteredResultFailed
            | HeptaPaperTerminalReason::IntegrityFailure => HeptaPaperTerminalOutcome::Failed,
            HeptaPaperTerminalReason::TeamWithdrawal | HeptaPaperTerminalReason::ResourceUnavailable
            | HeptaPaperTerminalReason::ChallengeInfeasible => HeptaPaperTerminalOutcome::Abandoned,
            HeptaPaperTerminalReason::ChallengeGraceDeadlineElapsed =>
                HeptaPaperTerminalOutcome::Expired,
        }
    }

    pub fn as_str(self) -> (r: &'static str)
        ensures
            r == self.spec_as_str(),
    {
        match self {
            HeptaPaperTerminalReason::QualityGateFailed => "quality_gate_failed",
            HeptaPaperTerminalReason::PreregisteredResultFailed => "preregistered_result_failed",
            HeptaPaperTerminalReason::IntegrityFailure => "integrity_failure",
            HeptaPaperTerminalReason::TeamWithdrawal => "team_withdrawal",
            HeptaPaperTerminalReason::ResourceUnavailable => "resource_unavailable",
            HeptaPaperTerminalReason::ChallengeInfeasible => "challenge_infeasible",
            HeptaPaperTerminalReason::ChallengeGraceDeadlineElapsed =>
                "challenge_grace_deadline_elapsed",
        }
    }

    /// The reason a text names, when it is one of the reasons for the outcome.
    pub fn parse_for_outcome(outcome: HeptaPaperTerminalOutcome, value: &str) -> (r: Option<Self>)
        ensures
            match r {
                Some(reason) => reason.spec_as_str()@ == value@ && reason.spec_outcome() == outcome,
                None => forall|reason: Self|
                    #![trigger reason.spec_as_str()]
                    reason.spec_outcome() == outcome ==> reason.spec_as_str()@ != value@,
            },
    {
        proof {
            reveal_strlit("quality_gate_failed");
            reveal_strlit("preregistered_result_failed");
            reveal_strlit("integrity_failure");
            reveal_strlit("team_withdrawal");
            reveal_strlit("resource_unavailable");
            reveal_strlit("challenge_infeasible");
            reveal_strlit("challenge_grace_deadline_elapsed");
        }
        match outcome {
            HeptaPaperTerminalOutcome::Failed => if str_eq(value, "quality_gate_failed") {
                Some(HeptaPaperTerminalReason::QualityGateFailed)
            } else if str_eq(value, "preregistered_result_failed") {
                Some(HeptaPaperTerminalReason::PreregisteredResultFailed)
            } else if str_eq(value, "integrity_failure") {
                Some(HeptaPaperTerminalReason::IntegrityFailure)
            } else {
                None
            },
            HeptaPaperTerminalOutcome::Abandoned => if str_eq(value, "team_withdrawal") {
                Some(HeptaPaperTerminalReason::TeamWithdrawal)
            } else if str_eq(value, "resource_unavailable") {
                Some(HeptaPaperTerminalReason::ResourceUnavailable)
            } else if str_eq(value, "challenge_infeasible") {
                Some(HeptaPaperTerminalReason::ChallengeInfeasible)
            } else {
                None
            },
            HeptaPaperTerminalOutcome::Expired => if str_eq(value, "challenge_grace_deadline_elapsed") {
                Some(HeptaPaperTerminalReason::ChallengeGraceDeadlineElapsed)
            } else {
                None
            },
        }
    }
}

/// The seven score components of an evaluation, in basis points.
#[derive(Debug, Clone, Copy, PartialEq, Eq)]
pub struct EvaluationScoreComponentsInput {
    pub method_rigor_bps: u16,
    pub experiment_statistics_bps: u16,
    pub reproducibility_bps: u16,
    pub evidence_citations_bps: u16,
    pub value_originality_bps: u16,
    pub argument_expression_bps: u16,
    pub ethics_transparency_bps: u16,
}

/// Each component with its field name and frozen maximum, in order.
pub open spec fn score_components(s: EvaluationScoreComponentsInput) -> Seq<(&'static str, u16, u16)> {
    seq![
        ("method_rigor_bps", s.method_rigor_bps, 2500u16),
        ("experiment_statistics_bps", s.experiment_statistics_bps, 1500u16),
        ("reproducibility_bps", s.reproducibility_bps, 1500u16),
        ("evidence_citations_bps", s.evidence_citations_bps, 1500u16),
        ("value_originality_bps", s.value_originality_bps, 1500u16),
        ("argument_expression_bps", s.argument_expression_bps, 1000u16),
        ("ethics_transparency_bps", s.ethics_transparency_bps, 500u16),
    ]
}

/// The first component above its maximum, if any.
pub open spec fn first_over(c: Seq<(&'static str, u16, u16)>, n: int) -> Option<int>
    decreases n,
{
    if n <= 0 {
        None
    } else {
        match first_over(c, n - 1) {
            Some(k) => Some(k),
            None => if c[n - 1].1 > c[n - 1].2 {
                Some(n - 1)
            } else {
                None
            },
        }
    }
}

impl EvaluationScoreComponentsInput {
    pub open spec fn spec_total(self) -> int {
        self.method_rigor_bps + self.experiment_statistics_bps + self.reproducibility_bps
            + self.evidence_citations_bps + self.value_originality_bps
            + self.argument_expression_bps + self.ethics_transparency_bps
    }

    /// The total score (at most 10 000 bps), once no component exceeds its
    /// frozen maximum; the first that does is named in the refusal.
    pub fn checked_total(&self) -> (r: Result<u16, AppError>)
        ensures
            match first_over(score_components(*self), 7) {
                None => r == Ok::<u16, AppError>(self.spec_total() as u16) && self.spec_total()
                    <= 10000,
                Some(k) => r matches Err(AppError::Invalid(m)) && m@ == score_components(
                    *self,
                )[k].0@ + " exceeds the frozen "@ + crate::text::decimal(
                    score_components(*self)[k].2 as nat,
                ) + " bps maximum"@,
            },
    {
        let components: [(&'static str, u16, u16); 7] = [
            ("method_rigor_bps", self.method_rigor_bps, 2500),
            ("experiment_statistics_bps", self.experiment_statistics_bps, 1500),
            ("reproducibility_bps", self.reproducibility_bps, 1500),
            ("evidence_citations_bps", self.evidence_citations_bps, 1500),
            ("value_originality_bps", self.value_originality_bps, 1500),
            ("argument_expression_bps", self.argument_expression_bps, 1000),
            ("ethics_transparency_bps", self.ethics_transparency_bps, 500),
        ];
        assert(components@ =~= score_components(*self));
        let mut i: usize = 0;
        while i < 7
            invariant
                i <= 7,
                components@ == score_components(*self),
                first_over(score_components(*self), i as int) is None,
                forall|k: int| 0 <= k < i ==> (#[trigger] components@[k]).1 <= components@[k].2,
            decreases 7 - i,
        {
            let (field, value, maximum) = components[i];
            if value > maximum {
                proof {
                    lemma_first_over_sticks(score_components(*self), i + 1, 7);
                }
                let mut out: Vec<char> = Vec::new();
                push_str(&mut out, field);
                push_str(&mut out, " exceeds the frozen ");
                push_chars(&mut out, &crate::text::decimal_u128(maximum as u128));
                push_str(&mut out, " bps maximum");
                return Err(AppError::Invalid(string_from_chars(&out)));
            }
            i = i + 1;
        }
        assert(components@[0].1 <= components@[0].2);
        assert(components@[1].1 <= components@[1].2);
        assert(components@[2].1 <= components@[2].2);
        assert(components@[3].1 <= components@[3].2);
        assert(components@[4].1 <= components@[4].2);
        assert(components@[5].1 <= components@[5].2);
        assert(components@[6].1 <= components@[6].2);
        Ok(
            self.method_rigor_bps + self.experiment_statistics_bps + self.reproducibility_bps
                + self.evidence_citations_bps + self.value_originality_bps
                + self.argument_expression_bps + self.ethics_transparency_bps,
        )
    }
}

proof fn lemma_first_over_sticks(c: Seq<(&'static str, u16, u16)>, n: int, m: int)
    requires
        0 <= n <= m,
        first_over(c, n) is Some,
    ensures
        first_over(c, m) == first_over(c, n),
    decreases m - n,
{
    if m > n {
        lemma_first_over_sticks(c, n, m - 1);
    }
}

/// The hard gates an evaluation must pass.
#[derive(Debug, Clone, Copy, PartialEq, Eq)]
pub struct EvaluationHardGatesInput {
    pub citations_and_data_authentic: bool,
    pub failed_runs_disclosed: bool,
    pub all_authors_consented: bool,
    pub core_claims_have_evidence: bool,
    pub artifact_lineage_complete: bool,
    pub license_ethics_coi_complete: bool,
}

impl EvaluationHardGatesInput {
    /// Eligible only when every gate passes.
    pub fn eligible(&self) -> (r: bool)
        ensures
            r == (self.citations_and_data_authentic && self.failed_runs_disclosed
                && self.all_authors_consented && self.core_claims_have_evidence
                && self.artifact_lineage_complete && self.license_ethics_coi_complete),
    {
        self.citations_and_data_authentic && self.failed_runs_disclosed
            && self.all_authors_consented && self.core_claims_have_evidence
            && self.artifact_lineage_complete && self.license_ethics_coi_complete
    }
}

} // verus!

verus! {

/// The only fields a matchmaking payload may carry.
pub open spec fn matchmaking_keys() -> Seq<&'static str> {
    seq![
        "ticket_id",
        "challenge_id",
        "requested_team_size",
        "roles",
        "availability_hash",
        "party_code_hash",
        "idempotency_key",
    ]
}

/// A matchmaking payload: an object of the allowed fields only, whose
/// party code, if any, is given as a canonical digest and never raw.
pub open spec fn matchmaking_keys_allowed(members: Seq<(String, JsonValue)>) -> bool {
    forall|i: int|
        0 <= i < members.len() ==> crate::metrics::label_texts(matchmaking_keys()).contains(
            (#[trigger] members[i]).0@,
        )
}

pub open spec fn matchmaking_payload_safe(payload: JsonValue) -> bool {
    match payload {
        JsonValue::Object(members) => {
            &&& matchmaking_keys_allowed(members@)
            &&& match payload.spec_get("party_code_hash"@) {
                None => true,
                Some(JsonValue::String(v)) => crate::text::is_digest_text(v@),
                Some(_) => false,
            }
        },
        _ => false,
    }
}

pub fn matchmaking_party_payload_is_safe(payload: &JsonValue) -> (r: bool)
    ensures
        r == matchmaking_payload_safe(*payload),
{
    let members = match payload {
        JsonValue::Object(members) => members,
        _ => return false,
    };
    let allowed: [&'static str; 7] = [
        "ticket_id",
        "challenge_id",
        "requested_team_size",
        "roles",
        "availability_hash",
        "party_code_hash",
        "idempotency_key",
    ];
    assert(allowed@ =~= matchmaking_keys());
    let mut i: usize = 0;
    while i < members.len()
        invariant
            *payload == JsonValue::Object(*members),
            allowed@ == matchmaking_keys(),
            i <= members@.len(),
            forall|k: int|
                0 <= k < i ==> crate::metrics::label_texts(matchmaking_keys()).contains(
                    (#[trigger] members@[k]).0@,
                ),
        decreases members.len() - i,
    {
        if crate::metrics::find_label(&allowed, members[i].0.as_str()).is_none() {
            proof {
                assert(!crate::metrics::label_texts(matchmaking_keys()).contains(
                    members@[i as int].0@,
                ));
                assert(!matchmaking_keys_allowed(members@));
            }
            return false;
        }
        i = i + 1;
    }
    assert(matchmaking_keys_allowed(members@));
    match payload.get("party_code_hash") {
        None => true,
        Some(JsonValue::String(v)) => crate::text::valid_digest_label(v.as_str()),
        Some(_) => false,
    }
}

pub const FRAME_URI_UNBOUNDED: &'static str = "source URI must be a bounded canonical HTTPS URL";
pub const FRAME_URI_UNPARSED: &'static str = "source URI must be a canonical HTTPS URL";
pub const FRAME_URI_UNSAFE: &'static str =
    "source URI must be credential-free HTTPS without a fragment";

/// Why a source URI in a signing frame is refused: it must be 1..=480
/// bytes without control bytes, parse as a URL, and be HTTPS with a host,
/// no credentials and no fragment.
pub open spec fn frame_uri_error(value: Seq<char>) -> Option<&'static str> {
    let b = vstd::utf8::encode_utf8(value);
    if value.len() == 0 || b.len() > 480 || exists|i: int|
        0 <= i < b.len() && crate::oidc::is_control_byte(#[trigger] b[i]) {
        Some(FRAME_URI_UNBOUNDED)
    } else {
        match crate::oidc::url_parse_of(value) {
            None => Some(FRAME_URI_UNPARSED),
            Some((_, scheme, _, username, password, _, fragment, host)) => if scheme != "https"@
                || host is None || username.len() != 0 || password is Some || fragment is Some {
                Some(FRAME_URI_UNSAFE)
            } else {
                None
            },
        }
    }
}

pub fn validate_frame_https_uri(value: &str) -> (r: Result<(), AppError>)
    ensures
        match frame_uri_error(value@) {
            None => r is Ok,
            Some(m) => is_invalid(r, m),
        },
{
    let b = value.as_bytes();
    if value.is_empty() || b.len() > 480 {
        return Err(invalid(FRAME_URI_UNBOUNDED));
    }
    let mut i: usize = 0;
    while i < b.len()
        invariant
            i <= b@.len(),
            b@ == vstd::utf8::encode_utf8(value@),
            forall|j: int| 0 <= j < i ==> !crate::oidc::is_control_byte(#[trigger] b@[j]),
        decreases b.len() - i,
    {
        if b[i] < 0x20 || b[i] == 0x7f {
            return Err(invalid(FRAME_URI_UNBOUNDED));
        }
        i = i + 1;
    }
    let parsed = match crate::oidc::parse_url(value) {
        Some(p) => p,
        None => {
            return Err(invalid(FRAME_URI_UNPARSED));
        },
    };
    if !str_eq(parsed.scheme.as_str(), "https") || parsed.host.is_none()
        || !parsed.username.as_str().is_empty() || parsed.password.is_some()
        || parsed.fragment.is_some() {
        return Err(invalid(FRAME_URI_UNSAFE));
    }
    Ok(())
}

/// The text stored under `key`, if it is a string.
pub open spec fn str_field(v: JsonValue, key: Seq<char>) -> Option<Seq<char>> {
    crate::metrics::text_field(v, key)
}

/// A room belongs to the paper when its paper's project id is the paper's id.
pub fn require_room_paper_id(room: &JsonValue, paper_id: u128) -> (r: Result<(), AppError>)
    ensures
        r == (if (match room.spec_get("paper"@) {
            Some(paper) => str_field(paper, "paper_project_id"@) == Some(uuid_text(paper_id)),
            None => false,
        }) {
            Ok::<(), AppError>(())
        } else {
            Err(AppError::Upstream)
        }),
{
    let expected = string_from_chars(&uuid_chars(paper_id));
    let matches = match room.get("paper") {
        Some(paper) => match paper.get("paper_project_id") {
            Some(v) => match v.as_str() {
                Some(t) => str_eq(t, expected.as_str()),
                None => false,
            },
            None => false,
        },
        None => false,
    };
    if matches {
        Ok(())
    } else {
        Err(AppError::Upstream)
    }
}

/// A non-empty string field of an upstream record.
pub fn required_string(value: &JsonValue, field: &str) -> (r: Result<String, AppError>)
    ensures
        match str_field(*value, field@) {
            Some(t) => if t.len() > 0 {
                r matches Ok(s) && s@ == t
            } else {
                r == Err::<String, AppError>(AppError::Upstream)
            },
            None => r == Err::<String, AppError>(AppError::Upstream),
        },
{
    match value.get(field) {
        Some(v) => match v.as_str() {
            Some(t) => if !t.is_empty() {
                Ok(t.to_owned())
            } else {
                Err(AppError::Upstream)
            },
            None => Err(AppError::Upstream),
        },
        None => Err(AppError::Upstream),
    }
}

/// A whole-number field of an upstream record.
pub fn required_u64(value: &JsonValue, field: &str) -> (r: Result<u64, AppError>)
    ensures
        match value.spec_get(field@) {
            Some(v) => match v.spec_as_u64() {
                Some(n) => r == Ok::<u64, AppError>(n),
                None => r == Err::<u64, AppError>(AppError::Upstream),
            },
            None => r == Err::<u64, AppError>(AppError::Upstream),
        },
{
    match value.get(field) {
        Some(v) => match v.as_u64() {
            Some(n) => Ok(n),
            None => Err(AppError::Upstream),
        },
        None => Err(AppError::Upstream),
    }
}

/// A UUID field of an upstream record, in any spelling that `uuid` accepts.
pub fn required_uuid(value: &JsonValue, field: &str) -> (r: Result<u128, AppError>)
    ensures
        match str_field(*value, field@) {
            Some(t) => match crate::digest::uuid_parse_of(t) {
                Some(u) => r == Ok::<u128, AppError>(u),
                None => r == Err::<u128, AppError>(AppError::Upstream),
            },
            None => r == Err::<u128, AppError>(AppError::Upstream),
        },
{
    match value.get(field) {
        Some(v) => match v.as_str() {
            Some(t) => match crate::digest::uuid_parse(t) {
                Some(u) => Ok(u),
                None => Err(AppError::Upstream),
            },
            None => Err(AppError::Upstream),
        },
        None => Err(AppError::Upstream),
    }
}

} // verus!

verus! {

/// The most bytes of a command body sent upstream, and of an answer read back.
pub const MAX_JSON_BYTES: usize = 2097152;

pub const BODY_TOO_LARGE: &'static str = "command body is too large";
pub const IDEMPOTENCY_KEY_REUSED: &'static str =
    "idempotency_key was already used for a different request";
pub const INCONSISTENT_REPLAY: &'static str =
    "upstream returned inconsistent idempotent responses";

/// The path prefix of every upstream request.
pub open spec fn hepta_prefix() -> Seq<char> {
    "/v2/hepta/"@
}

/// A byte allowed in an upstream query: an ASCII letter or digit, `_`, `=`,
/// `&` or `-`.
pub open spec fn is_query_char(c: char) -> bool {
    ('a' <= c && c <= 'z') || ('A' <= c && c <= 'Z') || ('0' <= c && c <= '9') || c == '_'
        || c == '=' || c == '&' || c == '-'
}

/// A query that may be forwarded: not empty, and made of allowed bytes only.
pub open spec fn query_allowed(q: Seq<char>) -> bool {
    q.len() > 0 && forall|i: int| 0 <= i < q.len() ==> is_query_char(#[trigger] q[i])
}

/// A route that may be sent: its path lies under the Hepta prefix and its
/// query, if any, is allowed.
pub open spec fn route_is_sendable(route: Route) -> bool {
    &&& hepta_prefix().is_prefix_of(route.path@)
    &&& match route.query {
        Some(q) => query_allowed(q@),
        None => true,
    }
}

fn has_prefix(s: &str, prefix: &str) -> (r: bool)
    ensures
        r == prefix@.is_prefix_of(s@),
{
    let v = crate::text::chars_of(s);
    let p = crate::text::chars_of(prefix);
    if p.len() > v.len() {
        return false;
    }
    let mut i: usize = 0;
    while i < p.len()
        invariant
            v@ == s@,
            p@ == prefix@,
            p@.len() <= v@.len(),
            i <= p@.len(),
            forall|k: int| 0 <= k < i ==> v@[k] == p@[k],
        decreases p.len() - i,
    {
        if v[i] != p[i] {
            assert(s@.subrange(0, p@.len() as int)[i as int] != prefix@[i as int]);
            return false;
        }
        i = i + 1;
    }
    assert(prefix@ =~= s@.subrange(0, prefix@.len() as int));
    true
}

fn query_chars_allowed(q: &str) -> (r: bool)
    ensures
        r == query_allowed(q@),
{
    let v = crate::text::chars_of(q);
    if v.len() == 0 {
        return false;
    }
    let mut i: usize = 0;
    while i < v.len()
        invariant
            v@ == q@,
            i <= v@.len(),
            forall|k: int| 0 <= k < i ==> is_query_char(#[trigger] v@[k]),
        decreases v.len() - i,
    {
        let c = v[i];
        let ok = ('a' <= c && c <= 'z') || ('A' <= c && c <= 'Z') || ('0' <= c && c <= '9') || c
            == '_' || c == '=' || c == '&' || c == '-';
        if !ok {
            assert(!is_query_char(q@[i as int]));
            return false;
        }
        i = i + 1;
    }
    true
}

/// The guard before a route is sent upstream: a route outside the Hepta
/// prefix, or with an empty query or a disallowed query byte, is an internal
/// fault.
pub fn route_sendable(route: &Route) -> (r: Result<(), AppError>)
    ensures
        r == (if route_is_sendable(*route) {
            Ok::<(), AppError>(())
        } else {
            Err::<(), AppError>(AppError::Internal)
        }),
{
    if !has_prefix(route.path.as_str(), "/v2/hepta/") {
        return Err(AppError::Internal);
    }
    match &route.query {
        Some(q) => {
            if !query_chars_allowed(q.as_str()) {
                return Err(AppError::Internal);
            }
        },
        None => {},
    }
    Ok(())
}

/// The cap on the size of a command body.
pub fn command_body_fits(body: &[u8]) -> (r: Result<(), AppError>)
    ensures
        body@.len() <= MAX_JSON_BYTES ==> r is Ok,
        body@.len() > MAX_JSON_BYTES ==> is_invalid(r, BODY_TOO_LARGE),
{
    if body.len() > MAX_JSON_BYTES {
        return Err(invalid(BODY_TOO_LARGE));
    }
    Ok(())
}

/// The bytes that identify a business request: the method, a zero byte, the
/// canonical path with its query, a zero byte, and the body.
pub open spec fn request_hash_input(route: Route, body: Seq<u8>) -> Seq<u8> {
    let path = match route.query {
        Some(q) => route.path@ + "?"@ + q@,
        None => route.path@,
    };
    vstd::utf8::encode_utf8(route.method@) + seq![0u8] + vstd::utf8::encode_utf8(path) + seq![
        0u8,
    ] + body
}

fn append_bytes(out: &mut Vec<u8>, b: &[u8])
    ensures
        final(out)@ == old(out)@ + b@,
{
    let ghost before = out@;
    let mut i: usize = 0;
    while i < b.len()
        invariant
            i <= b@.len(),
            out@ == before + b@.take(i as int),
        decreases b.len() - i,
    {
        out.push(b[i]);
        i = i + 1;
        assert(out@ =~= before + b@.take(i as int));
    }
    assert(b@.take(b@.len() as int) =~= b@);
}

/// The SHA-256 digest that the idempotency record keeps for a request.
pub fn business_request_hash(route: &Route, body: &[u8]) -> (r: Vec<u8>)
    ensures
        r@ == crate::digest::sha256_of(request_hash_input(*route, body@)),
        r@.len() == 32,
{
    let path = route.canonical_path();
    let mut input: Vec<u8> = Vec::new();
    append_bytes(&mut input, route.method.as_bytes());
    input.push(0u8);
    append_bytes(&mut input, path.as_str().as_bytes());
    input.push(0u8);
    append_bytes(&mut input, body);
    assert(input@ =~= request_hash_input(*route, body@));
    crate::digest::sha256(input.as_slice())
}

fn bytes_equal(a: &[u8], b: &[u8]) -> (r: bool)
    ensures
        r == (a@ == b@),
{
    if a.len() != b.len() {
        return false;
    }
    let mut i: usize = 0;
    while i < a.len()
        invariant
            a@.len() == b@.len(),
            i <= a@.len(),
            forall|k: int| 0 <= k < i ==> a@[k] == b@[k],
        decreases a.len() - i,
    {
        if a[i] != b[i] {
            return false;
        }
        i = i + 1;
    }
    assert(a@ =~= b@);
    true
}

/// What a stored idempotency record means for a new request with the same
/// key: a different request hash is a conflict; a completed record is
/// replayed with its stored status and body (a missing or out-of-range field
/// is an internal fault); otherwise the request goes on.
pub open spec fn replay_outcome_ok(
    stored_hash: Seq<u8>,
    request_hash: Seq<u8>,
    state: Seq<char>,
    status: Option<i32>,
    body: Option<Vec<u8>>,
    r: Result<Option<(u16, Vec<u8>)>, AppError>,
) -> bool {
    if stored_hash != request_hash {
        r matches Err(AppError::Conflict(m)) && m@ == IDEMPOTENCY_KEY_REUSED@
    } else if state != "completed"@ {
        r == Ok::<Option<(u16, Vec<u8>)>, AppError>(None)
    } else {
        match (status, body) {
            (Some(s), Some(b)) => if 0 <= s <= 65535 {
                r matches Ok(Some((x, y))) && x == s && y@ == b@
            } else {
                r == Err::<Option<(u16, Vec<u8>)>, AppError>(AppError::Internal)
            },
            _ => r == Err::<Option<(u16, Vec<u8>)>, AppError>(AppError::Internal),
        }
    }
}

/// The decision on a stored idempotency record (see `replay_outcome_ok`).
pub fn idempotent_replay(
    stored_hash: &[u8],
    request_hash: &[u8],
    state: &str,
    status: Option<i32>,
    body: Option<Vec<u8>>,
) -> (r: Result<Option<(u16, Vec<u8>)>, AppError>)
    ensures
        replay_outcome_ok(stored_hash@, request_hash@, state@, status, body, r),
{
    if !bytes_equal(stored_hash, request_hash) {
        return Err(AppError::Conflict(IDEMPOTENCY_KEY_REUSED.to_owned()));
    }
    if !str_eq(state, "completed") {
        return Ok(None);
    }
    let s = match status {
        Some(s) => s,
        None => {
            return Err(AppError::Internal);
        },
    };
    let b = match body {
        Some(b) => b,
        None => {
            return Err(AppError::Internal);
        },
    };
    if s < 0 || s > 65535 {
        return Err(AppError::Internal);
    }
    Ok(Some((s as u16, b)))
}

/// The check after a completion was not recorded: the record read back must
/// hold the same status and body, else the upstream answers are
/// inconsistent; no record at all is an internal fault.
pub fn idempotent_completion(replay: Option<(u16, Vec<u8>)>, status: u16, body: &[u8]) -> (r:
    Result<(), AppError>)
    ensures
        match replay {
            None => r == Err::<(), AppError>(AppError::Internal),
            Some((s, b)) => if s == status && b@ == body@ {
                r is Ok
            } else {
                r matches Err(AppError::Conflict(m)) && m@ == INCONSISTENT_REPLAY@
            },
        },
{
    match replay {
        None => Err(AppError::Internal),
        Some((s, b)) => {
            if s != status || !bytes_equal(b.as_slice(), body) {
                Err(AppError::Conflict(INCONSISTENT_REPLAY.to_owned()))
            } else {
                Ok(())
            }
        },
    }
}

/// Exactly a JSON content type.
pub open spec fn is_strict_json(content_type: Option<&str>) -> bool {
    match content_type {
        Some(t) => t@ == "application/json"@ || t@ == "application/json; charset=utf-8"@,
        None => false,
    }
}

/// What an upstream answer means: a redirect, a content type that is not
/// strictly JSON, an oversized body or a body that is not JSON is a protocol
/// fault answered as an upstream refusal; a 5xx status makes Hepta
/// unavailable; otherwise the answer stands, and it is recorded for its
/// idempotency key exactly when it is a 2xx answer to a request that is not
/// a GET.
pub open spec fn hepta_response_ok(
    is_get: bool,
    redirect: bool,
    content_type: Option<&str>,
    status: u16,
    body: Seq<u8>,
    r: Result<bool, (AppError, crate::metrics::HeptaErrorKind)>,
) -> bool {
    if redirect || !is_strict_json(content_type) || body.len() > MAX_JSON_BYTES
        || !crate::probe::json_parses_of(body) {
        r == Err::<bool, (AppError, crate::metrics::HeptaErrorKind)>(
            (AppError::Upstream, crate::metrics::HeptaErrorKind::Protocol),
        )
    } else if 500 <= status <= 599 {
        r matches Err((AppError::Unavailable(w), crate::metrics::HeptaErrorKind::Server)) && w@
            == "hepta"@
    } else {
        r == Ok::<bool, (AppError, crate::metrics::HeptaErrorKind)>(
            !is_get && 200 <= status <= 299,
        )
    }
}

/// The classification of an upstream answer (see `hepta_response_ok`); the
/// error carries the kind under which the fault is counted.
pub fn classify_hepta_response(
    is_get: bool,
    redirect: bool,
    content_type: Option<&str>,
    status: u16,
    body: &[u8],
) -> (r: Result<bool, (AppError, crate::metrics::HeptaErrorKind)>)
    ensures
        hepta_response_ok(is_get, redirect, content_type, status, body@, r),
{
    if redirect || !strict_json(content_type) {
        return Err((AppError::Upstream, crate::metrics::HeptaErrorKind::Protocol));
    }
    if body.len() > MAX_JSON_BYTES || !crate::probe::body_is_json(body) {
        return Err((AppError::Upstream, crate::metrics::HeptaErrorKind::Protocol));
    }
    if 500 <= status && status <= 599 {
        return Err((AppError::Unavailable("hepta"), crate::metrics::HeptaErrorKind::Server));
    }
    Ok(!is_get && 200 <= status && status <= 299)
}

} // verus!

verus! {

/// The literal that opens a route shape: its fixed path or its path prefix.
pub open spec fn shape_head(s: RouteShape) -> &'static str {
    match s {
        RouteShape::Fixed { path, .. } => path,
        RouteShape::Resource { prefix, .. } => prefix,
        RouteShape::ResourceChild { prefix, .. } => prefix,
        RouteShape::Session { prefix, .. } => prefix,
        RouteShape::NoLocators { path, .. } => path,
        RouteShape::ResourceOnly { prefix, .. } => prefix,
        RouteShape::StrictResourceChild { prefix, .. } => prefix,
    }
}

/// The operation that a route shape names.
pub open spec fn shape_operation(s: RouteShape) -> &'static str {
    match s {
        RouteShape::Fixed { operation, .. } => operation,
        RouteShape::Resource { operation, .. } => operation,
        RouteShape::ResourceChild { operation, .. } => operation,
        RouteShape::Session { operation, .. } => operation,
        RouteShape::NoLocators { operation, .. } => operation,
        RouteShape::ResourceOnly { operation, .. } => operation,
        RouteShape::StrictResourceChild { operation, .. } => operation,
    }
}

proof fn lemma_shape_heads_under_prefix(c: CommandName)
    ensures
        hepta_prefix().is_prefix_of(shape_head(command_shape(c))@),
{
    reveal_strlit("/v2/hepta/");
    reveal_strlit("/v2/hepta/agent-bindings");
    reveal_strlit("/v2/hepta/agent-bindings/");
    reveal_strlit("/v2/hepta/matchmaking/tickets");
    reveal_strlit("/v2/hepta/matchmaking/tickets/");
    reveal_strlit("/v2/hepta/nakama/research-session-controls/complete");
    reveal_strlit("/v2/hepta/nakama/research-session-controls/create");
    reveal_strlit("/v2/hepta/nakama/research-session-controls/replace-roster");
    reveal_strlit("/v2/hepta/nakama/research-session-controls/resume");
    reveal_strlit("/v2/hepta/papers");
    reveal_strlit("/v2/hepta/papers/");
    reveal_strlit("/v2/hepta/players/");
    reveal_strlit("/v2/hepta/research-session-authorizations");
    reveal_strlit("/v2/hepta/research-session-authorizations/");
    reveal_strlit("/v2/hepta/team-proposals/");
    reveal_strlit("/v2/hepta/teams");
    reveal_strlit("/v2/hepta/teams/");
    reveal_strlit("/v2/hepta/work-items/");
    assert(hepta_prefix() =~= "/v2/hepta/agent-bindings"@.subrange(0, 10));
    assert(hepta_prefix() =~= "/v2/hepta/agent-bindings/"@.subrange(0, 10));
    assert(hepta_prefix() =~= "/v2/hepta/matchmaking/tickets"@.subrange(0, 10));
    assert(hepta_prefix() =~= "/v2/hepta/matchmaking/tickets/"@.subrange(0, 10));
    assert(hepta_prefix() =~= "/v2/hepta/nakama/research-session-controls/complete"@.subrange(0, 10));
    assert(hepta_prefix() =~= "/v2/hepta/nakama/research-session-controls/create"@.subrange(0, 10));
    assert(hepta_prefix() =~= "/v2/hepta/nakama/research-session-controls/replace-roster"@.subrange(0, 10));
    assert(hepta_prefix() =~= "/v2/hepta/nakama/research-session-controls/resume"@.subrange(0, 10));
    assert(hepta_prefix() =~= "/v2/hepta/papers"@.subrange(0, 10));
    assert(hepta_prefix() =~= "/v2/hepta/papers/"@.subrange(0, 10));
    assert(hepta_prefix() =~= "/v2/hepta/players/"@.subrange(0, 10));
    assert(hepta_prefix() =~= "/v2/hepta/research-session-authorizations"@.subrange(0, 10));
    assert(hepta_prefix() =~= "/v2/hepta/research-session-authorizations/"@.subrange(0, 10));
    assert(hepta_prefix() =~= "/v2/hepta/team-proposals/"@.subrange(0, 10));
    assert(hepta_prefix() =~= "/v2/hepta/teams"@.subrange(0, 10));
    assert(hepta_prefix() =~= "/v2/hepta/teams/"@.subrange(0, 10));
    assert(hepta_prefix() =~= "/v2/hepta/work-items/"@.subrange(0, 10));
}

proof fn lemma_prefix_extends(p: Seq<char>, x: Seq<char>)
    requires
        hepta_prefix().is_prefix_of(p),
    ensures
        hepta_prefix().is_prefix_of(p + x),
{
    assert((p + x).subrange(0, hepta_prefix().len() as int) =~= p.subrange(
        0,
        hepta_prefix().len() as int,
    ));
}

/// Every route that a command takes is a POST without a query whose path
/// lies under the Hepta prefix, so the send guard accepts it; its operation
/// comes from the command name alone; and the route reads nothing of the
/// command but its name and locators (not its payload or idempotency key).
pub proof fn lemma_route_law(a: BrowserCommand, b: BrowserCommand)
    requires
        a.command == b.command,
        a.resource_id == b.resource_id,
        a.child_id == b.child_id,
        a.session_id == b.session_id,
    ensures
        route_outcome(a) == route_outcome(b),
        route_outcome(a) matches Ok((path, operation)) ==> {
            &&& hepta_prefix().is_prefix_of(path)
            &&& operation == shape_operation(command_shape(a.command))
            &&& forall|route: Route|
                route.path@ == path && route.query is None ==> #[trigger] route_is_sendable(route)
        },
{
    lemma_shape_heads_under_prefix(a.command);
    match route_outcome(a) {
        Ok((path, operation)) => {
            match command_shape(a.command) {
                RouteShape::Resource { prefix, suffix, .. } => {
                    let r = a.resource_id->0;
                    lemma_prefix_extends(prefix@, uuid_text(r));
                    lemma_prefix_extends(prefix@ + uuid_text(r), suffix@);
                },
                RouteShape::ResourceOnly { prefix, suffix, .. } => {
                    let r = a.resource_id->0;
                    lemma_prefix_extends(prefix@, uuid_text(r));
                    lemma_prefix_extends(prefix@ + uuid_text(r), suffix@);
                },
                RouteShape::ResourceChild { prefix, middle, suffix, .. } => {
                    let r = a.resource_id->0;
                    let c = a.child_id->0;
                    lemma_prefix_extends(prefix@, uuid_text(r));
                    lemma_prefix_extends(prefix@ + uuid_text(r), middle@);
                    lemma_prefix_extends(prefix@ + uuid_text(r) + middle@, uuid_text(c));
                    lemma_prefix_extends(prefix@ + uuid_text(r) + middle@ + uuid_text(c), suffix@);
                },
                RouteShape::StrictResourceChild { prefix, middle, suffix, .. } => {
                    let r = a.resource_id->0;
                    let c = a.child_id->0;
                    lemma_prefix_extends(prefix@, uuid_text(r));
                    lemma_prefix_extends(prefix@ + uuid_text(r), middle@);
                    lemma_prefix_extends(prefix@ + uuid_text(r) + middle@, uuid_text(c));
                    lemma_prefix_extends(prefix@ + uuid_text(r) + middle@ + uuid_text(c), suffix@);
                },
                RouteShape::Session { prefix, suffix, .. } => {
                    let s = a.session_id->0;
                    lemma_prefix_extends(prefix@, s@);
                    lemma_prefix_extends(prefix@ + s@, suffix@);
                },
                _ => {},
            }
        },
        Err(_) => {},
    }
}

} // verus!

verus! {

/// How a command that can be signed in the browser treats the child locator.
#[derive(Debug, Clone, Copy, PartialEq, Eq)]
pub enum FrameChildRule {
    /// The command takes no child locator.
    Absent,
    /// The command needs a child locator.
    Required,
    /// The child locator picks the advanced form; without it the guided form is used.
    Optional,
    /// The child locator is derived from the current review state, so the browser may not send one.
    Derived,
}

pub const FRAME_UNSUPPORTED: &'static str = "command does not support browser-local human signing";
pub const CHILD_NOT_ALLOWED: &'static str = "child_id is not allowed";
pub const CHILD_DERIVED: &'static str =
    "guided Appeal resolution derives child_id from the current review state";

/// The commands that can be signed in the browser, with their child-locator rule.
pub open spec fn frame_child_rule(c: CommandName) -> Option<FrameChildRule> {
    match c {
        CommandName::AcceptResearchTeamMembership => Some(FrameChildRule::Absent),
        CommandName::CreateEvidenceCard => Some(FrameChildRule::Absent),
        CommandName::CreateCitationRecord => Some(FrameChildRule::Absent),
        CommandName::RecordHumanDecision => Some(FrameChildRule::Absent),
        CommandName::SubmitReview => Some(FrameChildRule::Required),
        CommandName::MergeSection => Some(FrameChildRule::Absent),
        CommandName::CreateAuthorshipConsent => Some(FrameChildRule::Absent),
        CommandName::CreatePaperEvaluationDraft => Some(FrameChildRule::Absent),
        CommandName::SubmitEvaluationDraftAttestation => Some(FrameChildRule::Required),
        CommandName::SubmitReproduction => Some(FrameChildRule::Required),
        CommandName::StartPaperRework => Some(FrameChildRule::Absent),
        CommandName::SubmitAppeal => Some(FrameChildRule::Optional),
        CommandName::ResolveAppeal => Some(FrameChildRule::Derived),
        _ => None,
    }
}

pub fn frame_child_rule_of(c: CommandName) -> (r: Option<FrameChildRule>)
    ensures
        r == frame_child_rule(c),
{
    match c {
        CommandName::AcceptResearchTeamMembership => Some(FrameChildRule::Absent),
        CommandName::CreateEvidenceCard => Some(FrameChildRule::Absent),
        CommandName::CreateCitationRecord => Some(FrameChildRule::Absent),
        CommandName::RecordHumanDecision => Some(FrameChildRule::Absent),
        CommandName::SubmitReview => Some(FrameChildRule::Required),
        CommandName::MergeSection => Some(FrameChildRule::Absent),
        CommandName::CreateAuthorshipConsent => Some(FrameChildRule::Absent),
        CommandName::CreatePaperEvaluationDraft => Some(FrameChildRule::Absent),
        CommandName::SubmitEvaluationDraftAttestation => Some(FrameChildRule::Required),
        CommandName::SubmitReproduction => Some(FrameChildRule::Required),
        CommandName::StartPaperRework => Some(FrameChildRule::Absent),
        CommandName::SubmitAppeal => Some(FrameChildRule::Optional),
        CommandName::ResolveAppeal => Some(FrameChildRule::Derived),
        _ => None,
    }
}

/// What the signing-frame flow decides before it reads any payload: a
/// current player record that is not the caller's is forbidden; a command
/// outside the browser-signing list is refused; otherwise the resource
/// locator is required and the child locator must follow the command's rule.
/// The result is the resource locator and the child locator passed on.
pub open spec fn frame_locators_ok(
    identity_player: u128,
    identity_subject: Seq<char>,
    player_id: u128,
    player_subject: Seq<char>,
    command: CommandName,
    resource_id: Option<u128>,
    child_id: Option<u128>,
    r: Result<(u128, Option<u128>), AppError>,
) -> bool {
    if player_id != identity_player || player_subject != identity_subject {
        r == Err::<(u128, Option<u128>), AppError>(AppError::Forbidden)
    } else {
        match frame_child_rule(command) {
            None => is_invalid(r, FRAME_UNSUPPORTED),
            Some(rule) => match resource_id {
                None => is_invalid(r, RESOURCE_REQUIRED),
                Some(res) => match rule {
                    FrameChildRule::Required => match child_id {
                        None => is_invalid(r, CHILD_REQUIRED),
                        Some(_) => r == Ok::<(u128, Option<u128>), AppError>((res, child_id)),
                    },
                    FrameChildRule::Absent => if child_id is Some {
                        is_invalid(r, CHILD_NOT_ALLOWED)
                    } else {
                        r == Ok::<(u128, Option<u128>), AppError>((res, None))
                    },
                    FrameChildRule::Derived => if child_id is Some {
                        is_invalid(r, CHILD_DERIVED)
                    } else {
                        r == Ok::<(u128, Option<u128>), AppError>((res, None))
                    },
                    FrameChildRule::Optional => r == Ok::<(u128, Option<u128>), AppError>(
                        (res, child_id),
                    ),
                },
            },
        }
    }
}

/// The checks that open the browser signing-frame flow (see `frame_locators_ok`).
pub fn human_signing_frame_locators(
    identity_player: u128,
    identity_subject: &str,
    player_id: u128,
    player_subject: &str,
    command: CommandName,
    resource_id: Option<u128>,
    child_id: Option<u128>,
) -> (r: Result<(u128, Option<u128>), AppError>)
    ensures
        frame_locators_ok(
            identity_player,
            identity_subject@,
            player_id,
            player_subject@,
            command,
            resource_id,
            child_id,
            r,
        ),
{
    if player_id != identity_player || !str_eq(player_subject, identity_subject) {
        return Err(AppError::Forbidden);
    }
    let rule = match frame_child_rule_of(command) {
        Some(rule) => rule,
        None => {
            return Err(invalid(FRAME_UNSUPPORTED));
        },
    };
    let res = match resource_id {
        Some(res) => res,
        None => {
            return Err(invalid(RESOURCE_REQUIRED));
        },
    };
    match rule {
        FrameChildRule::Required => match child_id {
            None => Err(invalid(CHILD_REQUIRED)),
            Some(_) => Ok((res, child_id)),
        },
        FrameChildRule::Absent => if child_id.is_some() {
            Err(invalid(CHILD_NOT_ALLOWED))
        } else {
            Ok((res, None))
        },
        FrameChildRule::Derived => if child_id.is_some() {
            Err(invalid(CHILD_DERIVED))
        } else {
            Ok((res, None))
        },
        FrameChildRule::Optional => Ok((res, child_id)),
    }
}

} // verus!

verus! {

/// An upstream read that the signing-frame flow makes for a command, with
/// the paper or team of the request's resource locator.
#[derive(Debug, Clone, Copy, PartialEq, Eq)]
pub enum FrameRead {
    Team,
    PaperRoom,
    ReviewBundle,
    ReviewState,
    Reworks,
}

/// The reads that the signing-frame flow makes for a command, in order,
/// after the locator checks and before the command's binding check; the
/// binding check then takes what they returned.
pub open spec fn frame_reads(c: CommandName) -> Seq<FrameRead> {
    match c {
        CommandName::AcceptResearchTeamMembership => seq![FrameRead::Team],
        CommandName::CreateEvidenceCard => seq![FrameRead::PaperRoom],
        CommandName::CreateCitationRecord => seq![FrameRead::PaperRoom],
        CommandName::RecordHumanDecision => seq![FrameRead::PaperRoom],
        CommandName::SubmitReview => seq![FrameRead::PaperRoom],
        CommandName::MergeSection => seq![FrameRead::PaperRoom],
        CommandName::CreatePaperEvaluationDraft => seq![FrameRead::ReviewBundle],
        CommandName::SubmitEvaluationDraftAttestation => seq![FrameRead::ReviewBundle],
        CommandName::SubmitReproduction => seq![FrameRead::ReviewBundle],
        CommandName::StartPaperRework => seq![
            FrameRead::PaperRoom,
            FrameRead::ReviewState,
            FrameRead::Reworks,
        ],
        CommandName::SubmitAppeal => seq![FrameRead::PaperRoom, FrameRead::ReviewState],
        CommandName::ResolveAppeal => seq![FrameRead::ReviewBundle, FrameRead::ReviewState],
        _ => Seq::<FrameRead>::empty(),
    }
}

pub fn frame_reads_of(c: CommandName) -> (r: Vec<FrameRead>)
    ensures
        r@ == frame_reads(c),
{
    let r = match c {
        CommandName::AcceptResearchTeamMembership => vec![FrameRead::Team],
        CommandName::CreateEvidenceCard => vec![FrameRead::PaperRoom],
        CommandName::CreateCitationRecord => vec![FrameRead::PaperRoom],
        CommandName::RecordHumanDecision => vec![FrameRead::PaperRoom],
        CommandName::SubmitReview => vec![FrameRead::PaperRoom],
        CommandName::MergeSection => vec![FrameRead::PaperRoom],
        CommandName::CreatePaperEvaluationDraft => vec![FrameRead::ReviewBundle],
        CommandName::SubmitEvaluationDraftAttestation => vec![FrameRead::ReviewBundle],
        CommandName::SubmitReproduction => vec![FrameRead::ReviewBundle],
        CommandName::StartPaperRework => vec![
            FrameRead::PaperRoom,
            FrameRead::ReviewState,
            FrameRead::Reworks,
        ],
        CommandName::SubmitAppeal => vec![FrameRead::PaperRoom, FrameRead::ReviewState],
        CommandName::ResolveAppeal => vec![FrameRead::ReviewBundle, FrameRead::ReviewState],
        _ => Vec::new(),
    };
    assert(r@ =~= frame_reads(c));
    r
}

} // verus!

verus! {

/// The upstream endpoint that each command reaches once its locators are
/// given: the full path, with the locators in place, and the operation.
pub proof fn lemma_route_endpoints(cmd: BrowserCommand)
    ensures
        match cmd.command {
            CommandName::RotateHumanSigningKey => (cmd.resource_id is Some) ==> route_outcome(cmd) == Ok::<(Seq<char>, &'static str), &'static str>(
                ("/v2/hepta/players/"@ + uuid_text(cmd.resource_id->0) + "/signing-key/rotate"@, "rotate_human_signing_key_v2"),
            ),
            CommandName::RevokeHumanSigningKey => (cmd.resource_id is Some) ==> route_outcome(cmd) == Ok::<(Seq<char>, &'static str), &'static str>(
                ("/v2/hepta/players/"@ + uuid_text(cmd.resource_id->0) + "/signing-key/revoke"@, "revoke_human_signing_key_v2"),
            ),
            CommandName::CreateAgentBinding => (true) ==> route_outcome(cmd) == Ok::<(Seq<char>, &'static str), &'static str>(
                ("/v2/hepta/agent-bindings"@, "create_agent_binding_v2"),
            ),
            CommandName::RotateAgentBindingKey => (cmd.resource_id is Some) ==> route_outcome(cmd) == Ok::<(Seq<char>, &'static str), &'static str>(
                ("/v2/hepta/agent-bindings/"@ + uuid_text(cmd.resource_id->0) + "/rotate-key"@, "rotate_agent_binding_key_v2"),
            ),
            CommandName::CreateResearchTeam => (true) ==> route_outcome(cmd) == Ok::<(Seq<char>, &'static str), &'static str>(
                ("/v2/hepta/teams"@, "create_research_team_v2"),
            ),
            CommandName::AcceptResearchTeamMembership => (cmd.resource_id is Some) ==> route_outcome(cmd) == Ok::<(Seq<char>, &'static str), &'static str>(
                ("/v2/hepta/teams/"@ + uuid_text(cmd.resource_id->0) + "/member-acceptances"@, "accept_research_team_membership_v2"),
            ),
            CommandName::LockResearchTeam => (cmd.resource_id is Some) ==> route_outcome(cmd) == Ok::<(Seq<char>, &'static str), &'static str>(
                ("/v2/hepta/teams/"@ + uuid_text(cmd.resource_id->0) + "/lock"@, "lock_research_team_v2"),
            ),
            CommandName::CreatePaperProject => (true) ==> route_outcome(cmd) == Ok::<(Seq<char>, &'static str), &'static str>(
                ("/v2/hepta/papers"@, "create_paper_project_v2"),
            ),
            CommandName::TransitionPaperChallengeOutcome => (cmd.resource_id is Some) ==> route_outcome(cmd) == Ok::<(Seq<char>, &'static str), &'static str>(
                ("/v2/hepta/papers/"@ + uuid_text(cmd.resource_id->0) + "/outcome"@, "transition_paper_challenge_outcome_v1"),
            ),
            CommandName::TransitionPaperProject => (cmd.resource_id is Some) ==> route_outcome(cmd) == Ok::<(Seq<char>, &'static str), &'static str>(
                ("/v2/hepta/papers/"@ + uuid_text(cmd.resource_id->0) + "/transition"@, "transition_paper_project_v2"),
            ),
            CommandName::CreatePaperWorkItem => (cmd.resource_id is Some) ==> route_outcome(cmd) == Ok::<(Seq<char>, &'static str), &'static str>(
                ("/v2/hepta/papers/"@ + uuid_text(cmd.resource_id->0) + "/work-items"@, "create_paper_work_item_v2"),
            ),
            CommandName::TransitionPaperWorkItem => (cmd.resource_id is Some) ==> route_outcome(cmd) == Ok::<(Seq<char>, &'static str), &'static str>(
                ("/v2/hepta/work-items/"@ + uuid_text(cmd.resource_id->0) + "/transition"@, "transition_paper_work_item_v2"),
            ),
            CommandName::CreatePaperRevision => (cmd.resource_id is Some) ==> route_outcome(cmd) == Ok::<(Seq<char>, &'static str), &'static str>(
                ("/v2/hepta/papers/"@ + uuid_text(cmd.resource_id->0) + "/revisions"@, "create_paper_revision_v2"),
            ),
            CommandName::PromotePaperReleaseCandidate => (cmd.resource_id is Some && cmd.child_id is Some) ==> route_outcome(cmd) == Ok::<(Seq<char>, &'static str), &'static str>(
                ("/v2/hepta/papers/"@ + uuid_text(cmd.resource_id->0) + "/revisions/"@ + uuid_text(cmd.child_id->0) + "/promote"@, "promote_paper_release_candidate_v2"),
            ),
            CommandName::CreateAuthorshipConsent => (cmd.resource_id is Some) ==> route_outcome(cmd) == Ok::<(Seq<char>, &'static str), &'static str>(
                ("/v2/hepta/papers/"@ + uuid_text(cmd.resource_id->0) + "/author-consents"@, "create_authorship_consent_v2"),
            ),
            CommandName::FinalizeJointPaperSubmission => (cmd.resource_id is Some) ==> route_outcome(cmd) == Ok::<(Seq<char>, &'static str), &'static str>(
                ("/v2/hepta/papers/"@ + uuid_text(cmd.resource_id->0) + "/finalize"@, "finalize_joint_paper_submission_v2"),
            ),
            CommandName::StartPaperRework => (cmd.resource_id is Some) ==> route_outcome(cmd) == Ok::<(Seq<char>, &'static str), &'static str>(
                ("/v2/hepta/papers/"@ + uuid_text(cmd.resource_id->0) + "/reworks"@, "start_paper_rework_v1"),
            ),
            CommandName::IssueResearchSessionAuthorizationSet => (true) ==> route_outcome(cmd) == Ok::<(Seq<char>, &'static str), &'static str>(
                ("/v2/hepta/research-session-authorizations"@, "issue_research_session_authorization_set_v1"),
            ),
            CommandName::ReplaceResearchSessionAuthorizationSet => (cmd.session_id is Some && is_logical_id((cmd.session_id->0)@)) ==> route_outcome(cmd) == Ok::<(Seq<char>, &'static str), &'static str>(
                ("/v2/hepta/research-session-authorizations/"@ + (cmd.session_id->0)@ + "/replace"@, "replace_research_session_authorization_set_v1"),
            ),
            CommandName::CreateNakamaResearchSessionControl => (cmd.resource_id is None && cmd.child_id is None && cmd.session_id is None) ==> route_outcome(cmd) == Ok::<(Seq<char>, &'static str), &'static str>(
                ("/v2/hepta/nakama/research-session-controls/create"@, "create_nakama_research_session_control_v2"),
            ),
            CommandName::ResumeNakamaResearchSessionControl => (cmd.resource_id is None && cmd.child_id is None && cmd.session_id is None) ==> route_outcome(cmd) == Ok::<(Seq<char>, &'static str), &'static str>(
                ("/v2/hepta/nakama/research-session-controls/resume"@, "resume_nakama_research_session_control_v2"),
            ),
            CommandName::ReplaceNakamaResearchSessionRosterControl => (cmd.resource_id is None && cmd.child_id is None && cmd.session_id is None) ==> route_outcome(cmd) == Ok::<(Seq<char>, &'static str), &'static str>(
                ("/v2/hepta/nakama/research-session-controls/replace-roster"@, "replace_nakama_research_session_roster_control_v2"),
            ),
            CommandName::CompleteNakamaResearchSessionControl => (cmd.resource_id is None && cmd.child_id is None && cmd.session_id is None) ==> route_outcome(cmd) == Ok::<(Seq<char>, &'static str), &'static str>(
                ("/v2/hepta/nakama/research-session-controls/complete"@, "complete_nakama_research_session_control_v2"),
            ),
            CommandName::QueueMatchmaking => (true) ==> route_outcome(cmd) == Ok::<(Seq<char>, &'static str), &'static str>(
                ("/v2/hepta/matchmaking/tickets"@, "create_matchmaking_ticket_v3"),
            ),
            CommandName::CancelMatchmakingTicket => (cmd.resource_id is Some) ==> route_outcome(cmd) == Ok::<(Seq<char>, &'static str), &'static str>(
                ("/v2/hepta/matchmaking/tickets/"@ + uuid_text(cmd.resource_id->0) + "/cancel"@, "cancel_matchmaking_ticket_v3"),
            ),
            CommandName::DecideTeamProposal => (cmd.resource_id is Some) ==> route_outcome(cmd) == Ok::<(Seq<char>, &'static str), &'static str>(
                ("/v2/hepta/team-proposals/"@ + uuid_text(cmd.resource_id->0) + "/decisions"@, "create_team_proposal_decision_v3"),
            ),
            CommandName::MaterializeTeamProposal => (cmd.resource_id is Some) ==> route_outcome(cmd) == Ok::<(Seq<char>, &'static str), &'static str>(
                ("/v2/hepta/team-proposals/"@ + uuid_text(cmd.resource_id->0) + "/materialize"@, "materialize_team_proposal_v1"),
            ),
            CommandName::CreateEvidenceCard => (cmd.resource_id is Some) ==> route_outcome(cmd) == Ok::<(Seq<char>, &'static str), &'static str>(
                ("/v2/hepta/papers/"@ + uuid_text(cmd.resource_id->0) + "/evidence-cards"@, "create_evidence_card_v3"),
            ),
            CommandName::CreateCitationRecord => (cmd.resource_id is Some) ==> route_outcome(cmd) == Ok::<(Seq<char>, &'static str), &'static str>(
                ("/v2/hepta/papers/"@ + uuid_text(cmd.resource_id->0) + "/citations"@, "create_citation_record_v3"),
            ),
            CommandName::CreateExperimentPlan => (cmd.resource_id is Some) ==> route_outcome(cmd) == Ok::<(Seq<char>, &'static str), &'static str>(
                ("/v2/hepta/papers/"@ + uuid_text(cmd.resource_id->0) + "/experiment-plans"@, "create_experiment_plan_v3"),
            ),
            CommandName::CreateRunRecord => (cmd.resource_id is Some) ==> route_outcome(cmd) == Ok::<(Seq<char>, &'static str), &'static str>(
                ("/v2/hepta/papers/"@ + uuid_text(cmd.resource_id->0) + "/run-records"@, "create_run_record_v3"),
            ),
            CommandName::CreateRoleResourceAction => (cmd.resource_id is Some) ==> route_outcome(cmd) == Ok::<(Seq<char>, &'static str), &'static str>(
                ("/v2/hepta/papers/"@ + uuid_text(cmd.resource_id->0) + "/role-resources/actions"@, "create_role_resource_action_v1"),
            ),
            CommandName::CreateFigureLineage => (cmd.resource_id is Some) ==> route_outcome(cmd) == Ok::<(Seq<char>, &'static str), &'static str>(
                ("/v2/hepta/papers/"@ + uuid_text(cmd.resource_id->0) + "/figure-lineage"@, "create_figure_lineage_v3"),
            ),
            CommandName::CreateClaimRecord => (cmd.resource_id is Some) ==> route_outcome(cmd) == Ok::<(Seq<char>, &'static str), &'static str>(
                ("/v2/hepta/papers/"@ + uuid_text(cmd.resource_id->0) + "/claims"@, "create_claim_record_v3"),
            ),
            CommandName::AcquireSectionLease => (cmd.resource_id is Some) ==> route_outcome(cmd) == Ok::<(Seq<char>, &'static str), &'static str>(
                ("/v2/hepta/papers/"@ + uuid_text(cmd.resource_id->0) + "/section-leases"@, "acquire_section_lease_v3"),
            ),
            CommandName::SubmitAgentProposal => (cmd.resource_id is Some) ==> route_outcome(cmd) == Ok::<(Seq<char>, &'static str), &'static str>(
                ("/v2/hepta/papers/"@ + uuid_text(cmd.resource_id->0) + "/agent-proposals"@, "create_agent_proposal_v3"),
            ),
            CommandName::RecordHumanDecision => (cmd.resource_id is Some) ==> route_outcome(cmd) == Ok::<(Seq<char>, &'static str), &'static str>(
                ("/v2/hepta/papers/"@ + uuid_text(cmd.resource_id->0) + "/human-decisions"@, "create_human_decision_v3"),
            ),
            CommandName::RegisterArtifact => (cmd.resource_id is Some) ==> route_outcome(cmd) == Ok::<(Seq<char>, &'static str), &'static str>(
                ("/v2/hepta/papers/"@ + uuid_text(cmd.resource_id->0) + "/artifact-manifests"@, "create_artifact_manifest_v3"),
            ),
            CommandName::CreateSectionRevision => (cmd.resource_id is Some) ==> route_outcome(cmd) == Ok::<(Seq<char>, &'static str), &'static str>(
                ("/v2/hepta/papers/"@ + uuid_text(cmd.resource_id->0) + "/section-revisions"@, "create_section_revision_v3"),
            ),
            CommandName::SubmitReview => (cmd.resource_id is Some && cmd.child_id is Some) ==> route_outcome(cmd) == Ok::<(Seq<char>, &'static str), &'static str>(
                ("/v2/hepta/papers/"@ + uuid_text(cmd.resource_id->0) + "/section-revisions/"@ + uuid_text(cmd.child_id->0) + "/reviews"@, "create_section_review_v3"),
            ),
            CommandName::MergeSection => (cmd.resource_id is Some) ==> route_outcome(cmd) == Ok::<(Seq<char>, &'static str), &'static str>(
                ("/v2/hepta/papers/"@ + uuid_text(cmd.resource_id->0) + "/section-merges"@, "create_section_merge_v3"),
            ),
            CommandName::CreateContributionLedger => (cmd.resource_id is Some) ==> route_outcome(cmd) == Ok::<(Seq<char>, &'static str), &'static str>(
                ("/v2/hepta/papers/"@ + uuid_text(cmd.resource_id->0) + "/contribution-ledgers"@, "create_contribution_ledger_v1"),
            ),
            CommandName::ClaimReviewAssignment => (cmd.resource_id is Some) ==> route_outcome(cmd) == Ok::<(Seq<char>, &'static str), &'static str>(
                ("/v2/hepta/papers/"@ + uuid_text(cmd.resource_id->0) + "/review-assignments"@, "claim_paper_review_assignment_v1"),
            ),
            CommandName::CreatePaperEvaluation => (cmd.resource_id is Some) ==> route_outcome(cmd) == Ok::<(Seq<char>, &'static str), &'static str>(
                ("/v2/hepta/papers/"@ + uuid_text(cmd.resource_id->0) + "/evaluations"@, "create_paper_evaluation_v1"),
            ),
            CommandName::CreatePaperEvaluationDraft => (cmd.resource_id is Some && cmd.child_id is None && cmd.session_id is None) ==> route_outcome(cmd) == Ok::<(Seq<char>, &'static str), &'static str>(
                ("/v2/hepta/papers/"@ + uuid_text(cmd.resource_id->0) + "/evaluation-drafts"@, "create_paper_evaluation_draft_v1"),
            ),
            CommandName::SubmitEvaluationDraftAttestation => (cmd.resource_id is Some && cmd.child_id is Some && cmd.session_id is None) ==> route_outcome(cmd) == Ok::<(Seq<char>, &'static str), &'static str>(
                ("/v2/hepta/papers/"@ + uuid_text(cmd.resource_id->0) + "/evaluation-drafts/"@ + uuid_text(cmd.child_id->0) + "/attestations"@, "submit_paper_evaluation_draft_attestation_v1"),
            ),
            CommandName::FinalizePaperEvaluationDraft => (cmd.resource_id is Some && cmd.child_id is Some && cmd.session_id is None) ==> route_outcome(cmd) == Ok::<(Seq<char>, &'static str), &'static str>(
                ("/v2/hepta/papers/"@ + uuid_text(cmd.resource_id->0) + "/evaluation-drafts/"@ + uuid_text(cmd.child_id->0) + "/finalize"@, "finalize_paper_evaluation_draft_v1"),
            ),
            CommandName::SubmitReproduction => (cmd.resource_id is Some && cmd.child_id is Some && cmd.session_id is None) ==> route_outcome(cmd) == Ok::<(Seq<char>, &'static str), &'static str>(
                ("/v2/hepta/papers/"@ + uuid_text(cmd.resource_id->0) + "/evaluations/"@ + uuid_text(cmd.child_id->0) + "/reproductions"@, "create_paper_reproduction_v1"),
            ),
            CommandName::SubmitAppeal => (cmd.resource_id is Some && cmd.child_id is Some) ==> route_outcome(cmd) == Ok::<(Seq<char>, &'static str), &'static str>(
                ("/v2/hepta/papers/"@ + uuid_text(cmd.resource_id->0) + "/evaluations/"@ + uuid_text(cmd.child_id->0) + "/appeals"@, "create_paper_appeal_v1"),
            ),
            CommandName::ResolveAppeal => (cmd.resource_id is Some && cmd.child_id is Some) ==> route_outcome(cmd) == Ok::<(Seq<char>, &'static str), &'static str>(
                ("/v2/hepta/papers/"@ + uuid_text(cmd.resource_id->0) + "/appeals/"@ + uuid_text(cmd.child_id->0) + "/resolve"@, "resolve_paper_appeal_v1"),
            ),
        },
{
}

} // verus!
