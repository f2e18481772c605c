//! The checks a human signing frame makes on the review reads it binds
//! before anything is signed: a Paper rework binds the terminal rejected
//! submission, its current rejected evaluation and the next rework cycle;
//! a reproduction binds the frozen evaluation of the reproducer's own
//! assignment.

use vstd::prelude::*;
use crate::error::AppError;
use crate::frames::{refused_as, room_of_paper, Refusal};
use crate::hepta::{require_room_paper_id, required_string, required_u64, required_uuid};
use crate::identity::{
    bundle_scope_of, exact_assignment_of, require_exact_review_assignment,
    require_review_bundle_scope, slots_view, AlphaIdentity,
};
use crate::json::{field_text, JsonValue};
use crate::lineage::{
    latest_submission_evaluation, latest_submission_of, next_paper_rework_cycle, nonempty_text_of,
    rework_cycle_of, u64_of, uuid_of,
};
use crate::text::{is_digest_text, str_eq, valid_digest_label};

verus! {

pub const REWORK_INPUT_INVALID: &'static str =
    "Paper rework requires a fresh rework_id and canonical reason_hash";
pub const REWORK_NOT_TERMINAL: &'static str =
    "Paper rework requires the current terminal rejected submission and no active rework lease";
pub const REWORK_SUBMISSION_STALE: &'static str =
    "Paper rework must bind the exact current submission-ready PaperBundle";
pub const REWORK_EVALUATION_NOT_REJECTED: &'static str =
    "Paper rework requires the current immutable rejected evaluation";

/// The member is present and null.
pub open spec fn is_null_member(v: JsonValue, key: Seq<char>) -> bool {
    v.spec_get(key) matches Some(JsonValue::Null)
}

/// The Paper is terminal at a positive version in the submission-ready
/// phase and outcome, with no rework lease.
pub open spec fn paper_terminal_ready(paper: JsonValue, version: u64) -> bool {
    &&& version != 0
    &&& field_text(paper, "phase"@) == Some("submission_ready"@)
    &&& field_text(paper, "outcome"@) == Some("submission_ready"@)
    &&& paper.spec_get("terminal_at"@) is Some && !is_null_member(paper, "terminal_at"@)
    &&& is_null_member(paper, "active_rework_id"@)
    &&& is_null_member(paper, "active_rework_cycle"@)
    &&& is_null_member(paper, "rework_expires_at"@)
}

/// The Paper's version and its rejected submission as the room shows them,
/// or why the room refuses a rework.
pub open spec fn rework_room_of(room: JsonValue, paper_id: u128) -> Result<(u64, u128), Refusal> {
    if !room_of_paper(room, paper_id) {
        Err(Refusal::Upstream)
    } else {
        match room.spec_get("paper"@) {
            Some(paper) => if !(paper is Object) {
                Err(Refusal::Upstream)
            } else {
                match u64_of(paper, "version"@) {
                    None => Err(Refusal::Upstream),
                    Some(version) => if !paper_terminal_ready(paper, version) {
                        Err(Refusal::Conflict(REWORK_NOT_TERMINAL@))
                    } else {
                        match room.spec_get("joint_submission"@) {
                            Some(submission) => if !(submission is Object) {
                                Err(Refusal::NotFound)
                            } else {
                                match uuid_of(submission, "submission_id"@) {
                                    None => Err(Refusal::Upstream),
                                    Some(rejected) => match uuid_of(submission, "paper_project_id"@) {
                                        None => Err(Refusal::Upstream),
                                        Some(p) => if p != paper_id || field_text(submission, "status"@)
                                            != Some("submission_ready"@) {
                                            Err(Refusal::Conflict(REWORK_SUBMISSION_STALE@))
                                        } else {
                                            Ok((version, rejected))
                                        },
                                    },
                                }
                            },
                            None => Err(Refusal::NotFound),
                        }
                    },
                }
            },
            None => Err(Refusal::Upstream),
        }
    }
}

/// What a rework frame binds: the Paper version it expects, the rejected
/// submission and evaluation, and the rework cycle.
#[derive(Debug, Clone, Copy, PartialEq, Eq)]
pub struct ReworkBinding {
    pub expected_paper_version: u64,
    pub rejected_submission_id: u128,
    pub rejected_evaluation_id: u128,
    pub rework_cycle: u64,
}

/// The binding of a rework frame, or why it is refused: a fresh rework id
/// and a digest reason; then the room, the current evaluation of the
/// rejected submission, which must be rejected, and the rework history.
pub open spec fn rework_frame_of(
    rework_id: u128,
    reason_hash: Seq<char>,
    room: JsonValue,
    review: JsonValue,
    history: JsonValue,
    paper_id: u128,
) -> Result<ReworkBinding, Refusal> {
    if rework_id == 0 || !is_digest_text(reason_hash) {
        Err(Refusal::Invalid(REWORK_INPUT_INVALID@))
    } else {
        match rework_room_of(room, paper_id) {
            Err(f) => Err(f),
            Ok((version, submission)) => match latest_submission_of(review, paper_id, submission) {
                Err(f) => Err(f),
                Ok(evaluation) => if field_text(evaluation, "status"@) != Some("rejected"@) {
                    Err(Refusal::Conflict(REWORK_EVALUATION_NOT_REJECTED@))
                } else {
                    match uuid_of(evaluation, "evaluation_id"@) {
                        None => Err(Refusal::Upstream),
                        Some(rejected_evaluation) => match rework_cycle_of(history, paper_id) {
                            Err(f) => Err(f),
                            Ok(cycle) => Ok(
                                ReworkBinding {
                                    expected_paper_version: version,
                                    rejected_submission_id: submission,
                                    rejected_evaluation_id: rejected_evaluation,
                                    rework_cycle: cycle,
                                },
                            ),
                        },
                    }
                },
            },
        }
    }
}

fn text_is(v: &JsonValue, key: &str, want: &str) -> (r: bool)
    ensures
        r == (field_text(*v, key@) == Some(want@)),
{
    match v.get(key) {
        Some(JsonValue::String(t)) => str_eq(t.as_str(), want),
        _ => false,
    }
}

fn null_member(v: &JsonValue, key: &str) -> (r: bool)
    ensures
        r == is_null_member(*v, key@),
{
    match v.get(key) {
        Some(JsonValue::Null) => true,
        _ => false,
    }
}

fn rework_room(room: &JsonValue, paper_id: u128) -> (r: Result<(u64, u128), AppError>)
    ensures
        match rework_room_of(*room, paper_id) {
            Ok(t) => r == Ok::<(u64, u128), AppError>(t),
            Err(f) => refused_as(r, f),
        },
{
    require_room_paper_id(room, paper_id)?;
    let paper = match room.get("paper") {
        Some(p) => p,
        None => return Err(AppError::Upstream),
    };
    if !paper.is_object() {
        return Err(AppError::Upstream);
    }
    let version = required_u64(paper, "version")?;
    let terminal = match paper.get("terminal_at") {
        Some(JsonValue::Null) => false,
        Some(_) => true,
        None => false,
    };
    if version == 0 || !text_is(paper, "phase", "submission_ready") || !text_is(paper, "outcome", "submission_ready")
        || !terminal || !null_member(paper, "active_rework_id") || !null_member(paper, "active_rework_cycle")
        || !null_member(paper, "rework_expires_at") {
        return Err(crate::error::conflict(REWORK_NOT_TERMINAL));
    }
    let submission = match room.get("joint_submission") {
        Some(s) => s,
        None => return Err(AppError::NotFound),
    };
    if !submission.is_object() {
        return Err(AppError::NotFound);
    }
    let rejected = required_uuid(submission, "submission_id")?;
    if required_uuid(submission, "paper_project_id")? != paper_id || !text_is(submission, "status", "submission_ready") {
        return Err(crate::error::conflict(REWORK_SUBMISSION_STALE));
    }
    Ok((version, rejected))
}

/// Checks a Paper rework frame against the Paper Room, the review state and
/// the rework history, and gives what the rework binds.
pub fn paper_rework_frame(
    rework_id: u128,
    reason_hash: &str,
    room: &JsonValue,
    review: &JsonValue,
    history: &JsonValue,
    paper_id: u128,
) -> (r: Result<ReworkBinding, AppError>)
    ensures
        match rework_frame_of(rework_id, reason_hash@, *room, *review, *history, paper_id) {
            Ok(b) => r == Ok::<ReworkBinding, AppError>(b),
            Err(f) => refused_as(r, f),
        },
{
    if rework_id == 0 || !valid_digest_label(reason_hash) {
        return Err(AppError::Invalid(REWORK_INPUT_INVALID.to_owned()));
    }
    let (version, submission) = rework_room(room, paper_id)?;
    let evaluation = latest_submission_evaluation(review, paper_id, submission)?;
    if !text_is(evaluation, "status", "rejected") {
        return Err(crate::error::conflict(REWORK_EVALUATION_NOT_REJECTED));
    }
    let rejected_evaluation = required_uuid(evaluation, "evaluation_id")?;
    let cycle = next_paper_rework_cycle(history, paper_id)?;
    Ok(
        ReworkBinding {
            expected_paper_version: version,
            rejected_submission_id: submission,
            rejected_evaluation_id: rejected_evaluation,
            rework_cycle: cycle,
        },
    )
}

pub const REPRODUCTION_STALE: &'static str = "reproduction must bind the current finalized evaluation";

/// What a reproduction frame binds: the submission, the release candidate,
/// the bundle and the tolerance policy of the frozen evaluation.
#[derive(Debug)]
pub struct ReproductionBinding {
    pub submission_id: u128,
    pub release_candidate_hash: String,
    pub paper_bundle_hash: String,
    pub tolerance_policy_hash: String,
}

/// The bundle's frozen evaluation matches the evaluation the frame names
/// and the bundle's scope; each member read in turn, and the first that
/// does not read is an upstream failure.
pub open spec fn frozen_evaluation_verdict(
    e: JsonValue,
    evaluation_id: u128,
    paper_id: u128,
    submission_id: u128,
    rc: Seq<char>,
    pb: Seq<char>,
) -> Option<Refusal> {
    match uuid_of(e, "evaluation_id"@) {
        None => Some(Refusal::Upstream),
        Some(x) => if x != evaluation_id {
            Some(Refusal::Conflict(REPRODUCTION_STALE@))
        } else {
            match uuid_of(e, "paper_project_id"@) {
                None => Some(Refusal::Upstream),
                Some(p) => if p != paper_id {
                    Some(Refusal::Conflict(REPRODUCTION_STALE@))
                } else {
                    match uuid_of(e, "submission_id"@) {
                        None => Some(Refusal::Upstream),
                        Some(s) => if s != submission_id {
                            Some(Refusal::Conflict(REPRODUCTION_STALE@))
                        } else {
                            match nonempty_text_of(e, "release_candidate_hash"@) {
                                None => Some(Refusal::Upstream),
                                Some(h) => if h != rc {
                                    Some(Refusal::Conflict(REPRODUCTION_STALE@))
                                } else {
                                    match nonempty_text_of(e, "paper_bundle_hash"@) {
                                        None => Some(Refusal::Upstream),
                                        Some(b) => if b != pb {
                                            Some(Refusal::Conflict(REPRODUCTION_STALE@))
                                        } else {
                                            None
                                        },
                                    }
                                },
                            }
                        },
                    }
                },
            }
        },
    }
}

/// The binding of a reproduction frame, or why it is refused.
pub open spec fn reproduction_frame_of(bundle: JsonValue, paper_id: u128, evaluation_id: u128, identity: AlphaIdentity) -> Result<
    (u128, Seq<char>, Seq<char>, Seq<char>),
    Refusal,
> {
    match bundle_scope_of(bundle, paper_id, identity) {
        Err(f) => Err(f),
        Ok((submission, rc, pb)) => match bundle.spec_get("evaluation"@) {
            None => Err(Refusal::NotFound),
            Some(e) => if e == JsonValue::Null {
                Err(Refusal::NotFound)
            } else {
                match frozen_evaluation_verdict(e, evaluation_id, paper_id, submission, rc, pb) {
                    Some(f) => Err(f),
                    None => match u64_of(e, "version"@) {
                        None => Err(Refusal::Upstream),
                        Some(round) => match exact_assignment_of(
                            bundle,
                            identity.player_id,
                            submission,
                            round,
                            seq!["reproducer"@],
                        ) {
                            Err(f) => Err(f),
                            Ok(_) => match nonempty_text_of(e, "tolerance_policy_hash"@) {
                                None => Err(Refusal::Upstream),
                                Some(t) => Ok((submission, rc, pb, t)),
                            },
                        },
                    },
                }
            },
        },
    }
}

fn frozen_evaluation_check(
    e: &JsonValue,
    evaluation_id: u128,
    paper_id: u128,
    submission_id: u128,
    rc: &str,
    pb: &str,
) -> (r: Result<(), AppError>)
    ensures
        match frozen_evaluation_verdict(*e, evaluation_id, paper_id, submission_id, rc@, pb@) {
            None => r is Ok,
            Some(f) => refused_as(r, f),
        },
{
    if required_uuid(e, "evaluation_id")? != evaluation_id {
        return Err(crate::error::conflict(REPRODUCTION_STALE));
    }
    if required_uuid(e, "paper_project_id")? != paper_id {
        return Err(crate::error::conflict(REPRODUCTION_STALE));
    }
    if required_uuid(e, "submission_id")? != submission_id {
        return Err(crate::error::conflict(REPRODUCTION_STALE));
    }
    if !str_eq(required_string(e, "release_candidate_hash")?.as_str(), rc) {
        return Err(crate::error::conflict(REPRODUCTION_STALE));
    }
    if !str_eq(required_string(e, "paper_bundle_hash")?.as_str(), pb) {
        return Err(crate::error::conflict(REPRODUCTION_STALE));
    }
    Ok(())
}

/// Checks a reproduction frame against the review bundle of the Paper, and
/// gives what the reproduction binds.
pub fn reproduction_frame_binding(bundle: &JsonValue, paper_id: u128, evaluation_id: u128, identity: &AlphaIdentity) -> (r: Result<
    ReproductionBinding,
    AppError,
>)
    ensures
        match reproduction_frame_of(*bundle, paper_id, evaluation_id, *identity) {
            Ok(t) => r matches Ok(b) && b.submission_id == t.0 && b.release_candidate_hash@ == t.1
                && b.paper_bundle_hash@ == t.2 && b.tolerance_policy_hash@ == t.3,
            Err(f) => refused_as(r, f),
        },
{
    let (submission, rc, pb) = require_review_bundle_scope(bundle, paper_id, identity)?;
    let e = match bundle.get("evaluation") {
        Some(JsonValue::Null) => return Err(AppError::NotFound),
        Some(e) => e,
        None => return Err(AppError::NotFound),
    };
    frozen_evaluation_check(e, evaluation_id, paper_id, submission, rc.as_str(), pb.as_str())?;
    let round = required_u64(e, "version")?;
    let slots: [&str; 1] = ["reproducer"];
    proof {
        assert(slots_view(slots@) =~= seq!["reproducer"@]);
    }
    require_exact_review_assignment(bundle, identity, submission, round, &slots)?;
    let tolerance = required_string(e, "tolerance_policy_hash")?;
    Ok(
        ReproductionBinding {
            submission_id: submission,
            release_candidate_hash: rc,
            paper_bundle_hash: pb,
            tolerance_policy_hash: tolerance,
        },
    )
}

pub const APPEAL_SHAPE_INVALID: &'static str =
    "guided Appeal requires one evidence_manifest_id; the Advanced frame requires exact release and manifest hashes";
pub const APPEAL_NOT_PENDING: &'static str = "Appeal signing requires pending scientific finality";
pub const APPEAL_RELEASE_MISMATCH: &'static str = "Appeal payload does not match the evaluated release candidate";
pub const APPEAL_EXISTS: &'static str = "the current evaluation already has an immutable Appeal";

/// The review state's finality is still pending.
pub open spec fn finality_pending(review: JsonValue) -> bool {
    match review.spec_get("finality"@) {
        Some(f) => field_text(f, "status"@) == Some("pending_finality"@),
        None => false,
    }
}

/// What an Appeal frame asks for: the evaluation it names (none for the
/// guided form), and either the evidence manifest's id (guided) or the
/// exact release and manifest digests (advanced).
#[derive(Debug, Clone, Copy)]
pub struct AppealRequest<'a> {
    pub evaluation_id: Option<u128>,
    pub evidence_manifest_id: Option<u128>,
    pub release_candidate_hash: Option<&'a str>,
    pub evidence_manifest_hash: Option<&'a str>,
}

pub open spec fn opt_view(s: Option<&str>) -> Option<Seq<char>> {
    match s {
        Some(t) => Some(t@),
        None => None,
    }
}

/// The request has the shape of its form.
pub open spec fn appeal_shape_ok(a: AppealRequest) -> bool {
    let guided_payload = a.evidence_manifest_id is Some && a.release_candidate_hash is None
        && a.evidence_manifest_hash is None;
    let advanced_payload = a.evidence_manifest_id is None && a.release_candidate_hash is Some
        && a.evidence_manifest_hash is Some;
    if a.evaluation_id is None {
        guided_payload
    } else {
        advanced_payload
    }
}

/// What an Appeal frame binds: the evaluation, its release candidate and
/// the evidence manifest's digest; or why it is refused. The evaluation is
/// the one named, or the Paper's current one; finality must be pending;
/// the evaluation must have no Appeal yet.
pub open spec fn appeal_frame_of(room: JsonValue, review: JsonValue, paper_id: u128, a: AppealRequest) -> Result<
    (u128, Seq<char>, Seq<char>),
    Refusal,
> {
    if !appeal_shape_ok(a) {
        Err(Refusal::Invalid(APPEAL_SHAPE_INVALID@))
    } else if !room_of_paper(room, paper_id) {
        Err(Refusal::Upstream)
    } else if !finality_pending(review) {
        Err(Refusal::Conflict(APPEAL_NOT_PENDING@))
    } else {
        match (match a.evaluation_id {
            Some(e) => crate::lineage::evaluation_by_id_of(review, paper_id, e),
            None => crate::lineage::latest_paper_of(review, paper_id),
        }) {
            Err(f) => Err(f),
            Ok(evaluation) => match uuid_of(evaluation, "evaluation_id"@) {
                None => Err(Refusal::Upstream),
                Some(evaluation_id) => match nonempty_text_of(evaluation, "release_candidate_hash"@) {
                    None => Err(Refusal::Upstream),
                    Some(release) => if opt_view(a.release_candidate_hash) matches Some(s) && s != release {
                        Err(Refusal::Conflict(APPEAL_RELEASE_MISMATCH@))
                    } else {
                        match crate::lineage::array_of(review, "appeals"@) {
                            None => Err(Refusal::Upstream),
                            Some(appeals) => if crate::lineage::count_with_id(
                                appeals,
                                "evaluation_id"@,
                                evaluation_id,
                                appeals.len() as int,
                            ) != 0 {
                                Err(Refusal::Conflict(APPEAL_EXISTS@))
                            } else {
                                match crate::lineage::manifest_hash_of(
                                    room,
                                    paper_id,
                                    a.evidence_manifest_id,
                                    opt_view(a.evidence_manifest_hash),
                                ) {
                                    Err(f) => Err(f),
                                    Ok(h) => Ok((evaluation_id, release, h)),
                                }
                            },
                        }
                    },
                },
            },
        }
    }
}

fn finality_pending_check(review: &JsonValue) -> (r: bool)
    ensures
        r == finality_pending(*review),
{
    match review.get("finality") {
        Some(f) => text_is(f, "status", "pending_finality"),
        None => false,
    }
}

fn appeals_for(review: &JsonValue, evaluation_id: u128) -> (r: Result<usize, AppError>)
    ensures
        match crate::lineage::array_of(*review, "appeals"@) {
            None => r == Err::<usize, AppError>(AppError::Upstream),
            Some(appeals) => r matches Ok(c) && c == crate::lineage::count_with_id(
                appeals,
                "evaluation_id"@,
                evaluation_id,
                appeals.len() as int,
            ),
        },
{
    let appeals = match review.get("appeals") {
        Some(JsonValue::Array(items)) => items,
        _ => return Err(AppError::Upstream),
    };
    let wanted = crate::text::uuid_chars(evaluation_id);
    let mut count: usize = 0;
    let mut k: usize = 0;
    while k < appeals.len()
        invariant
            crate::lineage::array_of(*review, "appeals"@) == Some(appeals@),
            wanted@ == crate::text::uuid_text(evaluation_id),
            k <= appeals@.len(),
            count <= k,
            count == crate::lineage::count_with_id(appeals@, "evaluation_id"@, evaluation_id, k as int),
        decreases appeals.len() - k,
    {
        let same = match appeals[k].get("evaluation_id") {
            Some(JsonValue::String(t)) => crate::text::chars_eq_str(&wanted, t.as_str()),
            _ => false,
        };
        if same {
            count = count + 1;
        }
        k = k + 1;
    }
    Ok(count)
}

/// Checks an Appeal frame against the Paper Room and the review state, and
/// gives the evaluation it appeals, that evaluation's release candidate and
/// the evidence manifest's digest.
pub fn appeal_frame_binding(room: &JsonValue, review: &JsonValue, paper_id: u128, a: &AppealRequest) -> (r: Result<
    (u128, String, String),
    AppError,
>)
    ensures
        match appeal_frame_of(*room, *review, paper_id, *a) {
            Ok(t) => r matches Ok(v) && v.0 == t.0 && v.1@ == t.1 && v.2@ == t.2,
            Err(f) => refused_as(r, f),
        },
{
    let guided_payload = a.evidence_manifest_id.is_some() && a.release_candidate_hash.is_none()
        && a.evidence_manifest_hash.is_none();
    let advanced_payload = a.evidence_manifest_id.is_none() && a.release_candidate_hash.is_some()
        && a.evidence_manifest_hash.is_some();
    let guided = a.evaluation_id.is_none();
    if (guided && !guided_payload) || (!guided && !advanced_payload) {
        return Err(AppError::Invalid(APPEAL_SHAPE_INVALID.to_owned()));
    }
    require_room_paper_id(room, paper_id)?;
    if !finality_pending_check(review) {
        return Err(crate::error::conflict(APPEAL_NOT_PENDING));
    }
    let evaluation = match a.evaluation_id {
        Some(e) => crate::lineage::paper_evaluation_by_id(review, paper_id, e)?,
        None => crate::lineage::latest_paper_evaluation(review, paper_id)?,
    };
    let evaluation_id = required_uuid(evaluation, "evaluation_id")?;
    let release = required_string(evaluation, "release_candidate_hash")?;
    match a.release_candidate_hash {
        Some(s) => if !str_eq(s, release.as_str()) {
            return Err(crate::error::conflict(APPEAL_RELEASE_MISMATCH));
        },
        None => {},
    }
    if appeals_for(review, evaluation_id)? != 0 {
        return Err(crate::error::conflict(APPEAL_EXISTS));
    }
    let manifest = crate::lineage::exact_manifest_hash(
        room,
        paper_id,
        a.evidence_manifest_id,
        a.evidence_manifest_hash,
    )?;
    Ok((evaluation_id, release, manifest))
}

pub const RESOLUTION_CHILD_DERIVED: &'static str =
    "guided Appeal resolution derives child_id from the current review state";
pub const RESOLUTION_OUTCOME_INVALID: &'static str = "Appeal resolution outcome must be denied or upheld";
pub const RESOLVER_STALE: &'static str = "Appeal resolver assignment does not bind the current frozen evaluation";
pub const RESOLUTION_NOT_PENDING: &'static str = "Appeal resolution requires pending scientific finality";
pub const UPHELD_NEEDS_SUPERSEDING: &'static str = "upheld Appeal requires one exact eligible superseding evaluation";

/// What an Appeal resolution frame binds: the appealed evaluation, the
/// Appeal, the superseding evaluation an upheld Appeal names, and the
/// release candidate.
#[derive(Debug)]
pub struct ResolutionBinding {
    pub evaluation_id: u128,
    pub appeal_id: u128,
    pub superseding_evaluation_id: Option<u128>,
    pub release_candidate_hash: String,
}

/// The player sits on the evaluation's panel.
pub open spec fn on_panel_of(evaluation: JsonValue, player: u128) -> Option<bool> {
    match crate::lineage::panel_of(evaluation) {
        Some((e, a, b)) => Some(player == e || player == a || player == b),
        None => None,
    }
}

/// The resolver's assigned evaluation is the bundle's frozen one; read in
/// turn, the first member that does not read is an upstream failure.
pub open spec fn assigned_evaluation_verdict(e: JsonValue, paper_id: u128, submission: u128, rc: Seq<char>, pb: Seq<char>) -> Option<Refusal> {
    match uuid_of(e, "paper_project_id"@) {
        None => Some(Refusal::Upstream),
        Some(p) => if p != paper_id {
            Some(Refusal::Conflict(RESOLVER_STALE@))
        } else {
            match uuid_of(e, "submission_id"@) {
                None => Some(Refusal::Upstream),
                Some(s) => if s != submission {
                    Some(Refusal::Conflict(RESOLVER_STALE@))
                } else {
                    match nonempty_text_of(e, "release_candidate_hash"@) {
                        None => Some(Refusal::Upstream),
                        Some(h) => if h != rc {
                            Some(Refusal::Conflict(RESOLVER_STALE@))
                        } else {
                            match nonempty_text_of(e, "paper_bundle_hash"@) {
                                None => Some(Refusal::Upstream),
                                Some(b) => if b != pb {
                                    Some(Refusal::Conflict(RESOLVER_STALE@))
                                } else {
                                    None
                                },
                            }
                        },
                    }
                },
            }
        },
    }
}

/// The review state's evaluation is the assigned one and the resolver is
/// off its panel; else forbidden.
pub open spec fn appealed_evaluation_verdict(e: JsonValue, submission: u128, rc: Seq<char>, pb: Seq<char>, round: u64, player: u128) -> Option<Refusal> {
    match uuid_of(e, "submission_id"@) {
        None => Some(Refusal::Upstream),
        Some(s) => if s != submission {
            Some(Refusal::Forbidden)
        } else {
            match nonempty_text_of(e, "release_candidate_hash"@) {
                None => Some(Refusal::Upstream),
                Some(h) => if h != rc {
                    Some(Refusal::Forbidden)
                } else {
                    match nonempty_text_of(e, "paper_bundle_hash"@) {
                        None => Some(Refusal::Upstream),
                        Some(b) => if b != pb {
                            Some(Refusal::Forbidden)
                        } else {
                            match u64_of(e, "version"@) {
                                None => Some(Refusal::Upstream),
                                Some(v) => if v != round {
                                    Some(Refusal::Forbidden)
                                } else {
                                    match on_panel_of(e, player) {
                                        None => Some(Refusal::Upstream),
                                        Some(true) => Some(Refusal::Forbidden),
                                        Some(false) => None,
                                    }
                                },
                            }
                        },
                    }
                },
            }
        },
    }
}

/// The open Appeal is against the evaluation and its release, and not the
/// resolver's own; else forbidden.
pub open spec fn appeal_verdict(appeal: JsonValue, evaluation_id: u128, rc: Seq<char>, player: u128) -> Option<Refusal> {
    match uuid_of(appeal, "evaluation_id"@) {
        None => Some(Refusal::Upstream),
        Some(e) => if e != evaluation_id {
            Some(Refusal::Forbidden)
        } else {
            match nonempty_text_of(appeal, "release_candidate_hash"@) {
                None => Some(Refusal::Upstream),
                Some(h) => if h != rc {
                    Some(Refusal::Forbidden)
                } else {
                    match uuid_of(appeal, "appellant_player_id"@) {
                        None => Some(Refusal::Upstream),
                        Some(a) => if a == player {
                            Some(Refusal::Forbidden)
                        } else {
                            None
                        },
                    }
                },
            }
        },
    }
}

/// The evaluation an upheld Appeal names: the one superseding evaluation,
/// whose panel the resolver is off; a denied Appeal names none.
pub open spec fn superseding_choice(superseding: Option<JsonValue>, upheld: bool, player: u128) -> Result<Option<u128>, Refusal> {
    if !upheld {
        Ok(None)
    } else {
        match superseding {
            None => Err(Refusal::Conflict(UPHELD_NEEDS_SUPERSEDING@)),
            Some(rep) => match on_panel_of(rep, player) {
                None => Err(Refusal::Upstream),
                Some(true) => Err(Refusal::Forbidden),
                Some(false) => match uuid_of(rep, "evaluation_id"@) {
                    None => Err(Refusal::Upstream),
                    Some(id) => Ok(Some(id)),
                },
            },
        }
    }
}

/// The binding of an Appeal resolution frame, or why it is refused: no
/// child locator, a denied or upheld outcome, the resolver's bundle scope
/// and frozen evaluation, the resolver's own reproducer assignment, pending
/// finality, the appealed evaluation off the resolver's panel, the one open
/// Appeal not the resolver's own, and for an upheld Appeal its superseding
/// evaluation.
pub open spec fn resolution_frame_of(
    child_id: Option<u128>,
    outcome: Seq<char>,
    bundle: JsonValue,
    review: JsonValue,
    paper_id: u128,
    identity: AlphaIdentity,
) -> Result<(u128, u128, Option<u128>, Seq<char>), Refusal> {
    let player = identity.player_id;
    if child_id is Some {
        Err(Refusal::Invalid(RESOLUTION_CHILD_DERIVED@))
    } else if outcome != "denied"@ && outcome != "upheld"@ {
        Err(Refusal::Invalid(RESOLUTION_OUTCOME_INVALID@))
    } else {
        match bundle_scope_of(bundle, paper_id, identity) {
            Err(f) => Err(f),
            Ok((submission, rc, pb)) => match bundle.spec_get("evaluation"@) {
                None => Err(Refusal::NotFound),
                Some(assigned) => if assigned == JsonValue::Null {
                    Err(Refusal::NotFound)
                } else {
                    match uuid_of(assigned, "evaluation_id"@) {
                        None => Err(Refusal::Upstream),
                        Some(evaluation_id) => match u64_of(assigned, "version"@) {
                            None => Err(Refusal::Upstream),
                            Some(round) => match assigned_evaluation_verdict(assigned, paper_id, submission, rc, pb) {
                                Some(f) => Err(f),
                                None => match exact_assignment_of(bundle, player, submission, round, seq!["reproducer"@]) {
                                    Err(f) => Err(f),
                                    Ok(_) => if !finality_pending(review) {
                                        Err(Refusal::Conflict(RESOLUTION_NOT_PENDING@))
                                    } else {
                                        match crate::lineage::evaluation_by_id_of(review, paper_id, evaluation_id) {
                                            Err(f) => Err(f),
                                            Ok(evaluation) => match appealed_evaluation_verdict(evaluation, submission, rc, pb, round, player) {
                                                Some(f) => Err(f),
                                                None => match crate::lineage::open_appeal_of(review, paper_id, evaluation_id) {
                                                    Err(f) => Err(f),
                                                    Ok(appeal) => match appeal_verdict(appeal, evaluation_id, rc, player) {
                                                        Some(f) => Err(f),
                                                        None => match crate::lineage::superseding_of(review, evaluation) {
                                                            Err(f) => Err(f),
                                                            Ok(superseding) => match superseding_choice(superseding, outcome == "upheld"@, player) {
                                                                Err(f) => Err(f),
                                                                Ok(chosen) => match uuid_of(appeal, "appeal_id"@) {
                                                                    None => Err(Refusal::Upstream),
                                                                    Some(appeal_id) => Ok((evaluation_id, appeal_id, chosen, rc)),
                                                                },
                                                            },
                                                        },
                                                    },
                                                },
                                            },
                                        }
                                    },
                                },
                            },
                        },
                    }
                },
            },
        }
    }
}

fn assigned_evaluation_check(e: &JsonValue, paper_id: u128, submission: u128, rc: &str, pb: &str) -> (r: Result<(), AppError>)
    ensures
        match assigned_evaluation_verdict(*e, paper_id, submission, rc@, pb@) {
            None => r is Ok,
            Some(f) => refused_as(r, f),
        },
{
    if required_uuid(e, "paper_project_id")? != paper_id {
        return Err(crate::error::conflict(RESOLVER_STALE));
    }
    if required_uuid(e, "submission_id")? != submission {
        return Err(crate::error::conflict(RESOLVER_STALE));
    }
    if !str_eq(required_string(e, "release_candidate_hash")?.as_str(), rc) {
        return Err(crate::error::conflict(RESOLVER_STALE));
    }
    if !str_eq(required_string(e, "paper_bundle_hash")?.as_str(), pb) {
        return Err(crate::error::conflict(RESOLVER_STALE));
    }
    Ok(())
}

fn appealed_evaluation_check(e: &JsonValue, submission: u128, rc: &str, pb: &str, round: u64, player: u128) -> (r: Result<(), AppError>)
    ensures
        match appealed_evaluation_verdict(*e, submission, rc@, pb@, round, player) {
            None => r is Ok,
            Some(f) => refused_as(r, f),
        },
{
    if required_uuid(e, "submission_id")? != submission {
        return Err(AppError::Forbidden);
    }
    if !str_eq(required_string(e, "release_candidate_hash")?.as_str(), rc) {
        return Err(AppError::Forbidden);
    }
    if !str_eq(required_string(e, "paper_bundle_hash")?.as_str(), pb) {
        return Err(AppError::Forbidden);
    }
    if required_u64(e, "version")? != round {
        return Err(AppError::Forbidden);
    }
    if crate::lineage::evaluation_panel_contains(e, player)? {
        return Err(AppError::Forbidden);
    }
    Ok(())
}

fn appeal_check(appeal: &JsonValue, evaluation_id: u128, rc: &str, player: u128) -> (r: Result<(), AppError>)
    ensures
        match appeal_verdict(*appeal, evaluation_id, rc@, player) {
            None => r is Ok,
            Some(f) => refused_as(r, f),
        },
{
    if required_uuid(appeal, "evaluation_id")? != evaluation_id {
        return Err(AppError::Forbidden);
    }
    if !str_eq(required_string(appeal, "release_candidate_hash")?.as_str(), rc) {
        return Err(AppError::Forbidden);
    }
    if required_uuid(appeal, "appellant_player_id")? == player {
        return Err(AppError::Forbidden);
    }
    Ok(())
}

fn superseding_check(superseding: Option<&JsonValue>, upheld: bool, player: u128) -> (r: Result<Option<u128>, AppError>)
    ensures
        match superseding_choice(
            match superseding {
                Some(v) => Some(*v),
                None => None,
            },
            upheld,
            player,
        ) {
            Ok(c) => r == Ok::<Option<u128>, AppError>(c),
            Err(f) => refused_as(r, f),
        },
{
    if !upheld {
        return Ok(None);
    }
    let replacement = match superseding {
        Some(v) => v,
        None => return Err(crate::error::conflict(UPHELD_NEEDS_SUPERSEDING)),
    };
    if crate::lineage::evaluation_panel_contains(replacement, player)? {
        return Err(AppError::Forbidden);
    }
    Ok(Some(required_uuid(replacement, "evaluation_id")?))
}

/// Checks an Appeal resolution frame against the review bundle and the
/// review state, and gives what the resolution binds.
pub fn resolution_frame_binding(
    child_id: Option<u128>,
    outcome: &str,
    bundle: &JsonValue,
    review: &JsonValue,
    paper_id: u128,
    identity: &AlphaIdentity,
) -> (r: Result<ResolutionBinding, AppError>)
    ensures
        match resolution_frame_of(child_id, outcome@, *bundle, *review, paper_id, *identity) {
            Ok(t) => r matches Ok(b) && b.evaluation_id == t.0 && b.appeal_id == t.1
                && b.superseding_evaluation_id == t.2 && b.release_candidate_hash@ == t.3,
            Err(f) => refused_as(r, f),
        },
{
    if child_id.is_some() {
        return Err(AppError::Invalid(RESOLUTION_CHILD_DERIVED.to_owned()));
    }
    let upheld = str_eq(outcome, "upheld");
    if !str_eq(outcome, "denied") && !upheld {
        return Err(AppError::Invalid(RESOLUTION_OUTCOME_INVALID.to_owned()));
    }
    let (submission, rc, pb) = require_review_bundle_scope(bundle, paper_id, identity)?;
    let assigned = match bundle.get("evaluation") {
        Some(JsonValue::Null) => return Err(AppError::NotFound),
        Some(e) => e,
        None => return Err(AppError::NotFound),
    };
    let evaluation_id = required_uuid(assigned, "evaluation_id")?;
    let round = required_u64(assigned, "version")?;
    assigned_evaluation_check(assigned, paper_id, submission, rc.as_str(), pb.as_str())?;
    let slots: [&str; 1] = ["reproducer"];
    proof {
        assert(slots_view(slots@) =~= seq!["reproducer"@]);
    }
    require_exact_review_assignment(bundle, identity, submission, round, &slots)?;
    if !finality_pending_check(review) {
        return Err(crate::error::conflict(RESOLUTION_NOT_PENDING));
    }
    let evaluation = crate::lineage::paper_evaluation_by_id(review, paper_id, evaluation_id)?;
    appealed_evaluation_check(evaluation, submission, rc.as_str(), pb.as_str(), round, identity.player_id)?;
    let appeal = crate::lineage::exact_open_appeal(review, paper_id, evaluation_id)?;
    appeal_check(appeal, evaluation_id, rc.as_str(), identity.player_id)?;
    let superseding = crate::lineage::exact_superseding_evaluation(review, evaluation)?;
    let chosen = superseding_check(superseding, upheld, identity.player_id)?;
    let appeal_id = required_uuid(appeal, "appeal_id")?;
    Ok(
        ResolutionBinding {
            evaluation_id,
            appeal_id,
            superseding_evaluation_id: chosen,
            release_candidate_hash: rc,
        },
    )
}

pub const DRAFT_ROUND_TAKEN: &'static str =
    "the assigned review round already has an authoritative draft or evaluation";
pub const DRAFT_POLICY_NOT_FROZEN: &'static str =
    "evaluation requires a frozen v1 tolerance policy and reference metrics";

/// The member is present and not null.
pub open spec fn set_member(v: JsonValue, key: Seq<char>) -> bool {
    match v.spec_get(key) {
        Some(x) => x != JsonValue::Null,
        None => false,
    }
}

/// The first of the first `n` assignments that is the player's evaluator
/// slot.
pub open spec fn first_evaluator_slot(items: Seq<JsonValue>, player: u128, n: int) -> Option<int>
    decreases n,
{
    if n <= 0 {
        None
    } else {
        match first_evaluator_slot(items, player, n - 1) {
            Some(k) => Some(k),
            None => if field_text(items[n - 1], "slot"@) == Some("evaluator"@) && field_text(
                items[n - 1],
                "player_id"@,
            ) == Some(crate::text::uuid_text(player)) {
                Some(n - 1)
            } else {
                None
            },
        }
    }
}

/// What an evaluation draft frame binds, or why it is refused: the
/// evaluator's bundle scope, a review round without a quorum or evaluation
/// yet, the evaluator's own assignment (its round read from the first
/// evaluator slot of the player) and that assignment exactly.
pub open spec fn evaluation_draft_frame_of(bundle: JsonValue, paper_id: u128, identity: AlphaIdentity) -> Result<
    (u128, Seq<char>, Seq<char>, u64),
    Refusal,
> {
    match bundle_scope_of(bundle, paper_id, identity) {
        Err(f) => Err(f),
        Ok((submission, rc, pb)) => if set_member(bundle, "evaluation_quorum"@) || set_member(
            bundle,
            "evaluation"@,
        ) {
            Err(Refusal::Conflict(DRAFT_ROUND_TAKEN@))
        } else {
            match crate::lineage::array_of(bundle, "my_assignments"@) {
                None => Err(Refusal::Forbidden),
                Some(items) => match first_evaluator_slot(items, identity.player_id, items.len() as int) {
                    None => Err(Refusal::Forbidden),
                    Some(k) => match u64_of(items[k], "review_round"@) {
                        None => Err(Refusal::Upstream),
                        Some(round) => match exact_assignment_of(
                            bundle,
                            identity.player_id,
                            submission,
                            round,
                            seq!["evaluator"@],
                        ) {
                            Err(f) => Err(f),
                            Ok(_) => Ok((submission, rc, pb, round)),
                        },
                    },
                },
            }
        },
    }
}

fn set_member_check(v: &JsonValue, key: &str) -> (r: bool)
    ensures
        r == set_member(*v, key@),
{
    match v.get(key) {
        Some(JsonValue::Null) => false,
        Some(_) => true,
        None => false,
    }
}

proof fn lemma_first_evaluator_slot_sticks(items: Seq<JsonValue>, player: u128, n: int, m: int)
    requires
        0 <= n <= m,
        first_evaluator_slot(items, player, n) is Some,
    ensures
        first_evaluator_slot(items, player, m) == first_evaluator_slot(items, player, n),
    decreases m - n,
{
    if m > n {
        lemma_first_evaluator_slot_sticks(items, player, n, m - 1);
    }
}

fn evaluator_round(bundle: &JsonValue, player: u128) -> (r: Result<u64, AppError>)
    ensures
        match crate::lineage::array_of(*bundle, "my_assignments"@) {
            None => r == Err::<u64, AppError>(AppError::Forbidden),
            Some(items) => match first_evaluator_slot(items, player, items.len() as int) {
                None => r == Err::<u64, AppError>(AppError::Forbidden),
                Some(k) => match u64_of(items[k], "review_round"@) {
                    None => r == Err::<u64, AppError>(AppError::Upstream),
                    Some(round) => r == Ok::<u64, AppError>(round),
                },
            },
        },
{
    let items = match bundle.get("my_assignments") {
        Some(JsonValue::Array(items)) => items,
        _ => return Err(AppError::Forbidden),
    };
    let player_text = crate::text::uuid_chars(player);
    let mut k: usize = 0;
    while k < items.len()
        invariant
            crate::lineage::array_of(*bundle, "my_assignments"@) == Some(items@),
            player_text@ == crate::text::uuid_text(player),
            k <= items@.len(),
            first_evaluator_slot(items@, player, k as int) is None,
        decreases items.len() - k,
    {
        let mine = match items[k].get("player_id") {
            Some(JsonValue::String(t)) => crate::text::chars_eq_str(&player_text, t.as_str()),
            _ => false,
        };
        if text_is(&items[k], "slot", "evaluator") && mine {
            proof {
                assert(first_evaluator_slot(items@, player, k + 1) == Some(k as int));
                lemma_first_evaluator_slot_sticks(items@, player, k + 1, items@.len() as int);
            }
            return required_u64(&items[k], "review_round");
        }
        k = k + 1;
    }
    Err(AppError::Forbidden)
}

/// Checks an evaluation draft frame against the evaluator's review bundle,
/// and gives the submission, release candidate, bundle and review round it
/// binds.
pub fn evaluation_draft_frame_binding(bundle: &JsonValue, paper_id: u128, identity: &AlphaIdentity) -> (r: Result<
    (u128, String, String, u64),
    AppError,
>)
    ensures
        match evaluation_draft_frame_of(*bundle, paper_id, *identity) {
            Ok(t) => r matches Ok(v) && v.0 == t.0 && v.1@ == t.1 && v.2@ == t.2 && v.3 == t.3,
            Err(f) => refused_as(r, f),
        },
{
    let (submission, rc, pb) = require_review_bundle_scope(bundle, paper_id, identity)?;
    if set_member_check(bundle, "evaluation_quorum") || set_member_check(bundle, "evaluation") {
        return Err(crate::error::conflict(DRAFT_ROUND_TAKEN));
    }
    let round = evaluator_round(bundle, identity.player_id)?;
    let slots: [&str; 1] = ["evaluator"];
    proof {
        assert(slots_view(slots@) =~= seq!["evaluator"@]);
    }
    require_exact_review_assignment(bundle, identity, submission, round, &slots)?;
    Ok((submission, rc, pb, round))
}

/// The tolerance policy is frozen: the v1 schema at version 1 with rules,
/// over 1..=256 reference metrics.
pub open spec fn policy_frozen(reference_metric_count: nat, policy: JsonValue) -> bool {
    &&& 0 < reference_metric_count <= 256
    &&& field_text(policy, "schema"@) == Some("hepta.paper_raid.tolerance_policy.v1"@)
    &&& field_text(policy, "version"@) == Some("1"@)
    &&& match crate::lineage::array_of(policy, "rules"@) {
        Some(rules) => rules.len() > 0,
        None => false,
    }
}

/// Checks that an evaluation draft carries a frozen tolerance policy.
pub fn frozen_policy_check(reference_metric_count: usize, policy: &JsonValue) -> (r: Result<(), AppError>)
    ensures
        policy_frozen(reference_metric_count as nat, *policy) ==> r is Ok,
        !policy_frozen(reference_metric_count as nat, *policy) ==> refused_as(
            r,
            Refusal::Invalid(DRAFT_POLICY_NOT_FROZEN@),
        ),
{
    let rules_ok = match policy.get("rules") {
        Some(JsonValue::Array(rules)) => rules.len() > 0,
        _ => false,
    };
    if reference_metric_count == 0 || reference_metric_count > 256 || !text_is(
        policy,
        "schema",
        "hepta.paper_raid.tolerance_policy.v1",
    ) || !text_is(policy, "version", "1") || !rules_ok {
        return Err(AppError::Invalid(DRAFT_POLICY_NOT_FROZEN.to_owned()));
    }
    Ok(())
}

} // verus!
