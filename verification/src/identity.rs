//! What an authenticated identity may do: the scopes and author roles it
//! holds, the commands whose payloads must name the identity itself, and
//! the review bundle and assignment a review action must bind.

use vstd::prelude::*;
use crate::error::AppError;
use crate::frames::{refused_as, Refusal};
use crate::hepta::{matchmaking_party_payload_is_safe, matchmaking_payload_safe, required_string, required_uuid, CommandName};
use crate::json::{field_array, field_text, JsonValue};
use crate::lineage::uuid_of;
use crate::text::{chars_eq_str, push_str, str_eq, string_from_chars, uuid_chars, uuid_text};

verus! {

/// A scope an identity may hold.
#[derive(Debug, Clone, Copy, PartialEq, Eq, Structural)]
pub enum AlphaIdentityScope {
    Author,
    Evaluator,
    Reviewer,
    Reproducer,
}

/// A role an author may take in matchmaking.
#[derive(Debug, Clone, Copy, PartialEq, Eq, Structural)]
pub enum AlphaAuthorRole {
    Captain,
    Evidence,
    Experiment,
}

/// The player an authenticated identity is (with its login subject, game
/// account and display name), and the scopes and author roles it holds; a
/// scope or role is held when it is listed.
#[derive(Debug)]
pub struct AlphaIdentity {
    pub player_id: u128,
    pub subject_id: String,
    pub nakama_user_id: u128,
    pub display_name: String,
    pub scopes: Vec<AlphaIdentityScope>,
    pub author_roles: Vec<AlphaAuthorRole>,
}

impl AlphaIdentity {
    pub open spec fn holds_scope(&self, scope: AlphaIdentityScope) -> bool {
        self.scopes@.contains(scope)
    }

    pub open spec fn holds_role(&self, role: AlphaAuthorRole) -> bool {
        self.author_roles@.contains(role)
    }

    pub fn has_scope(&self, scope: AlphaIdentityScope) -> (r: bool)
        ensures
            r == self.holds_scope(scope),
    {
        let mut k: usize = 0;
        while k < self.scopes.len()
            invariant
                k <= self.scopes@.len(),
                forall|j: int| 0 <= j < k ==> self.scopes@[j] != scope,
            decreases self.scopes.len() - k,
        {
            if self.scopes[k] == scope {
                return true;
            }
            k = k + 1;
        }
        false
    }

    pub fn supports_author_role(&self, role: AlphaAuthorRole) -> (r: bool)
        ensures
            r == self.holds_role(role),
    {
        let mut k: usize = 0;
        while k < self.author_roles.len()
            invariant
                k <= self.author_roles@.len(),
                forall|j: int| 0 <= j < k ==> self.author_roles@[j] != role,
            decreases self.author_roles.len() - k,
        {
            if self.author_roles[k] == role {
                return true;
            }
            k = k + 1;
        }
        false
    }
}

/// Practice is open to any identity with an author or review scope.
pub fn ensure_practice_identity(identity: &AlphaIdentity) -> (r: Result<(), AppError>)
    ensures
        r == (if identity.holds_scope(AlphaIdentityScope::Author) || identity.holds_scope(
            AlphaIdentityScope::Evaluator,
        ) || identity.holds_scope(AlphaIdentityScope::Reviewer) || identity.holds_scope(
            AlphaIdentityScope::Reproducer,
        ) {
            Ok::<(), AppError>(())
        } else {
            Err(AppError::Forbidden)
        }),
{
    if identity.has_scope(AlphaIdentityScope::Author) || identity.has_scope(AlphaIdentityScope::Evaluator)
        || identity.has_scope(AlphaIdentityScope::Reviewer) || identity.has_scope(
        AlphaIdentityScope::Reproducer,
    ) {
        Ok(())
    } else {
        Err(AppError::Forbidden)
    }
}

/// Quick Raids are open to authors only.
pub fn ensure_quick_raid_identity(identity: &AlphaIdentity) -> (r: Result<(), AppError>)
    ensures
        r == (if identity.holds_scope(AlphaIdentityScope::Author) {
            Ok::<(), AppError>(())
        } else {
            Err(AppError::Forbidden)
        }),
{
    if identity.has_scope(AlphaIdentityScope::Author) {
        Ok(())
    } else {
        Err(AppError::Forbidden)
    }
}

/// The commands of review work, which an author may not send.
pub open spec fn review_work(c: CommandName) -> bool {
    c == CommandName::ClaimReviewAssignment || c == CommandName::CreatePaperEvaluation || c
        == CommandName::CreatePaperEvaluationDraft || c == CommandName::SubmitEvaluationDraftAttestation
        || c == CommandName::FinalizePaperEvaluationDraft || c == CommandName::SubmitReproduction || c
        == CommandName::ResolveAppeal
}

/// The payload member that must name the sending player, per command.
pub open spec fn actor_field(c: CommandName) -> Option<Seq<char>> {
    if c == CommandName::CreatePaperEvaluationDraft {
        Some("evaluator_player_id"@)
    } else if c == CommandName::SubmitEvaluationDraftAttestation {
        Some("reviewer_player_id"@)
    } else if c == CommandName::SubmitReproduction {
        Some("reproducer_player_id"@)
    } else if c == CommandName::SubmitAppeal {
        Some("appellant_player_id"@)
    } else if c == CommandName::StartPaperRework {
        Some("author_player_id"@)
    } else if c == CommandName::ResolveAppeal {
        Some("resolver_player_id"@)
    } else {
        None
    }
}

/// The author role a matchmaking role names.
pub open spec fn role_of(v: JsonValue) -> Option<AlphaAuthorRole> {
    match v.spec_as_str() {
        Some(s) => if s == "captain"@ {
            Some(AlphaAuthorRole::Captain)
        } else if s == "evidence"@ {
            Some(AlphaAuthorRole::Evidence)
        } else if s == "experiment"@ {
            Some(AlphaAuthorRole::Experiment)
        } else {
            None
        },
        None => None,
    }
}

/// Every requested role is a role the identity supports, none twice.
pub open spec fn roles_authorized(identity: AlphaIdentity, roles: Seq<JsonValue>) -> bool {
    &&& forall|k: int|
        0 <= k < roles.len() ==> (#[trigger] role_of(roles[k])) is Some && identity.holds_role(
            role_of(roles[k])->0,
        )
    &&& forall|k: int, l: int| 0 <= k < l < roles.len() ==> role_of(#[trigger] roles[k]) != role_of(#[trigger] roles[l])
}

/// The scope a review slot needs.
pub open spec fn slot_scope(slot: Option<Seq<char>>) -> Option<AlphaIdentityScope> {
    match slot {
        Some(s) => if s == "evaluator"@ {
            Some(AlphaIdentityScope::Evaluator)
        } else if s == "reviewer_1"@ || s == "reviewer_2"@ {
            Some(AlphaIdentityScope::Reviewer)
        } else if s == "reproducer"@ {
            Some(AlphaIdentityScope::Reproducer)
        } else {
            None
        },
        None => None,
    }
}

/// The error of an invalid payload, with its message.
pub open spec fn is_invalid(r: Result<(), AppError>, message: Seq<char>) -> bool {
    r matches Err(AppError::Invalid(m)) && m@ == message
}

/// The outcome of requiring that `field` names the identity's player: the
/// member must hold a UUID, and that UUID must be the player's.
pub open spec fn actor_outcome(r: Result<(), AppError>, identity: AlphaIdentity, payload: JsonValue, field: Seq<char>) -> bool {
    match uuid_of(payload, field) {
        None => is_invalid(r, field + " must be a UUID"@),
        Some(p) => if p == identity.player_id {
            r == Ok::<(), AppError>(())
        } else {
            r == Err::<(), AppError>(AppError::Forbidden)
        },
    }
}

pub const MATCHMAKING_FIELDS: &'static str =
    "matchmaking accepts only an optional canonical party_code_hash; raw party codes and unknown fields are forbidden";
pub const ROLES_COUNT: &'static str = "roles must contain 1 to 3 authorized roles";
pub const CLAIM_PLAYER_INVALID: &'static str = "claim player_id must be a UUID";

/// Requires the payload member `field` to name the identity's player.
pub fn require_payload_player(identity: &AlphaIdentity, payload: &JsonValue, field: &str) -> (r: Result<(), AppError>)
    ensures
        actor_outcome(r, *identity, *payload, field@),
{
    let player_id = match required_uuid(payload, field) {
        Ok(p) => p,
        Err(_) => {
            let mut message: Vec<char> = Vec::new();
            push_str(&mut message, field);
            push_str(&mut message, " must be a UUID");
            return Err(AppError::Invalid(string_from_chars(&message)));
        },
    };
    if player_id != identity.player_id {
        return Err(AppError::Forbidden);
    }
    Ok(())
}

fn role_value(v: &JsonValue) -> (r: Option<AlphaAuthorRole>)
    ensures
        r == role_of(*v),
{
    match v {
        JsonValue::String(s) => if str_eq(s.as_str(), "captain") {
            Some(AlphaAuthorRole::Captain)
        } else if str_eq(s.as_str(), "evidence") {
            Some(AlphaAuthorRole::Evidence)
        } else if str_eq(s.as_str(), "experiment") {
            Some(AlphaAuthorRole::Experiment)
        } else {
            None
        },
        _ => None,
    }
}

fn roles_check(identity: &AlphaIdentity, roles: &Vec<JsonValue>) -> (r: bool)
    ensures
        r == roles_authorized(*identity, roles@),
{
    let mut accepted: Vec<AlphaAuthorRole> = Vec::new();
    let mut k: usize = 0;
    while k < roles.len()
        invariant
            k <= roles@.len(),
            accepted@.len() == k,
            forall|j: int| 0 <= j < k ==> Some(#[trigger] accepted@[j]) == role_of(roles@[j]),
            forall|j: int|
                0 <= j < k ==> (#[trigger] role_of(roles@[j])) is Some && identity.holds_role(
                    role_of(roles@[j])->0,
                ),
            forall|j: int, l: int| 0 <= j < l < k ==> role_of(#[trigger] roles@[j]) != role_of(#[trigger] roles@[l]),
        decreases roles.len() - k,
    {
        let role = match role_value(&roles[k]) {
            Some(role) => role,
            None => return false,
        };
        let mut j: usize = 0;
        while j < accepted.len()
            invariant
                j <= accepted@.len(),
                accepted@.len() == k,
                k < roles@.len(),
                forall|m: int| 0 <= m < k ==> Some(#[trigger] accepted@[m]) == role_of(roles@[m]),
                Some(role) == role_of(roles@[k as int]),
                forall|m: int| 0 <= m < j ==> accepted@[m] != role,
            decreases accepted.len() - j,
        {
            if accepted[j] == role {
                assert(Some(accepted@[j as int]) == role_of(roles@[j as int]));
                return false;
            }
            j = j + 1;
        }
        if !identity.supports_author_role(role) {
            return false;
        }
        accepted.push(role);
        proof {
            assert forall|m: int| 0 <= m < k implies role_of(roles@[m]) != role_of(roles@[k as int]) by {
                assert(Some(accepted@[m]) == role_of(roles@[m]));
            }
        }
        k = k + 1;
    }
    true
}

/// Checks a command's payload against the identity sending it: an author
/// may not do review work; matchmaking asks for 1..=3 distinct roles the
/// identity supports over a safe payload; a review claim names the sender
/// and a slot the sender's scopes cover; and each review, appeal or rework
/// command names the sender in its actor member.
pub fn validate_identity_command_payload(identity: &AlphaIdentity, command: CommandName, payload: &JsonValue) -> (r: Result<
    (),
    AppError,
>)
    ensures
        if review_work(command) && identity.holds_scope(AlphaIdentityScope::Author) {
            r == Err::<(), AppError>(AppError::Forbidden)
        } else if command == CommandName::QueueMatchmaking {
            if !matchmaking_payload_safe(*payload) {
                is_invalid(r, MATCHMAKING_FIELDS@)
            } else {
                match field_array(*payload, "roles"@) {
                    Some(roles) => if roles.len() == 0 || roles.len() > 3 {
                        is_invalid(r, ROLES_COUNT@)
                    } else if roles_authorized(*identity, roles) {
                        r == Ok::<(), AppError>(())
                    } else {
                        r == Err::<(), AppError>(AppError::Forbidden)
                    },
                    None => is_invalid(r, ROLES_COUNT@),
                }
            }
        } else if command == CommandName::ClaimReviewAssignment {
            match uuid_of(*payload, "player_id"@) {
                None => is_invalid(r, CLAIM_PLAYER_INVALID@),
                Some(p) => if p != identity.player_id {
                    r == Err::<(), AppError>(AppError::Forbidden)
                } else {
                    match slot_scope(field_text(*payload, "slot"@)) {
                        Some(scope) => if identity.holds_scope(scope) {
                            r == Ok::<(), AppError>(())
                        } else {
                            r == Err::<(), AppError>(AppError::Forbidden)
                        },
                        None => r == Err::<(), AppError>(AppError::Forbidden),
                    }
                },
            }
        } else {
            match actor_field(command) {
                Some(field) => actor_outcome(r, *identity, *payload, field),
                None => r == Ok::<(), AppError>(()),
            }
        },
{
    let review = match command {
        CommandName::ClaimReviewAssignment | CommandName::CreatePaperEvaluation
        | CommandName::CreatePaperEvaluationDraft | CommandName::SubmitEvaluationDraftAttestation
        | CommandName::FinalizePaperEvaluationDraft | CommandName::SubmitReproduction
        | CommandName::ResolveAppeal => true,
        _ => false,
    };
    if review && identity.has_scope(AlphaIdentityScope::Author) {
        return Err(AppError::Forbidden);
    }
    match command {
        CommandName::QueueMatchmaking => {
            if !matchmaking_party_payload_is_safe(payload) {
                return Err(AppError::Invalid(MATCHMAKING_FIELDS.to_owned()));
            }
            let roles = match payload.get("roles") {
                Some(JsonValue::Array(roles)) => roles,
                _ => return Err(AppError::Invalid(ROLES_COUNT.to_owned())),
            };
            if roles.len() == 0 || roles.len() > 3 {
                return Err(AppError::Invalid(ROLES_COUNT.to_owned()));
            }
            if roles_check(identity, roles) {
                Ok(())
            } else {
                Err(AppError::Forbidden)
            }
        },
        CommandName::ClaimReviewAssignment => {
            let player_id = match required_uuid(payload, "player_id") {
                Ok(p) => p,
                Err(_) => return Err(AppError::Invalid(CLAIM_PLAYER_INVALID.to_owned())),
            };
            if player_id != identity.player_id {
                return Err(AppError::Forbidden);
            }
            let scope = match payload.get("slot") {
                Some(JsonValue::String(s)) => if str_eq(s.as_str(), "evaluator") {
                    AlphaIdentityScope::Evaluator
                } else if str_eq(s.as_str(), "reviewer_1") || str_eq(s.as_str(), "reviewer_2") {
                    AlphaIdentityScope::Reviewer
                } else if str_eq(s.as_str(), "reproducer") {
                    AlphaIdentityScope::Reproducer
                } else {
                    return Err(AppError::Forbidden);
                },
                _ => return Err(AppError::Forbidden),
            };
            if identity.has_scope(scope) {
                Ok(())
            } else {
                Err(AppError::Forbidden)
            }
        },
        CommandName::CreatePaperEvaluationDraft => require_payload_player(identity, payload, "evaluator_player_id"),
        CommandName::SubmitEvaluationDraftAttestation => require_payload_player(identity, payload, "reviewer_player_id"),
        CommandName::SubmitReproduction => require_payload_player(identity, payload, "reproducer_player_id"),
        CommandName::SubmitAppeal => require_payload_player(identity, payload, "appellant_player_id"),
        CommandName::StartPaperRework => require_payload_player(identity, payload, "author_player_id"),
        CommandName::ResolveAppeal => require_payload_player(identity, payload, "resolver_player_id"),
        _ => Ok(()),
    }
}

pub const REVIEW_BUNDLE_NOT_CURRENT: &'static str =
    "review action must bind the current submission-ready PaperBundle";

/// The authors the bundle's release candidate lists.
pub open spec fn bundle_authors(bundle: JsonValue) -> Option<Seq<JsonValue>> {
    match bundle.spec_get("paper_bundle"@) {
        Some(pb) => match pb.spec_get("release_candidate"@) {
            Some(rc) => field_array(rc, "authors"@),
            None => None,
        },
        None => None,
    }
}

/// The player is one of the release candidate's authors.
pub open spec fn listed_author(bundle: JsonValue, player: u128) -> bool {
    match bundle_authors(bundle) {
        Some(authors) => exists|k: int|
            0 <= k < authors.len() && field_text(#[trigger] authors[k], "player_id"@) == Some(uuid_text(player)),
        None => false,
    }
}

fn listed_author_check(bundle: &JsonValue, player: u128) -> (r: bool)
    ensures
        r == listed_author(*bundle, player),
{
    let pb = match bundle.get("paper_bundle") {
        Some(pb) => pb,
        None => return false,
    };
    let rc = match pb.get("release_candidate") {
        Some(rc) => rc,
        None => return false,
    };
    let authors = match rc.get("authors") {
        Some(JsonValue::Array(authors)) => authors,
        _ => return false,
    };
    let player_text = uuid_chars(player);
    let mut k: usize = 0;
    while k < authors.len()
        invariant
            bundle_authors(*bundle) == Some(authors@),
            player_text@ == uuid_text(player),
            k <= authors@.len(),
            forall|j: int| 0 <= j < k ==> field_text(#[trigger] authors@[j], "player_id"@) != Some(uuid_text(player)),
        decreases authors.len() - k,
    {
        let same = match authors[k].get("player_id") {
            Some(JsonValue::String(t)) => chars_eq_str(&player_text, t.as_str()),
            _ => false,
        };
        if same {
            return true;
        }
        k = k + 1;
    }
    false
}

/// The outcome of `require_review_bundle_scope`: the bundle's submission,
/// release candidate and bundle digests, or why it is refused.
pub open spec fn bundle_scope_of(bundle: JsonValue, paper_id: u128, identity: AlphaIdentity) -> Result<
    (u128, Seq<char>, Seq<char>),
    Refusal,
> {
    match uuid_of(bundle, "paper_project_id"@) {
        None => Err(Refusal::Upstream),
        Some(p) => if p != paper_id || field_text(bundle, "status"@) != Some("submission_ready"@) {
            Err(Refusal::Conflict(REVIEW_BUNDLE_NOT_CURRENT@))
        } else if listed_author(bundle, identity.player_id) || identity.holds_scope(AlphaIdentityScope::Author) {
            Err(Refusal::Forbidden)
        } else {
            match (
                uuid_of(bundle, "submission_id"@),
                crate::lineage::nonempty_text_of(bundle, "release_candidate_hash"@),
                crate::lineage::nonempty_text_of(bundle, "paper_bundle_hash"@),
            ) {
                (Some(s), Some(rc), Some(pb)) => Ok((s, rc, pb)),
                _ => Err(Refusal::Upstream),
            }
        },
    }
}

/// A review action binds the Paper's current submission-ready bundle, and
/// its sender is neither one of the bundle's authors nor an author
/// identity; gives the bundle's submission, release candidate and bundle
/// digests. An unreadable bundle is an upstream failure.
pub fn require_review_bundle_scope(bundle: &JsonValue, paper_id: u128, identity: &AlphaIdentity) -> (r: Result<
    (u128, String, String),
    AppError,
>)
    ensures
        match uuid_of(*bundle, "paper_project_id"@) {
            None => r == Err::<(u128, String, String), AppError>(AppError::Upstream),
            Some(p) => if p != paper_id || field_text(*bundle, "status"@) != Some("submission_ready"@) {
                r matches Err(e) && crate::error::is_conflict(e, REVIEW_BUNDLE_NOT_CURRENT@)
            } else if listed_author(*bundle, identity.player_id) || identity.holds_scope(AlphaIdentityScope::Author) {
                r == Err::<(u128, String, String), AppError>(AppError::Forbidden)
            } else {
                match (
                    uuid_of(*bundle, "submission_id"@),
                    crate::lineage::nonempty_text_of(*bundle, "release_candidate_hash"@),
                    crate::lineage::nonempty_text_of(*bundle, "paper_bundle_hash"@),
                ) {
                    (Some(s), Some(rc), Some(pb)) => r matches Ok(t) && t.0 == s && t.1@ == rc && t.2@ == pb,
                    _ => r == Err::<(u128, String, String), AppError>(AppError::Upstream),
                }
            },
        },
        match bundle_scope_of(*bundle, paper_id, *identity) {
            Ok(t) => r matches Ok(v) && v.0 == t.0 && v.1@ == t.1 && v.2@ == t.2,
            Err(f) => refused_as(r, f),
        },
{
    let p = required_uuid(bundle, "paper_project_id")?;
    let ready = match bundle.get("status") {
        Some(JsonValue::String(t)) => str_eq(t.as_str(), "submission_ready"),
        _ => false,
    };
    if p != paper_id || !ready {
        return Err(crate::error::conflict(REVIEW_BUNDLE_NOT_CURRENT));
    }
    if listed_author_check(bundle, identity.player_id) || identity.has_scope(AlphaIdentityScope::Author) {
        return Err(AppError::Forbidden);
    }
    let submission_id = required_uuid(bundle, "submission_id")?;
    let release_candidate_hash = required_string(bundle, "release_candidate_hash")?;
    let paper_bundle_hash = required_string(bundle, "paper_bundle_hash")?;
    Ok((submission_id, release_candidate_hash, paper_bundle_hash))
}

/// The slot texts a review action allows.
pub open spec fn slots_view(slots: Seq<&str>) -> Seq<Seq<char>> {
    slots.map_values(|s: &str| s@)
}

/// The assignment is the sender's, for this submission and round, in one
/// of the allowed slots.
pub open spec fn assignment_for(a: JsonValue, player: u128, submission_id: u128, round: u64, slots: Seq<Seq<char>>) -> bool {
    &&& field_text(a, "player_id"@) == Some(uuid_text(player))
    &&& field_text(a, "submission_id"@) == Some(uuid_text(submission_id))
    &&& crate::json::field_u64(a, "review_round"@) == Some(round)
    &&& match field_text(a, "slot"@) {
        Some(s) => slots.contains(s),
        None => false,
    }
}

/// How many of the first `n` assignments are the sender's.
pub open spec fn count_for(items: Seq<JsonValue>, player: u128, submission_id: u128, round: u64, slots: Seq<Seq<char>>, n: int) -> nat
    decreases n,
{
    if n <= 0 {
        0
    } else {
        count_for(items, player, submission_id, round, slots, n - 1) + if assignment_for(
            items[n - 1],
            player,
            submission_id,
            round,
            slots,
        ) {
            1nat
        } else {
            0nat
        }
    }
}

/// The first of the first `n` assignments that is the sender's.
pub open spec fn first_for(items: Seq<JsonValue>, player: u128, submission_id: u128, round: u64, slots: Seq<Seq<char>>, n: int) -> Option<int>
    decreases n,
{
    if n <= 0 {
        None
    } else {
        match first_for(items, player, submission_id, round, slots, n - 1) {
            Some(k) => Some(k),
            None => if assignment_for(items[n - 1], player, submission_id, round, slots) {
                Some(n - 1)
            } else {
                None
            },
        }
    }
}

fn slot_allowed(slot: &str, slots: &[&str]) -> (r: bool)
    ensures
        r == slots_view(slots@).contains(slot@),
{
    let mut k: usize = 0;
    while k < slots.len()
        invariant
            k <= slots@.len(),
            forall|j: int| 0 <= j < k ==> slots@[j]@ != slot@,
        decreases slots.len() - k,
    {
        if str_eq(slots[k], slot) {
            assert(slots_view(slots@)[k as int] == slot@);
            return true;
        }
        k = k + 1;
    }
    proof {
        if slots_view(slots@).contains(slot@) {
            let j = choose|j: int| 0 <= j < slots_view(slots@).len() && slots_view(slots@)[j] == slot@;
            assert(slots@[j]@ == slot@);
        }
    }
    false
}

fn assignment_for_check(a: &JsonValue, player: &Vec<char>, submission: &Vec<char>, round: u64, slots: &[&str]) -> (r: bool)
    ensures
        forall|p: u128, s: u128|
            player@ == uuid_text(p) && submission@ == uuid_text(s) ==> r == assignment_for(
                *a,
                p,
                s,
                round,
                slots_view(slots@),
            ),
{
    let player_ok = match a.get("player_id") {
        Some(JsonValue::String(t)) => chars_eq_str(player, t.as_str()),
        _ => false,
    };
    let submission_ok = match a.get("submission_id") {
        Some(JsonValue::String(t)) => chars_eq_str(submission, t.as_str()),
        _ => false,
    };
    let round_ok = match a.get("review_round") {
        Some(v) => v.as_u64() == Some(round),
        None => false,
    };
    let slot_ok = match a.get("slot") {
        Some(JsonValue::String(t)) => slot_allowed(t.as_str(), slots),
        _ => false,
    };
    player_ok && submission_ok && round_ok && slot_ok
}

/// The outcome of `require_exact_review_assignment`.
pub open spec fn exact_assignment_of(
    bundle: JsonValue,
    player: u128,
    submission_id: u128,
    round: u64,
    slots: Seq<Seq<char>>,
) -> Result<JsonValue, Refusal> {
    match field_array(bundle, "my_assignments"@) {
        None => Err(Refusal::Upstream),
        Some(items) => if count_for(items, player, submission_id, round, slots, items.len() as int) == 1 {
            Ok(items[first_for(items, player, submission_id, round, slots, items.len() as int)->0])
        } else {
            Err(Refusal::Forbidden)
        },
    }
}

/// The one assignment of the sender for this submission and round in an
/// allowed slot, out of the bundle's assignments of the sender; none or
/// more than one is forbidden, and a bundle without its assignment list is
/// an upstream failure.
pub fn require_exact_review_assignment<'a>(
    bundle: &'a JsonValue,
    identity: &AlphaIdentity,
    submission_id: u128,
    review_round: u64,
    allowed_slots: &[&str],
) -> (r: Result<&'a JsonValue, AppError>)
    ensures
        match field_array(*bundle, "my_assignments"@) {
            None => r == Err::<&JsonValue, AppError>(AppError::Upstream),
            Some(items) => {
                let slots = slots_view(allowed_slots@);
                let n = items.len() as int;
                if count_for(items, identity.player_id, submission_id, review_round, slots, n) == 1 {
                    r == Ok::<&JsonValue, AppError>(
                        &items[first_for(items, identity.player_id, submission_id, review_round, slots, n)->0],
                    )
                } else {
                    r == Err::<&JsonValue, AppError>(AppError::Forbidden)
                }
            },
        },
        match exact_assignment_of(*bundle, identity.player_id, submission_id, review_round, slots_view(allowed_slots@)) {
            Ok(a) => r matches Ok(v) && *v == a,
            Err(f) => refused_as(r, f),
        },
{
    let items = match bundle.get("my_assignments") {
        Some(JsonValue::Array(items)) => items,
        _ => return Err(AppError::Upstream),
    };
    let player = uuid_chars(identity.player_id);
    let submission = uuid_chars(submission_id);
    let ghost slots = slots_view(allowed_slots@);
    let mut count: usize = 0;
    let mut found: usize = 0;
    let mut k: usize = 0;
    while k < items.len()
        invariant
            field_array(*bundle, "my_assignments"@) == Some(items@),
            player@ == uuid_text(identity.player_id),
            submission@ == uuid_text(submission_id),
            slots == slots_view(allowed_slots@),
            k <= items@.len(),
            count <= k,
            count == count_for(items@, identity.player_id, submission_id, review_round, slots, k as int),
            count > 0 ==> first_for(items@, identity.player_id, submission_id, review_round, slots, k as int)
                == Some(found as int),
            count == 0 ==> first_for(items@, identity.player_id, submission_id, review_round, slots, k as int) is None,
            count > 0 ==> found < k,
        decreases items.len() - k,
    {
        if assignment_for_check(&items[k], &player, &submission, review_round, allowed_slots) {
            if count == 0 {
                found = k;
            }
            count = count + 1;
        }
        k = k + 1;
    }
    if count != 1 {
        return Err(AppError::Forbidden);
    }
    Ok(&items[found])
}

} // verus!
