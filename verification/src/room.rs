//! Sealing a Paper Room as the Hepta read model returns it: the request
//! must be the exact room read of that Paper, and the body must have the
//! room envelope's exact shape (no member beyond its own, every list a
//! list, the event cursor a whole number) and be that Paper's room. Only a
//! sealed room is handed on.

use vstd::prelude::*;
use crate::error::AppError;
use crate::hepta::{str_field, Route};
use crate::json::{field_array, field_u64, keys_within, JsonValue};
use crate::text::{chars_eq_str, push_chars, push_str, str_eq, uuid_chars, uuid_text};

verus! {

/// The members a room envelope may have.
pub open spec fn room_keys() -> Seq<&'static str> {
    seq![
        "paper", "team", "author_raid_progress", "team_member_acceptances", "work_items",
        "paper_revisions", "authorship_consents", "joint_submission", "member_research_sessions",
        "artifact_manifests", "revision_artifact_bindings", "evidence_cards", "citations",
        "experiment_plans", "runs", "figures", "claims", "section_heads", "leases", "proposals",
        "decisions", "section_revisions", "section_reviews", "section_merges", "last_event_cursor",
    ]
}

/// The members of a room envelope that are lists.
pub open spec fn room_list_keys() -> Seq<&'static str> {
    seq![
        "team_member_acceptances", "work_items", "paper_revisions", "authorship_consents",
        "member_research_sessions", "artifact_manifests", "revision_artifact_bindings",
        "evidence_cards", "citations", "experiment_plans", "runs", "figures", "claims",
        "section_heads", "leases", "proposals", "decisions", "section_revisions",
        "section_reviews", "section_merges",
    ]
}

/// The body has the room envelope's shape: only its members; the Paper,
/// team and progress present; every list member a list; the joint
/// submission optional; the event cursor a whole number.
pub open spec fn room_shape_ok(body: JsonValue) -> bool {
    &&& keys_within(body, room_keys())
    &&& body.spec_get("paper"@) is Some
    &&& body.spec_get("team"@) is Some
    &&& body.spec_get("author_raid_progress"@) is Some
    &&& forall|k: int| 0 <= k < room_list_keys().len() ==> field_array(body, (#[trigger] room_list_keys()[k])@) is Some
    &&& field_u64(body, "last_event_cursor"@) is Some
}

/// The request is the room read of exactly this Paper.
pub open spec fn room_route_ok(route: Route, paper_id: u128) -> bool {
    &&& route.method@ == "GET"@
    &&& route.path@ == "/v2/hepta/papers/"@ + uuid_text(paper_id) + "/room"@
    &&& route.query is None
    &&& route.operation@ == "get_paper_room_v3"@
}

/// The room's Paper is this Paper.
pub open spec fn room_paper_is(body: JsonValue, paper_id: u128) -> bool {
    match body.spec_get("paper"@) {
        Some(paper) => str_field(paper, "paper_project_id"@) == Some(uuid_text(paper_id)),
        None => false,
    }
}

/// A Paper Room that sealed for its Paper.
#[derive(Debug)]
pub struct AuthenticatedPaperRoom {
    paper_id: u128,
    body: JsonValue,
}

impl AuthenticatedPaperRoom {
    pub closed spec fn spec_paper_id(&self) -> u128 {
        self.paper_id
    }

    pub closed spec fn spec_body(&self) -> JsonValue {
        self.body
    }

    pub fn paper_id(&self) -> (r: u128)
        ensures
            r == self.spec_paper_id(),
    {
        self.paper_id
    }

    pub fn value(&self) -> (r: &JsonValue)
        ensures
            *r == self.spec_body(),
    {
        &self.body
    }
}

fn room_route_check(route: &Route, paper_id: u128) -> (r: bool)
    ensures
        r == room_route_ok(*route, paper_id),
{
    let mut path: Vec<char> = Vec::new();
    push_str(&mut path, "/v2/hepta/papers/");
    push_chars(&mut path, &uuid_chars(paper_id));
    push_str(&mut path, "/room");
    str_eq(route.method, "GET") && chars_eq_str(&path, route.path.as_str()) && route.query.is_none()
        && str_eq(route.operation, "get_paper_room_v3")
}

/// Whether the body has the room envelope's shape.
pub fn room_shape_check(body: &JsonValue) -> (r: bool)
    ensures
        r == room_shape_ok(*body),
{
    let keys: [&'static str; 25] = [
        "paper", "team", "author_raid_progress", "team_member_acceptances", "work_items",
        "paper_revisions", "authorship_consents", "joint_submission", "member_research_sessions",
        "artifact_manifests", "revision_artifact_bindings", "evidence_cards", "citations",
        "experiment_plans", "runs", "figures", "claims", "section_heads", "leases", "proposals",
        "decisions", "section_revisions", "section_reviews", "section_merges", "last_event_cursor",
    ];
    assert(keys@ =~= room_keys());
    if !body.keys_within(&keys) {
        return false;
    }
    if body.get("paper").is_none() || body.get("team").is_none() || body.get("author_raid_progress").is_none() {
        return false;
    }
    let lists: [&'static str; 20] = [
        "team_member_acceptances", "work_items", "paper_revisions", "authorship_consents",
        "member_research_sessions", "artifact_manifests", "revision_artifact_bindings",
        "evidence_cards", "citations", "experiment_plans", "runs", "figures", "claims",
        "section_heads", "leases", "proposals", "decisions", "section_revisions",
        "section_reviews", "section_merges",
    ];
    assert(lists@ =~= room_list_keys());
    let mut k: usize = 0;
    while k < 20
        invariant
            lists@ == room_list_keys(),
            k <= 20,
            forall|j: int| 0 <= j < k ==> field_array(*body, (#[trigger] room_list_keys()[j])@) is Some,
        decreases 20 - k,
    {
        let is_list = match body.get(lists[k]) {
            Some(JsonValue::Array(_)) => true,
            _ => false,
        };
        if !is_list {
            return false;
        }
        k = k + 1;
    }
    match body.get("last_event_cursor") {
        Some(v) => v.as_u64().is_some(),
        None => false,
    }
}

/// Seals the room a request read for a Paper: a request other than the
/// Paper's room read is an internal error; a body of another shape or
/// another Paper's room is an upstream failure.
pub fn seal_paper_room(route: &Route, paper_id: u128, body: JsonValue) -> (r: Result<AuthenticatedPaperRoom, AppError>)
    ensures
        !room_route_ok(*route, paper_id) ==> r matches Err(AppError::Internal),
        room_route_ok(*route, paper_id) ==> {
            &&& r is Ok <==> room_shape_ok(body) && room_paper_is(body, paper_id)
            &&& r is Err ==> r matches Err(AppError::Upstream)
        },
        r matches Ok(s) ==> s.spec_paper_id() == paper_id && s.spec_body() == body,
{
    if !room_route_check(route, paper_id) {
        return Err(AppError::Internal);
    }
    if !room_shape_check(&body) {
        return Err(AppError::Upstream);
    }
    let same = match body.get("paper") {
        Some(paper) => match paper.get("paper_project_id") {
            Some(JsonValue::String(t)) => chars_eq_str(&uuid_chars(paper_id), t.as_str()),
            _ => false,
        },
        None => false,
    };
    if !same {
        return Err(AppError::Upstream);
    }
    Ok(AuthenticatedPaperRoom { paper_id, body })
}

} // verus!
