//! The checks a human signing frame makes on the Paper Room it binds
//! before anything is signed: a decision binds the current submitted
//! proposal; a section review binds the current proposed revision and is
//! not made by the lease holder; a merge binds the approved revision, the
//! holder's live lease and the authoritative head; a citation names a
//! well-formed DOI or URL and an evidence card of the room.

use vstd::prelude::*;
use crate::error::AppError;
use crate::hepta::{
    frame_uri_error, require_room_paper_id, required_string, required_u64, required_uuid, str_field,
    validate_frame_https_uri,
};
use crate::json::{field_text, JsonValue};
use crate::lineage::{array_of, find_room_record, first_with_id, nonempty_text_of, u64_of, uuid_of};
use crate::text::{push_str, str_eq, string_from_chars, uuid_text};

verus! {

/// Why a frame is refused.
pub enum Refusal {
    NotFound,
    Upstream,
    Forbidden,
    Conflict(Seq<char>),
    Invalid(Seq<char>),
}

/// The result is the refusal.
pub open spec fn refused_as<T>(r: Result<T, AppError>, f: Refusal) -> bool {
    match f {
        Refusal::NotFound => r matches Err(AppError::NotFound),
        Refusal::Upstream => r matches Err(AppError::Upstream),
        Refusal::Forbidden => r matches Err(AppError::Forbidden),
        Refusal::Conflict(c) => r matches Err(e) && crate::error::is_conflict(e, c),
        Refusal::Invalid(m) => r matches Err(AppError::Invalid(x)) && x@ == m,
    }
}

/// The room is this Paper's room.
pub open spec fn room_of_paper(room: JsonValue, paper_id: u128) -> bool {
    match room.spec_get("paper"@) {
        Some(paper) => str_field(paper, "paper_project_id"@) == Some(uuid_text(paper_id)),
        None => false,
    }
}

/// The first record of the room's `collection` whose `field` is `id`.
pub open spec fn room_record(room: JsonValue, collection: Seq<char>, field: Seq<char>, id: u128) -> Option<JsonValue> {
    match array_of(room, collection) {
        Some(items) => match first_with_id(items, field, id, items.len() as int) {
            Some(k) => Some(items[k]),
            None => None,
        },
        None => None,
    }
}

pub const DECISION_STALE: &'static str = "human decision must bind the current submitted proposal";

/// A human decision binds the room's proposal at the expected version,
/// still submitted.
pub open spec fn decision_verdict(room: JsonValue, paper_id: u128, proposal_id: u128, expected_version: u64) -> Option<Refusal> {
    if !room_of_paper(room, paper_id) {
        Some(Refusal::Upstream)
    } else {
        match room_record(room, "proposals"@, "proposal_id"@, proposal_id) {
            None => Some(Refusal::NotFound),
            Some(proposal) => match u64_of(proposal, "version"@) {
                None => Some(Refusal::Upstream),
                Some(v) => if v != expected_version || field_text(proposal, "status"@) != Some(
                    "submitted"@,
                ) {
                    Some(Refusal::Conflict(DECISION_STALE@))
                } else {
                    None
                },
            },
        }
    }
}

fn text_is(v: &JsonValue, key: &str, want: &str) -> (r: bool)
    ensures
        r == (field_text(*v, key@) == Some(want@)),
{
    match v.get(key) {
        Some(JsonValue::String(t)) => str_eq(t.as_str(), want),
        _ => false,
    }
}

/// Checks a human decision frame against the Paper Room.
pub fn decision_binding(room: &JsonValue, paper_id: u128, proposal_id: u128, expected_version: u64) -> (r: Result<
    (),
    AppError,
>)
    ensures
        match decision_verdict(*room, paper_id, proposal_id, expected_version) {
            None => r is Ok,
            Some(f) => refused_as(r, f),
        },
{
    require_room_paper_id(room, paper_id)?;
    let proposal = find_room_record(room, "proposals", "proposal_id", proposal_id)?;
    let version = required_u64(proposal, "version")?;
    if version != expected_version || !text_is(proposal, "status", "submitted") {
        return Err(crate::error::conflict(DECISION_STALE));
    }
    Ok(())
}

pub const SECTION_REVIEW_STALE: &'static str = "section review must bind the current proposed revision";

/// A section review binds the room's revision at the expected version,
/// still proposed, and its reviewing player does not hold the revision's
/// lease.
pub open spec fn section_review_verdict(
    room: JsonValue,
    paper_id: u128,
    section_revision_id: u128,
    expected_version: u64,
    player_id: u128,
) -> Option<Refusal> {
    if !room_of_paper(room, paper_id) {
        Some(Refusal::Upstream)
    } else {
        match room_record(room, "section_revisions"@, "section_revision_id"@, section_revision_id) {
            None => Some(Refusal::NotFound),
            Some(revision) => match u64_of(revision, "version"@) {
                None => Some(Refusal::Upstream),
                Some(v) => if v != expected_version || field_text(revision, "status"@) != Some(
                    "proposed"@,
                ) {
                    Some(Refusal::Conflict(SECTION_REVIEW_STALE@))
                } else {
                    match uuid_of(revision, "lease_id"@) {
                        None => Some(Refusal::Upstream),
                        Some(lease_id) => match room_record(room, "leases"@, "lease_id"@, lease_id) {
                            None => Some(Refusal::NotFound),
                            Some(lease) => match uuid_of(lease, "holder_player_id"@) {
                                None => Some(Refusal::Upstream),
                                Some(holder) => if holder == player_id {
                                    Some(Refusal::Forbidden)
                                } else {
                                    None
                                },
                            },
                        },
                    }
                },
            },
        }
    }
}

/// Checks a section review frame against the Paper Room.
pub fn section_review_binding(
    room: &JsonValue,
    paper_id: u128,
    section_revision_id: u128,
    expected_version: u64,
    player_id: u128,
) -> (r: Result<(), AppError>)
    ensures
        match section_review_verdict(*room, paper_id, section_revision_id, expected_version, player_id) {
            None => r is Ok,
            Some(f) => refused_as(r, f),
        },
{
    require_room_paper_id(room, paper_id)?;
    let revision = find_room_record(room, "section_revisions", "section_revision_id", section_revision_id)?;
    let version = required_u64(revision, "version")?;
    if version != expected_version || !text_is(revision, "status", "proposed") {
        return Err(crate::error::conflict(SECTION_REVIEW_STALE));
    }
    let lease_id = required_uuid(revision, "lease_id")?;
    let lease = find_room_record(room, "leases", "lease_id", lease_id)?;
    if required_uuid(lease, "holder_player_id")? == player_id {
        return Err(AppError::Forbidden);
    }
    Ok(())
}

/// What a merge frame asks for.
#[derive(Debug, Clone, Copy)]
pub struct MergeRequest {
    pub section_revision_id: u128,
    pub merged_section_revision_id: u128,
    pub parent_revision_id: u128,
    pub lease_id: u128,
    pub fencing_token: u64,
    pub expected_revision_version: u64,
}

pub const MERGE_MUST_ADVANCE: &'static str = "merge must advance to the reviewed section revision";
pub const MERGE_REVISION_STALE: &'static str = "section merge must bind the current approved revision";
pub const MERGE_LEASE_STALE: &'static str = "section merge requires the holder's current unexpired lease";
pub const MERGE_HEAD_STALE: &'static str = "section merge does not match the authoritative head";

/// The revision is the approved one the merge names: the expected version,
/// approved, on the named parent and lease, with the named fencing token;
/// each read in turn, and the first that does not read is an upstream
/// failure.
pub open spec fn merge_revision_verdict(revision: JsonValue, m: MergeRequest) -> Option<Refusal> {
    match u64_of(revision, "version"@) {
        None => Some(Refusal::Upstream),
        Some(v) => if v != m.expected_revision_version || field_text(revision, "status"@) != Some(
            "approved"@,
        ) {
            Some(Refusal::Conflict(MERGE_REVISION_STALE@))
        } else {
            match uuid_of(revision, "parent_revision_id"@) {
                None => Some(Refusal::Upstream),
                Some(p) => if p != m.parent_revision_id {
                    Some(Refusal::Conflict(MERGE_REVISION_STALE@))
                } else {
                    match uuid_of(revision, "lease_id"@) {
                        None => Some(Refusal::Upstream),
                        Some(l) => if l != m.lease_id {
                            Some(Refusal::Conflict(MERGE_REVISION_STALE@))
                        } else {
                            match u64_of(revision, "fencing_token"@) {
                                None => Some(Refusal::Upstream),
                                Some(f) => if f != m.fencing_token {
                                    Some(Refusal::Conflict(MERGE_REVISION_STALE@))
                                } else {
                                    None
                                },
                            }
                        },
                    }
                },
            }
        },
    }
}

/// The lease is the merging player's live lease on the section: held by
/// the player, active, on the section, with the merge's fencing token, and
/// expiring after the signing time.
pub open spec fn merge_lease_verdict(lease: JsonValue, section_key: Seq<char>, m: MergeRequest, player_id: u128, expires_secs: i64, signed_at_unix: i64) -> Option<Refusal> {
    match uuid_of(lease, "holder_player_id"@) {
        None => Some(Refusal::Upstream),
        Some(holder) => if holder != player_id || field_text(lease, "status"@) != Some("active"@)
            || field_text(lease, "section_key"@) != Some(section_key) {
            Some(Refusal::Conflict(MERGE_LEASE_STALE@))
        } else {
            match u64_of(lease, "fencing_token"@) {
                None => Some(Refusal::Upstream),
                Some(f) => if f != m.fencing_token || expires_secs <= signed_at_unix {
                    Some(Refusal::Conflict(MERGE_LEASE_STALE@))
                } else {
                    None
                },
            }
        },
    }
}

/// The first section head of the room for the section.
pub open spec fn first_head(items: Seq<JsonValue>, section_key: Seq<char>, n: int) -> Option<int>
    decreases n,
{
    if n <= 0 {
        None
    } else {
        match first_head(items, section_key, n - 1) {
            Some(k) => Some(k),
            None => if field_text(items[n - 1], "section_key"@) == Some(section_key) {
                Some(n - 1)
            } else {
                None
            },
        }
    }
}

/// The head is the one the merge builds on: the named parent, with the
/// merge's fencing token.
pub open spec fn merge_head_verdict(room: JsonValue, section_key: Seq<char>, m: MergeRequest) -> Option<Refusal> {
    match array_of(room, "section_heads"@) {
        None => Some(Refusal::NotFound),
        Some(heads) => match first_head(heads, section_key, heads.len() as int) {
            None => Some(Refusal::NotFound),
            Some(k) => match uuid_of(heads[k], "current_head_revision_id"@) {
                None => Some(Refusal::Upstream),
                Some(h) => if h != m.parent_revision_id {
                    Some(Refusal::Conflict(MERGE_HEAD_STALE@))
                } else {
                    match u64_of(heads[k], "fencing_token"@) {
                        None => Some(Refusal::Upstream),
                        Some(f) => if f != m.fencing_token {
                            Some(Refusal::Conflict(MERGE_HEAD_STALE@))
                        } else {
                            None
                        },
                    }
                },
            },
        },
    }
}

/// The section a merge frame binds, or why it is refused: the merge must
/// advance to the reviewed revision, the room must be the Paper's, and the
/// revision, the holder's lease (whose expiry must read as RFC 3339) and
/// the section head must all be the current ones.
pub open spec fn merge_verdict(room: JsonValue, paper_id: u128, m: MergeRequest, player_id: u128, signed_at_unix: i64) -> Result<Seq<char>, Refusal> {
    if m.merged_section_revision_id != m.section_revision_id {
        Err(Refusal::Invalid(MERGE_MUST_ADVANCE@))
    } else if !room_of_paper(room, paper_id) {
        Err(Refusal::Upstream)
    } else {
        match room_record(room, "section_revisions"@, "section_revision_id"@, m.section_revision_id) {
            None => Err(Refusal::NotFound),
            Some(revision) => match nonempty_text_of(revision, "section_key"@) {
                None => Err(Refusal::Upstream),
                Some(key) => match merge_revision_verdict(revision, m) {
                    Some(f) => Err(f),
                    None => match room_record(room, "leases"@, "lease_id"@, m.lease_id) {
                        None => Err(Refusal::NotFound),
                        Some(lease) => match field_text(lease, "expires_at"@) {
                            None => Err(Refusal::Upstream),
                            Some(t) => match crate::review::rfc3339_parse_of(t) {
                                None => Err(Refusal::Upstream),
                                Some(expires) => match merge_lease_verdict(
                                    lease,
                                    key,
                                    m,
                                    player_id,
                                    expires.0,
                                    signed_at_unix,
                                ) {
                                    Some(f) => Err(f),
                                    None => match merge_head_verdict(room, key, m) {
                                        Some(f) => Err(f),
                                        None => Ok(key),
                                    },
                                },
                            },
                        },
                    },
                },
            },
        }
    }
}

fn merge_revision_check(revision: &JsonValue, m: &MergeRequest) -> (r: Result<(), AppError>)
    ensures
        match merge_revision_verdict(*revision, *m) {
            None => r is Ok,
            Some(f) => refused_as(r, f),
        },
{
    let version = required_u64(revision, "version")?;
    if version != m.expected_revision_version || !text_is(revision, "status", "approved") {
        return Err(crate::error::conflict(MERGE_REVISION_STALE));
    }
    if required_uuid(revision, "parent_revision_id")? != m.parent_revision_id {
        return Err(crate::error::conflict(MERGE_REVISION_STALE));
    }
    if required_uuid(revision, "lease_id")? != m.lease_id {
        return Err(crate::error::conflict(MERGE_REVISION_STALE));
    }
    if required_u64(revision, "fencing_token")? != m.fencing_token {
        return Err(crate::error::conflict(MERGE_REVISION_STALE));
    }
    Ok(())
}

fn text_eq(v: &JsonValue, key: &str, want: &str) -> (r: bool)
    ensures
        r == (field_text(*v, key@) == Some(want@)),
{
    text_is(v, key, want)
}

fn merge_lease_check(
    lease: &JsonValue,
    section_key: &str,
    m: &MergeRequest,
    player_id: u128,
    expires_secs: i64,
    signed_at_unix: i64,
) -> (r: Result<(), AppError>)
    ensures
        match merge_lease_verdict(*lease, section_key@, *m, player_id, expires_secs, signed_at_unix) {
            None => r is Ok,
            Some(f) => refused_as(r, f),
        },
{
    let holder = required_uuid(lease, "holder_player_id")?;
    if holder != player_id || !text_is(lease, "status", "active") || !text_eq(lease, "section_key", section_key) {
        return Err(crate::error::conflict(MERGE_LEASE_STALE));
    }
    if required_u64(lease, "fencing_token")? != m.fencing_token || expires_secs <= signed_at_unix {
        return Err(crate::error::conflict(MERGE_LEASE_STALE));
    }
    Ok(())
}

fn merge_head_check(room: &JsonValue, section_key: &str, m: &MergeRequest) -> (r: Result<(), AppError>)
    ensures
        match merge_head_verdict(*room, section_key@, *m) {
            None => r is Ok,
            Some(f) => refused_as(r, f),
        },
{
    let heads = match room.get("section_heads") {
        Some(JsonValue::Array(items)) => items,
        _ => return Err(AppError::NotFound),
    };
    let mut k: usize = 0;
    while k < heads.len()
        invariant
            array_of(*room, "section_heads"@) == Some(heads@),
            k <= heads@.len(),
            first_head(heads@, section_key@, k as int) is None,
        decreases heads.len() - k,
    {
        if text_is(&heads[k], "section_key", section_key) {
            proof {
                assert(first_head(heads@, section_key@, k + 1) == Some(k as int));
                lemma_first_head_sticks(heads@, section_key@, k + 1, heads@.len() as int);
            }
            let head = &heads[k];
            if required_uuid(head, "current_head_revision_id")? != m.parent_revision_id {
                return Err(crate::error::conflict(MERGE_HEAD_STALE));
            }
            if required_u64(head, "fencing_token")? != m.fencing_token {
                return Err(crate::error::conflict(MERGE_HEAD_STALE));
            }
            return Ok(());
        }
        k = k + 1;
    }
    Err(AppError::NotFound)
}

proof fn lemma_first_head_sticks(items: Seq<JsonValue>, key: Seq<char>, n: int, m: int)
    requires
        0 <= n <= m,
        first_head(items, key, n) is Some,
    ensures
        first_head(items, key, m) == first_head(items, key, n),
    decreases m - n,
{
    if m > n {
        lemma_first_head_sticks(items, key, n, m - 1);
    }
}

/// Checks a section merge frame against the Paper Room at the signing
/// time, and gives the section it merges.
pub fn section_merge_binding(room: &JsonValue, paper_id: u128, m: &MergeRequest, player_id: u128, signed_at_unix: i64) -> (r: Result<
    String,
    AppError,
>)
    ensures
        match merge_verdict(*room, paper_id, *m, player_id, signed_at_unix) {
            Ok(key) => r matches Ok(s) && s@ == key,
            Err(f) => refused_as(r, f),
        },
{
    if m.merged_section_revision_id != m.section_revision_id {
        return Err(AppError::Invalid(MERGE_MUST_ADVANCE.to_owned()));
    }
    require_room_paper_id(room, paper_id)?;
    let revision = find_room_record(room, "section_revisions", "section_revision_id", m.section_revision_id)?;
    let section_key = required_string(revision, "section_key")?;
    merge_revision_check(revision, m)?;
    let lease = find_room_record(room, "leases", "lease_id", m.lease_id)?;
    let expires = match lease.get("expires_at") {
        Some(JsonValue::String(t)) => match crate::review::parse_rfc3339(t.as_str()) {
            Some(e) => e,
            None => return Err(AppError::Upstream),
        },
        _ => return Err(AppError::Upstream),
    };
    merge_lease_check(lease, section_key.as_str(), m, player_id, expires.secs, signed_at_unix)?;
    merge_head_check(room, section_key.as_str(), m)?;
    Ok(section_key)
}

pub const CITATION_LOCATOR_REQUIRED: &'static str = "citation requires a DOI or canonical_url";
pub const CITATION_DOI_INVALID: &'static str = "citation DOI is invalid";

/// An ASCII white-space character.
pub open spec fn is_ascii_white(c: char) -> bool {
    c == ' ' || c == '\t' || c == '\n' || c == '\x0C' || c == '\r'
}

/// A DOI: `10.` first, a `/` somewhere, no ASCII white space.
pub open spec fn doi_ok(doi: Seq<char>) -> bool {
    &&& doi.len() >= 3 && doi.subrange(0, 3) == "10."@
    &&& doi.contains('/')
    &&& forall|i: int| 0 <= i < doi.len() ==> !is_ascii_white(#[trigger] doi[i])
}

/// The locator checks of a citation frame: a DOI or a URL, the DOI well
/// formed, the URL a bounded canonical HTTPS URL.
pub open spec fn citation_verdict(doi: Option<Seq<char>>, url: Option<Seq<char>>) -> Option<Refusal> {
    if doi is None && url is None {
        Some(Refusal::Invalid(CITATION_LOCATOR_REQUIRED@))
    } else if doi matches Some(d) && !doi_ok(d) {
        Some(Refusal::Invalid(CITATION_DOI_INVALID@))
    } else {
        match url {
            Some(u) => match frame_uri_error(u) {
                Some(m) => Some(Refusal::Invalid(m@)),
                None => None,
            },
            None => None,
        }
    }
}

fn doi_check(doi: &str) -> (r: bool)
    ensures
        r == doi_ok(doi@),
{
    let v = crate::text::chars_of(doi);
    if v.len() < 3 || !(v[0] == '1' && v[1] == '0' && v[2] == '.') {
        proof {
            reveal_strlit("10.");
            if v@.len() >= 3 {
                assert(v@.subrange(0, 3)[0] == v@[0]);
                assert(v@.subrange(0, 3)[1] == v@[1]);
                assert(v@.subrange(0, 3)[2] == v@[2]);
            }
        }
        return false;
    }
    proof {
        reveal_strlit("10.");
        assert(v@.subrange(0, 3) =~= "10."@);
    }
    let mut slash = false;
    let mut i: usize = 0;
    while i < v.len()
        invariant
            v@ == doi@,
            i <= v@.len(),
            slash == exists|j: int| 0 <= j < i && v@[j] == '/',
            forall|j: int| 0 <= j < i ==> !is_ascii_white(#[trigger] v@[j]),
        decreases v.len() - i,
    {
        let c = v[i];
        if c == ' ' || c == '\t' || c == '\n' || c == '\x0C' || c == '\r' {
            assert(is_ascii_white(v@[i as int]));
            return false;
        }
        if c == '/' {
            slash = true;
        }
        i = i + 1;
    }
    proof {
        if slash {
            let j = choose|j: int| 0 <= j < i && v@[j] == '/';
            assert(doi@.contains('/'));
        } else {
            assert(!doi@.contains('/'));
        }
    }
    slash
}

/// Checks the locators of a citation frame.
pub fn citation_locators(doi: Option<&str>, canonical_url: Option<&str>) -> (r: Result<(), AppError>)
    ensures
        match citation_verdict(
            match doi {
                Some(d) => Some(d@),
                None => None,
            },
            match canonical_url {
                Some(u) => Some(u@),
                None => None,
            },
        ) {
            None => r is Ok,
            Some(f) => refused_as(r, f),
        },
{
    if doi.is_none() && canonical_url.is_none() {
        return Err(AppError::Invalid(CITATION_LOCATOR_REQUIRED.to_owned()));
    }
    match doi {
        Some(d) => if !doi_check(d) {
            return Err(AppError::Invalid(CITATION_DOI_INVALID.to_owned()));
        },
        None => {},
    }
    match canonical_url {
        Some(u) => validate_frame_https_uri(u),
        None => Ok(()),
    }
}

/// The source identifier a citation is verified under: its DOI and URL,
/// `-` for the one it lacks.
pub open spec fn citation_source_identifier_of(doi: Option<Seq<char>>, url: Option<Seq<char>>) -> Seq<char> {
    "citation-doi\n"@ + match doi {
        Some(d) => d,
        None => "-"@,
    } + "\ncitation-url\n"@ + match url {
        Some(u) => u,
        None => "-"@,
    }
}

pub fn citation_source_identifier(doi: Option<&str>, canonical_url: Option<&str>) -> (r: String)
    ensures
        r@ == citation_source_identifier_of(
            match doi {
                Some(d) => Some(d@),
                None => None,
            },
            match canonical_url {
                Some(u) => Some(u@),
                None => None,
            },
        ),
{
    let mut out: Vec<char> = Vec::new();
    push_str(&mut out, "citation-doi\n");
    match doi {
        Some(d) => push_str(&mut out, d),
        None => push_str(&mut out, "-"),
    }
    push_str(&mut out, "\ncitation-url\n");
    match canonical_url {
        Some(u) => push_str(&mut out, u),
        None => push_str(&mut out, "-"),
    }
    string_from_chars(&out)
}

/// The source hash, locator and license of the room's evidence card a
/// citation cites.
pub open spec fn citation_evidence_verdict(room: JsonValue, paper_id: u128, evidence_card_id: u128) -> Result<
    (Seq<char>, Seq<char>, Seq<char>),
    Refusal,
> {
    if !room_of_paper(room, paper_id) {
        Err(Refusal::Upstream)
    } else {
        match room_record(room, "evidence_cards"@, "evidence_card_id"@, evidence_card_id) {
            None => Err(Refusal::NotFound),
            Some(card) => match (
                nonempty_text_of(card, "source_hash"@),
                nonempty_text_of(card, "locator"@),
                nonempty_text_of(card, "license"@),
            ) {
                (Some(h), Some(l), Some(x)) => Ok((h, l, x)),
                _ => Err(Refusal::Upstream),
            },
        }
    }
}

/// Reads the evidence card a citation cites out of the Paper Room.
pub fn citation_evidence(room: &JsonValue, paper_id: u128, evidence_card_id: u128) -> (r: Result<
    (String, String, String),
    AppError,
>)
    ensures
        match citation_evidence_verdict(*room, paper_id, evidence_card_id) {
            Ok(t) => r matches Ok(v) && v.0@ == t.0 && v.1@ == t.1 && v.2@ == t.2,
            Err(f) => refused_as(r, f),
        },
{
    require_room_paper_id(room, paper_id)?;
    let card = find_room_record(room, "evidence_cards", "evidence_card_id", evidence_card_id)?;
    let source_hash = required_string(card, "source_hash")?;
    let locator = required_string(card, "locator")?;
    let license = required_string(card, "license")?;
    Ok((source_hash, locator, license))
}

/// A member of a team's roster as the team read shows it.
#[derive(Debug)]
pub struct TeamMemberSigningSnapshot {
    pub participant_slot: u32,
    pub player_id: u128,
    pub binding_id: u128,
    pub agent_id: String,
    pub role: String,
}

/// A team's roster as the team read shows it.
#[derive(Debug)]
pub struct TeamSigningSnapshot {
    pub team_id: u128,
    pub challenge_id: u128,
    pub version: u64,
    pub roster_version: u64,
    pub collaboration_compact_hash: String,
    pub members: Vec<TeamMemberSigningSnapshot>,
}

/// What a team acceptance frame asks to accept.
#[derive(Debug)]
pub struct AcceptanceFramePayload {
    pub acceptance_id: u128,
    pub expected_team_version: u64,
    pub roster_version: u64,
    pub participant_slot: u32,
    pub binding_id: u128,
    pub role: String,
    pub collaboration_compact_hash: String,
}

pub const TEAM_ROSTER_MISMATCH: &'static str = "team acceptance payload does not match the current roster";

/// The first of the first `n` roster members who is the player.
pub open spec fn first_member(members: Seq<TeamMemberSigningSnapshot>, player: u128, n: int) -> Option<int>
    decreases n,
{
    if n <= 0 {
        None
    } else {
        match first_member(members, player, n - 1) {
            Some(k) => Some(k),
            None => if members[n - 1].player_id == player {
                Some(n - 1)
            } else {
                None
            },
        }
    }
}

/// The acceptance matches the team and the player's place on its roster.
pub open spec fn acceptance_matches(
    team: TeamSigningSnapshot,
    member: TeamMemberSigningSnapshot,
    team_id: u128,
    input: AcceptanceFramePayload,
) -> bool {
    &&& team.team_id == team_id
    &&& team.version == input.expected_team_version
    &&& team.roster_version == input.roster_version
    &&& member.participant_slot == input.participant_slot
    &&& member.binding_id == input.binding_id
    &&& member.role@ == input.role@
    &&& team.collaboration_compact_hash@ == input.collaboration_compact_hash@
}

proof fn lemma_first_member_sticks(members: Seq<TeamMemberSigningSnapshot>, player: u128, n: int, m: int)
    requires
        0 <= n <= m,
        first_member(members, player, n) is Some,
    ensures
        first_member(members, player, m) == first_member(members, player, n),
    decreases m - n,
{
    if m > n {
        lemma_first_member_sticks(members, player, n, m - 1);
    }
}

/// Checks a team acceptance frame against the team's current roster: the
/// player must be on it, and the frame must name the team, its version and
/// roster version, and the player's slot, binding, role and the team's
/// collaboration digest. Gives the player's place on the roster.
pub fn team_acceptance_binding(
    team: &TeamSigningSnapshot,
    team_id: u128,
    input: &AcceptanceFramePayload,
    player_id: u128,
) -> (r: Result<usize, AppError>)
    ensures
        match first_member(team.members@, player_id, team.members@.len() as int) {
            None => r == Err::<usize, AppError>(AppError::Forbidden),
            Some(k) => if acceptance_matches(*team, team.members@[k], team_id, *input) {
                r == Ok::<usize, AppError>(k as usize)
            } else {
                refused_as(r, Refusal::Conflict(TEAM_ROSTER_MISMATCH@))
            },
        },
{
    let mut k: usize = 0;
    while k < team.members.len()
        invariant
            k <= team.members@.len(),
            first_member(team.members@, player_id, k as int) is None,
        decreases team.members.len() - k,
    {
        if team.members[k].player_id == player_id {
            proof {
                assert(first_member(team.members@, player_id, k + 1) == Some(k as int));
                lemma_first_member_sticks(team.members@, player_id, k + 1, team.members@.len() as int);
            }
            let member = &team.members[k];
            if team.team_id != team_id || team.version != input.expected_team_version || team.roster_version
                != input.roster_version || member.participant_slot != input.participant_slot
                || member.binding_id != input.binding_id || !str_eq(member.role.as_str(), input.role.as_str())
                || !str_eq(team.collaboration_compact_hash.as_str(), input.collaboration_compact_hash.as_str()) {
                return Err(crate::error::conflict(TEAM_ROSTER_MISMATCH));
            }
            return Ok(k);
        }
        k = k + 1;
    }
    Err(AppError::Forbidden)
}

} // verus!
