//! The player's research-session authorizations as the Paper Room read model
//! lists them, and the validation of one page of a research-session archive
//! returned by the Nakama runtime: every field bounded, the roster and its
//! participants consistent, the events a contiguous, ordered, duplicate-free
//! run from the requested cursor.

use vstd::prelude::*;
use crate::digest::{uuid_parse, uuid_parse_of};
use crate::error::AppError;
use crate::hepta::{is_logical_id, validate_logical_id};
use crate::json::{
    field_array, field_bool, field_i64, field_opt_text, field_text, field_u64, keys_within,
    opt_text_view, JsonValue,
};
use base64::Engine;
use vstd::string::StringSliceAdditionalSpecFns;
use crate::practice::JSON_SAFE_U64_MAX;
use crate::text::{
    chars_eq_str, chars_of, is_digest_text, lemma_text_lt_irreflexive, lemma_text_lt_total,
    lemma_text_lt_transitive, str_eq, str_lt, text_lt, uuid_chars, uuid_text, valid_digest_label,
};

verus! {

pub const MAX_ARCHIVE_BYTES: usize = 2097152;
pub const NAKAMA_ARCHIVE_PAGE_LIMIT: u32 = 128;

/// One research-session authorization of the player.
#[derive(Debug, Clone, PartialEq, Eq)]
pub struct MemberSessionAccess {
    pub logical_session_id: String,
    pub authorization_id: u128,
    pub roster_version: u64,
    pub status: String,
    pub nakama_completion_received: bool,
}

/// A logical session id, refused as an upstream protocol failure.
pub fn validate_session_id(value: &str) -> (r: Result<(), AppError>)
    ensures
        is_logical_id(value@) ==> r is Ok,
        !is_logical_id(value@) ==> r == Err::<(), AppError>(AppError::Upstream),
{
    match validate_logical_id(value) {
        Ok(()) => Ok(()),
        Err(_) => Err(AppError::Upstream),
    }
}

/// A non-empty text of at most `max` characters without NUL.
pub open spec fn is_valid_text(s: Seq<char>, max: nat) -> bool {
    s.len() > 0 && s.len() <= max && !s.contains('\0')
}

pub fn valid_text(value: &str, max: usize) -> (r: bool)
    ensures
        r == is_valid_text(value@, max as nat),
{
    let v = chars_of(value);
    if v.len() == 0 || v.len() > max {
        return false;
    }
    let mut i: usize = 0;
    while i < v.len()
        invariant
            v@ == value@,
            i <= v@.len(),
            forall|j: int| 0 <= j < i ==> v@[j] != '\0',
        decreases v.len() - i,
    {
        if v[i] == '\0' {
            assert(value@.contains('\0')) by {
                assert(value@[i as int] == '\0');
            }
            return false;
        }
        i = i + 1;
    }
    true
}

/// A UUID in its canonical lower-case hyphenated text.
pub open spec fn is_canonical_uuid_text(s: Seq<char>) -> bool {
    match uuid_parse_of(s) {
        Some(u) => uuid_text(u) == s,
        None => false,
    }
}

pub fn valid_uuid(value: &str) -> (r: bool)
    ensures
        r == is_canonical_uuid_text(value@),
{
    match uuid_parse(value) {
        Some(u) => chars_eq_str(&uuid_chars(u), value),
        None => false,
    }
}

/// The statuses an authorization record may carry.
pub open spec fn is_member_status(s: Seq<char>) -> bool {
    s == "issued"@ || s == "consumed"@ || s == "completed"@ || s == "superseded"@ || s
        == "expired"@
}

fn member_status(s: &str) -> (r: bool)
    ensures
        r == is_member_status(s@),
{
    str_eq(s, "issued") || str_eq(s, "consumed") || str_eq(s, "completed") || str_eq(
        s,
        "superseded",
    ) || str_eq(s, "expired")
}

/// The UUID a string member holds, in any spelling the UUID parser takes.
pub open spec fn field_uuid(v: JsonValue, key: Seq<char>) -> Option<u128> {
    match field_text(v, key) {
        Some(t) => uuid_parse_of(t),
        None => None,
    }
}

/// `m` is what the record `v` holds.
pub open spec fn member_record_is(v: JsonValue, m: MemberSessionAccess) -> bool {
    &&& field_text(v, "logical_session_id"@) == Some(m.logical_session_id@)
    &&& field_uuid(v, "authorization_id"@) == Some(m.authorization_id)
    &&& field_u64(v, "roster_version"@) == Some(m.roster_version)
    &&& field_text(v, "status"@) == Some(m.status@)
    &&& field_bool(v, "nakama_completion_received"@) == Some(m.nakama_completion_received)
}

/// The record reads, and what it holds is acceptable.
pub open spec fn member_record_ok(v: JsonValue) -> bool {
    &&& field_text(v, "logical_session_id"@) matches Some(id) && is_logical_id(id)
    &&& field_uuid(v, "authorization_id"@) is Some
    &&& field_u64(v, "roster_version"@) matches Some(n) && 0 < n <= JSON_SAFE_U64_MAX
    &&& field_text(v, "status"@) matches Some(s) && is_member_status(s)
    &&& field_bool(v, "nakama_completion_received"@) is Some
}

/// The (session, roster version) key of a record.
pub open spec fn record_key(v: JsonValue) -> (Seq<char>, u64) {
    (field_text(v, "logical_session_id"@)->0, field_u64(v, "roster_version"@)->0)
}

pub open spec fn access_key(m: MemberSessionAccess) -> (Seq<char>, u64) {
    (m.logical_session_id@, m.roster_version)
}

/// Keys sort by session text, then roster version.
pub open spec fn key_lt(a: (Seq<char>, u64), b: (Seq<char>, u64)) -> bool {
    text_lt(a.0, b.0) || (a.0 == b.0 && a.1 < b.1)
}

/// The read model lists authorization records, every one acceptable, no two
/// for the same session and roster version.
pub open spec fn members_acceptable(model: JsonValue) -> bool {
    match crate::json::field_array(model, "member_research_sessions"@) {
        Some(items) => records_acceptable(items),
        None => false,
    }
}

/// Every record acceptable, no two for the same session and roster version.
pub open spec fn records_acceptable(items: Seq<JsonValue>) -> bool {
    &&& forall|i: int| 0 <= i < items.len() ==> member_record_ok(#[trigger] items[i])
    &&& forall|i: int, j: int|
        0 <= i < j < items.len() ==> record_key(#[trigger] items[i]) != record_key(
            #[trigger] items[j],
        )
}

/// `out` holds exactly what the records hold, sorted by key.
#[verifier::opaque]
pub open spec fn sorted_accesses_of(items: Seq<JsonValue>, out: Seq<MemberSessionAccess>) -> bool {
    &&& out.len() == items.len()
    &&& keys_ascending(out)
    &&& accesses_from(items, out)
    &&& records_in(items, out)
}

/// Keys strictly ascending.
pub open spec fn keys_ascending(out: Seq<MemberSessionAccess>) -> bool {
    forall|i: int, j: int|
        0 <= i < j < out.len() ==> key_lt(access_key(#[trigger] out[i]), access_key(#[trigger] out[j]))
}

/// Every entry is what some record holds.
pub open spec fn accesses_from(items: Seq<JsonValue>, out: Seq<MemberSessionAccess>) -> bool {
    forall|i: int|
        0 <= i < out.len() ==> exists|j: int|
            0 <= j < items.len() && member_record_is(items[j], #[trigger] out[i])
}

/// What every record holds is an entry.
pub open spec fn records_in(items: Seq<JsonValue>, out: Seq<MemberSessionAccess>) -> bool {
    forall|j: int|
        0 <= j < items.len() ==> exists|i: int|
            0 <= i < out.len() && member_record_is(#[trigger] items[j], out[i])
}

proof fn lemma_key_order(a: (Seq<char>, u64), b: (Seq<char>, u64), c: (Seq<char>, u64))
    ensures
        !key_lt(a, a),
        key_lt(a, b) && key_lt(b, c) ==> key_lt(a, c),
        a != b ==> key_lt(a, b) || key_lt(b, a),
{
    lemma_text_lt_irreflexive(a.0);
    if key_lt(a, b) && key_lt(b, c) {
        if text_lt(a.0, b.0) && text_lt(b.0, c.0) {
            lemma_text_lt_transitive(a.0, b.0, c.0);
        }
    }
    if a != b && a.0 != b.0 {
        lemma_text_lt_total(a.0, b.0);
    }
}

fn access_lt(a: &MemberSessionAccess, b: &MemberSessionAccess) -> (r: bool)
    ensures
        r == key_lt(access_key(*a), access_key(*b)),
{
    if str_lt(a.logical_session_id.as_str(), b.logical_session_id.as_str()) {
        true
    } else {
        str_eq(a.logical_session_id.as_str(), b.logical_session_id.as_str())
            && a.roster_version < b.roster_version
    }
}

fn access_key_eq(a: &MemberSessionAccess, b: &MemberSessionAccess) -> (r: bool)
    ensures
        r == (access_key(*a) == access_key(*b)),
{
    str_eq(a.logical_session_id.as_str(), b.logical_session_id.as_str())
        && a.roster_version == b.roster_version
}

/// Reads one authorization record; `None` when a field is missing or of the
/// wrong type, or the record is not acceptable.
fn read_member_record(v: &JsonValue) -> (r: Option<MemberSessionAccess>)
    ensures
        match r {
            Some(m) => member_record_ok(*v) && member_record_is(*v, m),
            None => !member_record_ok(*v),
        },
{
    let id = match v.text_of("logical_session_id") {
        Some(t) => t,
        None => return None,
    };
    let authorization = match v.text_of("authorization_id") {
        Some(t) => match uuid_parse(t.as_str()) {
            Some(u) => u,
            None => return None,
        },
        None => return None,
    };
    let version = match v.u64_of("roster_version") {
        Some(n) => n,
        None => return None,
    };
    let status = match v.text_of("status") {
        Some(t) => t,
        None => return None,
    };
    let completion = match v.bool_of("nakama_completion_received") {
        Some(b) => b,
        None => return None,
    };
    if validate_session_id(id.as_str()).is_err() || version == 0 || version > JSON_SAFE_U64_MAX
        || !member_status(status.as_str()) {
        return None;
    }
    Some(
        MemberSessionAccess {
            logical_session_id: id,
            authorization_id: authorization,
            roster_version: version,
            status,
            nakama_completion_received: completion,
        },
    )
}

proof fn lemma_insert_point(out: Seq<MemberSessionAccess>, m: MemberSessionAccess, pos: int)
    requires
        0 <= pos <= out.len(),
        keys_ascending(out),
        pos < out.len() ==> !key_lt(access_key(out[pos]), access_key(m)),
        pos < out.len() ==> access_key(out[pos]) != access_key(m),
    ensures
        forall|k: int| pos <= k < out.len() ==> key_lt(access_key(m), access_key(#[trigger] out[k])),
{
    assert forall|k: int| pos <= k < out.len() implies key_lt(access_key(m), access_key(#[trigger] out[k])) by {
        lemma_key_order(access_key(out[pos]), access_key(m), access_key(out[pos]));
        lemma_key_order(access_key(m), access_key(out[pos]), access_key(out[k]));
    }
}

proof fn lemma_new_key_distinct(
    items: Seq<JsonValue>,
    i: int,
    out: Seq<MemberSessionAccess>,
    m: MemberSessionAccess,
    pos: int,
)
    requires
        0 <= i < items.len(),
        0 <= pos <= out.len(),
        sorted_accesses_of(items.take(i), out),
        member_record_is(items[i], m),
        forall|k: int| 0 <= k < pos ==> key_lt(access_key(#[trigger] out[k]), access_key(m)),
        forall|k: int| pos <= k < out.len() ==> key_lt(access_key(m), access_key(#[trigger] out[k])),
    ensures
        forall|k: int| 0 <= k < i ==> record_key(#[trigger] items[k]) != record_key(items[i]),
{
    reveal(sorted_accesses_of);
    let prefix = items.take(i);
    assert forall|k: int| 0 <= k < i implies record_key(#[trigger] items[k]) != record_key(items[i]) by {
        assert(prefix[k] == items[k]);
        let q = choose|q: int| 0 <= q < out.len() && member_record_is(#[trigger] prefix[k], out[q]);
        lemma_key_order(access_key(m), access_key(m), access_key(m));
        if q < pos {
            assert(key_lt(access_key(out[q]), access_key(m)));
        } else {
            assert(key_lt(access_key(m), access_key(out[q])));
        }
    }
}

proof fn lemma_insert_order(
    before: Seq<MemberSessionAccess>,
    m: MemberSessionAccess,
    pos: int,
    after: Seq<MemberSessionAccess>,
)
    requires
        0 <= pos <= before.len(),
        after == before.insert(pos, m),
        keys_ascending(before),
        forall|k: int| 0 <= k < pos ==> key_lt(access_key(#[trigger] before[k]), access_key(m)),
        forall|k: int| pos <= k < before.len() ==> key_lt(access_key(m), access_key(#[trigger] before[k])),
    ensures
        keys_ascending(after),
{
    assert forall|a: int, b: int| 0 <= a < b < after.len() implies key_lt(
        access_key(#[trigger] after[a]),
        access_key(#[trigger] after[b]),
    ) by {
        if a < pos && b > pos {
            assert(after[a] == before[a]);
            assert(after[b] == before[b - 1]);
            lemma_key_order(access_key(after[a]), access_key(m), access_key(after[b]));
        } else if a < pos && b == pos {
            assert(after[a] == before[a]);
        } else if a == pos {
            assert(after[b] == before[b - 1]);
        } else if b < pos {
            assert(after[a] == before[a]);
            assert(after[b] == before[b]);
        } else {
            assert(after[a] == before[a - 1]);
            assert(after[b] == before[b - 1]);
        }
    }
}

proof fn lemma_insert_covers(
    prefix: Seq<JsonValue>,
    next: Seq<JsonValue>,
    before: Seq<MemberSessionAccess>,
    m: MemberSessionAccess,
    pos: int,
    after: Seq<MemberSessionAccess>,
)
    requires
        next == prefix.push(next.last()),
        next.len() > 0,
        0 <= pos <= before.len(),
        after == before.insert(pos, m),
        accesses_from(prefix, before),
        member_record_is(next.last(), m),
    ensures
        accesses_from(next, after),
{
    assert forall|a: int| 0 <= a < after.len() implies exists|j: int|
        0 <= j < next.len() && member_record_is(next[j], #[trigger] after[a]) by {
        if a == pos {
            assert(member_record_is(next[prefix.len() as int], after[a]));
        } else {
            let b = if a < pos { a } else { a - 1 };
            assert(after[a] == before[b]);
            let j = choose|j: int| 0 <= j < prefix.len() && member_record_is(prefix[j], #[trigger] before[b]);
            assert(next[j] == prefix[j]);
        }
    }
}

proof fn lemma_insert_reaches(
    prefix: Seq<JsonValue>,
    next: Seq<JsonValue>,
    before: Seq<MemberSessionAccess>,
    m: MemberSessionAccess,
    pos: int,
    after: Seq<MemberSessionAccess>,
)
    requires
        next == prefix.push(next.last()),
        next.len() > 0,
        0 <= pos <= before.len(),
        after == before.insert(pos, m),
        records_in(prefix, before),
        member_record_is(next.last(), m),
    ensures
        records_in(next, after),
{
    assert forall|j: int| 0 <= j < next.len() implies exists|a: int|
        0 <= a < after.len() && member_record_is(#[trigger] next[j], after[a]) by {
        if j == prefix.len() {
            assert(after[pos] == m);
        } else {
            assert(next[j] == prefix[j]);
            let b = choose|b: int| 0 <= b < before.len() && member_record_is(#[trigger] prefix[j], before[b]);
            if b < pos {
                assert(after[b] == before[b]);
            } else {
                assert(after[b + 1] == before[b]);
            }
        }
    }
}

proof fn lemma_insert_step(
    items: Seq<JsonValue>,
    i: int,
    before: Seq<MemberSessionAccess>,
    m: MemberSessionAccess,
    pos: int,
    after: Seq<MemberSessionAccess>,
)
    requires
        0 <= i < items.len(),
        0 <= pos <= before.len(),
        after == before.insert(pos, m),
        sorted_accesses_of(items.take(i), before),
        member_record_is(items[i], m),
        forall|k: int| 0 <= k < pos ==> key_lt(access_key(#[trigger] before[k]), access_key(m)),
        forall|k: int| pos <= k < before.len() ==> key_lt(access_key(m), access_key(#[trigger] before[k])),
    ensures
        sorted_accesses_of(items.take(i + 1), after),
{
    reveal(sorted_accesses_of);
    let prefix = items.take(i);
    let next = items.take(i + 1);
    assert(next =~= prefix.push(items[i]));
    lemma_insert_order(before, m, pos, after);
    lemma_insert_covers(prefix, next, before, m, pos, after);
    lemma_insert_reaches(prefix, next, before, m, pos, after);
}

/// The entry at an insertion point that has the new key came from an
/// earlier record with that key.
proof fn lemma_duplicate_key(items: Seq<JsonValue>, i: int, out: Seq<MemberSessionAccess>, m: MemberSessionAccess, pos: int)
    requires
        0 <= i < items.len(),
        0 <= pos < out.len(),
        sorted_accesses_of(items.take(i), out),
        member_record_is(items[i], m),
        access_key(out[pos]) == access_key(m),
    ensures
        !records_acceptable(items),
{
    reveal(sorted_accesses_of);
    let prefix = items.take(i);
    let j = choose|j: int| 0 <= j < prefix.len() && member_record_is(prefix[j], #[trigger] out[pos]);
    assert(prefix[j] == items[j]);
    assert(record_key(items[j]) == record_key(items[i]));
    if records_acceptable(items) {
        assert(record_key(items[j]) != record_key(items[i]));
    }
}

proof fn lemma_sorted_out_keys(items: Seq<JsonValue>, i: int, out: Seq<MemberSessionAccess>)
    requires
        0 <= i <= items.len(),
        sorted_accesses_of(items.take(i), out),
    ensures
        keys_ascending(out),
{
    reveal(sorted_accesses_of);
}

/// The player's authorization records from the Paper Room read model,
/// sorted by session and roster version. A missing list, an unreadable or
/// unacceptable record, or two records for the same session and roster
/// version are an upstream protocol failure.
pub fn member_session_accesses(paper_read_model: &JsonValue) -> (r: Result<
    Vec<MemberSessionAccess>,
    AppError,
>)
    ensures
        r is Ok <==> members_acceptable(*paper_read_model),
        r is Err ==> r == Err::<Vec<MemberSessionAccess>, AppError>(AppError::Upstream),
        r matches Ok(list) ==> sorted_accesses_of(
            crate::json::field_array(*paper_read_model, "member_research_sessions"@)->0,
            list@,
        ),
{
    let records = match paper_read_model.get("member_research_sessions") {
        Some(JsonValue::Array(items)) => items,
        _ => return Err(AppError::Upstream),
    };
    let ghost items = records@;
    let mut out: Vec<MemberSessionAccess> = Vec::new();
    proof {
        reveal(sorted_accesses_of);
    }
    let mut i: usize = 0;
    while i < records.len()
        invariant
            items == records@,
            crate::json::field_array(*paper_read_model, "member_research_sessions"@) == Some(items),
            i <= items.len(),
            forall|k: int| 0 <= k < i ==> member_record_ok(#[trigger] items[k]),
            forall|k: int, l: int|
                0 <= k < l < i ==> record_key(#[trigger] items[k]) != record_key(#[trigger] items[l]),
            sorted_accesses_of(items.take(i as int), out@),
        decreases records.len() - i,
    {
        let m = match read_member_record(&records[i]) {
            Some(m) => m,
            None => {
                assert(!member_record_ok(items[i as int]));
                assert(!records_acceptable(items));
                return Err(AppError::Upstream);
            },
        };
        let ghost prefix = items.take(i as int);
        let mut pos: usize = 0;
        while pos < out.len() && access_lt(&out[pos], &m)
            invariant
                pos <= out@.len(),
                forall|k: int| 0 <= k < pos ==> key_lt(access_key(#[trigger] out@[k]), access_key(m)),
            decreases out.len() - pos,
        {
            pos = pos + 1;
        }
        if pos < out.len() && access_key_eq(&out[pos], &m) {
            proof {
                lemma_duplicate_key(items, i as int, out@, m, pos as int);
            }
            return Err(AppError::Upstream);
        }
        proof {
            lemma_sorted_out_keys(items, i as int, out@);
            lemma_insert_point(out@, m, pos as int);
            lemma_new_key_distinct(items, i as int, out@, m, pos as int);
        }
        let ghost before = out@;
        out.insert(pos, m);
        proof {
            lemma_insert_step(items, i as int, before, m, pos as int, out@);
        }
        i = i + 1;
    }
    assert(items.take(items.len() as int) =~= items);
    assert(records_acceptable(items));
    Ok(out)
}

} // verus!

verus! {

/// One event of a research-session archive page.
#[derive(Debug, Clone, PartialEq, Eq)]
pub struct ResearchArchiveEvent {
    pub schema: String,
    pub event_id: String,
    pub event_type: String,
    pub session_id: String,
    pub team_id: String,
    pub paper_project_id: String,
    pub challenge_id: String,
    pub roster_version: u64,
    pub sequence: u64,
    pub causation_id: String,
    pub occurred_at_unix: i64,
    pub participant_slot: u64,
    pub session_version: u64,
    pub action_type: String,
    pub payload_type: String,
    pub payload: String,
    pub payload_hash: String,
    pub reference_hash: String,
    pub event_hash: String,
}

/// One roster entry of a research session.
#[derive(Debug, Clone, PartialEq, Eq)]
pub struct ResearchRosterEntry {
    pub participant_slot: u64,
    pub authorization_id: String,
    pub subject_user_id: String,
    pub agent_id: String,
    pub agent_did: String,
    pub agent_key_id: String,
    pub agent_key_hash: String,
    pub role: String,
}

/// One participant's live state.
#[derive(Debug, Clone, PartialEq, Eq)]
pub struct ResearchParticipant {
    pub participant_slot: u64,
    pub authorization_id: String,
    pub subject_user_id: String,
    pub agent_id: String,
    pub role: String,
    pub joined: bool,
    pub connected: bool,
    pub ready: bool,
    pub last_action_sequence: u64,
    pub acknowledgement_reference_hash: Option<String>,
}

/// One page of a research-session archive.
#[derive(Debug, Clone, PartialEq, Eq)]
pub struct ResearchArchiveResponse {
    pub schema: String,
    pub logical_session_id: String,
    pub external_match_id: Option<String>,
    pub runtime_generation: u64,
    pub status: String,
    pub session_version: u64,
    pub roster_version: u64,
    pub roster_root: String,
    pub event_count: u64,
    pub after_sequence: u64,
    pub next_after_sequence: u64,
    pub has_more: bool,
    pub events: Vec<ResearchArchiveEvent>,
    pub roster: Vec<ResearchRosterEntry>,
    pub participants: Vec<ResearchParticipant>,
}

pub open spec fn event_keys() -> Seq<&'static str> {
    seq![
        "schema", "event_id", "event_type", "session_id", "team_id", "paper_project_id",
        "challenge_id", "roster_version", "sequence", "causation_id", "occurred_at_unix",
        "participant_slot", "session_version", "action_type", "payload_type", "payload",
        "payload_hash", "reference_hash", "event_hash",
    ]
}

pub open spec fn roster_keys() -> Seq<&'static str> {
    seq![
        "participant_slot", "authorization_id", "subject_user_id", "agent_id", "agent_did",
        "agent_key_id", "agent_key_hash", "role",
    ]
}

pub open spec fn participant_keys() -> Seq<&'static str> {
    seq![
        "participant_slot", "authorization_id", "subject_user_id", "agent_id", "role", "joined",
        "connected", "ready", "last_action_sequence", "acknowledgement_reference_hash",
    ]
}

pub open spec fn archive_keys() -> Seq<&'static str> {
    seq![
        "schema", "logical_session_id", "external_match_id", "runtime_generation", "status",
        "session_version", "roster_version", "roster_root", "event_count", "after_sequence",
        "next_after_sequence", "has_more", "events", "roster", "participants",
    ]
}

/// `e` is the event the object `v` holds (no member outside the event's fields).
pub open spec fn event_is(v: JsonValue, e: ResearchArchiveEvent) -> bool {
    &&& keys_within(v, event_keys())
    &&& field_text(v, "schema"@) == Some(e.schema@)
    &&& field_text(v, "event_id"@) == Some(e.event_id@)
    &&& field_text(v, "event_type"@) == Some(e.event_type@)
    &&& field_text(v, "session_id"@) == Some(e.session_id@)
    &&& field_text(v, "team_id"@) == Some(e.team_id@)
    &&& field_text(v, "paper_project_id"@) == Some(e.paper_project_id@)
    &&& field_text(v, "challenge_id"@) == Some(e.challenge_id@)
    &&& field_u64(v, "roster_version"@) == Some(e.roster_version)
    &&& field_u64(v, "sequence"@) == Some(e.sequence)
    &&& field_text(v, "causation_id"@) == Some(e.causation_id@)
    &&& field_i64(v, "occurred_at_unix"@) == Some(e.occurred_at_unix)
    &&& field_u64(v, "participant_slot"@) == Some(e.participant_slot)
    &&& field_u64(v, "session_version"@) == Some(e.session_version)
    &&& field_text(v, "action_type"@) == Some(e.action_type@)
    &&& field_text(v, "payload_type"@) == Some(e.payload_type@)
    &&& field_text(v, "payload"@) == Some(e.payload@)
    &&& field_text(v, "payload_hash"@) == Some(e.payload_hash@)
    &&& field_text(v, "reference_hash"@) == Some(e.reference_hash@)
    &&& field_text(v, "event_hash"@) == Some(e.event_hash@)
}

/// The object `v` holds an event.
pub open spec fn event_reads(v: JsonValue) -> bool {
    &&& keys_within(v, event_keys())
    &&& field_text(v, "schema"@) is Some
    &&& field_text(v, "event_id"@) is Some
    &&& field_text(v, "event_type"@) is Some
    &&& field_text(v, "session_id"@) is Some
    &&& field_text(v, "team_id"@) is Some
    &&& field_text(v, "paper_project_id"@) is Some
    &&& field_text(v, "challenge_id"@) is Some
    &&& field_u64(v, "roster_version"@) is Some
    &&& field_u64(v, "sequence"@) is Some
    &&& field_text(v, "causation_id"@) is Some
    &&& field_i64(v, "occurred_at_unix"@) is Some
    &&& field_u64(v, "participant_slot"@) is Some
    &&& field_u64(v, "session_version"@) is Some
    &&& field_text(v, "action_type"@) is Some
    &&& field_text(v, "payload_type"@) is Some
    &&& field_text(v, "payload"@) is Some
    &&& field_text(v, "payload_hash"@) is Some
    &&& field_text(v, "reference_hash"@) is Some
    &&& field_text(v, "event_hash"@) is Some
}

pub open spec fn roster_entry_is(v: JsonValue, e: ResearchRosterEntry) -> bool {
    &&& keys_within(v, roster_keys())
    &&& field_u64(v, "participant_slot"@) == Some(e.participant_slot)
    &&& field_text(v, "authorization_id"@) == Some(e.authorization_id@)
    &&& field_text(v, "subject_user_id"@) == Some(e.subject_user_id@)
    &&& field_text(v, "agent_id"@) == Some(e.agent_id@)
    &&& field_text(v, "agent_did"@) == Some(e.agent_did@)
    &&& field_text(v, "agent_key_id"@) == Some(e.agent_key_id@)
    &&& field_text(v, "agent_key_hash"@) == Some(e.agent_key_hash@)
    &&& field_text(v, "role"@) == Some(e.role@)
}

pub open spec fn roster_entry_reads(v: JsonValue) -> bool {
    &&& keys_within(v, roster_keys())
    &&& field_u64(v, "participant_slot"@) is Some
    &&& field_text(v, "authorization_id"@) is Some
    &&& field_text(v, "subject_user_id"@) is Some
    &&& field_text(v, "agent_id"@) is Some
    &&& field_text(v, "agent_did"@) is Some
    &&& field_text(v, "agent_key_id"@) is Some
    &&& field_text(v, "agent_key_hash"@) is Some
    &&& field_text(v, "role"@) is Some
}

pub open spec fn participant_is(v: JsonValue, p: ResearchParticipant) -> bool {
    &&& keys_within(v, participant_keys())
    &&& field_u64(v, "participant_slot"@) == Some(p.participant_slot)
    &&& field_text(v, "authorization_id"@) == Some(p.authorization_id@)
    &&& field_text(v, "subject_user_id"@) == Some(p.subject_user_id@)
    &&& field_text(v, "agent_id"@) == Some(p.agent_id@)
    &&& field_text(v, "role"@) == Some(p.role@)
    &&& field_bool(v, "joined"@) == Some(p.joined)
    &&& field_bool(v, "connected"@) == Some(p.connected)
    &&& field_bool(v, "ready"@) == Some(p.ready)
    &&& field_u64(v, "last_action_sequence"@) == Some(p.last_action_sequence)
    &&& field_opt_text(v, "acknowledgement_reference_hash"@) == Some(
        opt_text_view(p.acknowledgement_reference_hash),
    )
}

pub open spec fn participant_reads(v: JsonValue) -> bool {
    &&& keys_within(v, participant_keys())
    &&& field_u64(v, "participant_slot"@) is Some
    &&& field_text(v, "authorization_id"@) is Some
    &&& field_text(v, "subject_user_id"@) is Some
    &&& field_text(v, "agent_id"@) is Some
    &&& field_text(v, "role"@) is Some
    &&& field_bool(v, "joined"@) is Some
    &&& field_bool(v, "connected"@) is Some
    &&& field_bool(v, "ready"@) is Some
    &&& field_u64(v, "last_action_sequence"@) is Some
    &&& field_opt_text(v, "acknowledgement_reference_hash"@) is Some
}

fn read_event(v: &JsonValue) -> (r: Option<ResearchArchiveEvent>)
    ensures
        match r {
            Some(e) => event_is(*v, e),
            None => !event_reads(*v),
        },
{
    let keys: [&'static str; 19] = [
        "schema", "event_id", "event_type", "session_id", "team_id", "paper_project_id",
        "challenge_id", "roster_version", "sequence", "causation_id", "occurred_at_unix",
        "participant_slot", "session_version", "action_type", "payload_type", "payload",
        "payload_hash", "reference_hash", "event_hash",
    ];
    assert(keys@ =~= event_keys());
    if !v.keys_within(&keys) {
        return None;
    }
    Some(
        ResearchArchiveEvent {
            schema: v.text_of("schema")?,
            event_id: v.text_of("event_id")?,
            event_type: v.text_of("event_type")?,
            session_id: v.text_of("session_id")?,
            team_id: v.text_of("team_id")?,
            paper_project_id: v.text_of("paper_project_id")?,
            challenge_id: v.text_of("challenge_id")?,
            roster_version: v.u64_of("roster_version")?,
            sequence: v.u64_of("sequence")?,
            causation_id: v.text_of("causation_id")?,
            occurred_at_unix: v.i64_of("occurred_at_unix")?,
            participant_slot: v.u64_of("participant_slot")?,
            session_version: v.u64_of("session_version")?,
            action_type: v.text_of("action_type")?,
            payload_type: v.text_of("payload_type")?,
            payload: v.text_of("payload")?,
            payload_hash: v.text_of("payload_hash")?,
            reference_hash: v.text_of("reference_hash")?,
            event_hash: v.text_of("event_hash")?,
        },
    )
}

fn read_roster_entry(v: &JsonValue) -> (r: Option<ResearchRosterEntry>)
    ensures
        match r {
            Some(e) => roster_entry_is(*v, e),
            None => !roster_entry_reads(*v),
        },
{
    let keys: [&'static str; 8] = [
        "participant_slot", "authorization_id", "subject_user_id", "agent_id", "agent_did",
        "agent_key_id", "agent_key_hash", "role",
    ];
    assert(keys@ =~= roster_keys());
    if !v.keys_within(&keys) {
        return None;
    }
    Some(
        ResearchRosterEntry {
            participant_slot: v.u64_of("participant_slot")?,
            authorization_id: v.text_of("authorization_id")?,
            subject_user_id: v.text_of("subject_user_id")?,
            agent_id: v.text_of("agent_id")?,
            agent_did: v.text_of("agent_did")?,
            agent_key_id: v.text_of("agent_key_id")?,
            agent_key_hash: v.text_of("agent_key_hash")?,
            role: v.text_of("role")?,
        },
    )
}

fn read_participant(v: &JsonValue) -> (r: Option<ResearchParticipant>)
    ensures
        match r {
            Some(p) => participant_is(*v, p),
            None => !participant_reads(*v),
        },
{
    let keys: [&'static str; 10] = [
        "participant_slot", "authorization_id", "subject_user_id", "agent_id", "role", "joined",
        "connected", "ready", "last_action_sequence", "acknowledgement_reference_hash",
    ];
    assert(keys@ =~= participant_keys());
    if !v.keys_within(&keys) {
        return None;
    }
    Some(
        ResearchParticipant {
            participant_slot: v.u64_of("participant_slot")?,
            authorization_id: v.text_of("authorization_id")?,
            subject_user_id: v.text_of("subject_user_id")?,
            agent_id: v.text_of("agent_id")?,
            role: v.text_of("role")?,
            joined: v.bool_of("joined")?,
            connected: v.bool_of("connected")?,
            ready: v.bool_of("ready")?,
            last_action_sequence: v.u64_of("last_action_sequence")?,
            acknowledgement_reference_hash: v.opt_text_of("acknowledgement_reference_hash")?,
        },
    )
}

/// `a` is the archive page the object `v` holds.
pub open spec fn archive_is(v: JsonValue, a: ResearchArchiveResponse) -> bool {
    &&& keys_within(v, archive_keys())
    &&& archive_scalars_are(v, a)
    &&& archive_lists_are(v, a.events@, a.roster@, a.participants@)
}

pub open spec fn archive_scalars_are(v: JsonValue, a: ResearchArchiveResponse) -> bool {
    &&& field_text(v, "schema"@) == Some(a.schema@)
    &&& field_text(v, "logical_session_id"@) == Some(a.logical_session_id@)
    &&& field_opt_text(v, "external_match_id"@) == Some(opt_text_view(a.external_match_id))
    &&& field_u64(v, "runtime_generation"@) == Some(a.runtime_generation)
    &&& field_text(v, "status"@) == Some(a.status@)
    &&& field_u64(v, "session_version"@) == Some(a.session_version)
    &&& field_u64(v, "roster_version"@) == Some(a.roster_version)
    &&& field_text(v, "roster_root"@) == Some(a.roster_root@)
    &&& field_u64(v, "event_count"@) == Some(a.event_count)
    &&& field_u64(v, "after_sequence"@) == Some(a.after_sequence)
    &&& field_u64(v, "next_after_sequence"@) == Some(a.next_after_sequence)
    &&& field_bool(v, "has_more"@) == Some(a.has_more)
}

pub open spec fn archive_lists_are(
    v: JsonValue,
    events: Seq<ResearchArchiveEvent>,
    roster: Seq<ResearchRosterEntry>,
    participants: Seq<ResearchParticipant>,
) -> bool {
    &&& field_array(v, "events"@) matches Some(items) && events_are(items, events)
    &&& field_array(v, "roster"@) matches Some(items) && roster_is(items, roster)
    &&& field_array(v, "participants"@) matches Some(items) && participants_are(items, participants)
}

pub open spec fn events_are(items: Seq<JsonValue>, events: Seq<ResearchArchiveEvent>) -> bool {
    items.len() == events.len() && forall|i: int|
        0 <= i < items.len() ==> event_is(#[trigger] items[i], events[i])
}

pub open spec fn roster_is(items: Seq<JsonValue>, roster: Seq<ResearchRosterEntry>) -> bool {
    items.len() == roster.len() && forall|i: int|
        0 <= i < items.len() ==> roster_entry_is(#[trigger] items[i], roster[i])
}

pub open spec fn participants_are(items: Seq<JsonValue>, participants: Seq<ResearchParticipant>) -> bool {
    items.len() == participants.len() && forall|i: int|
        0 <= i < items.len() ==> participant_is(#[trigger] items[i], participants[i])
}

pub open spec fn events_read(items: Seq<JsonValue>) -> bool {
    forall|i: int| 0 <= i < items.len() ==> event_reads(#[trigger] items[i])
}

pub open spec fn roster_reads(items: Seq<JsonValue>) -> bool {
    forall|i: int| 0 <= i < items.len() ==> roster_entry_reads(#[trigger] items[i])
}

pub open spec fn participants_read(items: Seq<JsonValue>) -> bool {
    forall|i: int| 0 <= i < items.len() ==> participant_reads(#[trigger] items[i])
}

/// The object `v` holds an archive page.
pub open spec fn archive_reads(v: JsonValue) -> bool {
    &&& keys_within(v, archive_keys())
    &&& archive_scalars_read(v)
    &&& archive_lists_read(v)
}

pub open spec fn archive_scalars_read(v: JsonValue) -> bool {
    &&& field_text(v, "schema"@) is Some
    &&& field_text(v, "logical_session_id"@) is Some
    &&& field_opt_text(v, "external_match_id"@) is Some
    &&& field_u64(v, "runtime_generation"@) is Some
    &&& field_text(v, "status"@) is Some
    &&& field_u64(v, "session_version"@) is Some
    &&& field_u64(v, "roster_version"@) is Some
    &&& field_text(v, "roster_root"@) is Some
    &&& field_u64(v, "event_count"@) is Some
    &&& field_u64(v, "after_sequence"@) is Some
    &&& field_u64(v, "next_after_sequence"@) is Some
    &&& field_bool(v, "has_more"@) is Some
}

pub open spec fn archive_lists_read(v: JsonValue) -> bool {
    &&& field_array(v, "events"@) matches Some(items) && events_read(items)
    &&& field_array(v, "roster"@) matches Some(items) && roster_reads(items)
    &&& field_array(v, "participants"@) matches Some(items) && participants_read(items)
}

/// A null written out where the page may only omit a value: the external
/// match id, or a participant's acknowledgement hash.
pub open spec fn explicit_null(v: JsonValue) -> bool {
    ||| v.spec_get("external_match_id"@) == Some(JsonValue::Null)
    ||| field_array(v, "participants"@) matches Some(items) && exists|i: int|
        0 <= i < items.len() && (#[trigger] items[i]).spec_get("acknowledgement_reference_hash"@)
            == Some(JsonValue::Null)
}

fn read_events(items: &Vec<JsonValue>) -> (r: Option<Vec<ResearchArchiveEvent>>)
    ensures
        match r {
            Some(out) => events_are(items@, out@),
            None => !events_read(items@),
        },
{
    let mut out: Vec<ResearchArchiveEvent> = Vec::new();
    let mut i: usize = 0;
    while i < items.len()
        invariant
            i <= items@.len(),
            out@.len() == i,
            forall|k: int| 0 <= k < i ==> event_is(#[trigger] items@[k], out@[k]),
        decreases items.len() - i,
    {
        match read_event(&items[i]) {
            Some(e) => out.push(e),
            None => {
                assert(!event_reads(items@[i as int]));
                return None;
            },
        }
        i = i + 1;
    }
    Some(out)
}

fn read_roster(items: &Vec<JsonValue>) -> (r: Option<Vec<ResearchRosterEntry>>)
    ensures
        match r {
            Some(out) => roster_is(items@, out@),
            None => !roster_reads(items@),
        },
{
    let mut out: Vec<ResearchRosterEntry> = Vec::new();
    let mut i: usize = 0;
    while i < items.len()
        invariant
            i <= items@.len(),
            out@.len() == i,
            forall|k: int| 0 <= k < i ==> roster_entry_is(#[trigger] items@[k], out@[k]),
        decreases items.len() - i,
    {
        match read_roster_entry(&items[i]) {
            Some(e) => out.push(e),
            None => {
                assert(!roster_entry_reads(items@[i as int]));
                return None;
            },
        }
        i = i + 1;
    }
    Some(out)
}

fn read_participants(items: &Vec<JsonValue>) -> (r: Option<Vec<ResearchParticipant>>)
    ensures
        match r {
            Some(out) => participants_are(items@, out@),
            None => !participants_read(items@),
        },
{
    let mut out: Vec<ResearchParticipant> = Vec::new();
    let mut i: usize = 0;
    while i < items.len()
        invariant
            i <= items@.len(),
            out@.len() == i,
            forall|k: int| 0 <= k < i ==> participant_is(#[trigger] items@[k], out@[k]),
        decreases items.len() - i,
    {
        match read_participant(&items[i]) {
            Some(p) => out.push(p),
            None => {
                assert(!participant_reads(items@[i as int]));
                return None;
            },
        }
        i = i + 1;
    }
    Some(out)
}

fn array_of<'a>(v: &'a JsonValue, key: &str) -> (r: Option<&'a Vec<JsonValue>>)
    ensures
        match r {
            Some(items) => field_array(*v, key@) == Some(items@),
            None => field_array(*v, key@) is None,
        },
{
    match v.get(key) {
        Some(JsonValue::Array(items)) => Some(items),
        _ => None,
    }
}

fn read_lists(v: &JsonValue) -> (r: Option<
    (Vec<ResearchArchiveEvent>, Vec<ResearchRosterEntry>, Vec<ResearchParticipant>),
>)
    ensures
        match r {
            Some((e, ro, p)) => archive_lists_are(*v, e@, ro@, p@),
            None => !archive_lists_read(*v),
        },
{
    let events = match array_of(v, "events") {
        Some(items) => read_events(items)?,
        None => return None,
    };
    let roster = match array_of(v, "roster") {
        Some(items) => read_roster(items)?,
        None => return None,
    };
    let participants = match array_of(v, "participants") {
        Some(items) => read_participants(items)?,
        None => return None,
    };
    Some((events, roster, participants))
}

/// Reads an archive page out of a JSON value: an object with exactly the
/// page's members (the external match id may be left out), each of its type.
pub fn read_archive(v: &JsonValue) -> (r: Option<ResearchArchiveResponse>)
    ensures
        match r {
            Some(a) => archive_is(*v, a),
            None => !archive_reads(*v),
        },
{
    let keys: [&'static str; 15] = [
        "schema", "logical_session_id", "external_match_id", "runtime_generation", "status",
        "session_version", "roster_version", "roster_root", "event_count", "after_sequence",
        "next_after_sequence", "has_more", "events", "roster", "participants",
    ];
    assert(keys@ =~= archive_keys());
    if !v.keys_within(&keys) {
        return None;
    }
    let (events, roster, participants) = read_lists(v)?;
    let a = ResearchArchiveResponse {
        schema: v.text_of("schema")?,
        logical_session_id: v.text_of("logical_session_id")?,
        external_match_id: v.opt_text_of("external_match_id")?,
        runtime_generation: v.u64_of("runtime_generation")?,
        status: v.text_of("status")?,
        session_version: v.u64_of("session_version")?,
        roster_version: v.u64_of("roster_version")?,
        roster_root: v.text_of("roster_root")?,
        event_count: v.u64_of("event_count")?,
        after_sequence: v.u64_of("after_sequence")?,
        next_after_sequence: v.u64_of("next_after_sequence")?,
        has_more: v.bool_of("has_more")?,
        events,
        roster,
        participants,
    };
    Some(a)
}

/// Whether the page writes out a null it may only omit.
fn has_explicit_null(v: &JsonValue) -> (r: bool)
    ensures
        r == explicit_null(*v),
{
    match v.get("external_match_id") {
        Some(JsonValue::Null) => return true,
        _ => {},
    }
    match array_of(v, "participants") {
        Some(items) => {
            let mut i: usize = 0;
            while i < items.len()
                invariant
                    field_array(*v, "participants"@) == Some(items@),
                    i <= items@.len(),
                    forall|k: int|
                        0 <= k < i ==> (#[trigger] items@[k]).spec_get("acknowledgement_reference_hash"@)
                            != Some(JsonValue::Null),
                decreases items.len() - i,
            {
                match items[i].get("acknowledgement_reference_hash") {
                    Some(JsonValue::Null) => return true,
                    _ => {},
                }
                i = i + 1;
            }
            false
        },
        None => false,
    }
}

/// What `base64::engine::general_purpose::STANDARD` decodes a text's bytes to,
/// or nothing when they are not canonical padded standard Base64.
pub uninterp spec fn base64_decode_of(text: Seq<u8>) -> Option<Seq<u8>>;

/// The character of a six-bit value in the standard Base64 alphabet
/// (`A`-`Z`, `a`-`z`, `0`-`9`, `+`, `/`).
pub open spec fn base64_digit(v: int) -> char {
    if v < 26 {
        ((v + 65) as u8) as char
    } else if v < 52 {
        ((v + 71) as u8) as char
    } else if v < 62 {
        ((v - 4) as u8) as char
    } else if v == 62 {
        '+'
    } else {
        '/'
    }
}

/// The padded standard Base64 text of bytes (RFC 4648, section 4), as
/// `base64::engine::general_purpose::STANDARD` encodes them: each group of
/// three bytes becomes four digits, and a final group of one or two bytes
/// becomes two or three digits followed by `=` padding to four.
#[verifier::opaque]
pub open spec fn base64_encode_of(bytes: Seq<u8>) -> Seq<char>
    decreases bytes.len(),
{
    if bytes.len() == 0 {
        Seq::<char>::empty()
    } else if bytes.len() == 1 {
        let a = bytes[0] as int;
        seq![base64_digit(a / 4), base64_digit((a % 4) * 16), '=', '=']
    } else if bytes.len() == 2 {
        let a = bytes[0] as int;
        let b = bytes[1] as int;
        seq![base64_digit(a / 4), base64_digit((a % 4) * 16 + b / 16), base64_digit((b % 16) * 4), '=']
    } else {
        let a = bytes[0] as int;
        let b = bytes[1] as int;
        let c = bytes[2] as int;
        seq![
            base64_digit(a / 4),
            base64_digit((a % 4) * 16 + b / 16),
            base64_digit((b % 16) * 4 + c / 64),
            base64_digit(c % 64),
        ] + base64_encode_of(bytes.subrange(3, bytes.len() as int))
    }
}

/// `Engine::decode` of the standard engine: the decoded bytes of the text,
/// or `None` when decoding fails.
#[verifier::external_body]
pub(crate) fn base64_decode(text: &str) -> (r: Option<Vec<u8>>)
    ensures
        match r {
            Some(b) => base64_decode_of(vstd::utf8::encode_utf8(text@)) == Some(b@),
            None => base64_decode_of(vstd::utf8::encode_utf8(text@)) is None,
        },
{
    base64::engine::general_purpose::STANDARD.decode(text).ok()
}

/// `Engine::encode` of the standard engine; it panics only where the padded
/// encoded length (four bytes per started group of three) overflows `usize`
/// or cannot be allocated, which the bound on the input rules out.
#[verifier::external_body]
pub(crate) fn base64_encode(bytes: &[u8]) -> (r: String)
    requires
        bytes@.len() / 3 * 4 + 4 <= isize::MAX,
    ensures
        r@ == base64_encode_of(bytes@),
{
    base64::engine::general_purpose::STANDARD.encode(bytes)
}

/// A payload: 4..=87 384 bytes of canonical padded Base64 (a multiple of four
/// long) that decodes to 1..=65 536 bytes.
pub open spec fn is_base64_payload(s: Seq<char>) -> bool {
    let b = vstd::utf8::encode_utf8(s);
    &&& 4 <= b.len() <= 87384
    &&& b.len() % 4 == 0
    &&& base64_decode_of(b) matches Some(d) && 0 < d.len() <= 65536 && base64_encode_of(d) == s
}

pub fn valid_base64_payload(value: &str) -> (r: bool)
    ensures
        r == is_base64_payload(value@),
{
    let n = value.as_bytes().len();
    if n < 4 || n > 87384 || n % 4 != 0 {
        return false;
    }
    let decoded = match base64_decode(value) {
        Some(d) => d,
        None => return false,
    };
    if decoded.len() == 0 || decoded.len() > 65536 {
        return false;
    }
    let encoded = base64_encode(decoded.as_slice());
    let same = str_eq(encoded.as_str(), value);
    proof {
        let b = vstd::utf8::encode_utf8(value@);
        assert(base64_decode_of(b) == Some(decoded@));
        assert(encoded@ == base64_encode_of(decoded@));
    }
    same
}

pub open spec fn is_archive_status(s: Seq<char>) -> bool {
    s == "created"@ || s == "waiting"@ || s == "ready"@ || s == "active"@ || s == "paused"@ || s
        == "completed"@
}

fn archive_status(s: &str) -> (r: bool)
    ensures
        r == is_archive_status(s@),
{
    str_eq(s, "created") || str_eq(s, "waiting") || str_eq(s, "ready") || str_eq(s, "active")
        || str_eq(s, "paused") || str_eq(s, "completed")
}

pub open spec fn is_event_type(s: Seq<char>) -> bool {
    s == "participant_joined"@ || s == "participant_disconnected"@ || s
        == "participant_reconnected"@ || s == "research_action_applied"@ || s == "roster_replaced"@
        || s == "research_session_completed"@
}

fn event_type(s: &str) -> (r: bool)
    ensures
        r == is_event_type(s@),
{
    str_eq(s, "participant_joined") || str_eq(s, "participant_disconnected") || str_eq(
        s,
        "participant_reconnected",
    ) || str_eq(s, "research_action_applied") || str_eq(s, "roster_replaced") || str_eq(
        s,
        "research_session_completed",
    )
}

/// What an event holds, as plain values.
pub struct EventView {
    pub schema: Seq<char>,
    pub event_id: Seq<char>,
    pub event_type: Seq<char>,
    pub session_id: Seq<char>,
    pub team_id: Seq<char>,
    pub paper_project_id: Seq<char>,
    pub challenge_id: Seq<char>,
    pub roster_version: u64,
    pub sequence: u64,
    pub causation_id: Seq<char>,
    pub occurred_at_unix: i64,
    pub participant_slot: u64,
    pub session_version: u64,
    pub action_type: Seq<char>,
    pub payload_type: Seq<char>,
    pub payload: Seq<char>,
    pub payload_hash: Seq<char>,
    pub reference_hash: Seq<char>,
    pub event_hash: Seq<char>,
}

/// What a roster entry holds, as plain values.
pub struct RosterView {
    pub participant_slot: u64,
    pub authorization_id: Seq<char>,
    pub subject_user_id: Seq<char>,
    pub agent_id: Seq<char>,
    pub agent_did: Seq<char>,
    pub agent_key_id: Seq<char>,
    pub agent_key_hash: Seq<char>,
    pub role: Seq<char>,
}

/// What a participant record holds, as plain values.
pub struct ParticipantView {
    pub participant_slot: u64,
    pub authorization_id: Seq<char>,
    pub subject_user_id: Seq<char>,
    pub agent_id: Seq<char>,
    pub role: Seq<char>,
    pub joined: bool,
    pub connected: bool,
    pub ready: bool,
    pub last_action_sequence: u64,
    pub acknowledgement_reference_hash: Option<Seq<char>>,
}

/// What an archive page holds, as plain values.
pub struct ArchiveView {
    pub schema: Seq<char>,
    pub logical_session_id: Seq<char>,
    pub external_match_id: Option<Seq<char>>,
    pub runtime_generation: u64,
    pub status: Seq<char>,
    pub session_version: u64,
    pub roster_version: u64,
    pub roster_root: Seq<char>,
    pub event_count: u64,
    pub after_sequence: u64,
    pub next_after_sequence: u64,
    pub has_more: bool,
    pub events: Seq<EventView>,
    pub roster: Seq<RosterView>,
    pub participants: Seq<ParticipantView>,
}

impl View for ResearchArchiveEvent {
    type V = EventView;

    open spec fn view(&self) -> EventView {
        EventView {
            schema: self.schema@,
            event_id: self.event_id@,
            event_type: self.event_type@,
            session_id: self.session_id@,
            team_id: self.team_id@,
            paper_project_id: self.paper_project_id@,
            challenge_id: self.challenge_id@,
            roster_version: self.roster_version,
            sequence: self.sequence,
            causation_id: self.causation_id@,
            occurred_at_unix: self.occurred_at_unix,
            participant_slot: self.participant_slot,
            session_version: self.session_version,
            action_type: self.action_type@,
            payload_type: self.payload_type@,
            payload: self.payload@,
            payload_hash: self.payload_hash@,
            reference_hash: self.reference_hash@,
            event_hash: self.event_hash@,
        }
    }
}

impl View for ResearchRosterEntry {
    type V = RosterView;

    open spec fn view(&self) -> RosterView {
        RosterView {
            participant_slot: self.participant_slot,
            authorization_id: self.authorization_id@,
            subject_user_id: self.subject_user_id@,
            agent_id: self.agent_id@,
            agent_did: self.agent_did@,
            agent_key_id: self.agent_key_id@,
            agent_key_hash: self.agent_key_hash@,
            role: self.role@,
        }
    }
}

impl View for ResearchParticipant {
    type V = ParticipantView;

    open spec fn view(&self) -> ParticipantView {
        ParticipantView {
            participant_slot: self.participant_slot,
            authorization_id: self.authorization_id@,
            subject_user_id: self.subject_user_id@,
            agent_id: self.agent_id@,
            role: self.role@,
            joined: self.joined,
            connected: self.connected,
            ready: self.ready,
            last_action_sequence: self.last_action_sequence,
            acknowledgement_reference_hash: opt_text_view(self.acknowledgement_reference_hash),
        }
    }
}

impl View for ResearchArchiveResponse {
    type V = ArchiveView;

    open spec fn view(&self) -> ArchiveView {
        ArchiveView {
            schema: self.schema@,
            logical_session_id: self.logical_session_id@,
            external_match_id: opt_text_view(self.external_match_id),
            runtime_generation: self.runtime_generation,
            status: self.status@,
            session_version: self.session_version,
            roster_version: self.roster_version,
            roster_root: self.roster_root@,
            event_count: self.event_count,
            after_sequence: self.after_sequence,
            next_after_sequence: self.next_after_sequence,
            has_more: self.has_more,
            events: self.events@.map_values(|e: ResearchArchiveEvent| e@),
            roster: self.roster@.map_values(|e: ResearchRosterEntry| e@),
            participants: self.participants@.map_values(|p: ResearchParticipant| p@),
        }
    }
}

/// The event an object holds, read field by field.
pub open spec fn event_view_of(v: JsonValue) -> EventView {
    EventView {
        schema: field_text(v, "schema"@)->0,
        event_id: field_text(v, "event_id"@)->0,
        event_type: field_text(v, "event_type"@)->0,
        session_id: field_text(v, "session_id"@)->0,
        team_id: field_text(v, "team_id"@)->0,
        paper_project_id: field_text(v, "paper_project_id"@)->0,
        challenge_id: field_text(v, "challenge_id"@)->0,
        roster_version: field_u64(v, "roster_version"@)->0,
        sequence: field_u64(v, "sequence"@)->0,
        causation_id: field_text(v, "causation_id"@)->0,
        occurred_at_unix: field_i64(v, "occurred_at_unix"@)->0,
        participant_slot: field_u64(v, "participant_slot"@)->0,
        session_version: field_u64(v, "session_version"@)->0,
        action_type: field_text(v, "action_type"@)->0,
        payload_type: field_text(v, "payload_type"@)->0,
        payload: field_text(v, "payload"@)->0,
        payload_hash: field_text(v, "payload_hash"@)->0,
        reference_hash: field_text(v, "reference_hash"@)->0,
        event_hash: field_text(v, "event_hash"@)->0,
    }
}

/// The roster entry an object holds, read field by field.
pub open spec fn roster_view_of(v: JsonValue) -> RosterView {
    RosterView {
        participant_slot: field_u64(v, "participant_slot"@)->0,
        authorization_id: field_text(v, "authorization_id"@)->0,
        subject_user_id: field_text(v, "subject_user_id"@)->0,
        agent_id: field_text(v, "agent_id"@)->0,
        agent_did: field_text(v, "agent_did"@)->0,
        agent_key_id: field_text(v, "agent_key_id"@)->0,
        agent_key_hash: field_text(v, "agent_key_hash"@)->0,
        role: field_text(v, "role"@)->0,
    }
}

/// The participant record an object holds, read field by field.
pub open spec fn participant_view_of(v: JsonValue) -> ParticipantView {
    ParticipantView {
        participant_slot: field_u64(v, "participant_slot"@)->0,
        authorization_id: field_text(v, "authorization_id"@)->0,
        subject_user_id: field_text(v, "subject_user_id"@)->0,
        agent_id: field_text(v, "agent_id"@)->0,
        role: field_text(v, "role"@)->0,
        joined: field_bool(v, "joined"@)->0,
        connected: field_bool(v, "connected"@)->0,
        ready: field_bool(v, "ready"@)->0,
        last_action_sequence: field_u64(v, "last_action_sequence"@)->0,
        acknowledgement_reference_hash: field_opt_text(v, "acknowledgement_reference_hash"@)->0,
    }
}

/// The archive page an object holds, read field by field.
pub open spec fn archive_view_of(v: JsonValue) -> ArchiveView {
    ArchiveView {
        schema: field_text(v, "schema"@)->0,
        logical_session_id: field_text(v, "logical_session_id"@)->0,
        external_match_id: field_opt_text(v, "external_match_id"@)->0,
        runtime_generation: field_u64(v, "runtime_generation"@)->0,
        status: field_text(v, "status"@)->0,
        session_version: field_u64(v, "session_version"@)->0,
        roster_version: field_u64(v, "roster_version"@)->0,
        roster_root: field_text(v, "roster_root"@)->0,
        event_count: field_u64(v, "event_count"@)->0,
        after_sequence: field_u64(v, "after_sequence"@)->0,
        next_after_sequence: field_u64(v, "next_after_sequence"@)->0,
        has_more: field_bool(v, "has_more"@)->0,
        events: field_array(v, "events"@)->0.map_values(|x: JsonValue| event_view_of(x)),
        roster: field_array(v, "roster"@)->0.map_values(|x: JsonValue| roster_view_of(x)),
        participants: field_array(v, "participants"@)->0.map_values(
            |x: JsonValue| participant_view_of(x),
        ),
    }
}

/// What was read is what the page holds.
proof fn lemma_archive_view(v: JsonValue, a: ResearchArchiveResponse)
    requires
        archive_is(v, a),
    ensures
        a@ == archive_view_of(v),
{
    let w = archive_view_of(v);
    let ev = field_array(v, "events"@)->0;
    let ro = field_array(v, "roster"@)->0;
    let pa = field_array(v, "participants"@)->0;
    assert(a@.events =~= w.events) by {
        assert forall|i: int| 0 <= i < ev.len() implies a@.events[i] == w.events[i] by {
            assert(event_is(ev[i], a.events@[i]));
        }
    }
    assert(a@.roster =~= w.roster) by {
        assert forall|i: int| 0 <= i < ro.len() implies a@.roster[i] == w.roster[i] by {
            assert(roster_entry_is(ro[i], a.roster@[i]));
        }
    }
    assert(a@.participants =~= w.participants) by {
        assert forall|i: int| 0 <= i < pa.len() implies a@.participants[i] == w.participants[i] by {
            assert(participant_is(pa[i], a.participants@[i]));
        }
    }
}

impl ArchiveView {
    /// The page's own fields: the requested session, roster version and
    /// cursor, every counter positive where it must be and JSON-safe, the
    /// session version one past the event count, the cursor never moving
    /// back, and 3..=5 roster entries with one participant each.
    pub open spec fn header_valid(self, access: MemberSessionAccess, after: u64) -> bool {
        &&& self.schema == "trnm.nakama.research-session.archive.v1"@
        &&& self.logical_session_id == access.logical_session_id@
        &&& self.roster_version == access.roster_version
        &&& self.after_sequence == after
        &&& 0 < self.runtime_generation <= JSON_SAFE_U64_MAX
        &&& 0 < self.session_version <= JSON_SAFE_U64_MAX
        &&& 0 < self.roster_version <= JSON_SAFE_U64_MAX
        &&& self.event_count <= JSON_SAFE_U64_MAX
        &&& self.session_version == self.event_count + 1
        &&& self.after_sequence <= JSON_SAFE_U64_MAX
        &&& self.next_after_sequence <= JSON_SAFE_U64_MAX
        &&& self.next_after_sequence >= self.after_sequence
        &&& is_digest_text(self.roster_root)
        &&& is_archive_status(self.status)
        &&& (self.external_match_id matches Some(m) ==> is_valid_text(m, 512))
        &&& 3 <= self.roster.len() <= 5
        &&& self.participants.len() == self.roster.len()
        &&& self.events.len() <= NAKAMA_ARCHIVE_PAGE_LIMIT
    }
}

/// A roster entry's own fields.
pub open spec fn roster_entry_ok(e: RosterView) -> bool {
    &&& 1 <= e.participant_slot <= 5
    &&& is_canonical_uuid_text(e.authorization_id)
    &&& is_canonical_uuid_text(e.subject_user_id)
    &&& is_valid_text(e.agent_id, 512)
    &&& is_valid_text(e.agent_did, 512)
    &&& is_valid_text(e.agent_key_id, 512)
    &&& is_digest_text(e.agent_key_hash)
    &&& is_valid_text(e.role, 512)
}

/// Two roster entries share no slot, authorization, subject, agent, agent
/// DID, agent key id or agent key hash.
pub open spec fn roster_entries_apart(a: RosterView, b: RosterView) -> bool {
    &&& a.participant_slot != b.participant_slot
    &&& a.authorization_id != b.authorization_id
    &&& a.subject_user_id != b.subject_user_id
    &&& a.agent_id != b.agent_id
    &&& a.agent_did != b.agent_did
    &&& a.agent_key_id != b.agent_key_id
    &&& a.agent_key_hash != b.agent_key_hash
}

impl ArchiveView {
    /// The roster: every entry well-formed, no two sharing any identity, the
    /// player's own authorization among them, and (slots being distinct and
    /// at least 1) the slots exactly 1..=len, i.e. none above the length.
    pub open spec fn roster_valid(self, access: MemberSessionAccess) -> bool {
        let r = self.roster;
        &&& forall|i: int| 0 <= i < r.len() ==> roster_entry_ok(#[trigger] r[i])
        &&& forall|i: int, j: int|
            0 <= i < j < r.len() ==> roster_entries_apart(#[trigger] r[i], #[trigger] r[j])
        &&& exists|i: int|
            0 <= i < r.len() && (#[trigger] r[i]).authorization_id == uuid_text(
                access.authorization_id,
            )
        &&& forall|i: int| 0 <= i < r.len() ==> (#[trigger] r[i]).participant_slot <= r.len()
    }
}

/// The roster entry speaks of the same participant, in the same slot.
pub open spec fn roster_matches(e: RosterView, p: ParticipantView) -> bool {
    &&& e.participant_slot == p.participant_slot
    &&& e.authorization_id == p.authorization_id
    &&& e.subject_user_id == p.subject_user_id
    &&& e.agent_id == p.agent_id
    &&& e.role == p.role
}

pub open spec fn participant_ok(p: ParticipantView, roster: Seq<RosterView>) -> bool {
    &&& p.last_action_sequence <= JSON_SAFE_U64_MAX
    &&& (p.acknowledgement_reference_hash matches Some(h) ==> is_digest_text(h))
    &&& exists|k: int| 0 <= k < roster.len() && roster_matches(#[trigger] roster[k], p)
}

impl ArchiveView {
    /// The participants: one per slot, each bounded and matching its roster entry.
    pub open spec fn participants_valid(self) -> bool {
        let p = self.participants;
        &&& forall|i: int| 0 <= i < p.len() ==> participant_ok(#[trigger] p[i], self.roster)
        &&& forall|i: int, j: int|
            0 <= i < j < p.len() ==> (#[trigger] p[i]).participant_slot != (
            #[trigger] p[j]).participant_slot
    }
}

/// An event's own fields, as the `index`-th event of the page `a` of the
/// Paper `paper_id`: the next sequence, bounded versions, a known type, and
/// well-formed identifiers, texts, payload and digests. The completion event
/// comes only from the session itself (slot 0), last, on a completed
/// session's final page; every other event has a participant slot.
pub open spec fn event_ok(a: ArchiveView, e: EventView, index: int, paper_id: u128) -> bool {
    &&& e.schema == "trnm.research-session.event.v1"@
    &&& e.session_id == a.logical_session_id
    &&& e.sequence == a.after_sequence + 1 + index
    &&& e.sequence <= JSON_SAFE_U64_MAX
    &&& 0 < e.roster_version <= a.roster_version
    &&& 0 < e.session_version <= a.session_version
    &&& e.session_version == e.sequence + 1
    &&& e.occurred_at_unix >= 0
    &&& e.participant_slot <= 5
    &&& event_fields_ok(e)
    &&& e.paper_project_id == uuid_text(paper_id)
    &&& (e.event_type == "research_session_completed"@ ==> e.participant_slot == 0 && index + 1
        == a.events.len() && !a.has_more && a.status == "completed"@)
    &&& (e.event_type != "research_session_completed"@ ==> e.participant_slot != 0)
}

/// An event's identifiers, type, texts, payload and digests are well-formed.
pub open spec fn event_fields_ok(e: EventView) -> bool {
    &&& is_digest_text(e.event_id)
    &&& is_canonical_uuid_text(e.team_id)
    &&& is_canonical_uuid_text(e.paper_project_id)
    &&& is_canonical_uuid_text(e.challenge_id)
    &&& is_event_type(e.event_type)
    &&& is_valid_text(e.causation_id, 512)
    &&& is_valid_text(e.action_type, 512)
    &&& is_valid_text(e.payload_type, 512)
    &&& is_base64_payload(e.payload)
    &&& is_digest_text(e.payload_hash)
    &&& is_digest_text(e.reference_hash)
    &&& is_digest_text(e.event_hash)
}

/// Two events of one team, Paper and challenge.
pub open spec fn same_identity(a: EventView, b: EventView) -> bool {
    a.team_id == b.team_id && a.paper_project_id == b.paper_project_id && a.challenge_id
        == b.challenge_id
}

impl ArchiveView {
    /// The events: each well-formed in its place, each of the same team,
    /// Paper and challenge as the one before, never earlier in time, and no
    /// event id or event hash twice.
    pub open spec fn events_valid(self, paper_id: u128) -> bool {
        let e = self.events;
        &&& forall|i: int| 0 <= i < e.len() ==> event_ok(self, #[trigger] e[i], i, paper_id)
        &&& forall|i: int| 0 < i < e.len() ==> same_identity(e[i - 1], #[trigger] e[i])
        &&& forall|i: int| 0 < i < e.len() ==> e[i - 1].occurred_at_unix <= (
        #[trigger] e[i]).occurred_at_unix
        &&& forall|i: int, j: int|
            0 <= i < j < e.len() ==> (#[trigger] e[i]).event_id != (#[trigger] e[j]).event_id
                && e[i].event_hash != e[j].event_hash
    }

    /// The cursor: the next cursor is the last returned sequence (or the
    /// requested one on an empty page), within the event count; there is
    /// more exactly when the cursor is short of the count, and a page that
    /// says so is full.
    pub open spec fn tail_valid(self) -> bool {
        let e = self.events;
        let last = if e.len() > 0 {
            e.last().sequence
        } else {
            self.after_sequence
        };
        &&& self.next_after_sequence == last
        &&& self.event_count >= self.next_after_sequence
        &&& self.has_more == (self.next_after_sequence < self.event_count)
        &&& !(self.has_more && e.len() == 0)
        &&& !(self.has_more && e.len() != NAKAMA_ARCHIVE_PAGE_LIMIT)
    }

    /// The page is an acceptable answer to the player's request.
    pub open spec fn valid(self, access: MemberSessionAccess, paper_id: u128, after: u64) -> bool {
        &&& self.header_valid(access, after)
        &&& self.roster_valid(access)
        &&& self.participants_valid()
        &&& self.events_valid(paper_id)
        &&& self.tail_valid()
    }
}

impl ResearchArchiveResponse {
    fn check_header(&self, access: &MemberSessionAccess, after: u64) -> (r: bool)
        ensures
            r == self@.header_valid(*access, after),
    {
        let external_ok = match &self.external_match_id {
            Some(m) => valid_text(m.as_str(), 512),
            None => true,
        };
        str_eq(self.schema.as_str(), "trnm.nakama.research-session.archive.v1") && str_eq(
            self.logical_session_id.as_str(),
            access.logical_session_id.as_str(),
        ) && self.roster_version == access.roster_version && self.after_sequence == after
            && self.runtime_generation != 0 && self.runtime_generation <= JSON_SAFE_U64_MAX
            && self.session_version != 0 && self.session_version <= JSON_SAFE_U64_MAX
            && self.roster_version != 0 && self.roster_version <= JSON_SAFE_U64_MAX
            && self.event_count <= JSON_SAFE_U64_MAX && self.session_version
            == self.event_count + 1 && self.after_sequence <= JSON_SAFE_U64_MAX
            && self.next_after_sequence <= JSON_SAFE_U64_MAX && self.next_after_sequence
            >= self.after_sequence && valid_digest_label(self.roster_root.as_str())
            && archive_status(self.status.as_str()) && external_ok && 3 <= self.roster.len()
            && self.roster.len() <= 5 && self.participants.len() == self.roster.len()
            && self.events.len() <= NAKAMA_ARCHIVE_PAGE_LIMIT as usize
    }
}

fn roster_entry_check(e: &ResearchRosterEntry) -> (r: bool)
    ensures
        r == roster_entry_ok(e@),
{
    1 <= e.participant_slot && e.participant_slot <= 5 && valid_uuid(e.authorization_id.as_str())
        && valid_uuid(e.subject_user_id.as_str()) && valid_text(e.agent_id.as_str(), 512)
        && valid_text(e.agent_did.as_str(), 512) && valid_text(e.agent_key_id.as_str(), 512)
        && valid_digest_label(e.agent_key_hash.as_str()) && valid_text(e.role.as_str(), 512)
}

fn roster_apart(a: &ResearchRosterEntry, b: &ResearchRosterEntry) -> (r: bool)
    ensures
        r == roster_entries_apart(a@, b@),
{
    a.participant_slot != b.participant_slot && !str_eq(
        a.authorization_id.as_str(),
        b.authorization_id.as_str(),
    ) && !str_eq(a.subject_user_id.as_str(), b.subject_user_id.as_str()) && !str_eq(
        a.agent_id.as_str(),
        b.agent_id.as_str(),
    ) && !str_eq(a.agent_did.as_str(), b.agent_did.as_str()) && !str_eq(
        a.agent_key_id.as_str(),
        b.agent_key_id.as_str(),
    ) && !str_eq(a.agent_key_hash.as_str(), b.agent_key_hash.as_str())
}

impl ResearchArchiveResponse {
    fn check_roster(&self, access: &MemberSessionAccess) -> (r: bool)
        ensures
            r == self@.roster_valid(*access),
    {
        let r = &self.roster;
        let ghost rv = self@.roster;
        let player = crate::text::string_from_chars(&uuid_chars(access.authorization_id));
        let mut present = false;
        let mut i: usize = 0;
        while i < r.len()
            invariant
                r@ == self.roster@,
                rv == self@.roster,
                rv.len() == r@.len(),
                forall|k: int| 0 <= k < r@.len() ==> #[trigger] rv[k] == r@[k]@,
                player@ == uuid_text(access.authorization_id),
                i <= r@.len(),
                forall|k: int| 0 <= k < i ==> roster_entry_ok(#[trigger] rv[k]),
                forall|k: int, l: int|
                    0 <= k < l < i ==> roster_entries_apart(#[trigger] rv[k], #[trigger] rv[l]),
                present == exists|k: int| 0 <= k < i && (#[trigger] rv[k]).authorization_id == player@,
            decreases r.len() - i,
        {
            assert(rv[i as int] == r@[i as int]@);
            if !roster_entry_check(&r[i]) {
                return false;
            }
            let mut j: usize = 0;
            while j < i
                invariant
                    r@ == self.roster@,
                    rv == self@.roster,
                    rv.len() == r@.len(),
                    forall|k: int| 0 <= k < r@.len() ==> #[trigger] rv[k] == r@[k]@,
                    i < r@.len(),
                    j <= i,
                    forall|k: int| 0 <= k < j ==> roster_entries_apart(#[trigger] rv[k], rv[i as int]),
                decreases i - j,
            {
                assert(rv[j as int] == r@[j as int]@);
                if !roster_apart(&r[j], &r[i]) {
                    assert(!self@.roster_valid(*access)) by {
                        if self@.roster_valid(*access) {
                            assert(roster_entries_apart(rv[j as int], rv[i as int]));
                        }
                    }
                    return false;
                }
                j = j + 1;
            }
            if str_eq(r[i].authorization_id.as_str(), player.as_str()) {
                present = true;
            }
            i = i + 1;
        }
        if !present {
            return false;
        }
        let n = r.len();
        let mut k: usize = 0;
        while k < n
            invariant
                r@ == self.roster@,
                rv == self@.roster,
                rv.len() == r@.len(),
                forall|q: int| 0 <= q < r@.len() ==> #[trigger] rv[q] == r@[q]@,
                n == r@.len(),
                k <= n,
                forall|q: int| 0 <= q < k ==> (#[trigger] rv[q]).participant_slot <= n,
            decreases n - k,
        {
            assert(rv[k as int] == r@[k as int]@);
            if r[k].participant_slot > n as u64 {
                return false;
            }
            k = k + 1;
        }
        true
    }

    fn check_participants(&self) -> (r: bool)
        ensures
            r == self@.participants_valid(),
    {
        let p = &self.participants;
        let r = &self.roster;
        let ghost pv = self@.participants;
        let ghost rv = self@.roster;
        let mut i: usize = 0;
        while i < p.len()
            invariant
                p@ == self.participants@,
                r@ == self.roster@,
                pv == self@.participants,
                rv == self@.roster,
                pv.len() == p@.len(),
                rv.len() == r@.len(),
                forall|k: int| 0 <= k < p@.len() ==> #[trigger] pv[k] == p@[k]@,
                forall|k: int| 0 <= k < r@.len() ==> #[trigger] rv[k] == r@[k]@,
                i <= p@.len(),
                forall|k: int| 0 <= k < i ==> participant_ok(#[trigger] pv[k], rv),
                forall|k: int, l: int|
                    0 <= k < l < i ==> (#[trigger] pv[k]).participant_slot != (
                    #[trigger] pv[l]).participant_slot,
            decreases p.len() - i,
        {
            assert(pv[i as int] == p@[i as int]@);
            let mut j: usize = 0;
            while j < i
                invariant
                    p@ == self.participants@,
                    pv == self@.participants,
                    pv.len() == p@.len(),
                    forall|k: int| 0 <= k < p@.len() ==> #[trigger] pv[k] == p@[k]@,
                    i < p@.len(),
                    j <= i,
                    forall|k: int| 0 <= k < j ==> (#[trigger] pv[k]).participant_slot
                        != pv[i as int].participant_slot,
                decreases i - j,
            {
                assert(pv[j as int] == p@[j as int]@);
                if p[j].participant_slot == p[i].participant_slot {
                    assert(!self@.participants_valid()) by {
                        if self@.participants_valid() {
                            assert(pv[j as int].participant_slot != pv[i as int].participant_slot);
                        }
                    }
                    return false;
                }
                j = j + 1;
            }
            let q = &p[i];
            if q.last_action_sequence > JSON_SAFE_U64_MAX {
                return false;
            }
            match &q.acknowledgement_reference_hash {
                Some(h) => if !valid_digest_label(h.as_str()) {
                    return false;
                },
                None => {},
            }
            let mut found = false;
            let mut k: usize = 0;
            while k < r.len()
                invariant
                    r@ == self.roster@,
                    rv == self@.roster,
                    rv.len() == r@.len(),
                    forall|m: int| 0 <= m < r@.len() ==> #[trigger] rv[m] == r@[m]@,
                    q@ == pv[i as int],
                    k <= r@.len(),
                    found == exists|m: int| 0 <= m < k && roster_matches(#[trigger] rv[m], q@),
                decreases r.len() - k,
            {
                assert(rv[k as int] == r@[k as int]@);
                let e = &r[k];
                if e.participant_slot == q.participant_slot && str_eq(
                    e.authorization_id.as_str(),
                    q.authorization_id.as_str(),
                ) && str_eq(e.subject_user_id.as_str(), q.subject_user_id.as_str()) && str_eq(
                    e.agent_id.as_str(),
                    q.agent_id.as_str(),
                ) && str_eq(e.role.as_str(), q.role.as_str()) {
                    found = true;
                }
                k = k + 1;
            }
            if !found {
                return false;
            }
            i = i + 1;
        }
        true
    }
}

fn event_fields_check(e: &ResearchArchiveEvent) -> (r: bool)
    ensures
        r == event_fields_ok(e@),
{
    valid_digest_label(e.event_id.as_str()) && valid_uuid(e.team_id.as_str()) && valid_uuid(
        e.paper_project_id.as_str(),
    ) && valid_uuid(e.challenge_id.as_str()) && event_type(e.event_type.as_str()) && valid_text(
        e.causation_id.as_str(),
        512,
    ) && valid_text(e.action_type.as_str(), 512) && valid_text(e.payload_type.as_str(), 512)
        && valid_base64_payload(e.payload.as_str()) && valid_digest_label(
        e.payload_hash.as_str(),
    ) && valid_digest_label(e.reference_hash.as_str()) && valid_digest_label(
        e.event_hash.as_str(),
    )
}

/// No event before the `i`-th has its id or its hash.
fn fresh_event(ev: &Vec<ResearchArchiveEvent>, i: usize) -> (r: bool)
    requires
        i < ev@.len(),
    ensures
        r == forall|k: int| 0 <= k < i ==> (#[trigger] ev@[k])@.event_id != ev@[i as int]@.event_id
            && ev@[k]@.event_hash != ev@[i as int]@.event_hash,
{
    let mut j: usize = 0;
    while j < i
        invariant
            i < ev@.len(),
            j <= i,
            forall|k: int| 0 <= k < j ==> (#[trigger] ev@[k])@.event_id != ev@[i as int]@.event_id
                && ev@[k]@.event_hash != ev@[i as int]@.event_hash,
        decreases i - j,
    {
        if str_eq(ev[j].event_id.as_str(), ev[i].event_id.as_str()) || str_eq(
            ev[j].event_hash.as_str(),
            ev[i].event_hash.as_str(),
        ) {
            return false;
        }
        j = j + 1;
    }
    true
}

impl ResearchArchiveResponse {
    fn check_event(
        &self,
        e: &ResearchArchiveEvent,
        index: usize,
        expected: u64,
        paper_id: u128,
        paper_text: &str,
    ) -> (r: bool)
        requires
            index < self.events@.len(),
            expected == self.after_sequence + 1 + index,
            paper_text@ == uuid_text(paper_id),
        ensures
            r == event_ok(self@, e@, index as int, paper_id),
    {
        let completed = str_eq(e.event_type.as_str(), "research_session_completed");
        let completion_ok = if completed {
            e.participant_slot == 0 && index == self.events.len() - 1 && !self.has_more && str_eq(
                self.status.as_str(),
                "completed",
            )
        } else {
            e.participant_slot != 0
        };
        str_eq(e.schema.as_str(), "trnm.research-session.event.v1") && str_eq(
            e.session_id.as_str(),
            self.logical_session_id.as_str(),
        ) && e.sequence == expected && e.sequence <= JSON_SAFE_U64_MAX && e.roster_version != 0
            && e.roster_version <= self.roster_version && e.session_version != 0
            && e.session_version <= self.session_version && e.sequence < u64::MAX
            && e.session_version == e.sequence + 1 && e.occurred_at_unix >= 0
            && e.participant_slot <= 5 && event_fields_check(e) && str_eq(
            e.paper_project_id.as_str(),
            paper_text,
        ) && completion_ok
    }

    #[verifier::spinoff_prover]
    #[verifier::rlimit(40)]
    fn check_events(&self, paper_id: u128) -> (r: bool)
        requires
            self.after_sequence <= JSON_SAFE_U64_MAX,
            self.events@.len() <= NAKAMA_ARCHIVE_PAGE_LIMIT,
        ensures
            r == self@.events_valid(paper_id),
    {
        let ev = &self.events;
        let ghost av = self@;
        let ghost vv = av.events;
        let paper_text = crate::text::string_from_chars(&uuid_chars(paper_id));
        let mut expected: u64 = self.after_sequence + 1;
        let mut i: usize = 0;
        while i < ev.len()
            invariant
                ev@ == self.events@,
                vv == av.events,
                av == self@,
                vv.len() == ev@.len(),
                forall|k: int| 0 <= k < ev@.len() ==> #[trigger] vv[k] == ev@[k]@,
                self.after_sequence <= JSON_SAFE_U64_MAX,
                ev@.len() <= NAKAMA_ARCHIVE_PAGE_LIMIT,
                paper_text@ == uuid_text(paper_id),
                i <= ev@.len(),
                expected == self.after_sequence + 1 + i,
                forall|k: int| 0 <= k < i ==> event_ok(av, #[trigger] vv[k], k, paper_id),
                forall|k: int| 0 < k < i ==> same_identity(vv[k - 1], #[trigger] vv[k]),
                forall|k: int| 0 < k < i ==> vv[k - 1].occurred_at_unix <= (
                #[trigger] vv[k]).occurred_at_unix,
                forall|k: int, l: int|
                    0 <= k < l < i ==> (#[trigger] vv[k]).event_id != (#[trigger] vv[l]).event_id
                        && vv[k].event_hash != vv[l].event_hash,
            decreases ev.len() - i,
        {
            assert(vv[i as int] == ev@[i as int]@);
            let e = &ev[i];
            if !self.check_event(e, i, expected, paper_id, paper_text.as_str()) {
                return false;
            }
            if i > 0 {
                assert(vv[i - 1] == ev@[i - 1]@);
                let prev = &ev[i - 1];
                if !(str_eq(prev.team_id.as_str(), e.team_id.as_str()) && str_eq(
                    prev.paper_project_id.as_str(),
                    e.paper_project_id.as_str(),
                ) && str_eq(prev.challenge_id.as_str(), e.challenge_id.as_str())) {
                    return false;
                }
                if e.occurred_at_unix < prev.occurred_at_unix {
                    return false;
                }
            }
            if !fresh_event(ev, i) {
                assert(!av.events_valid(paper_id)) by {
                    let j = choose|j: int| 0 <= j < i && !(ev@[j]@.event_id != ev@[i as int]@.event_id
                        && ev@[j]@.event_hash != ev@[i as int]@.event_hash);
                    assert(vv[j] == ev@[j]@);
                    if av.events_valid(paper_id) {
                        assert(vv[j].event_id != vv[i as int].event_id);
                    }
                }
                return false;
            }
            expected = expected + 1;
            i = i + 1;
        }
        true
    }

    fn check_tail(&self) -> (r: bool)
        ensures
            r == self@.tail_valid(),
    {
        let n = self.events.len();
        let last = if n > 0 {
            self.events[n - 1].sequence
        } else {
            self.after_sequence
        };
        proof {
            if n > 0 {
                assert(self@.events.last() == self.events@[n - 1]@);
            }
        }
        self.next_after_sequence == last && self.event_count >= self.next_after_sequence
            && self.has_more == (self.next_after_sequence < self.event_count) && !(self.has_more
            && n == 0) && !(self.has_more && n != NAKAMA_ARCHIVE_PAGE_LIMIT as usize)
    }

    /// Whether the page is an acceptable answer to the player's request.
    pub fn validate(&self, access: &MemberSessionAccess, paper_id: u128, after: u64) -> (r: bool)
        ensures
            r == self@.valid(*access, paper_id, after),
    {
        if !self.check_header(access, after) {
            return false;
        }
        self.check_roster(access) && self.check_participants() && self.check_events(paper_id)
            && self.check_tail()
    }
}

/// Checks a research-session archive page that the Nakama runtime returned
/// for the player's authorization `access` on the Paper `paper_id`, asked
/// from the cursor `requested_after_sequence`: it must read as a page, write
/// out no null it may only omit, and be valid for the request. Any refusal
/// is an upstream protocol failure.
pub fn validate_archive_response(
    value: &JsonValue,
    access: &MemberSessionAccess,
    paper_id: u128,
    requested_after_sequence: u64,
) -> (r: Result<(), AppError>)
    ensures
        r is Ok <==> (archive_reads(*value) && !explicit_null(*value) && archive_view_of(
            *value,
        ).valid(*access, paper_id, requested_after_sequence)),
        r is Err ==> r == Err::<(), AppError>(AppError::Upstream),
{
    let archive = match read_archive(value) {
        Some(a) => a,
        None => return Err(AppError::Upstream),
    };
    proof {
        lemma_archive_view(*value, archive);
    }
    if has_explicit_null(value) {
        return Err(AppError::Upstream);
    }
    if !archive.validate(access, paper_id, requested_after_sequence) {
        return Err(AppError::Upstream);
    }
    Ok(())
}

pub const BASE_PATH_REFUSED: &'static str = "Nakama base URL must not contain a path";
pub const HTTP_KEY_REFUSED: &'static str = "Nakama HTTP key length is invalid";

/// Why a Nakama archive client cannot be made: a base URL with a path, or
/// an HTTP key outside 8..=256 bytes.
pub open spec fn client_settings_error_of(base_path: Seq<char>, http_key: Seq<char>) -> Option<&'static str> {
    if base_path != "/"@ && base_path.len() != 0 {
        Some(BASE_PATH_REFUSED)
    } else if vstd::utf8::encode_utf8(http_key).len() < 8 || vstd::utf8::encode_utf8(http_key).len() > 256 {
        Some(HTTP_KEY_REFUSED)
    } else {
        None
    }
}

pub fn client_settings_error(base_path: &str, http_key: &str) -> (r: Option<&'static str>)
    ensures
        r == client_settings_error_of(base_path@, http_key@),
{
    if !str_eq(base_path, "/") && !base_path.is_empty() {
        return Some(BASE_PATH_REFUSED);
    }
    let n = http_key.as_bytes().len();
    if n < 8 || n > 256 {
        return Some(HTTP_KEY_REFUSED);
    }
    None
}

/// An accepted page moves the cursor by exactly the events it returns, each
/// carrying the next sequence, and a page that announces more is full; so
/// asking again from its cursor continues the run without gap or overlap.
pub proof fn lemma_accepted_page_advances_cursor(
    page: ArchiveView,
    access: MemberSessionAccess,
    paper_id: u128,
    after: u64,
)
    requires
        page.valid(access, paper_id, after),
    ensures
        page.next_after_sequence == after + page.events.len(),
        forall|i: int| 0 <= i < page.events.len() ==> #[trigger] page.events[i].sequence == after + 1 + i,
        page.has_more ==> page.events.len() == NAKAMA_ARCHIVE_PAGE_LIMIT,
        page.next_after_sequence <= page.event_count,
{
    if page.events.len() > 0 {
        let last = page.events.len() - 1;
        assert(event_ok(page, page.events[last], last, paper_id));
    }
    assert forall|i: int| 0 <= i < page.events.len() implies #[trigger] page.events[i].sequence
        == after + 1 + i by {
        assert(event_ok(page, page.events[i], i, paper_id));
    }
}

} // verus!

verus! {

/// What an answer of the Nakama archive RPC means before its body is read:
/// a redirect or a content type that is not strictly JSON is an upstream
/// fault, 401 and 403 refuse the caller, any other status outside 2xx makes
/// Nakama unavailable.
pub open spec fn archive_answer_ok(
    redirect: bool,
    content_type: Option<&str>,
    status: u16,
    r: Result<(), AppError>,
) -> bool {
    if redirect || !crate::hepta::is_strict_json(content_type) {
        r == Err::<(), AppError>(AppError::Upstream)
    } else if status == 401 || status == 403 {
        r == Err::<(), AppError>(AppError::Forbidden)
    } else if !(200 <= status <= 299) {
        r matches Err(AppError::Unavailable(w)) && w@ == "nakama"@
    } else {
        r is Ok
    }
}

/// The classification of an archive RPC answer (see `archive_answer_ok`).
pub fn classify_archive_answer(redirect: bool, content_type: Option<&str>, status: u16) -> (r:
    Result<(), AppError>)
    ensures
        archive_answer_ok(redirect, content_type, status, r),
{
    if redirect || !crate::hepta::strict_json(content_type) {
        return Err(AppError::Upstream);
    }
    if status == 401 || status == 403 {
        return Err(AppError::Forbidden);
    }
    if status < 200 || status > 299 {
        return Err(AppError::Unavailable("nakama"));
    }
    Ok(())
}

} // verus!
