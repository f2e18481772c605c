//! The review assignments of a Paper's review state, checked against the
//! raw records they were read from, the finalized evaluations and the open
//! or expired evaluation drafts: every record canonical, every lifecycle
//! exact, no slot or player held twice at once, and every evaluation backed
//! by exactly its consumed panel.

use vstd::prelude::*;
use crate::json::{field_text, opt_text_view, JsonValue};
use crate::text::{str_eq, uuid_chars, uuid_text};

verus! {

/// A point in time: whole seconds since the Unix epoch and the nanoseconds
/// within the second.
#[derive(Debug, Clone, Copy, PartialEq, Eq, Structural)]
pub struct Moment {
    pub secs: i64,
    pub nanos: u32,
}

pub open spec fn moment_lt(a: Moment, b: Moment) -> bool {
    a.secs < b.secs || (a.secs == b.secs && a.nanos < b.nanos)
}

pub open spec fn moment_le(a: Moment, b: Moment) -> bool {
    moment_lt(a, b) || a == b
}

pub fn earlier(a: Moment, b: Moment) -> (r: bool)
    ensures
        r == moment_lt(a, b),
{
    a.secs < b.secs || (a.secs == b.secs && a.nanos < b.nanos)
}

pub fn same_moment(a: Moment, b: Moment) -> (r: bool)
    ensures
        r == (a == b),
{
    a.secs == b.secs && a.nanos == b.nanos
}

/// The RFC 3339 text chrono writes for a UTC time (`to_rfc3339_opts` with
/// automatic fractional digits and a `Z` suffix), if chrono holds that time.
pub uninterp spec fn rfc3339_of(secs: i64, nanos: u32) -> Option<Seq<char>>;

/// `chrono::DateTime::<Utc>::from_timestamp` followed by
/// `to_rfc3339_opts(SecondsFormat::AutoSi, true)`: the canonical text of the
/// time, or `None` where chrono has no such time.
#[verifier::external_body]
fn rfc3339(secs: i64, nanos: u32) -> (r: Option<String>)
    ensures
        opt_text_view(r) == rfc3339_of(secs, nanos),
{
    match chrono::DateTime::<chrono::Utc>::from_timestamp(secs, nanos) {
        Some(t) => Some(t.to_rfc3339_opts(chrono::SecondsFormat::AutoSi, true)),
        None => None,
    }
}

/// The record holds `expected`, a non-nil UUID, as its canonical text.
pub open spec fn sealed_uuid(record: JsonValue, field: Seq<char>, expected: u128) -> bool {
    expected != 0 && field_text(record, field) == Some(uuid_text(expected))
}

/// The record holds null where `expected` is none, and the canonical text
/// of a non-nil UUID where it is one.
pub open spec fn sealed_optional_uuid(record: JsonValue, field: Seq<char>, expected: Option<u128>) -> bool {
    match (record.spec_get(field), expected) {
        (Some(JsonValue::Null), None) => true,
        (Some(JsonValue::String(v)), Some(e)) => e != 0 && v@ == uuid_text(e),
        _ => false,
    }
}

/// The record holds the canonical RFC 3339 text of `expected`.
pub open spec fn sealed_timestamp(record: JsonValue, field: Seq<char>, expected: Moment) -> bool {
    field_text(record, field) matches Some(t) && rfc3339_of(expected.secs, expected.nanos) == Some(t)
}

pub fn sealed_uuid_check(record: &JsonValue, field: &str, expected: u128) -> (r: bool)
    ensures
        r == sealed_uuid(*record, field@, expected),
{
    if expected == 0 {
        return false;
    }
    match record.get(field) {
        Some(JsonValue::String(v)) => crate::text::chars_eq_str(&uuid_chars(expected), v.as_str()),
        _ => false,
    }
}

pub fn sealed_optional_uuid_check(record: &JsonValue, field: &str, expected: Option<u128>) -> (r: bool)
    ensures
        r == sealed_optional_uuid(*record, field@, expected),
{
    match (record.get(field), expected) {
        (Some(JsonValue::Null), None) => true,
        (Some(JsonValue::String(v)), Some(e)) => e != 0 && crate::text::chars_eq_str(
            &uuid_chars(e),
            v.as_str(),
        ),
        _ => false,
    }
}

pub fn sealed_timestamp_check(record: &JsonValue, field: &str, expected: Moment) -> (r: bool)
    ensures
        r == sealed_timestamp(*record, field@, expected),
{
    match record.get(field) {
        Some(JsonValue::String(v)) => match rfc3339(expected.secs, expected.nanos) {
            Some(t) => str_eq(t.as_str(), v.as_str()),
            None => false,
        },
        _ => false,
    }
}

/// The slot an assignment holds on a review panel.
#[derive(Debug, Clone, Copy, PartialEq, Eq, Structural)]
pub enum ReviewSlot {
    Evaluator,
    Reviewer1,
    Reviewer2,
    Reproducer,
}

impl ReviewSlot {
    pub open spec fn spec_rank(self) -> u8 {
        match self {
            ReviewSlot::Evaluator => 0,
            ReviewSlot::Reviewer1 => 1,
            ReviewSlot::Reviewer2 => 2,
            ReviewSlot::Reproducer => 3,
        }
    }

    /// The slot's place in the panel order.
    pub fn rank(self) -> (r: u8)
        ensures
            r == self.spec_rank(),
    {
        match self {
            ReviewSlot::Evaluator => 0,
            ReviewSlot::Reviewer1 => 1,
            ReviewSlot::Reviewer2 => 2,
            ReviewSlot::Reproducer => 3,
        }
    }
}

/// Where an assignment is in its lifecycle.
#[derive(Debug, Clone, Copy, PartialEq, Eq, Structural)]
pub enum AssignmentStatus {
    Claimed,
    Pinned,
    Consumed,
    Expired,
}

/// Where an evaluation draft is in its lifecycle.
#[derive(Debug, Clone, Copy, PartialEq, Eq, Structural)]
pub enum DraftStatus {
    Open,
    Finalized,
    Expired,
}

/// A review assignment as read from the review state.
#[derive(Debug)]
pub struct SealedReviewAssignment {
    pub schema: String,
    pub assignment_id: u128,
    pub paper_project_id: u128,
    pub submission_id: u128,
    pub player_id: u128,
    pub review_round: u64,
    pub slot: ReviewSlot,
    pub pinned_evaluation_id: Option<u128>,
    pub status: AssignmentStatus,
    pub version: u64,
    pub claimed_at: Moment,
    pub expires_at: Moment,
    pub updated_at: Moment,
}

/// What a finalized evaluation fixes for the assignments that produced it.
#[derive(Debug, Clone, Copy, PartialEq, Eq)]
pub struct EvaluationLink {
    pub evaluation_id: u128,
    pub submission_id: u128,
    pub version: u64,
    pub evaluator_player_id: u128,
    pub reviewer_player_ids: (u128, u128),
    pub created_at: Moment,
}

/// What an open or expired evaluation draft fixes for the assignments pinned to it.
#[derive(Debug, Clone, Copy, PartialEq, Eq)]
pub struct DraftLink {
    pub evaluation_id: u128,
    pub submission_id: u128,
    pub review_round: u64,
    pub evaluator_player_id: u128,
    pub status: DraftStatus,
    pub created_at: Moment,
    pub expires_at: Moment,
    pub updated_at: Moment,
}

/// The version, pin and times each status requires.
pub open spec fn lifecycle_valid(a: SealedReviewAssignment) -> bool {
    match a.status {
        AssignmentStatus::Claimed => a.version == 1 && a.pinned_evaluation_id is None
            && a.updated_at == a.claimed_at,
        AssignmentStatus::Pinned => a.version == 2 && a.pinned_evaluation_id is Some && moment_lt(
            a.updated_at,
            a.expires_at,
        ),
        AssignmentStatus::Consumed => a.version == 3 && a.pinned_evaluation_id is Some,
        AssignmentStatus::Expired => match a.pinned_evaluation_id {
            None => a.version == 2 && moment_le(a.expires_at, a.updated_at),
            Some(_) => a.version == 3,
        },
    }
}

/// An assignment on its own, against the raw record it was read from: the
/// record has exactly its thirteen members and holds every id and time in
/// canonical form; the assignment is of this Paper, in a real round, with
/// its times in order and its lifecycle exact; a reproducer is never pinned.
pub open spec fn assignment_ok(raw: JsonValue, a: SealedReviewAssignment, paper_id: u128) -> bool {
    &&& raw matches JsonValue::Object(members) && members@.len() == 13
    &&& a.schema@ == "hepta.paper_raid.review_assignment.v1"@
    &&& a.paper_project_id == paper_id
    &&& a.review_round != 0
    &&& moment_lt(a.claimed_at, a.expires_at)
    &&& moment_le(a.claimed_at, a.updated_at)
    &&& sealed_uuid(raw, "assignment_id"@, a.assignment_id)
    &&& sealed_uuid(raw, "paper_project_id"@, a.paper_project_id)
    &&& sealed_uuid(raw, "submission_id"@, a.submission_id)
    &&& sealed_uuid(raw, "player_id"@, a.player_id)
    &&& sealed_optional_uuid(raw, "pinned_evaluation_id"@, a.pinned_evaluation_id)
    &&& sealed_timestamp(raw, "claimed_at"@, a.claimed_at)
    &&& sealed_timestamp(raw, "expires_at"@, a.expires_at)
    &&& sealed_timestamp(raw, "updated_at"@, a.updated_at)
    &&& lifecycle_valid(a)
    &&& !(a.pinned_evaluation_id is Some && a.slot == ReviewSlot::Reproducer)
}

/// Assignments sort by round, then slot, then id.
pub open spec fn assignment_before(a: SealedReviewAssignment, b: SealedReviewAssignment) -> bool {
    a.review_round < b.review_round || (a.review_round == b.review_round && (a.slot.spec_rank()
        < b.slot.spec_rank() || (a.slot.spec_rank() == b.slot.spec_rank() && a.assignment_id
        < b.assignment_id)))
}

/// A claimed or pinned assignment holds its slot and its player's place in the round.
pub open spec fn is_live(a: SealedReviewAssignment) -> bool {
    a.status == AssignmentStatus::Claimed || a.status == AssignmentStatus::Pinned
}

/// Two live assignments of one round share neither slot nor player.
pub open spec fn live_apart(a: SealedReviewAssignment, b: SealedReviewAssignment) -> bool {
    (is_live(a) && is_live(b) && a.review_round == b.review_round) ==> (a.slot != b.slot
        && a.player_id != b.player_id)
}

/// A consumed assignment matches the evaluation it produced.
pub open spec fn consumed_link_ok(a: SealedReviewAssignment, e: EvaluationLink) -> bool {
    a.submission_id == e.submission_id && a.review_round == e.version && a.updated_at
        == e.created_at
}

/// A pinned or expired assignment matches the draft it is pinned to: the
/// draft's state follows the assignment's, the round and submission agree,
/// the claim came before the draft expired (and, for its evaluator, before
/// the draft was made), a pin lies within the draft's life, an expiry
/// matches the draft's, and the evaluator slot holds the draft's evaluator.
pub open spec fn draft_link_ok(a: SealedReviewAssignment, d: DraftLink) -> bool {
    &&& (a.status == AssignmentStatus::Pinned ==> d.status == DraftStatus::Open)
    &&& (a.status == AssignmentStatus::Expired ==> d.status == DraftStatus::Expired)
    &&& (a.status == AssignmentStatus::Pinned || a.status == AssignmentStatus::Expired)
    &&& a.submission_id == d.submission_id
    &&& a.review_round == d.review_round
    &&& moment_lt(a.claimed_at, d.expires_at)
    &&& !(a.slot == ReviewSlot::Evaluator && moment_lt(d.created_at, a.claimed_at))
    &&& (a.status == AssignmentStatus::Pinned ==> moment_le(d.created_at, a.updated_at)
        && moment_lt(a.updated_at, d.expires_at))
    &&& (a.status == AssignmentStatus::Expired ==> a.updated_at == d.updated_at)
    &&& (a.slot == ReviewSlot::Evaluator ==> a.player_id == d.evaluator_player_id)
}

/// A pinned assignment's link: a consumed one to a finalized evaluation, any
/// other to an open or expired draft.
pub open spec fn pin_ok(
    a: SealedReviewAssignment,
    evaluations: Seq<EvaluationLink>,
    drafts: Seq<DraftLink>,
) -> bool {
    match a.pinned_evaluation_id {
        None => true,
        Some(id) => if a.status == AssignmentStatus::Consumed {
            exists|k: int|
                0 <= k < evaluations.len() && (#[trigger] evaluations[k]).evaluation_id == id
                    && consumed_link_ok(a, evaluations[k])
        } else {
            exists|k: int|
                0 <= k < drafts.len() && (#[trigger] drafts[k]).evaluation_id == id && draft_link_ok(
                    a,
                    drafts[k],
                )
        },
    }
}

/// How many of the first `n` assignments are the evaluator pinned to the draft `id`.
pub open spec fn draft_evaluator_count(a: Seq<SealedReviewAssignment>, id: u128, n: int) -> nat
    decreases n,
{
    if n <= 0 {
        0
    } else {
        draft_evaluator_count(a, id, n - 1) + if a[n - 1].pinned_evaluation_id == Some(id)
            && a[n - 1].status != AssignmentStatus::Consumed && a[n - 1].slot
            == ReviewSlot::Evaluator {
            1nat
        } else {
            0nat
        }
    }
}

/// The assignment is on the consumed panel of the evaluation `id`.
pub open spec fn on_panel(x: SealedReviewAssignment, id: u128) -> bool {
    x.status == AssignmentStatus::Consumed && x.pinned_evaluation_id == Some(id)
}

/// How many of the first `n` assignments are on the panel of `id`, in `slot`
/// (or in any slot, where `slot` is none).
pub open spec fn panel_count(a: Seq<SealedReviewAssignment>, id: u128, slot: Option<ReviewSlot>, n: int) -> nat
    decreases n,
{
    if n <= 0 {
        0
    } else {
        panel_count(a, id, slot, n - 1) + if on_panel(a[n - 1], id) && (slot matches Some(s)
            ==> a[n - 1].slot == s) {
            1nat
        } else {
            0nat
        }
    }
}

/// The evaluation's consumed panel is exactly one evaluator (its own) and
/// one in each attesting slot, the two attesting players being the two that
/// attested the evaluation.
pub open spec fn panel_ok(a: Seq<SealedReviewAssignment>, e: EvaluationLink) -> bool {
    let n = a.len() as int;
    let id = e.evaluation_id;
    &&& panel_count(a, id, None, n) == 3
    &&& panel_count(a, id, Some(ReviewSlot::Evaluator), n) == 1
    &&& panel_count(a, id, Some(ReviewSlot::Reviewer1), n) == 1
    &&& panel_count(a, id, Some(ReviewSlot::Reviewer2), n) == 1
    &&& forall|i: int|
        0 <= i < n && on_panel(#[trigger] a[i], id) && a[i].slot == ReviewSlot::Evaluator
            ==> a[i].player_id == e.evaluator_player_id
    &&& forall|i: int, j: int|
        0 <= i < n && 0 <= j < n && on_panel(#[trigger] a[i], id) && a[i].slot
            == ReviewSlot::Reviewer1 && on_panel(#[trigger] a[j], id) && a[j].slot
            == ReviewSlot::Reviewer2 ==> set![a[i].player_id, a[j].player_id] == set![
            e.reviewer_player_ids.0,
            e.reviewer_player_ids.1,
        ]
}

/// The review state's assignments are sealed: one raw record each (at most
/// 16 384), each assignment well-formed against its record and its links,
/// ids distinct and in panel order, no live slot or live player held twice
/// in a round, every draft with exactly one pinned evaluator, and every
/// evaluation backed by exactly its consumed panel.
pub open spec fn assignments_sealed(
    raw: Seq<JsonValue>,
    a: Seq<SealedReviewAssignment>,
    paper_id: u128,
    evaluations: Seq<EvaluationLink>,
    drafts: Seq<DraftLink>,
) -> bool {
    &&& raw.len() == a.len()
    &&& a.len() <= 16384
    &&& forall|i: int| 0 <= i < a.len() ==> assignment_ok(raw[i], #[trigger] a[i], paper_id)
    &&& forall|i: int| 0 <= i < a.len() ==> pin_ok(#[trigger] a[i], evaluations, drafts)
    &&& forall|i: int, j: int|
        0 <= i < j < a.len() ==> (#[trigger] a[i]).assignment_id != (#[trigger] a[j]).assignment_id
    &&& forall|i: int| 0 < i < a.len() ==> assignment_before(a[i - 1], #[trigger] a[i])
    &&& forall|i: int, j: int| 0 <= i < j < a.len() ==> live_apart(#[trigger] a[i], #[trigger] a[j])
    &&& forall|k: int|
        0 <= k < drafts.len() ==> draft_evaluator_count(a, (#[trigger] drafts[k]).evaluation_id, a.len() as int)
            == 1
    &&& forall|k: int| 0 <= k < evaluations.len() ==> panel_ok(a, #[trigger] evaluations[k])
}

pub open spec fn distinct_evaluation_ids(e: Seq<EvaluationLink>) -> bool {
    forall|i: int, j: int|
        0 <= i < j < e.len() ==> (#[trigger] e[i]).evaluation_id != (#[trigger] e[j]).evaluation_id
}

pub open spec fn distinct_draft_ids(d: Seq<DraftLink>) -> bool {
    forall|i: int, j: int|
        0 <= i < j < d.len() ==> (#[trigger] d[i]).evaluation_id != (#[trigger] d[j]).evaluation_id
}

fn lifecycle_check(a: &SealedReviewAssignment) -> (r: bool)
    ensures
        r == lifecycle_valid(*a),
{
    match a.status {
        AssignmentStatus::Claimed => a.version == 1 && a.pinned_evaluation_id.is_none()
            && same_moment(a.updated_at, a.claimed_at),
        AssignmentStatus::Pinned => a.version == 2 && a.pinned_evaluation_id.is_some() && earlier(
            a.updated_at,
            a.expires_at,
        ),
        AssignmentStatus::Consumed => a.version == 3 && a.pinned_evaluation_id.is_some(),
        AssignmentStatus::Expired => match a.pinned_evaluation_id {
            None => a.version == 2 && (earlier(a.expires_at, a.updated_at) || same_moment(
                a.expires_at,
                a.updated_at,
            )),
            Some(_) => a.version == 3,
        },
    }
}

fn assignment_check(raw: &JsonValue, a: &SealedReviewAssignment, paper_id: u128) -> (r: bool)
    ensures
        r == assignment_ok(*raw, *a, paper_id),
{
    let shape = match raw {
        JsonValue::Object(members) => members.len() == 13,
        _ => false,
    };
    let pinned_reproducer = a.pinned_evaluation_id.is_some() && a.slot == ReviewSlot::Reproducer;
    shape && str_eq(a.schema.as_str(), "hepta.paper_raid.review_assignment.v1")
        && a.paper_project_id == paper_id && a.review_round != 0 && earlier(
        a.claimed_at,
        a.expires_at,
    ) && (earlier(a.claimed_at, a.updated_at) || same_moment(a.claimed_at, a.updated_at))
        && sealed_uuid_check(raw, "assignment_id", a.assignment_id) && sealed_uuid_check(
        raw,
        "paper_project_id",
        a.paper_project_id,
    ) && sealed_uuid_check(raw, "submission_id", a.submission_id) && sealed_uuid_check(
        raw,
        "player_id",
        a.player_id,
    ) && sealed_optional_uuid_check(raw, "pinned_evaluation_id", a.pinned_evaluation_id)
        && sealed_timestamp_check(raw, "claimed_at", a.claimed_at) && sealed_timestamp_check(
        raw,
        "expires_at",
        a.expires_at,
    ) && sealed_timestamp_check(raw, "updated_at", a.updated_at) && lifecycle_check(a)
        && !pinned_reproducer
}

fn ordered(a: &SealedReviewAssignment, b: &SealedReviewAssignment) -> (r: bool)
    ensures
        r == assignment_before(*a, *b),
{
    let ra = a.slot.rank();
    let rb = b.slot.rank();
    a.review_round < b.review_round || (a.review_round == b.review_round && (ra < rb || (ra == rb
        && a.assignment_id < b.assignment_id)))
}

fn live(a: &SealedReviewAssignment) -> (r: bool)
    ensures
        r == is_live(*a),
{
    a.status == AssignmentStatus::Claimed || a.status == AssignmentStatus::Pinned
}

/// The `i`-th assignment has a fresh id and holds no live slot or player
/// that an earlier one holds.
fn apart_from_earlier(a: &Vec<SealedReviewAssignment>, i: usize) -> (r: bool)
    requires
        i < a@.len(),
    ensures
        r == forall|k: int|
            0 <= k < i ==> (#[trigger] a@[k]).assignment_id != a@[i as int].assignment_id
                && live_apart(a@[k], a@[i as int]),
{
    let x = &a[i];
    let mut k: usize = 0;
    while k < i
        invariant
            i < a@.len(),
            *x == a@[i as int],
            k <= i,
            forall|q: int|
                0 <= q < k ==> (#[trigger] a@[q]).assignment_id != a@[i as int].assignment_id
                    && live_apart(a@[q], a@[i as int]),
        decreases i - k,
    {
        let y = &a[k];
        if y.assignment_id == x.assignment_id {
            return false;
        }
        if live(y) && live(x) && y.review_round == x.review_round && (y.slot == x.slot
            || y.player_id == x.player_id) {
            return false;
        }
        k = k + 1;
    }
    true
}

fn find_evaluation(evaluations: &Vec<EvaluationLink>, id: u128) -> (r: Option<usize>)
    ensures
        match r {
            Some(k) => k < evaluations@.len() && evaluations@[k as int].evaluation_id == id,
            None => forall|k: int| 0 <= k < evaluations@.len() ==> (#[trigger] evaluations@[k]).evaluation_id != id,
        },
{
    let mut k: usize = 0;
    while k < evaluations.len()
        invariant
            k <= evaluations@.len(),
            forall|q: int| 0 <= q < k ==> (#[trigger] evaluations@[q]).evaluation_id != id,
        decreases evaluations.len() - k,
    {
        if evaluations[k].evaluation_id == id {
            return Some(k);
        }
        k = k + 1;
    }
    None
}

fn find_draft(drafts: &Vec<DraftLink>, id: u128) -> (r: Option<usize>)
    ensures
        match r {
            Some(k) => k < drafts@.len() && drafts@[k as int].evaluation_id == id,
            None => forall|k: int| 0 <= k < drafts@.len() ==> (#[trigger] drafts@[k]).evaluation_id != id,
        },
{
    let mut k: usize = 0;
    while k < drafts.len()
        invariant
            k <= drafts@.len(),
            forall|q: int| 0 <= q < k ==> (#[trigger] drafts@[q]).evaluation_id != id,
        decreases drafts.len() - k,
    {
        if drafts[k].evaluation_id == id {
            return Some(k);
        }
        k = k + 1;
    }
    None
}

fn draft_link_check(a: &SealedReviewAssignment, d: &DraftLink) -> (r: bool)
    ensures
        r == draft_link_ok(*a, *d),
{
    let status_ok = match a.status {
        AssignmentStatus::Pinned => d.status == DraftStatus::Open,
        AssignmentStatus::Expired => d.status == DraftStatus::Expired,
        _ => false,
    };
    let evaluator = a.slot == ReviewSlot::Evaluator;
    status_ok && a.submission_id == d.submission_id && a.review_round == d.review_round && earlier(
        a.claimed_at,
        d.expires_at,
    ) && !(evaluator && earlier(d.created_at, a.claimed_at)) && (a.status
        != AssignmentStatus::Pinned || ((earlier(d.created_at, a.updated_at) || same_moment(
        d.created_at,
        a.updated_at,
    )) && earlier(a.updated_at, d.expires_at))) && (a.status != AssignmentStatus::Expired
        || same_moment(a.updated_at, d.updated_at)) && (!evaluator || a.player_id
        == d.evaluator_player_id)
}

fn pin_check(a: &SealedReviewAssignment, evaluations: &Vec<EvaluationLink>, drafts: &Vec<DraftLink>) -> (r: bool)
    requires
        distinct_evaluation_ids(evaluations@),
        distinct_draft_ids(drafts@),
    ensures
        r == pin_ok(*a, evaluations@, drafts@),
{
    match a.pinned_evaluation_id {
        None => true,
        Some(id) => if a.status == AssignmentStatus::Consumed {
            match find_evaluation(evaluations, id) {
                Some(k) => {
                    let e = &evaluations[k];
                    let ok = a.submission_id == e.submission_id && a.review_round == e.version
                        && same_moment(a.updated_at, e.created_at);
                    proof {
                        assert forall|q: int|
                            0 <= q < evaluations@.len() && (#[trigger] evaluations@[q]).evaluation_id
                                == id implies q == k by {
                            if q < k {
                                assert(evaluations@[q].evaluation_id != evaluations@[k as int].evaluation_id);
                            } else if q > k {
                                assert(evaluations@[k as int].evaluation_id != evaluations@[q].evaluation_id);
                            }
                        }
                    }
                    ok
                },
                None => false,
            }
        } else {
            match find_draft(drafts, id) {
                Some(k) => {
                    let ok = draft_link_check(a, &drafts[k]);
                    proof {
                        assert forall|q: int|
                            0 <= q < drafts@.len() && (#[trigger] drafts@[q]).evaluation_id == id implies q
                                == k by {
                            if q < k {
                                assert(drafts@[q].evaluation_id != drafts@[k as int].evaluation_id);
                            } else if q > k {
                                assert(drafts@[k as int].evaluation_id != drafts@[q].evaluation_id);
                            }
                        }
                    }
                    ok
                },
                None => false,
            }
        },
    }
}

fn draft_evaluators(a: &Vec<SealedReviewAssignment>, id: u128) -> (r: usize)
    ensures
        r == draft_evaluator_count(a@, id, a@.len() as int),
{
    let mut count: usize = 0;
    let mut i: usize = 0;
    while i < a.len()
        invariant
            i <= a@.len(),
            count == draft_evaluator_count(a@, id, i as int),
            count <= i,
        decreases a.len() - i,
    {
        let x = &a[i];
        if x.pinned_evaluation_id == Some(id) && x.status != AssignmentStatus::Consumed && x.slot
            == ReviewSlot::Evaluator {
            count = count + 1;
        }
        i = i + 1;
    }
    count
}

/// The set of two values equals the set of two others.
fn pair_sets_equal(x: u128, y: u128, u: u128, v: u128) -> (r: bool)
    ensures
        r == (set![x, y] == set![u, v]),
{
    let r = if x == y {
        u == x && v == x
    } else {
        (u == x && v == y) || (u == y && v == x)
    };
    proof {
        if r {
            assert(set![x, y] =~= set![u, v]);
        } else {
            if set![x, y] == set![u, v] {
                assert(set![u, v].contains(x));
                assert(set![u, v].contains(y));
                assert(set![x, y].contains(u));
                assert(set![x, y].contains(v));
            }
        }
    }
    r
}

fn panel_check(a: &Vec<SealedReviewAssignment>, e: &EvaluationLink) -> (r: bool)
    ensures
        r == panel_ok(a@, *e),
{
    let id = e.evaluation_id;
    let mut total: usize = 0;
    let mut evaluators: usize = 0;
    let mut firsts: usize = 0;
    let mut seconds: usize = 0;
    let mut evaluator_ok = true;
    let mut first_player: u128 = 0;
    let mut second_player: u128 = 0;
    let mut i: usize = 0;
    while i < a.len()
        invariant
            i <= a@.len(),
            total == panel_count(a@, id, None, i as int),
            evaluators == panel_count(a@, id, Some(ReviewSlot::Evaluator), i as int),
            firsts == panel_count(a@, id, Some(ReviewSlot::Reviewer1), i as int),
            seconds == panel_count(a@, id, Some(ReviewSlot::Reviewer2), i as int),
            total <= i,
            evaluators <= i,
            firsts <= i,
            seconds <= i,
            evaluator_ok == forall|k: int|
                0 <= k < i && on_panel(#[trigger] a@[k], id) && a@[k].slot == ReviewSlot::Evaluator
                    ==> a@[k].player_id == e.evaluator_player_id,
            firsts == 1 ==> exists|k: int|
                0 <= k < i && on_panel(#[trigger] a@[k], id) && a@[k].slot == ReviewSlot::Reviewer1
                    && a@[k].player_id == first_player,
            firsts == 0 ==> forall|k: int|
                0 <= k < i ==> !(on_panel(#[trigger] a@[k], id) && a@[k].slot == ReviewSlot::Reviewer1),
            seconds == 0 ==> forall|k: int|
                0 <= k < i ==> !(on_panel(#[trigger] a@[k], id) && a@[k].slot == ReviewSlot::Reviewer2),
            firsts == 1 ==> forall|k: int|
                0 <= k < i && on_panel(#[trigger] a@[k], id) && a@[k].slot == ReviewSlot::Reviewer1
                    ==> a@[k].player_id == first_player,
            seconds == 1 ==> exists|k: int|
                0 <= k < i && on_panel(#[trigger] a@[k], id) && a@[k].slot == ReviewSlot::Reviewer2
                    && a@[k].player_id == second_player,
            seconds == 1 ==> forall|k: int|
                0 <= k < i && on_panel(#[trigger] a@[k], id) && a@[k].slot == ReviewSlot::Reviewer2
                    ==> a@[k].player_id == second_player,
        decreases a.len() - i,
    {
        let x = &a[i];
        if x.status == AssignmentStatus::Consumed && x.pinned_evaluation_id == Some(id) {
            total = total + 1;
            match x.slot {
                ReviewSlot::Evaluator => {
                    evaluators = evaluators + 1;
                    if x.player_id != e.evaluator_player_id {
                        evaluator_ok = false;
                    }
                },
                ReviewSlot::Reviewer1 => {
                    if firsts == 0 {
                        first_player = x.player_id;
                    }
                    firsts = firsts + 1;
                },
                ReviewSlot::Reviewer2 => {
                    if seconds == 0 {
                        second_player = x.player_id;
                    }
                    seconds = seconds + 1;
                },
                ReviewSlot::Reproducer => {},
            }
        }
        proof {
            assert(panel_count(a@, id, Some(ReviewSlot::Reviewer1), i + 1) == firsts);
            if firsts == 1 && !(on_panel(a@[i as int], id) && a@[i as int].slot == ReviewSlot::Reviewer1) {
                assert(panel_count(a@, id, Some(ReviewSlot::Reviewer1), i as int) == 1);
            }
        }
        i = i + 1;
    }
    if !(total == 3 && evaluators == 1 && firsts == 1 && seconds == 1 && evaluator_ok) {
        return false;
    }
    let same = pair_sets_equal(
        first_player,
        second_player,
        e.reviewer_player_ids.0,
        e.reviewer_player_ids.1,
    );
    proof {
        let k1 = choose|k: int|
            0 <= k < a@.len() && on_panel(#[trigger] a@[k], id) && a@[k].slot == ReviewSlot::Reviewer1
                && a@[k].player_id == first_player;
        let k2 = choose|k: int|
            0 <= k < a@.len() && on_panel(#[trigger] a@[k], id) && a@[k].slot == ReviewSlot::Reviewer2
                && a@[k].player_id == second_player;
        if !same {
            assert(!panel_ok(a@, *e)) by {
                if panel_ok(a@, *e) {
                    assert(set![a@[k1].player_id, a@[k2].player_id] == set![
                        e.reviewer_player_ids.0,
                        e.reviewer_player_ids.1,
                    ]);
                }
            }
        }
    }
    same
}

/// Checks the assignments of a Paper's review state against the raw records
/// they were read from, the finalized evaluations and the open or expired
/// drafts (each listed once by evaluation id).
pub fn sealed_review_assignments(
    raw: &Vec<JsonValue>,
    assignments: &Vec<SealedReviewAssignment>,
    paper_id: u128,
    evaluations: &Vec<EvaluationLink>,
    drafts: &Vec<DraftLink>,
) -> (r: bool)
    requires
        distinct_evaluation_ids(evaluations@),
        distinct_draft_ids(drafts@),
    ensures
        r == assignments_sealed(raw@, assignments@, paper_id, evaluations@, drafts@),
{
    let a = assignments;
    if raw.len() != a.len() || a.len() > 16384 {
        return false;
    }
    let mut i: usize = 0;
    while i < a.len()
        invariant
            a == assignments,
            distinct_evaluation_ids(evaluations@),
            distinct_draft_ids(drafts@),
            raw@.len() == a@.len(),
            a@.len() <= 16384,
            i <= a@.len(),
            forall|k: int| 0 <= k < i ==> assignment_ok(raw@[k], #[trigger] a@[k], paper_id),
            forall|k: int| 0 <= k < i ==> pin_ok(#[trigger] a@[k], evaluations@, drafts@),
            forall|k: int, l: int|
                0 <= k < l < i ==> (#[trigger] a@[k]).assignment_id != (#[trigger] a@[l]).assignment_id,
            forall|k: int| 0 < k < i ==> assignment_before(a@[k - 1], #[trigger] a@[k]),
            forall|k: int, l: int| 0 <= k < l < i ==> live_apart(#[trigger] a@[k], #[trigger] a@[l]),
        decreases a.len() - i,
    {
        if !assignment_check(&raw[i], &a[i], paper_id) {
            assert(!assignments_sealed(raw@, a@, paper_id, evaluations@, drafts@)) by {
                if assignments_sealed(raw@, a@, paper_id, evaluations@, drafts@) {
                    assert(assignment_ok(raw@[i as int], a@[i as int], paper_id));
                }
            }
            return false;
        }
        if i > 0 && !ordered(&a[i - 1], &a[i]) {
            assert(!assignments_sealed(raw@, a@, paper_id, evaluations@, drafts@)) by {
                if assignments_sealed(raw@, a@, paper_id, evaluations@, drafts@) {
                    assert(assignment_before(a@[i - 1], a@[i as int]));
                }
            }
            return false;
        }
        if !apart_from_earlier(a, i) {
            proof {
                let k = choose|k: int|
                    0 <= k < i && !((#[trigger] a@[k]).assignment_id != a@[i as int].assignment_id
                        && live_apart(a@[k], a@[i as int]));
                assert(!assignments_sealed(raw@, a@, paper_id, evaluations@, drafts@)) by {
                    if assignments_sealed(raw@, a@, paper_id, evaluations@, drafts@) {
                        assert(a@[k].assignment_id != a@[i as int].assignment_id);
                        assert(live_apart(a@[k], a@[i as int]));
                    }
                }
            }
            return false;
        }
        if !pin_check(&a[i], evaluations, drafts) {
            assert(!assignments_sealed(raw@, a@, paper_id, evaluations@, drafts@)) by {
                if assignments_sealed(raw@, a@, paper_id, evaluations@, drafts@) {
                    assert(pin_ok(a@[i as int], evaluations@, drafts@));
                }
            }
            return false;
        }
        i = i + 1;
    }
    let mut k: usize = 0;
    while k < drafts.len()
        invariant
            a == assignments,
            k <= drafts@.len(),
            forall|q: int|
                0 <= q < k ==> draft_evaluator_count(a@, (#[trigger] drafts@[q]).evaluation_id, a@.len() as int)
                    == 1,
        decreases drafts.len() - k,
    {
        if draft_evaluators(a, drafts[k].evaluation_id) != 1 {
            assert(!assignments_sealed(raw@, a@, paper_id, evaluations@, drafts@)) by {
                if assignments_sealed(raw@, a@, paper_id, evaluations@, drafts@) {
                    assert(draft_evaluator_count(a@, drafts@[k as int].evaluation_id, a@.len() as int) == 1);
                }
            }
            return false;
        }
        k = k + 1;
    }
    let mut k: usize = 0;
    while k < evaluations.len()
        invariant
            a == assignments,
            k <= evaluations@.len(),
            forall|q: int| 0 <= q < k ==> panel_ok(a@, #[trigger] evaluations@[q]),
        decreases evaluations.len() - k,
    {
        if !panel_check(a, &evaluations[k]) {
            assert(!assignments_sealed(raw@, a@, paper_id, evaluations@, drafts@)) by {
                if assignments_sealed(raw@, a@, paper_id, evaluations@, drafts@) {
                    assert(panel_ok(a@, evaluations@[k as int]));
                }
            }
            return false;
        }
        k = k + 1;
    }
    true
}

/// A text of 1..=512 characters without NUL.
pub open spec fn sealed_text(s: Seq<char>) -> bool {
    s.len() > 0 && s.len() <= 512 && !s.contains('\0')
}

/// The key a tolerance rule is checked under: its kind and metric, or the
/// seed set it expects; `None` for a rule of another shape.
pub open spec fn rule_key_of(rule: JsonValue) -> Option<Seq<char>> {
    if !(rule is Object) {
        None
    } else {
        match field_text(rule, "kind"@) {
            Some(kind) => if kind == "absolute"@ || kind == "relative"@ || kind == "statistical"@ {
                match field_text(rule, "metric"@) {
                    Some(m) => Some(kind + ":"@ + m),
                    None => None,
                }
            } else if kind == "seed"@ {
                match field_text(rule, "expected_seed_set_hash"@) {
                    Some(h) => Some("seed:"@ + h),
                    None => None,
                }
            } else {
                None
            },
            None => None,
        }
    }
}

/// The rule has a key, and the key is bounded.
pub open spec fn rule_ok(rule: JsonValue) -> bool {
    match rule_key_of(rule) {
        Some(k) => sealed_text(k),
        None => false,
    }
}

/// The evaluation's tolerance rules, keyed: 1..=256 reference metrics, and
/// 1..=128 rules, each with a bounded key, no key twice; the keys in rule
/// order, or `None`.
pub open spec fn tolerance_rule_keys_of(evaluation: JsonValue) -> Option<Seq<Seq<char>>> {
    if !reference_metrics_ok(evaluation) {
        None
    } else {
            match evaluation.spec_get("tolerance_policy"@) {
                Some(policy) => match crate::json::field_array(policy, "rules"@) {
                    Some(rules) => if rules.len() == 0 || rules.len() > 128 {
                        None
                    } else if forall|i: int| 0 <= i < rules.len() ==> #[trigger] rule_ok(rules[i]) {
                        let keys = rules.map_values(|r: JsonValue| rule_key_of(r)->0);
                        if forall|i: int, j: int| 0 <= i < j < keys.len() ==> #[trigger] keys[i] != #[trigger] keys[j] {
                            Some(keys)
                        } else {
                            None
                        }
                    } else {
                        None
                    },
                    None => None,
                },
                None => None,
            }
    }
}

/// 1..=256 reference metrics.
pub open spec fn reference_metrics_ok(evaluation: JsonValue) -> bool {
    match evaluation.spec_get("reference_metrics_micros"@) {
        Some(JsonValue::Object(reference)) => 0 < reference@.len() <= 256,
        _ => false,
    }
}

pub(crate) fn sealed_text_check(s: &str) -> (r: bool)
    ensures
        r == sealed_text(s@),
{
    crate::nakama::valid_text(s, 512)
}

fn rule_key(rule: &JsonValue) -> (r: Option<String>)
    ensures
        opt_text_view(r) == rule_key_of(*rule),
{
    if !rule.is_object() {
        return None;
    }
    let kind = match rule.get("kind") {
        Some(JsonValue::String(k)) => k,
        _ => return None,
    };
    let mut out: Vec<char> = Vec::new();
    if str_eq(kind.as_str(), "absolute") || str_eq(kind.as_str(), "relative") || str_eq(
        kind.as_str(),
        "statistical",
    ) {
        let metric = match rule.get("metric") {
            Some(JsonValue::String(m)) => m,
            _ => return None,
        };
        crate::text::push_str(&mut out, kind.as_str());
        crate::text::push_str(&mut out, ":");
        crate::text::push_str(&mut out, metric.as_str());
        proof {
            reveal_strlit(":");
        }
    } else if str_eq(kind.as_str(), "seed") {
        let hash = match rule.get("expected_seed_set_hash") {
            Some(JsonValue::String(h)) => h,
            _ => return None,
        };
        crate::text::push_str(&mut out, "seed:");
        crate::text::push_str(&mut out, hash.as_str());
    } else {
        return None;
    }
    Some(crate::text::string_from_chars(&out))
}

pub open spec fn texts_view(v: Seq<String>) -> Seq<Seq<char>> {
    v.map_values(|s: String| s@)
}

/// The evaluation's tolerance rule keys, in rule order.
pub fn sealed_tolerance_rule_keys(evaluation: &JsonValue) -> (r: Option<Vec<String>>)
    ensures
        match r {
            Some(keys) => tolerance_rule_keys_of(*evaluation) == Some(texts_view(keys@)),
            None => tolerance_rule_keys_of(*evaluation) is None,
        },
{
    match evaluation.get("reference_metrics_micros") {
        Some(JsonValue::Object(reference)) => {
            if reference.len() == 0 || reference.len() > 256 {
                return None;
            }
        },
        _ => return None,
    }
    let policy = match evaluation.get("tolerance_policy") {
        Some(p) => p,
        None => return None,
    };
    let rules = match policy.get("rules") {
        Some(JsonValue::Array(rules)) => rules,
        _ => return None,
    };
    if rules.len() == 0 || rules.len() > 128 {
        return None;
    }
    let ghost keys_spec = rules@.map_values(|r: JsonValue| rule_key_of(r)->0);
    let mut keys: Vec<String> = Vec::new();
    let mut i: usize = 0;
    while i < rules.len()
        invariant
            crate::json::field_array(*policy, "rules"@) == Some(rules@),
            evaluation.spec_get("tolerance_policy"@) == Some(*policy),
            reference_metrics_ok(*evaluation),
            0 < rules@.len() <= 128,
            keys_spec == rules@.map_values(|r: JsonValue| rule_key_of(r)->0),
            i <= rules@.len(),
            keys@.len() == i,
            forall|k: int| 0 <= k < i ==> #[trigger] rule_ok(rules@[k]),
            forall|k: int| 0 <= k < i ==> keys@[k]@ == #[trigger] keys_spec[k],
            forall|k: int, l: int| 0 <= k < l < i ==> #[trigger] keys_spec[k] != #[trigger] keys_spec[l],
        decreases rules.len() - i,
    {
        let key = match rule_key(&rules[i]) {
            Some(k) => k,
            None => {
                assert(!rule_ok(rules@[i as int]));
                return None;
            },
        };
        if !sealed_text_check(key.as_str()) {
            assert(!rule_ok(rules@[i as int]));
            return None;
        }
        let mut j: usize = 0;
        while j < i
            invariant
                crate::json::field_array(*policy, "rules"@) == Some(rules@),
                evaluation.spec_get("tolerance_policy"@) == Some(*policy),
                reference_metrics_ok(*evaluation),
                0 < rules@.len() <= 128,
                keys_spec == rules@.map_values(|r: JsonValue| rule_key_of(r)->0),
                i < rules@.len(),
                keys@.len() == i,
                j <= i,
                forall|k: int| 0 <= k < i ==> keys@[k]@ == #[trigger] keys_spec[k],
                key@ == keys_spec[i as int],
                forall|k: int| 0 <= k < j ==> #[trigger] keys_spec[k] != keys_spec[i as int],
            decreases i - j,
        {
            if str_eq(keys[j].as_str(), key.as_str()) {
                assert(keys_spec[j as int] == keys_spec[i as int]);
                assert(tolerance_rule_keys_of(*evaluation) is None) by {
                    if forall|k: int| 0 <= k < rules@.len() ==> #[trigger] rule_ok(rules@[k]) {
                        assert(!(forall|k: int, l: int|
                            0 <= k < l < keys_spec.len() ==> #[trigger] keys_spec[k]
                                != #[trigger] keys_spec[l]));
                    }
                }
                return None;
            }
            j = j + 1;
        }
        keys.push(key);
        i = i + 1;
    }
    assert(texts_view(keys@) =~= keys_spec);
    Some(keys)
}

/// The time chrono reads out of an RFC 3339 text, in UTC, as whole seconds
/// and nanoseconds; nothing when the text is not RFC 3339.
pub uninterp spec fn rfc3339_parse_of(text: Seq<char>) -> Option<(i64, u32)>;

/// `chrono::DateTime::parse_from_rfc3339` followed by `with_timezone(&Utc)`,
/// `timestamp` and `timestamp_subsec_nanos`.
#[verifier::external_body]
pub(crate) fn parse_rfc3339(text: &str) -> (r: Option<Moment>)
    ensures
        match r {
            Some(m) => rfc3339_parse_of(text@) == Some((m.secs, m.nanos)),
            None => rfc3339_parse_of(text@) is None,
        },
{
    match chrono::DateTime::parse_from_rfc3339(text) {
        Ok(t) => {
            let utc = t.with_timezone(&chrono::Utc);
            Some(Moment { secs: utc.timestamp(), nanos: utc.timestamp_subsec_nanos() })
        },
        Err(_) => None,
    }
}

/// A finalized evaluation as the review state lists it.
#[derive(Debug)]
pub struct SealedEvaluation {
    pub link: EvaluationLink,
    pub release_candidate_hash: String,
    pub paper_bundle_hash: String,
    pub tolerance_policy_hash: String,
    pub tolerance_rule_keys: Vec<String>,
}

/// What a finalized evaluation states, as values.
pub struct EvaluationView {
    pub link: EvaluationLink,
    pub release_candidate_hash: Seq<char>,
    pub paper_bundle_hash: Seq<char>,
    pub tolerance_policy_hash: Seq<char>,
    pub tolerance_rule_keys: Seq<Seq<char>>,
}

impl View for SealedEvaluation {
    type V = EvaluationView;

    open spec fn view(&self) -> EvaluationView {
        EvaluationView {
            link: self.link,
            release_candidate_hash: self.release_candidate_hash@,
            paper_bundle_hash: self.paper_bundle_hash@,
            tolerance_policy_hash: self.tolerance_policy_hash@,
            tolerance_rule_keys: texts_view(self.tolerance_rule_keys@),
        }
    }
}

/// The canonical, non-nil UUID a record holds under `field`.
pub open spec fn record_uuid(record: JsonValue, field: Seq<char>) -> Option<u128> {
    crate::quick_raid::canonical_uuid_of(record.spec_get(field))
}

/// The record's canonical creation time: RFC 3339 text that chrono writes
/// back exactly as given.
pub open spec fn record_time(record: JsonValue, field: Seq<char>) -> Option<Moment> {
    match field_text(record, field) {
        Some(t) => match rfc3339_parse_of(t) {
            Some((secs, nanos)) => if rfc3339_of(secs, nanos) == Some(t) {
                Some(Moment { secs, nanos })
            } else {
                None
            },
            None => None,
        },
        None => None,
    }
}

/// The evaluation's two attesting players: exactly two attestations with
/// distinct canonical player ids, neither the evaluator.
pub open spec fn record_reviewers(record: JsonValue, evaluator: u128) -> Option<(u128, u128)> {
    match crate::json::field_array(record, "reviewer_attestations"@) {
        Some(reviews) => if reviews.len() != 2 {
            None
        } else {
            match (record_uuid(reviews[0], "reviewer_player_id"@), record_uuid(reviews[1], "reviewer_player_id"@)) {
                (Some(a), Some(b)) => if a != b && a != evaluator && b != evaluator {
                    Some((a, b))
                } else {
                    None
                },
                _ => None,
            }
        },
        None => None,
    }
}

/// A digest text member.
pub open spec fn record_digest(record: JsonValue, field: Seq<char>) -> Option<Seq<char>> {
    match field_text(record, field) {
        Some(t) => if crate::text::is_digest_text(t) {
            Some(t)
        } else {
            None
        },
        None => None,
    }
}

/// The record is a finalized evaluation of this Paper, every field canonical.
pub open spec fn evaluation_record_ok(record: JsonValue, paper_id: u128) -> bool {
    &&& field_text(record, "schema"@) == Some("hepta.paper_raid.evaluation.v1"@)
    &&& field_text(record, "paper_project_id"@) == Some(uuid_text(paper_id))
    &&& record_uuid(record, "evaluation_id"@) is Some
    &&& record_uuid(record, "submission_id"@) is Some
    &&& record_uuid(record, "evaluator_player_id"@) matches Some(evaluator) && record_reviewers(
        record,
        evaluator,
    ) is Some
    &&& crate::json::field_u64(record, "version"@) matches Some(v) && v != 0
    &&& record_digest(record, "release_candidate_hash"@) is Some
    &&& record_digest(record, "paper_bundle_hash"@) is Some
    &&& record_digest(record, "tolerance_policy_hash"@) is Some
    &&& record_time(record, "created_at"@) is Some
    &&& tolerance_rule_keys_of(record) is Some
}

/// `e` is the evaluation the record holds.
pub open spec fn evaluation_record_is(record: JsonValue, e: SealedEvaluation) -> bool {
    &&& record_uuid(record, "evaluation_id"@) == Some(e.link.evaluation_id)
    &&& record_uuid(record, "submission_id"@) == Some(e.link.submission_id)
    &&& record_uuid(record, "evaluator_player_id"@) == Some(e.link.evaluator_player_id)
    &&& record_reviewers(record, e.link.evaluator_player_id) == Some(e.link.reviewer_player_ids)
    &&& crate::json::field_u64(record, "version"@) == Some(e.link.version)
    &&& record_time(record, "created_at"@) == Some(e.link.created_at)
    &&& field_text(record, "release_candidate_hash"@) == Some(e.release_candidate_hash@)
    &&& field_text(record, "paper_bundle_hash"@) == Some(e.paper_bundle_hash@)
    &&& field_text(record, "tolerance_policy_hash"@) == Some(e.tolerance_policy_hash@)
    &&& tolerance_rule_keys_of(record) == Some(texts_view(e.tolerance_rule_keys@))
}

fn record_uuid_exec(record: &JsonValue, field: &str) -> (r: Option<u128>)
    ensures
        r == record_uuid(*record, field@),
{
    crate::quick_raid::canonical_uuid_value(record.get(field))
}

fn record_digest_exec(record: &JsonValue, field: &str) -> (r: Option<String>)
    ensures
        opt_text_view(r) == record_digest(*record, field@),
{
    match record.get(field) {
        Some(JsonValue::String(t)) => if crate::text::valid_digest_label(t.as_str()) {
            Some(t.clone())
        } else {
            None
        },
        _ => None,
    }
}

fn record_time_exec(record: &JsonValue, field: &str) -> (r: Option<Moment>)
    ensures
        r == record_time(*record, field@),
{
    let text = match record.get(field) {
        Some(JsonValue::String(t)) => t,
        _ => return None,
    };
    let m = match parse_rfc3339(text.as_str()) {
        Some(m) => m,
        None => return None,
    };
    match rfc3339(m.secs, m.nanos) {
        Some(back) => if str_eq(back.as_str(), text.as_str()) {
            Some(m)
        } else {
            None
        },
        None => None,
    }
}

fn record_reviewers_exec(record: &JsonValue, evaluator: u128) -> (r: Option<(u128, u128)>)
    ensures
        r == record_reviewers(*record, evaluator),
{
    let reviews = match record.get("reviewer_attestations") {
        Some(JsonValue::Array(reviews)) => reviews,
        _ => return None,
    };
    if reviews.len() != 2 {
        return None;
    }
    let a = record_uuid_exec(&reviews[0], "reviewer_player_id");
    let b = record_uuid_exec(&reviews[1], "reviewer_player_id");
    match (a, b) {
        (Some(a), Some(b)) => if a != b && a != evaluator && b != evaluator {
            Some((a, b))
        } else {
            None
        },
        _ => None,
    }
}

/// Reads one finalized evaluation out of its record.
fn read_evaluation(record: &JsonValue, paper_id: u128) -> (r: Option<SealedEvaluation>)
    ensures
        match r {
            Some(e) => evaluation_record_ok(*record, paper_id) && evaluation_record_is(*record, e),
            None => !evaluation_record_ok(*record, paper_id),
        },
{
    let schema_ok = match record.get("schema") {
        Some(JsonValue::String(t)) => str_eq(t.as_str(), "hepta.paper_raid.evaluation.v1"),
        _ => false,
    };
    let paper_ok = match record.get("paper_project_id") {
        Some(JsonValue::String(t)) => crate::text::chars_eq_str(&uuid_chars(paper_id), t.as_str()),
        _ => false,
    };
    if !schema_ok || !paper_ok {
        return None;
    }
    let evaluation_id = record_uuid_exec(record, "evaluation_id")?;
    let submission_id = record_uuid_exec(record, "submission_id")?;
    let evaluator = record_uuid_exec(record, "evaluator_player_id")?;
    let version = record.u64_of("version")?;
    if version == 0 {
        return None;
    }
    let release_candidate_hash = record_digest_exec(record, "release_candidate_hash")?;
    let paper_bundle_hash = record_digest_exec(record, "paper_bundle_hash")?;
    let tolerance_policy_hash = record_digest_exec(record, "tolerance_policy_hash")?;
    let created_at = record_time_exec(record, "created_at")?;
    let reviewers = record_reviewers_exec(record, evaluator)?;
    let keys = sealed_tolerance_rule_keys(record)?;
    Some(
        SealedEvaluation {
            link: EvaluationLink {
                evaluation_id,
                submission_id,
                version,
                evaluator_player_id: evaluator,
                reviewer_player_ids: reviewers,
                created_at,
            },
            release_candidate_hash,
            paper_bundle_hash,
            tolerance_policy_hash,
            tolerance_rule_keys: keys,
        },
    )
}

/// The finalized evaluations of a Paper's review state, one per record in
/// record order; `None` when a record is not a canonical evaluation of this
/// Paper or two records share an evaluation id.
pub fn sealed_evaluation_crosslinks(records: &Vec<JsonValue>, paper_id: u128) -> (r: Option<Vec<SealedEvaluation>>)
    ensures
        r is Some <==> (forall|i: int| 0 <= i < records@.len() ==> evaluation_record_ok(#[trigger] records@[i], paper_id))
            && forall|i: int, j: int|
            0 <= i < j < records@.len() ==> record_uuid(#[trigger] records@[i], "evaluation_id"@)
                != record_uuid(#[trigger] records@[j], "evaluation_id"@),
        r matches Some(v) ==> v@.len() == records@.len() && forall|i: int|
            0 <= i < records@.len() ==> evaluation_record_is(#[trigger] records@[i], v@[i]),
{
    let mut out: Vec<SealedEvaluation> = Vec::new();
    let mut i: usize = 0;
    while i < records.len()
        invariant
            i <= records@.len(),
            out@.len() == i,
            forall|k: int| 0 <= k < i ==> evaluation_record_ok(#[trigger] records@[k], paper_id),
            forall|k: int| 0 <= k < i ==> evaluation_record_is(#[trigger] records@[k], out@[k]),
            forall|k: int, l: int|
                0 <= k < l < i ==> record_uuid(#[trigger] records@[k], "evaluation_id"@) != record_uuid(
                    #[trigger] records@[l],
                    "evaluation_id"@,
                ),
        decreases records.len() - i,
    {
        let e = match read_evaluation(&records[i], paper_id) {
            Some(e) => e,
            None => return None,
        };
        let mut j: usize = 0;
        while j < i
            invariant
                i < records@.len(),
                out@.len() == i,
                j <= i,
                forall|k: int| 0 <= k < i ==> evaluation_record_is(#[trigger] records@[k], out@[k]),
                evaluation_record_is(records@[i as int], e),
                forall|k: int| 0 <= k < j ==> record_uuid(#[trigger] records@[k], "evaluation_id"@)
                    != record_uuid(records@[i as int], "evaluation_id"@),
            decreases i - j,
        {
            if out[j].link.evaluation_id == e.link.evaluation_id {
                assert(record_uuid(records@[j as int], "evaluation_id"@) == record_uuid(
                    records@[i as int],
                    "evaluation_id"@,
                ));
                return None;
            }
            j = j + 1;
        }
        out.push(e);
        i = i + 1;
    }
    Some(out)
}

} // verus!
