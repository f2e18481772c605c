//! Selecting the one authoritative record a signing frame binds to, out of
//! the Paper Room and review-state read models: the room record with an id,
//! the current evaluation of a Paper or of a submission, the evaluation with
//! an id, the one open Appeal, the superseding evaluation and its
//! independent panel, the selected evidence manifest, and the next rework
//! cycle. Whatever is missing is not found, whatever is malformed is an
//! upstream failure, and whatever is not exactly one is a conflict.

use vstd::prelude::*;
use crate::digest::uuid_parse_of;
use crate::error::{conflict, is_conflict, AppError};
use crate::frames::{refused_as, Refusal};
use crate::hepta::{required_string, required_uuid, str_field};
use crate::json::JsonValue;
use crate::text::{chars_eq_str, str_eq, uuid_chars, uuid_text};

verus! {

/// The UUID a string member holds, in any spelling the UUID parser takes.
pub open spec fn uuid_of(v: JsonValue, key: Seq<char>) -> Option<u128> {
    match str_field(v, key) {
        Some(t) => uuid_parse_of(t),
        None => None,
    }
}

/// A non-empty string member.
pub open spec fn nonempty_text_of(v: JsonValue, key: Seq<char>) -> Option<Seq<char>> {
    match str_field(v, key) {
        Some(t) => if t.len() > 0 {
            Some(t)
        } else {
            None
        },
        None => None,
    }
}

/// A whole-number member.
pub open spec fn u64_of(v: JsonValue, key: Seq<char>) -> Option<u64> {
    match v.spec_get(key) {
        Some(x) => x.spec_as_u64(),
        None => None,
    }
}

/// The record's member `key` is the canonical text of `id`.
pub open spec fn has_id_text(v: JsonValue, key: Seq<char>, id: u128) -> bool {
    str_field(v, key) == Some(uuid_text(id))
}

/// The array member `key` of an object.
pub open spec fn array_of(v: JsonValue, key: Seq<char>) -> Option<Seq<JsonValue>> {
    crate::json::field_array(v, key)
}

fn array_member<'a>(v: &'a JsonValue, key: &str) -> (r: Option<&'a Vec<JsonValue>>)
    ensures
        match r {
            Some(items) => array_of(*v, key@) == Some(items@),
            None => array_of(*v, key@) is None,
        },
{
    match v.get(key) {
        Some(JsonValue::Array(items)) => Some(items),
        _ => None,
    }
}

fn id_text_is(v: &JsonValue, key: &str, id: u128) -> (r: bool)
    ensures
        r == has_id_text(*v, key@, id),
{
    match v.get(key) {
        Some(JsonValue::String(t)) => chars_eq_str(&uuid_chars(id), t.as_str()),
        _ => false,
    }
}

/// The first index below `n` whose record has `id` under `key`.
pub open spec fn first_with_id(items: Seq<JsonValue>, key: Seq<char>, id: u128, n: int) -> Option<int>
    decreases n,
{
    if n <= 0 {
        None
    } else {
        match first_with_id(items, key, id, n - 1) {
            Some(k) => Some(k),
            None => if has_id_text(items[n - 1], key, id) {
                Some(n - 1)
            } else {
                None
            },
        }
    }
}

proof fn lemma_first_with_id(items: Seq<JsonValue>, key: Seq<char>, id: u128, n: int)
    requires
        0 <= n <= items.len(),
    ensures
        match first_with_id(items, key, id, n) {
            Some(k) => 0 <= k < n && has_id_text(items[k], key, id) && forall|j: int|
                0 <= j < k ==> !has_id_text(#[trigger] items[j], key, id),
            None => forall|j: int| 0 <= j < n ==> !has_id_text(#[trigger] items[j], key, id),
        },
    decreases n,
{
    if n > 0 {
        lemma_first_with_id(items, key, id, n - 1);
    }
}

/// The first record of the room's `collection` whose `id_field` is `id`;
/// not found when there is none or the collection is not a list.
pub fn find_room_record<'a>(room: &'a JsonValue, collection: &str, id_field: &str, id: u128) -> (r: Result<
    &'a JsonValue,
    AppError,
>)
    ensures
        match array_of(*room, collection@) {
            Some(items) => match first_with_id(items, id_field@, id, items.len() as int) {
                Some(k) => r == Ok::<&JsonValue, AppError>(&items[k]),
                None => r == Err::<&JsonValue, AppError>(AppError::NotFound),
            },
            None => r == Err::<&JsonValue, AppError>(AppError::NotFound),
        },
{
    let items = match array_member(room, collection) {
        Some(items) => items,
        None => return Err(AppError::NotFound),
    };
    let mut i: usize = 0;
    while i < items.len()
        invariant
            array_of(*room, collection@) == Some(items@),
            i <= items@.len(),
            first_with_id(items@, id_field@, id, i as int) is None,
        decreases items.len() - i,
    {
        if id_text_is(&items[i], id_field, id) {
            proof {
                assert(first_with_id(items@, id_field@, id, i + 1) == Some(i as int));
                lemma_first_sticks(items@, id_field@, id, i + 1, items@.len() as int);
            }
            return Ok(&items[i]);
        }
        i = i + 1;
    }
    Err(AppError::NotFound)
}

proof fn lemma_first_sticks(items: Seq<JsonValue>, key: Seq<char>, id: u128, n: int, m: int)
    requires
        0 <= n <= m,
        first_with_id(items, key, id, n) is Some,
    ensures
        first_with_id(items, key, id, m) == first_with_id(items, key, id, n),
    decreases m - n,
{
    if m > n {
        lemma_first_sticks(items, key, id, n, m - 1);
    }
}

/// How many of the first `n` records have `id` under `key`.
pub open spec fn count_with_id(items: Seq<JsonValue>, key: Seq<char>, id: u128, n: int) -> nat
    decreases n,
{
    if n <= 0 {
        0
    } else {
        count_with_id(items, key, id, n - 1) + if has_id_text(items[n - 1], key, id) {
            1nat
        } else {
            0nat
        }
    }
}

pub const EVALUATION_OF_OTHER_PAPER: &'static str = "evaluation does not belong to the requested Paper";

/// The one evaluation with `evaluation_id`, which must be of the Paper
/// `paper_id`: not found when none has the id, an upstream failure when
/// several do or its Paper id does not read, a conflict when it is another
/// Paper's.
/// The outcome of `paper_evaluation_by_id`.
pub open spec fn evaluation_by_id_of(review: JsonValue, paper_id: u128, evaluation_id: u128) -> Result<JsonValue, Refusal> {
    match array_of(review, "evaluations"@) {
        None => Err(Refusal::Upstream),
        Some(items) => {
            let n = items.len() as int;
            if count_with_id(items, "evaluation_id"@, evaluation_id, n) == 0 {
                Err(Refusal::NotFound)
            } else if count_with_id(items, "evaluation_id"@, evaluation_id, n) > 1 {
                Err(Refusal::Upstream)
            } else {
                let k = first_with_id(items, "evaluation_id"@, evaluation_id, n)->0;
                match uuid_of(items[k], "paper_project_id"@) {
                    None => Err(Refusal::Upstream),
                    Some(p) => if p != paper_id {
                        Err(Refusal::Conflict(EVALUATION_OF_OTHER_PAPER@))
                    } else {
                        Ok(items[k])
                    },
                }
            }
        },
    }
}

pub fn paper_evaluation_by_id<'a>(review: &'a JsonValue, paper_id: u128, evaluation_id: u128) -> (r: Result<
    &'a JsonValue,
    AppError,
>)
    ensures
        match array_of(*review, "evaluations"@) {
            None => r == Err::<&JsonValue, AppError>(AppError::Upstream),
            Some(items) => {
                let n = items.len() as int;
                if count_with_id(items, "evaluation_id"@, evaluation_id, n) == 0 {
                    r == Err::<&JsonValue, AppError>(AppError::NotFound)
                } else if count_with_id(items, "evaluation_id"@, evaluation_id, n) > 1 {
                    r == Err::<&JsonValue, AppError>(AppError::Upstream)
                } else {
                    let k = first_with_id(items, "evaluation_id"@, evaluation_id, n)->0;
                    match uuid_of(items[k], "paper_project_id"@) {
                        None => r == Err::<&JsonValue, AppError>(AppError::Upstream),
                        Some(p) => if p != paper_id {
                            r matches Err(e) && is_conflict(e, EVALUATION_OF_OTHER_PAPER@)
                        } else {
                            r == Ok::<&JsonValue, AppError>(&items[k])
                        },
                    }
                }
            },
        },
        match evaluation_by_id_of(*review, paper_id, evaluation_id) {
            Ok(e) => r matches Ok(v) && *v == e,
            Err(f) => refused_as(r, f),
        },
{
    let items = match array_member(review, "evaluations") {
        Some(items) => items,
        None => return Err(AppError::Upstream),
    };
    let mut count: usize = 0;
    let mut found: usize = 0;
    let mut i: usize = 0;
    while i < items.len()
        invariant
            array_of(*review, "evaluations"@) == Some(items@),
            i <= items@.len(),
            count == count_with_id(items@, "evaluation_id"@, evaluation_id, i as int),
            count <= i,
            count > 0 ==> first_with_id(items@, "evaluation_id"@, evaluation_id, i as int) == Some(
                found as int,
            ),
            count == 0 ==> first_with_id(items@, "evaluation_id"@, evaluation_id, i as int) is None,
        decreases items.len() - i,
    {
        if id_text_is(&items[i], "evaluation_id", evaluation_id) {
            if count == 0 {
                found = i;
            }
            count = count + 1;
        }
        i = i + 1;
    }
    if count != 1 {
        return Err(
            if count == 0 {
                AppError::NotFound
            } else {
                AppError::Upstream
            },
        );
    }
    proof {
        lemma_first_with_id(items@, "evaluation_id"@, evaluation_id, items@.len() as int);
    }
    let owner = required_uuid(&items[found], "paper_project_id")?;
    if owner != paper_id {
        return Err(AppError::Conflict(EVALUATION_OF_OTHER_PAPER.to_owned()));
    }
    Ok(&items[found])
}

/// The evaluation's panel: its evaluator and the players of its two
/// attestations, all three distinct.
pub open spec fn panel_of(evaluation: JsonValue) -> Option<(u128, u128, u128)> {
    match uuid_of(evaluation, "evaluator_player_id"@) {
        None => None,
        Some(e) => match array_of(evaluation, "reviewer_attestations"@) {
            None => None,
            Some(items) => if items.len() != 2 {
                None
            } else {
                match (uuid_of(items[0], "reviewer_player_id"@), uuid_of(items[1], "reviewer_player_id"@)) {
                    (Some(a), Some(b)) => if e != a && e != b && a != b {
                        Some((e, a, b))
                    } else {
                        None
                    },
                    _ => None,
                }
            },
        },
    }
}

/// The three distinct players of an evaluation's panel (evaluator first);
/// an upstream failure when they do not read or are not three.
pub fn evaluation_panel_ids(evaluation: &JsonValue) -> (r: Result<(u128, u128, u128), AppError>)
    ensures
        match panel_of(*evaluation) {
            Some(p) => r == Ok::<(u128, u128, u128), AppError>(p),
            None => r == Err::<(u128, u128, u128), AppError>(AppError::Upstream),
        },
{
    let e = required_uuid(evaluation, "evaluator_player_id")?;
    let items = match array_member(evaluation, "reviewer_attestations") {
        Some(items) => items,
        None => return Err(AppError::Upstream),
    };
    if items.len() != 2 {
        return Err(AppError::Upstream);
    }
    let a = required_uuid(&items[0], "reviewer_player_id")?;
    let b = required_uuid(&items[1], "reviewer_player_id")?;
    if e == a || e == b || a == b {
        return Err(AppError::Upstream);
    }
    Ok((e, a, b))
}

/// Whether the player sits on the evaluation's panel.
pub fn evaluation_panel_contains(evaluation: &JsonValue, player_id: u128) -> (r: Result<bool, AppError>)
    ensures
        match panel_of(*evaluation) {
            Some((e, a, b)) => r == Ok::<bool, AppError>(player_id == e || player_id == a || player_id
                == b),
            None => r == Err::<bool, AppError>(AppError::Upstream),
        },
{
    let (e, a, b) = evaluation_panel_ids(evaluation)?;
    Ok(player_id == e || player_id == a || player_id == b)
}

/// The record is in scope: any evaluation, or one of the given submission.
pub open spec fn in_scope(v: JsonValue, submission: Option<u128>) -> bool {
    match submission {
        None => true,
        Some(s) => uuid_of(v, "submission_id"@) == Some(s),
    }
}

/// The highest version among the first `n` records in scope.
pub open spec fn max_version(items: Seq<JsonValue>, submission: Option<u128>, n: int) -> Option<u64>
    decreases n,
{
    if n <= 0 {
        None
    } else {
        let before = max_version(items, submission, n - 1);
        if in_scope(items[n - 1], submission) {
            let v = u64_of(items[n - 1], "version"@)->0;
            match before {
                Some(m) => if v > m {
                    Some(v)
                } else {
                    Some(m)
                },
                None => Some(v),
            }
        } else {
            before
        }
    }
}

/// How many of the first `n` records in scope have `version`.
pub open spec fn count_at(items: Seq<JsonValue>, submission: Option<u128>, version: u64, n: int) -> nat
    decreases n,
{
    if n <= 0 {
        0
    } else {
        count_at(items, submission, version, n - 1) + if in_scope(items[n - 1], submission) && u64_of(
            items[n - 1],
            "version"@,
        ) == Some(version) {
            1nat
        } else {
            0nat
        }
    }
}

/// The first of the first `n` records in scope with `version`.
pub open spec fn first_at(items: Seq<JsonValue>, submission: Option<u128>, version: u64, n: int) -> Option<int>
    decreases n,
{
    if n <= 0 {
        None
    } else {
        match first_at(items, submission, version, n - 1) {
            Some(k) => Some(k),
            None => if in_scope(items[n - 1], submission) && u64_of(items[n - 1], "version"@) == Some(
                version,
            ) {
                Some(n - 1)
            } else {
                None
            },
        }
    }
}

proof fn lemma_first_at(items: Seq<JsonValue>, submission: Option<u128>, version: u64, n: int)
    requires
        0 <= n <= items.len(),
    ensures
        (count_at(items, submission, version, n) == 0) == (first_at(items, submission, version, n) is None),
        first_at(items, submission, version, n) matches Some(k) ==> 0 <= k < n && in_scope(
            items[k],
            submission,
        ) && u64_of(items[k], "version"@) == Some(version),
    decreases n,
{
    if n > 0 {
        lemma_first_at(items, submission, version, n - 1);
    }
}

/// A Paper-scoped evaluation record reads: this Paper, an evaluation id, a
/// version and a release candidate.
pub open spec fn paper_record_ok(v: JsonValue, paper_id: u128) -> bool {
    &&& uuid_of(v, "paper_project_id"@) == Some(paper_id)
    &&& uuid_of(v, "evaluation_id"@) is Some
    &&& u64_of(v, "version"@) is Some
    &&& nonempty_text_of(v, "release_candidate_hash"@) is Some
}

pub const PAPER_EVALUATION_AMBIGUOUS: &'static str = "the current Paper evaluation is ambiguous";

fn u64_member(v: &JsonValue, key: &str) -> (r: Option<u64>)
    ensures
        r == u64_of(*v, key@),
{
    match v.get(key) {
        Some(x) => x.as_u64(),
        None => None,
    }
}

/// The Paper's current evaluation: the one of the highest version. Every
/// evaluation must read and be of this Paper (else an upstream failure);
/// none is not found, and two of the highest version are a conflict.
/// The outcome of `latest_paper_evaluation`.
pub open spec fn latest_paper_of(review: JsonValue, paper_id: u128) -> Result<JsonValue, Refusal> {
    match array_of(review, "evaluations"@) {
        None => Err(Refusal::Upstream),
        Some(items) => {
            let n = items.len() as int;
            if exists|k: int| 0 <= k < n && !paper_record_ok(#[trigger] items[k], paper_id) {
                Err(Refusal::Upstream)
            } else if n == 0 {
                Err(Refusal::NotFound)
            } else {
                let top = max_version(items, None, n)->0;
                if count_at(items, None, top, n) != 1 {
                    Err(Refusal::Conflict(PAPER_EVALUATION_AMBIGUOUS@))
                } else {
                    Ok(items[first_at(items, None, top, n)->0])
                }
            }
        },
    }
}

pub fn latest_paper_evaluation<'a>(review: &'a JsonValue, paper_id: u128) -> (r: Result<&'a JsonValue, AppError>)
    ensures
        match array_of(*review, "evaluations"@) {
            None => r == Err::<&JsonValue, AppError>(AppError::Upstream),
            Some(items) => {
                let n = items.len() as int;
                if exists|k: int| 0 <= k < n && !paper_record_ok(#[trigger] items[k], paper_id) {
                    r == Err::<&JsonValue, AppError>(AppError::Upstream)
                } else if n == 0 {
                    r == Err::<&JsonValue, AppError>(AppError::NotFound)
                } else {
                    let top = max_version(items, None, n)->0;
                    if count_at(items, None, top, n) != 1 {
                        r matches Err(e) && is_conflict(e, PAPER_EVALUATION_AMBIGUOUS@)
                    } else {
                        r == Ok::<&JsonValue, AppError>(&items[first_at(items, None, top, n)->0])
                    }
                }
            },
        },
        match latest_paper_of(*review, paper_id) {
            Ok(e) => r matches Ok(v) && *v == e,
            Err(f) => refused_as(r, f),
        },
{
    let items = match array_member(review, "evaluations") {
        Some(items) => items,
        None => return Err(AppError::Upstream),
    };
    let mut top: u64 = 0;
    let mut i: usize = 0;
    while i < items.len()
        invariant
            array_of(*review, "evaluations"@) == Some(items@),
            i <= items@.len(),
            forall|k: int| 0 <= k < i ==> paper_record_ok(#[trigger] items@[k], paper_id),
            i > 0 ==> max_version(items@, None, i as int) == Some(top),
            i == 0 ==> max_version(items@, None, i as int) is None,
        decreases items.len() - i,
    {
        let e = &items[i];
        let owner = match required_uuid(e, "paper_project_id") {
            Ok(p) => p,
            Err(err) => {
                assert(!paper_record_ok(items@[i as int], paper_id));
                return Err(err);
            },
        };
        if owner != paper_id {
            assert(!paper_record_ok(items@[i as int], paper_id));
            return Err(AppError::Upstream);
        }
        if required_uuid(e, "evaluation_id").is_err() || required_string(e, "release_candidate_hash").is_err() {
            assert(!paper_record_ok(items@[i as int], paper_id));
            return Err(AppError::Upstream);
        }
        let version = match u64_member(e, "version") {
            Some(v) => v,
            None => {
                assert(!paper_record_ok(items@[i as int], paper_id));
                return Err(AppError::Upstream);
            },
        };
        if i == 0 || version > top {
            top = version;
        }
        i = i + 1;
    }
    if items.len() == 0 {
        return Err(AppError::NotFound);
    }
    let mut count: usize = 0;
    let mut found: usize = 0;
    let mut j: usize = 0;
    while j < items.len()
        invariant
            j <= items@.len(),
            count == count_at(items@, None, top, j as int),
            count <= j,
            count > 0 ==> first_at(items@, None, top, j as int) == Some(found as int) && found < j,
            count == 0 ==> first_at(items@, None, top, j as int) is None,
        decreases items.len() - j,
    {
        if u64_member(&items[j], "version") == Some(top) {
            if count == 0 {
                found = j;
            }
            count = count + 1;
        }
        j = j + 1;
    }
    if count != 1 {
        return Err(AppError::Conflict(PAPER_EVALUATION_AMBIGUOUS.to_owned()));
    }
    Ok(&items[found])
}

/// A submission-scoped evaluation record reads: this Paper, an evaluation
/// id, a real version and a submission.
pub open spec fn submission_record_ok(v: JsonValue, paper_id: u128) -> bool {
    &&& uuid_of(v, "paper_project_id"@) == Some(paper_id)
    &&& uuid_of(v, "evaluation_id"@) is Some
    &&& u64_of(v, "version"@) matches Some(n) && n != 0
    &&& uuid_of(v, "submission_id"@) is Some
}

/// Some record of the submission names `id` as the evaluation it supersedes.
pub open spec fn superseded_within(items: Seq<JsonValue>, submission: u128, id: u128) -> bool {
    exists|k: int|
        0 <= k < items.len() && in_scope(#[trigger] items[k], Some(submission)) && str_field(
            items[k],
            "supersedes_evaluation_id"@,
        ) == Some(uuid_text(id))
}

pub const SUBMISSION_EVALUATION_AMBIGUOUS: &'static str = "the current rejected evaluation is ambiguous";
pub const SUBMISSION_EVALUATION_SUPERSEDED: &'static str =
    "the rejected evaluation has already been superseded";

/// The submission's current evaluation: the one of the highest version
/// among the submission's evaluations, not yet superseded by another of
/// them. Every evaluation must read and be of this Paper (else an upstream
/// failure); none for the submission is not found, two of the highest
/// version or one already superseded are conflicts.
/// The outcome of `latest_submission_evaluation`.
pub open spec fn latest_submission_of(review: JsonValue, paper_id: u128, submission_id: u128) -> Result<JsonValue, Refusal> {
    match array_of(review, "evaluations"@) {
        None => Err(Refusal::Upstream),
        Some(items) => {
            let n = items.len() as int;
            let sub = Some(submission_id);
            if exists|k: int| 0 <= k < n && !submission_record_ok(#[trigger] items[k], paper_id) {
                Err(Refusal::Upstream)
            } else {
                match max_version(items, sub, n) {
                    None => Err(Refusal::NotFound),
                    Some(top) => if count_at(items, sub, top, n) != 1 {
                        Err(Refusal::Conflict(SUBMISSION_EVALUATION_AMBIGUOUS@))
                    } else {
                        let current = items[first_at(items, sub, top, n)->0];
                        if superseded_within(items, submission_id, uuid_of(current, "evaluation_id"@)->0) {
                            Err(Refusal::Conflict(SUBMISSION_EVALUATION_SUPERSEDED@))
                        } else {
                            Ok(current)
                        }
                    },
                }
            }
        },
    }
}

proof fn lemma_max_version_bounds(items: Seq<JsonValue>, submission: Option<u128>, n: int)
    requires
        0 <= n <= items.len(),
    ensures
        max_version(items, submission, n) matches Some(m) ==> (forall|k: int|
            0 <= k < n && in_scope(#[trigger] items[k], submission) ==> u64_of(items[k], "version"@)->0
                <= m),
        max_version(items, submission, n) is None ==> forall|k: int|
            0 <= k < n ==> !in_scope(#[trigger] items[k], submission),
    decreases n,
{
    if n > 0 {
        lemma_max_version_bounds(items, submission, n - 1);
    }
}

proof fn lemma_count_two(items: Seq<JsonValue>, submission: Option<u128>, version: u64, n: int, a: int, b: int)
    requires
        0 <= a < b < n <= items.len(),
        in_scope(items[a], submission) && u64_of(items[a], "version"@) == Some(version),
        in_scope(items[b], submission) && u64_of(items[b], "version"@) == Some(version),
    ensures
        count_at(items, submission, version, n) >= 2,
    decreases n,
{
    if b < n - 1 {
        lemma_count_two(items, submission, version, n - 1, a, b);
    } else {
        lemma_first_at(items, submission, version, n - 1);
        lemma_first_at_finds(items, submission, version, n - 1, a);
    }
}

proof fn lemma_first_at_finds(items: Seq<JsonValue>, submission: Option<u128>, version: u64, n: int, a: int)
    requires
        0 <= a < n <= items.len(),
        in_scope(items[a], submission) && u64_of(items[a], "version"@) == Some(version),
    ensures
        count_at(items, submission, version, n) >= 1,
    decreases n,
{
    if a < n - 1 {
        lemma_first_at_finds(items, submission, version, n - 1, a);
    }
}

/// A submission's current evaluation is one of its evaluations, and every
/// other evaluation of the submission has a lower version: it is the
/// highest-versioned one, and the only one of that version.
pub proof fn lemma_latest_submission_is_highest(review: JsonValue, paper_id: u128, submission_id: u128)
    requires
        latest_submission_of(review, paper_id, submission_id) is Ok,
    ensures
        match array_of(review, "evaluations"@) {
            Some(items) => exists|j: int|
                #![trigger items[j]]
                0 <= j < items.len() && items[j] == latest_submission_of(
                    review,
                    paper_id,
                    submission_id,
                )->Ok_0 && in_scope(items[j], Some(submission_id)) && forall|k: int|
                    0 <= k < items.len() && k != j && in_scope(#[trigger] items[k], Some(submission_id))
                        ==> u64_of(items[k], "version"@)->0 < u64_of(items[j], "version"@)->0,
            None => false,
        },
{
    let items = array_of(review, "evaluations"@)->0;
    let n = items.len() as int;
    let sub = Some(submission_id);
    let top = max_version(items, sub, n)->0;
    lemma_max_version_bounds(items, sub, n);
    lemma_first_at(items, sub, top, n);
    let j = first_at(items, sub, top, n)->0;
    assert forall|k: int|
        0 <= k < n && k != j && in_scope(#[trigger] items[k], sub) implies u64_of(items[k], "version"@)->0
            < u64_of(items[j], "version"@)->0 by {
        assert(submission_record_ok(items[k], paper_id));
        if u64_of(items[k], "version"@)->0 == top {
            if k < j {
                lemma_count_two(items, sub, top, n, k, j);
            } else {
                lemma_count_two(items, sub, top, n, j, k);
            }
        }
    }
    assert(items[j] == latest_submission_of(review, paper_id, submission_id)->Ok_0);
}

/// A Paper's current evaluation is one of its evaluations, and every other
/// evaluation of the Paper has a lower version.
pub proof fn lemma_latest_paper_is_highest(review: JsonValue, paper_id: u128)
    requires
        latest_paper_of(review, paper_id) is Ok,
    ensures
        match array_of(review, "evaluations"@) {
            Some(items) => exists|j: int|
                #![trigger items[j]]
                0 <= j < items.len() && items[j] == latest_paper_of(review, paper_id)->Ok_0
                    && forall|k: int|
                    0 <= k < items.len() && k != j ==> u64_of(#[trigger] items[k], "version"@)->0
                        < u64_of(items[j], "version"@)->0,
            None => false,
        },
{
    let items = array_of(review, "evaluations"@)->0;
    let n = items.len() as int;
    lemma_max_version_bounds(items, None, n);
    assert(in_scope(items[0], None));
    let top = max_version(items, None, n)->0;
    lemma_first_at(items, None, top, n);
    let j = first_at(items, None, top, n)->0;
    assert forall|k: int| 0 <= k < n && k != j implies u64_of(#[trigger] items[k], "version"@)->0
        < u64_of(items[j], "version"@)->0 by {
        assert(in_scope(items[k], None));
        assert(paper_record_ok(items[k], paper_id));
        if u64_of(items[k], "version"@)->0 == top {
            if k < j {
                lemma_count_two(items, None, top, n, k, j);
            } else {
                lemma_count_two(items, None, top, n, j, k);
            }
        }
    }
    assert(items[j] == latest_paper_of(review, paper_id)->Ok_0);
}

pub fn latest_submission_evaluation<'a>(review: &'a JsonValue, paper_id: u128, submission_id: u128) -> (r: Result<
    &'a JsonValue,
    AppError,
>)
    ensures
        match array_of(*review, "evaluations"@) {
            None => r == Err::<&JsonValue, AppError>(AppError::Upstream),
            Some(items) => {
                let n = items.len() as int;
                let sub = Some(submission_id);
                if exists|k: int| 0 <= k < n && !submission_record_ok(#[trigger] items[k], paper_id) {
                    r == Err::<&JsonValue, AppError>(AppError::Upstream)
                } else {
                    match max_version(items, sub, n) {
                        None => r == Err::<&JsonValue, AppError>(AppError::NotFound),
                        Some(top) => if count_at(items, sub, top, n) != 1 {
                            r matches Err(e) && is_conflict(e, SUBMISSION_EVALUATION_AMBIGUOUS@)
                        } else {
                            let current = items[first_at(items, sub, top, n)->0];
                            if superseded_within(
                                items,
                                submission_id,
                                uuid_of(current, "evaluation_id"@)->0,
                            ) {
                                r matches Err(e) && is_conflict(e, SUBMISSION_EVALUATION_SUPERSEDED@)
                            } else {
                                r == Ok::<&JsonValue, AppError>(&items[first_at(items, sub, top, n)->0])
                            }
                        },
                    }
                }
            },
        },
        match latest_submission_of(*review, paper_id, submission_id) {
            Ok(e) => r matches Ok(v) && *v == e,
            Err(f) => refused_as(r, f),
        },
{
    let items = match array_member(review, "evaluations") {
        Some(items) => items,
        None => return Err(AppError::Upstream),
    };
    let ghost sub = Some(submission_id);
    let mut top: u64 = 0;
    let mut any = false;
    let mut i: usize = 0;
    while i < items.len()
        invariant
            array_of(*review, "evaluations"@) == Some(items@),
            sub == Some(submission_id),
            i <= items@.len(),
            forall|k: int| 0 <= k < i ==> submission_record_ok(#[trigger] items@[k], paper_id),
            any ==> max_version(items@, sub, i as int) == Some(top),
            !any ==> max_version(items@, sub, i as int) is None,
        decreases items.len() - i,
    {
        let e = &items[i];
        let owner = match required_uuid(e, "paper_project_id") {
            Ok(p) => p,
            Err(err) => {
                assert(!submission_record_ok(items@[i as int], paper_id));
                return Err(err);
            },
        };
        if owner != paper_id {
            assert(!submission_record_ok(items@[i as int], paper_id));
            return Err(AppError::Upstream);
        }
        if required_uuid(e, "evaluation_id").is_err() {
            assert(!submission_record_ok(items@[i as int], paper_id));
            return Err(AppError::Upstream);
        }
        let version = match u64_member(e, "version") {
            Some(v) => v,
            None => {
                assert(!submission_record_ok(items@[i as int], paper_id));
                return Err(AppError::Upstream);
            },
        };
        if version == 0 {
            assert(!submission_record_ok(items@[i as int], paper_id));
            return Err(AppError::Upstream);
        }
        let submission = match required_uuid(e, "submission_id") {
            Ok(s) => s,
            Err(err) => {
                assert(!submission_record_ok(items@[i as int], paper_id));
                return Err(err);
            },
        };
        if submission == submission_id {
            if !any || version > top {
                top = version;
            }
            any = true;
        }
        i = i + 1;
    }
    if !any {
        return Err(AppError::NotFound);
    }
    let mut count: usize = 0;
    let mut found: usize = 0;
    let mut j: usize = 0;
    while j < items.len()
        invariant
            sub == Some(submission_id),
            j <= items@.len(),
            forall|k: int| 0 <= k < items@.len() ==> submission_record_ok(#[trigger] items@[k], paper_id),
            count == count_at(items@, sub, top, j as int),
            count <= j,
            count > 0 ==> first_at(items@, sub, top, j as int) == Some(found as int) && found < j,
            count == 0 ==> first_at(items@, sub, top, j as int) is None,
        decreases items.len() - j,
    {
        let e = &items[j];
        let in_submission = match required_uuid(e, "submission_id") {
            Ok(s) => s == submission_id,
            Err(_) => false,
        };
        if in_submission && u64_member(e, "version") == Some(top) {
            if count == 0 {
                found = j;
            }
            count = count + 1;
        }
        j = j + 1;
    }
    if count != 1 {
        return Err(AppError::Conflict(SUBMISSION_EVALUATION_AMBIGUOUS.to_owned()));
    }
    let current = &items[found];
    let current_id = match required_uuid(current, "evaluation_id") {
        Ok(id) => id,
        Err(err) => return Err(err),
    };
    let mut q: usize = 0;
    while q < items.len()
        invariant
            sub == Some(submission_id),
            array_of(*review, "evaluations"@) == Some(items@),
            max_version(items@, sub, items@.len() as int) == Some(top),
            count_at(items@, sub, top, items@.len() as int) == 1,
            first_at(items@, sub, top, items@.len() as int) == Some(found as int),
            found < items@.len(),
            current_id == uuid_of(items@[found as int], "evaluation_id"@)->0,
            q <= items@.len(),
            forall|k: int| 0 <= k < items@.len() ==> submission_record_ok(#[trigger] items@[k], paper_id),
            forall|k: int|
                0 <= k < q ==> !(in_scope(#[trigger] items@[k], sub) && str_field(
                    items@[k],
                    "supersedes_evaluation_id"@,
                ) == Some(uuid_text(current_id))),
        decreases items.len() - q,
    {
        let e = &items[q];
        let in_submission = match required_uuid(e, "submission_id") {
            Ok(s) => s == submission_id,
            Err(_) => false,
        };
        if in_submission && id_text_is(e, "supersedes_evaluation_id", current_id) {
            assert(superseded_within(items@, submission_id, current_id)) by {
                assert(in_scope(items@[q as int], sub));
            }
            return Err(AppError::Conflict(SUBMISSION_EVALUATION_SUPERSEDED.to_owned()));
        }
        q = q + 1;
    }
    Ok(current)
}

/// Some resolution names the Appeal `appeal_id`.
pub open spec fn resolved(resolutions: Seq<JsonValue>, appeal_id: Seq<char>) -> bool {
    exists|k: int|
        0 <= k < resolutions.len() && str_field(#[trigger] resolutions[k], "appeal_id"@) == Some(
            appeal_id,
        )
}

/// An Appeal record reads: of this Paper, and with an Appeal id where it is
/// against the evaluation in question.
pub open spec fn appeal_record_ok(a: JsonValue, paper_id: u128, evaluation_id: u128) -> bool {
    &&& uuid_of(a, "paper_project_id"@) == Some(paper_id)
    &&& has_id_text(a, "evaluation_id"@, evaluation_id) ==> nonempty_text_of(a, "appeal_id"@) is Some
}

/// The Appeal is against the evaluation and not resolved.
pub open spec fn open_appeal(a: JsonValue, evaluation_id: u128, resolutions: Seq<JsonValue>) -> bool {
    has_id_text(a, "evaluation_id"@, evaluation_id) && !resolved(
        resolutions,
        nonempty_text_of(a, "appeal_id"@)->0,
    )
}

pub open spec fn count_open(appeals: Seq<JsonValue>, evaluation_id: u128, resolutions: Seq<JsonValue>, n: int) -> nat
    decreases n,
{
    if n <= 0 {
        0
    } else {
        count_open(appeals, evaluation_id, resolutions, n - 1) + if open_appeal(
            appeals[n - 1],
            evaluation_id,
            resolutions,
        ) {
            1nat
        } else {
            0nat
        }
    }
}

pub open spec fn first_open(appeals: Seq<JsonValue>, evaluation_id: u128, resolutions: Seq<JsonValue>, n: int) -> Option<int>
    decreases n,
{
    if n <= 0 {
        None
    } else {
        match first_open(appeals, evaluation_id, resolutions, n - 1) {
            Some(k) => Some(k),
            None => if open_appeal(appeals[n - 1], evaluation_id, resolutions) {
                Some(n - 1)
            } else {
                None
            },
        }
    }
}

proof fn lemma_first_open(appeals: Seq<JsonValue>, evaluation_id: u128, resolutions: Seq<JsonValue>, n: int)
    requires
        0 <= n <= appeals.len(),
    ensures
        (count_open(appeals, evaluation_id, resolutions, n) == 0) == (first_open(
            appeals,
            evaluation_id,
            resolutions,
            n,
        ) is None),
        first_open(appeals, evaluation_id, resolutions, n) matches Some(k) ==> 0 <= k < n,
    decreases n,
{
    if n > 0 {
        lemma_first_open(appeals, evaluation_id, resolutions, n - 1);
    }
}

pub const MULTIPLE_OPEN_APPEALS: &'static str = "multiple unresolved Appeals are visible";

fn is_resolved(resolutions: &Vec<JsonValue>, appeal_id: &str) -> (r: bool)
    ensures
        r == resolved(resolutions@, appeal_id@),
{
    let mut k: usize = 0;
    while k < resolutions.len()
        invariant
            k <= resolutions@.len(),
            forall|q: int| 0 <= q < k ==> str_field(#[trigger] resolutions@[q], "appeal_id"@) != Some(appeal_id@),
        decreases resolutions.len() - k,
    {
        match resolutions[k].get("appeal_id") {
            Some(v) => match v.as_str() {
                Some(t) => if str_eq(t, appeal_id) {
                    return true;
                },
                None => {},
            },
            None => {},
        }
        k = k + 1;
    }
    false
}

/// The one unresolved Appeal against the evaluation: the Appeals and their
/// resolutions must be listed and every Appeal be of this Paper (with an id
/// where it is against this evaluation), else an upstream failure; none is
/// not found, several are a conflict.
/// The outcome of `exact_open_appeal`.
pub open spec fn open_appeal_of(review: JsonValue, paper_id: u128, evaluation_id: u128) -> Result<JsonValue, Refusal> {
    match (array_of(review, "resolutions"@), array_of(review, "appeals"@)) {
        (Some(resolutions), Some(appeals)) => {
            let n = appeals.len() as int;
            if exists|k: int| 0 <= k < n && !appeal_record_ok(#[trigger] appeals[k], paper_id, evaluation_id) {
                Err(Refusal::Upstream)
            } else if count_open(appeals, evaluation_id, resolutions, n) == 0 {
                Err(Refusal::NotFound)
            } else if count_open(appeals, evaluation_id, resolutions, n) > 1 {
                Err(Refusal::Conflict(MULTIPLE_OPEN_APPEALS@))
            } else {
                Ok(appeals[first_open(appeals, evaluation_id, resolutions, n)->0])
            }
        },
        _ => Err(Refusal::Upstream),
    }
}

pub fn exact_open_appeal<'a>(review: &'a JsonValue, paper_id: u128, evaluation_id: u128) -> (r: Result<&'a JsonValue, AppError>)
    ensures
        match open_appeal_of(*review, paper_id, evaluation_id) {
            Ok(a) => r matches Ok(v) && *v == a,
            Err(f) => refused_as(r, f),
        },
        match (array_of(*review, "resolutions"@), array_of(*review, "appeals"@)) {
            (Some(resolutions), Some(appeals)) => {
                let n = appeals.len() as int;
                if exists|k: int| 0 <= k < n && !appeal_record_ok(#[trigger] appeals[k], paper_id, evaluation_id) {
                    r == Err::<&JsonValue, AppError>(AppError::Upstream)
                } else if count_open(appeals, evaluation_id, resolutions, n) == 0 {
                    r == Err::<&JsonValue, AppError>(AppError::NotFound)
                } else if count_open(appeals, evaluation_id, resolutions, n) > 1 {
                    r matches Err(e) && is_conflict(e, MULTIPLE_OPEN_APPEALS@)
                } else {
                    r == Ok::<&JsonValue, AppError>(&appeals[first_open(appeals, evaluation_id, resolutions, n)->0])
                }
            },
            _ => r == Err::<&JsonValue, AppError>(AppError::Upstream),
        },
{
    let resolutions = match array_member(review, "resolutions") {
        Some(items) => items,
        None => return Err(AppError::Upstream),
    };
    let appeals = match array_member(review, "appeals") {
        Some(items) => items,
        None => return Err(AppError::Upstream),
    };
    let mut count: usize = 0;
    let mut found: usize = 0;
    let mut i: usize = 0;
    while i < appeals.len()
        invariant
            array_of(*review, "resolutions"@) == Some(resolutions@),
            array_of(*review, "appeals"@) == Some(appeals@),
            i <= appeals@.len(),
            forall|k: int| 0 <= k < i ==> appeal_record_ok(#[trigger] appeals@[k], paper_id, evaluation_id),
            count == count_open(appeals@, evaluation_id, resolutions@, i as int),
            count <= i,
            count > 0 ==> first_open(appeals@, evaluation_id, resolutions@, i as int) == Some(found as int)
                && found < i,
            count == 0 ==> first_open(appeals@, evaluation_id, resolutions@, i as int) is None,
        decreases appeals.len() - i,
    {
        let a = &appeals[i];
        let owner = match required_uuid(a, "paper_project_id") {
            Ok(p) => p,
            Err(err) => {
                assert(!appeal_record_ok(appeals@[i as int], paper_id, evaluation_id));
                return Err(err);
            },
        };
        if owner != paper_id {
            assert(!appeal_record_ok(appeals@[i as int], paper_id, evaluation_id));
            return Err(AppError::Upstream);
        }
        if id_text_is(a, "evaluation_id", evaluation_id) {
            let appeal_id = match required_string(a, "appeal_id") {
                Ok(t) => t,
                Err(err) => {
                    assert(!appeal_record_ok(appeals@[i as int], paper_id, evaluation_id));
                    return Err(err);
                },
            };
            if !is_resolved(resolutions, appeal_id.as_str()) {
                if count == 0 {
                    found = i;
                }
                count = count + 1;
            }
        }
        i = i + 1;
    }
    if count != 1 {
        return Err(
            if count == 0 {
                AppError::NotFound
            } else {
                AppError::Conflict(MULTIPLE_OPEN_APPEALS.to_owned())
            },
        );
    }
    Ok(&appeals[found])
}

/// The manifest is the one asked for: by id (in any UUID spelling) and by
/// hash, each where given.
pub open spec fn manifest_matches(m: JsonValue, manifest_id: Option<u128>, manifest_hash: Option<Seq<char>>) -> bool {
    (match manifest_id {
        None => true,
        Some(id) => uuid_of(m, "manifest_id"@) == Some(id),
    }) && (match manifest_hash {
        None => true,
        Some(h) => str_field(m, "manifest_hash"@) == Some(h),
    })
}

pub open spec fn count_manifests(items: Seq<JsonValue>, id: Option<u128>, hash: Option<Seq<char>>, n: int) -> nat
    decreases n,
{
    if n <= 0 {
        0
    } else {
        count_manifests(items, id, hash, n - 1) + if manifest_matches(items[n - 1], id, hash) {
            1nat
        } else {
            0nat
        }
    }
}

pub open spec fn first_manifest(items: Seq<JsonValue>, id: Option<u128>, hash: Option<Seq<char>>, n: int) -> Option<int>
    decreases n,
{
    if n <= 0 {
        None
    } else {
        match first_manifest(items, id, hash, n - 1) {
            Some(k) => Some(k),
            None => if manifest_matches(items[n - 1], id, hash) {
                Some(n - 1)
            } else {
                None
            },
        }
    }
}

pub const MANIFEST_AMBIGUOUS: &'static str = "the selected evidence manifest is ambiguous";
pub const MANIFEST_OF_OTHER_PAPER: &'static str = "the selected evidence manifest belongs to another Paper";

fn manifest_check(m: &JsonValue, manifest_id: Option<u128>, manifest_hash: Option<&str>) -> (r: bool)
    ensures
        r == manifest_matches(
            *m,
            manifest_id,
            match manifest_hash {
                Some(h) => Some(h@),
                None => None,
            },
        ),
{
    let id_ok = match manifest_id {
        None => true,
        Some(id) => match required_uuid(m, "manifest_id") {
            Ok(u) => u == id,
            Err(_) => false,
        },
    };
    let hash_ok = match manifest_hash {
        None => true,
        Some(h) => match m.get("manifest_hash") {
            Some(v) => match v.as_str() {
                Some(t) => str_eq(t, h),
                None => false,
            },
            None => false,
        },
    };
    id_ok && hash_ok
}

/// The hash of the one evidence manifest selected by id and/or hash, which
/// must be of this Paper: the manifests must be listed (else an upstream
/// failure); none selected is not found, several are a conflict, another
/// Paper's is a conflict, and an unreadable Paper id or hash is an upstream
/// failure.
/// The outcome of `exact_manifest_hash`.
pub open spec fn manifest_hash_of(room: JsonValue, paper_id: u128, manifest_id: Option<u128>, wanted: Option<Seq<char>>) -> Result<Seq<char>, Refusal> {
    match array_of(room, "artifact_manifests"@) {
        None => Err(Refusal::Upstream),
        Some(items) => {
            let n = items.len() as int;
            if count_manifests(items, manifest_id, wanted, n) == 0 {
                Err(Refusal::NotFound)
            } else if count_manifests(items, manifest_id, wanted, n) > 1 {
                Err(Refusal::Conflict(MANIFEST_AMBIGUOUS@))
            } else {
                let m = items[first_manifest(items, manifest_id, wanted, n)->0];
                match uuid_of(m, "paper_project_id"@) {
                    None => Err(Refusal::Upstream),
                    Some(p) => if p != paper_id {
                        Err(Refusal::Conflict(MANIFEST_OF_OTHER_PAPER@))
                    } else {
                        match nonempty_text_of(m, "manifest_hash"@) {
                            Some(h) => Ok(h),
                            None => Err(Refusal::Upstream),
                        }
                    },
                }
            }
        },
    }
}

pub fn exact_manifest_hash(room: &JsonValue, paper_id: u128, manifest_id: Option<u128>, manifest_hash: Option<&str>) -> (r: Result<String, AppError>)
    ensures
        match manifest_hash_of(
            *room,
            paper_id,
            manifest_id,
            match manifest_hash {
                Some(h) => Some(h@),
                None => None,
            },
        ) {
            Ok(h) => r matches Ok(s) && s@ == h,
            Err(f) => refused_as(r, f),
        },
        ({
            let wanted = match manifest_hash {
                Some(h) => Some(h@),
                None => None,
            };
            match array_of(*room, "artifact_manifests"@) {
                None => r == Err::<String, AppError>(AppError::Upstream),
                Some(items) => {
                    let n = items.len() as int;
                    if count_manifests(items, manifest_id, wanted, n) == 0 {
                        r == Err::<String, AppError>(AppError::NotFound)
                    } else if count_manifests(items, manifest_id, wanted, n) > 1 {
                        r matches Err(e) && is_conflict(e, MANIFEST_AMBIGUOUS@)
                    } else {
                        let m = items[first_manifest(items, manifest_id, wanted, n)->0];
                        match uuid_of(m, "paper_project_id"@) {
                            None => r == Err::<String, AppError>(AppError::Upstream),
                            Some(p) => if p != paper_id {
                                r matches Err(e) && is_conflict(e, MANIFEST_OF_OTHER_PAPER@)
                            } else {
                                match nonempty_text_of(m, "manifest_hash"@) {
                                    Some(h) => r matches Ok(s) && s@ == h,
                                    None => r == Err::<String, AppError>(AppError::Upstream),
                                }
                            },
                        }
                    }
                },
            }
        }),
{
    let ghost wanted = match manifest_hash {
        Some(h) => Some(h@),
        None => None,
    };
    let items = match array_member(room, "artifact_manifests") {
        Some(items) => items,
        None => return Err(AppError::Upstream),
    };
    let mut count: usize = 0;
    let mut found: usize = 0;
    let mut i: usize = 0;
    while i < items.len()
        invariant
            wanted == match manifest_hash {
                Some(h) => Some(h@),
                None => None::<Seq<char>>,
            },
            i <= items@.len(),
            count == count_manifests(items@, manifest_id, wanted, i as int),
            count <= i,
            count > 0 ==> first_manifest(items@, manifest_id, wanted, i as int) == Some(found as int)
                && found < i,
            count == 0 ==> first_manifest(items@, manifest_id, wanted, i as int) is None,
        decreases items.len() - i,
    {
        if manifest_check(&items[i], manifest_id, manifest_hash) {
            if count == 0 {
                found = i;
            }
            count = count + 1;
        }
        i = i + 1;
    }
    if count != 1 {
        return Err(
            if count == 0 {
                AppError::NotFound
            } else {
                AppError::Conflict(MANIFEST_AMBIGUOUS.to_owned())
            },
        );
    }
    let m = &items[found];
    let owner = required_uuid(m, "paper_project_id")?;
    if owner != paper_id {
        return Err(AppError::Conflict(MANIFEST_OF_OTHER_PAPER.to_owned()));
    }
    required_string(m, "manifest_hash")
}

/// What the appealed evaluation fixes for one that supersedes it: its
/// Paper, submission, release candidate, bundle and next version.
pub struct AppealedRelease {
    pub evaluation_id: u128,
    pub paper_id: u128,
    pub submission_id: u128,
    pub release_candidate_hash: Seq<char>,
    pub paper_bundle_hash: Seq<char>,
    pub next_version: int,
}

pub open spec fn appealed_release(appealed: JsonValue) -> Option<AppealedRelease> {
    match (
        uuid_of(appealed, "evaluation_id"@),
        uuid_of(appealed, "paper_project_id"@),
        uuid_of(appealed, "submission_id"@),
        nonempty_text_of(appealed, "release_candidate_hash"@),
        nonempty_text_of(appealed, "paper_bundle_hash"@),
        u64_of(appealed, "version"@),
    ) {
        (Some(e), Some(p), Some(s), Some(rc), Some(b), Some(v)) => if v < u64::MAX {
            Some(
                AppealedRelease {
                    evaluation_id: e,
                    paper_id: p,
                    submission_id: s,
                    release_candidate_hash: rc,
                    paper_bundle_hash: b,
                    next_version: v + 1,
                },
            )
        } else {
            None
        },
        _ => None,
    }
}

/// How a candidate binds the appealed release, field by field in order: a
/// field that does not read stops with an upstream failure, a field that
/// differs with a conflict.
pub enum Binding {
    Bound,
    Unreadable,
    Unbound,
}

pub open spec fn binding_of(c: JsonValue, a: AppealedRelease) -> Binding {
    match uuid_of(c, "paper_project_id"@) {
        None => Binding::Unreadable,
        Some(p) => if p != a.paper_id {
            Binding::Unbound
        } else {
            match uuid_of(c, "submission_id"@) {
                None => Binding::Unreadable,
                Some(s) => if s != a.submission_id {
                    Binding::Unbound
                } else {
                    match nonempty_text_of(c, "release_candidate_hash"@) {
                        None => Binding::Unreadable,
                        Some(rc) => if rc != a.release_candidate_hash {
                            Binding::Unbound
                        } else {
                            match nonempty_text_of(c, "paper_bundle_hash"@) {
                                None => Binding::Unreadable,
                                Some(b) => if b != a.paper_bundle_hash {
                                    Binding::Unbound
                                } else {
                                    match u64_of(c, "version"@) {
                                        None => Binding::Unreadable,
                                        Some(v) => if v != a.next_version {
                                            Binding::Unbound
                                        } else {
                                            Binding::Bound
                                        },
                                    }
                                },
                            }
                        },
                    }
                },
            }
        },
    }
}

/// The two panels share no player.
pub open spec fn panels_disjoint(x: (u128, u128, u128), y: (u128, u128, u128)) -> bool {
    &&& x.0 != y.0 && x.0 != y.1 && x.0 != y.2
    &&& x.1 != y.0 && x.1 != y.1 && x.1 != y.2
    &&& x.2 != y.0 && x.2 != y.1 && x.2 != y.2
}

pub const LINEAGE_AMBIGUOUS: &'static str = "the superseding evaluation lineage is ambiguous";
pub const LINEAGE_UNBOUND: &'static str =
    "the superseding evaluation does not bind the exact appealed release";
pub const PANEL_NOT_INDEPENDENT: &'static str = "the superseding evaluation panel is not independent";

fn binding_check(c: &JsonValue, paper_id: u128, submission_id: u128, rc: &str, bundle: &str, next_version: u64) -> (r: Result<bool, AppError>)
    ensures
        ({
            let a = AppealedRelease {
                evaluation_id: 0,
                paper_id,
                submission_id,
                release_candidate_hash: rc@,
                paper_bundle_hash: bundle@,
                next_version: next_version as int,
            };
            match binding_of(*c, a) {
                Binding::Bound => r == Ok::<bool, AppError>(true),
                Binding::Unbound => r == Ok::<bool, AppError>(false),
                Binding::Unreadable => r == Err::<bool, AppError>(AppError::Upstream),
            }
        }),
{
    if required_uuid(c, "paper_project_id")? != paper_id {
        return Ok(false);
    }
    if required_uuid(c, "submission_id")? != submission_id {
        return Ok(false);
    }
    if !str_eq(required_string(c, "release_candidate_hash")?.as_str(), rc) {
        return Ok(false);
    }
    if !str_eq(required_string(c, "paper_bundle_hash")?.as_str(), bundle) {
        return Ok(false);
    }
    match u64_member(c, "version") {
        None => Err(AppError::Upstream),
        Some(v) => Ok(v == next_version),
    }
}

/// The one evaluation that supersedes the appealed one, if any: it must
/// bind the appealed Paper, submission, release candidate and bundle at the
/// next version, and its panel must share no player with the appealed
/// panel. Two candidates, a candidate that binds another release, or a
/// panel that is not independent are conflicts; whatever does not read is
/// an upstream failure.
/// The outcome of `exact_superseding_evaluation`.
pub open spec fn superseding_of(review: JsonValue, appealed: JsonValue) -> Result<Option<JsonValue>, Refusal> {
    match appealed_release(appealed) {
        None => Err(Refusal::Upstream),
        Some(a) => match array_of(review, "evaluations"@) {
            None => Err(Refusal::Upstream),
            Some(items) => {
                let n = items.len() as int;
                let key = "supersedes_evaluation_id"@;
                if count_with_id(items, key, a.evaluation_id, n) == 0 {
                    Ok(None)
                } else if count_with_id(items, key, a.evaluation_id, n) > 1 {
                    Err(Refusal::Conflict(LINEAGE_AMBIGUOUS@))
                } else {
                    let k = first_with_id(items, key, a.evaluation_id, n)->0;
                    match binding_of(items[k], a) {
                        Binding::Unreadable => Err(Refusal::Upstream),
                        Binding::Unbound => Err(Refusal::Conflict(LINEAGE_UNBOUND@)),
                        Binding::Bound => match (panel_of(appealed), panel_of(items[k])) {
                            (Some(x), Some(y)) => if panels_disjoint(x, y) {
                                Ok(Some(items[k]))
                            } else {
                                Err(Refusal::Conflict(PANEL_NOT_INDEPENDENT@))
                            },
                            _ => Err(Refusal::Upstream),
                        },
                    }
                }
            },
        },
    }
}

pub fn exact_superseding_evaluation<'a>(review: &'a JsonValue, appealed: &JsonValue) -> (r: Result<
    Option<&'a JsonValue>,
    AppError,
>)
    ensures
        match superseding_of(*review, *appealed) {
            Ok(None) => r matches Ok(None),
            Ok(Some(c)) => r matches Ok(Some(v)) && *v == c,
            Err(f) => refused_as(r, f),
        },
        match appealed_release(*appealed) {
            None => r == Err::<Option<&JsonValue>, AppError>(AppError::Upstream),
            Some(a) => match array_of(*review, "evaluations"@) {
                None => r == Err::<Option<&JsonValue>, AppError>(AppError::Upstream),
                Some(items) => {
                    let n = items.len() as int;
                    let key = "supersedes_evaluation_id"@;
                    if count_with_id(items, key, a.evaluation_id, n) == 0 {
                        r == Ok::<Option<&JsonValue>, AppError>(None)
                    } else if count_with_id(items, key, a.evaluation_id, n) > 1 {
                        r matches Err(e) && is_conflict(e, LINEAGE_AMBIGUOUS@)
                    } else {
                        let k = first_with_id(items, key, a.evaluation_id, n)->0;
                        match binding_of(items[k], a) {
                            Binding::Unreadable => r == Err::<Option<&JsonValue>, AppError>(AppError::Upstream),
                            Binding::Unbound => r matches Err(e) && is_conflict(e, LINEAGE_UNBOUND@),
                            Binding::Bound => match (panel_of(*appealed), panel_of(items[k])) {
                                (Some(x), Some(y)) => if panels_disjoint(x, y) {
                                    r == Ok::<Option<&JsonValue>, AppError>(Some(&items[k]))
                                } else {
                                    r matches Err(e) && is_conflict(e, PANEL_NOT_INDEPENDENT@)
                                },
                                _ => r == Err::<Option<&JsonValue>, AppError>(AppError::Upstream),
                            },
                        }
                    }
                },
            },
        },
{
    let appealed_id = required_uuid(appealed, "evaluation_id")?;
    let paper_id = required_uuid(appealed, "paper_project_id")?;
    let submission_id = required_uuid(appealed, "submission_id")?;
    let rc = required_string(appealed, "release_candidate_hash")?;
    let bundle = required_string(appealed, "paper_bundle_hash")?;
    let version = match u64_member(appealed, "version") {
        Some(v) => v,
        None => return Err(AppError::Upstream),
    };
    if version == u64::MAX {
        return Err(AppError::Upstream);
    }
    let next_version = version + 1;
    let ghost a = appealed_release(*appealed)->0;
    let items = match array_member(review, "evaluations") {
        Some(items) => items,
        None => return Err(AppError::Upstream),
    };
    let mut count: usize = 0;
    let mut found: usize = 0;
    let mut i: usize = 0;
    while i < items.len()
        invariant
            i <= items@.len(),
            count == count_with_id(items@, "supersedes_evaluation_id"@, appealed_id, i as int),
            count <= i,
            count > 0 ==> first_with_id(items@, "supersedes_evaluation_id"@, appealed_id, i as int)
                == Some(found as int) && found < i,
            count == 0 ==> first_with_id(items@, "supersedes_evaluation_id"@, appealed_id, i as int) is None,
        decreases items.len() - i,
    {
        if id_text_is(&items[i], "supersedes_evaluation_id", appealed_id) {
            if count == 0 {
                found = i;
            }
            count = count + 1;
        }
        i = i + 1;
    }
    if count == 0 {
        return Ok(None);
    }
    if count > 1 {
        return Err(AppError::Conflict(LINEAGE_AMBIGUOUS.to_owned()));
    }
    let candidate = &items[found];
    if !binding_check(candidate, paper_id, submission_id, rc.as_str(), bundle.as_str(), next_version)? {
        return Err(AppError::Conflict(LINEAGE_UNBOUND.to_owned()));
    }
    let x = evaluation_panel_ids(appealed)?;
    let y = evaluation_panel_ids(candidate)?;
    if !(x.0 != y.0 && x.0 != y.1 && x.0 != y.2 && x.1 != y.0 && x.1 != y.1 && x.1 != y.2 && x.2
        != y.0 && x.2 != y.1 && x.2 != y.2) {
        return Err(AppError::Conflict(PANEL_NOT_INDEPENDENT.to_owned()));
    }
    Ok(Some(candidate))
}

/// A digest label that is not the all-zero digest.
pub open spec fn nonzero_digest(t: Seq<char>) -> bool {
    crate::text::is_digest_text(t) && t != "sha256:"@ + Seq::new(64, |i: int| '0')
}

fn nonzero_digest_check(t: &str) -> (r: bool)
    ensures
        r == nonzero_digest(t@),
{
    if !crate::text::valid_digest_label(t) {
        return false;
    }
    let mut zero: Vec<char> = Vec::new();
    crate::text::push_str(&mut zero, "sha256:");
    let mut i: usize = 0;
    while i < 64
        invariant
            i <= 64,
            zero@ == "sha256:"@ + Seq::new(i as nat, |k: int| '0'),
        decreases 64 - i,
    {
        zero.push('0');
        i = i + 1;
        assert(zero@ =~= "sha256:"@ + Seq::new(i as nat, |k: int| '0'));
    }
    !chars_eq_str(&zero, t)
}

pub const REWORK_RECORD_SCHEMA: &'static str = "hepta.paper_raid.rework_record.v1";
pub const REWORK_RESUBMISSION_SCHEMA: &'static str = "hepta.paper_raid.rework_resubmission.v1";
pub const ACTIVE_REPLACEMENT: &'static str = "Paper already has an active replacement workflow";
pub const REWORK_CYCLE_OVERFLOW: &'static str = "Paper rework cycle overflow";

/// The rework record of a history entry reads: an object of this Paper's
/// rework schema with an id, a cycle of at least 2 and a non-zero rejected
/// commitment.
pub open spec fn rework_fields_ok(rework: JsonValue, paper_id: u128) -> bool {
    &&& rework is Object
    &&& uuid_of(rework, "rework_id"@) is Some
    &&& match u64_of(rework, "rework_cycle"@) {
        Some(c) => c >= 2,
        None => false,
    }
    &&& match nonempty_text_of(rework, "rejected_rework_content_commitment_sha256"@) {
        Some(t) => nonzero_digest(t),
        None => false,
    }
    &&& str_field(rework, "schema"@) == Some(REWORK_RECORD_SCHEMA@)
    &&& uuid_of(rework, "paper_project_id"@) == Some(paper_id)
}

/// The rework half of a history entry reads: an entry of exactly two
/// members whose rework record reads.
pub open spec fn rework_ok(state: JsonValue, paper_id: u128) -> bool {
    match state {
        JsonValue::Object(members) => members@.len() == 2 && match state.spec_get("rework"@) {
            Some(rework) => rework_fields_ok(rework, paper_id),
            None => false,
        },
        _ => false,
    }
}

/// The entry's rework id and cycle.
pub open spec fn rework_key(state: JsonValue) -> (u128, u64) {
    let rework = state.spec_get("rework"@)->0;
    (uuid_of(rework, "rework_id"@)->0, u64_of(rework, "rework_cycle"@)->0)
}

/// An earlier entry has the same rework id or the same cycle.
pub open spec fn repeats_earlier(records: Seq<JsonValue>, k: int) -> bool {
    exists|j: int|
        0 <= j < k && (rework_key(#[trigger] records[j]).0 == rework_key(records[k]).0 || rework_key(
            records[j],
        ).1 == rework_key(records[k]).1)
}

/// The entry's resubmission is written out as null: a replacement is under way.
pub open spec fn resubmission_pending(state: JsonValue) -> bool {
    state.spec_get("resubmission"@) == Some(JsonValue::Null)
}

/// The rejected commitment of the entry's rework.
pub open spec fn rejected_commitment(state: JsonValue) -> Seq<char> {
    nonempty_text_of(state.spec_get("rework"@)->0, "rejected_rework_content_commitment_sha256"@)->0
}

/// A resubmission record binds its rework: this Paper, the rework's id,
/// review round 1, and a non-zero replacement commitment that differs from
/// the rejected one.
pub open spec fn resubmission_fields_ok(r: JsonValue, paper_id: u128, rework_id: u128, rejected: Seq<char>) -> bool {
    &&& r != JsonValue::Null
    &&& str_field(r, "schema"@) == Some(REWORK_RESUBMISSION_SCHEMA@)
    &&& uuid_of(r, "rework_id"@) == Some(rework_id)
    &&& uuid_of(r, "paper_project_id"@) == Some(paper_id)
    &&& u64_of(r, "replacement_review_round"@) == Some(1u64)
    &&& match nonempty_text_of(r, "replacement_rework_content_commitment_sha256"@) {
        Some(t) => nonzero_digest(t) && t != rejected,
        None => false,
    }
}

/// The entry's resubmission reads and binds its rework.
pub open spec fn resubmission_ok(state: JsonValue, paper_id: u128) -> bool {
    match state.spec_get("resubmission"@) {
        Some(r) => resubmission_fields_ok(r, paper_id, rework_key(state).0, rejected_commitment(state)),
        None => false,
    }
}

/// The entry ends the scan: it does not read, repeats an earlier id or
/// cycle, or has no complete resubmission.
pub open spec fn stops_at(records: Seq<JsonValue>, paper_id: u128, k: int) -> bool {
    !rework_ok(records[k], paper_id) || repeats_earlier(records, k) || !resubmission_ok(
        records[k],
        paper_id,
    )
}

pub open spec fn first_stop(records: Seq<JsonValue>, paper_id: u128, n: int) -> Option<int>
    decreases n,
{
    if n <= 0 {
        None
    } else {
        match first_stop(records, paper_id, n - 1) {
            Some(k) => Some(k),
            None => if stops_at(records, paper_id, n - 1) {
                Some(n - 1)
            } else {
                None
            },
        }
    }
}

/// The highest cycle of the first `n` entries, and at least 1.
pub open spec fn max_cycle(records: Seq<JsonValue>, n: int) -> u64
    decreases n,
{
    if n <= 0 {
        1
    } else {
        let before = max_cycle(records, n - 1);
        let c = rework_key(records[n - 1]).1;
        if c > before {
            c
        } else {
            before
        }
    }
}

/// Some entry has cycle `c`.
pub open spec fn has_cycle(records: Seq<JsonValue>, c: u64) -> bool {
    exists|k: int| 0 <= k < records.len() && #[trigger] rework_key(records[k]).1 == c
}

/// Every cycle from 2 up to the highest is some entry's.
pub open spec fn cycles_contiguous(records: Seq<JsonValue>) -> bool {
    forall|c: u64| 2 <= c <= max_cycle(records, records.len() as int) ==> #[trigger] has_cycle(records, c)
}

proof fn lemma_first_stop_sticks(records: Seq<JsonValue>, paper_id: u128, n: int, m: int)
    requires
        0 <= n <= m,
        first_stop(records, paper_id, n) is Some,
    ensures
        first_stop(records, paper_id, m) == first_stop(records, paper_id, n),
    decreases m - n,
{
    if m > n {
        lemma_first_stop_sticks(records, paper_id, n, m - 1);
    }
}

proof fn lemma_max_cycle_bounds(records: Seq<JsonValue>, n: int)
    requires
        0 <= n <= records.len(),
    ensures
        max_cycle(records, n) >= 1,
        forall|k: int| 0 <= k < n ==> rework_key(#[trigger] records[k]).1 <= max_cycle(records, n),
    decreases n,
{
    if n > 0 {
        lemma_max_cycle_bounds(records, n - 1);
    }
}

/// The string member `key` is exactly `want`.
fn str_is(v: &JsonValue, key: &str, want: &str) -> (r: bool)
    ensures
        r == (str_field(*v, key@) == Some(want@)),
{
    match v.get(key) {
        Some(JsonValue::String(t)) => str_eq(t.as_str(), want),
        _ => false,
    }
}

/// The id and cycle of a history entry whose rework half reads.
fn rework_entry_key(state: &JsonValue, paper_id: u128) -> (r: Option<(u128, u64)>)
    ensures
        r is Some <==> rework_ok(*state, paper_id),
        r matches Some(key) ==> key == rework_key(*state),
{
    match state {
        JsonValue::Object(members) => {
            if members.len() != 2 {
                return None;
            }
        },
        _ => return None,
    }
    let rework = match state.get("rework") {
        Some(rework) => rework,
        None => return None,
    };
    match rework {
        JsonValue::Object(_) => {},
        _ => return None,
    }
    let id = match required_uuid(rework, "rework_id") {
        Ok(id) => id,
        Err(_) => return None,
    };
    let cycle = match u64_member(rework, "rework_cycle") {
        Some(c) => c,
        None => return None,
    };
    let rejected = match required_string(rework, "rejected_rework_content_commitment_sha256") {
        Ok(t) => t,
        Err(_) => return None,
    };
    if cycle < 2 || !nonzero_digest_check(rejected.as_str()) || !str_is(
        rework,
        "schema",
        REWORK_RECORD_SCHEMA,
    ) {
        return None;
    }
    match required_uuid(rework, "paper_project_id") {
        Ok(p) => if p != paper_id {
            return None;
        },
        Err(_) => return None,
    }
    Some((id, cycle))
}

/// Two keys share their id or their cycle.
pub open spec fn keys_clash(a: (u128, u64), b: (u128, u64)) -> bool {
    a.0 == b.0 || a.1 == b.1
}

/// Whether an earlier key has the same id or the same cycle.
fn key_repeats(keys: &Vec<(u128, u64)>, key: (u128, u64)) -> (r: bool)
    ensures
        r == exists|j: int| 0 <= j < keys@.len() && #[trigger] keys_clash(keys@[j], key),
{
    let mut j: usize = 0;
    while j < keys.len()
        invariant
            j <= keys@.len(),
            forall|m: int| 0 <= m < j ==> !#[trigger] keys_clash(keys@[m], key),
        decreases keys.len() - j,
    {
        if keys[j].0 == key.0 || keys[j].1 == key.1 {
            assert(keys_clash(keys@[j as int], key));
            return true;
        }
        assert(!keys_clash(keys@[j as int], key));
        j = j + 1;
    }
    false
}

/// Whether the resubmission record binds the entry's rework.
fn resubmission_check(r: &JsonValue, paper_id: u128, rework_id: u128, rejected: &str) -> (ok: bool)
    ensures
        ok == resubmission_fields_ok(*r, paper_id, rework_id, rejected@),
{
    match r {
        JsonValue::Null => return false,
        _ => {},
    }
    if !str_is(r, "schema", REWORK_RESUBMISSION_SCHEMA) {
        return false;
    }
    match required_uuid(r, "rework_id") {
        Ok(id) => if id != rework_id {
            return false;
        },
        Err(_) => return false,
    }
    match required_uuid(r, "paper_project_id") {
        Ok(p) => if p != paper_id {
            return false;
        },
        Err(_) => return false,
    }
    match u64_member(r, "replacement_review_round") {
        Some(round) => if round != 1 {
            return false;
        },
        None => return false,
    }
    match required_string(r, "replacement_rework_content_commitment_sha256") {
        Ok(t) => nonzero_digest_check(t.as_str()) && !str_eq(t.as_str(), rejected),
        Err(_) => false,
    }
}

/// The cycle number of the Paper's next rework, read from its rework
/// history: every entry must be a rework of this Paper with a fresh id and
/// a fresh cycle of at least 2 and a complete resubmission; the cycles must
/// run from 2 without a gap; the next cycle is one past the highest (2 on
/// an empty history). An entry still waiting for its resubmission is a
/// replacement under way, a conflict; whatever else does not read is an
/// upstream failure.
/// The outcome of `next_paper_rework_cycle`.
pub open spec fn rework_cycle_of(history: JsonValue, paper_id: u128) -> Result<u64, Refusal> {
    match history {
        JsonValue::Array(records) => {
            let n = records@.len() as int;
            match first_stop(records@, paper_id, n) {
                Some(k) => if rework_ok(records@[k], paper_id) && !repeats_earlier(records@, k)
                    && resubmission_pending(records@[k]) {
                    Err(Refusal::Conflict(ACTIVE_REPLACEMENT@))
                } else {
                    Err(Refusal::Upstream)
                },
                None => if !cycles_contiguous(records@) {
                    Err(Refusal::Upstream)
                } else if max_cycle(records@, n) == u64::MAX {
                    Err(Refusal::Conflict(REWORK_CYCLE_OVERFLOW@))
                } else {
                    Ok((max_cycle(records@, n) + 1) as u64)
                },
            }
        },
        _ => Err(Refusal::Upstream),
    }
}

proof fn lemma_no_stop_before(records: Seq<JsonValue>, paper_id: u128, n: int)
    requires
        0 <= n <= records.len(),
        first_stop(records, paper_id, n) is None,
    ensures
        forall|k: int| 0 <= k < n ==> !stops_at(records, paper_id, k),
    decreases n,
{
    if n > 0 {
        lemma_no_stop_before(records, paper_id, n - 1);
    }
}

/// The cycle that comes next follows a history whose entries all read, each
/// with its resubmission, and whose cycles are exactly 2 up to the one
/// before it, each once; no rework id occurs twice.
pub proof fn lemma_rework_cycles_exact(history: JsonValue, paper_id: u128, next: u64)
    requires
        rework_cycle_of(history, paper_id) == Ok::<u64, Refusal>(next),
    ensures
        next >= 2,
        match history {
            JsonValue::Array(records) => {
                &&& forall|k: int|
                    0 <= k < records@.len() ==> {
                        &&& rework_ok(#[trigger] records@[k], paper_id)
                        &&& resubmission_ok(records@[k], paper_id)
                        &&& 2 <= rework_key(records@[k]).1 < next
                    }
                &&& forall|k: int, l: int|
                    0 <= k < l < records@.len() ==> rework_key(#[trigger] records@[k]).1
                        != rework_key(#[trigger] records@[l]).1 && rework_key(records@[k]).0
                        != rework_key(records@[l]).0
                &&& forall|c: u64| 2 <= c < next ==> #[trigger] has_cycle(records@, c)
            },
            _ => false,
        },
{
    match history {
        JsonValue::Array(records) => {
            let s = records@;
            let n = s.len() as int;
            lemma_no_stop_before(s, paper_id, n);
            lemma_max_cycle_bounds(s, n);
            assert forall|k: int| 0 <= k < n implies {
                &&& rework_ok(#[trigger] s[k], paper_id)
                &&& resubmission_ok(s[k], paper_id)
                &&& 2 <= rework_key(s[k]).1 < next
            } by {
                assert(!stops_at(s, paper_id, k));
                let rework = s[k].spec_get("rework"@)->0;
                assert(rework_fields_ok(rework, paper_id));
                assert(rework_key(s[k]).1 <= max_cycle(s, n));
            }
            assert forall|k: int, l: int| 0 <= k < l < n implies rework_key(#[trigger] s[k]).1
                != rework_key(#[trigger] s[l]).1 && rework_key(s[k]).0 != rework_key(s[l]).0 by {
                assert(!stops_at(s, paper_id, l));
                assert(!repeats_earlier(s, l));
            }
        },
        _ => {},
    }
}

pub fn next_paper_rework_cycle(history: &JsonValue, paper_id: u128) -> (r: Result<u64, AppError>)
    ensures
        match *history {
            JsonValue::Array(records) => {
                let n = records@.len() as int;
                match first_stop(records@, paper_id, n) {
                    Some(k) => if rework_ok(records@[k], paper_id) && !repeats_earlier(records@, k)
                        && resubmission_pending(records@[k]) {
                        r matches Err(e) && is_conflict(e, ACTIVE_REPLACEMENT@)
                    } else {
                        r == Err::<u64, AppError>(AppError::Upstream)
                    },
                    None => if !cycles_contiguous(records@) {
                        r == Err::<u64, AppError>(AppError::Upstream)
                    } else if max_cycle(records@, n) == u64::MAX {
                        r matches Err(e) && is_conflict(e, REWORK_CYCLE_OVERFLOW@)
                    } else {
                        r == Ok::<u64, AppError>((max_cycle(records@, n) + 1) as u64)
                    },
                }
            },
            _ => r == Err::<u64, AppError>(AppError::Upstream),
        },
        match rework_cycle_of(*history, paper_id) {
            Ok(c) => r == Ok::<u64, AppError>(c),
            Err(f) => refused_as(r, f),
        },
{
    let records = match history {
        JsonValue::Array(records) => records,
        _ => return Err(AppError::Upstream),
    };
    let mut keys: Vec<(u128, u64)> = Vec::new();
    let mut max: u64 = 1;
    let mut i: usize = 0;
    while i < records.len()
        invariant
            *history == JsonValue::Array(*records),
            i <= records@.len(),
            first_stop(records@, paper_id, i as int) is None,
            keys@.len() == i,
            forall|j: int| 0 <= j < i ==> #[trigger] keys@[j] == rework_key(records@[j]),
            max == max_cycle(records@, i as int),
        decreases records.len() - i,
    {
        let state = &records[i];
        let ghost n = records@.len() as int;
        let key = match rework_entry_key(state, paper_id) {
            Some(key) => key,
            None => {
                proof {
                    assert(first_stop(records@, paper_id, i + 1) == Some(i as int));
                    lemma_first_stop_sticks(records@, paper_id, i + 1, n);
                }
                return Err(AppError::Upstream);
            },
        };
        let repeated = key_repeats(&keys, key);
        proof {
            if repeated {
                let j = choose|j: int| 0 <= j < keys@.len() && #[trigger] keys_clash(keys@[j], key);
                assert(keys@[j] == rework_key(records@[j]));
                assert(repeats_earlier(records@, i as int));
            } else {
                assert forall|j: int| 0 <= j < i implies !(rework_key(#[trigger] records@[j]).0 == rework_key(records@[i as int]).0
                    || rework_key(records@[j]).1 == rework_key(records@[i as int]).1) by {
                    assert(keys@[j] == rework_key(records@[j]));
                    assert(!keys_clash(keys@[j], key));
                }
                assert(!repeats_earlier(records@, i as int));
            }
        }
        if repeated {
            proof {
                assert(first_stop(records@, paper_id, i + 1) == Some(i as int));
                lemma_first_stop_sticks(records@, paper_id, i + 1, n);
            }
            return Err(AppError::Upstream);
        }
        let rework = state.get("rework").unwrap();
        let rejected = required_string(rework, "rejected_rework_content_commitment_sha256").unwrap();
        let ok = match state.get("resubmission") {
            None => false,
            Some(JsonValue::Null) => {
                proof {
                    assert(first_stop(records@, paper_id, i + 1) == Some(i as int));
                    lemma_first_stop_sticks(records@, paper_id, i + 1, n);
                }
                return Err(conflict(ACTIVE_REPLACEMENT));
            },
            Some(resubmission) => resubmission_check(resubmission, paper_id, key.0, rejected.as_str()),
        };
        if !ok {
            proof {
                assert(first_stop(records@, paper_id, i + 1) == Some(i as int));
                lemma_first_stop_sticks(records@, paper_id, i + 1, n);
            }
            return Err(AppError::Upstream);
        }
        assert(first_stop(records@, paper_id, i + 1) is None);
        keys.push(key);
        if key.1 > max {
            max = key.1;
        }
        i = i + 1;
        assert(forall|j: int| 0 <= j < i ==> #[trigger] keys@[j] == rework_key(records@[j]));
    }
    // Every cycle from 2 up to the highest must be some entry's.
    let mut c: u128 = 2;
    while c <= max as u128
        invariant
            *history == JsonValue::Array(*records),
            keys@.len() == records@.len(),
            forall|j: int| 0 <= j < keys@.len() ==> #[trigger] keys@[j] == rework_key(records@[j]),
            max == max_cycle(records@, records@.len() as int),
            first_stop(records@, paper_id, records@.len() as int) is None,
            2 <= c <= max + 1,
            forall|d: u64| 2 <= d < c ==> #[trigger] has_cycle(records@, d),
        decreases max + 1 - c,
    {
        let want = c as u64;
        let mut found = false;
        let mut j: usize = 0;
        while j < keys.len()
            invariant
                j <= keys@.len(),
                found ==> has_cycle(records@, want),
                keys@.len() == records@.len(),
                forall|m: int| 0 <= m < keys@.len() ==> #[trigger] keys@[m] == rework_key(records@[m]),
                !found ==> forall|m: int| 0 <= m < j ==> (#[trigger] keys@[m]).1 != want,
            decreases keys.len() - j,
        {
            if keys[j].1 == want {
                assert(keys@[j as int] == rework_key(records@[j as int]));
                found = true;
            }
            j = j + 1;
        }
        if !found {
            proof {
                assert(!has_cycle(records@, want)) by {
                    if has_cycle(records@, want) {
                        let k = choose|k: int| 0 <= k < records@.len() && #[trigger] rework_key(records@[k]).1 == want;
                        assert(keys@[k] == rework_key(records@[k]));
                    }
                }
                assert(2 <= want <= max_cycle(records@, records@.len() as int));
                assert(!cycles_contiguous(records@));
            }
            return Err(AppError::Upstream);
        }
        c = c + 1;
    }
    if max == u64::MAX {
        return Err(conflict(REWORK_CYCLE_OVERFLOW));
    }
    Ok(max + 1)
}

} // verus!
