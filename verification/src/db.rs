//! Guards on the review-receipt schema that the database reports: the
//! catalog readiness statement and the exact constraint definitions.

use vstd::prelude::*;
use crate::text::{
    chars_eq, chars_eq_str, chars_of, push_str, replace_all, replace_chars, str_eq, string_from_chars,
};

verus! {

/// One statement that is true exactly when the review-receipt table, its
/// columns, constraints, indexes and comment have their migrated shape.
pub const REVIEW_RECEIPT_SCHEMA_READY_SQL: &'static str = r#"
WITH review_table AS MATERIALIZED (
    SELECT relation.*
      FROM pg_class relation
      JOIN pg_namespace namespace ON namespace.oid = relation.relnamespace
     WHERE namespace.nspname = 'public'
       AND relation.relname = 'paper_raid_bff_review_execution_receipts'
), expected_columns AS (
    SELECT * FROM (VALUES
        (1,'receipt_id','uuid'::regtype,TRUE),
        (2,'task_id','uuid'::regtype,TRUE),
        (3,'binding_id','uuid'::regtype,TRUE),
        (4,'assignment_id','uuid'::regtype,TRUE),
        (5,'paper_id','uuid'::regtype,TRUE),
        (6,'submission_id','uuid'::regtype,TRUE),
        (7,'evaluation_id','uuid'::regtype,TRUE),
        (8,'kind','text'::regtype,TRUE),
        (9,'attempt','int8'::regtype,TRUE),
        (10,'fencing_token','int8'::regtype,TRUE),
        (11,'bundle_hash','text'::regtype,TRUE),
        (12,'receipt_hash','text'::regtype,TRUE),
        (13,'receipt','jsonb'::regtype,TRUE),
        (14,'state','text'::regtype,TRUE),
        (15,'confirmation_frame','jsonb'::regtype,FALSE),
        (16,'confirmation_frame_hash','text'::regtype,FALSE),
        (17,'confirmation_idempotency_key','uuid'::regtype,FALSE),
        (18,'confirmation_hash','text'::regtype,FALSE),
        (19,'confirmation_context_signature','text'::regtype,FALSE),
        (20,'response_status','int4'::regtype,FALSE),
        (21,'response_body','bytea'::regtype,FALSE),
        (22,'created_at','timestamptz'::regtype,TRUE),
        (23,'consumed_at','timestamptz'::regtype,FALSE),
        (24,'invalidated_at','timestamptz'::regtype,FALSE),
        (25,'updated_at','timestamptz'::regtype,TRUE)
    ) expected(attnum,attname,atttypid,attnotnull)
)
SELECT
    (SELECT count(*) = 1 AND bool_and(COALESCE(
        relation.relkind = 'r'
        AND relation.relpersistence = 'p'
        AND NOT relation.relrowsecurity
        AND NOT relation.relforcerowsecurity
        AND COALESCE(relation.reloptions, ARRAY[]::text[]) = ARRAY[]::text[]
        AND obj_description(relation.oid, 'pg_class') =
            'Recoverable Agent-signed evaluator/reproducer receipts, each pinned to one assignment version and one immutable frozen review bundle.',
        FALSE
    )) FROM review_table relation)
    AND NOT EXISTS (
        SELECT 1 FROM pg_policy policy_row
        JOIN review_table relation ON relation.oid = policy_row.polrelid
    )
    AND (SELECT count(*) = 25 FROM expected_columns)
    AND (SELECT count(*) = 25 FROM pg_attribute attribute
         JOIN review_table relation ON relation.oid = attribute.attrelid
         WHERE attribute.attnum > 0 AND NOT attribute.attisdropped)
    AND (SELECT count(*) = 25 AND bool_and(COALESCE(
        attribute.attname = expected.attname
        AND attribute.atttypid = expected.atttypid
        AND attribute.attnotnull = expected.attnotnull
        AND NOT attribute.atthasdef
        AND default_value.oid IS NULL
        AND attribute.attgenerated = ''
        AND attribute.attidentity = '',
        FALSE
    )) FROM expected_columns expected
    JOIN review_table relation ON TRUE
    LEFT JOIN pg_attribute attribute
      ON attribute.attrelid = relation.oid
     AND attribute.attnum = expected.attnum
     AND NOT attribute.attisdropped
    LEFT JOIN pg_attrdef default_value
      ON default_value.adrelid = attribute.attrelid
     AND default_value.adnum = attribute.attnum)
    AND (SELECT count(*) = 17 AND bool_and(COALESCE(
        constraint_row.convalidated
        AND constraint_row.conislocal
        AND constraint_row.coninhcount = 0
        AND NOT constraint_row.condeferrable
        AND NOT constraint_row.condeferred
        AND constraint_row.connoinherit = (constraint_row.contype IN ('p','f'))
        AND CASE constraint_row.conname
          WHEN 'paper_raid_bff_review_receipts_pk' THEN
            constraint_row.contype = 'p'
            AND constraint_row.conkey::text = '{1}'
            AND constraint_row.conindid = to_regclass(
                'public.paper_raid_bff_review_receipts_pk'
            )
          WHEN 'paper_raid_bff_review_receipt_binding_fk' THEN
            constraint_row.contype = 'f'
            AND constraint_row.conkey::text = '{3}'
            AND constraint_row.confkey::text = '{1}'
            AND constraint_row.confrelid = to_regclass(
                'public.paper_raid_bff_agent_bridge_bindings'
            )
            AND constraint_row.conindid = to_regclass(
                'public.paper_raid_bff_agent_bridge_bindings_pkey'
            )
            AND constraint_row.confupdtype = 'a'
            AND constraint_row.confdeltype = 'c'
            AND constraint_row.confmatchtype = 's'
          WHEN 'paper_raid_bff_review_receipt_kind_ck' THEN
            constraint_row.contype = 'c'
          WHEN 'paper_raid_bff_review_receipt_attempt_ck' THEN
            constraint_row.contype = 'c'
          WHEN 'paper_raid_bff_review_receipt_fencing_ck' THEN
            constraint_row.contype = 'c'
          WHEN 'paper_raid_bff_review_receipt_bundle_hash_ck' THEN
            constraint_row.contype = 'c'
          WHEN 'paper_raid_bff_review_receipt_hash_ck' THEN
            constraint_row.contype = 'c'
          WHEN 'paper_raid_bff_review_receipt_state_ck' THEN
            constraint_row.contype = 'c'
          WHEN 'paper_raid_bff_review_receipt_frame_hash_ck' THEN
            constraint_row.contype = 'c'
          WHEN 'paper_raid_bff_review_receipt_confirmation_hash_ck' THEN
            constraint_row.contype = 'c'
          WHEN 'paper_raid_bff_review_receipt_context_signature_ck' THEN
            constraint_row.contype = 'c'
          WHEN 'paper_raid_bff_review_receipt_response_status_ck' THEN
            constraint_row.contype = 'c'
          WHEN 'paper_raid_bff_review_receipt_result_shape_ck' THEN
            constraint_row.contype = 'c'
          WHEN 'paper_raid_bff_review_receipt_frame_pair_ck' THEN
            constraint_row.contype = 'c'
          WHEN 'paper_raid_bff_review_receipt_frame_binding_ck' THEN
            constraint_row.contype = 'c'
          WHEN 'paper_raid_bff_review_receipt_lifecycle_ck' THEN
            constraint_row.contype = 'c'
          WHEN 'paper_raid_bff_review_receipt_json_binding_ck' THEN
            constraint_row.contype = 'c'
          ELSE FALSE
        END,
        FALSE
    )) FROM pg_constraint constraint_row
    JOIN review_table relation ON relation.oid = constraint_row.conrelid)
    AND (SELECT count(*) = 4 AND bool_and(COALESCE(
        index_row.indisvalid
        AND index_row.indisready
        AND index_row.indislive
        AND index_row.indimmediate
        AND NOT index_row.indisexclusion
        AND NOT index_row.indisclustered
        AND NOT index_row.indisreplident
        AND NOT index_row.indnullsnotdistinct
        AND index_class.relkind = 'i'
        AND access_method.amname = 'btree'
        AND CASE index_class.relname
          WHEN 'paper_raid_bff_review_receipts_pk' THEN
            index_row.indisunique
            AND index_row.indisprimary
            AND index_row.indnkeyatts = 1
            AND index_row.indnatts = 1
            AND index_row.indkey::text = '1'
            AND index_row.indoption::text = '0'
            AND pg_get_indexdef(index_row.indexrelid, 1, TRUE) = 'receipt_id'
            AND index_row.indexprs IS NULL
            AND index_row.indpred IS NULL
          WHEN 'paper_raid_bff_one_review_receipt_per_task_attempt' THEN
            index_row.indisunique
            AND NOT index_row.indisprimary
            AND index_row.indnkeyatts = 2
            AND index_row.indnatts = 2
            AND index_row.indkey::text = '2 9'
            AND index_row.indoption::text = '0 0'
            AND pg_get_indexdef(index_row.indexrelid, 1, TRUE) = 'task_id'
            AND pg_get_indexdef(index_row.indexrelid, 2, TRUE) = 'attempt'
            AND index_row.indexprs IS NULL
            AND index_row.indpred IS NULL
          WHEN 'paper_raid_bff_one_live_review_receipt_per_task' THEN
            index_row.indisunique
            AND NOT index_row.indisprimary
            AND index_row.indnkeyatts = 1
            AND index_row.indnatts = 1
            AND index_row.indkey::text = '2'
            AND index_row.indoption::text = '0'
            AND pg_get_indexdef(index_row.indexrelid, 1, TRUE) = 'task_id'
            AND index_row.indexprs IS NULL
            AND regexp_replace(
                pg_get_expr(index_row.indpred, index_row.indrelid),
                '[[:space:]]+', '', 'g'
            ) = '(state=ANY(ARRAY[''pending''::text,''consumed''::text]))'
          WHEN 'paper_raid_bff_review_receipt_assignment_inbox_idx' THEN
            NOT index_row.indisunique
            AND NOT index_row.indisprimary
            AND index_row.indnkeyatts = 3
            AND index_row.indnatts = 3
            AND index_row.indkey::text = '4 14 22'
            AND index_row.indoption::text = '0 0 3'
            AND pg_get_indexdef(index_row.indexrelid, 1, TRUE) = 'assignment_id'
            AND pg_get_indexdef(index_row.indexrelid, 2, TRUE) = 'state'
            AND pg_get_indexdef(index_row.indexrelid, 3, TRUE) = 'created_at'
            AND index_row.indexprs IS NULL
            AND index_row.indpred IS NULL
          ELSE FALSE
        END,
        FALSE
    )) FROM pg_index index_row
    JOIN review_table relation ON relation.oid = index_row.indrelid
    JOIN pg_class index_class ON index_class.oid = index_row.indexrelid
    JOIN pg_am access_method ON access_method.oid = index_class.relam)
    AND EXISTS (
        SELECT 1 FROM paper_raid_bff_schema_capabilities
         WHERE capability = 'review_execution_receipts_v1'
    )
"#;


/// Characters that the catalog compaction drops.
pub open spec fn is_compaction_dropped(c: char) -> bool {
    c == ' ' || c == '\n' || c == '\r' || c == '\t' || c == '(' || c == ')' || c == '"'
}

/// ASCII upper-case letters in lower case; every other character unchanged.
pub open spec fn ascii_lower(c: char) -> char {
    if 'A' <= c && c <= 'Z' {
        ((c as u32) + 32) as char
    } else {
        c
    }
}

/// The kept characters, lower-cased, in order.
pub open spec fn kept_lowered(s: Seq<char>) -> Seq<char>
    decreases s.len(),
{
    if s.len() == 0 {
        s
    } else {
        kept_lowered(s.drop_last()) + if is_compaction_dropped(s.last()) {
            Seq::<char>::empty()
        } else {
            seq![ascii_lower(s.last())]
        }
    }
}

/// A catalog definition with spacing, brackets and quotes removed, lower
/// cased, and without `public.` schema prefixes or `::text` casts.
pub open spec fn compact(s: Seq<char>) -> Seq<char> {
    replace_all(
        replace_all(kept_lowered(s), "public."@, Seq::<char>::empty()),
        "::text"@,
        Seq::<char>::empty(),
    )
}

fn ascii_lower_exec(c: char) -> (r: char)
    ensures
        r == ascii_lower(c),
{
    if 'A' <= c && c <= 'Z' {
        let b: u8 = c as u8;
        assert(b as u32 == c as u32);
        ((b + 32) as char)
    } else {
        c
    }
}

/// Compacts a catalog definition the way the constraint guard compares it.
pub fn compact_review_catalog_definition(definition: &str) -> (r: Vec<char>)
    ensures
        r@ == compact(definition@),
{
    let s = chars_of(definition);
    let mut out: Vec<char> = Vec::new();
    let mut i: usize = 0;
    assert(s@.take(0) =~= Seq::<char>::empty());
    while i < s.len()
        invariant
            i <= s.len(),
            out@ == kept_lowered(s@.take(i as int)),
        decreases s.len() - i,
    {
        let c = s[i];
        assert(s@.take(i + 1).drop_last() =~= s@.take(i as int));
        assert(s@.take(i + 1).last() == c);
        if !(c == ' ' || c == '\n' || c == '\r' || c == '\t' || c == '(' || c == ')' || c == '"') {
            out.push(ascii_lower_exec(c));
        } else {
            assert(out@ + Seq::<char>::empty() =~= out@);
        }
        i = i + 1;
    }
    assert(s@.take(s@.len() as int) =~= s@);
    proof {
        reveal_strlit("public.");
        reveal_strlit("::text");
        reveal_strlit("");
        assert(""@ =~= Seq::<char>::empty());
    }
    let a = replace_chars(&out, "public.", "");
    replace_chars(&a, "::text", "")
}

/// `left IS NOT DISTINCT FROM right` as the catalog prints it, in the raw or
/// the deparsed (`NOT (left IS DISTINCT FROM right)`) spelling.
pub open spec fn not_distinct(left: Seq<char>, right: Seq<char>, deparsed: bool) -> Seq<char> {
    if deparsed {
        "not"@ + left + "isdistinctfrom"@ + right
    } else {
        left + "isnotdistinctfrom"@ + right
    }
}

/// Clauses joined with `and`.
pub open spec fn join_and(clauses: Seq<Seq<char>>) -> Seq<char>
    decreases clauses.len(),
{
    if clauses.len() == 0 {
        Seq::<char>::empty()
    } else if clauses.len() == 1 {
        clauses[0]
    } else {
        join_and(clauses.drop_last()) + "and"@ + clauses.last()
    }
}

/// The comparison clauses for a list of (left, right) operand pairs.
pub open spec fn pair_clauses(pairs: Seq<(&'static str, &'static str)>, deparsed: bool) -> Seq<
    Seq<char>,
> {
    Seq::new(pairs.len(), |i: int| not_distinct(pairs[i].0@, pairs[i].1@, deparsed))
}

pub fn review_not_distinct_clause(left: &str, right: &str, deparsed: bool) -> (r: Vec<char>)
    ensures
        r@ == not_distinct(left@, right@, deparsed),
{
    let mut out: Vec<char> = Vec::new();
    if deparsed {
        push_str(&mut out, "not");
        push_str(&mut out, left);
        push_str(&mut out, "isdistinctfrom");
        push_str(&mut out, right);
    } else {
        push_str(&mut out, left);
        push_str(&mut out, "isnotdistinctfrom");
        push_str(&mut out, right);
    }
    assert(out@ =~= not_distinct(left@, right@, deparsed));
    out
}

fn join_pair_clauses(out: &mut Vec<char>, pairs: &[(&'static str, &'static str)], deparsed: bool)
    ensures
        final(out)@ == old(out)@ + join_and(pair_clauses(pairs@, deparsed)),
{
    let ghost before = out@;
    let ghost clauses = pair_clauses(pairs@, deparsed);
    let mut i: usize = 0;
    assert(clauses.take(0) =~= Seq::<Seq<char>>::empty());
    assert(before + Seq::<char>::empty() =~= before);
    while i < pairs.len()
        invariant
            i <= pairs@.len(),
            clauses == pair_clauses(pairs@, deparsed),
            out@ == before + join_and(clauses.take(i as int)),
        decreases pairs.len() - i,
    {
        let (left, right) = pairs[i];
        let clause = review_not_distinct_clause(left, right, deparsed);
        assert(clauses.take(i + 1).drop_last() =~= clauses.take(i as int));
        assert(clauses.take(i + 1).last() == clause@);
        if i > 0 {
            push_str(out, "and");
        }
        let mut k: usize = 0;
        let ghost mid = out@;
        while k < clause.len()
            invariant
                k <= clause.len(),
                out@ == mid + clause@.take(k as int),
            decreases clause.len() - k,
        {
            out.push(clause[k]);
            k = k + 1;
            assert(out@ =~= mid + clause@.take(k as int));
        }
        assert(clause@.take(clause@.len() as int) =~= clause@);
        if i == 0 {
            assert(clauses.take(1).len() == 1);
        }
        assert(out@ =~= before + join_and(clauses.take(i + 1)));
        i = i + 1;
    }
    assert(clauses.take(pairs@.len() as int) =~= clauses);
}


/// The receipt fields that the JSON binding check ties to columns.
pub open spec fn json_binding_pairs() -> Seq<(&'static str, &'static str)> {
    seq![
        ("receipt->>'schema'", "'hepta.paper_raid.agent_bridge.review_receipt_request.v1'"),
        ("receipt->>'idempotency_key'", "receipt_id"),
        ("receipt->'receipt'->>'schema'", "'hepta.paper_raid.review_execution_receipt.v1'"),
        ("receipt->'receipt'->>'receipt_id'", "receipt_id"),
        ("receipt->'receipt'->>'task_id'", "task_id"),
        ("receipt->'receipt'->>'binding_id'", "binding_id"),
        ("receipt->'receipt'->>'assignment_id'", "assignment_id"),
        ("receipt->'receipt'->>'paper_project_id'", "paper_id"),
        ("receipt->'receipt'->>'submission_id'", "submission_id"),
        ("receipt->'receipt'->>'evaluation_id'", "evaluation_id"),
        ("receipt->'receipt'->>'kind'", "kind"),
        ("receipt->'receipt'->>'attempt'::bigint", "attempt"),
        ("receipt->'receipt'->>'fencing_token'::bigint", "fencing_token"),
        ("receipt->'receipt'->>'bundle_hash'", "bundle_hash"),
    ]
}

/// The confirmation-frame fields that every receipt kind ties to columns.
pub open spec fn frame_common_pairs() -> Seq<(&'static str, &'static str)> {
    seq![
        ("jsonb_typeofconfirmation_frame", "'object'"),
        ("confirmation_frame->>'schema'", "'hepta.paper_raid.review_receipt_confirmation_frame.v1'"),
        ("jsonb_typeofconfirmation_frame->'receipt_context_signing_bytes'", "'string'"),
        ("confirmation_frame->'receipt_context'->>'schema'", "'hepta.paper_raid.review_receipt_confirmation_context.v1'"),
        ("confirmation_frame->'receipt_context'->>'receipt_id'", "receipt_id"),
        ("confirmation_frame->'receipt_context'->>'receipt_hash'", "receipt_hash"),
        ("confirmation_frame->'receipt_context'->>'task_id'", "task_id"),
        ("confirmation_frame->'receipt_context'->>'assignment_id'", "assignment_id"),
        ("confirmation_frame->'receipt_context'->>'assignment_version'::bigint", "fencing_token"),
        ("confirmation_frame->'receipt_context'->>'paper_project_id'", "paper_id"),
        ("confirmation_frame->'receipt_context'->>'submission_id'", "submission_id"),
        ("confirmation_frame->'receipt_context'->>'evaluation_id'", "evaluation_id"),
        ("confirmation_frame->'receipt_context'->>'kind'", "kind"),
        ("confirmation_frame->'receipt_context'->>'bundle_hash'", "bundle_hash"),
        ("confirmation_frame->>'resource_id'", "paper_id"),
    ]
}

/// The confirmation-frame fields of an evaluation receipt.
pub open spec fn frame_evaluator_pairs() -> Seq<(&'static str, &'static str)> {
    seq![
        ("confirmation_frame->>'command'", "'create_paper_evaluation_draft'"),
        ("confirmation_frame->'child_id'", "'null'::jsonb"),
        ("jsonb_typeofconfirmation_frame->'receipt_context'->'candidate_passed'", "'boolean'"),
    ]
}

/// The confirmation-frame fields of a reproduction receipt.
pub open spec fn frame_reproducer_pairs() -> Seq<(&'static str, &'static str)> {
    seq![
        ("confirmation_frame->>'command'", "'submit_reproduction'"),
        ("confirmation_frame->>'child_id'", "evaluation_id"),
        ("confirmation_frame->'receipt_context'->'candidate_passed'", "'null'::jsonb"),
    ]
}

/// The canonical JSON binding check, compacted.
pub open spec fn json_binding_definition(deparsed: bool) -> Seq<char> {
    "check"@ + join_and(pair_clauses(json_binding_pairs(), deparsed))
}

/// The canonical confirmation-frame binding check, compacted.
pub open spec fn frame_binding_definition(deparsed: bool) -> Seq<char> {
    "checkconfirmation_frameisnullor"@ + join_and(pair_clauses(frame_common_pairs(), deparsed))
        + "andkind='evaluate'and"@ + join_and(pair_clauses(frame_evaluator_pairs(), deparsed))
        + "orkind='reproduce'and"@ + join_and(pair_clauses(frame_reproducer_pairs(), deparsed))
}

fn json_binding_chars(deparsed: bool) -> (r: Vec<char>)
    ensures
        r@ == json_binding_definition(deparsed),
{
    let pairs: [(&'static str, &'static str); 14] = [
            ("receipt->>'schema'", "'hepta.paper_raid.agent_bridge.review_receipt_request.v1'"),
            ("receipt->>'idempotency_key'", "receipt_id"),
            ("receipt->'receipt'->>'schema'", "'hepta.paper_raid.review_execution_receipt.v1'"),
            ("receipt->'receipt'->>'receipt_id'", "receipt_id"),
            ("receipt->'receipt'->>'task_id'", "task_id"),
            ("receipt->'receipt'->>'binding_id'", "binding_id"),
            ("receipt->'receipt'->>'assignment_id'", "assignment_id"),
            ("receipt->'receipt'->>'paper_project_id'", "paper_id"),
            ("receipt->'receipt'->>'submission_id'", "submission_id"),
            ("receipt->'receipt'->>'evaluation_id'", "evaluation_id"),
            ("receipt->'receipt'->>'kind'", "kind"),
            ("receipt->'receipt'->>'attempt'::bigint", "attempt"),
            ("receipt->'receipt'->>'fencing_token'::bigint", "fencing_token"),
            ("receipt->'receipt'->>'bundle_hash'", "bundle_hash"),
        ];
    assert(pairs@ =~= json_binding_pairs());
    let mut out: Vec<char> = Vec::new();
    push_str(&mut out, "check");
    join_pair_clauses(&mut out, &pairs, deparsed);
    out
}

fn frame_binding_chars(deparsed: bool) -> (r: Vec<char>)
    ensures
        r@ == frame_binding_definition(deparsed),
{
    let common: [(&'static str, &'static str); 15] = [
            ("jsonb_typeofconfirmation_frame", "'object'"),
            ("confirmation_frame->>'schema'", "'hepta.paper_raid.review_receipt_confirmation_frame.v1'"),
            ("jsonb_typeofconfirmation_frame->'receipt_context_signing_bytes'", "'string'"),
            ("confirmation_frame->'receipt_context'->>'schema'", "'hepta.paper_raid.review_receipt_confirmation_context.v1'"),
            ("confirmation_frame->'receipt_context'->>'receipt_id'", "receipt_id"),
            ("confirmation_frame->'receipt_context'->>'receipt_hash'", "receipt_hash"),
            ("confirmation_frame->'receipt_context'->>'task_id'", "task_id"),
            ("confirmation_frame->'receipt_context'->>'assignment_id'", "assignment_id"),
            ("confirmation_frame->'receipt_context'->>'assignment_version'::bigint", "fencing_token"),
            ("confirmation_frame->'receipt_context'->>'paper_project_id'", "paper_id"),
            ("confirmation_frame->'receipt_context'->>'submission_id'", "submission_id"),
            ("confirmation_frame->'receipt_context'->>'evaluation_id'", "evaluation_id"),
            ("confirmation_frame->'receipt_context'->>'kind'", "kind"),
            ("confirmation_frame->'receipt_context'->>'bundle_hash'", "bundle_hash"),
            ("confirmation_frame->>'resource_id'", "paper_id"),
        ];
    let evaluator: [(&'static str, &'static str); 3] = [
            ("confirmation_frame->>'command'", "'create_paper_evaluation_draft'"),
            ("confirmation_frame->'child_id'", "'null'::jsonb"),
            ("jsonb_typeofconfirmation_frame->'receipt_context'->'candidate_passed'", "'boolean'"),
        ];
    let reproducer: [(&'static str, &'static str); 3] = [
            ("confirmation_frame->>'command'", "'submit_reproduction'"),
            ("confirmation_frame->>'child_id'", "evaluation_id"),
            ("confirmation_frame->'receipt_context'->'candidate_passed'", "'null'::jsonb"),
        ];
    assert(common@ =~= frame_common_pairs());
    assert(evaluator@ =~= frame_evaluator_pairs());
    assert(reproducer@ =~= frame_reproducer_pairs());
    let mut out: Vec<char> = Vec::new();
    push_str(&mut out, "checkconfirmation_frameisnullor");
    join_pair_clauses(&mut out, &common, deparsed);
    push_str(&mut out, "andkind='evaluate'and");
    join_pair_clauses(&mut out, &evaluator, deparsed);
    push_str(&mut out, "orkind='reproduce'and");
    join_pair_clauses(&mut out, &reproducer, deparsed);
    assert(out@ =~= frame_binding_definition(deparsed));
    out
}

/// The canonical JSON binding check constraint, compacted.
pub fn review_json_binding_definition(deparsed: bool) -> (r: String)
    ensures
        r@ == json_binding_definition(deparsed),
{
    string_from_chars(&json_binding_chars(deparsed))
}

/// The canonical confirmation-frame binding check constraint, compacted.
pub fn review_frame_binding_definition(deparsed: bool) -> (r: String)
    ensures
        r@ == frame_binding_definition(deparsed),
{
    string_from_chars(&frame_binding_chars(deparsed))
}


/// The constraint guard: `definition`, compacted, is the canonical
/// definition of the named review-receipt constraint (either catalog
/// spelling for the two binding checks); unknown names never pass.
pub open spec fn constraint_definition_is_exact(name: Seq<char>, definition: Seq<char>) -> bool {
    let c = compact(definition);
    if name == "paper_raid_bff_review_receipts_pk"@ {
        c == "primarykeyreceipt_id"@
    } else if name == "paper_raid_bff_review_receipt_binding_fk"@ {
        c == "foreignkeybinding_idreferencespaper_raid_bff_agent_bridge_bindingsbinding_idondeletecascade"@
    } else if name == "paper_raid_bff_review_receipt_kind_ck"@ {
        c == "checkkind=anyarray['evaluate','reproduce']"@
    } else if name == "paper_raid_bff_review_receipt_attempt_ck"@ {
        c == "checkattempt>0andattempt<='9007199254740991'::bigint"@
    } else if name == "paper_raid_bff_review_receipt_fencing_ck"@ {
        c == "checkfencing_token>0andfencing_token<='9007199254740991'::bigint"@
    } else if name == "paper_raid_bff_review_receipt_bundle_hash_ck"@ {
        c == "checkbundle_hash~'^sha256:[0-9a-f]{64}$'"@
    } else if name == "paper_raid_bff_review_receipt_hash_ck"@ {
        c == "checkreceipt_hash~'^sha256:[0-9a-f]{64}$'"@
    } else if name == "paper_raid_bff_review_receipt_state_ck"@ {
        c == "checkstate=anyarray['pending','consumed','invalidated']"@
    } else if name == "paper_raid_bff_review_receipt_frame_hash_ck"@ {
        c == "checkconfirmation_frame_hashisnullorconfirmation_frame_hash~'^sha256:[0-9a-f]{64}$'"@
    } else if name == "paper_raid_bff_review_receipt_confirmation_hash_ck"@ {
        c == "checkconfirmation_hashisnullorconfirmation_hash~'^sha256:[0-9a-f]{64}$'"@
    } else if name == "paper_raid_bff_review_receipt_context_signature_ck"@ {
        c == "checkconfirmation_context_signatureisnullorlengthconfirmation_context_signature=88andconfirmation_context_signature~'^[a-za-z0-9+/]{86}==$'"@
    } else if name == "paper_raid_bff_review_receipt_response_status_ck"@ {
        c == "checkresponse_statusisnullorresponse_status>=200andresponse_status<=299"@
    } else if name == "paper_raid_bff_review_receipt_result_shape_ck"@ {
        c == "checkevaluation_idisnotnull"@
    } else if name == "paper_raid_bff_review_receipt_frame_pair_ck"@ {
        c == "checkconfirmation_frameisnull=confirmation_frame_hashisnullandconfirmation_frameisnull=confirmation_idempotency_keyisnull"@
    } else if name == "paper_raid_bff_review_receipt_frame_binding_ck"@ {
        c == frame_binding_definition(false) || c == frame_binding_definition(true)
    } else if name == "paper_raid_bff_review_receipt_lifecycle_ck"@ {
        c == "checkstate='pending'andconsumed_atisnullandinvalidated_atisnullandconfirmation_hashisnullandconfirmation_context_signatureisnullandresponse_statusisnullandresponse_bodyisnullorstate='consumed'andconsumed_atisnotnullandinvalidated_atisnullandconfirmation_frameisnotnullandconfirmation_frame_hashisnotnullandconfirmation_idempotency_keyisnotnullandconfirmation_hashisnotnullandconfirmation_context_signatureisnotnullandresponse_statusisnotnullandresponse_bodyisnotnullorstate='invalidated'andconsumed_atisnullandinvalidated_atisnotnullandconfirmation_hashisnullandconfirmation_context_signatureisnullandresponse_statusisnullandresponse_bodyisnull"@
    } else if name == "paper_raid_bff_review_receipt_json_binding_ck"@ {
        c == json_binding_definition(false) || c == json_binding_definition(true)
    } else {
        false
    }
}

pub fn review_receipt_constraint_definition_is_exact(name: &str, definition: &str) -> (r: bool)
    ensures
        r == constraint_definition_is_exact(name@, definition@),
{
    let c = compact_review_catalog_definition(definition);
    if str_eq(name, "paper_raid_bff_review_receipts_pk") {
        return chars_eq_str(&c, "primarykeyreceipt_id");
    }
    if str_eq(name, "paper_raid_bff_review_receipt_binding_fk") {
        return chars_eq_str(&c, "foreignkeybinding_idreferencespaper_raid_bff_agent_bridge_bindingsbinding_idondeletecascade");
    }
    if str_eq(name, "paper_raid_bff_review_receipt_kind_ck") {
        return chars_eq_str(&c, "checkkind=anyarray['evaluate','reproduce']");
    }
    if str_eq(name, "paper_raid_bff_review_receipt_attempt_ck") {
        return chars_eq_str(&c, "checkattempt>0andattempt<='9007199254740991'::bigint");
    }
    if str_eq(name, "paper_raid_bff_review_receipt_fencing_ck") {
        return chars_eq_str(&c, "checkfencing_token>0andfencing_token<='9007199254740991'::bigint");
    }
    if str_eq(name, "paper_raid_bff_review_receipt_bundle_hash_ck") {
        return chars_eq_str(&c, "checkbundle_hash~'^sha256:[0-9a-f]{64}$'");
    }
    if str_eq(name, "paper_raid_bff_review_receipt_hash_ck") {
        return chars_eq_str(&c, "checkreceipt_hash~'^sha256:[0-9a-f]{64}$'");
    }
    if str_eq(name, "paper_raid_bff_review_receipt_state_ck") {
        return chars_eq_str(&c, "checkstate=anyarray['pending','consumed','invalidated']");
    }
    if str_eq(name, "paper_raid_bff_review_receipt_frame_hash_ck") {
        return chars_eq_str(&c, "checkconfirmation_frame_hashisnullorconfirmation_frame_hash~'^sha256:[0-9a-f]{64}$'");
    }
    if str_eq(name, "paper_raid_bff_review_receipt_confirmation_hash_ck") {
        return chars_eq_str(&c, "checkconfirmation_hashisnullorconfirmation_hash~'^sha256:[0-9a-f]{64}$'");
    }
    if str_eq(name, "paper_raid_bff_review_receipt_context_signature_ck") {
        return chars_eq_str(&c, "checkconfirmation_context_signatureisnullorlengthconfirmation_context_signature=88andconfirmation_context_signature~'^[a-za-z0-9+/]{86}==$'");
    }
    if str_eq(name, "paper_raid_bff_review_receipt_response_status_ck") {
        return chars_eq_str(&c, "checkresponse_statusisnullorresponse_status>=200andresponse_status<=299");
    }
    if str_eq(name, "paper_raid_bff_review_receipt_result_shape_ck") {
        return chars_eq_str(&c, "checkevaluation_idisnotnull");
    }
    if str_eq(name, "paper_raid_bff_review_receipt_frame_pair_ck") {
        return chars_eq_str(&c, "checkconfirmation_frameisnull=confirmation_frame_hashisnullandconfirmation_frameisnull=confirmation_idempotency_keyisnull");
    }
    if str_eq(name, "paper_raid_bff_review_receipt_frame_binding_ck") {
        let a = frame_binding_chars(false);
        let b = frame_binding_chars(true);
        return chars_eq(&c, &a) || chars_eq(&c, &b);
    }
    if str_eq(name, "paper_raid_bff_review_receipt_lifecycle_ck") {
        return chars_eq_str(&c, "checkstate='pending'andconsumed_atisnullandinvalidated_atisnullandconfirmation_hashisnullandconfirmation_context_signatureisnullandresponse_statusisnullandresponse_bodyisnullorstate='consumed'andconsumed_atisnotnullandinvalidated_atisnullandconfirmation_frameisnotnullandconfirmation_frame_hashisnotnullandconfirmation_idempotency_keyisnotnullandconfirmation_hashisnotnullandconfirmation_context_signatureisnotnullandresponse_statusisnotnullandresponse_bodyisnotnullorstate='invalidated'andconsumed_atisnullandinvalidated_atisnotnullandconfirmation_hashisnullandconfirmation_context_signatureisnullandresponse_statusisnullandresponse_bodyisnull");
    }
    if str_eq(name, "paper_raid_bff_review_receipt_json_binding_ck") {
        let a = json_binding_chars(false);
        let b = json_binding_chars(true);
        return chars_eq(&c, &a) || chars_eq(&c, &b);
    }
    false
}

} // verus!

verus! {

/// Whether the Agent Bridge tables exist in their exact shape, and whether
/// their rows keep the pairing and binding invariants.
#[derive(Debug, Clone, Copy, PartialEq, Eq)]
pub struct AgentBridgeSchemaStatus {
    pub schema_ready: bool,
    pub integrity_ok: bool,
}

impl Default for AgentBridgeSchemaStatus {
    fn default() -> (r: Self)
        ensures
            !r.schema_ready && !r.integrity_ok,
    {
        AgentBridgeSchemaStatus { schema_ready: false, integrity_ok: false }
    }
}

impl AgentBridgeSchemaStatus {
    /// The status from the two checks; row integrity is only ever reported
    /// for a schema that is ready, since it is not checked otherwise.
    pub fn from_checks(schema_ready: bool, integrity_ok: bool) -> (r: Self)
        ensures
            r.schema_ready == schema_ready,
            r.integrity_ok == (schema_ready && integrity_ok),
    {
        if !schema_ready {
            return AgentBridgeSchemaStatus::default();
        }
        AgentBridgeSchemaStatus { schema_ready, integrity_ok }
    }
}

/// Exactly the receipt table's constraints, each with its exact definition.
pub open spec fn definitions_exact(definitions: Seq<(String, String)>) -> bool {
    definitions.len() == 17 && forall|i: int|
        0 <= i < definitions.len() ==> constraint_definition_is_exact(
            (#[trigger] definitions[i]).0@,
            definitions[i].1@,
        )
}

/// The review-receipt constraints that the database reports are exactly the
/// expected seventeen, each with its exact definition.
pub fn review_receipt_definitions_exact(definitions: &Vec<(String, String)>) -> (r: bool)
    ensures
        r == definitions_exact(definitions@),
{
    if definitions.len() != 17 {
        return false;
    }
    let mut i: usize = 0;
    while i < definitions.len()
        invariant
            i <= definitions@.len(),
            forall|k: int|
                0 <= k < i ==> constraint_definition_is_exact(
                    (#[trigger] definitions@[k]).0@,
                    definitions@[k].1@,
                ),
        decreases definitions.len() - i,
    {
        if !review_receipt_constraint_definition_is_exact(
            definitions[i].0.as_str(),
            definitions[i].1.as_str(),
        ) {
            return false;
        }
        i = i + 1;
    }
    true
}

/// A text with all white space removed.
pub open spec fn without_white_space(s: Seq<char>) -> Seq<char>
    decreases s.len(),
{
    if s.len() == 0 {
        Seq::empty()
    } else {
        without_white_space(s.drop_last()) + if crate::text::is_white_space(s.last()) {
            Seq::empty()
        } else {
            seq![s.last()]
        }
    }
}

/// SQL text with its white space removed, so that two spellings of one
/// function source compare equal.
pub fn normalize_sql(value: &str) -> (r: String)
    ensures
        r@ == without_white_space(value@),
{
    let v = chars_of(value);
    let mut out: Vec<char> = Vec::new();
    let mut i: usize = 0;
    while i < v.len()
        invariant
            i <= v@.len(),
            v@ == value@,
            out@ == without_white_space(v@.take(i as int)),
        decreases v.len() - i,
    {
        assert(v@.take(i + 1).drop_last() =~= v@.take(i as int));
        if !crate::text::char_is_white_space(v[i]) {
            out.push(v[i]);
        }
        i = i + 1;
        assert(out@ =~= without_white_space(v@.take(i as int)));
    }
    assert(v@.take(v@.len() as int) =~= v@);
    string_from_chars(&out)
}

} // verus!
