use paper_raid_bff::db::{
    review_frame_binding_definition, review_json_binding_definition,
    review_receipt_constraint_definition_is_exact, REVIEW_RECEIPT_SCHEMA_READY_SQL,
};

fn readiness_contract_error(statement: &str) -> Option<&'static str> {
    for (marker, error) in [
        (
            "count(*) = 25 FROM expected_columns",
            "expected column count",
        ),
        ("count(*) = 25 FROM pg_attribute", "actual column count"),
        ("count(*) = 17 AND bool_and(", "constraint count"),
        ("count(*) = 4 AND bool_and(", "index count"),
        (
            "index_row.indkey::text = '2 9'",
            "task-attempt index columns",
        ),
        ("index_row.indkey::text = '4 14 22'", "inbox index columns"),
        ("index_row.indoption::text = '0 0 3'", "inbox sort order"),
        (
            "pg_get_indexdef(index_row.indexrelid, 3, TRUE) = 'created_at'",
            "inbox timestamp expression",
        ),
        (
            "(state=ANY(ARRAY[''pending''::text,''consumed''::text]))",
            "one-live predicate",
        ),
        ("constraint_row.confdeltype = 'c'", "binding cascade"),
        ("obj_description(relation.oid, 'pg_class')", "table comment"),
    ] {
        if !statement.contains(marker) {
            return Some(error);
        }
    }
    if statement.matches("bool_and(COALESCE(").count() != 4 {
        return Some("NULL-fail-closed aggregates");
    }
    None
}

#[test]
fn review_receipt_catalog_query_rejects_hostile_shape_mutants() {
    assert_eq!(
        readiness_contract_error(REVIEW_RECEIPT_SCHEMA_READY_SQL),
        None
    );
    for (name, from, to) in [
        (
            "missing column",
            "count(*) = 25 FROM expected_columns",
            "count(*) = 24 FROM expected_columns",
        ),
        (
            "missing constraint",
            "count(*) = 17 AND bool_and(",
            "count(*) = 16 AND bool_and(",
        ),
        (
            "extra index",
            "count(*) = 4 AND bool_and(",
            "count(*) = 5 AND bool_and(",
        ),
        (
            "task-attempt drift",
            "index_row.indkey::text = '2 9'",
            "index_row.indkey::text = '2 8'",
        ),
        (
            "inbox order drift",
            "index_row.indoption::text = '0 0 3'",
            "index_row.indoption::text = '0 0 0'",
        ),
        (
            "live predicate drift",
            "(state=ANY(ARRAY[''pending''::text,''consumed''::text]))",
            "(state='pending'::text)",
        ),
        (
            "foreign-key action drift",
            "constraint_row.confdeltype = 'c'",
            "constraint_row.confdeltype = 'a'",
        ),
        ("NULL-skipping aggregate", "bool_and(COALESCE(", "bool_and("),
    ] {
        let mutant = REVIEW_RECEIPT_SCHEMA_READY_SQL.replacen(from, to, 1);
        assert_ne!(mutant, REVIEW_RECEIPT_SCHEMA_READY_SQL, "unbuilt {name}");
        assert!(
            readiness_contract_error(&mutant).is_some(),
            "readiness contract accepted hostile mutant: {name}"
        );
    }
}

#[test]
fn review_receipt_constraint_definitions_reject_hostile_mutants() {
    let exact = [
        (
            "paper_raid_bff_review_receipts_pk",
            "PRIMARY KEY (receipt_id)".to_string(),
        ),
        (
            "paper_raid_bff_review_receipt_binding_fk",
            "FOREIGN KEY (binding_id) REFERENCES paper_raid_bff_agent_bridge_bindings(binding_id) ON DELETE CASCADE".to_string(),
        ),
        (
            "paper_raid_bff_review_receipt_attempt_ck",
            "CHECK ((attempt > 0) AND (attempt <= '9007199254740991'::bigint))".to_string(),
        ),
        (
            "paper_raid_bff_review_receipt_frame_binding_ck",
            review_frame_binding_definition(false),
        ),
        (
            "paper_raid_bff_review_receipt_json_binding_ck",
            review_json_binding_definition(false),
        ),
    ];
    for (name, definition) in &exact {
        assert!(
            review_receipt_constraint_definition_is_exact(name, definition),
            "canonical definition rejected: {name}"
        );
    }

    let hostile = [
        (
            "paper_raid_bff_review_receipt_binding_fk",
            exact[1]
                .1
                .replace("ON DELETE CASCADE", "ON DELETE SET NULL"),
        ),
        (
            "paper_raid_bff_review_receipt_attempt_ck",
            exact[2].1.replace("9007199254740991", "9007199254740992"),
        ),
        (
            "paper_raid_bff_review_receipt_frame_binding_ck",
            exact[3]
                .1
                .replace("create_paper_evaluation_draft", "submit_reproduction"),
        ),
        (
            "paper_raid_bff_review_receipt_json_binding_ck",
            exact[4].1.replace(
                "receipt->'receipt'->>'evaluation_id'isnotdistinctfromevaluation_idand",
                "",
            ),
        ),
    ];
    for (name, definition) in hostile {
        let canonical = exact
            .iter()
            .find_map(|(canonical_name, canonical_definition)| {
                (canonical_name == &name).then_some(canonical_definition)
            })
            .expect("hostile constraint must have a canonical definition");
        assert_ne!(
            definition, *canonical,
            "hostile constraint mutant was not constructed: {name}"
        );
        assert!(
            !review_receipt_constraint_definition_is_exact(name, &definition),
            "constraint guard accepted hostile definition: {name}"
        );
    }
    assert!(!review_receipt_constraint_definition_is_exact(
        "paper_raid_bff_review_receipt_unknown_ck",
        "CHECK (TRUE)",
    ));
}

#[test]
fn deparsed_binding_spelling_is_also_exact() {
    assert!(review_receipt_constraint_definition_is_exact(
        "paper_raid_bff_review_receipt_json_binding_ck",
        &review_json_binding_definition(true),
    ));
    assert!(review_receipt_constraint_definition_is_exact(
        "paper_raid_bff_review_receipt_frame_binding_ck",
        &review_frame_binding_definition(true),
    ));
    assert!(review_receipt_constraint_definition_is_exact(
        "paper_raid_bff_review_receipt_kind_ck",
        "CHECK ((kind = ANY (ARRAY['evaluate'::text, 'reproduce'::text])))",
    ));
    assert!(review_receipt_constraint_definition_is_exact(
        "paper_raid_bff_review_receipt_binding_fk",
        "FOREIGN KEY (binding_id) REFERENCES public.paper_raid_bff_agent_bridge_bindings(binding_id) ON DELETE CASCADE",
    ));
}
