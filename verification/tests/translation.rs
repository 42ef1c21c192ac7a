//! End-to-end translation tests: real SQL text through the real grammar.

use kubesql::ast::Operator;
use kubesql::parser::{parse_sql, ParserError};
use kubesql::planner::PlanError;

#[test]
fn single_comparison_plan() {
    let plan = parse_sql("SELECT default FROM prod-cluster WHERE pod.status.phase = 'Running'")
        .unwrap();
    assert_eq!(plan.namespaces, vec!["default".to_string()]);
    assert_eq!(plan.contexts, vec!["prod-cluster".to_string()]);
    assert_eq!(plan.queries.len(), 1);
    let q = &plan.queries[0];
    assert_eq!(q.key, None);
    assert_eq!(q.kind, "pod");
    assert_eq!(q.field1, "status");
    assert_eq!(q.field2, "phase");
    assert_eq!(q.op, Operator::Eq);
    assert_eq!(q.eq, "Running");
}

#[test]
fn two_comparisons_chained_with_and() {
    let plan = parse_sql(
        "SELECT a, b FROM c1, c2 WHERE deployment.metadata.name = 'x' AND pod.status.phase = 'Running'",
    )
    .unwrap();
    assert_eq!(plan.namespaces, vec!["a".to_string(), "b".to_string()]);
    assert_eq!(plan.contexts, vec!["c1".to_string(), "c2".to_string()]);
    assert_eq!(plan.queries.len(), 2);
    assert_eq!(plan.queries[0].key, None);
    assert_eq!(plan.queries[0].kind, "deployment");
    assert_eq!(plan.queries[0].eq, "x");
    assert_eq!(plan.queries[1].key, Some(Operator::And));
    assert_eq!(plan.queries[1].kind, "pod");
    assert_eq!(plan.queries[1].eq, "Running");
}

#[test]
fn three_comparisons_keep_source_order() {
    let plan = parse_sql(
        "SELECT n FROM c WHERE pod.a.b = 'x' AND deployment.c.d = 'y' OR service.e.f = 'z'",
    )
    .unwrap();
    assert_eq!(plan.queries.len(), 3);
    assert_eq!(plan.queries[0].key, None);
    assert_eq!(plan.queries[0].kind, "pod");
    assert_eq!(plan.queries[1].key, Some(Operator::And));
    assert_eq!(plan.queries[1].kind, "deployment");
    assert_eq!(plan.queries[2].key, Some(Operator::Or));
    assert_eq!(plan.queries[2].kind, "service");
}

#[test]
fn wildcard_projection_is_rejected() {
    let err = parse_sql("SELECT * FROM c WHERE pod.status.phase = 'Running'").unwrap_err();
    assert_eq!(
        err,
        ParserError::Unsupported("SELECT statement does not support Wildcard selector!".to_string())
    );
}

#[test]
fn two_segment_identifier_is_an_arity_error() {
    let err = parse_sql("SELECT a FROM c WHERE pod.status = 'x'").unwrap_err();
    assert_eq!(
        err,
        ParserError::Plan(PlanError::Unknown(
            "WHERE statement does only support three length CompoundIdentifier: i.e. 'pod.status.phase'"
                .to_string()
        ))
    );
}

#[test]
fn four_segment_identifier_is_an_arity_error() {
    let err = parse_sql("SELECT a FROM c WHERE pod.status.phase.extra = 'x'").unwrap_err();
    assert!(matches!(err, ParserError::Plan(PlanError::Unknown(_))));
}

#[test]
fn missing_where_is_rejected() {
    let err = parse_sql("SELECT a FROM c").unwrap_err();
    assert_eq!(
        err,
        ParserError::Unsupported(
            "WHERE statement is required in order to set --field-selector!".to_string()
        )
    );
}

#[test]
fn aliased_projection_is_rejected() {
    let err = parse_sql("SELECT a AS b FROM c WHERE pod.status.phase = 'x'").unwrap_err();
    assert_eq!(
        err,
        ParserError::Unsupported(
            "SELECT statement does not support ExprWithAlias selector!".to_string()
        )
    );
}

#[test]
fn joined_from_is_rejected() {
    let err =
        parse_sql("SELECT a FROM c1 JOIN c2 ON c1.x = c2.x WHERE pod.status.phase = 'Running'")
            .unwrap_err();
    assert_eq!(
        err,
        ParserError::Unsupported("FROM statement does not support Join!".to_string())
    );
}

#[test]
fn aliased_table_is_rejected() {
    let err = parse_sql("SELECT a FROM c AS d WHERE pod.status.phase = 'Running'").unwrap_err();
    assert_eq!(
        err,
        ParserError::Unsupported("FROM statement does not support Table aliases!".to_string())
    );
}

#[test]
fn non_query_statement_is_rejected() {
    let err = parse_sql("INSERT INTO t (a) VALUES (1)").unwrap_err();
    assert_eq!(
        err,
        ParserError::Unsupported("Only QUERY statements are supported!".to_string())
    );
}

#[test]
fn literal_comparison_is_a_type_mismatch() {
    let err = parse_sql("SELECT a FROM c WHERE 'x' = 'y'").unwrap_err();
    assert!(matches!(err, ParserError::Plan(PlanError::TypeMismatch(_, _))));
}

#[test]
fn number_literal_is_unsupported() {
    let err = parse_sql("SELECT a FROM c WHERE pod.status.phase = 42").unwrap_err();
    match err {
        ParserError::Plan(PlanError::Unsupported(kind, _)) => assert_eq!(kind, "Value"),
        other => panic!("unexpected error: {:?}", other),
    }
}

#[test]
fn single_identifier_comparand_is_unsupported() {
    let err = parse_sql("SELECT a FROM c WHERE x = 'y'").unwrap_err();
    match err {
        ParserError::Plan(PlanError::Unsupported(kind, _)) => assert_eq!(kind, "Expr"),
        other => panic!("unexpected error: {:?}", other),
    }
}

#[test]
fn hyphens_survive_the_round_trip() {
    let plan = parse_sql(
        "SELECT kube-system FROM dev-cluster WHERE deployment.metadata.name = 'my-app'",
    )
    .unwrap();
    assert_eq!(plan.namespaces, vec!["kube-system".to_string()]);
    assert_eq!(plan.contexts, vec!["dev-cluster".to_string()]);
    assert_eq!(plan.queries[0].eq, "my-app");
}

#[test]
fn rejection_is_stable_across_runs() {
    let first = parse_sql("SELECT * FROM c WHERE pod.status.phase = 'Running'").unwrap_err();
    let second = parse_sql("SELECT * FROM c WHERE pod.status.phase = 'Running'").unwrap_err();
    assert_eq!(first, second);
}

#[test]
fn unparsable_text_is_an_error_value() {
    assert!(parse_sql("not sql at all").is_err());
}
