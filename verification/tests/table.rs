//! Tests of the table-data side (printer), the context validator, the
//! resource-type names and the escaping helpers.

use std::str::FromStr;

use kubesql::ast::Operator;
use kubesql::parser::{ParserError, ResourceType};
use kubesql::planner::{PlanError, Query, Value};
use kubesql::printer::Printer;
use kubesql::strings::{eq_ignore_ascii_case, escape, str_eq, unescape};
use kubesql::validator::{validate_contexts, ValidationError};

fn eq_clause(kind: &str) -> Query {
    Query {
        key: None,
        kind: kind.to_string(),
        field1: "status".to_string(),
        field2: "phase".to_string(),
        eq: "Running".to_string(),
        op: Operator::Eq,
    }
}

#[test]
fn escape_swaps_hyphens_for_underscores() {
    assert_eq!(escape("prod-cluster"), "prod_cluster");
    assert_eq!(unescape("prod_cluster"), "prod-cluster");
    assert_eq!(unescape(&escape("abc-123")), "abc-123");
    assert_eq!(escape(""), "");
}

#[test]
fn str_eq_compares_characters() {
    assert!(str_eq("abc", "abc"));
    assert!(!str_eq("abc", "abd"));
    assert!(!str_eq("abc", "ab"));
}

#[test]
fn case_insensitive_comparison() {
    assert!(eq_ignore_ascii_case("POD", "pod"));
    assert!(eq_ignore_ascii_case("Pod", "pOd"));
    assert!(!eq_ignore_ascii_case("pod", "pods"));
    assert!(!eq_ignore_ascii_case("pod", "pad"));
}

#[test]
fn resource_type_names_round_trip() {
    assert_eq!(ResourceType::Pod.name(), "pod");
    assert_eq!(ResourceType::Deployment.name(), "deployment");
    assert_eq!(ResourceType::Service.name(), "service");
    assert_eq!(ResourceType::from_str("pod").unwrap(), ResourceType::Pod);
    assert_eq!(ResourceType::from_str("deployment").unwrap(), ResourceType::Deployment);
    assert_eq!(ResourceType::from_str("service").unwrap(), ResourceType::Service);
    assert_eq!(
        ResourceType::from_str("node").unwrap_err(),
        ParserError::Unknown("Unexpected ResourceType for node".to_string())
    );
}

#[test]
fn errors_render_their_cause() {
    assert_eq!(
        ParserError::Unsupported("joins".to_string()).message(),
        "Unsupported: joins"
    );
    assert_eq!(
        ParserError::SelectProjectionsRequired.message(),
        "SELECT statement is required to call the given namespace(s)!"
    );
    assert_eq!(
        ParserError::SelectFromRequired.message(),
        "FROM statement is required to call the given context(s)!"
    );
    assert_eq!(
        PlanError::Unsupported("Expr".to_string(), "x".to_string()).message(),
        "PlanQuery for Expr unsupported: x"
    );
    assert_eq!(
        PlanError::TypeMismatch(
            Box::new(Value::StringScalar("x".to_string())),
            Box::new(Value::StringScalar("y".to_string()))
        )
        .message(),
        "Type mismatch L: StringScalar, R: StringScalar!"
    );
}

#[test]
fn validator_accepts_known_contexts() {
    let known = vec!["dev".to_string(), "prod".to_string()];
    let ctxs = vec!["prod".to_string()];
    assert_eq!(validate_contexts(&known, &ctxs), Ok(()));
}

#[test]
fn validator_reports_unknown_contexts_in_order() {
    let known = vec!["dev".to_string()];
    let ctxs = vec!["staging".to_string(), "dev".to_string(), "prod".to_string()];
    assert_eq!(
        validate_contexts(&known, &ctxs),
        Err(ValidationError::ContextNotFound(vec![
            "staging".to_string(),
            "prod".to_string()
        ]))
    );
}

#[test]
fn should_append_matches_kinds_case_insensitively() {
    let printer = Printer::builder().queries(vec![eq_clause("POD"), eq_clause("deployment")]);
    assert!(printer.should_append(&ResourceType::Pod));
    assert!(printer.should_append(&ResourceType::Deployment));
    assert!(!printer.should_append(&ResourceType::Service));
}

#[test]
fn cell_value_joins_matching_items_and_defaults_to_dash() {
    let mut printer = Printer::new();
    printer.insert_pods("ctx1", "ns1", vec!["p1".to_string(), "p2".to_string()]);
    printer.insert_pods("ctx1", "ns2", vec!["p3".to_string()]);
    printer.insert_deployments("ctx1", "ns1", vec!["d1".to_string()]);
    assert_eq!(printer.cell_value(&ResourceType::Pod, "ctx1", "ns1"), "p1\np2");
    assert_eq!(printer.cell_value(&ResourceType::Pod, "ctx1", "ns2"), "p3");
    assert_eq!(printer.cell_value(&ResourceType::Deployment, "ctx1", "ns1"), "d1");
    assert_eq!(printer.cell_value(&ResourceType::Pod, "ctx2", "ns1"), "-");
    assert_eq!(printer.cell_value(&ResourceType::Service, "ctx1", "ns1"), "-");
}

#[test]
fn cell_value_concatenates_repeated_inserts() {
    let mut printer = Printer::new();
    printer.insert_services("c", "n", vec!["s1".to_string()]);
    printer.insert_services("c", "n", vec!["s2".to_string()]);
    assert_eq!(printer.cell_value(&ResourceType::Service, "c", "n"), "s1s2");
}

#[test]
fn empty_insert_produces_a_dash_cell() {
    let mut printer = Printer::new();
    printer.insert_pods("c", "n", vec![]);
    assert_eq!(printer.cell_value(&ResourceType::Pod, "c", "n"), "-");
}

#[test]
fn builder_setters_record_their_arguments() {
    let printer = Printer::builder()
        .contexts(vec!["c1".to_string()])
        .namespaces(vec!["n1".to_string()])
        .queries(vec![eq_clause("pod")]);
    assert_eq!(printer.get_contexts().as_ref().unwrap(), &vec!["c1".to_string()]);
    assert_eq!(printer.get_namespaces().as_ref().unwrap(), &vec!["n1".to_string()]);
    assert_eq!(printer.get_queries().as_ref().unwrap().len(), 1);
}
