//! Planner tests: folding expression trees built by hand, without the SQL
//! grammar in the loop.

use kubesql::ast::{Expr, Operator};
use kubesql::ast::Statement;
use kubesql::parser::{extract_statement, ParserError};
use kubesql::planner::{PlanContext, PlanError, PlanQuery, Value};

fn ident(segments: &[&str]) -> Expr {
    Expr::CompoundIdentifier(segments.iter().map(|s| s.to_string()).collect())
}

fn comparison(segments: &[&str], lit: &str, op: Operator) -> Expr {
    Expr::BinaryOp {
        op,
        left: Box::new(ident(segments)),
        right: Box::new(Expr::StringLiteral(lit.to_string())),
    }
}

#[test]
fn compound_identifier_folds_to_its_segments() {
    let mut ctx = PlanContext::default();
    let v = ident(&["pod", "status", "phase"]).plan(&mut ctx).unwrap();
    assert_eq!(
        v,
        Value::StringList(vec!["pod".to_string(), "status".to_string(), "phase".to_string()])
    );
}

#[test]
fn string_literal_folds_to_a_scalar() {
    let mut ctx = PlanContext::default();
    let v = Expr::StringLiteral("Running".to_string()).plan(&mut ctx).unwrap();
    assert_eq!(v, Value::StringScalar("Running".to_string()));
}

#[test]
fn comparison_folds_to_a_clause() {
    let mut ctx = PlanContext::default();
    let v = comparison(&["pod", "status", "phase"], "Running", Operator::Eq)
        .plan(&mut ctx)
        .unwrap();
    match v {
        Value::Clause(q) => {
            assert_eq!(q.key, None);
            assert_eq!(q.kind, "pod");
            assert_eq!(q.field1, "status");
            assert_eq!(q.field2, "phase");
            assert_eq!(q.op, Operator::Eq);
            assert_eq!(q.eq, "Running");
        }
        other => panic!("expected a clause, got {:?}", other),
    }
}

#[test]
fn clause_literal_unescapes_underscores() {
    let mut ctx = PlanContext::default();
    let v = comparison(&["pod", "status", "phase"], "my_app", Operator::Eq)
        .plan(&mut ctx)
        .unwrap();
    match v {
        Value::Clause(q) => assert_eq!(q.eq, "my-app"),
        other => panic!("expected a clause, got {:?}", other),
    }
}

#[test]
fn short_identifier_is_an_arity_error() {
    let mut ctx = PlanContext::default();
    let err = comparison(&["pod", "status"], "x", Operator::Eq).plan(&mut ctx).unwrap_err();
    assert_eq!(
        err,
        PlanError::Unknown(
            "WHERE statement does only support three length CompoundIdentifier: i.e. 'pod.status.phase'"
                .to_string()
        )
    );
}

#[test]
fn two_clauses_start_a_chain() {
    let mut ctx = PlanContext::default();
    let tree = Expr::BinaryOp {
        op: Operator::And,
        left: Box::new(comparison(&["a", "b", "c"], "x", Operator::Eq)),
        right: Box::new(comparison(&["d", "e", "f"], "y", Operator::NotEq)),
    };
    let v = tree.plan(&mut ctx).unwrap();
    match v {
        Value::ClauseChain(qs) => {
            assert_eq!(qs.len(), 2);
            assert_eq!(qs[0].key, None);
            assert_eq!(qs[0].op, Operator::Eq);
            assert_eq!(qs[1].key, Some(Operator::And));
            assert_eq!(qs[1].op, Operator::NotEq);
        }
        other => panic!("expected a chain, got {:?}", other),
    }
}

#[test]
fn a_chain_absorbs_a_clause_on_its_right() {
    let mut ctx = PlanContext::default();
    let inner = Expr::BinaryOp {
        op: Operator::And,
        left: Box::new(comparison(&["a", "b", "c"], "x", Operator::Eq)),
        right: Box::new(comparison(&["d", "e", "f"], "y", Operator::Eq)),
    };
    let tree = Expr::BinaryOp {
        op: Operator::Or,
        left: Box::new(inner),
        right: Box::new(comparison(&["g", "h", "i"], "z", Operator::Eq)),
    };
    let v = tree.plan(&mut ctx).unwrap();
    match v {
        Value::ClauseChain(qs) => {
            assert_eq!(qs.len(), 3);
            assert_eq!(qs[0].key, None);
            assert_eq!(qs[0].kind, "a");
            assert_eq!(qs[1].key, Some(Operator::And));
            assert_eq!(qs[1].kind, "d");
            assert_eq!(qs[2].key, Some(Operator::Or));
            assert_eq!(qs[2].kind, "g");
        }
        other => panic!("expected a chain, got {:?}", other),
    }
}

#[test]
fn mismatched_operands_are_a_type_mismatch() {
    let mut ctx = PlanContext::default();
    let tree = Expr::BinaryOp {
        op: Operator::Eq,
        left: Box::new(Expr::StringLiteral("x".to_string())),
        right: Box::new(ident(&["a", "b", "c"])),
    };
    let err = tree.plan(&mut ctx).unwrap_err();
    match err {
        PlanError::TypeMismatch(l, r) => {
            assert_eq!(*l, Value::StringScalar("x".to_string()));
            assert_eq!(
                *r,
                Value::StringList(vec!["a".to_string(), "b".to_string(), "c".to_string()])
            );
        }
        other => panic!("expected a type mismatch, got {:?}", other),
    }
}

#[test]
fn unknown_node_kind_is_unsupported() {
    let mut ctx = PlanContext::default();
    let err = Expr::Other("x + y".to_string()).plan(&mut ctx).unwrap_err();
    assert_eq!(err, PlanError::Unsupported("Expr".to_string(), "x + y".to_string()));
}

#[test]
fn extract_rejects_empty_projection() {
    let st = Statement::Select(kubesql::ast::Select {
        projection: vec![],
        from: vec![],
        selection: None,
    });
    assert_eq!(extract_statement(st).unwrap_err(), ParserError::SelectProjectionsRequired);
}

#[test]
fn extract_rejects_empty_from() {
    let st = Statement::Select(kubesql::ast::Select {
        projection: vec![kubesql::ast::Projection::Unnamed("a".to_string())],
        from: vec![],
        selection: None,
    });
    assert_eq!(extract_statement(st).unwrap_err(), ParserError::SelectFromRequired);
}
