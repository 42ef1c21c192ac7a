//! The planner: a recursive, bottom-up fold of a WHERE expression tree into
//! an intermediate [`Value`], applying one combination rule per pair of
//! operand kinds. The fold is the single source of translation semantics;
//! [`fold_spec`] states it mathematically and the executable fold is proved
//! equal to it.

use vstd::prelude::*;
use vstd::string::StringExecFns;

use crate::ast::{Expr, ExprView, Operator, OperatorView};
use crate::strings::{clone_strings, unescape, unescape_spec};

verus! {

/// One field-selector comparison: a resource kind, the two remaining
/// segments of the three-part field path, the comparator, and the literal
/// (with `_` rewritten back to `-`). `key` is the logical operator joining
/// this clause to the previous one in its chain; it is `None` exactly when
/// the clause is first in its chain.
#[derive(Debug, Clone, PartialEq, Eq)]
pub struct Query {
    pub key: Option<Operator>,
    pub kind: String,
    pub field1: String,
    pub field2: String,
    pub eq: String,
    pub op: Operator,
}

/// Mathematical image of [`Query`].
pub struct QueryView {
    pub key: Option<OperatorView>,
    pub kind: Seq<char>,
    pub field1: Seq<char>,
    pub field2: Seq<char>,
    pub eq: Seq<char>,
    pub op: OperatorView,
}

impl View for Query {
    type V = QueryView;

    open spec fn view(&self) -> QueryView {
        QueryView {
            key: self.key.deep_view(),
            kind: self.kind@,
            field1: self.field1@,
            field2: self.field2@,
            eq: self.eq@,
            op: self.op@,
        }
    }
}

impl DeepView for Query {
    type V = QueryView;

    open spec fn deep_view(&self) -> QueryView {
        self.view()
    }
}

/// The closed set of intermediate results the fold produces: the segments
/// of a compound identifier, a quoted literal, one finished clause, or an
/// in-progress chain of clauses.
#[derive(Debug, Clone, PartialEq, Eq)]
pub enum Value {
    StringList(Vec<String>),
    StringScalar(String),
    Clause(Query),
    ClauseChain(Vec<Query>),
}

/// Mathematical image of [`Value`].
pub enum ValueView {
    StringList(Seq<Seq<char>>),
    StringScalar(Seq<char>),
    Clause(QueryView),
    ClauseChain(Seq<QueryView>),
}

impl View for Value {
    type V = ValueView;

    open spec fn view(&self) -> ValueView {
        match self {
            Value::StringList(ids) => ValueView::StringList(ids.deep_view()),
            Value::StringScalar(s) => ValueView::StringScalar(s@),
            Value::Clause(q) => ValueView::Clause(q@),
            Value::ClauseChain(qs) => ValueView::ClauseChain(qs.deep_view()),
        }
    }
}

impl DeepView for Value {
    type V = ValueView;

    open spec fn deep_view(&self) -> ValueView {
        self.view()
    }
}

/// A failed fold step. `Unknown` carries a human-readable cause (the arity
/// rule), `Unsupported` names the node kind and its rendering, and
/// `TypeMismatch` carries the two operand values no combination rule
/// accepts.
#[derive(Debug, Clone, PartialEq, Eq)]
pub enum PlanError {
    Unknown(String),
    Unsupported(String, String),
    TypeMismatch(Box<Value>, Box<Value>),
}

/// Mathematical image of [`PlanError`].
pub enum PlanErrorView {
    Unknown(Seq<char>),
    Unsupported(Seq<char>, Seq<char>),
    TypeMismatch(ValueView, ValueView),
}

impl View for PlanError {
    type V = PlanErrorView;

    open spec fn view(&self) -> PlanErrorView {
        match self {
            PlanError::Unknown(s) => PlanErrorView::Unknown(s@),
            PlanError::Unsupported(k, d) => PlanErrorView::Unsupported(k@, d@),
            PlanError::TypeMismatch(l, r) => PlanErrorView::TypeMismatch(l@, r@),
        }
    }
}

impl DeepView for PlanError {
    type V = PlanErrorView;

    open spec fn deep_view(&self) -> PlanErrorView {
        self.view()
    }
}

impl Value {
    /// The name of this value's kind, for diagnostics.
    pub open spec fn kind_name_spec(&self) -> Seq<char> {
        match self {
            Value::StringList(_) => "StringList"@,
            Value::StringScalar(_) => "StringScalar"@,
            Value::Clause(_) => "Clause"@,
            Value::ClauseChain(_) => "ClauseChain"@,
        }
    }

    /// Names this value's kind, for diagnostics.
    pub fn kind_name(&self) -> (r: String)
        ensures
            r@ == self.kind_name_spec(),
    {
        match self {
            Value::StringList(_) => String::from_str("StringList"),
            Value::StringScalar(_) => String::from_str("StringScalar"),
            Value::Clause(_) => String::from_str("Clause"),
            Value::ClauseChain(_) => String::from_str("ClauseChain"),
        }
    }
}

impl PlanError {
    /// The human-readable cause this error carries.
    pub open spec fn message_spec(&self) -> Seq<char> {
        match self {
            PlanError::Unknown(m) => "Unknown PlanError: "@ + m@,
            PlanError::Unsupported(k, d) => "PlanQuery for "@ + k@ + " unsupported: "@ + d@,
            PlanError::TypeMismatch(l, r) => "Type mismatch L: "@ + l.kind_name_spec() + ", R: "@
                + r.kind_name_spec() + "!"@,
        }
    }

    /// Renders the human-readable cause this error carries.
    pub fn message(&self) -> (r: String)
        ensures
            r@ == self.message_spec(),
    {
        match self {
            PlanError::Unknown(m) => {
                let mut r = String::from_str("Unknown PlanError: ");
                r.append(m.as_str());
                r
            },
            PlanError::Unsupported(k, d) => {
                let mut r = String::from_str("PlanQuery for ");
                r.append(k.as_str());
                r.append(" unsupported: ");
                r.append(d.as_str());
                r
            },
            PlanError::TypeMismatch(l, r) => {
                let mut m = String::from_str("Type mismatch L: ");
                m.append(l.kind_name().as_str());
                m.append(", R: ");
                m.append(r.kind_name().as_str());
                m.append("!");
                m
            },
        }
    }
}

pub type PlanResult = Result<Value, PlanError>;

/// Mathematical image of a [`PlanResult`].
pub open spec fn plan_result_view(r: PlanResult) -> Result<ValueView, PlanErrorView> {
    match r {
        Ok(v) => Ok(v@),
        Err(e) => Err(e@),
    }
}

/// Context threaded through the fold. Translation is purely structural, so
/// it carries no state yet.
#[derive(Debug, Clone, Default)]
pub struct PlanContext {}

/// Folding a node of the WHERE tree into an intermediate [`Value`].
pub trait PlanQuery {
    fn plan(&self, context: &mut PlanContext) -> PlanResult;
}

/// `q` with its chaining operator set to `op`: how a clause is appended to
/// a chain.
pub open spec fn chained(q: QueryView, op: OperatorView) -> QueryView {
    QueryView { key: Some(op), ..q }
}

/// The combination rule for a binary operation whose operands folded to `l`
/// and `r`. Exactly three pairings are legal: a three-segment identifier
/// compared with a literal makes a clause; two clauses start a chain; a
/// chain absorbs a clause on its right. Everything else is a type
/// mismatch.
pub open spec fn combine_spec(op: OperatorView, l: ValueView, r: ValueView) -> Result<
    ValueView,
    PlanErrorView,
> {
    match (l, r) {
        (ValueView::StringList(ids), ValueView::StringScalar(lit)) => {
            if ids.len() == 3 {
                Ok(
                    ValueView::Clause(
                        QueryView {
                            key: None,
                            kind: ids[0],
                            field1: ids[1],
                            field2: ids[2],
                            eq: unescape_spec(lit),
                            op: op,
                        },
                    ),
                )
            } else {
                Err(
                    PlanErrorView::Unknown(
                        "WHERE statement does only support three length CompoundIdentifier: i.e. 'pod.status.phase'"@,
                    ),
                )
            }
        },
        (ValueView::Clause(a), ValueView::Clause(b)) => Ok(
            ValueView::ClauseChain(seq![a, chained(b, op)]),
        ),
        (ValueView::ClauseChain(qs), ValueView::Clause(b)) => Ok(
            ValueView::ClauseChain(qs.push(chained(b, op))),
        ),
        (x, y) => Err(PlanErrorView::TypeMismatch(x, y)),
    }
}

/// The whole fold: a compound identifier yields its segments, a quoted
/// string yields a scalar, a binary operation folds both children and
/// combines them, and every other node kind is unsupported.
pub open spec fn fold_spec(e: ExprView) -> Result<ValueView, PlanErrorView>
    decreases e,
{
    match e {
        ExprView::CompoundIdentifier(ids) => Ok(ValueView::StringList(ids)),
        ExprView::StringLiteral(s) => Ok(ValueView::StringScalar(s)),
        ExprView::OtherLiteral(d) => Err(PlanErrorView::Unsupported("Value"@, d)),
        ExprView::BinaryOp(op, l, r) => match fold_spec(*l) {
            Err(e1) => Err(e1),
            Ok(lv) => match fold_spec(*r) {
                Err(e2) => Err(e2),
                Ok(rv) => combine_spec(op, lv, rv),
            },
        },
        ExprView::Other(d) => Err(PlanErrorView::Unsupported("Expr"@, d)),
    }
}

/// The fold of one WHERE comparison: a compound identifier on the left, a
/// string literal on the right.
pub open spec fn comparison_expr(ids: Seq<Seq<char>>, lit: Seq<char>, op: OperatorView) -> ExprView {
    ExprView::BinaryOp(
        op,
        Box::new(ExprView::CompoundIdentifier(ids)),
        Box::new(ExprView::StringLiteral(lit)),
    )
}

/// The clause one three-segment comparison folds to.
pub open spec fn comparison_clause(ids: Seq<Seq<char>>, lit: Seq<char>, op: OperatorView) -> QueryView {
    QueryView {
        key: None,
        kind: ids[0],
        field1: ids[1],
        field2: ids[2],
        eq: unescape_spec(lit),
        op: op,
    }
}

/// Law: a comparison of a compound identifier against a string literal
/// folds to a clause exactly when the identifier has three segments; any
/// other arity folds to the arity error, never to a truncated clause.
pub proof fn lemma_arity_invariant(ids: Seq<Seq<char>>, lit: Seq<char>, op: OperatorView)
    ensures
        ids.len() == 3 ==> fold_spec(comparison_expr(ids, lit, op)) == Ok::<
            ValueView,
            PlanErrorView,
        >(ValueView::Clause(comparison_clause(ids, lit, op))),
        ids.len() != 3 ==> fold_spec(comparison_expr(ids, lit, op)) == Err::<
            ValueView,
            PlanErrorView,
        >(
            PlanErrorView::Unknown(
                "WHERE statement does only support three length CompoundIdentifier: i.e. 'pod.status.phase'"@,
            ),
        ),
{
    let el = ExprView::CompoundIdentifier(ids);
    let er = ExprView::StringLiteral(lit);
    assert(fold_spec(el) == Ok::<ValueView, PlanErrorView>(ValueView::StringList(ids)));
    assert(fold_spec(er) == Ok::<ValueView, PlanErrorView>(ValueView::StringScalar(lit)));
    assert(fold_spec(comparison_expr(ids, lit, op)) == combine_spec(
        op,
        ValueView::StringList(ids),
        ValueView::StringScalar(lit),
    ));
}

/// Law: folding `c1 k1 c2 k2 c3` (three comparisons, left-associative, each
/// with a three-segment identifier) yields a chain of exactly three
/// clauses in source order; the first carries no chaining operator, the
/// second carries `k1`, the third carries `k2`.
pub proof fn lemma_chain_order(
    ids1: Seq<Seq<char>>,
    lit1: Seq<char>,
    cmp1: OperatorView,
    ids2: Seq<Seq<char>>,
    lit2: Seq<char>,
    cmp2: OperatorView,
    ids3: Seq<Seq<char>>,
    lit3: Seq<char>,
    cmp3: OperatorView,
    k1: OperatorView,
    k2: OperatorView,
)
    requires
        ids1.len() == 3,
        ids2.len() == 3,
        ids3.len() == 3,
    ensures
        fold_spec(
            ExprView::BinaryOp(
                k2,
                Box::new(
                    ExprView::BinaryOp(
                        k1,
                        Box::new(comparison_expr(ids1, lit1, cmp1)),
                        Box::new(comparison_expr(ids2, lit2, cmp2)),
                    ),
                ),
                Box::new(comparison_expr(ids3, lit3, cmp3)),
            ),
        ) == Ok::<ValueView, PlanErrorView>(
            ValueView::ClauseChain(
                seq![
                    comparison_clause(ids1, lit1, cmp1),
                    chained(comparison_clause(ids2, lit2, cmp2), k1),
                    chained(comparison_clause(ids3, lit3, cmp3), k2),
                ],
            ),
        ),
{
    let q1 = comparison_clause(ids1, lit1, cmp1);
    let q2 = comparison_clause(ids2, lit2, cmp2);
    let q3 = comparison_clause(ids3, lit3, cmp3);
    lemma_arity_invariant(ids1, lit1, cmp1);
    lemma_arity_invariant(ids2, lit2, cmp2);
    lemma_arity_invariant(ids3, lit3, cmp3);
    let inner = ExprView::BinaryOp(
        k1,
        Box::new(comparison_expr(ids1, lit1, cmp1)),
        Box::new(comparison_expr(ids2, lit2, cmp2)),
    );
    assert(fold_spec(inner) == combine_spec(k1, ValueView::Clause(q1), ValueView::Clause(q2)));
    assert(fold_spec(inner) == Ok::<ValueView, PlanErrorView>(
        ValueView::ClauseChain(seq![q1, chained(q2, k1)]),
    ));
    let outer = ExprView::BinaryOp(
        k2,
        Box::new(inner),
        Box::new(comparison_expr(ids3, lit3, cmp3)),
    );
    assert(fold_spec(outer) == combine_spec(
        k2,
        ValueView::ClauseChain(seq![q1, chained(q2, k1)]),
        ValueView::Clause(q3),
    ));
    assert(seq![q1, chained(q2, k1)].push(chained(q3, k2)) =~= seq![
        q1,
        chained(q2, k1),
        chained(q3, k2),
    ]);
}

/// Applies the combination rule to two folded operands.
fn combine(op: &Operator, l: Value, r: Value) -> (res: PlanResult)
    ensures
        plan_result_view(res) == combine_spec(op@, l@, r@),
{
    match (l, r) {
        (Value::StringList(ids), Value::StringScalar(lit)) => {
            if ids.len() != 3 {
                return Err(
                    PlanError::Unknown(
                        String::from_str(
                            "WHERE statement does only support three length CompoundIdentifier: i.e. 'pod.status.phase'",
                        ),
                    ),
                );
            }
            Ok(
                Value::Clause(
                    Query {
                        key: None,
                        kind: ids[0].clone(),
                        field1: ids[1].clone(),
                        field2: ids[2].clone(),
                        eq: unescape(lit.as_str()),
                        op: op.clone(),
                    },
                ),
            )
        },
        (Value::Clause(a), Value::Clause(b)) => {
            let mut chained_b = b;
            chained_b.key = Some(op.clone());
            let mut v: Vec<Query> = Vec::new();
            v.push(a);
            v.push(chained_b);
            proof {
                assert(v.deep_view() =~= seq![a@, chained(b@, op@)]);
            }
            Ok(Value::ClauseChain(v))
        },
        (Value::ClauseChain(qs), Value::Clause(b)) => {
            let mut chained_b = b;
            chained_b.key = Some(op.clone());
            let mut v = qs;
            v.push(chained_b);
            proof {
                assert(v.deep_view() =~= qs.deep_view().push(chained(b@, op@)));
            }
            Ok(Value::ClauseChain(v))
        },
        (x, y) => Err(PlanError::TypeMismatch(Box::new(x), Box::new(y))),
    }
}

impl PlanQuery for Expr {
    /// Folds this node, bottom-up, into one intermediate [`Value`], exactly
    /// as [`fold_spec`] states.
    fn plan(&self, context: &mut PlanContext) -> (r: PlanResult)
        ensures
            plan_result_view(r) == fold_spec(self@),
        decreases self,
    {
        match self {
            Expr::CompoundIdentifier(ids) => Ok(Value::StringList(clone_strings(ids))),
            Expr::StringLiteral(s) => Ok(Value::StringScalar(s.clone())),
            Expr::OtherLiteral(d) => Err(
                PlanError::Unsupported(String::from_str("Value"), d.clone()),
            ),
            Expr::BinaryOp { op, left, right } => {
                let lv = match left.plan(context) {
                    Ok(v) => v,
                    Err(e) => {
                        return Err(e);
                    },
                };
                let rv = match right.plan(context) {
                    Ok(v) => v,
                    Err(e) => {
                        return Err(e);
                    },
                };
                combine(op, lv, rv)
            },
            Expr::Other(d) => Err(PlanError::Unsupported(String::from_str("Expr"), d.clone())),
        }
    }
}

} // verus!
