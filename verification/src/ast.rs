//! The crate's own model of the parsed query: exactly the parts of the SQL
//! syntax tree that the translation reads, held as plain values. The
//! `sqlparser` crate produces its own tree; the trusted conversions in this
//! module reduce that tree to these types, and everything downstream is
//! verified against them.

use vstd::prelude::*;

use sqlparser::ast::BinaryOperator as SqlBinaryOperator;
use sqlparser::ast::Expr as SqlExpr;
use sqlparser::ast::SelectItem as SqlSelectItem;
use sqlparser::ast::Select as SqlSelect;
use sqlparser::ast::SetExpr as SqlSetExpr;
use sqlparser::ast::Statement as SqlStatement;
use sqlparser::ast::TableFactor as SqlTableFactor;
use sqlparser::ast::TableWithJoins as SqlTableWithJoins;
use sqlparser::ast::Value as SqlValue;
use sqlparser::dialect::GenericDialect;
use sqlparser::parser::Parser as SqlParser;

verus! {

/// A binary operator appearing in the WHERE tree: a comparator between a
/// field path and a literal, or a logical operator chaining two
/// comparisons. Operators outside the named set are carried through with
/// their source rendering.
#[derive(Debug, PartialEq, Eq)]
pub enum Operator {
    Eq,
    NotEq,
    Lt,
    Gt,
    LtEq,
    GtEq,
    And,
    Or,
    Other(String),
}

/// Mathematical image of [`Operator`].
pub enum OperatorView {
    Eq,
    NotEq,
    Lt,
    Gt,
    LtEq,
    GtEq,
    And,
    Or,
    Other(Seq<char>),
}

impl View for Operator {
    type V = OperatorView;

    open spec fn view(&self) -> OperatorView {
        match self {
            Operator::Eq => OperatorView::Eq,
            Operator::NotEq => OperatorView::NotEq,
            Operator::Lt => OperatorView::Lt,
            Operator::Gt => OperatorView::Gt,
            Operator::LtEq => OperatorView::LtEq,
            Operator::GtEq => OperatorView::GtEq,
            Operator::And => OperatorView::And,
            Operator::Or => OperatorView::Or,
            Operator::Other(s) => OperatorView::Other(s@),
        }
    }
}

impl DeepView for Operator {
    type V = OperatorView;

    open spec fn deep_view(&self) -> OperatorView {
        self.view()
    }
}

impl Clone for Operator {
    fn clone(&self) -> (res: Self)
        ensures
            res == *self,
    {
        match self {
            Operator::Eq => Operator::Eq,
            Operator::NotEq => Operator::NotEq,
            Operator::Lt => Operator::Lt,
            Operator::Gt => Operator::Gt,
            Operator::LtEq => Operator::LtEq,
            Operator::GtEq => Operator::GtEq,
            Operator::And => Operator::And,
            Operator::Or => Operator::Or,
            Operator::Other(s) => Operator::Other(s.clone()),
        }
    }
}

/// An expression node of the WHERE tree, reduced to the node kinds the
/// translation distinguishes: a dotted identifier, a quoted string literal,
/// any other literal, a binary operation, and any other node kind. The two
/// catch-all variants carry the node's source rendering for error messages.
#[derive(Debug)]
pub enum Expr {
    CompoundIdentifier(Vec<String>),
    StringLiteral(String),
    OtherLiteral(String),
    BinaryOp { op: Operator, left: Box<Expr>, right: Box<Expr> },
    Other(String),
}

/// Mathematical image of [`Expr`].
pub enum ExprView {
    CompoundIdentifier(Seq<Seq<char>>),
    StringLiteral(Seq<char>),
    OtherLiteral(Seq<char>),
    BinaryOp(OperatorView, Box<ExprView>, Box<ExprView>),
    Other(Seq<char>),
}

impl Expr {
    /// The mathematical image of this node and its children.
    pub open spec fn as_view(&self) -> ExprView
        decreases self,
    {
        match self {
            Expr::CompoundIdentifier(ids) => ExprView::CompoundIdentifier(ids.deep_view()),
            Expr::StringLiteral(s) => ExprView::StringLiteral(s@),
            Expr::OtherLiteral(s) => ExprView::OtherLiteral(s@),
            Expr::BinaryOp { op, left, right } => ExprView::BinaryOp(
                op@,
                Box::new((**left).as_view()),
                Box::new((**right).as_view()),
            ),
            Expr::Other(s) => ExprView::Other(s@),
        }
    }
}

impl View for Expr {
    type V = ExprView;

    open spec fn view(&self) -> ExprView {
        self.as_view()
    }
}

impl DeepView for Expr {
    type V = ExprView;

    open spec fn deep_view(&self) -> ExprView {
        self.as_view()
    }
}

/// One item of the SELECT projection list: a plain expression carried as
/// its source rendering, or one of the rejected shapes.
#[derive(Debug)]
pub enum Projection {
    Unnamed(String),
    WithAlias,
    QualifiedWildcard,
    Wildcard,
}

/// Mathematical image of [`Projection`].
pub enum ProjectionView {
    Unnamed(Seq<char>),
    WithAlias,
    QualifiedWildcard,
    Wildcard,
}

impl View for Projection {
    type V = ProjectionView;

    open spec fn view(&self) -> ProjectionView {
        match self {
            Projection::Unnamed(s) => ProjectionView::Unnamed(s@),
            Projection::WithAlias => ProjectionView::WithAlias,
            Projection::QualifiedWildcard => ProjectionView::QualifiedWildcard,
            Projection::Wildcard => ProjectionView::Wildcard,
        }
    }
}

impl DeepView for Projection {
    type V = ProjectionView;

    open spec fn deep_view(&self) -> ProjectionView {
        self.view()
    }
}

/// The relation a FROM item names: a plain table (with whatever aliases,
/// call-style arguments and hints it carries, each of which the extractor
/// rejects), or one of the table shapes the translation does not support.
#[derive(Debug)]
pub enum Relation {
    Table { name: String, alias: Option<String>, args: Option<usize>, hints: usize },
    Derived,
    TableFunction,
    NestedJoin,
    Unnest,
    Other,
}

/// Mathematical image of [`Relation`].
pub enum RelationView {
    Table { name: Seq<char>, alias: Option<Seq<char>>, args: Option<usize>, hints: usize },
    Derived,
    TableFunction,
    NestedJoin,
    Unnest,
    Other,
}

impl View for Relation {
    type V = RelationView;

    open spec fn view(&self) -> RelationView {
        match self {
            Relation::Table { name, alias, args, hints } => RelationView::Table {
                name: name@,
                alias: alias.deep_view(),
                args: *args,
                hints: *hints,
            },
            Relation::Derived => RelationView::Derived,
            Relation::TableFunction => RelationView::TableFunction,
            Relation::NestedJoin => RelationView::NestedJoin,
            Relation::Unnest => RelationView::Unnest,
            Relation::Other => RelationView::Other,
        }
    }
}

impl DeepView for Relation {
    type V = RelationView;

    open spec fn deep_view(&self) -> RelationView {
        self.view()
    }
}

/// One FROM item: its relation and how many joins hang off it.
#[derive(Debug)]
pub struct TableRef {
    pub joins: usize,
    pub relation: Relation,
}

/// Mathematical image of [`TableRef`].
pub struct TableRefView {
    pub joins: usize,
    pub relation: RelationView,
}

impl View for TableRef {
    type V = TableRefView;

    open spec fn view(&self) -> TableRefView {
        TableRefView { joins: self.joins, relation: self.relation@ }
    }
}

impl DeepView for TableRef {
    type V = TableRefView;

    open spec fn deep_view(&self) -> TableRefView {
        self.view()
    }
}

/// The three clause groups of a plain SELECT statement, reduced to what the
/// translation reads.
#[derive(Debug)]
pub struct Select {
    pub projection: Vec<Projection>,
    pub from: Vec<TableRef>,
    pub selection: Option<Expr>,
}

/// Mathematical image of [`Select`].
pub struct SelectView {
    pub projection: Seq<ProjectionView>,
    pub from: Seq<TableRefView>,
    pub selection: Option<ExprView>,
}

impl View for Select {
    type V = SelectView;

    open spec fn view(&self) -> SelectView {
        SelectView {
            projection: self.projection.deep_view(),
            from: self.from.deep_view(),
            selection: self.selection.deep_view(),
        }
    }
}

impl DeepView for Select {
    type V = SelectView;

    open spec fn deep_view(&self) -> SelectView {
        self.view()
    }
}

/// A parsed statement as the translation sees it: a plain SELECT, a query
/// whose body is something else (carried as its rendering, for the error
/// message), or a statement that is not a query at all.
#[derive(Debug)]
pub enum Statement {
    Select(Select),
    OtherBody(String),
    NotQuery,
}

/// Mathematical image of [`Statement`].
pub enum StatementView {
    Select(SelectView),
    OtherBody(Seq<char>),
    NotQuery,
}

impl View for Statement {
    type V = StatementView;

    open spec fn view(&self) -> StatementView {
        match self {
            Statement::Select(s) => StatementView::Select(s@),
            Statement::OtherBody(d) => StatementView::OtherBody(d@),
            Statement::NotQuery => StatementView::NotQuery,
        }
    }
}

impl DeepView for Statement {
    type V = StatementView;

    open spec fn deep_view(&self) -> StatementView {
        self.view()
    }
}

/// What the SQL grammar makes of a piece of query text: the statements it
/// parses, reduced to this crate's model, or the parse error's rendering.
/// The grammar is deterministic, so this is a function of the text alone.
pub uninterp spec fn parsed_statements(sql: Seq<char>) -> Result<Seq<StatementView>, Seq<char>>;

/// sqlparser's binary-operator node, declared so the conversions below can
/// take it.
#[verifier::external_type_specification]
#[verifier::external_body]
pub struct ExSqlBinaryOperator(SqlBinaryOperator);

/// sqlparser's expression node, declared so the conversions below can take
/// it.
#[verifier::external_type_specification]
#[verifier::external_body]
pub struct ExSqlExpr(SqlExpr);

/// sqlparser's projection item, declared so the conversions below can take
/// it.
#[verifier::external_type_specification]
#[verifier::external_body]
pub struct ExSqlSelectItem(SqlSelectItem);

/// sqlparser's table factor, declared so the conversions below can take it.
#[verifier::external_type_specification]
#[verifier::external_body]
pub struct ExSqlTableFactor(SqlTableFactor);

/// sqlparser's FROM item, declared so the conversions below can take it.
#[verifier::external_type_specification]
#[verifier::external_body]
pub struct ExSqlTableWithJoins(SqlTableWithJoins);

/// sqlparser's SELECT body, declared so the conversions below can take it.
#[verifier::external_type_specification]
#[verifier::external_body]
pub struct ExSqlSelect(SqlSelect);

/// sqlparser's statement node, declared so the conversions below can take
/// it.
#[verifier::external_type_specification]
#[verifier::external_body]
pub struct ExSqlStatement(SqlStatement);

/// Relies on sqlparser's BinaryOperator: the named variants are kept
/// one-for-one; any other operator is carried as its rendering.
#[verifier::external_body]
fn operator_model(op: &SqlBinaryOperator) -> Operator {
    match op {
        SqlBinaryOperator::Eq => Operator::Eq,
        SqlBinaryOperator::NotEq => Operator::NotEq,
        SqlBinaryOperator::Lt => Operator::Lt,
        SqlBinaryOperator::Gt => Operator::Gt,
        SqlBinaryOperator::LtEq => Operator::LtEq,
        SqlBinaryOperator::GtEq => Operator::GtEq,
        SqlBinaryOperator::And => Operator::And,
        SqlBinaryOperator::Or => Operator::Or,
        other => Operator::Other(other.to_string()),
    }
}

/// Relies on sqlparser's Expr: moves compound identifiers, quoted-string
/// literals and binary operations into the model one-for-one; every other
/// node becomes a catch-all variant carrying its rendering.
#[verifier::external_body]
fn expr_model(e: &SqlExpr) -> Expr {
    match e {
        SqlExpr::CompoundIdentifier(ids) => Expr::CompoundIdentifier(ids.iter().map(|i| i.value.clone()).collect()),
        SqlExpr::Value(v) => match &v.value {
            SqlValue::SingleQuotedString(s) | SqlValue::DoubleQuotedString(s) => Expr::StringLiteral(s.clone()),
            other => Expr::OtherLiteral(other.to_string()),
        },
        SqlExpr::BinaryOp { left, op, right } => Expr::BinaryOp {
            op: operator_model(op), left: Box::new(expr_model(left)), right: Box::new(expr_model(right)),
        },
        other => Expr::Other(other.to_string()),
    }
}

/// Relies on sqlparser's SelectItem: an unnamed expression is carried as
/// its rendering; aliased and wildcard items keep only their shape.
#[verifier::external_body]
fn projection_model(p: &SqlSelectItem) -> Projection {
    match p {
        SqlSelectItem::UnnamedExpr(e) => Projection::Unnamed(e.to_string()),
        SqlSelectItem::ExprWithAlias { .. } => Projection::WithAlias,
        SqlSelectItem::ExprWithAliases { .. } => Projection::WithAlias,
        SqlSelectItem::QualifiedWildcard(..) => Projection::QualifiedWildcard,
        SqlSelectItem::Wildcard(_) => Projection::Wildcard,
    }
}

/// Relies on sqlparser's TableFactor: a plain table keeps its rendered
/// name, rendered alias, argument count and hint count; the other factor
/// kinds keep only their shape.
#[verifier::external_body]
fn relation_model(f: &SqlTableFactor) -> Relation {
    match f {
        SqlTableFactor::Table { name, alias, args, with_hints, .. } => Relation::Table {
            name: name.to_string(),
            alias: alias.as_ref().map(|a| a.to_string()),
            args: args.as_ref().map(|a| a.args.len()),
            hints: with_hints.len(),
        },
        SqlTableFactor::Derived { .. } => Relation::Derived,
        SqlTableFactor::TableFunction { .. } => Relation::TableFunction,
        SqlTableFactor::NestedJoin { .. } => Relation::NestedJoin,
        SqlTableFactor::UNNEST { .. } => Relation::Unnest,
        _ => Relation::Other,
    }
}

/// Relies on sqlparser's TableWithJoins: keeps the relation and the number
/// of joins.
#[verifier::external_body]
fn table_model(t: &SqlTableWithJoins) -> TableRef {
    TableRef { joins: t.joins.len(), relation: relation_model(&t.relation) }
}

/// Relies on sqlparser's Select: keeps the projection list, the FROM list
/// and the WHERE expression, each reduced to the model.
#[verifier::external_body]
fn select_model(s: &SqlSelect) -> Select {
    Select {
        projection: s.projection.iter().map(projection_model).collect(),
        from: s.from.iter().map(table_model).collect(),
        selection: s.selection.as_ref().map(expr_model),
    }
}

/// Relies on sqlparser's Statement: a query with a plain SELECT body is
/// reduced to the model; any other query body keeps its rendering; any
/// other statement keeps only its shape.
#[verifier::external_body]
fn statement_model(st: &SqlStatement) -> Statement {
    match st {
        SqlStatement::Query(q) => match &*q.body {
            SqlSetExpr::Select(s) => Statement::Select(select_model(s)),
            other => Statement::OtherBody(format!("{:?}", other)),
        },
        _ => Statement::NotQuery,
    }
}

/// Relies on sqlparser's Parser::parse_sql with the generic dialect: parses
/// the text into a list of statements, reduced to the model, or returns the
/// parse error's rendering. Parsing is deterministic, so the outcome is
/// named by [`parsed_statements`].
#[verifier::external_body]
pub(crate) fn parse_statements(sql: &str) -> (r: Result<Vec<Statement>, String>)
    ensures
        (match r {
            Ok(v) => parsed_statements(sql@) == Ok::<Seq<StatementView>, Seq<char>>(v.deep_view()),
            Err(m) => parsed_statements(sql@) == Err::<Seq<StatementView>, Seq<char>>(m@),
        }),
{
    match SqlParser::parse_sql(&GenericDialect {}, sql) {
        Ok(v) => Ok(v.iter().map(statement_model).collect()),
        Err(e) => Err(e.to_string()),
    }
}

} // verus!
