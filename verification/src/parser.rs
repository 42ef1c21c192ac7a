//! The clause extractor: splits a parsed SELECT statement into the three
//! clause groups of a query plan — projection list to namespaces, table
//! list to contexts, WHERE tree (folded by the planner) to the clause
//! chain — and rejects every surface shape outside the supported grammar
//! subset with its own named error.

use vstd::prelude::*;
use vstd::string::StringExecFns;

use crate::ast::{
    parse_statements, parsed_statements, Projection, ProjectionView, Relation, RelationView,
    Select, SelectView, Statement, StatementView, TableRefView,
};
use crate::planner::{
    fold_spec, PlanContext, PlanError, PlanErrorView, PlanQuery, Query,
    QueryView, Value, ValueView,
};
use crate::strings::{escape, escape_spec, str_eq, unescape, unescape_spec};

verus! {

/// A failed translation. Every failure the translation can hit is a
/// distinct, recoverable value: nothing panics and no partial plan is ever
/// returned.
#[derive(Debug, PartialEq, Eq)]
pub enum ParserError {
    /// A cause outside the enumerated grammar shapes, carried as text: a
    /// parse failure's rendering, an input with no statement, or an
    /// unexpected resource-type name.
    Unknown(String),
    /// A grammar shape the translation refuses, named by its message.
    Unsupported(String),
    /// A failure reading the cluster configuration, carried as its
    /// rendering.
    KubeConfigError(String),
    /// The projection list is empty.
    SelectProjectionsRequired,
    /// The table list is empty.
    SelectFromRequired,
    /// The WHERE tree could not be folded into a clause chain.
    Plan(PlanError),
}

/// Mathematical image of [`ParserError`].
pub enum ParserErrorView {
    Unknown(Seq<char>),
    Unsupported(Seq<char>),
    KubeConfigError(Seq<char>),
    SelectProjectionsRequired,
    SelectFromRequired,
    Plan(PlanErrorView),
}

impl View for ParserError {
    type V = ParserErrorView;

    open spec fn view(&self) -> ParserErrorView {
        match self {
            ParserError::Unknown(s) => ParserErrorView::Unknown(s@),
            ParserError::Unsupported(s) => ParserErrorView::Unsupported(s@),
            ParserError::KubeConfigError(s) => ParserErrorView::KubeConfigError(s@),
            ParserError::SelectProjectionsRequired => ParserErrorView::SelectProjectionsRequired,
            ParserError::SelectFromRequired => ParserErrorView::SelectFromRequired,
            ParserError::Plan(e) => ParserErrorView::Plan(e@),
        }
    }
}

impl DeepView for ParserError {
    type V = ParserErrorView;

    open spec fn deep_view(&self) -> ParserErrorView {
        self.view()
    }
}

impl ParserError {
    /// The human-readable cause this error carries.
    pub open spec fn message_spec(&self) -> Seq<char> {
        match self {
            ParserError::Unknown(m) => "Unknown: "@ + m@,
            ParserError::Unsupported(m) => "Unsupported: "@ + m@,
            ParserError::KubeConfigError(m) => "KubeConfigError: "@ + m@,
            ParserError::SelectProjectionsRequired =>
                "SELECT statement is required to call the given namespace(s)!"@,
            ParserError::SelectFromRequired =>
                "FROM statement is required to call the given context(s)!"@,
            ParserError::Plan(e) => e.message_spec(),
        }
    }

    /// Renders the human-readable cause this error carries.
    pub fn message(&self) -> (r: String)
        ensures
            r@ == self.message_spec(),
    {
        match self {
            ParserError::Unknown(m) => {
                let mut r = String::from_str("Unknown: ");
                r.append(m.as_str());
                r
            },
            ParserError::Unsupported(m) => {
                let mut r = String::from_str("Unsupported: ");
                r.append(m.as_str());
                r
            },
            ParserError::KubeConfigError(m) => {
                let mut r = String::from_str("KubeConfigError: ");
                r.append(m.as_str());
                r
            },
            ParserError::SelectProjectionsRequired => String::from_str(
                "SELECT statement is required to call the given namespace(s)!",
            ),
            ParserError::SelectFromRequired => String::from_str(
                "FROM statement is required to call the given context(s)!",
            ),
            ParserError::Plan(e) => e.message(),
        }
    }
}

/// The finished plan: namespaces from the projection list, contexts from
/// the table list, and the folded clause chain, all in source order.
#[derive(Debug, PartialEq, Eq)]
pub struct ApiQueries {
    pub namespaces: Vec<String>,
    pub contexts: Vec<String>,
    pub queries: Vec<Query>,
}

/// Mathematical image of [`ApiQueries`].
pub struct ApiQueriesView {
    pub namespaces: Seq<Seq<char>>,
    pub contexts: Seq<Seq<char>>,
    pub queries: Seq<QueryView>,
}

impl View for ApiQueries {
    type V = ApiQueriesView;

    open spec fn view(&self) -> ApiQueriesView {
        ApiQueriesView {
            namespaces: self.namespaces.deep_view(),
            contexts: self.contexts.deep_view(),
            queries: self.queries.deep_view(),
        }
    }
}

impl DeepView for ApiQueries {
    type V = ApiQueriesView;

    open spec fn deep_view(&self) -> ApiQueriesView {
        self.view()
    }
}

/// Mathematical image of a translation result.
pub open spec fn parse_result_view(r: Result<ApiQueries, ParserError>) -> Result<
    ApiQueriesView,
    ParserErrorView,
> {
    match r {
        Ok(q) => Ok(q@),
        Err(e) => Err(e@),
    }
}

/// The resource kinds the surrounding tooling knows how to list.
#[derive(Debug, Hash, PartialEq, Eq, Structural, Clone, Copy)]
pub enum ResourceType {
    Deployment,
    Pod,
    Service,
}

impl ResourceType {
    /// The lower-case name of this resource kind.
    pub open spec fn name_spec(&self) -> Seq<char> {
        match self {
            ResourceType::Deployment => "deployment"@,
            ResourceType::Pod => "pod"@,
            ResourceType::Service => "service"@,
        }
    }

    /// Renders this resource kind as its lower-case name.
    pub fn name(&self) -> (r: String)
        ensures
            r@ == self.name_spec(),
    {
        match self {
            ResourceType::Deployment => String::from_str("deployment"),
            ResourceType::Pod => String::from_str("pod"),
            ResourceType::Service => String::from_str("service"),
        }
    }

    /// Reads a resource kind back from its lower-case name; any other text
    /// is an error naming the text.
    pub fn from_name(input: &str) -> (r: Result<ResourceType, ParserError>)
        ensures
            input@ == "deployment"@ ==> r == Ok::<ResourceType, ParserError>(
                ResourceType::Deployment,
            ),
            input@ == "pod"@ ==> r == Ok::<ResourceType, ParserError>(ResourceType::Pod),
            input@ == "service"@ ==> r == Ok::<ResourceType, ParserError>(ResourceType::Service),
            (input@ != "deployment"@ && input@ != "pod"@ && input@ != "service"@) ==> (
            match r {
                Ok(_) => false,
                Err(e) => e@ == ParserErrorView::Unknown(
                    "Unexpected ResourceType for "@ + input@,
                ),
            }),
    {
        proof {
            broadcast use vstd::string::group_string_axioms;

            reveal_strlit("deployment");
            reveal_strlit("pod");
            reveal_strlit("service");
            assert("deployment"@.len() == 10);
            assert("pod"@.len() == 3);
            assert("service"@.len() == 7);
        }
        if str_eq(input, "deployment") {
            Ok(ResourceType::Deployment)
        } else if str_eq(input, "pod") {
            Ok(ResourceType::Pod)
        } else if str_eq(input, "service") {
            Ok(ResourceType::Service)
        } else {
            let mut m = String::from_str("Unexpected ResourceType for ");
            m.append(input);
            Err(ParserError::Unknown(m))
        }
    }
}

impl core::str::FromStr for ResourceType {
    type Err = ParserError;

    fn from_str(input: &str) -> Result<ResourceType, ParserError> {
        ResourceType::from_name(input)
    }
}

/// What one projection item contributes: a namespace (the rendered
/// expression with `_` rewritten back to `-`), or the error rejecting its
/// shape.
pub open spec fn projection_namespace_spec(p: ProjectionView) -> Result<Seq<char>, ParserErrorView> {
    match p {
        ProjectionView::Unnamed(s) => Ok(unescape_spec(s)),
        ProjectionView::WithAlias => Err(
            ParserErrorView::Unsupported(
                "SELECT statement does not support ExprWithAlias selector!"@,
            ),
        ),
        ProjectionView::QualifiedWildcard => Err(
            ParserErrorView::Unsupported(
                "SELECT statement does not support QualifiedWildcard selector!"@,
            ),
        ),
        ProjectionView::Wildcard => Err(
            ParserErrorView::Unsupported("SELECT statement does not support Wildcard selector!"@),
        ),
    }
}

/// The namespaces of the whole projection list, in source order; the
/// earliest rejected item decides the error.
pub open spec fn namespaces_spec(proj: Seq<ProjectionView>) -> Result<
    Seq<Seq<char>>,
    ParserErrorView,
>
    decreases proj.len(),
{
    if proj.len() == 0 {
        Ok(Seq::empty())
    } else {
        match namespaces_spec(proj.drop_last()) {
            Err(e) => Err(e),
            Ok(rest) => match projection_namespace_spec(proj.last()) {
                Err(e) => Err(e),
                Ok(ns) => Ok(rest.push(ns)),
            },
        }
    }
}

/// What one FROM item contributes: a context (the rendered table name with
/// `_` rewritten back to `-`), or the error rejecting its shape — joins,
/// aliases, call-style arguments, hints and non-table relations each by
/// name.
pub open spec fn table_context_spec(t: TableRefView) -> Result<Seq<char>, ParserErrorView> {
    if t.joins != 0 {
        Err(ParserErrorView::Unsupported("FROM statement does not support Join!"@))
    } else {
        match t.relation {
            RelationView::Table { name, alias, args, hints } => {
                if alias is Some {
                    Err(
                        ParserErrorView::Unsupported(
                            "FROM statement does not support Table aliases!"@,
                        ),
                    )
                } else if args matches Some(n) && n > 0 {
                    Err(
                        ParserErrorView::Unsupported("FROM statement does not support Table ARGS!"@),
                    )
                } else if hints != 0 {
                    Err(
                        ParserErrorView::Unsupported("FROM statement does not support Table HINT!"@),
                    )
                } else {
                    Ok(unescape_spec(name))
                }
            },
            RelationView::Derived => Err(
                ParserErrorView::Unsupported("FROM statement does not support Derived!"@),
            ),
            RelationView::TableFunction => Err(
                ParserErrorView::Unsupported("FROM statement does not support TableFunction!"@),
            ),
            RelationView::NestedJoin => Err(
                ParserErrorView::Unsupported("FROM statement does not support NestedJoin!"@),
            ),
            RelationView::Unnest => Err(
                ParserErrorView::Unsupported("FROM statement does not support UNNEST!"@),
            ),
            RelationView::Other => Err(
                ParserErrorView::Unsupported(
                    "FROM statement does not support this table relation!"@,
                ),
            ),
        }
    }
}

/// The contexts of the whole table list, in source order; the earliest
/// rejected item decides the error.
pub open spec fn contexts_spec(from: Seq<TableRefView>) -> Result<Seq<Seq<char>>, ParserErrorView>
    decreases from.len(),
{
    if from.len() == 0 {
        Ok(Seq::empty())
    } else {
        match contexts_spec(from.drop_last()) {
            Err(e) => Err(e),
            Ok(rest) => match table_context_spec(from.last()) {
                Err(e) => Err(e),
                Ok(c) => Ok(rest.push(c)),
            },
        }
    }
}

/// The clause chain a folded WHERE tree yields: a single clause becomes a
/// one-clause chain, a chain is taken as it is, and the two other value
/// kinds are unsupported.
pub open spec fn where_queries_spec(v: ValueView) -> Result<Seq<QueryView>, ParserErrorView> {
    match v {
        ValueView::Clause(q) => Ok(seq![q]),
        ValueView::ClauseChain(qs) => Ok(qs),
        ValueView::StringList(_) => Err(
            ParserErrorView::Unsupported("Unable to handle unsupported query plan: StringList"@),
        ),
        ValueView::StringScalar(_) => Err(
            ParserErrorView::Unsupported("Unable to handle unsupported query plan: StringScalar"@),
        ),
    }
}

/// The whole extraction of one SELECT statement: a non-empty projection
/// list rendered to namespaces, a non-empty table list rendered to
/// contexts, and a mandatory WHERE tree folded to the clause chain.
pub open spec fn extract_select_spec(s: SelectView) -> Result<ApiQueriesView, ParserErrorView> {
    if s.projection.len() == 0 {
        Err(ParserErrorView::SelectProjectionsRequired)
    } else {
        match namespaces_spec(s.projection) {
            Err(e) => Err(e),
            Ok(ns) => {
                if s.from.len() == 0 {
                    Err(ParserErrorView::SelectFromRequired)
                } else {
                    match contexts_spec(s.from) {
                        Err(e) => Err(e),
                        Ok(ctxs) => match s.selection {
                            None => Err(
                                ParserErrorView::Unsupported(
                                    "WHERE statement is required in order to set --field-selector!"@,
                                ),
                            ),
                            Some(w) => match fold_spec(w) {
                                Err(pe) => Err(ParserErrorView::Plan(pe)),
                                Ok(v) => match where_queries_spec(v) {
                                    Err(e) => Err(e),
                                    Ok(qs) => Ok(
                                        ApiQueriesView {
                                            namespaces: ns,
                                            contexts: ctxs,
                                            queries: qs,
                                        },
                                    ),
                                },
                            },
                        },
                    }
                }
            },
        }
    }
}

/// The extraction of one parsed statement: only a query whose body is a
/// plain SELECT is translated.
pub open spec fn extract_statement_spec(st: StatementView) -> Result<
    ApiQueriesView,
    ParserErrorView,
> {
    match st {
        StatementView::NotQuery => Err(
            ParserErrorView::Unsupported("Only QUERY statements are supported!"@),
        ),
        StatementView::OtherBody(d) => Err(
            ParserErrorView::Unsupported("An unsupported query body given: "@ + d),
        ),
        StatementView::Select(s) => extract_select_spec(s),
    }
}

/// The whole translation of a piece of query text: hyphens escaped, the
/// text parsed by the SQL grammar, and the last statement extracted. A
/// parse failure or an input with no statement is an error carrying text.
pub open spec fn parse_sql_spec(sql: Seq<char>) -> Result<ApiQueriesView, ParserErrorView> {
    match parsed_statements(escape_spec(sql)) {
        Err(m) => Err(ParserErrorView::Unknown(m)),
        Ok(stmts) => {
            if stmts.len() == 0 {
                Err(
                    ParserErrorView::Unknown(
                        "The given SQL input does not contain any statement!"@,
                    ),
                )
            } else {
                extract_statement_spec(stmts.last())
            }
        },
    }
}

/// A prefix that already failed decides the whole projection list.
proof fn lemma_namespaces_error_prefix(proj: Seq<ProjectionView>, i: int)
    requires
        0 <= i <= proj.len(),
        namespaces_spec(proj.take(i)) is Err,
    ensures
        namespaces_spec(proj) == namespaces_spec(proj.take(i)),
    decreases proj.len(),
{
    if proj.len() == i {
        assert(proj.take(i) =~= proj);
    } else {
        assert(proj.drop_last().take(i) =~= proj.take(i));
        lemma_namespaces_error_prefix(proj.drop_last(), i);
    }
}

/// A prefix that already failed decides the whole table list.
proof fn lemma_contexts_error_prefix(from: Seq<TableRefView>, i: int)
    requires
        0 <= i <= from.len(),
        contexts_spec(from.take(i)) is Err,
    ensures
        contexts_spec(from) == contexts_spec(from.take(i)),
    decreases from.len(),
{
    if from.len() == i {
        assert(from.take(i) =~= from);
    } else {
        assert(from.drop_last().take(i) =~= from.take(i));
        lemma_contexts_error_prefix(from.drop_last(), i);
    }
}

/// A projection list of plain expressions only always renders.
proof fn lemma_namespaces_all_plain(proj: Seq<ProjectionView>)
    requires
        forall|j: int| 0 <= j < proj.len() ==> proj[j] is Unnamed,
    ensures
        namespaces_spec(proj) is Ok,
    decreases proj.len(),
{
    if proj.len() > 0 {
        lemma_namespaces_all_plain(proj.drop_last());
    }
}

/// A table list of plain tables (no joins, aliases, arguments or hints)
/// always renders.
proof fn lemma_contexts_all_plain(from: Seq<TableRefView>)
    requires
        forall|j: int| 0 <= j < from.len() ==> table_context_spec(from[j]) is Ok,
    ensures
        contexts_spec(from) is Ok,
    decreases from.len(),
{
    if from.len() > 0 {
        lemma_contexts_all_plain(from.drop_last());
    }
}

/// Law: an empty projection list is always rejected with the same error,
/// and no plan is produced.
pub proof fn lemma_rejects_empty_projection(s: SelectView)
    requires
        s.projection.len() == 0,
    ensures
        extract_select_spec(s) == Err::<ApiQueriesView, ParserErrorView>(
            ParserErrorView::SelectProjectionsRequired,
        ),
{
}

/// Law: with a renderable projection list, an empty table list is always
/// rejected with the same error, and no plan is produced.
pub proof fn lemma_rejects_empty_from(s: SelectView)
    requires
        s.projection.len() > 0,
        namespaces_spec(s.projection) is Ok,
        s.from.len() == 0,
    ensures
        extract_select_spec(s) == Err::<ApiQueriesView, ParserErrorView>(
            ParserErrorView::SelectFromRequired,
        ),
{
}

/// Law: with renderable projection and table lists, a missing WHERE clause
/// is always rejected with the same error, and no plan is produced.
pub proof fn lemma_rejects_missing_where(s: SelectView)
    requires
        s.projection.len() > 0,
        namespaces_spec(s.projection) is Ok,
        s.from.len() > 0,
        contexts_spec(s.from) is Ok,
        s.selection is None,
    ensures
        extract_select_spec(s) == Err::<ApiQueriesView, ParserErrorView>(
            ParserErrorView::Unsupported(
                "WHERE statement is required in order to set --field-selector!"@,
            ),
        ),
{
}

/// Law: a projection list whose first offending item is aliased is always
/// rejected with the alias error, and no plan is produced.
pub proof fn lemma_rejects_aliased_projection(s: SelectView, i: int)
    requires
        0 <= i < s.projection.len(),
        s.projection[i] is WithAlias,
        forall|j: int| 0 <= j < i ==> s.projection[j] is Unnamed,
    ensures
        extract_select_spec(s) == Err::<ApiQueriesView, ParserErrorView>(
            ParserErrorView::Unsupported(
                "SELECT statement does not support ExprWithAlias selector!"@,
            ),
        ),
{
    let pre = s.projection.take(i);
    assert(forall|j: int| 0 <= j < pre.len() ==> pre[j] is Unnamed);
    lemma_namespaces_all_plain(pre);
    assert(s.projection.take(i + 1).drop_last() =~= pre);
    assert(s.projection.take(i + 1).last() == s.projection[i]);
    lemma_namespaces_error_prefix(s.projection, i + 1);
}

/// Law: a table list whose first offending item carries a join is always
/// rejected with the join error, and no plan is produced.
pub proof fn lemma_rejects_joined_from(s: SelectView, i: int)
    requires
        s.projection.len() > 0,
        namespaces_spec(s.projection) is Ok,
        0 <= i < s.from.len(),
        s.from[i].joins != 0,
        forall|j: int| 0 <= j < i ==> table_context_spec(s.from[j]) is Ok,
    ensures
        extract_select_spec(s) == Err::<ApiQueriesView, ParserErrorView>(
            ParserErrorView::Unsupported("FROM statement does not support Join!"@),
        ),
{
    let pre = s.from.take(i);
    assert(forall|j: int| 0 <= j < pre.len() ==> table_context_spec(pre[j]) is Ok);
    lemma_contexts_all_plain(pre);
    assert(s.from.take(i + 1).drop_last() =~= pre);
    assert(s.from.take(i + 1).last() == s.from[i]);
    lemma_contexts_error_prefix(s.from, i + 1);
}

/// Renders the projection list as namespaces, left to right, stopping at
/// the first rejected item.
fn namespaces_from(projection: &Vec<Projection>) -> (r: Result<Vec<String>, ParserError>)
    ensures
        (match r {
            Ok(ns) => namespaces_spec(projection.deep_view()) == Ok::<
                Seq<Seq<char>>,
                ParserErrorView,
            >(ns.deep_view()),
            Err(e) => namespaces_spec(projection.deep_view()) == Err::<
                Seq<Seq<char>>,
                ParserErrorView,
            >(e@),
        }),
{
    let ghost pv = projection.deep_view();
    let mut ns: Vec<String> = Vec::new();
    let mut i: usize = 0;
    proof {
        assert(pv.take(0) =~= Seq::<ProjectionView>::empty());
        assert(ns.deep_view() =~= Seq::<Seq<char>>::empty());
    }
    while i < projection.len()
        invariant
            i <= projection.len(),
            pv == projection.deep_view(),
            pv.len() == projection.len(),
            namespaces_spec(pv.take(i as int)) == Ok::<Seq<Seq<char>>, ParserErrorView>(
                ns.deep_view(),
            ),
        decreases projection.len() - i,
    {
        proof {
            assert(pv.take(i + 1).drop_last() =~= pv.take(i as int));
            assert(pv.take(i + 1).last() == pv[i as int]);
        }
        match &projection[i] {
            Projection::Unnamed(s) => {
                ns.push(unescape(s.as_str()));
                proof {
                    assert(ns.deep_view() =~= namespaces_spec(pv.take(i + 1))->Ok_0);
                }
            },
            Projection::WithAlias => {
                proof {
                    lemma_namespaces_error_prefix(pv, i + 1);
                }
                return Err(
                    ParserError::Unsupported(
                        String::from_str("SELECT statement does not support ExprWithAlias selector!"),
                    ),
                );
            },
            Projection::QualifiedWildcard => {
                proof {
                    lemma_namespaces_error_prefix(pv, i + 1);
                }
                return Err(
                    ParserError::Unsupported(
                        String::from_str(
                            "SELECT statement does not support QualifiedWildcard selector!",
                        ),
                    ),
                );
            },
            Projection::Wildcard => {
                proof {
                    lemma_namespaces_error_prefix(pv, i + 1);
                }
                return Err(
                    ParserError::Unsupported(
                        String::from_str("SELECT statement does not support Wildcard selector!"),
                    ),
                );
            },
        }
        i = i + 1;
    }
    proof {
        assert(pv.take(projection.len() as int) =~= pv);
    }
    Ok(ns)
}

/// Renders the table list as contexts, left to right, stopping at the
/// first rejected item.
fn contexts_from(from: &Vec<crate::ast::TableRef>) -> (r: Result<Vec<String>, ParserError>)
    ensures
        (match r {
            Ok(ctxs) => contexts_spec(from.deep_view()) == Ok::<Seq<Seq<char>>, ParserErrorView>(
                ctxs.deep_view(),
            ),
            Err(e) => contexts_spec(from.deep_view()) == Err::<Seq<Seq<char>>, ParserErrorView>(
                e@,
            ),
        }),
{
    let ghost fv = from.deep_view();
    let mut ctxs: Vec<String> = Vec::new();
    let mut i: usize = 0;
    proof {
        assert(fv.take(0) =~= Seq::<TableRefView>::empty());
        assert(ctxs.deep_view() =~= Seq::<Seq<char>>::empty());
    }
    while i < from.len()
        invariant
            i <= from.len(),
            fv == from.deep_view(),
            fv.len() == from.len(),
            contexts_spec(fv.take(i as int)) == Ok::<Seq<Seq<char>>, ParserErrorView>(
                ctxs.deep_view(),
            ),
        decreases from.len() - i,
    {
        proof {
            assert(fv.take(i + 1).drop_last() =~= fv.take(i as int));
            assert(fv.take(i + 1).last() == fv[i as int]);
        }
        let t = &from[i];
        match table_context(t) {
            Ok(c) => {
                ctxs.push(c);
                proof {
                    assert(ctxs.deep_view() =~= contexts_spec(fv.take(i + 1))->Ok_0);
                }
            },
            Err(e) => {
                proof {
                    lemma_contexts_error_prefix(fv, i + 1);
                }
                return Err(e);
            },
        }
        i = i + 1;
    }
    proof {
        assert(fv.take(from.len() as int) =~= fv);
    }
    Ok(ctxs)
}

/// Renders one FROM item as a context, or rejects its shape.
fn table_context(t: &crate::ast::TableRef) -> (r: Result<String, ParserError>)
    ensures
        (match r {
            Ok(c) => table_context_spec(t@) == Ok::<Seq<char>, ParserErrorView>(c@),
            Err(e) => table_context_spec(t@) == Err::<Seq<char>, ParserErrorView>(e@),
        }),
{
    if t.joins != 0 {
        return Err(
            ParserError::Unsupported(String::from_str("FROM statement does not support Join!")),
        );
    }
    match &t.relation {
        Relation::Table { name, alias, args, hints } => {
            if alias.is_some() {
                return Err(
                    ParserError::Unsupported(
                        String::from_str("FROM statement does not support Table aliases!"),
                    ),
                );
            }
            match args {
                Some(n) => {
                    if *n > 0 {
                        return Err(
                            ParserError::Unsupported(
                                String::from_str("FROM statement does not support Table ARGS!"),
                            ),
                        );
                    }
                },
                None => {},
            }
            if *hints != 0 {
                return Err(
                    ParserError::Unsupported(
                        String::from_str("FROM statement does not support Table HINT!"),
                    ),
                );
            }
            Ok(unescape(name.as_str()))
        },
        Relation::Derived => Err(
            ParserError::Unsupported(String::from_str("FROM statement does not support Derived!")),
        ),
        Relation::TableFunction => Err(
            ParserError::Unsupported(
                String::from_str("FROM statement does not support TableFunction!"),
            ),
        ),
        Relation::NestedJoin => Err(
            ParserError::Unsupported(
                String::from_str("FROM statement does not support NestedJoin!"),
            ),
        ),
        Relation::Unnest => Err(
            ParserError::Unsupported(String::from_str("FROM statement does not support UNNEST!")),
        ),
        Relation::Other => Err(
            ParserError::Unsupported(
                String::from_str("FROM statement does not support this table relation!"),
            ),
        ),
    }
}

/// Extracts the plan of one SELECT statement.
pub fn extract_select(s: Select) -> (r: Result<ApiQueries, ParserError>)
    ensures
        parse_result_view(r) == extract_select_spec(s@),
{
    if s.projection.len() == 0 {
        return Err(ParserError::SelectProjectionsRequired);
    }
    let namespaces = match namespaces_from(&s.projection) {
        Ok(ns) => ns,
        Err(e) => {
            return Err(e);
        },
    };
    if s.from.len() == 0 {
        return Err(ParserError::SelectFromRequired);
    }
    let contexts = match contexts_from(&s.from) {
        Ok(ctxs) => ctxs,
        Err(e) => {
            return Err(e);
        },
    };
    let w = match s.selection {
        Some(w) => w,
        None => {
            return Err(
                ParserError::Unsupported(
                    String::from_str("WHERE statement is required in order to set --field-selector!"),
                ),
            );
        },
    };
    let mut plan_context = PlanContext {};
    let folded = match w.plan(&mut plan_context) {
        Ok(v) => v,
        Err(pe) => {
            return Err(ParserError::Plan(pe));
        },
    };
    let queries = match folded {
        Value::Clause(q) => {
            let mut qs: Vec<Query> = Vec::new();
            qs.push(q);
            proof {
                assert(qs.deep_view() =~= seq![q@]);
            }
            qs
        },
        Value::ClauseChain(qs) => qs,
        Value::StringList(_) => {
            return Err(
                ParserError::Unsupported(
                    String::from_str("Unable to handle unsupported query plan: StringList"),
                ),
            );
        },
        Value::StringScalar(_) => {
            return Err(
                ParserError::Unsupported(
                    String::from_str("Unable to handle unsupported query plan: StringScalar"),
                ),
            );
        },
    };
    Ok(ApiQueries { namespaces, contexts, queries })
}

/// Extracts the plan of one parsed statement.
pub fn extract_statement(st: Statement) -> (r: Result<ApiQueries, ParserError>)
    ensures
        parse_result_view(r) == extract_statement_spec(st@),
{
    match st {
        Statement::NotQuery => Err(
            ParserError::Unsupported(String::from_str("Only QUERY statements are supported!")),
        ),
        Statement::OtherBody(d) => {
            let mut m = String::from_str("An unsupported query body given: ");
            m.append(d.as_str());
            Err(ParserError::Unsupported(m))
        },
        Statement::Select(s) => extract_select(s),
    }
}

/// Translates one SQL-like sentence into a query plan: escapes hyphens,
/// parses the text, and extracts namespaces, contexts and the clause chain
/// from the last statement. Exactly [`parse_sql_spec`] — same plan or same
/// error on every run.
pub fn parse_sql(sql: &str) -> (r: Result<ApiQueries, ParserError>)
    ensures
        parse_result_view(r) == parse_sql_spec(sql@),
{
    let escaped = escape(sql);
    let mut stmts = match parse_statements(escaped.as_str()) {
        Ok(v) => v,
        Err(m) => {
            return Err(ParserError::Unknown(m));
        },
    };
    match stmts.pop() {
        Some(st) => {
            proof {
                assert(st@ == parsed_statements(escape_spec(sql@))->Ok_0.last());
            }
            extract_statement(st)
        },
        None => Err(
            ParserError::Unknown(
                String::from_str("The given SQL input does not contain any statement!"),
            ),
        ),
    }
}

} // verus!
