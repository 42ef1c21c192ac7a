//! The tabular layout's data side: which resource kinds a plan asks for,
//! and what text belongs in the cell of a given kind, context and
//! namespace. Drawing the table is left to the caller; everything that
//! decides a cell's content is verified here.

use vstd::prelude::*;
use vstd::string::StrSliceExecFns;
use vstd::string::StringExecFns;

use crate::parser::ResourceType;
use crate::planner::{Query, QueryView};
use crate::strings::{eq_ignore_ascii_case, eq_ignore_case_spec, push_char, str_eq};

verus! {

/// One listed batch of resources: the names fetched for one resource kind
/// in one context and namespace, joined into the cell's text.
#[derive(Debug)]
pub struct PrintItem {
    pub context: String,
    pub namespace: String,
    pub kind: ResourceType,
    pub value: String,
}

/// Mathematical image of [`PrintItem`].
pub struct PrintItemView {
    pub context: Seq<char>,
    pub namespace: Seq<char>,
    pub kind: ResourceType,
    pub value: Seq<char>,
}

impl View for PrintItem {
    type V = PrintItemView;

    open spec fn view(&self) -> PrintItemView {
        PrintItemView {
            context: self.context@,
            namespace: self.namespace@,
            kind: self.kind,
            value: self.value@,
        }
    }
}

impl DeepView for PrintItem {
    type V = PrintItemView;

    open spec fn deep_view(&self) -> PrintItemView {
        self.view()
    }
}

/// The names of one batch joined with a newline between two neighbours.
pub open spec fn join_newline_spec(s: Seq<Seq<char>>) -> Seq<char>
    decreases s.len(),
{
    if s.len() == 0 {
        Seq::empty()
    } else if s.len() == 1 {
        s[0]
    } else {
        join_newline_spec(s.drop_last()) + seq!['\n'] + s.last()
    }
}

/// Joins names with newlines, exactly as [`join_newline_spec`] states.
pub fn join_newline(names: &Vec<String>) -> (r: String)
    ensures
        r@ == join_newline_spec(names.deep_view()),
{
    let ghost nv = names.deep_view();
    if names.len() == 0 {
        let r = String::new();
        proof {
            assert(r@ =~= join_newline_spec(nv));
        }
        return r;
    }
    let mut out = names[0].clone();
    let mut i: usize = 1;
    proof {
        assert(nv.take(1).len() == 1);
        assert(out@ == join_newline_spec(nv.take(1)));
    }
    while i < names.len()
        invariant
            1 <= i <= names.len(),
            nv == names.deep_view(),
            nv.len() == names.len(),
            out@ == join_newline_spec(nv.take(i as int)),
        decreases names.len() - i,
    {
        push_char(&mut out, '\n');
        out.append(names[i].as_str());
        proof {
            assert(nv.take(i + 1).drop_last() =~= nv.take(i as int));
            assert(nv.take(i + 1).last() == nv[i as int]);
            assert(out@ =~= join_newline_spec(nv.take(i + 1)));
        }
        i = i + 1;
    }
    proof {
        assert(nv.take(names.len() as int) =~= nv);
    }
    out
}

/// Whether one clause of the plan names this resource kind, up to ASCII
/// case.
pub open spec fn query_names_kind(q: QueryView, kind: ResourceType) -> bool {
    eq_ignore_case_spec(q.kind, kind.name_spec())
}

/// Whether any clause of the plan names this resource kind.
pub open spec fn has_kind(queries: Seq<QueryView>, kind: ResourceType) -> bool {
    exists|i: int| 0 <= i < queries.len() && query_names_kind(queries[i], kind)
}

/// Whether an item belongs to the cell of this kind, context and
/// namespace.
pub open spec fn item_matches(
    item: PrintItemView,
    kind: ResourceType,
    context: Seq<char>,
    namespace: Seq<char>,
) -> bool {
    item.kind == kind && item.context == context && item.namespace == namespace
}

/// The concatenation, in insertion order, of the values of the items that
/// belong to the cell.
pub open spec fn matching_values(
    items: Seq<PrintItemView>,
    kind: ResourceType,
    context: Seq<char>,
    namespace: Seq<char>,
) -> Seq<char>
    decreases items.len(),
{
    if items.len() == 0 {
        Seq::empty()
    } else {
        matching_values(items.drop_last(), kind, context, namespace) + (if item_matches(
            items.last(),
            kind,
            context,
            namespace,
        ) {
            items.last().value
        } else {
            Seq::empty()
        })
    }
}

/// A cell's text: the matching values run together, or `-` when nothing
/// matched (or everything that matched was empty).
pub open spec fn cell_value_spec(
    items: Seq<PrintItemView>,
    kind: ResourceType,
    context: Seq<char>,
    namespace: Seq<char>,
) -> Seq<char> {
    if matching_values(items, kind, context, namespace).len() == 0 {
        "-"@
    } else {
        matching_values(items, kind, context, namespace)
    }
}

/// Collects listed resources per context and namespace and computes the
/// text of every cell of the result table. Built once per translation:
/// the contexts, namespaces and clause chain of the plan are set
/// builder-style, then one item is inserted per list call.
#[derive(Debug)]
pub struct Printer {
    items: Vec<PrintItem>,
    contexts: Option<Vec<String>>,
    namespaces: Option<Vec<String>>,
    queries: Option<Vec<Query>>,
}

/// Mathematical image of [`Printer`].
pub struct PrinterView {
    pub items: Seq<PrintItemView>,
    pub contexts: Option<Seq<Seq<char>>>,
    pub namespaces: Option<Seq<Seq<char>>>,
    pub queries: Option<Seq<QueryView>>,
}

impl View for Printer {
    type V = PrinterView;

    closed spec fn view(&self) -> PrinterView {
        PrinterView {
            items: self.items.deep_view(),
            contexts: self.contexts.deep_view(),
            namespaces: self.namespaces.deep_view(),
            queries: self.queries.deep_view(),
        }
    }
}

impl Printer {
    /// An empty printer: no items, nothing set.
    pub fn new() -> (p: Printer)
        ensures
            p@.items == Seq::<PrintItemView>::empty(),
            p@.contexts is None,
            p@.namespaces is None,
            p@.queries is None,
    {
        let p = Printer { items: Vec::new(), contexts: None, namespaces: None, queries: None };
        proof {
            assert(p@.items =~= Seq::<PrintItemView>::empty());
        }
        p
    }

    /// An empty printer, to be filled builder-style.
    pub fn builder() -> (p: Printer)
        ensures
            p@.items == Seq::<PrintItemView>::empty(),
            p@.contexts is None,
            p@.namespaces is None,
            p@.queries is None,
    {
        Printer::new()
    }

    /// Set the given contexts.
    pub fn contexts(self, ctx: Vec<String>) -> (p: Printer)
        ensures
            p@ == (PrinterView { contexts: Some(ctx.deep_view()), ..self@ }),
    {
        Printer { contexts: Some(ctx), ..self }
    }

    /// Set the given namespaces.
    pub fn namespaces(self, ns: Vec<String>) -> (p: Printer)
        ensures
            p@ == (PrinterView { namespaces: Some(ns.deep_view()), ..self@ }),
    {
        Printer { namespaces: Some(ns), ..self }
    }

    /// Set the given clause chain.
    pub fn queries(self, queries: Vec<Query>) -> (p: Printer)
        ensures
            p@ == (PrinterView { queries: Some(queries.deep_view()), ..self@ }),
    {
        Printer { queries: Some(queries), ..self }
    }

    /// The contexts set so far.
    pub fn get_contexts(&self) -> (r: &Option<Vec<String>>)
        ensures
            r.deep_view() == self@.contexts,
    {
        &self.contexts
    }

    /// The namespaces set so far.
    pub fn get_namespaces(&self) -> (r: &Option<Vec<String>>)
        ensures
            r.deep_view() == self@.namespaces,
    {
        &self.namespaces
    }

    /// The clause chain set so far.
    pub fn get_queries(&self) -> (r: &Option<Vec<Query>>)
        ensures
            r.deep_view() == self@.queries,
    {
        &self.queries
    }

    /// Records the deployments listed in one context and namespace, their
    /// names joined into one cell text.
    pub fn insert_deployments(&mut self, ctx: &str, ns: &str, names: Vec<String>)
        ensures
            final(self)@ == (PrinterView {
                items: old(self)@.items.push(
                    PrintItemView {
                        context: ctx@,
                        namespace: ns@,
                        kind: ResourceType::Deployment,
                        value: join_newline_spec(names.deep_view()),
                    },
                ),
                ..old(self)@
            }),
    {
        let value = join_newline(&names);
        self.items.push(
            PrintItem {
                context: ctx.to_owned(),
                namespace: ns.to_owned(),
                kind: ResourceType::Deployment,
                value,
            },
        );
        proof {
            assert(self@.items =~= old(self)@.items.push(
                PrintItemView {
                    context: ctx@,
                    namespace: ns@,
                    kind: ResourceType::Deployment,
                    value: join_newline_spec(names.deep_view()),
                },
            ));
        }
    }

    /// Records the pods listed in one context and namespace.
    pub fn insert_pods(&mut self, ctx: &str, ns: &str, names: Vec<String>)
        ensures
            final(self)@ == (PrinterView {
                items: old(self)@.items.push(
                    PrintItemView {
                        context: ctx@,
                        namespace: ns@,
                        kind: ResourceType::Pod,
                        value: join_newline_spec(names.deep_view()),
                    },
                ),
                ..old(self)@
            }),
    {
        let value = join_newline(&names);
        self.items.push(
            PrintItem {
                context: ctx.to_owned(),
                namespace: ns.to_owned(),
                kind: ResourceType::Pod,
                value,
            },
        );
        proof {
            assert(self@.items =~= old(self)@.items.push(
                PrintItemView {
                    context: ctx@,
                    namespace: ns@,
                    kind: ResourceType::Pod,
                    value: join_newline_spec(names.deep_view()),
                },
            ));
        }
    }

    /// Records the services listed in one context and namespace.
    pub fn insert_services(&mut self, ctx: &str, ns: &str, names: Vec<String>)
        ensures
            final(self)@ == (PrinterView {
                items: old(self)@.items.push(
                    PrintItemView {
                        context: ctx@,
                        namespace: ns@,
                        kind: ResourceType::Service,
                        value: join_newline_spec(names.deep_view()),
                    },
                ),
                ..old(self)@
            }),
    {
        let value = join_newline(&names);
        self.items.push(
            PrintItem {
                context: ctx.to_owned(),
                namespace: ns.to_owned(),
                kind: ResourceType::Service,
                value,
            },
        );
        proof {
            assert(self@.items =~= old(self)@.items.push(
                PrintItemView {
                    context: ctx@,
                    namespace: ns@,
                    kind: ResourceType::Service,
                    value: join_newline_spec(names.deep_view()),
                },
            ));
        }
    }

    /// Whether the plan's clause chain asks for this resource kind, so the
    /// kind's row belongs in the table.
    pub fn should_append(&self, kind: &ResourceType) -> (r: bool)
        requires
            self@.queries is Some,
        ensures
            r == has_kind(self@.queries->Some_0, *kind),
    {
        let queries = match &self.queries {
            Some(qs) => qs,
            None => {
                proof {
                    assert(false);
                }
                return false;
            },
        };
        let ghost qv = self@.queries->Some_0;
        let name = kind.name();
        let mut i: usize = 0;
        while i < queries.len()
            invariant
                i <= queries.len(),
                qv == queries.deep_view(),
                qv == self@.queries->Some_0,
                qv.len() == queries.len(),
                name@ == kind.name_spec(),
                forall|j: int| 0 <= j < i ==> !query_names_kind(qv[j], *kind),
            decreases queries.len() - i,
        {
            if eq_ignore_ascii_case(queries[i].kind.as_str(), name.as_str()) {
                proof {
                    assert(qv[i as int] == queries@[i as int]@);
                    assert(query_names_kind(qv[i as int], *kind));
                    assert(has_kind(qv, *kind));
                }
                return true;
            }
            i = i + 1;
        }
        false
    }

    /// The text of one cell: the values of the items recorded for this
    /// kind, context and namespace, run together in insertion order, or
    /// `-` where that is empty.
    pub fn cell_value(&self, kind: &ResourceType, context: &str, namespace: &str) -> (r: String)
        ensures
            r@ == cell_value_spec(self@.items, *kind, context@, namespace@),
    {
        let ghost iv = self@.items;
        let mut out = String::new();
        let mut i: usize = 0;
        proof {
            assert(out@ =~= matching_values(iv.take(0), *kind, context@, namespace@));
        }
        while i < self.items.len()
            invariant
                i <= self.items.len(),
                iv == self@.items,
                iv.len() == self.items.len(),
                out@ == matching_values(iv.take(i as int), *kind, context@, namespace@),
            decreases self.items.len() - i,
        {
            let item = &self.items[i];
            let same_kind = item.kind == *kind;
            let same_ctx = str_eq(item.context.as_str(), context);
            let same_ns = str_eq(item.namespace.as_str(), namespace);
            if same_kind && same_ctx && same_ns {
                out.append(item.value.as_str());
            }
            proof {
                assert(iv.take(i + 1).drop_last() =~= iv.take(i as int));
                assert(iv.take(i + 1).last() == iv[i as int]);
                assert(out@ =~= matching_values(iv.take(i + 1), *kind, context@, namespace@));
            }
            i = i + 1;
        }
        proof {
            assert(iv.take(self.items.len() as int) =~= iv);
        }
        if out.as_str().is_empty() {
            String::from_str("-")
        } else {
            out
        }
    }
}

impl Default for Printer {
    /// An empty printer, as [`Printer::new`] builds it.
    fn default() -> (p: Printer)
        ensures
            p@.items == Seq::<PrintItemView>::empty(),
            p@.contexts is None,
            p@.namespaces is None,
            p@.queries is None,
    {
        Printer::new()
    }
}

} // verus!
