//! Checks a plan's contexts against the set of context names the cluster
//! configuration knows: every context a query names must exist before
//! anything is executed, and the ones that do not are reported together,
//! never silently dropped.

use vstd::prelude::*;

use crate::strings::str_eq;

verus! {

/// A plan that names contexts the configuration does not know; the unknown
/// names are carried in query order.
#[derive(Debug, PartialEq, Eq)]
pub enum ValidationError {
    ContextNotFound(Vec<String>),
}

/// Mathematical image of [`ValidationError`].
pub enum ValidationErrorView {
    ContextNotFound(Seq<Seq<char>>),
}

impl View for ValidationError {
    type V = ValidationErrorView;

    open spec fn view(&self) -> ValidationErrorView {
        match self {
            ValidationError::ContextNotFound(v) => ValidationErrorView::ContextNotFound(
                v.deep_view(),
            ),
        }
    }
}

impl DeepView for ValidationError {
    type V = ValidationErrorView;

    open spec fn deep_view(&self) -> ValidationErrorView {
        self.view()
    }
}

/// The queried contexts that the known set lacks, in query order.
pub open spec fn not_found_spec(known: Seq<Seq<char>>, ctxs: Seq<Seq<char>>) -> Seq<Seq<char>> {
    ctxs.filter(|c: Seq<char>| !known.contains(c))
}

/// Whether one of the known names equals `s`.
fn contains_string(v: &Vec<String>, s: &String) -> (r: bool)
    ensures
        r == v.deep_view().contains(s@),
{
    let mut i: usize = 0;
    while i < v.len()
        invariant
            i <= v.len(),
            forall|j: int| 0 <= j < i ==> v.deep_view()[j] != s@,
        decreases v.len() - i,
    {
        if str_eq(v[i].as_str(), s.as_str()) {
            proof {
                assert(v.deep_view()[i as int] == s@);
            }
            return true;
        }
        i = i + 1;
    }
    false
}

/// Accepts the queried contexts exactly when the known set holds each of
/// them; otherwise reports every unknown name, in query order.
pub fn validate_contexts(known_contexts: &Vec<String>, ctxs: &Vec<String>) -> (r: Result<
    (),
    ValidationError,
>)
    ensures
        (match r {
            Ok(_) => not_found_spec(known_contexts.deep_view(), ctxs.deep_view()).len() == 0,
            Err(e) => {
                &&& e@ == ValidationErrorView::ContextNotFound(
                    not_found_spec(known_contexts.deep_view(), ctxs.deep_view()),
                )
                &&& not_found_spec(known_contexts.deep_view(), ctxs.deep_view()).len() > 0
            },
        }),
{
    let ghost kv = known_contexts.deep_view();
    let ghost cv = ctxs.deep_view();
    let ghost pred = |c: Seq<char>| !kv.contains(c);
    let mut not_found: Vec<String> = Vec::new();
    let mut i: usize = 0;
    proof {
        reveal(Seq::filter);
        assert(cv.take(0) =~= Seq::<Seq<char>>::empty());
        assert(not_found.deep_view() =~= cv.take(0).filter(pred));
    }
    while i < ctxs.len()
        invariant
            i <= ctxs.len(),
            kv == known_contexts.deep_view(),
            cv == ctxs.deep_view(),
            cv.len() == ctxs.len(),
            pred == (|c: Seq<char>| !kv.contains(c)),
            not_found.deep_view() == cv.take(i as int).filter(pred),
        decreases ctxs.len() - i,
    {
        let missing = !contains_string(known_contexts, &ctxs[i]);
        proof {
            reveal(Seq::filter);
            assert(cv.take(i + 1).drop_last() =~= cv.take(i as int));
            assert(cv.take(i + 1).last() == cv[i as int]);
        }
        if missing {
            not_found.push(ctxs[i].clone());
            proof {
                assert(not_found.deep_view() =~= cv.take(i + 1).filter(pred));
            }
        } else {
            proof {
                assert(not_found.deep_view() =~= cv.take(i + 1).filter(pred));
            }
        }
        i = i + 1;
    }
    proof {
        assert(cv.take(ctxs.len() as int) =~= cv);
    }
    if not_found.len() == 0 {
        proof {
            assert(not_found_spec(kv, cv).len() == 0);
        }
        Ok(())
    } else {
        Err(ValidationError::ContextNotFound(not_found))
    }
}

} // verus!
