//! The evaluation boundary: the context and error types of a future
//! expression evaluator over intermediate [`Value`]s, and the trait a node
//! implements to take part in it.

use vstd::prelude::*;

use crate::planner::Value;

verus! {

/// A failed evaluation, carried as text.
#[derive(Debug, Clone)]
pub enum EvalError {
    Unknown(String),
}

/// Mathematical image of [`EvalError`].
pub enum EvalErrorView {
    Unknown(Seq<char>),
}

impl View for EvalError {
    type V = EvalErrorView;

    open spec fn view(&self) -> EvalErrorView {
        match self {
            EvalError::Unknown(s) => EvalErrorView::Unknown(s@),
        }
    }
}

/// Context threaded through an evaluation; it carries no state yet.
#[derive(Debug, Clone)]
pub struct EvalContext {}

pub type EvalResult = Result<Value, EvalError>;

/// Evaluating a node into an intermediate [`Value`].
pub trait Evaluate {
    fn evaluate(&self, context: &mut EvalContext) -> EvalResult;
}

} // verus!
