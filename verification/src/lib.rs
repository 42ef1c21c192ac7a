//! Translate a restricted SQL-like sentence (`SELECT ns FROM ctx WHERE
//! pod.status.phase = 'Running'`) into a plan of typed field-selector
//! clauses, grouped as namespaces, contexts and a clause chain.
//!
//! The grammar work is delegated to the `sqlparser` crate; everything that
//! decides what the sentence means — the expression folding, the clause
//! extraction and the guard that rejects unsupported surface syntax — is
//! verified here.

pub mod ast;
pub mod eval;
pub mod parser;
pub mod planner;
pub mod printer;
pub mod strings;
pub mod validator;
