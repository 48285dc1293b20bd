//! The filter language: scanner, parser, values and evaluator.
use vstd::prelude::*;

pub mod convert;
pub mod error;
pub mod expr;
pub mod globex;
pub mod interpreter;
pub mod laws;
pub mod lexer;
pub mod location;
pub mod number;
pub mod ordering;
pub mod parser;
pub mod token;
pub mod value;

pub use error::{FilterError, FilterErrorKind};
pub use expr::Expr;
pub use interpreter::FilterContext;
pub use lexer::Scanner;
pub use location::Loc;
pub use number::{Number, Order};
pub use parser::Parser;
pub use token::{Token, TokenKind};
pub use value::{FilterValue, Filterable};

use crate::errors::Error;
use error::{filter_error_report, FilterErrorView};
use expr::{well_formed, ExprView};
use interpreter::{eval, properties_of};
use lexer::tokens_from;
use parser::parse_spec;
use value::{truthy, ValueView};

verus! {

/// The tree that the text `source` writes, or what is wrong with it.
pub open spec fn compile(source: Seq<char>) -> Result<ExprView, FilterErrorView> {
    parse_spec(tokens_from(source, 0))
}

/// A compiled filter: the text it was written as, and its tree.
#[derive(Debug)]
pub struct Filter {
    filter: String,
    ast: Expr,
}

impl Filter {
    #[verifier::type_invariant]
    spec fn wf(&self) -> bool {
        well_formed(self.ast@)
    }

    /// The text that this filter was written as.
    pub closed spec fn source(&self) -> Seq<char> {
        self.filter@
    }

    /// The tree of this filter.
    pub closed spec fn tree(&self) -> ExprView {
        self.ast@
    }

    /// Whether this filter lets through an object with the properties
    /// `props`.
    pub open spec fn accepts(&self, props: spec_fn(Seq<char>) -> ValueView) -> bool {
        truthy(eval(self.tree(), props))
    }

    /// Compiles the text of a filter. A malformed text is reported as a
    /// user error.
    pub fn new(filter: &str) -> (r: Result<Filter, Error>)
        ensures
            match compile(filter@) {
                Ok(tree) => r matches Ok(f) && f.source() == filter@ && f.tree() == tree,
                Err(e) => r matches Err(report) && report@ == filter_error_report(e),
            },
    {
        let mut scanner = Scanner::new(filter);
        let tokens = scanner.tokens();
        match Parser::parse(tokens) {
            Ok(ast) => Ok(Filter { filter: String::from_str(filter), ast }),
            Err(e) => Err(e.to_error()),
        }
    }

    /// Whether this filter lets `target` through. Evaluation cannot fail.
    pub fn matches<T: Filterable>(&self, target: &T) -> (r: Result<bool, Error>)
        ensures
            r matches Ok(b) && b == self.accepts(properties_of(target)),
    {
        proof {
            use_type_invariant(self);
        }
        Ok(FilterContext::new(target).visit_expr(&self.ast).is_truthy())
    }

    /// The text that this filter was written as.
    pub fn raw(&self) -> (text: &str)
        ensures
            text@ == self.source(),
    {
        self.filter.as_str()
    }

    /// The filter as it is shown to a person: its text.
    pub fn to_string(&self) -> (text: String)
        ensures
            text@ == self.source(),
    {
        self.filter.clone()
    }
}

impl Default for Filter {
    /// The filter `true`, which lets everything through.
    fn default() -> (f: Filter)
        ensures
            f.source() == "true"@,
            f.tree() == ExprView::Literal(ValueView::Bool(true)),
    {
        Filter { filter: String::from_str("true"), ast: Expr::Literal(FilterValue::Bool(true)) }
    }
}

} // verus!
