//! The syntax tree of a filter.
use vstd::prelude::*;
use super::token::{token_text, Token, TokenKind, TokenView};
use super::value::{value_text, FilterValue, ValueView};
use crate::text::surround;

verus! {

/// A filter expression. Groups leave no trace in the tree; operators are
/// kept as the tokens that wrote them.
#[derive(Debug, PartialEq)]
pub enum Expr {
    Literal(FilterValue),
    Property(String),
    Binary(Box<Expr>, Token, Box<Expr>),
    Logical(Box<Expr>, Token, Box<Expr>),
    Unary(Token, Box<Expr>),
}

/// A filter expression as a mathematical object.
pub enum ExprView {
    Literal(ValueView),
    Property(Seq<char>),
    Binary(Box<ExprView>, TokenView, Box<ExprView>),
    Logical(Box<ExprView>, TokenView, Box<ExprView>),
    Unary(TokenView, Box<ExprView>),
}

/// The mathematical content of an expression.
pub open spec fn expr_view(e: Expr) -> ExprView
    decreases e,
{
    match e {
        Expr::Literal(v) => ExprView::Literal(v@),
        Expr::Property(name) => ExprView::Property(name@),
        Expr::Binary(l, op, r) => ExprView::Binary(Box::new(expr_view(*l)), op@, Box::new(expr_view(*r))),
        Expr::Logical(l, op, r) => ExprView::Logical(
            Box::new(expr_view(*l)),
            op@,
            Box::new(expr_view(*r)),
        ),
        Expr::Unary(op, r) => ExprView::Unary(op@, Box::new(expr_view(*r))),
    }
}

impl View for Expr {
    type V = ExprView;

    open spec fn view(&self) -> ExprView {
        expr_view(*self)
    }
}

/// How an expression is shown: a literal as it is written, a property as
/// `(property name)`, a binary or logical node as `(operator left right)`,
/// and a unary node as its operator in front of its operand.
pub open spec fn expr_text(e: Expr) -> Seq<char>
    decreases e,
{
    match e {
        Expr::Literal(v) => value_text(v),
        Expr::Property(name) => "(property "@ + name@ + ")"@,
        Expr::Binary(l, op, r) => "("@ + token_text(op@) + " "@ + expr_text(*l) + " "@ + expr_text(*r)
            + ")"@,
        Expr::Logical(l, op, r) => "("@ + token_text(op@) + " "@ + expr_text(*l) + " "@ + expr_text(
            *r,
        ) + ")"@,
        Expr::Unary(op, r) => op@.lexeme + expr_text(*r),
    }
}

impl Expr {
    /// The expression as it is shown to a person.
    pub fn to_string(&self) -> (out: String)
        ensures
            out@ == expr_text(*self),
        decreases self,
    {
        match self {
            Expr::Literal(v) => v.to_string(),
            Expr::Property(name) => surround("(property ", name.as_str(), ")"),
            Expr::Binary(l, op, r) => {
                let mut out = surround("(", op.to_string().as_str(), " ");
                out.append(l.to_string().as_str());
                out.append(" ");
                out.append(r.to_string().as_str());
                out.append(")");
                out
            },
            Expr::Logical(l, op, r) => {
                let mut out = surround("(", op.to_string().as_str(), " ");
                out.append(l.to_string().as_str());
                out.append(" ");
                out.append(r.to_string().as_str());
                out.append(")");
                out
            },
            Expr::Unary(op, r) => {
                let mut out = String::from_str(op.lexeme());
                out.append(r.to_string().as_str());
                out
            },
        }
    }
}

/// The operators that compare two values for equality.
pub open spec fn is_equality(kind: TokenKind) -> bool {
    kind == TokenKind::Equals || kind == TokenKind::NotEquals
}

/// The operators that compare two values in any other way.
pub open spec fn is_comparison(kind: TokenKind) -> bool {
    kind == TokenKind::Contains || kind == TokenKind::In || kind == TokenKind::StartsWith || kind
        == TokenKind::EndsWith || kind == TokenKind::GreaterThan || kind == TokenKind::GreaterEqual
        || kind == TokenKind::SmallerThan || kind == TokenKind::SmallerEqual
}

/// The operators that join two expressions by their truth.
pub open spec fn is_logical(kind: TokenKind) -> bool {
    kind == TokenKind::And || kind == TokenKind::Or
}

/// Whether every operator of the tree stands where its kind allows: a
/// comparison in a binary node, `&&` or `||` in a logical one, `!` in a
/// unary one.
pub open spec fn well_formed(e: ExprView) -> bool
    decreases e,
{
    match e {
        ExprView::Literal(_) => true,
        ExprView::Property(_) => true,
        ExprView::Binary(l, op, r) => (is_equality(op.kind) || is_comparison(op.kind))
            && well_formed(*l) && well_formed(*r),
        ExprView::Logical(l, op, r) => is_logical(op.kind) && well_formed(*l) && well_formed(*r),
        ExprView::Unary(op, r) => op.kind == TokenKind::Not && well_formed(*r),
    }
}

} // verus!
