//! The evaluator: what an expression is worth for a given object.
use vstd::prelude::*;
use super::expr::{is_comparison, is_equality, well_formed, Expr, ExprView};
use super::number::Order;
use super::token::TokenKind;
use super::value::{
    truthy, value_contains, value_endswith, value_eq, value_order, value_startswith, FilterValue,
    Filterable, ValueView,
};

verus! {

/// Whether the comparison `kind` holds between `l` and `r`. The operators
/// of order hold only where an order between the two is defined, and `in`
/// is `contains` with its sides exchanged.
pub open spec fn compare_values(kind: TokenKind, l: ValueView, r: ValueView) -> bool {
    match kind {
        TokenKind::Equals => value_eq(l, r),
        TokenKind::NotEquals => !value_eq(l, r),
        TokenKind::Contains => value_contains(l, r),
        TokenKind::In => value_contains(r, l),
        TokenKind::StartsWith => value_startswith(l, r),
        TokenKind::EndsWith => value_endswith(l, r),
        TokenKind::GreaterThan => value_order(l, r) == Some(Order::Greater),
        TokenKind::GreaterEqual => value_order(l, r) == Some(Order::Greater) || value_order(l, r)
            == Some(Order::Equal),
        TokenKind::SmallerThan => value_order(l, r) == Some(Order::Less),
        TokenKind::SmallerEqual => value_order(l, r) == Some(Order::Less) || value_order(l, r)
            == Some(Order::Equal),
        _ => false,
    }
}

/// The value of `e` for an object whose properties are `props`.
///
/// `&&` yields its right side where the left one counts as true and the left
/// one otherwise; `||` yields its left side where that counts as true and
/// the right one otherwise; `!` and the comparisons yield booleans.
pub open spec fn eval(e: ExprView, props: spec_fn(Seq<char>) -> ValueView) -> ValueView
    decreases e,
{
    match e {
        ExprView::Literal(v) => v,
        ExprView::Property(name) => props(name),
        ExprView::Binary(l, op, r) => ValueView::Bool(
            compare_values(op.kind, eval(*l, props), eval(*r, props)),
        ),
        ExprView::Logical(l, op, r) => {
            let left = eval(*l, props);
            if truthy(left) == (op.kind == TokenKind::And) {
                eval(*r, props)
            } else {
                left
            }
        },
        ExprView::Unary(_, r) => ValueView::Bool(!truthy(eval(*r, props))),
    }
}

/// The properties of `target` as a function of the key.
pub open spec fn properties_of<T: Filterable>(target: &T) -> spec_fn(Seq<char>) -> ValueView {
    |key: Seq<char>| target.property(key)
}

/// Whether the comparison that `kind` names holds between `left` and
/// `right`.
pub fn compare(kind: TokenKind, left: &FilterValue, right: &FilterValue) -> (holds: bool)
    requires
        is_equality(kind) || is_comparison(kind),
    ensures
        holds == compare_values(kind, left@, right@),
{
    match kind {
        TokenKind::Equals => left.equals(right),
        TokenKind::NotEquals => !left.equals(right),
        TokenKind::Contains => left.contains(right),
        TokenKind::In => right.contains(left),
        TokenKind::StartsWith => left.startswith(right),
        TokenKind::EndsWith => left.endswith(right),
        TokenKind::GreaterThan => match left.compare(right) {
            Some(Order::Greater) => true,
            _ => false,
        },
        TokenKind::GreaterEqual => match left.compare(right) {
            Some(Order::Greater) => true,
            Some(Order::Equal) => true,
            _ => false,
        },
        TokenKind::SmallerThan => match left.compare(right) {
            Some(Order::Less) => true,
            _ => false,
        },
        TokenKind::SmallerEqual => match left.compare(right) {
            Some(Order::Less) => true,
            Some(Order::Equal) => true,
            _ => false,
        },
        _ => false,
    }
}

/// An object to evaluate expressions for.
pub struct FilterContext<'a, T: Filterable> {
    target: &'a T,
}

impl<'a, T: Filterable> FilterContext<'a, T> {
    /// The object that is asked for its properties.
    pub closed spec fn target(&self) -> &T {
        self.target
    }

    pub fn new(target: &'a T) -> (context: Self)
        ensures
            context.target() == target,
    {
        Self { target }
    }

    /// The value of `expr` for the object.
    pub fn visit_expr(&self, expr: &Expr) -> (value: FilterValue)
        requires
            well_formed(expr@),
        ensures
            value@ == eval(expr@, properties_of(self.target())),
        decreases expr,
    {
        match expr {
            Expr::Literal(value) => self.visit_literal(value),
            Expr::Property(name) => self.visit_property(name.as_str()),
            Expr::Binary(left, operator, right) => {
                let l = self.visit_expr(left);
                let r = self.visit_expr(right);
                FilterValue::Bool(compare(operator.kind(), &l, &r))
            },
            Expr::Logical(left, operator, right) => {
                let l = self.visit_expr(left);
                let and = match operator.kind() {
                    TokenKind::And => true,
                    _ => false,
                };
                if l.is_truthy() == and {
                    self.visit_expr(right)
                } else {
                    l
                }
            },
            Expr::Unary(_, right) => {
                let r = self.visit_expr(right);
                FilterValue::Bool(!r.is_truthy())
            },
        }
    }

    /// The value of a literal.
    pub fn visit_literal(&self, value: &FilterValue) -> (out: FilterValue)
        ensures
            out@ == value@,
    {
        value.duplicate()
    }

    /// The value of the property `name`.
    pub fn visit_property(&self, name: &str) -> (out: FilterValue)
        ensures
            out@ == self.target().property(name@),
    {
        self.target.get(name)
    }
}

/// `!!x` counts as true exactly where `x` does.
pub proof fn law_double_negation(
    x: ExprView,
    not1: super::token::TokenView,
    not2: super::token::TokenView,
    props: spec_fn(Seq<char>) -> ValueView,
)
    ensures
        truthy(eval(ExprView::Unary(not1, Box::new(ExprView::Unary(not2, Box::new(x)))), props))
            == truthy(eval(x, props)),
{
    reveal_with_fuel(eval, 3);
}

/// `x && true` counts as true exactly where `x` does.
pub proof fn law_and_true(
    x: ExprView,
    and: super::token::TokenView,
    props: spec_fn(Seq<char>) -> ValueView,
)
    requires
        and.kind == TokenKind::And,
    ensures
        truthy(
            eval(
                ExprView::Logical(
                    Box::new(x),
                    and,
                    Box::new(ExprView::Literal(ValueView::Bool(true))),
                ),
                props,
            ),
        ) == truthy(eval(x, props)),
{
    reveal_with_fuel(eval, 3);
}

/// `x || false` counts as true exactly where `x` does.
pub proof fn law_or_false(
    x: ExprView,
    or: super::token::TokenView,
    props: spec_fn(Seq<char>) -> ValueView,
)
    requires
        or.kind == TokenKind::Or,
    ensures
        truthy(
            eval(
                ExprView::Logical(
                    Box::new(x),
                    or,
                    Box::new(ExprView::Literal(ValueView::Bool(false))),
                ),
                props,
            ),
        ) == truthy(eval(x, props)),
{
    reveal_with_fuel(eval, 3);
}

/// The truth of `a && b` and of `a || b` is the conjunction and the
/// disjunction of the truth of their sides.
pub proof fn law_logical_truth(
    a: ExprView,
    op: super::token::TokenView,
    b: ExprView,
    props: spec_fn(Seq<char>) -> ValueView,
)
    ensures
        op.kind == TokenKind::And ==> truthy(
            eval(ExprView::Logical(Box::new(a), op, Box::new(b)), props),
        ) == (truthy(eval(a, props)) && truthy(eval(b, props))),
        op.kind == TokenKind::Or ==> truthy(
            eval(ExprView::Logical(Box::new(a), op, Box::new(b)), props),
        ) == (truthy(eval(a, props)) || truthy(eval(b, props))),
{
}

/// De Morgan's laws: `!(a && b)` counts as true exactly where `!a || !b`
/// does, and `!(a || b)` exactly where `!a && !b` does.
pub proof fn law_de_morgan(
    a: ExprView,
    b: ExprView,
    and: super::token::TokenView,
    or: super::token::TokenView,
    not: super::token::TokenView,
    props: spec_fn(Seq<char>) -> ValueView,
)
    requires
        and.kind == TokenKind::And,
        or.kind == TokenKind::Or,
    ensures
        truthy(
            eval(ExprView::Unary(not, Box::new(ExprView::Logical(Box::new(a), and, Box::new(b)))), props),
        ) == truthy(
            eval(
                ExprView::Logical(
                    Box::new(ExprView::Unary(not, Box::new(a))),
                    or,
                    Box::new(ExprView::Unary(not, Box::new(b))),
                ),
                props,
            ),
        ),
        truthy(
            eval(ExprView::Unary(not, Box::new(ExprView::Logical(Box::new(a), or, Box::new(b)))), props),
        ) == truthy(
            eval(
                ExprView::Logical(
                    Box::new(ExprView::Unary(not, Box::new(a))),
                    and,
                    Box::new(ExprView::Unary(not, Box::new(b))),
                ),
                props,
            ),
        ),
{
    law_logical_truth(a, and, b, props);
    law_logical_truth(a, or, b, props);
    law_logical_truth(
        ExprView::Unary(not, Box::new(a)),
        or,
        ExprView::Unary(not, Box::new(b)),
        props,
    );
    law_logical_truth(
        ExprView::Unary(not, Box::new(a)),
        and,
        ExprView::Unary(not, Box::new(b)),
        props,
    );
}

/// Short circuit: where the left side of `&&` does not count as true, or
/// that of `||` does, the value is that of the left side, whatever stands on
/// the right.
pub proof fn law_short_circuit(
    l: ExprView,
    op: super::token::TokenView,
    r: ExprView,
    props: spec_fn(Seq<char>) -> ValueView,
)
    requires
        truthy(eval(l, props)) != (op.kind == TokenKind::And),
    ensures
        eval(ExprView::Logical(Box::new(l), op, Box::new(r)), props) == eval(l, props),
{
}

} // verus!
