//! The parser: from tokens to the syntax tree.
//!
//! The grammar, from the loosest binding to the tightest:
//!
//! ```text
//! or         := and   ('||' and)*
//! and        := equal ('&&' equal)*
//! equal      := cmp   (('=='|'!=') cmp)?
//! cmp        := unary (('contains'|'in'|'startswith'|'endswith'|'>'|'>='|'<'|'<=') unary)?
//! unary      := '!' unary | primary
//! primary    := literal | property | '(' or ')' | '[' (literal (',' literal)* ','?)? ']'
//! ```
use vstd::prelude::*;
use super::error::{plain_error, FilterError, FilterErrorKind, FilterErrorView};
use super::expr::{is_comparison, is_equality, well_formed, Expr, ExprView};
use super::lexer::items_view;
use super::location::Loc;
use super::number::{decimal_value, is_decimal, Number};
use super::token::{token_text, Token, TokenKind, TokenView};
use super::value::{views_of, FilterValue, ValueView};
use crate::text::{chars_of, push_char};

verus! {

/// What the scanner hands to the parser: a token, or what was wrong with
/// the text.
pub type Item = Result<TokenView, FilterErrorView>;

/// The outcome of parsing a part of the items: the tree or the error, and
/// the index of the first item that was not used.
pub struct Parsed {
    pub result: Result<ExprView, FilterErrorView>,
    pub next: int,
}

/// The expression `e`, parsed up to `next`.
pub open spec fn done(e: ExprView, next: int) -> Parsed {
    Parsed { result: Ok(e), next }
}

/// The error `e`, met before `next`.
pub open spec fn fail(e: FilterErrorView, next: int) -> Parsed {
    Parsed { result: Err(e), next }
}

/// The kind of the token at `pos`, where a token stands there.
pub open spec fn peek_kind(items: Seq<Item>, pos: int) -> Option<TokenKind> {
    if 0 <= pos < items.len() {
        match items[pos] {
            Ok(t) => Some(t.kind),
            Err(_) => None,
        }
    } else {
        None
    }
}

/// The token at `pos`.
pub open spec fn token_at(items: Seq<Item>, pos: int) -> TokenView {
    items[pos]->Ok_0
}

/// The error for an expression that ends where a value was expected.
pub open spec fn unexpected_end() -> FilterErrorView {
    plain_error(FilterErrorKind::UnexpectedEnd, Loc { line: 0, column: 0 })
}

/// The error of kind `kind` about the token `t`.
pub open spec fn error_about(kind: FilterErrorKind, t: TokenView) -> FilterErrorView {
    FilterErrorView { kind, loc: t.loc, token: token_text(t) }
}

/// The text of a string without its escapes: a backslash before a quote or
/// a backslash is dropped.
pub open spec fn unescape(s: Seq<char>) -> Seq<char>
    decreases s.len(),
{
    if s.len() == 0 {
        s
    } else if s[0] == '\\' && s.len() > 1 && (s[1] == '"' || s[1] == '\\') {
        seq![s[1]] + unescape(s.skip(2))
    } else {
        seq![s[0]] + unescape(s.skip(1))
    }
}

/// The text of a string with its escapes: a backslash is put before every
/// quote and every backslash.
pub open spec fn escape(s: Seq<char>) -> Seq<char>
    decreases s.len(),
{
    if s.len() == 0 {
        s
    } else if s[0] == '"' || s[0] == '\\' {
        seq!['\\', s[0]] + escape(s.skip(1))
    } else {
        seq![s[0]] + escape(s.skip(1))
    }
}

/// The value that the item at `pos` writes, where it is a literal.
pub open spec fn literal_at(items: Seq<Item>, pos: int) -> Result<ValueView, FilterErrorView> {
    if pos < 0 || pos >= items.len() {
        Err(unexpected_end())
    } else {
        match items[pos] {
            Err(e) => Err(e),
            Ok(t) => match t.kind {
                TokenKind::True => Ok(ValueView::Bool(true)),
                TokenKind::False => Ok(ValueView::Bool(false)),
                TokenKind::Null => Ok(ValueView::Null),
                TokenKind::Number => if is_decimal(t.lexeme) {
                    Ok(ValueView::Number(decimal_value(t.lexeme)))
                } else {
                    Err(error_about(FilterErrorKind::InvalidNumber, t))
                },
                TokenKind::String => Ok(ValueView::String(unescape(t.lexeme))),
                _ => Err(error_about(FilterErrorKind::UnexpectedToken, t)),
            },
        }
    }
}

/// The rest of a list that was opened at `open` and holds `acc` so far.
pub open spec fn parse_list(items: Seq<Item>, pos: int, acc: Seq<ValueView>, open: Loc) -> Parsed
    decreases items.len() - pos,
{
    if peek_kind(items, pos) == Some(TokenKind::RightBracket) {
        done(ExprView::Literal(ValueView::Tuple(acc)), pos + 1)
    } else {
        match literal_at(items, pos) {
            Err(e) => fail(e, pos + 1),
            Ok(v) => {
                let more = acc.push(v);
                if peek_kind(items, pos + 1) == Some(TokenKind::Comma) {
                    parse_list(items, pos + 2, more, open)
                } else if peek_kind(items, pos + 1) == Some(TokenKind::RightBracket) {
                    done(ExprView::Literal(ValueView::Tuple(more)), pos + 2)
                } else {
                    fail(plain_error(FilterErrorKind::MissingBracket, open), pos + 1)
                }
            },
        }
    }
}

/// `primary := literal | property | '(' or ')' | '[' ... ']'`
pub open spec fn parse_primary(items: Seq<Item>, pos: int) -> Parsed
    decreases items.len() - pos, 0int,
{
    if pos < 0 || pos >= items.len() {
        fail(unexpected_end(), pos)
    } else {
        match items[pos] {
            Err(e) => fail(e, pos + 1),
            Ok(t) => match t.kind {
                TokenKind::LeftParen => {
                    let inner = parse_or(items, pos + 1);
                    match inner.result {
                        Err(_) => inner,
                        Ok(e) => if peek_kind(items, inner.next) == Some(TokenKind::RightParen) {
                            done(e, inner.next + 1)
                        } else {
                            fail(plain_error(FilterErrorKind::MissingParen, t.loc), inner.next)
                        },
                    }
                },
                TokenKind::LeftBracket => parse_list(items, pos + 1, Seq::empty(), t.loc),
                TokenKind::Property => done(ExprView::Property(t.lexeme), pos + 1),
                _ => match literal_at(items, pos) {
                    Ok(v) => done(ExprView::Literal(v), pos + 1),
                    Err(e) => fail(e, pos + 1),
                },
            },
        }
    }
}

/// `unary := '!' unary | primary`
pub open spec fn parse_unary(items: Seq<Item>, pos: int) -> Parsed
    decreases items.len() - pos, 1int,
{
    if peek_kind(items, pos) == Some(TokenKind::Not) {
        let inner = parse_unary(items, pos + 1);
        match inner.result {
            Err(_) => inner,
            Ok(e) => done(ExprView::Unary(token_at(items, pos), Box::new(e)), inner.next),
        }
    } else {
        parse_primary(items, pos)
    }
}

/// `cmp := unary (operator unary)?`
pub open spec fn parse_comparison(items: Seq<Item>, pos: int) -> Parsed
    decreases items.len() - pos, 2int,
{
    let left = parse_unary(items, pos);
    match left.result {
        Err(_) => left,
        Ok(l) => if pos < left.next && (peek_kind(items, left.next) matches Some(k)
            && is_comparison(k)) {
            let right = parse_unary(items, left.next + 1);
            match right.result {
                Err(_) => right,
                Ok(r) => done(
                    ExprView::Binary(Box::new(l), token_at(items, left.next), Box::new(r)),
                    right.next,
                ),
            }
        } else {
            left
        },
    }
}

/// `equal := cmp (('=='|'!=') cmp)?`
pub open spec fn parse_equality(items: Seq<Item>, pos: int) -> Parsed
    decreases items.len() - pos, 3int,
{
    let left = parse_comparison(items, pos);
    match left.result {
        Err(_) => left,
        Ok(l) => if pos < left.next && (peek_kind(items, left.next) matches Some(k)
            && is_equality(k)) {
            let right = parse_comparison(items, left.next + 1);
            match right.result {
                Err(_) => right,
                Ok(r) => done(
                    ExprView::Binary(Box::new(l), token_at(items, left.next), Box::new(r)),
                    right.next,
                ),
            }
        } else {
            left
        },
    }
}

/// What follows an operand of `&&`: more of them, as long as `&&` follows.
pub open spec fn and_tail(items: Seq<Item>, left: ExprView, pos: int) -> Parsed
    decreases items.len() - pos, 4int,
{
    if peek_kind(items, pos) == Some(TokenKind::And) {
        let right = parse_equality(items, pos + 1);
        match right.result {
            Err(_) => right,
            Ok(r) => if pos < right.next <= items.len() {
                and_tail(
                    items,
                    ExprView::Logical(Box::new(left), token_at(items, pos), Box::new(r)),
                    right.next,
                )
            } else {
                right
            },
        }
    } else {
        done(left, pos)
    }
}

/// `and := equal ('&&' equal)*`
pub open spec fn parse_and(items: Seq<Item>, pos: int) -> Parsed
    decreases items.len() - pos, 5int,
{
    let left = parse_equality(items, pos);
    match left.result {
        Err(_) => left,
        Ok(l) => if pos < left.next <= items.len() {
            and_tail(items, l, left.next)
        } else {
            left
        },
    }
}

/// What follows an operand of `||`: more of them, as long as `||` follows.
pub open spec fn or_tail(items: Seq<Item>, left: ExprView, pos: int) -> Parsed
    decreases items.len() - pos, 6int,
{
    if peek_kind(items, pos) == Some(TokenKind::Or) {
        let right = parse_and(items, pos + 1);
        match right.result {
            Err(_) => right,
            Ok(r) => if pos < right.next <= items.len() {
                or_tail(
                    items,
                    ExprView::Logical(Box::new(left), token_at(items, pos), Box::new(r)),
                    right.next,
                )
            } else {
                right
            },
        }
    } else {
        done(left, pos)
    }
}

/// `or := and ('||' and)*`
pub open spec fn parse_or(items: Seq<Item>, pos: int) -> Parsed
    decreases items.len() - pos, 7int,
{
    let left = parse_and(items, pos);
    match left.result {
        Err(_) => left,
        Ok(l) => if pos < left.next <= items.len() {
            or_tail(items, l, left.next)
        } else {
            left
        },
    }
}

/// The tree that the items write: one expression that uses all of them. An
/// error of the scanner is reported where the parser meets it, a token
/// behind a complete expression as a trailing token.
pub open spec fn parse_spec(items: Seq<Item>) -> Result<ExprView, FilterErrorView> {
    let whole = parse_or(items, 0);
    match whole.result {
        Err(e) => Err(e),
        Ok(e) => if whole.next < 0 || whole.next >= items.len() {
            Ok(e)
        } else {
            match items[whole.next] {
                Err(e) => Err(e),
                Ok(t) => Err(error_about(FilterErrorKind::TrailingToken, t)),
            }
        },
    }
}

/// The view of what a step of the parser returns.
pub open spec fn expr_result_view(r: Result<Expr, FilterError>) -> Result<ExprView, FilterErrorView> {
    match r {
        Ok(e) => Ok(e@),
        Err(e) => Err(e@),
    }
}

/// The view of what reading a literal returns.
pub open spec fn value_result_view(r: Result<FilterValue, FilterError>) -> Result<
    ValueView,
    FilterErrorView,
> {
    match r {
        Ok(v) => Ok(v@),
        Err(e) => Err(e@),
    }
}

/// The text of a string without its escapes.
pub fn unescaped(text: &str) -> (out: String)
    ensures
        out@ == unescape(text@),
{
    let chars = chars_of(text);
    let mut out = String::new();
    let mut i: usize = 0;
    proof {
        assert(chars@.skip(0) =~= chars@);
        assert(out@ + unescape(chars@) =~= unescape(chars@));
    }
    while i < chars.len()
        invariant
            chars@ == text@,
            i <= chars@.len(),
            out@ + unescape(chars@.skip(i as int)) == unescape(chars@),
        decreases chars@.len() - i,
    {
        let ghost rest = chars@.skip(i as int);
        let ghost before = out@;
        if chars[i] == '\\' && i + 1 < chars.len() && (chars[i + 1] == '"' || chars[i + 1] == '\\') {
            push_char(&mut out, chars[i + 1]);
            proof {
                assert(rest.skip(2) =~= chars@.skip(i as int + 2));
                assert(before.push(rest[1]) + unescape(rest.skip(2)) =~= before + unescape(rest));
            }
            i += 2;
        } else {
            push_char(&mut out, chars[i]);
            proof {
                assert(rest.skip(1) =~= chars@.skip(i as int + 1));
                assert(before.push(rest[0]) + unescape(rest.skip(1)) =~= before + unescape(rest));
            }
            i += 1;
        }
    }
    proof {
        assert(chars@.skip(i as int) =~= Seq::<char>::empty());
        assert(out@ + Seq::<char>::empty() =~= out@);
    }
    out
}

/// The text of a string with its escapes.
pub fn escaped(text: &str) -> (out: String)
    ensures
        out@ == escape(text@),
{
    let chars = chars_of(text);
    let mut out = String::new();
    let mut i: usize = 0;
    proof {
        assert(chars@.skip(0) =~= chars@);
        assert(out@ + escape(chars@) =~= escape(chars@));
    }
    while i < chars.len()
        invariant
            chars@ == text@,
            i <= chars@.len(),
            out@ + escape(chars@.skip(i as int)) == escape(chars@),
        decreases chars@.len() - i,
    {
        let ghost rest = chars@.skip(i as int);
        let ghost before = out@;
        let c = chars[i];
        if c == '"' || c == '\\' {
            push_char(&mut out, '\\');
        }
        push_char(&mut out, c);
        proof {
            assert(rest.skip(1) =~= chars@.skip(i as int + 1));
            if c == '"' || c == '\\' {
                assert(before.push('\\').push(c) + escape(rest.skip(1)) =~= before + escape(rest));
            } else {
                assert(before.push(c) + escape(rest.skip(1)) =~= before + escape(rest));
            }
        }
        i += 1;
    }
    proof {
        assert(chars@.skip(i as int) =~= Seq::<char>::empty());
        assert(out@ + Seq::<char>::empty() =~= out@);
    }
    out
}

/// The parser of filter expressions.
pub struct Parser {
    tokens: Vec<Result<Token, FilterError>>,
    pos: usize,
}

impl Parser {
    /// The items that are parsed.
    pub closed spec fn items(&self) -> Seq<Item> {
        items_view(self.tokens@)
    }

    /// Parses `tokens` as one filter expression.
    pub fn parse(tokens: Vec<Result<Token, FilterError>>) -> (r: Result<Expr, FilterError>)
        ensures
            expr_result_view(r) == parse_spec(items_view(tokens@)),
            r matches Ok(e) ==> well_formed(e@),
    {
        let mut parser = Parser { tokens, pos: 0 };
        let expr = match parser.or() {
            Ok(e) => e,
            Err(e) => {
                return Err(e);
            },
        };
        match parser.ensure_end() {
            Ok(()) => Ok(expr),
            Err(e) => Err(e),
        }
    }

    /// Makes sure that no item is left.
    fn ensure_end(&mut self) -> (r: Result<(), FilterError>)
        requires
            old(self).pos <= old(self).tokens@.len(),
        ensures
            final(self).tokens == old(self).tokens,
            match r {
                Ok(_) => old(self).pos >= old(self).tokens@.len(),
                Err(e) => old(self).pos < old(self).tokens@.len() && e@ == match old(self).items()[old(
                    self,
                ).pos as int] {
                    Err(e) => e,
                    Ok(t) => error_about(FilterErrorKind::TrailingToken, t),
                },
            },
    {
        if self.pos < self.tokens.len() {
            let at = self.pos;
            self.pos += 1;
            match &self.tokens[at] {
                Err(e) => Err(e.duplicate()),
                Ok(token) => Err(
                    FilterError::about(
                        FilterErrorKind::TrailingToken,
                        token.location(),
                        token.to_string(),
                    ),
                ),
            }
        } else {
            Ok(())
        }
    }

    /// The kind of the next token, where a token comes next.
    fn peek(&self) -> (kind: Option<TokenKind>)
        ensures
            kind == peek_kind(self.items(), self.pos as int),
    {
        if self.pos < self.tokens.len() {
            match &self.tokens[self.pos] {
                Ok(token) => Some(token.kind()),
                Err(_) => None,
            }
        } else {
            None
        }
    }

    /// Takes the next token.
    fn take(&mut self) -> (token: Token)
        requires
            peek_kind(old(self).items(), old(self).pos as int) is Some,
        ensures
            final(self).tokens == old(self).tokens,
            final(self).pos == old(self).pos + 1,
            final(self).pos <= final(self).tokens@.len(),
            token@ == token_at(old(self).items(), old(self).pos as int),
    {
        let at = self.pos;
        self.advance();
        match &self.tokens[at] {
            Ok(token) => token.duplicate(),
            Err(_) => Token::Null(Loc::new(0, 0)),
        }
    }

    /// Steps over the next token.
    fn advance(&mut self)
        requires
            peek_kind(old(self).items(), old(self).pos as int) is Some,
        ensures
            final(self).tokens == old(self).tokens,
            final(self).pos == old(self).pos + 1,
            final(self).pos <= final(self).tokens@.len(),
    {
        let n = self.tokens.len();
        proof {
            assert(self.items().len() == self.tokens@.len());
        }
        self.pos += 1;
    }

    fn or(&mut self) -> (r: Result<Expr, FilterError>)
        requires
            old(self).pos <= old(self).tokens@.len(),
        ensures
            final(self).tokens == old(self).tokens,
            final(self).pos <= final(self).tokens@.len(),
            expr_result_view(r) == parse_or(old(self).items(), old(self).pos as int).result,
            r matches Ok(e) ==> well_formed(e@) && final(self).pos > old(self).pos && final(self).pos
                == parse_or(old(self).items(), old(self).pos as int).next,
        decreases old(self).tokens@.len() - old(self).pos, 7int,
    {
        let ghost items = self.items();
        let ghost start = self.pos as int;
        let mut expr = match self.and() {
            Ok(e) => e,
            Err(e) => {
                return Err(e);
            },
        };
        loop
            invariant
                self.tokens == old(self).tokens,
                items == self.items(),
                start == old(self).pos,
                start < self.pos <= self.tokens@.len(),
                well_formed(expr@),
                or_tail(items, expr@, self.pos as int) == parse_or(items, start),
            decreases self.tokens@.len() - self.pos,
        {
            match self.peek() {
                Some(TokenKind::Or) => {},
                _ => {
                    return Ok(expr);
                },
            }
            let op = self.take();
            let right = match self.and() {
                Ok(e) => e,
                Err(e) => {
                    return Err(e);
                },
            };
            expr = Expr::Logical(Box::new(expr), op, Box::new(right));
        }
    }

    fn and(&mut self) -> (r: Result<Expr, FilterError>)
        requires
            old(self).pos <= old(self).tokens@.len(),
        ensures
            final(self).tokens == old(self).tokens,
            final(self).pos <= final(self).tokens@.len(),
            expr_result_view(r) == parse_and(old(self).items(), old(self).pos as int).result,
            r matches Ok(e) ==> well_formed(e@) && final(self).pos > old(self).pos && final(self).pos
                == parse_and(old(self).items(), old(self).pos as int).next,
        decreases old(self).tokens@.len() - old(self).pos, 5int,
    {
        let ghost items = self.items();
        let ghost start = self.pos as int;
        let mut expr = match self.equality() {
            Ok(e) => e,
            Err(e) => {
                return Err(e);
            },
        };
        loop
            invariant
                self.tokens == old(self).tokens,
                items == self.items(),
                start == old(self).pos,
                start < self.pos <= self.tokens@.len(),
                well_formed(expr@),
                and_tail(items, expr@, self.pos as int) == parse_and(items, start),
            decreases self.tokens@.len() - self.pos,
        {
            match self.peek() {
                Some(TokenKind::And) => {},
                _ => {
                    return Ok(expr);
                },
            }
            let op = self.take();
            let right = match self.equality() {
                Ok(e) => e,
                Err(e) => {
                    return Err(e);
                },
            };
            expr = Expr::Logical(Box::new(expr), op, Box::new(right));
        }
    }

    fn equality(&mut self) -> (r: Result<Expr, FilterError>)
        requires
            old(self).pos <= old(self).tokens@.len(),
        ensures
            final(self).tokens == old(self).tokens,
            final(self).pos <= final(self).tokens@.len(),
            expr_result_view(r) == parse_equality(old(self).items(), old(self).pos as int).result,
            r matches Ok(e) ==> well_formed(e@) && final(self).pos > old(self).pos && final(self).pos
                == parse_equality(old(self).items(), old(self).pos as int).next,
        decreases old(self).tokens@.len() - old(self).pos, 3int,
    {
        let left = match self.comparison() {
            Ok(e) => e,
            Err(e) => {
                return Err(e);
            },
        };
        match self.peek() {
            Some(TokenKind::Equals) | Some(TokenKind::NotEquals) => {},
            _ => {
                return Ok(left);
            },
        }
        let op = self.take();
        match self.comparison() {
            Ok(right) => Ok(Expr::Binary(Box::new(left), op, Box::new(right))),
            Err(e) => Err(e),
        }
    }

    fn comparison(&mut self) -> (r: Result<Expr, FilterError>)
        requires
            old(self).pos <= old(self).tokens@.len(),
        ensures
            final(self).tokens == old(self).tokens,
            final(self).pos <= final(self).tokens@.len(),
            expr_result_view(r) == parse_comparison(old(self).items(), old(self).pos as int).result,
            r matches Ok(e) ==> well_formed(e@) && final(self).pos > old(self).pos && final(self).pos
                == parse_comparison(old(self).items(), old(self).pos as int).next,
        decreases old(self).tokens@.len() - old(self).pos, 2int,
    {
        let left = match self.unary() {
            Ok(e) => e,
            Err(e) => {
                return Err(e);
            },
        };
        match self.peek() {
            Some(TokenKind::Contains) | Some(TokenKind::In) | Some(TokenKind::StartsWith) | Some(
                TokenKind::EndsWith,
            ) | Some(TokenKind::GreaterThan) | Some(TokenKind::GreaterEqual) | Some(
                TokenKind::SmallerThan,
            ) | Some(TokenKind::SmallerEqual) => {},
            _ => {
                return Ok(left);
            },
        }
        let op = self.take();
        match self.unary() {
            Ok(right) => Ok(Expr::Binary(Box::new(left), op, Box::new(right))),
            Err(e) => Err(e),
        }
    }

    fn unary(&mut self) -> (r: Result<Expr, FilterError>)
        requires
            old(self).pos <= old(self).tokens@.len(),
        ensures
            final(self).tokens == old(self).tokens,
            final(self).pos <= final(self).tokens@.len(),
            expr_result_view(r) == parse_unary(old(self).items(), old(self).pos as int).result,
            r matches Ok(e) ==> well_formed(e@) && final(self).pos > old(self).pos && final(self).pos
                == parse_unary(old(self).items(), old(self).pos as int).next,
        decreases old(self).tokens@.len() - old(self).pos, 1int,
    {
        match self.peek() {
            Some(TokenKind::Not) => {
                let op = self.take();
                match self.unary() {
                    Ok(right) => Ok(Expr::Unary(op, Box::new(right))),
                    Err(e) => Err(e),
                }
            },
            _ => self.primary(),
        }
    }

    fn primary(&mut self) -> (r: Result<Expr, FilterError>)
        requires
            old(self).pos <= old(self).tokens@.len(),
        ensures
            final(self).tokens == old(self).tokens,
            final(self).pos <= final(self).tokens@.len(),
            expr_result_view(r) == parse_primary(old(self).items(), old(self).pos as int).result,
            r matches Ok(e) ==> well_formed(e@) && final(self).pos > old(self).pos && final(self).pos
                == parse_primary(old(self).items(), old(self).pos as int).next,
        decreases old(self).tokens@.len() - old(self).pos, 0int,
    {
        match self.peek() {
            Some(TokenKind::LeftParen) => {
                let start = self.take();
                let expr = match self.or() {
                    Ok(e) => e,
                    Err(e) => {
                        return Err(e);
                    },
                };
                match self.peek() {
                    Some(TokenKind::RightParen) => {
                        self.advance();
                        Ok(expr)
                    },
                    _ => Err(FilterError::at(FilterErrorKind::MissingParen, start.location())),
                }
            },
            Some(TokenKind::LeftBracket) => {
                let start = self.take();
                self.list(start.location())
            },
            Some(TokenKind::Property) => {
                let token = self.take();
                Ok(Expr::Property(String::from_str(token.lexeme())))
            },
            _ => match self.literal() {
                Ok(value) => Ok(Expr::Literal(value)),
                Err(e) => Err(e),
            },
        }
    }

    /// Reads the rest of a list whose bracket was opened at `open`.
    fn list(&mut self, open: Loc) -> (r: Result<Expr, FilterError>)
        requires
            old(self).pos <= old(self).tokens@.len(),
        ensures
            final(self).tokens == old(self).tokens,
            final(self).pos <= final(self).tokens@.len(),
            expr_result_view(r) == parse_list(
                old(self).items(),
                old(self).pos as int,
                Seq::empty(),
                open,
            ).result,
            r matches Ok(e) ==> well_formed(e@) && final(self).pos > old(self).pos && final(self).pos
                == parse_list(old(self).items(), old(self).pos as int, Seq::empty(), open).next,
    {
        let ghost items = self.items();
        let ghost start = self.pos as int;
        let mut values: Vec<FilterValue> = Vec::new();
        proof {
            assert(views_of(values@) =~= Seq::<ValueView>::empty());
        }
        loop
            invariant
                self.tokens == old(self).tokens,
                items == self.items(),
                start == old(self).pos,
                start <= self.pos <= self.tokens@.len(),
                parse_list(items, self.pos as int, views_of(values@), open) == parse_list(
                    items,
                    start,
                    Seq::empty(),
                    open,
                ),
            decreases self.tokens@.len() - self.pos,
        {
            match self.peek() {
                Some(TokenKind::RightBracket) => {
                    self.advance();
                    let tuple = FilterValue::Tuple(values);
                    proof {
                        assert(tuple@->Tuple_0 =~= views_of(values@));
                    }
                    return Ok(Expr::Literal(tuple));
                },
                _ => {},
            }
            let ghost seen = views_of(values@);
            let value = match self.literal() {
                Ok(v) => v,
                Err(e) => {
                    return Err(e);
                },
            };
            values.push(value);
            proof {
                assert(views_of(values@) =~= seen.push(value@));
            }
            match self.peek() {
                Some(TokenKind::Comma) => {
                    self.advance();
                },
                Some(TokenKind::RightBracket) => {
                    self.advance();
                    let tuple = FilterValue::Tuple(values);
                    proof {
                        assert(tuple@->Tuple_0 =~= views_of(values@));
                    }
                    return Ok(Expr::Literal(tuple));
                },
                _ => {
                    return Err(FilterError::at(FilterErrorKind::MissingBracket, open));
                },
            }
        }
    }

    /// Reads one literal.
    fn literal(&mut self) -> (r: Result<FilterValue, FilterError>)
        requires
            old(self).pos <= old(self).tokens@.len(),
        ensures
            final(self).tokens == old(self).tokens,
            final(self).pos <= final(self).tokens@.len(),
            value_result_view(r) == literal_at(old(self).items(), old(self).pos as int),
            r is Ok ==> final(self).pos == old(self).pos + 1,
    {
        if self.pos >= self.tokens.len() {
            return Err(FilterError::at(FilterErrorKind::UnexpectedEnd, Loc::new(0, 0)));
        }
        let at = self.pos;
        self.pos += 1;
        match &self.tokens[at] {
            Err(e) => Err(e.duplicate()),
            Ok(token) => match token {
                Token::True(_) => Ok(FilterValue::Bool(true)),
                Token::False(_) => Ok(FilterValue::Bool(false)),
                Token::Null(_) => Ok(FilterValue::Null),
                Token::Number(loc, text) => match Number::parse(text.as_str()) {
                    Some(n) => Ok(FilterValue::Number(n)),
                    None => Err(
                        FilterError::about(FilterErrorKind::InvalidNumber, *loc, text.clone()),
                    ),
                },
                Token::String(_, text) => Ok(FilterValue::String(unescaped(text.as_str()))),
                _ => Err(
                    FilterError::about(
                        FilterErrorKind::UnexpectedToken,
                        token.location(),
                        token.to_string(),
                    ),
                ),
            },
        }
    }
}

} // verus!
