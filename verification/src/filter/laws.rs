//! What holds of the scanner and the parser as a whole.
use vstd::prelude::*;
use super::error::FilterErrorView;
use super::lexer::{
    is_blank, is_digit, lemma_run_end_bounds, lemma_string_end_bounds, loc_at, next_token_spec,
    number_end, run_end, skip_blanks, string_end, token_at, CharClass, Lexed,
};
use super::expr::{is_comparison, is_equality, ExprView};
use super::location::Loc;
use super::number::is_decimal;
use super::parser::{
    escape, unescape,
    and_tail, literal_at, or_tail, parse_and, parse_comparison, parse_equality, parse_list,
    parse_or, parse_primary, parse_spec, parse_unary, peek_kind, token_at as item_at, Item,
};
use super::value::ValueView;
use super::token::{token_text, TokenKind, TokenView};

verus! {

/// Writing a string with escapes and reading it back gives the string.
pub proof fn law_escape_round_trip(s: Seq<char>)
    ensures
        unescape(escape(s)) == s,
    decreases s.len(),
{
    if s.len() > 0 {
        law_escape_round_trip(s.skip(1));
        let rest = escape(s.skip(1));
        if s[0] == '"' || s[0] == '\\' {
            let e = seq!['\\', s[0]] + rest;
            assert(e.skip(2) =~= rest);
            assert(seq![s[0]] + s.skip(1) =~= s);
        } else {
            let e = seq![s[0]] + rest;
            assert(e.skip(1) =~= rest);
            assert(seq![s[0]] + s.skip(1) =~= s);
        }
    }
}

/// A run of characters inside a piece of a text ends where it ends in the
/// whole text, or at the end of the piece.
pub proof fn lemma_run_end_in_piece(s: Seq<char>, from: int, a: int, to: int, class: CharClass)
    requires
        0 <= from <= a <= to <= s.len(),
    ensures
        run_end(s.subrange(from, to), a - from, class) == if run_end(s, a, class) <= to {
            run_end(s, a, class) - from
        } else {
            to - from
        },
    decreases to - a,
{
    let piece = s.subrange(from, to);
    lemma_run_end_bounds(s, a, class);
    if a < to && class.holds(s[a]) {
        assert(piece[a - from] == s[a]);
        lemma_run_end_in_piece(s, from, a + 1, to, class);
        lemma_run_end_bounds(s, a + 1, class);
    } else if a < to {
        assert(piece[a - from] == s[a]);
    }
}

/// A string that is closed in a text is closed at the same place in the
/// piece of the text that ends with the closing quote.
pub proof fn lemma_string_end_in_piece(s: Seq<char>, from: int, k: int)
    requires
        0 <= from <= k,
        string_end(s, k) is Some,
    ensures
        string_end(s.subrange(from, string_end(s, k)->0 + 1), k - from) == Some(
            string_end(s, k)->0 - from,
        ),
    decreases s.len() - k,
{
    lemma_string_end_bounds(s, k);
    let j = string_end(s, k)->0;
    let piece = s.subrange(from, j + 1);
    assert(piece[k - from] == s[k]);
    if s[k] == '"' {
    } else if s[k] == '\\' && k + 1 < s.len() && (s[k + 1] == '"' || s[k + 1] == '\\') {
        lemma_string_end_bounds(s, k + 2);
        assert(piece[k + 1 - from] == s[k + 1]);
        lemma_string_end_in_piece(s, from, k + 2);
    } else {
        lemma_string_end_bounds(s, k + 1);
        if k + 1 - from < piece.len() {
            assert(piece[k + 1 - from] == s[k + 1]);
        }
        lemma_string_end_in_piece(s, from, k + 1);
    }
}

/// The token `t`, moved to the start of a text.
pub open spec fn at_start(t: TokenView) -> TokenView {
    TokenView { loc: Loc { line: 1, column: 1 }, ..t }
}

/// Round trip: whatever token the scanner finds anywhere in a text, it
/// finds the same token, and nothing else, in that token written out as a
/// text of its own (a string between its quotes).
pub proof fn law_lexeme_round_trip(s: Seq<char>, i: int)
    requires
        0 <= i < s.len(),
        !is_blank(s[i]),
        token_at(s, i).item is Ok,
    ensures
        next_token_spec(token_text(token_at(s, i).item->Ok_0), 0) == Some(
            Lexed {
                item: Ok::<TokenView, FilterErrorView>(at_start(token_at(s, i).item->Ok_0)),
                end: token_text(token_at(s, i).item->Ok_0).len() as int,
            },
        ),
{
    reveal_strlit("(");
    reveal_strlit(")");
    reveal_strlit("[");
    reveal_strlit("]");
    reveal_strlit(",");
    reveal_strlit("==");
    reveal_strlit("!=");
    reveal_strlit(">");
    reveal_strlit("<");
    reveal_strlit(">=");
    reveal_strlit("<=");
    reveal_strlit("!");
    reveal_strlit("&&");
    reveal_strlit("||");
    reveal_strlit("\"");
    let c = s[i];
    let t = token_at(s, i).item->Ok_0;
    let text = token_text(t);
    assert(loc_at(text, 0) == (Loc { line: 1, column: 1 }));
    if c == '(' || c == ')' || c == '[' || c == ']' || c == ',' || c == '&' || c == '|' || c == '='
        || c == '!' || c == '>' || c == '<' {
        assert(text[0] == c);
        assert(skip_blanks(text, 0) == 0);
    } else if c == '"' {
        let j = string_end(s, i + 1)->0;
        lemma_string_end_bounds(s, i + 1);
        lemma_string_end_in_piece(s, i, i + 1);
        let piece = s.subrange(i, j + 1);
        assert(text =~= piece);
        assert(text[0] == '"');
        assert(skip_blanks(text, 0) == 0);
        assert(text.subrange(1, j - i) =~= s.subrange(i + 1, j));
    } else if is_digit(c) {
        let j = run_end(s, i + 1, CharClass::Digit);
        let e = number_end(s, i);
        lemma_run_end_bounds(s, i + 1, CharClass::Digit);
        if j + 1 < s.len() {
            lemma_run_end_bounds(s, j + 2, CharClass::Digit);
        }
        let piece = s.subrange(i, e);
        assert(text == piece);
        assert(piece[0] == c);
        assert(skip_blanks(piece, 0) == 0);
        lemma_run_end_in_piece(s, i, i + 1, e, CharClass::Digit);
        if e > j {
            assert(piece[j - i] == s[j]);
            assert(piece[j + 1 - i] == s[j + 1]);
            lemma_run_end_in_piece(s, i, j + 2, e, CharClass::Digit);
        } else if j < s.len() && j - i < piece.len() {
            assert(piece[j - i] == s[j]);
        }
        assert(number_end(piece, 0) == piece.len());
        assert(piece.subrange(0, piece.len() as int) =~= piece);
    } else {
        let e = run_end(s, i + 1, CharClass::Ident);
        lemma_run_end_bounds(s, i + 1, CharClass::Ident);
        let piece = s.subrange(i, e);
        assert(text == piece);
        assert(piece[0] == c);
        assert(skip_blanks(piece, 0) == 0);
        lemma_run_end_in_piece(s, i, i + 1, e, CharClass::Ident);
        assert(piece.subrange(0, piece.len() as int) =~= piece);
    }
}

/// Whether a literal stands at `k`: `true`, `false`, `null`, a string, or
/// a number whose text is a decimal number.
pub open spec fn literal_stands_at(items: Seq<Item>, k: int) -> bool {
    peek_kind(items, k) matches Some(kind) && (kind == TokenKind::True || kind == TokenKind::False
        || kind == TokenKind::Null || kind == TokenKind::String || (kind == TokenKind::Number
        && is_decimal(item_at(items, k).lexeme)))
}

/// Whether a comparison operator stands at `k`.
pub open spec fn comparison_at(items: Seq<Item>, k: int) -> bool {
    peek_kind(items, k) matches Some(kind) && is_comparison(kind)
}

/// Whether `==` or `!=` stands at `k`.
pub open spec fn equality_at(items: Seq<Item>, k: int) -> bool {
    peek_kind(items, k) matches Some(kind) && is_equality(kind)
}

/// Whether `items[a..b]` is what may follow `[`: literals between commas,
/// a comma behind the last one if one likes, and `]`.
pub open spec fn list_tail(items: Seq<Item>, a: int, b: int) -> bool
    decreases b - a,
{
    if a >= b {
        false
    } else if peek_kind(items, a) == Some(TokenKind::RightBracket) {
        b == a + 1
    } else {
        literal_stands_at(items, a) && a + 2 <= b && ((b == a + 2 && peek_kind(items, a + 1)
            == Some(TokenKind::RightBracket)) || (peek_kind(items, a + 1) == Some(TokenKind::Comma)
            && list_tail(items, a + 2, b)))
    }
}

/// How a run of items is derived from the grammar: which rule is used, and
/// where the parts of the run meet.
pub enum Derivation {
    /// A literal or a property.
    Leaf,
    /// `'(' or ')'`
    Group(Box<Derivation>),
    /// `'[' ... ']'`
    List,
    /// `'!' unary`
    Negation(Box<Derivation>),
    /// Two operands around a comparison or an equality operator, which
    /// stands at the index given.
    Operation(Box<Derivation>, int, Box<Derivation>),
    /// A first operand, which ends before the index given, and what
    /// follows it in a chain of `&&` or of `||`.
    Chain(Box<Derivation>, int, Box<Derivation>),
    /// The end of a chain.
    End,
    /// The operator of a chain, its operand, which ends before the index
    /// given, and what follows.
    Link(Box<Derivation>, int, Box<Derivation>),
}

/// `primary := literal | property | '(' or ')' | '[' ... ']'`
pub open spec fn is_primary(items: Seq<Item>, a: int, b: int, d: Derivation) -> bool
    decreases d, 0int,
{
    match d {
        Derivation::Leaf => b == a + 1 && (literal_stands_at(items, a) || peek_kind(items, a)
            == Some(TokenKind::Property)),
        Derivation::Group(inner) => a + 2 <= b && peek_kind(items, a) == Some(TokenKind::LeftParen)
            && peek_kind(items, b - 1) == Some(TokenKind::RightParen) && is_or(
            items,
            a + 1,
            b - 1,
            *inner,
        ),
        Derivation::List => a + 2 <= b && peek_kind(items, a) == Some(TokenKind::LeftBracket)
            && list_tail(items, a + 1, b),
        _ => false,
    }
}

/// `unary := '!' unary | primary`
pub open spec fn is_unary(items: Seq<Item>, a: int, b: int, d: Derivation) -> bool
    decreases d, 1int,
{
    match d {
        Derivation::Negation(inner) => a < b && peek_kind(items, a) == Some(TokenKind::Not)
            && is_unary(items, a + 1, b, *inner),
        _ => is_primary(items, a, b, d),
    }
}

/// `cmp := unary (operator unary)?`
pub open spec fn is_cmp(items: Seq<Item>, a: int, b: int, d: Derivation) -> bool
    decreases d, 2int,
{
    match d {
        Derivation::Operation(l, k, r) => a < k < b && comparison_at(items, k) && is_unary(
            items,
            a,
            k,
            *l,
        ) && is_unary(items, k + 1, b, *r),
        _ => is_unary(items, a, b, d),
    }
}

/// `equal := cmp (('=='|'!=') cmp)?`
pub open spec fn is_equal(items: Seq<Item>, a: int, b: int, d: Derivation) -> bool
    decreases d, 3int,
{
    match d {
        Derivation::Operation(l, k, r) => if equality_at(items, k) {
            a < k < b && is_cmp(items, a, k, *l) && is_cmp(items, k + 1, b, *r)
        } else {
            is_cmp(items, a, b, d)
        },
        _ => is_cmp(items, a, b, d),
    }
}

/// `('&&' equal)*`
pub open spec fn is_and_tail(items: Seq<Item>, a: int, b: int, d: Derivation) -> bool
    decreases d, 4int,
{
    match d {
        Derivation::End => a == b,
        Derivation::Link(operand, k, tail) => a + 1 < k <= b && peek_kind(items, a) == Some(
            TokenKind::And,
        ) && is_equal(items, a + 1, k, *operand) && is_and_tail(items, k, b, *tail),
        _ => false,
    }
}

/// `and := equal ('&&' equal)*`
pub open spec fn is_and(items: Seq<Item>, a: int, b: int, d: Derivation) -> bool
    decreases d, 5int,
{
    match d {
        Derivation::Chain(first, k, tail) => a < k <= b && is_equal(items, a, k, *first)
            && is_and_tail(items, k, b, *tail),
        _ => false,
    }
}

/// `('||' and)*`
pub open spec fn is_or_tail(items: Seq<Item>, a: int, b: int, d: Derivation) -> bool
    decreases d, 6int,
{
    match d {
        Derivation::End => a == b,
        Derivation::Link(operand, k, tail) => a + 1 < k <= b && peek_kind(items, a) == Some(
            TokenKind::Or,
        ) && is_and(items, a + 1, k, *operand) && is_or_tail(items, k, b, *tail),
        _ => false,
    }
}

/// `or := and ('||' and)*`
pub open spec fn is_or(items: Seq<Item>, a: int, b: int, d: Derivation) -> bool
    decreases d, 7int,
{
    match d {
        Derivation::Chain(first, k, tail) => a < k <= b && is_and(items, a, k, *first)
            && is_or_tail(items, k, b, *tail),
        _ => false,
    }
}

/// Whether the items are, as a whole, an expression of the grammar: some
/// derivation yields exactly them.
pub open spec fn grammatical(items: Seq<Item>) -> bool {
    exists|d: Derivation| is_or(items, 0, items.len() as int, d)
}

proof fn lemma_list(items: Seq<Item>, a: int, b: int, acc: Seq<ValueView>, open: Loc)
    requires
        0 <= a,
        b <= items.len(),
        list_tail(items, a, b),
    ensures
        parse_list(items, a, acc, open).result is Ok,
        parse_list(items, a, acc, open).next == b,
    decreases b - a,
{
    if peek_kind(items, a) == Some(TokenKind::RightBracket) {
    } else {
        let v = literal_at(items, a)->Ok_0;
        if peek_kind(items, a + 1) == Some(TokenKind::Comma) {
            lemma_list(items, a + 2, b, acc.push(v), open);
        }
    }
}

proof fn lemma_primary(items: Seq<Item>, a: int, b: int, d: Derivation)
    requires
        0 <= a,
        b <= items.len(),
        is_primary(items, a, b, d),
    ensures
        parse_primary(items, a).result is Ok,
        parse_primary(items, a).next == b,
        a < b,
    decreases d, 0int,
{
    match d {
        Derivation::Group(inner) => {
            lemma_or(items, a + 1, b - 1, *inner);
        },
        Derivation::List => {
            lemma_list(items, a + 1, b, Seq::empty(), item_at(items, a).loc);
        },
        _ => {},
    }
}

proof fn lemma_unary(items: Seq<Item>, a: int, b: int, d: Derivation)
    requires
        0 <= a,
        b <= items.len(),
        is_unary(items, a, b, d),
    ensures
        parse_unary(items, a).result is Ok,
        parse_unary(items, a).next == b,
        a < b,
    decreases d, 1int,
{
    match d {
        Derivation::Negation(inner) => {
            lemma_unary(items, a + 1, b, *inner);
        },
        _ => {
            lemma_primary(items, a, b, d);
        },
    }
}

proof fn lemma_cmp(items: Seq<Item>, a: int, b: int, d: Derivation)
    requires
        0 <= a,
        b <= items.len(),
        is_cmp(items, a, b, d),
        !comparison_at(items, b),
    ensures
        parse_comparison(items, a).result is Ok,
        parse_comparison(items, a).next == b,
        a < b,
    decreases d, 2int,
{
    match d {
        Derivation::Operation(l, k, r) => {
            lemma_unary(items, a, k, *l);
            lemma_unary(items, k + 1, b, *r);
        },
        _ => {
            lemma_unary(items, a, b, d);
        },
    }
}

proof fn lemma_equal(items: Seq<Item>, a: int, b: int, d: Derivation)
    requires
        0 <= a,
        b <= items.len(),
        is_equal(items, a, b, d),
        !comparison_at(items, b),
        !equality_at(items, b),
    ensures
        parse_equality(items, a).result is Ok,
        parse_equality(items, a).next == b,
        a < b,
    decreases d, 3int,
{
    match d {
        Derivation::Operation(l, k, r) => {
            if equality_at(items, k) {
                lemma_cmp(items, a, k, *l);
                lemma_cmp(items, k + 1, b, *r);
            } else {
                lemma_cmp(items, a, b, d);
            }
        },
        _ => {
            lemma_cmp(items, a, b, d);
        },
    }
}

proof fn lemma_and_tail(items: Seq<Item>, left: ExprView, a: int, b: int, d: Derivation)
    requires
        0 <= a,
        b <= items.len(),
        is_and_tail(items, a, b, d),
        !comparison_at(items, b),
        !equality_at(items, b),
        peek_kind(items, b) != Some(TokenKind::And),
    ensures
        and_tail(items, left, a).result is Ok,
        and_tail(items, left, a).next == b,
    decreases d, 4int,
{
    reveal_with_fuel(is_and_tail, 2);
    match d {
        Derivation::Link(operand, k, tail) => {
            assert(*tail is End ==> k == b);
            assert(*tail is Link ==> peek_kind(items, k) == Some(TokenKind::And));
            lemma_equal(items, a + 1, k, *operand);
            let right = parse_equality(items, a + 1).result->Ok_0;
            lemma_and_tail(
                items,
                ExprView::Logical(Box::new(left), item_at(items, a), Box::new(right)),
                k,
                b,
                *tail,
            );
        },
        _ => {},
    }
}

proof fn lemma_and(items: Seq<Item>, a: int, b: int, d: Derivation)
    requires
        0 <= a,
        b <= items.len(),
        is_and(items, a, b, d),
        !comparison_at(items, b),
        !equality_at(items, b),
        peek_kind(items, b) != Some(TokenKind::And),
    ensures
        parse_and(items, a).result is Ok,
        parse_and(items, a).next == b,
        a < b,
    decreases d, 5int,
{
    match d {
        Derivation::Chain(first, k, tail) => {
            assert(*tail is End ==> k == b);
            assert(*tail is Link ==> peek_kind(items, k) == Some(TokenKind::And));
            lemma_equal(items, a, k, *first);
            lemma_and_tail(items, parse_equality(items, a).result->Ok_0, k, b, *tail);
        },
        _ => {},
    }
}

proof fn lemma_or_tail(items: Seq<Item>, left: ExprView, a: int, b: int, d: Derivation)
    requires
        0 <= a,
        b <= items.len(),
        is_or_tail(items, a, b, d),
        !comparison_at(items, b),
        !equality_at(items, b),
        peek_kind(items, b) != Some(TokenKind::And),
        peek_kind(items, b) != Some(TokenKind::Or),
    ensures
        or_tail(items, left, a).result is Ok,
        or_tail(items, left, a).next == b,
    decreases d, 6int,
{
    reveal_with_fuel(is_or_tail, 2);
    match d {
        Derivation::Link(operand, k, tail) => {
            assert(*tail is End ==> k == b);
            assert(*tail is Link ==> peek_kind(items, k) == Some(TokenKind::Or));
            lemma_and(items, a + 1, k, *operand);
            let right = parse_and(items, a + 1).result->Ok_0;
            lemma_or_tail(
                items,
                ExprView::Logical(Box::new(left), item_at(items, a), Box::new(right)),
                k,
                b,
                *tail,
            );
        },
        _ => {},
    }
}

proof fn lemma_or(items: Seq<Item>, a: int, b: int, d: Derivation)
    requires
        0 <= a,
        b <= items.len(),
        is_or(items, a, b, d),
        !comparison_at(items, b),
        !equality_at(items, b),
        peek_kind(items, b) != Some(TokenKind::And),
        peek_kind(items, b) != Some(TokenKind::Or),
    ensures
        parse_or(items, a).result is Ok,
        parse_or(items, a).next == b,
        a < b,
    decreases d, 7int,
{
    match d {
        Derivation::Chain(first, k, tail) => {
            assert(*tail is End ==> k == b);
            assert(*tail is Link ==> peek_kind(items, k) == Some(TokenKind::Or));
            lemma_and(items, a, k, *first);
            lemma_or_tail(items, parse_and(items, a).result->Ok_0, k, b, *tail);
        },
        _ => {},
    }
}

/// Totality: items that are an expression of the grammar are parsed
/// without error, and to their end.
pub proof fn law_parser_totality(items: Seq<Item>)
    requires
        grammatical(items),
    ensures
        parse_spec(items) is Ok,
        parse_or(items, 0).next == items.len(),
{
    let d = choose|d: Derivation| is_or(items, 0, items.len() as int, d);
    lemma_or(items, 0, items.len() as int, d);
}

} // verus!
