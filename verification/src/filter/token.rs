//! The atoms of the filter language.
use vstd::prelude::*;
use super::location::Loc;
use crate::text::join;

verus! {

/// What a token is, without its position or text.
#[derive(Clone, Copy, Debug, PartialEq, Eq, Structural)]
pub enum TokenKind {
    LeftParen,
    RightParen,
    LeftBracket,
    RightBracket,
    Comma,
    Property,
    Null,
    True,
    False,
    String,
    Number,
    Equals,
    NotEquals,
    Contains,
    In,
    StartsWith,
    EndsWith,
    GreaterThan,
    SmallerThan,
    GreaterEqual,
    SmallerEqual,
    Not,
    And,
    Or,
}

/// A located atom of a filter expression.
///
/// `Property`, `String` and `Number` carry their text as it stands in the
/// source; a string's text is what lies between its quotes, escapes included.
#[derive(Debug, Clone, PartialEq, Eq)]
pub enum Token {
    LeftParen(Loc),
    RightParen(Loc),
    LeftBracket(Loc),
    RightBracket(Loc),
    Comma(Loc),
    Property(Loc, String),
    Null(Loc),
    True(Loc),
    False(Loc),
    String(Loc, String),
    Number(Loc, String),
    Equals(Loc),
    NotEquals(Loc),
    Contains(Loc),
    In(Loc),
    StartsWith(Loc),
    EndsWith(Loc),
    GreaterThan(Loc),
    SmallerThan(Loc),
    GreaterEqual(Loc),
    SmallerEqual(Loc),
    Not(Loc),
    And(Loc),
    Or(Loc),
}

/// The mathematical content of a token: its kind, its position and its lexeme.
pub struct TokenView {
    pub kind: TokenKind,
    pub loc: Loc,
    pub lexeme: Seq<char>,
}

/// The lexeme of a token whose kind alone fixes it; the empty text for the
/// three kinds that carry their own.
pub open spec fn fixed_lexeme(kind: TokenKind) -> Seq<char> {
    match kind {
        TokenKind::LeftParen => "("@,
        TokenKind::RightParen => ")"@,
        TokenKind::LeftBracket => "["@,
        TokenKind::RightBracket => "]"@,
        TokenKind::Comma => ","@,
        TokenKind::Null => "null"@,
        TokenKind::True => "true"@,
        TokenKind::False => "false"@,
        TokenKind::Equals => "=="@,
        TokenKind::NotEquals => "!="@,
        TokenKind::Contains => "contains"@,
        TokenKind::In => "in"@,
        TokenKind::StartsWith => "startswith"@,
        TokenKind::EndsWith => "endswith"@,
        TokenKind::GreaterThan => ">"@,
        TokenKind::SmallerThan => "<"@,
        TokenKind::GreaterEqual => ">="@,
        TokenKind::SmallerEqual => "<="@,
        TokenKind::Not => "!"@,
        TokenKind::And => "&&"@,
        TokenKind::Or => "||"@,
        TokenKind::Property | TokenKind::String | TokenKind::Number => Seq::<char>::empty(),
    }
}

/// Whether tokens of this kind carry their own text.
pub open spec fn carries_text(kind: TokenKind) -> bool {
    kind == TokenKind::Property || kind == TokenKind::String || kind == TokenKind::Number
}

/// The view of a token of a kind that fixes its lexeme.
pub open spec fn fixed_token(kind: TokenKind, loc: Loc) -> TokenView {
    TokenView { kind, loc, lexeme: fixed_lexeme(kind) }
}

/// How a token reads in a message: a string between quotes, any other token
/// as its lexeme.
pub open spec fn token_text(t: TokenView) -> Seq<char> {
    if t.kind == TokenKind::String {
        "\""@ + t.lexeme + "\""@
    } else {
        t.lexeme
    }
}

impl View for Token {
    type V = TokenView;

    open spec fn view(&self) -> TokenView {
        match *self {
            Token::LeftParen(loc) => fixed_token(TokenKind::LeftParen, loc),
            Token::RightParen(loc) => fixed_token(TokenKind::RightParen, loc),
            Token::LeftBracket(loc) => fixed_token(TokenKind::LeftBracket, loc),
            Token::RightBracket(loc) => fixed_token(TokenKind::RightBracket, loc),
            Token::Comma(loc) => fixed_token(TokenKind::Comma, loc),
            Token::Property(loc, s) => TokenView { kind: TokenKind::Property, loc, lexeme: s@ },
            Token::Null(loc) => fixed_token(TokenKind::Null, loc),
            Token::True(loc) => fixed_token(TokenKind::True, loc),
            Token::False(loc) => fixed_token(TokenKind::False, loc),
            Token::String(loc, s) => TokenView { kind: TokenKind::String, loc, lexeme: s@ },
            Token::Number(loc, s) => TokenView { kind: TokenKind::Number, loc, lexeme: s@ },
            Token::Equals(loc) => fixed_token(TokenKind::Equals, loc),
            Token::NotEquals(loc) => fixed_token(TokenKind::NotEquals, loc),
            Token::Contains(loc) => fixed_token(TokenKind::Contains, loc),
            Token::In(loc) => fixed_token(TokenKind::In, loc),
            Token::StartsWith(loc) => fixed_token(TokenKind::StartsWith, loc),
            Token::EndsWith(loc) => fixed_token(TokenKind::EndsWith, loc),
            Token::GreaterThan(loc) => fixed_token(TokenKind::GreaterThan, loc),
            Token::SmallerThan(loc) => fixed_token(TokenKind::SmallerThan, loc),
            Token::GreaterEqual(loc) => fixed_token(TokenKind::GreaterEqual, loc),
            Token::SmallerEqual(loc) => fixed_token(TokenKind::SmallerEqual, loc),
            Token::Not(loc) => fixed_token(TokenKind::Not, loc),
            Token::And(loc) => fixed_token(TokenKind::And, loc),
            Token::Or(loc) => fixed_token(TokenKind::Or, loc),
        }
    }
}

impl Token {
    /// The kind of this token.
    pub fn kind(&self) -> (kind: TokenKind)
        ensures
            kind == self@.kind,
    {
        match self {
            Token::LeftParen(..) => TokenKind::LeftParen,
            Token::RightParen(..) => TokenKind::RightParen,
            Token::LeftBracket(..) => TokenKind::LeftBracket,
            Token::RightBracket(..) => TokenKind::RightBracket,
            Token::Comma(..) => TokenKind::Comma,
            Token::Property(..) => TokenKind::Property,
            Token::Null(..) => TokenKind::Null,
            Token::True(..) => TokenKind::True,
            Token::False(..) => TokenKind::False,
            Token::String(..) => TokenKind::String,
            Token::Number(..) => TokenKind::Number,
            Token::Equals(..) => TokenKind::Equals,
            Token::NotEquals(..) => TokenKind::NotEquals,
            Token::Contains(..) => TokenKind::Contains,
            Token::In(..) => TokenKind::In,
            Token::StartsWith(..) => TokenKind::StartsWith,
            Token::EndsWith(..) => TokenKind::EndsWith,
            Token::GreaterThan(..) => TokenKind::GreaterThan,
            Token::SmallerThan(..) => TokenKind::SmallerThan,
            Token::GreaterEqual(..) => TokenKind::GreaterEqual,
            Token::SmallerEqual(..) => TokenKind::SmallerEqual,
            Token::Not(..) => TokenKind::Not,
            Token::And(..) => TokenKind::And,
            Token::Or(..) => TokenKind::Or,
        }
    }

    /// The text of this token as it stands in the source (a string without
    /// its quotes).
    pub fn lexeme(&self) -> (text: &str)
        ensures
            text@ == self@.lexeme,
    {
        match self {
            Token::LeftParen(..) => "(",
            Token::RightParen(..) => ")",
            Token::LeftBracket(..) => "[",
            Token::RightBracket(..) => "]",
            Token::Comma(..) => ",",
            Token::Property(_, s) => s.as_str(),
            Token::Null(..) => "null",
            Token::True(..) => "true",
            Token::False(..) => "false",
            Token::String(_, s) => s.as_str(),
            Token::Number(_, s) => s.as_str(),
            Token::Equals(..) => "==",
            Token::NotEquals(..) => "!=",
            Token::Contains(..) => "contains",
            Token::In(..) => "in",
            Token::StartsWith(..) => "startswith",
            Token::EndsWith(..) => "endswith",
            Token::GreaterThan(..) => ">",
            Token::GreaterEqual(..) => ">=",
            Token::SmallerThan(..) => "<",
            Token::SmallerEqual(..) => "<=",
            Token::Not(..) => "!",
            Token::And(..) => "&&",
            Token::Or(..) => "||",
        }
    }

    /// Where this token starts.
    pub fn location(&self) -> (loc: Loc)
        ensures
            loc == self@.loc,
    {
        match self {
            Token::LeftParen(loc) => *loc,
            Token::RightParen(loc) => *loc,
            Token::LeftBracket(loc) => *loc,
            Token::RightBracket(loc) => *loc,
            Token::Comma(loc) => *loc,
            Token::Property(loc, _) => *loc,
            Token::Null(loc) => *loc,
            Token::True(loc) => *loc,
            Token::False(loc) => *loc,
            Token::String(loc, _) => *loc,
            Token::Number(loc, _) => *loc,
            Token::Equals(loc) => *loc,
            Token::NotEquals(loc) => *loc,
            Token::Contains(loc) => *loc,
            Token::In(loc) => *loc,
            Token::StartsWith(loc) => *loc,
            Token::EndsWith(loc) => *loc,
            Token::GreaterThan(loc) => *loc,
            Token::SmallerThan(loc) => *loc,
            Token::GreaterEqual(loc) => *loc,
            Token::SmallerEqual(loc) => *loc,
            Token::Not(loc) => *loc,
            Token::And(loc) => *loc,
            Token::Or(loc) => *loc,
        }
    }

    /// The token as it is shown to a person.
    pub fn to_string(&self) -> (out: String)
        ensures
            out@ == token_text(self@),
    {
        match self {
            Token::String(_, s) => {
                let mut out = join("\"", s.as_str());
                out.append("\"");
                out
            },
            _ => String::from_str(self.lexeme()),
        }
    }

    /// A copy of this token.
    pub fn duplicate(&self) -> (out: Token)
        ensures
            out@ == self@,
    {
        Token::of_kind(self.kind(), self.location(), String::from_str(self.lexeme()))
    }

    /// The token of kind `kind` at `loc` with the text `text`; the text is
    /// kept only by the three kinds that carry one.
    pub fn of_kind(kind: TokenKind, loc: Loc, text: String) -> (token: Token)
        ensures
            token@.kind == kind,
            token@.loc == loc,
            carries_text(kind) ==> token@.lexeme == text@,
            !carries_text(kind) ==> token@ == fixed_token(kind, loc),
    {
        match kind {
            TokenKind::LeftParen => Token::LeftParen(loc),
            TokenKind::RightParen => Token::RightParen(loc),
            TokenKind::LeftBracket => Token::LeftBracket(loc),
            TokenKind::RightBracket => Token::RightBracket(loc),
            TokenKind::Comma => Token::Comma(loc),
            TokenKind::Property => Token::Property(loc, text),
            TokenKind::Null => Token::Null(loc),
            TokenKind::True => Token::True(loc),
            TokenKind::False => Token::False(loc),
            TokenKind::String => Token::String(loc, text),
            TokenKind::Number => Token::Number(loc, text),
            TokenKind::Equals => Token::Equals(loc),
            TokenKind::NotEquals => Token::NotEquals(loc),
            TokenKind::Contains => Token::Contains(loc),
            TokenKind::In => Token::In(loc),
            TokenKind::StartsWith => Token::StartsWith(loc),
            TokenKind::EndsWith => Token::EndsWith(loc),
            TokenKind::GreaterThan => Token::GreaterThan(loc),
            TokenKind::SmallerThan => Token::SmallerThan(loc),
            TokenKind::GreaterEqual => Token::GreaterEqual(loc),
            TokenKind::SmallerEqual => Token::SmallerEqual(loc),
            TokenKind::Not => Token::Not(loc),
            TokenKind::And => Token::And(loc),
            TokenKind::Or => Token::Or(loc),
        }
    }
}

} // verus!
