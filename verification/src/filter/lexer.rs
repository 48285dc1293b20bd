//! The scanner: from the text of a filter to its tokens.
use vstd::prelude::*;
use super::error::{plain_error, FilterError, FilterErrorKind, FilterErrorView};
use super::location::Loc;
use super::token::{carries_text, fixed_token, Token, TokenKind, TokenView};
use crate::text::{chars_of, same_text, text_of};

verus! {

/// The characters that separate tokens and mean nothing else.
pub open spec fn is_blank(c: char) -> bool {
    c == ' ' || c == '\t' || c == '\n'
}

/// A decimal digit.
pub open spec fn is_digit(c: char) -> bool {
    '0' <= c <= '9'
}

/// A character that may follow the first one of an identifier.
pub open spec fn is_ident_char(c: char) -> bool {
    ('a' <= c <= 'z') || ('A' <= c <= 'Z') || is_digit(c) || c == '_' || c == '.' || c == '-'
}

/// The two classes of characters that the scanner reads in runs.
#[derive(Clone, Copy, Debug, PartialEq, Eq, Structural)]
pub enum CharClass {
    Digit,
    Ident,
}

impl CharClass {
    /// Whether `c` belongs to this class.
    pub open spec fn holds(self, c: char) -> bool {
        match self {
            CharClass::Digit => is_digit(c),
            CharClass::Ident => is_ident_char(c),
        }
    }

    /// Whether `c` belongs to this class.
    pub fn has(self, c: char) -> (b: bool)
        ensures
            b == self.holds(c),
    {
        let digit = '0' <= c && c <= '9';
        match self {
            CharClass::Digit => digit,
            CharClass::Ident => ('a' <= c && c <= 'z') || ('A' <= c && c <= 'Z') || digit || c == '_'
                || c == '.' || c == '-',
        }
    }
}

/// The first index at or after `i` that holds no blank.
pub open spec fn skip_blanks(s: Seq<char>, i: int) -> int
    decreases s.len() - i,
{
    if 0 <= i < s.len() && is_blank(s[i]) {
        skip_blanks(s, i + 1)
    } else {
        i
    }
}

/// The end of the longest run of characters of `class` that starts at `i`.
pub open spec fn run_end(s: Seq<char>, i: int, class: CharClass) -> int
    decreases s.len() - i,
{
    if 0 <= i < s.len() && class.holds(s[i]) {
        run_end(s, i + 1, class)
    } else {
        i
    }
}

/// The index of the quote that closes a string whose content starts at `i`.
/// A backslash takes a following quote or backslash with it.
pub open spec fn string_end(s: Seq<char>, i: int) -> Option<int>
    decreases s.len() - i,
{
    if i < 0 || i >= s.len() {
        None
    } else if s[i] == '"' {
        Some(i)
    } else if s[i] == '\\' && i + 1 < s.len() && (s[i + 1] == '"' || s[i + 1] == '\\') {
        string_end(s, i + 2)
    } else {
        string_end(s, i + 1)
    }
}

/// The end of the number that starts with the digit at `i`: digits, and a
/// fraction where a dot is followed by a digit.
pub open spec fn number_end(s: Seq<char>, i: int) -> int {
    let j = run_end(s, i + 1, CharClass::Digit);
    if j + 1 < s.len() && s[j] == '.' && is_digit(s[j + 1]) {
        run_end(s, j + 2, CharClass::Digit)
    } else {
        j
    }
}

/// How many line breaks stand before index `i`.
pub open spec fn newlines_before(s: Seq<char>, i: int) -> int
    decreases i,
{
    if i <= 0 {
        0
    } else {
        newlines_before(s, i - 1) + if s[i - 1] == '\n' {
            1int
        } else {
            0int
        }
    }
}

/// The index at which the line of index `i` starts.
pub open spec fn line_start(s: Seq<char>, i: int) -> int
    decreases i,
{
    if i <= 0 {
        0
    } else if s[i - 1] == '\n' {
        i
    } else {
        line_start(s, i - 1)
    }
}

/// The position of index `i`: lines and columns count from 1, and a column
/// counts characters.
pub open spec fn loc_at(s: Seq<char>, i: int) -> Loc {
    Loc { line: (newlines_before(s, i) + 1) as usize, column: (i - line_start(s, i) + 1) as usize }
}

/// The kind of the word `lexeme`: one of the seven reserved words, or a
/// property.
pub open spec fn word_kind(lexeme: Seq<char>) -> TokenKind {
    if lexeme == "false"@ {
        TokenKind::False
    } else if lexeme == "null"@ {
        TokenKind::Null
    } else if lexeme == "true"@ {
        TokenKind::True
    } else if lexeme == "contains"@ {
        TokenKind::Contains
    } else if lexeme == "in"@ {
        TokenKind::In
    } else if lexeme == "startswith"@ {
        TokenKind::StartsWith
    } else if lexeme == "endswith"@ {
        TokenKind::EndsWith
    } else {
        TokenKind::Property
    }
}

/// The token that the word `lexeme` at `loc` is.
pub open spec fn word_token(lexeme: Seq<char>, loc: Loc) -> TokenView {
    let kind = word_kind(lexeme);
    if kind == TokenKind::Property {
        TokenView { kind, loc, lexeme }
    } else {
        fixed_token(kind, loc)
    }
}

/// One step of the scanner: what it yields, and where it goes on.
pub struct Lexed {
    pub item: Result<TokenView, FilterErrorView>,
    pub end: int,
}

/// The step that yields the token of kind `kind` which ends before `end`.
pub open spec fn lexed(kind: TokenKind, loc: Loc, end: int) -> Lexed {
    Lexed { item: Ok(fixed_token(kind, loc)), end }
}

/// The operator that starts at `i`: `two` where the next character is
/// `second`, else what the first character alone gives.
pub open spec fn operator_at(
    s: Seq<char>,
    i: int,
    second: char,
    two: TokenKind,
    one: Result<TokenKind, FilterErrorKind>,
) -> Lexed {
    let loc = loc_at(s, i);
    if i + 1 < s.len() && s[i + 1] == second {
        lexed(two, loc, i + 2)
    } else {
        match one {
            Ok(kind) => lexed(kind, loc, i + 1),
            Err(kind) => Lexed { item: Err(plain_error(kind, loc)), end: i + 1 },
        }
    }
}

/// The token that starts at index `i`, which holds no blank.
///
/// A character that starts nothing else starts a word: it is taken as it is,
/// with the identifier characters that follow it.
pub open spec fn token_at(s: Seq<char>, i: int) -> Lexed {
    let c = s[i];
    let loc = loc_at(s, i);
    if c == '(' {
        lexed(TokenKind::LeftParen, loc, i + 1)
    } else if c == ')' {
        lexed(TokenKind::RightParen, loc, i + 1)
    } else if c == '[' {
        lexed(TokenKind::LeftBracket, loc, i + 1)
    } else if c == ']' {
        lexed(TokenKind::RightBracket, loc, i + 1)
    } else if c == ',' {
        lexed(TokenKind::Comma, loc, i + 1)
    } else if c == '&' {
        operator_at(s, i, '&', TokenKind::And, Err(FilterErrorKind::OrphanedAnd))
    } else if c == '|' {
        operator_at(s, i, '|', TokenKind::Or, Err(FilterErrorKind::OrphanedOr))
    } else if c == '=' {
        operator_at(s, i, '=', TokenKind::Equals, Err(FilterErrorKind::OrphanedEquals))
    } else if c == '!' {
        operator_at(s, i, '=', TokenKind::NotEquals, Ok(TokenKind::Not))
    } else if c == '>' {
        operator_at(s, i, '=', TokenKind::GreaterEqual, Ok(TokenKind::GreaterThan))
    } else if c == '<' {
        operator_at(s, i, '=', TokenKind::SmallerEqual, Ok(TokenKind::SmallerThan))
    } else if c == '"' {
        match string_end(s, i + 1) {
            Some(j) => Lexed {
                item: Ok(TokenView { kind: TokenKind::String, loc, lexeme: s.subrange(i + 1, j) }),
                end: j + 1,
            },
            None => Lexed {
                item: Err(plain_error(FilterErrorKind::UnterminatedString, loc)),
                end: s.len() as int,
            },
        }
    } else if is_digit(c) {
        let end = number_end(s, i);
        Lexed {
            item: Ok(TokenView { kind: TokenKind::Number, loc, lexeme: s.subrange(i, end) }),
            end,
        }
    } else {
        let end = run_end(s, i + 1, CharClass::Ident);
        Lexed { item: Ok(word_token(s.subrange(i, end), loc)), end }
    }
}

/// What the scanner yields next when it stands at `pos`: nothing where only
/// blanks are left.
pub open spec fn next_token_spec(s: Seq<char>, pos: int) -> Option<Lexed> {
    let i = skip_blanks(s, pos);
    if i >= s.len() {
        None
    } else {
        Some(token_at(s, i))
    }
}

/// Everything the scanner yields from `pos` on, errors included.
pub open spec fn tokens_from(s: Seq<char>, pos: int) -> Seq<Result<TokenView, FilterErrorView>>
    decreases s.len() - pos,
{
    match next_token_spec(s, pos) {
        None => Seq::empty(),
        Some(step) => if pos < step.end <= s.len() {
            seq![step.item] + tokens_from(s, step.end)
        } else {
            seq![step.item]
        },
    }
}

/// The view of what the scanner yields.
pub open spec fn item_view(item: Result<Token, FilterError>) -> Result<TokenView, FilterErrorView> {
    match item {
        Ok(token) => Ok(token@),
        Err(e) => Err(e@),
    }
}

/// The views of a run of scanner items.
pub open spec fn items_view(items: Seq<Result<Token, FilterError>>) -> Seq<
    Result<TokenView, FilterErrorView>,
> {
    items.map_values(|item: Result<Token, FilterError>| item_view(item))
}

pub proof fn lemma_skip_blanks_bounds(s: Seq<char>, i: int)
    requires
        0 <= i <= s.len(),
    ensures
        i <= skip_blanks(s, i) <= s.len(),
        skip_blanks(s, i) < s.len() ==> !is_blank(s[skip_blanks(s, i)]),
    decreases s.len() - i,
{
    if i < s.len() && is_blank(s[i]) {
        lemma_skip_blanks_bounds(s, i + 1);
    }
}

pub proof fn lemma_run_end_bounds(s: Seq<char>, i: int, class: CharClass)
    requires
        0 <= i <= s.len(),
    ensures
        i <= run_end(s, i, class) <= s.len(),
    decreases s.len() - i,
{
    if i < s.len() && class.holds(s[i]) {
        lemma_run_end_bounds(s, i + 1, class);
    }
}

pub proof fn lemma_string_end_bounds(s: Seq<char>, i: int)
    requires
        0 <= i,
    ensures
        string_end(s, i) matches Some(j) ==> i <= j < s.len() && s[j] == '"',
    decreases s.len() - i,
{
    if i >= s.len() {
    } else if s[i] == '"' {
    } else if s[i] == '\\' && i + 1 < s.len() && (s[i + 1] == '"' || s[i + 1] == '\\') {
        lemma_string_end_bounds(s, i + 2);
    } else {
        lemma_string_end_bounds(s, i + 1);
    }
}

pub proof fn lemma_line_bounds(s: Seq<char>, i: int)
    requires
        0 <= i,
    ensures
        0 <= newlines_before(s, i) <= i,
        0 <= line_start(s, i) <= i,
    decreases i,
{
    if i > 0 {
        lemma_line_bounds(s, i - 1);
    }
}

/// Every step of the scanner moves on and stays inside the text.
pub proof fn lemma_token_at_advances(s: Seq<char>, i: int)
    requires
        0 <= i < s.len(),
    ensures
        i < token_at(s, i).end <= s.len(),
{
    lemma_string_end_bounds(s, i + 1);
    lemma_run_end_bounds(s, i + 1, CharClass::Digit);
    lemma_run_end_bounds(s, i + 1, CharClass::Ident);
    let j = run_end(s, i + 1, CharClass::Digit);
    if j + 1 < s.len() {
        lemma_run_end_bounds(s, j + 2, CharClass::Digit);
    }
}

/// The scanner of a filter expression.
pub struct Scanner {
    chars: Vec<char>,
    pos: usize,
    newlines: usize,
    line_start: usize,
}

impl Scanner {
    /// The text that is scanned.
    pub closed spec fn source(&self) -> Seq<char> {
        self.chars@
    }

    /// The index of the next character to read.
    pub closed spec fn position(&self) -> int {
        self.pos as int
    }

    /// The scanner's invariant: it stands inside its text and knows the line
    /// it is on.
    pub closed spec fn wf(&self) -> bool {
        &&& self.pos <= self.chars@.len()
        &&& self.newlines == newlines_before(self.chars@, self.pos as int)
        &&& self.line_start == line_start(self.chars@, self.pos as int)
    }

    /// What is still to come.
    pub open spec fn remaining(&self) -> Seq<Result<TokenView, FilterErrorView>> {
        tokens_from(self.source(), self.position())
    }

    /// A scanner at the start of `source`.
    pub fn new(source: &str) -> (scanner: Scanner)
        ensures
            scanner.wf(),
            scanner.source() == source@,
            scanner.position() == 0,
    {
        Scanner { chars: chars_of(source), pos: 0, newlines: 0, line_start: 0 }
    }

    /// Reads one character.
    fn advance(&mut self)
        requires
            old(self).wf(),
            old(self).pos < old(self).chars@.len(),
        ensures
            final(self).wf(),
            final(self).chars == old(self).chars,
            final(self).pos == old(self).pos + 1,
    {
        let len = self.chars.len();
        proof {
            lemma_line_bounds(self.chars@, self.pos as int);
        }
        if self.chars[self.pos] == '\n' {
            self.newlines += 1;
            self.line_start = self.pos + 1;
        }
        self.pos += 1;
    }

    /// The position of the character that is read next.
    fn here(&self) -> (loc: Loc)
        requires
            self.wf(),
            self.pos < self.chars@.len(),
        ensures
            loc == loc_at(self.chars@, self.pos as int),
    {
        let len = self.chars.len();
        proof {
            lemma_line_bounds(self.chars@, self.pos as int);
        }
        Loc::new(self.newlines + 1, self.pos - self.line_start + 1)
    }

    /// Reads the next character if it is `next`.
    fn match_char(&mut self, next: char) -> (matched: bool)
        requires
            old(self).wf(),
        ensures
            final(self).wf(),
            final(self).chars == old(self).chars,
            matched == (old(self).pos < old(self).chars@.len() && old(self).chars@[old(self).pos as int] == next),
            final(self).pos == if matched {
                old(self).pos + 1
            } else {
                old(self).pos as int
            },
    {
        if self.pos < self.chars.len() && self.chars[self.pos] == next {
            self.advance();
            true
        } else {
            false
        }
    }

    /// Reads characters as long as they belong to `class`, and says how many
    /// there were.
    fn advance_while(&mut self, class: CharClass) -> (length: usize)
        requires
            old(self).wf(),
        ensures
            final(self).wf(),
            final(self).chars == old(self).chars,
            final(self).pos == run_end(old(self).chars@, old(self).pos as int, class),
            length == final(self).pos - old(self).pos,
    {
        let start = self.pos;
        while self.pos < self.chars.len() && class.has(self.chars[self.pos])
            invariant
                self.wf(),
                self.chars == old(self).chars,
                start <= self.pos <= self.chars@.len(),
                run_end(self.chars@, self.pos as int, class) == run_end(
                    self.chars@,
                    start as int,
                    class,
                ),
            decreases self.chars@.len() - self.pos,
        {
            self.advance();
        }
        self.pos - start
    }

    /// Reads blanks.
    fn skip_blanks(&mut self)
        requires
            old(self).wf(),
        ensures
            final(self).wf(),
            final(self).chars == old(self).chars,
            final(self).pos == skip_blanks(old(self).chars@, old(self).pos as int),
    {
        let ghost start = self.pos;
        while self.pos < self.chars.len() && (self.chars[self.pos] == ' ' || self.chars[self.pos]
            == '\t' || self.chars[self.pos] == '\n')
            invariant
                self.wf(),
                self.chars == old(self).chars,
                self.pos <= self.chars@.len(),
                skip_blanks(self.chars@, self.pos as int) == skip_blanks(self.chars@, start as int),
            decreases self.chars@.len() - self.pos,
        {
            self.advance();
        }
    }

    /// Reads the rest of a string whose opening quote stood at `start`.
    fn read_string(&mut self, start: usize, loc: Loc) -> (item: Result<Token, FilterError>)
        requires
            old(self).wf(),
            old(self).pos == start + 1,
            start < old(self).chars@.len(),
            old(self).chars@[start as int] == '"',
            loc == loc_at(old(self).chars@, start as int),
        ensures
            final(self).wf(),
            final(self).chars == old(self).chars,
            item_view(item) == token_at(old(self).chars@, start as int).item,
            final(self).pos == token_at(old(self).chars@, start as int).end,
    {
        while self.pos < self.chars.len()
            invariant
                self.wf(),
                self.chars == old(self).chars,
                start < self.pos <= self.chars@.len(),
                self.chars@[start as int] == '"',
                loc == loc_at(self.chars@, start as int),
                string_end(self.chars@, self.pos as int) == string_end(
                    self.chars@,
                    start as int + 1,
                ),
            decreases self.chars@.len() - self.pos,
        {
            let c = self.chars[self.pos];
            if c == '"' {
                let text = text_of(&self.chars, start + 1, self.pos);
                self.advance();
                return Ok(Token::String(loc, text));
            }
            self.advance();
            if c == '\\' {
                if !self.match_char('"') {
                    self.match_char('\\');
                }
            }
        }
        Err(FilterError::at(FilterErrorKind::UnterminatedString, loc))
    }

    /// Reads the rest of a number whose first digit stood at `start`.
    fn read_number(&mut self, start: usize, loc: Loc) -> (item: Result<Token, FilterError>)
        requires
            old(self).wf(),
            old(self).pos == start + 1,
            start < old(self).chars@.len(),
            is_digit(old(self).chars@[start as int]),
            loc == loc_at(old(self).chars@, start as int),
        ensures
            final(self).wf(),
            final(self).chars == old(self).chars,
            item_view(item) == token_at(old(self).chars@, start as int).item,
            final(self).pos == token_at(old(self).chars@, start as int).end,
    {
        self.advance_while(CharClass::Digit);
        proof {
            lemma_run_end_bounds(self.chars@, start as int + 1, CharClass::Digit);
        }
        if self.pos < self.chars.len() && self.chars[self.pos] == '.' && self.pos + 1
            < self.chars.len() && CharClass::Digit.has(self.chars[self.pos + 1]) {
            self.advance();
            self.advance_while(CharClass::Digit);
        }
        proof {
            lemma_token_at_advances(self.chars@, start as int);
        }
        Ok(Token::Number(loc, text_of(&self.chars, start, self.pos)))
    }

    /// Reads the rest of a word whose first character stood at `start`.
    fn read_identifier(&mut self, start: usize, loc: Loc) -> (item: Result<Token, FilterError>)
        requires
            old(self).wf(),
            old(self).pos == start + 1,
            start < old(self).chars@.len(),
            loc == loc_at(old(self).chars@, start as int),
        ensures
            final(self).wf(),
            final(self).chars == old(self).chars,
            item_view(item) == Ok::<TokenView, FilterErrorView>(
                word_token(
                    old(self).chars@.subrange(
                        start as int,
                        run_end(old(self).chars@, start as int + 1, CharClass::Ident),
                    ),
                    loc,
                ),
            ),
            final(self).pos == run_end(old(self).chars@, start as int + 1, CharClass::Ident),
    {
        self.advance_while(CharClass::Ident);
        proof {
            lemma_run_end_bounds(self.chars@, start as int + 1, CharClass::Ident);
        }
        let end = self.pos;
        if same_text(&self.chars, start, end, "false") {
            Ok(Token::False(loc))
        } else if same_text(&self.chars, start, end, "null") {
            Ok(Token::Null(loc))
        } else if same_text(&self.chars, start, end, "true") {
            Ok(Token::True(loc))
        } else if same_text(&self.chars, start, end, "contains") {
            Ok(Token::Contains(loc))
        } else if same_text(&self.chars, start, end, "in") {
            Ok(Token::In(loc))
        } else if same_text(&self.chars, start, end, "startswith") {
            Ok(Token::StartsWith(loc))
        } else if same_text(&self.chars, start, end, "endswith") {
            Ok(Token::EndsWith(loc))
        } else {
            Ok(Token::Property(loc, text_of(&self.chars, start, end)))
        }
    }

    /// Reads an operator of one or two characters whose first one has been
    /// read.
    fn read_operator(
        &mut self,
        second: char,
        two: TokenKind,
        one: Result<TokenKind, FilterErrorKind>,
        loc: Loc,
    ) -> (item: Result<Token, FilterError>)
        requires
            old(self).wf(),
            old(self).pos >= 1,
            loc == loc_at(old(self).chars@, old(self).pos - 1),
            !carries_text(two),
            one matches Ok(kind) ==> !carries_text(kind),
        ensures
            final(self).wf(),
            final(self).chars == old(self).chars,
            item_view(item) == operator_at(old(self).chars@, old(self).pos - 1, second, two, one).item,
            final(self).pos == operator_at(old(self).chars@, old(self).pos - 1, second, two, one).end,
    {
        if self.match_char(second) {
            Ok(Token::of_kind(two, loc, String::new()))
        } else {
            match one {
                Ok(kind) => Ok(Token::of_kind(kind, loc, String::new())),
                Err(kind) => Err(FilterError::at(kind, loc)),
            }
        }
    }

    /// Yields the next token or error, or nothing at the end of the text.
    pub fn next_token(&mut self) -> (item: Option<Result<Token, FilterError>>)
        requires
            old(self).wf(),
        ensures
            final(self).wf(),
            final(self).source() == old(self).source(),
            match next_token_spec(old(self).source(), old(self).position()) {
                Some(step) => item matches Some(r) && item_view(r) == step.item
                    && final(self).position() == step.end,
                None => item is None && final(self).position() == old(self).source().len(),
            },
            item is Some ==> old(self).position() < final(self).position(),
            final(self).position() <= final(self).source().len(),
            final(self).remaining() == if item is Some {
                old(self).remaining().skip(1)
            } else {
                old(self).remaining()
            },
            item matches Some(r) ==> old(self).remaining().len() > 0 && old(self).remaining()[0]
                == item_view(r),
            item is None ==> old(self).remaining().len() == 0,
    {
        proof {
            lemma_skip_blanks_bounds(self.chars@, self.pos as int);
        }
        let ghost before = self.pos as int;
        self.skip_blanks();
        if self.pos >= self.chars.len() {
            proof {
                lemma_skip_blanks_bounds(self.chars@, self.pos as int);
                assert(skip_blanks(self.chars@, self.pos as int) == self.pos);
            }
            return None;
        }
        let start = self.pos;
        let c = self.chars[start];
        let loc = self.here();
        proof {
            lemma_token_at_advances(self.chars@, start as int);
            assert(skip_blanks(self.chars@, start as int) == start);
            assert(tokens_from(self.chars@, before) == seq![token_at(self.chars@, start as int).item]
                + tokens_from(self.chars@, token_at(self.chars@, start as int).end));
            assert((seq![token_at(self.chars@, start as int).item] + tokens_from(
                self.chars@,
                token_at(self.chars@, start as int).end,
            )).skip(1) =~= tokens_from(self.chars@, token_at(self.chars@, start as int).end));
        }
        self.advance();
        let item = if c == '(' {
            Ok(Token::LeftParen(loc))
        } else if c == ')' {
            Ok(Token::RightParen(loc))
        } else if c == '[' {
            Ok(Token::LeftBracket(loc))
        } else if c == ']' {
            Ok(Token::RightBracket(loc))
        } else if c == ',' {
            Ok(Token::Comma(loc))
        } else if c == '&' {
            self.read_operator('&', TokenKind::And, Err(FilterErrorKind::OrphanedAnd), loc)
        } else if c == '|' {
            self.read_operator('|', TokenKind::Or, Err(FilterErrorKind::OrphanedOr), loc)
        } else if c == '=' {
            self.read_operator('=', TokenKind::Equals, Err(FilterErrorKind::OrphanedEquals), loc)
        } else if c == '!' {
            self.read_operator('=', TokenKind::NotEquals, Ok(TokenKind::Not), loc)
        } else if c == '>' {
            self.read_operator('=', TokenKind::GreaterEqual, Ok(TokenKind::GreaterThan), loc)
        } else if c == '<' {
            self.read_operator('=', TokenKind::SmallerEqual, Ok(TokenKind::SmallerThan), loc)
        } else if c == '"' {
            self.read_string(start, loc)
        } else if CharClass::Digit.has(c) {
            self.read_number(start, loc)
        } else {
            self.read_identifier(start, loc)
        };
        Some(item)
    }

    /// Everything that is still to come, errors included, in order.
    pub fn tokens(&mut self) -> (items: Vec<Result<Token, FilterError>>)
        requires
            old(self).wf(),
        ensures
            final(self).wf(),
            final(self).source() == old(self).source(),
            final(self).position() == old(self).source().len(),
            items_view(items@) == old(self).remaining(),
    {
        let mut items: Vec<Result<Token, FilterError>> = Vec::new();
        loop
            invariant
                self.wf(),
                self.source() == old(self).source(),
                self.position() <= self.source().len(),
                items_view(items@) + self.remaining() == old(self).remaining(),
            decreases self.source().len() - self.position(),
        {
            let ghost rest = self.remaining();
            let ghost seen = items@;
            match self.next_token() {
                Some(item) => {
                    items.push(item);
                    proof {
                        assert(items_view(items@) =~= items_view(seen).push(item_view(item)));
                        assert(items_view(seen).push(item_view(item)) + rest.skip(1) =~= items_view(
                            seen,
                        ) + rest);
                    }
                },
                None => {
                    proof {
                        assert(items_view(items@) + rest =~= items_view(items@));
                    }
                    return items;
                },
            }
        }
    }
}

} // verus!
