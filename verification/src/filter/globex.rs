//! The scanner of glob patterns: literal text with `?` and `*`.
use vstd::prelude::*;
use crate::text::{chars_of, text_of};

verus! {

/// A piece of a glob pattern.
#[derive(Debug, Clone, PartialEq, Eq)]
pub enum GlobexToken {
    /// Text that stands for itself.
    Literal(String),
    /// `?`: any one character.
    WildcardOne,
    /// `*`: any run of characters.
    WildcardMany,
}

/// A piece of a glob pattern as a mathematical object.
pub enum GlobexTokenView {
    Literal(Seq<char>),
    WildcardOne,
    WildcardMany,
}

impl View for GlobexToken {
    type V = GlobexTokenView;

    open spec fn view(&self) -> GlobexTokenView {
        match self {
            GlobexToken::Literal(s) => GlobexTokenView::Literal(s@),
            GlobexToken::WildcardOne => GlobexTokenView::WildcardOne,
            GlobexToken::WildcardMany => GlobexTokenView::WildcardMany,
        }
    }
}

/// The characters that do not stand for themselves.
pub open spec fn is_reserved(c: char) -> bool {
    c == '*' || c == '?'
}

/// The end of the run of literal characters that starts at `i`.
pub open spec fn literal_end(s: Seq<char>, i: int) -> int
    decreases s.len() - i,
{
    if 0 <= i < s.len() && !is_reserved(s[i]) {
        literal_end(s, i + 1)
    } else {
        i
    }
}

/// The pieces of the pattern `s` from index `i` on: each wildcard is a
/// piece, and so is each longest run of other characters.
pub open spec fn pieces_from(s: Seq<char>, i: int) -> Seq<GlobexTokenView>
    decreases s.len() - i,
{
    if i < 0 || i >= s.len() {
        Seq::empty()
    } else if s[i] == '*' {
        seq![GlobexTokenView::WildcardMany] + pieces_from(s, i + 1)
    } else if s[i] == '?' {
        seq![GlobexTokenView::WildcardOne] + pieces_from(s, i + 1)
    } else {
        let end = literal_end(s, i + 1);
        if i < end <= s.len() {
            seq![GlobexTokenView::Literal(s.subrange(i, end))] + pieces_from(s, end)
        } else {
            seq![GlobexTokenView::Literal(s.subrange(i, end))]
        }
    }
}

/// The scanner of a glob pattern.
pub struct GlobexScanner {
    chars: Vec<char>,
    pos: usize,
}

impl GlobexScanner {
    /// The pattern that is scanned.
    pub closed spec fn source(&self) -> Seq<char> {
        self.chars@
    }

    /// The index of the next character to read.
    pub closed spec fn position(&self) -> int {
        self.pos as int
    }

    /// What is still to come.
    pub open spec fn remaining(&self) -> Seq<GlobexTokenView> {
        pieces_from(self.source(), self.position())
    }

    /// A scanner at the start of `source`.
    pub fn new(source: &str) -> (scanner: GlobexScanner)
        ensures
            scanner.source() == source@,
            scanner.position() == 0,
    {
        GlobexScanner { chars: chars_of(source), pos: 0 }
    }

    /// Whether `c` is a wildcard.
    pub fn is_reserved_char(c: char) -> (reserved: bool)
        ensures
            reserved == is_reserved(c),
    {
        c == '*' || c == '?'
    }

    /// Reads characters as long as they stand for themselves, and says how
    /// many there were.
    fn advance_while_literal(&mut self) -> (length: usize)
        requires
            old(self).pos <= old(self).chars@.len(),
        ensures
            final(self).chars == old(self).chars,
            final(self).pos == literal_end(old(self).chars@, old(self).pos as int),
            final(self).pos <= final(self).chars@.len(),
            length == final(self).pos - old(self).pos,
    {
        let start = self.pos;
        while self.pos < self.chars.len() && !Self::is_reserved_char(self.chars[self.pos])
            invariant
                self.chars == old(self).chars,
                start <= self.pos <= self.chars@.len(),
                literal_end(self.chars@, self.pos as int) == literal_end(self.chars@, start as int),
            decreases self.chars@.len() - self.pos,
        {
            self.pos += 1;
        }
        self.pos - start
    }

    /// Reads the rest of a literal whose first character stood at `start`.
    fn read_literal(&mut self, start: usize) -> (token: GlobexToken)
        requires
            old(self).pos == start + 1,
            old(self).pos <= old(self).chars@.len(),
        ensures
            final(self).chars == old(self).chars,
            final(self).pos == literal_end(old(self).chars@, start + 1),
            start < final(self).pos <= final(self).chars@.len(),
            token@ == GlobexTokenView::Literal(
                old(self).chars@.subrange(start as int, final(self).pos as int),
            ),
    {
        self.advance_while_literal();
        GlobexToken::Literal(text_of(&self.chars, start, self.pos))
    }

    /// Yields the next piece, or nothing at the end of the pattern.
    pub fn next_token(&mut self) -> (token: Option<GlobexToken>)
        requires
            old(self).position() <= old(self).source().len(),
        ensures
            final(self).source() == old(self).source(),
            final(self).position() <= final(self).source().len(),
            match token {
                Some(t) => old(self).remaining().len() > 0 && t@ == old(self).remaining()[0]
                    && final(self).remaining() == old(self).remaining().skip(1)
                    && final(self).position() > old(self).position(),
                None => old(self).remaining().len() == 0,
            },
    {
        if self.pos >= self.chars.len() {
            return None;
        }
        let start = self.pos;
        let c = self.chars[start];
        self.pos += 1;
        let ghost rest = pieces_from(self.chars@, start as int);
        let token = if c == '*' {
            GlobexToken::WildcardMany
        } else if c == '?' {
            GlobexToken::WildcardOne
        } else {
            self.read_literal(start)
        };
        proof {
            assert(rest.skip(1) =~= pieces_from(self.chars@, self.pos as int));
        }
        Some(token)
    }
}

} // verus!
