//! Positions in filter source text.
use vstd::prelude::*;
use crate::text::{decimal_text, push_decimal};

verus! {

/// A position in filter source text: both numbers count from 1, and the pair
/// `(0, 0)` stands for a position that is not known.
#[derive(Clone, Copy, Debug, PartialEq, Eq, Structural)]
pub struct Loc {
    pub line: usize,
    pub column: usize,
}

/// How a position reads in a message.
pub open spec fn loc_text(loc: Loc) -> Seq<char> {
    if loc.line == 0 && loc.column == 0 {
        "unknown location"@
    } else {
        "line "@ + decimal_text(loc.line as nat) + ", column "@ + decimal_text(loc.column as nat)
    }
}

impl Loc {
    pub fn new(line: usize, column: usize) -> (loc: Loc)
        ensures
            loc.line == line,
            loc.column == column,
    {
        Loc { line, column }
    }

    /// The position as it is shown to a person.
    pub fn to_string(&self) -> (out: String)
        ensures
            out@ == loc_text(*self),
    {
        if self.line == 0 && self.column == 0 {
            String::from_str("unknown location")
        } else {
            let mut out = String::from_str("line ");
            push_decimal(&mut out, self.line);
            out.append(", column ");
            push_decimal(&mut out, self.column);
            out
        }
    }
}

} // verus!
