//! What can be wrong with the text of a filter.
use vstd::prelude::*;
use super::location::{loc_text, Loc};
use crate::errors::{user, user_error, Error, ErrorView};

verus! {

/// The ways in which a filter expression can be malformed.
#[derive(Clone, Copy, Debug, PartialEq, Eq, Structural)]
pub enum FilterErrorKind {
    /// A string was opened and never closed.
    UnterminatedString,
    /// A single `&` where `&&` was meant.
    OrphanedAnd,
    /// A single `|` where `||` was meant.
    OrphanedOr,
    /// A single `=` where `==` was meant.
    OrphanedEquals,
    /// A token follows a complete expression.
    TrailingToken,
    /// A token stands where a value was expected.
    UnexpectedToken,
    /// A group was opened and not closed where it had to be.
    MissingParen,
    /// A list was opened and not closed where it had to be.
    MissingBracket,
    /// The expression ends where a value was expected.
    UnexpectedEnd,
    /// A number token whose text is not a decimal number.
    InvalidNumber,
}

/// A malformed filter: what is wrong, where, and the text of the token at
/// fault where one is (empty otherwise).
///
/// The position is that of the offending token, of the opening quote, paren
/// or bracket for the three "unclosed" kinds, and unknown for
/// `UnexpectedEnd`.
#[derive(Clone, Debug, PartialEq, Eq)]
pub struct FilterError {
    pub kind: FilterErrorKind,
    pub loc: Loc,
    pub token: String,
}

/// The mathematical content of a [`FilterError`].
pub struct FilterErrorView {
    pub kind: FilterErrorKind,
    pub loc: Loc,
    pub token: Seq<char>,
}

impl View for FilterError {
    type V = FilterErrorView;

    open spec fn view(&self) -> FilterErrorView {
        FilterErrorView { kind: self.kind, loc: self.loc, token: self.token@ }
    }
}

/// The view of an error that names no token.
pub open spec fn plain_error(kind: FilterErrorKind, loc: Loc) -> FilterErrorView {
    FilterErrorView { kind, loc, token: Seq::<char>::empty() }
}

/// The summary of a malformed filter.
pub open spec fn filter_error_message(e: FilterErrorView) -> Seq<char> {
    match e.kind {
        FilterErrorKind::UnterminatedString =>
            "Reached the end of the filter without finding the closing quote for a string starting at "@
                + loc_text(e.loc) + "."@,
        FilterErrorKind::OrphanedAnd =>
            "Filter included an orphaned '&' at "@ + loc_text(e.loc)
                + " which is not a valid operator."@,
        FilterErrorKind::OrphanedOr =>
            "Filter included an orphaned '|' at "@ + loc_text(e.loc)
                + " which is not a valid operator."@,
        FilterErrorKind::OrphanedEquals =>
            "Filter included an orphaned '=' at "@ + loc_text(e.loc)
                + " which is not a valid operator."@,
        FilterErrorKind::TrailingToken =>
            "Your filter expression contained an unexpected '"@ + e.token + "' at "@
                + loc_text(e.loc) + "."@,
        FilterErrorKind::UnexpectedToken =>
            "While parsing your filter, we found an unexpected '"@ + e.token + "' at "@
                + loc_text(e.loc) + "."@,
        FilterErrorKind::MissingParen =>
            "When attempting to parse a grouped filter expression starting at "@ + loc_text(e.loc)
                + ", we didn't find the closing ')' where we expected to."@,
        FilterErrorKind::MissingBracket =>
            "When attempting to parse a list filter expression starting at "@ + loc_text(e.loc)
                + ", we didn't find the closing ']' where we expected to."@,
        FilterErrorKind::UnexpectedEnd =>
            "We reached the end of your filter expression while waiting for a [true, false, \"string\", number, (group), or property.name]."@,
        FilterErrorKind::InvalidNumber =>
            "Failed to parse the number '"@ + e.token + "' which you provided at "@
                + loc_text(e.loc) + "."@,
    }
}

/// What the user is advised to do about a malformed filter.
pub open spec fn filter_error_advice(kind: FilterErrorKind) -> Seq<char> {
    match kind {
        FilterErrorKind::UnterminatedString =>
            "Make sure that you have terminated your string with a '\"' character."@,
        FilterErrorKind::OrphanedAnd =>
            "Ensure that you are using the '&&' operator to implement a logical AND within your filter."@,
        FilterErrorKind::OrphanedOr =>
            "Ensure that you are using the '||' operator to implement a logical OR within your filter."@,
        FilterErrorKind::OrphanedEquals =>
            "Ensure that you are using the '==' operator to implement a logical equality within your filter."@,
        FilterErrorKind::TrailingToken | FilterErrorKind::UnexpectedToken =>
            "Make sure that you have written a valid filter query."@,
        FilterErrorKind::MissingParen =>
            "Make sure that you have balanced your parentheses correctly."@,
        FilterErrorKind::MissingBracket =>
            "Make sure that you have closed your tuple brackets correctly."@,
        FilterErrorKind::UnexpectedEnd =>
            "Make sure that you have written a valid filter query and that you haven't forgotten part of it."@,
        FilterErrorKind::InvalidNumber =>
            "Please make sure that the number is well formatted. It should be in the form 123, or 123.45."@,
    }
}

/// The user error that a malformed filter is reported as.
pub open spec fn filter_error_report(e: FilterErrorView) -> ErrorView {
    user_error(filter_error_message(e), filter_error_advice(e.kind))
}

impl FilterError {
    /// An error that names no token.
    pub fn at(kind: FilterErrorKind, loc: Loc) -> (e: FilterError)
        ensures
            e@ == plain_error(kind, loc),
    {
        FilterError { kind, loc, token: String::new() }
    }

    /// An error about the token that reads `token` and starts at `loc`.
    pub fn about(kind: FilterErrorKind, loc: Loc, token: String) -> (e: FilterError)
        ensures
            e@ == (FilterErrorView { kind, loc, token: token@ }),
    {
        FilterError { kind, loc, token }
    }

    /// A copy of this error.
    pub fn duplicate(&self) -> (out: FilterError)
        ensures
            out@ == self@,
    {
        FilterError { kind: self.kind, loc: self.loc, token: self.token.clone() }
    }

    fn advice(&self) -> (out: &'static str)
        ensures
            out@ == filter_error_advice(self@.kind),
    {
        match self.kind {
            FilterErrorKind::UnterminatedString =>
                "Make sure that you have terminated your string with a '\"' character.",
            FilterErrorKind::OrphanedAnd =>
                "Ensure that you are using the '&&' operator to implement a logical AND within your filter.",
            FilterErrorKind::OrphanedOr =>
                "Ensure that you are using the '||' operator to implement a logical OR within your filter.",
            FilterErrorKind::OrphanedEquals =>
                "Ensure that you are using the '==' operator to implement a logical equality within your filter.",
            FilterErrorKind::TrailingToken => "Make sure that you have written a valid filter query.",
            FilterErrorKind::UnexpectedToken => "Make sure that you have written a valid filter query.",
            FilterErrorKind::MissingParen =>
                "Make sure that you have balanced your parentheses correctly.",
            FilterErrorKind::MissingBracket =>
                "Make sure that you have closed your tuple brackets correctly.",
            FilterErrorKind::UnexpectedEnd =>
                "Make sure that you have written a valid filter query and that you haven't forgotten part of it.",
            FilterErrorKind::InvalidNumber =>
                "Please make sure that the number is well formatted. It should be in the form 123, or 123.45.",
        }
    }

    /// The summary of this error.
    pub fn to_string(&self) -> (out: String)
        ensures
            out@ == filter_error_message(self@),
    {
        let loc = self.loc.to_string();
        match self.kind {
            FilterErrorKind::UnterminatedString => {
                let mut out = String::from_str(
                    "Reached the end of the filter without finding the closing quote for a string starting at ",
                );
                out.append(loc.as_str());
                out.append(".");
                out
            },
            FilterErrorKind::OrphanedAnd => {
                let mut out = String::from_str("Filter included an orphaned '&' at ");
                out.append(loc.as_str());
                out.append(" which is not a valid operator.");
                out
            },
            FilterErrorKind::OrphanedOr => {
                let mut out = String::from_str("Filter included an orphaned '|' at ");
                out.append(loc.as_str());
                out.append(" which is not a valid operator.");
                out
            },
            FilterErrorKind::OrphanedEquals => {
                let mut out = String::from_str("Filter included an orphaned '=' at ");
                out.append(loc.as_str());
                out.append(" which is not a valid operator.");
                out
            },
            FilterErrorKind::TrailingToken => {
                let mut out = String::from_str("Your filter expression contained an unexpected '");
                out.append(self.token.as_str());
                out.append("' at ");
                out.append(loc.as_str());
                out.append(".");
                out
            },
            FilterErrorKind::UnexpectedToken => {
                let mut out = String::from_str("While parsing your filter, we found an unexpected '");
                out.append(self.token.as_str());
                out.append("' at ");
                out.append(loc.as_str());
                out.append(".");
                out
            },
            FilterErrorKind::MissingParen => {
                let mut out = String::from_str(
                    "When attempting to parse a grouped filter expression starting at ",
                );
                out.append(loc.as_str());
                out.append(", we didn't find the closing ')' where we expected to.");
                out
            },
            FilterErrorKind::MissingBracket => {
                let mut out = String::from_str(
                    "When attempting to parse a list filter expression starting at ",
                );
                out.append(loc.as_str());
                out.append(", we didn't find the closing ']' where we expected to.");
                out
            },
            FilterErrorKind::UnexpectedEnd => String::from_str(
                "We reached the end of your filter expression while waiting for a [true, false, \"string\", number, (group), or property.name].",
            ),
            FilterErrorKind::InvalidNumber => {
                let mut out = String::from_str("Failed to parse the number '");
                out.append(self.token.as_str());
                out.append("' which you provided at ");
                out.append(loc.as_str());
                out.append(".");
                out
            },
        }
    }

    /// This error as the user error that the service reports.
    pub fn to_error(&self) -> (e: Error)
        ensures
            e@ == filter_error_report(self@),
    {
        user(self.to_string(), self.advice())
    }
}

} // verus!
