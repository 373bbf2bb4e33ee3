//! Parsing errors.

use vstd::prelude::*;
use vstd::string::*;
use crate::text::{decimal, decimal_string, join3};
use crate::token::TokenClass;

verus! {

/// What can go wrong while parsing.
#[derive(PartialEq, Debug)]
pub enum ParseError {
    /// Unexpected EOF.
    UnexpectedEof,
    /// Expected token of given class.
    ExpectedToken(TokenClass),
    /// Unrecognized emphasis sequence.
    UnrecognizedEmphasis,
    /// Too many hashes.
    TooManyHashes,
    /// Mismatched delimiters.
    MismatchedDelimiters,
    /// Unrecognized control sequence.
    UnrecognizedControl(String),
    /// Incorrect number of arguments to control sequence.
    IncorrectArgumentCount {
        /// Number of arguments we expected.
        expected: usize,
        /// Number of arguments we actually got.
        actual: usize,
        /// Control sequence.
        control: String,
    },
    /// No parselet available for token class.
    NoParselet(TokenClass),
}

/// A parsing error with its texts as sequences of characters.
pub enum ParseErrorView {
    UnexpectedEof,
    ExpectedToken(TokenClass),
    UnrecognizedEmphasis,
    TooManyHashes,
    MismatchedDelimiters,
    UnrecognizedControl(Seq<char>),
    IncorrectArgumentCount { expected: nat, actual: nat, control: Seq<char> },
    NoParselet(TokenClass),
}

/// The view of a parsing error.
pub open spec fn error_view(e: ParseError) -> ParseErrorView {
    match e {
        ParseError::UnexpectedEof => ParseErrorView::UnexpectedEof,
        ParseError::ExpectedToken(c) => ParseErrorView::ExpectedToken(c),
        ParseError::UnrecognizedEmphasis => ParseErrorView::UnrecognizedEmphasis,
        ParseError::TooManyHashes => ParseErrorView::TooManyHashes,
        ParseError::MismatchedDelimiters => ParseErrorView::MismatchedDelimiters,
        ParseError::UnrecognizedControl(c) => ParseErrorView::UnrecognizedControl(c@),
        ParseError::IncorrectArgumentCount { expected, actual, control } =>
            ParseErrorView::IncorrectArgumentCount {
            expected: expected as nat,
            actual: actual as nat,
            control: control@,
        },
        ParseError::NoParselet(c) => ParseErrorView::NoParselet(c),
    }
}

impl View for ParseError {
    type V = ParseErrorView;

    open spec fn view(&self) -> ParseErrorView {
        error_view(*self)
    }
}

impl ParseErrorView {
    /// The message that tells the user of this error.
    pub open spec fn message(self) -> Seq<char> {
        match self {
            ParseErrorView::UnexpectedEof => "unexpected EOF"@,
            ParseErrorView::ExpectedToken(c) => "expected token of class '"@ + c.name() + "'"@,
            ParseErrorView::TooManyHashes => "too many hashes provided"@,
            ParseErrorView::UnrecognizedEmphasis => "unrecognized emphasis sequence"@,
            ParseErrorView::UnrecognizedControl(c) => "unrecognized control sequence '"@ + c
                + "'"@,
            ParseErrorView::MismatchedDelimiters => "mismatched delimiters"@,
            ParseErrorView::IncorrectArgumentCount { expected, actual, control } => "expected "@
                + decimal(expected) + " argument(s) to control sequence '"@ + control + "', got "@
                + decimal(actual) + " argument(s) instead"@,
            ParseErrorView::NoParselet(c) => "could not handle token of class '"@ + c.name()
                + "'"@,
        }
    }
}

impl Clone for ParseError {
    fn clone(&self) -> (r: Self)
        ensures
            r == *self,
    {
        match self {
            ParseError::UnexpectedEof => ParseError::UnexpectedEof,
            ParseError::ExpectedToken(c) => ParseError::ExpectedToken(*c),
            ParseError::UnrecognizedEmphasis => ParseError::UnrecognizedEmphasis,
            ParseError::TooManyHashes => ParseError::TooManyHashes,
            ParseError::MismatchedDelimiters => ParseError::MismatchedDelimiters,
            ParseError::UnrecognizedControl(c) => ParseError::UnrecognizedControl(c.clone()),
            ParseError::IncorrectArgumentCount { expected, actual, control } =>
                ParseError::IncorrectArgumentCount {
                expected: *expected,
                actual: *actual,
                control: control.clone(),
            },
            ParseError::NoParselet(c) => ParseError::NoParselet(*c),
        }
    }
}

impl ParseError {
    /// The message that tells the user of this error.
    pub fn display(&self) -> (s: String)
        ensures
            s@ == self@.message(),
    {
        match self {
            ParseError::UnexpectedEof => String::from_str("unexpected EOF"),
            ParseError::ExpectedToken(c) => join3(
                "expected token of class '",
                c.display().as_str(),
                "'",
            ),
            ParseError::TooManyHashes => String::from_str("too many hashes provided"),
            ParseError::UnrecognizedEmphasis => String::from_str("unrecognized emphasis sequence"),
            ParseError::UnrecognizedControl(c) => join3(
                "unrecognized control sequence '",
                c.as_str(),
                "'",
            ),
            ParseError::MismatchedDelimiters => String::from_str("mismatched delimiters"),
            ParseError::IncorrectArgumentCount { expected, actual, control } => {
                let mut s = String::from_str("expected ");
                s.append(decimal_string(*expected).as_str());
                s.append(" argument(s) to control sequence '");
                s.append(control.as_str());
                s.append("', got ");
                s.append(decimal_string(*actual).as_str());
                s.append(" argument(s) instead");
                s
            },
            ParseError::NoParselet(c) => join3(
                "could not handle token of class '",
                c.display().as_str(),
                "'",
            ),
        }
    }
}

} // verus!
