//! What can go wrong while parsing the brace grammar.

use vstd::prelude::*;
use vstd::string::*;
use crate::brace::tokenizer::TokenClass;
use crate::text::join3;

verus! {

/// An error of the brace grammar.
#[derive(PartialEq, Debug)]
pub enum BraceError {
    /// The input ended where a token was expected.
    UnexpectedEof,
    /// A token of one class was expected, and one of another was found.
    ExpectedToken {
        /// The class that was expected.
        expected: TokenClass,
        /// The class that was found.
        found: TokenClass,
    },
    /// More hashes than there are levels of headings.
    TooManyHashes(String),
    /// A control sequence of an unknown name.
    UnrecognizedControlSequence(String),
    /// No parselet handles tokens of this class.
    NoParselet(TokenClass),
}

/// An error with its texts as sequences of characters.
pub enum BraceErrorView {
    UnexpectedEof,
    ExpectedToken { expected: TokenClass, found: TokenClass },
    TooManyHashes(Seq<char>),
    UnrecognizedControlSequence(Seq<char>),
    NoParselet(TokenClass),
}

/// The view of an error.
pub open spec fn error_view(e: BraceError) -> BraceErrorView {
    match e {
        BraceError::UnexpectedEof => BraceErrorView::UnexpectedEof,
        BraceError::ExpectedToken { expected, found } => BraceErrorView::ExpectedToken {
            expected,
            found,
        },
        BraceError::TooManyHashes(h) => BraceErrorView::TooManyHashes(h@),
        BraceError::UnrecognizedControlSequence(c) => BraceErrorView::UnrecognizedControlSequence(
            c@,
        ),
        BraceError::NoParselet(c) => BraceErrorView::NoParselet(c),
    }
}

impl View for BraceError {
    type V = BraceErrorView;

    open spec fn view(&self) -> BraceErrorView {
        error_view(*self)
    }
}

impl BraceErrorView {
    /// The message that tells the user of this error.
    pub open spec fn message(self) -> Seq<char> {
        match self {
            BraceErrorView::UnexpectedEof => "unexpected EOF"@,
            BraceErrorView::ExpectedToken { expected, found } => "expected token of class '"@
                + expected.name() + "', found token of class '"@ + found.name() + "'"@,
            BraceErrorView::TooManyHashes(h) => "too many hashes provided: '"@ + h + "'"@,
            BraceErrorView::UnrecognizedControlSequence(c) => "unrecognized control sequence '"@
                + c + "'"@,
            BraceErrorView::NoParselet(c) => "could not handle token of class '"@ + c.name()
                + "'"@,
        }
    }
}

impl Clone for BraceError {
    fn clone(&self) -> (r: Self)
        ensures
            r == *self,
    {
        match self {
            BraceError::UnexpectedEof => BraceError::UnexpectedEof,
            BraceError::ExpectedToken { expected, found } => BraceError::ExpectedToken {
                expected: *expected,
                found: *found,
            },
            BraceError::TooManyHashes(h) => BraceError::TooManyHashes(h.clone()),
            BraceError::UnrecognizedControlSequence(c) => BraceError::UnrecognizedControlSequence(
                c.clone(),
            ),
            BraceError::NoParselet(c) => BraceError::NoParselet(*c),
        }
    }
}

impl BraceError {
    /// The message that tells the user of this error.
    pub fn display(&self) -> (s: String)
        ensures
            s@ == self@.message(),
    {
        match self {
            BraceError::UnexpectedEof => String::from_str("unexpected EOF"),
            BraceError::ExpectedToken { expected, found } => {
                let mut s = join3(
                    "expected token of class '",
                    expected.display().as_str(),
                    "', found token of class '",
                );
                s.append(found.display().as_str());
                s.append("'");
                s
            },
            BraceError::TooManyHashes(h) => join3("too many hashes provided: '", h.as_str(), "'"),
            BraceError::UnrecognizedControlSequence(c) => join3(
                "unrecognized control sequence '",
                c.as_str(),
                "'",
            ),
            BraceError::NoParselet(c) => join3(
                "could not handle token of class '",
                c.display().as_str(),
                "'",
            ),
        }
    }
}

} // verus!
