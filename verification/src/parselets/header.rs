//! Header parselet.

use vstd::prelude::*;
use vstd::string::*;
use crate::error::ParseError;
use crate::expression::{Expression, ExpressionView};
use crate::grammar::{first_miss, header};
use crate::parselet::Parselet;
use crate::parser::Parser;
use crate::text::trim;
use crate::token::{Token, TokenClass, TokenView};
use crate::tokenizer::Tokenizer;

verus! {

/// Parselet for headers.
pub struct HeaderParselet {}

impl Parselet for HeaderParselet {
    open spec fn parses(&self, tokens: Seq<TokenView>, pos: int, token: TokenView) -> (
        ExpressionView,
        int,
    ) {
        header(tokens, pos, token.value)
    }

    /// Reads the heading's body. The level is the number of characters of
    /// `token`.
    fn parse(&self, _parser: &Parser, tokenizer: &mut Tokenizer, token: &Token) -> (e:
        Expression) {
        proof {
            reveal_with_fuel(first_miss, 2);
        }
        // Copy next token's value
        let value = match tokenizer.expect(TokenClass::Paragraph) {
            Some(Some(t)) => trim(t.value.as_str()),
            Some(None) => {
                // Expected text, found something else
                return Expression::Error(ParseError::ExpectedToken(TokenClass::Paragraph));
            },
            None => {
                // We ran out of tokens
                return Expression::Error(ParseError::UnexpectedEof);
            },
        };
        // Check the number of hashes
        let level = token.value.as_str().unicode_len();
        if level == 1 {
            Expression::H1(value)
        } else if level == 2 {
            Expression::H2(value)
        } else if level == 3 {
            Expression::H3(value)
        } else if level == 4 {
            Expression::H4(value)
        } else if level == 5 {
            Expression::H5(value)
        } else if level == 6 {
            Expression::H6(value)
        } else {
            Expression::Error(ParseError::TooManyHashes)
        }
    }
}

} // verus!
