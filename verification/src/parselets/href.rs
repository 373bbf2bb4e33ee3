//! Hyperlink parselet.

use vstd::prelude::*;
use vstd::string::*;
use crate::error::ParseError;
use crate::expression::{Expression, ExpressionView};
use crate::grammar::{first_miss, hyperlink};
use crate::parselet::Parselet;
use crate::parser::Parser;
use crate::text::trim;
use crate::token::{Token, TokenClass, TokenView};
use crate::tokenizer::Tokenizer;

verus! {

/// Parselet for hyperlinks.
pub struct HrefParselet {}

impl Parselet for HrefParselet {
    open spec fn parses(&self, tokens: Seq<TokenView>, pos: int, token: TokenView) -> (
        ExpressionView,
        int,
    ) {
        hyperlink(tokens, pos)
    }

    /// Reads `label](href)` behind the opening bracket.
    fn parse(&self, _parser: &Parser, tokenizer: &mut Tokenizer, _token: &Token) -> (e:
        Expression) {
        proof {
            reveal_with_fuel(first_miss, 6);
        }
        // Get text value
        let text = match tokenizer.expect(TokenClass::Paragraph) {
            Some(Some(t)) => trim(t.value.as_str()),
            Some(None) => {
                return Expression::Error(ParseError::ExpectedToken(TokenClass::Paragraph));
            },
            None => {
                return Expression::Error(ParseError::UnexpectedEof);
            },
        };
        // Consume closing square bracket
        match tokenizer.eat(TokenClass::CloseSquare) {
            Some(Some(_)) => {},
            Some(None) => {
                return Expression::Error(ParseError::ExpectedToken(TokenClass::CloseSquare));
            },
            None => {
                return Expression::Error(ParseError::UnexpectedEof);
            },
        }
        // Consume opening parenthesis
        match tokenizer.eat(TokenClass::OpenParen) {
            Some(Some(_)) => {},
            Some(None) => {
                return Expression::Error(ParseError::ExpectedToken(TokenClass::OpenParen));
            },
            None => {
                return Expression::Error(ParseError::UnexpectedEof);
            },
        }
        // Get hyperlink value
        let href = match tokenizer.expect(TokenClass::Paragraph) {
            Some(Some(t)) => trim(t.value.as_str()),
            Some(None) => {
                return Expression::Error(ParseError::ExpectedToken(TokenClass::Paragraph));
            },
            None => {
                return Expression::Error(ParseError::UnexpectedEof);
            },
        };
        // Consume closing parenthesis
        match tokenizer.eat(TokenClass::CloseParen) {
            Some(Some(_)) => {},
            Some(None) => {
                return Expression::Error(ParseError::ExpectedToken(TokenClass::CloseParen));
            },
            None => {
                return Expression::Error(ParseError::UnexpectedEof);
            },
        }
        Expression::Href { text, href }
    }
}

} // verus!
