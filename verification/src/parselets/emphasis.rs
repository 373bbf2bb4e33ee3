//! Emphasized text parselet.

use vstd::prelude::*;
use vstd::string::*;
use crate::error::ParseError;
use crate::expression::{Expression, ExpressionView};
use crate::grammar::{emphasis, emphasis_body};
use crate::parselet::Parselet;
use crate::parser::Parser;
use crate::text::same_text;
use crate::token::{Token, TokenClass, TokenView};
use crate::tokenizer::Tokenizer;

verus! {

/// Parselet for emphasized text.
pub struct EmphasisParselet {}

/// Whether a marker is one of the italics markers.
fn is_italic(marker: &str) -> (b: bool)
    ensures
        b == crate::grammar::italic_marker(marker@),
{
    same_text(marker, "_") || same_text(marker, "*")
}

/// Whether a marker is one of the bold markers.
fn is_bold(marker: &str) -> (b: bool)
    ensures
        b == crate::grammar::bold_marker(marker@),
{
    same_text(marker, "__") || same_text(marker, "**")
}

/// Whether a marker is one of the markers of bold italics.
fn is_bold_italic(marker: &str) -> (b: bool)
    ensures
        b == crate::grammar::bold_italic_marker(marker@),
{
    same_text(marker, "__*") || same_text(marker, "***") || same_text(marker, "**_")
        || same_text(marker, "___")
}

impl Parselet for EmphasisParselet {
    open spec fn parses(&self, tokens: Seq<TokenView>, pos: int, token: TokenView) -> (
        ExpressionView,
        int,
    ) {
        emphasis(tokens, pos, token.value)
    }

    /// Reads emphasized text behind the opening marker `token`.
    fn parse(&self, _parser: &Parser, tokenizer: &mut Tokenizer, token: &Token) -> (e:
        Expression) {
        let marker = token.value.as_str();
        if is_italic(marker) || is_bold(marker) || is_bold_italic(marker) {
            parse_emphasis(tokenizer, token)
        } else {
            // Not sure what this is...
            Expression::Error(ParseError::UnrecognizedEmphasis)
        }
    }
}

/// Parse until we see a matching closing delimiter.
pub fn parse_emphasis(tokenizer: &mut Tokenizer, token: &Token) -> (e: Expression)
    ensures
        final(tokenizer)@.tokens == old(tokenizer)@.tokens,
        (e@, final(tokenizer)@.index as int) == emphasis_body(
            old(tokenizer)@.tokens,
            old(tokenizer)@.index as int,
            token@.value,
        ),
{
    // Get the next token (should be raw text)
    match tokenizer.next() {
        Some(t) => {
            if t.class == TokenClass::Paragraph {
                // Consume the closing delimiter
                let closing = match tokenizer.next() {
                    Some(c) => c,
                    None => {
                        return Expression::Error(ParseError::UnexpectedEof);
                    },
                };
                // Make sure the delimiters are the same
                if !same_text(token.value.as_str(), closing.value.as_str()) {
                    return Expression::Error(ParseError::MismatchedDelimiters);
                }
                let marker = closing.value.as_str();
                if is_italic(marker) {
                    Expression::Italics(t.value.clone())
                } else if is_bold(marker) {
                    Expression::Bold(t.value.clone())
                } else if is_bold_italic(marker) {
                    Expression::BoldItalics(t.value.clone())
                } else {
                    Expression::Error(ParseError::UnrecognizedEmphasis)
                }
            } else {
                Expression::Error(ParseError::ExpectedToken(TokenClass::Paragraph))
            }
        },
        None => Expression::Error(ParseError::UnexpectedEof),
    }
}

} // verus!
