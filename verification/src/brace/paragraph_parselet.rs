//! Paragraph parselet.

use vstd::prelude::*;
use crate::brace::expression::{find_error, lemma_list_view, Expression, ExpressionView};
use crate::brace::grammar::{paragraph_of, sequence};
use crate::brace::parser::Parser;
use crate::brace::prefix_parselet::PrefixParselet;
use crate::brace::tokenizer::{Token, TokenView, Tokenizer};

verus! {

/// Parselet for HTML paragraphs.
pub struct ParagraphParselet;

impl PrefixParselet for ParagraphParselet {
    open spec fn parses(&self, tokens: Seq<TokenView>, pos: int, token: TokenView) -> (
        ExpressionView,
        int,
    ) {
        (
            paragraph_of(sequence(tokens, pos, token.class.precedence()).0),
            sequence(tokens, pos, token.class.precedence()).1,
        )
    }

    /// Reads the content of a paragraph, as far as it binds more strongly
    /// than `token`.
    fn parse(&self, parser: &Parser, tokenizer: &mut Tokenizer, token: &Token) -> (e: Expression)
        decreases old(tokenizer)@.remaining(), 5int,
    {
        let inside = parser.parse_tokens(tokenizer, token.get_precedence());
        if let Some(e) = find_error(&inside) {
            return Expression::Error(e);
        }
        proof {
            lemma_list_view(inside);
        }
        Expression::Paragraph(inside)
    }
}

} // verus!
