//! Hash parselet.

use vstd::prelude::*;
use vstd::string::*;
use crate::brace::error::BraceError;
use crate::brace::expression::{find_error, lemma_list_view, Expression, ExpressionView};
use crate::brace::grammar::{hashed, sequence};
use crate::brace::parser::Parser;
use crate::brace::prefix_parselet::PrefixParselet;
use crate::brace::tokenizer::{Token, TokenView, Tokenizer};

verus! {

/// Parselet for hash-prefixed expressions.
pub struct HashParselet;

impl PrefixParselet for HashParselet {
    open spec fn parses(&self, tokens: Seq<TokenView>, pos: int, token: TokenView) -> (
        ExpressionView,
        int,
    ) {
        (
            hashed(token.value, sequence(tokens, pos, token.class.precedence()).0),
            sequence(tokens, pos, token.class.precedence()).1,
        )
    }

    /// Reads the content of a heading, as far as it binds more strongly than
    /// `token`; the number of characters of `token` is the heading's level.
    fn parse(&self, parser: &Parser, tokenizer: &mut Tokenizer, token: &Token) -> (e: Expression)
        decreases old(tokenizer)@.remaining(), 5int,
    {
        let inside = parser.parse_tokens(tokenizer, token.get_precedence());
        if let Some(e) = find_error(&inside) {
            return Expression::Error(e);
        }
        proof {
            lemma_list_view(inside);
        }
        let value = token.get_value();
        let level = value.as_str().unicode_len();
        if level == 1 {
            Expression::Title(inside)
        } else if level == 2 {
            Expression::Heading(inside)
        } else if level == 3 {
            Expression::Subheading(inside)
        } else {
            Expression::Error(BraceError::TooManyHashes(value))
        }
    }
}

} // verus!
