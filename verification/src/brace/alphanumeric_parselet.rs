//! Alphanumeric parselet.

use vstd::prelude::*;
use crate::brace::expression::{Expression, ExpressionView};
use crate::brace::parser::Parser;
use crate::brace::prefix_parselet::PrefixParselet;
use crate::brace::tokenizer::{Token, TokenView, Tokenizer};

verus! {

/// Parselet for alphanumeric expressions.
pub struct AlphanumericParselet;

impl PrefixParselet for AlphanumericParselet {
    open spec fn parses(&self, tokens: Seq<TokenView>, pos: int, token: TokenView) -> (
        ExpressionView,
        int,
    ) {
        (ExpressionView::Alphanumeric(token.value), pos)
    }

    /// The text of the token stands for itself.
    fn parse(&self, _parser: &Parser, _tokenizer: &mut Tokenizer, token: &Token) -> (e:
        Expression) {
        Expression::Alphanumeric(token.get_value())
    }
}

} // verus!
