//! Newline parselet.

use vstd::prelude::*;
use crate::expression::{Expression, ExpressionView};
use crate::grammar::newlines_end;
use crate::parselet::Parselet;
use crate::parser::Parser;
use crate::token::{Token, TokenClass, TokenView};
use crate::tokenizer::Tokenizer;

verus! {

/// Parselet for newlines.
pub struct NewlineParselet {}

impl Parselet for NewlineParselet {
    open spec fn parses(&self, tokens: Seq<TokenView>, pos: int, token: TokenView) -> (
        ExpressionView,
        int,
    ) {
        (ExpressionView::Newline, newlines_end(tokens, pos))
    }

    /// Reads all the newlines that follow and makes one break of them.
    fn parse(&self, _parser: &Parser, tokenizer: &mut Tokenizer, _token: &Token) -> (e:
        Expression) {
        let ghost start = tokenizer@;
        // Consume all newlines
        loop
            invariant
                tokenizer@.tokens == start.tokens,
                start.index <= tokenizer@.index,
                newlines_end(start.tokens, start.index as int) == newlines_end(
                    start.tokens,
                    tokenizer@.index as int,
                ),
            ensures
                tokenizer@.index == newlines_end(start.tokens, start.index as int),
            decreases tokenizer@.remaining(),
        {
            match tokenizer.peek() {
                Some(t) => {
                    if t.class == TokenClass::Newline {
                        tokenizer.next();
                    } else {
                        break ;
                    }
                },
                None => {
                    break ;
                },
            }
        }
        Expression::Newline
    }
}

} // verus!
