//! Newline parselet.

use vstd::prelude::*;
use vstd::string::*;
use crate::brace::expression::{Expression, ExpressionView};
use crate::brace::grammar::blank_end;
use crate::brace::parser::Parser;
use crate::brace::prefix_parselet::PrefixParselet;
use crate::brace::tokenizer::{Token, TokenClass, TokenView, Tokenizer};

verus! {

/// Parselet for newline characters.
pub struct NewlineParselet;

impl PrefixParselet for NewlineParselet {
    open spec fn parses(&self, tokens: Seq<TokenView>, pos: int, token: TokenView) -> (
        ExpressionView,
        int,
    ) {
        (ExpressionView::Newline, blank_end(tokens, pos))
    }

    /// Reads all the newlines and empty texts that follow and makes one
    /// break of them.
    fn parse(&self, _parser: &Parser, tokenizer: &mut Tokenizer, _token: &Token) -> (e:
        Expression) {
        let ghost start = tokenizer@;
        loop
            invariant
                start == old(tokenizer)@,
                tokenizer@.tokens == start.tokens,
                start.index <= tokenizer@.index,
                blank_end(start.tokens, start.index as int) == blank_end(
                    start.tokens,
                    tokenizer@.index as int,
                ),
            ensures
                tokenizer@.index == blank_end(start.tokens, start.index as int),
            decreases tokenizer@.remaining(),
        {
            match tokenizer.peek() {
                Some(t) => {
                    if t.get_class() == TokenClass::Newline {
                        tokenizer.next();
                    } else if t.get_class() == TokenClass::Alphanumeric
                        && t.get_value().as_str().unicode_len() == 0 {
                        tokenizer.next();
                    } else {
                        break ;
                    }
                },
                None => {
                    break ;
                },
            }
        }
        Expression::Newline
    }
}

} // verus!
