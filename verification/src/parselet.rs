//! The contract that every parselet meets.

use vstd::prelude::*;
use crate::expression::{Expression, ExpressionView};
use crate::parser::Parser;
use crate::token::{Token, TokenView};
use crate::tokenizer::Tokenizer;

verus! {

/// A grammar rule bound to one token class: it is handed the token that
/// was just read and reads on to make one expression.
pub trait Parselet {
    /// What this parselet makes of the tokens from `pos` on, behind `token`:
    /// the expression, and where the next one starts.
    spec fn parses(&self, tokens: Seq<TokenView>, pos: int, token: TokenView) -> (
        ExpressionView,
        int,
    );

    /// Parse a stream of tokens: `token` is the one just read from
    /// `tokenizer`.
    fn parse(&self, parser: &Parser, tokenizer: &mut Tokenizer, token: &Token) -> (e: Expression)
        ensures
            final(tokenizer)@.tokens == old(tokenizer)@.tokens,
            (e@, final(tokenizer)@.index as int) == self.parses(
                old(tokenizer)@.tokens,
                old(tokenizer)@.index as int,
                token@,
            ),
    ;
}

} // verus!
