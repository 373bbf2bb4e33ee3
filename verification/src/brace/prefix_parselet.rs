//! The contract that every parselet of the brace grammar meets.

use vstd::prelude::*;
use crate::brace::expression::{Expression, ExpressionView};
use crate::brace::parser::Parser;
use crate::brace::tokenizer::{Token, TokenView, Tokenizer};

verus! {

/// Prefix parselet abstraction: a rule that is chosen by the class of the
/// token that an expression starts with.
pub trait PrefixParselet {
    /// What this parselet makes of the tokens from `pos` on, behind `token`:
    /// the expression, and where the next one starts.
    spec fn parses(&self, tokens: Seq<TokenView>, pos: int, token: TokenView) -> (
        ExpressionView,
        int,
    );

    /// Parse the expression that `token`, which was just read from
    /// `tokenizer`, starts.
    fn parse(&self, parser: &Parser, tokenizer: &mut Tokenizer, token: &Token) -> (e: Expression)
        ensures
            final(tokenizer)@.tokens == old(tokenizer)@.tokens,
            (e@, final(tokenizer)@.index as int) == self.parses(
                old(tokenizer)@.tokens,
                old(tokenizer)@.index as int,
                token@,
            ),
    ;
}

} // verus!
