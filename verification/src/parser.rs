//! The parser: it reads a stream of tokens and gives a list of expressions.

use vstd::prelude::*;
use crate::error::ParseError;
use crate::expression::{expression_views, Expression, ExpressionView};
use crate::grammar::{expression_at, expressions_from, lemma_expression_at};
use crate::parselet::Parselet;
use crate::parselets::{
    ControlParselet,
    EmphasisParselet,
    HeaderParselet,
    HrefParselet,
    MenuParselet,
    NewlineParselet,
    ParagraphParselet,
};
use crate::token::TokenClass;
use crate::tokenizer::Tokenizer;

verus! {

/// A parser that takes in a stream of tokens and outputs a list of
/// expressions. Each token class has at most one parselet.
pub struct Parser {}

impl Parser {
    /// Construct a new parser.
    pub fn new() -> (r: Self) {
        Parser {  }
    }

    /// Parse a list of expressions: all that the tokens left in `tokenizer`
    /// hold.
    pub fn parse(&self, tokenizer: &mut Tokenizer) -> (output: Vec<Expression>)
        ensures
            final(tokenizer)@.tokens == old(tokenizer)@.tokens,
            !final(tokenizer)@.has_next(),
            expression_views(output@) == expressions_from(
                old(tokenizer)@.tokens,
                old(tokenizer)@.index as int,
            ),
    {
        let ghost start = tokenizer@;
        // Initialize output list of expressions
        let mut output: Vec<Expression> = Vec::new();
        proof {
            assert(expression_views(output@) + expressions_from(start.tokens, start.index as int)
                =~= expressions_from(start.tokens, start.index as int));
        }
        loop
            invariant_except_break
                expressions_from(start.tokens, start.index as int) == expression_views(output@)
                    + expressions_from(start.tokens, tokenizer@.index as int),
            invariant
                tokenizer@.tokens == start.tokens,
            ensures
                expressions_from(start.tokens, start.index as int) == expression_views(output@),
                !tokenizer@.has_next(),
            decreases tokenizer@.remaining(),
        {
            let ghost at = tokenizer@.index as int;
            let ghost before = output@;
            if tokenizer.peek().is_none() {
                proof {
                    assert(expression_views(before) + Seq::<ExpressionView>::empty()
                        =~= expression_views(before));
                }
                break ;
            }
            // Get the next expression from the token stream
            let expression = self.parse_next(tokenizer);
            proof {
                lemma_expression_at(start.tokens, at);
                assert(expression_views(before.push(expression)) =~= expression_views(
                    before,
                ).push(expression@));
                assert(expression_views(before) + (seq![expression@] + expressions_from(
                    start.tokens,
                    tokenizer@.index as int,
                )) =~= expression_views(before).push(expression@) + expressions_from(
                    start.tokens,
                    tokenizer@.index as int,
                ));
            }
            output.push(expression);
        }
        output
    }

    /// Parse the next expression out of the tokenizer, which has a token
    /// left.
    pub fn parse_next(&self, tokenizer: &mut Tokenizer) -> (e: Expression)
        requires
            old(tokenizer)@.has_next(),
        ensures
            final(tokenizer)@.tokens == old(tokenizer)@.tokens,
            (e@, final(tokenizer)@.index as int) == expression_at(
                old(tokenizer)@.tokens,
                old(tokenizer)@.index as int,
            ),
        decreases old(tokenizer)@.remaining(), 0int,
    {
        // Get the next token in the stream
        let token = match tokenizer.next() {
            Some(t) => t,
            None => vstd::pervasive::unreached(),
        };
        // Hand over to the parselet of the token's class
        match token.class {
            TokenClass::Hashes => (HeaderParselet {  }).parse(self, tokenizer, &token),
            TokenClass::Paragraph => (ParagraphParselet {  }).parse(self, tokenizer, &token),
            TokenClass::Newline => (NewlineParselet {  }).parse(self, tokenizer, &token),
            TokenClass::Menu => (MenuParselet {  }).parse(self, tokenizer, &token),
            TokenClass::OpenSquare => (HrefParselet {  }).parse(self, tokenizer, &token),
            TokenClass::Emphasis => (EmphasisParselet {  }).parse(self, tokenizer, &token),
            TokenClass::Control => (ControlParselet {  }).parse(self, tokenizer, &token),
            // No parselet available
            class => Expression::Error(ParseError::NoParselet(class)),
        }
    }
}

} // verus!
