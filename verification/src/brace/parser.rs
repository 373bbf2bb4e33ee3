//! The parser of the brace grammar: precedence climbing over parselets.

use vstd::prelude::*;
use crate::brace::alphanumeric_parselet::AlphanumericParselet;
use crate::brace::control_parselet::ControlParselet;
use crate::brace::error::BraceError;
use crate::brace::expression::{expression_views, Expression, ExpressionView};
use crate::brace::grammar::{expression_at, lemma_expression_at, parsed, sequence};
use crate::brace::hash_parselet::HashParselet;
use crate::brace::newline_parselet::NewlineParselet;
use crate::brace::paragraph_parselet::ParagraphParselet;
use crate::brace::prefix_parselet::PrefixParselet;
use crate::brace::tokenizer::{lex, TokenClass, Tokenizer};

verus! {

/// A parser of the brace grammar. Each token class has at most one
/// parselet; the braces have none.
pub struct Parser {}

impl Parser {
    /// Construct a new parser.
    pub fn new() -> (r: Self) {
        Parser {  }
    }

    /// Parse the expressions that follow, as long as the class of the next
    /// token binds more strongly than `precedence`.
    pub fn parse_tokens(&self, tokenizer: &mut Tokenizer, precedence: usize) -> (output: Vec<
        Expression,
    >)
        ensures
            final(tokenizer)@.tokens == old(tokenizer)@.tokens,
            (expression_views(output@), final(tokenizer)@.index as int) == sequence(
                old(tokenizer)@.tokens,
                old(tokenizer)@.index as int,
                precedence as nat,
            ),
        decreases old(tokenizer)@.remaining(), 4int,
    {
        let ghost start = tokenizer@;
        let mut output: Vec<Expression> = Vec::new();
        proof {
            assert(expression_views(output@) + sequence(
                start.tokens,
                start.index as int,
                precedence as nat,
            ).0 =~= sequence(start.tokens, start.index as int, precedence as nat).0);
        }
        loop
            invariant_except_break
                sequence(start.tokens, start.index as int, precedence as nat) == (
                    expression_views(output@) + sequence(
                        start.tokens,
                        tokenizer@.index as int,
                        precedence as nat,
                    ).0,
                    sequence(start.tokens, tokenizer@.index as int, precedence as nat).1,
                ),
            invariant
                start == old(tokenizer)@,
                tokenizer@.tokens == start.tokens,
                start.index <= tokenizer@.index,
            ensures
                sequence(start.tokens, start.index as int, precedence as nat) == (
                    expression_views(output@),
                    tokenizer@.index as int,
                ),
            decreases tokenizer@.remaining(),
        {
            let ghost at = tokenizer@.index as int;
            let ghost before = output@;
            let goes_on = match tokenizer.peek() {
                Some(t) => t.get_precedence() > precedence,
                None => false,
            };
            if !goes_on {
                proof {
                    assert(expression_views(before) + Seq::<ExpressionView>::empty()
                        =~= expression_views(before));
                }
                break ;
            }
            let expression = self.parse_next(tokenizer);
            proof {
                lemma_expression_at(start.tokens, at);
                let rest = sequence(start.tokens, tokenizer@.index as int, precedence as nat).0;
                assert(expression_views(before.push(expression)) =~= expression_views(
                    before,
                ).push(expression@));
                assert(expression_views(before) + (seq![expression@] + rest) =~= expression_views(
                    before,
                ).push(expression@) + rest);
            }
            output.push(expression);
        }
        output
    }

    /// Parse the next expression out of the tokenizer: its first token
    /// chooses the parselet. At the end of the input there is none.
    pub fn parse_next(&self, tokenizer: &mut Tokenizer) -> (e: Expression)
        ensures
            final(tokenizer)@.tokens == old(tokenizer)@.tokens,
            (e@, final(tokenizer)@.index as int) == expression_at(
                old(tokenizer)@.tokens,
                old(tokenizer)@.index as int,
            ),
        decreases old(tokenizer)@.remaining(), 3int,
    {
        let token = match tokenizer.next() {
            Some(t) => t,
            None => {
                return Expression::Error(BraceError::UnexpectedEof);
            },
        };
        match token.get_class() {
            TokenClass::Alphanumeric => (AlphanumericParselet).parse(self, tokenizer, &token),
            TokenClass::Control => (ControlParselet).parse(self, tokenizer, &token),
            TokenClass::Hash => (HashParselet).parse(self, tokenizer, &token),
            TokenClass::Newline => (NewlineParselet).parse(self, tokenizer, &token),
            TokenClass::BeginParagraph => (ParagraphParselet).parse(self, tokenizer, &token),
            // No parselet available
            class => Expression::Error(BraceError::NoParselet(class)),
        }
    }

    /// Parse a whole page.
    pub fn parse(&self, input: String) -> (output: Vec<Expression>)
        ensures
            expression_views(output@) == parsed(lex(input@)),
    {
        let mut tokenizer = Tokenizer::new(input);
        self.parse_tokens(&mut tokenizer, 0)
    }
}

} // verus!
