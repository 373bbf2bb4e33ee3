//! Paragraph parselet.

use vstd::prelude::*;
use vstd::string::*;
use crate::expression::{expression_views, lemma_paragraph_view, Expression, ExpressionView};
use crate::grammar::{lemma_construct, paragraph};
use crate::parselet::Parselet;
use crate::parser::Parser;
use crate::token::{Token, TokenClass, TokenView};
use crate::tokenizer::Tokenizer;

verus! {

/// Parselet for paragraphs.
pub struct ParagraphParselet {}

impl Parselet for ParagraphParselet {
    open spec fn parses(&self, tokens: Seq<TokenView>, pos: int, token: TokenView) -> (
        ExpressionView,
        int,
    ) {
        paragraph(tokens, pos, seq![ExpressionView::Text(token.value)])
    }

    /// Reads a paragraph behind its first text token `token`.
    fn parse(&self, parser: &Parser, tokenizer: &mut Tokenizer, token: &Token) -> (e: Expression)
        decreases old(tokenizer)@.remaining(), 1int,
    {
        let ghost start = tokenizer@;
        // Initialize list of expressions
        let mut output: Vec<Expression> = Vec::new();
        // Push the first token, since it's already been consumed
        output.push(Expression::Text(token.value.clone()));
        proof {
            assert(expression_views(output@) =~= seq![ExpressionView::Text(token@.value)]);
        }
        // Parse until we see a newline
        loop
            invariant
                start == old(tokenizer)@,
                tokenizer@.tokens == start.tokens,
                start.index <= tokenizer@.index,
                paragraph(start.tokens, start.index as int, seq![ExpressionView::Text(token@.value)])
                    == paragraph(
                    start.tokens,
                    tokenizer@.index as int,
                    expression_views(output@),
                ),
            decreases tokenizer@.remaining(),
        {
            let ghost at = tokenizer@.index as int;
            let ghost before = output@;
            let t = match tokenizer.peek() {
                Some(t) => t,
                None => {
                    // We never found the newline, but that's ok, we're at EOF
                    proof {
                        lemma_paragraph_view(output);
                    }
                    return Expression::Paragraph(output);
                },
            };
            // Is this a newline?
            if t.class == TokenClass::Newline {
                // Consume the newline
                let _ = tokenizer.next();
                proof {
                    lemma_paragraph_view(output);
                }
                return Expression::Paragraph(output);
            }
            // Parse raw text or another expression
            // Include parentheses

            if t.class == TokenClass::Paragraph || t.class == TokenClass::OpenParen || t.class
                == TokenClass::CloseParen {
                // Consume the text
                let _ = tokenizer.next();
                let text = Expression::Text(t.value.clone());
                proof {
                    assert(expression_views(before.push(text)) =~= expression_views(before).push(
                        text@,
                    ));
                }
                // Push the text to the paragraph
                output.push(text);
            } else {
                // Get the next expression out of the token stream
                let expr = parser.parse_next(tokenizer);
                proof {
                    lemma_construct(start.tokens, at);
                }
                // Return any errors, if found
                //
                // All errors must occur at the top level
                if let Expression::Error(_) = expr {
                    return expr;
                }
                proof {
                    assert(expression_views(before.push(expr)) =~= expression_views(before).push(
                        expr@,
                    ));
                }
                output.push(expr);
            }
        }
    }
}

} // verus!
