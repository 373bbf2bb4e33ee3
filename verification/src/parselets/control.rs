//! Control sequence parselet.

use vstd::prelude::*;
use vstd::string::*;
use crate::error::ParseError;
use crate::expression::{Expression, ExpressionView};
use crate::grammar::{
    argument,
    argument_pattern,
    arguments,
    built,
    control,
    first_miss,
};
use crate::parselet::Parselet;
use crate::parser::Parser;
use crate::text::{same_text, texts, trim, trimmed};
use crate::token::{Token, TokenClass, TokenView};
use crate::tokenizer::Tokenizer;

verus! {

/// Parselet for control sequences.
pub struct ControlParselet {}

impl Parselet for ControlParselet {
    open spec fn parses(&self, tokens: Seq<TokenView>, pos: int, token: TokenView) -> (
        ExpressionView,
        int,
    ) {
        control(tokens, pos)
    }

    /// Reads the name of the control sequence and its bracketed arguments.
    fn parse(&self, _parser: &Parser, tokenizer: &mut Tokenizer, _token: &Token) -> (e:
        Expression) {
        proof {
            reveal_with_fuel(first_miss, 2);
        }
        let ghost start = tokenizer@;
        // Get control sequence type
        let ctrl = match tokenizer.expect(TokenClass::Paragraph) {
            Some(Some(t)) => trim(t.value.as_str()),
            Some(None) => {
                return Expression::Error(ParseError::ExpectedToken(TokenClass::Paragraph));
            },
            None => {
                return Expression::Error(ParseError::UnexpectedEof);
            },
        };
        // Initialize list of values
        let mut values: Vec<String> = Vec::new();
        proof {
            assert(texts(values@) =~= Seq::<Seq<char>>::empty());
        }
        // Parse each value
        loop
            invariant_except_break
                control(start.tokens, start.index as int) == arguments(
                    start.tokens,
                    tokenizer@.index as int,
                    ctrl@,
                    texts(values@),
                ),
            invariant
                start == old(tokenizer)@,
                tokenizer@.tokens == start.tokens,
                tokenizer@.index <= tokenizer@.tokens.len(),
            ensures
                control(start.tokens, start.index as int) == (
                    built(ctrl@, texts(values@)),
                    tokenizer@.index as int,
                ),
            decreases tokenizer@.remaining(),
        {
            let open = match tokenizer.peek() {
                Some(t) => t.class == TokenClass::OpenSquare,
                None => false,
            };
            if !open {
                break ;
            }
            let ghost at = tokenizer@.index as int;
            let ghost before = values@;
            // Parse the expression
            let expr = parse_square_expr(tokenizer);
            // Check if any errors occurred
            let string = match expr {
                Expression::Text(t) => t,
                _ => {
                    // This is an error, return it
                    return expr;
                },
            };
            proof {
                crate::grammar::lemma_miss_next(start.tokens, at, argument_pattern());
                assert(texts(before.push(string)) =~= texts(before).push(string@));
            }
            // Store the string
            values.push(string);
        }
        build_expr(ctrl.as_str(), values)
    }
}

/// Build a control sequence expression from a list of values.
pub fn build_expr(ctrl: &str, values: Vec<String>) -> (e: Expression)
    ensures
        e@ == built(ctrl@, texts(values@)),
{
    // How long should the list be?
    let len: usize = if same_text(ctrl, "wip") {
        1
    } else if same_text(ctrl, "image") {
        2
    } else if same_text(ctrl, "float") {
        2
    } else if same_text(ctrl, "notice") {
        1
    } else if same_text(ctrl, "tile") {
        4
    } else {
        return Expression::Error(ParseError::UnrecognizedControl(ctrl.to_owned()));
    };
    // Enforce list length
    if values.len() != len {
        return Expression::Error(
            ParseError::IncorrectArgumentCount {
                expected: len,
                actual: values.len(),
                control: ctrl.to_owned(),
            },
        );
    }
    if same_text(ctrl, "wip") {
        Expression::Wip(values[0].clone())
    } else if same_text(ctrl, "image") {
        Expression::Image { alt: values[0].clone(), href: values[1].clone() }
    } else if same_text(ctrl, "float") {
        Expression::FloatImage { alt: values[0].clone(), href: values[1].clone() }
    } else if same_text(ctrl, "notice") {
        Expression::Notice(values[0].clone())
    } else {
        Expression::Tile {
            title: values[0].clone(),
            description: values[1].clone(),
            href: values[2].clone(),
            image: values[3].clone(),
        }
    }
}

/// Parse a bracketed string into an expression: the text in the brackets,
/// trimmed, or the error.
pub fn parse_square_expr(tokenizer: &mut Tokenizer) -> (e: Expression)
    ensures
        final(tokenizer)@.tokens == old(tokenizer)@.tokens,
        (e@, final(tokenizer)@.index as int) == argument(
            old(tokenizer)@.tokens,
            old(tokenizer)@.index as int,
        ),
{
    proof {
        reveal_with_fuel(first_miss, 4);
    }
    // Consume opening square bracket
    match tokenizer.eat(TokenClass::OpenSquare) {
        Some(Some(_)) => {},
        Some(None) => {
            return Expression::Error(ParseError::ExpectedToken(TokenClass::OpenSquare));
        },
        None => {
            return Expression::Error(ParseError::UnexpectedEof);
        },
    }
    // Get value
    let value = match tokenizer.expect(TokenClass::Paragraph) {
        Some(Some(t)) => trim(t.value.as_str()),
        Some(None) => {
            return Expression::Error(ParseError::ExpectedToken(TokenClass::Paragraph));
        },
        None => {
            return Expression::Error(ParseError::UnexpectedEof);
        },
    };
    // Consume closing square bracket
    match tokenizer.eat(TokenClass::CloseSquare) {
        Some(Some(_)) => {},
        Some(None) => {
            return Expression::Error(ParseError::ExpectedToken(TokenClass::CloseSquare));
        },
        None => {
            return Expression::Error(ParseError::UnexpectedEof);
        },
    }
    Expression::Text(value)
}

} // verus!
