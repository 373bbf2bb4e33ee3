//! Menu parselet.

use vstd::prelude::*;
use crate::expression::{Expression, ExpressionView};
use crate::parselet::Parselet;
use crate::parser::Parser;
use crate::token::{Token, TokenView};
use crate::tokenizer::Tokenizer;

verus! {

/// Parselet for menus.
pub struct MenuParselet {}

impl Parselet for MenuParselet {
    open spec fn parses(&self, tokens: Seq<TokenView>, pos: int, token: TokenView) -> (
        ExpressionView,
        int,
    ) {
        (ExpressionView::Menu, pos)
    }

    /// The menu marker stands for itself; nothing more is read.
    fn parse(&self, _parser: &Parser, _tokenizer: &mut Tokenizer, _token: &Token) -> (e:
        Expression) {
        Expression::Menu
    }
}

} // verus!
