//! What holds of the grammar on every sequence of tokens.

use vstd::prelude::*;
use crate::error::ParseErrorView;
use crate::expression::ExpressionView;
use crate::grammar::{
    argument_pattern,
    arguments,
    arity,
    conforms,
    construct,
    emphasis_marker,
    expression_at,
    expressions_from,
    lemma_construct,
    lemma_expression_at,
    lemma_first_miss,
    lemma_miss_next,
    link_pattern,
    miss_error,
    miss_next,
    paragraph,
    paragraph_text,
    parsed,
    text_pattern,
};
use crate::text::trimmed;
use crate::token::{TokenClass, TokenView};

verus! {

/// Whether an expression can stand inside a paragraph: it is no error, no
/// paragraph and no newline.
pub open spec fn stands_inline(e: ExpressionView) -> bool {
    !(e is Error) && !(e is Paragraph) && !(e is Newline)
}

/// Whether every expression of a list can stand inside a paragraph.
pub open spec fn all_inline(l: Seq<ExpressionView>) -> bool {
    forall|i: int| 0 <= i < l.len() ==> stands_inline(#[trigger] l[i])
}

/// Whether an expression is flat: if it is a paragraph, all that it holds
/// can stand inside a paragraph.
pub open spec fn flat(e: ExpressionView) -> bool {
    e matches ExpressionView::Paragraph(l) ==> all_inline(l)
}

/// Whether the heading that starts at `pos` is well formed: one to six
/// hashes, then a text.
pub open spec fn heading_fits(tokens: Seq<TokenView>, pos: int) -> bool {
    conforms(tokens, pos + 1, text_pattern()) && 1 <= tokens[pos].value.len() <= 6
}

/// Whether the emphasis that starts at `pos` is well formed: a known marker,
/// a text, and the same marker again.
pub open spec fn emphasis_fits(tokens: Seq<TokenView>, pos: int) -> bool {
    &&& emphasis_marker(tokens[pos].value)
    &&& pos + 2 < tokens.len()
    &&& tokens[pos + 1].class == TokenClass::Paragraph
    &&& tokens[pos + 2].value == tokens[pos].value
}

/// Whether the arguments from `pos` on are well formed for the control
/// sequence `name`, of which `count` arguments stand before `pos`: each is a
/// text in brackets, and there are as many as `name` takes.
pub open spec fn arguments_fit(tokens: Seq<TokenView>, pos: int, name: Seq<char>, count: nat) -> bool
    decreases tokens.len() - pos,
{
    if 0 <= pos < tokens.len() && tokens[pos].class == TokenClass::OpenSquare {
        conforms(tokens, pos, argument_pattern()) && pos + 3 <= tokens.len() && arguments_fit(
            tokens,
            pos + 3,
            name,
            count + 1,
        )
    } else {
        arity(name) == Some(count)
    }
}

/// Whether the control sequence that starts at `pos` is well formed.
pub open spec fn control_fits(tokens: Seq<TokenView>, pos: int) -> bool {
    conforms(tokens, pos + 1, text_pattern()) && arguments_fit(
        tokens,
        pos + 2,
        trimmed(tokens[pos + 1].value),
        0,
    )
}

/// Whether the construct that starts at `pos` with a token of any class but
/// text is well formed. A closing bracket and a parenthesis start none.
pub open spec fn construct_fits(tokens: Seq<TokenView>, pos: int) -> bool {
    match tokens[pos].class {
        TokenClass::Hashes => heading_fits(tokens, pos),
        TokenClass::Newline => true,
        TokenClass::Menu => true,
        TokenClass::OpenSquare => conforms(tokens, pos + 1, link_pattern()),
        TokenClass::Emphasis => emphasis_fits(tokens, pos),
        TokenClass::Control => control_fits(tokens, pos),
        _ => false,
    }
}

/// Whether what is left of a paragraph from `pos` on is well formed: every
/// construct in it is.
pub open spec fn paragraph_fits(tokens: Seq<TokenView>, pos: int) -> bool
    decreases tokens.len() - pos,
{
    if !(0 <= pos < tokens.len()) {
        true
    } else if tokens[pos].class == TokenClass::Newline {
        true
    } else if paragraph_text(tokens[pos].class) {
        paragraph_fits(tokens, pos + 1)
    } else {
        construct_fits(tokens, pos) && (pos < construct(tokens, pos).1 <= tokens.len()
            ==> paragraph_fits(tokens, construct(tokens, pos).1))
    }
}

/// Whether the expression that starts at `pos` is well formed.
pub open spec fn well_formed_at(tokens: Seq<TokenView>, pos: int) -> bool {
    if tokens[pos].class == TokenClass::Paragraph {
        paragraph_fits(tokens, pos + 1)
    } else {
        construct_fits(tokens, pos)
    }
}

/// Whether an error tells of a token that was missing or of another class
/// than the grammar asks for, and whether the reading stopped at that place:
/// at the end of the input, or behind a token of another class.
pub open spec fn points_at_miss(tokens: Seq<TokenView>, e: ExpressionView, next: int) -> bool {
    match e {
        ExpressionView::Error(ParseErrorView::UnexpectedEof) => next == tokens.len(),
        ExpressionView::Error(ParseErrorView::ExpectedToken(c)) => 0 < next <= tokens.len()
            && tokens[next - 1].class != c,
        _ => true,
    }
}

/// A pattern that the tokens do not conform to ends in an error at the first
/// miss.
proof fn lemma_miss_point(tokens: Seq<TokenView>, pos: int, pattern: Seq<TokenClass>)
    requires
        0 <= pos <= tokens.len(),
        !conforms(tokens, pos, pattern),
    ensures
        points_at_miss(
            tokens,
            ExpressionView::Error(miss_error(tokens, pos, pattern)),
            miss_next(tokens, pos, pattern),
        ),
        pos <= miss_next(tokens, pos, pattern) <= tokens.len(),
{
    lemma_first_miss(tokens, pos, pattern, 0);
    lemma_miss_next(tokens, pos, pattern);
}

/// The arguments of a control sequence are in error exactly where they are
/// not well formed, and an error points at its place.
proof fn lemma_arguments_error(
    tokens: Seq<TokenView>,
    pos: int,
    name: Seq<char>,
    values: Seq<Seq<char>>,
)
    requires
        0 <= pos <= tokens.len(),
    ensures
        arguments(tokens, pos, name, values).0 is Error <==> !arguments_fit(
            tokens,
            pos,
            name,
            values.len(),
        ),
        points_at_miss(
            tokens,
            arguments(tokens, pos, name, values).0,
            arguments(tokens, pos, name, values).1,
        ),
        stands_inline(arguments(tokens, pos, name, values).0) || arguments(tokens, pos, name, values).0
            is Error,
    decreases tokens.len() - pos,
{
    if pos < tokens.len() && tokens[pos].class == TokenClass::OpenSquare {
        lemma_miss_next(tokens, pos, argument_pattern());
        if conforms(tokens, pos, argument_pattern()) {
            lemma_arguments_error(
                tokens,
                pos + 3,
                name,
                values.push(trimmed(tokens[pos + 1].value)),
            );
        } else {
            lemma_miss_point(tokens, pos, argument_pattern());
        }
    }
}

/// A construct is in error exactly where it is not well formed; an error
/// points at its place; and a construct that is no error and does not start
/// with a newline can stand inside a paragraph.
pub proof fn lemma_construct_error(tokens: Seq<TokenView>, pos: int)
    requires
        0 <= pos < tokens.len(),
        tokens[pos].class != TokenClass::Paragraph,
    ensures
        construct(tokens, pos).0 is Error <==> !construct_fits(tokens, pos),
        points_at_miss(tokens, construct(tokens, pos).0, construct(tokens, pos).1),
        tokens[pos].class != TokenClass::Newline ==> stands_inline(construct(tokens, pos).0)
            || construct(tokens, pos).0 is Error,
{
    lemma_construct(tokens, pos);
    match tokens[pos].class {
        TokenClass::Hashes => {
            if !conforms(tokens, pos + 1, text_pattern()) {
                lemma_miss_point(tokens, pos + 1, text_pattern());
            }
        },
        TokenClass::OpenSquare => {
            if !conforms(tokens, pos + 1, link_pattern()) {
                lemma_miss_point(tokens, pos + 1, link_pattern());
            }
        },
        TokenClass::Control => {
            if !conforms(tokens, pos + 1, text_pattern()) {
                lemma_miss_point(tokens, pos + 1, text_pattern());
            } else {
                lemma_miss_next(tokens, pos + 1, text_pattern());
                lemma_arguments_error(
                    tokens,
                    pos + 2,
                    trimmed(tokens[pos + 1].value),
                    Seq::empty(),
                );
            }
        },
        _ => {},
    }
}

/// A paragraph gives way to an error exactly where what it holds is not
/// well formed; the error points at its place; and a paragraph holds nothing
/// but what can stand inside one.
pub proof fn lemma_paragraph_error(tokens: Seq<TokenView>, pos: int, content: Seq<ExpressionView>)
    requires
        0 <= pos <= tokens.len(),
        all_inline(content),
    ensures
        paragraph(tokens, pos, content).0 is Error <==> !paragraph_fits(tokens, pos),
        points_at_miss(tokens, paragraph(tokens, pos, content).0, paragraph(tokens, pos, content).1),
        paragraph(tokens, pos, content).0 is Error || paragraph(tokens, pos, content).0
            is Paragraph,
        flat(paragraph(tokens, pos, content).0),
    decreases tokens.len() - pos,
{
    if pos < tokens.len() && tokens[pos].class != TokenClass::Newline {
        if paragraph_text(tokens[pos].class) {
            let more = content.push(ExpressionView::Text(tokens[pos].value));
            assert(all_inline(more));
            lemma_paragraph_error(tokens, pos + 1, more);
        } else {
            lemma_construct(tokens, pos);
            lemma_construct_error(tokens, pos);
            let (inner, next) = construct(tokens, pos);
            if !(inner is Error) {
                let more = content.push(inner);
                assert(all_inline(more));
                lemma_paragraph_error(tokens, next, more);
            }
        }
    }
}

/// No error comes of well-formed input, and every error comes of input that
/// is not well formed: the expression that starts at `pos` is an error exactly
/// where the tokens from `pos` on do not match the grammar. An error that
/// tells of a missing or mismatched token stands where the reading stopped.
/// No expression holds an error inside it.
pub proof fn lemma_expression_error(tokens: Seq<TokenView>, pos: int)
    requires
        0 <= pos < tokens.len(),
    ensures
        expression_at(tokens, pos).0 is Error <==> !well_formed_at(tokens, pos),
        points_at_miss(tokens, expression_at(tokens, pos).0, expression_at(tokens, pos).1),
        flat(expression_at(tokens, pos).0),
{
    if tokens[pos].class == TokenClass::Paragraph {
        let content = seq![ExpressionView::Text(tokens[pos].value)];
        assert(all_inline(content));
        lemma_paragraph_error(tokens, pos + 1, content);
    } else {
        lemma_construct_error(tokens, pos);
        lemma_construct(tokens, pos);
    }
}

/// The expressions from `pos` on are those that start at `pos`, at the end
/// of the first, and so on.
proof fn lemma_expressions_from(tokens: Seq<TokenView>, pos: int, i: int)
    requires
        0 <= pos <= tokens.len(),
        0 <= i < expressions_from(tokens, pos).len(),
    ensures
        exists|at: int|
            pos <= at < tokens.len() && expressions_from(tokens, pos)[i] == (
            #[trigger] expression_at(tokens, at)).0,
    decreases tokens.len() - pos,
{
    lemma_expression_at(tokens, pos);
    if i > 0 {
        let next = expression_at(tokens, pos).1;
        let rest = expressions_from(tokens, next);
        assert(expressions_from(tokens, pos)[i] == rest[i - 1]);
        lemma_expressions_from(tokens, next, i - 1);
    }
}

/// Of every page: each error in the list that the parser returns stands for
/// a place in the tokens where the grammar is not matched, and no error stands
/// anywhere but in that list.
pub proof fn lemma_parsed_errors(tokens: Seq<TokenView>)
    ensures
        forall|i: int|
            0 <= i < parsed(tokens).len() && (#[trigger] parsed(tokens)[i]) is Error ==> exists|
                at: int,
            |
                0 <= at < tokens.len() && parsed(tokens)[i] == (#[trigger] expression_at(
                    tokens,
                    at,
                )).0 && !well_formed_at(tokens, at) && points_at_miss(
                    tokens,
                    parsed(tokens)[i],
                    expression_at(tokens, at).1,
                ),
        forall|i: int| 0 <= i < parsed(tokens).len() ==> flat(#[trigger] parsed(tokens)[i]),
{
    assert forall|i: int| 0 <= i < parsed(tokens).len() implies flat(#[trigger] parsed(tokens)[i])
        && (parsed(tokens)[i] is Error ==> exists|at: int|
        0 <= at < tokens.len() && parsed(tokens)[i] == (#[trigger] expression_at(tokens, at)).0
            && !well_formed_at(tokens, at) && points_at_miss(
            tokens,
            parsed(tokens)[i],
            expression_at(tokens, at).1,
        )) by {
        lemma_expressions_from(tokens, 0, i);
        let at = choose|at: int|
            0 <= at < tokens.len() && expressions_from(tokens, 0)[i] == (
            #[trigger] expression_at(tokens, at)).0;
        lemma_expression_error(tokens, at);
    }
}

/// Whether the tokens from `pos` on are well formed: the expression that
/// starts at `pos` is, and so are those behind it.
pub open spec fn well_formed_from(tokens: Seq<TokenView>, pos: int) -> bool
    decreases tokens.len() - pos,
{
    if !(0 <= pos < tokens.len()) {
        true
    } else {
        well_formed_at(tokens, pos) && (pos < expression_at(tokens, pos).1 <= tokens.len()
            ==> well_formed_from(tokens, expression_at(tokens, pos).1))
    }
}

/// The expressions from `pos` on hold no error exactly where the tokens from
/// `pos` on are well formed.
pub proof fn lemma_well_formed_from(tokens: Seq<TokenView>, pos: int)
    requires
        0 <= pos <= tokens.len(),
    ensures
        well_formed_from(tokens, pos) <==> (forall|i: int|
            0 <= i < expressions_from(tokens, pos).len() ==> !((#[trigger] expressions_from(
                tokens,
                pos,
            )[i]) is Error)),
    decreases tokens.len() - pos,
{
    if pos < tokens.len() {
        lemma_expression_at(tokens, pos);
        lemma_expression_error(tokens, pos);
        let (first, next) = expression_at(tokens, pos);
        let all = expressions_from(tokens, pos);
        let rest = expressions_from(tokens, next);
        lemma_well_formed_from(tokens, next);
        assert(all == seq![first] + rest);
        assert(all[0] == first);
        if well_formed_from(tokens, pos) {
            assert forall|i: int| 0 <= i < all.len() implies !((#[trigger] all[i]) is Error) by {
                if i > 0 {
                    assert(all[i] == rest[i - 1]);
                }
            }
        }
        if forall|i: int| 0 <= i < all.len() ==> !((#[trigger] all[i]) is Error) {
            assert forall|i: int| 0 <= i < rest.len() implies !((#[trigger] rest[i]) is Error) by {
                assert(rest[i] == all[i + 1]);
            }
        }
    }
}

/// A page holds no error exactly where its tokens match the grammar from
/// the first to the last.
pub proof fn lemma_well_formed_page(tokens: Seq<TokenView>)
    ensures
        well_formed_from(tokens, 0) <==> (forall|i: int|
            0 <= i < parsed(tokens).len() ==> !((#[trigger] parsed(tokens)[i]) is Error)),
{
    lemma_well_formed_from(tokens, 0);
}

} // verus!
