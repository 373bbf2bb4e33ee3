//! What holds of the brace grammar on every sequence of tokens.

use vstd::prelude::*;
use crate::brace::expression::{first_error, ExpressionView};
use crate::brace::grammar::{
    control,
    expression_at,
    fits,
    groups,
    lemma_expression_at,
    lemma_list_group,
    lemma_word_group,
    list_group,
    sequence,
    signature,
    word_group,
    ArgKind,
    ArgView,
};
use crate::brace::tokenizer::{discarded, TokenClass, TokenView};

verus! {

/// The lists of expressions that stand directly inside an expression.
pub open spec fn lists_in(e: ExpressionView) -> Seq<Seq<ExpressionView>> {
    match e {
        ExpressionView::Hyperlink { name, href } => seq![name],
        ExpressionView::Tile { name, img, href } => seq![name],
        ExpressionView::TileDesc { name, desc, img, href } => seq![name, desc],
        ExpressionView::BlockQuote { quote, citation } => seq![quote, citation],
        ExpressionView::Bold(l) => seq![l],
        ExpressionView::Italic(l) => seq![l],
        ExpressionView::Header(l) => seq![l],
        ExpressionView::Footer(l) => seq![l],
        ExpressionView::Footnote(l) => seq![l],
        ExpressionView::Topblock(l) => seq![l],
        ExpressionView::Subtitle(l) => seq![l],
        ExpressionView::Subsubtitle(l) => seq![l],
        ExpressionView::Tiles(l) => seq![l],
        ExpressionView::Title(l) => seq![l],
        ExpressionView::Heading(l) => seq![l],
        ExpressionView::Subheading(l) => seq![l],
        ExpressionView::Paragraph(l) => seq![l],
        _ => Seq::empty(),
    }
}

/// Whether no error stands directly inside an expression.
pub open spec fn error_free(e: ExpressionView) -> bool {
    forall|i: int| 0 <= i < lists_in(e).len() ==> first_error(#[trigger] lists_in(e)[i]) is None
}

/// Whether no list among some arguments holds an error.
pub open spec fn clean(args: Seq<ArgView>) -> bool {
    forall|i: int| 0 <= i < args.len() && (#[trigger] args[i]) is List ==> first_error(
        args[i]->List_0,
    ) is None
}

/// Whether the first arguments are of the kinds that a signature starts with.
pub open spec fn fits_so_far(args: Seq<ArgView>, kinds: Seq<ArgKind>) -> bool {
    &&& args.len() <= kinds.len()
    &&& forall|i: int|
        0 <= i < args.len() ==> ((#[trigger] args[i]) is List <==> kinds[i] == ArgKind::List)
}

/// The arguments that are read for a signature are of its kinds, and none
/// of them holds an error.
proof fn lemma_groups_clean(
    tokens: Seq<TokenView>,
    pos: int,
    kinds: Seq<ArgKind>,
    k: int,
    read: Seq<ArgView>,
)
    requires
        0 <= pos <= tokens.len(),
        k == read.len(),
        fits_so_far(read, kinds),
        clean(read),
    ensures
        groups(tokens, pos, kinds, k, read).0 matches Ok(args) ==> fits(args, kinds) && clean(
            args,
        ),
    decreases tokens.len() - pos,
{
    if 0 <= k < kinds.len() {
        if kinds[k] == ArgKind::List {
            lemma_list_group(tokens, pos);
            match list_group(tokens, pos) {
                (Ok(inside), next) => {
                    let more = read.push(ArgView::List(inside));
                    assert(first_error(inside) is None);
                    assert(fits_so_far(more, kinds));
                    assert(clean(more));
                    lemma_groups_clean(tokens, next, kinds, k + 1, more);
                },
                _ => {},
            }
        } else {
            lemma_word_group(tokens, pos);
            match word_group(tokens, pos) {
                (Ok(w), next) => {
                    let more = read.push(ArgView::Word(w));
                    assert(fits_so_far(more, kinds));
                    assert(clean(more));
                    lemma_groups_clean(tokens, next, kinds, k + 1, more);
                },
                _ => {},
            }
        }
    }
}

/// No error stands inside an expression: an error in the braces of a
/// control sequence, in a heading or in a paragraph takes the place of the
/// whole. So every error of a page stands in the list that the parser returns,
/// or takes the place of an expression inside another that was parsed the same
/// way.
pub proof fn lemma_error_free(tokens: Seq<TokenView>, pos: int)
    requires
        0 <= pos < tokens.len(),
    ensures
        error_free(expression_at(tokens, pos).0),
{
    let token = tokens[pos];
    match token.class {
        TokenClass::Control => {
            if discarded(tokens, pos + 1, TokenClass::Alphanumeric) is None {
                let command = tokens[pos + 1].value;
                if let Some(kinds) = signature(command) {
                    lemma_groups_clean(tokens, pos + 2, kinds, 0, Seq::empty());
                    match groups(tokens, pos + 2, kinds, 0, Seq::empty()) {
                        (Ok(args), next) => {
                            assert(forall|i: int|
                                0 <= i < args.len() && (#[trigger] args[i]) is List
                                    ==> first_error(args[i]->List_0) is None);
                            assert(error_free(control(tokens, pos + 1).0));
                        },
                        _ => {},
                    }
                }
            }
        },
        _ => {},
    }
}

/// Every expression of a sequence starts somewhere in the tokens.
proof fn lemma_sequence_at(tokens: Seq<TokenView>, pos: int, min: nat, i: int)
    requires
        0 <= pos <= tokens.len(),
        0 <= i < sequence(tokens, pos, min).0.len(),
    ensures
        exists|at: int|
            pos <= at < tokens.len() && sequence(tokens, pos, min).0[i] == (
            #[trigger] expression_at(tokens, at)).0,
    decreases tokens.len() - pos,
{
    lemma_expression_at(tokens, pos);
    if i > 0 {
        let next = expression_at(tokens, pos).1;
        let rest = sequence(tokens, next, min).0;
        assert(sequence(tokens, pos, min).0[i] == rest[i - 1]);
        lemma_sequence_at(tokens, next, min, i - 1);
    }
}

/// No expression of a sequence holds an error inside it.
pub proof fn lemma_sequence_error_free(tokens: Seq<TokenView>, pos: int, min: nat)
    requires
        0 <= pos <= tokens.len(),
    ensures
        forall|i: int|
            0 <= i < sequence(tokens, pos, min).0.len() ==> error_free(
                #[trigger] sequence(tokens, pos, min).0[i],
            ),
{
    assert forall|i: int| 0 <= i < sequence(tokens, pos, min).0.len() implies error_free(
        #[trigger] sequence(tokens, pos, min).0[i],
    ) by {
        lemma_sequence_at(tokens, pos, min, i);
        let at = choose|at: int|
            pos <= at < tokens.len() && sequence(tokens, pos, min).0[i] == (
            #[trigger] expression_at(tokens, at)).0;
        lemma_error_free(tokens, at);
    }
}

} // verus!
