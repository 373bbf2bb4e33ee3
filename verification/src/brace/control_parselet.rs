//! Control parselet.

use vstd::prelude::*;
use vstd::string::*;
use crate::brace::error::BraceError;
use crate::brace::expression::{
    expression_views,
    find_error,
    lemma_list_view,
    Expression,
    ExpressionView,
};
use crate::brace::grammar::{
    assembled,
    control,
    fits,
    groups,
    lemma_list_group,
    lemma_word_group,
    list_group,
    signature,
    wrapped,
    wraps,
    ArgKind,
    ArgView,
};
use crate::brace::parser::Parser;
use crate::brace::prefix_parselet::PrefixParselet;
use crate::brace::tokenizer::{Token, TokenClass, TokenView, Tokenizer};
use crate::text::same_text;

verus! {

/// Parselet for control sequences.
pub struct ControlParselet;

/// An argument of a control sequence.
#[derive(Debug)]
pub enum Arg {
    /// Expressions in braces.
    List(Vec<Expression>),
    /// One text in braces.
    Word(String),
}

impl View for Arg {
    type V = ArgView;

    open spec fn view(&self) -> ArgView {
        match self {
            Arg::List(l) => ArgView::List(expression_views(l@)),
            Arg::Word(s) => ArgView::Word(s@),
        }
    }
}

/// The views of a list of arguments, in order.
pub open spec fn arg_views(args: Seq<Arg>) -> Seq<ArgView> {
    args.map_values(|a: Arg| a@)
}

/// The arguments that a control sequence takes, if its name is known.
pub fn signature_of(command: &str) -> (r: Option<Vec<ArgKind>>)
    ensures
        match r {
            Some(kinds) => signature(command@) == Some(kinds@),
            None => signature(command@) is None,
        },
{
    let kinds = if same_text(command, "href") {
        vec![ArgKind::List, ArgKind::Word]
    } else if same_text(command, "code") {
        vec![ArgKind::Word, ArgKind::Word]
    } else if same_text(command, "tile") {
        vec![ArgKind::List, ArgKind::Word, ArgKind::Word]
    } else if same_text(command, "tiledesc") {
        vec![ArgKind::List, ArgKind::List, ArgKind::Word, ArgKind::Word]
    } else if same_text(command, "img") {
        vec![ArgKind::Word, ArgKind::Word, ArgKind::Word]
    } else if same_text(command, "floating") {
        vec![ArgKind::Word, ArgKind::Word]
    } else if same_text(command, "block") {
        vec![ArgKind::List, ArgKind::List]
    } else if same_text(command, "pagename") {
        vec![ArgKind::Word]
    } else if same_text(command, "footnotes") || same_text(command, "menu") || same_text(
        command,
        "date",
    ) {
        Vec::new()
    } else if is_wrapper(command) {
        vec![ArgKind::List]
    } else {
        return None;
    };
    proof {
        assert(signature(command@)->Some_0 =~= kinds@);
    }
    Some(kinds)
}

/// Whether a control sequence wraps one list of expressions.
fn is_wrapper(command: &str) -> (b: bool)
    ensures
        b == wraps(command@),
{
    same_text(command, "bold") || same_text(command, "it") || same_text(command, "header")
        || same_text(command, "footer") || same_text(command, "footnote") || same_text(
        command,
        "topblock",
    ) || same_text(command, "subtitle") || same_text(command, "subsubtitle") || same_text(
        command,
        "tiles",
    )
}

/// Take the last argument, a list.
fn take_list(args: &mut Vec<Arg>) -> (l: Vec<Expression>)
    requires
        old(args).len() > 0,
        old(args)@.last() is List,
    ensures
        final(args)@ == old(args)@.drop_last(),
        expression_views(l@) == old(args)@.last()@->List_0,
{
    match args.pop() {
        Some(Arg::List(l)) => l,
        _ => vstd::pervasive::unreached(),
    }
}

/// Take the last argument, a text.
fn take_word(args: &mut Vec<Arg>) -> (w: String)
    requires
        old(args).len() > 0,
        old(args)@.last() is Word,
    ensures
        final(args)@ == old(args)@.drop_last(),
        w@ == old(args)@.last()@->Word_0,
{
    match args.pop() {
        Some(Arg::Word(w)) => w,
        _ => vstd::pervasive::unreached(),
    }
}

/// The expression of a control sequence that wraps one list.
fn wrap(command: &str, inside: Vec<Expression>) -> (e: Expression)
    requires
        wraps(command@),
    ensures
        e@ == wrapped(command@, expression_views(inside@)),
{
    proof {
        lemma_list_view(inside);
    }
    if same_text(command, "bold") {
        Expression::Bold(inside)
    } else if same_text(command, "it") {
        Expression::Italic(inside)
    } else if same_text(command, "header") {
        Expression::Header(inside)
    } else if same_text(command, "footer") {
        Expression::Footer(inside)
    } else if same_text(command, "footnote") {
        Expression::Footnote(inside)
    } else if same_text(command, "topblock") {
        Expression::Topblock(inside)
    } else if same_text(command, "subtitle") {
        Expression::Subtitle(inside)
    } else if same_text(command, "subsubtitle") {
        Expression::Subsubtitle(inside)
    } else {
        Expression::Tiles(inside)
    }
}

/// The expression of a control sequence, from its name and its arguments,
/// which are those that the name takes.
pub fn assemble(command: &str, args: Vec<Arg>) -> (e: Expression)
    requires
        signature(command@) is Some,
        fits(arg_views(args@), signature(command@)->Some_0),
    ensures
        e@ == assembled(command@, arg_views(args@)),
{
    let ghost all = arg_views(args@);
    let mut args = args;
    proof {
        assert(forall|i: int| 0 <= i < all.len() ==> all[i] == args@[i]@);
    }
    if same_text(command, "href") {
        assert(all[1] is Word && all[0] is List);
        let href = take_word(&mut args);
        let name = take_list(&mut args);
        proof {
            lemma_list_view(name);
        }
        Expression::Hyperlink { name, href }
    } else if same_text(command, "code") {
        assert(all[1] is Word && all[0] is Word);
        let code = take_word(&mut args);
        let language = take_word(&mut args);
        Expression::Code { language, code }
    } else if same_text(command, "tile") {
        assert(all[2] is Word && all[1] is Word && all[0] is List);
        let href = take_word(&mut args);
        let img = take_word(&mut args);
        let name = take_list(&mut args);
        proof {
            lemma_list_view(name);
        }
        Expression::Tile { name, img, href }
    } else if same_text(command, "tiledesc") {
        assert(all[3] is Word && all[2] is Word && all[1] is List && all[0] is List);
        let href = take_word(&mut args);
        let img = take_word(&mut args);
        let desc = take_list(&mut args);
        let name = take_list(&mut args);
        proof {
            lemma_list_view(name);
            lemma_list_view(desc);
        }
        Expression::TileDesc { name, desc, img, href }
    } else if same_text(command, "img") {
        assert(all[2] is Word && all[1] is Word && all[0] is Word);
        let scale = take_word(&mut args);
        let alt = take_word(&mut args);
        let img = take_word(&mut args);
        Expression::Image { img, alt, scale }
    } else if same_text(command, "floating") {
        assert(all[1] is Word && all[0] is Word);
        let alt = take_word(&mut args);
        let img = take_word(&mut args);
        Expression::FloatingImage { img, alt }
    } else if same_text(command, "block") {
        assert(all[1] is List && all[0] is List);
        let citation = take_list(&mut args);
        let quote = take_list(&mut args);
        proof {
            lemma_list_view(quote);
            lemma_list_view(citation);
        }
        Expression::BlockQuote { quote, citation }
    } else if same_text(command, "pagename") {
        assert(all[0] is Word);
        Expression::Pagename(take_word(&mut args))
    } else if same_text(command, "footnotes") {
        Expression::Footnotes
    } else if same_text(command, "menu") {
        Expression::Menu
    } else if same_text(command, "date") {
        Expression::Date
    } else {
        assert(all[0] is List);
        let inside = take_list(&mut args);
        wrap(command, inside)
    }
}

/// Read the arguments of a control sequence, of the given kinds.
pub fn read_groups(parser: &Parser, tokenizer: &mut Tokenizer, kinds: &Vec<ArgKind>) -> (r: Result<
    Vec<Arg>,
    BraceError,
>)
    ensures
        final(tokenizer)@.tokens == old(tokenizer)@.tokens,
        match r {
            Ok(args) => groups(
                old(tokenizer)@.tokens,
                old(tokenizer)@.index as int,
                kinds@,
                0,
                Seq::empty(),
            ) == (Ok::<Seq<ArgView>, crate::brace::error::BraceErrorView>(arg_views(args@)), final(tokenizer)@.index as int)
                && fits(arg_views(args@), kinds@),
            Err(e) => groups(
                old(tokenizer)@.tokens,
                old(tokenizer)@.index as int,
                kinds@,
                0,
                Seq::empty(),
            ) == (Err::<Seq<ArgView>, crate::brace::error::BraceErrorView>(e@), final(tokenizer)@.index as int),
        },
    decreases old(tokenizer)@.remaining(), 6int,
{
    let ghost start = tokenizer@;
    let mut args: Vec<Arg> = Vec::new();
    proof {
        assert(arg_views(args@) =~= Seq::<ArgView>::empty());
    }
    let mut k: usize = 0;
    while k < kinds.len()
        invariant
            start == old(tokenizer)@,
            tokenizer@.tokens == start.tokens,
            start.index <= tokenizer@.index,
            k <= kinds.len(),
            args.len() == k,
            forall|i: int| 0 <= i < k ==> ((#[trigger] arg_views(args@)[i]) is List <==> kinds@[i] == ArgKind::List),
            groups(start.tokens, start.index as int, kinds@, 0, Seq::empty()) == groups(
                start.tokens,
                tokenizer@.index as int,
                kinds@,
                k as int,
                arg_views(args@),
            ),
        decreases kinds.len() - k,
    {
        let ghost at = tokenizer@.index as int;
        let ghost before = args@;
        let arg = match kinds[k] {
            ArgKind::List => {
                match tokenizer.discard(TokenClass::OpenCurly) {
                    Ok(_) => {},
                    Err(e) => {
                        return Err(e);
                    },
                }
                let inside = parser.parse_tokens(tokenizer, TokenClass::OpenCurly.get_precedence());
                if let Some(e) = find_error(&inside) {
                    proof {
                        assert(list_group(start.tokens, at).0 == Err::<
                            Seq<ExpressionView>,
                            crate::brace::error::BraceErrorView,
                        >(e@));
                        assert(groups(start.tokens, at, kinds@, k as int, arg_views(before)).0
                            == Err::<Seq<ArgView>, crate::brace::error::BraceErrorView>(e@));
                    }
                    return Err(e);
                }
                match tokenizer.discard(TokenClass::CloseCurly) {
                    Ok(_) => {},
                    Err(e) => {
                        proof {
                            assert(list_group(start.tokens, at).0 == Err::<
                                Seq<ExpressionView>,
                                crate::brace::error::BraceErrorView,
                            >(e@));
                        }
                        return Err(e);
                    },
                }
                proof {
                    lemma_list_group(start.tokens, at);
                }
                Arg::List(inside)
            },
            ArgKind::Word => {
                match tokenizer.discard(TokenClass::OpenCurly) {
                    Ok(_) => {},
                    Err(e) => {
                        return Err(e);
                    },
                }
                let word = match tokenizer.discard(TokenClass::Alphanumeric) {
                    Ok(w) => w,
                    Err(e) => {
                        return Err(e);
                    },
                };
                match tokenizer.discard(TokenClass::CloseCurly) {
                    Ok(_) => {},
                    Err(e) => {
                        return Err(e);
                    },
                }
                proof {
                    lemma_word_group(start.tokens, at);
                }
                Arg::Word(word)
            },
        };
        proof {
            assert(arg_views(before.push(arg)) =~= arg_views(before).push(arg@));
        }
        args.push(arg);
        k += 1;
    }
    Ok(args)
}

impl PrefixParselet for ControlParselet {
    open spec fn parses(&self, tokens: Seq<TokenView>, pos: int, token: TokenView) -> (
        ExpressionView,
        int,
    ) {
        control(tokens, pos)
    }

    /// Reads the name of a control sequence and the arguments that the name
    /// takes.
    fn parse(&self, parser: &Parser, tokenizer: &mut Tokenizer, _token: &Token) -> (e: Expression)
        decreases old(tokenizer)@.remaining(), 7int,
    {
        let command = match tokenizer.discard(TokenClass::Alphanumeric) {
            Ok(c) => c,
            Err(e) => {
                return Expression::Error(e);
            },
        };
        let kinds = match signature_of(command.as_str()) {
            Some(k) => k,
            None => {
                return Expression::Error(BraceError::UnrecognizedControlSequence(command));
            },
        };
        match read_groups(parser, tokenizer, &kinds) {
            Ok(args) => assemble(command.as_str(), args),
            Err(e) => Expression::Error(e),
        }
    }
}

} // verus!
