//! The expression tree of the brace grammar.

use vstd::prelude::*;
use crate::brace::error::{error_view, BraceError, BraceErrorView};

verus! {

/// One node of a page of the brace grammar.
#[derive(PartialEq, Debug)]
pub enum Expression {
    /// Plain text.
    Alphanumeric(String),
    /// `\href{name}{href}`
    Hyperlink { name: Vec<Expression>, href: String },
    /// `\code{language}{code}`
    Code { language: String, code: String },
    /// `\tile{name}{img}{href}`
    Tile { name: Vec<Expression>, img: String, href: String },
    /// `\tiledesc{name}{desc}{img}{href}`
    TileDesc { name: Vec<Expression>, desc: Vec<Expression>, img: String, href: String },
    /// `\img{img}{alt}{scale}`
    Image { img: String, alt: String, scale: String },
    /// `\floating{img}{alt}`
    FloatingImage { img: String, alt: String },
    /// `\bold{..}`
    Bold(Vec<Expression>),
    /// `\it{..}`
    Italic(Vec<Expression>),
    /// `\block{quote}{citation}`
    BlockQuote { quote: Vec<Expression>, citation: Vec<Expression> },
    /// `\header{..}`
    Header(Vec<Expression>),
    /// `\footer{..}`
    Footer(Vec<Expression>),
    /// `\footnote{..}`
    Footnote(Vec<Expression>),
    /// `\footnotes`
    Footnotes,
    /// `\topblock{..}`
    Topblock(Vec<Expression>),
    /// `\subtitle{..}`
    Subtitle(Vec<Expression>),
    /// `\subsubtitle{..}`
    Subsubtitle(Vec<Expression>),
    /// `\menu`
    Menu,
    /// `\date`
    Date,
    /// `\tiles{..}`
    Tiles(Vec<Expression>),
    /// `\pagename{name}`
    Pagename(String),
    /// One hash.
    Title(Vec<Expression>),
    /// Two hashes.
    Heading(Vec<Expression>),
    /// Three hashes.
    Subheading(Vec<Expression>),
    /// `~`
    Paragraph(Vec<Expression>),
    /// A run of line breaks.
    Newline,
    /// Parsing error.
    Error(BraceError),
}

/// An expression with its texts as sequences of characters.
pub enum ExpressionView {
    Alphanumeric(Seq<char>),
    Hyperlink { name: Seq<ExpressionView>, href: Seq<char> },
    Code { language: Seq<char>, code: Seq<char> },
    Tile { name: Seq<ExpressionView>, img: Seq<char>, href: Seq<char> },
    TileDesc {
        name: Seq<ExpressionView>,
        desc: Seq<ExpressionView>,
        img: Seq<char>,
        href: Seq<char>,
    },
    Image { img: Seq<char>, alt: Seq<char>, scale: Seq<char> },
    FloatingImage { img: Seq<char>, alt: Seq<char> },
    Bold(Seq<ExpressionView>),
    Italic(Seq<ExpressionView>),
    BlockQuote { quote: Seq<ExpressionView>, citation: Seq<ExpressionView> },
    Header(Seq<ExpressionView>),
    Footer(Seq<ExpressionView>),
    Footnote(Seq<ExpressionView>),
    Footnotes,
    Topblock(Seq<ExpressionView>),
    Subtitle(Seq<ExpressionView>),
    Subsubtitle(Seq<ExpressionView>),
    Menu,
    Date,
    Tiles(Seq<ExpressionView>),
    Pagename(Seq<char>),
    Title(Seq<ExpressionView>),
    Heading(Seq<ExpressionView>),
    Subheading(Seq<ExpressionView>),
    Paragraph(Seq<ExpressionView>),
    Newline,
    Error(BraceErrorView),
}

/// The view of an expression: the same tree, with every text as a sequence
/// of characters.
pub open spec fn view_of(e: Expression) -> ExpressionView
    decreases e,
{
    match e {
        Expression::Alphanumeric(s) => ExpressionView::Alphanumeric(s@),
        Expression::Hyperlink { name, href } => ExpressionView::Hyperlink {
            name: list_view(name),
            href: href@,
        },
        Expression::Code { language, code } => ExpressionView::Code {
            language: language@,
            code: code@,
        },
        Expression::Tile { name, img, href } => ExpressionView::Tile {
            name: list_view(name),
            img: img@,
            href: href@,
        },
        Expression::TileDesc { name, desc, img, href } => ExpressionView::TileDesc {
            name: list_view(name),
            desc: list_view(desc),
            img: img@,
            href: href@,
        },
        Expression::Image { img, alt, scale } => ExpressionView::Image {
            img: img@,
            alt: alt@,
            scale: scale@,
        },
        Expression::FloatingImage { img, alt } => ExpressionView::FloatingImage {
            img: img@,
            alt: alt@,
        },
        Expression::Bold(l) => ExpressionView::Bold(list_view(l)),
        Expression::Italic(l) => ExpressionView::Italic(
            list_view(l),
        ),
        Expression::BlockQuote { quote, citation } => ExpressionView::BlockQuote {
            quote: list_view(quote),
            citation: list_view(citation),
        },
        Expression::Header(l) => ExpressionView::Header(
            list_view(l),
        ),
        Expression::Footer(l) => ExpressionView::Footer(
            list_view(l),
        ),
        Expression::Footnote(l) => ExpressionView::Footnote(
            list_view(l),
        ),
        Expression::Footnotes => ExpressionView::Footnotes,
        Expression::Topblock(l) => ExpressionView::Topblock(
            list_view(l),
        ),
        Expression::Subtitle(l) => ExpressionView::Subtitle(
            list_view(l),
        ),
        Expression::Subsubtitle(l) => ExpressionView::Subsubtitle(
            list_view(l),
        ),
        Expression::Menu => ExpressionView::Menu,
        Expression::Date => ExpressionView::Date,
        Expression::Tiles(l) => ExpressionView::Tiles(list_view(l)),
        Expression::Pagename(s) => ExpressionView::Pagename(s@),
        Expression::Title(l) => ExpressionView::Title(list_view(l)),
        Expression::Heading(l) => ExpressionView::Heading(
            list_view(l),
        ),
        Expression::Subheading(l) => ExpressionView::Subheading(
            list_view(l),
        ),
        Expression::Paragraph(l) => ExpressionView::Paragraph(
            list_view(l),
        ),
        Expression::Newline => ExpressionView::Newline,
        Expression::Error(p) => ExpressionView::Error(error_view(p)),
    }
}

/// The views of the expressions of a list, in order.
pub open spec fn list_view(l: Vec<Expression>) -> Seq<ExpressionView>
    decreases l, 1int,
{
    Seq::new(l@.len(), |i: int| view_at(l, i))
}

/// The view of the `i`-th expression of a list.
pub open spec fn view_at(l: Vec<Expression>, i: int) -> ExpressionView
    decreases l, 0int,
{
    if 0 <= i < l@.len() {
        view_of(l@[i])
    } else {
        ExpressionView::Newline
    }
}

impl View for Expression {
    type V = ExpressionView;

    open spec fn view(&self) -> ExpressionView {
        view_of(*self)
    }
}

/// The views of a list of expressions, in order.
pub open spec fn expression_views(l: Seq<Expression>) -> Seq<ExpressionView> {
    Seq::new(l.len(), |i: int| l[i]@)
}

/// The view of a list is the list of the views.
pub proof fn lemma_list_view(l: Vec<Expression>)
    ensures
        list_view(l) == expression_views(l@),
{
    assert(list_view(l) =~= expression_views(l@));
}

/// A copy of a list of expressions.
fn copies_of(l: &Vec<Expression>) -> (r: Vec<Expression>)
    ensures
        expression_views(r@) == expression_views(l@),
    decreases l, 1int,
{
    let mut copies: Vec<Expression> = Vec::new();
    let mut i: usize = 0;
    while i < l.len()
        invariant
            i <= l.len(),
            copies.len() == i,
            forall|k: int| 0 <= k < i ==> (#[trigger] copies[k])@ == l[k]@,
        decreases l.len() - i,
    {
        copies.push(copy_of(&l[i]));
        i += 1;
    }
    proof {
        assert(expression_views(copies@) =~= expression_views(l@));
    }
    copies
}

/// A copy of an expression.
fn copy_of(e: &Expression) -> (r: Expression)
    ensures
        r@ == e@,
    decreases e, 0int,
{
    match e {
        Expression::Alphanumeric(s) => Expression::Alphanumeric(s.clone()),
        Expression::Hyperlink { name, href } => {
            let name_copy = copies_of(name);
            proof {
                lemma_list_view(*name);
                lemma_list_view(name_copy);
            }
            Expression::Hyperlink { name: name_copy, href: href.clone() }
        },
        Expression::Code { language, code } => Expression::Code {
            language: language.clone(),
            code: code.clone(),
        },
        Expression::Tile { name, img, href } => {
            let name_copy = copies_of(name);
            proof {
                lemma_list_view(*name);
                lemma_list_view(name_copy);
            }
            Expression::Tile { name: name_copy, img: img.clone(), href: href.clone() }
        },
        Expression::TileDesc { name, desc, img, href } => {
            let name_copy = copies_of(name);
            let desc_copy = copies_of(desc);
            proof {
                lemma_list_view(*name);
                lemma_list_view(name_copy);
                lemma_list_view(*desc);
                lemma_list_view(desc_copy);
            }
            Expression::TileDesc {
                name: name_copy,
                desc: desc_copy,
                img: img.clone(),
                href: href.clone(),
            }
        },
        Expression::Image { img, alt, scale } => Expression::Image {
            img: img.clone(),
            alt: alt.clone(),
            scale: scale.clone(),
        },
        Expression::FloatingImage { img, alt } => Expression::FloatingImage {
            img: img.clone(),
            alt: alt.clone(),
        },
        Expression::Bold(l) => Expression::Bold(copied(l)),
        Expression::Italic(l) => Expression::Italic(copied(l)),
        Expression::BlockQuote { quote, citation } => {
            let quote_copy = copies_of(quote);
            let citation_copy = copies_of(citation);
            proof {
                lemma_list_view(*quote);
                lemma_list_view(quote_copy);
                lemma_list_view(*citation);
                lemma_list_view(citation_copy);
            }
            Expression::BlockQuote { quote: quote_copy, citation: citation_copy }
        },
        Expression::Header(l) => Expression::Header(copied(l)),
        Expression::Footer(l) => Expression::Footer(copied(l)),
        Expression::Footnote(l) => Expression::Footnote(copied(l)),
        Expression::Footnotes => Expression::Footnotes,
        Expression::Topblock(l) => Expression::Topblock(copied(l)),
        Expression::Subtitle(l) => Expression::Subtitle(copied(l)),
        Expression::Subsubtitle(l) => Expression::Subsubtitle(copied(l)),
        Expression::Menu => Expression::Menu,
        Expression::Date => Expression::Date,
        Expression::Tiles(l) => Expression::Tiles(copied(l)),
        Expression::Pagename(s) => Expression::Pagename(s.clone()),
        Expression::Title(l) => Expression::Title(copied(l)),
        Expression::Heading(l) => Expression::Heading(copied(l)),
        Expression::Subheading(l) => Expression::Subheading(copied(l)),
        Expression::Paragraph(l) => Expression::Paragraph(copied(l)),
        Expression::Newline => Expression::Newline,
        Expression::Error(p) => Expression::Error(p.clone()),
    }
}

/// A copy of a list of expressions, with the same view as a list.
fn copied(l: &Vec<Expression>) -> (r: Vec<Expression>)
    ensures
        list_view(r) == list_view(*l),
    decreases l, 2int,
{
    let r = copies_of(l);
    proof {
        lemma_list_view(*l);
        lemma_list_view(r);
    }
    r
}

impl Clone for Expression {
    fn clone(&self) -> (r: Self)
        ensures
            r@ == self@,
    {
        copy_of(self)
    }
}

/// The first error of a list of expressions, if it holds one.
pub open spec fn first_error(l: Seq<ExpressionView>) -> Option<BraceErrorView>
    decreases l.len(),
{
    if l.len() == 0 {
        None
    } else if l.first() is Error {
        Some(l.first()->Error_0)
    } else {
        first_error(l.drop_first())
    }
}

/// The first error of a list of expressions, if it holds one.
pub fn find_error(l: &Vec<Expression>) -> (r: Option<BraceError>)
    ensures
        match r {
            Some(e) => first_error(expression_views(l@)) == Some(e@),
            None => first_error(expression_views(l@)) is None,
        },
{
    let ghost all = expression_views(l@);
    let mut i: usize = 0;
    proof {
        assert(all.skip(0) =~= all);
    }
    while i < l.len()
        invariant
            i <= l.len(),
            all == expression_views(l@),
            first_error(all) == first_error(all.skip(i as int)),
        decreases l.len() - i,
    {
        proof {
            assert(all.skip(i as int).first() == all[i as int]);
            assert(all.skip(i as int).drop_first() =~= all.skip(i + 1));
        }
        if let Expression::Error(e) = &l[i] {
            return Some(e.clone());
        }
        i += 1;
    }
    proof {
        assert(all.skip(l.len() as int).len() == 0);
    }
    None
}

} // verus!
