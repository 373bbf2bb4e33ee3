//! The expression tree of a parsed page, and how each node is shown.

use vstd::prelude::*;
use vstd::string::*;
use crate::error::{error_view, ParseError, ParseErrorView};
use crate::text::join3;

verus! {

/// One node of a parsed page.
#[derive(PartialEq, Debug)]
pub enum Expression {
    /// H1.
    H1(String),
    /// H2.
    H2(String),
    /// H3.
    H3(String),
    /// H4.
    H4(String),
    /// H5.
    H5(String),
    /// H6.
    H6(String),
    /// Paragraph (p).
    Paragraph(Vec<Expression>),
    /// Bold text (strong).
    Bold(String),
    /// Italicized text (em).
    Italics(String),
    /// Bold & italicized text (strong + em).
    BoldItalics(String),
    /// Raw text.
    Text(String),
    /// Hyperreference (a).
    Href {
        /// Human-readable text.
        text: String,
        /// URI of reference.
        href: String,
    },
    /// Image (img).
    Image {
        /// Alternate text.
        alt: String,
        /// URI of image.
        href: String,
    },
    /// Image that floats beside the text (img.float).
    FloatImage {
        /// Alternate text.
        alt: String,
        /// URI of image.
        href: String,
    },
    /// Tile hyperlink (div.tile).
    Tile {
        /// Title text.
        title: String,
        /// Description.
        description: String,
        /// URI of link.
        href: String,
        /// URI of image.
        image: String,
    },
    /// Notice banner (div.notice).
    Notice(String),
    /// Work-in-progress banner (div.wip).
    Wip(String),
    /// Newline.
    Newline,
    /// Menu.
    Menu,
    /// Parsing error.
    Error(ParseError),
}

/// An expression with its texts as sequences of characters.
pub enum ExpressionView {
    H1(Seq<char>),
    H2(Seq<char>),
    H3(Seq<char>),
    H4(Seq<char>),
    H5(Seq<char>),
    H6(Seq<char>),
    Paragraph(Seq<ExpressionView>),
    Bold(Seq<char>),
    Italics(Seq<char>),
    BoldItalics(Seq<char>),
    Text(Seq<char>),
    Href { text: Seq<char>, href: Seq<char> },
    Image { alt: Seq<char>, href: Seq<char> },
    FloatImage { alt: Seq<char>, href: Seq<char> },
    Tile { title: Seq<char>, description: Seq<char>, href: Seq<char>, image: Seq<char> },
    Notice(Seq<char>),
    Wip(Seq<char>),
    Newline,
    Menu,
    Error(ParseErrorView),
}

/// The view of an expression: the same tree, with every text as a sequence
/// of characters.
pub open spec fn view_of(e: Expression) -> ExpressionView
    decreases e,
{
    match e {
        Expression::H1(s) => ExpressionView::H1(s@),
        Expression::H2(s) => ExpressionView::H2(s@),
        Expression::H3(s) => ExpressionView::H3(s@),
        Expression::H4(s) => ExpressionView::H4(s@),
        Expression::H5(s) => ExpressionView::H5(s@),
        Expression::H6(s) => ExpressionView::H6(s@),
        Expression::Paragraph(l) => ExpressionView::Paragraph(
            Seq::new(
                l@.len(),
                |i: int|
                    if 0 <= i < l@.len() {
                        view_of(l@[i])
                    } else {
                        ExpressionView::Newline
                    },
            ),
        ),
        Expression::Bold(s) => ExpressionView::Bold(s@),
        Expression::Italics(s) => ExpressionView::Italics(s@),
        Expression::BoldItalics(s) => ExpressionView::BoldItalics(s@),
        Expression::Text(s) => ExpressionView::Text(s@),
        Expression::Href { text, href } => ExpressionView::Href { text: text@, href: href@ },
        Expression::Image { alt, href } => ExpressionView::Image { alt: alt@, href: href@ },
        Expression::FloatImage { alt, href } => ExpressionView::FloatImage {
            alt: alt@,
            href: href@,
        },
        Expression::Tile { title, description, href, image } => ExpressionView::Tile {
            title: title@,
            description: description@,
            href: href@,
            image: image@,
        },
        Expression::Notice(s) => ExpressionView::Notice(s@),
        Expression::Wip(s) => ExpressionView::Wip(s@),
        Expression::Newline => ExpressionView::Newline,
        Expression::Menu => ExpressionView::Menu,
        Expression::Error(p) => ExpressionView::Error(error_view(p)),
    }
}

impl View for Expression {
    type V = ExpressionView;

    open spec fn view(&self) -> ExpressionView {
        view_of(*self)
    }
}

/// The views of a list of expressions, in order.
pub open spec fn expression_views(l: Seq<Expression>) -> Seq<ExpressionView> {
    Seq::new(l.len(), |i: int| l[i]@)
}

/// The view of a paragraph is the paragraph of its children's views.
pub proof fn lemma_paragraph_view(l: Vec<Expression>)
    ensures
        Expression::Paragraph(l)@ == ExpressionView::Paragraph(expression_views(l@)),
{
    let e = Expression::Paragraph(l);
    let v = e@->Paragraph_0;
    assert(v.len() == l@.len());
    assert(Expression::Paragraph(l)@->Paragraph_0 =~= expression_views(l@));
}

impl ExpressionView {
    /// How an expression is shown in a diagnostic.
    pub open spec fn shown(self) -> Seq<char>
        decreases self,
    {
        match self {
            ExpressionView::H1(s) => "[h1] "@ + s,
            ExpressionView::H2(s) => "[h2] "@ + s,
            ExpressionView::H3(s) => "[h3] "@ + s,
            ExpressionView::H4(s) => "[h4] "@ + s,
            ExpressionView::H5(s) => "[h5] "@ + s,
            ExpressionView::H6(s) => "[h6] "@ + s,
            ExpressionView::Text(s) => s,
            ExpressionView::Paragraph(l) => shown_all(l),
            ExpressionView::Href { text, href } => "["@ + text + "]("@ + href + ")"@,
            ExpressionView::Image { alt, href } => "[image] ["@ + alt + "]["@ + href + "]"@,
            ExpressionView::FloatImage { alt, href } => "[float] ["@ + alt + "]["@ + href + "]"@,
            ExpressionView::Tile { title, description, href, image } => "[tile] ["@ + title
                + "]["@ + description + "]["@ + href + "]["@ + image + "]"@,
            ExpressionView::Notice(message) => "[notice] ["@ + message + "]"@,
            ExpressionView::Wip(message) => "[wip] ["@ + message + "]"@,
            ExpressionView::Newline => "[newline]"@,
            ExpressionView::Menu => "[menu]"@,
            ExpressionView::Bold(s) => "**"@ + s + "**"@,
            ExpressionView::Italics(s) => "_"@ + s + "_"@,
            ExpressionView::BoldItalics(s) => "**_"@ + s + "_**"@,
            ExpressionView::Error(e) => e.message(),
        }
    }

    /// Whether an expression can be rendered as it stands: it is no menu
    /// marker and no error, and neither is any expression inside it.
    pub open spec fn renderable(self) -> bool
        decreases self,
    {
        match self {
            ExpressionView::Menu => false,
            ExpressionView::Error(_) => false,
            ExpressionView::Paragraph(l) => all_renderable(l),
            _ => true,
        }
    }

    /// The HTML of an expression. `top` says whether it stands directly in
    /// the page, where inline expressions get a paragraph of their own.
    pub open spec fn html(self, top: bool) -> Seq<char>
        decreases self,
    {
        match self {
            ExpressionView::H1(s) => "<h1>"@ + s + "</h1>"@,
            ExpressionView::H2(s) => "<h2>"@ + s + "</h2>"@,
            ExpressionView::H3(s) => "<h3>"@ + s + "</h3>"@,
            ExpressionView::H4(s) => "<h4>"@ + s + "</h4>"@,
            ExpressionView::H5(s) => "<h5>"@ + s + "</h5>"@,
            ExpressionView::H6(s) => "<h6>"@ + s + "</h6>"@,
            ExpressionView::Text(s) => s,
            ExpressionView::Paragraph(l) => if top {
                "<p>"@ + html_all(l) + "</p>"@
            } else {
                html_all(l)
            },
            ExpressionView::Bold(s) => if top {
                "<p><strong>"@ + s + "</strong></p>"@
            } else {
                "<strong>"@ + s + "</strong>"@
            },
            ExpressionView::Italics(s) => if top {
                "<p><em>"@ + s + "</em></p>"@
            } else {
                "<em>"@ + s + "</em>"@
            },
            ExpressionView::BoldItalics(s) => if top {
                "<p><strong><em>"@ + s + "</em></strong></p>"@
            } else {
                "<strong><em>"@ + s + "</em></strong>"@
            },
            ExpressionView::Href { text, href } => if top {
                "<p><a href=\""@ + href + "\">"@ + text + "</a></p>"@
            } else {
                "<a href=\""@ + href + "\">"@ + text + "</a>"@
            },
            ExpressionView::Image { alt, href } => "<img src=\""@ + href + "\" alt=\""@ + alt
                + "\">"@,
            ExpressionView::FloatImage { alt, href } => "<img class=\"float\" src=\""@ + href
                + "\" alt=\""@ + alt + "\">"@,
            ExpressionView::Tile { title, description, href, image } =>
                "<div class=\"tile\" onclick=\"window.location='"@ + href
                + "';\" style=\"background-image: url('"@ + image
                + "'); cursor: pointer; background-position: center;\"><div>"@ + title
                + "</div><br><div class=\"desc\">"@ + description + "</div></div>"@,
            ExpressionView::Notice(message) => "<div class=\"notice\">"@ + message + "</div>"@,
            ExpressionView::Wip(message) => "<div class=\"wip\">"@ + message + "</div>"@,
            ExpressionView::Newline => "\n\n"@,
            ExpressionView::Menu => Seq::empty(),
            ExpressionView::Error(_) => Seq::empty(),
        }
    }
}

/// Whether an expression gets a paragraph of its own where it stands
/// directly in the page.
pub open spec fn wrapped_at_top(e: ExpressionView) -> bool {
    e is Paragraph || e is Bold || e is Italics || e is BoldItalics || e is Href
}

/// An expression is wrapped in a paragraph at most once: directly in the
/// page, an inline expression is its own HTML inside one paragraph, and
/// every other expression is rendered the same in both places.
pub proof fn lemma_wrapped_once(e: ExpressionView)
    ensures
        wrapped_at_top(e) ==> e.html(true) == "<p>"@ + e.html(false) + "</p>"@,
        !wrapped_at_top(e) ==> e.html(true) == e.html(false),
{
    reveal_strlit("<p>");
    reveal_strlit("</p>");
    reveal_strlit("<strong>");
    reveal_strlit("</strong>");
    reveal_strlit("<em>");
    reveal_strlit("</em>");
    reveal_strlit("<p><strong>");
    reveal_strlit("</strong></p>");
    reveal_strlit("<p><em>");
    reveal_strlit("</em></p>");
    reveal_strlit("<p><strong><em>");
    reveal_strlit("</em></strong></p>");
    reveal_strlit("<strong><em>");
    reveal_strlit("</em></strong>");
    reveal_strlit("<p><a href=\"");
    reveal_strlit("<a href=\"");
    reveal_strlit("</a></p>");
    reveal_strlit("</a>");
    match e {
        ExpressionView::Bold(s) => {
            assert("<p><strong>"@ + s + "</strong></p>"@ =~= "<p>"@ + ("<strong>"@ + s
                + "</strong>"@) + "</p>"@);
        },
        ExpressionView::Italics(s) => {
            assert("<p><em>"@ + s + "</em></p>"@ =~= "<p>"@ + ("<em>"@ + s + "</em>"@) + "</p>"@);
        },
        ExpressionView::BoldItalics(s) => {
            assert("<p><strong><em>"@ + s + "</em></strong></p>"@ =~= "<p>"@ + ("<strong><em>"@
                + s + "</em></strong>"@) + "</p>"@);
        },
        ExpressionView::Href { text, href } => {
            assert("<p><a href=\""@ + href + "\">"@ + text + "</a></p>"@ =~= "<p>"@ + (
            "<a href=\""@ + href + "\">"@ + text + "</a>"@) + "</p>"@);
        },
        _ => {},
    }
}

/// Whether every expression of a list can be rendered.
pub open spec fn all_renderable(l: Seq<ExpressionView>) -> bool
    decreases l,
{
    l.len() == 0 || (all_renderable(l.drop_last()) && l.last().renderable())
}

/// A list can be rendered when each of its expressions can.
pub proof fn lemma_all_renderable(l: Seq<ExpressionView>)
    ensures
        all_renderable(l) <==> (forall|i: int| 0 <= i < l.len() ==> (#[trigger] l[i]).renderable()),
    decreases l.len(),
{
    if l.len() > 0 {
        lemma_all_renderable(l.drop_last());
        assert(forall|i: int| 0 <= i < l.len() - 1 ==> l.drop_last()[i] == l[i]);
        if all_renderable(l) {
            assert forall|i: int| 0 <= i < l.len() implies (#[trigger] l[i]).renderable() by {
                if i < l.len() - 1 {
                    assert(l.drop_last()[i].renderable());
                }
            }
        }
        if forall|i: int| 0 <= i < l.len() ==> (#[trigger] l[i]).renderable() {
            assert forall|i: int| 0 <= i < l.drop_last().len() implies (
            #[trigger] l.drop_last()[i]).renderable() by {
                assert(l[i].renderable());
            }
        }
    }
}

/// The texts of a list of expressions as shown in a diagnostic, in a row.
pub open spec fn shown_all(l: Seq<ExpressionView>) -> Seq<char>
    decreases l,
{
    if l.len() == 0 {
        Seq::empty()
    } else {
        shown_all(l.drop_last()) + l.last().shown()
    }
}

/// The HTML of a list of expressions inside another, in a row.
pub open spec fn html_all(l: Seq<ExpressionView>) -> Seq<char>
    decreases l,
{
    if l.len() == 0 {
        Seq::empty()
    } else {
        html_all(l.drop_last()) + l.last().html(false)
    }
}

/// A copy of an expression.
fn copy_of(e: &Expression) -> (r: Expression)
    ensures
        r@ == e@,
    decreases e,
{
    match e {
        Expression::H1(s) => Expression::H1(s.clone()),
        Expression::H2(s) => Expression::H2(s.clone()),
        Expression::H3(s) => Expression::H3(s.clone()),
        Expression::H4(s) => Expression::H4(s.clone()),
        Expression::H5(s) => Expression::H5(s.clone()),
        Expression::H6(s) => Expression::H6(s.clone()),
        Expression::Paragraph(l) => {
            let mut copies: Vec<Expression> = Vec::new();
            let mut i: usize = 0;
            while i < l.len()
                invariant
                    i <= l.len(),
                    *e == Expression::Paragraph(*l),
                    copies.len() == i,
                    forall|k: int| 0 <= k < i ==> (#[trigger] copies[k])@ == l[k]@,
                decreases l.len() - i,
            {
                proof {
                    assert(decreases_to!(e => e->Paragraph_0));
                }
                copies.push(copy_of(&l[i]));
                i += 1;
            }
            proof {
                lemma_paragraph_view(*l);
                lemma_paragraph_view(copies);
                assert(expression_views(copies@) =~= expression_views(l@));
            }
            Expression::Paragraph(copies)
        },
        Expression::Bold(s) => Expression::Bold(s.clone()),
        Expression::Italics(s) => Expression::Italics(s.clone()),
        Expression::BoldItalics(s) => Expression::BoldItalics(s.clone()),
        Expression::Text(s) => Expression::Text(s.clone()),
        Expression::Href { text, href } => Expression::Href {
            text: text.clone(),
            href: href.clone(),
        },
        Expression::Image { alt, href } => Expression::Image {
            alt: alt.clone(),
            href: href.clone(),
        },
        Expression::FloatImage { alt, href } => Expression::FloatImage {
            alt: alt.clone(),
            href: href.clone(),
        },
        Expression::Tile { title, description, href, image } => Expression::Tile {
            title: title.clone(),
            description: description.clone(),
            href: href.clone(),
            image: image.clone(),
        },
        Expression::Notice(s) => Expression::Notice(s.clone()),
        Expression::Wip(s) => Expression::Wip(s.clone()),
        Expression::Newline => Expression::Newline,
        Expression::Menu => Expression::Menu,
        Expression::Error(p) => Expression::Error(p.clone()),
    }
}

impl Clone for Expression {
    fn clone(&self) -> (r: Self)
        ensures
            r@ == self@,
    {
        copy_of(self)
    }
}

impl Expression {
    /// The text that shows this expression in a diagnostic.
    pub fn display(&self) -> (s: String)
        ensures
            s@ == self@.shown(),
        decreases self,
    {
        match self {
            Expression::H1(s) => crate::text::join2("[h1] ", s.as_str()),
            Expression::H2(s) => crate::text::join2("[h2] ", s.as_str()),
            Expression::H3(s) => crate::text::join2("[h3] ", s.as_str()),
            Expression::H4(s) => crate::text::join2("[h4] ", s.as_str()),
            Expression::H5(s) => crate::text::join2("[h5] ", s.as_str()),
            Expression::H6(s) => crate::text::join2("[h6] ", s.as_str()),
            Expression::Text(s) => s.clone(),
            Expression::Paragraph(l) => {
                let mut output = String::new();
                let ghost views = expression_views(l@);
                proof {
                    lemma_paragraph_view(*l);
                }
                let mut i: usize = 0;
                while i < l.len()
                    invariant
                        i <= l.len(),
                        *self == Expression::Paragraph(*l),
                        views == expression_views(l@),
                        self@ == ExpressionView::Paragraph(views),
                        output@ == shown_all(views.take(i as int)),
                    decreases l.len() - i,
                {
                    let piece = l[i].display();
                    output.append(piece.as_str());
                    assert(views.take(i + 1).drop_last() =~= views.take(i as int));
                    i += 1;
                }
                assert(views.take(l.len() as int) =~= views);
                output
            },
            Expression::Href { text, href } => {
                let mut s = join3("[", text.as_str(), "](");
                s.append(href.as_str());
                s.append(")");
                s
            },
            Expression::Image { alt, href } => {
                let mut s = join3("[image] [", alt.as_str(), "][");
                s.append(href.as_str());
                s.append("]");
                s
            },
            Expression::FloatImage { alt, href } => {
                let mut s = join3("[float] [", alt.as_str(), "][");
                s.append(href.as_str());
                s.append("]");
                s
            },
            Expression::Tile { title, description, href, image } => {
                let mut s = join3("[tile] [", title.as_str(), "][");
                s.append(description.as_str());
                s.append("][");
                s.append(href.as_str());
                s.append("][");
                s.append(image.as_str());
                s.append("]");
                s
            },
            Expression::Notice(message) => join3("[notice] [", message.as_str(), "]"),
            Expression::Wip(message) => join3("[wip] [", message.as_str(), "]"),
            Expression::Newline => String::from_str("[newline]"),
            Expression::Menu => String::from_str("[menu]"),
            Expression::Bold(s) => join3("**", s.as_str(), "**"),
            Expression::Italics(s) => join3("_", s.as_str(), "_"),
            Expression::BoldItalics(s) => join3("**_", s.as_str(), "_**"),
            Expression::Error(e) => e.display(),
        }
    }

    /// Whether this expression can be rendered as it stands.
    pub fn is_renderable(&self) -> (b: bool)
        ensures
            b == self@.renderable(),
        decreases self,
    {
        match self {
            Expression::Menu => false,
            Expression::Error(_) => false,
            Expression::Paragraph(l) => {
                let ghost views = expression_views(l@);
                proof {
                    lemma_paragraph_view(*l);
                }
                let mut i: usize = 0;
                while i < l.len()
                    invariant
                        i <= l.len(),
                        *self == Expression::Paragraph(*l),
                        views == expression_views(l@),
                        self@ == ExpressionView::Paragraph(views),
                        forall|k: int| 0 <= k < i ==> (#[trigger] views[k]).renderable(),
                    decreases l.len() - i,
                {
                    if !l[i].is_renderable() {
                        proof {
                            lemma_all_renderable(views);
                            assert(!views[i as int].renderable());
                            assert(!all_renderable(views));
                        }
                        return false;
                    }
                    i += 1;
                }
                proof {
                    lemma_all_renderable(views);
                }
                true
            },
            _ => true,
        }
    }

    /// Convert the expression to an HTML string. `top` indicates whether
    /// this call is at the top level. A menu marker or an error cannot be
    /// rendered, here or inside a paragraph.
    pub fn html(&self, top: bool) -> (s: String)
        requires
            self@.renderable(),
        ensures
            s@ == self@.html(top),
        decreases self,
    {
        match self {
            Expression::H1(s) => join3("<h1>", s.as_str(), "</h1>"),
            Expression::H2(s) => join3("<h2>", s.as_str(), "</h2>"),
            Expression::H3(s) => join3("<h3>", s.as_str(), "</h3>"),
            Expression::H4(s) => join3("<h4>", s.as_str(), "</h4>"),
            Expression::H5(s) => join3("<h5>", s.as_str(), "</h5>"),
            Expression::H6(s) => join3("<h6>", s.as_str(), "</h6>"),
            Expression::Text(s) => s.clone(),
            Expression::Paragraph(l) => {
                let mut output = String::new();
                let ghost views = expression_views(l@);
                proof {
                    lemma_paragraph_view(*l);
                }
                // Format each interior expression
                let mut i: usize = 0;
                while i < l.len()
                    invariant
                        i <= l.len(),
                        *self == Expression::Paragraph(*l),
                        views == expression_views(l@),
                        self@ == ExpressionView::Paragraph(views),
                        self@.renderable(),
                        output@ == html_all(views.take(i as int)),
                    decreases l.len() - i,
                {
                    proof {
                        lemma_all_renderable(views);
                        assert(views[i as int].renderable());
                    }
                    let piece = l[i].html(false);
                    output.append(piece.as_str());
                    assert(views.take(i + 1).drop_last() =~= views.take(i as int));
                    i += 1;
                }
                assert(views.take(l.len() as int) =~= views);
                if top {
                    join3("<p>", output.as_str(), "</p>")
                } else {
                    output
                }
            },
            Expression::Bold(s) => if top {
                join3("<p><strong>", s.as_str(), "</strong></p>")
            } else {
                join3("<strong>", s.as_str(), "</strong>")
            },
            Expression::Italics(s) => if top {
                join3("<p><em>", s.as_str(), "</em></p>")
            } else {
                join3("<em>", s.as_str(), "</em>")
            },
            Expression::BoldItalics(s) => if top {
                join3("<p><strong><em>", s.as_str(), "</em></strong></p>")
            } else {
                join3("<strong><em>", s.as_str(), "</em></strong>")
            },
            Expression::Href { text, href } => {
                let mut s = if top {
                    join3("<p><a href=\"", href.as_str(), "\">")
                } else {
                    join3("<a href=\"", href.as_str(), "\">")
                };
                s.append(text.as_str());
                if top {
                    s.append("</a></p>");
                } else {
                    s.append("</a>");
                }
                s
            },
            Expression::Image { alt, href } => {
                let mut s = join3("<img src=\"", href.as_str(), "\" alt=\"");
                s.append(alt.as_str());
                s.append("\">");
                s
            },
            Expression::FloatImage { alt, href } => {
                let mut s = join3("<img class=\"float\" src=\"", href.as_str(), "\" alt=\"");
                s.append(alt.as_str());
                s.append("\">");
                s
            },
            Expression::Tile { title, description, href, image } => {
                let mut s = join3(
                    "<div class=\"tile\" onclick=\"window.location='",
                    href.as_str(),
                    "';\" style=\"background-image: url('",
                );
                s.append(image.as_str());
                s.append("'); cursor: pointer; background-position: center;\"><div>");
                s.append(title.as_str());
                s.append("</div><br><div class=\"desc\">");
                s.append(description.as_str());
                s.append("</div></div>");
                s
            },
            Expression::Notice(message) => join3(
                "<div class=\"notice\">",
                message.as_str(),
                "</div>",
            ),
            Expression::Wip(message) => join3("<div class=\"wip\">", message.as_str(), "</div>"),
            Expression::Newline => String::from_str("\n\n"),
            // Neither is renderable
            Expression::Menu => vstd::pervasive::unreached(),
            Expression::Error(_) => vstd::pervasive::unreached(),
        }
    }
}

} // verus!
