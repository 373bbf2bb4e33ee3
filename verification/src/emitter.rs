//! The HTML emitter: it turns a list of expressions into a whole page.

use vstd::prelude::*;
use vstd::string::*;
use convert_case::{Case, Casing};
use crate::config::{Config, ConfigView, MenuConfig, MenuView, SiteStyle};
use crate::expression::{expression_views, Expression, ExpressionView};
use crate::result::{BlogError, BlogResult};
use crate::text::{join3, same_text};

verus! {

/// The title case of a name, as the crate `convert_case` gives it.
pub uninterp spec fn title_case(name: Seq<char>) -> Seq<char>;

/// `Casing::to_case` with `Case::Title`: the result depends on the name
/// alone and is called `title_case`; nothing more is claimed of it.
#[verifier::external_body]
fn to_title_case(name: &str) -> (r: String)
    ensures
        r@ == title_case(name@),
{
    name.to_case(Case::Title)
}

/// The font and asset links that go with each style.
#[derive(Debug)]
pub struct StyleLinks {
    /// Links of the technology style.
    pub tech: String,
    /// Links of the book style.
    pub book: String,
}

impl StyleLinks {
    /// The links of a style.
    pub open spec fn of(self, style: SiteStyle) -> Seq<char> {
        match style {
            SiteStyle::Tech => self.tech@,
            SiteStyle::Book => self.book@,
        }
    }
}

/// What reading the analytics tag of a site gave.
#[derive(Debug)]
pub struct AnalyticsRead {
    /// The path of the tag, as it is shown to the user.
    pub path: String,
    /// The text of the tag, or why it could not be read.
    pub outcome: Result<String, BlogError>,
}

/// The title of the page that is named after the site alone.
pub open spec fn index_page_name() -> Seq<char> {
    "Index"@
}

/// The title element of a page: the index page bears the site's name alone.
pub open spec fn title_element(page_title: Seq<char>, site: Seq<char>) -> Seq<char> {
    if page_title == index_page_name() {
        "<title>"@ + site + "</title>\n\n"@
    } else {
        "<title>"@ + page_title + " | "@ + site + "</title>\n\n"@
    }
}

/// The analytics tag in the head of a page, where the site has one and it
/// was read. A tag that could not be read leaves its place empty.
pub open spec fn analytics_element(config: ConfigView, read: Option<AnalyticsRead>) -> Seq<char> {
    if config.analytics is Some && read is Some {
        match read->Some_0.outcome {
            Ok(text) => text@ + "\n\n"@,
            Err(_) => "\n\n"@,
        }
    } else {
        Seq::empty()
    }
}

/// The stylesheet and the links of the site's style, where it has one.
pub open spec fn style_element(config: ConfigView, links: StyleLinks) -> Seq<char> {
    match config.style {
        Some(style) => "<link rel=\"stylesheet\" href=\"/style.css\">\n\n"@ + links.of(style)
            + "\n\n"@,
        None => Seq::empty(),
    }
}

/// The favicon of the site, where it has one.
pub open spec fn icon_element(config: ConfigView) -> Seq<char> {
    match config.icon {
        Some(icon) => "<link rel=\"icon\" type=\"image/x-icon\" href=\"/"@ + icon + "\">\n\n"@,
        None => Seq::empty(),
    }
}

/// The first `n` buttons of a menu, each an anchor.
pub open spec fn anchors(menu: MenuView, n: int) -> Seq<char>
    decreases n,
{
    if n <= 0 || n > menu.names.len() || n > menu.links.len() {
        Seq::empty()
    } else {
        anchors(menu, n - 1) + "<a href=\""@ + menu.links[n - 1] + "\">"@ + menu.names[n - 1]
            + "</a>\n\n"@
    }
}

/// How many buttons a menu has: a name without a link, or a link without
/// a name, makes none.
pub open spec fn buttons(menu: MenuView) -> int {
    if menu.names.len() <= menu.links.len() {
        menu.names.len() as int
    } else {
        menu.links.len() as int
    }
}

/// The menu of a site.
pub open spec fn menu_element(menu: MenuView) -> Seq<char> {
    "<div class=\"menu\">\n\n"@ + anchors(menu, buttons(menu)) + "</div>\n\n"@
}

/// What one expression of a page contributes to its body: the menu marker
/// is replaced by the site's menu, or by nothing where the site has none.
pub open spec fn body_piece(e: ExpressionView, menu: Option<MenuView>) -> Seq<char> {
    if e is Menu {
        match menu {
            Some(m) => menu_element(m),
            None => Seq::empty(),
        }
    } else {
        e.html(true)
    }
}

/// The body of a page.
pub open spec fn body(page: Seq<ExpressionView>, menu: Option<MenuView>) -> Seq<char>
    decreases page.len(),
{
    if page.len() == 0 {
        Seq::empty()
    } else {
        body(page.drop_last(), menu) + body_piece(page.last(), menu)
    }
}

/// A whole page.
pub open spec fn document(
    page: Seq<ExpressionView>,
    config: ConfigView,
    page_title: Seq<char>,
    read: Option<AnalyticsRead>,
    links: StyleLinks,
) -> Seq<char> {
    "<!DOCTYPE html>\n<html>\n\n<head>\n\n"@ + analytics_element(config, read) + title_element(
        page_title,
        config.name,
    ) + style_element(config, links) + icon_element(config) + "</head>\n\n<body>\n\n"@ + body(
        page,
        config.menu,
    ) + "</body>\n\n</html>"@
}

/// Whether a page can be emitted: each of its expressions is the menu marker
/// or can be rendered.
pub open spec fn emittable(page: Seq<ExpressionView>) -> bool
    decreases page.len(),
{
    page.len() == 0 || (emittable(page.drop_last()) && (page.last() is Menu
        || page.last().renderable()))
}

/// A page can be emitted when each of its expressions can.
pub proof fn lemma_emittable(page: Seq<ExpressionView>)
    ensures
        emittable(page) <==> (forall|i: int|
            0 <= i < page.len() ==> (#[trigger] page[i]) is Menu || page[i].renderable()),
    decreases page.len(),
{
    if page.len() > 0 {
        lemma_emittable(page.drop_last());
        assert(forall|i: int| 0 <= i < page.len() - 1 ==> page.drop_last()[i] == page[i]);
        if emittable(page) {
            assert forall|i: int| 0 <= i < page.len() implies (#[trigger] page[i]) is Menu
                || page[i].renderable() by {
                if i < page.len() - 1 {
                    assert(page.drop_last()[i] is Menu || page.drop_last()[i].renderable());
                }
            }
        }
        if forall|i: int| 0 <= i < page.len() ==> (#[trigger] page[i]) is Menu
            || page[i].renderable() {
            assert forall|i: int| 0 <= i < page.drop_last().len() implies (
            #[trigger] page.drop_last()[i]) is Menu || page.drop_last()[i].renderable() by {
                assert(page[i] is Menu || page[i].renderable());
            }
        }
    }
}

/// The error that a failed reading of the analytics tag ends in, if the
/// site has a tag and its reading failed.
pub open spec fn analytics_failure(config: ConfigView, read: Option<AnalyticsRead>) -> Option<
    BlogError,
> {
    if config.analytics is Some && read is Some {
        match read->Some_0.outcome {
            Ok(_) => None,
            Err(e) => Some(e),
        }
    } else {
        None
    }
}

/// What is said of a tag that could not be read.
pub open spec fn analytics_context(path: Seq<char>) -> Seq<char> {
    "could not read analytics tag '"@ + path + "'"@
}

/// An HTML emitter that takes in a list of expressions and returns HTML
/// source code.
pub struct Emitter {
    /// Configuration information.
    config: Config,
}

impl View for Emitter {
    type V = ConfigView;

    closed spec fn view(&self) -> ConfigView {
        self.config@
    }
}

impl Emitter {
    /// Construct a new emitter.
    pub fn new(config: &Config) -> (r: Self)
        ensures
            r@ == config@,
    {
        Emitter { config: config.clone() }
    }

    /// Whether a list of expressions can be emitted.
    pub fn can_emit(expressions: &Vec<Expression>) -> (b: bool)
        ensures
            b == emittable(expression_views(expressions@)),
    {
        let ghost page = expression_views(expressions@);
        let mut i: usize = 0;
        while i < expressions.len()
            invariant
                i <= expressions.len(),
                page == expression_views(expressions@),
                forall|k: int| 0 <= k < i ==> (#[trigger] page[k]) is Menu || page[k].renderable(),
            decreases expressions.len() - i,
        {
            let fine = match &expressions[i] {
                Expression::Menu => true,
                other => other.is_renderable(),
            };
            if !fine {
                proof {
                    lemma_emittable(page);
                    assert(!(page[i as int] is Menu || page[i as int].renderable()));
                }
                return false;
            }
            i += 1;
        }
        proof {
            lemma_emittable(page);
        }
        true
    }

    /// The menu of a site as HTML.
    fn menu(m: &MenuConfig) -> (s: String)
        ensures
            s@ == menu_element(m@),
    {
        // Open a new DIV
        let mut menu = String::from_str("<div class=\"menu\">\n\n");
        let n = if m.names.len() <= m.links.len() {
            m.names.len()
        } else {
            m.links.len()
        };
        let mut anchors_html = String::new();
        // Emit menu based on config info
        let mut i: usize = 0;
        while i < n
            invariant
                i <= n,
                n <= m.names.len(),
                n <= m.links.len(),
                anchors_html@ == anchors(m@, i as int),
            decreases n - i,
        {
            anchors_html.append("<a href=\"");
            anchors_html.append(m.links[i].as_str());
            anchors_html.append("\">");
            anchors_html.append(m.names[i].as_str());
            anchors_html.append("</a>\n\n");
            i += 1;
        }
        menu.append(anchors_html.as_str());
        // Close DIV
        menu.append("</div>\n\n");
        menu
    }

    /// Emit the page of a list of expressions under a given title. An error
    /// cannot be emitted, nor a menu marker inside a paragraph.
    pub fn emit_page(
        &self,
        expressions: &Vec<Expression>,
        read: &Option<AnalyticsRead>,
        links: &StyleLinks,
        page_title: &str,
    ) -> (output: String)
        requires
            emittable(expression_views(expressions@)),
        ensures
            output@ == document(expression_views(expressions@), self@, page_title@, *read, *links),
    {
        // Open document and head
        let mut output = String::from_str("<!DOCTYPE html>\n<html>\n\n<head>\n\n");
        // Add analytics tag
        if self.config.analytics.is_some() {
            if let Some(r) = read {
                match &r.outcome {
                    Ok(text) => {
                        output.append(text.as_str());
                    },
                    Err(_) => {},
                }
                output.append("\n\n");
            }
        }
        assert(output@ == "<!DOCTYPE html>\n<html>\n\n<head>\n\n"@ + analytics_element(self@, *read));
        // Construct title
        //
        // Remove the title of the index page
        output.append("<title>");
        if !same_text(page_title, "Index") {
            output.append(page_title);
            output.append(" | ");
        }
        output.append(self.config.site.name.as_str());
        output.append("</title>\n\n");
        assert(output@ == "<!DOCTYPE html>\n<html>\n\n<head>\n\n"@ + analytics_element(self@, *read)
            + title_element(page_title@, self@.name));
        // Add links to stylesheet and fonts
        if let Some(s) = &self.config.site.style {
            // Link stylesheet
            output.append("<link rel=\"stylesheet\" href=\"/style.css\">\n\n");
            // Link fonts
            match s {
                SiteStyle::Tech => output.append(links.tech.as_str()),
                SiteStyle::Book => output.append(links.book.as_str()),
            }
            output.append("\n\n");
        }
        assert(output@ == "<!DOCTYPE html>\n<html>\n\n<head>\n\n"@ + analytics_element(self@, *read)
            + title_element(page_title@, self@.name) + style_element(self@, *links));
        // Add favicon
        if let Some(f) = &self.config.site.icon {
            output.append("<link rel=\"icon\" type=\"image/x-icon\" href=\"/");
            output.append(f.as_str());
            output.append("\">\n\n");
        }
        // Close head and open body
        output.append("</head>\n\n<body>\n\n");
        let ghost head = output@;
        assert(head == "<!DOCTYPE html>\n<html>\n\n<head>\n\n"@ + analytics_element(self@, *read)
            + title_element(page_title@, self@.name) + style_element(self@, *links) + icon_element(
            self@,
        ) + "</head>\n\n<body>\n\n"@);
        let ghost page = expression_views(expressions@);
        // Emit each expression
        let mut i: usize = 0;
        while i < expressions.len()
            invariant
                i <= expressions.len(),
                page == expression_views(expressions@),
                emittable(page),
                output@ == head + body(page.take(i as int), self@.menu),
            decreases expressions.len() - i,
        {
            proof {
                lemma_emittable(page);
                assert(page.take(i + 1).drop_last() =~= page.take(i as int));
            }
            match &expressions[i] {
                Expression::Menu => {
                    // Generate a menu; without one in the configuration, just skip
                    if let Some(m) = &self.config.menu {
                        output.append(Self::menu(m).as_str());
                    }
                },
                expression => {
                    // Output expression as normal
                    proof {
                        assert(page[i as int] == expression@);
                        assert(!(expression@ is Menu));
                    }
                    output.append(expression.html(true).as_str());
                },
            }
            i += 1;
        }
        assert(page.take(expressions.len() as int) =~= page);
        // Close body and document
        output.append("</body>\n\n</html>");
        output
    }

    /// Emit HTML code from a list of expressions, for the page of the given
    /// file name. Where the site has an analytics tag that could not be read,
    /// the result is that failure.
    pub fn emit(
        &self,
        expressions: Vec<Expression>,
        read: Option<AnalyticsRead>,
        links: &StyleLinks,
        filename: &str,
    ) -> (result: BlogResult<String>)
        requires
            emittable(expression_views(expressions@)),
        ensures
            match analytics_failure(self@, read) {
                Some(e) => {
                    &&& result is Failure
                    &&& result.errors().len() == 1
                    &&& result.errors()[0] matches BlogError::Context { context, source }
                    &&& context@ == analytics_context(read->Some_0.path@)
                    &&& *source == e
                },
                None => {
                    &&& result is Success
                    &&& result->Success_0@ == document(
                        expression_views(expressions@),
                        self@,
                        title_case(filename@),
                        read,
                        *links,
                    )
                },
            },
    {
        let page_title = to_title_case(filename);
        let output = self.emit_page(&expressions, &read, links, page_title.as_str());
        let result: BlogResult<String> = BlogResult::default();
        if self.config.analytics.is_some() {
            if let Some(r) = read {
                if let Err(e) = r.outcome {
                    let context = join3("could not read analytics tag '", r.path.as_str(), "'");
                    return result.err_context(e, context.as_str());
                }
            }
        }
        result.ok(output)
    }
}

} // verus!
