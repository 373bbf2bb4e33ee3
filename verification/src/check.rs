//! Validation of a parsed page before it is turned into HTML.

use vstd::prelude::*;
use vstd::string::*;
use crate::error::{ParseError, ParseErrorView};
use crate::expression::{expression_views, lemma_paragraph_view, Expression, ExpressionView};
use crate::grammar_facts::{flat, stands_inline};
use crate::result::{BlogError, BlogErrorLocation, LocationView};
use crate::text::join3;

verus! {

/// What the validator reports of one error: the file, the parser's message
/// and where in the file the error stands.
#[derive(PartialEq, Debug)]
pub struct Diagnostic {
    /// The file that was checked.
    pub filename: String,
    /// The parser's message.
    pub message: String,
    /// Where the error stands.
    pub location: BlogErrorLocation,
}

/// A diagnostic with its texts as sequences of characters.
pub struct DiagnosticView {
    pub filename: Seq<char>,
    pub message: Seq<char>,
    pub location: LocationView,
}

impl DiagnosticView {
    /// The line that tells the user of a diagnostic.
    pub open spec fn shown(self) -> Seq<char> {
        self.message + " ("@ + self.location.shown() + ")"@
    }
}

impl View for Diagnostic {
    type V = DiagnosticView;

    open spec fn view(&self) -> DiagnosticView {
        DiagnosticView {
            filename: self.filename@,
            message: self.message@,
            location: self.location@,
        }
    }
}

impl Clone for Diagnostic {
    fn clone(&self) -> (r: Self)
        ensures
            r == *self,
    {
        Diagnostic {
            filename: self.filename.clone(),
            message: self.message.clone(),
            location: self.location.clone(),
        }
    }
}

impl Diagnostic {
    /// The line that tells the user of this diagnostic: the message, and the
    /// location in parentheses.
    pub fn display(&self) -> (s: String)
        ensures
            s@ == self@.shown(),
    {
        let mut s = join3(self.message.as_str(), " (", self.location.display().as_str());
        s.append(")");
        s
    }

    /// This diagnostic as an error of the build.
    pub fn to_error(&self) -> (e: BlogError)
        ensures
            reports(e, self@),
    {
        BlogError::ParseError {
            message: self.message.clone(),
            filename: self.filename.clone(),
            location: self.location.clone(),
        }
    }
}

/// Whether a build error is the error of a diagnostic.
pub open spec fn reports(e: BlogError, d: DiagnosticView) -> bool {
    e matches BlogError::ParseError { message, filename, location } && message@ == d.message
        && filename@ == d.filename && location@ == d.location
}

/// The views of a list of diagnostics, in order.
pub open spec fn diagnostic_views(l: Seq<Diagnostic>) -> Seq<DiagnosticView> {
    l.map_values(|d: Diagnostic| d@)
}

/// Whether an expression can tell the user where an error stands: errors
/// and newlines cannot.
pub open spec fn locates(e: ExpressionView) -> bool {
    !(e is Error) && !(e is Newline)
}

/// Where the `i`-th of `siblings` stands: behind the nearest expression
/// before it that is neither an error nor a newline, or at the beginning of
/// the file where there is none.
pub open spec fn location_of(siblings: Seq<ExpressionView>, i: int) -> LocationView
    decreases i,
{
    if i <= 0 || i > siblings.len() {
        LocationView::Beginning
    } else if locates(siblings[i - 1]) {
        LocationView::After(siblings[i - 1].shown())
    } else {
        location_of(siblings, i - 1)
    }
}

/// The diagnostic of the error `p` that stands as the `i`-th of `siblings`.
pub open spec fn diagnostic_of(
    p: ParseErrorView,
    filename: Seq<char>,
    siblings: Seq<ExpressionView>,
    i: int,
) -> DiagnosticView {
    DiagnosticView { filename, message: p.message(), location: location_of(siblings, i) }
}

/// The diagnostics of the errors that stand among the first `n` of
/// `siblings`, in order.
pub open spec fn errors_among(siblings: Seq<ExpressionView>, filename: Seq<char>, n: int) -> Seq<
    DiagnosticView,
>
    decreases n,
{
    if n <= 0 || n > siblings.len() {
        Seq::empty()
    } else {
        errors_among(siblings, filename, n - 1) + (match siblings[n - 1] {
            ExpressionView::Error(p) => seq![diagnostic_of(p, filename, siblings, n - 1)],
            _ => Seq::empty(),
        })
    }
}

/// The diagnostics that the `i`-th expression of a page gives rise to: one
/// for an error, and for a paragraph one for each error among its children,
/// located among them.
pub open spec fn diagnostics_at(page: Seq<ExpressionView>, filename: Seq<char>, i: int) -> Seq<
    DiagnosticView,
> {
    match page[i] {
        ExpressionView::Error(p) => seq![diagnostic_of(p, filename, page, i)],
        ExpressionView::Paragraph(l) => errors_among(l, filename, l.len() as int),
        _ => Seq::empty(),
    }
}

/// The diagnostics of the first `n` expressions of a page, in order.
pub open spec fn diagnostics_upto(page: Seq<ExpressionView>, filename: Seq<char>, n: int) -> Seq<
    DiagnosticView,
>
    decreases n,
{
    if n <= 0 || n > page.len() {
        Seq::empty()
    } else {
        diagnostics_upto(page, filename, n - 1) + diagnostics_at(page, filename, n - 1)
    }
}

/// The diagnostics of a page.
pub open spec fn diagnostics(page: Seq<ExpressionView>, filename: Seq<char>) -> Seq<
    DiagnosticView,
> {
    diagnostics_upto(page, filename, page.len() as int)
}

/// A location names the nearest sibling before the error that can locate
/// it, whatever errors and newlines stand between the two.
pub proof fn lemma_location_of(siblings: Seq<ExpressionView>, i: int, j: int)
    requires
        0 <= j < i <= siblings.len(),
        locates(siblings[j]),
        forall|k: int| j < k < i ==> !locates(#[trigger] siblings[k]),
    ensures
        location_of(siblings, i) == LocationView::After(siblings[j].shown()),
    decreases i,
{
    if i - 1 > j {
        assert(!locates(siblings[i - 1]));
        lemma_location_of(siblings, i - 1, j);
    }
}

/// Where nothing before the error can locate it, it stands at the beginning
/// of the file.
pub proof fn lemma_location_beginning(siblings: Seq<ExpressionView>, i: int)
    requires
        0 <= i <= siblings.len(),
        forall|k: int| 0 <= k < i ==> !locates(#[trigger] siblings[k]),
    ensures
        location_of(siblings, i) == LocationView::Beginning,
    decreases i,
{
    if i > 0 {
        assert(!locates(siblings[i - 1]));
        lemma_location_beginning(siblings, i - 1);
    }
}

/// A list that holds no error gives no diagnostic.
proof fn lemma_no_errors_among(siblings: Seq<ExpressionView>, filename: Seq<char>, n: int)
    requires
        forall|i: int| 0 <= i < siblings.len() ==> !((#[trigger] siblings[i]) is Error),
    ensures
        errors_among(siblings, filename, n).len() == 0,
    decreases n,
{
    if 0 < n <= siblings.len() {
        lemma_no_errors_among(siblings, filename, n - 1);
        assert(!(siblings[n - 1] is Error));
    }
}

/// Of a page whose expressions are flat, as those of every parsed page are,
/// the first `n` expressions give no diagnostic exactly where none of them is
/// an error.
proof fn lemma_flat_upto(page: Seq<ExpressionView>, filename: Seq<char>, n: int)
    requires
        0 <= n <= page.len(),
        forall|i: int| 0 <= i < page.len() ==> flat(#[trigger] page[i]),
    ensures
        diagnostics_upto(page, filename, n).len() == 0 <==> (forall|i: int|
            0 <= i < n ==> !((#[trigger] page[i]) is Error)),
    decreases n,
{
    if n > 0 {
        lemma_flat_upto(page, filename, n - 1);
        assert(flat(page[n - 1]));
        match page[n - 1] {
            ExpressionView::Paragraph(l) => {
                assert forall|i: int| 0 <= i < l.len() implies !((#[trigger] l[i]) is Error) by {
                    assert(stands_inline(l[i]));
                }
                lemma_no_errors_among(l, filename, l.len() as int);
            },
            _ => {},
        }
        if forall|i: int| 0 <= i < n ==> !((#[trigger] page[i]) is Error) {
            assert(!(page[n - 1] is Error));
        }
    }
}

/// The validator finds every error of a parsed page at the top: a page
/// whose expressions are flat, as those of every parsed page are, is valid
/// exactly where none of its expressions is an error.
pub proof fn lemma_valid_flat_page(page: Seq<ExpressionView>, filename: Seq<char>)
    requires
        forall|i: int| 0 <= i < page.len() ==> flat(#[trigger] page[i]),
    ensures
        diagnostics(page, filename).len() == 0 <==> (forall|i: int|
            0 <= i < page.len() ==> !((#[trigger] page[i]) is Error)),
{
    lemma_flat_upto(page, filename, page.len() as int);
}

/// A tolerant error handler that validates a parsed page before conversion
/// to HTML.
pub struct Handler {}

impl Handler {
    /// Validate a list of expressions: the diagnostics of all the errors in
    /// it, in order. An empty list says that the page is valid.
    pub fn validate(expressions: &Vec<Expression>, filename: &str) -> (messages: Vec<Diagnostic>)
        ensures
            diagnostic_views(messages@) == diagnostics(expression_views(expressions@), filename@),
    {
        let ghost page = expression_views(expressions@);
        // Construct user-friendly output
        let mut messages: Vec<Diagnostic> = Vec::new();
        proof {
            assert(diagnostic_views(messages@) =~= Seq::<DiagnosticView>::empty());
        }
        // Iterate over all expressions
        let mut i: usize = 0;
        while i < expressions.len()
            invariant
                i <= expressions.len(),
                page == expression_views(expressions@),
                diagnostic_views(messages@) == diagnostics_upto(page, filename@, i as int),
            decreases expressions.len() - i,
        {
            let ghost before = messages@;
            match &expressions[i] {
                Expression::Error(p) => {
                    // Check individual expressions
                    let message = construct_error(p, filename, i, expressions);
                    proof {
                        assert(diagnostic_views(before.push(message)) =~= diagnostic_views(
                            before,
                        ).push(message@));
                    }
                    messages.push(message);
                },
                Expression::Paragraph(l) => {
                    // Check nested expressions
                    let ghost children = expression_views(l@);
                    proof {
                        lemma_paragraph_view(*l);
                        assert(diagnostic_views(before) + Seq::<DiagnosticView>::empty()
                            =~= diagnostic_views(before));
                    }
                    let mut j: usize = 0;
                    while j < l.len()
                        invariant
                            j <= l.len(),
                            children == expression_views(l@),
                            diagnostic_views(messages@) == diagnostic_views(before) + errors_among(
                                children,
                                filename@,
                                j as int,
                            ),
                        decreases l.len() - j,
                    {
                        let ghost inner = messages@;
                        if let Expression::Error(p) = &l[j] {
                            let message = construct_error(p, filename, j, l);
                            proof {
                                assert(diagnostic_views(inner.push(message)) =~= diagnostic_views(
                                    inner,
                                ).push(message@));
                            }
                            messages.push(message);
                        }
                        proof {
                            assert(diagnostic_views(messages@) =~= diagnostic_views(before)
                                + errors_among(children, filename@, j + 1));
                        }
                        j += 1;
                    }
                },
                _ => {
                    proof {
                        assert(diagnostic_views(before) + Seq::<DiagnosticView>::empty()
                            =~= diagnostic_views(before));
                    }
                },
            }
            i += 1;
        }
        messages
    }
}

/// Construct the diagnostic of the error `p`, which stands as the `i`-th of
/// `expressions`.
pub fn construct_error(p: &ParseError, filename: &str, i: usize, expressions: &Vec<Expression>) -> (d:
    Diagnostic)
    requires
        i <= expressions.len(),
    ensures
        d@ == diagnostic_of(p@, filename@, expression_views(expressions@), i as int),
{
    let ghost siblings = expression_views(expressions@);
    // Find location of error
    let mut location = BlogErrorLocation::Beginning;
    // Iterate backwards to find nearest valid expression
    let mut j: usize = i;
    while j > 0
        invariant_except_break
            location == BlogErrorLocation::Beginning,
            location_of(siblings, i as int) == location_of(siblings, j as int),
        invariant
            j <= i <= expressions.len(),
            siblings == expression_views(expressions@),
        ensures
            location@ == location_of(siblings, i as int),
        decreases j,
    {
        let prev = &expressions[j - 1];
        match prev {
            Expression::Error(_) => {},
            Expression::Newline => {},
            _ => {
                // Found the location!
                location = BlogErrorLocation::After(prev.display());
                break ;
            },
        }
        // Go back one more expresion
        j -= 1;
    }
    Diagnostic { filename: filename.to_owned(), message: p.display(), location }
}

} // verus!
