//! The grammar of the markup language, stated over a sequence of tokens.
//!
//! Every function here takes the tokens of a page and a position in them,
//! and says which expression starts there and where the next one begins.

use vstd::prelude::*;
use crate::error::ParseErrorView;
use crate::expression::ExpressionView;
use crate::text::trimmed;
use crate::token::{TokenClass, TokenView};

verus! {

/// How many of the classes of `pattern`, from its `k`-th on, the tokens from
/// `pos + k` on bear in turn: the index in `pattern` of the first class
/// that its token does not bear, or the length of `pattern`.
pub open spec fn first_miss(
    tokens: Seq<TokenView>,
    pos: int,
    pattern: Seq<TokenClass>,
    k: int,
) -> int
    decreases pattern.len() - k,
{
    if 0 <= k < pattern.len() && 0 <= pos + k < tokens.len() && tokens[pos + k].class
        == pattern[k] {
        first_miss(tokens, pos, pattern, k + 1)
    } else {
        k
    }
}

/// Whether the tokens from `pos` on bear the classes of `pattern` in turn.
pub open spec fn conforms(tokens: Seq<TokenView>, pos: int, pattern: Seq<TokenClass>) -> bool {
    first_miss(tokens, pos, pattern, 0) >= pattern.len()
}

/// The error that reading `pattern` from `pos` on ends in: past the last
/// token the input has ended too early, otherwise the token at the first
/// miss was expected to be of another class.
pub open spec fn miss_error(
    tokens: Seq<TokenView>,
    pos: int,
    pattern: Seq<TokenClass>,
) -> ParseErrorView
    recommends
        !conforms(tokens, pos, pattern),
{
    let k = first_miss(tokens, pos, pattern, 0);
    if pos + k >= tokens.len() {
        ParseErrorView::UnexpectedEof
    } else {
        ParseErrorView::ExpectedToken(pattern[k])
    }
}

/// Where the reading of `pattern` from `pos` on stops: behind the pattern,
/// or behind the token at the first miss, which is read too.
pub open spec fn miss_next(tokens: Seq<TokenView>, pos: int, pattern: Seq<TokenClass>) -> int {
    let k = first_miss(tokens, pos, pattern, 0);
    if k >= pattern.len() || pos + k >= tokens.len() {
        pos + k
    } else {
        pos + k + 1
    }
}

/// The classes of a heading's body.
pub open spec fn text_pattern() -> Seq<TokenClass> {
    seq![TokenClass::Paragraph]
}

/// The classes that follow the `[` of a hyperlink.
pub open spec fn link_pattern() -> Seq<TokenClass> {
    seq![
        TokenClass::Paragraph,
        TokenClass::CloseSquare,
        TokenClass::OpenParen,
        TokenClass::Paragraph,
        TokenClass::CloseParen,
    ]
}

/// The classes of a bracketed argument.
pub open spec fn argument_pattern() -> Seq<TokenClass> {
    seq![TokenClass::OpenSquare, TokenClass::Paragraph, TokenClass::CloseSquare]
}

/// The heading of a given number of hashes: six levels, and an error beyond.
pub open spec fn heading(level: nat, body: Seq<char>) -> ExpressionView {
    if level == 1 {
        ExpressionView::H1(body)
    } else if level == 2 {
        ExpressionView::H2(body)
    } else if level == 3 {
        ExpressionView::H3(body)
    } else if level == 4 {
        ExpressionView::H4(body)
    } else if level == 5 {
        ExpressionView::H5(body)
    } else if level == 6 {
        ExpressionView::H6(body)
    } else {
        ExpressionView::Error(ParseErrorView::TooManyHashes)
    }
}

/// A heading, behind its hashes: one text token, trimmed.
pub open spec fn header(tokens: Seq<TokenView>, pos: int, hashes: Seq<char>) -> (
    ExpressionView,
    int,
) {
    if conforms(tokens, pos, text_pattern()) {
        (heading(hashes.len(), trimmed(tokens[pos].value)), pos + 1)
    } else {
        (
            ExpressionView::Error(miss_error(tokens, pos, text_pattern())),
            miss_next(tokens, pos, text_pattern()),
        )
    }
}

/// A hyperlink, behind its `[`: `label](href)`, both texts trimmed.
pub open spec fn hyperlink(tokens: Seq<TokenView>, pos: int) -> (ExpressionView, int) {
    if conforms(tokens, pos, link_pattern()) {
        (
            ExpressionView::Href {
                text: trimmed(tokens[pos].value),
                href: trimmed(tokens[pos + 3].value),
            },
            pos + 5,
        )
    } else {
        (
            ExpressionView::Error(miss_error(tokens, pos, link_pattern())),
            miss_next(tokens, pos, link_pattern()),
        )
    }
}

/// A bracketed argument `[value]`: its trimmed text, or the error.
pub open spec fn argument(tokens: Seq<TokenView>, pos: int) -> (ExpressionView, int) {
    if conforms(tokens, pos, argument_pattern()) {
        (ExpressionView::Text(trimmed(tokens[pos + 1].value)), pos + 3)
    } else {
        (
            ExpressionView::Error(miss_error(tokens, pos, argument_pattern())),
            miss_next(tokens, pos, argument_pattern()),
        )
    }
}

/// Whether a marker stands for italics.
pub open spec fn italic_marker(marker: Seq<char>) -> bool {
    marker == "_"@ || marker == "*"@
}

/// Whether a marker stands for bold text.
pub open spec fn bold_marker(marker: Seq<char>) -> bool {
    marker == "__"@ || marker == "**"@
}

/// Whether a marker stands for bold italics.
pub open spec fn bold_italic_marker(marker: Seq<char>) -> bool {
    marker == "__*"@ || marker == "***"@ || marker == "**_"@ || marker == "___"@
}

/// Whether a marker is one of the emphasis markers.
pub open spec fn emphasis_marker(marker: Seq<char>) -> bool {
    italic_marker(marker) || bold_marker(marker) || bold_italic_marker(marker)
}

/// The emphasized text that a marker makes of a text.
pub open spec fn emphasized(marker: Seq<char>, text: Seq<char>) -> ExpressionView {
    if italic_marker(marker) {
        ExpressionView::Italics(text)
    } else if bold_marker(marker) {
        ExpressionView::Bold(text)
    } else if bold_italic_marker(marker) {
        ExpressionView::BoldItalics(text)
    } else {
        ExpressionView::Error(ParseErrorView::UnrecognizedEmphasis)
    }
}

/// What follows an opening marker: one text token, then a token whose text
/// is the marker again.
pub open spec fn emphasis_body(tokens: Seq<TokenView>, pos: int, marker: Seq<char>) -> (
    ExpressionView,
    int,
) {
    if pos >= tokens.len() {
        (ExpressionView::Error(ParseErrorView::UnexpectedEof), pos)
    } else if tokens[pos].class != TokenClass::Paragraph {
        (ExpressionView::Error(ParseErrorView::ExpectedToken(TokenClass::Paragraph)), pos + 1)
    } else if pos + 1 >= tokens.len() {
        (ExpressionView::Error(ParseErrorView::UnexpectedEof), pos + 1)
    } else if tokens[pos + 1].value != marker {
        (ExpressionView::Error(ParseErrorView::MismatchedDelimiters), pos + 2)
    } else {
        (emphasized(marker, tokens[pos].value), pos + 2)
    }
}

/// Emphasized text, behind its opening marker. A marker that is none of
/// the emphasis markers is an error, and nothing more is read.
pub open spec fn emphasis(tokens: Seq<TokenView>, pos: int, marker: Seq<char>) -> (
    ExpressionView,
    int,
) {
    if emphasis_marker(marker) {
        emphasis_body(tokens, pos, marker)
    } else {
        (ExpressionView::Error(ParseErrorView::UnrecognizedEmphasis), pos)
    }
}

/// How many arguments a control sequence takes, if its name is known.
pub open spec fn arity(name: Seq<char>) -> Option<nat> {
    if name == "wip"@ {
        Some(1nat)
    } else if name == "image"@ {
        Some(2nat)
    } else if name == "float"@ {
        Some(2nat)
    } else if name == "notice"@ {
        Some(1nat)
    } else if name == "tile"@ {
        Some(4nat)
    } else {
        None
    }
}

/// The expression of a control sequence with the right number of arguments.
pub open spec fn assembled(name: Seq<char>, values: Seq<Seq<char>>) -> ExpressionView
    recommends
        arity(name) == Some(values.len()),
{
    if name == "wip"@ {
        ExpressionView::Wip(values[0])
    } else if name == "image"@ {
        ExpressionView::Image { alt: values[0], href: values[1] }
    } else if name == "float"@ {
        ExpressionView::FloatImage { alt: values[0], href: values[1] }
    } else if name == "notice"@ {
        ExpressionView::Notice(values[0])
    } else {
        ExpressionView::Tile {
            title: values[0],
            description: values[1],
            href: values[2],
            image: values[3],
        }
    }
}

/// The expression of a control sequence, from its name and its arguments.
pub open spec fn built(name: Seq<char>, values: Seq<Seq<char>>) -> ExpressionView {
    match arity(name) {
        None => ExpressionView::Error(ParseErrorView::UnrecognizedControl(name)),
        Some(expected) => if values.len() != expected {
            ExpressionView::Error(
                ParseErrorView::IncorrectArgumentCount {
                    expected,
                    actual: values.len(),
                    control: name,
                },
            )
        } else {
            assembled(name, values)
        },
    }
}

/// The arguments of a control sequence: bracketed arguments as long as a `[`
/// comes next. The first argument that is in error ends the reading. (An
/// argument that conforms ends within the tokens; the bound beside
/// `conforms` only shows that the reading ends.)
pub open spec fn arguments(
    tokens: Seq<TokenView>,
    pos: int,
    name: Seq<char>,
    values: Seq<Seq<char>>,
) -> (ExpressionView, int)
    decreases tokens.len() - pos,
{
    if 0 <= pos < tokens.len() && tokens[pos].class == TokenClass::OpenSquare {
        if conforms(tokens, pos, argument_pattern()) && pos + 3 <= tokens.len() {
            arguments(tokens, pos + 3, name, values.push(trimmed(tokens[pos + 1].value)))
        } else {
            argument(tokens, pos)
        }
    } else {
        (built(name, values), pos)
    }
}

/// A control sequence, behind its marker: a name, then its arguments.
pub open spec fn control(tokens: Seq<TokenView>, pos: int) -> (ExpressionView, int) {
    if conforms(tokens, pos, text_pattern()) {
        arguments(tokens, pos + 1, trimmed(tokens[pos].value), Seq::empty())
    } else {
        (
            ExpressionView::Error(miss_error(tokens, pos, text_pattern())),
            miss_next(tokens, pos, text_pattern()),
        )
    }
}

/// The end of the run of newline tokens that starts at `pos`.
pub open spec fn newlines_end(tokens: Seq<TokenView>, pos: int) -> int
    decreases tokens.len() - pos,
{
    if 0 <= pos < tokens.len() && tokens[pos].class == TokenClass::Newline {
        newlines_end(tokens, pos + 1)
    } else {
        pos
    }
}

/// Whether a token of this class is literal content of a paragraph.
pub open spec fn paragraph_text(class: TokenClass) -> bool {
    class == TokenClass::Paragraph || class == TokenClass::OpenParen || class
        == TokenClass::CloseParen
}

/// The expression that starts at `pos` with a token of any class but text.
pub open spec fn construct(tokens: Seq<TokenView>, pos: int) -> (ExpressionView, int)
    recommends
        0 <= pos < tokens.len(),
        tokens[pos].class != TokenClass::Paragraph,
{
    let token = tokens[pos];
    match token.class {
        TokenClass::Hashes => header(tokens, pos + 1, token.value),
        TokenClass::Newline => (ExpressionView::Newline, newlines_end(tokens, pos + 1)),
        TokenClass::Menu => (ExpressionView::Menu, pos + 1),
        TokenClass::OpenSquare => hyperlink(tokens, pos + 1),
        TokenClass::Emphasis => emphasis(tokens, pos + 1, token.value),
        TokenClass::Control => control(tokens, pos + 1),
        class => (ExpressionView::Error(ParseErrorView::NoParselet(class)), pos + 1),
    }
}

/// A paragraph, behind its first text token: text and parentheses are
/// literal, any other token starts a construct of its own, and a newline, which
/// is read too, or the end of the input closes the paragraph. A construct that
/// is in error takes the paragraph's place. (Every construct reads at least
/// one token, by `lemma_construct`; the bounds on `next` only show that the
/// reading ends.)
pub open spec fn paragraph(tokens: Seq<TokenView>, pos: int, content: Seq<ExpressionView>) -> (
    ExpressionView,
    int,
)
    decreases tokens.len() - pos,
{
    if !(0 <= pos < tokens.len()) {
        (ExpressionView::Paragraph(content), pos)
    } else if tokens[pos].class == TokenClass::Newline {
        (ExpressionView::Paragraph(content), pos + 1)
    } else if paragraph_text(tokens[pos].class) {
        paragraph(tokens, pos + 1, content.push(ExpressionView::Text(tokens[pos].value)))
    } else {
        let (inner, next) = construct(tokens, pos);
        if inner is Error || !(pos < next <= tokens.len()) {
            (inner, next)
        } else {
            paragraph(tokens, next, content.push(inner))
        }
    }
}

/// The expression that starts at `pos`.
pub open spec fn expression_at(tokens: Seq<TokenView>, pos: int) -> (ExpressionView, int)
    recommends
        0 <= pos < tokens.len(),
{
    if tokens[pos].class == TokenClass::Paragraph {
        paragraph(tokens, pos + 1, seq![ExpressionView::Text(tokens[pos].value)])
    } else {
        construct(tokens, pos)
    }
}

/// The expressions of the tokens from `pos` on. (Every expression reads at
/// least one token, by `lemma_expression_at`; the bounds on `next` only show
/// that the reading ends.)
pub open spec fn expressions_from(tokens: Seq<TokenView>, pos: int) -> Seq<ExpressionView>
    decreases tokens.len() - pos,
{
    if !(0 <= pos < tokens.len()) {
        Seq::empty()
    } else {
        let (first, next) = expression_at(tokens, pos);
        if pos < next <= tokens.len() {
            seq![first] + expressions_from(tokens, next)
        } else {
            seq![first]
        }
    }
}

/// The expressions of a page.
pub open spec fn parsed(tokens: Seq<TokenView>) -> Seq<ExpressionView> {
    expressions_from(tokens, 0)
}

/// `first_miss` lies between `k` and the pattern's length; the tokens before
/// it bear their classes, and the token at it does not.
pub proof fn lemma_first_miss(tokens: Seq<TokenView>, pos: int, pattern: Seq<TokenClass>, k: int)
    requires
        0 <= k <= pattern.len(),
        0 <= pos,
    ensures
        k <= first_miss(tokens, pos, pattern, k) <= pattern.len(),
        forall|j: int|
            k <= j < first_miss(tokens, pos, pattern, k) ==> pos + j < tokens.len() && (
            #[trigger] tokens[pos + j]).class == pattern[j],
        first_miss(tokens, pos, pattern, k) < pattern.len() ==> pos + first_miss(
            tokens,
            pos,
            pattern,
            k,
        ) >= tokens.len() || tokens[pos + first_miss(tokens, pos, pattern, k)].class
            != pattern[first_miss(tokens, pos, pattern, k)],
    decreases pattern.len() - k,
{
    if k < pattern.len() && pos + k < tokens.len() && tokens[pos + k].class == pattern[k] {
        lemma_first_miss(tokens, pos, pattern, k + 1);
        assert forall|j: int|
            k <= j < first_miss(tokens, pos, pattern, k) implies pos + j < tokens.len() && (
        #[trigger] tokens[pos + j]).class == pattern[j] by {
            if j > k {
            }
        }
    }
}

/// Reading a pattern stops within the tokens, and behind at least as many
/// tokens as were there to read.
pub proof fn lemma_miss_next(tokens: Seq<TokenView>, pos: int, pattern: Seq<TokenClass>)
    requires
        0 <= pos <= tokens.len(),
    ensures
        pos <= miss_next(tokens, pos, pattern) <= tokens.len(),
        conforms(tokens, pos, pattern) ==> miss_next(tokens, pos, pattern) == pos
            + pattern.len(),
{
    lemma_first_miss(tokens, pos, pattern, 0);
    let k = first_miss(tokens, pos, pattern, 0);
    if k > 0 {
        assert(pos + (k - 1) < tokens.len() && tokens[pos + (k - 1)].class == pattern[k - 1]);
    }
}

/// A run of newlines ends within the tokens.
pub proof fn lemma_newlines_end(tokens: Seq<TokenView>, pos: int)
    requires
        0 <= pos <= tokens.len(),
    ensures
        pos <= newlines_end(tokens, pos) <= tokens.len(),
    decreases tokens.len() - pos,
{
    if pos < tokens.len() && tokens[pos].class == TokenClass::Newline {
        lemma_newlines_end(tokens, pos + 1);
    }
}

/// The arguments of a control sequence end within the tokens.
pub proof fn lemma_arguments(
    tokens: Seq<TokenView>,
    pos: int,
    name: Seq<char>,
    values: Seq<Seq<char>>,
)
    requires
        0 <= pos <= tokens.len(),
    ensures
        pos <= arguments(tokens, pos, name, values).1 <= tokens.len(),
    decreases tokens.len() - pos,
{
    if pos < tokens.len() && tokens[pos].class == TokenClass::OpenSquare {
        lemma_miss_next(tokens, pos, argument_pattern());
        if conforms(tokens, pos, argument_pattern()) {
            lemma_arguments(tokens, pos + 3, name, values.push(trimmed(tokens[pos + 1].value)));
        }
    }
}

/// Every construct reads its first token and ends within the tokens.
pub proof fn lemma_construct(tokens: Seq<TokenView>, pos: int)
    requires
        0 <= pos < tokens.len(),
    ensures
        pos < construct(tokens, pos).1 <= tokens.len(),
{
    lemma_miss_next(tokens, pos + 1, text_pattern());
    lemma_miss_next(tokens, pos + 1, link_pattern());
    lemma_newlines_end(tokens, pos + 1);
    if conforms(tokens, pos + 1, text_pattern()) {
        lemma_arguments(tokens, pos + 2, trimmed(tokens[pos + 1].value), Seq::empty());
    }
}

/// A paragraph ends within the tokens.
pub proof fn lemma_paragraph(tokens: Seq<TokenView>, pos: int, content: Seq<ExpressionView>)
    requires
        0 <= pos <= tokens.len(),
    ensures
        pos <= paragraph(tokens, pos, content).1 <= tokens.len(),
    decreases tokens.len() - pos,
{
    if pos < tokens.len() && tokens[pos].class != TokenClass::Newline {
        if paragraph_text(tokens[pos].class) {
            lemma_paragraph(tokens, pos + 1, content.push(ExpressionView::Text(tokens[pos].value)));
        } else {
            lemma_construct(tokens, pos);
            let (inner, next) = construct(tokens, pos);
            if !(inner is Error) {
                lemma_paragraph(tokens, next, content.push(inner));
            }
        }
    }
}

/// Every expression reads at least one token and ends within the tokens.
pub proof fn lemma_expression_at(tokens: Seq<TokenView>, pos: int)
    requires
        0 <= pos < tokens.len(),
    ensures
        pos < expression_at(tokens, pos).1 <= tokens.len(),
{
    if tokens[pos].class == TokenClass::Paragraph {
        lemma_paragraph(tokens, pos + 1, seq![ExpressionView::Text(tokens[pos].value)]);
    } else {
        lemma_construct(tokens, pos);
    }
}

} // verus!
