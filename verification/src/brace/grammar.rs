//! The brace grammar, stated over a sequence of tokens.

use vstd::prelude::*;
use crate::brace::error::BraceErrorView;
use crate::brace::expression::{first_error, ExpressionView};
use crate::brace::tokenizer::{discarded, TokenClass, TokenView};

verus! {

/// The kinds of arguments that a control sequence takes.
#[derive(Clone, Copy, PartialEq, Eq, Debug, Structural)]
pub enum ArgKind {
    /// Expressions in braces.
    List,
    /// One text in braces.
    Word,
}

/// An argument of a control sequence.
pub enum ArgView {
    List(Seq<ExpressionView>),
    Word(Seq<char>),
}

/// The arguments that each control sequence takes, if its name is known.
pub open spec fn signature(command: Seq<char>) -> Option<Seq<ArgKind>> {
    if command == "href"@ {
        Some(seq![ArgKind::List, ArgKind::Word])
    } else if command == "code"@ {
        Some(seq![ArgKind::Word, ArgKind::Word])
    } else if command == "tile"@ {
        Some(seq![ArgKind::List, ArgKind::Word, ArgKind::Word])
    } else if command == "tiledesc"@ {
        Some(seq![ArgKind::List, ArgKind::List, ArgKind::Word, ArgKind::Word])
    } else if command == "img"@ {
        Some(seq![ArgKind::Word, ArgKind::Word, ArgKind::Word])
    } else if command == "floating"@ {
        Some(seq![ArgKind::Word, ArgKind::Word])
    } else if command == "block"@ {
        Some(seq![ArgKind::List, ArgKind::List])
    } else if command == "pagename"@ {
        Some(seq![ArgKind::Word])
    } else if command == "footnotes"@ || command == "menu"@ || command == "date"@ {
        Some(Seq::empty())
    } else if wraps(command) {
        Some(seq![ArgKind::List])
    } else {
        None
    }
}

/// Whether a control sequence wraps one list of expressions.
pub open spec fn wraps(command: Seq<char>) -> bool {
    command == "bold"@ || command == "it"@ || command == "header"@ || command == "footer"@
        || command == "footnote"@ || command == "topblock"@ || command == "subtitle"@ || command
        == "subsubtitle"@ || command == "tiles"@
}

/// Whether arguments are of the kinds of a signature, in order.
pub open spec fn fits(args: Seq<ArgView>, kinds: Seq<ArgKind>) -> bool {
    &&& args.len() == kinds.len()
    &&& forall|i: int|
        0 <= i < args.len() ==> ((#[trigger] args[i]) is List <==> kinds[i] == ArgKind::List)
}

/// The expression of a control sequence that wraps one list.
pub open spec fn wrapped(command: Seq<char>, inside: Seq<ExpressionView>) -> ExpressionView {
    if command == "bold"@ {
        ExpressionView::Bold(inside)
    } else if command == "it"@ {
        ExpressionView::Italic(inside)
    } else if command == "header"@ {
        ExpressionView::Header(inside)
    } else if command == "footer"@ {
        ExpressionView::Footer(inside)
    } else if command == "footnote"@ {
        ExpressionView::Footnote(inside)
    } else if command == "topblock"@ {
        ExpressionView::Topblock(inside)
    } else if command == "subtitle"@ {
        ExpressionView::Subtitle(inside)
    } else if command == "subsubtitle"@ {
        ExpressionView::Subsubtitle(inside)
    } else {
        ExpressionView::Tiles(inside)
    }
}

/// The expression of a control sequence, from its name and its arguments.
pub open spec fn assembled(command: Seq<char>, args: Seq<ArgView>) -> ExpressionView
    recommends
        signature(command) is Some,
        fits(args, signature(command)->Some_0),
{
    if command == "href"@ {
        ExpressionView::Hyperlink { name: args[0]->List_0, href: args[1]->Word_0 }
    } else if command == "code"@ {
        ExpressionView::Code { language: args[0]->Word_0, code: args[1]->Word_0 }
    } else if command == "tile"@ {
        ExpressionView::Tile {
            name: args[0]->List_0,
            img: args[1]->Word_0,
            href: args[2]->Word_0,
        }
    } else if command == "tiledesc"@ {
        ExpressionView::TileDesc {
            name: args[0]->List_0,
            desc: args[1]->List_0,
            img: args[2]->Word_0,
            href: args[3]->Word_0,
        }
    } else if command == "img"@ {
        ExpressionView::Image {
            img: args[0]->Word_0,
            alt: args[1]->Word_0,
            scale: args[2]->Word_0,
        }
    } else if command == "floating"@ {
        ExpressionView::FloatingImage { img: args[0]->Word_0, alt: args[1]->Word_0 }
    } else if command == "block"@ {
        ExpressionView::BlockQuote { quote: args[0]->List_0, citation: args[1]->List_0 }
    } else if command == "pagename"@ {
        ExpressionView::Pagename(args[0]->Word_0)
    } else if command == "footnotes"@ {
        ExpressionView::Footnotes
    } else if command == "menu"@ {
        ExpressionView::Menu
    } else if command == "date"@ {
        ExpressionView::Date
    } else {
        wrapped(command, args[0]->List_0)
    }
}

/// The position behind the token at `pos`, or `pos` at the end of the
/// input.
pub open spec fn behind(tokens: Seq<TokenView>, pos: int) -> int {
    if 0 <= pos < tokens.len() {
        pos + 1
    } else {
        pos
    }
}

/// One text in braces.
pub open spec fn word_group(tokens: Seq<TokenView>, pos: int) -> (
    Result<Seq<char>, BraceErrorView>,
    int,
) {
    if let Some(e) = discarded(tokens, pos, TokenClass::OpenCurly) {
        (Err(e), behind(tokens, pos))
    } else if let Some(e) = discarded(tokens, pos + 1, TokenClass::Alphanumeric) {
        (Err(e), behind(tokens, pos + 1))
    } else if let Some(e) = discarded(tokens, pos + 2, TokenClass::CloseCurly) {
        (Err(e), behind(tokens, pos + 2))
    } else {
        (Ok(tokens[pos + 1].value), pos + 3)
    }
}

/// The heading of a given number of hashes; an error that its content holds
/// takes its place.
pub open spec fn hashed(hashes: Seq<char>, inside: Seq<ExpressionView>) -> ExpressionView {
    if let Some(e) = first_error(inside) {
        ExpressionView::Error(e)
    } else if hashes.len() == 1 {
        ExpressionView::Title(inside)
    } else if hashes.len() == 2 {
        ExpressionView::Heading(inside)
    } else if hashes.len() == 3 {
        ExpressionView::Subheading(inside)
    } else {
        ExpressionView::Error(BraceErrorView::TooManyHashes(hashes))
    }
}

/// The paragraph of a list of expressions; an error that it holds takes
/// its place.
pub open spec fn paragraph_of(inside: Seq<ExpressionView>) -> ExpressionView {
    if let Some(e) = first_error(inside) {
        ExpressionView::Error(e)
    } else {
        ExpressionView::Paragraph(inside)
    }
}

/// Whether a token is blank: a newline, or a text that is empty.
pub open spec fn blank(token: TokenView) -> bool {
    token.class == TokenClass::Newline || (token.class == TokenClass::Alphanumeric
        && token.value.len() == 0)
}

/// The end of the run of blank tokens that starts at `pos`.
pub open spec fn blank_end(tokens: Seq<TokenView>, pos: int) -> int
    decreases tokens.len() - pos,
{
    if 0 <= pos < tokens.len() && blank(tokens[pos]) {
        blank_end(tokens, pos + 1)
    } else {
        pos
    }
}

/// The expressions from `pos` on, as long as the class of the next token
/// binds more strongly than `min`. (Every expression reads at least one
/// token, by `lemma_expression_at`; the bounds on `next`, here and in `groups`,
/// only show that the reading ends.)
pub open spec fn sequence(tokens: Seq<TokenView>, pos: int, min: nat) -> (
    Seq<ExpressionView>,
    int,
)
    decreases tokens.len() - pos, 1int,
{
    if 0 <= pos < tokens.len() && tokens[pos].class.precedence() > min {
        let (first, next) = expression_at(tokens, pos);
        if pos < next <= tokens.len() {
            (seq![first] + sequence(tokens, next, min).0, sequence(tokens, next, min).1)
        } else {
            (seq![first], next)
        }
    } else {
        (Seq::empty(), pos)
    }
}

/// The expression that starts at `pos`.
pub open spec fn expression_at(tokens: Seq<TokenView>, pos: int) -> (ExpressionView, int)
    decreases tokens.len() - pos, 0int,
{
    if !(0 <= pos < tokens.len()) {
        (ExpressionView::Error(BraceErrorView::UnexpectedEof), pos)
    } else {
        let token = tokens[pos];
        match token.class {
            TokenClass::Alphanumeric => (ExpressionView::Alphanumeric(token.value), pos + 1),
            TokenClass::Control => control(tokens, pos + 1),
            TokenClass::Hash => (
                hashed(token.value, sequence(tokens, pos + 1, token.class.precedence()).0),
                sequence(tokens, pos + 1, token.class.precedence()).1,
            ),
            TokenClass::Newline => (ExpressionView::Newline, blank_end(tokens, pos + 1)),
            TokenClass::BeginParagraph => (
                paragraph_of(sequence(tokens, pos + 1, token.class.precedence()).0),
                sequence(tokens, pos + 1, token.class.precedence()).1,
            ),
            class => (ExpressionView::Error(BraceErrorView::NoParselet(class)), pos + 1),
        }
    }
}

/// Expressions in braces, up to the closing brace. An error among them
/// takes their place.
pub open spec fn list_group(tokens: Seq<TokenView>, pos: int) -> (
    Result<Seq<ExpressionView>, BraceErrorView>,
    int,
)
    decreases tokens.len() - pos, 2int,
{
    if let Some(e) = discarded(tokens, pos, TokenClass::OpenCurly) {
        (Err(e), behind(tokens, pos))
    } else {
        let (inside, next) = sequence(tokens, pos + 1, TokenClass::OpenCurly.precedence());
        if let Some(e) = first_error(inside) {
            (Err(e), next)
        } else if let Some(e) = discarded(tokens, next, TokenClass::CloseCurly) {
            (Err(e), behind(tokens, next))
        } else {
            (Ok(inside), next + 1)
        }
    }
}

/// The arguments of a control sequence from its `k`-th on, behind those
/// in `read`. The first argument that is in error ends the reading.
pub open spec fn groups(
    tokens: Seq<TokenView>,
    pos: int,
    kinds: Seq<ArgKind>,
    k: int,
    read: Seq<ArgView>,
) -> (Result<Seq<ArgView>, BraceErrorView>, int)
    decreases tokens.len() - pos, 3int,
{
    if !(0 <= k < kinds.len()) {
        (Ok(read), pos)
    } else if kinds[k] == ArgKind::List {
        match list_group(tokens, pos) {
            (Err(e), next) => (Err(e), next),
            (Ok(inside), next) => if pos < next <= tokens.len() {
                groups(tokens, next, kinds, k + 1, read.push(ArgView::List(inside)))
            } else {
                (Ok(read.push(ArgView::List(inside))), next)
            },
        }
    } else {
        match word_group(tokens, pos) {
            (Err(e), next) => (Err(e), next),
            (Ok(word), next) => if pos < next <= tokens.len() {
                groups(tokens, next, kinds, k + 1, read.push(ArgView::Word(word)))
            } else {
                (Ok(read.push(ArgView::Word(word))), next)
            },
        }
    }
}

/// A control sequence, behind its backslash: a name, then its arguments.
pub open spec fn control(tokens: Seq<TokenView>, pos: int) -> (ExpressionView, int)
    decreases tokens.len() - pos, 4int,
{
    if let Some(e) = discarded(tokens, pos, TokenClass::Alphanumeric) {
        (ExpressionView::Error(e), behind(tokens, pos))
    } else {
        let command = tokens[pos].value;
        match signature(command) {
            None => (
                ExpressionView::Error(BraceErrorView::UnrecognizedControlSequence(command)),
                pos + 1,
            ),
            Some(kinds) => match groups(tokens, pos + 1, kinds, 0, Seq::empty()) {
                (Err(e), next) => (ExpressionView::Error(e), next),
                (Ok(args), next) => (assembled(command, args), next),
            },
        }
    }
}

/// The expressions of a page.
pub open spec fn parsed(tokens: Seq<TokenView>) -> Seq<ExpressionView> {
    sequence(tokens, 0, 0).0
}

/// A run of blank tokens ends within the tokens.
pub proof fn lemma_blank_end(tokens: Seq<TokenView>, pos: int)
    requires
        0 <= pos <= tokens.len(),
    ensures
        pos <= blank_end(tokens, pos) <= tokens.len(),
    decreases tokens.len() - pos,
{
    if pos < tokens.len() && blank(tokens[pos]) {
        lemma_blank_end(tokens, pos + 1);
    }
}

/// A text in braces ends within the tokens.
pub proof fn lemma_word_group(tokens: Seq<TokenView>, pos: int)
    requires
        0 <= pos <= tokens.len(),
    ensures
        pos <= word_group(tokens, pos).1 <= tokens.len(),
        word_group(tokens, pos).0 is Ok ==> pos < word_group(tokens, pos).1,
{
}

/// A sequence of expressions ends within the tokens.
pub proof fn lemma_sequence(tokens: Seq<TokenView>, pos: int, min: nat)
    requires
        0 <= pos <= tokens.len(),
    ensures
        pos <= sequence(tokens, pos, min).1 <= tokens.len(),
    decreases tokens.len() - pos, 1int,
{
    if pos < tokens.len() && tokens[pos].class.precedence() > min {
        lemma_expression_at(tokens, pos);
        let next = expression_at(tokens, pos).1;
        lemma_sequence(tokens, next, min);
    }
}

/// Every expression reads its first token and ends within the tokens.
pub proof fn lemma_expression_at(tokens: Seq<TokenView>, pos: int)
    requires
        0 <= pos < tokens.len(),
    ensures
        pos < expression_at(tokens, pos).1 <= tokens.len(),
    decreases tokens.len() - pos, 0int,
{
    let token = tokens[pos];
    match token.class {
        TokenClass::Control => {
            lemma_control(tokens, pos + 1);
        },
        TokenClass::Hash => {
            lemma_sequence(tokens, pos + 1, token.class.precedence());
        },
        TokenClass::Newline => {
            lemma_blank_end(tokens, pos + 1);
        },
        TokenClass::BeginParagraph => {
            lemma_sequence(tokens, pos + 1, token.class.precedence());
        },
        _ => {},
    }
}

/// Expressions in braces end within the tokens.
pub proof fn lemma_list_group(tokens: Seq<TokenView>, pos: int)
    requires
        0 <= pos <= tokens.len(),
    ensures
        pos <= list_group(tokens, pos).1 <= tokens.len(),
        list_group(tokens, pos).0 is Ok ==> pos < list_group(tokens, pos).1,
    decreases tokens.len() - pos, 2int,
{
    if discarded(tokens, pos, TokenClass::OpenCurly) is None {
        lemma_sequence(tokens, pos + 1, TokenClass::OpenCurly.precedence());
    }
}

/// The arguments of a control sequence end within the tokens.
pub proof fn lemma_groups(
    tokens: Seq<TokenView>,
    pos: int,
    kinds: Seq<ArgKind>,
    k: int,
    read: Seq<ArgView>,
)
    requires
        0 <= pos <= tokens.len(),
    ensures
        pos <= groups(tokens, pos, kinds, k, read).1 <= tokens.len(),
    decreases tokens.len() - pos, 3int,
{
    if 0 <= k < kinds.len() {
        if kinds[k] == ArgKind::List {
            lemma_list_group(tokens, pos);
            match list_group(tokens, pos) {
                (Ok(inside), next) => {
                    lemma_groups(tokens, next, kinds, k + 1, read.push(ArgView::List(inside)));
                },
                _ => {},
            }
        } else {
            lemma_word_group(tokens, pos);
            match word_group(tokens, pos) {
                (Ok(word), next) => {
                    lemma_groups(tokens, next, kinds, k + 1, read.push(ArgView::Word(word)));
                },
                _ => {},
            }
        }
    }
}

/// A control sequence ends within the tokens.
pub proof fn lemma_control(tokens: Seq<TokenView>, pos: int)
    requires
        0 <= pos <= tokens.len(),
    ensures
        pos <= control(tokens, pos).1 <= tokens.len(),
    decreases tokens.len() - pos, 4int,
{
    if discarded(tokens, pos, TokenClass::Alphanumeric) is None {
        let command = tokens[pos].value;
        if let Some(kinds) = signature(command) {
            lemma_groups(tokens, pos + 1, kinds, 0, Seq::empty());
        }
    }
}

} // verus!
