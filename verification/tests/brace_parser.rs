use blog::brace::alphanumeric_parselet::AlphanumericParselet;
use blog::brace::control_parselet::{assemble, read_groups, signature_of, Arg};
use blog::brace::error::BraceError;
use blog::brace::expression::{find_error, Expression};
use blog::brace::grammar::ArgKind;
use blog::brace::parser::Parser;
use blog::brace::prefix_parselet::PrefixParselet;
use blog::brace::tokenizer::{Token, TokenClass, Tokenizer};

fn parse(source: &str) -> Vec<Expression> {
    Parser::new().parse(source.to_string())
}

fn word(text: &str) -> Expression {
    Expression::Alphanumeric(text.to_string())
}

fn s(text: &str) -> String {
    text.to_string()
}

#[test]
fn heading_then_text() {
    assert_eq!(
        parse("# Title\ntext"),
        vec![Expression::Title(vec![word("Title")]), Expression::Newline, word("text")]
    );
}

#[test]
fn heading_levels_of_the_brace_grammar() {
    assert_eq!(parse("## a"), vec![Expression::Heading(vec![word("a")])]);
    assert_eq!(parse("### a"), vec![Expression::Subheading(vec![word("a")])]);
    assert_eq!(
        parse("#### a"),
        vec![Expression::Error(BraceError::TooManyHashes(s("####")))]
    );
}

#[test]
fn wrapping_control_sequences() {
    assert_eq!(parse("\\bold{hi}"), vec![Expression::Bold(vec![word("hi")])]);
    assert_eq!(parse("\\it{hi}"), vec![Expression::Italic(vec![word("hi")])]);
    assert_eq!(parse("\\header{h}"), vec![Expression::Header(vec![word("h")])]);
    assert_eq!(parse("\\footer{h}"), vec![Expression::Footer(vec![word("h")])]);
    assert_eq!(parse("\\footnote{h}"), vec![Expression::Footnote(vec![word("h")])]);
    assert_eq!(parse("\\topblock{h}"), vec![Expression::Topblock(vec![word("h")])]);
    assert_eq!(parse("\\subtitle{h}"), vec![Expression::Subtitle(vec![word("h")])]);
    assert_eq!(parse("\\subsubtitle{h}"), vec![Expression::Subsubtitle(vec![word("h")])]);
    assert_eq!(parse("\\tiles{h}"), vec![Expression::Tiles(vec![word("h")])]);
}

#[test]
fn control_sequences_with_several_arguments() {
    assert_eq!(
        parse("\\href{name}{url}"),
        vec![Expression::Hyperlink { name: vec![word("name")], href: s("url") }]
    );
    assert_eq!(
        parse("\\code{rust}{fn}"),
        vec![Expression::Code { language: s("rust"), code: s("fn") }]
    );
    assert_eq!(
        parse("\\tile{n}{i.png}{/h}"),
        vec![Expression::Tile { name: vec![word("n")], img: s("i.png"), href: s("/h") }]
    );
    assert_eq!(
        parse("\\tiledesc{n}{d}{i.png}{/h}"),
        vec![Expression::TileDesc {
            name: vec![word("n")],
            desc: vec![word("d")],
            img: s("i.png"),
            href: s("/h"),
        }]
    );
    assert_eq!(
        parse("\\img{a.png}{alt}{50}"),
        vec![Expression::Image { img: s("a.png"), alt: s("alt"), scale: s("50") }]
    );
    assert_eq!(
        parse("\\floating{a.png}{alt}"),
        vec![Expression::FloatingImage { img: s("a.png"), alt: s("alt") }]
    );
    assert_eq!(
        parse("\\block{q}{c}"),
        vec![Expression::BlockQuote { quote: vec![word("q")], citation: vec![word("c")] }]
    );
    assert_eq!(parse("\\pagename{About}"), vec![Expression::Pagename(s("About"))]);
}

#[test]
fn control_sequences_without_arguments() {
    assert_eq!(parse("\\menu"), vec![Expression::Menu]);
    assert_eq!(parse("\\date"), vec![Expression::Date]);
    assert_eq!(parse("\\footnotes"), vec![Expression::Footnotes]);
}

#[test]
fn nested_control_sequences() {
    assert_eq!(
        parse("\\bold{a\\it{b}c}"),
        vec![Expression::Bold(vec![
            word("a"),
            Expression::Italic(vec![word("b")]),
            word("c"),
        ])]
    );
}

#[test]
fn paragraph_reads_over_newlines_and_headings() {
    assert_eq!(
        parse("~para one\\it{x}\n# h~next"),
        vec![
            Expression::Paragraph(vec![
                word("para one"),
                Expression::Italic(vec![word("x")]),
                Expression::Newline,
                Expression::Title(vec![word("h")]),
            ]),
            Expression::Paragraph(vec![word("next")]),
        ]
    );
}

#[test]
fn blank_tokens_collapse_into_one_newline() {
    assert_eq!(parse("a\n\n \nb"), vec![word("a"), Expression::Newline, word("b")]);
}

#[test]
fn unknown_control_sequence() {
    assert_eq!(
        parse("\\nope"),
        vec![Expression::Error(BraceError::UnrecognizedControlSequence(s("nope")))]
    );
}

#[test]
fn control_sequence_that_ends_early() {
    assert_eq!(parse("\\"), vec![Expression::Error(BraceError::UnexpectedEof)]);
    assert_eq!(parse("\\bold"), vec![Expression::Error(BraceError::UnexpectedEof)]);
    assert_eq!(parse("\\bold{a"), vec![Expression::Error(BraceError::UnexpectedEof)]);
    assert_eq!(parse("\\pagename{"), vec![Expression::Error(BraceError::UnexpectedEof)]);
}

#[test]
fn control_sequence_with_a_wrong_token() {
    assert_eq!(
        parse("\\bold}"),
        vec![Expression::Error(BraceError::ExpectedToken {
            expected: TokenClass::OpenCurly,
            found: TokenClass::CloseCurly,
        })]
    );
    assert_eq!(
        parse("\\{"),
        vec![Expression::Error(BraceError::ExpectedToken {
            expected: TokenClass::Alphanumeric,
            found: TokenClass::OpenCurly,
        })]
    );
    assert_eq!(
        parse("\\pagename{}"),
        vec![Expression::Error(BraceError::ExpectedToken {
            expected: TokenClass::Alphanumeric,
            found: TokenClass::CloseCurly,
        })]
    );
}

#[test]
fn error_inside_braces_comes_to_the_top() {
    assert_eq!(
        parse("\\bold{\\nope}"),
        vec![
            Expression::Error(BraceError::UnrecognizedControlSequence(s("nope"))),
            Expression::Error(BraceError::NoParselet(TokenClass::CloseCurly)),
        ]
    );
    assert_eq!(
        parse("# a \\nope"),
        vec![Expression::Error(BraceError::UnrecognizedControlSequence(s("nope")))]
    );
    assert_eq!(
        parse("~#### a"),
        vec![Expression::Error(BraceError::TooManyHashes(s("####")))]
    );
}

#[test]
fn braces_have_no_parselet() {
    assert_eq!(
        parse("{"),
        vec![Expression::Error(BraceError::NoParselet(TokenClass::OpenCurly))]
    );
    assert_eq!(
        parse("a}"),
        vec![word("a"), Expression::Error(BraceError::NoParselet(TokenClass::CloseCurly))]
    );
}

#[test]
fn parse_tokens_stops_at_its_bound() {
    let parser = Parser::new();
    let mut tokenizer = Tokenizer::new(s("a\\bold{b}\nc"));
    assert_eq!(
        parser.parse_tokens(&mut tokenizer, TokenClass::Hash.get_precedence()),
        vec![word("a"), Expression::Bold(vec![word("b")])]
    );
    assert_eq!(tokenizer.peek().unwrap().get_class(), TokenClass::Newline);
    assert_eq!(parser.parse_tokens(&mut tokenizer, 6), vec![]);
    assert_eq!(parser.parse_next(&mut tokenizer), Expression::Newline);
    assert_eq!(parser.parse_next(&mut tokenizer), word("c"));
    assert_eq!(
        parser.parse_next(&mut tokenizer),
        Expression::Error(BraceError::UnexpectedEof)
    );
}

#[test]
fn alphanumeric_parselet_gives_the_text() {
    let parser = Parser::new();
    let mut tokenizer = Tokenizer::new(s("rest"));
    let token = Token::new(TokenClass::Alphanumeric, "text");
    assert_eq!(
        (AlphanumericParselet).parse(&parser, &mut tokenizer, &token),
        word("text")
    );
    assert_eq!(tokenizer.next().unwrap().get_value(), "rest");
}

#[test]
fn signatures() {
    assert_eq!(signature_of("href"), Some(vec![ArgKind::List, ArgKind::Word]));
    assert_eq!(signature_of("img"), Some(vec![ArgKind::Word, ArgKind::Word, ArgKind::Word]));
    assert_eq!(signature_of("menu"), Some(vec![]));
    assert_eq!(signature_of("bold"), Some(vec![ArgKind::List]));
    assert_eq!(signature_of("Bold"), None);
}

#[test]
fn groups_and_assembly() {
    let parser = Parser::new();
    let mut tokenizer = Tokenizer::new(s("{a}{b}c"));
    let args = read_groups(&parser, &mut tokenizer, &vec![ArgKind::List, ArgKind::Word]).unwrap();
    assert_eq!(tokenizer.next().unwrap().get_value(), "c");
    assert!(matches!(&args[0], Arg::List(l) if l == &vec![word("a")]));
    assert!(matches!(&args[1], Arg::Word(w) if w == "b"));
    assert_eq!(
        assemble("href", args),
        Expression::Hyperlink { name: vec![word("a")], href: s("b") }
    );
}

#[test]
fn first_error_of_a_list() {
    assert_eq!(find_error(&vec![word("a")]), None);
    assert_eq!(
        find_error(&vec![
            word("a"),
            Expression::Error(BraceError::UnexpectedEof),
            Expression::Error(BraceError::TooManyHashes(s("#"))),
        ]),
        Some(BraceError::UnexpectedEof)
    );
}

#[test]
fn messages_of_brace_errors() {
    assert_eq!(BraceError::UnexpectedEof.display(), "unexpected EOF");
    assert_eq!(
        BraceError::ExpectedToken {
            expected: TokenClass::OpenCurly,
            found: TokenClass::Newline,
        }
        .display(),
        "expected token of class 'OpenCurly', found token of class 'Newline'"
    );
    assert_eq!(
        BraceError::TooManyHashes(s("####")).display(),
        "too many hashes provided: '####'"
    );
    assert_eq!(
        BraceError::UnrecognizedControlSequence(s("x")).display(),
        "unrecognized control sequence 'x'"
    );
    assert_eq!(
        BraceError::NoParselet(TokenClass::OpenCurly).display(),
        "could not handle token of class 'OpenCurly'"
    );
}

#[test]
fn brace_expression_clone_is_equal() {
    let expression = Expression::TileDesc {
        name: vec![word("n"), Expression::Bold(vec![word("b")])],
        desc: vec![Expression::Newline],
        img: s("i"),
        href: s("h"),
    };
    assert_eq!(expression.clone(), expression);
}
