use blog::convert::parse_page;
use blog::error::ParseError;
use blog::expression::Expression;
use blog::parselet::Parselet;
use blog::parselets::control::{build_expr, parse_square_expr};
use blog::parselets::emphasis::parse_emphasis;
use blog::parselets::{HeaderParselet, MenuParselet, NewlineParselet};
use blog::parser::Parser;
use blog::token::{Token, TokenClass};
use blog::tokenizer::Tokenizer;

fn parse(source: &str) -> Vec<Expression> {
    parse_page(source.to_string())
}

fn text(s: &str) -> Expression {
    Expression::Text(s.to_string())
}

#[test]
fn heading_with_newline() {
    assert_eq!(
        parse("# Title\n"),
        vec![Expression::H1("Title".to_string()), Expression::Newline]
    );
}

#[test]
fn heading_alone_is_a_single_expression() {
    assert_eq!(parse("# Title"), vec![Expression::H1("Title".to_string())]);
}

#[test]
fn heading_levels() {
    assert_eq!(parse("## a"), vec![Expression::H2("a".to_string())]);
    assert_eq!(parse("### a"), vec![Expression::H3("a".to_string())]);
    assert_eq!(parse("#### a"), vec![Expression::H4("a".to_string())]);
    assert_eq!(parse("##### a"), vec![Expression::H5("a".to_string())]);
    assert_eq!(parse("###### a"), vec![Expression::H6("a".to_string())]);
}

#[test]
fn seven_hashes_are_too_many() {
    assert_eq!(
        parse("####### Title"),
        vec![Expression::Error(ParseError::TooManyHashes)]
    );
}

#[test]
fn heading_without_body() {
    assert_eq!(parse("#"), vec![Expression::Error(ParseError::UnexpectedEof)]);
    assert_eq!(
        parse("#\n"),
        vec![Expression::Error(ParseError::ExpectedToken(TokenClass::Paragraph))]
    );
}

#[test]
fn hyperlink() {
    assert_eq!(
        parse("[Label](https://example.com)"),
        vec![Expression::Href {
            text: "Label".to_string(),
            href: "https://example.com".to_string(),
        }]
    );
}

#[test]
fn hyperlink_texts_are_trimmed() {
    assert_eq!(
        parse("[ a b ]( c )"),
        vec![Expression::Href { text: "a b".to_string(), href: "c".to_string() }]
    );
}

#[test]
fn hyperlink_that_ends_early() {
    assert_eq!(parse("["), vec![Expression::Error(ParseError::UnexpectedEof)]);
    assert_eq!(parse("[a"), vec![Expression::Error(ParseError::UnexpectedEof)]);
    assert_eq!(parse("[a]"), vec![Expression::Error(ParseError::UnexpectedEof)]);
    assert_eq!(parse("[a]("), vec![Expression::Error(ParseError::UnexpectedEof)]);
    assert_eq!(parse("[a](b"), vec![Expression::Error(ParseError::UnexpectedEof)]);
}

#[test]
fn hyperlink_with_a_wrong_token() {
    assert_eq!(
        parse("[]"),
        vec![Expression::Error(ParseError::ExpectedToken(TokenClass::Paragraph))]
    );
    assert_eq!(
        parse("[a]b"),
        vec![Expression::Error(ParseError::ExpectedToken(TokenClass::OpenParen))]
    );
    assert_eq!(
        parse("[a]()"),
        vec![Expression::Error(ParseError::ExpectedToken(TokenClass::Paragraph))]
    );
}

#[test]
fn emphasis() {
    assert_eq!(parse("*a*"), vec![Expression::Italics("a".to_string())]);
    assert_eq!(parse("_a_"), vec![Expression::Italics("a".to_string())]);
    assert_eq!(parse("**a**"), vec![Expression::Bold("a".to_string())]);
    assert_eq!(parse("__a__"), vec![Expression::Bold("a".to_string())]);
    assert_eq!(parse("***a***"), vec![Expression::BoldItalics("a".to_string())]);
    assert_eq!(parse("___a___"), vec![Expression::BoldItalics("a".to_string())]);
    assert_eq!(parse("**_a**_"), vec![Expression::BoldItalics("a".to_string())]);
    assert_eq!(parse("__*a__*"), vec![Expression::BoldItalics("a".to_string())]);
}

#[test]
fn emphasis_keeps_the_spaces_of_its_text() {
    assert_eq!(parse("* a *"), vec![Expression::Italics(" a ".to_string())]);
}

#[test]
fn emphasis_mismatch() {
    assert_eq!(
        parse("**bold*"),
        vec![Expression::Error(ParseError::MismatchedDelimiters)]
    );
    assert_eq!(
        parse("**bold_"),
        vec![Expression::Error(ParseError::MismatchedDelimiters)]
    );
    assert_eq!(
        parse("*a_"),
        vec![Expression::Error(ParseError::MismatchedDelimiters)]
    );
}

#[test]
fn emphasis_that_is_not_recognized() {
    assert_eq!(
        parse("****"),
        vec![Expression::Error(ParseError::UnrecognizedEmphasis)]
    );
    assert_eq!(
        parse("*_"),
        vec![Expression::Error(ParseError::UnrecognizedEmphasis)]
    );
}

#[test]
fn emphasis_that_ends_early() {
    assert_eq!(parse("*"), vec![Expression::Error(ParseError::UnexpectedEof)]);
    assert_eq!(parse("*a"), vec![Expression::Error(ParseError::UnexpectedEof)]);
    assert_eq!(
        parse("*\n"),
        vec![Expression::Error(ParseError::ExpectedToken(TokenClass::Paragraph))]
    );
}

#[test]
fn control_sequences() {
    assert_eq!(
        parse("::image[alt][x.png]"),
        vec![Expression::Image { alt: "alt".to_string(), href: "x.png".to_string() }]
    );
    assert_eq!(
        parse("::float[alt][x.png]"),
        vec![Expression::FloatImage { alt: "alt".to_string(), href: "x.png".to_string() }]
    );
    assert_eq!(parse("::notice[hi]"), vec![Expression::Notice("hi".to_string())]);
    assert_eq!(parse("::wip[soon]"), vec![Expression::Wip("soon".to_string())]);
    assert_eq!(
        parse("::tile[t][d][h][i]"),
        vec![Expression::Tile {
            title: "t".to_string(),
            description: "d".to_string(),
            href: "h".to_string(),
            image: "i".to_string(),
        }]
    );
}

#[test]
fn control_name_and_arguments_are_trimmed() {
    assert_eq!(
        parse(":: notice [ hi there ]"),
        vec![Expression::Notice("hi there".to_string())]
    );
}

#[test]
fn control_sequence_that_is_not_known() {
    assert_eq!(
        parse("::bogus[x]"),
        vec![Expression::Error(ParseError::UnrecognizedControl("bogus".to_string()))]
    );
}

#[test]
fn control_sequence_with_a_wrong_number_of_arguments() {
    assert_eq!(
        parse("::image[a]"),
        vec![Expression::Error(ParseError::IncorrectArgumentCount {
            expected: 2,
            actual: 1,
            control: "image".to_string(),
        })]
    );
    assert_eq!(
        parse("::notice"),
        vec![Expression::Error(ParseError::IncorrectArgumentCount {
            expected: 1,
            actual: 0,
            control: "notice".to_string(),
        })]
    );
    assert_eq!(
        parse("::tile[a][b][c][d][e]"),
        vec![Expression::Error(ParseError::IncorrectArgumentCount {
            expected: 4,
            actual: 5,
            control: "tile".to_string(),
        })]
    );
}

#[test]
fn control_sequence_with_a_broken_argument() {
    assert_eq!(
        parse("::notice[a"),
        vec![Expression::Error(ParseError::UnexpectedEof)]
    );
    assert_eq!(
        parse("::notice[]"),
        vec![Expression::Error(ParseError::ExpectedToken(TokenClass::Paragraph))]
    );
}

#[test]
fn control_sequence_without_a_name() {
    assert_eq!(parse("::"), vec![Expression::Error(ParseError::UnexpectedEof)]);
    assert_eq!(
        parse("::[x]"),
        vec![
            Expression::Error(ParseError::ExpectedToken(TokenClass::Paragraph)),
            Expression::Error(ParseError::NoParselet(TokenClass::CloseSquare)),
        ]
    );
}

#[test]
fn paragraph_with_nested_expressions() {
    assert_eq!(
        parse("hello *world* (x)\nnext"),
        vec![
            Expression::Paragraph(vec![
                text("hello "),
                Expression::Italics("world".to_string()),
                text(" "),
                text("("),
                text("x"),
                text(")"),
            ]),
            Expression::Paragraph(vec![text("next")]),
        ]
    );
}

#[test]
fn paragraph_with_a_link() {
    assert_eq!(
        parse("see [here](x.html) now"),
        vec![Expression::Paragraph(vec![
            text("see "),
            Expression::Href { text: "here".to_string(), href: "x.html".to_string() },
            text(" now"),
        ])]
    );
}

#[test]
fn error_inside_a_paragraph_takes_its_place() {
    assert_eq!(
        parse("see [here now"),
        vec![Expression::Error(ParseError::UnexpectedEof)]
    );
    assert_eq!(
        parse("a **b*\nc"),
        vec![
            Expression::Error(ParseError::MismatchedDelimiters),
            Expression::Newline,
            Expression::Paragraph(vec![text("c")]),
        ]
    );
}

#[test]
fn no_error_stands_inside_a_paragraph() {
    for source in ["a *b* [c](d) ::e", "x ****", "p ] q", "t\n# u *v", "::notice[a] b ~ c"] {
        for expression in parse(source) {
            if let Expression::Paragraph(children) = expression {
                for child in children {
                    assert!(!matches!(
                        child,
                        Expression::Error(_) | Expression::Paragraph(_) | Expression::Newline
                    ));
                }
            }
        }
    }
}

#[test]
fn menu_marker_inside_a_paragraph() {
    assert_eq!(
        parse("a ~"),
        vec![Expression::Paragraph(vec![text("a "), Expression::Menu])]
    );
}

#[test]
fn newlines_collapse() {
    assert_eq!(
        parse("\n\n\n# A"),
        vec![Expression::Newline, Expression::H1("A".to_string())]
    );
}

#[test]
fn menu() {
    assert_eq!(parse("~"), vec![Expression::Menu]);
    assert_eq!(parse("~\n"), vec![Expression::Menu, Expression::Newline]);
}

#[test]
fn token_without_a_parselet() {
    assert_eq!(
        parse(")"),
        vec![Expression::Error(ParseError::NoParselet(TokenClass::CloseParen))]
    );
    assert_eq!(
        parse("]"),
        vec![Expression::Error(ParseError::NoParselet(TokenClass::CloseSquare))]
    );
    assert_eq!(
        parse("("),
        vec![Expression::Error(ParseError::NoParselet(TokenClass::OpenParen))]
    );
}

#[test]
fn well_formed_page_has_no_error() {
    let page = "# Title\n\nSome *text* and a [link](x).\n~\n::notice[hi]\n## More\n";
    for expression in parse(page) {
        assert!(!matches!(expression, Expression::Error(_)));
    }
}

#[test]
fn empty_page() {
    assert_eq!(parse(""), vec![]);
}

#[test]
fn parse_next_reads_one_expression() {
    let mut tokenizer = Tokenizer::from("# a\n# b".to_string());
    let parser = Parser::new();
    assert_eq!(parser.parse_next(&mut tokenizer), Expression::H1("a".to_string()));
    assert_eq!(tokenizer.peek().unwrap().class, TokenClass::Newline);
    assert_eq!(
        parser.parse(&mut tokenizer),
        vec![Expression::Newline, Expression::H1("b".to_string())]
    );
    assert!(tokenizer.peek().is_none());
}

#[test]
fn build_expr_by_name() {
    assert_eq!(
        build_expr("wip", vec!["m".to_string()]),
        Expression::Wip("m".to_string())
    );
    assert_eq!(
        build_expr("image", vec!["a".to_string(), "h".to_string()]),
        Expression::Image { alt: "a".to_string(), href: "h".to_string() }
    );
    assert_eq!(
        build_expr("tile", vec![]),
        Expression::Error(ParseError::IncorrectArgumentCount {
            expected: 4,
            actual: 0,
            control: "tile".to_string(),
        })
    );
    assert_eq!(
        build_expr("", vec![]),
        Expression::Error(ParseError::UnrecognizedControl("".to_string()))
    );
}

#[test]
fn parse_square_expr_gives_the_text() {
    let mut tokenizer = Tokenizer::from("[ v ]~".to_string());
    assert_eq!(parse_square_expr(&mut tokenizer), text("v"));
    assert_eq!(tokenizer.next().unwrap().class, TokenClass::Menu);
    let mut other = Tokenizer::from("~[v]".to_string());
    assert_eq!(
        parse_square_expr(&mut other),
        Expression::Error(ParseError::ExpectedToken(TokenClass::OpenSquare))
    );
    assert_eq!(other.next().unwrap().class, TokenClass::OpenSquare);
}

#[test]
fn parse_emphasis_behind_the_marker() {
    let mut tokenizer = Tokenizer::from("**a**b".to_string());
    let marker = tokenizer.next().unwrap();
    assert_eq!(
        parse_emphasis(&mut tokenizer, &marker),
        Expression::Bold("a".to_string())
    );
    assert_eq!(tokenizer.next().unwrap().value, "b");
}

#[test]
fn parselets_can_be_called_alone() {
    let parser = Parser::new();
    let mut tokenizer = Tokenizer::from(" x \n\n~".to_string());
    let hashes = Token { value: "##".to_string(), class: TokenClass::Hashes };
    assert_eq!(
        (HeaderParselet {}).parse(&parser, &mut tokenizer, &hashes),
        Expression::H2("x".to_string())
    );
    let newline = tokenizer.next().unwrap();
    assert_eq!(
        (NewlineParselet {}).parse(&parser, &mut tokenizer, &newline),
        Expression::Newline
    );
    let menu = tokenizer.next().unwrap();
    assert_eq!(
        (MenuParselet {}).parse(&parser, &mut tokenizer, &menu),
        Expression::Menu
    );
    assert!(tokenizer.next().is_none());
}
