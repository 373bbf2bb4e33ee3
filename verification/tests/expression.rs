use blog::error::ParseError;
use blog::expression::Expression;
use blog::token::TokenClass;

fn s(text: &str) -> String {
    text.to_string()
}

#[test]
fn html_of_headings() {
    assert_eq!(Expression::H1(s("a")).html(true), "<h1>a</h1>");
    assert_eq!(Expression::H2(s("a")).html(true), "<h2>a</h2>");
    assert_eq!(Expression::H3(s("a")).html(false), "<h3>a</h3>");
    assert_eq!(Expression::H4(s("a")).html(true), "<h4>a</h4>");
    assert_eq!(Expression::H5(s("a")).html(true), "<h5>a</h5>");
    assert_eq!(Expression::H6(s("a")).html(true), "<h6>a</h6>");
}

#[test]
fn html_of_emphasis() {
    assert_eq!(Expression::Bold(s("a")).html(true), "<p><strong>a</strong></p>");
    assert_eq!(Expression::Bold(s("a")).html(false), "<strong>a</strong>");
    assert_eq!(Expression::Italics(s("a")).html(true), "<p><em>a</em></p>");
    assert_eq!(Expression::Italics(s("a")).html(false), "<em>a</em>");
    assert_eq!(
        Expression::BoldItalics(s("a")).html(true),
        "<p><strong><em>a</em></strong></p>"
    );
    assert_eq!(
        Expression::BoldItalics(s("a")).html(false),
        "<strong><em>a</em></strong>"
    );
}

#[test]
fn html_of_hyperlink() {
    let link = Expression::Href { text: s("Label"), href: s("https://example.com") };
    assert_eq!(link.html(true), "<p><a href=\"https://example.com\">Label</a></p>");
    assert_eq!(link.html(false), "<a href=\"https://example.com\">Label</a>");
}

#[test]
fn html_of_images() {
    let image = Expression::Image { alt: s("a cat"), href: s("cat.png") };
    assert_eq!(image.html(true), "<img src=\"cat.png\" alt=\"a cat\">");
    assert_eq!(image.html(false), "<img src=\"cat.png\" alt=\"a cat\">");
    let float = Expression::FloatImage { alt: s("a cat"), href: s("cat.png") };
    assert_eq!(float.html(true), "<img class=\"float\" src=\"cat.png\" alt=\"a cat\">");
}

#[test]
fn html_of_tile() {
    let tile = Expression::Tile {
        title: s("T"),
        description: s("D"),
        href: s("/t"),
        image: s("t.png"),
    };
    assert_eq!(
        tile.html(true),
        "<div class=\"tile\" onclick=\"window.location='/t';\" style=\"background-image: url('t.png'); cursor: pointer; background-position: center;\"><div>T</div><br><div class=\"desc\">D</div></div>"
    );
}

#[test]
fn html_of_banners() {
    assert_eq!(Expression::Notice(s("n")).html(true), "<div class=\"notice\">n</div>");
    assert_eq!(Expression::Wip(s("w")).html(true), "<div class=\"wip\">w</div>");
}

#[test]
fn html_of_text_and_newline() {
    assert_eq!(Expression::Text(s("plain")).html(true), "plain");
    assert_eq!(Expression::Newline.html(true), "\n\n");
}

#[test]
fn html_of_paragraph_wraps_once() {
    let paragraph = Expression::Paragraph(vec![
        Expression::Text(s("a ")),
        Expression::Bold(s("b")),
        Expression::Href { text: s("c"), href: s("d") },
    ]);
    assert_eq!(
        paragraph.html(true),
        "<p>a <strong>b</strong><a href=\"d\">c</a></p>"
    );
    assert_eq!(paragraph.html(false), "a <strong>b</strong><a href=\"d\">c</a>");
    assert_eq!(Expression::Paragraph(vec![]).html(true), "<p></p>");
}

#[test]
fn renderable() {
    assert!(Expression::Text(s("a")).is_renderable());
    assert!(Expression::Paragraph(vec![Expression::Newline]).is_renderable());
    assert!(!Expression::Menu.is_renderable());
    assert!(!Expression::Error(ParseError::UnexpectedEof).is_renderable());
    assert!(!Expression::Paragraph(vec![Expression::Text(s("a")), Expression::Menu])
        .is_renderable());
    assert!(!Expression::Paragraph(vec![Expression::Paragraph(vec![Expression::Error(
        ParseError::TooManyHashes
    )])])
    .is_renderable());
}

#[test]
fn display_of_expressions() {
    assert_eq!(Expression::H1(s("a")).display(), "[h1] a");
    assert_eq!(Expression::H6(s("a")).display(), "[h6] a");
    assert_eq!(Expression::Text(s("a")).display(), "a");
    assert_eq!(
        Expression::Paragraph(vec![Expression::Text(s("a ")), Expression::Bold(s("b"))])
            .display(),
        "a **b**"
    );
    assert_eq!(
        Expression::Href { text: s("t"), href: s("h") }.display(),
        "[t](h)"
    );
    assert_eq!(
        Expression::Image { alt: s("a"), href: s("h") }.display(),
        "[image] [a][h]"
    );
    assert_eq!(
        Expression::FloatImage { alt: s("a"), href: s("h") }.display(),
        "[float] [a][h]"
    );
    assert_eq!(
        Expression::Tile { title: s("t"), description: s("d"), href: s("h"), image: s("i") }
            .display(),
        "[tile] [t][d][h][i]"
    );
    assert_eq!(Expression::Notice(s("m")).display(), "[notice] [m]");
    assert_eq!(Expression::Wip(s("m")).display(), "[wip] [m]");
    assert_eq!(Expression::Newline.display(), "[newline]");
    assert_eq!(Expression::Menu.display(), "[menu]");
    assert_eq!(Expression::Bold(s("b")).display(), "**b**");
    assert_eq!(Expression::Italics(s("i")).display(), "_i_");
    assert_eq!(Expression::BoldItalics(s("x")).display(), "**_x_**");
    assert_eq!(
        Expression::Error(ParseError::MismatchedDelimiters).display(),
        "mismatched delimiters"
    );
}

#[test]
fn messages_of_parse_errors() {
    assert_eq!(ParseError::UnexpectedEof.display(), "unexpected EOF");
    assert_eq!(
        ParseError::ExpectedToken(TokenClass::Paragraph).display(),
        "expected token of class 'Text'"
    );
    assert_eq!(ParseError::TooManyHashes.display(), "too many hashes provided");
    assert_eq!(
        ParseError::UnrecognizedEmphasis.display(),
        "unrecognized emphasis sequence"
    );
    assert_eq!(
        ParseError::UnrecognizedControl(s("x")).display(),
        "unrecognized control sequence 'x'"
    );
    assert_eq!(ParseError::MismatchedDelimiters.display(), "mismatched delimiters");
    assert_eq!(
        ParseError::IncorrectArgumentCount { expected: 4, actual: 12, control: s("tile") }
            .display(),
        "expected 4 argument(s) to control sequence 'tile', got 12 argument(s) instead"
    );
    assert_eq!(
        ParseError::NoParselet(TokenClass::CloseParen).display(),
        "could not handle token of class 'CloseParen'"
    );
}

#[test]
fn parse_error_clone_is_equal() {
    let error = ParseError::IncorrectArgumentCount { expected: 1, actual: 2, control: s("c") };
    assert_eq!(error.clone(), error);
}

#[test]
fn expression_clone_is_equal() {
    let expression = Expression::Paragraph(vec![
        Expression::Text(s("a")),
        Expression::Href { text: s("t"), href: s("h") },
        Expression::Paragraph(vec![Expression::Error(ParseError::UnexpectedEof)]),
    ]);
    assert_eq!(expression.clone(), expression);
}

#[test]
fn inline_expressions_are_wrapped_once_at_the_top() {
    let inline = vec![
        Expression::Bold(s("b")),
        Expression::Italics(s("i")),
        Expression::BoldItalics(s("x")),
        Expression::Href { text: s("t"), href: s("h") },
        Expression::Paragraph(vec![Expression::Text(s("p")), Expression::Bold(s("q"))]),
    ];
    for expression in inline {
        assert_eq!(
            expression.html(true),
            format!("<p>{}</p>", expression.html(false))
        );
    }
    let blocks = vec![
        Expression::H1(s("h")),
        Expression::Text(s("t")),
        Expression::Image { alt: s("a"), href: s("h") },
        Expression::FloatImage { alt: s("a"), href: s("h") },
        Expression::Tile { title: s("t"), description: s("d"), href: s("h"), image: s("i") },
        Expression::Notice(s("n")),
        Expression::Wip(s("w")),
        Expression::Newline,
    ];
    for expression in blocks {
        assert_eq!(expression.html(true), expression.html(false));
    }
}
