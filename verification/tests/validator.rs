use blog::check::{construct_error, Diagnostic, Handler};
use blog::convert::parse_page;
use blog::error::ParseError;
use blog::expression::Expression;
use blog::result::{BlogError, BlogErrorLocation};

fn s(text: &str) -> String {
    text.to_string()
}

#[test]
fn location_skips_newlines() {
    let expressions = vec![
        Expression::Paragraph(vec![Expression::Text(s("A"))]),
        Expression::Newline,
        Expression::Error(ParseError::UnexpectedEof),
    ];
    let found = Handler::validate(&expressions, "page.md");
    assert_eq!(
        found,
        vec![Diagnostic {
            filename: s("page.md"),
            message: s("unexpected EOF"),
            location: BlogErrorLocation::After(s("A")),
        }]
    );
    assert_eq!(found[0].display(), "unexpected EOF (after expression 'A')");
}

#[test]
fn location_skips_errors() {
    let expressions = vec![
        Expression::H1(s("T")),
        Expression::Error(ParseError::TooManyHashes),
        Expression::Newline,
        Expression::Error(ParseError::MismatchedDelimiters),
    ];
    let found = Handler::validate(&expressions, "f");
    assert_eq!(found.len(), 2);
    assert_eq!(found[0].message, "too many hashes provided");
    assert_eq!(found[0].location, BlogErrorLocation::After(s("[h1] T")));
    assert_eq!(found[1].message, "mismatched delimiters");
    assert_eq!(found[1].location, BlogErrorLocation::After(s("[h1] T")));
}

#[test]
fn error_at_the_beginning() {
    let expressions = vec![
        Expression::Newline,
        Expression::Error(ParseError::UnexpectedEof),
        Expression::Text(s("later")),
    ];
    let found = Handler::validate(&expressions, "f");
    assert_eq!(found.len(), 1);
    assert_eq!(found[0].location, BlogErrorLocation::Beginning);
    assert_eq!(found[0].display(), "unexpected EOF (at beginning of file)");
}

#[test]
fn page_without_errors_is_valid() {
    let expressions = vec![Expression::H1(s("T")), Expression::Menu, Expression::Newline];
    assert_eq!(Handler::validate(&expressions, "f"), vec![]);
    assert_eq!(Handler::validate(&vec![], "f"), vec![]);
}

#[test]
fn errors_directly_inside_a_paragraph_are_found() {
    let expressions = vec![
        Expression::H2(s("before")),
        Expression::Paragraph(vec![
            Expression::Error(ParseError::UnexpectedEof),
            Expression::Text(s("x")),
            Expression::Error(ParseError::TooManyHashes),
        ]),
    ];
    let found = Handler::validate(&expressions, "f");
    assert_eq!(found.len(), 2);
    assert_eq!(found[0].location, BlogErrorLocation::Beginning);
    assert_eq!(found[1].location, BlogErrorLocation::After(s("x")));
}

#[test]
fn errors_deeper_inside_are_not_looked_for() {
    let expressions = vec![Expression::Paragraph(vec![Expression::Paragraph(vec![
        Expression::Error(ParseError::UnexpectedEof),
    ])])];
    assert_eq!(Handler::validate(&expressions, "f"), vec![]);
}

#[test]
fn diagnostics_of_a_parsed_page() {
    let expressions = parse_page(s("# Title\n\n**bad*\nfine\n[broken"));
    let found = Handler::validate(&expressions, "index.md");
    assert_eq!(found.len(), 2);
    assert_eq!(
        found[0].display(),
        "mismatched delimiters (after expression '[h1] Title')"
    );
    assert_eq!(
        found[1].display(),
        "unexpected EOF (after expression 'fine')"
    );
}

#[test]
fn construct_error_gives_one_diagnostic() {
    let expressions = vec![Expression::Text(s("a")), Expression::Newline];
    let found = construct_error(&ParseError::TooManyHashes, "f.md", 2, &expressions);
    assert_eq!(
        found,
        Diagnostic {
            filename: s("f.md"),
            message: s("too many hashes provided"),
            location: BlogErrorLocation::After(s("a")),
        }
    );
    let first = construct_error(&ParseError::TooManyHashes, "f.md", 0, &expressions);
    assert_eq!(first.location, BlogErrorLocation::Beginning);
}

#[test]
fn diagnostic_as_error() {
    let diagnostic = Diagnostic {
        filename: s("f.md"),
        message: s("unexpected EOF"),
        location: BlogErrorLocation::After(s("a")),
    };
    let error = diagnostic.to_error();
    assert_eq!(
        error,
        BlogError::ParseError {
            message: s("unexpected EOF"),
            filename: s("f.md"),
            location: BlogErrorLocation::After(s("a")),
        }
    );
    assert_eq!(
        error.display(),
        "could not parse file 'f.md': unexpected EOF (after expression 'a')"
    );
}

#[test]
fn locations_as_text() {
    assert_eq!(BlogErrorLocation::Beginning.display(), "at beginning of file");
    assert_eq!(
        BlogErrorLocation::After(s("x y")).display(),
        "after expression 'x y'"
    );
    assert_eq!(BlogErrorLocation::After(s("q")).clone(), BlogErrorLocation::After(s("q")));
}
