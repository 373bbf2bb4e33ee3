use blog::config::{AnalyticsConfig, Config, SiteConfig};
use blog::convert::{convert, errors_of, parse_page};
use blog::emitter::{AnalyticsRead, StyleLinks};
use blog::expression::Expression;
use blog::result::{BlogError, BlogErrorLocation, BlogResult};

fn s(text: &str) -> String {
    text.to_string()
}

fn config() -> Config {
    Config {
        site: SiteConfig { name: s("Site"), icon: None, style: None },
        menu: None,
        analytics: None,
        media: None,
    }
}

fn links() -> StyleLinks {
    StyleLinks { tech: s(""), book: s("") }
}

#[test]
fn page_is_converted() {
    let converted = convert(
        s("# Title\n\nSome *text* and a [link](x.html).\n"),
        None,
        &links(),
        "posts/first.md",
        "first",
        &config(),
    );
    match converted {
        Some(BlogResult::Success(html)) => assert_eq!(
            html,
            "<!DOCTYPE html>\n<html>\n\n<head>\n\n<title>First | Site</title>\n\n</head>\n\n<body>\n\n<h1>Title</h1>\n\n<p>Some <em>text</em> and a <a href=\"x.html\">link</a>.</p></body>\n\n</html>"
        ),
        _ => panic!("no page"),
    }
}

#[test]
fn errors_of_a_page_are_all_reported() {
    let converted = convert(
        s("intro\n**bad*\n####### deep"),
        None,
        &links(),
        "posts/first.md",
        "first",
        &config(),
    );
    match converted {
        Some(BlogResult::Failure(errors)) => assert_eq!(
            errors,
            vec![
                BlogError::ParseError {
                    message: s("mismatched delimiters"),
                    filename: s("posts/first.md"),
                    location: BlogErrorLocation::After(s("intro")),
                },
                BlogError::ParseError {
                    message: s("too many hashes provided"),
                    filename: s("posts/first.md"),
                    location: BlogErrorLocation::After(s("intro")),
                },
            ]
        ),
        _ => panic!("no failure"),
    }
}

#[test]
fn menu_marker_inside_a_paragraph_cannot_be_emitted() {
    let converted = convert(s("hello ~"), None, &links(), "f.md", "f", &config());
    assert!(converted.is_none());
}

#[test]
fn failed_analytics_is_reported() {
    let mut with_tag = config();
    with_tag.analytics = Some(AnalyticsConfig { tag: s("t.html") });
    let read = AnalyticsRead { path: s("r/source/t.html"), outcome: Err(BlogError::Outside(s("gone"))) };
    match convert(s("text"), Some(read), &links(), "f.md", "f", &with_tag) {
        Some(BlogResult::Failure(errors)) => {
            assert_eq!(errors.len(), 1);
            assert_eq!(errors[0].display(), "could not read analytics tag 'r/source/t.html'");
        },
        _ => panic!("no failure"),
    }
}

#[test]
fn parse_page_gives_the_expressions() {
    assert_eq!(
        parse_page(s("~\n")),
        vec![Expression::Menu, Expression::Newline]
    );
}

#[test]
fn errors_of_no_diagnostics() {
    assert_eq!(errors_of(&vec![]), vec![]);
}
