use blog::result::{BlogError, BlogErrorLocation, BlogResult};

fn s(text: &str) -> String {
    text.to_string()
}

#[test]
fn default_result_is_a_success() {
    let result: BlogResult<usize> = BlogResult::default();
    assert!(matches!(result, BlogResult::Success(0)));
}

#[test]
fn ok_replaces_what_was_there() {
    let result: BlogResult<String> = BlogResult::default();
    assert!(matches!(result.ok(s("v")), BlogResult::Success(v) if v == "v"));
    let failed: BlogResult<usize> = BlogResult::Failure(vec![BlogError::UnexpectedEof]);
    assert!(matches!(failed.ok(3), BlogResult::Success(3)));
}

#[test]
fn err_starts_or_extends_the_list() {
    let result: BlogResult<usize> = BlogResult::default();
    let once = result.err(BlogError::UnexpectedEof);
    let twice = once.err(BlogError::CouldNotFindRoot);
    match twice {
        BlogResult::Failure(errors) => {
            assert_eq!(errors, vec![BlogError::UnexpectedEof, BlogError::CouldNotFindRoot]);
        },
        BlogResult::Success(_) => panic!("a success"),
    }
}

#[test]
fn errs_appends_in_order() {
    let result: BlogResult<usize> = BlogResult::default();
    let first = result.errs(vec![BlogError::UnexpectedEof, BlogError::Outside(s("a"))]);
    let second = first.errs(vec![BlogError::CouldNotFindRoot]);
    match second {
        BlogResult::Failure(errors) => {
            assert_eq!(
                errors,
                vec![
                    BlogError::UnexpectedEof,
                    BlogError::Outside(s("a")),
                    BlogError::CouldNotFindRoot,
                ]
            );
        },
        BlogResult::Success(_) => panic!("a success"),
    }
}

#[test]
fn errs_of_nothing_is_still_a_failure() {
    let result: BlogResult<usize> = BlogResult::default();
    assert!(matches!(result.errs(vec![]), BlogResult::Failure(e) if e.is_empty()));
}

#[test]
fn err_context_wraps_the_error() {
    let result: BlogResult<usize> = BlogResult::Failure(vec![BlogError::UnexpectedEof]);
    match result.err_context(BlogError::Outside(s("denied")), "could not read 'x'") {
        BlogResult::Failure(errors) => {
            assert_eq!(errors.len(), 2);
            assert_eq!(errors[0], BlogError::UnexpectedEof);
            assert_eq!(
                errors[1],
                BlogError::Context {
                    context: s("could not read 'x'"),
                    source: Box::new(BlogError::Outside(s("denied"))),
                }
            );
            assert_eq!(errors[1].display(), "could not read 'x'");
        },
        BlogResult::Success(_) => panic!("a success"),
    }
}

#[test]
fn messages_of_errors() {
    assert_eq!(
        BlogError::CouldNotFindRoot.display(),
        "could not find file 'blog.toml' in any parent directory"
    );
    assert_eq!(
        BlogError::ExpectedToken(s("Hash"), s("Newline")).display(),
        "expected token of class 'Hash', found token of class 'Newline'"
    );
    assert_eq!(BlogError::UnexpectedEof.display(), "unexpected EOF");
    assert_eq!(
        BlogError::ParseError {
            message: s("m"),
            filename: s("a/b.md"),
            location: BlogErrorLocation::Beginning,
        }
        .display(),
        "could not parse file 'a/b.md': m (at beginning of file)"
    );
    assert_eq!(BlogError::Outside(s("disk full")).display(), "disk full");
}
