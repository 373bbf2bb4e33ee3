use blog::brace::tokenizer::{Charstream, Token, TokenClass, Tokenizer};
use blog::brace::error::BraceError;

fn tokens_of(source: &str) -> Vec<(TokenClass, String)> {
    let mut tokenizer = Tokenizer::new(source.to_string());
    let mut out = Vec::new();
    while let Some(token) = tokenizer.next() {
        out.push((token.get_class(), token.get_value()));
    }
    out
}

fn pair(class: TokenClass, value: &str) -> (TokenClass, String) {
    (class, value.to_string())
}

#[test]
fn simple_tokenize() {
    let example = "hello world!\n# Heading 2  \nOh noes!\t";
    let tokenizer = Tokenizer::new(example.to_string());
    println!("{:?}", tokenizer);
}

#[test]
fn simple_tokens() {
    assert_eq!(
        tokens_of("hello world!\n# Heading 2  \nOh noes!\t"),
        vec![
            pair(TokenClass::Alphanumeric, "hello world!"),
            pair(TokenClass::Newline, "\n"),
            pair(TokenClass::Hash, "#"),
            pair(TokenClass::Alphanumeric, "Heading 2"),
            pair(TokenClass::Newline, "\n"),
            pair(TokenClass::Alphanumeric, "Oh noes!"),
        ]
    );
}

#[test]
fn brace_tokens() {
    assert_eq!(
        tokens_of("~\\bold{ x } ##"),
        vec![
            pair(TokenClass::BeginParagraph, "~"),
            pair(TokenClass::Control, "\\"),
            pair(TokenClass::Alphanumeric, "bold"),
            pair(TokenClass::OpenCurly, "{"),
            pair(TokenClass::Alphanumeric, "x"),
            pair(TokenClass::CloseCurly, "}"),
            pair(TokenClass::Alphanumeric, ""),
            pair(TokenClass::Hash, "##"),
        ]
    );
    assert_eq!(tokens_of(""), vec![]);
}

#[test]
fn brace_classes_and_precedences() {
    assert_eq!(TokenClass::get_class('\\'), TokenClass::Control);
    assert_eq!(TokenClass::get_class('~'), TokenClass::BeginParagraph);
    assert_eq!(TokenClass::get_class('{'), TokenClass::OpenCurly);
    assert_eq!(TokenClass::get_class('}'), TokenClass::CloseCurly);
    assert_eq!(TokenClass::get_class('#'), TokenClass::Hash);
    assert_eq!(TokenClass::get_class('\n'), TokenClass::Newline);
    assert_eq!(TokenClass::get_class('a'), TokenClass::Alphanumeric);
    assert_eq!(TokenClass::Control.get_precedence(), 5);
    assert_eq!(TokenClass::OpenCurly.get_precedence(), 1);
    assert_eq!(TokenClass::CloseCurly.get_precedence(), 1);
    assert_eq!(TokenClass::Hash.get_precedence(), 4);
    assert_eq!(TokenClass::Newline.get_precedence(), 3);
    assert_eq!(TokenClass::Alphanumeric.get_precedence(), 6);
    assert_eq!(TokenClass::BeginParagraph.get_precedence(), 2);
    assert_eq!(TokenClass::BeginParagraph.display(), "BeginParagraph");
    assert_eq!(TokenClass::Alphanumeric.display(), "Alphanumeric");
}

#[test]
fn brace_token() {
    let token = Token::new(TokenClass::Hash, "##");
    assert_eq!(token.get_class(), TokenClass::Hash);
    assert_eq!(token.get_value(), "##");
    assert_eq!(token.get_precedence(), 4);
    assert_eq!(token.clone().get_value(), "##");
}

#[test]
fn brace_charstream() {
    let mut stream = Charstream::new("ab".to_string());
    assert_eq!(stream.peek(), Some('a'));
    assert_eq!(stream.next(), Some('a'));
    assert_eq!(stream.next(), Some('b'));
    assert_eq!(stream.peek(), None);
    assert_eq!(stream.next(), None);
}

#[test]
fn generate_next_reads_one_token() {
    let mut stream = Charstream::new(" a {".to_string());
    let token = Tokenizer::generate_next(&mut stream).unwrap();
    assert_eq!(token.get_class(), TokenClass::Alphanumeric);
    assert_eq!(token.get_value(), "a");
    assert_eq!(stream.peek(), Some('{'));
    assert_eq!(Tokenizer::generate_next(&mut stream).unwrap().get_value(), "{");
    assert!(Tokenizer::generate_next(&mut stream).is_none());
}

#[test]
fn discard_gives_the_text_or_the_error() {
    let mut tokenizer = Tokenizer::new("a{".to_string());
    assert_eq!(tokenizer.peek().unwrap().get_value(), "a");
    assert_eq!(tokenizer.discard(TokenClass::Alphanumeric), Ok("a".to_string()));
    assert_eq!(
        tokenizer.discard(TokenClass::CloseCurly),
        Err(BraceError::ExpectedToken {
            expected: TokenClass::CloseCurly,
            found: TokenClass::OpenCurly,
        })
    );
    assert_eq!(tokenizer.discard(TokenClass::OpenCurly), Err(BraceError::UnexpectedEof));
}
