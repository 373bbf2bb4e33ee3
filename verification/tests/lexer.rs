use blog::charstream::CharStream;
use blog::token::TokenClass;
use blog::tokenizer::Tokenizer;

fn tokens_of(source: &str) -> Vec<(TokenClass, String)> {
    let mut tokenizer = Tokenizer::from(source.to_string());
    let mut out = Vec::new();
    while let Some(token) = tokenizer.next() {
        out.push((token.class, token.value));
    }
    out
}

fn pair(class: TokenClass, value: &str) -> (TokenClass, String) {
    (class, value.to_string())
}

#[test]
fn heading_line_gives_three_tokens() {
    assert_eq!(
        tokens_of("# Title\n"),
        vec![
            pair(TokenClass::Hashes, "#"),
            pair(TokenClass::Paragraph, " Title"),
            pair(TokenClass::Newline, "\n"),
        ]
    );
}

#[test]
fn empty_input_has_no_tokens() {
    assert_eq!(tokens_of(""), vec![]);
}

#[test]
fn class_of_each_start_character() {
    assert_eq!(TokenClass::class('#'), TokenClass::Hashes);
    assert_eq!(TokenClass::class('\n'), TokenClass::Newline);
    assert_eq!(TokenClass::class('['), TokenClass::OpenSquare);
    assert_eq!(TokenClass::class(']'), TokenClass::CloseSquare);
    assert_eq!(TokenClass::class('('), TokenClass::OpenParen);
    assert_eq!(TokenClass::class(')'), TokenClass::CloseParen);
    assert_eq!(TokenClass::class('~'), TokenClass::Menu);
    assert_eq!(TokenClass::class('*'), TokenClass::Emphasis);
    assert_eq!(TokenClass::class('_'), TokenClass::Emphasis);
    assert_eq!(TokenClass::class(':'), TokenClass::Control);
    assert_eq!(TokenClass::class('a'), TokenClass::Paragraph);
    assert_eq!(TokenClass::class(' '), TokenClass::Paragraph);
    assert_eq!(TokenClass::class('\u{e9}'), TokenClass::Paragraph);
}

#[test]
fn class_names() {
    assert_eq!(TokenClass::Paragraph.display(), "Text");
    assert_eq!(TokenClass::Hashes.display(), "Hashes");
    assert_eq!(TokenClass::Newline.display(), "Newline");
    assert_eq!(TokenClass::OpenSquare.display(), "OpenSquare");
    assert_eq!(TokenClass::CloseSquare.display(), "CloseSquare");
    assert_eq!(TokenClass::OpenParen.display(), "OpenParen");
    assert_eq!(TokenClass::CloseParen.display(), "CloseParen");
    assert_eq!(TokenClass::Emphasis.display(), "Emphasis");
    assert_eq!(TokenClass::Control.display(), "Control");
    assert_eq!(TokenClass::Menu.display(), "Menu");
}

#[test]
fn hyperlink_tokens() {
    assert_eq!(
        tokens_of("[Label](https://example.com)"),
        vec![
            pair(TokenClass::OpenSquare, "["),
            pair(TokenClass::Paragraph, "Label"),
            pair(TokenClass::CloseSquare, "]"),
            pair(TokenClass::OpenParen, "("),
            pair(TokenClass::Paragraph, "https://example.com"),
            pair(TokenClass::CloseParen, ")"),
        ]
    );
}

#[test]
fn emphasis_runs_are_one_token() {
    assert_eq!(
        tokens_of("**bold**"),
        vec![
            pair(TokenClass::Emphasis, "**"),
            pair(TokenClass::Paragraph, "bold"),
            pair(TokenClass::Emphasis, "**"),
        ]
    );
    assert_eq!(
        tokens_of("_*_"),
        vec![pair(TokenClass::Emphasis, "_*_")]
    );
}

#[test]
fn hashes_run_is_one_token() {
    assert_eq!(
        tokens_of("####### x"),
        vec![pair(TokenClass::Hashes, "#######"), pair(TokenClass::Paragraph, " x")]
    );
}

#[test]
fn newlines_are_not_merged() {
    assert_eq!(
        tokens_of("\n\n"),
        vec![pair(TokenClass::Newline, "\n"), pair(TokenClass::Newline, "\n")]
    );
}

#[test]
fn markup_inside_brackets_is_text() {
    assert_eq!(
        tokens_of("[*a* #b ::c ~]"),
        vec![
            pair(TokenClass::OpenSquare, "["),
            pair(TokenClass::Paragraph, "*a* #b ::c ~"),
            pair(TokenClass::CloseSquare, "]"),
        ]
    );
}

#[test]
fn markup_inside_parentheses_is_text() {
    assert_eq!(
        tokens_of("(_x_ [y])"),
        vec![
            pair(TokenClass::OpenParen, "("),
            pair(TokenClass::Paragraph, "_x_ [y]"),
            pair(TokenClass::CloseParen, ")"),
        ]
    );
}

#[test]
fn parenthesis_inside_brackets_is_text() {
    assert_eq!(
        tokens_of("[(a)]"),
        vec![
            pair(TokenClass::OpenSquare, "["),
            pair(TokenClass::Paragraph, "(a)"),
            pair(TokenClass::CloseSquare, "]"),
        ]
    );
}

#[test]
fn closer_without_opener_is_a_token() {
    assert_eq!(
        tokens_of("]x)"),
        vec![
            pair(TokenClass::CloseSquare, "]"),
            pair(TokenClass::Paragraph, "x"),
            pair(TokenClass::CloseParen, ")"),
        ]
    );
}

#[test]
fn control_marker_and_arguments() {
    assert_eq!(
        tokens_of("::image[alt][x.png]"),
        vec![
            pair(TokenClass::Control, "::"),
            pair(TokenClass::Paragraph, "image"),
            pair(TokenClass::OpenSquare, "["),
            pair(TokenClass::Paragraph, "alt"),
            pair(TokenClass::CloseSquare, "]"),
            pair(TokenClass::OpenSquare, "["),
            pair(TokenClass::Paragraph, "x.png"),
            pair(TokenClass::CloseSquare, "]"),
        ]
    );
}

#[test]
fn colon_inside_text_is_text() {
    assert_eq!(tokens_of("a: b"), vec![pair(TokenClass::Paragraph, "a: b")]);
    assert_eq!(tokens_of("x ::y"), vec![pair(TokenClass::Paragraph, "x ::y")]);
}

#[test]
fn lone_control_marker_ends_the_reading() {
    assert_eq!(
        tokens_of("ab\n:x"),
        vec![pair(TokenClass::Paragraph, "ab"), pair(TokenClass::Newline, "\n")]
    );
    assert_eq!(tokens_of(":"), vec![]);
    assert_eq!(tokens_of("#:"), vec![pair(TokenClass::Hashes, "#")]);
}

#[test]
fn menu_marker() {
    assert_eq!(tokens_of("~"), vec![pair(TokenClass::Menu, "~")]);
}

#[test]
fn token_texts_spell_the_input() {
    let source = "# T\n[a](b) *c* ~ ::n[x]\n\u{e9}\t(**) ]";
    let mut joined = String::new();
    for (_, value) in tokens_of(source) {
        assert!(!value.is_empty());
        joined.push_str(&value);
    }
    assert_eq!(joined, source);
}

#[test]
fn token_texts_spell_the_input_up_to_a_lone_marker() {
    let source = "[a]\n: rest";
    let mut joined = String::new();
    for (_, value) in tokens_of(source) {
        joined.push_str(&value);
    }
    assert_eq!(joined, "[a]\n");
}

#[test]
fn char_stream_reads_characters() {
    let mut stream = CharStream::from("ab".to_string());
    assert_eq!(stream.peek(), Some('a'));
    assert_eq!(stream.look_ahead(0), Some('a'));
    assert_eq!(stream.look_ahead(1), Some('b'));
    assert_eq!(stream.look_ahead(2), None);
    assert_eq!(stream.look_ahead(usize::MAX), None);
    assert_eq!(stream.next(), Some('a'));
    assert_eq!(stream.next(), Some('b'));
    assert_eq!(stream.next(), None);
    assert_eq!(stream.next(), None);
    assert_eq!(stream.peek(), None);
}

#[test]
fn char_stream_gives_tokens() {
    let mut stream = CharStream::from("#a".to_string());
    let first = stream.get().unwrap();
    assert_eq!(first.class, TokenClass::Hashes);
    assert_eq!(first.value, "#");
    let second = stream.get().unwrap();
    assert_eq!(second.class, TokenClass::Paragraph);
    assert_eq!(second.value, "a");
    assert!(stream.get().is_none());
}

#[test]
fn char_stream_goes_on_behind_a_lone_marker() {
    let mut stream = CharStream::from(":a".to_string());
    assert!(stream.get().is_none());
    let token = stream.get().unwrap();
    assert_eq!(token.class, TokenClass::Paragraph);
    assert_eq!(token.value, "a");
}

#[test]
fn tokenizer_peek_does_not_move() {
    let mut tokenizer = Tokenizer::from("~a".to_string());
    assert_eq!(tokenizer.peek().unwrap().class, TokenClass::Menu);
    assert_eq!(tokenizer.peek().unwrap().class, TokenClass::Menu);
    assert_eq!(tokenizer.next().unwrap().class, TokenClass::Menu);
    assert_eq!(tokenizer.peek().unwrap().value, "a");
}

#[test]
fn tokenizer_expect_and_eat() {
    let mut tokenizer = Tokenizer::from("[a]".to_string());
    assert_eq!(tokenizer.eat(TokenClass::OpenSquare), Some(Some(())));
    let token = tokenizer.expect(TokenClass::Paragraph).unwrap().unwrap();
    assert_eq!(token.value, "a");
    assert_eq!(tokenizer.eat(TokenClass::OpenParen), Some(None));
    assert_eq!(tokenizer.eat(TokenClass::CloseSquare), None);
    assert!(tokenizer.expect(TokenClass::Paragraph).is_none());
    assert!(tokenizer.next().is_none());
}

#[test]
fn tokenizer_expect_reads_a_token_of_another_class() {
    let mut tokenizer = Tokenizer::from("~a".to_string());
    assert!(matches!(tokenizer.expect(TokenClass::Paragraph), Some(None)));
    assert_eq!(tokenizer.next().unwrap().value, "a");
}

#[test]
fn markup_is_read_again_behind_balanced_brackets() {
    assert_eq!(
        tokens_of("[a](b)*c*"),
        vec![
            pair(TokenClass::OpenSquare, "["),
            pair(TokenClass::Paragraph, "a"),
            pair(TokenClass::CloseSquare, "]"),
            pair(TokenClass::OpenParen, "("),
            pair(TokenClass::Paragraph, "b"),
            pair(TokenClass::CloseParen, ")"),
            pair(TokenClass::Emphasis, "*"),
            pair(TokenClass::Paragraph, "c"),
            pair(TokenClass::Emphasis, "*"),
        ]
    );
}

#[test]
fn bracket_that_is_never_closed_keeps_the_rest_as_text() {
    assert_eq!(
        tokens_of("[a *c* (d)"),
        vec![pair(TokenClass::OpenSquare, "["), pair(TokenClass::Paragraph, "a *c* (d)")]
    );
}

#[test]
fn closing_more_than_was_opened_changes_nothing() {
    assert_eq!(
        tokens_of("]][a]*"),
        vec![
            pair(TokenClass::CloseSquare, "]"),
            pair(TokenClass::CloseSquare, "]"),
            pair(TokenClass::OpenSquare, "["),
            pair(TokenClass::Paragraph, "a"),
            pair(TokenClass::CloseSquare, "]"),
            pair(TokenClass::Emphasis, "*"),
        ]
    );
}
