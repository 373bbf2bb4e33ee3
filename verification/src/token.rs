//! Token classes and tokens of the markup grammar.

use vstd::prelude::*;
use vstd::string::*;

verus! {

/// The lexical category of a token.
#[derive(Clone, Copy, PartialEq, Eq, Hash, Debug, Structural)]
pub enum TokenClass {
    /// Plain text.
    Paragraph,
    /// A run of `#`.
    Hashes,
    /// A line break.
    Newline,
    /// `[`
    OpenSquare,
    /// `]`
    CloseSquare,
    /// `(`
    OpenParen,
    /// `)`
    CloseParen,
    /// A run of `*` and `_`.
    Emphasis,
    /// `::`
    Control,
    /// `~`
    Menu,
}

impl TokenClass {
    /// The class that a character starts.
    pub open spec fn of(c: char) -> TokenClass {
        if c == '#' {
            TokenClass::Hashes
        } else if c == '\n' {
            TokenClass::Newline
        } else if c == '[' {
            TokenClass::OpenSquare
        } else if c == ']' {
            TokenClass::CloseSquare
        } else if c == '(' {
            TokenClass::OpenParen
        } else if c == ')' {
            TokenClass::CloseParen
        } else if c == '~' {
            TokenClass::Menu
        } else if c == '*' || c == '_' {
            TokenClass::Emphasis
        } else if c == ':' {
            TokenClass::Control
        } else {
            TokenClass::Paragraph
        }
    }

    /// The name under which a class is shown to the user.
    pub open spec fn name(self) -> Seq<char> {
        match self {
            TokenClass::Paragraph => "Text"@,
            TokenClass::Hashes => "Hashes"@,
            TokenClass::Newline => "Newline"@,
            TokenClass::OpenSquare => "OpenSquare"@,
            TokenClass::CloseSquare => "CloseSquare"@,
            TokenClass::OpenParen => "OpenParen"@,
            TokenClass::CloseParen => "CloseParen"@,
            TokenClass::Emphasis => "Emphasis"@,
            TokenClass::Control => "Control"@,
            TokenClass::Menu => "Menu"@,
        }
    }

    /// Display this token class.
    pub fn display(&self) -> (s: String)
        ensures
            s@ == self.name(),
    {
        let string = match self {
            TokenClass::Paragraph => "Text",
            TokenClass::Hashes => "Hashes",
            TokenClass::Newline => "Newline",
            TokenClass::OpenSquare => "OpenSquare",
            TokenClass::CloseSquare => "CloseSquare",
            TokenClass::OpenParen => "OpenParen",
            TokenClass::CloseParen => "CloseParen",
            TokenClass::Emphasis => "Emphasis",
            TokenClass::Control => "Control",
            TokenClass::Menu => "Menu",
        };
        String::from_str(string)
    }

    /// The class associated to a given start character.
    pub fn class(c: char) -> (r: Self)
        ensures
            r == Self::of(c),
    {
        match c {
            '#' => TokenClass::Hashes,
            '\n' => TokenClass::Newline,
            '[' => TokenClass::OpenSquare,
            ']' => TokenClass::CloseSquare,
            '(' => TokenClass::OpenParen,
            ')' => TokenClass::CloseParen,
            '~' => TokenClass::Menu,
            '*' | '_' => TokenClass::Emphasis,
            ':' => TokenClass::Control,
            _ => TokenClass::Paragraph,
        }
    }
}

/// A token: a class and the text it was read from.
#[derive(Debug)]
pub struct Token {
    /// Token value.
    pub value: String,
    /// Token class.
    pub class: TokenClass,
}

/// What a token holds: its text as a sequence of characters, and its class.
pub struct TokenView {
    pub value: Seq<char>,
    pub class: TokenClass,
}

impl View for Token {
    type V = TokenView;

    open spec fn view(&self) -> TokenView {
        TokenView { value: self.value@, class: self.class }
    }
}

impl Clone for Token {
    fn clone(&self) -> (r: Self)
        ensures
            r == *self,
    {
        Token { value: self.value.clone(), class: self.class }
    }
}

/// The views of a sequence of tokens, in order.
pub open spec fn views(tokens: Seq<Token>) -> Seq<TokenView> {
    tokens.map_values(|t: Token| t@)
}

} // verus!
