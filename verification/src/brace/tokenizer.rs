//! Tokenizer of the brace grammar.

use vstd::prelude::*;
use vstd::string::*;
use crate::brace::error::{BraceError, BraceErrorView};
use crate::text::{chars_of, trim, trimmed};

verus! {

/// Classes of tokens available.
#[derive(Clone, Copy, PartialEq, Eq, Debug, Hash, Structural)]
pub enum TokenClass {
    /// Alphanumeric token.
    Alphanumeric,
    /// Begin paragraph marker.
    BeginParagraph,
    /// Control sequence beginning with `'\'`.
    Control,
    /// Open curly brace.
    OpenCurly,
    /// Close curly brace.
    CloseCurly,
    /// Hash `'#'`.
    Hash,
    /// Newline character.
    Newline,
}

impl TokenClass {
    /// The class that a character starts.
    pub open spec fn of(c: char) -> TokenClass {
        if c == '\\' {
            TokenClass::Control
        } else if c == '~' {
            TokenClass::BeginParagraph
        } else if c == '{' {
            TokenClass::OpenCurly
        } else if c == '}' {
            TokenClass::CloseCurly
        } else if c == '#' {
            TokenClass::Hash
        } else if c == '\n' {
            TokenClass::Newline
        } else {
            TokenClass::Alphanumeric
        }
    }

    /// How strongly a class binds: the parser reads on over the tokens whose
    /// class binds more strongly than its bound.
    pub open spec fn precedence(self) -> nat {
        match self {
            TokenClass::Control => 5,
            TokenClass::OpenCurly => 1,
            TokenClass::CloseCurly => 1,
            TokenClass::Hash => 4,
            TokenClass::Newline => 3,
            TokenClass::Alphanumeric => 6,
            TokenClass::BeginParagraph => 2,
        }
    }

    /// The name under which a class is shown to the user.
    pub open spec fn name(self) -> Seq<char> {
        match self {
            TokenClass::Control => "Control"@,
            TokenClass::OpenCurly => "OpenCurly"@,
            TokenClass::CloseCurly => "CloseCurly"@,
            TokenClass::Hash => "Hash"@,
            TokenClass::Newline => "Newline"@,
            TokenClass::Alphanumeric => "Alphanumeric"@,
            TokenClass::BeginParagraph => "BeginParagraph"@,
        }
    }

    /// The class of a start character.
    pub fn get_class(c: char) -> (r: Self)
        ensures
            r == Self::of(c),
    {
        match c {
            '\\' => TokenClass::Control,
            '~' => TokenClass::BeginParagraph,
            '{' => TokenClass::OpenCurly,
            '}' => TokenClass::CloseCurly,
            '#' => TokenClass::Hash,
            '\n' => TokenClass::Newline,
            _ => TokenClass::Alphanumeric,
        }
    }

    /// The precedence of this class.
    pub fn get_precedence(&self) -> (r: usize)
        ensures
            r == self.precedence(),
    {
        match self {
            TokenClass::Control => 5,
            TokenClass::OpenCurly => 1,
            TokenClass::CloseCurly => 1,
            TokenClass::Hash => 4,
            TokenClass::Newline => 3,
            TokenClass::Alphanumeric => 6,
            TokenClass::BeginParagraph => 2,
        }
    }

    /// The name of this class.
    pub fn display(&self) -> (s: String)
        ensures
            s@ == self.name(),
    {
        let msg = match self {
            TokenClass::Control => "Control",
            TokenClass::OpenCurly => "OpenCurly",
            TokenClass::CloseCurly => "CloseCurly",
            TokenClass::Hash => "Hash",
            TokenClass::Newline => "Newline",
            TokenClass::Alphanumeric => "Alphanumeric",
            TokenClass::BeginParagraph => "BeginParagraph",
        };
        String::from_str(msg)
    }
}

/// A token produced by the tokenizer.
#[derive(Debug)]
pub struct Token {
    class: TokenClass,
    value: String,
}

/// What a token holds: its class, and its text as a sequence of characters.
pub struct TokenView {
    pub class: TokenClass,
    pub value: Seq<char>,
}

impl View for Token {
    type V = TokenView;

    closed spec fn view(&self) -> TokenView {
        TokenView { class: self.class, value: self.value@ }
    }
}

impl Clone for Token {
    fn clone(&self) -> (r: Self)
        ensures
            r@ == self@,
    {
        Token { class: self.class, value: self.value.clone() }
    }
}

impl Token {
    /// Construct a new token.
    pub fn new(class: TokenClass, value: &str) -> (r: Self)
        ensures
            r@ == (TokenView { class, value: value@ }),
    {
        Token { class, value: value.to_owned() }
    }

    /// Get the class of the token.
    pub fn get_class(&self) -> (r: TokenClass)
        ensures
            r == self@.class,
    {
        self.class
    }

    /// Get the value of the token.
    pub fn get_value(&self) -> (r: String)
        ensures
            r@ == self@.value,
    {
        self.value.clone()
    }

    /// Get the precedence of the token.
    pub fn get_precedence(&self) -> (r: usize)
        ensures
            r == self@.class.precedence(),
    {
        self.class.get_precedence()
    }
}

/// The views of a sequence of tokens, in order.
pub open spec fn views(tokens: Seq<Token>) -> Seq<TokenView> {
    tokens.map_values(|t: Token| t@)
}

/// The end of the longest run of characters of class `kind` from `i` on.
pub open spec fn run_end(chars: Seq<char>, i: int, kind: TokenClass) -> int
    decreases chars.len() - i,
{
    if 0 <= i < chars.len() && TokenClass::of(chars[i]) == kind {
        run_end(chars, i + 1, kind)
    } else {
        i
    }
}

/// The index just behind the token that starts at `i`: text and hashes
/// form runs, every other token is one character.
pub open spec fn token_end(chars: Seq<char>, i: int) -> int
    recommends
        0 <= i < chars.len(),
{
    match TokenClass::of(chars[i]) {
        TokenClass::Alphanumeric => run_end(chars, i + 1, TokenClass::Alphanumeric),
        TokenClass::Hash => run_end(chars, i + 1, TokenClass::Hash),
        _ => i + 1,
    }
}

/// The token that starts at `i`: the characters that it spans, trimmed
/// where it is text.
pub open spec fn token_at(chars: Seq<char>, i: int) -> TokenView
    recommends
        0 <= i < chars.len(),
{
    let class = TokenClass::of(chars[i]);
    let span = chars.subrange(i, token_end(chars, i));
    TokenView {
        class,
        value: if class == TokenClass::Alphanumeric {
            trimmed(span)
        } else {
            span
        },
    }
}

/// The tokens of the input from `i` on.
pub open spec fn lex_from(chars: Seq<char>, i: int) -> Seq<TokenView>
    decreases chars.len() - i,
{
    if !(0 <= i < chars.len()) {
        Seq::empty()
    } else if i < token_end(chars, i) <= chars.len() {
        seq![token_at(chars, i)] + lex_from(chars, token_end(chars, i))
    } else {
        seq![token_at(chars, i)]
    }
}

/// The tokens of a whole input.
pub open spec fn lex(chars: Seq<char>) -> Seq<TokenView> {
    lex_from(chars, 0)
}

/// The characters that the tokens from `i` on span, in a row.
pub open spec fn spans_from(chars: Seq<char>, i: int) -> Seq<char>
    decreases chars.len() - i,
{
    if !(0 <= i < chars.len()) {
        Seq::empty()
    } else if i < token_end(chars, i) <= chars.len() {
        chars.subrange(i, token_end(chars, i)) + spans_from(chars, token_end(chars, i))
    } else {
        chars.subrange(i, token_end(chars, i))
    }
}

/// Lexing is total and leaves nothing out: the tokens from `i` on span the
/// whole input from `i` on, one behind the other. The text of a token is what
/// it spans, trimmed where the token is text.
pub proof fn lemma_spans_cover(chars: Seq<char>, i: int)
    requires
        0 <= i <= chars.len(),
    ensures
        spans_from(chars, i) == chars.skip(i),
        i < chars.len() ==> i < token_end(chars, i) <= chars.len(),
    decreases chars.len() - i,
{
    if i < chars.len() {
        lemma_run_end(chars, i + 1, TokenClass::Alphanumeric);
        lemma_run_end(chars, i + 1, TokenClass::Hash);
        let end = token_end(chars, i);
        lemma_spans_cover(chars, end);
        assert(chars.subrange(i, end) + chars.skip(end) =~= chars.skip(i));
    } else {
        assert(chars.skip(i) =~= Seq::<char>::empty());
    }
}

/// A run ends between its start and the end of the input.
pub proof fn lemma_run_end(chars: Seq<char>, i: int, kind: TokenClass)
    requires
        0 <= i <= chars.len(),
    ensures
        i <= run_end(chars, i, kind) <= chars.len(),
    decreases chars.len() - i,
{
    if i < chars.len() && TokenClass::of(chars[i]) == kind {
        lemma_run_end(chars, i + 1, kind);
    }
}

/// What a character stream holds: the input and the index of the next
/// character.
pub struct CharstreamView {
    pub chars: Seq<char>,
    pub index: nat,
}

/// A character stream.
pub struct Charstream {
    stream: Vec<char>,
    index: usize,
}

impl View for Charstream {
    type V = CharstreamView;

    closed spec fn view(&self) -> CharstreamView {
        CharstreamView { chars: self.stream@, index: self.index as nat }
    }
}

impl Charstream {
    #[verifier::type_invariant]
    spec fn inv(self) -> bool {
        self.index <= self.stream.len()
    }

    /// Construct a new character stream.
    pub fn new(input: String) -> (r: Self)
        ensures
            r@.chars == input@,
            r@.index == 0,
    {
        let stream = chars_of(input.as_str());
        Charstream { stream, index: 0 }
    }

    /// Get the next character from this character stream. At the end the
    /// stream stays where it is.
    pub fn next(&mut self) -> (r: Option<char>)
        ensures
            final(self)@.chars == old(self)@.chars,
            old(self)@.index <= old(self)@.chars.len(),
            r == if old(self)@.index < old(self)@.chars.len() {
                Some(old(self)@.chars[old(self)@.index as int])
            } else {
                None
            },
            final(self)@.index == if old(self)@.index < old(self)@.chars.len() {
                old(self)@.index + 1
            } else {
                old(self)@.index
            },
    {
        proof {
            use_type_invariant(&*self);
        }
        let peek = self.peek();
        if self.index < self.stream.len() {
            self.index += 1;
        }
        peek
    }

    /// Peek at the next character from this character stream.
    pub fn peek(&self) -> (r: Option<char>)
        ensures
            self@.index <= self@.chars.len(),
            r == if self@.index < self@.chars.len() {
                Some(self@.chars[self@.index as int])
            } else {
                None
            },
    {
        proof {
            use_type_invariant(self);
        }
        if self.index < self.stream.len() {
            Some(self.stream[self.index])
        } else {
            None
        }
    }
}

/// What a tokenizer holds: all the tokens of its input, and how many of them
/// have been read.
pub struct TokenizerView {
    pub tokens: Seq<TokenView>,
    pub index: nat,
}

impl TokenizerView {
    /// Whether a token is left to read.
    pub open spec fn has_next(self) -> bool {
        self.index < self.tokens.len()
    }

    /// The token to be read next.
    pub open spec fn current(self) -> TokenView
        recommends
            self.has_next(),
    {
        self.tokens[self.index as int]
    }

    /// How many tokens are left to read.
    pub open spec fn remaining(self) -> int {
        self.tokens.len() - self.index
    }

    /// The state after one reading: at the end nothing moves.
    pub open spec fn advanced(self) -> TokenizerView {
        if self.has_next() {
            TokenizerView { tokens: self.tokens, index: self.index + 1 }
        } else {
            self
        }
    }
}

/// The error that reading a token of class `class` at `pos` ends in, if
/// it ends in one: the input has ended, or the token is of another class.
pub open spec fn discarded(tokens: Seq<TokenView>, pos: int, class: TokenClass) -> Option<
    BraceErrorView,
> {
    if !(0 <= pos < tokens.len()) {
        Some(BraceErrorView::UnexpectedEof)
    } else if tokens[pos].class != class {
        Some(BraceErrorView::ExpectedToken { expected: class, found: tokens[pos].class })
    } else {
        None
    }
}

/// The token stream of the brace grammar.
#[derive(Debug)]
pub struct Tokenizer {
    tokens: Vec<Token>,
    index: usize,
}

impl View for Tokenizer {
    type V = TokenizerView;

    closed spec fn view(&self) -> TokenizerView {
        TokenizerView { tokens: views(self.tokens@), index: self.index as nat }
    }
}

impl Tokenizer {
    #[verifier::type_invariant]
    spec fn inv(self) -> bool {
        self.index <= self.tokens.len()
    }

    /// Constructs a new tokenizer.
    pub fn new(input: String) -> (r: Self)
        ensures
            r@.tokens == lex(input@),
            r@.index == 0,
    {
        let mut charstream = Charstream::new(input);
        let mut tokens: Vec<Token> = Vec::new();
        let ghost chars = charstream@.chars;
        proof {
            assert(views(tokens@) + lex_from(chars, 0) =~= lex(chars));
        }
        loop
            invariant_except_break
                lex(chars) == views(tokens@) + lex_from(chars, charstream@.index as int),
            invariant
                charstream@.chars == chars,
            ensures
                lex(chars) == views(tokens@),
            decreases chars.len() - charstream@.index,
        {
            let ghost at = charstream@.index as int;
            let ghost before = tokens@;
            match Self::generate_next(&mut charstream) {
                Some(t) => {
                    proof {
                        assert(views(before.push(t)) =~= views(before).push(t@));
                        assert(views(before) + (seq![t@] + lex_from(
                            chars,
                            charstream@.index as int,
                        )) =~= views(before).push(t@) + lex_from(chars, charstream@.index as int));
                    }
                    tokens.push(t)
                },
                None => {
                    proof {
                        assert(views(before) + Seq::<TokenView>::empty() =~= views(before));
                    }
                    break ;
                },
            }
        }
        Tokenizer { tokens, index: 0 }
    }

    /// Gets the next token from this token stream.
    pub fn next(&mut self) -> (r: Option<Token>)
        ensures
            final(self)@ == old(self)@.advanced(),
            old(self)@.index <= old(self)@.tokens.len(),
            match r {
                Some(t) => old(self)@.has_next() && t@ == old(self)@.current(),
                None => !old(self)@.has_next(),
            },
    {
        proof {
            use_type_invariant(&*self);
        }
        let peek = self.peek();
        if self.index < self.tokens.len() {
            self.index += 1;
        }
        peek
    }

    /// Peeks at the next token from this token stream.
    pub fn peek(&self) -> (r: Option<Token>)
        ensures
            self@.index <= self@.tokens.len(),
            match r {
                Some(t) => self@.has_next() && t@ == self@.current(),
                None => !self@.has_next(),
            },
    {
        proof {
            use_type_invariant(self);
        }
        if self.index < self.tokens.len() {
            Some(self.tokens[self.index].clone())
        } else {
            None
        }
    }

    /// Reads a token of a given class and gives its text. A token of
    /// another class is read too and gives an error, and so does the end of
    /// the stream.
    pub fn discard(&mut self, class: TokenClass) -> (r: Result<String, BraceError>)
        ensures
            final(self)@ == old(self)@.advanced(),
            old(self)@.index <= old(self)@.tokens.len(),
            match r {
                Ok(value) => discarded(old(self)@.tokens, old(self)@.index as int, class) is None
                    && value@ == old(self)@.current().value,
                Err(e) => discarded(old(self)@.tokens, old(self)@.index as int, class) == Some(e@),
            },
    {
        match self.next() {
            Some(t) => {
                if t.get_class() == class {
                    Ok(t.get_value())
                } else {
                    Err(BraceError::ExpectedToken { expected: class, found: t.get_class() })
                }
            },
            None => Err(BraceError::UnexpectedEof),
        }
    }

    /// Take the rest of a run of class `kind`, appending it to `current`.
    fn take_run(charstream: &mut Charstream, kind: TokenClass, current: &mut String)
        ensures
            final(charstream)@.chars == old(charstream)@.chars,
            final(charstream)@.index == run_end(
                old(charstream)@.chars,
                old(charstream)@.index as int,
                kind,
            ),
            old(charstream)@.index <= final(charstream)@.index <= old(charstream)@.chars.len(),
            final(current)@ == old(current)@ + old(charstream)@.chars.subrange(
                old(charstream)@.index as int,
                final(charstream)@.index as int,
            ),
    {
        let ghost start = charstream@;
        let ghost text = current@;
        proof {
            use_type_invariant(&*charstream);
            assert(text + start.chars.subrange(start.index as int, start.index as int) =~= text);
        }
        loop
            invariant
                charstream@.chars == start.chars,
                start.index <= charstream@.index,
                run_end(start.chars, start.index as int, kind) == run_end(
                    start.chars,
                    charstream@.index as int,
                    kind,
                ),
                current@ == text + start.chars.subrange(
                    start.index as int,
                    charstream@.index as int,
                ),
            ensures
                charstream@.index == run_end(start.chars, start.index as int, kind),
                charstream@.index <= start.chars.len(),
            decreases start.chars.len() - charstream@.index,
        {
            let ghost at = charstream@.index as int;
            match charstream.peek() {
                Some(c) => {
                    if TokenClass::get_class(c) == kind {
                        charstream.next();
                        current.push(c);
                        proof {
                            assert(start.chars.subrange(start.index as int, at + 1)
                                =~= start.chars.subrange(start.index as int, at).push(c));
                            assert(text + start.chars.subrange(start.index as int, at).push(c)
                                =~= (text + start.chars.subrange(start.index as int, at)).push(c));
                        }
                    } else {
                        break ;
                    }
                },
                None => {
                    break ;
                },
            }
        }
    }

    /// Gets a token from the character stream, if one is left.
    pub fn generate_next(charstream: &mut Charstream) -> (r: Option<Token>)
        ensures
            final(charstream)@.chars == old(charstream)@.chars,
            old(charstream)@.index <= old(charstream)@.chars.len(),
            match r {
                Some(token) => {
                    &&& old(charstream)@.index < old(charstream)@.chars.len()
                    &&& token@ == token_at(old(charstream)@.chars, old(charstream)@.index as int)
                    &&& final(charstream)@.index == token_end(
                        old(charstream)@.chars,
                        old(charstream)@.index as int,
                    )
                    &&& old(charstream)@.index < final(charstream)@.index
                        <= old(charstream)@.chars.len()
                },
                None => {
                    &&& old(charstream)@.index == old(charstream)@.chars.len()
                    &&& final(charstream)@.index == old(charstream)@.index
                },
            },
    {
        let ghost start = charstream@;
        match charstream.next() {
            Some(c) => {
                let class = TokenClass::get_class(c);
                match class {
                    TokenClass::Alphanumeric | TokenClass::Hash => {
                        let mut current = String::new();
                        current.push(c);
                        proof {
                            assert(current@ =~= start.chars.subrange(
                                start.index as int,
                                start.index as int + 1,
                            ));
                        }
                        Self::take_run(charstream, class, &mut current);
                        proof {
                            assert(start.chars.subrange(start.index as int, start.index as int + 1)
                                + start.chars.subrange(
                                start.index as int + 1,
                                charstream@.index as int,
                            ) =~= start.chars.subrange(
                                start.index as int,
                                charstream@.index as int,
                            ));
                        }
                        if class == TokenClass::Alphanumeric {
                            Some(Token::new(class, trim(current.as_str()).as_str()))
                        } else {
                            Some(Token::new(class, current.as_str()))
                        }
                    },
                    other => {
                        let mut current = String::new();
                        current.push(c);
                        proof {
                            assert(current@ =~= start.chars.subrange(
                                start.index as int,
                                start.index as int + 1,
                            ));
                        }
                        Some(Token::new(other, current.as_str()))
                    },
                }
            },
            None => None,
        }
    }
}

} // verus!
