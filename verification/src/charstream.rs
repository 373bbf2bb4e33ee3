//! The lexer: a character stream that is read one token at a time.

use vstd::prelude::*;
use vstd::string::*;
use crate::token::{Token, TokenClass, TokenView};

verus! {

/// Where the lexer stands: the next character and the two nesting depths.
pub struct Cursor {
    /// Index of the next character.
    pub index: nat,
    /// How many `[` are open.
    pub brackets: nat,
    /// How many `(` are open.
    pub parens: nat,
}

/// Whether `c` is literal text under the given nesting: text by its own class,
/// or anything but the closer while a bracket or a parenthesis is open.
pub open spec fn literal(c: char, brackets: nat, parens: nat) -> bool {
    ||| TokenClass::of(c) == TokenClass::Paragraph
    ||| (brackets != 0 && TokenClass::of(c) != TokenClass::CloseSquare)
    ||| (parens != 0 && TokenClass::of(c) != TokenClass::CloseParen)
}

/// The class of the token that `c` starts under the given nesting.
pub open spec fn leading_class(c: char, brackets: nat, parens: nat) -> TokenClass {
    if literal(c, brackets, parens) {
        TokenClass::Paragraph
    } else {
        TokenClass::of(c)
    }
}

/// Whether a run of class `kind` goes on over `c`. Only the classes
/// that form runs have one; a text run also takes in the control marker.
pub open spec fn continues(kind: TokenClass, c: char, brackets: nat, parens: nat) -> bool {
    match kind {
        TokenClass::Hashes => TokenClass::of(c) == TokenClass::Hashes,
        TokenClass::Emphasis => TokenClass::of(c) == TokenClass::Emphasis,
        TokenClass::Paragraph => literal(c, brackets, parens) || TokenClass::of(c)
            == TokenClass::Control,
        _ => false,
    }
}

/// The end of the longest run of class `kind` that starts at `i`.
pub open spec fn run_end(chars: Seq<char>, i: int, kind: TokenClass, brackets: nat, parens: nat) -> int
    decreases chars.len() - i,
{
    if 0 <= i < chars.len() && continues(kind, chars[i], brackets, parens) {
        run_end(chars, i + 1, kind, brackets, parens)
    } else {
        i
    }
}

/// The class of the token that starts at the cursor.
pub open spec fn class_at(chars: Seq<char>, at: Cursor) -> TokenClass
    recommends
        at.index < chars.len(),
{
    leading_class(chars[at.index as int], at.brackets, at.parens)
}

/// Whether the cursor is on a control marker that no second marker follows.
pub open spec fn lone_marker(chars: Seq<char>, at: Cursor) -> bool {
    &&& at.index < chars.len()
    &&& class_at(chars, at) == TokenClass::Control
    &&& !(at.index + 1 < chars.len() && TokenClass::of(chars[at.index as int + 1])
        == TokenClass::Control)
}

/// The index just behind the token that starts at the cursor.
pub open spec fn token_end(chars: Seq<char>, at: Cursor) -> int
    recommends
        at.index < chars.len(),
{
    match class_at(chars, at) {
        TokenClass::Hashes | TokenClass::Emphasis | TokenClass::Paragraph => run_end(
            chars,
            at.index as int + 1,
            class_at(chars, at),
            at.brackets,
            at.parens,
        ),
        TokenClass::Control => at.index as int + 2,
        _ => at.index as int + 1,
    }
}

/// The token that starts at the cursor: its text is the characters it spans.
pub open spec fn token_at(chars: Seq<char>, at: Cursor) -> TokenView
    recommends
        at.index < chars.len(),
{
    TokenView {
        value: chars.subrange(at.index as int, token_end(chars, at)),
        class: class_at(chars, at),
    }
}

/// The cursor behind the token that starts at `at`: an opener raises its
/// depth, a closer lowers it, never below zero.
pub open spec fn advance(chars: Seq<char>, at: Cursor) -> Cursor
    recommends
        at.index < chars.len(),
{
    let index = token_end(chars, at) as nat;
    match class_at(chars, at) {
        TokenClass::OpenSquare => Cursor { index, brackets: at.brackets + 1, parens: at.parens },
        TokenClass::CloseSquare => Cursor {
            index,
            brackets: if at.brackets > 0 {
                (at.brackets - 1) as nat
            } else {
                0
            },
            parens: at.parens,
        },
        TokenClass::OpenParen => Cursor { index, brackets: at.brackets, parens: at.parens + 1 },
        TokenClass::CloseParen => Cursor {
            index,
            brackets: at.brackets,
            parens: if at.parens > 0 {
                (at.parens - 1) as nat
            } else {
                0
            },
        },
        _ => Cursor { index, brackets: at.brackets, parens: at.parens },
    }
}

/// One reading: the token at the cursor, if there is one, and the cursor
/// afterwards. At the end of the input nothing is read and the cursor stays.
/// A lone control marker is taken from the input and gives no token.
pub open spec fn step(chars: Seq<char>, at: Cursor) -> (Option<TokenView>, Cursor) {
    if at.index >= chars.len() {
        (None, at)
    } else if lone_marker(chars, at) {
        (None, Cursor { index: at.index + 1, brackets: at.brackets, parens: at.parens })
    } else {
        (Some(token_at(chars, at)), advance(chars, at))
    }
}

/// The tokens read from the cursor on, up to the end of the input or to the
/// first reading that gives none. (Every token spans at least one character,
/// by `lemma_token_end`; the bounds on the next cursor only show that the
/// reading ends.)
pub open spec fn lex_from(chars: Seq<char>, at: Cursor) -> Seq<TokenView>
    decreases chars.len() - at.index,
{
    if at.index >= chars.len() || lone_marker(chars, at) {
        Seq::empty()
    } else if at.index < advance(chars, at).index <= chars.len() {
        seq![token_at(chars, at)] + lex_from(chars, advance(chars, at))
    } else {
        seq![token_at(chars, at)]
    }
}

/// The cursor at which the reading from `at` on comes to its end.
pub open spec fn lex_stop(chars: Seq<char>, at: Cursor) -> Cursor
    decreases chars.len() - at.index,
{
    if at.index >= chars.len() || lone_marker(chars, at) {
        at
    } else if at.index < advance(chars, at).index <= chars.len() {
        lex_stop(chars, advance(chars, at))
    } else {
        at
    }
}

/// The cursor at the start of an input.
pub open spec fn origin() -> Cursor {
    Cursor { index: 0, brackets: 0, parens: 0 }
}

/// The tokens of a whole input.
pub open spec fn lex(chars: Seq<char>) -> Seq<TokenView> {
    lex_from(chars, origin())
}

/// A run ends between its start and the end of the input; all it spans goes
/// on the run, and what follows it does not.
pub proof fn lemma_run_end(chars: Seq<char>, i: int, kind: TokenClass, brackets: nat, parens: nat)
    requires
        0 <= i <= chars.len(),
    ensures
        i <= run_end(chars, i, kind, brackets, parens) <= chars.len(),
        forall|k: int|
            i <= k < run_end(chars, i, kind, brackets, parens) ==> continues(
                kind,
                #[trigger] chars[k],
                brackets,
                parens,
            ),
        run_end(chars, i, kind, brackets, parens) < chars.len() ==> !continues(
            kind,
            chars[run_end(chars, i, kind, brackets, parens)],
            brackets,
            parens,
        ),
    decreases chars.len() - i,
{
    if i < chars.len() && continues(kind, chars[i], brackets, parens) {
        lemma_run_end(chars, i + 1, kind, brackets, parens);
    }
}

/// Every token spans at least one character and ends within the input.
pub proof fn lemma_token_end(chars: Seq<char>, at: Cursor)
    requires
        at.index < chars.len(),
        !lone_marker(chars, at),
    ensures
        at.index < token_end(chars, at) <= chars.len(),
        advance(chars, at).index == token_end(chars, at),
{
    lemma_run_end(chars, at.index as int + 1, class_at(chars, at), at.brackets, at.parens);
}

/// What a character stream holds: the input and where the lexer stands in it.
pub struct CharStreamView {
    pub chars: Seq<char>,
    pub at: Cursor,
}

/// A character stream for the tokenizer.
pub struct CharStream {
    /// A list of characters.
    chars: Vec<char>,
    /// The current index in the list.
    index: usize,
    /// Square bracket nesting depth.
    brackets: usize,
    /// Parenthesis nesting depth.
    parens: usize,
}

impl View for CharStream {
    type V = CharStreamView;

    closed spec fn view(&self) -> CharStreamView {
        CharStreamView {
            chars: self.chars@,
            at: Cursor {
                index: self.index as nat,
                brackets: self.brackets as nat,
                parens: self.parens as nat,
            },
        }
    }
}

impl CharStream {
    #[verifier::type_invariant]
    spec fn inv(self) -> bool {
        &&& self.index <= self.chars.len()
        &&& self.brackets <= self.index
        &&& self.parens <= self.index
    }

    /// Construct a new character stream from a string.
    pub fn from(string: String) -> (r: Self)
        ensures
            r@.chars == string@,
            r@.at == origin(),
    {
        let chars = crate::text::chars_of(string.as_str());
        CharStream { chars, index: 0, brackets: 0, parens: 0 }
    }

    /// Peek at the next character in the character stream.
    pub fn peek(&self) -> (r: Option<char>)
        ensures
            r == if self@.at.index < self@.chars.len() {
                Some(self@.chars[self@.at.index as int])
            } else {
                None
            },
    {
        self.look_ahead(0)
    }

    /// Look ahead `chars` characters in the character stream (zero is the
    /// next character).
    pub fn look_ahead(&self, chars: usize) -> (r: Option<char>)
        ensures
            r == if self@.at.index + chars < self@.chars.len() {
                Some(self@.chars[self@.at.index + chars])
            } else {
                None
            },
    {
        proof {
            use_type_invariant(self);
        }
        if chars < self.chars.len() - self.index {
            Some(self.chars[self.index + chars])
        } else {
            None
        }
    }

    /// Get the next character in the character stream. At the end of the
    /// input the stream stays where it is.
    pub fn next(&mut self) -> (r: Option<char>)
        ensures
            final(self)@.chars == old(self)@.chars,
            final(self)@.at.brackets == old(self)@.at.brackets,
            final(self)@.at.parens == old(self)@.at.parens,
            r == if old(self)@.at.index < old(self)@.chars.len() {
                Some(old(self)@.chars[old(self)@.at.index as int])
            } else {
                None
            },
            final(self)@.at.index == if old(self)@.at.index < old(self)@.chars.len() {
                old(self)@.at.index + 1
            } else {
                old(self)@.at.index
            },
    {
        proof {
            use_type_invariant(&*self);
        }
        let next = self.peek();
        if self.index < self.chars.len() {
            self.index += 1;
        }
        next
    }

    /// Take the rest of a run of class `kind` and return the index behind it.
    fn eat_run(&mut self, kind: TokenClass) -> (end: usize)
        requires
            kind == TokenClass::Hashes || kind == TokenClass::Emphasis || kind
                == TokenClass::Paragraph,
        ensures
            final(self)@.chars == old(self)@.chars,
            final(self)@.at.brackets == old(self)@.at.brackets,
            final(self)@.at.parens == old(self)@.at.parens,
            final(self)@.at.index == end,
            end == run_end(
                old(self)@.chars,
                old(self)@.at.index as int,
                kind,
                old(self)@.at.brackets,
                old(self)@.at.parens,
            ),
            old(self)@.at.index <= end <= old(self)@.chars.len(),
    {
        proof {
            use_type_invariant(&*self);
        }
        let ghost start = self@;
        loop
            invariant
                self@.chars == start.chars,
                self@.at.brackets == start.at.brackets,
                self@.at.parens == start.at.parens,
                start.at.index <= self@.at.index <= start.chars.len(),
                self.inv(),
                kind == TokenClass::Hashes || kind == TokenClass::Emphasis || kind
                    == TokenClass::Paragraph,
                run_end(
                    start.chars,
                    start.at.index as int,
                    kind,
                    start.at.brackets,
                    start.at.parens,
                ) == run_end(
                    start.chars,
                    self@.at.index as int,
                    kind,
                    start.at.brackets,
                    start.at.parens,
                ),
            ensures
                self@.at.index == run_end(
                    start.chars,
                    start.at.index as int,
                    kind,
                    start.at.brackets,
                    start.at.parens,
                ),
            decreases start.chars.len() - self@.at.index,
        {
            let t = match self.peek() {
                Some(t) => t,
                None => {
                    break ;
                },
            };
            let class = TokenClass::class(t);
            let goes_on = match kind {
                TokenClass::Hashes => class == TokenClass::Hashes,
                TokenClass::Emphasis => class == TokenClass::Emphasis,
                _ => class == TokenClass::Paragraph || class == TokenClass::Control || (
                self.brackets != 0 && class != TokenClass::CloseSquare) || (self.parens != 0
                    && class != TokenClass::CloseParen),
            };
            if goes_on {
                self.index += 1;
            } else {
                break ;
            }
        }
        self.index
    }

    /// Get the next token out of this character stream.
    pub fn get(&mut self) -> (r: Option<Token>)
        ensures
            final(self)@.chars == old(self)@.chars,
            final(self)@.at == step(old(self)@.chars, old(self)@.at).1,
            match r {
                Some(token) => step(old(self)@.chars, old(self)@.at).0 == Some(token@),
                None => step(old(self)@.chars, old(self)@.at).0 is None,
            },
    {
        proof {
            use_type_invariant(&*self);
        }
        let start = self.index;
        // Get the first character in the token
        let first: char = match self.next() {
            Some(c) => c,
            None => {
                return None;
            },
        };
        let text = first != ']' && self.brackets != 0 || first != ')' && self.parens != 0;
        let class = if text {
            TokenClass::Paragraph
        } else {
            TokenClass::class(first)
        };
        match class {
            TokenClass::Hashes | TokenClass::Emphasis | TokenClass::Paragraph => {
                self.eat_run(class);
            },
            TokenClass::Newline | TokenClass::Menu => {},
            TokenClass::OpenParen => {
                // Increment nesting depth
                self.parens += 1;
            },
            TokenClass::CloseParen => {
                // Decrement nesting depth, never below zero
                if self.parens > 0 {
                    self.parens -= 1;
                }
            },
            TokenClass::OpenSquare => {
                self.brackets += 1;
            },
            TokenClass::CloseSquare => {
                if self.brackets > 0 {
                    self.brackets -= 1;
                }
            },
            TokenClass::Control => {
                // Check for a second marker
                let second = match self.peek() {
                    Some(t) => TokenClass::class(t) == TokenClass::Control,
                    None => false,
                };
                if second {
                    let _ = self.next();
                } else {
                    return None;
                }
            },
        }
        proof {
            use_type_invariant(&*self);
        }
        let value = crate::text::string_of(&self.chars, start, self.index);
        Some(Token { value, class })
    }
}

} // verus!
