//! The token stream that the parser reads.

use vstd::prelude::*;
use crate::charstream::{lemma_token_end, lex, lex_from, CharStream};
use crate::token::{views, Token, TokenClass, TokenView};

verus! {

/// What a tokenizer holds: all the tokens of its input, and how many of them
/// have been read.
pub struct TokenizerView {
    pub tokens: Seq<TokenView>,
    pub index: nat,
}

impl TokenizerView {
    /// Whether a token is left to read.
    pub open spec fn has_next(self) -> bool {
        self.index < self.tokens.len()
    }

    /// The token to be read next.
    pub open spec fn current(self) -> TokenView
        recommends
            self.has_next(),
    {
        self.tokens[self.index as int]
    }

    /// How many tokens are left to read.
    pub open spec fn remaining(self) -> int {
        self.tokens.len() - self.index
    }

    /// The same tokens, with `index` of them read.
    pub open spec fn at(self, index: nat) -> TokenizerView {
        TokenizerView { tokens: self.tokens, index }
    }

    /// The state after one reading: at the end nothing moves.
    pub open spec fn advanced(self) -> TokenizerView {
        if self.has_next() {
            self.at(self.index + 1)
        } else {
            self
        }
    }
}

/// A tokenizer that processes input strings and returns a list of tokens.
#[derive(Debug)]
pub struct Tokenizer {
    /// List of tokens.
    tokens: Vec<Token>,
    /// Current index in token list.
    index: usize,
}

impl View for Tokenizer {
    type V = TokenizerView;

    closed spec fn view(&self) -> TokenizerView {
        TokenizerView { tokens: views(self.tokens@), index: self.index as nat }
    }
}

impl Tokenizer {
    #[verifier::type_invariant]
    spec fn inv(self) -> bool {
        self.index <= self.tokens.len()
    }

    /// Construct a new tokenizer from an input string.
    pub fn from(string: String) -> (r: Self)
        ensures
            r@.tokens == lex(string@),
            r@.index == 0,
    {
        // Construct a character stream
        let mut charstream = CharStream::from(string);
        // Initialize a list of tokens
        let mut tokens: Vec<Token> = Vec::new();
        let ghost chars = charstream@.chars;
        proof {
            assert(views(tokens@) + lex_from(chars, charstream@.at) =~= lex(chars));
        }
        // Read out each token
        loop
            invariant_except_break
                lex(chars) == views(tokens@) + lex_from(chars, charstream@.at),
            invariant
                charstream@.chars == chars,
            ensures
                lex(chars) == views(tokens@),
            decreases chars.len() - charstream@.at.index,
        {
            let ghost at = charstream@.at;
            let ghost before = tokens@;
            match charstream.get() {
                Some(t) => {
                    proof {
                        lemma_token_end(chars, at);
                        assert(views(before.push(t)) =~= views(before).push(t@));
                        assert(views(before) + (seq![t@] + lex_from(chars, charstream@.at))
                            =~= views(before).push(t@) + lex_from(chars, charstream@.at));
                    }
                    tokens.push(t);
                },
                None => {
                    proof {
                        assert(lex_from(chars, at) =~= Seq::<TokenView>::empty());
                        assert(views(before) + Seq::<TokenView>::empty() =~= views(before));
                    }
                    break ;
                },
            }
        }
        Tokenizer { tokens, index: 0 }
    }

    /// Get the next token in the stream, if it is available, and move behind
    /// it.
    pub fn next(&mut self) -> (r: Option<Token>)
        ensures
            final(self)@ == old(self)@.advanced(),
            old(self)@.index <= old(self)@.tokens.len(),
            match r {
                Some(t) => old(self)@.has_next() && t@ == old(self)@.current(),
                None => !old(self)@.has_next(),
            },
    {
        proof {
            use_type_invariant(&*self);
        }
        let next = self.peek();
        if self.index < self.tokens.len() {
            self.index += 1;
        }
        next
    }

    /// Peek at the next token in the stream, if it is available. The stream
    /// does not move.
    pub fn peek(&self) -> (r: Option<Token>)
        ensures
            self@.index <= self@.tokens.len(),
            match r {
                Some(t) => self@.has_next() && t@ == self@.current(),
                None => !self@.has_next(),
            },
    {
        proof {
            use_type_invariant(self);
        }
        if self.index < self.tokens.len() {
            Some(self.tokens[self.index].clone())
        } else {
            None
        }
    }

    /// Eats the next token, and says whether it was of the given class:
    /// `None` at the end of the stream, `Some(None)` for another class.
    pub fn eat(&mut self, class: TokenClass) -> (r: Option<Option<()>>)
        ensures
            final(self)@ == old(self)@.advanced(),
            old(self)@.index <= old(self)@.tokens.len(),
            r == if !old(self)@.has_next() {
                None
            } else if old(self)@.current().class == class {
                Some(Some(()))
            } else {
                Some(None::<()>)
            },
    {
        match self.expect(class) {
            Some(Some(_)) => Some(Some(())),
            Some(None) => Some(None),
            None => None,
        }
    }

    /// Reads the next token and hands it out if it is of the given class:
    /// `None` at the end of the stream, `Some(None)` for another class.
    pub fn expect(&mut self, class: TokenClass) -> (r: Option<Option<Token>>)
        ensures
            final(self)@ == old(self)@.advanced(),
            old(self)@.index <= old(self)@.tokens.len(),
            match r {
                None => !old(self)@.has_next(),
                Some(None) => old(self)@.has_next() && old(self)@.current().class != class,
                Some(Some(t)) => old(self)@.has_next() && old(self)@.current().class == class
                    && t@ == old(self)@.current(),
            },
    {
        match self.next() {
            Some(token) => {
                if token.class == class {
                    Some(Some(token))
                } else {
                    Some(None)
                }
            },
            None => None,
        }
    }
}

} // verus!
