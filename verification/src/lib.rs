//! A static-site text pipeline: it compiles a small markup language into
//! HTML.
//!
//! The source of a page goes through the lexer ([`charstream`],
//! [`tokenizer`]), the parser ([`parser`], with one parselet for each
//! construct under [`parselets`]), the validator ([`check`]) and the emitter
//! ([`emitter`]); [`convert`] runs them in a row. What each of them computes is
//! stated over sequences of characters and of tokens: the lexer in
//! [`charstream`], the grammar in [`grammar`], and what holds of both on every
//! input in [`lexer_facts`] and [`grammar_facts`].
//!
//! [`brace`] holds a second grammar, with control sequences in curly braces
//! and a parser that climbs by the precedence of the token classes.

pub mod brace;
pub mod charstream;
pub mod check;
pub mod cli;
pub mod config;
pub mod convert;
pub mod emitter;
pub mod error;
pub mod expression;
pub mod grammar;
pub mod grammar_facts;
pub mod lexer_facts;
pub mod metadata;
pub mod parselet;
pub mod parselets;
pub mod parser;
pub mod result;
pub mod text;
pub mod token;
pub mod tokenizer;
