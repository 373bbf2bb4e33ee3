//! The brace grammar: control sequences that start with a backslash and take
//! their arguments in curly braces.

pub mod alphanumeric_parselet;
pub mod control_parselet;
pub mod error;
pub mod expression;
pub mod grammar;
pub mod grammar_facts;
pub mod hash_parselet;
pub mod newline_parselet;
pub mod paragraph_parselet;
pub mod parser;
pub mod prefix_parselet;
pub mod tokenizer;
