//! The parselets, one for each construct of the grammar.

pub mod control;
pub mod emphasis;
pub mod header;
pub mod href;
pub mod menu;
pub mod newline;
pub mod paragraph;

pub use control::ControlParselet;
pub use emphasis::EmphasisParselet;
pub use header::HeaderParselet;
pub use href::HrefParselet;
pub use menu::MenuParselet;
pub use newline::NewlineParselet;
pub use paragraph::ParagraphParselet;
