//! The whole pipeline: from the source of a page to its HTML.

use vstd::prelude::*;
use crate::charstream::lex;
use crate::check::{diagnostics, reports, Diagnostic, Handler};
use crate::config::Config;
use crate::emitter::{
    analytics_context,
    analytics_failure,
    document,
    emittable,
    title_case,
    AnalyticsRead,
    Emitter,
    StyleLinks,
};
use crate::expression::{expression_views, Expression};
use crate::grammar::parsed;
use crate::parser::Parser;
use crate::result::{BlogError, BlogResult};
use crate::tokenizer::Tokenizer;

verus! {

/// Parse the source of a page.
pub fn parse_page(source: String) -> (expressions: Vec<Expression>)
    ensures
        expression_views(expressions@) == parsed(lex(source@)),
{
    // Construct a new tokenizer
    let mut tokenizer = Tokenizer::from(source);
    // Construct a new parser
    let parser = Parser::new();
    // Parse tokens
    parser.parse(&mut tokenizer)
}

/// The errors of a list of diagnostics, in order.
pub fn errors_of(messages: &Vec<Diagnostic>) -> (errors: Vec<BlogError>)
    ensures
        errors.len() == messages.len(),
        forall|i: int| 0 <= i < errors.len() ==> reports(#[trigger] errors[i], messages[i]@),
{
    let mut errors: Vec<BlogError> = Vec::new();
    let mut i: usize = 0;
    while i < messages.len()
        invariant
            i <= messages.len(),
            errors.len() == i,
            forall|k: int| 0 <= k < i ==> reports(#[trigger] errors[k], messages[k]@),
        decreases messages.len() - i,
    {
        errors.push(messages[i].to_error());
        i += 1;
    }
    errors
}

/// Convert a source file into an output file.
///
/// `filename` names the file in diagnostics, and `page` is the name that
/// its title is made from. Where the parser has left errors in the page, the
/// result holds one error for each of them. `None` says that the page
/// holds no error and still cannot be emitted: a menu marker stands inside
/// one of its paragraphs.
pub fn convert(
    source: String,
    read: Option<AnalyticsRead>,
    links: &StyleLinks,
    filename: &str,
    page: &str,
    config: &Config,
) -> (converted: Option<BlogResult<String>>)
    ensures
        ({
            let expressions = parsed(lex(source@));
            let found = diagnostics(expressions, filename@);
            if found.len() > 0 {
                &&& converted matches Some(result)
                &&& result is Failure
                &&& result.errors().len() == found.len()
                &&& forall|i: int|
                    0 <= i < found.len() ==> reports(#[trigger] result.errors()[i], found[i])
            } else if !emittable(expressions) {
                converted is None
            } else {
                &&& converted matches Some(result)
                &&& match analytics_failure(config@, read) {
                    Some(e) => {
                        &&& result is Failure
                        &&& result.errors().len() == 1
                        &&& result.errors()[0] matches BlogError::Context { context, source: cause }
                        &&& context@ == analytics_context(read->Some_0.path@)
                        &&& *cause == e
                    },
                    None => {
                        &&& result is Success
                        &&& result->Success_0@ == document(
                            expressions,
                            config@,
                            title_case(page@),
                            read,
                            *links,
                        )
                    },
                }
            }
        }),
{
    let expressions = parse_page(source);
    // Validate parser output or return errors
    let messages = Handler::validate(&expressions, filename);
    if messages.len() > 0 {
        let errors = errors_of(&messages);
        let result: BlogResult<String> = BlogResult::default();
        return Some(result.errs(errors));
    }
    if !Emitter::can_emit(&expressions) {
        return None;
    }
    // Construct a new emitter
    let emitter = Emitter::new(config);
    // Emit HTML or return errors
    Some(emitter.emit(expressions, read, links, page))
}

} // verus!
