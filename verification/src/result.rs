//! Errors of a build, and the result type that gathers them.

use vstd::prelude::*;
use vstd::string::*;
use crate::text::join3;

verus! {

/// Location that an error occurred.
#[derive(PartialEq, Debug)]
pub enum BlogErrorLocation {
    /// Error occurred at the beginning of a file.
    Beginning,
    /// Error occurred after the contained sequence.
    After(String),
}

/// A location with its text as a sequence of characters.
pub enum LocationView {
    Beginning,
    After(Seq<char>),
}

impl LocationView {
    /// The words that tell the user of a location.
    pub open spec fn shown(self) -> Seq<char> {
        match self {
            LocationView::Beginning => "at beginning of file"@,
            LocationView::After(s) => "after expression '"@ + s + "'"@,
        }
    }
}

impl View for BlogErrorLocation {
    type V = LocationView;

    open spec fn view(&self) -> LocationView {
        match self {
            BlogErrorLocation::Beginning => LocationView::Beginning,
            BlogErrorLocation::After(s) => LocationView::After(s@),
        }
    }
}

impl Clone for BlogErrorLocation {
    fn clone(&self) -> (r: Self)
        ensures
            r == *self,
    {
        match self {
            BlogErrorLocation::Beginning => BlogErrorLocation::Beginning,
            BlogErrorLocation::After(s) => BlogErrorLocation::After(s.clone()),
        }
    }
}

impl BlogErrorLocation {
    /// The words that tell the user of this location.
    pub fn display(&self) -> (s: String)
        ensures
            s@ == self@.shown(),
    {
        match self {
            BlogErrorLocation::Beginning => String::from_str("at beginning of file"),
            BlogErrorLocation::After(s) => join3("after expression '", s.as_str(), "'"),
        }
    }
}

/// Error types of a build.
#[derive(PartialEq, Debug)]
pub enum BlogError {
    /// Could not find root.
    CouldNotFindRoot,
    /// Expected token of one class, found token of another.
    ExpectedToken(String, String),
    /// Unexpected EOF.
    UnexpectedEof,
    /// Error occurred in parsing.
    ParseError {
        /// Error message from parser.
        message: String,
        /// Filename.
        filename: String,
        /// Location of error.
        location: BlogErrorLocation,
    },
    /// A failure that was met outside the library, such as a file that
    /// could not be read: its message.
    Outside(String),
    /// An error together with what was being done when it came up.
    Context {
        /// What was being done.
        context: String,
        /// The error underneath.
        source: Box<BlogError>,
    },
}

impl BlogError {
    /// The message that tells the user of this error. Of an error with
    /// context, the context is the message.
    pub open spec fn message(self) -> Seq<char> {
        match self {
            BlogError::CouldNotFindRoot =>
                "could not find file 'blog.toml' in any parent directory"@,
            BlogError::ExpectedToken(a, b) => "expected token of class '"@ + a@
                + "', found token of class '"@ + b@ + "'"@,
            BlogError::UnexpectedEof => "unexpected EOF"@,
            BlogError::ParseError { message, filename, location } => "could not parse file '"@
                + filename@ + "': "@ + message@ + " ("@ + location@.shown() + ")"@,
            BlogError::Outside(message) => message@,
            BlogError::Context { context, source } => context@,
        }
    }

    /// The message that tells the user of this error.
    pub fn display(&self) -> (s: String)
        ensures
            s@ == self.message(),
    {
        match self {
            BlogError::CouldNotFindRoot => String::from_str(
                "could not find file 'blog.toml' in any parent directory",
            ),
            BlogError::ExpectedToken(a, b) => {
                let mut s = join3("expected token of class '", a.as_str(), "', found token of class '");
                s.append(b.as_str());
                s.append("'");
                s
            },
            BlogError::UnexpectedEof => String::from_str("unexpected EOF"),
            BlogError::ParseError { message, filename, location } => {
                let mut s = join3("could not parse file '", filename.as_str(), "': ");
                s.append(message.as_str());
                s.append(" (");
                s.append(location.display().as_str());
                s.append(")");
                s
            },
            BlogError::Outside(message) => message.clone(),
            BlogError::Context { context, source } => context.clone(),
        }
    }
}

/// Result type of a build: a value, or every error that was met.
#[derive(Debug)]
pub enum BlogResult<T> {
    /// Function returned OK.
    Success(T),
    /// Function returned one or more errors.
    Failure(Vec<BlogError>),
}

impl<T> BlogResult<T> {
    /// The errors that a result holds, in the order in which they were met;
    /// none where it holds a value.
    pub open spec fn errors(self) -> Seq<BlogError> {
        match self {
            BlogResult::Success(_) => Seq::empty(),
            BlogResult::Failure(e) => e@,
        }
    }
}

impl<T: Default> BlogResult<T> {
    /// Construct a new OK result. What `self` held is dropped.
    pub fn ok(self, result: T) -> (r: Self)
        ensures
            r == BlogResult::Success(result),
    {
        BlogResult::Success(result)
    }

    /// Construct a new error result, or add a new error to an existing list
    /// of errors.
    pub fn err(self, error: BlogError) -> (r: Self)
        ensures
            r is Failure,
            r.errors() == self.errors().push(error),
    {
        match self {
            BlogResult::Success(_) => {
                let mut e: Vec<BlogError> = Vec::new();
                e.push(error);
                BlogResult::Failure(e)
            },
            BlogResult::Failure(mut e) => {
                // Append the new error to the existing list
                e.push(error);
                BlogResult::Failure(e)
            },
        }
    }

    /// Construct a new error result, or add a new error to an existing list
    /// of errors, adding context to the error.
    pub fn err_context(self, error: BlogError, context: &str) -> (r: Self)
        ensures
            r is Failure,
            r.errors().len() == self.errors().len() + 1,
            r.errors().drop_last() == self.errors(),
            r.errors().last() matches BlogError::Context { context: c, source } && c@ == context@
                && *source == error,
    {
        // Contextualize the error
        let wrapped = BlogError::Context { context: context.to_owned(), source: Box::new(error) };
        let r = self.err(wrapped);
        proof {
            assert(r.errors().drop_last() =~= self.errors());
        }
        r
    }

    /// Construct a new error result, or add new errors to an existing list of
    /// errors.
    pub fn errs(self, errors: Vec<BlogError>) -> (r: Self)
        ensures
            r is Failure,
            r.errors() == self.errors() + errors@,
    {
        match self {
            BlogResult::Success(_) => {
                proof {
                    assert(Seq::<BlogError>::empty() + errors@ =~= errors@);
                }
                BlogResult::Failure(errors)
            },
            BlogResult::Failure(mut e) => {
                // Append the new errors to the existing list
                let mut errors = errors;
                e.append(&mut errors);
                BlogResult::Failure(e)
            },
        }
    }
}

impl<T: Default> Default for BlogResult<T> {
    fn default() -> (r: Self)
        ensures
            r is Success,
            call_ensures(T::default, (), r->Success_0),
    {
        BlogResult::Success(T::default())
    }
}

} // verus!
