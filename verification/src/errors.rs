//! The failures an invocation can end in.
//!
//! Every error is terminal: nothing is retried or recovered. Each variant
//! carries the text that is reported to the user, except the undefined
//! variable, which carries the variable's name and whose message is built
//! here.

use vstd::prelude::*;
use vstd::string::StringExecFns;

verus! {

/// The abstract value of an [`Error`].
pub enum ErrorView {
    /// A source or template file was missing or unreadable.
    SourceIo(Seq<char>),
    /// The environment-definition file was malformed.
    SourceParse(Seq<char>),
    /// The template referenced a variable the binding set does not define;
    /// the engine reports the variable's name when it has one.
    UndefinedVariable(Option<Seq<char>>),
    /// The template text itself was refused by the engine.
    RenderSyntax(Seq<char>),
}

/// A terminal failure of resolution or rendering.
#[derive(Debug, Clone)]
pub enum Error {
    /// A source or template file was missing or unreadable.
    SourceIo(String),
    /// The environment-definition file was malformed.
    SourceParse(String),
    /// The template referenced a variable the binding set does not define;
    /// the engine reports the variable's name when it has one.
    UndefinedVariable(Option<String>),
    /// The template text itself was refused by the engine.
    RenderSyntax(String),
}

impl View for Error {
    type V = ErrorView;

    open spec fn view(&self) -> ErrorView {
        match self {
            Error::SourceIo(m) => ErrorView::SourceIo(m@),
            Error::SourceParse(m) => ErrorView::SourceParse(m@),
            Error::UndefinedVariable(n) => ErrorView::UndefinedVariable(
                match n {
                    Some(name) => Some(name@),
                    None => None,
                },
            ),
            Error::RenderSyntax(m) => ErrorView::RenderSyntax(m@),
        }
    }
}

/// The text reported for each error: file and syntax failures are reported
/// verbatim, and an undefined variable as `Variable "NAME" not found`.
pub open spec fn message_of(e: ErrorView) -> Seq<char> {
    match e {
        ErrorView::SourceIo(m) => m,
        ErrorView::SourceParse(m) => m,
        ErrorView::UndefinedVariable(Some(name)) => "Variable \""@ + name + "\" not found"@,
        ErrorView::UndefinedVariable(None) => "Variable not found"@,
        ErrorView::RenderSyntax(m) => m,
    }
}

impl Error {
    /// The human-readable text of this error.
    pub fn message(&self) -> (m: String)
        ensures
            m@ == message_of(self@),
    {
        match self {
            Error::SourceIo(m) => m.clone(),
            Error::SourceParse(m) => m.clone(),
            Error::UndefinedVariable(Some(name)) => {
                let mut m = String::from_str("Variable \"");
                m.append(name.as_str());
                m.append("\" not found");
                m
            },
            Error::UndefinedVariable(None) => String::from_str("Variable not found"),
            Error::RenderSyntax(m) => m.clone(),
        }
    }
}

} // verus!
