//! The ways in which an operation of the engine is refused.

use vstd::prelude::*;

verus! {

/// What an [`Error`] denotes.
pub enum ErrorView {
    TemplateNotFound(Seq<char>),
    InvalidTemplateDir(Seq<char>),
    TemplateExists(Seq<char>),
    CreateTemplate(Seq<char>),
    InvalidArgument(Seq<char>),
    EditTemplate(Seq<char>),
    InvalidPattern(Seq<char>),
    NoFileName(Seq<char>),
}

/// Why the engine refused an operation.
#[derive(Debug, PartialEq, Eq)]
pub enum Error {
    /// No record is stored under this name.
    TemplateNotFound(String),
    /// The source is no directory, or the destination is already there.
    InvalidTemplateDir(String),
    /// A record of this name is stored already and overwriting was not asked for.
    TemplateExists(String),
    /// This setup command could not be run or did not exit with success.
    CreateTemplate(String),
    /// The request asks for something that needs a template name.
    InvalidArgument(String),
    /// The editor could not be run or did not exit with success.
    EditTemplate(String),
    /// This ignore pattern is no valid glob.
    InvalidPattern(String),
    /// No name is given for the template, and the path of this source
    /// directory has no last component to name it after.
    NoFileName(String),
}

impl DeepView for Error {
    type V = ErrorView;

    open spec fn deep_view(&self) -> ErrorView {
        self@
    }
}

impl View for Error {
    type V = ErrorView;

    open spec fn view(&self) -> ErrorView {
        match self {
            Error::TemplateNotFound(s) => ErrorView::TemplateNotFound(s@),
            Error::InvalidTemplateDir(s) => ErrorView::InvalidTemplateDir(s@),
            Error::TemplateExists(s) => ErrorView::TemplateExists(s@),
            Error::CreateTemplate(s) => ErrorView::CreateTemplate(s@),
            Error::InvalidArgument(s) => ErrorView::InvalidArgument(s@),
            Error::EditTemplate(s) => ErrorView::EditTemplate(s@),
            Error::InvalidPattern(s) => ErrorView::InvalidPattern(s@),
            Error::NoFileName(s) => ErrorView::NoFileName(s@),
        }
    }
}

impl ErrorView {
    /// The text that goes with the error.
    pub open spec fn detail(self) -> Seq<char> {
        match self {
            ErrorView::TemplateNotFound(s) => s,
            ErrorView::InvalidTemplateDir(s) => s,
            ErrorView::TemplateExists(s) => s,
            ErrorView::CreateTemplate(s) => s,
            ErrorView::InvalidArgument(s) => s,
            ErrorView::EditTemplate(s) => s,
            ErrorView::InvalidPattern(s) => s,
            ErrorView::NoFileName(s) => s,
        }
    }

    /// The sentence shown to people.
    pub open spec fn message(self) -> Seq<char> {
        match self {
            ErrorView::TemplateNotFound(s) => "Template not found: "@ + s,
            ErrorView::InvalidTemplateDir(s) => "Invalid template directory: "@ + s,
            ErrorView::TemplateExists(s) => "Template "@ + s + " already exists"@,
            ErrorView::CreateTemplate(s) => "Failed to create template: "@ + s,
            ErrorView::InvalidArgument(s) => "Invalid argument: "@ + s,
            ErrorView::EditTemplate(s) => "Failed to edit template: "@ + s,
            ErrorView::InvalidPattern(s) => "Invalid ignore pattern: "@ + s,
            ErrorView::NoFileName(s) => "Failed to get file name: "@ + s,
        }
    }
}

/// `prefix` followed by `detail`.
fn prefixed(prefix: &str, detail: &String) -> (out: String)
    ensures
        out@ == prefix@ + detail@,
{
    let mut out = prefix.to_owned();
    out.append(detail.as_str());
    out
}

impl Error {
    /// Renders the error as a sentence.
    pub fn message(&self) -> (out: String)
        ensures
            out@ == self@.message(),
    {
        match self {
            Error::TemplateNotFound(s) => prefixed("Template not found: ", s),
            Error::InvalidTemplateDir(s) => prefixed("Invalid template directory: ", s),
            Error::TemplateExists(s) => {
                let mut out = prefixed("Template ", s);
                out.append(" already exists");
                out
            },
            Error::CreateTemplate(s) => prefixed("Failed to create template: ", s),
            Error::InvalidArgument(s) => prefixed("Invalid argument: ", s),
            Error::EditTemplate(s) => prefixed("Failed to edit template: ", s),
            Error::InvalidPattern(s) => prefixed("Invalid ignore pattern: ", s),
            Error::NoFileName(s) => prefixed("Failed to get file name: ", s),
        }
    }
}

impl Clone for Error {
    fn clone(&self) -> (r: Error)
        ensures
            r@ == self@,
    {
        match self {
            Error::TemplateNotFound(s) => Error::TemplateNotFound(s.clone()),
            Error::InvalidTemplateDir(s) => Error::InvalidTemplateDir(s.clone()),
            Error::TemplateExists(s) => Error::TemplateExists(s.clone()),
            Error::CreateTemplate(s) => Error::CreateTemplate(s.clone()),
            Error::InvalidArgument(s) => Error::InvalidArgument(s.clone()),
            Error::EditTemplate(s) => Error::EditTemplate(s.clone()),
            Error::InvalidPattern(s) => Error::InvalidPattern(s.clone()),
            Error::NoFileName(s) => Error::NoFileName(s.clone()),
        }
    }
}

} // verus!
