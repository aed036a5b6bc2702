//! What can go wrong, as values that carry the message of their cause.
use crate::naming::variant_not_found;
use crate::text::glue2;
use vstd::prelude::*;

verus! {

/// A failure of an operation. Each variant holds the message of what caused it.
#[derive(Debug, PartialEq, Eq)]
pub enum Error {
    /// A failure that the library itself describes.
    CustomError(String),
    /// A prompt could not be answered.
    InguireError(String),
    /// A name matched none of the choices.
    ParseError(String),
    /// The operating system refused a file or process operation.
    IoError(String),
    /// A JSON document could not be written.
    SerdeError(String),
    /// A descriptor could not be written as TOML.
    TomlSerError(String),
    /// A descriptor could not be read as TOML, or lacks what a project needs.
    TomlDeError(String),
    /// Text could not be formatted.
    FmtError(String),
}

/// An [`Error`] with its message as a sequence of characters.
pub enum ErrorView {
    CustomError(Seq<char>),
    InguireError(Seq<char>),
    ParseError(Seq<char>),
    IoError(Seq<char>),
    SerdeError(Seq<char>),
    TomlSerError(Seq<char>),
    TomlDeError(Seq<char>),
    FmtError(Seq<char>),
}

impl ErrorView {
    /// The cause's message, without the variant's heading.
    pub open spec fn detail(self) -> Seq<char> {
        match self {
            ErrorView::CustomError(m) => m,
            ErrorView::InguireError(m) => m,
            ErrorView::ParseError(m) => m,
            ErrorView::IoError(m) => m,
            ErrorView::SerdeError(m) => m,
            ErrorView::TomlSerError(m) => m,
            ErrorView::TomlDeError(m) => m,
            ErrorView::FmtError(m) => m,
        }
    }

    /// The heading under which a variant is shown.
    pub open spec fn heading(self) -> Seq<char> {
        match self {
            ErrorView::CustomError(_) => "Custom Error: "@,
            ErrorView::InguireError(_) => "Inquire Error: "@,
            ErrorView::ParseError(_) => "Parse Error: "@,
            ErrorView::IoError(_) => "Io Error: "@,
            ErrorView::SerdeError(_) => "Serde Error: "@,
            ErrorView::TomlSerError(_) => "Toml Ser Error: "@,
            ErrorView::TomlDeError(_) => "Toml De Error: "@,
            ErrorView::FmtError(_) => "Fmt Error: "@,
        }
    }

    /// The line shown to the user: the heading, then the cause's message.
    pub open spec fn message(self) -> Seq<char> {
        self.heading() + self.detail()
    }
}

/// The error of a text that names no choice.
pub open spec fn not_named() -> ErrorView {
    ErrorView::ParseError("Matching variant not found"@)
}

/// The error of a text that names no choice.
pub fn refuse_name() -> (r: Error)
    ensures
        r@ == not_named(),
{
    Error::ParseError(variant_not_found())
}

impl View for Error {
    type V = ErrorView;

    open spec fn view(&self) -> ErrorView {
        match self {
            Error::CustomError(m) => ErrorView::CustomError(m@),
            Error::InguireError(m) => ErrorView::InguireError(m@),
            Error::ParseError(m) => ErrorView::ParseError(m@),
            Error::IoError(m) => ErrorView::IoError(m@),
            Error::SerdeError(m) => ErrorView::SerdeError(m@),
            Error::TomlSerError(m) => ErrorView::TomlSerError(m@),
            Error::TomlDeError(m) => ErrorView::TomlDeError(m@),
            Error::FmtError(m) => ErrorView::FmtError(m@),
        }
    }
}

impl Clone for Error {
    fn clone(&self) -> (r: Self)
        ensures
            r@ == self@,
    {
        match self {
            Error::CustomError(m) => Error::CustomError(m.clone()),
            Error::InguireError(m) => Error::InguireError(m.clone()),
            Error::ParseError(m) => Error::ParseError(m.clone()),
            Error::IoError(m) => Error::IoError(m.clone()),
            Error::SerdeError(m) => Error::SerdeError(m.clone()),
            Error::TomlSerError(m) => Error::TomlSerError(m.clone()),
            Error::TomlDeError(m) => Error::TomlDeError(m.clone()),
            Error::FmtError(m) => Error::FmtError(m.clone()),
        }
    }
}

impl Error {
    /// The cause's message, without the variant's heading.
    pub fn detail(&self) -> (r: String)
        ensures
            r@ == self@.detail(),
    {
        match self {
            Error::CustomError(m) => m.clone(),
            Error::InguireError(m) => m.clone(),
            Error::ParseError(m) => m.clone(),
            Error::IoError(m) => m.clone(),
            Error::SerdeError(m) => m.clone(),
            Error::TomlSerError(m) => m.clone(),
            Error::TomlDeError(m) => m.clone(),
            Error::FmtError(m) => m.clone(),
        }
    }

    /// The line shown to the user for this error.
    pub fn message(&self) -> (r: String)
        ensures
            r@ == self@.message(),
    {
        match self {
            Error::CustomError(m) => glue2("Custom Error: ", m.as_str()),
            Error::InguireError(m) => glue2("Inquire Error: ", m.as_str()),
            Error::ParseError(m) => glue2("Parse Error: ", m.as_str()),
            Error::IoError(m) => glue2("Io Error: ", m.as_str()),
            Error::SerdeError(m) => glue2("Serde Error: ", m.as_str()),
            Error::TomlSerError(m) => glue2("Toml Ser Error: ", m.as_str()),
            Error::TomlDeError(m) => glue2("Toml De Error: ", m.as_str()),
            Error::FmtError(m) => glue2("Fmt Error: ", m.as_str()),
        }
    }
}

} // verus!
