//! The error type shared by every fallible operation of the crate.
//!
//! An [`Error`] is either a bare [`ErrorKind`] or a kind together with the
//! message of the failure that caused it. Its mathematical view,
//! [`ErrorView`], is what the contracts of the other modules speak of.

use vstd::prelude::*;

verus! {

/// A specialized result type for the operations of this crate.
pub type Result<T> = std::result::Result<T, Error>;

/// The broad category an [`Error`] falls into.
#[derive(Clone, Copy, Debug, PartialEq, Eq, Structural, Hash, PartialOrd, Ord)]
pub enum ErrorKind {
    Authentication,
    InvalidInput,
    Network,
    Reddit,
    Io,
}

/// The fixed description of each kind.
pub open spec fn kind_text(kind: ErrorKind) -> Seq<char> {
    match kind {
        ErrorKind::Authentication => "could not authenticate"@,
        ErrorKind::InvalidInput => "invalid input"@,
        ErrorKind::Network => "network error"@,
        ErrorKind::Reddit => "Reddit error"@,
        ErrorKind::Io => "I/O error"@,
    }
}

impl ErrorKind {
    /// The fixed description of this kind.
    pub fn as_str(self) -> (text: &'static str)
        ensures
            text@ == kind_text(self),
    {
        match self {
            ErrorKind::Authentication => "could not authenticate",
            ErrorKind::InvalidInput => "invalid input",
            ErrorKind::Network => "network error",
            ErrorKind::Reddit => "Reddit error",
            ErrorKind::Io => "I/O error",
        }
    }
}

/// What an [`Error`] is, mathematically: its kind and, when it was built
/// from an underlying failure, that failure's message.
pub ghost struct ErrorView {
    pub kind: ErrorKind,
    pub detail: Option<Seq<char>>,
}

impl ErrorView {
    /// An error that carries nothing but its kind.
    pub open spec fn simple(kind: ErrorKind) -> ErrorView {
        ErrorView { kind, detail: None }
    }

    /// An error of the given kind caused by a failure with the given message.
    pub open spec fn custom(kind: ErrorKind, detail: Seq<char>) -> ErrorView {
        ErrorView { kind, detail: Some(detail) }
    }

    /// The text shown for the error: the underlying message where there is
    /// one, the description of the kind otherwise.
    pub open spec fn text(self) -> Seq<char> {
        match self.detail {
            Some(detail) => detail,
            None => kind_text(self.kind),
        }
    }
}

/// The error type of this crate.
#[derive(Debug)]
pub struct Error {
    repr: Repr,
}

#[derive(Debug)]
enum Repr {
    Simple(ErrorKind),
    Custom(Box<Custom>),
}

#[derive(Debug)]
struct Custom {
    kind: ErrorKind,
    error: String,
}

impl View for Error {
    type V = ErrorView;

    closed spec fn view(&self) -> ErrorView {
        match self.repr {
            Repr::Simple(kind) => ErrorView::simple(kind),
            Repr::Custom(custom) => ErrorView::custom(custom.kind, custom.error@),
        }
    }
}

/// The view of a text or of the description of the failure to get it.
pub open spec fn text_view(text: std::result::Result<String, String>) -> std::result::Result<
    Seq<char>,
    Seq<char>,
> {
    match text {
        Ok(text) => Ok(text@),
        Err(message) => Err(message@),
    }
}

impl Error {
    /// Creates an error of the given kind from the message of the failure
    /// that caused it.
    pub fn new(kind: ErrorKind, err: &str) -> (error: Error)
        ensures
            error@ == ErrorView::custom(kind, err@),
    {
        Error { repr: Repr::Custom(Box::new(Custom { kind, error: err.to_owned() })) }
    }

    /// The category of this error.
    pub fn kind(&self) -> (kind: ErrorKind)
        ensures
            kind == self@.kind,
    {
        match &self.repr {
            Repr::Simple(kind) => *kind,
            Repr::Custom(custom) => custom.kind,
        }
    }

    /// The text shown for this error: the message of the underlying failure
    /// where there is one, the description of the kind otherwise.
    pub fn message(&self) -> (text: String)
        ensures
            text@ == self@.text(),
    {
        match &self.repr {
            Repr::Simple(kind) => kind.as_str().to_owned(),
            Repr::Custom(custom) => custom.error.clone(),
        }
    }
}

impl From<ErrorKind> for Error {
    /// Wraps a bare kind: the error carries no message of its own.
    fn from(kind: ErrorKind) -> (error: Error)
        ensures
            error@ == ErrorView::simple(kind),
    {
        Error { repr: Repr::Simple(kind) }
    }
}

impl vstd::std_specs::convert::FromSpecImpl<ErrorKind> for Error {
    open spec fn obeys_from_spec() -> bool {
        true
    }

    closed spec fn from_spec(kind: ErrorKind) -> Error {
        Error { repr: Repr::Simple(kind) }
    }
}

} // verus!
