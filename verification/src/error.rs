//! The error type of the library.

use vstd::prelude::*;

verus! {

/// Unified error type.
#[derive(Debug, Clone)]
pub enum Error {
    /// An I/O failure, with its message.
    Io(String),
    /// A JSON failure, with its message.
    Json(String),
    /// Any other failure, with its message.
    Msg(String),
}

/// The kind and text of an error.
pub enum ErrorView {
    Io(Seq<char>),
    Json(Seq<char>),
    Msg(Seq<char>),
}

impl View for Error {
    type V = ErrorView;

    open spec fn view(&self) -> ErrorView {
        match self {
            Error::Io(s) => ErrorView::Io(s@),
            Error::Json(s) => ErrorView::Json(s@),
            Error::Msg(s) => ErrorView::Msg(s@),
        }
    }
}

/// The text shown for an error: `io error: ...`, `json error: ...`, or the
/// message itself.
pub open spec fn error_text(e: ErrorView) -> Seq<char> {
    match e {
        ErrorView::Io(s) => "io error: "@ + s,
        ErrorView::Json(s) => "json error: "@ + s,
        ErrorView::Msg(s) => s,
    }
}

impl Error {
    /// The text shown for this error.
    pub fn message(&self) -> (r: String)
        ensures
            r@ == error_text(self@),
    {
        match self {
            Error::Io(s) => {
                let mut t = String::from_str("io error: ");
                t.append(s.as_str());
                t
            },
            Error::Json(s) => {
                let mut t = String::from_str("json error: ");
                t.append(s.as_str());
                t
            },
            Error::Msg(s) => s.clone(),
        }
    }
}

/// A message error whose text is `prefix` followed by `detail`.
pub fn msg_error(prefix: &str, detail: &str) -> (r: Error)
    ensures
        r@ == ErrorView::Msg(prefix@ + detail@),
{
    let mut t = String::from_str(prefix);
    t.append(detail);
    Error::Msg(t)
}

} // verus!
