//! The failures that the mock reports.

use vstd::prelude::*;
use vstd::string::StringExecFns;

verus! {

/// What went wrong with a request.
#[derive(Debug)]
pub enum Error {
    /// The request was understood but cannot be answered; the text says why.
    Response(String),
}

/// An [`Error`] with its text as a sequence of characters.
pub enum ErrorView {
    Response(Seq<char>),
}

impl View for Error {
    type V = ErrorView;

    open spec fn view(&self) -> ErrorView {
        match self {
            Error::Response(message) => ErrorView::Response(message@),
        }
    }
}

/// The text that introduces the message of a response error.
pub open spec fn response_error_label() -> Seq<char> {
    "response error: "@
}

impl ErrorView {
    /// The message alone.
    pub open spec fn message(self) -> Seq<char> {
        match self {
            ErrorView::Response(message) => message,
        }
    }

    /// The error as it is shown to a reader: the label, then the message.
    pub open spec fn shown(self) -> Seq<char> {
        match self {
            ErrorView::Response(message) => response_error_label() + message,
        }
    }
}

impl Error {
    /// The message alone.
    pub fn message(&self) -> (text: &str)
        ensures
            text@ == self@.message(),
    {
        match self {
            Error::Response(message) => message.as_str(),
        }
    }

    /// The error as it is shown to a reader: `response error: ` and the message.
    pub fn to_string(&self) -> (text: String)
        ensures
            text@ == self@.shown(),
    {
        match self {
            Error::Response(message) => String::from_str("response error: ").concat(
                message.as_str(),
            ),
        }
    }
}

} // verus!
