//! Errors of the session layer, and the text by which each is reported.

use crate::action::DecodeError;
use crate::action::EncodeError;
use vstd::prelude::*;
use vstd::string::StringExecFns;

verus! {

/// An inbound envelope that could not be made into a demand.
#[derive(Debug, PartialEq, Eq)]
pub enum ParseError {
    /// The envelope lacks the named mandatory field.
    MissingField(&'static str),
    /// The argument bytes are not of the type that the action takes.
    Decode(DecodeError),
}

/// Why a session gave up on a request.
#[derive(Debug, PartialEq, Eq)]
pub enum Error {
    /// The action itself failed; the text is its own account.
    Action(String),
    /// No action goes by the name asked for.
    Dispatch(String),
    /// A response could not be serialized.
    Encode(EncodeError),
    /// The demand or its arguments could not be read.
    Parse(ParseError),
}

/// Mathematical content of a [`ParseError`].
pub enum ParseErrorView {
    MissingField(Seq<char>),
    Decode(Seq<char>),
}

/// Mathematical content of an [`Error`].
pub enum ErrorView {
    Action(Seq<char>),
    Dispatch(Seq<char>),
    Encode(Seq<char>),
    Parse(ParseErrorView),
}

impl ParseErrorView {
    /// The text by which the error is reported.
    pub open spec fn message(self) -> Seq<char> {
        match self {
            ParseErrorView::MissingField(name) => "missing required field: "@ + name,
            ParseErrorView::Decode(text) => "failed to decode proto message: "@ + text,
        }
    }
}

impl ErrorView {
    /// The text by which the error is reported.
    pub open spec fn message(self) -> Seq<char> {
        match self {
            ErrorView::Action(text) => "action error: "@ + text,
            ErrorView::Dispatch(name) => "unknown action: "@ + name,
            ErrorView::Encode(text) => "failure during encoding proto message: "@ + text,
            ErrorView::Parse(error) => "malformed proto message: "@ + error.message(),
        }
    }
}

impl View for ParseError {
    type V = ParseErrorView;

    open spec fn view(&self) -> ParseErrorView {
        match *self {
            ParseError::MissingField(name) => ParseErrorView::MissingField(name@),
            ParseError::Decode(error) => ParseErrorView::Decode(error@),
        }
    }
}

impl View for Error {
    type V = ErrorView;

    open spec fn view(&self) -> ErrorView {
        match *self {
            Error::Action(text) => ErrorView::Action(text@),
            Error::Dispatch(name) => ErrorView::Dispatch(name@),
            Error::Encode(error) => ErrorView::Encode(error@),
            Error::Parse(error) => ErrorView::Parse(error@),
        }
    }
}

impl ParseError {
    /// The text by which this error is reported.
    pub fn to_string(&self) -> (text: String)
        ensures
            text@ == self@.message(),
    {
        match self {
            ParseError::MissingField(name) => {
                String::from_str("missing required field: ").concat(name)
            },
            ParseError::Decode(error) => {
                String::from_str("failed to decode proto message: ").concat(
                    error.description.as_str(),
                )
            },
        }
    }
}

impl Error {
    /// The text by which this error is reported, as a status carries it.
    pub fn to_string(&self) -> (text: String)
        ensures
            text@ == self@.message(),
    {
        match self {
            Error::Action(text) => String::from_str("action error: ").concat(text.as_str()),
            Error::Dispatch(name) => String::from_str("unknown action: ").concat(name.as_str()),
            Error::Encode(error) => {
                String::from_str("failure during encoding proto message: ").concat(
                    error.description.as_str(),
                )
            },
            Error::Parse(error) => {
                let cause = error.to_string();
                String::from_str("malformed proto message: ").concat(cause.as_str())
            },
        }
    }
}

} // verus!
