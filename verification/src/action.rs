//! What the session layer asks of the types that actions take and give.
//!
//! Arguments arrive as bytes whose meaning only the action knows, and
//! results leave the same way. The traits here are that boundary: an
//! argument type says how it is read from bytes, a response type how it is
//! written and under which type name.

use vstd::prelude::*;

verus! {

/// Argument bytes that could not be read as the type asked for.
#[derive(Debug, PartialEq, Eq)]
pub struct DecodeError {
    /// What the decoder found wrong.
    pub description: String,
}

/// A value that could not be written as bytes.
#[derive(Debug, PartialEq, Eq)]
pub struct EncodeError {
    /// What the encoder found wrong.
    pub description: String,
}

/// Arguments that were read but do not make a valid request.
#[derive(Debug, PartialEq, Eq)]
pub struct ParseArgsError {
    /// What is wrong with the arguments.
    pub description: String,
}

impl View for DecodeError {
    type V = Seq<char>;

    open spec fn view(&self) -> Seq<char> {
        self.description@
    }
}

impl View for EncodeError {
    type V = Seq<char>;

    open spec fn view(&self) -> Seq<char> {
        self.description@
    }
}

impl View for ParseArgsError {
    type V = Seq<char>;

    open spec fn view(&self) -> Seq<char> {
        self.description@
    }
}

/// Arguments of an action, as a session hands them to a handler.
pub trait Request: Sized {
    /// Reads the arguments from their serialized form.
    fn from_bytes(bytes: &[u8]) -> Result<Self, DecodeError>;

    /// The arguments that stand for an envelope without any.
    fn from_default() -> Self;
}

/// Arguments of an action that are validated while they are read.
pub trait Args: Sized {
    /// Reads and validates the arguments from their serialized form.
    fn from_bytes(bytes: &[u8]) -> Result<Self, ParseArgsError>;

    /// Validates the arguments that stand for an envelope without any.
    fn from_default() -> Result<Self, ParseArgsError>;
}

/// A result that an action sends back.
pub trait Response: Sized {
    /// Type name that accompanies the serialized value, if it has one.
    const RDF_NAME: Option<&'static str>;

    /// Serializes the value.
    fn encode(self) -> Result<Vec<u8>, EncodeError>;
}

} // verus!
