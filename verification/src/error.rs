//! The failures a caller can be handed, and the text that describes each.

use vstd::prelude::*;
use vstd::string::StringExecFns;
use crate::text::{push_signed_decimal, signed_decimal};

verus! {

/// A required connection parameter was never given to the builder.
#[derive(Debug, Clone, Copy, PartialEq, Eq)]
pub enum ConfigError {
    /// No hostname was set.
    MissingHostname,
    /// No port was set.
    MissingPort,
}

/// A prediction response that does not have the expected form.
#[derive(Debug, Clone, Copy, PartialEq, Eq)]
pub enum ProtocolError {
    /// The response has no `probabilities` output.
    MissingProbabilities,
    /// The response has no `classes` output.
    MissingClasses,
    /// The `classes` output is not of 64-bit integers; the field is the type tag it carries.
    UnexpectedClassesType(i32),
    /// The `classes` output is not a single dimension of size one.
    UnexpectedClassesShape,
    /// The `classes` output has the right shape but carries no integer.
    MissingClassIndex,
    /// The classification response carries no result.
    MissingResult,
}

/// Why a request could not be prepared or its response not be read.
#[derive(Debug, Clone, PartialEq, Eq)]
pub enum ServingError {
    /// The builder lacks a required field.
    Config(ConfigError),
    /// The transport could not establish a channel; the field is its diagnostic.
    Connection(String),
    /// The image could not be opened or decoded; the field is the decoder's diagnostic.
    Decode(String),
    /// The response violates the protocol.
    Protocol(ProtocolError),
}

impl ConfigError {
    /// The text of this error.
    pub open spec fn text(self) -> Seq<char> {
        match self {
            ConfigError::MissingHostname => "hostname not provided"@,
            ConfigError::MissingPort => "port not provided"@,
        }
    }

    /// The text of this error as a string.
    pub fn message(&self) -> (s: String)
        ensures
            s@ == self.text(),
    {
        match self {
            ConfigError::MissingHostname => String::from_str("hostname not provided"),
            ConfigError::MissingPort => String::from_str("port not provided"),
        }
    }
}

impl ProtocolError {
    /// The text of this error.
    pub open spec fn text(self) -> Seq<char> {
        match self {
            ProtocolError::MissingProbabilities =>
                "probabilities not available from the server response"@,
            ProtocolError::MissingClasses => "classes not available from the server response"@,
            ProtocolError::UnexpectedClassesType(tag) =>
                "classes has unexpected data type, should be i64, got "@ + signed_decimal(
                    tag as int,
                ),
            ProtocolError::UnexpectedClassesShape => "number of classes unexpected"@,
            ProtocolError::MissingClassIndex =>
                "class index not available from the server response"@,
            ProtocolError::MissingResult =>
                "classification result not available from the server response"@,
        }
    }

    /// The text of this error as a string.
    pub fn message(&self) -> (s: String)
        ensures
            s@ == self.text(),
    {
        match self {
            ProtocolError::MissingProbabilities => String::from_str(
                "probabilities not available from the server response",
            ),
            ProtocolError::MissingClasses => String::from_str(
                "classes not available from the server response",
            ),
            ProtocolError::UnexpectedClassesType(tag) => {
                let mut s = String::from_str(
                    "classes has unexpected data type, should be i64, got ",
                );
                push_signed_decimal(&mut s, *tag);
                s
            },
            ProtocolError::UnexpectedClassesShape => String::from_str(
                "number of classes unexpected",
            ),
            ProtocolError::MissingClassIndex => String::from_str(
                "class index not available from the server response",
            ),
            ProtocolError::MissingResult => String::from_str(
                "classification result not available from the server response",
            ),
        }
    }
}

impl ServingError {
    /// The text of this error: the fixed wording of a configuration or protocol
    /// error, or the diagnostic that a connection or decoding failure carries.
    pub open spec fn text(self) -> Seq<char> {
        match self {
            ServingError::Config(e) => e.text(),
            ServingError::Connection(diagnostic) => diagnostic@,
            ServingError::Decode(diagnostic) => diagnostic@,
            ServingError::Protocol(e) => e.text(),
        }
    }

    /// The text of this error as a string.
    pub fn message(&self) -> (s: String)
        ensures
            s@ == self.text(),
    {
        match self {
            ServingError::Config(e) => e.message(),
            ServingError::Connection(diagnostic) => diagnostic.clone(),
            ServingError::Decode(diagnostic) => diagnostic.clone(),
            ServingError::Protocol(e) => e.message(),
        }
    }
}

} // verus!
