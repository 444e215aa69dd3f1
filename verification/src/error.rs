//! Errors reported by the framework.
use vstd::prelude::*;
use vstd::string::*;

use crate::text::{concat2, concat3, decimal, push_decimal};

verus! {

/// `std::str::Utf8Error`, carried by [`ParserError::Utf8Error`].
#[verifier::external_type_specification]
#[verifier::external_body]
pub struct ExUtf8Error(std::str::Utf8Error);

/// An input/output failure of the underlying stream: whether it was an
/// unexpected end of file, and the text that describes it.
#[derive(Debug)]
pub struct IoFailure {
    pub unexpected_eof: bool,
    pub message: String,
}

/// The message of the token errors the reader makes.
pub open spec fn token_error_message() -> Seq<char> {
    "Expected token not found, EOF reached"@
}

/// Whether a token error carries the reader's message; other errors are not concerned.
pub open spec fn token_message_stated(e: ParserError) -> bool {
    match e {
        ParserError::TokenExpected { message, .. } => message@ == token_error_message(),
        _ => true,
    }
}

/// Enum for all common error generated from the framework
#[derive(Debug)]
pub enum ParserError {
    /// Particular token expected is not found
    TokenExpected { line_index: usize, char_index: usize, message: String },
    /// Error to denote that key is missing in KeyValueSpec
    MissingKey(String),
    /// Data is missing when try to serialize spec
    MissingData(String),
    /// Value is missing when try to deserialize KeyValueSpec
    MissingValue(String),
    /// denotes error from serde crate
    SerdeError(String),
    /// denotes error when parsing utf8 string
    Utf8Error(std::str::Utf8Error),
    /// denotes end of stream error
    EndOfStream,
    /// No  constituent of a composite spec can be serialized/deserialized
    NoValidListConstituents(String),
    /// Invalid marker
    InvalidMarker { line_index: usize, char_index: usize, message: String },
    /// wraps an input/output failure
    IOError { error: IoFailure },
}

/// The display text of a parser error.
pub open spec fn error_text(e: ParserError) -> Seq<char> {
    match e {
        ParserError::TokenExpected { line_index, char_index, message } =>
            "Token expected at line "@ + decimal(line_index as nat) + " char_pos "@ + decimal(char_index as nat) + " "@ + message@,
        ParserError::IOError { error } => "IO Error "@ + error.message@,
        ParserError::MissingKey(msg) => msg@,
        ParserError::MissingData(key) => "Expected data for key "@ + key@ + " but found none whle writing to writer"@,
        ParserError::MissingValue(key) => "Expected value for key "@ + key@ + " but found none whle writing to writer"@,
        ParserError::Utf8Error(_) => "Expected value is not a valid  utf-8 data"@,
        ParserError::SerdeError(_) => "Expected value is not a valid  utf-8 data"@,
        ParserError::EndOfStream => "End of stream reached while parsing data. Expected more data to be present."@,
        ParserError::NoValidListConstituents(name) => "No consituent of the list spec "@ + name@ + " has valid value"@,
        ParserError::InvalidMarker { line_index, char_index, message } =>
            "Invalid Marker provided during mark/reset operation at line "@ + decimal(line_index as nat) + " char_pos "@ + decimal(char_index as nat) + ": "@ + message@,
    }
}

/// What a parser error says apart from the text of its message.
pub enum ErrorKind {
    TokenExpected { line_index: usize, char_index: usize },
    MissingKey,
    MissingData,
    MissingValue,
    SerdeError,
    Utf8Error,
    EndOfStream,
    NoValidListConstituents(Seq<char>),
    InvalidMarker { line_index: usize, char_index: usize },
    IOError { unexpected_eof: bool },
}

/// The kind of a parser error: its variant and the fields that are not message text.
pub open spec fn kind_of(e: ParserError) -> ErrorKind {
    match e {
        ParserError::TokenExpected { line_index, char_index, .. } => ErrorKind::TokenExpected { line_index, char_index },
        ParserError::MissingKey(_) => ErrorKind::MissingKey,
        ParserError::MissingData(_) => ErrorKind::MissingData,
        ParserError::MissingValue(_) => ErrorKind::MissingValue,
        ParserError::SerdeError(_) => ErrorKind::SerdeError,
        ParserError::Utf8Error(_) => ErrorKind::Utf8Error,
        ParserError::EndOfStream => ErrorKind::EndOfStream,
        ParserError::NoValidListConstituents(name) => ErrorKind::NoValidListConstituents(name@),
        ParserError::InvalidMarker { line_index, char_index, .. } => ErrorKind::InvalidMarker { line_index, char_index },
        ParserError::IOError { error } => ErrorKind::IOError { unexpected_eof: error.unexpected_eof },
    }
}

impl ParserError {
    /// check if the error is EndOfStream
    pub fn is_eof(&self) -> (b: bool)
        ensures
            b == (self is EndOfStream),
    {
        match self {
            ParserError::EndOfStream => true,
            _ => false,
        }
    }

    /// The text that describes the error, as it is displayed.
    pub fn describe(&self) -> (s: String)
        ensures
            s@ == error_text(*self),
    {
        proof {
            reveal_strlit("Token expected at line ");
            reveal_strlit(" char_pos ");
            reveal_strlit(" ");
            reveal_strlit("IO Error ");
            reveal_strlit("Expected data for key ");
            reveal_strlit(" but found none whle writing to writer");
            reveal_strlit("Expected value for key ");
            reveal_strlit("Expected value is not a valid  utf-8 data");
            reveal_strlit("End of stream reached while parsing data. Expected more data to be present.");
            reveal_strlit("No consituent of the list spec ");
            reveal_strlit(" has valid value");
            reveal_strlit("Invalid Marker provided during mark/reset operation at line ");
            reveal_strlit(": ");
        }
        match self {
            ParserError::TokenExpected { line_index, char_index, message } => {
                let mut s = String::from_str("Token expected at line ");
                push_decimal(&mut s, *line_index as u64);
                s.append(" char_pos ");
                push_decimal(&mut s, *char_index as u64);
                s.append(" ");
                s.append(message.as_str());
                s
            },
            ParserError::IOError { error } => concat2("IO Error ", error.message.as_str()),
            ParserError::MissingKey(msg) => msg.clone(),
            ParserError::MissingData(key) => concat3("Expected data for key ", key.as_str(), " but found none whle writing to writer"),
            ParserError::MissingValue(key) => concat3("Expected value for key ", key.as_str(), " but found none whle writing to writer"),
            ParserError::Utf8Error(_) => String::from_str("Expected value is not a valid  utf-8 data"),
            ParserError::SerdeError(_) => String::from_str("Expected value is not a valid  utf-8 data"),
            ParserError::EndOfStream => String::from_str("End of stream reached while parsing data. Expected more data to be present."),
            ParserError::NoValidListConstituents(name) => concat3("No consituent of the list spec ", name.as_str(), " has valid value"),
            ParserError::InvalidMarker { line_index, char_index, message } => {
                let mut s = String::from_str("Invalid Marker provided during mark/reset operation at line ");
                push_decimal(&mut s, *line_index as u64);
                s.append(" char_pos ");
                push_decimal(&mut s, *char_index as u64);
                s.append(": ");
                s.append(message.as_str());
                s
            },
        }
    }
}

impl From<std::str::Utf8Error> for ParserError {
    fn from(error: std::str::Utf8Error) -> (r: ParserError) {
        ParserError::Utf8Error(error)
    }
}

impl vstd::std_specs::convert::FromSpecImpl<std::str::Utf8Error> for ParserError {
    open spec fn obeys_from_spec() -> bool {
        true
    }

    open spec fn from_spec(error: std::str::Utf8Error) -> ParserError {
        ParserError::Utf8Error(error)
    }
}

/// Error enum to represent server/transport related errors
#[derive(Debug)]
pub enum ServerError {
    StartError(String),
    StopError,
    RequestError(ParserError),
    ResponseError(ParserError),
    IOError(IoFailure),
}

} // verus!
