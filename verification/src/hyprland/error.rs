//! The failures of the protocol client.

use vstd::prelude::*;
use vstd::string::StringExecFns;

use crate::hyprland::decoder::DecodeError;
use crate::hyprland::events::Event;

verus! {

/// The kinds of transport failure that callers tell apart.
#[derive(Debug, Clone, Copy, PartialEq, Eq)]
pub enum IoErrorKind {
    NotFound,
    PermissionDenied,
    ConnectionRefused,
    ConnectionReset,
    ConnectionAborted,
    NotConnected,
    /// The peer closed the connection before the exchange was complete.
    BrokenPipe,
    TimedOut,
    UnexpectedEof,
    Other,
}

/// A failure of the transport, as the driver of the sockets reports it.
#[derive(Debug, Clone, PartialEq, Eq)]
pub struct IoError {
    pub kind: IoErrorKind,
    pub message: String,
}

/// Where and why a response is not a well-formed JSON document.
#[derive(Debug, Clone, PartialEq, Eq)]
pub struct JsonSyntaxError {
    /// Line at which the fault was detected, counted from one.
    pub line: usize,
    /// Column at which the fault was detected, counted from one; it can be
    /// zero, where the fault was met before any character of the line.
    pub column: usize,
    /// The parser's description of the fault.
    pub message: String,
}

/// Why a response could not be turned into a typed value.
#[derive(Debug, Clone, PartialEq, Eq)]
pub enum JsonError {
    /// The response is not a well-formed JSON document.
    Syntax(JsonSyntaxError),
    /// The document does not have the shape that the command's response has.
    Schema,
}

/// What can go wrong in the protocol client.
#[derive(Debug, Clone, PartialEq, Eq)]
pub enum Error {
    /// The transport failed.
    Io(IoError),
    /// An event could not be published: nobody is subscribed. The event comes back.
    ChannelError(Event),
    /// A response could not be decoded.
    JsonParse(JsonError),
    /// Every attempt of a request met a broken pipe.
    MaxRetriesExceeded(),
    /// A line of the event socket could not be decoded.
    Decode(DecodeError),
}

impl Error {
    /// The text that describes this error to a user.
    pub open spec fn message_text(self) -> Seq<char> {
        match self {
            Error::Io(_) => "I/O error"@,
            Error::ChannelError(_) => "Channel error"@,
            Error::JsonParse(_) => "JSON parsing error"@,
            Error::MaxRetriesExceeded() => "Max retries exceeded"@,
            Error::Decode(_) => "Event decoding error"@,
        }
    }

    /// The text that describes this error to a user.
    pub fn message(&self) -> (r: String)
        ensures
            r@ == self.message_text(),
    {
        match self {
            Error::Io(_) => String::from_str("I/O error"),
            Error::ChannelError(_) => String::from_str("Channel error"),
            Error::JsonParse(_) => String::from_str("JSON parsing error"),
            Error::MaxRetriesExceeded() => String::from_str("Max retries exceeded"),
            Error::Decode(_) => String::from_str("Event decoding error"),
        }
    }
}

} // verus!
