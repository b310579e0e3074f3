//! The library's error type.
use vstd::prelude::*;
use vstd::string::*;
use vstd::utf8::*;

use crate::text::push_bytes;

verus! {

/// The standard library's I/O error, carried through unchanged.
#[verifier::external_type_specification]
#[verifier::external_body]
pub struct ExIoError(std::io::Error);

/// Errors of the bridge.
#[derive(Debug)]
pub enum Error {
    /// I/O errors
    Io(std::io::Error),
    /// ESP-IDF specific errors
    EspError(String),
    /// WiFi configuration errors
    WiFiError(String),
    /// TCP server errors
    TcpError(String),
    /// UART errors
    UartError(String),
    /// Client manager errors
    ClientError(String),
    /// Non-volatile storage errors
    StorageError(String),
    /// General errors
    General(String),
}

/// The words that begin the message of each kind of error.
pub open spec fn message_prefix(e: &Error) -> Seq<u8> {
    match e {
        Error::Io(_) => "I/O error: ".spec_bytes(),
        Error::EspError(_) => "ESP-IDF error: ".spec_bytes(),
        Error::WiFiError(_) => "WiFi error: ".spec_bytes(),
        Error::TcpError(_) => "TCP error: ".spec_bytes(),
        Error::UartError(_) => "UART error: ".spec_bytes(),
        Error::ClientError(_) => "Client error: ".spec_bytes(),
        Error::StorageError(_) => "Storage error: ".spec_bytes(),
        Error::General(_) => "Error: ".spec_bytes(),
    }
}

impl Error {
    /// The message of the error as UTF-8 bytes: the words of its kind, then its
    /// detail (for an I/O error, the standard library's text of it).
    pub fn message(&self) -> (r: Vec<u8>)
        ensures
            r@.len() >= message_prefix(self).len(),
            r@.subrange(0, message_prefix(self).len() as int) == message_prefix(self),
            match self {
                Error::Io(_) => true,
                Error::EspError(m) | Error::WiFiError(m) | Error::TcpError(m) | Error::UartError(m)
                | Error::ClientError(m) | Error::StorageError(m) | Error::General(m) => r@
                    == message_prefix(self) + encode_utf8(m@),
            },
    {
        let mut out: Vec<u8> = Vec::new();
        match self {
            Error::Io(e) => {
                push_bytes(&mut out, "I/O error: ".as_bytes());
                let detail = e.to_string();
                push_bytes(&mut out, detail.as_str().as_bytes());
            },
            Error::EspError(m) => {
                push_bytes(&mut out, "ESP-IDF error: ".as_bytes());
                push_bytes(&mut out, m.as_str().as_bytes());
            },
            Error::WiFiError(m) => {
                push_bytes(&mut out, "WiFi error: ".as_bytes());
                push_bytes(&mut out, m.as_str().as_bytes());
            },
            Error::TcpError(m) => {
                push_bytes(&mut out, "TCP error: ".as_bytes());
                push_bytes(&mut out, m.as_str().as_bytes());
            },
            Error::UartError(m) => {
                push_bytes(&mut out, "UART error: ".as_bytes());
                push_bytes(&mut out, m.as_str().as_bytes());
            },
            Error::ClientError(m) => {
                push_bytes(&mut out, "Client error: ".as_bytes());
                push_bytes(&mut out, m.as_str().as_bytes());
            },
            Error::StorageError(m) => {
                push_bytes(&mut out, "Storage error: ".as_bytes());
                push_bytes(&mut out, m.as_str().as_bytes());
            },
            Error::General(m) => {
                push_bytes(&mut out, "Error: ".as_bytes());
                push_bytes(&mut out, m.as_str().as_bytes());
            },
        }
        assert(out@.subrange(0, message_prefix(self).len() as int) =~= message_prefix(self));
        out
    }

    /// The I/O error underneath, for an I/O error.
    pub fn source(&self) -> (r: Option<&std::io::Error>)
        ensures
            r is Some <==> self is Io,
    {
        match self {
            Error::Io(e) => Some(e),
            _ => None,
        }
    }
}

impl From<std::io::Error> for Error {
    fn from(err: std::io::Error) -> (r: Self) {
        Error::Io(err)
    }
}

impl vstd::std_specs::convert::FromSpecImpl<std::io::Error> for Error {
    open spec fn obeys_from_spec() -> bool {
        true
    }

    open spec fn from_spec(v: std::io::Error) -> Error {
        Error::Io(v)
    }
}

} // verus!
