//! The error taxonomy of the library.
//!
//! Configuration problems (parse, resolution, validation) are kept
//! distinct from live API problems (transport, server rejection,
//! undecodable bodies), so a caller can always tell which side failed.
//! No error is ever downgraded or retried by the library itself.

use vstd::prelude::*;

verus! {

/// One failure of the client core.  Every variant carries a message
/// meant for the caller; for [`Error::ApiError`] it is the server's own
/// status message, passed through verbatim.
#[derive(Debug)]
pub enum Error {
    /// A config or resource file was malformed, or inline certificate
    /// material did not decode.
    ParseError(String),
    /// A named context, cluster, or user matched nothing.
    NotFoundError(String),
    /// A named context, cluster, or user matched more than once.
    AmbiguousError(String),
    /// A resource document misses a mandatory field.
    ValidationError(String),
    /// The network or TLS layer failed before any response arrived.
    TransportError(String),
    /// The server rejected the request.
    ApiError(String),
    /// A response body did not match the expected shape.
    DecodeError(String),
    /// The base server URL could not be joined with the computed path.
    UrlError(String),
}

impl Error {
    /// The message carried by this error, as a sequence of characters.
    pub open spec fn spec_message(self) -> Seq<char> {
        match self {
            Error::ParseError(m) => m@,
            Error::NotFoundError(m) => m@,
            Error::AmbiguousError(m) => m@,
            Error::ValidationError(m) => m@,
            Error::TransportError(m) => m@,
            Error::ApiError(m) => m@,
            Error::DecodeError(m) => m@,
            Error::UrlError(m) => m@,
        }
    }

    /// The message carried by this error.
    pub fn message(&self) -> (m: &String)
        ensures
            m@ == self.spec_message(),
    {
        match self {
            Error::ParseError(m) => m,
            Error::NotFoundError(m) => m,
            Error::AmbiguousError(m) => m,
            Error::ValidationError(m) => m,
            Error::TransportError(m) => m,
            Error::ApiError(m) => m,
            Error::DecodeError(m) => m,
            Error::UrlError(m) => m,
        }
    }
}

impl Clone for Error {
    fn clone(&self) -> (r: Self)
        ensures
            r == *self,
    {
        match self {
            Error::ParseError(m) => Error::ParseError(m.clone()),
            Error::NotFoundError(m) => Error::NotFoundError(m.clone()),
            Error::AmbiguousError(m) => Error::AmbiguousError(m.clone()),
            Error::ValidationError(m) => Error::ValidationError(m.clone()),
            Error::TransportError(m) => Error::TransportError(m.clone()),
            Error::ApiError(m) => Error::ApiError(m.clone()),
            Error::DecodeError(m) => Error::DecodeError(m.clone()),
            Error::UrlError(m) => Error::UrlError(m.clone()),
        }
    }
}

} // verus!
