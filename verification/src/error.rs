use crate::headers::Headers;
use vstd::prelude::*;

verus! {

/// The closed set of failure classes a call can end in.  The kind alone
/// tells a caller whether the condition is worth retrying; the message is
/// diagnostic text and is never inspected by the library itself.
#[derive(Clone, Copy, Debug, PartialEq, Eq, Structural)]
pub enum Kind {
    /// The base URL and path did not combine into a parsable absolute URL.
    UrlParseError,
    /// The transport failed outright: DNS, connection or timeout trouble.
    RequestError,
    /// The server answered with a status outside the accepted set.
    HTTPStatusError,
    /// The server answered 206: the resource is still being produced.
    HTTPPartialContentError,
    /// A body that should have decoded into the requested type did not.
    ParseError,
    /// The underlying HTTP client could not be constructed.
    ClientBuildError,
}

/// One failure, with the context a caller needs to react without
/// re-parsing any text.
#[derive(Clone, Debug)]
pub struct Error {
    pub kind: Kind,
    pub message: String,
    pub url: Option<String>,
    pub status: Option<u16>,
    pub headers: Option<Headers>,
}

impl Error {
    /// Bundles a failure from its parts; every field is stored as given.
    pub fn new_own(
        message: String,
        kind: Kind,
        url: Option<String>,
        status: Option<u16>,
        headers: Option<Headers>,
    ) -> (e: Error)
        ensures
            e.kind == kind,
            e.message == message,
            e.url == url,
            e.status == status,
            e.headers == headers,
    {
        Error { kind, message, url, status, headers }
    }
}

} // verus!
