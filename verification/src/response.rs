//! What came back from the server, as plain values.
use reqwest::Error as TransportError;
use vstd::prelude::*;

verus! {

/// The request succeeded and the body holds the result.
pub const OK: u16 = 200;

/// A resource was created.
pub const CREATED: u16 = 201;

/// The request was accepted and is carried out later.
pub const ACCEPTED: u16 = 202;

/// The request succeeded and there is no body.
pub const NO_CONTENT: u16 = 204;

/// The request is malformed or breaks a rule of the service.
pub const BAD_REQUEST: u16 = 400;

/// The token is missing or not valid.
pub const UNAUTHORIZED: u16 = 401;

/// The credentials do not allow the request.
pub const FORBIDDEN: u16 = 403;

/// The resource does not exist.
pub const NOT_FOUND: u16 = 404;

/// The request was throttled.
pub const TOO_MANY_REQUESTS: u16 = 429;

/// One response: its status, the bytes of its first `Retry-After` header if
/// it has one, and its body as text, or the transport's error where the body
/// could not be read.
#[derive(Debug)]
pub struct Response {
    pub status: u16,
    pub retry_after: Option<Vec<u8>>,
    pub body: Result<String, TransportError>,
}

/// A [`Response`] with its bytes and texts as sequences.
pub struct ResponseView {
    pub status: u16,
    pub retry_after: Option<Seq<u8>>,
    pub body: Result<Seq<char>, TransportError>,
}

impl View for Response {
    type V = ResponseView;

    open spec fn view(&self) -> ResponseView {
        ResponseView {
            status: self.status,
            retry_after: match self.retry_after {
                Some(bytes) => Some(bytes@),
                None => None,
            },
            body: match self.body {
                Ok(t) => Ok(t@),
                Err(failure) => Err(failure),
            },
        }
    }
}

impl ResponseView {
    /// The body, or the empty text where it could not be read.
    pub open spec fn text_or_empty(self) -> Seq<char> {
        match self.body {
            Ok(t) => t,
            Err(_) => Seq::empty(),
        }
    }
}

impl Response {
    /// The body, or the empty text where it could not be read.
    pub fn text_or_empty(self) -> (content: String)
        ensures
            content@ == self@.text_or_empty(),
    {
        match self.body {
            Ok(t) => t,
            Err(_) => String::new(),
        }
    }
}

} // verus!
