//! The closed set of failures that a call can end in.
use reqwest::Error as TransportError;
use vstd::prelude::*;

verus! {

/// `reqwest::Error`: the transport's own error, opaque here and carried
/// through as it is.
#[verifier::external_type_specification]
#[verifier::external_body]
pub struct ExTransportError(TransportError);

/// Why a call failed.
#[derive(Debug)]
pub enum Error {
    /// The transport failed.
    Reqwest(TransportError),
    /// The server throttled the request and no retry is made: the seconds it
    /// asked for, and why the wait is declined.
    RateLimited(u64, String),
    /// The server throttled the request without a usable `Retry-After`.
    RateLimitedWithoutRetry(String),
    /// The request was throttled on every permitted attempt.
    RateLimitedMaxRetriesReached,
    /// The resource does not exist or belongs to someone else.
    NotFound,
    /// The credentials are not valid.
    Forbidden,
    /// The server rejected the request: status and body.
    ApiError(u16, String),
    /// The server answered with a status that the operation does not
    /// document: status and body.
    UnexpectedStatusCode(u16, String),
    /// The body could not be decoded: the decoder's report and the body.
    InvalidAPIResponse(String, String),
    /// A payload could not be written as JSON.
    Serialize(String),
    /// The transport could not be set up.
    ReqwestClientBuilder(String),
    /// The request is not authorized: the body.
    Unauthorized(String),
    /// Only a client that logged in with credentials can log out.
    CannotLogout,
}

/// An [`Error`] with its texts as sequences of characters.
pub enum ErrorView {
    Reqwest(TransportError),
    RateLimited(u64, Seq<char>),
    RateLimitedWithoutRetry(Seq<char>),
    RateLimitedMaxRetriesReached,
    NotFound,
    Forbidden,
    ApiError(u16, Seq<char>),
    UnexpectedStatusCode(u16, Seq<char>),
    InvalidAPIResponse(Seq<char>, Seq<char>),
    Serialize(Seq<char>),
    ReqwestClientBuilder(Seq<char>),
    Unauthorized(Seq<char>),
    CannotLogout,
}

impl View for Error {
    type V = ErrorView;

    open spec fn view(&self) -> ErrorView {
        match self {
            Error::Reqwest(failure) => ErrorView::Reqwest(*failure),
            Error::RateLimited(seconds, reason) => ErrorView::RateLimited(*seconds, reason@),
            Error::RateLimitedWithoutRetry(reason) => ErrorView::RateLimitedWithoutRetry(reason@),
            Error::RateLimitedMaxRetriesReached => ErrorView::RateLimitedMaxRetriesReached,
            Error::NotFound => ErrorView::NotFound,
            Error::Forbidden => ErrorView::Forbidden,
            Error::ApiError(status, body) => ErrorView::ApiError(*status, body@),
            Error::UnexpectedStatusCode(status, body) => ErrorView::UnexpectedStatusCode(
                *status,
                body@,
            ),
            Error::InvalidAPIResponse(report, body) => ErrorView::InvalidAPIResponse(
                report@,
                body@,
            ),
            Error::Serialize(report) => ErrorView::Serialize(report@),
            Error::ReqwestClientBuilder(report) => ErrorView::ReqwestClientBuilder(report@),
            Error::Unauthorized(body) => ErrorView::Unauthorized(body@),
            Error::CannotLogout => ErrorView::CannotLogout,
        }
    }
}

} // verus!
