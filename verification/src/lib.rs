//! Client-side logic for the deSEC DNS API.
//!
//! The library builds the requests for the account, domain, record-set and
//! token resources, and decides what each response means, including the
//! bounded wait-and-retry on rate limits. It does no I/O: sending and
//! sleeping are left to a driver.
//!
//! A resource client, such as [`Client::rrset`], turns a call into an
//! [`Operation`]: the [`Request`] to send and the [`Reply`] that answers it.
//! To carry an operation out, a driver starts with
//! [`Client::process_request`] and follows each [`Step`]:
//!
//! * [`Step::Send`]: send the operation's request, collect the status, the
//!   `Retry-After` header and the body into a [`Response`], and report it
//!   with [`Client::process_response`];
//! * [`Step::Wait`]: sleep for the seconds given, then call
//!   [`Client::resume`];
//! * [`Step::Done`]: the call is over. Hand a response to
//!   [`Operation::interpret`], which gives the body to decode.
pub mod account;
pub mod client;
pub mod domain;
pub mod error;
pub mod json;
pub mod request;
pub mod response;
pub mod retry;
pub mod rrset;
pub mod text;
pub mod token;

pub use crate::client::{Client, ClientView, API_URL, USERAGENT};
pub use crate::error::{Error, ErrorView};
pub use crate::request::{Method, Operation, OperationView, Reply, Request, RequestView};
pub use crate::response::{Response, ResponseView};
pub use crate::retry::{Attempt, Backoff, Step, StepView};
