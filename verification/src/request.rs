//! A call on the service as a value: what to send, and which response
//! answers it.
use crate::error::{Error, ErrorView};
use crate::response::{Response, ResponseView, NO_CONTENT, OK};
use vstd::prelude::*;

verus! {

/// The HTTP method of a request.
#[derive(Clone, Copy, Debug, PartialEq, Eq, Structural)]
pub enum Method {
    Get,
    Post,
    Patch,
    Delete,
}

/// Everything that one attempt puts on the wire. A request is a value: each
/// attempt sends the same one again.
#[derive(Debug)]
pub struct Request {
    pub method: Method,
    /// The absolute URL: the base URL, then the endpoint.
    pub url: String,
    /// The `User-Agent` header.
    pub user_agent: String,
    /// The `Authorization` header, where the client has a token.
    pub authorization: Option<String>,
    /// The `Content-Type` header, where there is a body.
    pub content_type: Option<String>,
    /// The body; `Some` of the empty text for a bodiless `POST`.
    pub body: Option<String>,
}

/// A [`Request`] with its texts as sequences of characters.
pub struct RequestView {
    pub method: Method,
    pub url: Seq<char>,
    pub user_agent: Seq<char>,
    pub authorization: Option<Seq<char>>,
    pub content_type: Option<Seq<char>>,
    pub body: Option<Seq<char>>,
}

/// The text inside an optional string.
pub open spec fn text_view(text: Option<String>) -> Option<Seq<char>> {
    match text {
        Some(t) => Some(t@),
        None => None,
    }
}

/// The text inside an optional string slice.
pub open spec fn name_view(name: Option<&str>) -> Option<Seq<char>> {
    match name {
        Some(n) => Some(n@),
        None => None,
    }
}

impl View for Request {
    type V = RequestView;

    open spec fn view(&self) -> RequestView {
        RequestView {
            method: self.method,
            url: self.url@,
            user_agent: self.user_agent@,
            authorization: text_view(self.authorization),
            content_type: text_view(self.content_type),
            body: text_view(self.body),
        }
    }
}

/// Which response answers an operation.
#[derive(Clone, Copy, Debug, PartialEq, Eq, Structural)]
pub enum Reply {
    /// The given status, with the result in the body.
    Body(u16),
    /// 204, with nothing in the body.
    NoContent,
    /// 200 with the result in the body, or 204 with nothing: the server
    /// dropped the resource in place of updating it.
    BodyOrNoContent,
}

/// One operation of the service: the request, and the response that answers
/// it.
#[derive(Debug)]
pub struct Operation {
    pub request: Request,
    pub reply: Reply,
}

/// An [`Operation`] over a [`RequestView`].
pub struct OperationView {
    pub request: RequestView,
    pub reply: Reply,
}

impl View for Operation {
    type V = OperationView;

    open spec fn view(&self) -> OperationView {
        OperationView { request: self.request@, reply: self.reply }
    }
}

/// What a response with the awaited status gives: its body, or the
/// transport's error where the body could not be read.
pub open spec fn body_result(response: ResponseView) -> Result<Option<Seq<char>>, ErrorView> {
    match response.body {
        Ok(t) => Ok(Some(t)),
        Err(failure) => Err(ErrorView::Reqwest(failure)),
    }
}

/// The failure for a status that the operation does not document.
pub open spec fn unexpected(response: ResponseView) -> Result<Option<Seq<char>>, ErrorView> {
    Err(ErrorView::UnexpectedStatusCode(response.status, response.text_or_empty()))
}

/// What `response` means for an operation that awaits `reply`: the body that
/// holds the result, `None` for a success without content, or the failure.
pub open spec fn reading(reply: Reply, response: ResponseView) -> Result<
    Option<Seq<char>>,
    ErrorView,
> {
    match reply {
        Reply::Body(status) => if response.status == status {
            body_result(response)
        } else {
            unexpected(response)
        },
        Reply::NoContent => if response.status == NO_CONTENT {
            Ok(None)
        } else {
            unexpected(response)
        },
        Reply::BodyOrNoContent => if response.status == OK {
            body_result(response)
        } else if response.status == NO_CONTENT {
            Ok(None)
        } else {
            unexpected(response)
        },
    }
}

/// A result of [`Operation::interpret`] with its texts as sequences.
pub open spec fn reading_view(read: Result<Option<String>, Error>) -> Result<
    Option<Seq<char>>,
    ErrorView,
> {
    match read {
        Ok(content) => Ok(text_view(content)),
        Err(e) => Err(e@),
    }
}

fn body_or_report(response: Response) -> (read: Result<Option<String>, Error>)
    ensures
        reading_view(read) == body_result(response@),
{
    match response.body {
        Ok(t) => Ok(Some(t)),
        Err(failure) => Err(Error::Reqwest(failure)),
    }
}

fn undocumented(response: Response) -> (read: Result<Option<String>, Error>)
    ensures
        reading_view(read) == unexpected(response@),
{
    let status: u16 = response.status;
    Err(Error::UnexpectedStatusCode(status, response.text_or_empty()))
}

impl Operation {
    /// Reads the response that the retry pipeline let through: the body to
    /// decode, `None` for a success without content, or the failure.
    pub fn interpret(&self, response: Response) -> (read: Result<Option<String>, Error>)
        ensures
            reading_view(read) == reading(self.reply, response@),
    {
        match self.reply {
            Reply::Body(status) => {
                if response.status == status {
                    body_or_report(response)
                } else {
                    undocumented(response)
                }
            },
            Reply::NoContent => {
                if response.status == NO_CONTENT {
                    Ok(None)
                } else {
                    undocumented(response)
                }
            },
            Reply::BodyOrNoContent => {
                if response.status == OK {
                    body_or_report(response)
                } else if response.status == NO_CONTENT {
                    Ok(None)
                } else {
                    undocumented(response)
                }
            },
        }
    }
}

/// What becomes of a body once a decoder has answered: the decoded value,
/// or the failure that carries the decoder's report and the body.
pub fn decoded<T>(parsed: Result<T, String>, body: String) -> (result: Result<T, Error>)
    ensures
        match parsed {
            Ok(value) => result matches Ok(v) && v == value,
            Err(report) => result matches Err(e) && e@ == ErrorView::InvalidAPIResponse(
                report@,
                body@,
            ),
        },
{
    match parsed {
        Ok(value) => Ok(value),
        Err(report) => Err(Error::InvalidAPIResponse(report, body)),
    }
}

/// An update that the server answers without content is a success, and one
/// that can be told from an update that is answered with the new state: for
/// an operation that awaits either, 204 reads as `None` whatever the body,
/// and 200 reads as the body.
pub proof fn lemma_no_content_is_success(response: ResponseView)
    ensures
        response.status == NO_CONTENT ==> reading(Reply::BodyOrNoContent, response) == Ok::<
            Option<Seq<char>>,
            ErrorView,
        >(None),
        response.status == OK ==> (response.body matches Ok(content) ==> reading(
            Reply::BodyOrNoContent,
            response,
        ) == Ok::<Option<Seq<char>>, ErrorView>(Some(content))),
        response.status != OK && response.status != NO_CONTENT ==> reading(
            Reply::BodyOrNoContent,
            response,
        ) is Err,
{
}

} // verus!
