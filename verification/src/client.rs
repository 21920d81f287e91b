//! The client: who is calling, and how patiently.
use crate::account::Login;
use crate::error::{Error, ErrorView};
use crate::json::{fields_of, json_text, to_body, Json};
use crate::request::{text_view, Method, Operation, OperationView, Reply, Request, RequestView};
use crate::text::is_header_text;
use vstd::prelude::*;
use vstd::string::StringExecFns;

verus! {

/// The origin and path prefix that every endpoint is appended to.
pub const API_URL: &'static str = "https://desec.io/api/v1";

/// How the client names itself to the server.
pub const USERAGENT: &'static str =
    "desec-api-client/0.3.2 (unoffical deSEC API client written in Rust)";

/// An API session: the token, if there is one, and the retry settings.
#[derive(Debug, Clone)]
pub struct Client {
    token: Option<String>,
    /// Whether to retry throttled requests as the `Retry-After` header says.
    retry: bool,
    /// The longest wait, in seconds, to accept for one retry.
    max_wait_retry: u64,
    /// How many retries may follow the first attempt.
    max_retries: usize,
    /// Whether the token came from a login with credentials.
    logged_in: bool,
}

/// What a [`Client`] holds.
pub struct ClientView {
    pub token: Option<Seq<char>>,
    pub retry: bool,
    pub max_wait_retry: u64,
    pub max_retries: usize,
    pub logged_in: bool,
}

impl View for Client {
    type V = ClientView;

    closed spec fn view(&self) -> ClientView {
        ClientView {
            token: text_view(self.token),
            retry: self.retry,
            max_wait_retry: self.max_wait_retry,
            max_retries: self.max_retries,
            logged_in: self.logged_in,
        }
    }
}

/// A client as it is first made: retries on, at most 60 seconds per wait, at
/// most 3 retries.
pub open spec fn fresh(token: Option<Seq<char>>, logged_in: bool) -> ClientView {
    ClientView { token, retry: true, max_wait_retry: 60, max_retries: 3, logged_in }
}

/// The `Authorization` header for a token.
pub open spec fn authorization_of(token: Option<Seq<char>>) -> Option<Seq<char>> {
    match token {
        Some(t) => Some("Token "@ + t),
        None => None,
    }
}

/// The `Content-Type` header: JSON wherever there is a body.
pub open spec fn content_type_of(body: Option<Seq<char>>) -> Option<Seq<char>> {
    match body {
        Some(_) => Some("application/json"@),
        None => None,
    }
}

/// The request that `client` makes for an endpoint: the URL under the base
/// URL, the user agent, the token if there is one, and the body.
pub open spec fn request_for(
    client: ClientView,
    method: Method,
    endpoint: Seq<char>,
    body: Option<Seq<char>>,
) -> RequestView {
    RequestView {
        method,
        url: API_URL@ + endpoint,
        user_agent: USERAGENT@,
        authorization: authorization_of(client.token),
        content_type: content_type_of(body),
        body,
    }
}

/// Whether `made` is the call that sends `document` as its body: the
/// operation with the text that the writer names for the document, or a
/// serialization error where it names none.
pub open spec fn is_json_call(
    made: Result<Operation, Error>,
    client: ClientView,
    method: Method,
    endpoint: Seq<char>,
    document: Json,
    reply: Reply,
) -> bool {
    match json_text(document) {
        Some(t) => made matches Ok(op) && op@ == (OperationView {
            request: request_for(client, method, endpoint, Some(t)),
            reply,
        }),
        None => made matches Err(e) && e@ is Serialize,
    }
}

impl Client {
    fn get_client(token: Option<String>, logged_in: Option<bool>) -> (made: Result<Self, Error>)
        requires
            token matches Some(t) ==> is_header_text(t@),
        ensures
            made matches Ok(client) && client@ == fresh(
                text_view(token),
                logged_in == Some(true),
            ),
    {
        let logged_in = match logged_in {
            Some(flag) => flag,
            None => false,
        };
        Ok(Client { token, retry: true, max_wait_retry: 60, max_retries: 3, logged_in })
    }

    /// A client that authenticates with the given API token.
    ///
    /// The token must be fit for a header value, which
    /// [`is_header_value`](crate::text::is_header_value) tests.
    pub fn new(token: String) -> (made: Result<Self, Error>)
        requires
            is_header_text(token@),
        ensures
            made matches Ok(client) && client@ == fresh(Some(token@), false),
    {
        Client::get_client(Some(token), None)
    }

    /// A client that authenticates with the token of a login with
    /// credentials, and that can log out again.
    ///
    /// The token must be fit for a header value, which
    /// [`is_header_value`](crate::text::is_header_value) tests.
    pub fn new_from_credentials(login: Login) -> (made: Result<Self, Error>)
        requires
            is_header_text(login.token@),
        ensures
            made matches Ok(client) && client@ == fresh(Some(login.token@), true),
    {
        Client::get_client(Some(login.token), Some(true))
    }

    /// A client without a token, for what needs none: a captcha, a
    /// registration, a login.
    pub fn new_unauth() -> (made: Result<Self, Error>)
        ensures
            made matches Ok(client) && client@ == fresh(None, false),
    {
        Client::get_client(None, None)
    }

    /// Ends the session of a client that logged in with credentials: a
    /// bodiless `POST` that is answered without content. A client that was
    /// made from a token cannot log out.
    pub fn logout(self) -> (made: Result<Operation, Error>)
        ensures
            match made {
                Ok(op) => self@.logged_in && op@ == (OperationView {
                    request: request_for(
                        self@,
                        Method::Post,
                        "/auth/logout/"@,
                        Some(Seq::empty()),
                    ),
                    reply: Reply::NoContent,
                }),
                Err(e) => !self@.logged_in && e@ == ErrorView::CannotLogout,
            },
    {
        if !self.logged_in {
            return Err(Error::CannotLogout);
        }
        Ok(Operation { request: self.post("/auth/logout/", None), reply: Reply::NoContent })
    }

    /// Sets whether throttled requests are retried.
    pub fn set_retry(&mut self, retry: bool)
        ensures
            final(self)@ == (ClientView { retry, ..old(self)@ }),
    {
        self.retry = retry;
    }

    /// Whether throttled requests are retried.
    pub fn get_retry(&self) -> (retry: &bool)
        ensures
            *retry == self@.retry,
    {
        &self.retry
    }

    /// Sets the longest wait, in seconds, to accept for one retry.
    pub fn set_max_wait_retry(&mut self, max_wait_retry: u64)
        ensures
            final(self)@ == (ClientView { max_wait_retry, ..old(self)@ }),
    {
        self.max_wait_retry = max_wait_retry;
    }

    /// The longest wait, in seconds, to accept for one retry.
    pub fn get_max_wait_retry(&self) -> (max_wait_retry: &u64)
        ensures
            *max_wait_retry == self@.max_wait_retry,
    {
        &self.max_wait_retry
    }

    /// Sets how many retries may follow the first attempt.
    pub fn set_max_retries(&mut self, max_retries: usize)
        ensures
            final(self)@ == (ClientView { max_retries, ..old(self)@ }),
    {
        self.max_retries = max_retries;
    }

    /// How many retries may follow the first attempt.
    pub fn get_max_retries(&self) -> (max_retries: &usize)
        ensures
            *max_retries == self@.max_retries,
    {
        &self.max_retries
    }

    fn request(&self, method: Method, endpoint: &str, body: Option<String>) -> (request: Request)
        ensures
            request@ == request_for(self@, method, endpoint@, text_view(body)),
    {
        let mut url = String::from_str(API_URL);
        url.append(endpoint);
        let authorization = match &self.token {
            Some(token) => {
                let mut header = String::from_str("Token ");
                header.append(token.as_str());
                Some(header)
            },
            None => None,
        };
        let content_type = match &body {
            Some(_) => Some(String::from_str("application/json")),
            None => None,
        };
        Request {
            method,
            url,
            user_agent: String::from_str(USERAGENT),
            authorization,
            content_type,
            body,
        }
    }

    /// A `GET` of the endpoint.
    pub fn get(&self, endpoint: &str) -> (request: Request)
        ensures
            request@ == request_for(self@, Method::Get, endpoint@, None),
    {
        self.request(Method::Get, endpoint, None)
    }

    /// A `POST` to the endpoint; without a body, the empty text is sent.
    pub fn post(&self, endpoint: &str, body: Option<String>) -> (request: Request)
        ensures
            request@ == request_for(
                self@,
                Method::Post,
                endpoint@,
                Some(
                    match body {
                        Some(b) => b@,
                        None => Seq::empty(),
                    },
                ),
            ),
    {
        let body = match body {
            Some(b) => b,
            None => String::new(),
        };
        self.request(Method::Post, endpoint, Some(body))
    }

    /// A `PATCH` of the endpoint.
    pub fn patch(&self, endpoint: &str, body: String) -> (request: Request)
        ensures
            request@ == request_for(self@, Method::Patch, endpoint@, Some(body@)),
    {
        self.request(Method::Patch, endpoint, Some(body))
    }

    /// A `DELETE` of the endpoint.
    pub fn delete(&self, endpoint: &str) -> (request: Request)
        ensures
            request@ == request_for(self@, Method::Delete, endpoint@, None),
    {
        self.request(Method::Delete, endpoint, None)
    }

    /// A `POST` of a JSON object to the endpoint.
    pub fn post_json(
        &self,
        endpoint: &str,
        members: serde_json::Map<String, serde_json::Value>,
        reply: Reply,
    ) -> (made: Result<Operation, Error>)
        ensures
            is_json_call(
                made,
                self@,
                Method::Post,
                endpoint@,
                Json::Object(fields_of(members)),
                reply,
            ),
    {
        match to_body(members) {
            Ok(body) => Ok(Operation { request: self.post(endpoint, Some(body)), reply }),
            Err(e) => Err(e),
        }
    }

    /// A `PATCH` of the endpoint with a JSON object.
    pub fn patch_json(
        &self,
        endpoint: &str,
        members: serde_json::Map<String, serde_json::Value>,
        reply: Reply,
    ) -> (made: Result<Operation, Error>)
        ensures
            is_json_call(
                made,
                self@,
                Method::Patch,
                endpoint@,
                Json::Object(fields_of(members)),
                reply,
            ),
    {
        match to_body(members) {
            Ok(body) => Ok(Operation { request: self.patch(endpoint, body), reply }),
            Err(e) => Err(e),
        }
    }
}

/// Every request of a client names the same user agent and lies under the
/// base URL. It carries `Token` and the client's token as its authorization
/// exactly when the client has a token, and the JSON content type exactly
/// when it has a body.
pub proof fn lemma_requests_carry_identity(
    client: ClientView,
    method: Method,
    endpoint: Seq<char>,
    body: Option<Seq<char>>,
)
    ensures
        request_for(client, method, endpoint, body).user_agent == USERAGENT@,
        request_for(client, method, endpoint, body).url.subrange(0, API_URL@.len() as int)
            == API_URL@,
        request_for(client, method, endpoint, body).url.skip(API_URL@.len() as int) == endpoint,
        client.token matches Some(token) ==> request_for(client, method, endpoint, body).authorization
            == Some("Token "@ + token),
        client.token is None ==> request_for(client, method, endpoint, body).authorization is None,
        body is Some <==> request_for(client, method, endpoint, body).content_type == Some(
            "application/json"@,
        ),
        request_for(client, method, endpoint, body).body == body,
{
    let url = API_URL@ + endpoint;
    assert(url.subrange(0, API_URL@.len() as int) =~= API_URL@);
    assert(url.skip(API_URL@.len() as int) =~= endpoint);
}

} // verus!
