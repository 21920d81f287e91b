//! Accounts: registration, login, and the settings of the account that the
//! token belongs to.
use crate::client::{fresh, is_json_call, request_for, Client, ClientView};
use crate::error::Error;
use crate::json::{no_fields, put_bool, put_object, put_text, Json};
use crate::request::{name_view, Method, Operation, OperationView, Reply};
use crate::response::{ACCEPTED, CREATED, OK};
use vstd::prelude::*;

verus! {

/// The account operations of a client.
pub struct AccountClient<'a> {
    pub(crate) client: &'a Client,
}

impl<'a> View for AccountClient<'a> {
    type V = ClientView;

    closed spec fn view(&self) -> ClientView {
        self.client@
    }
}

impl<'a> Client {
    /// The account operations of this client.
    pub fn account(&'a self) -> (resource: AccountClient<'a>)
        ensures
            resource@ == self@,
    {
        AccountClient { client: self }
    }
}

/// An account as the service describes it.
#[derive(Debug, Clone, PartialEq, Eq)]
pub struct AccountInformation {
    pub created: String,
    pub email: String,
    pub id: String,
    pub limit_domains: u64,
    pub outreach_preference: bool,
}

/// The token that a login gives, with its settings.
#[derive(Debug)]
pub struct Login {
    pub allowed_subnets: Vec<String>,
    pub created: String,
    pub is_valid: bool,
    pub last_used: Option<String>,
    pub max_age: String,
    pub max_unused_period: String,
    pub name: String,
    pub perm_manage_tokens: bool,
    pub token: String,
}

/// The answer to a registration.
#[derive(Debug)]
pub struct RegisterResponse {
    pub detail: String,
}

/// A captcha to solve before registering.
#[derive(Debug)]
pub struct Captcha {
    pub id: String,
    pub challenge: String,
    pub kind: CaptchaKind,
}

/// The kind of challenge that a captcha poses.
#[derive(Debug, Clone, PartialEq, Eq)]
pub enum CaptchaKind {
    Image,
}

/// A captcha's identifier with the solution offered for it.
pub open spec fn captcha_fields(id: Seq<char>, solution: Seq<char>) -> Map<Seq<char>, Json> {
    no_fields().insert("id"@, Json::Text(id)).insert("solution"@, Json::Text(solution))
}

/// An email address with its password.
pub open spec fn credential_fields(email: Seq<char>, password: Seq<char>) -> Map<
    Seq<char>,
    Json,
> {
    no_fields().insert("email"@, Json::Text(email)).insert("password"@, Json::Text(password))
}

/// The payload that sets the outreach preference.
pub open spec fn outreach_payload(outreach_preference: bool) -> Json {
    Json::Object(no_fields().insert("outreach_preference"@, Json::Bool(outreach_preference)))
}

/// The payload that asks for a password reset.
pub open spec fn password_reset_payload(
    email: Seq<char>,
    captcha_id: Seq<char>,
    captcha_solution: Seq<char>,
) -> Json {
    Json::Object(
        no_fields().insert("email"@, Json::Text(email)).insert(
            "captcha"@,
            Json::Object(captcha_fields(captcha_id, captcha_solution)),
        ),
    )
}

/// The payload that confirms a password reset.
pub open spec fn new_password_payload(new_password: Seq<char>) -> Json {
    Json::Object(no_fields().insert("new_password"@, Json::Text(new_password)))
}

/// The payload that changes the account's email address.
pub open spec fn change_email_payload(
    email: Seq<char>,
    password: Seq<char>,
    new_email: Seq<char>,
) -> Json {
    Json::Object(credential_fields(email, password).insert("new_email"@, Json::Text(new_email)))
}

/// The payload that names an account by its credentials.
pub open spec fn credentials_payload(email: Seq<char>, password: Seq<char>) -> Json {
    Json::Object(credential_fields(email, password))
}

/// The payload that registers an account, with a first domain where one is
/// given.
pub open spec fn register_payload(
    email: Seq<char>,
    password: Seq<char>,
    captcha_id: Seq<char>,
    captcha_solution: Seq<char>,
    domain: Option<Seq<char>>,
) -> Json {
    let fields = credential_fields(email, password).insert(
        "captcha"@,
        Json::Object(captcha_fields(captcha_id, captcha_solution)),
    );
    match domain {
        Some(name) => Json::Object(fields.insert("domain"@, Json::Text(name))),
        None => Json::Object(fields),
    }
}

fn captcha_members(id: &str, solution: &str) -> (members: serde_json::Map<
    String,
    serde_json::Value,
>)
    ensures
        crate::json::fields_of(members) == captcha_fields(id@, solution@),
{
    let mut members = serde_json::Map::new();
    put_text(&mut members, "id", id);
    put_text(&mut members, "solution", solution);
    members
}

fn credential_members(email: &str, password: &str) -> (members: serde_json::Map<
    String,
    serde_json::Value,
>)
    ensures
        crate::json::fields_of(members) == credential_fields(email@, password@),
{
    let mut members = serde_json::Map::new();
    put_text(&mut members, "email", email);
    put_text(&mut members, "password", password);
    members
}

impl<'a> AccountClient<'a> {
    /// Asks for the account's information.
    pub fn get_account_info(&self) -> (op: Operation)
        ensures
            op@ == (OperationView {
                request: request_for(self@, Method::Get, "/auth/account/"@, None),
                reply: Reply::Body(OK),
            }),
    {
        Operation { request: self.client.get("/auth/account/"), reply: Reply::Body(OK) }
    }

    /// Sets the outreach preference, the one setting that can be changed.
    pub fn update_outreach_preference(&self, outreach_preference: bool) -> (made: Result<
        Operation,
        Error,
    >)
        ensures
            is_json_call(
                made,
                self@,
                Method::Patch,
                "/auth/account/"@,
                outreach_payload(outreach_preference),
                Reply::Body(OK),
            ),
    {
        let mut members = serde_json::Map::new();
        put_bool(&mut members, "outreach_preference", outreach_preference);
        self.client.patch_json("/auth/account/", members, Reply::Body(OK))
    }

    /// Asks for a password reset, with the solution of a captcha.
    pub fn request_password_reset(&self, email: &str, captcha_id: &str, captcha_solution: &str)
        -> (made: Result<Operation, Error>)
        ensures
            is_json_call(
                made,
                self@,
                Method::Post,
                "/auth/account/reset-password/"@,
                password_reset_payload(email@, captcha_id@, captcha_solution@),
                Reply::Body(ACCEPTED),
            ),
    {
        let mut members = serde_json::Map::new();
        put_text(&mut members, "email", email);
        put_object(&mut members, "captcha", captcha_members(captcha_id, captcha_solution));
        self.client.post_json("/auth/account/reset-password/", members, Reply::Body(ACCEPTED))
    }

    /// Confirms a password reset with the code that was sent by mail.
    pub fn confirm_password_reset(&self, new_password: &str, code: &str) -> (made: Result<
        Operation,
        Error,
    >)
        ensures
            is_json_call(
                made,
                self@,
                Method::Post,
                "/auth/account/reset-password/"@ + code@,
                new_password_payload(new_password@),
                Reply::Body(ACCEPTED),
            ),
    {
        let mut endpoint = String::from_str("/auth/account/reset-password/");
        endpoint.append(code);
        let mut members = serde_json::Map::new();
        put_text(&mut members, "new_password", new_password);
        self.client.post_json(endpoint.as_str(), members, Reply::Body(ACCEPTED))
    }

    /// Changes the account's email address.
    pub fn update_email(&self, email: &str, password: &str, new_email: &str) -> (made: Result<
        Operation,
        Error,
    >)
        ensures
            is_json_call(
                made,
                self@,
                Method::Post,
                "/auth/account/change-email/"@,
                change_email_payload(email@, password@, new_email@),
                Reply::Body(ACCEPTED),
            ),
    {
        let mut members = credential_members(email, password);
        put_text(&mut members, "new_email", new_email);
        self.client.post_json("/auth/account/change-email/", members, Reply::Body(ACCEPTED))
    }

    /// Deletes the account; its domains must be gone before.
    pub fn delete_account(&self, email: &str, password: &str) -> (made: Result<Operation, Error>)
        ensures
            is_json_call(
                made,
                self@,
                Method::Post,
                "/auth/account/delete/"@,
                credentials_payload(email@, password@),
                Reply::Body(ACCEPTED),
            ),
    {
        let members = credential_members(email, password);
        self.client.post_json("/auth/account/delete/", members, Reply::Body(ACCEPTED))
    }
}

fn anonymous() -> (client: Client)
    ensures
        client@ == fresh(None, false),
{
    match Client::new_unauth() {
        Ok(client) => client,
        Err(_) => vstd::pervasive::unreached(),
    }
}

/// Asks for a captcha, without a token: a bodiless `POST`.
pub fn get_captcha() -> (op: Operation)
    ensures
        op@ == (OperationView {
            request: request_for(
                fresh(None, false),
                Method::Post,
                "/captcha/"@,
                Some(Seq::empty()),
            ),
            reply: Reply::Body(CREATED),
        }),
{
    let client = anonymous();
    Operation { request: client.post("/captcha/", None), reply: Reply::Body(CREATED) }
}

/// Registers an account, without a token, with the solution of a captcha
/// and, if wanted, a first domain.
pub fn register(
    email: &str,
    password: &str,
    captcha_id: &str,
    captcha_solution: &str,
    domain: Option<&str>,
) -> (made: Result<Operation, Error>)
    ensures
        is_json_call(
            made,
            fresh(None, false),
            Method::Post,
            "/auth/"@,
            register_payload(
                email@,
                password@,
                captcha_id@,
                captcha_solution@,
                name_view(domain),
            ),
            Reply::Body(ACCEPTED),
        ),
{
    let mut members = credential_members(email, password);
    put_object(&mut members, "captcha", captcha_members(captcha_id, captcha_solution));
    match domain {
        Some(name) => {
            put_text(&mut members, "domain", name);
        },
        None => {},
    }
    let client = anonymous();
    client.post_json("/auth/", members, Reply::Body(ACCEPTED))
}

/// Logs in with credentials, without a token; the answer holds the token.
pub fn login(email: &str, password: &str) -> (made: Result<Operation, Error>)
    ensures
        is_json_call(
            made,
            fresh(None, false),
            Method::Post,
            "/auth/login/"@,
            credentials_payload(email@, password@),
            Reply::Body(OK),
        ),
{
    let members = credential_members(email, password);
    let client = anonymous();
    client.post_json("/auth/login/", members, Reply::Body(OK))
}

} // verus!
