//! Tokens and their policies.
use crate::client::{is_json_call, request_for, Client, ClientView};
use crate::error::Error;
use crate::json::{
    fields_of, no_fields, put_bool, put_text, put_text_list, put_text_or_null, text_items,
    text_or_null, Json,
};
use crate::request::{text_view, Method, Operation, OperationView, Reply};
use crate::response::{CREATED, OK};
use crate::text::concat3;
use vstd::prelude::*;
use vstd::string::StringExecFns;

verus! {

/// The token operations of a client.
pub struct TokenClient<'a> {
    pub(crate) client: &'a Client,
}

impl<'a> View for TokenClient<'a> {
    type V = ClientView;

    closed spec fn view(&self) -> ClientView {
        self.client@
    }
}

impl<'a> Client {
    /// The token operations of this client.
    pub fn token(&'a self) -> (resource: TokenClient<'a>)
        ensures
            resource@ == self@,
    {
        TokenClient { client: self }
    }
}

/// A token as the service describes it. The secret itself is there only in
/// the answer to the token's creation.
#[derive(Debug)]
pub struct Token {
    pub created: String,
    pub id: String,
    pub last_used: Option<String>,
    pub name: String,
    pub perm_manage_tokens: bool,
    pub allowed_subnets: Vec<String>,
    pub max_age: Option<String>,
    pub max_unused_period: Option<String>,
    pub token: Option<String>,
}

/// A rule that limits what a token may write: for a domain, a subname and a
/// record type, each of which may be left open.
#[derive(Debug)]
pub struct TokenPolicy {
    pub id: String,
    pub domain: Option<String>,
    pub subname: Option<String>,
    pub rrset_type: Option<String>,
    pub perm_write: bool,
}

/// The endpoint of one token.
pub open spec fn token_endpoint(token_id: Seq<char>) -> Seq<char> {
    "/auth/tokens/"@ + token_id + "/"@
}

/// The endpoint of a token's policies.
pub open spec fn policies_endpoint(token_id: Seq<char>) -> Seq<char> {
    "/auth/tokens/"@ + token_id + "/policies/rrsets/"@
}

/// The endpoint of one policy of a token.
pub open spec fn policy_endpoint(token_id: Seq<char>, policy_id: Seq<char>) -> Seq<char> {
    policies_endpoint(token_id) + policy_id + "/"@
}

/// The members with `key` set to the text, where there is one.
pub open spec fn with_text(fields: Map<Seq<char>, Json>, key: Seq<char>, text: Option<Seq<char>>)
    -> Map<Seq<char>, Json> {
    match text {
        Some(t) => fields.insert(key, Json::Text(t)),
        None => fields,
    }
}

/// The members with `key` set to the list of texts, where there is one.
pub open spec fn with_text_list(
    fields: Map<Seq<char>, Json>,
    key: Seq<char>,
    items: Option<Seq<String>>,
) -> Map<Seq<char>, Json> {
    match items {
        Some(list) => fields.insert(key, Json::List(text_items(list))),
        None => fields,
    }
}

/// The members with `key` set to the truth value, where there is one.
pub open spec fn with_bool(fields: Map<Seq<char>, Json>, key: Seq<char>, flag: Option<bool>)
    -> Map<Seq<char>, Json> {
    match flag {
        Some(f) => fields.insert(key, Json::Bool(f)),
        None => fields,
    }
}

/// The items inside an optional list.
pub open spec fn items_view(items: Option<Vec<String>>) -> Option<Seq<String>> {
    match items {
        Some(list) => Some(list@),
        None => None,
    }
}

/// The settings of a token as members of a payload: each setting that is
/// given, and no member for one that is not.
pub open spec fn token_fields(
    name: Option<Seq<char>>,
    allowed_subnets: Option<Seq<String>>,
    perm_manage_tokens: Option<bool>,
    max_age: Option<Seq<char>>,
    max_unused_period: Option<Seq<char>>,
) -> Map<Seq<char>, Json> {
    with_text(
        with_text(
            with_bool(
                with_text_list(
                    with_text(no_fields(), "name"@, name),
                    "allowed_subnets"@,
                    allowed_subnets,
                ),
                "perm_manage_tokens"@,
                perm_manage_tokens,
            ),
            "max_age"@,
            max_age,
        ),
        "max_unused_period"@,
        max_unused_period,
    )
}

/// The scope of a policy as members of a payload: always all four, with
/// `null` for what is left open and `false` where no permission is given.
pub open spec fn policy_fields(
    domain: Option<Seq<char>>,
    subname: Option<Seq<char>>,
    rrset_type: Option<Seq<char>>,
    perm_write: Option<bool>,
) -> Map<Seq<char>, Json> {
    no_fields().insert("domain"@, text_or_null(domain)).insert(
        "subname"@,
        text_or_null(subname),
    ).insert("type"@, text_or_null(rrset_type)).insert(
        "perm_write"@,
        Json::Bool(perm_write == Some(true)),
    )
}

/// Builds the payload that creates or updates a policy.
pub fn construct_policy_payload(
    domain: Option<String>,
    subname: Option<String>,
    rrset_type: Option<String>,
    perm_write: Option<bool>,
) -> (payload: serde_json::Map<String, serde_json::Value>)
    ensures
        fields_of(payload) == policy_fields(
            text_view(domain),
            text_view(subname),
            text_view(rrset_type),
            perm_write,
        ),
{
    let mut payload = serde_json::Map::new();
    put_text_or_null(&mut payload, "domain", domain);
    put_text_or_null(&mut payload, "subname", subname);
    put_text_or_null(&mut payload, "type", rrset_type);
    let flag = match perm_write {
        Some(f) => f,
        None => false,
    };
    put_bool(&mut payload, "perm_write", flag);
    payload
}

/// Builds the payload that creates or updates a token.
pub fn construct_token_payload(
    name: Option<String>,
    allowed_subnets: Option<Vec<String>>,
    perm_manage_tokens: Option<bool>,
    max_age: Option<String>,
    max_unused_period: Option<String>,
) -> (payload: serde_json::Map<String, serde_json::Value>)
    ensures
        fields_of(payload) == token_fields(
            text_view(name),
            items_view(allowed_subnets),
            perm_manage_tokens,
            text_view(max_age),
            text_view(max_unused_period),
        ),
{
    let mut payload = serde_json::Map::new();
    if let Some(name) = name {
        put_text(&mut payload, "name", name.as_str());
    }
    if let Some(allowed_subnets) = allowed_subnets {
        put_text_list(&mut payload, "allowed_subnets", allowed_subnets.as_slice());
    }
    if let Some(perm_manage_tokens) = perm_manage_tokens {
        put_bool(&mut payload, "perm_manage_tokens", perm_manage_tokens);
    }
    if let Some(max_age) = max_age {
        put_text(&mut payload, "max_age", max_age.as_str());
    }
    if let Some(max_unused_period) = max_unused_period {
        put_text(&mut payload, "max_unused_period", max_unused_period.as_str());
    }
    payload
}

impl<'a> TokenClient<'a> {
    /// Creates a token with the settings given.
    pub fn create(
        &self,
        name: Option<String>,
        allowed_subnets: Option<Vec<String>>,
        perm_manage_tokens: Option<bool>,
        max_age: Option<String>,
        max_unused_period: Option<String>,
    ) -> (made: Result<Operation, Error>)
        ensures
            is_json_call(
                made,
                self@,
                Method::Post,
                "/auth/tokens/"@,
                Json::Object(
                    token_fields(
                        text_view(name),
                        items_view(allowed_subnets),
                        perm_manage_tokens,
                        text_view(max_age),
                        text_view(max_unused_period),
                    ),
                ),
                Reply::Body(CREATED),
            ),
    {
        let payload = construct_token_payload(
            name,
            allowed_subnets,
            perm_manage_tokens,
            max_age,
            max_unused_period,
        );
        self.client.post_json("/auth/tokens/", payload, Reply::Body(CREATED))
    }

    /// Deletes a token.
    pub fn delete(&self, token_id: &str) -> (op: Operation)
        ensures
            op@ == (OperationView {
                request: request_for(self@, Method::Delete, token_endpoint(token_id@), None),
                reply: Reply::NoContent,
            }),
    {
        let endpoint = concat3("/auth/tokens/", token_id, "/");
        Operation { request: self.client.delete(endpoint.as_str()), reply: Reply::NoContent }
    }

    /// Lists the tokens of the account: one page of them.
    pub fn list(&self) -> (op: Operation)
        ensures
            op@ == (OperationView {
                request: request_for(self@, Method::Get, "/auth/tokens/"@, None),
                reply: Reply::Body(OK),
            }),
    {
        Operation { request: self.client.get("/auth/tokens/"), reply: Reply::Body(OK) }
    }

    /// Asks for one token.
    pub fn get(&self, token_id: &str) -> (op: Operation)
        ensures
            op@ == (OperationView {
                request: request_for(self@, Method::Get, token_endpoint(token_id@), None),
                reply: Reply::Body(OK),
            }),
    {
        let endpoint = concat3("/auth/tokens/", token_id, "/");
        Operation { request: self.client.get(endpoint.as_str()), reply: Reply::Body(OK) }
    }

    /// Updates the settings of a token that are given.
    pub fn patch(
        &self,
        token_id: &str,
        name: Option<String>,
        allowed_subnets: Option<Vec<String>>,
        perm_manage_tokens: Option<bool>,
        max_age: Option<String>,
        max_unused_period: Option<String>,
    ) -> (made: Result<Operation, Error>)
        ensures
            is_json_call(
                made,
                self@,
                Method::Patch,
                token_endpoint(token_id@),
                Json::Object(
                    token_fields(
                        text_view(name),
                        items_view(allowed_subnets),
                        perm_manage_tokens,
                        text_view(max_age),
                        text_view(max_unused_period),
                    ),
                ),
                Reply::Body(OK),
            ),
    {
        let payload = construct_token_payload(
            name,
            allowed_subnets,
            perm_manage_tokens,
            max_age,
            max_unused_period,
        );
        let endpoint = concat3("/auth/tokens/", token_id, "/");
        self.client.patch_json(endpoint.as_str(), payload, Reply::Body(OK))
    }

    /// Creates a policy of a token.
    pub fn create_policy(
        &self,
        token_id: &str,
        domain: Option<String>,
        subname: Option<String>,
        rrset_type: Option<String>,
        perm_write: Option<bool>,
    ) -> (made: Result<Operation, Error>)
        ensures
            is_json_call(
                made,
                self@,
                Method::Post,
                policies_endpoint(token_id@),
                Json::Object(
                    policy_fields(
                        text_view(domain),
                        text_view(subname),
                        text_view(rrset_type),
                        perm_write,
                    ),
                ),
                Reply::Body(CREATED),
            ),
    {
        let payload = construct_policy_payload(domain, subname, rrset_type, perm_write);
        let endpoint = concat3("/auth/tokens/", token_id, "/policies/rrsets/");
        self.client.post_json(endpoint.as_str(), payload, Reply::Body(CREATED))
    }

    /// Updates a policy of a token.
    pub fn patch_policy(
        &self,
        token_id: &str,
        policy_id: &str,
        domain: Option<String>,
        subname: Option<String>,
        rrset_type: Option<String>,
        perm_write: Option<bool>,
    ) -> (made: Result<Operation, Error>)
        ensures
            is_json_call(
                made,
                self@,
                Method::Patch,
                policy_endpoint(token_id@, policy_id@),
                Json::Object(
                    policy_fields(
                        text_view(domain),
                        text_view(subname),
                        text_view(rrset_type),
                        perm_write,
                    ),
                ),
                Reply::Body(OK),
            ),
    {
        let payload = construct_policy_payload(domain, subname, rrset_type, perm_write);
        let endpoint = policy_path(token_id, policy_id);
        self.client.patch_json(endpoint.as_str(), payload, Reply::Body(OK))
    }

    /// Asks for one policy of a token.
    pub fn get_policy(&self, token_id: &str, policy_id: &str) -> (op: Operation)
        ensures
            op@ == (OperationView {
                request: request_for(
                    self@,
                    Method::Get,
                    policy_endpoint(token_id@, policy_id@),
                    None,
                ),
                reply: Reply::Body(OK),
            }),
    {
        let endpoint = policy_path(token_id, policy_id);
        Operation { request: self.client.get(endpoint.as_str()), reply: Reply::Body(OK) }
    }

    /// Lists the policies of a token.
    pub fn list_policies(&self, token_id: &str) -> (op: Operation)
        ensures
            op@ == (OperationView {
                request: request_for(self@, Method::Get, policies_endpoint(token_id@), None),
                reply: Reply::Body(OK),
            }),
    {
        let endpoint = concat3("/auth/tokens/", token_id, "/policies/rrsets/");
        Operation { request: self.client.get(endpoint.as_str()), reply: Reply::Body(OK) }
    }

    /// Deletes a policy of a token.
    pub fn delete_policy(&self, token_id: &str, policy_id: &str) -> (op: Operation)
        ensures
            op@ == (OperationView {
                request: request_for(
                    self@,
                    Method::Delete,
                    policy_endpoint(token_id@, policy_id@),
                    None,
                ),
                reply: Reply::NoContent,
            }),
    {
        let endpoint = policy_path(token_id, policy_id);
        Operation { request: self.client.delete(endpoint.as_str()), reply: Reply::NoContent }
    }
}

fn policy_path(token_id: &str, policy_id: &str) -> (endpoint: String)
    ensures
        endpoint@ == policy_endpoint(token_id@, policy_id@),
{
    let mut endpoint = concat3("/auth/tokens/", token_id, "/policies/rrsets/");
    endpoint.append(policy_id);
    endpoint.append("/");
    endpoint
}

} // verus!
