//! Domains: the zones of an account.
use crate::client::{is_json_call, request_for, Client, ClientView};
use crate::error::Error;
use crate::json::{no_fields, put_text, Json};
use crate::request::{Method, Operation, OperationView, Reply};
use crate::response::{CREATED, OK};
use crate::text::concat3;
use vstd::prelude::*;

verus! {

/// The domain operations of a client.
pub struct DomainClient<'a> {
    pub(crate) client: &'a Client,
}

impl<'a> View for DomainClient<'a> {
    type V = ClientView;

    closed spec fn view(&self) -> ClientView {
        self.client@
    }
}

impl<'a> Client {
    /// The domain operations of this client.
    pub fn domain(&'a self) -> (resource: DomainClient<'a>)
        ensures
            resource@ == self@,
    {
        DomainClient { client: self }
    }
}

/// A domain as the service describes it.
#[derive(Debug, Clone)]
pub struct Domain {
    pub created: String,
    pub keys: Option<Vec<DNSSECKeyInfo>>,
    pub minimum_ttl: u16,
    pub name: String,
    pub published: Option<String>,
    pub touched: String,
    pub zonefile: Option<String>,
}

/// One DNSSEC key of a domain.
#[derive(Debug, Clone)]
pub struct DNSSECKeyInfo {
    pub dnskey: String,
    pub ds: Vec<String>,
    pub keyflags: u16,
    pub keytype: String,
    pub managed: bool,
}

impl Default for Domain {
    /// A domain with every text empty and every option unset.
    fn default() -> (domain: Domain)
        ensures
            domain.created@.len() == 0,
            domain.keys is None,
            domain.minimum_ttl == 0,
            domain.name@.len() == 0,
            domain.published is None,
            domain.touched@.len() == 0,
            domain.zonefile is None,
    {
        Domain {
            created: String::new(),
            keys: None,
            minimum_ttl: 0,
            name: String::new(),
            published: None,
            touched: String::new(),
            zonefile: None,
        }
    }
}

impl Default for DNSSECKeyInfo {
    /// A key with every text empty, no digests, no flags, and not managed.
    fn default() -> (key: DNSSECKeyInfo)
        ensures
            key.dnskey@.len() == 0,
            key.ds@.len() == 0,
            key.keyflags == 0,
            key.keytype@.len() == 0,
            !key.managed,
    {
        DNSSECKeyInfo {
            dnskey: String::new(),
            ds: Vec::new(),
            keyflags: 0,
            keytype: String::new(),
            managed: false,
        }
    }
}

/// The endpoint of one domain.
pub open spec fn domain_endpoint(domain: Seq<char>) -> Seq<char> {
    "/domains/"@ + domain + "/"@
}

/// The payload that creates a domain: an object whose one member is the
/// name.
pub open spec fn create_domain_payload(domain: Seq<char>) -> Json {
    Json::Object(no_fields().insert("name"@, Json::Text(domain)))
}

impl<'a> DomainClient<'a> {
    /// Creates a domain. The name is sent as a JSON string, whatever
    /// characters it holds.
    pub fn create_domain(&self, domain: &str) -> (made: Result<Operation, Error>)
        ensures
            is_json_call(
                made,
                self@,
                Method::Post,
                "/domains/"@,
                create_domain_payload(domain@),
                Reply::Body(CREATED),
            ),
    {
        let mut members = serde_json::Map::new();
        put_text(&mut members, "name", domain);
        self.client.post_json("/domains/", members, Reply::Body(CREATED))
    }

    /// Lists the domains of the account.
    pub fn get_domains(&self) -> (op: Operation)
        ensures
            op@ == (OperationView {
                request: request_for(self@, Method::Get, "/domains/"@, None),
                reply: Reply::Body(OK),
            }),
    {
        Operation { request: self.client.get("/domains/"), reply: Reply::Body(OK) }
    }

    /// Asks for one domain.
    pub fn get_domain(&self, domain: &str) -> (op: Operation)
        ensures
            op@ == (OperationView {
                request: request_for(self@, Method::Get, domain_endpoint(domain@), None),
                reply: Reply::Body(OK),
            }),
    {
        let endpoint = concat3("/domains/", domain, "/");
        Operation { request: self.client.get(endpoint.as_str()), reply: Reply::Body(OK) }
    }

    /// Deletes a domain.
    pub fn delete_domain(&self, domain: &str) -> (op: Operation)
        ensures
            op@ == (OperationView {
                request: request_for(self@, Method::Delete, domain_endpoint(domain@), None),
                reply: Reply::NoContent,
            }),
    {
        let endpoint = concat3("/domains/", domain, "/");
        Operation { request: self.client.delete(endpoint.as_str()), reply: Reply::NoContent }
    }

    /// Asks which domain of the account is responsible for a DNS name; the
    /// answer lists that domain alone, or nothing.
    pub fn get_owning_domain(&self, qname: &str) -> (op: Operation)
        ensures
            op@ == (OperationView {
                request: request_for(
                    self@,
                    Method::Get,
                    "/domains/?owns_qname="@ + qname@,
                    None,
                ),
                reply: Reply::Body(OK),
            }),
    {
        let mut endpoint = String::from_str("/domains/?owns_qname=");
        endpoint.append(qname);
        Operation { request: self.client.get(endpoint.as_str()), reply: Reply::Body(OK) }
    }

    /// Asks for a domain's zone file; the body is the zone file as text.
    pub fn get_zonefile(&self, domain: &str) -> (op: Operation)
        ensures
            op@ == (OperationView {
                request: request_for(
                    self@,
                    Method::Get,
                    "/domains/"@ + domain@ + "/zonefile/"@,
                    None,
                ),
                reply: Reply::Body(OK),
            }),
    {
        let endpoint = concat3("/domains/", domain, "/zonefile/");
        Operation { request: self.client.get(endpoint.as_str()), reply: Reply::Body(OK) }
    }
}

} // verus!
