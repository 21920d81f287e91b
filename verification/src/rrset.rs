//! Record sets: the DNS records of one name and type in a zone.
use crate::client::{is_json_call, request_for, Client, ClientView};
use crate::error::Error;
use crate::json::{member, no_fields, put_number, put_text, put_text_list, text_items, Json};
use crate::request::{name_view, text_view, Method, Operation, OperationView, Reply};
use crate::response::{CREATED, OK};
use crate::text::concat3;
use vstd::prelude::*;
use vstd::string::StringExecFns;

verus! {

/// The record-set operations of a client.
pub struct RrsetClient<'a> {
    pub(crate) client: &'a Client,
}

impl<'a> View for RrsetClient<'a> {
    type V = ClientView;

    closed spec fn view(&self) -> ClientView {
        self.client@
    }
}

impl<'a> Client {
    /// The record-set operations of this client.
    pub fn rrset(&'a self) -> (resource: RrsetClient<'a>)
        ensures
            resource@ == self@,
    {
        RrsetClient { client: self }
    }
}

/// A record set as the service describes it.
#[derive(Debug, Clone)]
pub struct ResourceRecordSet {
    pub created: String,
    pub domain: String,
    /// The name below the zone's; none for the zone apex.
    pub subname: Option<String>,
    pub name: String,
    pub rrset_type: String,
    pub ttl: u64,
    pub records: Vec<String>,
    pub touched: String,
}

impl Default for ResourceRecordSet {
    /// A record set with every text empty, no subname, no records and a
    /// time to live of zero.
    fn default() -> (rrset: ResourceRecordSet)
        ensures
            rrset.created@.len() == 0,
            rrset.domain@.len() == 0,
            rrset.subname is None,
            rrset.name@.len() == 0,
            rrset.rrset_type@.len() == 0,
            rrset.ttl == 0,
            rrset.records@.len() == 0,
            rrset.touched@.len() == 0,
    {
        ResourceRecordSet {
            created: String::new(),
            domain: String::new(),
            subname: None,
            name: String::new(),
            rrset_type: String::new(),
            ttl: 0,
            records: Vec::new(),
            touched: String::new(),
        }
    }
}

/// How a record set's subname is written: the subname itself, or `@`, the
/// marker of the zone apex, where it is absent or empty.
pub open spec fn apex_or(subname: Option<Seq<char>>) -> Seq<char> {
    match subname {
        Some(name) => if name.len() == 0 {
            "@"@
        } else {
            name
        },
        None => "@"@,
    }
}

/// Writes a subname, with `@` for the zone apex.
pub fn subname_or_apex<'b>(subname: Option<&'b str>) -> (written: &'b str)
    ensures
        written@ == apex_or(name_view(subname)),
{
    match subname {
        Some(name) => if name.is_empty() {
            "@"
        } else {
            name
        },
        None => "@",
    }
}

/// The endpoint of a zone's record sets.
pub open spec fn rrsets_endpoint(domain: Seq<char>) -> Seq<char> {
    "/domains/"@ + domain + "/rrsets/"@
}

/// The endpoint of one record set: under the zone's record sets, the
/// subname as [`apex_or`] writes it, then the type.
pub open spec fn rrset_endpoint(
    domain: Seq<char>,
    subname: Option<Seq<char>>,
    rrset_type: Seq<char>,
) -> Seq<char> {
    rrsets_endpoint(domain) + apex_or(subname) + "/"@ + rrset_type + "/"@
}

/// The payload that creates a record set.
pub open spec fn create_rrset_payload(
    subname: Option<Seq<char>>,
    rrset_type: Seq<char>,
    ttl: u64,
    records: Seq<String>,
) -> Json {
    Json::Object(
        no_fields().insert("subname"@, Json::Text(apex_or(subname))).insert(
            "type"@,
            Json::Text(rrset_type),
        ).insert("ttl"@, Json::Number(ttl as int)).insert(
            "records"@,
            Json::List(text_items(records)),
        ),
    )
}

/// The payload that updates a record set.
pub open spec fn patch_rrset_payload(ttl: u64, records: Seq<String>) -> Json {
    Json::Object(
        no_fields().insert("ttl"@, Json::Number(ttl as int)).insert(
            "records"@,
            Json::List(text_items(records)),
        ),
    )
}

fn rrset_path(domain: &str, subname: Option<&str>, rrset_type: &str) -> (endpoint: String)
    ensures
        endpoint@ == rrset_endpoint(domain@, name_view(subname), rrset_type@),
{
    let mut endpoint = concat3("/domains/", domain, "/rrsets/");
    endpoint.append(subname_or_apex(subname));
    endpoint.append("/");
    endpoint.append(rrset_type);
    endpoint.append("/");
    endpoint
}

impl<'a> RrsetClient<'a> {
    /// Creates a record set. Without a subname, or with an empty one, the
    /// set is created at the zone apex.
    pub fn create_rrset(
        &self,
        domain: &str,
        subname: Option<&str>,
        rrset_type: &str,
        ttl: u64,
        records: &Vec<String>,
    ) -> (made: Result<Operation, Error>)
        ensures
            is_json_call(
                made,
                self@,
                Method::Post,
                rrsets_endpoint(domain@),
                create_rrset_payload(name_view(subname), rrset_type@, ttl, records@),
                Reply::Body(CREATED),
            ),
    {
        let mut members = serde_json::Map::new();
        put_text(&mut members, "subname", subname_or_apex(subname));
        put_text(&mut members, "type", rrset_type);
        put_number(&mut members, "ttl", ttl);
        put_text_list(&mut members, "records", records.as_slice());
        let endpoint = concat3("/domains/", domain, "/rrsets/");
        self.client.post_json(endpoint.as_str(), members, Reply::Body(CREATED))
    }

    /// Lists the record sets of a zone.
    pub fn get_rrsets(&self, domain: &str) -> (op: Operation)
        ensures
            op@ == (OperationView {
                request: request_for(self@, Method::Get, rrsets_endpoint(domain@), None),
                reply: Reply::Body(OK),
            }),
    {
        let endpoint = concat3("/domains/", domain, "/rrsets/");
        Operation { request: self.client.get(endpoint.as_str()), reply: Reply::Body(OK) }
    }

    /// Lists the record sets of a zone that have the given type.
    pub fn get_rrsets_by_type(&self, domain: &str, rrset_type: &str) -> (op: Operation)
        ensures
            op@ == (OperationView {
                request: request_for(
                    self@,
                    Method::Get,
                    rrsets_endpoint(domain@) + "?type="@ + rrset_type@,
                    None,
                ),
                reply: Reply::Body(OK),
            }),
    {
        let mut endpoint = concat3("/domains/", domain, "/rrsets/");
        endpoint.append("?type=");
        endpoint.append(rrset_type);
        Operation { request: self.client.get(endpoint.as_str()), reply: Reply::Body(OK) }
    }

    /// Lists the record sets of a zone that have the given subname.
    pub fn get_rrsets_by_subname(&self, domain: &str, subname: &str) -> (op: Operation)
        ensures
            op@ == (OperationView {
                request: request_for(
                    self@,
                    Method::Get,
                    rrsets_endpoint(domain@) + "?subname="@ + subname@,
                    None,
                ),
                reply: Reply::Body(OK),
            }),
    {
        let mut endpoint = concat3("/domains/", domain, "/rrsets/");
        endpoint.append("?subname=");
        endpoint.append(subname);
        Operation { request: self.client.get(endpoint.as_str()), reply: Reply::Body(OK) }
    }

    /// Asks for one record set.
    pub fn get_rrset(&self, domain: &str, subname: Option<&str>, rrset_type: &str) -> (op:
        Operation)
        ensures
            op@ == (OperationView {
                request: request_for(
                    self@,
                    Method::Get,
                    rrset_endpoint(domain@, name_view(subname), rrset_type@),
                    None,
                ),
                reply: Reply::Body(OK),
            }),
    {
        let endpoint = rrset_path(domain, subname, rrset_type);
        Operation { request: self.client.get(endpoint.as_str()), reply: Reply::Body(OK) }
    }

    /// Updates a record set to the records and time to live that `rrset`
    /// holds.
    pub fn patch_rrset_from(&self, rrset: &ResourceRecordSet) -> (made: Result<Operation, Error>)
        ensures
            is_json_call(
                made,
                self@,
                Method::Patch,
                rrset_endpoint(rrset.domain@, text_view(rrset.subname), rrset.rrset_type@),
                patch_rrset_payload(rrset.ttl, rrset.records@),
                Reply::BodyOrNoContent,
            ),
    {
        let subname: Option<&str> = match &rrset.subname {
            Some(name) => Some(name.as_str()),
            None => None,
        };
        self.patch_rrset(
            rrset.domain.as_str(),
            subname,
            rrset.rrset_type.as_str(),
            rrset.records.as_slice(),
            rrset.ttl,
        )
    }

    /// Updates a record set. The answer is the updated set, or nothing
    /// where the server dropped the set because no record was left.
    pub fn patch_rrset(
        &self,
        domain: &str,
        subname: Option<&str>,
        rrset_type: &str,
        records: &[String],
        ttl: u64,
    ) -> (made: Result<Operation, Error>)
        ensures
            is_json_call(
                made,
                self@,
                Method::Patch,
                rrset_endpoint(domain@, name_view(subname), rrset_type@),
                patch_rrset_payload(ttl, records@),
                Reply::BodyOrNoContent,
            ),
    {
        let mut members = serde_json::Map::new();
        put_number(&mut members, "ttl", ttl);
        put_text_list(&mut members, "records", records);
        let endpoint = rrset_path(domain, subname, rrset_type);
        self.client.patch_json(endpoint.as_str(), members, Reply::BodyOrNoContent)
    }

    /// Deletes a record set; a set that does not exist is deleted too.
    pub fn delete_rrset(&self, domain: &str, subname: Option<&str>, rrset_type: &str) -> (op:
        Operation)
        ensures
            op@ == (OperationView {
                request: request_for(
                    self@,
                    Method::Delete,
                    rrset_endpoint(domain@, name_view(subname), rrset_type@),
                    None,
                ),
                reply: Reply::NoContent,
            }),
    {
        let endpoint = rrset_path(domain, subname, rrset_type);
        Operation { request: self.client.delete(endpoint.as_str()), reply: Reply::NoContent }
    }
}

/// A record set at the zone apex is addressed by `@`: where the subname is
/// absent or empty, `@` stands for it in the path of every request that
/// names one record set, and in the payload that creates one. A subname that
/// is not empty is written as it is, in both places.
pub proof fn lemma_zone_apex_marker(
    domain: Seq<char>,
    subname: Option<Seq<char>>,
    rrset_type: Seq<char>,
    ttl: u64,
    records: Seq<String>,
)
    ensures
        (subname matches Some(name) ==> name.len() == 0) ==> {
            &&& rrset_endpoint(domain, subname, rrset_type) == "/domains/"@ + domain
                + "/rrsets/@/"@ + rrset_type + "/"@
            &&& member(create_rrset_payload(subname, rrset_type, ttl, records), "subname"@)
                == Json::Text("@"@)
        },
        subname matches Some(name) ==> (name.len() > 0 ==> {
            &&& rrset_endpoint(domain, subname, rrset_type) == "/domains/"@ + domain
                + "/rrsets/"@ + name + "/"@ + rrset_type + "/"@
            &&& member(create_rrset_payload(subname, rrset_type, ttl, records), "subname"@)
                == Json::Text(name)
        }),
{
    reveal_strlit("/rrsets/");
    reveal_strlit("/rrsets/@/");
    reveal_strlit("@");
    reveal_strlit("/");
    reveal_strlit("subname");
    reveal_strlit("type");
    reveal_strlit("ttl");
    reveal_strlit("records");
    assert("/rrsets/"@ + "@"@ + "/"@ =~= "/rrsets/@/"@);
    assert("subname"@[0] != "records"@[0]);
    let head = "/domains/"@ + domain;
    assert(head + "/rrsets/"@ + "@"@ + "/"@ + rrset_type + "/"@ =~= head + "/rrsets/@/"@
        + rrset_type + "/"@);
}

} // verus!
