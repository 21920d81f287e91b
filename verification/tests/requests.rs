use desec_api::account::{get_captcha, login, register, Login};
use desec_api::request::decoded;
use desec_api::rrset::{subname_or_apex, ResourceRecordSet};
use desec_api::{
    Attempt, Client, Error, Method, Operation, Reply, Request, Response, Step, API_URL, USERAGENT,
};

const TOKEN: &str = "i-T3b1h_OI-H9ab8tRS98stGtURe";

fn client() -> Client {
    Client::new(String::from(TOKEN)).unwrap()
}

fn url(endpoint: &str) -> String {
    format!("https://desec.io/api/v1{}", endpoint)
}

fn json(text: &str) -> serde_json::Value {
    serde_json::from_str(text).unwrap()
}

fn assert_bodiless(request: &Request, method: Method, endpoint: &str) {
    assert_eq!(request.method, method);
    assert_eq!(request.url, url(endpoint));
    assert_eq!(request.user_agent, USERAGENT);
    assert_eq!(request.authorization, Some(format!("Token {}", TOKEN)));
    assert_eq!(request.content_type, None);
    assert_eq!(request.body, None);
}

fn assert_json(request: &Request, method: Method, endpoint: &str, body: &str) {
    assert_eq!(request.method, method);
    assert_eq!(request.url, url(endpoint));
    assert_eq!(request.user_agent, USERAGENT);
    assert_eq!(request.authorization, Some(format!("Token {}", TOKEN)));
    assert_eq!(request.content_type, Some(String::from("application/json")));
    assert_eq!(request.body.as_deref(), Some(body));
}

/// An error of the transport, made without touching the network.
fn failure() -> reqwest::Error {
    reqwest::Client::new().get("no scheme, no host").build().unwrap_err()
}

fn answer(status: u16, body: &str) -> Response {
    Response { status, retry_after: None, body: Ok(String::from(body)) }
}

/// Sends nothing: hands the response to the pipeline and then to the
/// operation, as a driver would after one attempt.
fn complete(client: &Client, op: &Operation, response: Response) -> Result<Option<String>, Error> {
    match client.process_response(Attempt { retries: 0 }, Ok(response)) {
        Step::Done(Ok(response)) => op.interpret(response),
        Step::Done(Err(e)) => Err(e),
        other => panic!("the call is not over: {:?}", other),
    }
}

#[test]
fn the_base_url_and_the_user_agent_are_fixed() {
    assert_eq!(API_URL, "https://desec.io/api/v1");
    assert_eq!(
        USERAGENT,
        "desec-api-client/0.3.2 (unoffical deSEC API client written in Rust)"
    );
}

#[test]
fn every_request_of_a_client_with_a_token_carries_it() {
    let client = client();
    for request in [
        client.get("/domains/"),
        client.post("/domains/", Some(String::from("{}"))),
        client.post("/auth/logout/", None),
        client.patch("/auth/account/", String::from("{}")),
        client.delete("/domains/example.com/"),
    ] {
        assert_eq!(request.authorization.as_deref(), Some("Token i-T3b1h_OI-H9ab8tRS98stGtURe"));
        assert_eq!(request.user_agent, USERAGENT);
        assert!(request.url.starts_with("https://desec.io/api/v1/"));
    }
}

#[test]
fn a_client_without_a_token_sends_no_authorization() {
    let client = Client::new_unauth().unwrap();
    let request = client.post("/captcha/", None);
    assert_eq!(request.authorization, None);
    assert_eq!(request.user_agent, USERAGENT);
}

#[test]
fn a_body_comes_with_its_content_type() {
    let client = client();
    let get = client.get("/domains/");
    assert_eq!((get.method, get.content_type, get.body), (Method::Get, None, None));
    let delete = client.delete("/domains/");
    assert_eq!((delete.method, delete.content_type, delete.body), (Method::Delete, None, None));
    let empty = client.post("/captcha/", None);
    assert_eq!(empty.method, Method::Post);
    assert_eq!(empty.content_type.as_deref(), Some("application/json"));
    assert_eq!(empty.body.as_deref(), Some(""));
    let post = client.post("/domains/", Some(String::from("{\"a\":1}")));
    assert_eq!(post.content_type.as_deref(), Some("application/json"));
    assert_eq!(post.body.as_deref(), Some("{\"a\":1}"));
    let patch = client.patch("/auth/account/", String::from("{\"b\":2}"));
    assert_eq!(patch.method, Method::Patch);
    assert_eq!(patch.content_type.as_deref(), Some("application/json"));
    assert_eq!(patch.body.as_deref(), Some("{\"b\":2}"));
}

#[test]
fn an_absent_or_empty_subname_is_the_zone_apex() {
    assert_eq!(subname_or_apex(None), "@");
    assert_eq!(subname_or_apex(Some("")), "@");
    assert_eq!(subname_or_apex(Some("www")), "www");
    assert_eq!(subname_or_apex(Some("@")), "@");
    assert_eq!(subname_or_apex(Some("*.dev")), "*.dev");
}

#[test]
fn record_set_paths_hold_the_subname_or_the_apex_marker() {
    let client = client();
    let rrsets = client.rrset();
    assert_bodiless(
        &rrsets.get_rrset("example.com", None, "TXT").request,
        Method::Get,
        "/domains/example.com/rrsets/@/TXT/",
    );
    assert_bodiless(
        &rrsets.get_rrset("example.com", Some(""), "TXT").request,
        Method::Get,
        "/domains/example.com/rrsets/@/TXT/",
    );
    assert_bodiless(
        &rrsets.get_rrset("example.com", Some("www"), "A").request,
        Method::Get,
        "/domains/example.com/rrsets/www/A/",
    );
    assert_bodiless(
        &rrsets.delete_rrset("example.com", None, "A").request,
        Method::Delete,
        "/domains/example.com/rrsets/@/A/",
    );
    assert_bodiless(
        &rrsets.delete_rrset("example.com", Some("_acme-challenge.www"), "TXT").request,
        Method::Delete,
        "/domains/example.com/rrsets/_acme-challenge.www/TXT/",
    );
    let patch = rrsets.patch_rrset("example.com", None, "A", &[String::from("8.8.8.8")], 3600);
    assert_eq!(patch.unwrap().request.url, url("/domains/example.com/rrsets/@/A/"));
}

#[test]
fn creating_a_record_set_names_the_apex_in_the_payload() {
    let client = client();
    let records = vec![String::from("8.8.8.8")];
    let apex = client.rrset().create_rrset("example.com", None, "A", 3600, &records).unwrap();
    assert_eq!(json(apex.request.body.as_deref().unwrap())["subname"], "@");
    assert_eq!(apex.request.url, url("/domains/example.com/rrsets/"));
    let empty = client.rrset().create_rrset("example.com", Some(""), "A", 3600, &records).unwrap();
    assert_eq!(json(empty.request.body.as_deref().unwrap())["subname"], "@");
    let named = client.rrset().create_rrset("example.com", Some("www"), "A", 3600, &records);
    let named = named.unwrap();
    assert_eq!(json(named.request.body.as_deref().unwrap())["subname"], "www");
    assert_eq!(named.request.url, url("/domains/example.com/rrsets/"));
}

#[test]
fn a_record_set_is_created_at_the_apex_and_read_back() {
    let client = client();
    let records = vec![String::from("hello")];
    let op = client.rrset().create_rrset("example.com", None, "TXT", 3600, &records).unwrap();
    assert_eq!(op.request.method, Method::Post);
    assert_eq!(op.request.url, "https://desec.io/api/v1/domains/example.com/rrsets/");
    assert_eq!(op.request.content_type.as_deref(), Some("application/json"));
    assert_eq!(
        json(op.request.body.as_deref().unwrap()),
        json("{\"subname\":\"@\",\"type\":\"TXT\",\"ttl\":3600,\"records\":[\"hello\"]}")
    );
    assert_eq!(
        op.request.body.as_deref(),
        Some("{\"records\":[\"hello\"],\"subname\":\"@\",\"ttl\":3600,\"type\":\"TXT\"}")
    );
    assert_eq!(op.reply, Reply::Body(201));

    let created = "{\"created\":\"2024-01-01T00:00:00Z\",\"domain\":\"example.com\",\
        \"subname\":\"\",\"name\":\"example.com.\",\"type\":\"TXT\",\"ttl\":3600,\
        \"records\":[\"hello\"],\"touched\":\"2024-01-01T00:00:00Z\"}";
    let body = complete(&client, &op, answer(201, created)).unwrap().unwrap();
    assert_eq!(body, created);
    let fields = json(&body);
    let rrset = ResourceRecordSet {
        created: String::from(fields["created"].as_str().unwrap()),
        domain: String::from(fields["domain"].as_str().unwrap()),
        subname: fields["subname"].as_str().map(String::from),
        name: String::from(fields["name"].as_str().unwrap()),
        rrset_type: String::from(fields["type"].as_str().unwrap()),
        ttl: fields["ttl"].as_u64().unwrap(),
        records: fields["records"]
            .as_array()
            .unwrap()
            .iter()
            .map(|record| String::from(record.as_str().unwrap()))
            .collect(),
        touched: String::from(fields["touched"].as_str().unwrap()),
    };
    assert_eq!(rrset.domain, "example.com");
    assert_eq!(rrset.records, vec![String::from("hello")]);
}

#[test]
fn a_created_record_set_must_come_with_201() {
    let client = client();
    let records = vec![String::from("hello")];
    let op = client.rrset().create_rrset("example.com", None, "TXT", 3600, &records).unwrap();
    match complete(&client, &op, answer(200, "{}")) {
        Err(Error::UnexpectedStatusCode(status, body)) => {
            assert_eq!(status, 200);
            assert_eq!(body, "{}");
        }
        other => panic!("expected an unexpected status, got {:?}", other),
    }
}

#[test]
fn a_patch_answered_without_content_is_a_success_without_a_record_set() {
    let client = client();
    let op = client.rrset().patch_rrset("example.com", Some("www"), "A", &[], 3600).unwrap();
    assert_eq!(op.reply, Reply::BodyOrNoContent);
    assert_json(
        &op.request,
        Method::Patch,
        "/domains/example.com/rrsets/www/A/",
        "{\"records\":[],\"ttl\":3600}",
    );
    let dropped = complete(&client, &op, answer(204, ""));
    assert!(matches!(dropped, Ok(None)));
    let updated = complete(&client, &op, answer(200, "{\"ttl\":3600}"));
    assert_eq!(updated.unwrap(), Some(String::from("{\"ttl\":3600}")));
    let odd = complete(&client, &op, answer(202, "later"));
    assert!(matches!(odd, Err(Error::UnexpectedStatusCode(202, _))));
}

#[test]
fn a_record_set_is_patched_from_its_own_fields() {
    let client = client();
    let mut rrset = ResourceRecordSet::default();
    rrset.domain = String::from("example.com");
    rrset.subname = Some(String::from("www"));
    rrset.rrset_type = String::from("A");
    rrset.records = vec![String::from("8.8.8.8"), String::from("8.8.4.4")];
    rrset.ttl = 3650;
    let op = client.rrset().patch_rrset_from(&rrset).unwrap();
    assert_json(
        &op.request,
        Method::Patch,
        "/domains/example.com/rrsets/www/A/",
        "{\"records\":[\"8.8.8.8\",\"8.8.4.4\"],\"ttl\":3650}",
    );
    assert_eq!(op.reply, Reply::BodyOrNoContent);
    rrset.subname = None;
    let apex = client.rrset().patch_rrset_from(&rrset).unwrap();
    assert_eq!(apex.request.url, url("/domains/example.com/rrsets/@/A/"));
    rrset.subname = Some(String::new());
    let empty = client.rrset().patch_rrset_from(&rrset).unwrap();
    assert_eq!(empty.request.url, url("/domains/example.com/rrsets/@/A/"));
}

#[test]
fn a_default_record_set_is_empty() {
    let rrset = ResourceRecordSet::default();
    assert_eq!(rrset.created, "");
    assert_eq!(rrset.domain, "");
    assert_eq!(rrset.subname, None);
    assert_eq!(rrset.name, "");
    assert_eq!(rrset.rrset_type, "");
    assert_eq!(rrset.ttl, 0);
    assert!(rrset.records.is_empty());
    assert_eq!(rrset.touched, "");
}

#[test]
fn record_sets_are_listed_with_their_filters() {
    let client = client();
    let rrsets = client.rrset();
    let all = rrsets.get_rrsets("example.com");
    assert_bodiless(&all.request, Method::Get, "/domains/example.com/rrsets/");
    assert_eq!(all.reply, Reply::Body(200));
    let by_type = rrsets.get_rrsets_by_type("example.com", "AAAA");
    assert_bodiless(&by_type.request, Method::Get, "/domains/example.com/rrsets/?type=AAAA");
    assert_eq!(by_type.reply, Reply::Body(200));
    let by_subname = rrsets.get_rrsets_by_subname("example.com", "www");
    assert_bodiless(
        &by_subname.request,
        Method::Get,
        "/domains/example.com/rrsets/?subname=www",
    );
    assert_eq!(by_subname.reply, Reply::Body(200));
}

#[test]
fn deleting_a_record_set_is_answered_without_content() {
    let client = client();
    let op = client.rrset().delete_rrset("example.com", Some("www"), "A");
    assert_eq!(op.reply, Reply::NoContent);
    assert!(matches!(complete(&client, &op, answer(204, "")), Ok(None)));
    match complete(&client, &op, answer(200, "gone")) {
        Err(Error::UnexpectedStatusCode(status, body)) => {
            assert_eq!(status, 200);
            assert_eq!(body, "gone");
        }
        other => panic!("expected an unexpected status, got {:?}", other),
    }
    assert!(matches!(complete(&client, &op, answer(404, "")), Err(Error::NotFound)));
}

#[test]
fn domain_operations_name_their_endpoints() {
    let client = client();
    let domains = client.domain();
    let create = domains.create_domain("example.com").unwrap();
    assert_json(&create.request, Method::Post, "/domains/", "{\"name\":\"example.com\"}");
    assert_eq!(create.reply, Reply::Body(201));
    let list = domains.get_domains();
    assert_bodiless(&list.request, Method::Get, "/domains/");
    assert_eq!(list.reply, Reply::Body(200));
    let one = domains.get_domain("example.com");
    assert_bodiless(&one.request, Method::Get, "/domains/example.com/");
    assert_eq!(one.reply, Reply::Body(200));
    let delete = domains.delete_domain("example.com");
    assert_bodiless(&delete.request, Method::Delete, "/domains/example.com/");
    assert_eq!(delete.reply, Reply::NoContent);
    let owner = domains.get_owning_domain("_acme-challenge.www.dev.example.net");
    assert_bodiless(
        &owner.request,
        Method::Get,
        "/domains/?owns_qname=_acme-challenge.www.dev.example.net",
    );
    assert_eq!(owner.reply, Reply::Body(200));
    let zonefile = domains.get_zonefile("example.com");
    assert_bodiless(&zonefile.request, Method::Get, "/domains/example.com/zonefile/");
    assert_eq!(zonefile.reply, Reply::Body(200));
}

#[test]
fn a_domain_name_is_sent_as_a_json_string_whatever_it_holds() {
    let client = client();
    for name in ["example.com", "\"", "\\", "a\"b\\c", "\"}, {\"x\": \"", "line\nbreak", "", "münchen.de"] {
        let create = client.domain().create_domain(name).unwrap();
        let body = json(create.request.body.as_deref().unwrap());
        let members = body.as_object().unwrap();
        assert_eq!(members.len(), 1);
        assert_eq!(members["name"].as_str(), Some(name));
    }
    let quote = client.domain().create_domain("\"").unwrap();
    assert_eq!(quote.request.body.as_deref(), Some("{\"name\":\"\\\"\"}"));
}

#[test]
fn a_zonefile_is_the_body_as_it_is() {
    let client = client();
    let op = client.domain().get_zonefile("example.com");
    let text = "; Zonefile for example.com exported from desec.io\n";
    assert_eq!(complete(&client, &op, answer(200, text)).unwrap(), Some(String::from(text)));
}

#[test]
fn a_missing_domain_is_not_found() {
    let client = client();
    let op = client.domain().get_domain("non-existing-domain");
    assert!(matches!(
        complete(&client, &op, answer(404, "{\"detail\":\"Not found.\"}")),
        Err(Error::NotFound)
    ));
    let op = client.rrset().get_rrset("example.com", Some("non-existing-subname"), "A");
    assert!(matches!(complete(&client, &op, answer(404, "")), Err(Error::NotFound)));
}

#[test]
fn a_default_domain_is_empty() {
    let domain = desec_api::domain::Domain::default();
    assert_eq!(domain.created, "");
    assert!(domain.keys.is_none());
    assert_eq!(domain.minimum_ttl, 0);
    assert_eq!(domain.name, "");
    assert_eq!(domain.published, None);
    assert_eq!(domain.touched, "");
    assert_eq!(domain.zonefile, None);
    let key = desec_api::domain::DNSSECKeyInfo::default();
    assert_eq!(key.dnskey, "");
    assert!(key.ds.is_empty());
    assert_eq!(key.keyflags, 0);
    assert_eq!(key.keytype, "");
    assert!(!key.managed);
}

#[test]
fn account_operations_name_their_endpoints_and_payloads() {
    let client = client();
    let account = client.account();
    let info = account.get_account_info();
    assert_bodiless(&info.request, Method::Get, "/auth/account/");
    assert_eq!(info.reply, Reply::Body(200));

    let outreach = account.update_outreach_preference(true).unwrap();
    assert_json(
        &outreach.request,
        Method::Patch,
        "/auth/account/",
        "{\"outreach_preference\":true}",
    );
    assert_eq!(outreach.reply, Reply::Body(200));
    let outreach = account.update_outreach_preference(false).unwrap();
    assert_eq!(outreach.request.body.as_deref(), Some("{\"outreach_preference\":false}"));

    let reset = account.request_password_reset("info@example.com", "cid", "abc").unwrap();
    assert_json(
        &reset.request,
        Method::Post,
        "/auth/account/reset-password/",
        "{\"captcha\":{\"id\":\"cid\",\"solution\":\"abc\"},\"email\":\"info@example.com\"}",
    );
    assert_eq!(reset.reply, Reply::Body(202));

    let confirm = account.confirm_password_reset("hunter2", "c0de").unwrap();
    assert_json(
        &confirm.request,
        Method::Post,
        "/auth/account/reset-password/c0de",
        "{\"new_password\":\"hunter2\"}",
    );
    assert_eq!(confirm.reply, Reply::Body(202));

    let email = account.update_email("old@example.com", "secret", "new@example.com").unwrap();
    assert_json(
        &email.request,
        Method::Post,
        "/auth/account/change-email/",
        "{\"email\":\"old@example.com\",\"new_email\":\"new@example.com\",\"password\":\"secret\"}",
    );
    assert_eq!(email.reply, Reply::Body(202));

    let delete = account.delete_account("info@example.com", "secret").unwrap();
    assert_json(
        &delete.request,
        Method::Post,
        "/auth/account/delete/",
        "{\"email\":\"info@example.com\",\"password\":\"secret\"}",
    );
    assert_eq!(delete.reply, Reply::Body(202));
}

#[test]
fn a_captcha_is_asked_for_without_token_or_payload() {
    let op = get_captcha();
    assert_eq!(op.request.method, Method::Post);
    assert_eq!(op.request.url, url("/captcha/"));
    assert_eq!(op.request.authorization, None);
    assert_eq!(op.request.user_agent, USERAGENT);
    assert_eq!(op.request.content_type.as_deref(), Some("application/json"));
    assert_eq!(op.request.body.as_deref(), Some(""));
    assert_eq!(op.reply, Reply::Body(201));
}

#[test]
fn registering_sends_the_domain_only_when_one_is_given() {
    let with = register("info@example.com", "secret", "cid", "abc", Some("example.com")).unwrap();
    assert_eq!(with.request.method, Method::Post);
    assert_eq!(with.request.url, url("/auth/"));
    assert_eq!(with.request.authorization, None);
    assert_eq!(
        with.request.body.as_deref(),
        Some(
            "{\"captcha\":{\"id\":\"cid\",\"solution\":\"abc\"},\"domain\":\"example.com\",\
             \"email\":\"info@example.com\",\"password\":\"secret\"}"
        )
    );
    assert_eq!(with.reply, Reply::Body(202));
    let without = register("info@example.com", "secret", "cid", "abc", None).unwrap();
    assert_eq!(
        without.request.body.as_deref(),
        Some(
            "{\"captcha\":{\"id\":\"cid\",\"solution\":\"abc\"},\
             \"email\":\"info@example.com\",\"password\":\"secret\"}"
        )
    );
}

#[test]
fn logging_in_sends_the_credentials_without_a_token() {
    let op = login("info@example.com", "my\"secret\\").unwrap();
    assert_eq!(op.request.method, Method::Post);
    assert_eq!(op.request.url, url("/auth/login/"));
    assert_eq!(op.request.authorization, None);
    assert_eq!(
        op.request.body.as_deref(),
        Some("{\"email\":\"info@example.com\",\"password\":\"my\\\"secret\\\\\"}")
    );
    assert_eq!(op.reply, Reply::Body(200));
}

fn a_login(token: &str) -> Login {
    Login {
        allowed_subnets: vec![String::from("0.0.0.0/0")],
        created: String::from("2024-01-01T00:00:00Z"),
        is_valid: true,
        last_used: None,
        max_age: String::from("7 00:00:00"),
        max_unused_period: String::from("01:00:00"),
        name: String::from("login"),
        perm_manage_tokens: false,
        token: String::from(token),
    }
}

#[test]
fn a_client_from_credentials_uses_the_logins_token_and_can_log_out() {
    let client = Client::new_from_credentials(a_login("f07Q0TRmEb-CRWPe4h64_iV2jbet")).unwrap();
    assert_eq!(*client.get_retry(), true);
    assert_eq!(*client.get_max_wait_retry(), 60);
    assert_eq!(*client.get_max_retries(), 3);
    assert_eq!(
        client.get("/auth/account/").authorization.as_deref(),
        Some("Token f07Q0TRmEb-CRWPe4h64_iV2jbet")
    );
    let op = client.logout().unwrap();
    assert_eq!(op.request.method, Method::Post);
    assert_eq!(op.request.url, url("/auth/logout/"));
    assert_eq!(
        op.request.authorization.as_deref(),
        Some("Token f07Q0TRmEb-CRWPe4h64_iV2jbet")
    );
    assert_eq!(op.request.body.as_deref(), Some(""));
    assert_eq!(op.reply, Reply::NoContent);
    let anyone = Client::new_unauth().unwrap();
    assert!(matches!(complete(&anyone, &op, answer(204, "")), Ok(None)));
    assert!(matches!(
        complete(&anyone, &op, answer(200, "")),
        Err(Error::UnexpectedStatusCode(200, _))
    ));
}

#[test]
fn a_client_from_a_token_cannot_log_out() {
    assert!(matches!(client().logout(), Err(Error::CannotLogout)));
    assert!(matches!(Client::new_unauth().unwrap().logout(), Err(Error::CannotLogout)));
}

#[test]
fn a_body_that_cannot_be_read_is_a_transport_failure() {
    let client = client();
    let op = client.domain().get_domains();
    let response = Response { status: 200, retry_after: None, body: Err(failure()) };
    match complete(&client, &op, response) {
        Err(Error::Reqwest(error)) => assert!(error.is_builder()),
        other => panic!("expected a transport failure, got {:?}", other),
    }
    let response = Response { status: 201, retry_after: None, body: Err(failure()) };
    match complete(&client, &op, response) {
        Err(Error::UnexpectedStatusCode(status, body)) => {
            assert_eq!(status, 201);
            assert_eq!(body, "");
        }
        other => panic!("expected an unexpected status, got {:?}", other),
    }
}

#[test]
fn a_body_that_cannot_be_decoded_is_an_invalid_response() {
    let parsed: Result<u64, String> = Err(String::from("expected value at line 1 column 1"));
    match decoded(parsed, String::from("<html>")) {
        Err(Error::InvalidAPIResponse(report, body)) => {
            assert_eq!(report, "expected value at line 1 column 1");
            assert_eq!(body, "<html>");
        }
        other => panic!("expected an invalid response, got {:?}", other),
    }
    assert!(matches!(decoded(Ok(7u64), String::from("7")), Ok(7)));
}
