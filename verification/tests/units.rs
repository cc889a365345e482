//! The parts of the library one by one, on chosen values; what hyper and
//! serde_json do is checked against the crates themselves.

use hyper::header::{Authorization, Basic, ContentType, Headers};
use kinto_http::batch::{BatchRequest, BatchResponseWrapper};
use kinto_http::bucket::{Bucket, BucketPermissions};
use kinto_http::client::{Credentials, KintoClient, KintoConfig};
use kinto_http::collection::CollectionPermissions;
use kinto_http::error::KintoError;
use kinto_http::json::Json;
use kinto_http::pagination::Follower;
use kinto_http::record::RecordPermissions;
use kinto_http::request::{
    CreateRecord, DeleteCollection, DeleteRecord, EntityTag, GetCollection, GetRecord, IfMatch,
    IfNoneMatch, KintoRequest, Method, PatchRecord, PayloadedEndpoint, PluralEndpoint, Reply,
    RequestPreparer, UpdateRecord,
};
use kinto_http::resource::{is_empty_object, Resource};
use kinto_http::response::ResponseWrapper;
use kinto_http::text::{chars_of, push_decimal, remove_text, same_text, split_text, string_of};
use kinto_http::utils::{
    extract_ids_from_path, timestamp_to_etag, unwrap_collection_records, without_version,
};

const BASE: &str = "http://localhost:8888/v1";

fn config() -> KintoConfig {
    KintoConfig::new(BASE.to_owned(), None)
}

fn config_with_auth() -> KintoConfig {
    let auth = Credentials { username: "Gabi".to_owned(), password: Some("MySecret".to_owned()) };
    KintoConfig::new(BASE.to_owned(), Some(auth))
}

fn object(members: Vec<(&str, Json)>) -> Json {
    Json::Object(members.into_iter().map(|(k, v)| (k.to_owned(), v)).collect())
}

fn answered(status: u16, body: &str) -> Reply {
    Reply::Answered { status, headers: Headers::new(), body: Some(body.to_owned()) }
}

fn response(path: &str, headers: Headers, body: &str) -> ResponseWrapper {
    ResponseWrapper {
        config: config(),
        path: path.to_owned(),
        status: 200,
        headers,
        body: Json::parse(body).unwrap(),
    }
}

fn raw(headers: &Headers, name: &str) -> Option<Vec<Vec<u8>>> {
    headers.get_raw(name).map(|values| values.to_vec())
}

#[test]
fn json_is_read_and_printed_by_serde_json() {
    let text = "{\"b\": [1, -2, 2.5, true, null, \"x\\ny\"], \"a\": {\"k\": 18446744073709551615}}";
    let doc = Json::parse(text).unwrap();
    let ours = doc.render().unwrap();
    let theirs: serde_json::Value = serde_json::from_str(text).unwrap();
    assert_eq!(ours, serde_json::to_string(&theirs).unwrap());
    assert_eq!(ours, "{\"a\":{\"k\":18446744073709551615},\"b\":[1,-2,2.5,true,null,\"x\\ny\"]}");
    assert_eq!(Json::parse(&ours).unwrap(), doc);
}

#[test]
fn json_that_cannot_be_read_is_a_json_error() {
    assert_eq!(Json::parse("{\"a\": ").unwrap_err(), KintoError::JsonError);
    assert_eq!(Json::parse("").unwrap_err(), KintoError::JsonError);
    assert_eq!(Json::parse("[1,]").unwrap_err(), KintoError::JsonError);
}

#[test]
fn json_accessors_read_what_was_parsed() {
    let doc = Json::parse("{\"id\": \"x\", \"n\": 7, \"neg\": -7, \"f\": 0.5, \"l\": [\"a\"]}")
        .unwrap();
    assert_eq!(doc.get("id").unwrap().as_str(), Some("x"));
    assert_eq!(doc.get("n").unwrap().as_u64(), Some(7));
    assert_eq!(doc.get("neg").unwrap().as_u64(), None);
    assert_eq!(doc.get("f").unwrap().as_u64(), None);
    assert_eq!(doc.get("id").unwrap().as_u64(), None);
    assert_eq!(doc.get("n").unwrap().as_str(), None);
    assert_eq!(doc.get("l").unwrap().as_array().unwrap().len(), 1);
    assert!(doc.get("n").unwrap().as_array().is_none());
    assert!(doc.get("missing").is_none());
    assert!(Json::text("x").get("id").is_none());
}

#[test]
fn json_numbers_keep_their_value() {
    let five = Json::from_u64(5);
    assert_eq!(five.as_u64(), Some(5));
    assert_eq!(five.clone().as_u64(), Some(5));
    assert_eq!(five.render().unwrap(), "5");
    assert_eq!(Json::from_u64(u64::MAX).as_u64(), Some(u64::MAX));
    assert_eq!(Json::from_u64(0).render().unwrap(), "0");
    assert_eq!(Json::parse("5").unwrap(), five);
}

#[test]
fn json_set_replaces_the_last_member_or_appends() {
    let mut doc = object(vec![("a", Json::from_u64(1)), ("b", Json::from_u64(2))]);
    assert!(doc.set("a", Json::from_u64(3)));
    assert_eq!(doc, object(vec![("a", Json::from_u64(3)), ("b", Json::from_u64(2))]));
    assert!(doc.set("c", Json::Null));
    assert_eq!(doc.render().unwrap(), "{\"a\":3,\"b\":2,\"c\":null}");

    let mut twice = object(vec![("a", Json::from_u64(1)), ("a", Json::from_u64(2))]);
    assert_eq!(twice.get("a").unwrap().as_u64(), Some(2));
    assert_eq!(twice.render().unwrap(), "{\"a\":2}");
    assert!(twice.set("a", Json::from_u64(9)));
    assert_eq!(twice.get("a").unwrap().as_u64(), Some(9));
    assert_eq!(twice.render().unwrap(), "{\"a\":9}");

    let mut null = Json::Null;
    assert!(null.set("id", Json::text("x")));
    assert_eq!(null, object(vec![("id", Json::text("x"))]));

    let mut list = Json::Array(vec![]);
    assert!(!list.set("id", Json::text("x")));
    assert_eq!(list, Json::Array(vec![]));
    let mut text = Json::text("t");
    assert!(!text.set("id", Json::text("x")));
    assert_eq!(text, Json::text("t"));
}

#[test]
fn json_clone_is_deep() {
    let doc = Json::parse("{\"a\": [{\"b\": [1, \"x\", null, false]}], \"c\": 2.25}").unwrap();
    let copy = doc.clone();
    assert_eq!(copy, doc);
    assert_eq!(copy.render().unwrap(), doc.render().unwrap());
    assert!(is_empty_object(&Json::object()));
    assert!(!is_empty_object(&doc));
    assert!(!is_empty_object(&Json::Null));
    assert!(!is_empty_object(&Json::Array(vec![])));
}

#[test]
fn text_helpers_agree_with_std() {
    for s in ["", "/", "a", "/a/b", "a//b/", "//", "héllo/wörld", "/buckets/food/collections"] {
        let ours = split_text(s, '/');
        let theirs: Vec<String> = s.split('/').map(|p| p.to_owned()).collect();
        assert_eq!(ours, theirs);
        assert_eq!(string_of(&chars_of(s)), s);
    }
    let cases = [
        ("http://h/v1/buckets?x=1", "http://h/v1"),
        ("aaa", "aa"),
        ("abcabcab", "abc"),
        ("abc", ""),
        ("", "abc"),
        ("xabx", "ab"),
        ("abab", "ab"),
        ("aXbaXb", "aXb"),
        ("ééé", "é"),
    ];
    for (s, pattern) in cases {
        assert_eq!(remove_text(s, pattern), s.replace(pattern, ""));
    }
    assert_eq!(remove_text("http://h/v1/buckets?x=1", "http://h/v1"), "/buckets?x=1");
    assert!(same_text("abc", "abc"));
    assert!(!same_text("abc", "abd"));
    assert!(!same_text("abc", "ab"));
    for n in [0u64, 7, 10, 99, 100, 1234567890, u64::MAX] {
        let mut out = "n=".to_owned();
        push_decimal(&mut out, n);
        assert_eq!(out, format!("n={}", n));
    }
}

#[test]
fn identifiers_are_read_back_from_a_path() {
    let ids = extract_ids_from_path("/buckets/food/collections/meat/records/entrecote");
    assert_eq!(ids.entries.len(), 3);
    assert_eq!(ids.get("buckets"), Some(&Some("food".to_owned())));
    assert_eq!(ids.get("collections"), Some(&Some("meat".to_owned())));
    assert_eq!(ids.get("records"), Some(&Some("entrecote".to_owned())));
    assert_eq!(ids.get("groups"), None);

    let ids = extract_ids_from_path("/v1/buckets/food/collections");
    assert_eq!(ids.get("buckets"), Some(&Some("food".to_owned())));
    assert_eq!(ids.get("collections"), Some(&None));
    assert_eq!(ids.get("v1"), None);
    assert_eq!(ids.entries.len(), 2);

    let ids = extract_ids_from_path("/buckets/v1");
    assert_eq!(ids.get("buckets"), Some(&Some("v1".to_owned())));
    let ids = extract_ids_from_path("/buckets/v10/collections/v1");
    assert_eq!(ids.get("buckets"), Some(&Some("v10".to_owned())));
    assert_eq!(ids.get("collections"), Some(&Some("v1".to_owned())));

    assert_eq!(extract_ids_from_path("").entries.len(), 0);
    assert_eq!(extract_ids_from_path("/v1").entries.len(), 0);
    assert_eq!(extract_ids_from_path("buckets").entries.len(), 0);
    let ids = extract_ids_from_path("/");
    assert_eq!(ids.get(""), Some(&None));
    let ids = extract_ids_from_path("/buckets/a/buckets/b");
    assert_eq!(ids.get("buckets"), Some(&Some("b".to_owned())));
    let ids = extract_ids_from_path("/buckets//collections/x");
    assert_eq!(ids.get("buckets"), Some(&Some("".to_owned())));
    assert_eq!(ids.get("collections"), Some(&Some("x".to_owned())));

    assert_eq!(without_version("/v1/buckets"), "/buckets");
    assert_eq!(without_version("/v1"), "");
    assert_eq!(without_version("/v1x/buckets"), "/v1x/buckets");
    assert_eq!(without_version("/buckets/v1/x"), "/buckets/v1/x");
    assert_eq!(without_version("/v"), "/v");
}

#[test]
fn a_timestamp_becomes_one_strong_tag() {
    let tags = timestamp_to_etag(1490000000000);
    assert_eq!(tags, vec![EntityTag { weak: false, tag: "1490000000000".to_owned() }]);
    assert_eq!(timestamp_to_etag(0)[0].tag, "0");
    assert_eq!(IfMatch::Items(tags).write(), "\"1490000000000\"");
}

#[test]
fn conditions_are_written_as_hyper_writes_them() {
    let ours = IfMatch::Items(vec![
        EntityTag { weak: false, tag: "123".to_owned() },
        EntityTag { weak: true, tag: "abc".to_owned() },
        EntityTag { weak: false, tag: "".to_owned() },
    ]);
    let theirs = hyper::header::IfMatch::Items(vec![
        hyper::header::EntityTag::new(false, "123".to_owned()),
        hyper::header::EntityTag::new(true, "abc".to_owned()),
        hyper::header::EntityTag::new(false, "".to_owned()),
    ]);
    assert_eq!(ours.write(), theirs.to_string());
    assert_eq!(ours.write(), "\"123\", W/\"abc\", \"\"");
    assert_eq!(IfMatch::Any.write(), hyper::header::IfMatch::Any.to_string());
    assert_eq!(IfNoneMatch::Any.write(), hyper::header::IfNoneMatch::Any.to_string());
    assert_eq!(IfMatch::Items(vec![]).write(), "");
    let one = IfNoneMatch::Items(vec![EntityTag { weak: true, tag: "x".to_owned() }]);
    let theirs = hyper::header::IfNoneMatch::Items(vec![hyper::header::EntityTag::weak(
        "x".to_owned(),
    )]);
    assert_eq!(one.write(), theirs.to_string());

    let request = GetRecord::new(config(), "/buckets/a".to_owned())
        .if_match(ours)
        .if_none_match(IfNoneMatch::Any);
    let mut expected = Headers::new();
    expected.set(hyper::header::IfMatch::Items(vec![
        hyper::header::EntityTag::new(false, "123".to_owned()),
        hyper::header::EntityTag::new(true, "abc".to_owned()),
        hyper::header::EntityTag::new(false, "".to_owned()),
    ]));
    expected.set(hyper::header::IfNoneMatch::Any);
    assert_eq!(request.preparer.headers, expected);
}

#[test]
fn setting_a_header_again_replaces_it_whatever_the_case() {
    let mut request = RequestPreparer::new(config(), "/buckets".to_owned());
    request.set_header("If-Match", "*");
    request.set_header("X-Other", "1");
    request.set_header("if-match", "\"5\"");
    assert_eq!(request.headers.len(), 2);
    assert_eq!(raw(&request.headers, "IF-MATCH"), Some(vec![b"\"5\"".to_vec()]));
    assert_eq!(raw(&request.headers, "x-other"), Some(vec![b"1".to_vec()]));
    let names: Vec<String> = request.headers.iter().map(|h| h.name().to_owned()).collect();
    assert_eq!(names, vec!["if-match".to_owned(), "X-Other".to_owned()]);
}

#[test]
fn methods_are_named_as_hyper_names_them() {
    let pairs = [
        (Method::Get, hyper::method::Method::Get),
        (Method::Post, hyper::method::Method::Post),
        (Method::Put, hyper::method::Method::Put),
        (Method::Patch, hyper::method::Method::Patch),
        (Method::Delete, hyper::method::Method::Delete),
    ];
    for (ours, theirs) in pairs {
        assert_eq!(ours.as_str(), theirs.to_string());
    }
    assert_eq!(Method::Patch.as_str(), "PATCH");
}

#[test]
fn each_kind_of_request_has_its_method() {
    let path = "/buckets".to_owned();
    assert_eq!(RequestPreparer::new(config(), path.clone()).method, Method::Get);
    assert_eq!(GetCollection::new(config(), path.clone()).preparer.method, Method::Get);
    assert_eq!(DeleteCollection::new(config(), path.clone()).preparer.method, Method::Delete);
    assert_eq!(CreateRecord::new(config(), path.clone()).preparer.method, Method::Post);
    assert_eq!(GetRecord::new(config(), path.clone()).preparer.method, Method::Get);
    assert_eq!(UpdateRecord::new(config(), path.clone()).preparer.method, Method::Put);
    assert_eq!(PatchRecord::new(config(), path.clone()).preparer.method, Method::Patch);
    let request = DeleteRecord::new(config(), path.clone());
    assert_eq!(request.preparer.method, Method::Delete);
    assert_eq!(request.preparer.path, "/buckets");
    assert_eq!(request.preparer.query, "");
    assert_eq!(request.preparer.body, None);
    assert_eq!(request.preparer.headers.len(), 0);
}

#[test]
fn a_request_goes_out_with_url_headers_and_payload() {
    let mut request = UpdateRecord::new(config_with_auth(), "/buckets/food".to_owned())
        .body(Some(object(vec![("data", object(vec![("id", Json::text("food"))]))])))
        .if_match(IfMatch::Any);
    let wire = request.outgoing().unwrap();
    assert_eq!(wire.method, Method::Put);
    assert_eq!(wire.url, "http://localhost:8888/v1/buckets/food");
    assert_eq!(wire.payload, "{\"data\":{\"id\":\"food\"}}");
    let mut expected = Headers::new();
    expected.set(ContentType::json());
    expected.set(hyper::header::IfMatch::Any);
    expected.set(Authorization(Basic {
        username: "Gabi".to_owned(),
        password: Some("MySecret".to_owned()),
    }));
    assert_eq!(wire.headers, expected);
    assert_eq!(raw(&wire.headers, "authorization"), Some(vec![b"Basic R2FiaTpNeVNlY3JldA==".to_vec()]));
    assert_eq!(raw(&wire.headers, "Content-Type"), Some(vec![b"application/json".to_vec()]));
    assert_eq!(request.preparer.headers.len(), 2);

    let mut bare = GetCollection::new(config(), "/buckets".to_owned()).limit(3).limit(-4);
    let wire = bare.outgoing().unwrap();
    assert_eq!(wire.url, "http://localhost:8888/v1/buckets?&_limit=3&_limit=-4");
    assert_eq!(wire.payload, "");
    assert_eq!(wire.headers.len(), 0);
    let mut least = GetCollection::new(config(), "".to_owned()).limit(i32::MIN).limit(i32::MAX);
    assert_eq!(least.preparer().query, "&_limit=-2147483648&_limit=2147483647");

    let auth = Credentials { username: "a".to_owned(), password: None };
    let mut request = GetRecord::new(KintoConfig::new(BASE.to_owned(), Some(auth)), "/x".to_owned());
    let wire = request.outgoing().unwrap();
    let mut expected = Headers::new();
    expected.set(Authorization(Basic { username: "a".to_owned(), password: None }));
    assert_eq!(wire.headers, expected);
}

#[test]
fn a_reply_is_classified_by_its_status_first() {
    let request = RequestPreparer::new(config(), "/buckets/food".to_owned());
    assert_eq!(request.receive(Reply::Failed).unwrap_err(), KintoError::HyperError);
    assert_eq!(request.receive(answered(304, "{}")).unwrap_err(), KintoError::NotModified);
    assert_eq!(request.receive(answered(412, "{}")).unwrap_err(), KintoError::PreconditionError);
    assert_eq!(request.receive(answered(412, "no json")).unwrap_err(), KintoError::PreconditionError);
    assert_eq!(request.receive(answered(404, "{}")).unwrap_err(), KintoError::HyperError);
    assert_eq!(request.receive(answered(500, "{}")).unwrap_err(), KintoError::HyperError);
    assert_eq!(request.receive(answered(199, "{}")).unwrap_err(), KintoError::HyperError);
    assert_eq!(request.receive(answered(300, "{}")).unwrap_err(), KintoError::HyperError);
    assert_eq!(request.receive(answered(200, "no json")).unwrap_err(), KintoError::JsonError);
    let unreadable = Reply::Answered { status: 200, headers: Headers::new(), body: None };
    assert_eq!(request.receive(unreadable).unwrap_err(), KintoError::IOError);
    let unreadable = Reply::Answered { status: 412, headers: Headers::new(), body: None };
    assert_eq!(request.receive(unreadable).unwrap_err(), KintoError::PreconditionError);

    let mut headers = Headers::new();
    headers.set_raw("ETag", vec![b"\"7\"".to_vec()]);
    let reply = Reply::Answered { status: 201, headers, body: Some("{\"data\": 1}".to_owned()) };
    let response = request.receive(reply).unwrap();
    assert_eq!(response.status, 201);
    assert_eq!(response.path, "/buckets/food");
    assert_eq!(response.config.server_url, BASE);
    assert_eq!(raw(&response.headers, "etag"), Some(vec![b"\"7\"".to_vec()]));
    assert_eq!(response.body.get("data").unwrap().as_u64(), Some(1));
}

#[test]
fn success_is_what_hyper_calls_success() {
    let request = RequestPreparer::new(config(), "/".to_owned());
    for status in 0..=u16::MAX {
        let ours = request.receive(answered(status, "null")).is_ok();
        let theirs = hyper::status::StatusCode::from_u16(status).is_success();
        assert_eq!(ours, theirs, "status {}", status);
    }
}

#[test]
fn the_body_of_a_write_holds_data_and_permissions() {
    let client = KintoClient::new(config());
    let mut bucket = client.bucket("food");
    assert_eq!(bucket.get_body().unwrap().render().unwrap(), "{\"data\":{\"id\":\"food\"}}");

    bucket.data = Some(object(vec![("id", Json::text("other")), ("good", Json::Bool(true))]));
    assert_eq!(
        bucket.get_body().unwrap().render().unwrap(),
        "{\"data\":{\"good\":true,\"id\":\"food\"}}"
    );
    bucket.permissions.read = Some(vec!["system.Everyone".to_owned()]);
    bucket.permissions.create_group = Some(vec![]);
    assert_eq!(
        bucket.get_body().unwrap(),
        object(vec![
            ("data", object(vec![("id", Json::text("food")), ("good", Json::Bool(true))])),
            (
                "permissions",
                object(vec![
                    ("read", Json::Array(vec![Json::text("system.Everyone")])),
                    ("group:create", Json::Array(vec![])),
                ]),
            ),
        ])
    );

    let mut fresh = client.new_bucket();
    assert_eq!(fresh.get_body().unwrap(), Json::object());
    fresh.data = Some(Json::from_u64(3));
    assert_eq!(fresh.get_body().unwrap().render().unwrap(), "{\"data\":3}");
    fresh.data = Some(object(vec![("id", Json::text("from-data"))]));
    assert_eq!(fresh.get_id(), Some("from-data"));
    assert_eq!(fresh.record_path().unwrap(), "/buckets/from-data");

    let mut odd = client.bucket("food");
    odd.data = Some(Json::Array(vec![]));
    assert_eq!(odd.get_body().unwrap_err(), KintoError::JsonError);
    assert_eq!(odd.create().unwrap_err(), KintoError::JsonError);
    assert_eq!(odd.update().unwrap_err(), KintoError::JsonError);
    assert_eq!(odd.set().unwrap_err(), KintoError::JsonError);
    assert!(odd.load().is_ok());
    odd.data = Some(Json::Null);
    assert_eq!(odd.get_body().unwrap().render().unwrap(), "{\"data\":{\"id\":\"food\"}}");
}

#[test]
fn each_operation_plans_its_exchange() {
    let client = KintoClient::new(config());
    let mut record = client.bucket("food").collection("meat").record("entrecote");
    let path = "/buckets/food/collections/meat/records/entrecote";

    let plan = record.load().unwrap();
    assert_eq!((plan.method, plan.path.as_str()), (Method::Get, path));
    assert_eq!(plan.headers.len(), 0);
    assert_eq!(plan.body, None);

    let plan = record.delete().unwrap();
    assert_eq!((plan.method, plan.path.as_str()), (Method::Delete, path));
    assert_eq!(plan.headers.len(), 0);
    assert_eq!(plan.body, None);

    let plan = record.create().unwrap();
    assert_eq!(plan.method, Method::Post);
    assert_eq!(plan.path, "/buckets/food/collections/meat/records");
    assert_eq!(raw(&plan.headers, "If-None-Match"), Some(vec![b"*".to_vec()]));
    assert_eq!(raw(&plan.headers, "Content-Type"), Some(vec![b"application/json".to_vec()]));
    assert_eq!(plan.headers.len(), 2);
    assert_eq!(plan.body, Some(record.get_body().unwrap()));

    let plan = record.update().unwrap();
    assert_eq!((plan.method, plan.path.as_str()), (Method::Put, path));
    assert_eq!(raw(&plan.headers, "If-Match"), Some(vec![b"*".to_vec()]));
    assert_eq!(plan.headers.len(), 2);
    assert_eq!(plan.query, "");

    record.data = Some(object(vec![("last_modified", Json::from_u64(1490000000000))]));
    assert_eq!(record.get_timestamp(), Some(1490000000000));
    let plan = record.update().unwrap();
    assert_eq!(raw(&plan.headers, "If-Match"), Some(vec![b"\"1490000000000\"".to_vec()]));
    assert_eq!(
        plan.body.unwrap().render().unwrap(),
        "{\"data\":{\"id\":\"entrecote\",\"last_modified\":1490000000000}}"
    );

    let plan = record.set().unwrap();
    assert_eq!((plan.method, plan.path.as_str()), (Method::Put, path));
    assert_eq!(plan.headers.len(), 1);
    assert_eq!(raw(&plan.headers, "Content-Type"), Some(vec![b"application/json".to_vec()]));

    let plan = record.list_request().unwrap().preparer;
    assert_eq!(plan.method, Method::Get);
    assert_eq!(plan.path, "/buckets/food/collections/meat/records");
    let plan = record.delete_all_request().unwrap().preparer;
    assert_eq!(plan.method, Method::Delete);
    assert_eq!(plan.path, "/buckets/food/collections/meat/records");
    assert_eq!(record.update_request().unwrap().preparer.method, Method::Put);
    assert_eq!(record.create_request().unwrap().preparer.method, Method::Post);
    assert_eq!(record.load_request().unwrap().preparer.path, path);
    assert_eq!(record.delete_request().unwrap().preparer.path, path);
    assert_eq!(client.flush().path, "/__flush__");
    assert_eq!(client.flush().method, Method::Post);
    assert_eq!(client.config().server_url, BASE);
}

#[test]
fn a_missing_identifier_anywhere_on_the_way_is_an_undefined_id() {
    let client = KintoClient::new(config());
    let bucket = client.new_bucket();
    assert_eq!(bucket.resource_path().unwrap(), "/buckets");
    assert_eq!(bucket.record_path().unwrap_err(), KintoError::UndefinedIdError);
    assert_eq!(bucket.load().unwrap_err(), KintoError::UndefinedIdError);
    assert_eq!(bucket.update().unwrap_err(), KintoError::UndefinedIdError);
    assert_eq!(bucket.delete().unwrap_err(), KintoError::UndefinedIdError);
    assert_eq!(bucket.create().unwrap().path, "/buckets");
    assert_eq!(bucket.set().unwrap().method, Method::Post);

    let collection = bucket.new_collection();
    assert_eq!(collection.resource_path().unwrap_err(), KintoError::UndefinedIdError);
    assert_eq!(collection.create().unwrap_err(), KintoError::UndefinedIdError);
    assert_eq!(collection.set().unwrap_err(), KintoError::UndefinedIdError);
    assert_eq!(bucket.list_collections().unwrap_err(), KintoError::UndefinedIdError);
    assert_eq!(bucket.delete_collections().unwrap_err(), KintoError::UndefinedIdError);

    let orphan = client.new_bucket().collection("meat").record("entrecote");
    assert_eq!(orphan.resource_path().unwrap_err(), KintoError::UndefinedIdError);
    let orphan = client.bucket("food").new_collection().record("entrecote");
    assert_eq!(orphan.load().unwrap_err(), KintoError::UndefinedIdError);
    let collection = client.bucket("food").new_collection();
    assert_eq!(collection.list_records().unwrap_err(), KintoError::UndefinedIdError);
    assert_eq!(collection.delete_records().unwrap_err(), KintoError::UndefinedIdError);
    assert_eq!(collection.resource_path().unwrap(), "/buckets/food/collections");
}

#[test]
fn a_response_is_unwrapped_into_the_resource() {
    let client = KintoClient::new(config());
    let mut bucket = client.new_bucket();
    let body = "{\"data\": {\"id\": \"food\", \"last_modified\": 12}, \
                \"permissions\": {\"write\": [\"a\", \"b\"], \"read\": null, \"other\": 1}}";
    bucket.unwrap_response(response("/buckets", Headers::new(), body)).unwrap();
    assert_eq!(bucket.id, Some("food".to_owned()));
    assert_eq!(bucket.get_timestamp(), Some(12));
    assert_eq!(bucket.permissions.write, Some(vec!["a".to_owned(), "b".to_owned()]));
    assert_eq!(bucket.permissions.read, None);
    assert_eq!(bucket.permissions.create_group, None);
    assert_eq!(bucket.get_data().unwrap().render().unwrap(), "{\"id\":\"food\",\"last_modified\":12}");
    assert_eq!(
        bucket.get_permissions().unwrap().render().unwrap(),
        "{\"write\":[\"a\",\"b\"]}"
    );

    let gone = "{\"data\": {\"id\": \"food\", \"deleted\": true}}";
    bucket.unwrap_response(response("/buckets/food", Headers::new(), gone)).unwrap();
    assert_eq!(bucket.permissions.write, None);
    assert!(is_empty_object(&bucket.get_permissions().unwrap()));

    let before = bucket.clone();
    for bad in [
        "{\"data\": {\"last_modified\": 12}}",
        "{\"data\": {\"id\": 5}}",
        "{\"permissions\": {}}",
        "[]",
        "{\"data\": {\"id\": \"x\"}, \"permissions\": []}",
        "{\"data\": {\"id\": \"x\"}, \"permissions\": {\"read\": \"bob\"}}",
        "{\"data\": {\"id\": \"x\"}, \"permissions\": {\"write\": [\"bob\", 5]}}",
        "{\"data\": {\"id\": \"x\"}, \"permissions\": {\"group:create\": {}}}",
    ] {
        let error = bucket.unwrap_response(response("/buckets/x", Headers::new(), bad));
        assert_eq!(error.unwrap_err(), KintoError::JsonError, "{}", bad);
        assert_eq!(bucket.id, before.id);
        assert_eq!(bucket.data, before.data);
        assert_eq!(bucket.permissions.write, before.permissions.write);
    }
    let failed = bucket.complete(Err(KintoError::NotModified));
    assert_eq!(failed.unwrap_err(), KintoError::NotModified);
    assert_eq!(bucket.data, before.data);
}

#[test]
fn ancestors_take_the_identifiers_of_the_response_path() {
    let client = KintoClient::new(config());
    let mut collection = client.bucket("stale").collection("old");
    let body = "{\"data\": {\"id\": \"meat\"}, \"permissions\": {\"record:create\": [\"x\"]}}";
    collection
        .unwrap_response(response("/v1/buckets/food/collections/meat", Headers::new(), body))
        .unwrap();
    assert_eq!(collection.bucket.id, Some("food".to_owned()));
    assert_eq!(collection.permissions.create_record, Some(vec!["x".to_owned()]));
    assert_eq!(collection.record_path().unwrap(), "/buckets/food/collections/meat");

    collection.unwrap_response(response("/elsewhere", Headers::new(), body)).unwrap();
    assert_eq!(collection.bucket.id, Some("food".to_owned()));
    collection.unwrap_response(response("/buckets", Headers::new(), body)).unwrap();
    assert_eq!(collection.bucket.id, Some("food".to_owned()));

    let mut record = client.bucket("stale").collection("old").record("r");
    let body = "{\"data\": {\"id\": \"entrecote\"}, \"permissions\": {\"read\": []}}";
    record
        .unwrap_response(response("/buckets/food/collections/meat/records", Headers::new(), body))
        .unwrap();
    assert_eq!(record.collection.id, Some("meat".to_owned()));
    assert_eq!(record.collection.bucket.id, Some("food".to_owned()));
    assert_eq!(record.permissions.read, Some(vec![]));
    assert_eq!(record.permissions.write, None);
    assert_eq!(record.record_path().unwrap(), "/buckets/food/collections/meat/records/entrecote");
}

#[test]
fn permissions_are_written_category_by_category() {
    let everyone = Some(vec!["system.Everyone".to_owned()]);
    let bucket = BucketPermissions {
        read: everyone.clone(),
        write: None,
        create_collection: everyone.clone(),
        create_group: None,
    };
    assert_eq!(
        bucket.to_json().render().unwrap(),
        "{\"collection:create\":[\"system.Everyone\"],\"read\":[\"system.Everyone\"]}"
    );
    assert_eq!(BucketPermissions::from_json(&bucket.to_json()).unwrap().read, everyone);
    assert_eq!(bucket.clone().create_collection, everyone);
    let collection = CollectionPermissions { read: None, write: None, create_record: everyone.clone() };
    assert_eq!(collection.to_json().render().unwrap(), "{\"record:create\":[\"system.Everyone\"]}");
    let back = CollectionPermissions::from_json(&collection.to_json()).unwrap();
    assert_eq!(back.create_record, everyone);
    assert_eq!(back.read, None);
    assert_eq!(collection.clone().create_record, everyone);
    let record = RecordPermissions { read: None, write: everyone.clone() };
    assert_eq!(record.to_json().render().unwrap(), "{\"write\":[\"system.Everyone\"]}");
    assert_eq!(RecordPermissions::from_json(&record.to_json()).unwrap().write, everyone);
    assert_eq!(record.clone().write, everyone);
    assert!(is_empty_object(&RecordPermissions::default().to_json()));
    assert!(is_empty_object(&CollectionPermissions::default().to_json()));
    assert!(is_empty_object(&BucketPermissions::default().to_json()));
    assert_eq!(RecordPermissions::from_json(&Json::Null).unwrap().read, None);
    assert_eq!(
        RecordPermissions::from_json(&Json::text("x")).unwrap_err(),
        KintoError::JsonError
    );
    assert_eq!(
        CollectionPermissions::from_json(&Json::Array(vec![])).unwrap_err(),
        KintoError::JsonError
    );
    let bad = object(vec![("record:create", Json::from_u64(1))]);
    assert_eq!(CollectionPermissions::from_json(&bad).unwrap_err(), KintoError::JsonError);
}

#[test]
fn the_entries_of_a_listing_become_resources() {
    let client = KintoClient::new(config());
    let template = client.bucket("food").new_collection();
    let body = "{\"data\": [{\"id\": \"meat\"}, {\"id\": \"fish\", \"last_modified\": 3}, 5]}";
    let listed = response("/buckets/food/collections", Headers::new(), body);
    let collections = unwrap_collection_records(&listed, template).unwrap();
    assert_eq!(collections.len(), 3);
    assert_eq!(collections[0].get_id(), Some("meat"));
    assert_eq!(collections[1].get_id(), Some("fish"));
    assert_eq!(collections[1].get_timestamp(), Some(3));
    assert_eq!(collections[2].get_id(), None);
    assert_eq!(collections[2].data, Some(Json::from_u64(5)));
    assert_eq!(collections[0].bucket.get_id(), Some("food"));
    assert_eq!(collections[1].record_path().unwrap(), "/buckets/food/collections/fish");

    for bad in ["{\"data\": {}}", "{}", "[]", "{\"data\": null}"] {
        let listed = response("/buckets", Headers::new(), bad);
        let error = unwrap_collection_records(&listed, client.new_bucket()).unwrap_err();
        assert_eq!(error, KintoError::JsonError);
    }
    let mut bucket = client.bucket("food");
    let copy: Bucket = bucket.set_data(Json::from_u64(1));
    assert_eq!(copy.data, Some(Json::from_u64(1)));
    assert_eq!(bucket.data, Some(Json::from_u64(1)));
    assert_eq!(copy.id, Some("food".to_owned()));
}

#[test]
fn a_batch_lists_its_requests_in_order() {
    let client = KintoClient::new(config_with_auth());
    let bucket = client.bucket("food");
    let mut batch = BatchRequest::new(config_with_auth());
    assert_eq!(batch.preparer.method, Method::Post);
    assert_eq!(batch.preparer.path, "/batch");
    assert_eq!(raw(&batch.preparer.headers, "Content-Type"), Some(vec![b"application/json".to_vec()]));
    assert_eq!(batch.compose().render().unwrap(), "{\"requests\":[]}");

    batch.add_request(bucket.update_request().unwrap());
    batch.add_request(bucket.update().unwrap());
    batch.add_request(bucket.delete_request().unwrap());
    assert_eq!(batch.requests.len(), 3);
    let wire = batch.outgoing().unwrap();
    assert_eq!(wire.url, "http://localhost:8888/v1/batch");
    assert_eq!(wire.method, Method::Post);
    assert!(wire.headers.get_raw("Authorization").is_some());
    let sent: serde_json::Value = serde_json::from_str(&wire.payload).unwrap();
    let requests = sent["requests"].as_array().unwrap();
    assert_eq!(requests.len(), 3);
    assert_eq!(requests[0]["method"], "PUT");
    assert_eq!(requests[0]["path"], "/buckets/food");
    assert_eq!(requests[0]["body"], serde_json::Value::Object(serde_json::Map::new()));
    assert_eq!(requests[0]["headers"], serde_json::Value::Object(serde_json::Map::new()));
    assert_eq!(requests[1]["method"], "PUT");
    assert_eq!(requests[1]["body"]["data"]["id"], "food");
    assert_eq!(requests[2]["method"], "DELETE");

    let mut theirs = Headers::new();
    theirs.set(ContentType::json());
    theirs.set(hyper::header::IfMatch::Any);
    for (i, header) in theirs.iter().enumerate() {
        assert_eq!(requests[1]["headers"][header.name()], header.to_string(), "header {}", i);
    }
    assert_eq!(requests[1]["headers"]["If-Match"], "If-Match: *\r\n");
    assert_eq!(requests[1]["headers"].as_object().unwrap().len(), 2);
    assert_eq!(batch.preparer.body.as_ref().unwrap().render().unwrap(), wire.payload);
    let composed = batch.compose();
    let entries = composed.get("requests").unwrap().as_array().unwrap();
    let names: Vec<&str> = match entries[1].get("headers").unwrap() {
        Json::Object(members) => members.iter().map(|(name, _)| name.as_str()).collect(),
        _ => Vec::new(),
    };
    assert_eq!(names, vec!["Content-Type", "If-Match"]);
    let keys: Vec<&str> = match &entries[1] {
        Json::Object(members) => members.iter().map(|(name, _)| name.as_str()).collect(),
        _ => Vec::new(),
    };
    assert_eq!(keys, vec!["method", "path", "body", "headers"]);

    let mut odd = RequestPreparer::new(config(), "/x".to_owned());
    odd.headers.set_raw("X-Bytes", vec![vec![0xff, 0xfe]]);
    odd.headers.set_raw("X-Two", vec![b"a\nb".to_vec(), b"c".to_vec()]);
    odd.headers.set_raw("X-None", vec![]);
    let mut batch = BatchRequest::new(config());
    batch.add_request(odd);
    let sent: serde_json::Value =
        serde_json::from_str(&batch.outgoing().unwrap().payload).unwrap();
    let headers = sent["requests"][0]["headers"].as_object().unwrap();
    assert_eq!(headers.len(), 2);
    assert_eq!(headers["X-Two"], "X-Two: a b\r\nX-Two: c\r\n");
    assert_eq!(headers["X-None"], "");
}

#[test]
fn a_batch_response_is_taken_apart_in_order() {
    let mut headers = Headers::new();
    headers.set_raw("X-Served", vec![b"1".to_vec()]);
    let body = "{\"responses\": [\
                {\"status\": 201, \"path\": \"/v1/buckets/food\", \"body\": {\"data\": 1}},\
                {\"status\": 200, \"path\": \"/buckets/v1\", \"body\": null, \"headers\": {}},\
                {\"status\": 404, \"path\": \"/v1\", \"body\": []}]}";
    let mut whole = response("/batch", headers, body);
    whole.status = 207;
    let parts = BatchResponseWrapper::from(whole).unwrap();
    assert_eq!(parts.status, 207);
    assert_eq!(parts.config.server_url, BASE);
    assert_eq!(raw(&parts.headers, "x-served"), Some(vec![b"1".to_vec()]));
    assert_eq!(parts.responses.len(), 3);
    assert_eq!(parts.responses[0].status, 201);
    assert_eq!(parts.responses[0].path, "/buckets/food");
    assert_eq!(parts.responses[0].body.get("data").unwrap().as_u64(), Some(1));
    assert_eq!(parts.responses[0].headers.len(), 0);
    assert_eq!(parts.responses[0].config.server_url, BASE);
    assert_eq!(parts.responses[1].status, 200);
    assert_eq!(parts.responses[1].path, "/buckets/v1");
    assert_eq!(parts.responses[1].body, Json::Null);
    assert_eq!(parts.responses[2].status, 404);
    assert_eq!(parts.responses[2].path, "");

    assert_eq!(
        BatchResponseWrapper::from(response("/batch", Headers::new(), "{\"responses\": []}"))
            .unwrap()
            .responses
            .len(),
        0
    );
    for bad in [
        "{}",
        "{\"responses\": {}}",
        "[]",
        "{\"responses\": [{\"status\": 200, \"path\": \"/x\"}]}",
        "{\"responses\": [{\"status\": 200, \"body\": 1}]}",
        "{\"responses\": [{\"path\": \"/x\", \"body\": 1}]}",
        "{\"responses\": [{\"status\": \"200\", \"path\": \"/x\", \"body\": 1}]}",
        "{\"responses\": [{\"status\": 200, \"path\": 5, \"body\": 1}]}",
        "{\"responses\": [{\"status\": 65536, \"path\": \"/x\", \"body\": 1}]}",
        "{\"responses\": [{\"status\": 200, \"path\": \"/x\", \"body\": 1}, 7]}",
    ] {
        let error = BatchResponseWrapper::from(response("/batch", Headers::new(), bad));
        assert_eq!(error.unwrap_err(), KintoError::JsonError, "{}", bad);
    }
    let most = "{\"responses\": [{\"status\": 65535, \"path\": \"/x\", \"body\": 1}]}";
    let parts = BatchResponseWrapper::from(response("/batch", Headers::new(), most)).unwrap();
    assert_eq!(parts.responses[0].status, 65535);
}

#[test]
fn a_listing_follows_the_cursor_and_joins_the_pages() {
    let request = GetCollection::new(config(), "/buckets".to_owned()).limit(2).preparer;
    let mut headers = Headers::new();
    headers.set_raw("Next-Page", vec![format!("{}/buckets?_token=abc", BASE).into_bytes()]);
    let first = response("/buckets", headers, "{\"data\": [1, 2], \"more\": true}");
    let mut follower = Follower::begin(request, first);
    let next = follower.next_request().unwrap().unwrap();
    assert_eq!(next.path, "/buckets?_token=abc");
    assert_eq!(next.query, "");
    assert_eq!(next.method, Method::Get);
    assert_eq!(next.config.server_url, BASE);
    assert_eq!(follower.request.query, "&_limit=2");

    let mut headers = Headers::new();
    headers.set_raw("next-page", vec![b"/relative?x=1".to_vec(), b"/ignored".to_vec()]);
    headers.set_raw("Total-Records", vec![b"5".to_vec()]);
    follower.absorb(response("/buckets?_token=abc", headers, "{\"data\": [3]}")).unwrap();
    assert_eq!(follower.next_request().unwrap().unwrap().path, "/relative?x=1");

    follower.absorb(response("/relative", Headers::new(), "{\"data\": [4, 5]}")).unwrap();
    assert!(follower.next_request().unwrap().is_none());
    let all = follower.finish();
    assert_eq!(all.body.render().unwrap(), "{\"data\":[1,2,3,4,5],\"more\":true}");
    assert_eq!(all.path, "/buckets");
    assert_eq!(all.headers.len(), 1);
}

#[test]
fn a_listing_that_cannot_go_on_fails() {
    let request = RequestPreparer::new(config(), "/buckets".to_owned());
    let mut headers = Headers::new();
    headers.set_raw("Next-Page", vec![vec![b'/', 0xff]]);
    let first = response("/buckets", headers, "{\"data\": [1]}");
    let follower = Follower::begin(request.clone(), first);
    assert_eq!(follower.next_request().unwrap_err(), KintoError::Utf8Error);

    let mut headers = Headers::new();
    headers.set_raw("Next-Page", vec![]);
    let first = response("/buckets", headers, "{\"data\": [1]}");
    assert!(Follower::begin(request.clone(), first).next_request().unwrap().is_none());

    let first = response("/buckets", Headers::new(), "{\"data\": [1]}");
    let mut follower = Follower::begin(request.clone(), first);
    for bad in ["{\"data\": {}}", "{}", "[2]"] {
        let error = follower.absorb(response("/buckets", Headers::new(), bad)).unwrap_err();
        assert_eq!(error, KintoError::JsonError);
        assert_eq!(follower.base.body.render().unwrap(), "{\"data\":[1]}");
    }
    let first = response("/buckets", Headers::new(), "{\"data\": 1}");
    let mut follower = Follower::begin(request, first);
    let error = follower.absorb(response("/buckets", Headers::new(), "{\"data\": [2]}"));
    assert_eq!(error.unwrap_err(), KintoError::JsonError);
}
