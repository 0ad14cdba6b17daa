use pocketbase_rs::auth_refresh::read_refresh;
use pocketbase_rs::collection::{action_endpoint, item_endpoint, read_summary};
use pocketbase_rs::delete::unexpected_message_text;
use pocketbase_rs::get_list::{list_parameters, push_optional, read_fetched};
use pocketbase_rs::json::{bool_member, empty_object, text_member};
use pocketbase_rs::transport::push_pair;
use pocketbase_rs::{
    AuthStore, AuthStoreRecord, BadRequestResponse, Outcome, PocketBase, RequestError, Response,
    Status, TransportError,
};

fn value(text: &str) -> serde_json::Value {
    serde_json::from_str(text).unwrap()
}

fn pair(name: &str, value: &str) -> (String, String) {
    (name.to_string(), value.to_string())
}

#[test]
fn text_member_reads_strings_only() {
    let document = value("{\"a\":\"x\",\"b\":1,\"c\":null,\"d\":{\"a\":\"inner\"},\"e\":\"\"}");
    assert_eq!(text_member(&document, "a"), Some("x".to_string()));
    assert_eq!(text_member(&document, "e"), Some(String::new()));
    assert_eq!(text_member(&document, "b"), None);
    assert_eq!(text_member(&document, "c"), None);
    assert_eq!(text_member(&document, "d"), None);
    assert_eq!(text_member(&document, "missing"), None);
    assert_eq!(text_member(&value("\"a\""), "a"), None);
    assert_eq!(text_member(&value("[\"a\"]"), "a"), None);
}

#[test]
fn text_member_keeps_the_characters() {
    let document = value("{\"a\":\"caf\\u00e9 \\\"q\\\" \\n\"}");
    assert_eq!(text_member(&document, "a"), Some("café \"q\" \n".to_string()));
}

#[test]
fn bool_member_reads_booleans_only() {
    let document = value("{\"t\":true,\"f\":false,\"s\":\"true\",\"n\":1}");
    assert_eq!(bool_member(&document, "t"), Some(true));
    assert_eq!(bool_member(&document, "f"), Some(false));
    assert_eq!(bool_member(&document, "s"), None);
    assert_eq!(bool_member(&document, "n"), None);
    assert_eq!(bool_member(&document, "missing"), None);
    assert_eq!(bool_member(&value("true"), "t"), None);
}

#[test]
fn read_summary_gives_the_five_strings_in_order() {
    let document = value(
        "{\"id\":\"r\",\"created\":\"c\",\"updated\":\"u\",\"collectionId\":\"ci\",\"collectionName\":\"cn\"}",
    );
    assert_eq!(
        read_summary(&document),
        Some((
            "cn".to_string(),
            "ci".to_string(),
            "r".to_string(),
            "u".to_string(),
            "c".to_string()
        ))
    );
    assert_eq!(read_summary(&value("{\"id\":\"r\"}")), None);
    assert_eq!(read_summary(&value("null")), None);
}

#[test]
fn record_is_read_from_a_document() {
    let document = value(
        "{\"id\":\"u1\",\"collectionId\":\"c1\",\"collectionName\":\"users\",\"created\":\"a\",\"updated\":\"b\",\"email\":\"e\",\"emailVisibility\":false,\"verified\":true}",
    );
    assert_eq!(
        AuthStoreRecord::from_json(&document),
        Some(AuthStoreRecord {
            id: "u1".to_string(),
            collection_id: "c1".to_string(),
            collection_name: "users".to_string(),
            created: "a".to_string(),
            updated: "b".to_string(),
            email: "e".to_string(),
            email_visibility: false,
            verified: true,
        })
    );
    assert_eq!(AuthStoreRecord::from_json(&value("{\"id\":\"u1\"}")), None);
    let session = value(
        "{\"token\":\"t\",\"record\":{\"id\":\"u1\",\"collectionId\":\"c1\",\"collectionName\":\"users\",\"created\":\"a\",\"updated\":\"b\",\"email\":\"e\",\"emailVisibility\":false,\"verified\":true}}",
    );
    let store = AuthStore::from_json(&session).unwrap();
    assert_eq!(store.token, "t");
    assert_eq!(Some(store.record.clone()), AuthStoreRecord::from_json(&document));
    assert_eq!(store.clone(), store);
}

#[test]
fn report_is_read_from_a_document() {
    let document =
        value("{\"code\":403,\"message\":\"m\",\"data\":{\"f\":{\"code\":\"c\",\"message\":\"d\"}}}");
    let report = BadRequestResponse::from_json(&document).unwrap();
    assert_eq!(report.code, 403);
    assert_eq!(report.message, "m");
    assert_eq!(report.data.len(), 1);
    assert_eq!(report.data[0].0, "f");
    assert_eq!(report.data[0].1.code, "c");
    assert_eq!(report.data[0].1.message, "d");
    assert!(BadRequestResponse::from_json(&value("{\"code\":4.5,\"message\":\"m\",\"data\":{}}"))
        .is_none());
}

#[test]
fn endpoints_are_joined_with_slashes() {
    let client = PocketBase::new("http://localhost:8090");
    assert_eq!(
        action_endpoint(&client, "users", "auth-refresh"),
        "http://localhost:8090/api/collections/users/auth-refresh"
    );
    assert_eq!(
        item_endpoint(&client, "users", "records", "abc"),
        "http://localhost:8090/api/collections/users/records/abc"
    );
    let empty = PocketBase::new("");
    assert_eq!(action_endpoint(&empty, "", ""), "/api/collections//");
    assert_eq!(item_endpoint(&empty, "", "", ""), "/api/collections///");
}

#[test]
fn pairs_are_appended_in_order() {
    let mut pairs = vec![pair("a", "1")];
    push_pair(&mut pairs, "b", "2");
    push_optional(&mut pairs, "c", None);
    push_optional(&mut pairs, "d", Some("4"));
    assert_eq!(pairs, vec![pair("a", "1"), pair("b", "2"), pair("d", "4")]);
}

#[test]
fn list_parameters_skip_what_is_not_set() {
    assert_eq!(
        list_parameters(None, None, None, None, None, false),
        vec![pair("skipTotal", "false")]
    );
    assert_eq!(
        list_parameters(None, Some("10"), None, Some("a=1"), None, true),
        vec![pair("perPage", "10"), pair("filter", "a=1"), pair("skipTotal", "true")]
    );
    assert_eq!(
        list_parameters(Some("3"), Some("10"), Some("s"), Some("f"), Some("e"), true),
        vec![
            pair("page", "3"),
            pair("perPage", "10"),
            pair("sort", "s"),
            pair("filter", "f"),
            pair("expand", "e"),
            pair("skipTotal", "true"),
        ]
    );
}

#[test]
fn failures_are_unreachable_on_timeout_or_connect() {
    let timeout = TransportError { timeout: true, connect: false, message: String::new() };
    let connect = TransportError { timeout: false, connect: true, message: String::new() };
    let both = TransportError { timeout: true, connect: true, message: String::new() };
    let neither = TransportError { timeout: false, connect: false, message: String::new() };
    assert!(timeout.is_unreachable());
    assert!(connect.is_unreachable());
    assert!(both.is_unreachable());
    assert!(!neither.is_unreachable());
    assert_eq!(RequestError::from_failure(&timeout), RequestError::Unreachable);
    assert_eq!(RequestError::from_failure(&connect), RequestError::Unreachable);
    assert_eq!(RequestError::from_failure(&both), RequestError::Unreachable);
    assert_eq!(RequestError::from_failure(&neither), RequestError::Unhandled);
}

#[test]
fn read_fetched_follows_the_status() {
    let reply = |code: u16| {
        Outcome::Response(Response { status: Status::from_u16(code).unwrap(), body: String::new() })
    };
    assert_eq!(read_fetched(reply(200), Ok(5u8)), Ok(5u8));
    assert_eq!(read_fetched(reply(299), Ok(5u8)), Ok(5u8));
    assert_eq!(
        read_fetched::<u8>(reply(200), Err("why".to_string())),
        Err(RequestError::ParseError("why".to_string()))
    );
    assert_eq!(read_fetched(reply(199), Ok(5u8)), Err(RequestError::Unhandled));
    assert_eq!(read_fetched(reply(300), Ok(5u8)), Err(RequestError::Unhandled));
    assert_eq!(read_fetched(reply(400), Ok(5u8)), Err(RequestError::Unhandled));
    assert_eq!(read_fetched(reply(401), Ok(5u8)), Err(RequestError::Unauthorized));
    assert_eq!(read_fetched(reply(403), Ok(5u8)), Err(RequestError::Forbidden));
    assert_eq!(read_fetched(reply(404), Ok(5u8)), Err(RequestError::NotFound));
}

#[test]
fn read_refresh_does_not_touch_a_client() {
    let body = "{\"token\":\"t\",\"record\":{\"id\":\"u1\",\"collectionId\":\"c1\",\"collectionName\":\"users\",\"created\":\"a\",\"updated\":\"b\",\"email\":\"e\",\"emailVisibility\":false,\"verified\":true}}";
    let outcome = Outcome::Response(Response {
        status: Status::from_u16(200).unwrap(),
        body: body.to_string(),
    });
    let store = read_refresh(outcome).unwrap();
    assert_eq!(store.token, "t");
    assert_eq!(store.record.id, "u1");
    assert!(!store.record.email_visibility);
    assert!(store.record.verified);
}

#[test]
fn empty_object_is_an_object_without_members() {
    assert!(empty_object(&value("{}")));
    assert!(empty_object(&value(" { } ")));
    assert!(!empty_object(&value("{\"a\":1}")));
    assert!(!empty_object(&value("{\"\":null}")));
    assert!(!empty_object(&value("[]")));
    assert!(!empty_object(&value("null")));
    assert!(!empty_object(&value("\"\"")));
    assert!(!empty_object(&value("0")));
    assert!(!empty_object(&value("false")));
}

#[test]
fn unexpected_message_names_status_collection_and_record() {
    assert_eq!(
        unexpected_message_text("500 Internal Server Error", "articles", "r1"),
        "Status: 500 Internal Server Error, Collection: articles, Record: r1"
    );
    assert_eq!(unexpected_message_text("", "", ""), "Status: , Collection: , Record: ");
    assert_eq!(
        unexpected_message_text("a, b", "c: d", "e"),
        "Status: a, b, Collection: c: d, Record: e"
    );
}

#[test]
fn report_from_a_body_names_no_field_twice() {
    let body = "{\"code\":400,\"message\":\"m\",\"data\":{\"a\":{\"code\":\"first\",\"message\":\"x\"},\"b\":{\"code\":\"cb\",\"message\":\"y\"},\"a\":{\"code\":\"last\",\"message\":\"z\"}}}";
    let report = BadRequestResponse::from_text(body).unwrap();
    let mut names: Vec<&str> = report.data.iter().map(|entry| entry.0.as_str()).collect();
    names.sort();
    assert_eq!(names, vec!["a", "b"]);
    let again = report
        .data
        .iter()
        .filter(|entry| entry.0 == "a")
        .map(|entry| entry.1.code.as_str())
        .collect::<Vec<&str>>();
    assert_eq!(again, vec!["last"]);
}
