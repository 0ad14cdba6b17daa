use pocketbase_rs::create::create_processing;
use pocketbase_rs::{
    BadRequestError, BadRequestInternalError, BadRequestResponse, CreateError, CreateResponse,
    DeleteError, Outcome, PocketBase, RecordList, RequestError, Response, Status, TransportError,
    UpdateError, UpdateResponse,
};

const SUMMARY: &str = "{\"collectionId\":\"c9\",\"collectionName\":\"articles\",\"id\":\"r1\",\"created\":\"2024-01-01\",\"updated\":\"2024-02-02\",\"title\":\"extra\"}";

const REPORT: &str = "{\"code\":400,\"message\":\"Failed to create record.\",\"data\":{\"title\":{\"code\":\"validation_required\",\"message\":\"Missing required value.\"}}}";

fn reply(code: u16, body: &str) -> Outcome {
    Outcome::Response(Response { status: Status::from_u16(code).unwrap(), body: body.to_string() })
}

fn failure(timeout: bool, connect: bool, message: &str) -> Outcome {
    Outcome::Failure(TransportError { timeout, connect, message: message.to_string() })
}

fn title_error() -> BadRequestError {
    BadRequestError {
        name: "title".to_string(),
        code: "validation_required".to_string(),
        message: "Missing required value.".to_string(),
    }
}

fn created_summary() -> CreateResponse {
    CreateResponse {
        collection_name: "articles".to_string(),
        collection_id: "c9".to_string(),
        id: "r1".to_string(),
        updated: "2024-02-02".to_string(),
        created: "2024-01-01".to_string(),
    }
}

fn updated_summary() -> UpdateResponse {
    UpdateResponse {
        collection_name: "articles".to_string(),
        collection_id: "c9".to_string(),
        id: "r1".to_string(),
        updated: "2024-02-02".to_string(),
        created: "2024-01-01".to_string(),
    }
}

#[test]
fn create_response_is_read_from_a_body() {
    assert_eq!(CreateResponse::from_text(SUMMARY), Some(created_summary()));
    assert_eq!(CreateResponse::from_text("{}"), None);
    assert_eq!(CreateResponse::from_text("{\"id\":\"r1\"}"), None);
    assert_eq!(CreateResponse::from_text("oops"), None);
    let id_number = SUMMARY.replace("\"id\":\"r1\"", "\"id\":1");
    assert_eq!(CreateResponse::from_text(&id_number), None);
}

#[test]
fn update_response_is_read_from_a_body() {
    assert_eq!(UpdateResponse::from_text(SUMMARY), Some(updated_summary()));
    assert_eq!(UpdateResponse::from_text("[]"), None);
    let without_updated = SUMMARY.replace(",\"updated\":\"2024-02-02\"", "");
    assert_eq!(UpdateResponse::from_text(&without_updated), None);
}

#[test]
fn validation_report_is_read_from_a_body() {
    let report = BadRequestResponse::from_text(REPORT).unwrap();
    assert_eq!(report.code, 400);
    assert_eq!(report.message, "Failed to create record.");
    assert_eq!(
        report.data,
        vec![(
            "title".to_string(),
            BadRequestInternalError {
                code: "validation_required".to_string(),
                message: "Missing required value.".to_string(),
            }
        )]
    );
    assert_eq!(report.into_errors(), vec![title_error()]);
}

#[test]
fn validation_report_with_several_fields() {
    let body = "{\"code\":400,\"message\":\"m\",\"data\":{\"b\":{\"code\":\"cb\",\"message\":\"mb\"},\"a\":{\"code\":\"ca\",\"message\":\"ma\"},\"c\":{\"code\":\"cc\",\"message\":\"mc\",\"more\":1}}}";
    let report = BadRequestResponse::from_text(body).unwrap();
    let mut errors = report.into_errors();
    errors.sort_by(|left, right| left.name.cmp(&right.name));
    let names: Vec<&str> = errors.iter().map(|error| error.name.as_str()).collect();
    assert_eq!(names, vec!["a", "b", "c"]);
    let codes: Vec<&str> = errors.iter().map(|error| error.code.as_str()).collect();
    assert_eq!(codes, vec!["ca", "cb", "cc"]);
    let messages: Vec<&str> = errors.iter().map(|error| error.message.as_str()).collect();
    assert_eq!(messages, vec!["ma", "mb", "mc"]);
}

#[test]
fn validation_report_without_fields() {
    let report =
        BadRequestResponse::from_text("{\"code\":400,\"message\":\"m\",\"data\":{}}").unwrap();
    assert!(report.data.is_empty());
    assert!(report.into_errors().is_empty());
}

#[test]
fn validation_report_shape_is_required() {
    assert!(BadRequestResponse::from_text("").is_none());
    assert!(BadRequestResponse::from_text("{}").is_none());
    assert!(BadRequestResponse::from_text("{\"message\":\"m\",\"data\":{}}").is_none());
    assert!(BadRequestResponse::from_text("{\"code\":400,\"data\":{}}").is_none());
    assert!(BadRequestResponse::from_text("{\"code\":400,\"message\":\"m\"}").is_none());
    assert!(BadRequestResponse::from_text("{\"code\":400,\"message\":\"m\",\"data\":null}")
        .is_none());
    assert!(BadRequestResponse::from_text("{\"code\":400,\"message\":\"m\",\"data\":[]}")
        .is_none());
    assert!(BadRequestResponse::from_text("{\"code\":\"400\",\"message\":\"m\",\"data\":{}}")
        .is_none());
    assert!(BadRequestResponse::from_text("{\"code\":-1,\"message\":\"m\",\"data\":{}}")
        .is_none());
    assert!(BadRequestResponse::from_text("{\"code\":65536,\"message\":\"m\",\"data\":{}}")
        .is_none());
    assert!(BadRequestResponse::from_text(
        "{\"code\":400,\"message\":\"m\",\"data\":{\"a\":{\"code\":\"c\"}}}"
    )
    .is_none());
    assert!(BadRequestResponse::from_text(
        "{\"code\":400,\"message\":\"m\",\"data\":{\"a\":{\"code\":1,\"message\":\"m\"}}}"
    )
    .is_none());
    assert!(BadRequestResponse::from_text(
        "{\"code\":400,\"message\":\"m\",\"data\":{\"a\":\"text\"}}"
    )
    .is_none());
}

#[test]
fn validation_report_code_bounds() {
    let low = BadRequestResponse::from_text("{\"code\":0,\"message\":\"m\",\"data\":{}}").unwrap();
    assert_eq!(low.code, 0);
    let high =
        BadRequestResponse::from_text("{\"code\":65535,\"message\":\"m\",\"data\":{}}").unwrap();
    assert_eq!(high.code, 65535);
}

#[test]
fn bad_request_error_as_a_line() {
    assert_eq!(
        title_error().to_string(),
        "title: validation_required Missing required value."
    );
}

#[test]
fn create_success_on_any_2xx() {
    for code in [200u16, 201, 204, 299] {
        assert_eq!(create_processing(reply(code, SUMMARY)), Ok(created_summary()));
    }
    let mut client = PocketBase::new("http://localhost:8090");
    assert_eq!(client.collection("articles").create(reply(200, SUMMARY)), Ok(created_summary()));
    assert_eq!(
        client.collection("articles").create_multipart(reply(200, SUMMARY)),
        Ok(created_summary())
    );
}

#[test]
fn create_unreadable_success_body() {
    assert_eq!(
        create_processing(reply(200, "{\"id\":\"r1\"}")),
        Err(CreateError::ParseError("The response body does not describe a record.".to_string()))
    );
}

#[test]
fn create_bad_request_lists_the_fields() {
    assert_eq!(
        create_processing(reply(400, REPORT)),
        Err(CreateError::BadRequest(vec![title_error()]))
    );
}

#[test]
fn create_bad_request_with_unreadable_body() {
    assert_eq!(
        create_processing(reply(400, "{\"data\":{}}")),
        Err(CreateError::ParseError(
            "The response body does not describe the refused fields.".to_string()
        ))
    );
}

#[test]
fn create_statuses() {
    assert_eq!(create_processing(reply(403, "")), Err(CreateError::Forbidden));
    assert_eq!(create_processing(reply(404, "")), Err(CreateError::NotFound));
    assert_eq!(
        create_processing(reply(401, "")),
        Err(CreateError::UnexpectedResponse("401 Unauthorized".to_string()))
    );
    assert_eq!(
        create_processing(reply(500, "")),
        Err(CreateError::UnexpectedResponse("500 Internal Server Error".to_string()))
    );
    assert_eq!(
        create_processing(reply(413, "")),
        Err(CreateError::UnexpectedResponse("413 Payload Too Large".to_string()))
    );
    assert_eq!(
        create_processing(reply(301, "")),
        Err(CreateError::UnexpectedResponse("301 Moved Permanently".to_string()))
    );
}

#[test]
fn create_transport_failures() {
    assert_eq!(
        create_processing(failure(true, false, "operation timed out")),
        Err(CreateError::Unreachable("operation timed out".to_string()))
    );
    assert_eq!(
        create_processing(failure(false, true, "connection refused")),
        Err(CreateError::Unreachable("connection refused".to_string()))
    );
    assert_eq!(
        create_processing(failure(false, false, "builder error")),
        Err(CreateError::UnexpectedResponse("builder error".to_string()))
    );
}

#[test]
fn update_outcomes() {
    let mut client = PocketBase::new("http://localhost:8090");
    assert_eq!(client.collection("articles").update(reply(200, SUMMARY)), Ok(updated_summary()));
    assert_eq!(client.collection("articles").update(reply(204, SUMMARY)), Ok(updated_summary()));
    assert_eq!(
        client.collection("articles").update(reply(200, "{}")),
        Err(UpdateError::ParseError("The response body does not describe a record.".to_string()))
    );
    assert_eq!(
        client.collection("articles").update(reply(400, REPORT)),
        Err(UpdateError::BadRequest(vec![title_error()]))
    );
    assert_eq!(
        client.collection("articles").update(reply(400, "no")),
        Err(UpdateError::ParseError(
            "The response body does not describe the refused fields.".to_string()
        ))
    );
    assert_eq!(client.collection("articles").update(reply(403, "")), Err(UpdateError::Forbidden));
    assert_eq!(client.collection("articles").update(reply(404, "")), Err(UpdateError::NotFound));
    assert_eq!(
        client.collection("articles").update(reply(502, "")),
        Err(UpdateError::UnexpectedResponse("502 Bad Gateway".to_string()))
    );
    assert_eq!(
        client.collection("articles").update(failure(false, true, "refused")),
        Err(UpdateError::Unreachable("refused".to_string()))
    );
    assert_eq!(
        client.collection("articles").update(failure(false, false, "redirect loop")),
        Err(UpdateError::UnexpectedResponse("redirect loop".to_string()))
    );
}

#[test]
fn delete_outcomes() {
    let mut client = PocketBase::new("http://localhost:8090");
    let articles = client.collection("articles");
    assert_eq!(articles.delete("r1", reply(204, "")), Ok(()));
    assert_eq!(articles.delete("r1", reply(200, "")), Ok(()));
    assert_eq!(articles.delete("r1", reply(400, "")), Err(DeleteError::BadRequest));
    assert_eq!(articles.delete("r1", reply(403, "")), Err(DeleteError::Forbidden));
    assert_eq!(articles.delete("r1", reply(404, "")), Err(DeleteError::NotFound));
    assert_eq!(
        articles.delete("r1", reply(401, "")),
        Err(DeleteError::UnexpectedResponse(
            "Status: 401 Unauthorized, Collection: articles, Record: r1".to_string()
        ))
    );
    assert_eq!(
        articles.delete("r1", reply(201, "")),
        Err(DeleteError::UnexpectedResponse(
            "Status: 201 Created, Collection: articles, Record: r1".to_string()
        ))
    );
    assert_eq!(
        articles.delete("r1", reply(500, "")),
        Err(DeleteError::UnexpectedResponse(
            "Status: 500 Internal Server Error, Collection: articles, Record: r1".to_string()
        ))
    );
}

#[test]
fn delete_transport_failures() {
    let mut client = PocketBase::new("http://localhost:8090");
    let articles = client.collection("articles");
    assert_eq!(
        articles.delete("r1", failure(true, false, "x")),
        Err(DeleteError::Unreachable("Request timed out".to_string()))
    );
    assert_eq!(
        articles.delete("r1", failure(true, true, "x")),
        Err(DeleteError::Unreachable("Request timed out".to_string()))
    );
    assert_eq!(
        articles.delete("r1", failure(false, true, "x")),
        Err(DeleteError::Unreachable("Failed to connect to server".to_string()))
    );
    assert_eq!(
        articles.delete("r1", failure(false, false, "body error")),
        Err(DeleteError::UnexpectedResponse("body error".to_string()))
    );
}

#[test]
fn delete_empty_identifier_is_refused_whatever_came_back() {
    let mut client = PocketBase::new("http://localhost:8090");
    let articles = client.collection("articles");
    assert_eq!(articles.delete_request("").err(), Some(DeleteError::BadRequest));
    assert_eq!(articles.delete("", reply(204, "")), Err(DeleteError::BadRequest));
    assert_eq!(articles.delete("", reply(404, "")), Err(DeleteError::BadRequest));
    assert_eq!(articles.delete("", failure(true, false, "x")), Err(DeleteError::BadRequest));
}

fn page_of(items: Vec<String>) -> RecordList<String> {
    RecordList { page: 1, per_page: 30, total_items: -1, total_pages: -1, items }
}

#[test]
fn get_one_outcomes() {
    let mut client = PocketBase::new("http://localhost:8090");
    let record = "the record".to_string();
    assert_eq!(
        client.collection("a").get_one::<String>("r1").call(reply(200, "x"), Ok(record.clone())),
        Ok(record.clone())
    );
    assert_eq!(
        client.collection("a").get_one::<String>("r1").call(reply(206, "x"), Ok(record.clone())),
        Ok(record.clone())
    );
    assert_eq!(
        client
            .collection("a")
            .get_one::<String>("r1")
            .call(reply(200, "x"), Err("missing field `title`".to_string())),
        Err(RequestError::ParseError("missing field `title`".to_string()))
    );
    assert_eq!(
        client.collection("a").get_one::<String>("r1").call(reply(403, "x"), Ok(record.clone())),
        Err(RequestError::Forbidden)
    );
    assert_eq!(
        client.collection("a").get_one::<String>("r1").call(reply(404, "x"), Ok(record.clone())),
        Err(RequestError::NotFound)
    );
    assert_eq!(
        client.collection("a").get_one::<String>("r1").call(reply(401, "x"), Ok(record.clone())),
        Err(RequestError::Unauthorized)
    );
    for code in [100u16, 304, 400, 402, 500] {
        assert_eq!(
            client
                .collection("a")
                .get_one::<String>("r1")
                .call(reply(code, "x"), Ok(record.clone())),
            Err(RequestError::Unhandled)
        );
    }
    assert_eq!(
        client
            .collection("a")
            .get_one::<String>("r1")
            .call(failure(false, true, "x"), Err("no body".to_string())),
        Err(RequestError::Unreachable)
    );
    assert_eq!(
        client
            .collection("a")
            .get_one::<String>("r1")
            .call(failure(false, false, "x"), Err("no body".to_string())),
        Err(RequestError::Unhandled)
    );
}

#[test]
fn get_list_outcomes() {
    let mut client = PocketBase::new("http://localhost:8090");
    let page = page_of(vec!["a".to_string(), "b".to_string()]);
    assert_eq!(
        client.collection("a").get_list::<String>().call(reply(200, "x"), Ok(page.clone())),
        Ok(page.clone())
    );
    let empty = page_of(vec![]);
    assert_eq!(
        client.collection("a").get_list::<String>().call(reply(200, "x"), Ok(empty.clone())),
        Ok(empty)
    );
    assert_eq!(
        client
            .collection("a")
            .get_list::<String>()
            .call(reply(200, "x"), Err("expected value".to_string())),
        Err(RequestError::ParseError("expected value".to_string()))
    );
    assert_eq!(
        client.collection("a").get_list::<String>().call(reply(401, "x"), Ok(page.clone())),
        Err(RequestError::Unauthorized)
    );
    assert_eq!(
        client.collection("a").get_list::<String>().call(reply(403, "x"), Ok(page.clone())),
        Err(RequestError::Forbidden)
    );
    assert_eq!(
        client.collection("a").get_list::<String>().call(reply(404, "x"), Ok(page.clone())),
        Err(RequestError::NotFound)
    );
    assert_eq!(
        client.collection("a").get_list::<String>().call(reply(400, "x"), Ok(page.clone())),
        Err(RequestError::Unhandled)
    );
    assert_eq!(
        client
            .collection("a")
            .get_list::<String>()
            .call(failure(true, false, "x"), Err("no body".to_string())),
        Err(RequestError::Unreachable)
    );
}

#[test]
fn get_first_list_item_gives_the_first_record() {
    let mut client = PocketBase::new("http://localhost:8090");
    let page = page_of(vec!["first".to_string(), "second".to_string()]);
    assert_eq!(
        client.collection("a").get_first_list_item::<String>().call(reply(200, "x"), Ok(page)),
        Ok("first".to_string())
    );
    let single = page_of(vec!["only".to_string()]);
    assert_eq!(
        client.collection("a").get_first_list_item::<String>().call(reply(200, "x"), Ok(single)),
        Ok("only".to_string())
    );
}

#[test]
fn get_first_list_item_on_an_empty_list_is_an_error() {
    let mut client = PocketBase::new("http://localhost:8090");
    assert_eq!(
        client
            .collection("a")
            .get_first_list_item::<String>()
            .call(reply(200, "{\"items\":[]}"), Ok(page_of(vec![]))),
        Err(RequestError::ParseError("No record found.".to_string()))
    );
}

#[test]
fn get_first_list_item_errors() {
    let mut client = PocketBase::new("http://localhost:8090");
    let page = page_of(vec!["first".to_string()]);
    assert_eq!(
        client
            .collection("a")
            .get_first_list_item::<String>()
            .call(reply(200, "x"), Err("bad shape".to_string())),
        Err(RequestError::ParseError("bad shape".to_string()))
    );
    assert_eq!(
        client
            .collection("a")
            .get_first_list_item::<String>()
            .call(reply(401, "x"), Ok(page.clone())),
        Err(RequestError::Unauthorized)
    );
    assert_eq!(
        client
            .collection("a")
            .get_first_list_item::<String>()
            .call(reply(403, "x"), Ok(page.clone())),
        Err(RequestError::Forbidden)
    );
    assert_eq!(
        client
            .collection("a")
            .get_first_list_item::<String>()
            .call(reply(404, "x"), Ok(page.clone())),
        Err(RequestError::NotFound)
    );
    assert_eq!(
        client
            .collection("a")
            .get_first_list_item::<String>()
            .call(reply(500, "x"), Ok(page.clone())),
        Err(RequestError::Unhandled)
    );
    assert_eq!(
        client
            .collection("a")
            .get_first_list_item::<String>()
            .call(failure(false, false, "x"), Ok(page.clone())),
        Err(RequestError::Unhandled)
    );
    assert_eq!(
        client
            .collection("a")
            .get_first_list_item::<String>()
            .call(failure(false, true, "x"), Ok(page)),
        Err(RequestError::Unreachable)
    );
}
