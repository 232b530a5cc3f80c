//! Executor behaviour: response checking, error classification, the
//! ignoring executor, and the paging loop, driven by a scripted transport.

use std::cell::RefCell;

use teamdeck::client::{Client, Request, Response, RestClient};
use teamdeck::endpoint::Endpoint;
use teamdeck::error::{ApiError, BodyError};
use teamdeck::ignore::ignore;
use teamdeck::json::{DecodeError, FromJson, JsonValue};
use teamdeck::paged::{paged, Pageable, Pagination};
use teamdeck::params::QueryParams;
use teamdeck::query::Query;

#[derive(Debug)]
struct NoFail;

/// A transport that answers each request from a scripted queue, recording
/// the URLs it was asked for.
struct ScriptedClient {
    urls: RefCell<Vec<String>>,
    responses: RefCell<Vec<(u16, Vec<u8>)>>,
}

impl ScriptedClient {
    fn answering(responses: Vec<(u16, &str)>) -> Self {
        ScriptedClient {
            urls: RefCell::new(Vec::new()),
            responses: RefCell::new(
                responses.into_iter().map(|(s, b)| (s, b.as_bytes().to_vec())).collect(),
            ),
        }
    }

    fn urls(&self) -> Vec<String> {
        self.urls.borrow().clone()
    }
}

impl RestClient for ScriptedClient {
    type Error = NoFail;

    fn rest_endpoint(&self, endpoint: &str) -> Result<String, ApiError<NoFail>> {
        Ok(format!("https://example.test/{}", endpoint))
    }
}

impl Client for ScriptedClient {
    fn rest(&self, request: &Request, _body: &Vec<u8>) -> Result<Response, ApiError<NoFail>> {
        self.urls.borrow_mut().push(request.url.clone());
        let mut queued = self.responses.borrow_mut();
        assert!(!queued.is_empty(), "more requests than scripted responses");
        let (status, body) = queued.remove(0);
        Ok(Response { status, body })
    }
}

struct Dummy;

impl Endpoint for Dummy {
    fn url_spec(&self) -> vstd::prelude::Seq<char> {
        panic!()
    }

    fn method_spec(&self) -> teamdeck::client::Method {
        panic!()
    }

    fn url(&self) -> String {
        "dummy".to_string()
    }

    fn method(&self) -> teamdeck::client::Method {
        teamdeck::client::Method::Get
    }

    fn body(&self) -> Result<Option<Vec<u8>>, BodyError> {
        Ok(None)
    }

    fn headers(&self) -> Vec<(String, String)> {
        Vec::new()
    }

    fn parameters(&self) -> QueryParams {
        QueryParams::new()
    }
}

struct PagedDummy;

impl Endpoint for PagedDummy {
    fn url_spec(&self) -> vstd::prelude::Seq<char> {
        panic!()
    }

    fn method_spec(&self) -> teamdeck::client::Method {
        panic!()
    }

    fn url(&self) -> String {
        "paged_dummy".to_string()
    }

    fn method(&self) -> teamdeck::client::Method {
        teamdeck::client::Method::Get
    }

    fn body(&self) -> Result<Option<Vec<u8>>, BodyError> {
        Ok(None)
    }

    fn headers(&self) -> Vec<(String, String)> {
        Vec::new()
    }

    fn parameters(&self) -> QueryParams {
        QueryParams::new()
    }
}

impl Pageable for PagedDummy {}

#[derive(Debug, PartialEq)]
struct DummyResult {
    value: u8,
}

impl FromJson for DummyResult {
    fn decodes(_v: JsonValue, _r: Self) -> bool {
        panic!()
    }

    fn type_label_spec() -> vstd::prelude::Seq<char> {
        panic!()
    }

    fn from_json(v: &JsonValue) -> Result<Self, DecodeError> {
        match v.get("value") {
            Some(JsonValue::Number(text)) => match text.parse::<u8>() {
                Ok(value) => Ok(DummyResult { value }),
                Err(_) => Err(DecodeError { message: "value does not fit a byte".to_string() }),
            },
            _ => Err(DecodeError { message: "expected an object with a numeric value".to_string() }),
        }
    }

    fn type_label() -> String {
        "DummyResult".to_string()
    }
}

#[test]
fn test_non_json_response() {
    let client = ScriptedClient::answering(vec![(200, "not json")]);

    ignore(Dummy).query(&client).unwrap()
}

#[test]
fn ignore_test_teamdeck_error_bad_json() {
    let client = ScriptedClient::answering(vec![(404, "")]);

    let err = ignore(Dummy).query(&client).unwrap_err();
    if let ApiError::TeamdeckService { status, .. } = err {
        assert_eq!(status, 404);
    } else {
        panic!("unexpected error: {:?}", err);
    }
}

#[test]
fn ignore_test_teamdeck_error_detection() {
    let client =
        ScriptedClient::answering(vec![(404, "{\"message\": \"dummy error message\"}")]);

    let err = ignore(Dummy).query(&client).unwrap_err();
    if let ApiError::Teamdeck { msg } = err {
        assert_eq!(msg, "dummy error message");
    } else {
        panic!("unexpected error: {:?}", err);
    }
}

#[test]
fn ignore_test_teamdeck_error_detection_legacy() {
    let client = ScriptedClient::answering(vec![(404, "{\"error\": \"dummy error message\"}")]);

    let err = ignore(Dummy).query(&client).unwrap_err();
    if let ApiError::Teamdeck { msg } = err {
        assert_eq!(msg, "dummy error message");
    } else {
        panic!("unexpected error: {:?}", err);
    }
}

#[test]
fn ignore_test_teamdeck_error_detection_unknown() {
    let client = ScriptedClient::answering(vec![(404, "{\"bogus\": \"dummy error message\"}")]);

    let err = ignore(Dummy).query(&client).unwrap_err();
    if let ApiError::TeamdeckUnrecognized { obj } = err {
        let expected = JsonValue::Object(vec![(
            "bogus".to_string(),
            JsonValue::Text("dummy error message".to_string()),
        )]);
        assert_eq!(obj, expected);
    } else {
        panic!("unexpected error: {:?}", err);
    }
}

#[test]
fn error_object_under_message_key_is_preserved() {
    let client = ScriptedClient::answering(vec![(404, "{\"message\": {\"code\": 7}}")]);

    let err = ignore(Dummy).query(&client).unwrap_err();
    if let ApiError::TeamdeckObject { obj } = err {
        let expected = JsonValue::Object(vec![(
            "code".to_string(),
            JsonValue::Number("7".to_string()),
        )]);
        assert_eq!(obj, expected);
    } else {
        panic!("unexpected error: {:?}", err);
    }
}

#[test]
fn single_query_returns_deserialized_body() {
    let client = ScriptedClient::answering(vec![(200, "{\"value\": 17}")]);

    let res: DummyResult = Dummy.query(&client).unwrap();
    assert_eq!(res, DummyResult { value: 17 });
    // A descriptor with no parameters issues a request with an empty query
    // string.
    assert_eq!(client.urls(), vec!["https://example.test/dummy".to_string()]);
}

#[test]
fn single_query_mismatched_shape_is_a_data_type_error() {
    let client = ScriptedClient::answering(vec![(200, "{\"other\": true}")]);

    let res: Result<DummyResult, _> = Dummy.query(&client);
    let err = res.unwrap_err();
    if let ApiError::DataType { typename, source } = err {
        assert_eq!(typename, "DummyResult");
        assert_eq!(source, "expected an object with a numeric value");
    } else {
        panic!("unexpected error: {:?}", err);
    }
}

#[test]
fn unparsable_body_is_a_service_error_even_on_success_status() {
    let client = ScriptedClient::answering(vec![(200, "not json")]);

    let res: Result<DummyResult, _> = Dummy.query(&client);
    let err = res.unwrap_err();
    if let ApiError::TeamdeckService { status, data } = err {
        assert_eq!(status, 200);
        assert_eq!(data, b"not json".to_vec());
    } else {
        panic!("unexpected error: {:?}", err);
    }
}

struct FailingClient;

impl RestClient for FailingClient {
    type Error = String;

    fn rest_endpoint(&self, _endpoint: &str) -> Result<String, ApiError<String>> {
        Err(ApiError::Client { source: "no network".to_string() })
    }
}

impl Client for FailingClient {
    fn rest(&self, _request: &Request, _body: &Vec<u8>) -> Result<Response, ApiError<String>> {
        unreachable!()
    }
}

#[test]
fn client_errors_propagate_untouched() {
    let res: Result<DummyResult, _> = Dummy.query(&FailingClient);
    let err = res.unwrap_err();
    if let ApiError::Client { source } = err {
        assert_eq!(source, "no network");
    } else {
        panic!("unexpected error: {:?}", err);
    }
}

#[test]
fn test_teamdeck_non_json_response() {
    let client = ScriptedClient::answering(vec![(200, "not json")]);

    let res: Result<Vec<DummyResult>, _> = paged(PagedDummy, Pagination::All).query(&client);

    assert_eq!(client.urls(), vec!["https://example.test/paged_dummy?page=0".to_string()]);

    let err = res.unwrap_err();
    if let ApiError::TeamdeckService { status, .. } = err {
        assert_eq!(status, 200);
    } else {
        panic!("unexpected error: {:?}", err);
    }
}

#[test]
fn paged_test_teamdeck_error_bad_json() {
    let client = ScriptedClient::answering(vec![(404, "")]);

    let res: Result<Vec<DummyResult>, _> = paged(PagedDummy, Pagination::All).query(&client);

    let err = res.unwrap_err();
    if let ApiError::TeamdeckService { status, .. } = err {
        assert_eq!(status, 404);
    } else {
        panic!("unexpected error: {:?}", err);
    }
}

#[test]
fn paged_test_teamdeck_error_detection() {
    let client =
        ScriptedClient::answering(vec![(404, "{\"message\": \"dummy error message\"}")]);

    let res: Result<Vec<DummyResult>, _> = paged(PagedDummy, Pagination::All).query(&client);

    let err = res.unwrap_err();
    if let ApiError::Teamdeck { msg } = err {
        assert_eq!(msg, "dummy error message");
    } else {
        panic!("unexpected error: {:?}", err);
    }
}

#[test]
fn paged_test_teamdeck_error_detection_legacy() {
    let client = ScriptedClient::answering(vec![(404, "{\"error\": \"dummy error message\"}")]);

    let res: Result<Vec<DummyResult>, _> = paged(PagedDummy, Pagination::All).query(&client);

    let err = res.unwrap_err();
    if let ApiError::Teamdeck { msg } = err {
        assert_eq!(msg, "dummy error message");
    } else {
        panic!("unexpected error: {:?}", err);
    }
}

#[test]
fn paged_test_teamdeck_error_detection_unknown() {
    let client = ScriptedClient::answering(vec![(404, "{\"bogus\": \"dummy error message\"}")]);

    let res: Result<Vec<DummyResult>, _> = paged(PagedDummy, Pagination::All).query(&client);

    let err = res.unwrap_err();
    if let ApiError::TeamdeckUnrecognized { obj } = err {
        let expected = JsonValue::Object(vec![(
            "bogus".to_string(),
            JsonValue::Text("dummy error message".to_string()),
        )]);
        assert_eq!(obj, expected);
    } else {
        panic!("unexpected error: {:?}", err);
    }
}

fn page_body(values: std::ops::Range<u32>) -> String {
    let mut body = String::from("[");
    let mut first = true;
    for v in values {
        if !first {
            body.push(',');
        }
        first = false;
        body.push_str(&format!("{{\"value\": {}}}", v));
    }
    body.push(']');
    body
}

#[test]
fn test_pagination_all() {
    // 256 items at a page size of 10: 26 pages, the last holding 6 items.
    let mut bodies: Vec<String> = Vec::new();
    for page in 0..26u32 {
        let start = page * 10;
        let end = if page == 25 { 256 } else { start + 10 };
        bodies.push(page_body(start..end));
    }
    assert_eq!(bodies.len(), 26);
    let client =
        ScriptedClient::answering(bodies.iter().map(|b| (200, b.as_str())).collect());

    let res: Vec<DummyResult> = paged(PagedDummy, Pagination::All).query(&client).unwrap();

    let expected_urls: Vec<String> = (0..26)
        .map(|p| format!("https://example.test/paged_dummy?page={}", p))
        .collect();
    assert_eq!(client.urls(), expected_urls);

    assert_eq!(res.len(), 256);
    for (i, value) in res.iter().enumerate() {
        assert_eq!(value.value, i as u8);
    }
}

#[test]
fn empty_first_page_terminates_immediately() {
    let client = ScriptedClient::answering(vec![(200, "[]")]);

    let res: Vec<DummyResult> = paged(PagedDummy, Pagination::All).query(&client).unwrap();

    assert_eq!(res, Vec::<DummyResult>::new());
    assert_eq!(client.urls(), vec!["https://example.test/paged_dummy?page=0".to_string()]);
}
