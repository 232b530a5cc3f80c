//! The requests endpoints issue: URLs, query strings, headers and bodies,
//! observed through a recording transport.

use std::cell::RefCell;

use teamdeck::bookings::{Booking, Bookings, BookingsExpand, BookingsSortBy};
use teamdeck::client::{Client, Request, Response, RestClient};
use teamdeck::dates::Date;
use teamdeck::error::ApiError;
use teamdeck::ignore::ignore;
use teamdeck::query::Query;
use teamdeck::resources::{Resource, Resources, ResourcesExpand, ResourcesSortBy};
use teamdeck::sort_by::SortBy;
use teamdeck::time_entries::{CreateTimeEntry, DeleteTimeEntry, UpdateTimeEntry};
use teamdeck::vacations::{VacationReason, VacationReasons, VacationReasonsSortBy};

#[derive(Debug)]
struct NoFail;

/// A transport that records every request and answers from a queue; once
/// the queue is empty it answers 200 with an empty JSON object.
struct RecordingClient {
    requests: RefCell<Vec<(String, String, Vec<(String, String)>, Vec<u8>)>>,
    responses: RefCell<Vec<(u16, Vec<u8>)>>,
}

impl RecordingClient {
    fn new() -> Self {
        RecordingClient { requests: RefCell::new(Vec::new()), responses: RefCell::new(Vec::new()) }
    }

    fn urls(&self) -> Vec<String> {
        self.requests.borrow().iter().map(|r| r.1.clone()).collect()
    }

    fn methods(&self) -> Vec<String> {
        self.requests.borrow().iter().map(|r| r.0.clone()).collect()
    }

    fn headers_of_first(&self) -> Vec<(String, String)> {
        self.requests.borrow()[0].2.clone()
    }

    fn body_of_first(&self) -> Vec<u8> {
        self.requests.borrow()[0].3.clone()
    }
}

impl RestClient for RecordingClient {
    type Error = NoFail;

    fn rest_endpoint(&self, endpoint: &str) -> Result<String, ApiError<NoFail>> {
        Ok(format!("https://example.test/{}", endpoint))
    }
}

impl Client for RecordingClient {
    fn rest(&self, request: &Request, body: &Vec<u8>) -> Result<Response, ApiError<NoFail>> {
        self.requests.borrow_mut().push((
            request.method.as_str().to_string(),
            request.url.clone(),
            request.headers.clone(),
            body.clone(),
        ));
        let mut queued = self.responses.borrow_mut();
        if queued.is_empty() {
            Ok(Response { status: 200, body: b"{}".to_vec() })
        } else {
            let (status, body) = queued.remove(0);
            Ok(Response { status, body })
        }
    }
}

#[test]
fn bookings_endpoint() {
    let client = RecordingClient::new();
    ignore(Bookings::builder().build().unwrap()).query(&client).unwrap();
    assert_eq!(client.urls(), vec!["https://example.test/bookings".to_string()]);
    assert_eq!(client.methods(), vec!["GET".to_string()]);
}

#[test]
fn bookings_sort_ascending() {
    let client = RecordingClient::new();
    ignore(Bookings::builder().sort(SortBy::Asc(BookingsSortBy::StartDate)).build().unwrap())
        .query(&client)
        .unwrap();
    assert_eq!(client.urls(), vec!["https://example.test/bookings?sort=start_date".to_string()]);
}

#[test]
fn bookings_sort_descending() {
    let client = RecordingClient::new();
    ignore(Bookings::builder().sort(SortBy::Desc(BookingsSortBy::StartDate)).build().unwrap())
        .query(&client)
        .unwrap();
    assert_eq!(client.urls(), vec!["https://example.test/bookings?sort=-start_date".to_string()]);
}

#[test]
fn default_sort_by_is_start_date() {
    let client = RecordingClient::new();
    ignore(Bookings::builder().sort(SortBy::Asc(Default::default())).build().unwrap())
        .query(&client)
        .unwrap();
    assert_eq!(client.urls(), vec!["https://example.test/bookings?sort=start_date".to_string()]);
}

#[test]
fn bookings_expand() {
    let client = RecordingClient::new();
    ignore(Bookings::builder().expand(BookingsExpand::Tags).build().unwrap())
        .query(&client)
        .unwrap();
    assert_eq!(client.urls(), vec!["https://example.test/bookings?expand=tags".to_string()]);
}

#[test]
fn many_endpoint_page() {
    let client = RecordingClient::new();
    ignore(Bookings::builder().page(2).build().unwrap()).query(&client).unwrap();
    assert_eq!(client.urls(), vec!["https://example.test/bookings?page=2".to_string()]);
}

#[test]
fn endpoint_date() {
    let client = RecordingClient::new();
    ignore(Bookings::builder().date(Date::from_ymd(2023, 1, 7).unwrap()).build().unwrap())
        .query(&client)
        .unwrap();
    assert_eq!(client.urls(), vec!["https://example.test/bookings?date=2023-01-07".to_string()]);
}

#[test]
fn booking() {
    let client = RecordingClient::new();
    ignore(Booking::builder().id(1).build().unwrap()).query(&client).unwrap();
    assert_eq!(client.urls(), vec!["https://example.test/bookings/1".to_string()]);
}

#[test]
fn booking_expand() {
    let client = RecordingClient::new();
    ignore(Booking::builder().id(1).expand(Some(BookingsExpand::Tags)).build().unwrap())
        .query(&client)
        .unwrap();
    assert_eq!(client.urls(), vec!["https://example.test/bookings/1?expand=tags".to_string()]);
}

#[test]
fn single_resource() {
    let client = RecordingClient::new();
    ignore(Resource::builder().id(1).build().unwrap()).query(&client).unwrap();
    assert_eq!(client.urls(), vec!["https://example.test/resources/1".to_string()]);
}

#[test]
fn single_resource_expand() {
    let client = RecordingClient::new();
    ignore(
        Resource::builder().id(1).expand(Some(ResourcesExpand::CustomFieldValues)).build().unwrap(),
    )
    .query(&client)
    .unwrap();
    assert_eq!(
        client.urls(),
        vec!["https://example.test/resources/1?expand=custom_field_values".to_string()]
    );
}

#[test]
fn resource_resource() {
    let client = RecordingClient::new();
    ignore(Resource::builder().id(1).build().unwrap()).query(&client).unwrap();
    assert_eq!(client.methods(), vec!["GET".to_string()]);
    assert_eq!(client.urls(), vec!["https://example.test/resources/1".to_string()]);
}

#[test]
fn resource_resource_expand() {
    let client = RecordingClient::new();
    ignore(
        Resource::builder().id(1).expand(Some(ResourcesExpand::CustomFieldValues)).build().unwrap(),
    )
    .query(&client)
    .unwrap();
    assert_eq!(client.methods(), vec!["GET".to_string()]);
    assert_eq!(
        client.urls(),
        vec!["https://example.test/resources/1?expand=custom_field_values".to_string()]
    );
}

#[test]
fn resources_endpoint() {
    let client = RecordingClient::new();
    ignore(Resources::builder().build().unwrap()).query(&client).unwrap();
    assert_eq!(client.urls(), vec!["https://example.test/resources".to_string()]);
}

#[test]
fn resources_endpoint_sort_ascending() {
    let client = RecordingClient::new();
    ignore(Resources::builder().sort(SortBy::Asc(ResourcesSortBy::Email)).build().unwrap())
        .query(&client)
        .unwrap();
    assert_eq!(client.urls(), vec!["https://example.test/resources?sort=email".to_string()]);
}

#[test]
fn resources_endpoint_sort_descending() {
    let client = RecordingClient::new();
    ignore(Resources::builder().sort(SortBy::Desc(ResourcesSortBy::Email)).build().unwrap())
        .query(&client)
        .unwrap();
    assert_eq!(client.urls(), vec!["https://example.test/resources?sort=-email".to_string()]);
}

#[test]
fn endpoint_active_true() {
    let client = RecordingClient::new();
    ignore(Resources::builder().active(true).build().unwrap()).query(&client).unwrap();
    assert_eq!(client.urls(), vec!["https://example.test/resources?active=1".to_string()]);
}

#[test]
fn endpoint_active_default() {
    let client = RecordingClient::new();
    ignore(Resources::builder().build().unwrap()).query(&client).unwrap();
    assert_eq!(client.urls(), vec!["https://example.test/resources".to_string()]);
}

#[test]
fn endpoint_active_false() {
    let client = RecordingClient::new();
    ignore(Resources::builder().active(false).build().unwrap()).query(&client).unwrap();
    assert_eq!(client.urls(), vec!["https://example.test/resources?active=0".to_string()]);
}

#[test]
fn resources_endpoint_page() {
    let client = RecordingClient::new();
    ignore(Resources::builder().page(2).build().unwrap()).query(&client).unwrap();
    assert_eq!(client.urls(), vec!["https://example.test/resources?page=2".to_string()]);
}

#[test]
fn resources_endpoint_name() {
    let client = RecordingClient::new();
    ignore(Resources::builder().name("test").build().unwrap()).query(&client).unwrap();
    assert_eq!(client.urls(), vec!["https://example.test/resources?name=test".to_string()]);
}

#[test]
fn endpoint_email() {
    let client = RecordingClient::new();
    ignore(Resources::builder().email("test@test.com").build().unwrap()).query(&client).unwrap();
    assert_eq!(
        client.urls(),
        vec!["https://example.test/resources?email=test%40test.com".to_string()]
    );
}

#[test]
fn endpoint_expand() {
    let client = RecordingClient::new();
    ignore(Resources::builder().expand(ResourcesExpand::CustomFieldValues).build().unwrap())
        .query(&client)
        .unwrap();
    assert_eq!(
        client.urls(),
        vec!["https://example.test/resources?expand=custom_field_values".to_string()]
    );
}

#[test]
fn many_endpoint() {
    let client = RecordingClient::new();
    ignore(VacationReasons::builder().build().unwrap()).query(&client).unwrap();
    assert_eq!(client.urls(), vec!["https://example.test/vacation-reasons".to_string()]);
}

#[test]
fn many_endpoint_sort_ascending() {
    let client = RecordingClient::new();
    ignore(VacationReasons::builder().sort(SortBy::Asc(VacationReasonsSortBy::Name)).build().unwrap())
        .query(&client)
        .unwrap();
    assert_eq!(client.urls(), vec!["https://example.test/vacation-reasons?sort=name".to_string()]);
}

#[test]
fn many_endpoint_sort_descending() {
    let client = RecordingClient::new();
    ignore(
        VacationReasons::builder().sort(SortBy::Desc(VacationReasonsSortBy::Name)).build().unwrap(),
    )
    .query(&client)
    .unwrap();
    assert_eq!(client.urls(), vec!["https://example.test/vacation-reasons?sort=-name".to_string()]);
}

#[test]
fn endpoint_page() {
    let client = RecordingClient::new();
    ignore(VacationReasons::builder().page(2).build().unwrap()).query(&client).unwrap();
    assert_eq!(client.urls(), vec!["https://example.test/vacation-reasons?page=2".to_string()]);
}

#[test]
fn endpoint_name() {
    let client = RecordingClient::new();
    ignore(VacationReasons::builder().name("test").build().unwrap()).query(&client).unwrap();
    assert_eq!(client.urls(), vec!["https://example.test/vacation-reasons?name=test".to_string()]);
}

#[test]
fn endpoint_archived() {
    let client = RecordingClient::new();
    ignore(VacationReasons::builder().archived(true).build().unwrap()).query(&client).unwrap();
    assert_eq!(
        client.urls(),
        vec!["https://example.test/vacation-reasons?archived=1".to_string()]
    );
}

#[test]
fn vacation_id() {
    let client = RecordingClient::new();
    ignore(VacationReason::builder().id(1).build().unwrap()).query(&client).unwrap();
    assert_eq!(client.urls(), vec!["https://example.test/vacation-reasons/1".to_string()]);
}

#[test]
fn delete_time_entry() {
    let client = RecordingClient::new();
    ignore(DeleteTimeEntry::builder().id(1).build().unwrap()).query(&client).unwrap();
    assert_eq!(client.urls(), vec!["https://example.test/time-entries/1".to_string()]);
    assert_eq!(client.methods(), vec!["DELETE".to_string()]);
}

#[test]
fn delete_disable_notifications() {
    let client = RecordingClient::new();
    ignore(DeleteTimeEntry::builder().id(1).disable_notifications(Some(true)).build().unwrap())
        .query(&client)
        .unwrap();
    let name = teamdeck::header::disable_notification_header_name().to_string();
    assert!(client.headers_of_first().contains(&(name, "true".to_string())));
}

#[test]
fn fixed_headers_are_always_sent() {
    let client = RecordingClient::new();
    ignore(Resources::builder().build().unwrap()).query(&client).unwrap();
    let headers = client.headers_of_first();
    assert_eq!(headers[0], ("Accept".to_string(), "application/json".to_string()));
    assert_eq!(headers[1], ("Content-Type".to_string(), "application/json".to_string()));
}

#[test]
fn create_time_entry_request() {
    let client = RecordingClient::new();
    ignore(
        CreateTimeEntry::builder()
            .resource_id(1)
            .project_id(2)
            .minutes(3)
            .weekend_booking(Some(true))
            .holidays_booking(Some(true))
            .vacations_booking(Some(true))
            .description(Some("description".to_string()))
            .external_id(Some("external_id".to_string()))
            .start_date(Date::from_ymd(2020, 1, 1).unwrap())
            .end_date(Date::from_ymd(2020, 1, 2).unwrap())
            .creator_resource_id(Some(4))
            .editor_resource_id(Some(5))
            .build()
            .unwrap(),
    )
    .query(&client)
    .unwrap();

    assert_eq!(client.urls(), vec!["https://example.test/time-entries".to_string()]);
    assert_eq!(client.methods(), vec!["POST".to_string()]);

    let sent: serde_json::Value = serde_json::from_slice(&client.body_of_first()).unwrap();
    let expected: serde_json::Value = serde_json::from_str(
        r#"{
            "resource_id": 1,
            "project_id": 2,
            "minutes": 3,
            "weekend_booking": true,
            "holidays_booking": true,
            "vacations_booking": true,
            "description": "description",
            "external_id": "external_id",
            "start_date": "2020-01-01",
            "end_date": "2020-01-02",
            "creator_resource_id": 4,
            "editor_resource_id": 5
        }"#,
    )
    .unwrap();
    assert_eq!(sent, expected);
}

#[test]
fn create_time_entry_minimal_request() {
    let client = RecordingClient::new();
    ignore(
        CreateTimeEntry::builder()
            .resource_id(1)
            .project_id(2)
            .minutes(3)
            .start_date(Date::from_ymd(2020, 1, 1).unwrap())
            .end_date(Date::from_ymd(2020, 1, 2).unwrap())
            .build()
            .unwrap(),
    )
    .query(&client)
    .unwrap();

    let sent: serde_json::Value = serde_json::from_slice(&client.body_of_first()).unwrap();
    let expected: serde_json::Value = serde_json::from_str(
        r#"{
            "resource_id": 1,
            "project_id": 2,
            "minutes": 3,
            "start_date": "2020-01-01",
            "end_date": "2020-01-02"
        }"#,
    )
    .unwrap();
    assert_eq!(sent, expected);
}

#[test]
fn create_disable_notifications() {
    let client = RecordingClient::new();
    ignore(
        CreateTimeEntry::builder()
            .resource_id(1)
            .project_id(2)
            .minutes(3)
            .start_date(Date::from_ymd(2020, 1, 1).unwrap())
            .end_date(Date::from_ymd(2020, 1, 2).unwrap())
            .disable_notifications(Some(true))
            .build()
            .unwrap(),
    )
    .query(&client)
    .unwrap();
    assert!(client
        .headers_of_first()
        .contains(&("X-TD-DISABLE-NOTIFICATIONS".to_string(), "true".to_string())));
}

#[test]
fn update_time_entry_request() {
    let client = RecordingClient::new();
    ignore(
        UpdateTimeEntry::builder()
            .id(0)
            .resource_id(1)
            .project_id(2)
            .minutes(3)
            .weekend_booking(Some(true))
            .holidays_booking(Some(true))
            .vacations_booking(Some(true))
            .description(Some("description".to_string()))
            .external_id(Some("external_id".to_string()))
            .start_date(Date::from_ymd(2020, 1, 1).unwrap())
            .end_date(Date::from_ymd(2020, 1, 2).unwrap())
            .creator_resource_id(Some(4))
            .editor_resource_id(Some(5))
            .build()
            .unwrap(),
    )
    .query(&client)
    .unwrap();

    assert_eq!(client.urls(), vec!["https://example.test/time-entries/0".to_string()]);
    assert_eq!(client.methods(), vec!["PUT".to_string()]);

    let sent: serde_json::Value = serde_json::from_slice(&client.body_of_first()).unwrap();
    let expected: serde_json::Value = serde_json::from_str(
        r#"{
            "resource_id": 1,
            "project_id": 2,
            "minutes": 3,
            "weekend_booking": true,
            "holidays_booking": true,
            "vacations_booking": true,
            "description": "description",
            "external_id": "external_id",
            "start_date": "2020-01-01",
            "end_date": "2020-01-02",
            "creator_resource_id": 4,
            "editor_resource_id": 5
        }"#,
    )
    .unwrap();
    assert_eq!(sent, expected);
}

#[test]
fn update_time_entry_minimal_request() {
    let client = RecordingClient::new();
    ignore(
        UpdateTimeEntry::builder()
            .id(0)
            .resource_id(1)
            .project_id(2)
            .minutes(3)
            .start_date(Date::from_ymd(2020, 1, 1).unwrap())
            .end_date(Date::from_ymd(2020, 1, 2).unwrap())
            .build()
            .unwrap(),
    )
    .query(&client)
    .unwrap();

    assert_eq!(client.urls(), vec!["https://example.test/time-entries/0".to_string()]);

    let sent: serde_json::Value = serde_json::from_slice(&client.body_of_first()).unwrap();
    let expected: serde_json::Value = serde_json::from_str(
        r#"{
            "resource_id": 1,
            "project_id": 2,
            "minutes": 3,
            "start_date": "2020-01-01",
            "end_date": "2020-01-02"
        }"#,
    )
    .unwrap();
    assert_eq!(sent, expected);
}
