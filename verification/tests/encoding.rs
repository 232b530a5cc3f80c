//! Parameter-encoder behaviour: canonical text forms of typed values.

use teamdeck::dates::{Date, DateTimeUtc};
use teamdeck::ignore::ignore;
use teamdeck::query::Query;
use teamdeck::resources::Resources;
use teamdeck::params::ParamValue;
use teamdeck::sort_by::SortBy;

#[derive(Debug, Clone, Copy, PartialEq, Eq)]
enum DummySortBy {
    Name,
    Email,
    Active,
}

impl Default for DummySortBy {
    fn default() -> Self {
        Self::Name
    }
}

impl ParamValue for DummySortBy {
    fn value_spec(&self) -> vstd::prelude::Seq<char> {
        panic!()
    }

    fn as_value(&self) -> String {
        match self {
            Self::Name => "name".to_string(),
            Self::Email => "email".to_string(),
            Self::Active => "active".to_string(),
        }
    }
}

#[test]
fn ascending_inner_default_by_default() {
    let sort_by: SortBy<DummySortBy> = Default::default();
    assert_eq!(sort_by, SortBy::<DummySortBy>::Asc(DummySortBy::Name))
}

#[test]
fn returns_inner_param_value_when_ascending() {
    let sort_by_values = vec![
        SortBy::Asc(DummySortBy::Name),
        SortBy::Asc(DummySortBy::Email),
        SortBy::Asc(DummySortBy::Active),
    ];

    let expected_values: Vec<String> =
        vec!["name".to_string(), "email".to_string(), "active".to_string()];
    let param_values = sort_by_values.iter().map(|s| s.as_value()).collect::<Vec<_>>();

    assert_eq!(param_values, expected_values)
}

#[test]
fn adds_hyphen_prefix_to_inner_values_when_descending() {
    let sort_by_values = vec![
        SortBy::Desc(DummySortBy::Name),
        SortBy::Desc(DummySortBy::Email),
        SortBy::Desc(DummySortBy::Active),
    ];

    let expected_values: Vec<String> =
        vec!["-name".to_string(), "-email".to_string(), "-active".to_string()];
    let param_values = sort_by_values.iter().map(|s| s.as_value()).collect::<Vec<_>>();

    assert_eq!(param_values, expected_values)
}

#[test]
fn bool_encodes_as_single_bit() {
    assert_eq!(true.as_value(), "1");
    assert_eq!(false.as_value(), "0");
}

#[test]
fn integers_encode_as_plain_decimal() {
    assert_eq!(0u64.as_value(), "0");
    assert_eq!(7u64.as_value(), "7");
    assert_eq!(1234567890u64.as_value(), "1234567890");
    assert_eq!(u64::MAX.as_value(), "18446744073709551615");
}

#[test]
fn dates_encode_zero_padded() {
    let date = Date::from_ymd(2023, 1, 7).unwrap();
    assert_eq!(date.as_value(), "2023-01-07");
    let early = Date::from_ymd(33, 11, 30).unwrap();
    assert_eq!(early.as_value(), "0033-11-30");
}

#[test]
fn invalid_dates_are_refused() {
    assert!(Date::from_ymd(2023, 13, 1).is_none());
    assert!(Date::from_ymd(2023, 2, 29).is_none());
    assert!(Date::from_ymd(2024, 2, 29).is_some());
    assert!(Date::from_ymd(1900, 2, 29).is_none());
    assert!(Date::from_ymd(2000, 2, 29).is_some());
    assert!(Date::from_ymd(2023, 4, 31).is_none());
    assert!(Date::from_ymd(10000, 1, 1).is_none());
}

#[test]
fn datetimes_encode_as_rfc3339_seconds_utc() {
    let date = Date::from_ymd(2021, 6, 5).unwrap();
    let dt = DateTimeUtc::from_date_hms(date, 4, 30, 9).unwrap();
    assert_eq!(dt.as_value(), "2021-06-05T04:30:09Z");
    assert!(DateTimeUtc::from_date_hms(date, 24, 0, 0).is_none());
}

#[test]
fn lists_encode_as_one_comma_joined_value() {
    let items: Vec<u64> = vec![1, 2, 3];
    assert_eq!(items.as_value(), "1,2,3");
    let empty: Vec<u64> = vec![];
    assert_eq!(empty.as_value(), "");
    let single: Vec<u64> = vec![42];
    assert_eq!(single.as_value(), "42");
}

#[test]
fn texts_pass_through_unchanged() {
    assert_eq!("plain text ?&=".to_string().as_value(), "plain text ?&=");
}

struct UrlKeeper {
    urls: std::cell::RefCell<Vec<String>>,
}

impl teamdeck::client::RestClient for UrlKeeper {
    type Error = String;

    fn rest_endpoint(
        &self,
        endpoint: &str,
    ) -> Result<String, teamdeck::error::ApiError<String>> {
        Ok(format!("http://x/{}", endpoint))
    }
}

impl teamdeck::client::Client for UrlKeeper {
    fn rest(
        &self,
        request: &teamdeck::client::Request,
        _body: &Vec<u8>,
    ) -> Result<teamdeck::client::Response, teamdeck::error::ApiError<String>> {
        self.urls.borrow_mut().push(request.url.clone());
        Ok(teamdeck::client::Response { status: 200, body: b"{}".to_vec() })
    }
}

#[test]
fn spaces_and_reserved_characters_are_query_encoded() {
    let client = UrlKeeper { urls: std::cell::RefCell::new(Vec::new()) };
    ignore(Resources::builder().name("a b&c=d.e*f").build().unwrap()).query(&client).unwrap();
    assert_eq!(
        client.urls.borrow().clone(),
        vec!["http://x/resources?name=a+b%26c%3Dd.e*f".to_string()]
    );
}
