//! Builder behaviour: defaults, required fields and field names.

use teamdeck::bookings::{Booking, Bookings};
use teamdeck::dates::Date;
use teamdeck::resources::{Resources, ResourcesSortBy};
use teamdeck::time_entries::{CreateTimeEntry, DeleteTimeEntry, UpdateTimeEntry};
use teamdeck::vacations::VacationReasonsSortBy;

#[test]
fn resources_sort_by_default() {
    assert_eq!(ResourcesSortBy::default(), ResourcesSortBy::Email);
}

#[test]
fn resources_order_by_as_str() {
    let items = &[
        (ResourcesSortBy::Active, "active"),
        (ResourcesSortBy::Email, "email"),
        (ResourcesSortBy::Name, "name"),
        (ResourcesSortBy::Role, "role"),
    ];

    for (i, s) in items {
        assert_eq!(i.as_str(), *s);
    }
}

#[test]
fn resources_defaults_are_sufficient() {
    Resources::builder().build().unwrap();
}

#[test]
fn many_sort_by_default() {
    assert_eq!(VacationReasonsSortBy::default(), VacationReasonsSortBy::Name);
}

#[test]
fn many_order_by_as_str() {
    let items = &[
        (VacationReasonsSortBy::Archived, "archived"),
        (VacationReasonsSortBy::Color, "color"),
        (VacationReasonsSortBy::Name, "name"),
        (VacationReasonsSortBy::Payable, "payable"),
        (VacationReasonsSortBy::Id, "id"),
    ];

    for (i, s) in items {
        assert_eq!(i.as_str(), *s);
    }
}

#[test]
fn many_defaults_are_sufficient() {
    teamdeck::vacations::VacationReasons::builder().build().unwrap();
}

#[test]
fn bookings_default_is_enough() {
    Bookings::builder().build().unwrap();
}

#[test]
fn booking_id_is_required() {
    assert!(Booking::builder().build().is_err());
}

#[test]
fn missing_id() {
    let endpoint = DeleteTimeEntry::builder().build();

    assert!(endpoint.is_err());
}

#[test]
fn create_missing_resource_id() {
    let endpoint = CreateTimeEntry::builder()
        .project_id(2)
        .minutes(3)
        .start_date(Date::from_ymd(2020, 1, 1).unwrap())
        .end_date(Date::from_ymd(2020, 1, 2).unwrap())
        .build();

    assert!(endpoint.is_err());
}

#[test]
fn create_missing_project_id() {
    let endpoint = CreateTimeEntry::builder()
        .resource_id(1)
        .minutes(3)
        .start_date(Date::from_ymd(2020, 1, 1).unwrap())
        .end_date(Date::from_ymd(2020, 1, 2).unwrap())
        .build();

    assert!(endpoint.is_err());
}

#[test]
fn create_missing_minutes() {
    let endpoint = CreateTimeEntry::builder()
        .resource_id(1)
        .project_id(2)
        .start_date(Date::from_ymd(2020, 1, 1).unwrap())
        .end_date(Date::from_ymd(2020, 1, 2).unwrap())
        .build();

    assert!(endpoint.is_err());
}

#[test]
fn create_missing_start_date() {
    let endpoint = CreateTimeEntry::builder()
        .resource_id(1)
        .project_id(2)
        .minutes(3)
        .end_date(Date::from_ymd(2020, 1, 2).unwrap())
        .build();

    assert!(endpoint.is_err());
}

#[test]
fn create_missing_end_date() {
    let endpoint = CreateTimeEntry::builder()
        .resource_id(1)
        .project_id(2)
        .minutes(3)
        .start_date(Date::from_ymd(2020, 1, 1).unwrap())
        .build();

    assert!(endpoint.is_err());
}

#[test]
fn missing_time_entry_id() {
    let endpoint = UpdateTimeEntry::builder()
        .resource_id(1)
        .project_id(2)
        .minutes(3)
        .start_date(Date::from_ymd(2020, 1, 1).unwrap())
        .end_date(Date::from_ymd(2020, 1, 2).unwrap())
        .build();

    assert!(endpoint.is_err());
}

#[test]
fn update_missing_resource_id() {
    let endpoint = UpdateTimeEntry::builder()
        .id(0)
        .project_id(2)
        .minutes(3)
        .start_date(Date::from_ymd(2020, 1, 1).unwrap())
        .end_date(Date::from_ymd(2020, 1, 2).unwrap())
        .build();

    assert!(endpoint.is_err());
}

#[test]
fn update_missing_project_id() {
    let endpoint = UpdateTimeEntry::builder()
        .id(0)
        .resource_id(1)
        .minutes(3)
        .start_date(Date::from_ymd(2020, 1, 1).unwrap())
        .end_date(Date::from_ymd(2020, 1, 2).unwrap())
        .build();

    assert!(endpoint.is_err());
}

#[test]
fn update_missing_minutes() {
    let endpoint = UpdateTimeEntry::builder()
        .id(0)
        .resource_id(1)
        .project_id(2)
        .start_date(Date::from_ymd(2020, 1, 1).unwrap())
        .end_date(Date::from_ymd(2020, 1, 2).unwrap())
        .build();

    assert!(endpoint.is_err());
}

#[test]
fn update_missing_start_date() {
    let endpoint = UpdateTimeEntry::builder()
        .id(0)
        .resource_id(1)
        .project_id(2)
        .minutes(3)
        .end_date(Date::from_ymd(2020, 1, 2).unwrap())
        .build();

    assert!(endpoint.is_err());
}

#[test]
fn update_missing_end_date() {
    let endpoint = UpdateTimeEntry::builder()
        .id(0)
        .resource_id(1)
        .project_id(2)
        .minutes(3)
        .start_date(Date::from_ymd(2020, 1, 1).unwrap())
        .build();

    assert!(endpoint.is_err());
}
