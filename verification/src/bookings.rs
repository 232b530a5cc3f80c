//! The bookings endpoints: one booking by id, the paged listing, and one booking tag.

use vstd::prelude::*;
use vstd::string::*;

use crate::client::Method;
use crate::endpoint::{no_body, no_headers, Endpoint};
use crate::error::{BodyError, BuilderError};
use crate::paged::Pageable;
use crate::params::{spec_opt_param, spec_u64_string, u64_string, ParamValue, QueryParams};
use crate::sort_by::SortBy;
use crate::dates::Date;

verus! {

/// The sortable fields of the bookings listing.
#[derive(Debug, Clone, Copy, PartialEq, Eq)]
pub enum BookingsSortBy {
    StartDate,
    EndDate,
    Minutes,
    ResourceId,
    ProjectId,
}

impl Default for BookingsSortBy {
    fn default() -> (r: Self)
        ensures
            r == BookingsSortBy::StartDate,
    {
        BookingsSortBy::StartDate
    }
}

impl BookingsSortBy {
    /// The field's query-string name.
    pub open spec fn spec_as_str(self) -> Seq<char> {
        match self {
            BookingsSortBy::StartDate => "start_date"@,
            BookingsSortBy::EndDate => "end_date"@,
            BookingsSortBy::Minutes => "minutes"@,
            BookingsSortBy::ResourceId => "resource_id"@,
            BookingsSortBy::ProjectId => "project_id"@,
        }
    }

    /// The field's query-string name.
    pub fn as_str(self) -> (r: &'static str)
        ensures
            r@ == self.spec_as_str(),
    {
        match self {
            BookingsSortBy::StartDate => "start_date",
            BookingsSortBy::EndDate => "end_date",
            BookingsSortBy::Minutes => "minutes",
            BookingsSortBy::ResourceId => "resource_id",
            BookingsSortBy::ProjectId => "project_id",
        }
    }
}

impl ParamValue for BookingsSortBy {
    open spec fn value_spec(&self) -> Seq<char> {
        self.spec_as_str()
    }

    fn as_value(&self) -> (r: String) {
        String::from_str(self.as_str())
    }
}

/// The expandable associations of a booking.
#[derive(Debug, Clone, Copy, PartialEq, Eq)]
pub enum BookingsExpand {
    Tags,
}

impl BookingsExpand {
    /// The association's query-string name.
    pub open spec fn spec_as_str(self) -> Seq<char> {
        match self {
            BookingsExpand::Tags => "tags"@,
        }
    }

    /// The association's query-string name.
    pub fn as_str(self) -> (r: &'static str)
        ensures
            r@ == self.spec_as_str(),
    {
        match self {
            BookingsExpand::Tags => "tags",
        }
    }
}

impl ParamValue for BookingsExpand {
    open spec fn value_spec(&self) -> Seq<char> {
        self.spec_as_str()
    }

    fn as_value(&self) -> (r: String) {
        String::from_str(self.as_str())
    }
}

/// The paged listing of bookings.
#[derive(Debug)]
pub struct Bookings {
    pub sort: Option<SortBy<BookingsSortBy>>,
    pub expand: Option<BookingsExpand>,
    pub page: Option<u64>,
    pub resource_id: Option<u64>,
    pub project_id: Option<u64>,
    pub external_id: Option<String>,
    pub start_date_from: Option<Date>,
    pub start_date_to: Option<Date>,
    pub end_date_from: Option<Date>,
    pub end_date_to: Option<Date>,
    pub date: Option<Date>,
}

/// A builder for [`Bookings`]; every field is optional.
#[derive(Debug)]
pub struct BookingsBuilder {
    pub sort: Option<SortBy<BookingsSortBy>>,
    pub expand: Option<BookingsExpand>,
    pub page: Option<u64>,
    pub resource_id: Option<u64>,
    pub project_id: Option<u64>,
    pub external_id: Option<String>,
    pub start_date_from: Option<Date>,
    pub start_date_to: Option<Date>,
    pub end_date_from: Option<Date>,
    pub end_date_to: Option<Date>,
    pub date: Option<Date>,
}

impl Bookings {
    /// Create a builder for the endpoint.
    pub fn builder() -> (r: BookingsBuilder)
        ensures
            r == (BookingsBuilder {
                sort: None,
                expand: None,
                page: None,
                resource_id: None,
                project_id: None,
                external_id: None,
                start_date_from: None,
                start_date_to: None,
                end_date_from: None,
                end_date_to: None,
                date: None
            }),
    {
        BookingsBuilder { sort: None, expand: None, page: None, resource_id: None, project_id: None, external_id: None, start_date_from: None, start_date_to: None, end_date_from: None, end_date_to: None, date: None }
    }
}

impl BookingsBuilder {
    /// Sort the listing.
    pub fn sort(self, sort: SortBy<BookingsSortBy>) -> (r: Self)
        ensures
            r == (BookingsBuilder { sort: Some(sort), ..self }),
    {
        BookingsBuilder { sort: Some(sort), ..self }
    }

    /// Expand an association.
    pub fn expand(self, expand: BookingsExpand) -> (r: Self)
        ensures
            r == (BookingsBuilder { expand: Some(expand), ..self }),
    {
        BookingsBuilder { expand: Some(expand), ..self }
    }

    /// Ask for one page.
    pub fn page(self, page: u64) -> (r: Self)
        ensures
            r == (BookingsBuilder { page: Some(page), ..self }),
    {
        BookingsBuilder { page: Some(page), ..self }
    }

    /// Filter by resource.
    pub fn resource_id(self, resource_id: u64) -> (r: Self)
        ensures
            r == (BookingsBuilder { resource_id: Some(resource_id), ..self }),
    {
        BookingsBuilder { resource_id: Some(resource_id), ..self }
    }

    /// Filter by project.
    pub fn project_id(self, project_id: u64) -> (r: Self)
        ensures
            r == (BookingsBuilder { project_id: Some(project_id), ..self }),
    {
        BookingsBuilder { project_id: Some(project_id), ..self }
    }

    /// Filter by external id.
    pub fn external_id(self, external_id: &str) -> (r: Self)
        ensures
            r matches (BookingsBuilder { external_id: Some(n), .. }) && n@ == external_id@ && r == (BookingsBuilder {
                external_id: r.external_id,
                ..self
            }),
    {
        BookingsBuilder { external_id: Some(String::from_str(external_id)), ..self }
    }

    /// Keep bookings starting on or after this date.
    pub fn start_date_from(self, start_date_from: Date) -> (r: Self)
        ensures
            r == (BookingsBuilder { start_date_from: Some(start_date_from), ..self }),
    {
        BookingsBuilder { start_date_from: Some(start_date_from), ..self }
    }

    /// Keep bookings starting on or before this date.
    pub fn start_date_to(self, start_date_to: Date) -> (r: Self)
        ensures
            r == (BookingsBuilder { start_date_to: Some(start_date_to), ..self }),
    {
        BookingsBuilder { start_date_to: Some(start_date_to), ..self }
    }

    /// Keep bookings ending on or after this date.
    pub fn end_date_from(self, end_date_from: Date) -> (r: Self)
        ensures
            r == (BookingsBuilder { end_date_from: Some(end_date_from), ..self }),
    {
        BookingsBuilder { end_date_from: Some(end_date_from), ..self }
    }

    /// Keep bookings ending on or before this date.
    pub fn end_date_to(self, end_date_to: Date) -> (r: Self)
        ensures
            r == (BookingsBuilder { end_date_to: Some(end_date_to), ..self }),
    {
        BookingsBuilder { end_date_to: Some(end_date_to), ..self }
    }

    /// Keep bookings covering this date.
    pub fn date(self, date: Date) -> (r: Self)
        ensures
            r == (BookingsBuilder { date: Some(date), ..self }),
    {
        BookingsBuilder { date: Some(date), ..self }
    }

    /// Build the endpoint; nothing is required, so this always succeeds.
    pub fn build(self) -> (r: Result<Bookings, BuilderError>)
        ensures
            r matches Ok(res) && res == (Bookings {
                sort: self.sort,
                expand: self.expand,
                page: self.page,
                resource_id: self.resource_id,
                project_id: self.project_id,
                external_id: self.external_id,
                start_date_from: self.start_date_from,
                start_date_to: self.start_date_to,
                end_date_from: self.end_date_from,
                end_date_to: self.end_date_to,
                date: self.date
            }),
    {
        Ok(
            Bookings {
                sort: self.sort,
                expand: self.expand,
                page: self.page,
                resource_id: self.resource_id,
                project_id: self.project_id,
                external_id: self.external_id,
                start_date_from: self.start_date_from,
                start_date_to: self.start_date_to,
                end_date_from: self.end_date_from,
                end_date_to: self.end_date_to,
                date: self.date
            },
        )
    }
}

impl Endpoint for Bookings {
    open spec fn url_spec(&self) -> Seq<char> {
        "bookings"@
    }

    fn url(&self) -> (r: String) {
        String::from_str("bookings")
    }

    open spec fn method_spec(&self) -> Method {
        Method::Get
    }

    fn method(&self) -> (r: Method) {
        Method::Get
    }

    fn body(&self) -> (r: Result<Option<Vec<u8>>, BodyError>)
        ensures
            r matches Ok(b) && b is None,
    {
        no_body()
    }

    fn headers(&self) -> (r: Vec<(String, String)>) {
        no_headers()
    }

    open spec fn parameters_spec(&self) -> Seq<(Seq<char>, Seq<char>)> {
        spec_opt_param("sort"@, self.sort) + spec_opt_param("expand"@, self.expand) + spec_opt_param("page"@, self.page) + spec_opt_param("resource_id"@, self.resource_id) + spec_opt_param("project_id"@, self.project_id) + spec_opt_param("external_id"@, self.external_id) + spec_opt_param("start_date_from"@, self.start_date_from) + spec_opt_param("start_date_to"@, self.start_date_to) + spec_opt_param("end_date_from"@, self.end_date_from) + spec_opt_param("end_date_to"@, self.end_date_to) + spec_opt_param("date"@, self.date)
    }

    fn parameters(&self) -> (r: QueryParams) {
        let mut params = QueryParams::new();
        params.push_opt("sort", &self.sort);
        params.push_opt("expand", &self.expand);
        params.push_opt("page", &self.page);
        params.push_opt("resource_id", &self.resource_id);
        params.push_opt("project_id", &self.project_id);
        params.push_opt("external_id", &self.external_id);
        params.push_opt("start_date_from", &self.start_date_from);
        params.push_opt("start_date_to", &self.start_date_to);
        params.push_opt("end_date_from", &self.end_date_from);
        params.push_opt("end_date_to", &self.end_date_to);
        params.push_opt("date", &self.date);
        proof {
            assert(params@ =~= self.parameters_spec());
        }
        params
    }
}

impl Pageable for Bookings {

}

/// One of the bookings, by id.
#[derive(Debug)]
pub struct Booking {
    pub id: usize,
    pub expand: Option<BookingsExpand>,
}

/// A builder for [`Booking`]; the id is required.
#[derive(Debug)]
pub struct BookingBuilder {
    pub id: Option<usize>,
    pub expand: Option<BookingsExpand>,
}

impl Booking {
    /// Create a builder for the endpoint.
    pub fn builder() -> (r: BookingBuilder)
        ensures
            r == (BookingBuilder { id: None, expand: None }),
    {
        BookingBuilder { id: None, expand: None }
    }
}

impl BookingBuilder {
    /// Pick the item.
    pub fn id(self, id: usize) -> (r: Self)
        ensures
            r == (BookingBuilder { id: Some(id), ..self }),
    {
        BookingBuilder { id: Some(id), ..self }
    }

    /// Expand an association.
    pub fn expand(self, expand: Option<BookingsExpand>) -> (r: Self)
        ensures
            r == (BookingBuilder { expand, ..self }),
    {
        BookingBuilder { expand, ..self }
    }

    /// Build the endpoint; fails when the id was never set.
    pub fn build(self) -> (r: Result<Booking, BuilderError>)
        ensures
            match self.id {
                Some(id) => r matches Ok(res) && res == (Booking { id, expand: self.expand }),
                None => r matches Err(e) && e matches BuilderError::UninitializedField(f) && f@
                    == "id"@,
            },
    {
        match self.id {
            Some(id) => Ok(Booking { id, expand: self.expand }),
            None => Err(BuilderError::UninitializedField("id")),
        }
    }
}

impl Endpoint for Booking {
    open spec fn url_spec(&self) -> Seq<char> {
        "bookings/"@ + spec_u64_string(self.id as int)
    }

    fn url(&self) -> (r: String) {
        let mut s = String::from_str("bookings/");
        let digits = u64_string(self.id as u64);
        s.append(digits.as_str());
        s
    }

    open spec fn method_spec(&self) -> Method {
        Method::Get
    }

    fn method(&self) -> (r: Method) {
        Method::Get
    }

    fn body(&self) -> (r: Result<Option<Vec<u8>>, BodyError>)
        ensures
            r matches Ok(b) && b is None,
    {
        no_body()
    }

    fn headers(&self) -> (r: Vec<(String, String)>) {
        no_headers()
    }

    open spec fn parameters_spec(&self) -> Seq<(Seq<char>, Seq<char>)> {
        spec_opt_param("expand"@, self.expand)
    }

    fn parameters(&self) -> (r: QueryParams) {
        let mut params = QueryParams::new();
        params.push_opt("expand", &self.expand);
        proof {
            assert(params@ =~= self.parameters_spec());
        }
        params
    }
}
} // verus!
