//! The time-entry endpoints: reading one entry or the paged listing, creating, updating and deleting entries, and the time-entry tags.

use vstd::prelude::*;
use vstd::string::*;

use crate::client::Method;
use crate::endpoint::{no_body, no_headers, Endpoint};
use crate::error::{BodyError, BuilderError};
use crate::paged::Pageable;
use crate::params::{spec_opt_param, spec_u64_string, u64_string, ParamValue, QueryParams};
use crate::sort_by::SortBy;
use crate::dates::Date;
use crate::header::disable_notifications_header;
use crate::client::spec_header_views;
use crate::json::{spec_json_string_bytes, spec_member_of, spec_members_push, JsonParams, ToJson};

verus! {

/// The sortable fields of the time-entries listing.
#[derive(Debug, Clone, Copy, PartialEq, Eq)]
pub enum TimeEntriesSortBy {
    ResourceId,
    ProjectId,
    Minutes,
    WeekendBooking,
    HolidaysBooking,
    VacationsBooking,
    Description,
    ExternalId,
    StartDate,
    EndDate,
    CreatorResourceId,
    EditorResourceId,
}

impl Default for TimeEntriesSortBy {
    fn default() -> (r: Self)
        ensures
            r == TimeEntriesSortBy::StartDate,
    {
        TimeEntriesSortBy::StartDate
    }
}

impl TimeEntriesSortBy {
    /// The field's query-string name.
    pub open spec fn spec_as_str(self) -> Seq<char> {
        match self {
            TimeEntriesSortBy::ResourceId => "resource_id"@,
            TimeEntriesSortBy::ProjectId => "project_id"@,
            TimeEntriesSortBy::Minutes => "minutes"@,
            TimeEntriesSortBy::WeekendBooking => "weekend_booking"@,
            TimeEntriesSortBy::HolidaysBooking => "holidays_booking"@,
            TimeEntriesSortBy::VacationsBooking => "vacations_booking"@,
            TimeEntriesSortBy::Description => "description"@,
            TimeEntriesSortBy::ExternalId => "external_id"@,
            TimeEntriesSortBy::StartDate => "start_date"@,
            TimeEntriesSortBy::EndDate => "end_date"@,
            TimeEntriesSortBy::CreatorResourceId => "creator_resource_id"@,
            TimeEntriesSortBy::EditorResourceId => "editor_resource_id"@,
        }
    }

    /// The field's query-string name.
    pub fn as_str(self) -> (r: &'static str)
        ensures
            r@ == self.spec_as_str(),
    {
        match self {
            TimeEntriesSortBy::ResourceId => "resource_id",
            TimeEntriesSortBy::ProjectId => "project_id",
            TimeEntriesSortBy::Minutes => "minutes",
            TimeEntriesSortBy::WeekendBooking => "weekend_booking",
            TimeEntriesSortBy::HolidaysBooking => "holidays_booking",
            TimeEntriesSortBy::VacationsBooking => "vacations_booking",
            TimeEntriesSortBy::Description => "description",
            TimeEntriesSortBy::ExternalId => "external_id",
            TimeEntriesSortBy::StartDate => "start_date",
            TimeEntriesSortBy::EndDate => "end_date",
            TimeEntriesSortBy::CreatorResourceId => "creator_resource_id",
            TimeEntriesSortBy::EditorResourceId => "editor_resource_id",
        }
    }
}

impl ParamValue for TimeEntriesSortBy {
    open spec fn value_spec(&self) -> Seq<char> {
        self.spec_as_str()
    }

    fn as_value(&self) -> (r: String) {
        String::from_str(self.as_str())
    }
}

/// The expandable associations of a time entry.
#[derive(Debug, Clone, Copy, PartialEq, Eq)]
pub enum TimeEntriesExpand {
    Tags,
}

impl TimeEntriesExpand {
    /// The association's query-string name.
    pub open spec fn spec_as_str(self) -> Seq<char> {
        match self {
            TimeEntriesExpand::Tags => "tags"@,
        }
    }

    /// The association's query-string name.
    pub fn as_str(self) -> (r: &'static str)
        ensures
            r@ == self.spec_as_str(),
    {
        match self {
            TimeEntriesExpand::Tags => "tags",
        }
    }
}

impl ParamValue for TimeEntriesExpand {
    open spec fn value_spec(&self) -> Seq<char> {
        self.spec_as_str()
    }

    fn as_value(&self) -> (r: String) {
        String::from_str(self.as_str())
    }
}

/// The paged listing of time entries.
#[derive(Debug)]
pub struct TimeEntries {
    pub sort: Option<SortBy<TimeEntriesSortBy>>,
    pub page: Option<u64>,
    pub expand: Option<TimeEntriesExpand>,
    pub resource_id: Option<Vec<u64>>,
    pub project_id: Option<Vec<u64>>,
    pub external_id: Option<Vec<String>>,
    pub start_date_from: Option<Date>,
    pub start_date_to: Option<Date>,
    pub end_date_from: Option<Date>,
    pub end_date_to: Option<Date>,
    pub date: Option<Date>,
}

/// A builder for [`TimeEntries`]; every field is optional.
#[derive(Debug)]
pub struct TimeEntriesBuilder {
    pub sort: Option<SortBy<TimeEntriesSortBy>>,
    pub page: Option<u64>,
    pub expand: Option<TimeEntriesExpand>,
    pub resource_id: Option<Vec<u64>>,
    pub project_id: Option<Vec<u64>>,
    pub external_id: Option<Vec<String>>,
    pub start_date_from: Option<Date>,
    pub start_date_to: Option<Date>,
    pub end_date_from: Option<Date>,
    pub end_date_to: Option<Date>,
    pub date: Option<Date>,
}

impl TimeEntries {
    /// Create a builder for the endpoint.
    pub fn builder() -> (r: TimeEntriesBuilder)
        ensures
            r == (TimeEntriesBuilder {
                sort: None,
                page: None,
                expand: None,
                resource_id: None,
                project_id: None,
                external_id: None,
                start_date_from: None,
                start_date_to: None,
                end_date_from: None,
                end_date_to: None,
                date: None
            }),
    {
        TimeEntriesBuilder { sort: None, page: None, expand: None, resource_id: None, project_id: None, external_id: None, start_date_from: None, start_date_to: None, end_date_from: None, end_date_to: None, date: None }
    }
}

impl TimeEntriesBuilder {
    /// Sort the listing.
    pub fn sort(self, sort: SortBy<TimeEntriesSortBy>) -> (r: Self)
        ensures
            r == (TimeEntriesBuilder { sort: Some(sort), ..self }),
    {
        TimeEntriesBuilder { sort: Some(sort), ..self }
    }

    /// Ask for one page.
    pub fn page(self, page: u64) -> (r: Self)
        ensures
            r == (TimeEntriesBuilder { page: Some(page), ..self }),
    {
        TimeEntriesBuilder { page: Some(page), ..self }
    }

    /// Expand an association.
    pub fn expand(self, expand: TimeEntriesExpand) -> (r: Self)
        ensures
            r == (TimeEntriesBuilder { expand: Some(expand), ..self }),
    {
        TimeEntriesBuilder { expand: Some(expand), ..self }
    }

    /// Filter by resources.
    pub fn resource_id(self, resource_id: Vec<u64>) -> (r: Self)
        ensures
            r == (TimeEntriesBuilder { resource_id: Some(resource_id), ..self }),
    {
        TimeEntriesBuilder { resource_id: Some(resource_id), ..self }
    }

    /// Filter by projects.
    pub fn project_id(self, project_id: Vec<u64>) -> (r: Self)
        ensures
            r == (TimeEntriesBuilder { project_id: Some(project_id), ..self }),
    {
        TimeEntriesBuilder { project_id: Some(project_id), ..self }
    }

    /// Filter by external ids.
    pub fn external_id(self, external_id: Vec<String>) -> (r: Self)
        ensures
            r == (TimeEntriesBuilder { external_id: Some(external_id), ..self }),
    {
        TimeEntriesBuilder { external_id: Some(external_id), ..self }
    }

    /// Keep entries starting on or after this date.
    pub fn start_date_from(self, start_date_from: Date) -> (r: Self)
        ensures
            r == (TimeEntriesBuilder { start_date_from: Some(start_date_from), ..self }),
    {
        TimeEntriesBuilder { start_date_from: Some(start_date_from), ..self }
    }

    /// Keep entries starting on or before this date.
    pub fn start_date_to(self, start_date_to: Date) -> (r: Self)
        ensures
            r == (TimeEntriesBuilder { start_date_to: Some(start_date_to), ..self }),
    {
        TimeEntriesBuilder { start_date_to: Some(start_date_to), ..self }
    }

    /// Keep entries ending on or after this date.
    pub fn end_date_from(self, end_date_from: Date) -> (r: Self)
        ensures
            r == (TimeEntriesBuilder { end_date_from: Some(end_date_from), ..self }),
    {
        TimeEntriesBuilder { end_date_from: Some(end_date_from), ..self }
    }

    /// Keep entries ending on or before this date.
    pub fn end_date_to(self, end_date_to: Date) -> (r: Self)
        ensures
            r == (TimeEntriesBuilder { end_date_to: Some(end_date_to), ..self }),
    {
        TimeEntriesBuilder { end_date_to: Some(end_date_to), ..self }
    }

    /// Keep entries covering this date.
    pub fn date(self, date: Date) -> (r: Self)
        ensures
            r == (TimeEntriesBuilder { date: Some(date), ..self }),
    {
        TimeEntriesBuilder { date: Some(date), ..self }
    }

    /// Build the endpoint; nothing is required, so this always succeeds.
    pub fn build(self) -> (r: Result<TimeEntries, BuilderError>)
        ensures
            r matches Ok(res) && res == (TimeEntries {
                sort: self.sort,
                page: self.page,
                expand: self.expand,
                resource_id: self.resource_id,
                project_id: self.project_id,
                external_id: self.external_id,
                start_date_from: self.start_date_from,
                start_date_to: self.start_date_to,
                end_date_from: self.end_date_from,
                end_date_to: self.end_date_to,
                date: self.date
            }),
    {
        Ok(
            TimeEntries {
                sort: self.sort,
                page: self.page,
                expand: self.expand,
                resource_id: self.resource_id,
                project_id: self.project_id,
                external_id: self.external_id,
                start_date_from: self.start_date_from,
                start_date_to: self.start_date_to,
                end_date_from: self.end_date_from,
                end_date_to: self.end_date_to,
                date: self.date
            },
        )
    }
}

impl Endpoint for TimeEntries {
    open spec fn url_spec(&self) -> Seq<char> {
        "time-entries"@
    }

    fn url(&self) -> (r: String) {
        String::from_str("time-entries")
    }

    open spec fn method_spec(&self) -> Method {
        Method::Get
    }

    fn method(&self) -> (r: Method) {
        Method::Get
    }

    fn body(&self) -> (r: Result<Option<Vec<u8>>, BodyError>)
        ensures
            r matches Ok(b) && b is None,
    {
        no_body()
    }

    fn headers(&self) -> (r: Vec<(String, String)>) {
        no_headers()
    }

    open spec fn parameters_spec(&self) -> Seq<(Seq<char>, Seq<char>)> {
        spec_opt_param("sort"@, self.sort) + spec_opt_param("page"@, self.page) + spec_opt_param("expand"@, self.expand) + spec_opt_param("resource_id"@, self.resource_id) + spec_opt_param("project_id"@, self.project_id) + spec_opt_param("external_id"@, self.external_id) + spec_opt_param("start_date_from"@, self.start_date_from) + spec_opt_param("start_date_to"@, self.start_date_to) + spec_opt_param("end_date_from"@, self.end_date_from) + spec_opt_param("end_date_to"@, self.end_date_to) + spec_opt_param("date"@, self.date)
    }

    fn parameters(&self) -> (r: QueryParams) {
        let mut params = QueryParams::new();
        params.push_opt("sort", &self.sort);
        params.push_opt("page", &self.page);
        params.push_opt("expand", &self.expand);
        params.push_opt("resource_id", &self.resource_id);
        params.push_opt("project_id", &self.project_id);
        params.push_opt("external_id", &self.external_id);
        params.push_opt("start_date_from", &self.start_date_from);
        params.push_opt("start_date_to", &self.start_date_to);
        params.push_opt("end_date_from", &self.end_date_from);
        params.push_opt("end_date_to", &self.end_date_to);
        params.push_opt("date", &self.date);
        proof {
            assert(params@ =~= self.parameters_spec());
        }
        params
    }
}

impl Pageable for TimeEntries {

}

/// One of the time entries, by id.
#[derive(Debug)]
pub struct TimeEntry {
    pub id: usize,
    pub expand: Option<TimeEntriesExpand>,
}

/// A builder for [`TimeEntry`]; the id is required.
#[derive(Debug)]
pub struct TimeEntryBuilder {
    pub id: Option<usize>,
    pub expand: Option<TimeEntriesExpand>,
}

impl TimeEntry {
    /// Create a builder for the endpoint.
    pub fn builder() -> (r: TimeEntryBuilder)
        ensures
            r == (TimeEntryBuilder { id: None, expand: None }),
    {
        TimeEntryBuilder { id: None, expand: None }
    }
}

impl TimeEntryBuilder {
    /// Pick the item.
    pub fn id(self, id: usize) -> (r: Self)
        ensures
            r == (TimeEntryBuilder { id: Some(id), ..self }),
    {
        TimeEntryBuilder { id: Some(id), ..self }
    }

    /// Expand an association.
    pub fn expand(self, expand: Option<TimeEntriesExpand>) -> (r: Self)
        ensures
            r == (TimeEntryBuilder { expand, ..self }),
    {
        TimeEntryBuilder { expand, ..self }
    }

    /// Build the endpoint; fails when the id was never set.
    pub fn build(self) -> (r: Result<TimeEntry, BuilderError>)
        ensures
            match self.id {
                Some(id) => r matches Ok(res) && res == (TimeEntry { id, expand: self.expand }),
                None => r matches Err(e) && e matches BuilderError::UninitializedField(f) && f@
                    == "id"@,
            },
    {
        match self.id {
            Some(id) => Ok(TimeEntry { id, expand: self.expand }),
            None => Err(BuilderError::UninitializedField("id")),
        }
    }
}

impl Endpoint for TimeEntry {
    open spec fn url_spec(&self) -> Seq<char> {
        "time-entries/"@ + spec_u64_string(self.id as int)
    }

    fn url(&self) -> (r: String) {
        let mut s = String::from_str("time-entries/");
        let digits = u64_string(self.id as u64);
        s.append(digits.as_str());
        s
    }

    open spec fn method_spec(&self) -> Method {
        Method::Get
    }

    fn method(&self) -> (r: Method) {
        Method::Get
    }

    fn body(&self) -> (r: Result<Option<Vec<u8>>, BodyError>)
        ensures
            r matches Ok(b) && b is None,
    {
        no_body()
    }

    fn headers(&self) -> (r: Vec<(String, String)>) {
        no_headers()
    }

    open spec fn parameters_spec(&self) -> Seq<(Seq<char>, Seq<char>)> {
        spec_opt_param("expand"@, self.expand)
    }

    fn parameters(&self) -> (r: QueryParams) {
        let mut params = QueryParams::new();
        params.push_opt("expand", &self.expand);
        proof {
            assert(params@ =~= self.parameters_spec());
        }
        params
    }
}

/// The sortable fields of the time-entry-tags listing.
#[derive(Debug, Clone, Copy, PartialEq, Eq)]
pub enum TimeEntryTagsSortBy {
    Id,
    Name,
    Icon,
    Color,
}

impl Default for TimeEntryTagsSortBy {
    fn default() -> (r: Self)
        ensures
            r == TimeEntryTagsSortBy::Name,
    {
        TimeEntryTagsSortBy::Name
    }
}

impl TimeEntryTagsSortBy {
    /// The field's query-string name.
    pub open spec fn spec_as_str(self) -> Seq<char> {
        match self {
            TimeEntryTagsSortBy::Id => "id"@,
            TimeEntryTagsSortBy::Name => "name"@,
            TimeEntryTagsSortBy::Icon => "icon"@,
            TimeEntryTagsSortBy::Color => "color"@,
        }
    }

    /// The field's query-string name.
    pub fn as_str(self) -> (r: &'static str)
        ensures
            r@ == self.spec_as_str(),
    {
        match self {
            TimeEntryTagsSortBy::Id => "id",
            TimeEntryTagsSortBy::Name => "name",
            TimeEntryTagsSortBy::Icon => "icon",
            TimeEntryTagsSortBy::Color => "color",
        }
    }
}

impl ParamValue for TimeEntryTagsSortBy {
    open spec fn value_spec(&self) -> Seq<char> {
        self.spec_as_str()
    }

    fn as_value(&self) -> (r: String) {
        String::from_str(self.as_str())
    }
}

/// The paged listing of time-entry tags.
#[derive(Debug)]
pub struct TimeEntryTags {
    pub sort: Option<SortBy<TimeEntryTagsSortBy>>,
    pub page: Option<u64>,
    pub archived: Option<bool>,
    pub name: Option<String>,
}

/// A builder for [`TimeEntryTags`]; every field is optional.
#[derive(Debug)]
pub struct TimeEntryTagsBuilder {
    pub sort: Option<SortBy<TimeEntryTagsSortBy>>,
    pub page: Option<u64>,
    pub archived: Option<bool>,
    pub name: Option<String>,
}

impl TimeEntryTags {
    /// Create a builder for the endpoint.
    pub fn builder() -> (r: TimeEntryTagsBuilder)
        ensures
            r == (TimeEntryTagsBuilder {
                sort: None,
                page: None,
                archived: None,
                name: None
            }),
    {
        TimeEntryTagsBuilder { sort: None, page: None, archived: None, name: None }
    }
}

impl TimeEntryTagsBuilder {
    /// Sort the listing.
    pub fn sort(self, sort: SortBy<TimeEntryTagsSortBy>) -> (r: Self)
        ensures
            r == (TimeEntryTagsBuilder { sort: Some(sort), ..self }),
    {
        TimeEntryTagsBuilder { sort: Some(sort), ..self }
    }

    /// Ask for one page.
    pub fn page(self, page: u64) -> (r: Self)
        ensures
            r == (TimeEntryTagsBuilder { page: Some(page), ..self }),
    {
        TimeEntryTagsBuilder { page: Some(page), ..self }
    }

    /// Filter by archived state.
    pub fn archived(self, archived: bool) -> (r: Self)
        ensures
            r == (TimeEntryTagsBuilder { archived: Some(archived), ..self }),
    {
        TimeEntryTagsBuilder { archived: Some(archived), ..self }
    }

    /// Filter by name.
    pub fn name(self, name: &str) -> (r: Self)
        ensures
            r matches (TimeEntryTagsBuilder { name: Some(n), .. }) && n@ == name@ && r == (TimeEntryTagsBuilder {
                name: r.name,
                ..self
            }),
    {
        TimeEntryTagsBuilder { name: Some(String::from_str(name)), ..self }
    }

    /// Build the endpoint; nothing is required, so this always succeeds.
    pub fn build(self) -> (r: Result<TimeEntryTags, BuilderError>)
        ensures
            r matches Ok(res) && res == (TimeEntryTags {
                sort: self.sort,
                page: self.page,
                archived: self.archived,
                name: self.name
            }),
    {
        Ok(
            TimeEntryTags {
                sort: self.sort,
                page: self.page,
                archived: self.archived,
                name: self.name
            },
        )
    }
}

impl Endpoint for TimeEntryTags {
    open spec fn url_spec(&self) -> Seq<char> {
        "time-entry-tags"@
    }

    fn url(&self) -> (r: String) {
        String::from_str("time-entry-tags")
    }

    open spec fn method_spec(&self) -> Method {
        Method::Get
    }

    fn method(&self) -> (r: Method) {
        Method::Get
    }

    fn body(&self) -> (r: Result<Option<Vec<u8>>, BodyError>)
        ensures
            r matches Ok(b) && b is None,
    {
        no_body()
    }

    fn headers(&self) -> (r: Vec<(String, String)>) {
        no_headers()
    }

    open spec fn parameters_spec(&self) -> Seq<(Seq<char>, Seq<char>)> {
        spec_opt_param("sort"@, self.sort) + spec_opt_param("page"@, self.page) + spec_opt_param("archived"@, self.archived) + spec_opt_param("name"@, self.name)
    }

    fn parameters(&self) -> (r: QueryParams) {
        let mut params = QueryParams::new();
        params.push_opt("sort", &self.sort);
        params.push_opt("page", &self.page);
        params.push_opt("archived", &self.archived);
        params.push_opt("name", &self.name);
        proof {
            assert(params@ =~= self.parameters_spec());
        }
        params
    }
}

impl Pageable for TimeEntryTags {

}

/// One of the time-entry tags, by id.
#[derive(Debug)]
pub struct TimeEntryTag {
    pub id: usize,
}

/// A builder for [`TimeEntryTag`]; the id is required.
#[derive(Debug)]
pub struct TimeEntryTagBuilder {
    pub id: Option<usize>,
}

impl TimeEntryTag {
    /// Create a builder for the endpoint.
    pub fn builder() -> (r: TimeEntryTagBuilder)
        ensures
            r == (TimeEntryTagBuilder { id: None }),
    {
        TimeEntryTagBuilder { id: None }
    }
}

impl TimeEntryTagBuilder {
    /// Pick the item.
    pub fn id(self, id: usize) -> (r: Self)
        ensures
            r == (TimeEntryTagBuilder { id: Some(id), ..self }),
    {
        TimeEntryTagBuilder { id: Some(id), ..self }
    }

    /// Build the endpoint; fails when the id was never set.
    pub fn build(self) -> (r: Result<TimeEntryTag, BuilderError>)
        ensures
            match self.id {
                Some(id) => r matches Ok(res) && res == (TimeEntryTag { id }),
                None => r matches Err(e) && e matches BuilderError::UninitializedField(f) && f@
                    == "id"@,
            },
    {
        match self.id {
            Some(id) => Ok(TimeEntryTag { id }),
            None => Err(BuilderError::UninitializedField("id")),
        }
    }
}

impl Endpoint for TimeEntryTag {
    open spec fn url_spec(&self) -> Seq<char> {
        "time-entry-tags/"@ + spec_u64_string(self.id as int)
    }

    fn url(&self) -> (r: String) {
        let mut s = String::from_str("time-entry-tags/");
        let digits = u64_string(self.id as u64);
        s.append(digits.as_str());
        s
    }

    open spec fn method_spec(&self) -> Method {
        Method::Get
    }

    fn method(&self) -> (r: Method) {
        Method::Get
    }

    fn body(&self) -> (r: Result<Option<Vec<u8>>, BodyError>)
        ensures
            r matches Ok(b) && b is None,
    {
        no_body()
    }

    fn headers(&self) -> (r: Vec<(String, String)>) {
        no_headers()
    }

    open spec fn parameters_spec(&self) -> Seq<(Seq<char>, Seq<char>)> {
        Seq::empty()
    }

    fn parameters(&self) -> (r: QueryParams) {
        QueryParams::new()
    }
}

/// One of the time entries, deleting it, by id.
#[derive(Debug)]
pub struct DeleteTimeEntry {
    pub id: usize,
    pub disable_notifications: Option<bool>,
}

/// A builder for [`DeleteTimeEntry`]; the id is required.
#[derive(Debug)]
pub struct DeleteTimeEntryBuilder {
    pub id: Option<usize>,
    pub disable_notifications: Option<bool>,
}

impl DeleteTimeEntry {
    /// Create a builder for the endpoint.
    pub fn builder() -> (r: DeleteTimeEntryBuilder)
        ensures
            r == (DeleteTimeEntryBuilder { id: None, disable_notifications: None }),
    {
        DeleteTimeEntryBuilder { id: None, disable_notifications: None }
    }
}

impl DeleteTimeEntryBuilder {
    /// Pick the item.
    pub fn id(self, id: usize) -> (r: Self)
        ensures
            r == (DeleteTimeEntryBuilder { id: Some(id), ..self }),
    {
        DeleteTimeEntryBuilder { id: Some(id), ..self }
    }

    /// Switch the service's notifications for this write on or off.
    pub fn disable_notifications(self, disable_notifications: Option<bool>) -> (r: Self)
        ensures
            r == (DeleteTimeEntryBuilder { disable_notifications, ..self }),
    {
        DeleteTimeEntryBuilder { disable_notifications, ..self }
    }

    /// Build the endpoint; fails when the id was never set.
    pub fn build(self) -> (r: Result<DeleteTimeEntry, BuilderError>)
        ensures
            match self.id {
                Some(id) => r matches Ok(res) && res == (DeleteTimeEntry { id, disable_notifications: self.disable_notifications }),
                None => r matches Err(e) && e matches BuilderError::UninitializedField(f) && f@
                    == "id"@,
            },
    {
        match self.id {
            Some(id) => Ok(DeleteTimeEntry { id, disable_notifications: self.disable_notifications }),
            None => Err(BuilderError::UninitializedField("id")),
        }
    }
}

impl Endpoint for DeleteTimeEntry {
    open spec fn url_spec(&self) -> Seq<char> {
        "time-entries/"@ + spec_u64_string(self.id as int)
    }

    fn url(&self) -> (r: String) {
        let mut s = String::from_str("time-entries/");
        let digits = u64_string(self.id as u64);
        s.append(digits.as_str());
        s
    }

    open spec fn method_spec(&self) -> Method {
        Method::Delete
    }

    fn method(&self) -> (r: Method) {
        Method::Delete
    }

    fn body(&self) -> (r: Result<Option<Vec<u8>>, BodyError>)
        ensures
            r matches Ok(b) && b is None,
    {
        no_body()
    }

    open spec fn headers_spec(&self) -> Seq<(Seq<char>, Seq<char>)> {
        match self.disable_notifications {
            Some(d) => seq![("X-TD-DISABLE-NOTIFICATIONS"@, if d {
                "true"@
            } else {
                "false"@
            })],
            None => Seq::empty(),
        }
    }

    fn headers(&self) -> (r: Vec<(String, String)>) {
        let mut headers: Vec<(String, String)> = Vec::new();
        match self.disable_notifications {
            Some(d) => {
                disable_notifications_header(&mut headers, d);
                proof {
                    assert(spec_header_views(headers@) =~= self.headers_spec());
                }
            },
            None => {
                proof {
                    assert(spec_header_views(headers@) =~= self.headers_spec());
                }
            },
        }
        headers
    }

    open spec fn parameters_spec(&self) -> Seq<(Seq<char>, Seq<char>)> {
        Seq::empty()
    }

    fn parameters(&self) -> (r: QueryParams) {
        QueryParams::new()
    }
}

/// Create a new time entry.
#[derive(Debug)]
pub struct CreateTimeEntry {
    pub resource_id: u64,
    pub project_id: u64,
    pub minutes: u64,
    pub weekend_booking: Option<bool>,
    pub holidays_booking: Option<bool>,
    pub vacations_booking: Option<bool>,
    pub description: Option<String>,
    pub external_id: Option<String>,
    pub start_date: Date,
    pub end_date: Date,
    pub creator_resource_id: Option<u64>,
    pub editor_resource_id: Option<u64>,
    pub disable_notifications: Option<bool>,
}

/// The serialized members a time entry's fields contribute to its body, in
/// a fixed order, each optional field omitted when absent.
pub open spec fn spec_time_entry_members(
    resource_id: u64,
    project_id: u64,
    minutes: u64,
    weekend_booking: Option<bool>,
    holidays_booking: Option<bool>,
    vacations_booking: Option<bool>,
    description: Option<String>,
    external_id: Option<String>,
    start_date: Date,
    end_date: Date,
    creator_resource_id: Option<u64>,
    editor_resource_id: Option<u64>,
) -> Seq<u8> {
    let m0 = spec_members_push(
        Seq::empty(),
        spec_member_of("resource_id"@, resource_id.json_bytes_spec()),
    );
    let m1 = spec_members_push(m0, spec_member_of("project_id"@, project_id.json_bytes_spec()));
    let m2 = spec_members_push(m1, spec_member_of("minutes"@, minutes.json_bytes_spec()));
    let m3 = match weekend_booking {
        Some(b) => spec_members_push(m2, spec_member_of("weekend_booking"@, b.json_bytes_spec())),
        None => m2,
    };
    let m4 = match holidays_booking {
        Some(b) => spec_members_push(m3, spec_member_of("holidays_booking"@, b.json_bytes_spec())),
        None => m3,
    };
    let m5 = match vacations_booking {
        Some(b) => spec_members_push(
            m4,
            spec_member_of("vacations_booking"@, b.json_bytes_spec()),
        ),
        None => m4,
    };
    let m6 = match description {
        Some(s) => spec_members_push(
            m5,
            spec_member_of("description"@, spec_json_string_bytes(s.value_spec())),
        ),
        None => m5,
    };
    let m7 = match external_id {
        Some(s) => spec_members_push(
            m6,
            spec_member_of("external_id"@, spec_json_string_bytes(s.value_spec())),
        ),
        None => m6,
    };
    let m8 = spec_members_push(
        m7,
        spec_member_of("start_date"@, spec_json_string_bytes(start_date.value_spec())),
    );
    let m9 = spec_members_push(
        m8,
        spec_member_of("end_date"@, spec_json_string_bytes(end_date.value_spec())),
    );
    let m10 = match creator_resource_id {
        Some(n) => spec_members_push(
            m9,
            spec_member_of("creator_resource_id"@, n.json_bytes_spec()),
        ),
        None => m9,
    };
    let m11 = match editor_resource_id {
        Some(n) => spec_members_push(
            m10,
            spec_member_of("editor_resource_id"@, n.json_bytes_spec()),
        ),
        None => m10,
    };
    m11
}

/// Build the body those members form: one flat JSON object.
fn time_entry_body(
    resource_id: u64,
    project_id: u64,
    minutes: u64,
    weekend_booking: &Option<bool>,
    holidays_booking: &Option<bool>,
    vacations_booking: &Option<bool>,
    description: &Option<String>,
    external_id: &Option<String>,
    start_date: &Date,
    end_date: &Date,
    creator_resource_id: &Option<u64>,
    editor_resource_id: &Option<u64>,
) -> (r: Vec<u8>)
    ensures
        r@ == seq![0x7Bu8] + spec_time_entry_members(
            resource_id,
            project_id,
            minutes,
            *weekend_booking,
            *holidays_booking,
            *vacations_booking,
            *description,
            *external_id,
            *start_date,
            *end_date,
            *creator_resource_id,
            *editor_resource_id,
        ) + seq![0x7Du8],
{
    let mut params = JsonParams::new();
    params.push("resource_id", &resource_id);
    params.push("project_id", &project_id);
    params.push("minutes", &minutes);
    params.push_opt("weekend_booking", weekend_booking);
    params.push_opt("holidays_booking", holidays_booking);
    params.push_opt("vacations_booking", vacations_booking);
    params.push_param_value_opt("description", description);
    params.push_param_value_opt("external_id", external_id);
    params.push_param_value("start_date", start_date);
    params.push_param_value("end_date", end_date);
    params.push_opt("creator_resource_id", creator_resource_id);
    params.push_opt("editor_resource_id", editor_resource_id);
    params.to_body()
}

/// A builder for [`CreateTimeEntry`]: resource, project, minutes and the
/// two dates are required.
#[derive(Debug)]
pub struct CreateTimeEntryBuilder {
    pub resource_id: Option<u64>,
    pub project_id: Option<u64>,
    pub minutes: Option<u64>,
    pub weekend_booking: Option<bool>,
    pub holidays_booking: Option<bool>,
    pub vacations_booking: Option<bool>,
    pub description: Option<String>,
    pub external_id: Option<String>,
    pub start_date: Option<Date>,
    pub end_date: Option<Date>,
    pub creator_resource_id: Option<u64>,
    pub editor_resource_id: Option<u64>,
    pub disable_notifications: Option<bool>,
}

impl CreateTimeEntry {
    /// Create a builder for the endpoint.
    pub fn builder() -> (r: CreateTimeEntryBuilder)
        ensures
            r == (CreateTimeEntryBuilder {
                resource_id: None,
                project_id: None,
                minutes: None,
                weekend_booking: None,
                holidays_booking: None,
                vacations_booking: None,
                description: None,
                external_id: None,
                start_date: None,
                end_date: None,
                creator_resource_id: None,
                editor_resource_id: None,
                disable_notifications: None,
            }),
    {
        CreateTimeEntryBuilder {
            resource_id: None,
            project_id: None,
            minutes: None,
            weekend_booking: None,
            holidays_booking: None,
            vacations_booking: None,
            description: None,
            external_id: None,
            start_date: None,
            end_date: None,
            creator_resource_id: None,
            editor_resource_id: None,
            disable_notifications: None,
        }
    }
}

impl CreateTimeEntryBuilder {
    /// The resource the entry belongs to.
    pub fn resource_id(self, resource_id: u64) -> (r: Self)
        ensures
            r == (CreateTimeEntryBuilder { resource_id: Some(resource_id), ..self }),
    {
        CreateTimeEntryBuilder { resource_id: Some(resource_id), ..self }
    }

    /// The project the entry belongs to.
    pub fn project_id(self, project_id: u64) -> (r: Self)
        ensures
            r == (CreateTimeEntryBuilder { project_id: Some(project_id), ..self }),
    {
        CreateTimeEntryBuilder { project_id: Some(project_id), ..self }
    }

    /// The entry's length in minutes.
    pub fn minutes(self, minutes: u64) -> (r: Self)
        ensures
            r == (CreateTimeEntryBuilder { minutes: Some(minutes), ..self }),
    {
        CreateTimeEntryBuilder { minutes: Some(minutes), ..self }
    }

    /// Whether the entry may cover weekends.
    pub fn weekend_booking(self, weekend_booking: Option<bool>) -> (r: Self)
        ensures
            r == (CreateTimeEntryBuilder { weekend_booking, ..self }),
    {
        CreateTimeEntryBuilder { weekend_booking, ..self }
    }

    /// Whether the entry may cover holidays.
    pub fn holidays_booking(self, holidays_booking: Option<bool>) -> (r: Self)
        ensures
            r == (CreateTimeEntryBuilder { holidays_booking, ..self }),
    {
        CreateTimeEntryBuilder { holidays_booking, ..self }
    }

    /// Whether the entry may cover vacations.
    pub fn vacations_booking(self, vacations_booking: Option<bool>) -> (r: Self)
        ensures
            r == (CreateTimeEntryBuilder { vacations_booking, ..self }),
    {
        CreateTimeEntryBuilder { vacations_booking, ..self }
    }

    /// A description for the entry.
    pub fn description(self, description: Option<String>) -> (r: Self)
        ensures
            r == (CreateTimeEntryBuilder { description, ..self }),
    {
        CreateTimeEntryBuilder { description, ..self }
    }

    /// An external id for the entry.
    pub fn external_id(self, external_id: Option<String>) -> (r: Self)
        ensures
            r == (CreateTimeEntryBuilder { external_id, ..self }),
    {
        CreateTimeEntryBuilder { external_id, ..self }
    }

    /// The entry's first day.
    pub fn start_date(self, start_date: Date) -> (r: Self)
        ensures
            r == (CreateTimeEntryBuilder { start_date: Some(start_date), ..self }),
    {
        CreateTimeEntryBuilder { start_date: Some(start_date), ..self }
    }

    /// The entry's last day.
    pub fn end_date(self, end_date: Date) -> (r: Self)
        ensures
            r == (CreateTimeEntryBuilder { end_date: Some(end_date), ..self }),
    {
        CreateTimeEntryBuilder { end_date: Some(end_date), ..self }
    }

    /// The resource that created the entry.
    pub fn creator_resource_id(self, creator_resource_id: Option<u64>) -> (r: Self)
        ensures
            r == (CreateTimeEntryBuilder { creator_resource_id, ..self }),
    {
        CreateTimeEntryBuilder { creator_resource_id, ..self }
    }

    /// The resource that last edited the entry.
    pub fn editor_resource_id(self, editor_resource_id: Option<u64>) -> (r: Self)
        ensures
            r == (CreateTimeEntryBuilder { editor_resource_id, ..self }),
    {
        CreateTimeEntryBuilder { editor_resource_id, ..self }
    }

    /// Switch the service's notifications for this write on or off.
    pub fn disable_notifications(self, disable_notifications: Option<bool>) -> (r: Self)
        ensures
            r == (CreateTimeEntryBuilder { disable_notifications, ..self }),
    {
        CreateTimeEntryBuilder { disable_notifications, ..self }
    }

    /// Build the endpoint; fails exactly when a required field was never
    /// set.
    pub fn build(self) -> (r: Result<CreateTimeEntry, BuilderError>)
        ensures
            match r {
                Ok(res) => {
                    &&& self.resource_id is Some
                    &&& self.project_id is Some
                    &&& self.minutes is Some
                    &&& self.start_date is Some
                    &&& self.end_date is Some
                    &&& res == (CreateTimeEntry {
                        resource_id: self.resource_id->0,
                        project_id: self.project_id->0,
                        minutes: self.minutes->0,
                        weekend_booking: self.weekend_booking,
                        holidays_booking: self.holidays_booking,
                        vacations_booking: self.vacations_booking,
                        description: self.description,
                        external_id: self.external_id,
                        start_date: self.start_date->0,
                        end_date: self.end_date->0,
                        creator_resource_id: self.creator_resource_id,
                        editor_resource_id: self.editor_resource_id,
                        disable_notifications: self.disable_notifications,
                    })
                },
                Err(e) => {
                    &&& (self.resource_id is None || self.project_id is None || self.minutes
                        is None || self.start_date is None || self.end_date is None)
                    &&& e matches BuilderError::UninitializedField(_)
                },
            },
    {
        let resource_id = match self.resource_id {
            Some(v) => v,
            None => {
                return Err(BuilderError::UninitializedField("resource_id"));
            },
        };
        let project_id = match self.project_id {
            Some(v) => v,
            None => {
                return Err(BuilderError::UninitializedField("project_id"));
            },
        };
        let minutes = match self.minutes {
            Some(v) => v,
            None => {
                return Err(BuilderError::UninitializedField("minutes"));
            },
        };
        let start_date = match self.start_date {
            Some(v) => v,
            None => {
                return Err(BuilderError::UninitializedField("start_date"));
            },
        };
        let end_date = match self.end_date {
            Some(v) => v,
            None => {
                return Err(BuilderError::UninitializedField("end_date"));
            },
        };
        Ok(
            CreateTimeEntry {
                resource_id,
                project_id,
                minutes,
                weekend_booking: self.weekend_booking,
                holidays_booking: self.holidays_booking,
                vacations_booking: self.vacations_booking,
                description: self.description,
                external_id: self.external_id,
                start_date,
                end_date,
                creator_resource_id: self.creator_resource_id,
                editor_resource_id: self.editor_resource_id,
                disable_notifications: self.disable_notifications,
            },
        )
    }
}

impl Endpoint for CreateTimeEntry {
    open spec fn url_spec(&self) -> Seq<char> {
        "time-entries"@
    }

    fn url(&self) -> (r: String) {
        String::from_str("time-entries")
    }

    open spec fn method_spec(&self) -> Method {
        Method::Post
    }

    fn method(&self) -> (r: Method) {
        Method::Post
    }

    open spec fn body_spec(&self) -> Option<Seq<u8>> {
        Some(
            seq![0x7Bu8] + spec_time_entry_members(
                self.resource_id,
                self.project_id,
                self.minutes,
                self.weekend_booking,
                self.holidays_booking,
                self.vacations_booking,
                self.description,
                self.external_id,
                self.start_date,
                self.end_date,
                self.creator_resource_id,
                self.editor_resource_id,
            ) + seq![0x7Du8],
        )
    }

    fn body(&self) -> (r: Result<Option<Vec<u8>>, BodyError>)
        ensures
            r is Ok,
    {
        Ok(
            Some(
                time_entry_body(
                    self.resource_id,
                    self.project_id,
                    self.minutes,
                    &self.weekend_booking,
                    &self.holidays_booking,
                    &self.vacations_booking,
                    &self.description,
                    &self.external_id,
                    &self.start_date,
                    &self.end_date,
                    &self.creator_resource_id,
                    &self.editor_resource_id,
                ),
            ),
        )
    }

    open spec fn headers_spec(&self) -> Seq<(Seq<char>, Seq<char>)> {
        match self.disable_notifications {
            Some(d) => seq![("X-TD-DISABLE-NOTIFICATIONS"@, if d {
                "true"@
            } else {
                "false"@
            })],
            None => Seq::empty(),
        }
    }

    fn headers(&self) -> (r: Vec<(String, String)>) {
        let mut headers: Vec<(String, String)> = Vec::new();
        match self.disable_notifications {
            Some(d) => {
                disable_notifications_header(&mut headers, d);
                proof {
                    assert(spec_header_views(headers@) =~= self.headers_spec());
                }
            },
            None => {
                proof {
                    assert(spec_header_views(headers@) =~= self.headers_spec());
                }
            },
        }
        headers
    }

    fn parameters(&self) -> (r: QueryParams) {
        QueryParams::new()
    }
}

/// Update an existing time entry.
#[derive(Debug)]
pub struct UpdateTimeEntry {
    pub id: u64,
    pub resource_id: u64,
    pub project_id: u64,
    pub minutes: u64,
    pub weekend_booking: Option<bool>,
    pub holidays_booking: Option<bool>,
    pub vacations_booking: Option<bool>,
    pub description: Option<String>,
    pub external_id: Option<String>,
    pub start_date: Date,
    pub end_date: Date,
    pub creator_resource_id: Option<u64>,
    pub editor_resource_id: Option<u64>,
}

/// A builder for [`UpdateTimeEntry`]: the entry's id, resource, project,
/// minutes and the two dates are required.
#[derive(Debug)]
pub struct UpdateTimeEntryBuilder {
    pub id: Option<u64>,
    pub resource_id: Option<u64>,
    pub project_id: Option<u64>,
    pub minutes: Option<u64>,
    pub weekend_booking: Option<bool>,
    pub holidays_booking: Option<bool>,
    pub vacations_booking: Option<bool>,
    pub description: Option<String>,
    pub external_id: Option<String>,
    pub start_date: Option<Date>,
    pub end_date: Option<Date>,
    pub creator_resource_id: Option<u64>,
    pub editor_resource_id: Option<u64>,
}

impl UpdateTimeEntry {
    /// Create a builder for the endpoint.
    pub fn builder() -> (r: UpdateTimeEntryBuilder)
        ensures
            r == (UpdateTimeEntryBuilder {
                id: None,
                resource_id: None,
                project_id: None,
                minutes: None,
                weekend_booking: None,
                holidays_booking: None,
                vacations_booking: None,
                description: None,
                external_id: None,
                start_date: None,
                end_date: None,
                creator_resource_id: None,
                editor_resource_id: None,
            }),
    {
        UpdateTimeEntryBuilder {
            id: None,
            resource_id: None,
            project_id: None,
            minutes: None,
            weekend_booking: None,
            holidays_booking: None,
            vacations_booking: None,
            description: None,
            external_id: None,
            start_date: None,
            end_date: None,
            creator_resource_id: None,
            editor_resource_id: None,
        }
    }
}

impl UpdateTimeEntryBuilder {
    /// Pick the entry to update.
    pub fn id(self, id: u64) -> (r: Self)
        ensures
            r == (UpdateTimeEntryBuilder { id: Some(id), ..self }),
    {
        UpdateTimeEntryBuilder { id: Some(id), ..self }
    }

    /// The resource the entry belongs to.
    pub fn resource_id(self, resource_id: u64) -> (r: Self)
        ensures
            r == (UpdateTimeEntryBuilder { resource_id: Some(resource_id), ..self }),
    {
        UpdateTimeEntryBuilder { resource_id: Some(resource_id), ..self }
    }

    /// The project the entry belongs to.
    pub fn project_id(self, project_id: u64) -> (r: Self)
        ensures
            r == (UpdateTimeEntryBuilder { project_id: Some(project_id), ..self }),
    {
        UpdateTimeEntryBuilder { project_id: Some(project_id), ..self }
    }

    /// The entry's length in minutes.
    pub fn minutes(self, minutes: u64) -> (r: Self)
        ensures
            r == (UpdateTimeEntryBuilder { minutes: Some(minutes), ..self }),
    {
        UpdateTimeEntryBuilder { minutes: Some(minutes), ..self }
    }

    /// Whether the entry may cover weekends.
    pub fn weekend_booking(self, weekend_booking: Option<bool>) -> (r: Self)
        ensures
            r == (UpdateTimeEntryBuilder { weekend_booking, ..self }),
    {
        UpdateTimeEntryBuilder { weekend_booking, ..self }
    }

    /// Whether the entry may cover holidays.
    pub fn holidays_booking(self, holidays_booking: Option<bool>) -> (r: Self)
        ensures
            r == (UpdateTimeEntryBuilder { holidays_booking, ..self }),
    {
        UpdateTimeEntryBuilder { holidays_booking, ..self }
    }

    /// Whether the entry may cover vacations.
    pub fn vacations_booking(self, vacations_booking: Option<bool>) -> (r: Self)
        ensures
            r == (UpdateTimeEntryBuilder { vacations_booking, ..self }),
    {
        UpdateTimeEntryBuilder { vacations_booking, ..self }
    }

    /// A description for the entry.
    pub fn description(self, description: Option<String>) -> (r: Self)
        ensures
            r == (UpdateTimeEntryBuilder { description, ..self }),
    {
        UpdateTimeEntryBuilder { description, ..self }
    }

    /// An external id for the entry.
    pub fn external_id(self, external_id: Option<String>) -> (r: Self)
        ensures
            r == (UpdateTimeEntryBuilder { external_id, ..self }),
    {
        UpdateTimeEntryBuilder { external_id, ..self }
    }

    /// The entry's first day.
    pub fn start_date(self, start_date: Date) -> (r: Self)
        ensures
            r == (UpdateTimeEntryBuilder { start_date: Some(start_date), ..self }),
    {
        UpdateTimeEntryBuilder { start_date: Some(start_date), ..self }
    }

    /// The entry's last day.
    pub fn end_date(self, end_date: Date) -> (r: Self)
        ensures
            r == (UpdateTimeEntryBuilder { end_date: Some(end_date), ..self }),
    {
        UpdateTimeEntryBuilder { end_date: Some(end_date), ..self }
    }

    /// The resource that created the entry.
    pub fn creator_resource_id(self, creator_resource_id: Option<u64>) -> (r: Self)
        ensures
            r == (UpdateTimeEntryBuilder { creator_resource_id, ..self }),
    {
        UpdateTimeEntryBuilder { creator_resource_id, ..self }
    }

    /// The resource that last edited the entry.
    pub fn editor_resource_id(self, editor_resource_id: Option<u64>) -> (r: Self)
        ensures
            r == (UpdateTimeEntryBuilder { editor_resource_id, ..self }),
    {
        UpdateTimeEntryBuilder { editor_resource_id, ..self }
    }

    /// Build the endpoint; fails exactly when a required field was never
    /// set.
    pub fn build(self) -> (r: Result<UpdateTimeEntry, BuilderError>)
        ensures
            match r {
                Ok(res) => {
                    &&& self.id is Some
                    &&& self.resource_id is Some
                    &&& self.project_id is Some
                    &&& self.minutes is Some
                    &&& self.start_date is Some
                    &&& self.end_date is Some
                    &&& res == (UpdateTimeEntry {
                        id: self.id->0,
                        resource_id: self.resource_id->0,
                        project_id: self.project_id->0,
                        minutes: self.minutes->0,
                        weekend_booking: self.weekend_booking,
                        holidays_booking: self.holidays_booking,
                        vacations_booking: self.vacations_booking,
                        description: self.description,
                        external_id: self.external_id,
                        start_date: self.start_date->0,
                        end_date: self.end_date->0,
                        creator_resource_id: self.creator_resource_id,
                        editor_resource_id: self.editor_resource_id,
                    })
                },
                Err(e) => {
                    &&& (self.id is None || self.resource_id is None || self.project_id is None
                        || self.minutes is None || self.start_date is None || self.end_date
                        is None)
                    &&& e matches BuilderError::UninitializedField(_)
                },
            },
    {
        let id = match self.id {
            Some(v) => v,
            None => {
                return Err(BuilderError::UninitializedField("id"));
            },
        };
        let resource_id = match self.resource_id {
            Some(v) => v,
            None => {
                return Err(BuilderError::UninitializedField("resource_id"));
            },
        };
        let project_id = match self.project_id {
            Some(v) => v,
            None => {
                return Err(BuilderError::UninitializedField("project_id"));
            },
        };
        let minutes = match self.minutes {
            Some(v) => v,
            None => {
                return Err(BuilderError::UninitializedField("minutes"));
            },
        };
        let start_date = match self.start_date {
            Some(v) => v,
            None => {
                return Err(BuilderError::UninitializedField("start_date"));
            },
        };
        let end_date = match self.end_date {
            Some(v) => v,
            None => {
                return Err(BuilderError::UninitializedField("end_date"));
            },
        };
        Ok(
            UpdateTimeEntry {
                id,
                resource_id,
                project_id,
                minutes,
                weekend_booking: self.weekend_booking,
                holidays_booking: self.holidays_booking,
                vacations_booking: self.vacations_booking,
                description: self.description,
                external_id: self.external_id,
                start_date,
                end_date,
                creator_resource_id: self.creator_resource_id,
                editor_resource_id: self.editor_resource_id,
            },
        )
    }
}

impl Endpoint for UpdateTimeEntry {
    open spec fn url_spec(&self) -> Seq<char> {
        "time-entries/"@ + spec_u64_string(self.id as int)
    }

    fn url(&self) -> (r: String) {
        let mut s = String::from_str("time-entries/");
        let digits = u64_string(self.id);
        s.append(digits.as_str());
        s
    }

    open spec fn method_spec(&self) -> Method {
        Method::Put
    }

    fn method(&self) -> (r: Method) {
        Method::Put
    }

    open spec fn body_spec(&self) -> Option<Seq<u8>> {
        Some(
            seq![0x7Bu8] + spec_time_entry_members(
                self.resource_id,
                self.project_id,
                self.minutes,
                self.weekend_booking,
                self.holidays_booking,
                self.vacations_booking,
                self.description,
                self.external_id,
                self.start_date,
                self.end_date,
                self.creator_resource_id,
                self.editor_resource_id,
            ) + seq![0x7Du8],
        )
    }

    fn body(&self) -> (r: Result<Option<Vec<u8>>, BodyError>)
        ensures
            r is Ok,
    {
        Ok(
            Some(
                time_entry_body(
                    self.resource_id,
                    self.project_id,
                    self.minutes,
                    &self.weekend_booking,
                    &self.holidays_booking,
                    &self.vacations_booking,
                    &self.description,
                    &self.external_id,
                    &self.start_date,
                    &self.end_date,
                    &self.creator_resource_id,
                    &self.editor_resource_id,
                ),
            ),
        )
    }

    fn headers(&self) -> (r: Vec<(String, String)>) {
        no_headers()
    }

    fn parameters(&self) -> (r: QueryParams) {
        QueryParams::new()
    }
}

} // verus!
