//! The vacations endpoints: vacations, vacation periods and vacation reasons, each as one item by id and a paged listing.

use vstd::prelude::*;
use vstd::string::*;

use crate::client::Method;
use crate::endpoint::{no_body, no_headers, Endpoint};
use crate::error::{BodyError, BuilderError};
use crate::paged::Pageable;
use crate::params::{spec_opt_param, spec_u64_string, u64_string, ParamValue, QueryParams};
use crate::sort_by::SortBy;
use crate::dates::Date;

verus! {

/// The sortable fields of the vacations listing.
#[derive(Debug, Clone, Copy, PartialEq, Eq)]
pub enum VacationsSortBy {
    ResourceId,
    Status,
    PeriodId,
    RequestedApproverId,
    ReasonId,
    Description,
    ExternalId,
    StartDate,
    EndDate,
    CreatorResourceId,
    ApproverResourceId,
    EditorResourceId,
}

impl Default for VacationsSortBy {
    fn default() -> (r: Self)
        ensures
            r == VacationsSortBy::StartDate,
    {
        VacationsSortBy::StartDate
    }
}

impl VacationsSortBy {
    /// The field's query-string name.
    pub open spec fn spec_as_str(self) -> Seq<char> {
        match self {
            VacationsSortBy::ResourceId => "resource_id"@,
            VacationsSortBy::Status => "status"@,
            VacationsSortBy::PeriodId => "period_id"@,
            VacationsSortBy::RequestedApproverId => "requested_approver_id"@,
            VacationsSortBy::ReasonId => "reason_id"@,
            VacationsSortBy::Description => "description"@,
            VacationsSortBy::ExternalId => "external_id"@,
            VacationsSortBy::StartDate => "start_date"@,
            VacationsSortBy::EndDate => "end_date"@,
            VacationsSortBy::CreatorResourceId => "creator_resource_id"@,
            VacationsSortBy::ApproverResourceId => "approver_resource_id"@,
            VacationsSortBy::EditorResourceId => "editor_resource_id"@,
        }
    }

    /// The field's query-string name.
    pub fn as_str(self) -> (r: &'static str)
        ensures
            r@ == self.spec_as_str(),
    {
        match self {
            VacationsSortBy::ResourceId => "resource_id",
            VacationsSortBy::Status => "status",
            VacationsSortBy::PeriodId => "period_id",
            VacationsSortBy::RequestedApproverId => "requested_approver_id",
            VacationsSortBy::ReasonId => "reason_id",
            VacationsSortBy::Description => "description",
            VacationsSortBy::ExternalId => "external_id",
            VacationsSortBy::StartDate => "start_date",
            VacationsSortBy::EndDate => "end_date",
            VacationsSortBy::CreatorResourceId => "creator_resource_id",
            VacationsSortBy::ApproverResourceId => "approver_resource_id",
            VacationsSortBy::EditorResourceId => "editor_resource_id",
        }
    }
}

impl ParamValue for VacationsSortBy {
    open spec fn value_spec(&self) -> Seq<char> {
        self.spec_as_str()
    }

    fn as_value(&self) -> (r: String) {
        String::from_str(self.as_str())
    }
}

/// The paged listing of vacations.
#[derive(Debug)]
pub struct Vacations {
    pub sort: Option<SortBy<VacationsSortBy>>,
    pub page: Option<u64>,
    pub resource_id: Option<Vec<u64>>,
    pub external_id: Option<Vec<String>>,
    pub start_date_from: Option<Date>,
    pub start_date_to: Option<Date>,
    pub end_date_from: Option<Date>,
    pub end_date_to: Option<Date>,
    pub date: Option<Date>,
}

/// A builder for [`Vacations`]; every field is optional.
#[derive(Debug)]
pub struct VacationsBuilder {
    pub sort: Option<SortBy<VacationsSortBy>>,
    pub page: Option<u64>,
    pub resource_id: Option<Vec<u64>>,
    pub external_id: Option<Vec<String>>,
    pub start_date_from: Option<Date>,
    pub start_date_to: Option<Date>,
    pub end_date_from: Option<Date>,
    pub end_date_to: Option<Date>,
    pub date: Option<Date>,
}

impl Vacations {
    /// Create a builder for the endpoint.
    pub fn builder() -> (r: VacationsBuilder)
        ensures
            r == (VacationsBuilder {
                sort: None,
                page: None,
                resource_id: None,
                external_id: None,
                start_date_from: None,
                start_date_to: None,
                end_date_from: None,
                end_date_to: None,
                date: None
            }),
    {
        VacationsBuilder { sort: None, page: None, resource_id: None, external_id: None, start_date_from: None, start_date_to: None, end_date_from: None, end_date_to: None, date: None }
    }
}

impl VacationsBuilder {
    /// Sort the listing.
    pub fn sort(self, sort: SortBy<VacationsSortBy>) -> (r: Self)
        ensures
            r == (VacationsBuilder { sort: Some(sort), ..self }),
    {
        VacationsBuilder { sort: Some(sort), ..self }
    }

    /// Ask for one page.
    pub fn page(self, page: u64) -> (r: Self)
        ensures
            r == (VacationsBuilder { page: Some(page), ..self }),
    {
        VacationsBuilder { page: Some(page), ..self }
    }

    /// Filter by resources.
    pub fn resource_id(self, resource_id: Vec<u64>) -> (r: Self)
        ensures
            r == (VacationsBuilder { resource_id: Some(resource_id), ..self }),
    {
        VacationsBuilder { resource_id: Some(resource_id), ..self }
    }

    /// Filter by external ids.
    pub fn external_id(self, external_id: Vec<String>) -> (r: Self)
        ensures
            r == (VacationsBuilder { external_id: Some(external_id), ..self }),
    {
        VacationsBuilder { external_id: Some(external_id), ..self }
    }

    /// Keep vacations starting on or after this date.
    pub fn start_date_from(self, start_date_from: Date) -> (r: Self)
        ensures
            r == (VacationsBuilder { start_date_from: Some(start_date_from), ..self }),
    {
        VacationsBuilder { start_date_from: Some(start_date_from), ..self }
    }

    /// Keep vacations starting on or before this date.
    pub fn start_date_to(self, start_date_to: Date) -> (r: Self)
        ensures
            r == (VacationsBuilder { start_date_to: Some(start_date_to), ..self }),
    {
        VacationsBuilder { start_date_to: Some(start_date_to), ..self }
    }

    /// Keep vacations ending on or after this date.
    pub fn end_date_from(self, end_date_from: Date) -> (r: Self)
        ensures
            r == (VacationsBuilder { end_date_from: Some(end_date_from), ..self }),
    {
        VacationsBuilder { end_date_from: Some(end_date_from), ..self }
    }

    /// Keep vacations ending on or before this date.
    pub fn end_date_to(self, end_date_to: Date) -> (r: Self)
        ensures
            r == (VacationsBuilder { end_date_to: Some(end_date_to), ..self }),
    {
        VacationsBuilder { end_date_to: Some(end_date_to), ..self }
    }

    /// Keep vacations covering this date.
    pub fn date(self, date: Date) -> (r: Self)
        ensures
            r == (VacationsBuilder { date: Some(date), ..self }),
    {
        VacationsBuilder { date: Some(date), ..self }
    }

    /// Build the endpoint; nothing is required, so this always succeeds.
    pub fn build(self) -> (r: Result<Vacations, BuilderError>)
        ensures
            r matches Ok(res) && res == (Vacations {
                sort: self.sort,
                page: self.page,
                resource_id: self.resource_id,
                external_id: self.external_id,
                start_date_from: self.start_date_from,
                start_date_to: self.start_date_to,
                end_date_from: self.end_date_from,
                end_date_to: self.end_date_to,
                date: self.date
            }),
    {
        Ok(
            Vacations {
                sort: self.sort,
                page: self.page,
                resource_id: self.resource_id,
                external_id: self.external_id,
                start_date_from: self.start_date_from,
                start_date_to: self.start_date_to,
                end_date_from: self.end_date_from,
                end_date_to: self.end_date_to,
                date: self.date
            },
        )
    }
}

impl Endpoint for Vacations {
    open spec fn url_spec(&self) -> Seq<char> {
        "vacations"@
    }

    fn url(&self) -> (r: String) {
        String::from_str("vacations")
    }

    open spec fn method_spec(&self) -> Method {
        Method::Get
    }

    fn method(&self) -> (r: Method) {
        Method::Get
    }

    fn body(&self) -> (r: Result<Option<Vec<u8>>, BodyError>)
        ensures
            r matches Ok(b) && b is None,
    {
        no_body()
    }

    fn headers(&self) -> (r: Vec<(String, String)>) {
        no_headers()
    }

    open spec fn parameters_spec(&self) -> Seq<(Seq<char>, Seq<char>)> {
        spec_opt_param("sort"@, self.sort) + spec_opt_param("page"@, self.page) + spec_opt_param("resource_id"@, self.resource_id) + spec_opt_param("external_id"@, self.external_id) + spec_opt_param("start_date_from"@, self.start_date_from) + spec_opt_param("start_date_to"@, self.start_date_to) + spec_opt_param("end_date_from"@, self.end_date_from) + spec_opt_param("end_date_to"@, self.end_date_to) + spec_opt_param("date"@, self.date)
    }

    fn parameters(&self) -> (r: QueryParams) {
        let mut params = QueryParams::new();
        params.push_opt("sort", &self.sort);
        params.push_opt("page", &self.page);
        params.push_opt("resource_id", &self.resource_id);
        params.push_opt("external_id", &self.external_id);
        params.push_opt("start_date_from", &self.start_date_from);
        params.push_opt("start_date_to", &self.start_date_to);
        params.push_opt("end_date_from", &self.end_date_from);
        params.push_opt("end_date_to", &self.end_date_to);
        params.push_opt("date", &self.date);
        proof {
            assert(params@ =~= self.parameters_spec());
        }
        params
    }
}

impl Pageable for Vacations {

}

/// One of the vacations, by id.
#[derive(Debug)]
pub struct Vacation {
    pub id: u64,
}

/// A builder for [`Vacation`]; the id is required.
#[derive(Debug)]
pub struct VacationBuilder {
    pub id: Option<u64>,
}

impl Vacation {
    /// Create a builder for the endpoint.
    pub fn builder() -> (r: VacationBuilder)
        ensures
            r == (VacationBuilder { id: None }),
    {
        VacationBuilder { id: None }
    }
}

impl VacationBuilder {
    /// Pick the item.
    pub fn id(self, id: u64) -> (r: Self)
        ensures
            r == (VacationBuilder { id: Some(id), ..self }),
    {
        VacationBuilder { id: Some(id), ..self }
    }

    /// Build the endpoint; fails when the id was never set.
    pub fn build(self) -> (r: Result<Vacation, BuilderError>)
        ensures
            match self.id {
                Some(id) => r matches Ok(res) && res == (Vacation { id }),
                None => r matches Err(e) && e matches BuilderError::UninitializedField(f) && f@
                    == "id"@,
            },
    {
        match self.id {
            Some(id) => Ok(Vacation { id }),
            None => Err(BuilderError::UninitializedField("id")),
        }
    }
}

impl Endpoint for Vacation {
    open spec fn url_spec(&self) -> Seq<char> {
        "vacations/"@ + spec_u64_string(self.id as int)
    }

    fn url(&self) -> (r: String) {
        let mut s = String::from_str("vacations/");
        let digits = u64_string(self.id as u64);
        s.append(digits.as_str());
        s
    }

    open spec fn method_spec(&self) -> Method {
        Method::Get
    }

    fn method(&self) -> (r: Method) {
        Method::Get
    }

    fn body(&self) -> (r: Result<Option<Vec<u8>>, BodyError>)
        ensures
            r matches Ok(b) && b is None,
    {
        no_body()
    }

    fn headers(&self) -> (r: Vec<(String, String)>) {
        no_headers()
    }

    open spec fn parameters_spec(&self) -> Seq<(Seq<char>, Seq<char>)> {
        Seq::empty()
    }

    fn parameters(&self) -> (r: QueryParams) {
        QueryParams::new()
    }
}

/// The sortable fields of the vacation-periods listing.
#[derive(Debug, Clone, Copy, PartialEq, Eq)]
pub enum VacationPeriodsSortBy {
    Id,
    Name,
    Archived,
    HoursPerDay,
}

impl Default for VacationPeriodsSortBy {
    fn default() -> (r: Self)
        ensures
            r == VacationPeriodsSortBy::Name,
    {
        VacationPeriodsSortBy::Name
    }
}

impl VacationPeriodsSortBy {
    /// The field's query-string name.
    pub open spec fn spec_as_str(self) -> Seq<char> {
        match self {
            VacationPeriodsSortBy::Id => "id"@,
            VacationPeriodsSortBy::Name => "name"@,
            VacationPeriodsSortBy::Archived => "archived"@,
            VacationPeriodsSortBy::HoursPerDay => "hours_per_day"@,
        }
    }

    /// The field's query-string name.
    pub fn as_str(self) -> (r: &'static str)
        ensures
            r@ == self.spec_as_str(),
    {
        match self {
            VacationPeriodsSortBy::Id => "id",
            VacationPeriodsSortBy::Name => "name",
            VacationPeriodsSortBy::Archived => "archived",
            VacationPeriodsSortBy::HoursPerDay => "hours_per_day",
        }
    }
}

impl ParamValue for VacationPeriodsSortBy {
    open spec fn value_spec(&self) -> Seq<char> {
        self.spec_as_str()
    }

    fn as_value(&self) -> (r: String) {
        String::from_str(self.as_str())
    }
}

/// The paged listing of vacation periods.
#[derive(Debug)]
pub struct VacationPeriods {
    pub sort: Option<SortBy<VacationPeriodsSortBy>>,
    pub page: Option<u64>,
    pub name: Option<String>,
    pub archived: Option<bool>,
}

/// A builder for [`VacationPeriods`]; every field is optional.
#[derive(Debug)]
pub struct VacationPeriodsBuilder {
    pub sort: Option<SortBy<VacationPeriodsSortBy>>,
    pub page: Option<u64>,
    pub name: Option<String>,
    pub archived: Option<bool>,
}

impl VacationPeriods {
    /// Create a builder for the endpoint.
    pub fn builder() -> (r: VacationPeriodsBuilder)
        ensures
            r == (VacationPeriodsBuilder {
                sort: None,
                page: None,
                name: None,
                archived: None
            }),
    {
        VacationPeriodsBuilder { sort: None, page: None, name: None, archived: None }
    }
}

impl VacationPeriodsBuilder {
    /// Sort the listing.
    pub fn sort(self, sort: SortBy<VacationPeriodsSortBy>) -> (r: Self)
        ensures
            r == (VacationPeriodsBuilder { sort: Some(sort), ..self }),
    {
        VacationPeriodsBuilder { sort: Some(sort), ..self }
    }

    /// Ask for one page.
    pub fn page(self, page: u64) -> (r: Self)
        ensures
            r == (VacationPeriodsBuilder { page: Some(page), ..self }),
    {
        VacationPeriodsBuilder { page: Some(page), ..self }
    }

    /// Filter by name.
    pub fn name(self, name: &str) -> (r: Self)
        ensures
            r matches (VacationPeriodsBuilder { name: Some(n), .. }) && n@ == name@ && r == (VacationPeriodsBuilder {
                name: r.name,
                ..self
            }),
    {
        VacationPeriodsBuilder { name: Some(String::from_str(name)), ..self }
    }

    /// Filter by archived state.
    pub fn archived(self, archived: bool) -> (r: Self)
        ensures
            r == (VacationPeriodsBuilder { archived: Some(archived), ..self }),
    {
        VacationPeriodsBuilder { archived: Some(archived), ..self }
    }

    /// Build the endpoint; nothing is required, so this always succeeds.
    pub fn build(self) -> (r: Result<VacationPeriods, BuilderError>)
        ensures
            r matches Ok(res) && res == (VacationPeriods {
                sort: self.sort,
                page: self.page,
                name: self.name,
                archived: self.archived
            }),
    {
        Ok(
            VacationPeriods {
                sort: self.sort,
                page: self.page,
                name: self.name,
                archived: self.archived
            },
        )
    }
}

impl Endpoint for VacationPeriods {
    open spec fn url_spec(&self) -> Seq<char> {
        "vacation-periods"@
    }

    fn url(&self) -> (r: String) {
        String::from_str("vacation-periods")
    }

    open spec fn method_spec(&self) -> Method {
        Method::Get
    }

    fn method(&self) -> (r: Method) {
        Method::Get
    }

    fn body(&self) -> (r: Result<Option<Vec<u8>>, BodyError>)
        ensures
            r matches Ok(b) && b is None,
    {
        no_body()
    }

    fn headers(&self) -> (r: Vec<(String, String)>) {
        no_headers()
    }

    open spec fn parameters_spec(&self) -> Seq<(Seq<char>, Seq<char>)> {
        spec_opt_param("sort"@, self.sort) + spec_opt_param("page"@, self.page) + spec_opt_param("name"@, self.name) + spec_opt_param("archived"@, self.archived)
    }

    fn parameters(&self) -> (r: QueryParams) {
        let mut params = QueryParams::new();
        params.push_opt("sort", &self.sort);
        params.push_opt("page", &self.page);
        params.push_opt("name", &self.name);
        params.push_opt("archived", &self.archived);
        proof {
            assert(params@ =~= self.parameters_spec());
        }
        params
    }
}

impl Pageable for VacationPeriods {

}

/// One of the vacation periods, by id.
#[derive(Debug)]
pub struct VacationPeriod {
    pub id: u64,
}

/// A builder for [`VacationPeriod`]; the id is required.
#[derive(Debug)]
pub struct VacationPeriodBuilder {
    pub id: Option<u64>,
}

impl VacationPeriod {
    /// Create a builder for the endpoint.
    pub fn builder() -> (r: VacationPeriodBuilder)
        ensures
            r == (VacationPeriodBuilder { id: None }),
    {
        VacationPeriodBuilder { id: None }
    }
}

impl VacationPeriodBuilder {
    /// Pick the item.
    pub fn id(self, id: u64) -> (r: Self)
        ensures
            r == (VacationPeriodBuilder { id: Some(id), ..self }),
    {
        VacationPeriodBuilder { id: Some(id), ..self }
    }

    /// Build the endpoint; fails when the id was never set.
    pub fn build(self) -> (r: Result<VacationPeriod, BuilderError>)
        ensures
            match self.id {
                Some(id) => r matches Ok(res) && res == (VacationPeriod { id }),
                None => r matches Err(e) && e matches BuilderError::UninitializedField(f) && f@
                    == "id"@,
            },
    {
        match self.id {
            Some(id) => Ok(VacationPeriod { id }),
            None => Err(BuilderError::UninitializedField("id")),
        }
    }
}

impl Endpoint for VacationPeriod {
    open spec fn url_spec(&self) -> Seq<char> {
        "vacation-periods/"@ + spec_u64_string(self.id as int)
    }

    fn url(&self) -> (r: String) {
        let mut s = String::from_str("vacation-periods/");
        let digits = u64_string(self.id as u64);
        s.append(digits.as_str());
        s
    }

    open spec fn method_spec(&self) -> Method {
        Method::Get
    }

    fn method(&self) -> (r: Method) {
        Method::Get
    }

    fn body(&self) -> (r: Result<Option<Vec<u8>>, BodyError>)
        ensures
            r matches Ok(b) && b is None,
    {
        no_body()
    }

    fn headers(&self) -> (r: Vec<(String, String)>) {
        no_headers()
    }

    open spec fn parameters_spec(&self) -> Seq<(Seq<char>, Seq<char>)> {
        Seq::empty()
    }

    fn parameters(&self) -> (r: QueryParams) {
        QueryParams::new()
    }
}

/// The sortable fields of the vacation-reasons listing.
#[derive(Debug, Clone, Copy, PartialEq, Eq)]
pub enum VacationReasonsSortBy {
    Name,
    Archived,
    Payable,
    Color,
    Id,
}

impl Default for VacationReasonsSortBy {
    fn default() -> (r: Self)
        ensures
            r == VacationReasonsSortBy::Name,
    {
        VacationReasonsSortBy::Name
    }
}

impl VacationReasonsSortBy {
    /// The field's query-string name.
    pub open spec fn spec_as_str(self) -> Seq<char> {
        match self {
            VacationReasonsSortBy::Name => "name"@,
            VacationReasonsSortBy::Archived => "archived"@,
            VacationReasonsSortBy::Payable => "payable"@,
            VacationReasonsSortBy::Color => "color"@,
            VacationReasonsSortBy::Id => "id"@,
        }
    }

    /// The field's query-string name.
    pub fn as_str(self) -> (r: &'static str)
        ensures
            r@ == self.spec_as_str(),
    {
        match self {
            VacationReasonsSortBy::Name => "name",
            VacationReasonsSortBy::Archived => "archived",
            VacationReasonsSortBy::Payable => "payable",
            VacationReasonsSortBy::Color => "color",
            VacationReasonsSortBy::Id => "id",
        }
    }
}

impl ParamValue for VacationReasonsSortBy {
    open spec fn value_spec(&self) -> Seq<char> {
        self.spec_as_str()
    }

    fn as_value(&self) -> (r: String) {
        String::from_str(self.as_str())
    }
}

/// The paged listing of vacation reasons.
#[derive(Debug)]
pub struct VacationReasons {
    pub sort: Option<SortBy<VacationReasonsSortBy>>,
    pub page: Option<u64>,
    pub name: Option<String>,
    pub archived: Option<bool>,
}

/// A builder for [`VacationReasons`]; every field is optional.
#[derive(Debug)]
pub struct VacationReasonsBuilder {
    pub sort: Option<SortBy<VacationReasonsSortBy>>,
    pub page: Option<u64>,
    pub name: Option<String>,
    pub archived: Option<bool>,
}

impl VacationReasons {
    /// Create a builder for the endpoint.
    pub fn builder() -> (r: VacationReasonsBuilder)
        ensures
            r == (VacationReasonsBuilder {
                sort: None,
                page: None,
                name: None,
                archived: None
            }),
    {
        VacationReasonsBuilder { sort: None, page: None, name: None, archived: None }
    }
}

impl VacationReasonsBuilder {
    /// Sort the listing.
    pub fn sort(self, sort: SortBy<VacationReasonsSortBy>) -> (r: Self)
        ensures
            r == (VacationReasonsBuilder { sort: Some(sort), ..self }),
    {
        VacationReasonsBuilder { sort: Some(sort), ..self }
    }

    /// Ask for one page.
    pub fn page(self, page: u64) -> (r: Self)
        ensures
            r == (VacationReasonsBuilder { page: Some(page), ..self }),
    {
        VacationReasonsBuilder { page: Some(page), ..self }
    }

    /// Filter by name.
    pub fn name(self, name: &str) -> (r: Self)
        ensures
            r matches (VacationReasonsBuilder { name: Some(n), .. }) && n@ == name@ && r == (VacationReasonsBuilder {
                name: r.name,
                ..self
            }),
    {
        VacationReasonsBuilder { name: Some(String::from_str(name)), ..self }
    }

    /// Filter by archived state.
    pub fn archived(self, archived: bool) -> (r: Self)
        ensures
            r == (VacationReasonsBuilder { archived: Some(archived), ..self }),
    {
        VacationReasonsBuilder { archived: Some(archived), ..self }
    }

    /// Build the endpoint; nothing is required, so this always succeeds.
    pub fn build(self) -> (r: Result<VacationReasons, BuilderError>)
        ensures
            r matches Ok(res) && res == (VacationReasons {
                sort: self.sort,
                page: self.page,
                name: self.name,
                archived: self.archived
            }),
    {
        Ok(
            VacationReasons {
                sort: self.sort,
                page: self.page,
                name: self.name,
                archived: self.archived
            },
        )
    }
}

impl Endpoint for VacationReasons {
    open spec fn url_spec(&self) -> Seq<char> {
        "vacation-reasons"@
    }

    fn url(&self) -> (r: String) {
        String::from_str("vacation-reasons")
    }

    open spec fn method_spec(&self) -> Method {
        Method::Get
    }

    fn method(&self) -> (r: Method) {
        Method::Get
    }

    fn body(&self) -> (r: Result<Option<Vec<u8>>, BodyError>)
        ensures
            r matches Ok(b) && b is None,
    {
        no_body()
    }

    fn headers(&self) -> (r: Vec<(String, String)>) {
        no_headers()
    }

    open spec fn parameters_spec(&self) -> Seq<(Seq<char>, Seq<char>)> {
        spec_opt_param("sort"@, self.sort) + spec_opt_param("page"@, self.page) + spec_opt_param("name"@, self.name) + spec_opt_param("archived"@, self.archived)
    }

    fn parameters(&self) -> (r: QueryParams) {
        let mut params = QueryParams::new();
        params.push_opt("sort", &self.sort);
        params.push_opt("page", &self.page);
        params.push_opt("name", &self.name);
        params.push_opt("archived", &self.archived);
        proof {
            assert(params@ =~= self.parameters_spec());
        }
        params
    }
}

impl Pageable for VacationReasons {

}

/// One of the vacation reasons, by id.
#[derive(Debug)]
pub struct VacationReason {
    pub id: usize,
}

/// A builder for [`VacationReason`]; the id is required.
#[derive(Debug)]
pub struct VacationReasonBuilder {
    pub id: Option<usize>,
}

impl VacationReason {
    /// Create a builder for the endpoint.
    pub fn builder() -> (r: VacationReasonBuilder)
        ensures
            r == (VacationReasonBuilder { id: None }),
    {
        VacationReasonBuilder { id: None }
    }
}

impl VacationReasonBuilder {
    /// Pick the item.
    pub fn id(self, id: usize) -> (r: Self)
        ensures
            r == (VacationReasonBuilder { id: Some(id), ..self }),
    {
        VacationReasonBuilder { id: Some(id), ..self }
    }

    /// Build the endpoint; fails when the id was never set.
    pub fn build(self) -> (r: Result<VacationReason, BuilderError>)
        ensures
            match self.id {
                Some(id) => r matches Ok(res) && res == (VacationReason { id }),
                None => r matches Err(e) && e matches BuilderError::UninitializedField(f) && f@
                    == "id"@,
            },
    {
        match self.id {
            Some(id) => Ok(VacationReason { id }),
            None => Err(BuilderError::UninitializedField("id")),
        }
    }
}

impl Endpoint for VacationReason {
    open spec fn url_spec(&self) -> Seq<char> {
        "vacation-reasons/"@ + spec_u64_string(self.id as int)
    }

    fn url(&self) -> (r: String) {
        let mut s = String::from_str("vacation-reasons/");
        let digits = u64_string(self.id as u64);
        s.append(digits.as_str());
        s
    }

    open spec fn method_spec(&self) -> Method {
        Method::Get
    }

    fn method(&self) -> (r: Method) {
        Method::Get
    }

    fn body(&self) -> (r: Result<Option<Vec<u8>>, BodyError>)
        ensures
            r matches Ok(b) && b is None,
    {
        no_body()
    }

    fn headers(&self) -> (r: Vec<(String, String)>) {
        no_headers()
    }

    open spec fn parameters_spec(&self) -> Seq<(Seq<char>, Seq<char>)> {
        Seq::empty()
    }

    fn parameters(&self) -> (r: QueryParams) {
        QueryParams::new()
    }
}
} // verus!
