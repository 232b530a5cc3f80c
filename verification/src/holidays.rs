//! The holidays endpoints: one holiday by id, and the paged listing.

use vstd::prelude::*;
use vstd::string::*;

use crate::client::Method;
use crate::endpoint::{no_body, no_headers, Endpoint};
use crate::error::{BodyError, BuilderError};
use crate::paged::Pageable;
use crate::params::{spec_opt_param, spec_u64_string, u64_string, ParamValue, QueryParams};
use crate::sort_by::SortBy;
use crate::dates::Date;

verus! {

/// The sortable fields of the holidays listing.
#[derive(Debug, Clone, Copy, PartialEq, Eq)]
pub enum HolidaysSortBy {
    Name,
    Date,
    OrganizationUnitId,
}

impl Default for HolidaysSortBy {
    fn default() -> (r: Self)
        ensures
            r == HolidaysSortBy::Date,
    {
        HolidaysSortBy::Date
    }
}

impl HolidaysSortBy {
    /// The field's query-string name.
    pub open spec fn spec_as_str(self) -> Seq<char> {
        match self {
            HolidaysSortBy::Name => "name"@,
            HolidaysSortBy::Date => "date"@,
            HolidaysSortBy::OrganizationUnitId => "organization_unit_id"@,
        }
    }

    /// The field's query-string name.
    pub fn as_str(self) -> (r: &'static str)
        ensures
            r@ == self.spec_as_str(),
    {
        match self {
            HolidaysSortBy::Name => "name",
            HolidaysSortBy::Date => "date",
            HolidaysSortBy::OrganizationUnitId => "organization_unit_id",
        }
    }
}

impl ParamValue for HolidaysSortBy {
    open spec fn value_spec(&self) -> Seq<char> {
        self.spec_as_str()
    }

    fn as_value(&self) -> (r: String) {
        String::from_str(self.as_str())
    }
}

/// The paged listing of holidays.
#[derive(Debug)]
pub struct Holidays {
    pub sort: Option<SortBy<HolidaysSortBy>>,
    pub page: Option<u64>,
    pub name: Option<String>,
    pub from: Option<Date>,
    pub to: Option<Date>,
}

/// A builder for [`Holidays`]; every field is optional.
#[derive(Debug)]
pub struct HolidaysBuilder {
    pub sort: Option<SortBy<HolidaysSortBy>>,
    pub page: Option<u64>,
    pub name: Option<String>,
    pub from: Option<Date>,
    pub to: Option<Date>,
}

impl Holidays {
    /// Create a builder for the endpoint.
    pub fn builder() -> (r: HolidaysBuilder)
        ensures
            r == (HolidaysBuilder {
                sort: None,
                page: None,
                name: None,
                from: None,
                to: None
            }),
    {
        HolidaysBuilder { sort: None, page: None, name: None, from: None, to: None }
    }
}

impl HolidaysBuilder {
    /// Sort the listing.
    pub fn sort(self, sort: SortBy<HolidaysSortBy>) -> (r: Self)
        ensures
            r == (HolidaysBuilder { sort: Some(sort), ..self }),
    {
        HolidaysBuilder { sort: Some(sort), ..self }
    }

    /// Ask for one page.
    pub fn page(self, page: u64) -> (r: Self)
        ensures
            r == (HolidaysBuilder { page: Some(page), ..self }),
    {
        HolidaysBuilder { page: Some(page), ..self }
    }

    /// Filter by name.
    pub fn name(self, name: &str) -> (r: Self)
        ensures
            r matches (HolidaysBuilder { name: Some(n), .. }) && n@ == name@ && r == (HolidaysBuilder {
                name: r.name,
                ..self
            }),
    {
        HolidaysBuilder { name: Some(String::from_str(name)), ..self }
    }

    /// Keep holidays from this date on.
    pub fn from(self, from: Date) -> (r: Self)
        ensures
            r == (HolidaysBuilder { from: Some(from), ..self }),
    {
        HolidaysBuilder { from: Some(from), ..self }
    }

    /// Keep holidays up to this date.
    pub fn to(self, to: Date) -> (r: Self)
        ensures
            r == (HolidaysBuilder { to: Some(to), ..self }),
    {
        HolidaysBuilder { to: Some(to), ..self }
    }

    /// Build the endpoint; nothing is required, so this always succeeds.
    pub fn build(self) -> (r: Result<Holidays, BuilderError>)
        ensures
            r matches Ok(res) && res == (Holidays {
                sort: self.sort,
                page: self.page,
                name: self.name,
                from: self.from,
                to: self.to
            }),
    {
        Ok(
            Holidays {
                sort: self.sort,
                page: self.page,
                name: self.name,
                from: self.from,
                to: self.to
            },
        )
    }
}

impl Endpoint for Holidays {
    open spec fn url_spec(&self) -> Seq<char> {
        "holidays"@
    }

    fn url(&self) -> (r: String) {
        String::from_str("holidays")
    }

    open spec fn method_spec(&self) -> Method {
        Method::Get
    }

    fn method(&self) -> (r: Method) {
        Method::Get
    }

    fn body(&self) -> (r: Result<Option<Vec<u8>>, BodyError>)
        ensures
            r matches Ok(b) && b is None,
    {
        no_body()
    }

    fn headers(&self) -> (r: Vec<(String, String)>) {
        no_headers()
    }

    open spec fn parameters_spec(&self) -> Seq<(Seq<char>, Seq<char>)> {
        spec_opt_param("sort"@, self.sort) + spec_opt_param("page"@, self.page) + spec_opt_param("name"@, self.name) + spec_opt_param("from"@, self.from) + spec_opt_param("to"@, self.to)
    }

    fn parameters(&self) -> (r: QueryParams) {
        let mut params = QueryParams::new();
        params.push_opt("sort", &self.sort);
        params.push_opt("page", &self.page);
        params.push_opt("name", &self.name);
        params.push_opt("from", &self.from);
        params.push_opt("to", &self.to);
        proof {
            assert(params@ =~= self.parameters_spec());
        }
        params
    }
}

impl Pageable for Holidays {

}

/// One of the holidays, by id.
#[derive(Debug)]
pub struct Holiday {
    pub id: usize,
}

/// A builder for [`Holiday`]; the id is required.
#[derive(Debug)]
pub struct HolidayBuilder {
    pub id: Option<usize>,
}

impl Holiday {
    /// Create a builder for the endpoint.
    pub fn builder() -> (r: HolidayBuilder)
        ensures
            r == (HolidayBuilder { id: None }),
    {
        HolidayBuilder { id: None }
    }
}

impl HolidayBuilder {
    /// Pick the item.
    pub fn id(self, id: usize) -> (r: Self)
        ensures
            r == (HolidayBuilder { id: Some(id), ..self }),
    {
        HolidayBuilder { id: Some(id), ..self }
    }

    /// Build the endpoint; fails when the id was never set.
    pub fn build(self) -> (r: Result<Holiday, BuilderError>)
        ensures
            match self.id {
                Some(id) => r matches Ok(res) && res == (Holiday { id }),
                None => r matches Err(e) && e matches BuilderError::UninitializedField(f) && f@
                    == "id"@,
            },
    {
        match self.id {
            Some(id) => Ok(Holiday { id }),
            None => Err(BuilderError::UninitializedField("id")),
        }
    }
}

impl Endpoint for Holiday {
    open spec fn url_spec(&self) -> Seq<char> {
        "holidays/"@ + spec_u64_string(self.id as int)
    }

    fn url(&self) -> (r: String) {
        let mut s = String::from_str("holidays/");
        let digits = u64_string(self.id as u64);
        s.append(digits.as_str());
        s
    }

    open spec fn method_spec(&self) -> Method {
        Method::Get
    }

    fn method(&self) -> (r: Method) {
        Method::Get
    }

    fn body(&self) -> (r: Result<Option<Vec<u8>>, BodyError>)
        ensures
            r matches Ok(b) && b is None,
    {
        no_body()
    }

    fn headers(&self) -> (r: Vec<(String, String)>) {
        no_headers()
    }

    open spec fn parameters_spec(&self) -> Seq<(Seq<char>, Seq<char>)> {
        Seq::empty()
    }

    fn parameters(&self) -> (r: QueryParams) {
        QueryParams::new()
    }
}
} // verus!
